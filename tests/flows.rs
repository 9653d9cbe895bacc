use iot_connect::account::{otp_login_step, otp_verify_step, password_login_step, user_get, user_get_step, user_otp_login, user_otp_verify, user_password_login};
use iot_connect::api::{
    ApiReply, ConfirmRegistrationBody, CreateControllableBody, CreateDeviceBody,
    DeviceConnectControllable, DeviceInitialization, DeviceNotice, DeviceReply, Notice,
    OTPLoginBody, OTPLoginVerifyBody, PasswordLoginBody, ResponseBodyType, SetupRegistrationBody,
    UserRegistrationBody,
};
use iot_connect::error::ErrorType;
use iot_connect::fleet::{
    begin_device_initialization, coordinates_step, create_controllable, create_controllable_step,
    create_device, create_device_step, device_init_step, device_initialization, get_controllable,
};
use iot_connect::ids::{RecordId, Timestamp};
use iot_connect::mail::OutgoingMail;
use iot_connect::onboarding::{
    confirm_registration, confirm_step, registration_step, setup_registration, setup_step,
    user_registration,
};
use iot_connect::records::{Controllable, Device, LoginOTPTable, RegistrationTable, User};
use iot_connect::session::{create_user_token_at, verify_user_token_from_cookie_at};
use iot_connect::store::{Action, Event, StoreReply, StoreRequest, Step};

/// An in-memory store with the unique indexes of the real one.
#[derive(Default)]
struct MemStore {
    users: Vec<User>,
    registrations: Vec<RegistrationTable>,
    otps: Vec<LoginOTPTable>,
    devices: Vec<Device>,
    controllables: Vec<Controllable>,
    fail_next: bool,
}

impl MemStore {
    fn serve(&mut self, req: StoreRequest) -> StoreReply {
        if self.fail_next {
            self.fail_next = false;
            return StoreReply::Failed { message: "store down".to_string() };
        }
        match req {
            StoreRequest::FindUserByEmail { email } => {
                StoreReply::User(self.users.iter().find(|u| u.email == email).map(|u| u.duplicate()))
            }
            StoreRequest::FindUserByUsername { username } => StoreReply::User(
                self.users.iter().find(|u| u.username == username).map(|u| u.duplicate()),
            ),
            StoreRequest::FindUserByUsernameOrEmail { username, email } => StoreReply::User(
                self.users
                    .iter()
                    .find(|u| u.username == username || u.email == email)
                    .map(|u| u.duplicate()),
            ),
            StoreRequest::InsertUser { user } => {
                if self.users.iter().any(|u| u.email == user.email || u.username == user.username || u.id == user.id) {
                    StoreReply::DuplicateKey
                } else {
                    self.users.push(user);
                    StoreReply::Inserted
                }
            }
            StoreRequest::InsertRegistration { registration } => {
                self.registrations.push(registration);
                StoreReply::Inserted
            }
            StoreRequest::FindRegistrationByConfirmationToken { id, token } => StoreReply::Registration(
                self.registrations
                    .iter()
                    .find(|r| r.id == id && r.confirmation_token == token)
                    .map(|r| r.duplicate()),
            ),
            StoreRequest::MarkRegistrationConfirmed { id, token } => {
                let mut count = 0;
                for r in self.registrations.iter_mut() {
                    if r.id == id && r.confirmation_token == token {
                        r.confirmed = true;
                        count += 1;
                    }
                }
                StoreReply::Matched { count }
            }
            StoreRequest::FindRegistrationBySetupToken { id, token } => StoreReply::Registration(
                self.registrations
                    .iter()
                    .find(|r| r.id == id && r.setup_token == token)
                    .map(|r| r.duplicate()),
            ),
            StoreRequest::FindOtpByEmail { email } => StoreReply::Otp(
                self.otps.iter().find(|o| o.email == email).map(|o| LoginOTPTable {
                    email: o.email.clone(),
                    confirmation_token: o.confirmation_token.clone(),
                    created_at: o.created_at,
                }),
            ),
            StoreRequest::InsertOtp { otp } => {
                if self.otps.iter().any(|o| o.email == otp.email) {
                    StoreReply::DuplicateKey
                } else {
                    self.otps.push(otp);
                    StoreReply::Inserted
                }
            }
            StoreRequest::TakeOtp { email, code } => {
                match self.otps.iter().position(|o| o.email == email && o.confirmation_token == code) {
                    Some(i) => StoreReply::Otp(Some(self.otps.remove(i))),
                    None => StoreReply::Otp(None),
                }
            }
            StoreRequest::InsertDevice { device } => {
                if self.devices.iter().any(|d| d.device_key == device.device_key) {
                    StoreReply::DuplicateKey
                } else {
                    self.devices.push(device);
                    StoreReply::Inserted
                }
            }
            StoreRequest::MarkDeviceOnline { device_key, device_pass, at } => {
                let mut count = 0;
                for d in self.devices.iter_mut() {
                    if d.device_key == device_key && d.device_pass == device_pass {
                        d.last_online = Some(at);
                        d.status = 0;
                        count += 1;
                    }
                }
                StoreReply::Matched { count }
            }
            StoreRequest::FindDevice { device_key, device_pass } => StoreReply::Device(
                self.devices
                    .iter()
                    .find(|d| d.device_key == device_key && d.device_pass == device_pass)
                    .map(|d| d.duplicate()),
            ),
            StoreRequest::FindControllableByName { name } => StoreReply::Controllable(
                self.controllables
                    .iter()
                    .find(|c| c.controllable_name == name)
                    .map(|c| c.duplicate()),
            ),
            StoreRequest::InsertControllable { controllable } => {
                if self.controllables.iter().any(|c| c.controllable_name == controllable.controllable_name) {
                    StoreReply::DuplicateKey
                } else {
                    self.controllables.push(controllable);
                    StoreReply::Inserted
                }
            }
        }
    }

    /// Carries out an action: a store round trip, or a mail put in the outbox.
    fn perform(&mut self, action: Action, outbox: &mut Vec<OutgoingMail>) -> Event {
        match action {
            Action::Query(req) => Event::Store(self.serve(req)),
            Action::Mail(mail) => {
                outbox.push(mail);
                Event::MailSent
            }
        }
    }
}

/// Runs a flow to its answer against the store.
fn drive<S, R>(mut step: Step<S, R>, next: fn(S, Event) -> Step<S, R>, store: &mut MemStore, outbox: &mut Vec<OutgoingMail>) -> R {
    loop {
        match step {
            Step::Finish { reply } => return reply,
            Step::Continue { stage, action } => {
                let event = store.perform(action, outbox);
                step = next(stage, event);
            }
        }
    }
}

fn expect_continue<S, R>(step: Step<S, R>) -> (S, Action) {
    match step {
        Step::Continue { stage, action } => (stage, action),
        Step::Finish { .. } => panic!("the flow ended early"),
    }
}

fn expect_finish<S, R>(step: Step<S, R>) -> R {
    match step {
        Step::Finish { reply } => reply,
        Step::Continue { .. } => panic!("the flow did not end"),
    }
}

/// Registers `email` and returns the registration id, the mailed confirmation token.
fn register(store: &mut MemStore, email: &str) -> (RecordId, String) {
    let mut outbox = Vec::new();
    let reply = drive(
        user_registration(UserRegistrationBody { email: email.to_string() }),
        registration_step,
        store,
        &mut outbox,
    );
    assert_eq!(reply.status, 200);
    let id = match reply.data {
        Some(ResponseBodyType::UserRegistration { id }) => id,
        _ => panic!("no registration id"),
    };
    assert_eq!(outbox.len(), 1);
    let body = outbox[0].body();
    let start = body.find("TOKEN:[").unwrap() + 7;
    let token = body[start..start + 5].to_string();
    (id, token)
}

fn confirm(store: &mut MemStore, id: RecordId, token: &str) -> ApiReply {
    drive(
        confirm_registration(ConfirmRegistrationBody { id, token: token.to_string() }),
        confirm_step,
        store,
        &mut Vec::new(),
    )
}

fn setup(store: &mut MemStore, id: RecordId, token: &str, username: &str) -> ApiReply {
    drive(
        setup_registration(SetupRegistrationBody {
            id,
            token: token.to_string(),
            username: username.to_string(),
            password: "p".to_string(),
        }),
        setup_step,
        store,
        &mut Vec::new(),
    )
}

fn setup_token_of(reply: &ApiReply) -> String {
    match &reply.data {
        Some(ResponseBodyType::UserVerify { token, .. }) => token.clone(),
        _ => panic!("no setup token"),
    }
}

#[test]
fn happy_registration() {
    let mut store = MemStore::default();
    let mut outbox = Vec::new();
    let reply = drive(
        user_registration(UserRegistrationBody { email: "a@b.co".to_string() }),
        registration_step,
        &mut store,
        &mut outbox,
    );
    assert_eq!(reply.status, 200);
    assert_eq!(reply.into_body().message, "Successfully sent email confirmation to a@b.co!");
    assert_eq!(outbox[0].to, "a@b.co");
    assert_eq!(outbox[0].subject(), "Account Confirmation");
    let t1 = store.registrations[0].confirmation_token.clone();
    assert!(outbox[0].body().contains(&format!("TOKEN:[{t1}]")));
    let id = store.registrations[0].id;

    let confirmed = confirm(&mut store, id, &t1);
    assert_eq!(confirmed.status, 200);
    let t2 = setup_token_of(&confirmed);
    assert_eq!(t2, store.registrations[0].setup_token);
    assert!(store.registrations[0].confirmed);

    let done = setup(&mut store, id, &t2, "ann");
    assert_eq!(done.status, 200);
    assert_eq!(done.session_for.as_deref(), Some("a@b.co"));
    assert_eq!(store.users.len(), 1);
    assert_eq!(store.users[0].username, "ann");
    assert_eq!(store.users[0].email, "a@b.co");
    assert_eq!(store.registrations.len(), 1);
}

#[test]
fn wrong_confirmation_token() {
    let mut store = MemStore::default();
    let (id, _) = register(&mut store, "a@b.co");
    let reply = confirm(&mut store, id, "WRONG");
    assert_eq!(reply.status, 401);
    assert_eq!(reply.into_body().message, "Wrong token.");
    assert!(!store.registrations[0].confirmed);
}

#[test]
fn confirmation_twice_is_allowed() {
    let mut store = MemStore::default();
    let (id, t1) = register(&mut store, "a@b.co");
    assert_eq!(confirm(&mut store, id, &t1).status, 200);
    assert_eq!(confirm(&mut store, id, &t1).status, 200);
    assert!(store.registrations[0].confirmed);
}

#[test]
fn duplicate_email_registration() {
    let mut store = MemStore::default();
    let (id, t1) = register(&mut store, "a@b.co");
    let t2 = setup_token_of(&confirm(&mut store, id, &t1));
    assert_eq!(setup(&mut store, id, &t2, "ann").status, 200);
    let reply = drive(
        user_registration(UserRegistrationBody { email: "a@b.co".to_string() }),
        registration_step,
        &mut store,
        &mut Vec::new(),
    );
    assert_eq!(reply.status, 409);
    assert_eq!(reply.into_body().message, "There's duplicate found!");
}

#[test]
fn malformed_email_registration() {
    let reply = expect_finish(user_registration(UserRegistrationBody { email: "nope".to_string() }));
    assert_eq!(reply.status, 400);
    assert_eq!(reply.into_body().message, "Email is not valid!");
}

#[test]
fn failed_mail_is_reported() {
    let (stage, _) = expect_continue(user_registration(UserRegistrationBody { email: "a@b.co".to_string() }));
    let (stage, _) = expect_continue(registration_step(stage, Event::Store(StoreReply::User(None))));
    let (stage, action) = expect_continue(registration_step(stage, Event::Store(StoreReply::Inserted)));
    assert!(matches!(action, Action::Mail(_)));
    let reply = expect_finish(registration_step(stage, Event::MailFailed));
    assert_eq!(reply.status, 500);
    assert_eq!(reply.into_body().message, "There's an error when trying to send email");
}

#[test]
fn setup_with_wrong_token_and_reuse() {
    let mut store = MemStore::default();
    let (id, t1) = register(&mut store, "a@b.co");
    let t2 = setup_token_of(&confirm(&mut store, id, &t1));
    assert_eq!(setup(&mut store, id, "WRONG", "ann").status, 401);
    assert_eq!(setup(&mut store, id, &t2, "ann").status, 200);
    let again = setup(&mut store, id, &t2, "bob");
    assert_eq!(again.status, 409);
    assert_eq!(again.into_body().message, "Duplicates found.");
    assert_eq!(store.users.len(), 1);
}

#[test]
fn concurrent_setups_insert_one_user() {
    let mut store = MemStore::default();
    let (id, t1) = register(&mut store, "a@b.co");
    let t2 = setup_token_of(&confirm(&mut store, id, &t1));
    let body = |name: &str| SetupRegistrationBody {
        id,
        token: t2.clone(),
        username: name.to_string(),
        password: "p".to_string(),
    };
    let mut outbox = Vec::new();
    let (a, act_a) = expect_continue(setup_registration(body("ann")));
    let (b, act_b) = expect_continue(setup_registration(body("bob")));
    // Both find the registration, then both find no duplicate, then both insert.
    let ev_a = store.perform(act_a, &mut outbox);
    let ev_b = store.perform(act_b, &mut outbox);
    let (a, act_a) = expect_continue(setup_step(a, ev_a));
    let (b, act_b) = expect_continue(setup_step(b, ev_b));
    let ev_a = store.perform(act_a, &mut outbox);
    let ev_b = store.perform(act_b, &mut outbox);
    let (a, act_a) = expect_continue(setup_step(a, ev_a));
    let (b, act_b) = expect_continue(setup_step(b, ev_b));
    let ev_a = store.perform(act_a, &mut outbox);
    let ev_b = store.perform(act_b, &mut outbox);
    let ra = expect_finish(setup_step(a, ev_a));
    let rb = expect_finish(setup_step(b, ev_b));
    assert_eq!(ra.status, 200);
    assert_eq!(rb.status, 409);
    assert_eq!(store.users.iter().filter(|u| u.email == "a@b.co").count(), 1);
}

#[test]
fn registrations_interleaved_keep_emails_unique() {
    let mut store = MemStore::default();
    let (id1, c1) = register(&mut store, "a@b.co");
    let (id2, c2) = register(&mut store, "a@b.co");
    let s1 = setup_token_of(&confirm(&mut store, id1, &c1));
    let s2 = setup_token_of(&confirm(&mut store, id2, &c2));
    assert_eq!(setup(&mut store, id2, &s2, "ann").status, 200);
    assert_eq!(setup(&mut store, id1, &s1, "bob").status, 409);
    assert_eq!(store.users.len(), 1);
}

#[test]
fn setup_insert_refused_by_index() {
    let (stage, _) = expect_continue(setup_registration(SetupRegistrationBody {
        id: RecordId::fresh(),
        token: "abcde".to_string(),
        username: "ann".to_string(),
        password: "p".to_string(),
    }));
    let reg = RegistrationTable::new("a@b.co".to_string());
    let (stage, action) = expect_continue(setup_step(stage, Event::Store(StoreReply::Registration(Some(reg)))));
    match action {
        Action::Query(StoreRequest::FindUserByUsernameOrEmail { username, email }) => {
            assert_eq!(username, "ann");
            assert_eq!(email, "a@b.co");
        }
        _ => panic!("unexpected action"),
    }
    let (stage, _) = expect_continue(setup_step(stage, Event::Store(StoreReply::User(None))));
    let reply = expect_finish(setup_step(stage, Event::Store(StoreReply::DuplicateKey)));
    assert_eq!(reply.status, 409);
}

#[test]
fn store_failure_during_confirmation() {
    let mut store = MemStore::default();
    let (id, t1) = register(&mut store, "a@b.co");
    store.fail_next = true;
    let reply = confirm(&mut store, id, &t1);
    assert_eq!(reply.status, 500);
    assert_eq!(reply.into_body().message, "There's an unexpected error.");
}

#[test]
fn password_login() {
    let mut store = MemStore::default();
    store.users.push(User::new("ann".to_string(), "a@b.co".to_string(), "p".to_string()));
    let login = |store: &mut MemStore, user: &str, pass: &str| {
        drive(
            user_password_login(PasswordLoginBody { username: user.to_string(), password: pass.to_string() }),
            password_login_step,
            store,
            &mut Vec::new(),
        )
    };
    let ok = login(&mut store, "ann", "p");
    assert_eq!(ok.status, 200);
    assert_eq!(ok.session_for.as_deref(), Some("a@b.co"));
    assert_eq!(ok.into_body().message, "Successfully login.");
    assert_eq!(login(&mut store, "ann", "P").status, 401);
    assert_eq!(login(&mut store, "bob", "p").status, 404);
}

#[test]
fn otp_login_round() {
    let mut store = MemStore::default();
    let mut outbox = Vec::new();
    let request = |store: &mut MemStore, outbox: &mut Vec<OutgoingMail>| {
        drive(
            user_otp_login(OTPLoginBody { email: "a@b.co".to_string() }),
            otp_login_step,
            store,
            outbox,
        )
    };
    let first = request(&mut store, &mut outbox);
    assert_eq!(first.status, 200);
    assert_eq!(first.into_body().message, "Please, check your gmail message");
    assert_eq!(outbox[0].subject(), "OTP Login Confirmation");
    let second = request(&mut store, &mut outbox);
    assert_eq!(second.status, 409);
    let code = store.otps[0].confirmation_token.clone();
    let verify = |store: &mut MemStore, otp: &str| {
        drive(
            user_otp_verify(OTPLoginVerifyBody { email: "a@b.co".to_string(), otp: otp.to_string() }),
            otp_verify_step,
            store,
            &mut Vec::new(),
        )
    };
    assert_eq!(verify(&mut store, "WRONG").status, 401);
    let ok = verify(&mut store, &code);
    assert_eq!(ok.status, 200);
    assert_eq!(ok.session_for.as_deref(), Some("a@b.co"));
    assert_eq!(verify(&mut store, &code).status, 401);
}

#[test]
fn expired_session_user_get() {
    let claims = create_user_token_at("a@b.co", 1_000).unwrap();
    let session = verify_user_token_from_cookie_at(Some(claims), 1_000 + 86_401);
    let reply = expect_finish(user_get(session));
    assert_eq!(reply.status, 401);
    assert_eq!(reply.into_body().message, "Unauthorized.");
}

#[test]
fn user_get_with_session() {
    let mut store = MemStore::default();
    store.users.push(User::new("ann".to_string(), "a@b.co".to_string(), "p".to_string()));
    let found = drive(user_get(Ok("a@b.co".to_string())), user_get_step, &mut store, &mut Vec::new());
    assert_eq!(found.status, 200);
    assert!(matches!(found.data, Some(ResponseBodyType::UserGet { ref user_data }) if user_data.username == "ann"));
    let missing = drive(user_get(Ok("x@y.zz".to_string())), user_get_step, &mut store, &mut Vec::new());
    assert_eq!(missing.status, 404);
    assert_eq!(missing.into_body().message, "User not found.");
}

#[test]
fn device_provision_and_use() {
    let mut store = MemStore::default();
    let mut owner = User::new("ann".to_string(), "a@b.co".to_string(), "p".to_string());
    owner.mqtt_user = "mu".to_string();
    owner.mqtt_pass = "mp".to_string();
    store.users.push(owner);
    let session = || -> Result<String, ErrorType> { Ok("a@b.co".to_string()) };

    let created = drive(
        create_device(session(), CreateDeviceBody { device_name: "lamp".to_string() }),
        create_device_step,
        &mut store,
        &mut Vec::new(),
    );
    assert_eq!(created.status, 200);
    let (key, pass, device_id) = match &created.data {
        Some(ResponseBodyType::CreateDevice { device_data }) => {
            (device_data.device_key.clone(), device_data.device_pass.clone(), device_data.id)
        }
        _ => panic!("no device"),
    };
    assert_eq!(key, store.devices[0].device_key);

    let init = drive(
        device_initialization(DeviceInitialization { device_key: key.clone(), device_pass: pass.clone() }),
        device_init_step,
        &mut store,
        &mut Vec::new(),
    );
    assert_eq!((init.status(), init.text()), (200, "OK".to_string()));
    assert!(store.devices[0].last_online.is_some());

    let made = drive(
        create_controllable(
            session(),
            CreateControllableBody {
                device_id: device_id.to_hex(),
                controllable_name: "led1".to_string(),
                controllable_category: "LED".to_string(),
            },
        ),
        create_controllable_step,
        &mut store,
        &mut Vec::new(),
    );
    assert_eq!(made.status, 200);
    assert_eq!(store.controllables[0].device_id, device_id);
    let topic = store.controllables[0].topic_name.clone();

    let coords = drive(
        get_controllable(DeviceConnectControllable {
            controllable_name: "led1".to_string(),
            device_key: key,
            device_pass: pass,
        }),
        coordinates_step,
        &mut store,
        &mut Vec::new(),
    );
    assert_eq!(coords.status(), 200);
    assert_eq!(coords.text(), format!("{topic},mu,mp"));
}

#[test]
fn coordinates_failures() {
    let mut store = MemStore::default();
    let run = |store: &mut MemStore, name: &str, key: &str, pass: &str| {
        drive(
            get_controllable(DeviceConnectControllable {
                controllable_name: name.to_string(),
                device_key: key.to_string(),
                device_pass: pass.to_string(),
            }),
            coordinates_step,
            store,
            &mut Vec::new(),
        )
    };
    let r = run(&mut store, "led1", "k", "p");
    assert_eq!((r.status(), r.text()), (404, "Device not found.".to_string()));
    let device = Device::new("lamp".to_string(), "a@b.co".to_string());
    let (key, pass, id) = (device.device_key.clone(), device.device_pass.clone(), device.id);
    store.devices.push(device);
    let r = run(&mut store, "led1", &key, &pass);
    assert_eq!((r.status(), r.text()), (404, "Controllable not found.".to_string()));
    store.controllables.push(Controllable::new(
        "led1".to_string(),
        iot_connect::records::ControllableCategory::LED,
        id,
        "a@b.co".to_string(),
    ));
    let r = run(&mut store, "led1", &key, &pass);
    assert_eq!((r.status(), r.text()), (404, "User not found.".to_string()));
    store.fail_next = true;
    let r = run(&mut store, "led1", &key, &pass);
    assert_eq!((r.status(), r.text()), (500, "There's an error.".to_string()));
}

#[test]
fn repeated_initialization() {
    let mut store = MemStore::default();
    let device = Device::new("lamp".to_string(), "a@b.co".to_string());
    let (key, pass) = (device.device_key.clone(), device.device_pass.clone());
    store.devices.push(device);
    let mut last = i64::MIN;
    for t in [1_000i64, 1_000, 2_500, 9_000] {
        let reply = drive(
            begin_device_initialization(
                DeviceInitialization { device_key: key.clone(), device_pass: pass.clone() },
                Timestamp { millis: t },
            ),
            device_init_step,
            &mut store,
            &mut Vec::new(),
        );
        assert_eq!(reply.text(), "OK");
        assert_eq!(store.devices[0].status, 0);
        let seen = store.devices[0].last_online.unwrap().millis;
        assert_eq!(seen, t);
        assert!(seen >= last);
        last = seen;
    }
}

#[test]
fn initialization_of_unknown_device() {
    let mut store = MemStore::default();
    let reply = drive(
        begin_device_initialization(
            DeviceInitialization { device_key: "k".to_string(), device_pass: "p".to_string() },
            Timestamp { millis: 5 },
        ),
        device_init_step,
        &mut store,
        &mut Vec::new(),
    );
    assert_eq!((reply.status(), reply.text()), (404, "NOT FOUND".to_string()));
    store.fail_next = true;
    let reply = drive(
        begin_device_initialization(
            DeviceInitialization { device_key: "k".to_string(), device_pass: "p".to_string() },
            Timestamp { millis: 5 },
        ),
        device_init_step,
        &mut store,
        &mut Vec::new(),
    );
    assert_eq!((reply.status(), reply.text()), (500, "store down".to_string()));
}

#[test]
fn initialization_read_back_failure() {
    let (stage, _) = expect_continue(begin_device_initialization(
        DeviceInitialization { device_key: "k".to_string(), device_pass: "p".to_string() },
        Timestamp { millis: 5 },
    ));
    let (stage, _) = expect_continue(device_init_step(stage, Event::Store(StoreReply::Matched { count: 1 })));
    let reply = expect_finish(device_init_step(stage, Event::Store(StoreReply::Device(None))));
    assert!(matches!(reply, DeviceReply::Fixed { status: 404, notice: DeviceNotice::NotFound }));
}

#[test]
fn controllable_creation_refusals() {
    let mut store = MemStore::default();
    let unauth = expect_finish(create_controllable(
        Err(ErrorType::Unauthorized(None)),
        CreateControllableBody {
            device_id: "0123456789abcdef01234567".to_string(),
            controllable_name: "led1".to_string(),
            controllable_category: "LED".to_string(),
        },
    ));
    assert_eq!(unauth.status, 401);
    let bad = expect_finish(create_controllable(
        Ok("a@b.co".to_string()),
        CreateControllableBody {
            device_id: "0123456789abcdef01234567".to_string(),
            controllable_name: "led1".to_string(),
            controllable_category: "Lamp".to_string(),
        },
    ));
    assert_eq!(bad.status, 400);
    assert_eq!(bad.into_body().message, "Bad Request Body");
    let malformed = drive(
        create_controllable(
            Ok("a@b.co".to_string()),
            CreateControllableBody {
                device_id: "xyz".to_string(),
                controllable_name: "led1".to_string(),
                controllable_category: "LED".to_string(),
            },
        ),
        create_controllable_step,
        &mut store,
        &mut Vec::new(),
    );
    assert_eq!(malformed.status, 500);
    let make = |store: &mut MemStore| {
        drive(
            create_controllable(
                Ok("a@b.co".to_string()),
                CreateControllableBody {
                    device_id: "0123456789abcdef01234567".to_string(),
                    controllable_name: "led1".to_string(),
                    controllable_category: "Switch".to_string(),
                },
            ),
            create_controllable_step,
            store,
            &mut Vec::new(),
        )
    };
    assert_eq!(make(&mut store).status, 200);
    assert_eq!(store.controllables[0].topic_name.len(), 24);
    let dup = make(&mut store);
    assert_eq!(dup.status, 409);
    assert_eq!(store.controllables.len(), 1);
}

#[test]
fn device_creation_needs_session() {
    let reply = expect_finish(create_device(
        Err(ErrorType::Unauthorized(None)),
        CreateDeviceBody { device_name: "lamp".to_string() },
    ));
    assert_eq!(reply.status, 401);
    assert_eq!(reply.into_body().message, "Unauthorized.");
}
