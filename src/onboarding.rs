use vstd::prelude::*;
use crate::api::{
    plain, plain_reply, ApiReply, ConfirmRegistrationBody, Notice, ResponseBodyType,
    SetupRegistrationBody, UserRegistrationBody,
};
use crate::ids::RecordId;
use crate::mail::{is_email_shaped, is_valid_email, MailKind, OutgoingMail};
use crate::records::{RegistrationTable, User};
use crate::store::{
    conflicts, is_run, lemma_users_kept, serves, Action, Event, StoreModel, StoreReply,
    StoreRequest, Step,
};
use crate::tokens::is_short_token;

verus! {

// ---- Start of a registration -------------------------------------------------------------

/// Where a registration start stands.
#[derive(Debug)]
pub enum RegistrationStage {
    /// The address is being looked up among users; the registration is drawn but not stored.
    CheckingDuplicate { registration: RegistrationTable },
    /// The registration is being stored.
    Inserting { id: RecordId, email: String, token: String },
    /// The confirmation token is being mailed.
    Mailing { id: RecordId, email: String },
}

/// The decisions of a registration start.
pub open spec fn registration_next(stage: RegistrationStage, event: Event) -> Step<RegistrationStage, ApiReply> {
    match stage {
        RegistrationStage::CheckingDuplicate { registration } => match event {
            Event::Store(StoreReply::User(Some(_))) => Step::Finish {
                reply: plain_reply(409, Notice::DuplicateFound),
            },
            Event::Store(StoreReply::User(None)) => Step::Continue {
                stage: RegistrationStage::Inserting {
                    id: registration.id,
                    email: registration.email,
                    token: registration.confirmation_token,
                },
                action: Action::Query(StoreRequest::InsertRegistration { registration }),
            },
            _ => Step::Finish { reply: plain_reply(500, Notice::RegistrationFailed) },
        },
        RegistrationStage::Inserting { id, email, token } => match event {
            Event::Store(StoreReply::Inserted) => Step::Continue {
                stage: RegistrationStage::Mailing { id, email },
                action: Action::Mail(
                    OutgoingMail { to: email, kind: MailKind::AccountConfirmation, token },
                ),
            },
            _ => Step::Finish { reply: plain_reply(500, Notice::RegistrationFailed) },
        },
        RegistrationStage::Mailing { id, email } => match event {
            Event::MailSent => Step::Finish {
                reply: ApiReply {
                    status: 200,
                    notice: Notice::ConfirmationSent { email },
                    data: Some(ResponseBodyType::UserRegistration { id }),
                    session_for: None,
                },
            },
            _ => Step::Finish { reply: plain_reply(500, Notice::MailFailed) },
        },
    }
}

/// Starts a registration for `registration`'s address, given whether the address is well
/// shaped: a malformed one is refused with 400, else the address is looked up among users.
pub fn begin_registration(registration: RegistrationTable, email_shaped: bool) -> (r: Step<RegistrationStage, ApiReply>)
    ensures
        !email_shaped ==> r == (Step::<RegistrationStage, ApiReply>::Finish {
            reply: plain_reply(400, Notice::EmailNotValid),
        }),
        email_shaped ==> r == (Step::<RegistrationStage, ApiReply>::Continue {
            stage: RegistrationStage::CheckingDuplicate { registration },
            action: Action::Query(StoreRequest::FindUserByEmail { email: registration.email }),
        }),
{
    if !email_shaped {
        return Step::Finish { reply: plain(400, Notice::EmailNotValid) };
    }
    let email = registration.email.clone();
    Step::Continue {
        stage: RegistrationStage::CheckingDuplicate { registration },
        action: Action::Query(StoreRequest::FindUserByEmail { email }),
    }
}

/// Starts a registration: checks the address's shape and draws the registration with its
/// two tokens.
pub fn user_registration(body: UserRegistrationBody) -> (r: Step<RegistrationStage, ApiReply>)
    ensures
        !is_email_shaped(body.email@) ==> r == (Step::<RegistrationStage, ApiReply>::Finish {
            reply: plain_reply(400, Notice::EmailNotValid),
        }),
        is_email_shaped(body.email@) ==> exists|reg: RegistrationTable|
            {
                &&& reg.email == body.email
                &&& !reg.confirmed
                &&& is_short_token(reg.confirmation_token@)
                &&& is_short_token(reg.setup_token@)
                &&& r == (Step::<RegistrationStage, ApiReply>::Continue {
                    stage: RegistrationStage::CheckingDuplicate { registration: reg },
                    action: Action::Query(StoreRequest::FindUserByEmail { email: body.email }),
                })
            },
{
    let shaped = is_valid_email(body.email.as_str());
    let registration = RegistrationTable::new(body.email);
    begin_registration(registration, shaped)
}

/// One step of a registration start.
pub fn registration_step(stage: RegistrationStage, event: Event) -> (r: Step<RegistrationStage, ApiReply>)
    ensures
        r == registration_next(stage, event),
{
    match stage {
        RegistrationStage::CheckingDuplicate { registration } => match event {
            Event::Store(StoreReply::User(Some(_))) => Step::Finish {
                reply: plain(409, Notice::DuplicateFound),
            },
            Event::Store(StoreReply::User(None)) => {
                let stage = RegistrationStage::Inserting {
                    id: registration.id,
                    email: registration.email.clone(),
                    token: registration.confirmation_token.clone(),
                };
                Step::Continue {
                    stage,
                    action: Action::Query(StoreRequest::InsertRegistration { registration }),
                }
            },
            _ => Step::Finish { reply: plain(500, Notice::RegistrationFailed) },
        },
        RegistrationStage::Inserting { id, email, token } => match event {
            Event::Store(StoreReply::Inserted) => {
                let to = email.clone();
                Step::Continue {
                    stage: RegistrationStage::Mailing { id, email },
                    action: Action::Mail(
                        OutgoingMail { to, kind: MailKind::AccountConfirmation, token },
                    ),
                }
            },
            _ => Step::Finish { reply: plain(500, Notice::RegistrationFailed) },
        },
        RegistrationStage::Mailing { id, email } => match event {
            Event::MailSent => Step::Finish {
                reply: ApiReply {
                    status: 200,
                    notice: Notice::ConfirmationSent { email },
                    data: Some(ResponseBodyType::UserRegistration { id }),
                    session_for: None,
                },
            },
            _ => Step::Finish { reply: plain(500, Notice::MailFailed) },
        },
    }
}

// ---- Confirmation --------------------------------------------------------------------------

/// Where a confirmation stands.
#[derive(Debug)]
pub enum ConfirmStage {
    /// The registration with this id and confirmation token is being looked up.
    Looking { id: RecordId, token: String },
    /// The registration found is being marked confirmed.
    Marking { registration: RegistrationTable },
}

/// The decisions of a confirmation.
pub open spec fn confirm_next(stage: ConfirmStage, event: Event) -> Step<ConfirmStage, ApiReply> {
    match stage {
        ConfirmStage::Looking { id, token } => match event {
            Event::Store(StoreReply::Registration(Some(registration))) => Step::Continue {
                stage: ConfirmStage::Marking { registration },
                action: Action::Query(StoreRequest::MarkRegistrationConfirmed { id, token }),
            },
            Event::Store(StoreReply::Registration(None)) => Step::Finish {
                reply: plain_reply(401, Notice::WrongToken),
            },
            _ => Step::Finish { reply: plain_reply(500, Notice::UnexpectedError) },
        },
        ConfirmStage::Marking { registration } => match event {
            Event::Store(StoreReply::Matched { .. }) => Step::Finish {
                reply: ApiReply {
                    status: 200,
                    notice: Notice::RegistrationVerified,
                    data: Some(
                        ResponseBodyType::UserVerify {
                            token: registration.setup_token,
                            id: registration.id,
                        },
                    ),
                    session_for: None,
                },
            },
            _ => Step::Finish { reply: plain_reply(500, Notice::UnexpectedError) },
        },
    }
}

/// Starts a confirmation: looks the registration up by id and confirmation token.
pub fn confirm_registration(body: ConfirmRegistrationBody) -> (r: Step<ConfirmStage, ApiReply>)
    ensures
        r == (Step::<ConfirmStage, ApiReply>::Continue {
            stage: ConfirmStage::Looking { id: body.id, token: body.token },
            action: Action::Query(
                StoreRequest::FindRegistrationByConfirmationToken { id: body.id, token: body.token },
            ),
        }),
{
    let token = body.token.clone();
    Step::Continue {
        stage: ConfirmStage::Looking { id: body.id, token },
        action: Action::Query(
            StoreRequest::FindRegistrationByConfirmationToken { id: body.id, token: body.token },
        ),
    }
}

/// One step of a confirmation.
pub fn confirm_step(stage: ConfirmStage, event: Event) -> (r: Step<ConfirmStage, ApiReply>)
    ensures
        r == confirm_next(stage, event),
{
    match stage {
        ConfirmStage::Looking { id, token } => match event {
            Event::Store(StoreReply::Registration(Some(registration))) => Step::Continue {
                stage: ConfirmStage::Marking { registration },
                action: Action::Query(StoreRequest::MarkRegistrationConfirmed { id, token }),
            },
            Event::Store(StoreReply::Registration(None)) => Step::Finish {
                reply: plain(401, Notice::WrongToken),
            },
            _ => Step::Finish { reply: plain(500, Notice::UnexpectedError) },
        },
        ConfirmStage::Marking { registration } => match event {
            Event::Store(StoreReply::Matched { .. }) => Step::Finish {
                reply: ApiReply {
                    status: 200,
                    notice: Notice::RegistrationVerified,
                    data: Some(
                        ResponseBodyType::UserVerify {
                            token: registration.setup_token,
                            id: registration.id,
                        },
                    ),
                    session_for: None,
                },
            },
            _ => Step::Finish { reply: plain(500, Notice::UnexpectedError) },
        },
    }
}

/// No two registrations share an id.
pub open spec fn registration_ids_unique(s: StoreModel) -> bool {
    forall|i: int, j: int|
        0 <= i < s.registrations.len() && 0 <= j < s.registrations.len() && i != j ==> (
        #[trigger] s.registrations[i]).id != (#[trigger] s.registrations[j]).id
}

/// Presenting a registration's id with any token other than its confirmation token is
/// answered 401 "Wrong token." and changes nothing in the store, so the registration's
/// `confirmed` flag stays as it was (when the store answers at all).
pub proof fn lemma_wrong_confirmation_token(
    s: StoreModel,
    i: int,
    token: String,
    reply: StoreReply,
    s2: StoreModel,
)
    requires
        registration_ids_unique(s),
        0 <= i < s.registrations.len(),
        s.registrations[i].confirmation_token@ != token@,
        serves(
            s,
            StoreRequest::FindRegistrationByConfirmationToken { id: s.registrations[i].id, token },
            reply,
            s2,
        ),
        !(reply is Failed),
    ensures
        s2 == s,
        s2.registrations[i].confirmed == s.registrations[i].confirmed,
        confirm_next(
            ConfirmStage::Looking { id: s.registrations[i].id, token },
            Event::Store(reply),
        ) == (Step::<ConfirmStage, ApiReply>::Finish { reply: plain_reply(401, Notice::WrongToken) }),
{
    if let StoreReply::Registration(Some(r)) = reply {
        let k = choose|k: int| 0 <= k < s.registrations.len() && s.registrations[k] == r;
        assert(s.registrations[k] == r);
    }
}

// ---- Account setup -------------------------------------------------------------------------

/// Where an account setup stands.
#[derive(Debug)]
pub enum SetupStage {
    /// The registration with this id and setup token is being looked up.
    Looking { new_id: RecordId, username: String, password: String },
    /// A user with the username or the registration's address is being looked for.
    CheckingDuplicate { new_id: RecordId, username: String, password: String, email: String },
    /// The new user is being stored.
    Inserting { user: User },
}

/// The decisions of an account setup, where the new account is built.
pub open spec fn setup_next(stage: SetupStage, event: Event, r: Step<SetupStage, ApiReply>) -> bool {
    match stage {
        SetupStage::Looking { new_id, username, password } => match event {
            Event::Store(StoreReply::Registration(Some(registration))) => r == (Step::<
                SetupStage,
                ApiReply,
            >::Continue {
                stage: SetupStage::CheckingDuplicate {
                    new_id,
                    username,
                    password,
                    email: registration.email,
                },
                action: Action::Query(
                    StoreRequest::FindUserByUsernameOrEmail { username, email: registration.email },
                ),
            }),
            Event::Store(StoreReply::Registration(None)) => r == (Step::<
                SetupStage,
                ApiReply,
            >::Finish { reply: plain_reply(401, Notice::WrongToken) }),
            _ => r == (Step::<SetupStage, ApiReply>::Finish {
                reply: plain_reply(500, Notice::UnexpectedError),
            }),
        },
        SetupStage::CheckingDuplicate { new_id, username, password, email } => match event {
            Event::Store(StoreReply::User(Some(_))) => r == (Step::<SetupStage, ApiReply>::Finish {
                reply: plain_reply(409, Notice::DuplicatesFound),
            }),
            Event::Store(StoreReply::User(None)) => r matches Step::Continue {
                stage: SetupStage::Inserting { user },
                action: Action::Query(StoreRequest::InsertUser { user: inserted }),
            } && inserted == user && user.id == new_id && user.username == username && user.email
                == email && user.password == password && user.mqtt_user@.len() == 0
                && user.mqtt_pass@.len() == 0,
            _ => r == (Step::<SetupStage, ApiReply>::Finish {
                reply: plain_reply(500, Notice::UnexpectedError),
            }),
        },
        SetupStage::Inserting { user } => r == setup_insert_next(user, event),
    }
}

/// The answer of an account setup once the new user has been sent to the store: 200 with the
/// user and a session for its address, 409 if a unique index refused it, else 500.
pub open spec fn setup_insert_next(user: User, event: Event) -> Step<SetupStage, ApiReply> {
    match event {
        Event::Store(StoreReply::Inserted) => Step::Finish {
            reply: ApiReply {
                status: 200,
                notice: Notice::Registered,
                data: Some(ResponseBodyType::UserSetup { user_data: user }),
                session_for: Some(user.email),
            },
        },
        Event::Store(StoreReply::DuplicateKey) => Step::Finish {
            reply: plain_reply(409, Notice::DuplicatesFound),
        },
        _ => Step::Finish { reply: plain_reply(500, Notice::UnexpectedError) },
    }
}

/// Starts an account setup under the id `new_id`: looks the registration up by id and setup
/// token.
pub fn begin_setup(body: SetupRegistrationBody, new_id: RecordId) -> (r: Step<SetupStage, ApiReply>)
    ensures
        r == (Step::<SetupStage, ApiReply>::Continue {
            stage: SetupStage::Looking { new_id, username: body.username, password: body.password },
            action: Action::Query(
                StoreRequest::FindRegistrationBySetupToken { id: body.id, token: body.token },
            ),
        }),
{
    Step::Continue {
        stage: SetupStage::Looking { new_id, username: body.username, password: body.password },
        action: Action::Query(
            StoreRequest::FindRegistrationBySetupToken { id: body.id, token: body.token },
        ),
    }
}

/// Starts an account setup under a fresh id.
pub fn setup_registration(body: SetupRegistrationBody) -> (r: Step<SetupStage, ApiReply>)
    ensures
        exists|new_id: RecordId|
            r == (Step::<SetupStage, ApiReply>::Continue {
                stage: SetupStage::Looking {
                    new_id,
                    username: body.username,
                    password: body.password,
                },
                action: Action::Query(
                    StoreRequest::FindRegistrationBySetupToken { id: body.id, token: body.token },
                ),
            }),
{
    begin_setup(body, RecordId::fresh())
}

/// One step of an account setup.
pub fn setup_step(stage: SetupStage, event: Event) -> (r: Step<SetupStage, ApiReply>)
    ensures
        setup_next(stage, event, r),
{
    match stage {
        SetupStage::Looking { new_id, username, password } => match event {
            Event::Store(StoreReply::Registration(Some(registration))) => {
                let email = registration.email.clone();
                let name = username.clone();
                Step::Continue {
                    stage: SetupStage::CheckingDuplicate {
                        new_id,
                        username,
                        password,
                        email: registration.email,
                    },
                    action: Action::Query(
                        StoreRequest::FindUserByUsernameOrEmail { username: name, email },
                    ),
                }
            },
            Event::Store(StoreReply::Registration(None)) => Step::Finish {
                reply: plain(401, Notice::WrongToken),
            },
            _ => Step::Finish { reply: plain(500, Notice::UnexpectedError) },
        },
        SetupStage::CheckingDuplicate { new_id, username, password, email } => match event {
            Event::Store(StoreReply::User(Some(_))) => Step::Finish {
                reply: plain(409, Notice::DuplicatesFound),
            },
            Event::Store(StoreReply::User(None)) => {
                let user = User::with_id(new_id, username, email, password);
                let kept = user.duplicate();
                Step::Continue {
                    stage: SetupStage::Inserting { user: kept },
                    action: Action::Query(StoreRequest::InsertUser { user }),
                }
            },
            _ => Step::Finish { reply: plain(500, Notice::UnexpectedError) },
        },
        SetupStage::Inserting { user } => match event {
            Event::Store(StoreReply::Inserted) => {
                let email = user.email.clone();
                Step::Finish {
                    reply: ApiReply {
                        status: 200,
                        notice: Notice::Registered,
                        data: Some(ResponseBodyType::UserSetup { user_data: user }),
                        session_for: Some(email),
                    },
                }
            },
            Event::Store(StoreReply::DuplicateKey) => Step::Finish {
                reply: plain(409, Notice::DuplicatesFound),
            },
            _ => Step::Finish { reply: plain(500, Notice::UnexpectedError) },
        },
    }
}

/// Along a run, users are never removed or changed.
pub proof fn lemma_users_kept_along(
    states: Seq<StoreModel>,
    requests: Seq<StoreRequest>,
    replies: Seq<StoreReply>,
    a: int,
    b: int,
)
    requires
        is_run(states, requests, replies),
        0 <= a <= b < states.len(),
    ensures
        states[a].users.len() <= states[b].users.len(),
        forall|i: int| 0 <= i < states[a].users.len() ==> states[b].users[i] == states[a].users[i],
    decreases b - a,
{
    if a < b {
        lemma_users_kept_along(states, requests, replies, a, b - 1);
        assert(serves(states[b - 1], requests[b - 1], replies[b - 1], states[b]));
        lemma_users_kept(states[b - 1], requests[b - 1], replies[b - 1], states[b]);
    }
}

/// However two setups of one registration interleave, at most one of them inserts a user:
/// once a user with an address has been inserted, any later insert of a user with that
/// address is refused by the store (or fails) and lands nothing, and the setup that sent it
/// answers 409 "Duplicates found." (or 500 when the store failed).
pub proof fn lemma_setup_inserts_once(
    states: Seq<StoreModel>,
    requests: Seq<StoreRequest>,
    replies: Seq<StoreReply>,
    i: int,
    j: int,
)
    requires
        is_run(states, requests, replies),
        0 <= i < j < requests.len(),
        requests[i] is InsertUser,
        requests[j] is InsertUser,
        requests[i]->InsertUser_user.email@ == requests[j]->InsertUser_user.email@,
        replies[i] is Inserted,
    ensures
        replies[j] is DuplicateKey || replies[j] is Failed,
        states[j + 1] == states[j],
        setup_insert_next(requests[j]->InsertUser_user, Event::Store(replies[j])) == (Step::<
            SetupStage,
            ApiReply,
        >::Finish { reply: plain_reply(409, Notice::DuplicatesFound) }) || setup_insert_next(
            requests[j]->InsertUser_user,
            Event::Store(replies[j]),
        ) == (Step::<SetupStage, ApiReply>::Finish {
            reply: plain_reply(500, Notice::UnexpectedError),
        }),
{
    assert(serves(states[i], requests[i], replies[i], states[i + 1]));
    let u1 = requests[i]->InsertUser_user;
    let n = states[i].users.len() as int;
    assert(states[i + 1].users[n] == u1);
    lemma_users_kept_along(states, requests, replies, i + 1, j);
    assert(states[j].users[n] == u1);
    assert(serves(states[j], requests[j], replies[j], states[j + 1]));
    assert(conflicts(states[j], requests[j]));
}

} // verus!
