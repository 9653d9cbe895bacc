use vstd::prelude::*;
use crate::ids::{RecordId, Timestamp};
use crate::mail::OutgoingMail;
use crate::records::{Controllable, Device, LoginOTPTable, RegistrationTable, User};

verus! {

/// One round trip to the document store, as the request flows ask for it.
#[derive(Debug)]
pub enum StoreRequest {
    FindUserByEmail { email: String },
    FindUserByUsername { username: String },
    /// A user that has the username, or the address, or both.
    FindUserByUsernameOrEmail { username: String, email: String },
    InsertUser { user: User },
    InsertRegistration { registration: RegistrationTable },
    FindRegistrationByConfirmationToken { id: RecordId, token: String },
    MarkRegistrationConfirmed { id: RecordId, token: String },
    FindRegistrationBySetupToken { id: RecordId, token: String },
    FindOtpByEmail { email: String },
    InsertOtp { otp: LoginOTPTable },
    /// Finds the code issued to the address and deletes it, in one step.
    TakeOtp { email: String, code: String },
    InsertDevice { device: Device },
    /// Sets `last_online` and a zero `status` on the device with these credentials.
    MarkDeviceOnline { device_key: String, device_pass: String, at: Timestamp },
    FindDevice { device_key: String, device_pass: String },
    FindControllableByName { name: String },
    InsertControllable { controllable: Controllable },
}

/// The store's answer to a request.
#[derive(Debug)]
pub enum StoreReply {
    User(Option<User>),
    Registration(Option<RegistrationTable>),
    Otp(Option<LoginOTPTable>),
    Device(Option<Device>),
    Controllable(Option<Controllable>),
    Inserted,
    /// How many documents a conditional update matched.
    Matched { count: u64 },
    /// An insert refused by a unique index.
    DuplicateKey,
    Failed { message: String },
}

/// What a flow is told after its last action.
#[derive(Debug)]
pub enum Event {
    Store(StoreReply),
    MailSent,
    MailFailed,
}

/// The outside work a flow asks for.
#[derive(Debug)]
pub enum Action {
    Query(StoreRequest),
    Mail(OutgoingMail),
}

/// The result of one step of a flow: the next stage and the work to do, or the answer.
#[derive(Debug)]
pub enum Step<S, R> {
    Continue { stage: S, action: Action },
    Finish { reply: R },
}

/// The contents of the store: one sequence of documents for each collection.
pub struct StoreModel {
    pub users: Seq<User>,
    pub registrations: Seq<RegistrationTable>,
    pub otps: Seq<LoginOTPTable>,
    pub devices: Seq<Device>,
    pub controllables: Seq<Controllable>,
}

/// `found` is an answer to a lookup among `rows` by `pred`: a row that satisfies it, or
/// `None` when none does.
pub open spec fn finds<T>(rows: Seq<T>, pred: spec_fn(T) -> bool, found: Option<T>) -> bool {
    match found {
        Some(x) => rows.contains(x) && pred(x),
        None => forall|i: int| 0 <= i < rows.len() ==> !pred(#[trigger] rows[i]),
    }
}

pub open spec fn registration_has_confirmation(r: RegistrationTable, id: RecordId, token: Seq<char>) -> bool {
    r.id == id && r.confirmation_token@ == token
}

pub open spec fn registration_has_setup(r: RegistrationTable, id: RecordId, token: Seq<char>) -> bool {
    r.id == id && r.setup_token@ == token
}

pub open spec fn device_has_credentials(d: Device, key: Seq<char>, pass: Seq<char>) -> bool {
    d.device_key@ == key && d.device_pass@ == pass
}

pub open spec fn otp_matches(o: LoginOTPTable, email: Seq<char>, otp: Seq<char>) -> bool {
    o.email@ == email && o.confirmation_token@ == otp
}

/// Whether a request writes.
pub open spec fn is_write(req: StoreRequest) -> bool {
    match req {
        StoreRequest::InsertUser { .. } => true,
        StoreRequest::InsertRegistration { .. } => true,
        StoreRequest::MarkRegistrationConfirmed { .. } => true,
        StoreRequest::InsertOtp { .. } => true,
        StoreRequest::TakeOtp { .. } => true,
        StoreRequest::InsertDevice { .. } => true,
        StoreRequest::MarkDeviceOnline { .. } => true,
        StoreRequest::InsertControllable { .. } => true,
        _ => false,
    }
}

/// Whether an insert would break one of the store's unique indexes: `_id` everywhere, the
/// address and the username of users, the address of a login code, the key of a device and
/// the name of a controllable.
pub open spec fn conflicts(s: StoreModel, req: StoreRequest) -> bool {
    match req {
        StoreRequest::InsertUser { user } => exists|i: int|
            0 <= i < s.users.len() && {
                let u = #[trigger] s.users[i];
                u.id == user.id || u.email@ == user.email@ || u.username@ == user.username@
            },
        StoreRequest::InsertRegistration { registration } => exists|i: int|
            0 <= i < s.registrations.len() && (#[trigger] s.registrations[i]).id == registration.id,
        StoreRequest::InsertOtp { otp } => exists|i: int|
            0 <= i < s.otps.len() && (#[trigger] s.otps[i]).email@ == otp.email@,
        StoreRequest::InsertDevice { device } => exists|i: int|
            0 <= i < s.devices.len() && {
                let d = #[trigger] s.devices[i];
                d.id == device.id || d.device_key@ == device.device_key@
            },
        StoreRequest::InsertControllable { controllable } => exists|i: int|
            0 <= i < s.controllables.len() && {
                let c = #[trigger] s.controllables[i];
                c.id == controllable.id || c.controllable_name@ == controllable.controllable_name@
            },
        _ => false,
    }
}

pub open spec fn confirmed(r: RegistrationTable) -> RegistrationTable {
    RegistrationTable { confirmed: true, ..r }
}

pub open spec fn seen_online(d: Device, at: Timestamp) -> Device {
    Device { last_online: Some(at), status: 0, ..d }
}

/// The contents after a request has been carried out.
pub open spec fn applied(s: StoreModel, req: StoreRequest) -> StoreModel {
    match req {
        StoreRequest::InsertUser { user } => StoreModel { users: s.users.push(user), ..s },
        StoreRequest::InsertRegistration { registration } => StoreModel {
            registrations: s.registrations.push(registration),
            ..s
        },
        StoreRequest::MarkRegistrationConfirmed { id, token } => StoreModel {
            registrations: s.registrations.map_values(
                |r: RegistrationTable|
                    if registration_has_confirmation(r, id, token@) {
                        confirmed(r)
                    } else {
                        r
                    },
            ),
            ..s
        },
        StoreRequest::InsertOtp { otp } => StoreModel { otps: s.otps.push(otp), ..s },
        StoreRequest::TakeOtp { email, code } => StoreModel {
            otps: s.otps.filter(|o: LoginOTPTable| !otp_matches(o, email@, code@)),
            ..s
        },
        StoreRequest::InsertDevice { device } => StoreModel { devices: s.devices.push(device), ..s },
        StoreRequest::MarkDeviceOnline { device_key, device_pass, at } => StoreModel {
            devices: s.devices.map_values(
                |d: Device|
                    if device_has_credentials(d, device_key@, device_pass@) {
                        seen_online(d, at)
                    } else {
                        d
                    },
            ),
            ..s
        },
        StoreRequest::InsertControllable { controllable } => StoreModel {
            controllables: s.controllables.push(controllable),
            ..s
        },
        _ => s,
    }
}

/// Whether `reply` is what a successful round trip of `req` on `s` answers.
pub open spec fn answers(s: StoreModel, req: StoreRequest, reply: StoreReply) -> bool {
    match req {
        StoreRequest::FindUserByEmail { email } => reply matches StoreReply::User(found) && finds(
            s.users,
            |u: User| u.email@ == email@,
            found,
        ),
        StoreRequest::FindUserByUsername { username } => reply matches StoreReply::User(found)
            && finds(s.users, |u: User| u.username@ == username@, found),
        StoreRequest::FindUserByUsernameOrEmail { username, email } => reply matches StoreReply::User(
            found,
        ) && finds(s.users, |u: User| u.username@ == username@ || u.email@ == email@, found),
        StoreRequest::FindRegistrationByConfirmationToken { id, token } => reply matches StoreReply::Registration(
            found,
        ) && finds(
            s.registrations,
            |r: RegistrationTable| registration_has_confirmation(r, id, token@),
            found,
        ),
        StoreRequest::FindRegistrationBySetupToken { id, token } => reply matches StoreReply::Registration(
            found,
        ) && finds(s.registrations, |r: RegistrationTable| registration_has_setup(r, id, token@), found),
        StoreRequest::MarkRegistrationConfirmed { id, token } => reply matches StoreReply::Matched {
            count,
        } && (count > 0 <==> exists|i: int|
            0 <= i < s.registrations.len() && registration_has_confirmation(
                #[trigger] s.registrations[i],
                id,
                token@,
            )),
        StoreRequest::FindOtpByEmail { email } => reply matches StoreReply::Otp(found) && finds(
            s.otps,
            |o: LoginOTPTable| o.email@ == email@,
            found,
        ),
        StoreRequest::TakeOtp { email, code } => reply matches StoreReply::Otp(found) && finds(
            s.otps,
            |o: LoginOTPTable| otp_matches(o, email@, code@),
            found,
        ),
        StoreRequest::MarkDeviceOnline { device_key, device_pass, .. } => reply matches StoreReply::Matched {
            count,
        } && (count > 0 <==> exists|i: int|
            0 <= i < s.devices.len() && device_has_credentials(
                #[trigger] s.devices[i],
                device_key@,
                device_pass@,
            )),
        StoreRequest::FindDevice { device_key, device_pass } => reply matches StoreReply::Device(found)
            && finds(s.devices, |d: Device| device_has_credentials(d, device_key@, device_pass@), found),
        StoreRequest::FindControllableByName { name } => reply matches StoreReply::Controllable(found)
            && finds(s.controllables, |c: Controllable| c.controllable_name@ == name@, found),
        _ => reply is Inserted,
    }
}

/// The store's contract: from contents `s`, request `req` may be answered with `reply` and
/// leave contents `s2`. Each request is one atomic round trip. An insert that would break a
/// unique index is refused; a failed write may or may not have landed.
pub open spec fn serves(s: StoreModel, req: StoreRequest, reply: StoreReply, s2: StoreModel) -> bool {
    match reply {
        StoreReply::Failed { .. } => s2 == s || (is_write(req) && !conflicts(s, req) && s2 == applied(
            s,
            req,
        )),
        StoreReply::DuplicateKey => is_write(req) && conflicts(s, req) && s2 == s,
        _ => !conflicts(s, req) && answers(s, req, reply) && s2 == applied(s, req),
    }
}

/// A run of the store: `states[k]` is answered `replies[k]` to `requests[k]` and becomes
/// `states[k + 1]`, whichever flows the requests came from and however they interleave.
pub open spec fn is_run(states: Seq<StoreModel>, requests: Seq<StoreRequest>, replies: Seq<StoreReply>) -> bool {
    &&& states.len() == requests.len() + 1
    &&& replies.len() == requests.len()
    &&& forall|k: int|
        0 <= k < requests.len() ==> serves(states[k], #[trigger] requests[k], replies[k], states[k + 1])
}

/// No two users share an address or a username.
pub open spec fn users_unique(users: Seq<User>) -> bool {
    forall|i: int, j: int|
        0 <= i < users.len() && 0 <= j < users.len() && i != j ==> (#[trigger] users[i]).email@
            != (#[trigger] users[j]).email@ && users[i].username@ != users[j].username@
}

/// Users are never removed or changed: each answer keeps the earlier ones as a prefix.
pub proof fn lemma_users_kept(s: StoreModel, req: StoreRequest, reply: StoreReply, s2: StoreModel)
    requires
        serves(s, req, reply, s2),
    ensures
        s.users.len() <= s2.users.len(),
        forall|i: int| 0 <= i < s.users.len() ==> s2.users[i] == s.users[i],
{
}

/// Each answer of the store keeps addresses and usernames unique among users.
pub proof fn lemma_users_unique_step(s: StoreModel, req: StoreRequest, reply: StoreReply, s2: StoreModel)
    requires
        serves(s, req, reply, s2),
        users_unique(s.users),
    ensures
        users_unique(s2.users),
{
    if s2 != s {
        if let StoreRequest::InsertUser { user } = req {
            assert(s2.users == s.users.push(user));
            assert forall|i: int, j: int|
                0 <= i < s2.users.len() && 0 <= j < s2.users.len() && i != j implies (
                #[trigger] s2.users[i]).email@ != (#[trigger] s2.users[j]).email@
                && s2.users[i].username@ != s2.users[j].username@ by {
                if i == s.users.len() as int {
                    assert(s.users[j] == s2.users[j]);
                } else if j == s.users.len() as int {
                    assert(s.users[i] == s2.users[i]);
                }
            }
        }
    }
}

/// However the requests of concurrent registrations and account setups interleave, at no
/// point do two users share an address (or a username).
pub proof fn lemma_user_emails_unique(
    states: Seq<StoreModel>,
    requests: Seq<StoreRequest>,
    replies: Seq<StoreReply>,
)
    requires
        is_run(states, requests, replies),
        users_unique(states[0].users),
    ensures
        forall|k: int| 0 <= k < states.len() ==> users_unique(#[trigger] states[k].users),
    decreases requests.len(),
{
    if requests.len() > 0 {
        let n = requests.len() - 1;
        lemma_user_emails_unique(states.take(n + 1), requests.take(n), replies.take(n));
        assert(states.take(n + 1)[n] == states[n]);
        assert(serves(states[n], requests[n], replies[n], states[n + 1]));
        lemma_users_unique_step(states[n], requests[n], replies[n], states[n + 1]);
        assert forall|k: int| 0 <= k < states.len() implies users_unique(#[trigger] states[k].users) by {
            if k <= n {
                assert(states.take(n + 1)[k] == states[k]);
            }
        }
    }
}

} // verus!
