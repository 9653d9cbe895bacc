use vstd::prelude::*;
use crate::api::{
    plain, plain_reply, ApiReply, CreateControllableBody, CreateDeviceBody, DeviceConnectControllable,
    DeviceInitialization, DeviceNotice, DeviceReply, Notice, ResponseBodyType,
};
use crate::error::ErrorType;
use crate::ids::{is_record_id_text, record_id_bytes, RecordId, Timestamp};
use crate::records::{category_named, Controllable, ControllableCategory, Device};
use crate::store::{
    device_has_credentials, is_run, seen_online, serves, Action, Event, StoreModel, StoreReply,
    StoreRequest, Step,
};
use crate::tokens::is_long_token;

verus! {

// ---- Device creation -----------------------------------------------------------------------

/// Where a device creation stands: the new device is being stored.
#[derive(Debug)]
pub enum CreateDeviceStage {
    Inserting { device: Device },
}

/// The decisions of a device creation.
pub open spec fn create_device_next(stage: CreateDeviceStage, event: Event) -> Step<CreateDeviceStage, ApiReply> {
    match stage {
        CreateDeviceStage::Inserting { device } => match event {
            Event::Store(StoreReply::Inserted) => Step::Finish {
                reply: ApiReply {
                    status: 200,
                    notice: Notice::DeviceCreated,
                    data: Some(ResponseBodyType::CreateDevice { device_data: device }),
                    session_for: None,
                },
            },
            Event::Store(StoreReply::DuplicateKey) => Step::Finish {
                reply: plain_reply(409, Notice::DuplicatesFound),
            },
            _ => Step::Finish { reply: plain_reply(500, Notice::UnexpectedError) },
        },
    }
}

/// Starts the creation of the drawn device `device`: stores it.
pub fn begin_create_device(device: Device) -> (r: Step<CreateDeviceStage, ApiReply>)
    ensures
        r == (Step::<CreateDeviceStage, ApiReply>::Continue {
            stage: CreateDeviceStage::Inserting { device },
            action: Action::Query(StoreRequest::InsertDevice { device }),
        }),
{
    let kept = device.duplicate();
    Step::Continue {
        stage: CreateDeviceStage::Inserting { device: kept },
        action: Action::Query(StoreRequest::InsertDevice { device }),
    }
}

/// Starts a device creation for the session's user: draws the device's credentials. Without
/// a valid session it is refused with 401.
pub fn create_device(session: Result<String, ErrorType>, body: CreateDeviceBody) -> (r: Step<CreateDeviceStage, ApiReply>)
    ensures
        session is Err ==> r == (Step::<CreateDeviceStage, ApiReply>::Finish {
            reply: plain_reply(401, Notice::Unauthorized),
        }),
        session matches Ok(email) ==> exists|device: Device|
            {
                &&& device.device_name == body.device_name
                &&& device.user_email == email
                &&& device.status == 0
                &&& device.last_online is None
                &&& is_long_token(device.device_key@)
                &&& is_long_token(device.device_pass@)
                &&& r == (Step::<CreateDeviceStage, ApiReply>::Continue {
                    stage: CreateDeviceStage::Inserting { device },
                    action: Action::Query(StoreRequest::InsertDevice { device }),
                })
            },
{
    match session {
        Err(_) => Step::Finish { reply: plain(401, Notice::Unauthorized) },
        Ok(email) => begin_create_device(Device::new(body.device_name, email)),
    }
}

/// One step of a device creation.
pub fn create_device_step(stage: CreateDeviceStage, event: Event) -> (r: Step<CreateDeviceStage, ApiReply>)
    ensures
        r == create_device_next(stage, event),
{
    match stage {
        CreateDeviceStage::Inserting { device } => match event {
            Event::Store(StoreReply::Inserted) => Step::Finish {
                reply: ApiReply {
                    status: 200,
                    notice: Notice::DeviceCreated,
                    data: Some(ResponseBodyType::CreateDevice { device_data: device }),
                    session_for: None,
                },
            },
            Event::Store(StoreReply::DuplicateKey) => Step::Finish {
                reply: plain(409, Notice::DuplicatesFound),
            },
            _ => Step::Finish { reply: plain(500, Notice::UnexpectedError) },
        },
    }
}

// ---- Device initialization -----------------------------------------------------------------

/// Where a device initialization stands.
#[derive(Debug)]
pub enum DeviceInitStage {
    /// The device with the credentials is being marked online.
    Marking { device_key: String, device_pass: String },
    /// The device is being read back.
    Reading,
}

/// The decisions of a device initialization. A store failure of the update passes its
/// message on; a failed read-back reads as "NOT FOUND" even though the update landed.
pub open spec fn device_init_next(stage: DeviceInitStage, event: Event) -> Step<DeviceInitStage, DeviceReply> {
    match stage {
        DeviceInitStage::Marking { device_key, device_pass } => match event {
            Event::Store(StoreReply::Matched { count }) => if count == 0 {
                Step::Finish {
                    reply: DeviceReply::Fixed { status: 404, notice: DeviceNotice::NotFound },
                }
            } else {
                Step::Continue {
                    stage: DeviceInitStage::Reading,
                    action: Action::Query(StoreRequest::FindDevice { device_key, device_pass }),
                }
            },
            Event::Store(StoreReply::Failed { message }) => Step::Finish {
                reply: DeviceReply::Failure { message },
            },
            _ => Step::Finish {
                reply: DeviceReply::Fixed { status: 500, notice: DeviceNotice::Error },
            },
        },
        DeviceInitStage::Reading => match event {
            Event::Store(StoreReply::Device(Some(_))) => Step::Finish {
                reply: DeviceReply::Fixed { status: 200, notice: DeviceNotice::Accepted },
            },
            Event::Store(StoreReply::Device(None)) => Step::Finish {
                reply: DeviceReply::Fixed { status: 404, notice: DeviceNotice::NotFound },
            },
            _ => Step::Finish {
                reply: DeviceReply::Fixed { status: 500, notice: DeviceNotice::Error },
            },
        },
    }
}

/// Starts a device initialization at time `at`: marks the device with the credentials online.
pub fn begin_device_initialization(body: DeviceInitialization, at: Timestamp) -> (r: Step<DeviceInitStage, DeviceReply>)
    ensures
        r == (Step::<DeviceInitStage, DeviceReply>::Continue {
            stage: DeviceInitStage::Marking { device_key: body.device_key, device_pass: body.device_pass },
            action: Action::Query(
                StoreRequest::MarkDeviceOnline {
                    device_key: body.device_key,
                    device_pass: body.device_pass,
                    at,
                },
            ),
        }),
{
    let device_key = body.device_key.clone();
    let device_pass = body.device_pass.clone();
    Step::Continue {
        stage: DeviceInitStage::Marking { device_key, device_pass },
        action: Action::Query(
            StoreRequest::MarkDeviceOnline {
                device_key: body.device_key,
                device_pass: body.device_pass,
                at,
            },
        ),
    }
}

/// Starts a device initialization now.
pub fn device_initialization(body: DeviceInitialization) -> (r: Step<DeviceInitStage, DeviceReply>)
    ensures
        exists|at: Timestamp|
            r == (Step::<DeviceInitStage, DeviceReply>::Continue {
                stage: DeviceInitStage::Marking {
                    device_key: body.device_key,
                    device_pass: body.device_pass,
                },
                action: Action::Query(
                    StoreRequest::MarkDeviceOnline {
                        device_key: body.device_key,
                        device_pass: body.device_pass,
                        at,
                    },
                ),
            }),
{
    begin_device_initialization(body, Timestamp::now())
}

/// One step of a device initialization.
pub fn device_init_step(stage: DeviceInitStage, event: Event) -> (r: Step<DeviceInitStage, DeviceReply>)
    ensures
        r == device_init_next(stage, event),
{
    match stage {
        DeviceInitStage::Marking { device_key, device_pass } => match event {
            Event::Store(StoreReply::Matched { count }) => if count == 0 {
                Step::Finish {
                    reply: DeviceReply::Fixed { status: 404, notice: DeviceNotice::NotFound },
                }
            } else {
                Step::Continue {
                    stage: DeviceInitStage::Reading,
                    action: Action::Query(StoreRequest::FindDevice { device_key, device_pass }),
                }
            },
            Event::Store(StoreReply::Failed { message }) => Step::Finish {
                reply: DeviceReply::Failure { message },
            },
            _ => Step::Finish {
                reply: DeviceReply::Fixed { status: 500, notice: DeviceNotice::Error },
            },
        },
        DeviceInitStage::Reading => match event {
            Event::Store(StoreReply::Device(Some(_))) => Step::Finish {
                reply: DeviceReply::Fixed { status: 200, notice: DeviceNotice::Accepted },
            },
            Event::Store(StoreReply::Device(None)) => Step::Finish {
                reply: DeviceReply::Fixed { status: 404, notice: DeviceNotice::NotFound },
            },
            _ => Step::Finish {
                reply: DeviceReply::Fixed { status: 500, notice: DeviceNotice::Error },
            },
        },
    }
}

/// The marking of a device online that an initialization with these credentials asks for.
pub open spec fn is_initialization(req: StoreRequest, key: Seq<char>, pass: Seq<char>, at: Timestamp) -> bool {
    req matches StoreRequest::MarkDeviceOnline { device_key, device_pass, at: t } && device_key@
        == key && device_pass@ == pass && t == at
}

/// Successive successful initializations of a device with the same credentials leave it with
/// status 0 and last seen at the latest of them; with clock readings that do not go back, its
/// last-online time never decreases.
pub proof fn lemma_initialization_idempotent(
    states: Seq<StoreModel>,
    requests: Seq<StoreRequest>,
    replies: Seq<StoreReply>,
    stamps: Seq<Timestamp>,
    key: Seq<char>,
    pass: Seq<char>,
    d: int,
)
    requires
        is_run(states, requests, replies),
        stamps.len() == requests.len(),
        forall|k: int| 0 <= k < requests.len() ==> is_initialization(#[trigger] requests[k], key, pass, stamps[k]),
        forall|k: int| 0 <= k < replies.len() ==> (#[trigger] replies[k]) is Matched,
        forall|a: int, b: int| 0 <= a <= b < stamps.len() ==> (#[trigger] stamps[a]).millis <= (#[trigger] stamps[b]).millis,
        0 <= d < states[0].devices.len(),
        device_has_credentials(states[0].devices[d], key, pass),
    ensures
        forall|k: int|
            1 <= k < states.len() ==> {
                &&& (#[trigger] states[k]).devices.len() == states[0].devices.len()
                &&& states[k].devices[d].status == 0
                &&& states[k].devices[d].last_online == Some(stamps[k - 1])
            },
        forall|a: int, b: int|
            1 <= a <= b < states.len() ==> (#[trigger] states[a]).devices[d].last_online->0.millis
                <= (#[trigger] states[b]).devices[d].last_online->0.millis,
    decreases requests.len(),
{
    if requests.len() > 0 {
        let n = requests.len() - 1;
        lemma_initialization_idempotent(
            states.take(n + 1),
            requests.take(n),
            replies.take(n),
            stamps.take(n),
            key,
            pass,
            d,
        );
        assert forall|k: int| 0 <= k <= n implies (#[trigger] states[k]).devices.len() == states[0].devices.len()
            && device_has_credentials(states[k].devices[d], key, pass) by {
            if k >= 1 {
                assert(states.take(n + 1)[k] == states[k]);
            }
            lemma_device_kept(states, requests, replies, stamps, key, pass, d, k);
        }
        assert(serves(states[n], requests[n], replies[n], states[n + 1]));
        assert(states[n + 1].devices[d] == seen_online(states[n].devices[d], stamps[n]));
        assert forall|k: int|
            1 <= k < states.len() implies {
                &&& (#[trigger] states[k]).devices.len() == states[0].devices.len()
                &&& states[k].devices[d].status == 0
                &&& states[k].devices[d].last_online == Some(stamps[k - 1])
            } by {
            if k <= n {
                assert(states.take(n + 1)[k] == states[k]);
                assert(stamps.take(n)[k - 1] == stamps[k - 1]);
            }
        }
    }
}

/// Initializations keep the devices, and the credentials of each.
proof fn lemma_device_kept(
    states: Seq<StoreModel>,
    requests: Seq<StoreRequest>,
    replies: Seq<StoreReply>,
    stamps: Seq<Timestamp>,
    key: Seq<char>,
    pass: Seq<char>,
    d: int,
    k: int,
)
    requires
        is_run(states, requests, replies),
        stamps.len() == requests.len(),
        forall|j: int| 0 <= j < requests.len() ==> is_initialization(#[trigger] requests[j], key, pass, stamps[j]),
        forall|j: int| 0 <= j < replies.len() ==> (#[trigger] replies[j]) is Matched,
        0 <= d < states[0].devices.len(),
        device_has_credentials(states[0].devices[d], key, pass),
        0 <= k < states.len(),
    ensures
        states[k].devices.len() == states[0].devices.len(),
        device_has_credentials(states[k].devices[d], key, pass),
    decreases k,
{
    if k > 0 {
        lemma_device_kept(states, requests, replies, stamps, key, pass, d, k - 1);
        assert(serves(states[k - 1], requests[k - 1], replies[k - 1], states[k]));
    }
}

// ---- Controllable creation -----------------------------------------------------------------

/// Where a controllable creation stands.
#[derive(Debug)]
pub enum CreateControllableStage {
    /// The name is being looked up among controllables; the new controllable is drawn, or
    /// `None` when the device id was malformed.
    CheckingDuplicate { drawn: Option<Controllable> },
    /// The new controllable is being stored.
    Inserting { controllable: Controllable },
}

/// The decisions of a controllable creation: names are unique over all devices; a malformed
/// device id is an unexpected error, reported after the name check.
pub open spec fn create_controllable_next(stage: CreateControllableStage, event: Event) -> Step<CreateControllableStage, ApiReply> {
    match stage {
        CreateControllableStage::CheckingDuplicate { drawn } => match event {
            Event::Store(StoreReply::Controllable(Some(_))) => Step::Finish {
                reply: plain_reply(409, Notice::DuplicatesFound),
            },
            Event::Store(StoreReply::Controllable(None)) => match drawn {
                Some(c) => Step::Continue {
                    stage: CreateControllableStage::Inserting { controllable: c },
                    action: Action::Query(StoreRequest::InsertControllable { controllable: c }),
                },
                None => Step::Finish { reply: plain_reply(500, Notice::UnexpectedError) },
            },
            _ => Step::Finish { reply: plain_reply(500, Notice::UnexpectedError) },
        },
        CreateControllableStage::Inserting { controllable } => match event {
            Event::Store(StoreReply::Inserted) => Step::Finish {
                reply: ApiReply {
                    status: 200,
                    notice: Notice::DeviceCreated,
                    data: Some(
                        ResponseBodyType::CreateControllable { controllable_data: controllable },
                    ),
                    session_for: None,
                },
            },
            Event::Store(StoreReply::DuplicateKey) => Step::Finish {
                reply: plain_reply(409, Notice::DuplicatesFound),
            },
            _ => Step::Finish { reply: plain_reply(500, Notice::UnexpectedError) },
        },
    }
}

/// Starts the creation of a controllable named `name`, drawn as `controllable` (`None` for a
/// malformed device id): looks the name up.
pub fn begin_create_controllable(name: String, controllable: Option<Controllable>) -> (r: Step<CreateControllableStage, ApiReply>)
    ensures
        r == (Step::<CreateControllableStage, ApiReply>::Continue {
            stage: CreateControllableStage::CheckingDuplicate { drawn: controllable },
            action: Action::Query(StoreRequest::FindControllableByName { name }),
        }),
{
    Step::Continue {
        stage: CreateControllableStage::CheckingDuplicate { drawn: controllable },
        action: Action::Query(StoreRequest::FindControllableByName { name }),
    }
}

/// Starts a controllable creation for the session's user. Without a valid session it is
/// refused with 401, and an unknown category with 400; else the device id is read and the
/// controllable drawn with a long topic name.
pub fn create_controllable(session: Result<String, ErrorType>, body: CreateControllableBody) -> (r: Step<CreateControllableStage, ApiReply>)
    ensures
        session is Err ==> r == (Step::<CreateControllableStage, ApiReply>::Finish {
            reply: plain_reply(401, Notice::Unauthorized),
        }),
        session is Ok && category_named(body.controllable_category@) is None ==> r == (Step::<
            CreateControllableStage,
            ApiReply,
        >::Finish { reply: plain_reply(400, Notice::BadRequestBody) }),
        session is Ok && category_named(body.controllable_category@) is Some ==> exists|
            drawn: Option<Controllable>,
        |
            {
                &&& drawn is Some <==> is_record_id_text(body.device_id@)
                &&& drawn matches Some(c) ==> {
                    &&& c.controllable_name == body.controllable_name
                    &&& c.category == category_named(body.controllable_category@)->0
                    &&& c.device_id.bytes@ == record_id_bytes(body.device_id@)
                    &&& c.user_email == session->Ok_0
                    &&& is_long_token(c.topic_name@)
                }
                &&& r == (Step::<CreateControllableStage, ApiReply>::Continue {
                    stage: CreateControllableStage::CheckingDuplicate { drawn },
                    action: Action::Query(
                        StoreRequest::FindControllableByName { name: body.controllable_name },
                    ),
                })
            },
{
    let email = match session {
        Err(_) => {
            return Step::Finish { reply: plain(401, Notice::Unauthorized) };
        },
        Ok(email) => email,
    };
    let category = match ControllableCategory::from_str(body.controllable_category.as_str()) {
        None => {
            return Step::Finish { reply: plain(400, Notice::BadRequestBody) };
        },
        Some(c) => c,
    };
    let drawn = match RecordId::parse(body.device_id.as_str()) {
        Some(device_id) => Some(
            Controllable::new(body.controllable_name.clone(), category, device_id, email),
        ),
        None => None,
    };
    begin_create_controllable(body.controllable_name, drawn)
}

/// One step of a controllable creation.
pub fn create_controllable_step(stage: CreateControllableStage, event: Event) -> (r: Step<CreateControllableStage, ApiReply>)
    ensures
        r == create_controllable_next(stage, event),
{
    match stage {
        CreateControllableStage::CheckingDuplicate { drawn } => match event {
            Event::Store(StoreReply::Controllable(Some(_))) => Step::Finish {
                reply: plain(409, Notice::DuplicatesFound),
            },
            Event::Store(StoreReply::Controllable(None)) => match drawn {
                Some(c) => {
                    let kept = c.duplicate();
                    Step::Continue {
                        stage: CreateControllableStage::Inserting { controllable: kept },
                        action: Action::Query(StoreRequest::InsertControllable { controllable: c }),
                    }
                },
                None => Step::Finish { reply: plain(500, Notice::UnexpectedError) },
            },
            _ => Step::Finish { reply: plain(500, Notice::UnexpectedError) },
        },
        CreateControllableStage::Inserting { controllable } => match event {
            Event::Store(StoreReply::Inserted) => Step::Finish {
                reply: ApiReply {
                    status: 200,
                    notice: Notice::DeviceCreated,
                    data: Some(
                        ResponseBodyType::CreateControllable { controllable_data: controllable },
                    ),
                    session_for: None,
                },
            },
            Event::Store(StoreReply::DuplicateKey) => Step::Finish {
                reply: plain(409, Notice::DuplicatesFound),
            },
            _ => Step::Finish { reply: plain(500, Notice::UnexpectedError) },
        },
    }
}

// ---- Broker coordinates of a controllable ----------------------------------------------------

/// Where a device's request for a controllable's broker coordinates stands.
#[derive(Debug)]
pub enum CoordinatesStage {
    /// The device with the credentials is being looked up.
    FindingDevice { controllable_name: String },
    /// The controllable is being looked up by name; `owner` is the device owner's address.
    FindingControllable { owner: String },
    /// The device owner is being looked up for the broker credentials.
    FindingOwner { topic: String },
}

/// The decisions of a request for broker coordinates. Any authenticated device may read any
/// controllable's coordinates by name.
pub open spec fn coordinates_next(stage: CoordinatesStage, event: Event) -> Step<CoordinatesStage, DeviceReply> {
    match stage {
        CoordinatesStage::FindingDevice { controllable_name } => match event {
            Event::Store(StoreReply::Device(Some(device))) => Step::Continue {
                stage: CoordinatesStage::FindingControllable { owner: device.user_email },
                action: Action::Query(StoreRequest::FindControllableByName { name: controllable_name }),
            },
            Event::Store(StoreReply::Device(None)) => Step::Finish {
                reply: DeviceReply::Fixed { status: 404, notice: DeviceNotice::DeviceNotFound },
            },
            _ => Step::Finish {
                reply: DeviceReply::Fixed { status: 500, notice: DeviceNotice::SomeError },
            },
        },
        CoordinatesStage::FindingControllable { owner } => match event {
            Event::Store(StoreReply::Controllable(Some(controllable))) => Step::Continue {
                stage: CoordinatesStage::FindingOwner { topic: controllable.topic_name },
                action: Action::Query(StoreRequest::FindUserByEmail { email: owner }),
            },
            Event::Store(StoreReply::Controllable(None)) => Step::Finish {
                reply: DeviceReply::Fixed { status: 404, notice: DeviceNotice::ControllableNotFound },
            },
            _ => Step::Finish {
                reply: DeviceReply::Fixed { status: 500, notice: DeviceNotice::SomeError },
            },
        },
        CoordinatesStage::FindingOwner { topic } => match event {
            Event::Store(StoreReply::User(Some(user))) => Step::Finish {
                reply: DeviceReply::Coordinates {
                    topic,
                    mqtt_user: user.mqtt_user,
                    mqtt_pass: user.mqtt_pass,
                },
            },
            Event::Store(StoreReply::User(None)) => Step::Finish {
                reply: DeviceReply::Fixed { status: 404, notice: DeviceNotice::UserNotFound },
            },
            _ => Step::Finish {
                reply: DeviceReply::Fixed { status: 500, notice: DeviceNotice::SomeError },
            },
        },
    }
}

/// Starts a request for a controllable's broker coordinates: authenticates the device.
pub fn get_controllable(body: DeviceConnectControllable) -> (r: Step<CoordinatesStage, DeviceReply>)
    ensures
        r == (Step::<CoordinatesStage, DeviceReply>::Continue {
            stage: CoordinatesStage::FindingDevice { controllable_name: body.controllable_name },
            action: Action::Query(
                StoreRequest::FindDevice { device_key: body.device_key, device_pass: body.device_pass },
            ),
        }),
{
    Step::Continue {
        stage: CoordinatesStage::FindingDevice { controllable_name: body.controllable_name },
        action: Action::Query(
            StoreRequest::FindDevice { device_key: body.device_key, device_pass: body.device_pass },
        ),
    }
}

/// One step of a request for broker coordinates.
pub fn coordinates_step(stage: CoordinatesStage, event: Event) -> (r: Step<CoordinatesStage, DeviceReply>)
    ensures
        r == coordinates_next(stage, event),
{
    match stage {
        CoordinatesStage::FindingDevice { controllable_name } => match event {
            Event::Store(StoreReply::Device(Some(device))) => Step::Continue {
                stage: CoordinatesStage::FindingControllable { owner: device.user_email },
                action: Action::Query(StoreRequest::FindControllableByName { name: controllable_name }),
            },
            Event::Store(StoreReply::Device(None)) => Step::Finish {
                reply: DeviceReply::Fixed { status: 404, notice: DeviceNotice::DeviceNotFound },
            },
            _ => Step::Finish {
                reply: DeviceReply::Fixed { status: 500, notice: DeviceNotice::SomeError },
            },
        },
        CoordinatesStage::FindingControllable { owner } => match event {
            Event::Store(StoreReply::Controllable(Some(controllable))) => Step::Continue {
                stage: CoordinatesStage::FindingOwner { topic: controllable.topic_name },
                action: Action::Query(StoreRequest::FindUserByEmail { email: owner }),
            },
            Event::Store(StoreReply::Controllable(None)) => Step::Finish {
                reply: DeviceReply::Fixed { status: 404, notice: DeviceNotice::ControllableNotFound },
            },
            _ => Step::Finish {
                reply: DeviceReply::Fixed { status: 500, notice: DeviceNotice::SomeError },
            },
        },
        CoordinatesStage::FindingOwner { topic } => match event {
            Event::Store(StoreReply::User(Some(user))) => Step::Finish {
                reply: DeviceReply::Coordinates {
                    topic,
                    mqtt_user: user.mqtt_user,
                    mqtt_pass: user.mqtt_pass,
                },
            },
            Event::Store(StoreReply::User(None)) => Step::Finish {
                reply: DeviceReply::Fixed { status: 404, notice: DeviceNotice::UserNotFound },
            },
            _ => Step::Finish {
                reply: DeviceReply::Fixed { status: 500, notice: DeviceNotice::SomeError },
            },
        },
    }
}

} // verus!
