use vstd::prelude::*;
use crate::ids::RecordId;
use crate::records::{Controllable, Device, User};
use crate::text::join3;

verus! {

/// The greeting of the service's health-check route.
pub fn index() -> (r: &'static str)
    ensures
        r@ == "Hello from Rocket! 🚀"@,
{
    "Hello from Rocket! 🚀"
}

/// Body of a request to start a registration.
#[derive(Debug)]
pub struct UserRegistrationBody {
    pub email: String,
}

/// Body of a request to confirm a registration.
#[derive(Debug)]
pub struct ConfirmRegistrationBody {
    pub id: RecordId,
    pub token: String,
}

/// Body of a request to set an account up.
#[derive(Debug)]
pub struct SetupRegistrationBody {
    pub id: RecordId,
    pub token: String,
    pub username: String,
    pub password: String,
}

/// Body of a password login.
#[derive(Debug)]
pub struct PasswordLoginBody {
    pub username: String,
    pub password: String,
}

/// Body of a request for a login code.
#[derive(Debug)]
pub struct OTPLoginBody {
    pub email: String,
}

/// Body of a login-code check.
#[derive(Debug)]
pub struct OTPLoginVerifyBody {
    pub email: String,
    pub otp: String,
}

/// Body of a request to create a device.
#[derive(Debug)]
pub struct CreateDeviceBody {
    pub device_name: String,
}

/// Body of a request to create a controllable.
#[derive(Debug)]
pub struct CreateControllableBody {
    pub device_id: String,
    pub controllable_name: String,
    pub controllable_category: String,
}

/// Body of a device's start-up call.
#[derive(Debug)]
pub struct DeviceInitialization {
    pub device_key: String,
    pub device_pass: String,
}

/// Body of a device's request for a controllable's broker coordinates.
#[derive(Debug)]
pub struct DeviceConnectControllable {
    pub controllable_name: String,
    pub device_key: String,
    pub device_pass: String,
}

/// The data part of a successful JSON answer.
#[derive(Debug)]
pub enum ResponseBodyType {
    UserRegistration { id: RecordId },
    UserVerify { token: String, id: RecordId },
    UserSetup { user_data: User },
    UserLogin { user_data: User },
    UserGet { user_data: User },
    CreateDevice { device_data: Device },
    CreateControllable { controllable_data: Controllable },
}

/// A JSON answer: a message, whether the call succeeded, and its data.
#[derive(Debug)]
pub struct ResponseBody {
    pub message: String,
    pub success: bool,
    pub data: Option<ResponseBodyType>,
}

/// The fixed messages of the JSON endpoints.
#[derive(Debug)]
pub enum Notice {
    EmailNotValid,
    DuplicateFound,
    RegistrationFailed,
    ConfirmationSent { email: String },
    MailFailed,
    WrongToken,
    UnexpectedError,
    RegistrationVerified,
    DuplicatesFound,
    Registered,
    LoggedIn,
    DuplicatedData,
    OtpCreationFailed,
    CheckMail,
    UnauthorizedToken,
    TokenCheckFailed,
    EmailVerified,
    Unauthorized,
    UserNotFound,
    UserFetched,
    DeviceCreated,
    BadRequestBody,
}

pub open spec fn notice_text(n: Notice) -> Seq<char> {
    match n {
        Notice::EmailNotValid => "Email is not valid!"@,
        Notice::DuplicateFound => "There's duplicate found!"@,
        Notice::RegistrationFailed => "Sorry, there's an unexpected error"@,
        Notice::ConfirmationSent { email } => "Successfully sent email confirmation to "@ + email@ + "!"@,
        Notice::MailFailed => "There's an error when trying to send email"@,
        Notice::WrongToken => "Wrong token."@,
        Notice::UnexpectedError => "There's an unexpected error."@,
        Notice::RegistrationVerified => "Successfully verify the registration token!"@,
        Notice::DuplicatesFound => "Duplicates found."@,
        Notice::Registered => "Successfully register!"@,
        Notice::LoggedIn => "Successfully login."@,
        Notice::DuplicatedData => "Duplicated data found."@,
        Notice::OtpCreationFailed => "There's an error when trying to create otp code"@,
        Notice::CheckMail => "Please, check your gmail message"@,
        Notice::UnauthorizedToken => "Unauthorized token"@,
        Notice::TokenCheckFailed => "There's an error when checking the token"@,
        Notice::EmailVerified => "Email verified"@,
        Notice::Unauthorized => "Unauthorized."@,
        Notice::UserNotFound => "User not found."@,
        Notice::UserFetched => "Successfully get user data"@,
        Notice::DeviceCreated => "Successfully create device!"@,
        Notice::BadRequestBody => "Bad Request Body"@,
    }
}

impl Notice {
    pub fn text(&self) -> (r: String)
        ensures
            r@ == notice_text(*self),
    {
        match self {
            Notice::EmailNotValid => String::from_str("Email is not valid!"),
            Notice::DuplicateFound => String::from_str("There's duplicate found!"),
            Notice::RegistrationFailed => String::from_str("Sorry, there's an unexpected error"),
            Notice::ConfirmationSent { email } => join3(
                "Successfully sent email confirmation to ",
                email.as_str(),
                "!",
            ),
            Notice::MailFailed => String::from_str("There's an error when trying to send email"),
            Notice::WrongToken => String::from_str("Wrong token."),
            Notice::UnexpectedError => String::from_str("There's an unexpected error."),
            Notice::RegistrationVerified => String::from_str(
                "Successfully verify the registration token!",
            ),
            Notice::DuplicatesFound => String::from_str("Duplicates found."),
            Notice::Registered => String::from_str("Successfully register!"),
            Notice::LoggedIn => String::from_str("Successfully login."),
            Notice::DuplicatedData => String::from_str("Duplicated data found."),
            Notice::OtpCreationFailed => String::from_str(
                "There's an error when trying to create otp code",
            ),
            Notice::CheckMail => String::from_str("Please, check your gmail message"),
            Notice::UnauthorizedToken => String::from_str("Unauthorized token"),
            Notice::TokenCheckFailed => String::from_str("There's an error when checking the token"),
            Notice::EmailVerified => String::from_str("Email verified"),
            Notice::Unauthorized => String::from_str("Unauthorized."),
            Notice::UserNotFound => String::from_str("User not found."),
            Notice::UserFetched => String::from_str("Successfully get user data"),
            Notice::DeviceCreated => String::from_str("Successfully create device!"),
            Notice::BadRequestBody => String::from_str("Bad Request Body"),
        }
    }
}

/// The answer of a JSON endpoint: its status, its message, its data, and the address a
/// session cookie is to be minted for, if any.
#[derive(Debug)]
pub struct ApiReply {
    pub status: u16,
    pub notice: Notice,
    pub data: Option<ResponseBodyType>,
    pub session_for: Option<String>,
}

/// A JSON answer with no data and no session.
pub open spec fn plain_reply(status: u16, notice: Notice) -> ApiReply {
    ApiReply { status, notice, data: None, session_for: None }
}

pub fn plain(status: u16, notice: Notice) -> (r: ApiReply)
    ensures
        r == plain_reply(status, notice),
{
    ApiReply { status, notice, data: None, session_for: None }
}

impl ApiReply {
    /// The JSON body: the notice's text, success exactly for status 200, and the data.
    pub fn into_body(self) -> (r: ResponseBody)
        ensures
            r.message@ == notice_text(self.notice),
            r.success == (self.status == 200),
            r.data == self.data,
    {
        ResponseBody { message: self.notice.text(), success: self.status == 200, data: self.data }
    }
}

/// The fixed texts of the device endpoints.
#[derive(Clone, Copy, Debug, PartialEq, Eq, Structural)]
pub enum DeviceNotice {
    Accepted,
    NotFound,
    Error,
    DeviceNotFound,
    ControllableNotFound,
    UserNotFound,
    SomeError,
}

pub open spec fn device_notice_text(n: DeviceNotice) -> Seq<char> {
    match n {
        DeviceNotice::Accepted => "OK"@,
        DeviceNotice::NotFound => "NOT FOUND"@,
        DeviceNotice::Error => "ERROR"@,
        DeviceNotice::DeviceNotFound => "Device not found."@,
        DeviceNotice::ControllableNotFound => "Controllable not found."@,
        DeviceNotice::UserNotFound => "User not found."@,
        DeviceNotice::SomeError => "There's an error."@,
    }
}

/// The plain-text answer of a device endpoint.
#[derive(Debug)]
pub enum DeviceReply {
    Fixed { status: u16, notice: DeviceNotice },
    /// A store failure whose message is passed on, with status 500.
    Failure { message: String },
    /// The broker coordinates of a controllable, with status 200.
    Coordinates { topic: String, mqtt_user: String, mqtt_pass: String },
}

pub open spec fn device_reply_status(r: DeviceReply) -> u16 {
    match r {
        DeviceReply::Fixed { status, .. } => status,
        DeviceReply::Failure { .. } => 500,
        DeviceReply::Coordinates { .. } => 200,
    }
}

pub open spec fn device_reply_text(r: DeviceReply) -> Seq<char> {
    match r {
        DeviceReply::Fixed { notice, .. } => device_notice_text(notice),
        DeviceReply::Failure { message } => message@,
        DeviceReply::Coordinates { topic, mqtt_user, mqtt_pass } => topic@ + ","@ + mqtt_user@
            + ","@ + mqtt_pass@,
    }
}

impl DeviceReply {
    pub fn status(&self) -> (r: u16)
        ensures
            r == device_reply_status(*self),
    {
        match self {
            DeviceReply::Fixed { status, .. } => *status,
            DeviceReply::Failure { .. } => 500,
            DeviceReply::Coordinates { .. } => 200,
        }
    }

    /// The text of the answer; coordinates are `topic,mqtt_user,mqtt_pass`.
    pub fn text(&self) -> (r: String)
        ensures
            r@ == device_reply_text(*self),
    {
        match self {
            DeviceReply::Fixed { notice, .. } => match notice {
                DeviceNotice::Accepted => String::from_str("OK"),
                DeviceNotice::NotFound => String::from_str("NOT FOUND"),
                DeviceNotice::Error => String::from_str("ERROR"),
                DeviceNotice::DeviceNotFound => String::from_str("Device not found."),
                DeviceNotice::ControllableNotFound => String::from_str("Controllable not found."),
                DeviceNotice::UserNotFound => String::from_str("User not found."),
                DeviceNotice::SomeError => String::from_str("There's an error."),
            },
            DeviceReply::Failure { message } => message.clone(),
            DeviceReply::Coordinates { topic, mqtt_user, mqtt_pass } => {
                let head = join3(topic.as_str(), ",", mqtt_user.as_str());
                join3(head.as_str(), ",", mqtt_pass.as_str())
            },
        }
    }
}

} // verus!
