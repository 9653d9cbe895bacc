use vstd::prelude::*;
use crate::api::{
    plain, plain_reply, ApiReply, Notice, OTPLoginBody, OTPLoginVerifyBody, PasswordLoginBody,
    ResponseBodyType,
};
use crate::error::ErrorType;
use crate::mail::{MailKind, OutgoingMail};
use crate::records::LoginOTPTable;
use crate::store::{Action, Event, StoreReply, StoreRequest, Step};
use crate::tokens::is_short_token;

verus! {

// ---- Password login ------------------------------------------------------------------------

/// Where a password login stands: the user with the username is being looked up.
#[derive(Debug)]
pub enum PasswordLoginStage {
    Looking { password: String },
}

/// The decisions of a password login: the stored password must equal the given one exactly.
pub open spec fn password_login_next(stage: PasswordLoginStage, event: Event) -> Step<PasswordLoginStage, ApiReply> {
    match stage {
        PasswordLoginStage::Looking { password } => match event {
            Event::Store(StoreReply::User(Some(user))) => if user.password@ == password@ {
                Step::Finish {
                    reply: ApiReply {
                        status: 200,
                        notice: Notice::LoggedIn,
                        data: Some(ResponseBodyType::UserLogin { user_data: user }),
                        session_for: Some(user.email),
                    },
                }
            } else {
                Step::Finish { reply: plain_reply(401, Notice::Unauthorized) }
            },
            Event::Store(StoreReply::User(None)) => Step::Finish {
                reply: plain_reply(404, Notice::UserNotFound),
            },
            _ => Step::Finish { reply: plain_reply(500, Notice::UnexpectedError) },
        },
    }
}

/// Starts a password login: looks the user up by username.
pub fn user_password_login(body: PasswordLoginBody) -> (r: Step<PasswordLoginStage, ApiReply>)
    ensures
        r == (Step::<PasswordLoginStage, ApiReply>::Continue {
            stage: PasswordLoginStage::Looking { password: body.password },
            action: Action::Query(StoreRequest::FindUserByUsername { username: body.username }),
        }),
{
    Step::Continue {
        stage: PasswordLoginStage::Looking { password: body.password },
        action: Action::Query(StoreRequest::FindUserByUsername { username: body.username }),
    }
}

/// One step of a password login.
pub fn password_login_step(stage: PasswordLoginStage, event: Event) -> (r: Step<PasswordLoginStage, ApiReply>)
    ensures
        r == password_login_next(stage, event),
{
    match stage {
        PasswordLoginStage::Looking { password } => match event {
            Event::Store(StoreReply::User(Some(user))) => if user.password == password {
                let email = user.email.clone();
                Step::Finish {
                    reply: ApiReply {
                        status: 200,
                        notice: Notice::LoggedIn,
                        data: Some(ResponseBodyType::UserLogin { user_data: user }),
                        session_for: Some(email),
                    },
                }
            } else {
                Step::Finish { reply: plain(401, Notice::Unauthorized) }
            },
            Event::Store(StoreReply::User(None)) => Step::Finish {
                reply: plain(404, Notice::UserNotFound),
            },
            _ => Step::Finish { reply: plain(500, Notice::UnexpectedError) },
        },
    }
}

// ---- Login code request --------------------------------------------------------------------

/// Where a login-code request stands.
#[derive(Debug)]
pub enum OtpLoginStage {
    /// An outstanding code for the address is being looked for; the new code is drawn.
    CheckingDuplicate { otp: LoginOTPTable },
    /// The new code is being stored.
    Inserting { email: String, token: String },
    /// The code is being mailed.
    Mailing,
}

/// The decisions of a login-code request: one outstanding code per address.
pub open spec fn otp_login_next(stage: OtpLoginStage, event: Event) -> Step<OtpLoginStage, ApiReply> {
    match stage {
        OtpLoginStage::CheckingDuplicate { otp } => match event {
            Event::Store(StoreReply::Otp(Some(_))) => Step::Finish {
                reply: plain_reply(409, Notice::DuplicatedData),
            },
            Event::Store(StoreReply::Otp(None)) => Step::Continue {
                stage: OtpLoginStage::Inserting { email: otp.email, token: otp.confirmation_token },
                action: Action::Query(StoreRequest::InsertOtp { otp }),
            },
            _ => Step::Finish { reply: plain_reply(500, Notice::OtpCreationFailed) },
        },
        OtpLoginStage::Inserting { email, token } => match event {
            Event::Store(StoreReply::Inserted) => Step::Continue {
                stage: OtpLoginStage::Mailing,
                action: Action::Mail(OutgoingMail { to: email, kind: MailKind::OtpLogin, token }),
            },
            Event::Store(StoreReply::DuplicateKey) => Step::Finish {
                reply: plain_reply(409, Notice::DuplicatedData),
            },
            _ => Step::Finish { reply: plain_reply(500, Notice::OtpCreationFailed) },
        },
        OtpLoginStage::Mailing => match event {
            Event::MailSent => Step::Finish { reply: plain_reply(200, Notice::CheckMail) },
            _ => Step::Finish { reply: plain_reply(500, Notice::MailFailed) },
        },
    }
}

/// Starts a login-code request with the drawn code `otp`: looks for an outstanding code of
/// its address.
pub fn begin_otp_login(otp: LoginOTPTable) -> (r: Step<OtpLoginStage, ApiReply>)
    ensures
        r == (Step::<OtpLoginStage, ApiReply>::Continue {
            stage: OtpLoginStage::CheckingDuplicate { otp },
            action: Action::Query(StoreRequest::FindOtpByEmail { email: otp.email }),
        }),
{
    let email = otp.email.clone();
    Step::Continue {
        stage: OtpLoginStage::CheckingDuplicate { otp },
        action: Action::Query(StoreRequest::FindOtpByEmail { email }),
    }
}

/// Starts a login-code request: draws a short code for the address.
pub fn user_otp_login(body: OTPLoginBody) -> (r: Step<OtpLoginStage, ApiReply>)
    ensures
        exists|otp: LoginOTPTable|
            {
                &&& otp.email == body.email
                &&& is_short_token(otp.confirmation_token@)
                &&& r == (Step::<OtpLoginStage, ApiReply>::Continue {
                    stage: OtpLoginStage::CheckingDuplicate { otp },
                    action: Action::Query(StoreRequest::FindOtpByEmail { email: body.email }),
                })
            },
{
    begin_otp_login(LoginOTPTable::new(body.email))
}

/// One step of a login-code request.
pub fn otp_login_step(stage: OtpLoginStage, event: Event) -> (r: Step<OtpLoginStage, ApiReply>)
    ensures
        r == otp_login_next(stage, event),
{
    match stage {
        OtpLoginStage::CheckingDuplicate { otp } => match event {
            Event::Store(StoreReply::Otp(Some(_))) => Step::Finish {
                reply: plain(409, Notice::DuplicatedData),
            },
            Event::Store(StoreReply::Otp(None)) => {
                let stage = OtpLoginStage::Inserting {
                    email: otp.email.clone(),
                    token: otp.confirmation_token.clone(),
                };
                Step::Continue { stage, action: Action::Query(StoreRequest::InsertOtp { otp }) }
            },
            _ => Step::Finish { reply: plain(500, Notice::OtpCreationFailed) },
        },
        OtpLoginStage::Inserting { email, token } => match event {
            Event::Store(StoreReply::Inserted) => Step::Continue {
                stage: OtpLoginStage::Mailing,
                action: Action::Mail(OutgoingMail { to: email, kind: MailKind::OtpLogin, token }),
            },
            Event::Store(StoreReply::DuplicateKey) => Step::Finish {
                reply: plain(409, Notice::DuplicatedData),
            },
            _ => Step::Finish { reply: plain(500, Notice::OtpCreationFailed) },
        },
        OtpLoginStage::Mailing => match event {
            Event::MailSent => Step::Finish { reply: plain(200, Notice::CheckMail) },
            _ => Step::Finish { reply: plain(500, Notice::MailFailed) },
        },
    }
}

// ---- Login code check ----------------------------------------------------------------------

/// Where a login-code check stands: the code for the address is being taken from the store.
#[derive(Debug)]
pub enum OtpVerifyStage {
    Taking { email: String },
}

/// The decisions of a login-code check: only an exact match of address and code logs in.
pub open spec fn otp_verify_next(stage: OtpVerifyStage, event: Event) -> Step<OtpVerifyStage, ApiReply> {
    match stage {
        OtpVerifyStage::Taking { email } => match event {
            Event::Store(StoreReply::Otp(Some(_))) => Step::Finish {
                reply: ApiReply {
                    status: 200,
                    notice: Notice::EmailVerified,
                    data: None,
                    session_for: Some(email),
                },
            },
            Event::Store(StoreReply::Otp(None)) => Step::Finish {
                reply: plain_reply(401, Notice::UnauthorizedToken),
            },
            _ => Step::Finish { reply: plain_reply(500, Notice::TokenCheckFailed) },
        },
    }
}

/// Starts a login-code check: takes the code issued to the address, if it is the one given.
pub fn user_otp_verify(body: OTPLoginVerifyBody) -> (r: Step<OtpVerifyStage, ApiReply>)
    ensures
        r == (Step::<OtpVerifyStage, ApiReply>::Continue {
            stage: OtpVerifyStage::Taking { email: body.email },
            action: Action::Query(StoreRequest::TakeOtp { email: body.email, code: body.otp }),
        }),
{
    let email = body.email.clone();
    Step::Continue {
        stage: OtpVerifyStage::Taking { email },
        action: Action::Query(StoreRequest::TakeOtp { email: body.email, code: body.otp }),
    }
}

/// One step of a login-code check.
pub fn otp_verify_step(stage: OtpVerifyStage, event: Event) -> (r: Step<OtpVerifyStage, ApiReply>)
    ensures
        r == otp_verify_next(stage, event),
{
    match stage {
        OtpVerifyStage::Taking { email } => match event {
            Event::Store(StoreReply::Otp(Some(_))) => Step::Finish {
                reply: ApiReply {
                    status: 200,
                    notice: Notice::EmailVerified,
                    data: None,
                    session_for: Some(email),
                },
            },
            Event::Store(StoreReply::Otp(None)) => Step::Finish {
                reply: plain(401, Notice::UnauthorizedToken),
            },
            _ => Step::Finish { reply: plain(500, Notice::TokenCheckFailed) },
        },
    }
}

// ---- Current user --------------------------------------------------------------------------

/// Where a fetch of the session's user stands: the user is being looked up by address.
#[derive(Debug)]
pub enum UserGetStage {
    Looking,
}

/// The decisions of a fetch of the session's user.
pub open spec fn user_get_next(stage: UserGetStage, event: Event) -> Step<UserGetStage, ApiReply> {
    match event {
        Event::Store(StoreReply::User(Some(user))) => Step::Finish {
            reply: ApiReply {
                status: 200,
                notice: Notice::UserFetched,
                data: Some(ResponseBodyType::UserGet { user_data: user }),
                session_for: None,
            },
        },
        Event::Store(StoreReply::User(None)) => Step::Finish {
            reply: plain_reply(404, Notice::UserNotFound),
        },
        _ => Step::Finish { reply: plain_reply(500, Notice::UnexpectedError) },
    }
}

/// Starts a fetch of the session's user, given the outcome of the session check: without a
/// valid session it is refused with 401.
pub fn user_get(session: Result<String, ErrorType>) -> (r: Step<UserGetStage, ApiReply>)
    ensures
        session is Err ==> r == (Step::<UserGetStage, ApiReply>::Finish {
            reply: plain_reply(401, Notice::Unauthorized),
        }),
        session matches Ok(email) ==> r == (Step::<UserGetStage, ApiReply>::Continue {
            stage: UserGetStage::Looking,
            action: Action::Query(StoreRequest::FindUserByEmail { email }),
        }),
{
    match session {
        Ok(email) => Step::Continue {
            stage: UserGetStage::Looking,
            action: Action::Query(StoreRequest::FindUserByEmail { email }),
        },
        Err(_) => Step::Finish { reply: plain(401, Notice::Unauthorized) },
    }
}

/// One step of a fetch of the session's user.
pub fn user_get_step(stage: UserGetStage, event: Event) -> (r: Step<UserGetStage, ApiReply>)
    ensures
        r == user_get_next(stage, event),
{
    match event {
        Event::Store(StoreReply::User(Some(user))) => Step::Finish {
            reply: ApiReply {
                status: 200,
                notice: Notice::UserFetched,
                data: Some(ResponseBodyType::UserGet { user_data: user }),
                session_for: None,
            },
        },
        Event::Store(StoreReply::User(None)) => Step::Finish { reply: plain(404, Notice::UserNotFound) },
        _ => Step::Finish { reply: plain(500, Notice::UnexpectedError) },
    }
}

} // verus!
