use vstd::prelude::*;
use crate::text::join3;

verus! {

/// What `regex` answers for a pattern and a text: `None` when the pattern does not
/// compile, else whether the text matches it.
pub uninterp spec fn regex_verdict(pattern: Seq<char>, text: Seq<char>) -> Option<bool>;

/// Relies on regex's Regex::new and Regex::is_match; the answer depends on the two texts alone.
#[verifier::external_body]
fn regex_matches(pattern: &str, text: &str) -> (r: Option<bool>)
    ensures
        r == regex_verdict(pattern@, text@),
{
    match regex::Regex::new(pattern) {
        Ok(re) => Some(re.is_match(text)),
        Err(_) => None,
    }
}

/// The shape an address must have: word characters, dots or dashes, an `@`, a domain with
/// at least one dot.
pub open spec fn email_pattern() -> Seq<char> {
    "^[\\w\\.-]+@[\\w\\.-]+\\.\\w+$"@
}

/// Whether `s` has the shape of an address.
pub open spec fn is_email_shaped(s: Seq<char>) -> bool {
    regex_verdict(email_pattern(), s) == Some(true)
}

/// Whether `email` has the shape of an address.
pub fn is_valid_email(email: &str) -> (r: bool)
    ensures
        r == is_email_shaped(email@),
{
    match regex_matches("^[\\w\\.-]+@[\\w\\.-]+\\.\\w+$", email) {
        Some(b) => b,
        None => false,
    }
}

/// The two mails the service sends; both carry a token.
#[derive(Clone, Copy, Debug, PartialEq, Eq, Structural)]
pub enum MailKind {
    AccountConfirmation,
    OtpLogin,
}

/// A mail to deliver: its address, its kind and the token it carries.
#[derive(Debug)]
pub struct OutgoingMail {
    pub to: String,
    pub kind: MailKind,
    pub token: String,
}

pub open spec fn mail_subject(kind: MailKind) -> Seq<char> {
    match kind {
        MailKind::AccountConfirmation => "Account Confirmation"@,
        MailKind::OtpLogin => "OTP Login Confirmation"@,
    }
}

pub open spec fn mail_body(token: Seq<char>) -> Seq<char> {
    "Hi there, Thank you for signing up to ROVI Project! Please use token below to proceed:<br /><b>TOKEN:["@
        + token + "]</b>"@
}

/// The sender's mailbox for the account `email_user`.
pub open spec fn sender_text(email_user: Seq<char>) -> Seq<char> {
    "ROVI Project <"@ + email_user + ">"@
}

impl OutgoingMail {
    pub fn subject(&self) -> (r: String)
        ensures
            r@ == mail_subject(self.kind),
    {
        match self.kind {
            MailKind::AccountConfirmation => String::from_str("Account Confirmation"),
            MailKind::OtpLogin => String::from_str("OTP Login Confirmation"),
        }
    }

    /// The HTML body, which shows the token.
    pub fn body(&self) -> (r: String)
        ensures
            r@ == mail_body(self.token@),
    {
        join3(
            "Hi there, Thank you for signing up to ROVI Project! Please use token below to proceed:<br /><b>TOKEN:[",
            self.token.as_str(),
            "]</b>",
        )
    }
}

/// The `From` mailbox of every mail, for the sending account `email_user`.
pub fn sender_mailbox(email_user: &str) -> (r: String)
    ensures
        r@ == sender_text(email_user@),
{
    join3("ROVI Project <", email_user, ">")
}

} // verus!
