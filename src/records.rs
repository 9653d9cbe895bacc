use vstd::prelude::*;
use crate::ids::{RecordId, Timestamp};
use crate::text::text_equals;
use crate::tokens::{generate_long_token, generate_token, is_long_token, is_short_token};

verus! {

/// An account. `email` identifies the user; `mqtt_user` and `mqtt_pass` are the broker
/// credentials handed to the user's devices.
#[derive(Debug)]
pub struct User {
    pub id: RecordId,
    pub username: String,
    pub email: String,
    pub password: String,
    pub mqtt_user: String,
    pub mqtt_pass: String,
}

impl User {
    /// An equal copy.
    pub fn duplicate(&self) -> (r: User)
        ensures
            r == *self,
    {
        User {
            id: self.id,
            username: self.username.clone(),
            email: self.email.clone(),
            password: self.password.clone(),
            mqtt_user: self.mqtt_user.clone(),
            mqtt_pass: self.mqtt_pass.clone(),
        }
    }

    /// A new account under a fresh id. The broker credentials start empty; they are
    /// provisioned outside this service.
    pub fn new(username: String, email: String, password: String) -> (r: User)
        ensures
            r.username == username,
            r.email == email,
            r.password == password,
            r.mqtt_user@ == Seq::<char>::empty(),
            r.mqtt_pass@ == Seq::<char>::empty(),
    {
        User::with_id(RecordId::fresh(), username, email, password)
    }

    /// A new account under the given id.
    pub fn with_id(id: RecordId, username: String, email: String, password: String) -> (r: User)
        ensures
            r.id == id,
            r.username == username,
            r.email == email,
            r.password == password,
            r.mqtt_user@ == Seq::<char>::empty(),
            r.mqtt_pass@ == Seq::<char>::empty(),
    {
        User { id, username, email, password, mqtt_user: String::new(), mqtt_pass: String::new() }
    }
}

/// An onboarding in progress: two one-shot tokens, one to confirm the address and one to
/// set the account up.
#[derive(Debug)]
pub struct RegistrationTable {
    pub id: RecordId,
    pub confirmation_token: String,
    pub setup_token: String,
    pub email: String,
    pub created_at: Timestamp,
    pub confirmed: bool,
}

impl RegistrationTable {
    /// An equal copy.
    pub fn duplicate(&self) -> (r: RegistrationTable)
        ensures
            r == *self,
    {
        RegistrationTable {
            id: self.id,
            confirmation_token: self.confirmation_token.clone(),
            setup_token: self.setup_token.clone(),
            email: self.email.clone(),
            created_at: self.created_at,
            confirmed: self.confirmed,
        }
    }

    /// A fresh, unconfirmed registration for `email` with two newly drawn short tokens.
    pub fn new(email: String) -> (r: RegistrationTable)
        ensures
            r.email == email,
            !r.confirmed,
            is_short_token(r.confirmation_token@),
            is_short_token(r.setup_token@),
    {
        RegistrationTable {
            email,
            id: RecordId::fresh(),
            confirmation_token: generate_token(),
            confirmed: false,
            created_at: Timestamp::now(),
            setup_token: generate_token(),
        }
    }
}

/// A one-time login code sent to an address.
#[derive(Debug)]
pub struct LoginOTPTable {
    pub email: String,
    pub confirmation_token: String,
    pub created_at: Timestamp,
}

impl LoginOTPTable {
    /// A fresh login code for `email`.
    pub fn new(email: String) -> (r: LoginOTPTable)
        ensures
            r.email == email,
            is_short_token(r.confirmation_token@),
    {
        LoginOTPTable { email, confirmation_token: generate_token(), created_at: Timestamp::now() }
    }
}

/// A physical unit, authenticated by its key and pass.
#[derive(Debug)]
pub struct Device {
    pub id: RecordId,
    pub device_name: String,
    pub status: i32,
    pub device_key: String,
    pub device_pass: String,
    pub last_online: Option<Timestamp>,
    pub created_at: Timestamp,
    pub user_email: String,
}

impl Device {
    /// An equal copy.
    pub fn duplicate(&self) -> (r: Device)
        ensures
            r == *self,
    {
        Device {
            id: self.id,
            device_name: self.device_name.clone(),
            status: self.status,
            device_key: self.device_key.clone(),
            device_pass: self.device_pass.clone(),
            last_online: self.last_online,
            created_at: self.created_at,
            user_email: self.user_email.clone(),
        }
    }

    /// A new device of `user_email` with newly drawn long credentials, never seen online.
    pub fn new(device_name: String, user_email: String) -> (r: Device)
        ensures
            r.device_name == device_name,
            r.user_email == user_email,
            r.status == 0,
            r.last_online is None,
            is_long_token(r.device_key@),
            is_long_token(r.device_pass@),
    {
        Device {
            device_name,
            user_email,
            device_key: generate_long_token(),
            device_pass: generate_long_token(),
            id: RecordId::fresh(),
            status: 0,
            created_at: Timestamp::now(),
            last_online: None,
        }
    }
}

/// The kinds of endpoint a device can expose.
#[derive(Clone, Copy, Debug, PartialEq, Eq, Structural)]
pub enum ControllableCategory {
    Button,
    Slider,
    Switch,
    LED,
}

/// The category a name stands for, if any.
pub open spec fn category_named(s: Seq<char>) -> Option<ControllableCategory> {
    if s == "Button"@ {
        Some(ControllableCategory::Button)
    } else if s == "Slider"@ {
        Some(ControllableCategory::Slider)
    } else if s == "Switch"@ {
        Some(ControllableCategory::Switch)
    } else if s == "LED"@ {
        Some(ControllableCategory::LED)
    } else {
        None
    }
}

impl ControllableCategory {
    /// Reads a category from its exact name.
    pub fn from_str(s: &str) -> (r: Option<ControllableCategory>)
        ensures
            r == category_named(s@),
    {
        if text_equals(s, "Button") {
            Some(ControllableCategory::Button)
        } else if text_equals(s, "Slider") {
            Some(ControllableCategory::Slider)
        } else if text_equals(s, "Switch") {
            Some(ControllableCategory::Switch)
        } else if text_equals(s, "LED") {
            Some(ControllableCategory::LED)
        } else {
            None
        }
    }
}

/// A named endpoint on a device, reached over the broker through `topic_name`.
#[derive(Debug)]
pub struct Controllable {
    pub id: RecordId,
    pub controllable_name: String,
    pub device_id: RecordId,
    pub created_at: Timestamp,
    pub category: ControllableCategory,
    pub topic_name: String,
    pub user_email: String,
}

impl Controllable {
    /// An equal copy.
    pub fn duplicate(&self) -> (r: Controllable)
        ensures
            r == *self,
    {
        Controllable {
            id: self.id,
            controllable_name: self.controllable_name.clone(),
            device_id: self.device_id,
            created_at: self.created_at,
            category: self.category,
            topic_name: self.topic_name.clone(),
            user_email: self.user_email.clone(),
        }
    }

    /// A new controllable under `device_id` with a newly drawn long topic name.
    pub fn new(
        controllable_name: String,
        controllable_category: ControllableCategory,
        device_id: RecordId,
        user_email: String,
    ) -> (r: Controllable)
        ensures
            r.controllable_name == controllable_name,
            r.category == controllable_category,
            r.device_id == device_id,
            r.user_email == user_email,
            is_long_token(r.topic_name@),
    {
        Controllable {
            controllable_name,
            device_id,
            user_email,
            topic_name: generate_long_token(),
            id: RecordId::fresh(),
            created_at: Timestamp::now(),
            category: controllable_category,
        }
    }
}

} // verus!
