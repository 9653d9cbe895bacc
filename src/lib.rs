// Backend core of an IoT device-registration service: onboarding by mailed tokens, sessions,
// device credentials and controllables. Each request is a flow of steps; the HTTP layer
// carries out the store round trips and mails that the steps ask for.

pub mod account;
pub mod api;
pub mod error;
pub mod fleet;
pub mod ids;
pub mod mail;
pub mod onboarding;
pub mod records;
pub mod security;
pub mod session;
pub mod store;
pub mod text;
pub mod tokens;
