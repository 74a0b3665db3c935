//! The dispatch-and-authorization core of a chat command bot: a fixed
//! registry of command descriptors, a dispatcher that resolves and gates
//! inbound messages, the once-seeded privileged-user state, and the plain
//! renderings the commands reply with (help cards, durations, weather
//! reports, truncated failure text).

pub mod auth;
pub mod commands;
pub mod dispatch;
pub mod duration;
pub mod embed;
pub mod help;
pub mod registry;
pub mod shutdown;
pub mod text;
pub mod token;
pub mod weather;
pub mod wind;
