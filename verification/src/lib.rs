//! Authentication and classification of event-subscription webhook requests.

pub mod callback;
pub mod message_verification;
pub mod panel;
pub mod sub_management;
pub mod subslice;
pub mod twitch_messages;
