pub mod chat;
pub mod errors;
pub mod json;
pub mod response;

pub use chat::{ChatPostMessageArguments, ChatPostMessageAttachment, ChatPostMessageField};
pub use errors::SlackApiError;
pub use json::JsonValue;
