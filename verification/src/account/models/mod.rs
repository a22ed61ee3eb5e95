//! What the operations take and what they answer.

pub mod request;
pub mod response;
