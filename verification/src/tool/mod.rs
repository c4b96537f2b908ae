//! The tools of the server, one invocation at a time. An invocation says
//! which call or statement it needs next and, once that has happened, what
//! the caller of the tool is told: the text of a success, or the failure.

pub mod discover;
pub mod reply;
pub mod storage;
pub mod upstream;
