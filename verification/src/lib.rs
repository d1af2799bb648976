//! Core logic of a note-taking client: the keychain that maps items to the
//! keys that protect them, and the routing of messages that the user
//! interface sends to the core.

pub mod dispatch;
pub mod json;
pub mod key;
pub mod keychain;
pub mod seqs;
