//! A chat relay core: one storage actor owns users, tokens, chats, messages
//! and cached audio paths, serves every connection one request at a time, and
//! pushes notices to the other sessions of the same user.
pub mod credentials;
pub mod database;
pub mod env;
pub mod exchange;
pub mod google_types;
pub mod laws;
pub mod protocol;
pub mod seqs;
pub mod store;
pub mod types;
pub mod worker;
