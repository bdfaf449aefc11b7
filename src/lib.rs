//! A small command-line assistant's library: an on-disk cache of query and
//! answer pairs, the credential and reply rules of a chat-completion client,
//! and the decisions of the command driver.

pub mod cache;
pub mod credential;
pub mod query;
pub mod driver;
