//! A terminal password manager's core: a persistent key/value store adapter,
//! a case-insensitive key filter, a cyclic selection list, and the modal
//! state machine that routes key presses between them.

pub mod app;
pub mod kvs;
pub mod list;
pub mod search;
pub mod text;
