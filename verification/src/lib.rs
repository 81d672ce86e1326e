//! Time tracking and text analysis, with their rules proved.
//!
//! The time service keeps time entries: spans of work on a task, each owned
//! by the user who started it. `models` holds the data, `table` says what
//! each operation of the store does, `repository` is the store, `auth`
//! identifies the caller of a request from a bearer token, `handlers` put
//! the two together, `errors` names the failures and how they surface, and
//! `laws` states what holds of the whole.
//!
//! Three choices are fixed here. A user has at most one running entry: a
//! request to start a second one is a conflict, the running one is not
//! stopped for it. An entry is stopped once: a second stop is a conflict
//! and changes nothing. An entry of another user is as good as absent: every
//! attempt on it, deletion included, is answered with not found.
//!
//! The file service's share is `text` and `text_processor`, which take a
//! text apart into words and lines, and `file_service`, which answers its
//! requests once a file has been read.
//!
//! `bindings` holds the calls into other crates, and `sequences` a few facts
//! on filtered sequences.

pub mod auth;
pub mod bindings;
pub mod errors;
pub mod file_service;
pub mod handlers;
pub mod laws;
pub mod models;
pub mod repository;
pub mod sequences;
pub mod table;
pub mod text;
pub mod text_processor;
