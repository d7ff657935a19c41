//! The rules of a file-transfer server: who may register, sign in, upload and
//! download, what is written to the database, and when files expire.
//!
//! Every request handler is a machine. It asks for one piece of outside work at
//! a time (a database statement, the next chunk of an upload, a file operation),
//! is resumed with the result, and in the end hands over the answer. The
//! program around the library performs the work and runs the loop.
//!
//! The types are written over the type of their texts and lists: `String` and
//! `Vec` in the program, and sequences in contracts. A function that goes one
//! step on is tied to the step of the model, which is a spec function; what
//! follows for whole requests, and for the database and the files, is proved in
//! `laws` over the `tables` and the `world` on which the machines act.

pub mod text;
pub mod time;
pub mod fresh;
pub mod models;
pub mod statements;
pub mod settings;
pub mod actions;
pub mod responses;
pub mod auth;
pub mod payloads;
pub mod sign_in;
pub mod requests;
pub mod tasks;
pub mod frame;
pub mod upload;
pub mod delivery;
pub mod transfer;
pub mod download;
pub mod cleanup;
pub mod tables;
pub mod world;
pub mod laws;
