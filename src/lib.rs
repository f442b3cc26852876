//! Runtime of a small conversational scripting language: values, the
//! execution context of one turn, the action dispatcher and the hold/resume
//! continuation protocol, together with the key scheme of its storage.

pub mod value;
pub mod data;
pub mod ast;
pub mod context;
pub mod eval;
pub mod actions;
pub mod scope;
pub mod turn;
pub mod laws;
pub mod storage;
pub mod linter;
pub mod requests;
