//! Domain records, their invariants, and the value types they are built from.

pub mod hex_text;
pub mod hash;
pub mod text;
pub mod field_errors;
pub mod time;
pub mod id;
pub mod note;
pub mod project;
pub mod user;
pub mod services;
pub mod validator;
pub mod exceptions;
