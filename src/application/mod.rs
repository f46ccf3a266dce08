//! Use cases and the ports they depend on.

pub mod id_provider;
pub mod exceptions;
pub mod hasher;
pub mod note_gateway;
pub mod create_session;
pub mod get_user_self;
pub mod notes;
pub mod user_gateway;
pub mod project_gateway;
pub mod users;
pub mod session;
pub mod pagination;
pub mod projects;
