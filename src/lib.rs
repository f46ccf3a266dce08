//! Core of a small personal content-management backend: domain records and
//! their construction rules, session tokens and identity views, the use cases
//! that sit between a transport and a store, and in-memory stores that follow
//! the gateway contracts.

pub mod domain;
pub mod application;
pub mod adapters;
pub mod config;
pub mod presentation;
pub mod ioc;
