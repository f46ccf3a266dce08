//! What the transport layer builds its use cases through.

pub mod interactor_factory;
