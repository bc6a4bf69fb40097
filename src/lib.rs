//! User-account service core: error taxonomy, input validation, the
//! registration protocol with its uniqueness guarantees, and the mapping of
//! outcomes onto GraphQL and HTTP replies.
pub mod error;
pub mod validation;
pub mod users;
pub mod service;
pub mod transport;
pub mod schema;
