//! The protocol types that travel between the validator and its transaction
//! processors.

pub mod errors;
pub mod validator;
