//! The protobuf messages that the protocol types convert from, and the error of
//! a conversion.

pub mod processor;

use vstd::prelude::*;

verus! {

/// The error of a conversion between a native type and its protobuf message.
pub enum ProtoConversionError {
    SerializationError(String),
}

} // verus!
