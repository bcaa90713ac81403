//! Verified core of the transaction-protocol toolkit: the decisions taken by the
//! `FromProtoImpl` code generator, the validator registration message with its
//! builder and protobuf conversion, the signature handling of the Sawtooth signer
//! and the workload interfaces.

pub mod codegen;
pub mod signing;
pub mod protos;
pub mod protocol;
pub mod workload;
