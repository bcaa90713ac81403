//! The logic of the code generator: a plain model of the parsed derive input,
//! the splitting of a protobuf type path and the plan of a `FromProto` impl.

pub mod input;
pub mod path;
pub mod protos;
