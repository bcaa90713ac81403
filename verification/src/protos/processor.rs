//! The messages of the transaction processor protocol, as their protobuf
//! definitions lay them out.

use vstd::prelude::*;

verus! {

/// How a transaction processor wants the header of a process request.
#[allow(non_camel_case_types)]
#[derive(PartialEq, Eq, Structural, Clone, Copy, Debug)]
pub enum TpRegisterRequest_TpProcessRequestHeaderStyle {
    HEADER_STYLE_UNSET,
    EXPANDED,
    RAW,
}

/// The registration of a transaction processor with the validator.
pub struct TpRegisterRequest {
    pub family: String,
    pub version: String,
    pub namespaces: Vec<String>,
    pub max_occupancy: u32,
    pub protocol_version: u32,
    pub request_header_style: TpRegisterRequest_TpProcessRequestHeaderStyle,
}

impl TpRegisterRequest {
    pub fn get_family(&self) -> (family: &str)
        ensures
            family@ == self.family@,
    {
        self.family.as_str()
    }

    pub fn get_version(&self) -> (version: &str)
        ensures
            version@ == self.version@,
    {
        self.version.as_str()
    }

    pub fn get_namespaces(&self) -> (namespaces: &[String])
        ensures
            namespaces@ == self.namespaces@,
    {
        self.namespaces.as_slice()
    }

    pub fn get_max_occupancy(&self) -> (max_occupancy: u32)
        ensures
            max_occupancy == self.max_occupancy,
    {
        self.max_occupancy
    }

    pub fn get_protocol_version(&self) -> (protocol_version: u32)
        ensures
            protocol_version == self.protocol_version,
    {
        self.protocol_version
    }

    pub fn get_request_header_style(&self) -> (style: TpRegisterRequest_TpProcessRequestHeaderStyle)
        ensures
            style == self.request_header_style,
    {
        self.request_header_style
    }
}

} // verus!
