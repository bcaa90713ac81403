//! The registration request of a transaction processor: its header style, the
//! request with its getters, the builder that assembles it and its conversion
//! from the protobuf message.

use vstd::prelude::*;

use crate::protocol::errors::BuilderError;
use crate::protos::processor;
use crate::protos::processor::TpRegisterRequest_TpProcessRequestHeaderStyle as ProtoHeaderStyle;
use crate::protos::ProtoConversionError;

verus! {

/// How a transaction processor wants the header of a process request.
#[derive(PartialEq, Eq, Structural, Clone, Copy, Debug)]
pub enum TpProcessRequestHeaderStyle {
    HeaderStyleUnset,
    Expanded,
    Raw,
}

/// The native header style of each protobuf header style.
pub open spec fn header_style_from_proto(proto: ProtoHeaderStyle) -> TpProcessRequestHeaderStyle {
    match proto {
        ProtoHeaderStyle::HEADER_STYLE_UNSET => TpProcessRequestHeaderStyle::HeaderStyleUnset,
        ProtoHeaderStyle::EXPANDED => TpProcessRequestHeaderStyle::Expanded,
        ProtoHeaderStyle::RAW => TpProcessRequestHeaderStyle::Raw,
    }
}

impl TpProcessRequestHeaderStyle {
    /// The header style that a protobuf header style stands for; every one has its own.
    pub fn from_proto(proto: ProtoHeaderStyle) -> (res: Result<Self, ProtoConversionError>)
        ensures
            res matches Ok(style) && style == header_style_from_proto(proto),
            proto == ProtoHeaderStyle::HEADER_STYLE_UNSET ==> (res matches Ok(style) && style
                == TpProcessRequestHeaderStyle::HeaderStyleUnset),
            proto == ProtoHeaderStyle::EXPANDED ==> (res matches Ok(style) && style
                == TpProcessRequestHeaderStyle::Expanded),
            proto == ProtoHeaderStyle::RAW ==> (res matches Ok(style) && style
                == TpProcessRequestHeaderStyle::Raw),
    {
        match proto {
            ProtoHeaderStyle::HEADER_STYLE_UNSET => Ok(TpProcessRequestHeaderStyle::HeaderStyleUnset),
            ProtoHeaderStyle::EXPANDED => Ok(TpProcessRequestHeaderStyle::Expanded),
            ProtoHeaderStyle::RAW => Ok(TpProcessRequestHeaderStyle::Raw),
        }
    }
}

/// The registration of a transaction processor: the transaction family and
/// version it handles, the state namespaces it uses, how many requests it takes
/// at once, its protocol version and the header style it wants.
pub struct TpRegisterRequest {
    family: String,
    version: String,
    namespaces: Vec<String>,
    max_occupancy: u32,
    protocol_version: u32,
    request_header_style: TpProcessRequestHeaderStyle,
}

/// The contents of a registration request.
pub struct TpRegisterRequestView {
    pub family: Seq<char>,
    pub version: Seq<char>,
    pub namespaces: Seq<Seq<char>>,
    pub max_occupancy: u32,
    pub protocol_version: u32,
    pub request_header_style: TpProcessRequestHeaderStyle,
}

/// The texts of a list of strings.
pub open spec fn strings_view(strings: Seq<String>) -> Seq<Seq<char>> {
    strings.map_values(|s: String| s@)
}

impl View for TpRegisterRequest {
    type V = TpRegisterRequestView;

    closed spec fn view(&self) -> TpRegisterRequestView {
        TpRegisterRequestView {
            family: self.family@,
            version: self.version@,
            namespaces: strings_view(self.namespaces@),
            max_occupancy: self.max_occupancy,
            protocol_version: self.protocol_version,
            request_header_style: self.request_header_style,
        }
    }
}

/// The contents of the registration request that a protobuf message encodes.
pub open spec fn register_request_from_proto(proto: processor::TpRegisterRequest) -> TpRegisterRequestView {
    TpRegisterRequestView {
        family: proto.family@,
        version: proto.version@,
        namespaces: strings_view(proto.namespaces@),
        max_occupancy: proto.max_occupancy,
        protocol_version: proto.protocol_version,
        request_header_style: header_style_from_proto(proto.request_header_style),
    }
}

/// Copies a list of strings.
fn copy_strings(strings: &[String]) -> (copy: Vec<String>)
    ensures
        strings_view(copy@) == strings_view(strings@),
{
    let n = strings.len();
    let mut copy: Vec<String> = Vec::new();
    let mut i: usize = 0;
    while i < n
        invariant
            n == strings@.len(),
            i <= n,
            copy@.len() == i,
            forall|j: int| 0 <= j < i ==> (#[trigger] copy@[j])@ == strings@[j]@,
        decreases n - i,
    {
        copy.push(strings[i].clone());
        i = i + 1;
    }
    assert(strings_view(copy@) =~= strings_view(strings@));
    copy
}

impl TpRegisterRequest {
    pub fn family(&self) -> (family: &str)
        ensures
            family@ == self@.family,
    {
        self.family.as_str()
    }

    pub fn version(&self) -> (version: &str)
        ensures
            version@ == self@.version,
    {
        self.version.as_str()
    }

    pub fn namespaces(&self) -> (namespaces: &[String])
        ensures
            strings_view(namespaces@) == self@.namespaces,
    {
        self.namespaces.as_slice()
    }

    pub fn max_occupancy(&self) -> (max_occupancy: u32)
        ensures
            max_occupancy == self@.max_occupancy,
    {
        self.max_occupancy
    }

    pub fn protocol_version(&self) -> (protocol_version: u32)
        ensures
            protocol_version == self@.protocol_version,
    {
        self.protocol_version
    }

    pub fn request_header_style(&self) -> (style: &TpProcessRequestHeaderStyle)
        ensures
            *style == self@.request_header_style,
    {
        &self.request_header_style
    }

    /// The request that a protobuf message encodes: the family and version as
    /// owned strings, each namespace as a string, the numbers as they are and the
    /// header style converted.
    pub fn from_proto(proto: processor::TpRegisterRequest) -> (res: Result<Self, ProtoConversionError>)
        ensures
            res matches Ok(request) && request@ == register_request_from_proto(proto),
            res matches Ok(request) && request@.family == proto.family@ && request@.version
                == proto.version@ && request@.max_occupancy == proto.max_occupancy
                && request@.protocol_version == proto.protocol_version,
            res matches Ok(request) && request@.namespaces.len() == proto.namespaces@.len()
                && forall|i: int|
                0 <= i < proto.namespaces@.len() ==> request@.namespaces[i]
                    == (#[trigger] proto.namespaces@[i])@,
            proto.request_header_style == ProtoHeaderStyle::HEADER_STYLE_UNSET ==> (res matches Ok(
                request,
            ) && request@.request_header_style == TpProcessRequestHeaderStyle::HeaderStyleUnset),
            proto.request_header_style == ProtoHeaderStyle::EXPANDED ==> (res matches Ok(request)
                && request@.request_header_style == TpProcessRequestHeaderStyle::Expanded),
            proto.request_header_style == ProtoHeaderStyle::RAW ==> (res matches Ok(request)
                && request@.request_header_style == TpProcessRequestHeaderStyle::Raw),
    {
        let family = proto.get_family().to_owned();
        let version = proto.get_version().to_owned();
        let namespaces = copy_strings(proto.get_namespaces());
        let max_occupancy = proto.get_max_occupancy();
        let protocol_version = proto.get_protocol_version();
        let request_header_style = TpProcessRequestHeaderStyle::from_proto(
            proto.get_request_header_style(),
        )?;
        assert(strings_view(namespaces@).len() == namespaces@.len());
        assert(strings_view(proto.namespaces@).len() == proto.namespaces@.len());
        Ok(
            TpRegisterRequest {
                family,
                version,
                namespaces,
                max_occupancy,
                protocol_version,
                request_header_style,
            },
        )
    }
}

/// Assembles a registration request field by field.
pub struct TpRegisterRequestBuilder {
    family: Option<String>,
    version: Option<String>,
    namespaces: Option<Vec<String>>,
    max_occupancy: Option<u32>,
    protocol_version: Option<u32>,
    request_header_style: Option<TpProcessRequestHeaderStyle>,
}

/// What a builder has been given so far.
pub struct TpRegisterRequestBuilderView {
    pub family: Option<Seq<char>>,
    pub version: Option<Seq<char>>,
    pub namespaces: Option<Seq<Seq<char>>>,
    pub max_occupancy: Option<u32>,
    pub protocol_version: Option<u32>,
    pub request_header_style: Option<TpProcessRequestHeaderStyle>,
}

impl View for TpRegisterRequestBuilder {
    type V = TpRegisterRequestBuilderView;

    closed spec fn view(&self) -> TpRegisterRequestBuilderView {
        TpRegisterRequestBuilderView {
            family: match self.family {
                Some(s) => Some(s@),
                None => None,
            },
            version: match self.version {
                Some(s) => Some(s@),
                None => None,
            },
            namespaces: match self.namespaces {
                Some(v) => Some(strings_view(v@)),
                None => None,
            },
            max_occupancy: self.max_occupancy,
            protocol_version: self.protocol_version,
            request_header_style: self.request_header_style,
        }
    }
}

/// A builder that has been given nothing.
pub open spec fn empty_builder() -> TpRegisterRequestBuilderView {
    TpRegisterRequestBuilderView {
        family: None,
        version: None,
        namespaces: None,
        max_occupancy: None,
        protocol_version: None,
        request_header_style: None,
    }
}

/// The first field, in declaration order, that a builder has not been given.
pub open spec fn first_missing_field(b: TpRegisterRequestBuilderView) -> Option<Seq<char>> {
    if b.family is None {
        Some("family"@)
    } else if b.version is None {
        Some("version"@)
    } else if b.namespaces is None {
        Some("namespaces"@)
    } else if b.max_occupancy is None {
        Some("max_occupancy"@)
    } else if b.protocol_version is None {
        Some("protocol_version"@)
    } else if b.request_header_style is None {
        Some("request_header_style"@)
    } else {
        None
    }
}

/// The request that a builder given every field builds.
pub open spec fn built_request(b: TpRegisterRequestBuilderView) -> TpRegisterRequestView {
    TpRegisterRequestView {
        family: b.family->0,
        version: b.version->0,
        namespaces: b.namespaces->0,
        max_occupancy: b.max_occupancy->0,
        protocol_version: b.protocol_version->0,
        request_header_style: b.request_header_style->0,
    }
}

/// What building gives: the request, or the first field that was never set.
pub open spec fn build_outcome(b: TpRegisterRequestBuilderView) -> Result<TpRegisterRequestView, Seq<char>> {
    match first_missing_field(b) {
        Some(name) => Err(name),
        None => Ok(built_request(b)),
    }
}

impl TpRegisterRequestBuilder {
    /// A builder that has been given nothing.
    pub fn new() -> (builder: Self)
        ensures
            builder@ == empty_builder(),
    {
        TpRegisterRequestBuilder {
            family: None,
            version: None,
            namespaces: None,
            max_occupancy: None,
            protocol_version: None,
            request_header_style: None,
        }
    }

    /// Sets the transaction family.
    pub fn family(self, value: String) -> (builder: Self)
        ensures
            builder@ == (TpRegisterRequestBuilderView { family: Some(value@), ..self@ }),
    {
        TpRegisterRequestBuilder { family: Some(value), ..self }
    }

    /// Sets the version of the transaction family.
    pub fn version(self, value: String) -> (builder: Self)
        ensures
            builder@ == (TpRegisterRequestBuilderView { version: Some(value@), ..self@ }),
    {
        TpRegisterRequestBuilder { version: Some(value), ..self }
    }

    /// Sets the state namespaces.
    pub fn namespaces(self, value: Vec<String>) -> (builder: Self)
        ensures
            builder@ == (TpRegisterRequestBuilderView {
                namespaces: Some(strings_view(value@)),
                ..self@
            }),
    {
        TpRegisterRequestBuilder { namespaces: Some(value), ..self }
    }

    /// Sets how many requests the processor takes at once.
    pub fn max_occupancy(self, value: u32) -> (builder: Self)
        ensures
            builder@ == (TpRegisterRequestBuilderView { max_occupancy: Some(value), ..self@ }),
    {
        TpRegisterRequestBuilder { max_occupancy: Some(value), ..self }
    }

    /// Sets the protocol version.
    pub fn protocol_version(self, value: u32) -> (builder: Self)
        ensures
            builder@ == (TpRegisterRequestBuilderView { protocol_version: Some(value), ..self@ }),
    {
        TpRegisterRequestBuilder { protocol_version: Some(value), ..self }
    }

    /// Sets the header style.
    pub fn request_header_style(self, value: TpProcessRequestHeaderStyle) -> (builder: Self)
        ensures
            builder@ == (TpRegisterRequestBuilderView {
                request_header_style: Some(value),
                ..self@
            }),
    {
        TpRegisterRequestBuilder { request_header_style: Some(value), ..self }
    }

    /// The request with every field that was set; every field is required, and
    /// the first one missing, in declaration order, is reported by name.
    pub fn build(self) -> (res: Result<TpRegisterRequest, BuilderError>)
        ensures
            build_outcome(self@) matches Ok(v) ==> (res matches Ok(request) && request@ == v),
            build_outcome(self@) matches Err(name) ==> (res matches Err(BuilderError::MissingField(
                n,
            )) && n@ == name),
    {
        let family = match self.family {
            Some(v) => v,
            None => { return Err(BuilderError::MissingField("family".to_owned())); },
        };
        let version = match self.version {
            Some(v) => v,
            None => { return Err(BuilderError::MissingField("version".to_owned())); },
        };
        let namespaces = match self.namespaces {
            Some(v) => v,
            None => { return Err(BuilderError::MissingField("namespaces".to_owned())); },
        };
        let max_occupancy = match self.max_occupancy {
            Some(v) => v,
            None => { return Err(BuilderError::MissingField("max_occupancy".to_owned())); },
        };
        let protocol_version = match self.protocol_version {
            Some(v) => v,
            None => { return Err(BuilderError::MissingField("protocol_version".to_owned())); },
        };
        let request_header_style = match self.request_header_style {
            Some(v) => v,
            None => { return Err(BuilderError::MissingField("request_header_style".to_owned())); },
        };
        Ok(
            TpRegisterRequest {
                family,
                version,
                namespaces,
                max_occupancy,
                protocol_version,
                request_header_style,
            },
        )
    }
}

/// Law: a builder given every field builds a request that holds exactly the
/// values it was given last, whatever it held before.
pub proof fn law_build_gives_back_what_was_set(
    b: TpRegisterRequestBuilderView,
    family: Seq<char>,
    version: Seq<char>,
    namespaces: Seq<Seq<char>>,
    max_occupancy: u32,
    protocol_version: u32,
    style: TpProcessRequestHeaderStyle,
)
    ensures
        build_outcome(
            TpRegisterRequestBuilderView {
                family: Some(family),
                version: Some(version),
                namespaces: Some(namespaces),
                max_occupancy: Some(max_occupancy),
                protocol_version: Some(protocol_version),
                request_header_style: Some(style),
                ..b
            },
        ) == Ok::<TpRegisterRequestView, Seq<char>>(
            TpRegisterRequestView {
                family,
                version,
                namespaces,
                max_occupancy,
                protocol_version,
                request_header_style: style,
            },
        ),
{
}

/// Law: building succeeds exactly when every field has been set.
pub proof fn law_build_succeeds_iff_complete(b: TpRegisterRequestBuilderView)
    ensures
        build_outcome(b) is Ok <==> (b.family is Some && b.version is Some && b.namespaces is Some
            && b.max_occupancy is Some && b.protocol_version is Some
            && b.request_header_style is Some),
{
}

/// Law: a builder that was never given the family reports the family missing,
/// whatever else it was given.
pub proof fn law_missing_family_is_reported(b: TpRegisterRequestBuilderView)
    requires
        b.family is None,
    ensures
        build_outcome(b) == Err::<TpRegisterRequestView, Seq<char>>("family"@),
{
}

/// Law: a builder just made reports the family missing.
pub proof fn law_new_builder_builds_nothing()
    ensures
        build_outcome(empty_builder()) == Err::<TpRegisterRequestView, Seq<char>>("family"@),
{
}

/// Law: setting a field twice keeps the second value.
pub proof fn law_last_family_wins(b: TpRegisterRequestBuilderView, first: Seq<char>, second: Seq<char>)
    ensures
        (TpRegisterRequestBuilderView {
            family: Some(second),
            ..TpRegisterRequestBuilderView { family: Some(first), ..b }
        }) == (TpRegisterRequestBuilderView { family: Some(second), ..b }),
{
}

/// Law: each protobuf header style converts to a header style of its own, and
/// every header style is reached, so the conversion is one to one and onto.
pub proof fn law_header_style_conversion_is_bijective(p: ProtoHeaderStyle, q: ProtoHeaderStyle, s: TpProcessRequestHeaderStyle)
    ensures
        header_style_from_proto(p) == header_style_from_proto(q) ==> p == q,
        exists|r: ProtoHeaderStyle| header_style_from_proto(r) == s,
{
    let r = match s {
        TpProcessRequestHeaderStyle::HeaderStyleUnset => ProtoHeaderStyle::HEADER_STYLE_UNSET,
        TpProcessRequestHeaderStyle::Expanded => ProtoHeaderStyle::EXPANDED,
        TpProcessRequestHeaderStyle::Raw => ProtoHeaderStyle::RAW,
    };
    assert(header_style_from_proto(r) == s);
}

/// Law: converting a protobuf registration message keeps every namespace of
/// the message, in order, and turns each header style into its own native
/// style (HEADER_STYLE_UNSET into HeaderStyleUnset, EXPANDED into Expanded, RAW
/// into Raw); family, version and the two numbers are kept as they are.
pub proof fn law_register_request_conversion_keeps_fields(proto: processor::TpRegisterRequest)
    ensures
        register_request_from_proto(proto).namespaces.len() == proto.namespaces@.len(),
        forall|i: int|
            0 <= i < proto.namespaces@.len() ==> register_request_from_proto(proto).namespaces[i]
                == (#[trigger] proto.namespaces@[i])@,
        register_request_from_proto(proto).family == proto.family@,
        register_request_from_proto(proto).version == proto.version@,
        register_request_from_proto(proto).max_occupancy == proto.max_occupancy,
        register_request_from_proto(proto).protocol_version == proto.protocol_version,
        proto.request_header_style == ProtoHeaderStyle::HEADER_STYLE_UNSET
            ==> register_request_from_proto(proto).request_header_style
            == TpProcessRequestHeaderStyle::HeaderStyleUnset,
        proto.request_header_style == ProtoHeaderStyle::EXPANDED
            ==> register_request_from_proto(proto).request_header_style
            == TpProcessRequestHeaderStyle::Expanded,
        proto.request_header_style == ProtoHeaderStyle::RAW
            ==> register_request_from_proto(proto).request_header_style
            == TpProcessRequestHeaderStyle::Raw,
{
}

} // verus!
