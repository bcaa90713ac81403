use transact::protocol::errors::BuilderError;
use transact::protocol::validator::{
    TpProcessRequestHeaderStyle, TpRegisterRequest, TpRegisterRequestBuilder,
};
use transact::protos::processor;
use transact::protos::processor::TpRegisterRequest_TpProcessRequestHeaderStyle as ProtoStyle;

fn missing(res: Result<TpRegisterRequest, BuilderError>) -> String {
    match res {
        Err(BuilderError::MissingField(name)) => name,
        Ok(_) => panic!("expected a missing field"),
    }
}

fn full_builder() -> TpRegisterRequestBuilder {
    TpRegisterRequestBuilder::new()
        .family("intkey".to_string())
        .version("1.0".to_string())
        .namespaces(vec!["1cf126".to_string(), "abcdef".to_string()])
        .max_occupancy(10)
        .protocol_version(1)
        .request_header_style(TpProcessRequestHeaderStyle::Expanded)
}

#[test]
fn build_gives_back_every_field() {
    let request = full_builder().build().ok().unwrap();
    assert_eq!(request.family(), "intkey");
    assert_eq!(request.version(), "1.0");
    assert_eq!(request.namespaces(), &["1cf126".to_string(), "abcdef".to_string()][..]);
    assert_eq!(request.max_occupancy(), 10);
    assert_eq!(request.protocol_version(), 1);
    assert_eq!(*request.request_header_style(), TpProcessRequestHeaderStyle::Expanded);
}

#[test]
fn last_value_set_wins() {
    let request = full_builder().family("xo".to_string()).max_occupancy(3).build().ok().unwrap();
    assert_eq!(request.family(), "xo");
    assert_eq!(request.max_occupancy(), 3);
}

#[test]
fn new_builder_misses_the_family() {
    assert_eq!(missing(TpRegisterRequestBuilder::new().build()), "family");
}

#[test]
fn first_missing_field_is_reported() {
    let b = TpRegisterRequestBuilder::new()
        .family("intkey".to_string())
        .version("1.0".to_string())
        .protocol_version(1);
    assert_eq!(missing(b.build()), "namespaces");
    let b = TpRegisterRequestBuilder::new()
        .family("f".to_string())
        .version("v".to_string())
        .namespaces(vec![])
        .max_occupancy(1)
        .protocol_version(1);
    assert_eq!(missing(b.build()), "request_header_style");
    let b = TpRegisterRequestBuilder::new()
        .family("f".to_string())
        .version("v".to_string())
        .namespaces(vec![])
        .protocol_version(1)
        .request_header_style(TpProcessRequestHeaderStyle::Raw);
    assert_eq!(missing(b.build()), "max_occupancy");
    let b = TpRegisterRequestBuilder::new()
        .family("f".to_string())
        .namespaces(vec![]);
    assert_eq!(missing(b.build()), "version");
    let b = TpRegisterRequestBuilder::new()
        .family("f".to_string())
        .version("v".to_string())
        .namespaces(vec![])
        .max_occupancy(1);
    assert_eq!(missing(b.build()), "protocol_version");
}

#[test]
fn header_styles_convert_one_to_one() {
    let convert = |p| TpProcessRequestHeaderStyle::from_proto(p).ok().unwrap();
    assert_eq!(convert(ProtoStyle::HEADER_STYLE_UNSET), TpProcessRequestHeaderStyle::HeaderStyleUnset);
    assert_eq!(convert(ProtoStyle::EXPANDED), TpProcessRequestHeaderStyle::Expanded);
    assert_eq!(convert(ProtoStyle::RAW), TpProcessRequestHeaderStyle::Raw);
}

#[test]
fn register_request_converts_from_its_message() {
    let proto = processor::TpRegisterRequest {
        family: "intkey".to_string(),
        version: "1.0".to_string(),
        namespaces: vec!["1cf126".to_string()],
        max_occupancy: 7,
        protocol_version: 2,
        request_header_style: ProtoStyle::RAW,
    };
    assert_eq!(proto.get_family(), "intkey");
    let request = TpRegisterRequest::from_proto(proto).ok().unwrap();
    assert_eq!(request.family(), "intkey");
    assert_eq!(request.version(), "1.0");
    assert_eq!(request.namespaces(), &["1cf126".to_string()][..]);
    assert_eq!(request.max_occupancy(), 7);
    assert_eq!(request.protocol_version(), 2);
    assert_eq!(*request.request_header_style(), TpProcessRequestHeaderStyle::Raw);
}
