use transact::codegen::input::{
    Attribute, Data, DeriveInput, Field, GenericArgument, Lit, Meta, NestedMeta, PathArguments,
    PathSegment, Type, Variant,
};
use transact::codegen::path::PathToken;
use transact::codegen::protos::{
    extract_proto_fields, extract_type_from_generic, from_proto_reads_missing_name,
    generate_from_proto, generate_from_proto_for_enum, generate_from_proto_for_struct, is_string,
    CodegenError, ErrorKind, ErrorTarget, FieldConversion, FromProtoBody,
};

fn s(text: &str) -> String {
    text.to_string()
}

fn proto_type_attr(path: &str) -> Attribute {
    Attribute {
        first_segment: Some(s("proto_type")),
        meta: Some(Meta::NameValue { ident: s("proto_type"), lit: Lit::Str(s(path)) }),
    }
}

fn directive(name: &str, word: &str) -> Attribute {
    Attribute {
        first_segment: Some(s(name)),
        meta: Some(Meta::List { ident: s(name), nested: vec![NestedMeta::Word(s(word))] }),
    }
}

fn word_attr(name: &str) -> Attribute {
    Attribute { first_segment: Some(s(name)), meta: Some(Meta::Word(s(name))) }
}

fn path_type(name: &str) -> Type {
    Type::Path(vec![PathSegment { ident: s(name), arguments: PathArguments::NoArguments }])
}

fn generic_type(outer: &str, inner: &str) -> Type {
    Type::Path(vec![PathSegment {
        ident: s(outer),
        arguments: PathArguments::AngleBracketed(vec![GenericArgument::Type(path_type(inner))]),
    }])
}

fn field(name: &str, attrs: Vec<Attribute>, ty: Type) -> Field {
    Field { ident: Some(s(name)), attrs, ty }
}

fn register_request_input() -> DeriveInput {
    DeriveInput {
        ident: s("TpRegisterRequest"),
        attrs: vec![
            word_attr("gen_build_impl"),
            proto_type_attr("protos::processor::TpRegisterRequest"),
        ],
        data: Data::Struct(vec![
            field("family", vec![word_attr("getter"), directive("from_proto_impl", "to_string")], path_type("String")),
            field("version", vec![word_attr("getter"), directive("from_proto_impl", "to_string")], path_type("String")),
            field("namespaces", vec![word_attr("getter"), directive("from_proto_impl", "Vec")], generic_type("Vec", "String")),
            field("max_occupancy", vec![word_attr("getter")], path_type("u32")),
            field("protocol_version", vec![word_attr("getter")], path_type("u32")),
            field(
                "request_header_style",
                vec![word_attr("getter"), directive("from_proto_impl", "from_proto")],
                path_type("TpProcessRequestHeaderStyle"),
            ),
        ]),
    }
}

fn header_style_input() -> DeriveInput {
    let variant = |name: &str, proto: &str| Variant {
        ident: s(name),
        attrs: vec![directive("from_proto_impl_enum", proto)],
    };
    DeriveInput {
        ident: s("TpProcessRequestHeaderStyle"),
        attrs: vec![proto_type_attr(
            "protos::processor::TpRegisterRequest_TpProcessRequestHeaderStyle",
        )],
        data: Data::Enum(vec![
            variant("HeaderStyleUnset", "HEADER_STYLE_UNSET"),
            variant("Expanded", "EXPANDED"),
            variant("Raw", "RAW"),
        ]),
    }
}

fn path_text(tokens: &[PathToken]) -> String {
    tokens
        .iter()
        .map(|t| match t {
            PathToken::Ident(s) => s.clone(),
            PathToken::Sep => "::".to_string(),
        })
        .collect()
}

fn err(kind: ErrorKind, target: ErrorTarget) -> CodegenError {
    CodegenError { kind, target }
}

#[test]
fn plans_the_register_request_struct() {
    let input = register_request_input();
    assert!(!from_proto_reads_missing_name(&input));
    let plan = generate_from_proto(&input).ok().unwrap();
    assert_eq!(plan.name, "TpRegisterRequest");
    assert_eq!(path_text(&plan.proto_type), "protos::processor::TpRegisterRequest");
    let fields = match plan.body {
        FromProtoBody::Struct(fields) => fields,
        FromProtoBody::Enum(_) => panic!("expected a struct body"),
    };
    let got: Vec<(String, FieldConversion)> =
        fields.into_iter().map(|f| (f.name, f.conversion)).collect();
    assert_eq!(
        got,
        vec![
            (s("family"), FieldConversion::ToOwnedString),
            (s("version"), FieldConversion::ToOwnedString),
            (s("namespaces"), FieldConversion::StringVec),
            (s("max_occupancy"), FieldConversion::Plain),
            (s("protocol_version"), FieldConversion::Plain),
            (s("request_header_style"), FieldConversion::FromProto),
        ]
    );
}

#[test]
fn plans_the_header_style_enum() {
    let plan = generate_from_proto(&header_style_input()).ok().unwrap();
    assert_eq!(plan.name, "TpProcessRequestHeaderStyle");
    assert_eq!(
        path_text(&plan.proto_type),
        "protos::processor::TpRegisterRequest_TpProcessRequestHeaderStyle"
    );
    let arms = match plan.body {
        FromProtoBody::Enum(arms) => arms,
        FromProtoBody::Struct(_) => panic!("expected an enum body"),
    };
    let got: Vec<(String, String)> = arms.into_iter().map(|a| (a.proto_variant, a.variant)).collect();
    assert_eq!(
        got,
        vec![
            (s("HEADER_STYLE_UNSET"), s("HeaderStyleUnset")),
            (s("EXPANDED"), s("Expanded")),
            (s("RAW"), s("Raw")),
        ]
    );
}

#[test]
fn clone_and_vec_of_messages() {
    let input = DeriveInput {
        ident: s("Batch"),
        attrs: vec![proto_type_attr("protos::batch::Batch")],
        data: Data::Struct(vec![
            field("header", vec![directive("from_proto_impl", "clone")], generic_type("Vec", "u8")),
            field("transactions", vec![directive("from_proto_impl", "Vec")], generic_type("Vec", "Transaction")),
        ]),
    };
    let plan = generate_from_proto(&input).ok().unwrap();
    match plan.body {
        FromProtoBody::Struct(fields) => {
            assert_eq!(fields[0].conversion, FieldConversion::Cloned);
            assert_eq!(fields[1].conversion, FieldConversion::FromProtoVec);
        }
        FromProtoBody::Enum(_) => panic!("expected a struct body"),
    }
}

#[test]
fn first_directive_of_a_field_decides() {
    let input = DeriveInput {
        ident: s("A"),
        attrs: vec![proto_type_attr("p::A")],
        data: Data::Struct(vec![field(
            "x",
            vec![directive("from_proto_impl", "clone"), directive("from_proto_impl", "bogus")],
            path_type("String"),
        )]),
    };
    let plan = generate_from_proto(&input).ok().unwrap();
    match plan.body {
        FromProtoBody::Struct(fields) => assert_eq!(fields[0].conversion, FieldConversion::Cloned),
        FromProtoBody::Enum(_) => panic!("expected a struct body"),
    }
}

#[test]
fn union_is_refused() {
    let input = DeriveInput { ident: s("U"), attrs: vec![proto_type_attr("p::U")], data: Data::Union };
    let e = generate_from_proto(&input).err().unwrap();
    assert_eq!(e, err(ErrorKind::IncompatibleStructure, ErrorTarget::Input));
    assert_eq!(e.kind.message(), "Deriving from_proto is incompatible with this structure");
}

#[test]
fn missing_proto_type_is_refused() {
    let mut input = register_request_input();
    input.attrs = vec![
        word_attr("gen_build_impl"),
        // named proto_type, but not a string literal
        Attribute {
            first_segment: Some(s("proto_type")),
            meta: Some(Meta::NameValue { ident: s("proto_type"), lit: Lit::Other }),
        },
        // a string literal under another name
        Attribute {
            first_segment: Some(s("other")),
            meta: Some(Meta::NameValue { ident: s("other"), lit: Lit::Str(s("p::X")) }),
        },
    ];
    let e = generate_from_proto(&input).err().unwrap();
    assert_eq!(e, err(ErrorKind::MissingProtoType, ErrorTarget::Input));
    assert_eq!(e.kind.message(), "A protobuf message type is required");
}

#[test]
fn first_proto_type_attribute_wins() {
    let mut input = header_style_input();
    input.attrs.push(proto_type_attr("other::Path"));
    let plan = generate_from_proto(&input).ok().unwrap();
    assert_eq!(
        path_text(&plan.proto_type),
        "protos::processor::TpRegisterRequest_TpProcessRequestHeaderStyle"
    );
}

#[test]
fn struct_generation_on_an_enum_is_refused() {
    let e = generate_from_proto_for_struct(&header_style_input()).err().unwrap();
    assert_eq!(e, err(ErrorKind::NotAStruct, ErrorTarget::Input));
    assert_eq!(e.kind.message(), "macro is only compatible with stucts");
    let e = extract_proto_fields(&header_style_input()).err().unwrap();
    assert_eq!(e, err(ErrorKind::NotAStruct, ErrorTarget::Input));
}

#[test]
fn enum_generation_on_a_struct_is_refused() {
    let e = generate_from_proto_for_enum(&register_request_input()).err().unwrap();
    assert_eq!(e, err(ErrorKind::NotAnEnum, ErrorTarget::Input));
    assert_eq!(e.kind.message(), "macro is only compatible with enums");
}

#[test]
fn malformed_field_directive_is_refused() {
    let mut input = register_request_input();
    if let Data::Struct(fields) = &mut input.data {
        fields[2].attrs[1] = Attribute {
            first_segment: Some(s("from_proto_impl")),
            meta: Some(Meta::List { ident: s("from_proto_impl"), nested: vec![NestedMeta::Other] }),
        };
    }
    let e = generate_from_proto(&input).err().unwrap();
    assert_eq!(e, err(ErrorKind::MalformedMeta, ErrorTarget::FieldAttr { field: 2, attr: 1 }));
    assert_eq!(e.kind.message(), "Malformed Meta");
}

#[test]
fn unknown_field_directive_is_refused() {
    let mut input = register_request_input();
    if let Data::Struct(fields) = &mut input.data {
        fields[1].attrs[1] = directive("from_proto_impl", "into");
        fields[4].attrs.push(directive("from_proto_impl", "bogus"));
    }
    let e = generate_from_proto(&input).err().unwrap();
    assert_eq!(e, err(ErrorKind::UnknownDirective, ErrorTarget::FieldAttr { field: 1, attr: 1 }));
    assert_eq!(e.kind.message(), "Unknown from_impl directive");
}

#[test]
fn vec_directive_needs_a_generic_type() {
    let mut input = register_request_input();
    if let Data::Struct(fields) = &mut input.data {
        fields[3].attrs.push(directive("from_proto_impl", "Vec"));
    }
    let e = generate_from_proto(&input).err().unwrap();
    assert_eq!(e, err(ErrorKind::NoGeneric, ErrorTarget::FieldType { field: 3 }));
    assert_eq!(e.kind.message(), "Type does not have generic");
    assert!(extract_type_from_generic(&Type::Other, 7).is_err());
    assert!(is_string(&generic_type("std::string", "x")) == false);
    assert!(is_string(&Type::Path(vec![
        PathSegment { ident: s("std"), arguments: PathArguments::NoArguments },
        PathSegment { ident: s("String"), arguments: PathArguments::NoArguments },
    ])));
}

#[test]
fn variant_without_directive_is_refused() {
    let mut input = header_style_input();
    if let Data::Enum(variants) = &mut input.data {
        variants[1].attrs = vec![word_attr("doc")];
    }
    let e = generate_from_proto(&input).err().unwrap();
    assert_eq!(e, err(ErrorKind::NoProtoVariant, ErrorTarget::Variant { variant: 1 }));
    assert_eq!(e.kind.message(), "No protobuf vairant specified");
}

#[test]
fn malformed_variant_directive_is_refused() {
    let mut input = header_style_input();
    if let Data::Enum(variants) = &mut input.data {
        variants[2].attrs.insert(0, word_attr("from_proto_impl_enum"));
    }
    let e = generate_from_proto(&input).err().unwrap();
    assert_eq!(e, err(ErrorKind::MalformedMeta, ErrorTarget::VariantAttr { variant: 2, attr: 0 }));
}

#[test]
fn unnamed_fields_are_detected_where_their_name_is_read() {
    let mut input = register_request_input();
    if let Data::Struct(fields) = &mut input.data {
        fields[3].ident = None;
    }
    assert!(from_proto_reads_missing_name(&input));

    // a malformed directive before the unnamed field stops the generator first
    if let Data::Struct(fields) = &mut input.data {
        fields[0].attrs[1] = word_attr("from_proto_impl");
    }
    assert!(!from_proto_reads_missing_name(&input));
    let e = generate_from_proto(&input).err().unwrap();
    assert_eq!(e, err(ErrorKind::MalformedMeta, ErrorTarget::FieldAttr { field: 0, attr: 1 }));
}
