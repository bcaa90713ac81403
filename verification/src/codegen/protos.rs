use vstd::prelude::*;

use crate::codegen::input::{
    meta_name, string_is, Attribute, Data, DeriveInput, Field, GenericArgument, Lit, Meta,
    NestedMeta, PathArguments, Type, Variant,
};
use crate::codegen::path::{path_to_token_stream, split_path, tokens_of, PathToken};

verus! {

/// The argument of a `proto_type` attribute; it carries nothing yet.
pub struct ProtoType {}

/// Why the generator refused its input.
#[derive(PartialEq, Eq, Structural, Clone, Copy, Debug)]
pub enum ErrorKind {
    /// The derive was applied to a union.
    IncompatibleStructure,
    /// No `#[proto_type = "..."]` attribute names the protobuf message.
    MissingProtoType,
    /// Struct fields were asked of an item that is not a struct.
    NotAStruct,
    /// Enum variants were asked of an item that is not an enum.
    NotAnEnum,
    /// A `from_proto_impl(...)` or `from_proto_impl_enum(...)` attribute does not
    /// hold a single word first.
    MalformedMeta,
    /// The word in `from_proto_impl(...)` is none of the known directives.
    UnknownDirective,
    /// An enum variant has no `from_proto_impl_enum(...)` attribute.
    NoProtoVariant,
    /// A `Vec` directive was put on a field whose type has no generic type argument.
    NoGeneric,
}

/// The part of the input that an error points at.
#[derive(PartialEq, Eq, Structural, Clone, Copy, Debug)]
pub enum ErrorTarget {
    /// The whole item.
    Input,
    /// Attribute `attr` of field `field`.
    FieldAttr { field: usize, attr: usize },
    /// Attribute `attr` of variant `variant`.
    VariantAttr { variant: usize, attr: usize },
    /// Variant `variant`.
    Variant { variant: usize },
    /// The type of field `field`.
    FieldType { field: usize },
}

/// An error of the generator and the part of the input it points at.
#[derive(PartialEq, Eq, Structural, Clone, Copy, Debug)]
pub struct CodegenError {
    pub kind: ErrorKind,
    pub target: ErrorTarget,
}

/// The text that the generator reports for each kind of error.
pub open spec fn error_message(kind: ErrorKind) -> Seq<char> {
    match kind {
        ErrorKind::IncompatibleStructure => "Deriving from_proto is incompatible with this structure"@,
        ErrorKind::MissingProtoType => "A protobuf message type is required"@,
        ErrorKind::NotAStruct => "macro is only compatible with stucts"@,
        ErrorKind::NotAnEnum => "macro is only compatible with enums"@,
        ErrorKind::MalformedMeta => "Malformed Meta"@,
        ErrorKind::UnknownDirective => "Unknown from_impl directive"@,
        ErrorKind::NoProtoVariant => "No protobuf vairant specified"@,
        ErrorKind::NoGeneric => "Type does not have generic"@,
    }
}

impl ErrorKind {
    /// The message reported for this error.
    pub fn message(&self) -> (text: &'static str)
        ensures
            text@ == error_message(*self),
    {
        match self {
            ErrorKind::IncompatibleStructure => "Deriving from_proto is incompatible with this structure",
            ErrorKind::MissingProtoType => "A protobuf message type is required",
            ErrorKind::NotAStruct => "macro is only compatible with stucts",
            ErrorKind::NotAnEnum => "macro is only compatible with enums",
            ErrorKind::MalformedMeta => "Malformed Meta",
            ErrorKind::UnknownDirective => "Unknown from_impl directive",
            ErrorKind::NoProtoVariant => "No protobuf vairant specified",
            ErrorKind::NoGeneric => "Type does not have generic",
        }
    }
}

/// How one field of the native struct is filled from the protobuf message,
/// whose getter for the field is `get_<field>()`.
#[derive(PartialEq, Eq, Structural, Clone, Copy, Debug)]
pub enum FieldConversion {
    /// The getter's value as it is.
    Plain,
    /// `.to_string()` of the getter's value (directive `to_string`).
    ToOwnedString,
    /// `.clone()` of the getter's value (directive `clone`).
    Cloned,
    /// `<field type>::from_proto` of a clone of the getter's value (directive `from_proto`).
    FromProto,
    /// Each element turned into a `String` (directive `Vec`, element type `String`).
    StringVec,
    /// Each element converted by `<element type>::from_proto` (directive `Vec`, other element types).
    FromProtoVec,
}

/// The plan for one field: its name and how it is filled.
pub struct FieldPlan {
    pub name: String,
    pub conversion: FieldConversion,
}

/// One arm of the generated match: the protobuf variant and the native variant.
pub struct VariantArm {
    pub proto_variant: String,
    pub variant: String,
}

/// The body of the generated `from_proto`.
pub enum FromProtoBody {
    Struct(Vec<FieldPlan>),
    Enum(Vec<VariantArm>),
}

/// The plan of a generated `impl FromProto<proto_type> for name`.
pub struct FromProtoPlan {
    pub name: String,
    pub proto_type: Vec<PathToken>,
    pub body: FromProtoBody,
}

// ---------------------------------------------------------------------------
// The protobuf message type
// ---------------------------------------------------------------------------

/// The path that an attribute gives as the protobuf message type: the string of
/// a `#[proto_type = "..."]`.
pub open spec fn proto_type_of(a: Attribute) -> Option<Seq<char>> {
    match a.first_segment {
        Some(seg) => if seg@ == "proto_type"@ {
            match a.meta {
                Some(Meta::NameValue { lit: Lit::Str(s), .. }) => Some(s@),
                _ => None,
            }
        } else {
            None
        },
        None => None,
    }
}

/// Attribute `k` is the first that gives a protobuf message type.
pub open spec fn is_first_proto_type(attrs: Seq<Attribute>, k: int) -> bool {
    &&& 0 <= k < attrs.len()
    &&& proto_type_of(attrs[k]) is Some
    &&& forall|j: int| 0 <= j < k ==> proto_type_of(#[trigger] attrs[j]) is None
}

/// The protobuf message type that the first `proto_type` attribute gives.
pub open spec fn find_proto_type(attrs: Seq<Attribute>) -> Option<Seq<char>> {
    if exists|k: int| is_first_proto_type(attrs, k) {
        proto_type_of(attrs[choose|k: int| is_first_proto_type(attrs, k)])
    } else {
        None
    }
}

proof fn lemma_first_proto_type_unique(attrs: Seq<Attribute>, k1: int, k2: int)
    requires
        is_first_proto_type(attrs, k1),
        is_first_proto_type(attrs, k2),
    ensures
        k1 == k2,
{
    if k1 < k2 {
        assert(proto_type_of(attrs[k1]) is None);
    } else if k2 < k1 {
        assert(proto_type_of(attrs[k2]) is None);
    }
}

/// The protobuf message type of the item, as a token stream of its path.
pub fn extract_proto_type(input: &DeriveInput) -> (res: Result<Vec<PathToken>, CodegenError>)
    ensures
        find_proto_type(input.attrs@) matches Some(p) ==> (res matches Ok(tokens) && tokens_of(
            tokens@,
            split_path(p),
        )),
        find_proto_type(input.attrs@) is None ==> (res matches Err(e) && e == (CodegenError {
            kind: ErrorKind::MissingProtoType,
            target: ErrorTarget::Input,
        })),
{
    let attrs = &input.attrs;
    assert(attrs@ == input.attrs@);
    let n = attrs.len();
    let mut i: usize = 0;
    while i < n
        invariant
            attrs@ == input.attrs@,
            n == attrs@.len(),
            i <= n,
            forall|j: int| 0 <= j < i ==> proto_type_of(#[trigger] attrs@[j]) is None,
        decreases n - i,
    {
        let attr = &attrs[i];
        if let Some(seg) = &attr.first_segment {
            if string_is(seg, "proto_type") {
                if let Some(Meta::NameValue { lit: Lit::Str(s), .. }) = &attr.meta {
                    proof {
                        assert(proto_type_of(attrs@[i as int]) == Some(s@));
                        assert(is_first_proto_type(attrs@, i as int));
                        lemma_first_proto_type_unique(
                            attrs@,
                            i as int,
                            choose|k: int| is_first_proto_type(attrs@, k),
                        );
                    }
                    let text: &str = s.as_str();
                    let tokens = path_to_token_stream(text);
                    assert(find_proto_type(attrs@) == Some(s@));
                    return Ok(tokens);
                }
            }
        }
        i = i + 1;
    }
    proof {
        if exists|k: int| is_first_proto_type(attrs@, k) {
            let k = choose|k: int| is_first_proto_type(attrs@, k);
            assert(proto_type_of(attrs@[k]) is None);
        }
    }
    Err(CodegenError { kind: ErrorKind::MissingProtoType, target: ErrorTarget::Input })
}

// ---------------------------------------------------------------------------
// Directives on fields and variants
// ---------------------------------------------------------------------------

/// The contents of attribute `a` parse and are named `name`.
pub open spec fn is_named(a: Attribute, name: Seq<char>) -> bool {
    a.meta matches Some(m) && meta_name(m) == name
}

/// Attribute `k` is the first whose contents are named `name`.
pub open spec fn is_first_named(attrs: Seq<Attribute>, name: Seq<char>, k: int) -> bool {
    &&& 0 <= k < attrs.len()
    &&& is_named(attrs[k], name)
    &&& forall|j: int| 0 <= j < k ==> !is_named(#[trigger] attrs[j], name)
}

/// The position of the first attribute whose contents are named `name`.
pub open spec fn first_named(attrs: Seq<Attribute>, name: Seq<char>) -> Option<int> {
    if exists|k: int| is_first_named(attrs, name, k) {
        Some(choose|k: int| is_first_named(attrs, name, k))
    } else {
        None
    }
}

proof fn lemma_first_named_unique(attrs: Seq<Attribute>, name: Seq<char>, k1: int, k2: int)
    requires
        is_first_named(attrs, name, k1),
        is_first_named(attrs, name, k2),
    ensures
        k1 == k2,
{
    if k1 < k2 {
        assert(!is_named(attrs[k1], name));
    } else if k2 < k1 {
        assert(!is_named(attrs[k2], name));
    }
}

/// Finds the first attribute whose contents are named `name`.
fn find_named(attrs: &Vec<Attribute>, name: &str) -> (found: Option<usize>)
    ensures
        found matches Some(k) ==> first_named(attrs@, name@) == Some(k as int),
        found is None ==> first_named(attrs@, name@) is None,
{
    let n = attrs.len();
    let mut i: usize = 0;
    while i < n
        invariant
            n == attrs@.len(),
            i <= n,
            forall|j: int| 0 <= j < i ==> !is_named(#[trigger] attrs@[j], name@),
        decreases n - i,
    {
        if let Some(meta) = &attrs[i].meta {
            if string_is(meta.name(), name) {
                proof {
                    assert(is_first_named(attrs@, name@, i as int));
                    lemma_first_named_unique(
                        attrs@,
                        name@,
                        i as int,
                        choose|k: int| is_first_named(attrs@, name@, k),
                    );
                }
                return Some(i);
            }
        }
        i = i + 1;
    }
    proof {
        if exists|k: int| is_first_named(attrs@, name@, k) {
            let k = choose|k: int| is_first_named(attrs@, name@, k);
            assert(!is_named(attrs@[k], name@));
        }
    }
    None
}

/// The word that a directive holds: the first element of its list, where
/// that element is a bare word.
pub open spec fn directive_word(m: Meta) -> Option<Seq<char>> {
    match m {
        Meta::List { nested, .. } => if nested@.len() > 0 {
            match nested@[0] {
                NestedMeta::Word(w) => Some(w@),
                NestedMeta::Other => None,
            }
        } else {
            None
        },
        _ => None,
    }
}

/// Reads the word of a directive.
fn directive_word_of(m: &Meta) -> (word: Option<&String>)
    ensures
        word matches Some(w) ==> directive_word(*m) == Some(w@),
        word is None ==> directive_word(*m) is None,
{
    match m {
        Meta::List { nested, .. } => {
            if nested.len() > 0 {
                match &nested[0] {
                    NestedMeta::Word(w) => Some(w),
                    NestedMeta::Other => None,
                }
            } else {
                None
            }
        },
        _ => None,
    }
}

// ---------------------------------------------------------------------------
// Types of fields
// ---------------------------------------------------------------------------

/// A segment of the path type `ty` is named `name`.
pub open spec fn type_has_segment(ty: Type, name: Seq<char>) -> bool {
    match ty {
        Type::Path(segs) => exists|i: int| 0 <= i < segs@.len() && (#[trigger] segs@[i]).ident@ == name,
        Type::Other => false,
    }
}

/// The first generic type argument of the first segment of the path type `ty`,
/// such as `String` in `Vec<String>`.
pub open spec fn first_generic_type(ty: Type) -> Option<Type> {
    match ty {
        Type::Path(segs) => if segs@.len() > 0 {
            match segs@[0].arguments {
                PathArguments::AngleBracketed(args) => if args@.len() > 0 {
                    match args@[0] {
                        GenericArgument::Type(t) => Some(t),
                        GenericArgument::Other => None,
                    }
                } else {
                    None
                },
                _ => None,
            }
        } else {
            None
        },
        Type::Other => None,
    }
}

/// Whether one segment of the path type `ty` is named `ident`.
pub fn is_type(ident: &str, ty: &Type) -> (found: bool)
    ensures
        found == type_has_segment(*ty, ident@),
{
    match ty {
        Type::Path(segs) => {
            let n = segs.len();
            let mut i: usize = 0;
            while i < n
                invariant
                    *ty == Type::Path(*segs),
                    n == segs@.len(),
                    i <= n,
                    forall|j: int| 0 <= j < i ==> (#[trigger] segs@[j]).ident@ != ident@,
                decreases n - i,
            {
                if string_is(&segs[i].ident, ident) {
                    assert(segs@[i as int].ident@ == ident@);
                    return true;
                }
                i = i + 1;
            }
            false
        },
        Type::Other => false,
    }
}

/// Whether the type `ty` names `String`.
pub fn is_string(ty: &Type) -> (found: bool)
    ensures
        found == type_has_segment(*ty, "String"@),
{
    is_type("String", ty)
}

/// The first generic type argument of the type of field `field`.
pub fn extract_type_from_generic(ty: &Type, field: usize) -> (res: Result<&Type, CodegenError>)
    ensures
        first_generic_type(*ty) matches Some(t) ==> (res matches Ok(arg) && *arg == t),
        first_generic_type(*ty) is None ==> (res matches Err(e) && e == (CodegenError {
            kind: ErrorKind::NoGeneric,
            target: ErrorTarget::FieldType { field },
        })),
{
    let no_generic = CodegenError { kind: ErrorKind::NoGeneric, target: ErrorTarget::FieldType { field } };
    let segs = match ty {
        Type::Path(segs) => segs,
        Type::Other => { return Err(no_generic); },
    };
    if segs.len() == 0 {
        return Err(no_generic);
    }
    let args = match &segs[0].arguments {
        PathArguments::AngleBracketed(args) => args,
        _ => { return Err(no_generic); },
    };
    if args.len() == 0 {
        return Err(no_generic);
    }
    match &args[0] {
        GenericArgument::Type(t) => Ok(t),
        GenericArgument::Other => Err(no_generic),
    }
}

// ---------------------------------------------------------------------------
// Fields
// ---------------------------------------------------------------------------

/// The conversion that the directive word `w` asks for on a field of type `ty`.
pub open spec fn word_conversion(w: Seq<char>, ty: Type) -> Result<FieldConversion, ErrorKind> {
    if w == "to_string"@ {
        Ok(FieldConversion::ToOwnedString)
    } else if w == "clone"@ {
        Ok(FieldConversion::Cloned)
    } else if w == "from_proto"@ {
        Ok(FieldConversion::FromProto)
    } else if w == "Vec"@ {
        match first_generic_type(ty) {
            Some(t) => if type_has_segment(t, "String"@) {
                Ok(FieldConversion::StringVec)
            } else {
                Ok(FieldConversion::FromProtoVec)
            },
            None => Err(ErrorKind::NoGeneric),
        }
    } else {
        Err(ErrorKind::UnknownDirective)
    }
}

/// The outcome of the directive `m` (attribute `attr`) on field `field` of type `ty`.
pub open spec fn directive_conversion(m: Meta, ty: Type, field: usize, attr: usize) -> Result<
    FieldConversion,
    CodegenError,
> {
    match directive_word(m) {
        None => Err(
            CodegenError {
                kind: ErrorKind::MalformedMeta,
                target: ErrorTarget::FieldAttr { field, attr },
            },
        ),
        Some(w) => match word_conversion(w, ty) {
            Ok(c) => Ok(c),
            Err(kind) => Err(
                CodegenError {
                    kind,
                    target: if kind == ErrorKind::NoGeneric {
                        ErrorTarget::FieldType { field }
                    } else {
                        ErrorTarget::FieldAttr { field, attr }
                    },
                },
            ),
        },
    }
}

/// How field `f` (at position `field`) is filled: by its first `from_proto_impl`
/// directive, or by the getter's value where it has none.
pub open spec fn field_conversion(f: Field, field: usize) -> Result<FieldConversion, CodegenError> {
    match first_named(f.attrs@, "from_proto_impl"@) {
        Some(k) => directive_conversion(f.attrs@[k].meta->0, f.ty, field, k as usize),
        None => Ok(FieldConversion::Plain),
    }
}

/// The generator reads the name of field `f`: it has no directive, or its
/// directive holds a word.
pub open spec fn field_needs_name(f: Field) -> bool {
    match first_named(f.attrs@, "from_proto_impl"@) {
        Some(k) => directive_word(f.attrs@[k].meta->0) is Some,
        None => true,
    }
}

/// Turns the directive `meta` (attribute `attr` of field `index`) into the plan of the field.
pub fn parse_proto_meta(field: &Field, index: usize, attr: usize, meta: &Meta) -> (res: Result<
    FieldPlan,
    CodegenError,
>)
    requires
        directive_word(*meta) is Some ==> field.ident is Some,
    ensures
        directive_conversion(*meta, field.ty, index, attr) matches Ok(c) ==> (res matches Ok(p)
            && p.name@ == field.ident->0@ && p.conversion == c),
        directive_conversion(*meta, field.ty, index, attr) matches Err(e) ==> (res matches Err(e2)
            && e2 == e),
{
    let word = match directive_word_of(meta) {
        Some(w) => w,
        None => {
            return Err(
                CodegenError {
                    kind: ErrorKind::MalformedMeta,
                    target: ErrorTarget::FieldAttr { field: index, attr },
                },
            );
        },
    };
    let name = field.ident.as_ref().unwrap().clone();
    let conversion = if string_is(word, "to_string") {
        FieldConversion::ToOwnedString
    } else if string_is(word, "clone") {
        FieldConversion::Cloned
    } else if string_is(word, "from_proto") {
        FieldConversion::FromProto
    } else if string_is(word, "Vec") {
        let ty = extract_type_from_generic(&field.ty, index)?;
        if is_string(ty) {
            FieldConversion::StringVec
        } else {
            FieldConversion::FromProtoVec
        }
    } else {
        return Err(
            CodegenError {
                kind: ErrorKind::UnknownDirective,
                target: ErrorTarget::FieldAttr { field: index, attr },
            },
        );
    };
    Ok(FieldPlan { name, conversion })
}

/// The plan of field `field` at position `index`.
pub fn make_proto_field_token_stream(field: &Field, index: usize) -> (res: Result<
    FieldPlan,
    CodegenError,
>)
    requires
        field_needs_name(*field) ==> field.ident is Some,
    ensures
        field_conversion(*field, index) matches Ok(c) ==> (res matches Ok(p) && p.name@
            == field.ident->0@ && p.conversion == c),
        field_conversion(*field, index) matches Err(e) ==> (res matches Err(e2) && e2 == e),
{
    match find_named(&field.attrs, "from_proto_impl") {
        Some(k) => {
            let meta = field.attrs[k].meta.as_ref().unwrap();
            parse_proto_meta(field, index, k, meta)
        },
        None => {
            let name = field.ident.as_ref().unwrap().clone();
            Ok(FieldPlan { name, conversion: FieldConversion::Plain })
        },
    }
}

/// Every field before position `i` converts without error.
pub open spec fn fields_ok_before(fields: Seq<Field>, i: int) -> bool {
    forall|j: int| 0 <= j < i ==> field_conversion(#[trigger] fields[j], j as usize) is Ok
}

/// Field `i` is the first whose conversion fails.
pub open spec fn is_field_error_at(fields: Seq<Field>, i: int) -> bool {
    &&& 0 <= i < fields.len()
    &&& fields_ok_before(fields, i)
    &&& field_conversion(fields[i], i as usize) is Err
}

/// The error of the first field whose conversion fails, if one does.
pub open spec fn fields_error(fields: Seq<Field>) -> Option<CodegenError> {
    if exists|i: int| is_field_error_at(fields, i) {
        let i = choose|i: int| is_field_error_at(fields, i);
        Some(field_conversion(fields[i], i as usize)->Err_0)
    } else {
        None
    }
}

/// Every field whose name the generator reads before it meets an error has one.
pub open spec fn struct_fields_named(fields: Seq<Field>) -> bool {
    forall|i: int|
        0 <= i < fields.len() && fields_ok_before(fields, i) && field_needs_name(#[trigger] fields[i])
            ==> fields[i].ident is Some
}

/// `plans` holds, in order, the name and the conversion of each field.
pub open spec fn plans_match_fields(plans: Seq<FieldPlan>, fields: Seq<Field>) -> bool {
    &&& plans.len() == fields.len()
    &&& forall|i: int|
        0 <= i < plans.len() ==> (#[trigger] plans[i]).name@ == fields[i].ident->0@
            && field_conversion(fields[i], i as usize) == Ok::<FieldConversion, CodegenError>(
            plans[i].conversion,
        )
}

proof fn lemma_field_error_unique(fields: Seq<Field>, i1: int, i2: int)
    requires
        is_field_error_at(fields, i1),
        is_field_error_at(fields, i2),
    ensures
        i1 == i2,
{
    if i1 < i2 {
        assert(field_conversion(fields[i1], i1 as usize) is Ok);
    } else if i2 < i1 {
        assert(field_conversion(fields[i2], i2 as usize) is Ok);
    }
}

/// The fields of a struct.
pub fn get_struct_fields(input: &DeriveInput) -> (res: Result<&Vec<Field>, CodegenError>)
    ensures
        input.data matches Data::Struct(fields) ==> (res matches Ok(f) && *f == fields),
        !(input.data is Struct) ==> (res matches Err(e) && e == (CodegenError {
            kind: ErrorKind::NotAStruct,
            target: ErrorTarget::Input,
        })),
{
    match &input.data {
        Data::Struct(fields) => Ok(fields),
        _ => Err(CodegenError { kind: ErrorKind::NotAStruct, target: ErrorTarget::Input }),
    }
}

/// The variants of an enum.
pub fn get_enum_variants(input: &DeriveInput) -> (res: Result<&Vec<Variant>, CodegenError>)
    ensures
        input.data matches Data::Enum(variants) ==> (res matches Ok(v) && *v == variants),
        !(input.data is Enum) ==> (res matches Err(e) && e == (CodegenError {
            kind: ErrorKind::NotAnEnum,
            target: ErrorTarget::Input,
        })),
{
    match &input.data {
        Data::Enum(variants) => Ok(variants),
        _ => Err(CodegenError { kind: ErrorKind::NotAnEnum, target: ErrorTarget::Input }),
    }
}

/// The plans of all fields of a struct, in order; the error of the first field
/// that fails.
pub fn extract_proto_fields(input: &DeriveInput) -> (res: Result<Vec<FieldPlan>, CodegenError>)
    requires
        input.data matches Data::Struct(fields) ==> struct_fields_named(fields@),
    ensures
        !(input.data is Struct) ==> (res matches Err(e) && e == (CodegenError {
            kind: ErrorKind::NotAStruct,
            target: ErrorTarget::Input,
        })),
        input.data matches Data::Struct(fields) ==> (match fields_error(fields@) {
            Some(e) => res matches Err(e2) && e2 == e,
            None => res matches Ok(plans) && plans_match_fields(plans@, fields@),
        }),
{
    let fields = get_struct_fields(input)?;
    let n = fields.len();
    let mut plans: Vec<FieldPlan> = Vec::new();
    let mut i: usize = 0;
    while i < n
        invariant
            input.data == Data::Struct(*fields),
            struct_fields_named(fields@),
            n == fields@.len(),
            i <= n,
            fields_ok_before(fields@, i as int),
            plans@.len() == i,
            forall|j: int|
                0 <= j < i ==> (#[trigger] plans@[j]).name@ == fields@[j].ident->0@
                    && field_conversion(fields@[j], j as usize) == Ok::<FieldConversion, CodegenError>(
                    plans@[j].conversion,
                ),
        decreases n - i,
    {
        assert(field_needs_name(fields@[i as int]) ==> fields@[i as int].ident is Some);
        match make_proto_field_token_stream(&fields[i], i) {
            Ok(plan) => {
                plans.push(plan);
            },
            Err(e) => {
                proof {
                    assert(is_field_error_at(fields@, i as int));
                    lemma_field_error_unique(
                        fields@,
                        i as int,
                        choose|k: int| is_field_error_at(fields@, k),
                    );
                }
                return Err(e);
            },
        }
        i = i + 1;
    }
    proof {
        if exists|k: int| is_field_error_at(fields@, k) {
            let k = choose|k: int| is_field_error_at(fields@, k);
            assert(field_conversion(fields@[k], k as usize) is Ok);
        }
    }
    Ok(plans)
}

// ---------------------------------------------------------------------------
// Variants
// ---------------------------------------------------------------------------

/// The protobuf variant that variant `v` (at position `index`) names in its
/// first `from_proto_impl_enum(...)` attribute.
pub open spec fn variant_proto_ident(v: Variant, index: usize) -> Result<Seq<char>, CodegenError> {
    match first_named(v.attrs@, "from_proto_impl_enum"@) {
        Some(k) => match directive_word(v.attrs@[k].meta->0) {
            Some(w) => Ok(w),
            None => Err(
                CodegenError {
                    kind: ErrorKind::MalformedMeta,
                    target: ErrorTarget::VariantAttr { variant: index, attr: k as usize },
                },
            ),
        },
        None => Err(
            CodegenError {
                kind: ErrorKind::NoProtoVariant,
                target: ErrorTarget::Variant { variant: index },
            },
        ),
    }
}

/// Every variant before position `i` names its protobuf variant.
pub open spec fn variants_ok_before(variants: Seq<Variant>, i: int) -> bool {
    forall|j: int| 0 <= j < i ==> variant_proto_ident(#[trigger] variants[j], j as usize) is Ok
}

/// Variant `i` is the first that fails to name its protobuf variant.
pub open spec fn is_variant_error_at(variants: Seq<Variant>, i: int) -> bool {
    &&& 0 <= i < variants.len()
    &&& variants_ok_before(variants, i)
    &&& variant_proto_ident(variants[i], i as usize) is Err
}

/// The error of the first variant that fails, if one does.
pub open spec fn variants_error(variants: Seq<Variant>) -> Option<CodegenError> {
    if exists|i: int| is_variant_error_at(variants, i) {
        let i = choose|i: int| is_variant_error_at(variants, i);
        Some(variant_proto_ident(variants[i], i as usize)->Err_0)
    } else {
        None
    }
}

proof fn lemma_variant_error_unique(variants: Seq<Variant>, i1: int, i2: int)
    requires
        is_variant_error_at(variants, i1),
        is_variant_error_at(variants, i2),
    ensures
        i1 == i2,
{
    if i1 < i2 {
        assert(variant_proto_ident(variants[i1], i1 as usize) is Ok);
    } else if i2 < i1 {
        assert(variant_proto_ident(variants[i2], i2 as usize) is Ok);
    }
}

/// The protobuf variant that variant `variant` (at position `index`) maps from.
pub fn make_proto_enum_variant(variant: &Variant, index: usize) -> (res: Result<String, CodegenError>)
    ensures
        variant_proto_ident(*variant, index) matches Ok(w) ==> (res matches Ok(p) && p@ == w),
        variant_proto_ident(*variant, index) matches Err(e) ==> (res matches Err(e2) && e2 == e),
{
    match find_named(&variant.attrs, "from_proto_impl_enum") {
        Some(k) => {
            let meta = variant.attrs[k].meta.as_ref().unwrap();
            match directive_word_of(meta) {
                Some(w) => Ok(w.clone()),
                None => Err(
                    CodegenError {
                        kind: ErrorKind::MalformedMeta,
                        target: ErrorTarget::VariantAttr { variant: index, attr: k },
                    },
                ),
            }
        },
        None => Err(
            CodegenError {
                kind: ErrorKind::NoProtoVariant,
                target: ErrorTarget::Variant { variant: index },
            },
        ),
    }
}

/// `proto` holds, in order, the protobuf variant of each variant.
pub open spec fn proto_variants_match(proto: Seq<String>, variants: Seq<Variant>) -> bool {
    &&& proto.len() == variants.len()
    &&& forall|i: int|
        0 <= i < proto.len() ==> variant_proto_ident(variants[i], i as usize) == Ok::<
            Seq<char>,
            CodegenError,
        >((#[trigger] proto[i])@)
}

/// The protobuf variants of all variants of an enum, in order; the error of the
/// first variant that fails.
pub fn extract_proto_enum_variants(input: &DeriveInput) -> (res: Result<Vec<String>, CodegenError>)
    ensures
        !(input.data is Enum) ==> (res matches Err(e) && e == (CodegenError {
            kind: ErrorKind::NotAnEnum,
            target: ErrorTarget::Input,
        })),
        input.data matches Data::Enum(variants) ==> (match variants_error(variants@) {
            Some(e) => res matches Err(e2) && e2 == e,
            None => res matches Ok(proto) && proto_variants_match(proto@, variants@),
        }),
{
    let variants = get_enum_variants(input)?;
    let n = variants.len();
    let mut proto: Vec<String> = Vec::new();
    let mut i: usize = 0;
    while i < n
        invariant
            input.data == Data::Enum(*variants),
            n == variants@.len(),
            i <= n,
            variants_ok_before(variants@, i as int),
            proto@.len() == i,
            forall|j: int|
                0 <= j < i ==> variant_proto_ident(variants@[j], j as usize) == Ok::<
                    Seq<char>,
                    CodegenError,
                >((#[trigger] proto@[j])@),
        decreases n - i,
    {
        match make_proto_enum_variant(&variants[i], i) {
            Ok(p) => {
                proto.push(p);
            },
            Err(e) => {
                proof {
                    assert(is_variant_error_at(variants@, i as int));
                    lemma_variant_error_unique(
                        variants@,
                        i as int,
                        choose|k: int| is_variant_error_at(variants@, k),
                    );
                }
                return Err(e);
            },
        }
        i = i + 1;
    }
    proof {
        if exists|k: int| is_variant_error_at(variants@, k) {
            let k = choose|k: int| is_variant_error_at(variants@, k);
            assert(variant_proto_ident(variants@[k], k as usize) is Ok);
        }
    }
    Ok(proto)
}

// ---------------------------------------------------------------------------
// The whole impl
// ---------------------------------------------------------------------------

/// `arms` pairs, in order, each variant with the protobuf variant it names.
pub open spec fn arms_match_variants(arms: Seq<VariantArm>, variants: Seq<Variant>) -> bool {
    &&& arms.len() == variants.len()
    &&& forall|i: int|
        0 <= i < arms.len() ==> (#[trigger] arms[i]).variant@ == variants[i].ident@
            && variant_proto_ident(variants[i], i as usize) == Ok::<Seq<char>, CodegenError>(
            arms[i].proto_variant@,
        )
}

/// `res` is the error `expected`.
pub open spec fn is_error(res: Result<FromProtoPlan, CodegenError>, expected: CodegenError) -> bool {
    res matches Err(e) && e == expected
}

/// An error that points at the whole item.
pub open spec fn input_error(kind: ErrorKind) -> CodegenError {
    CodegenError { kind, target: ErrorTarget::Input }
}

/// `res` is a plan for the item named `name` whose protobuf message type has
/// the path `path`, with the body `body`.
pub open spec fn is_plan_for(
    res: Result<FromProtoPlan, CodegenError>,
    name: Seq<char>,
    path: Seq<char>,
) -> bool {
    res matches Ok(plan) && plan.name@ == name && tokens_of(plan.proto_type@, split_path(path))
}

/// What the generator gives for a struct: the protobuf type first, then the
/// fields in order.
pub open spec fn struct_outcome(input: DeriveInput, res: Result<FromProtoPlan, CodegenError>) -> bool {
    match find_proto_type(input.attrs@) {
        None => is_error(res, input_error(ErrorKind::MissingProtoType)),
        Some(p) => match input.data {
            Data::Struct(fields) => match fields_error(fields@) {
                Some(e) => is_error(res, e),
                None => is_plan_for(res, input.ident@, p) && match res->Ok_0.body {
                    FromProtoBody::Struct(plans) => plans_match_fields(plans@, fields@),
                    FromProtoBody::Enum(_) => false,
                },
            },
            _ => is_error(res, input_error(ErrorKind::NotAStruct)),
        },
    }
}

/// What the generator gives for an enum: the protobuf type first, then the
/// variants in order.
pub open spec fn enum_outcome(input: DeriveInput, res: Result<FromProtoPlan, CodegenError>) -> bool {
    match find_proto_type(input.attrs@) {
        None => is_error(res, input_error(ErrorKind::MissingProtoType)),
        Some(p) => match input.data {
            Data::Enum(variants) => match variants_error(variants@) {
                Some(e) => is_error(res, e),
                None => is_plan_for(res, input.ident@, p) && match res->Ok_0.body {
                    FromProtoBody::Enum(arms) => arms_match_variants(arms@, variants@),
                    FromProtoBody::Struct(_) => false,
                },
            },
            _ => is_error(res, input_error(ErrorKind::NotAnEnum)),
        },
    }
}

/// What the generator gives for any item.
pub open spec fn from_proto_outcome(input: DeriveInput, res: Result<FromProtoPlan, CodegenError>) -> bool {
    match input.data {
        Data::Struct(_) => struct_outcome(input, res),
        Data::Enum(_) => enum_outcome(input, res),
        Data::Union => is_error(res, input_error(ErrorKind::IncompatibleStructure)),
    }
}

/// The generator never reads the name of an unnamed field of the item.
pub open spec fn from_proto_defined(input: DeriveInput) -> bool {
    match input.data {
        Data::Struct(fields) => find_proto_type(input.attrs@) is Some ==> struct_fields_named(fields@),
        _ => true,
    }
}

/// The plan of `impl FromProto` for a struct.
pub fn generate_from_proto_for_struct(input: &DeriveInput) -> (res: Result<FromProtoPlan, CodegenError>)
    requires
        from_proto_defined(*input),
    ensures
        struct_outcome(*input, res),
{
    let name = input.ident.clone();
    let proto_type = extract_proto_type(input)?;
    let fields = extract_proto_fields(input)?;
    Ok(FromProtoPlan { name, proto_type, body: FromProtoBody::Struct(fields) })
}

/// The plan of `impl FromProto` for an enum.
pub fn generate_from_proto_for_enum(input: &DeriveInput) -> (res: Result<FromProtoPlan, CodegenError>)
    ensures
        enum_outcome(*input, res),
{
    let name = input.ident.clone();
    let proto_type = extract_proto_type(input)?;
    let variants = get_enum_variants(input)?;
    let proto = extract_proto_enum_variants(input)?;
    let n = variants.len();
    let mut arms: Vec<VariantArm> = Vec::new();
    let mut i: usize = 0;
    while i < n
        invariant
            n == variants@.len(),
            proto_variants_match(proto@, variants@),
            i <= n,
            arms@.len() == i,
            forall|j: int|
                0 <= j < i ==> (#[trigger] arms@[j]).variant@ == variants@[j].ident@
                    && variant_proto_ident(variants@[j], j as usize) == Ok::<Seq<char>, CodegenError>(
                    arms@[j].proto_variant@,
                ),
        decreases n - i,
    {
        assert(variant_proto_ident(variants@[i as int], i as usize) == Ok::<Seq<char>, CodegenError>(proto@[i as int]@));
        arms.push(VariantArm { proto_variant: proto[i].clone(), variant: variants[i].ident.clone() });
        i = i + 1;
    }
    Ok(FromProtoPlan { name, proto_type, body: FromProtoBody::Enum(arms) })
}

/// The plan of `impl FromProto` for a struct or an enum; a union is refused.
pub fn generate_from_proto(input: &DeriveInput) -> (res: Result<FromProtoPlan, CodegenError>)
    requires
        from_proto_defined(*input),
    ensures
        from_proto_outcome(*input, res),
{
    match &input.data {
        Data::Struct(_) => generate_from_proto_for_struct(input),
        Data::Enum(_) => generate_from_proto_for_enum(input),
        Data::Union => Err(
            CodegenError { kind: ErrorKind::IncompatibleStructure, target: ErrorTarget::Input },
        ),
    }
}

/// Whether the generator reads the name of field `field`.
fn field_needs_name_exec(field: &Field) -> (needs: bool)
    ensures
        needs == field_needs_name(*field),
{
    match find_named(&field.attrs, "from_proto_impl") {
        Some(k) => {
            let meta = field.attrs[k].meta.as_ref().unwrap();
            directive_word_of(meta).is_some()
        },
        None => true,
    }
}

/// Whether generating `impl FromProto` for `input` would read the name of a
/// field that has none (a field of a tuple struct), where it cannot go on.
pub fn from_proto_reads_missing_name(input: &DeriveInput) -> (missing: bool)
    ensures
        missing == !from_proto_defined(*input),
{
    let fields = match &input.data {
        Data::Struct(fields) => fields,
        _ => { return false; },
    };
    if extract_proto_type(input).is_err() {
        return false;
    }
    let n = fields.len();
    let mut i: usize = 0;
    while i < n
        invariant
            input.data == Data::Struct(*fields),
            find_proto_type(input.attrs@) is Some,
            n == fields@.len(),
            i <= n,
            fields_ok_before(fields@, i as int),
            forall|j: int|
                0 <= j < i && field_needs_name(#[trigger] fields@[j]) ==> fields@[j].ident is Some,
        decreases n - i,
    {
        let field = &fields[i];
        let needs = field_needs_name_exec(field);
        if needs && field.ident.is_none() {
            assert(!struct_fields_named(fields@));
            return true;
        }
        if make_proto_field_token_stream(field, i).is_err() {
            assert forall|k: int|
                0 <= k < fields@.len() && fields_ok_before(fields@, k) && field_needs_name(
                    #[trigger] fields@[k],
                ) implies fields@[k].ident is Some by {
                if k > i {
                    assert(field_conversion(fields@[i as int], i as usize) is Ok);
                }
            }
            return false;
        }
        i = i + 1;
    }
    false
}

// ---------------------------------------------------------------------------
// Laws
// ---------------------------------------------------------------------------

/// The part of `input` that `target` points at exists.
pub open spec fn target_exists(input: DeriveInput, target: ErrorTarget) -> bool {
    match target {
        ErrorTarget::Input => true,
        ErrorTarget::FieldAttr { field, attr } => match input.data {
            Data::Struct(fields) => field < fields@.len() && attr < fields@[field as int].attrs@.len()
                && fields@[field as int].attrs@[attr as int].meta is Some,
            _ => false,
        },
        ErrorTarget::FieldType { field } => match input.data {
            Data::Struct(fields) => field < fields@.len(),
            _ => false,
        },
        ErrorTarget::VariantAttr { variant, attr } => match input.data {
            Data::Enum(variants) => variant < variants@.len() && attr
                < variants@[variant as int].attrs@.len()
                && variants@[variant as int].attrs@[attr as int].meta is Some,
            _ => false,
        },
        ErrorTarget::Variant { variant } => match input.data {
            Data::Enum(variants) => variant < variants@.len(),
            _ => false,
        },
    }
}

/// Law: every error of the generator points at a part of the item that exists:
/// an attribute that parsed, the type of a field, or a variant.
pub proof fn law_error_targets_exist(input: DeriveInput, res: Result<FromProtoPlan, CodegenError>)
    requires
        from_proto_outcome(input, res),
        res is Err,
    ensures
        target_exists(input, res->Err_0.target),
{
    match input.data {
        Data::Struct(fields) => {
            if find_proto_type(input.attrs@) is Some {
                if let Some(e) = fields_error(fields@) {
                    let i = choose|i: int| is_field_error_at(fields@, i);
                    let f = fields@[i];
                    assert(fields.len() as int == fields@.len());
                    assert(f.attrs.len() as int == f.attrs@.len());
                    if let Some(k) = first_named(f.attrs@, "from_proto_impl"@) {
                        assert(is_first_named(f.attrs@, "from_proto_impl"@, k));
                    }
                }
            }
        },
        Data::Enum(variants) => {
            if find_proto_type(input.attrs@) is Some {
                if let Some(e) = variants_error(variants@) {
                    let i = choose|i: int| is_variant_error_at(variants@, i);
                    let v = variants@[i];
                    assert(variants.len() as int == variants@.len());
                    assert(v.attrs.len() as int == v.attrs@.len());
                    if let Some(k) = first_named(v.attrs@, "from_proto_impl_enum"@) {
                        assert(is_first_named(v.attrs@, "from_proto_impl_enum"@, k));
                    }
                }
            }
        },
        Data::Union => {},
    }
}

/// Law: a struct that names its protobuf message type and whose fields carry
/// no `from_proto_impl` directive is planned, each field from its getter.
pub proof fn law_struct_without_directives_is_planned(input: DeriveInput, res: Result<FromProtoPlan, CodegenError>)
    requires
        from_proto_outcome(input, res),
        input.data is Struct,
        find_proto_type(input.attrs@) is Some,
        forall|i: int, k: int|
            0 <= i < input.data->Struct_0@.len() && 0 <= k < input.data->Struct_0@[i].attrs@.len()
                ==> !is_named(#[trigger] input.data->Struct_0@[i].attrs@[k], "from_proto_impl"@),
    ensures
        res matches Ok(plan) && plan.body matches FromProtoBody::Struct(plans) && plans.len()
            == input.data->Struct_0@.len() && forall|i: int|
            0 <= i < plans.len() ==> (#[trigger] plans@[i]).conversion == FieldConversion::Plain,
{
    let fields = input.data->Struct_0@;
    assert forall|i: int| 0 <= i < fields.len() implies field_conversion(
        #[trigger] fields[i],
        i as usize,
    ) == Ok::<FieldConversion, CodegenError>(FieldConversion::Plain) by {
        if exists|k: int| is_first_named(fields[i].attrs@, "from_proto_impl"@, k) {
            let k = choose|k: int| is_first_named(fields[i].attrs@, "from_proto_impl"@, k);
            assert(!is_named(fields[i].attrs@[k], "from_proto_impl"@));
        }
    }
    if exists|i: int| is_field_error_at(fields, i) {
        let i = choose|i: int| is_field_error_at(fields, i);
        assert(field_conversion(fields[i], i as usize) is Ok);
    }
}

/// Law: an enum that names its protobuf message type and whose every variant
/// names its protobuf variant as a word is planned, with one arm per variant in
/// order.
pub proof fn law_enum_with_variant_words_is_planned(input: DeriveInput, res: Result<FromProtoPlan, CodegenError>)
    requires
        from_proto_outcome(input, res),
        input.data is Enum,
        find_proto_type(input.attrs@) is Some,
        forall|i: int|
            0 <= i < input.data->Enum_0@.len() ==> (variant_proto_ident(
                #[trigger] input.data->Enum_0@[i],
                i as usize,
            ) is Ok),
    ensures
        res matches Ok(plan) && plan.body matches FromProtoBody::Enum(arms) && arms.len()
            == input.data->Enum_0@.len(),
{
    let variants = input.data->Enum_0@;
    if exists|i: int| is_variant_error_at(variants, i) {
        let i = choose|i: int| is_variant_error_at(variants, i);
        assert(variant_proto_ident(variants[i], i as usize) is Ok);
    }
}

} // verus!
