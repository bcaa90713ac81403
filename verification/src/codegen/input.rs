use vstd::prelude::*;

verus! {

/// A literal in an attribute: a string literal, or anything else.
pub enum Lit {
    Str(String),
    Other,
}

/// One element of a parenthesized attribute list: a bare word, or anything else.
pub enum NestedMeta {
    Word(String),
    Other,
}

/// The parsed contents of an attribute: `#[name]`, `#[name(...)]` or `#[name = lit]`.
pub enum Meta {
    Word(String),
    List { ident: String, nested: Vec<NestedMeta> },
    NameValue { ident: String, lit: Lit },
}

/// An attribute as the generator reads it: the first segment of its path, and
/// its contents where they parse as a `Meta`.
pub struct Attribute {
    pub first_segment: Option<String>,
    pub meta: Option<Meta>,
}

/// A generic argument of a path segment: a type, or anything else (a lifetime,
/// a constant, a binding).
pub enum GenericArgument {
    Type(Type),
    Other,
}

/// The arguments of a path segment.
pub enum PathArguments {
    NoArguments,
    AngleBracketed(Vec<GenericArgument>),
    Parenthesized,
}

/// One segment of a type path, such as `Vec<String>` in `std::vec::Vec<String>`.
pub struct PathSegment {
    pub ident: String,
    pub arguments: PathArguments,
}

/// The type of a field: a path type, or any other type.
pub enum Type {
    Path(Vec<PathSegment>),
    Other,
}

/// A field of a struct; `ident` is `None` for the fields of a tuple struct.
pub struct Field {
    pub ident: Option<String>,
    pub attrs: Vec<Attribute>,
    pub ty: Type,
}

/// A variant of an enum.
pub struct Variant {
    pub ident: String,
    pub attrs: Vec<Attribute>,
}

/// The body of the item that the derive is applied to.
pub enum Data {
    Struct(Vec<Field>),
    Enum(Vec<Variant>),
    Union,
}

/// The item that a derive is applied to.
pub struct DeriveInput {
    pub ident: String,
    pub attrs: Vec<Attribute>,
    pub data: Data,
}

/// The name of an attribute's contents.
pub open spec fn meta_name(m: Meta) -> Seq<char> {
    match m {
        Meta::Word(ident) => ident@,
        Meta::List { ident, .. } => ident@,
        Meta::NameValue { ident, .. } => ident@,
    }
}

impl Meta {
    /// The name of the attribute: the word itself, or the name in front of the
    /// list or of the `=`.
    pub fn name(&self) -> (name: &String)
        ensures
            name@ == meta_name(*self),
    {
        match self {
            Meta::Word(ident) => ident,
            Meta::List { ident, .. } => ident,
            Meta::NameValue { ident, .. } => ident,
        }
    }
}

/// Whether `s` reads `lit`.
pub fn string_is(s: &String, lit: &str) -> (same: bool)
    ensures
        same == (s@ == lit@),
{
    let other: String = lit.to_owned();
    *s == other
}

} // verus!
