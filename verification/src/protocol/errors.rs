use vstd::prelude::*;

verus! {

/// The error of a builder.
pub enum BuilderError {
    /// A field that the built value needs was never set; the text names it.
    MissingField(String),
}

} // verus!
