use vstd::prelude::*;

verus! {

/// Why a document, or a fragment of it, could not be normalized.
#[derive(Clone, Debug, PartialEq)]
pub enum ParseError {
    /// The text is not JSON.
    Syntax,
    /// Arrays and objects nest deeper than the normalizer follows.
    TooDeep,
    /// The member of that name is missing or has the wrong shape.
    Field(String),
}

impl ParseError {
    pub open spec fn is_field(&self, key: Seq<char>) -> bool {
        &&& self is Field
        &&& self->Field_0@ == key
    }

    /// The error for the member named `key`.
    pub fn field(key: &str) -> (r: ParseError)
        ensures
            r.is_field(key@),
    {
        ParseError::Field(String::from_str(key))
    }
}

} // verus!
