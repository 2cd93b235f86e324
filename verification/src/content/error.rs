//! Errors raised while loading or swapping content.

use vstd::prelude::*;

verus! {

#[derive(Debug, Clone, PartialEq, Eq)]
pub enum ContentError {
    /// The pack's bytes could not be read.
    Decode(String),
    /// The bytes read are not those that were announced.
    HashMismatch { expected: String, got: String },
    /// No definition of this kind has this id.
    UnknownId { kind: &'static str, id: String },
    /// The pack contradicts itself, or comes too late.
    Invalid(String),
}

impl ContentError {
    /// The error as one line of text.
    pub open spec fn text(self) -> Seq<char> {
        match self {
            ContentError::Decode(why) => "content decode failed: "@ + why@,
            ContentError::HashMismatch { expected, got } => "content hash mismatch: expected "@
                + expected@ + ", got "@ + got@,
            ContentError::UnknownId { kind, id } => "unknown "@ + kind@ + " id: "@ + id@,
            ContentError::Invalid(why) => "validation failed: "@ + why@,
        }
    }

    /// The error as one line of text.
    pub fn message(&self) -> (r: String)
        ensures
            r@ == self.text(),
    {
        let mut out = String::new();
        match self {
            ContentError::Decode(why) => {
                out.append("content decode failed: ");
                out.append(why.as_str());
            },
            ContentError::HashMismatch { expected, got } => {
                out.append("content hash mismatch: expected ");
                out.append(expected.as_str());
                out.append(", got ");
                out.append(got.as_str());
            },
            ContentError::UnknownId { kind, id } => {
                out.append("unknown ");
                out.append(kind);
                out.append(" id: ");
                out.append(id.as_str());
            },
            ContentError::Invalid(why) => {
                out.append("validation failed: ");
                out.append(why.as_str());
            },
        }
        assert(out@ =~= self.text());
        out
    }
}

/// An error names what is wrong: its line ends in the complaint, the id or the hash that came.
pub proof fn errors_name_what_is_wrong(e: ContentError)
    ensures
        match e {
            ContentError::Decode(why) => e.text() == "content decode failed: "@ + why@,
            ContentError::HashMismatch { expected, got } => e.text()
                == "content hash mismatch: expected "@ + expected@ + ", got "@ + got@,
            ContentError::UnknownId { kind, id } => e.text() == "unknown "@ + kind@ + " id: "@ + id@,
            ContentError::Invalid(why) => e.text() == "validation failed: "@ + why@,
        },
{
}

} // verus!
