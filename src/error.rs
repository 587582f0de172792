//! Recoverable failures, and the messages the host receives for them.
use vstd::prelude::*;
use vstd::string::StringExecFns;
use crate::host::{ElementType, spec_tag_name};

verus! {

/// An anticipated failure of an entry point.
#[derive(Clone, Copy, Debug, PartialEq, Eq, Structural)]
pub enum BoundaryError {
    /// The input vector's tag is not the one the entry point needs.
    TypeMismatch { expected: ElementType, actual: ElementType },
    /// The text element at `index` is not well-formed UTF-8.
    MalformedText { index: usize },
}

/// The message of a type mismatch: it names both tags.
pub open spec fn mismatch_message(expected: ElementType, actual: ElementType) -> Seq<char> {
    "expected a vector of type "@ + spec_tag_name(expected) + ", got "@ + spec_tag_name(actual)
}

impl BoundaryError {
    pub open spec fn spec_message(&self) -> Seq<char> {
        match self {
            BoundaryError::TypeMismatch { expected, actual } => mismatch_message(*expected, *actual),
            BoundaryError::MalformedText { .. } => "a text element is not valid UTF-8"@,
        }
    }

    /// The human-readable message of this failure.
    pub fn message(&self) -> (m: String)
        ensures
            m@ == self.spec_message(),
    {
        match self {
            BoundaryError::TypeMismatch { expected, actual } => {
                let mut m = String::from_str("expected a vector of type ");
                m.append(expected.name());
                m.append(", got ");
                m.append(actual.name());
                m
            },
            BoundaryError::MalformedText { .. } => String::from_str("a text element is not valid UTF-8"),
        }
    }
}

/// A mismatch message holds the name of the expected tag and, after it, the
/// name of the actual one.
pub proof fn lemma_mismatch_message_names_both(expected: ElementType, actual: ElementType)
    ensures
        ({
            let m = mismatch_message(expected, actual);
            let p = "expected a vector of type "@.len();
            let e = spec_tag_name(expected).len();
            let q = p + e + ", got "@.len();
            &&& m.subrange(p as int, (p + e) as int) == spec_tag_name(expected)
            &&& m.subrange(q as int, m.len() as int) == spec_tag_name(actual)
        }),
{
    let m = mismatch_message(expected, actual);
    let p = "expected a vector of type "@.len();
    let e = spec_tag_name(expected).len();
    let q = p + e + ", got "@.len();
    assert(m.subrange(p as int, (p + e) as int) =~= spec_tag_name(expected));
    assert(m.subrange(q as int, m.len() as int) =~= spec_tag_name(actual));
}

} // verus!
