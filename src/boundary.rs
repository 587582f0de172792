//! The fallibility boundary: how the outcome of one guarded call becomes the
//! single handle that goes back to the host.
use vstd::prelude::*;
use vstd::string::StringExecFns;
use crate::error::BoundaryError;

verus! {

/// How a guarded unit of native logic ended.
#[derive(Debug, PartialEq, Eq)]
pub enum CallOutcome {
    /// It returned a success handle.
    Returned(usize),
    /// It returned an anticipated failure.
    Failed(BoundaryError),
    /// It unwound; the text is what could be read of the payload and of the
    /// place of the defect, possibly empty.
    Panicked(String),
}

/// What the boundary hands back: a success handle as it is, or a failure
/// message that the host turns into a text object and then tags.
#[derive(Debug, PartialEq, Eq)]
pub enum Settlement {
    Success(usize),
    Failure(String),
}

/// The diagnostic for a defect: never empty, and holding what was read of
/// the payload.
pub open spec fn defect_message(payload: Seq<char>) -> Seq<char> {
    "native code panicked: "@ + payload
}

/// What the boundary settles `o` into, with messages as character
/// sequences.
pub open spec fn settled(o: CallOutcome) -> Result<usize, Seq<char>> {
    match o {
        CallOutcome::Returned(h) => Ok(h),
        CallOutcome::Failed(e) => Err(e.spec_message()),
        CallOutcome::Panicked(p) => Err(defect_message(p@)),
    }
}

pub open spec fn settlement_view(s: Settlement) -> Result<usize, Seq<char>> {
    match s {
        Settlement::Success(h) => Ok(h),
        Settlement::Failure(m) => Err(m@),
    }
}

/// Settles a guarded call: a returned handle passes through unchanged; an
/// anticipated failure becomes its message; a defect becomes a diagnostic
/// that is never empty.
pub fn wrapper(o: CallOutcome) -> (s: Settlement)
    ensures
        settlement_view(s) == settled(o),
        s is Failure ==> s->Failure_0@.len() > 0,
{
    match o {
        CallOutcome::Returned(h) => Settlement::Success(h),
        CallOutcome::Failed(e) => {
            let m = e.message();
            proof {
                reveal_strlit("expected a vector of type ");
                reveal_strlit("a text element is not valid UTF-8");
            }
            Settlement::Failure(m)
        },
        CallOutcome::Panicked(p) => {
            let mut m = String::from_str("native code panicked: ");
            m.append(p.as_str());
            proof {
                reveal_strlit("native code panicked: ");
            }
            Settlement::Failure(m)
        },
    }
}

} // verus!
