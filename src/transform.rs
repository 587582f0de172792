//! The element-wise transforms behind the entry points. Each checks its input
//! through a typed view and computes the elements of a new vector of the same
//! tag and length, index by index.
use vstd::prelude::*;
use crate::error::BoundaryError;
use crate::host::{ElementType, HostVector};
use crate::view::{
    IntegerView, TextView, all_well_formed, decoded, mismatch, strings_view, text_view_result,
    utf8_text,
};

verus! {

/// The case-upper mapping of a text, as Unicode defines it.
pub uninterp spec fn upper_of(s: Seq<char>) -> Seq<char>;

/// Relies on `str::to_uppercase`: the result depends on the characters
/// alone.
#[verifier::external_body]
fn uppercase(s: &str) -> (r: String)
    ensures
        r@ == upper_of(s@),
{
    s.to_uppercase()
}

/// `2 * x` in 32-bit two's-complement arithmetic: the value wraps rather
/// than growing or failing.
pub open spec fn doubled(x: i32) -> i32 {
    if 2 * x > i32::MAX {
        (2 * x - 0x1_0000_0000) as i32
    } else if 2 * x < i32::MIN {
        (2 * x + 0x1_0000_0000) as i32
    } else {
        (2 * x) as i32
    }
}

/// What the text transform yields for `x`: each element upper-cased, or the
/// failure of the text view.
pub open spec fn upper_result(x: HostVector) -> Result<Seq<Seq<char>>, BoundaryError> {
    match text_view_result(x) {
        Ok(t) => Ok(t.map_values(|s: Seq<char>| upper_of(s))),
        Err(e) => Err(e),
    }
}

/// What the integer transform yields for `x`: each element doubled with
/// wraparound, or a type mismatch.
pub open spec fn doubled_result(x: HostVector) -> Result<Seq<i32>, BoundaryError> {
    match x {
        HostVector::Integer(d) => Ok(d@.map_values(|e: i32| doubled(e))),
        _ => Err(mismatch(ElementType::Integer, x.spec_tag())),
    }
}

/// Upper-cases every element of a text vector. The output has the input's
/// length, and element `i` is the case-upper mapping of input element `i`.
pub fn to_upper_inner(x: &HostVector) -> (r: Result<Vec<String>, BoundaryError>)
    ensures
        match r {
            Ok(v) => upper_result(*x) == Ok::<Seq<Seq<char>>, BoundaryError>(strings_view(v@)),
            Err(e) => upper_result(*x) == Err::<Seq<Seq<char>>, BoundaryError>(e),
        },
        r is Ok ==> r->Ok_0@.len() == x.spec_len(),
{
    let view = match TextView::new(x) {
        Ok(v) => v,
        Err(e) => return Err(e),
    };
    let ghost t = view@;
    let n = view.len();
    let mut out: Vec<String> = Vec::new();
    let mut i: usize = 0;
    while i < n
        invariant
            n == t.len(),
            t == view@,
            i <= n,
            out@.len() == i,
            forall|j: int| 0 <= j < i ==> #[trigger] out@[j]@ == upper_of(t[j]),
        decreases n - i,
    {
        out.push(uppercase(view.element_at(i)));
        i = i + 1;
    }
    proof {
        assert(strings_view(out@) =~= t.map_values(|s: Seq<char>| upper_of(s)));
        assert(x.text_bytes().len() == x.spec_len());
    }
    Ok(out)
}

/// Doubles every element of an integer vector, wrapping on overflow. The
/// output has the input's length.
pub fn times_two_int_inner(x: &HostVector) -> (r: Result<Vec<i32>, BoundaryError>)
    ensures
        match r {
            Ok(v) => doubled_result(*x) == Ok::<Seq<i32>, BoundaryError>(v@),
            Err(e) => doubled_result(*x) == Err::<Seq<i32>, BoundaryError>(e),
        },
        r is Ok <==> x is Integer,
        r is Ok ==> r->Ok_0@.len() == x.spec_len(),
{
    let view = match IntegerView::new(x) {
        Ok(v) => v,
        Err(e) => return Err(e),
    };
    let ghost d = view@;
    let n = view.len();
    let mut out: Vec<i32> = Vec::new();
    let mut i: usize = 0;
    while i < n
        invariant
            n == d.len(),
            d == view@,
            i <= n,
            out@.len() == i,
            forall|j: int| 0 <= j < i ==> #[trigger] out@[j] == doubled(d[j]),
        decreases n - i,
    {
        let e = view.element_at(i);
        out.push(e.wrapping_add(e));
        i = i + 1;
    }
    proof {
        assert(out@ =~= d.map_values(|e: i32| doubled(e)));
    }
    Ok(out)
}

} // verus!

verus! {

/// The text transform keeps the length of a well-formed text vector, and its
/// element `i` is the case-upper mapping of input element `i`.
pub proof fn lemma_upper_elementwise(x: HostVector)
    requires
        x is Text,
        all_well_formed(x.text_bytes()),
    ensures
        upper_result(x) is Ok,
        upper_result(x)->Ok_0.len() == x.spec_len(),
        forall|i: int|
            0 <= i < x.spec_len() ==> #[trigger] upper_result(x)->Ok_0[i] == upper_of(
                utf8_text(x.text_bytes()[i])->Some_0,
            ),
{
    assert(x.text_bytes().len() == x.spec_len());
    assert forall|i: int| 0 <= i < x.spec_len() implies #[trigger] upper_result(x)->Ok_0[i]
        == upper_of(utf8_text(x.text_bytes()[i])->Some_0) by {
        assert(decoded(x.text_bytes())[i] == utf8_text(x.text_bytes()[i])->Some_0);
    }
}

/// The integer transform keeps the length of an integer vector, and its
/// element `i` is twice input element `i`, reduced into the 32-bit range:
/// the two differ by a multiple of 2^32.
pub proof fn lemma_doubled_elementwise(x: HostVector)
    requires
        x is Integer,
    ensures
        doubled_result(x) is Ok,
        doubled_result(x)->Ok_0.len() == x.spec_len(),
        forall|i: int|
            0 <= i < x.spec_len() ==> {
                let e = x->Integer_0@[i];
                let d = #[trigger] doubled_result(x)->Ok_0[i];
                &&& d == doubled(e)
                &&& (d == 2 * e || d == 2 * e - 0x1_0000_0000 || d == 2 * e + 0x1_0000_0000)
            },
{
}

/// No hidden state: two vectors with the same content get the same output
/// from each transform, and the same typed views.
pub proof fn lemma_same_content_same_output(a: HostVector, b: HostVector)
    requires
        a.same_content(&b),
    ensures
        upper_result(a) == upper_result(b),
        doubled_result(a) == doubled_result(b),
        text_view_result(a) == text_view_result(b),
{
}

/// An empty vector is transformed into an empty vector, not into a failure.
pub proof fn lemma_empty_input(x: HostVector)
    requires
        x.spec_len() == 0,
    ensures
        x is Text ==> upper_result(x) == Ok::<Seq<Seq<char>>, BoundaryError>(Seq::empty()),
        x is Integer ==> doubled_result(x) == Ok::<Seq<i32>, BoundaryError>(Seq::empty()),
{
    if x is Text {
        assert(x.text_bytes().len() == 0);
        assert(all_well_formed(x.text_bytes()));
        assert(upper_result(x)->Ok_0 =~= Seq::empty());
    }
    if x is Integer {
        assert(doubled_result(x)->Ok_0 =~= Seq::empty());
    }
}

} // verus!
