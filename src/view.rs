//! Typed, read-only views over host vectors. A view is made only after the
//! vector's tag has been checked against the element type it exposes.
use vstd::prelude::*;
use crate::error::BoundaryError;
use crate::host::{ElementType, HostVector};

verus! {

/// The characters that a well-formed UTF-8 byte string encodes, or `None`
/// where the bytes are not well-formed.
pub uninterp spec fn utf8_text(b: Seq<u8>) -> Option<Seq<char>>;

/// Relies on `std::str::from_utf8`: it accepts exactly the well-formed UTF-8
/// byte strings, and the characters it yields depend on the bytes alone.
#[verifier::external_body]
fn decode_utf8(b: &Vec<u8>) -> (r: Option<String>)
    ensures
        r is Some <==> utf8_text(b@) is Some,
        r is Some ==> r->Some_0@ == utf8_text(b@)->Some_0,
{
    std::str::from_utf8(b.as_slice()).ok().map(|s| s.to_string())
}

/// The failure of a view that needs `expected` over a vector tagged `actual`.
pub open spec fn mismatch(expected: ElementType, actual: ElementType) -> BoundaryError {
    BoundaryError::TypeMismatch { expected, actual }
}

/// `k` is the first element of `b` that is not well-formed UTF-8.
pub open spec fn is_first_malformed(b: Seq<Seq<u8>>, k: int) -> bool {
    &&& 0 <= k < b.len()
    &&& utf8_text(b[k]) is None
    &&& forall|j: int| 0 <= j < k ==> (#[trigger] utf8_text(b[j])) is Some
}

/// Every element of `b` is well-formed UTF-8.
pub open spec fn all_well_formed(b: Seq<Seq<u8>>) -> bool {
    forall|j: int| 0 <= j < b.len() ==> (#[trigger] utf8_text(b[j])) is Some
}

/// The decoded elements of `b`, where all are well-formed.
pub open spec fn decoded(b: Seq<Seq<u8>>) -> Seq<Seq<char>> {
    b.map_values(|e: Seq<u8>| utf8_text(e)->Some_0)
}

/// What a text view over `x` is: its decoded elements, or the failure.
pub open spec fn text_view_result(x: HostVector) -> Result<Seq<Seq<char>>, BoundaryError> {
    if !(x is Text) {
        Err(mismatch(ElementType::Text, x.spec_tag()))
    } else if all_well_formed(x.text_bytes()) {
        Ok(decoded(x.text_bytes()))
    } else {
        Err(
            BoundaryError::MalformedText {
                index: (choose|k: int| is_first_malformed(x.text_bytes(), k)) as usize,
            },
        )
    }
}

/// There is at most one first malformed element.
proof fn lemma_first_malformed_unique(b: Seq<Seq<u8>>, k1: int, k2: int)
    requires
        is_first_malformed(b, k1),
        is_first_malformed(b, k2),
    ensures
        k1 == k2,
{
    if k1 < k2 {
        assert(utf8_text(b[k1]) is Some);
    } else if k2 < k1 {
        assert(utf8_text(b[k2]) is Some);
    }
}

/// The views of a vector of strings.
pub open spec fn strings_view(v: Seq<String>) -> Seq<Seq<char>> {
    v.map_values(|s: String| s@)
}

/// A view over an integer vector.
pub struct IntegerView<'a> {
    data: &'a Vec<i32>,
}

impl<'a> View for IntegerView<'a> {
    type V = Seq<i32>;

    closed spec fn view(&self) -> Seq<i32> {
        self.data@
    }
}

impl<'a> IntegerView<'a> {
    /// Checks that `x` holds integers and views it.
    pub fn new(x: &'a HostVector) -> (r: Result<IntegerView<'a>, BoundaryError>)
        ensures
            match *x {
                HostVector::Integer(d) => r is Ok && r->Ok_0@ == d@,
                _ => r == Err::<IntegerView<'a>, BoundaryError>(
                    mismatch(ElementType::Integer, x.spec_tag()),
                ),
            },
    {
        match x {
            HostVector::Integer(d) => Ok(IntegerView { data: d }),
            _ => Err(BoundaryError::TypeMismatch { expected: ElementType::Integer, actual: x.tag() }),
        }
    }

    pub fn len(&self) -> (n: usize)
        ensures
            n == self@.len(),
    {
        self.data.len()
    }

    pub fn element_at(&self, i: usize) -> (e: i32)
        requires
            i < self@.len(),
        ensures
            e == self@[i as int],
    {
        self.data[i]
    }

    /// A fresh copy of the elements, in order.
    pub fn to_vec(&self) -> (v: Vec<i32>)
        ensures
            v@ == self@,
    {
        self.data.clone()
    }
}

/// A view over a real vector; each element is the IEEE bit pattern of a
/// double.
pub struct RealView<'a> {
    data: &'a Vec<u64>,
}

impl<'a> View for RealView<'a> {
    type V = Seq<u64>;

    closed spec fn view(&self) -> Seq<u64> {
        self.data@
    }
}

impl<'a> RealView<'a> {
    /// Checks that `x` holds reals and views it.
    pub fn new(x: &'a HostVector) -> (r: Result<RealView<'a>, BoundaryError>)
        ensures
            match *x {
                HostVector::Real(d) => r is Ok && r->Ok_0@ == d@,
                _ => r == Err::<RealView<'a>, BoundaryError>(
                    mismatch(ElementType::Real, x.spec_tag()),
                ),
            },
    {
        match x {
            HostVector::Real(d) => Ok(RealView { data: d }),
            _ => Err(BoundaryError::TypeMismatch { expected: ElementType::Real, actual: x.tag() }),
        }
    }

    pub fn len(&self) -> (n: usize)
        ensures
            n == self@.len(),
    {
        self.data.len()
    }

    pub fn element_bits_at(&self, i: usize) -> (e: u64)
        requires
            i < self@.len(),
        ensures
            e == self@[i as int],
    {
        self.data[i]
    }

    /// A fresh copy of the elements' bit patterns, in order.
    pub fn to_vec(&self) -> (v: Vec<u64>)
        ensures
            v@ == self@,
    {
        self.data.clone()
    }
}

/// A view over a text vector, each element decoded from UTF-8 when the view
/// is made: one malformed element fails the whole view.
pub struct TextView {
    items: Vec<String>,
}

impl View for TextView {
    type V = Seq<Seq<char>>;

    closed spec fn view(&self) -> Seq<Seq<char>> {
        strings_view(self.items@)
    }
}

impl TextView {
    /// Checks that `x` holds text and decodes each of its elements.
    pub fn new(x: &HostVector) -> (r: Result<TextView, BoundaryError>)
        ensures
            match r {
                Ok(v) => text_view_result(*x) == Ok::<Seq<Seq<char>>, BoundaryError>(v@),
                Err(e) => text_view_result(*x) == Err::<Seq<Seq<char>>, BoundaryError>(e),
            },
    {
        match x {
            HostVector::Text(d) => {
                let ghost b = x.text_bytes();
                let mut items: Vec<String> = Vec::new();
                let mut i: usize = 0;
                while i < d.len()
                    invariant
                        b == d@.map_values(|e: Vec<u8>| e@),
                        b == x.text_bytes(),
                        x is Text,
                        i <= d.len(),
                        items@.len() == i,
                        forall|j: int| 0 <= j < i ==> (#[trigger] utf8_text(b[j])) is Some,
                        forall|j: int|
                            0 <= j < i ==> #[trigger] items@[j]@ == utf8_text(b[j])->Some_0,
                    decreases d.len() - i,
                {
                    match decode_utf8(&d[i]) {
                        Some(s) => {
                            items.push(s);
                        },
                        None => {
                            proof {
                                assert(is_first_malformed(b, i as int));
                                assert(!all_well_formed(b));
                                let k = choose|k: int| is_first_malformed(b, k);
                                lemma_first_malformed_unique(b, k, i as int);
                                assert(text_view_result(*x) == Err::<Seq<Seq<char>>, BoundaryError>(
                                    BoundaryError::MalformedText { index: i },
                                ));
                            }
                            return Err(BoundaryError::MalformedText { index: i });
                        },
                    }
                    i = i + 1;
                }
                let v = TextView { items };
                proof {
                    assert(all_well_formed(b));
                    assert(v@ =~= decoded(b));
                }
                Ok(v)
            },
            _ => Err(BoundaryError::TypeMismatch { expected: ElementType::Text, actual: x.tag() }),
        }
    }

    pub fn len(&self) -> (n: usize)
        ensures
            n == self@.len(),
    {
        self.items.len()
    }

    pub fn element_at(&self, i: usize) -> (e: &str)
        requires
            i < self@.len(),
        ensures
            e@ == self@[i as int],
    {
        self.items[i].as_str()
    }

    /// A fresh copy of the decoded elements, in order.
    pub fn to_vec(&self) -> (v: Vec<String>)
        ensures
            strings_view(v@) == self@,
    {
        let mut v: Vec<String> = Vec::new();
        let mut i: usize = 0;
        while i < self.items.len()
            invariant
                i <= self.items@.len(),
                v@.len() == i,
                forall|j: int| 0 <= j < i ==> #[trigger] v@[j]@ == self.items@[j]@,
            decreases self.items@.len() - i,
        {
            v.push(self.items[i].clone());
            i = i + 1;
        }
        assert(strings_view(v@) =~= self@);
        v
    }
}

} // verus!
