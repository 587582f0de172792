//! The host's vectors, as the library sees them: an element-type tag and the
//! elements, read out of the host object as plain values.
use vstd::prelude::*;

verus! {

/// The element-type tag of a host vector.
#[derive(Clone, Copy, Debug, PartialEq, Eq, Structural)]
pub enum ElementType {
    Integer,
    Real,
    Text,
    /// Any tag the bridge does not handle (lists, logicals, ...).
    Other,
}

/// The name of a tag, as failure messages spell it.
pub open spec fn spec_tag_name(t: ElementType) -> Seq<char> {
    match t {
        ElementType::Integer => "integer"@,
        ElementType::Real => "real"@,
        ElementType::Text => "text"@,
        ElementType::Other => "other"@,
    }
}

impl ElementType {
    /// The name of this tag.
    pub fn name(&self) -> (r: &'static str)
        ensures
            r@ == spec_tag_name(*self),
    {
        match self {
            ElementType::Integer => "integer",
            ElementType::Real => "real",
            ElementType::Text => "text",
            ElementType::Other => "other",
        }
    }
}

/// A host vector: 32-bit integers, double-precision reals held as their IEEE
/// bit patterns, or text elements held as the bytes the host stores. A
/// vector of any other tag is known by its length alone.
#[derive(Debug)]
pub enum HostVector {
    Integer(Vec<i32>),
    Real(Vec<u64>),
    Text(Vec<Vec<u8>>),
    Other(usize),
}

impl HostVector {
    pub open spec fn spec_tag(&self) -> ElementType {
        match self {
            HostVector::Integer(_) => ElementType::Integer,
            HostVector::Real(_) => ElementType::Real,
            HostVector::Text(_) => ElementType::Text,
            HostVector::Other(_) => ElementType::Other,
        }
    }

    pub open spec fn spec_len(&self) -> nat {
        match self {
            HostVector::Integer(v) => v@.len(),
            HostVector::Real(v) => v@.len(),
            HostVector::Text(v) => v@.len(),
            HostVector::Other(n) => *n as nat,
        }
    }

    /// The elements of a text vector, each as its bytes.
    pub open spec fn text_bytes(&self) -> Seq<Seq<u8>> {
        match self {
            HostVector::Text(v) => v@.map_values(|b: Vec<u8>| b@),
            _ => Seq::empty(),
        }
    }

    /// Two host vectors hold the same content: the same tag and the same
    /// elements.
    pub open spec fn same_content(&self, other: &HostVector) -> bool {
        match (self, other) {
            (HostVector::Integer(a), HostVector::Integer(b)) => a@ == b@,
            (HostVector::Real(a), HostVector::Real(b)) => a@ == b@,
            (HostVector::Text(_), HostVector::Text(_)) => self.text_bytes() == other.text_bytes(),
            (HostVector::Other(a), HostVector::Other(b)) => a == b,
            _ => false,
        }
    }

    /// The element-type tag that the host reports.
    pub fn tag(&self) -> (t: ElementType)
        ensures
            t == self.spec_tag(),
    {
        match self {
            HostVector::Integer(_) => ElementType::Integer,
            HostVector::Real(_) => ElementType::Real,
            HostVector::Text(_) => ElementType::Text,
            HostVector::Other(_) => ElementType::Other,
        }
    }

    /// The number of elements that the host reports.
    pub fn len(&self) -> (n: usize)
        ensures
            n == self.spec_len(),
    {
        match self {
            HostVector::Integer(v) => v.len(),
            HostVector::Real(v) => v.len(),
            HostVector::Text(v) => v.len(),
            HostVector::Other(n) => *n,
        }
    }
}

} // verus!
