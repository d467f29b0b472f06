//! Byte-sequence inputs.
use vstd::prelude::*;

verus! {

/// The plain input: a sequence of bytes handed to the target as is.
#[derive(Clone, Debug)]
pub struct BytesInput {
    bytes: Vec<u8>,
}

impl View for BytesInput {
    type V = Seq<u8>;

    closed spec fn view(&self) -> Seq<u8> {
        self.bytes@
    }
}

impl BytesInput {
    /// Creates an input holding the given bytes.
    pub fn new(bytes: Vec<u8>) -> (r: BytesInput)
        ensures
            r@ == bytes@,
    {
        BytesInput { bytes }
    }

    /// The bytes of the input.
    pub fn bytes(&self) -> (r: &[u8])
        ensures
            r@ == self@,
    {
        self.bytes.as_slice()
    }

    /// The bytes of the input, for mutation in place.
    pub fn bytes_mut(&mut self) -> (r: &mut Vec<u8>)
        ensures
            r@ == old(self)@,
            final(self)@ == final(r)@,
    {
        &mut self.bytes
    }

    /// The bytes that the target is run on.
    pub fn target_bytes(&self) -> (r: &[u8])
        ensures
            r@ == self@,
    {
        self.bytes.as_slice()
    }

    /// The number of bytes.
    pub fn len(&self) -> (r: usize)
        ensures
            r == self@.len(),
    {
        self.bytes.len()
    }

    /// The byte at `i`.
    pub fn byte_at(&self, i: usize) -> (r: u8)
        requires
            i < self@.len(),
        ensures
            r == self@[i as int],
    {
        self.bytes[i]
    }

    /// Overwrites the byte at `i`.
    pub fn set_byte(&mut self, i: usize, v: u8)
        requires
            i < old(self)@.len(),
        ensures
            final(self)@ == old(self)@.update(i as int, v),
    {
        self.bytes.set(i, v);
    }

    /// Replaces all the bytes.
    pub fn set_bytes(&mut self, bytes: Vec<u8>)
        ensures
            final(self)@ == bytes@,
    {
        self.bytes = bytes;
    }

    /// A copy of the bytes.
    pub fn to_vec(&self) -> (r: Vec<u8>)
        ensures
            r@ == self@,
    {
        self.bytes.clone()
    }

    /// A copy that owns the same bytes.
    pub fn duplicate(&self) -> (r: BytesInput)
        ensures
            r@ == self@,
    {
        BytesInput { bytes: self.bytes.clone() }
    }
}

impl PartialEq for BytesInput {
    fn eq(&self, other: &BytesInput) -> (r: bool)
        ensures
            r == (self@ == other@),
    {
        let n = self.bytes.len();
        if n != other.bytes.len() {
            return false;
        }
        let mut i: usize = 0;
        while i < n
            invariant
                n == self@.len(),
                n == other@.len(),
                i <= n,
                forall|j: int| 0 <= j < i ==> self@[j] == other@[j],
            decreases n - i,
        {
            if self.bytes[i] != other.bytes[i] {
                return false;
            }
            i = i + 1;
        }
        assert(self@ =~= other@);
        true
    }
}

impl vstd::std_specs::cmp::PartialEqSpecImpl for BytesInput {
    open spec fn obeys_eq_spec() -> bool {
        true
    }

    open spec fn eq_spec(&self, other: &BytesInput) -> bool {
        self@ == other@
    }
}

impl Eq for BytesInput {}

impl From<Vec<u8>> for BytesInput {
    fn from(bytes: Vec<u8>) -> (r: BytesInput)
        ensures
            r@ == bytes@,
    {
        BytesInput { bytes }
    }
}

impl<'a> From<&'a [u8]> for BytesInput {
    fn from(bytes: &'a [u8]) -> (r: BytesInput)
        ensures
            r@ == bytes@,
    {
        let mut v: Vec<u8> = Vec::new();
        v.extend_from_slice(bytes);
        BytesInput { bytes: v }
    }
}

impl<'a> vstd::std_specs::convert::FromSpecImpl<&'a [u8]> for BytesInput {
    open spec fn obeys_from_spec() -> bool {
        false
    }

    open spec fn from_spec(bytes: &'a [u8]) -> BytesInput {
        arbitrary()
    }
}

impl vstd::std_specs::convert::FromSpecImpl<Vec<u8>> for BytesInput {
    open spec fn obeys_from_spec() -> bool {
        true
    }

    closed spec fn from_spec(bytes: Vec<u8>) -> BytesInput {
        BytesInput { bytes }
    }
}

} // verus!
