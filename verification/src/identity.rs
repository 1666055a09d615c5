//! Fixed-length public identifiers.

use vstd::prelude::*;

verus! {

/// Number of bytes in an [`Identity`].
pub const IDENTITY_BYTES: usize = 32;

/// An opaque 32-byte public identifier: a signer, an asset or an account
/// address. Two identities are the same when their bytes are.
#[derive(Clone, Copy, Debug)]
pub struct Identity {
    pub bytes: [u8; 32],
}

impl View for Identity {
    type V = Seq<u8>;

    open spec fn view(&self) -> Seq<u8> {
        self.bytes@
    }
}

impl Identity {
    /// Wraps 32 bytes.
    pub fn new_from_array(bytes: [u8; 32]) -> (id: Identity)
        ensures
            id@ == bytes@,
            id.bytes == bytes,
    {
        Identity { bytes }
    }

    /// The 32 bytes of the identity.
    pub fn to_bytes(&self) -> (bytes: [u8; 32])
        ensures
            bytes@ == self@,
            bytes == self.bytes,
    {
        self.bytes
    }

    /// Reads the identity stored in `input` at `offset`.
    pub fn read_from(input: &[u8], offset: usize) -> (id: Identity)
        requires
            offset + IDENTITY_BYTES <= input@.len(),
        ensures
            id@ == input@.subrange(offset as int, offset + IDENTITY_BYTES),
    {
        let len: usize = input.len();
        let mut bytes: [u8; 32] = [0u8; 32];
        let mut i: usize = 0;
        while i < IDENTITY_BYTES
            invariant
                i <= IDENTITY_BYTES,
                offset + IDENTITY_BYTES <= len == input@.len(),
                forall|j: int| 0 <= j < i ==> bytes@[j] == input@[offset + j],
            decreases IDENTITY_BYTES - i,
        {
            bytes[i] = input[offset + i];
            i += 1;
        }
        Identity { bytes }
    }

    /// Appends the 32 bytes of the identity to `out`.
    pub fn write_to(&self, out: &mut Vec<u8>)
        ensures
            final(out)@ == old(out)@ + self@,
    {
        let mut i: usize = 0;
        while i < IDENTITY_BYTES
            invariant
                i <= IDENTITY_BYTES,
                out@ == old(out)@ + self@.subrange(0, i as int),
            decreases IDENTITY_BYTES - i,
        {
            out.push(self.bytes[i]);
            i += 1;
        }
    }

    /// Byte equality.
    pub fn same_as(&self, other: &Identity) -> (same: bool)
        ensures
            same == (self@ == other@),
            same == (*self == *other),
    {
        let mut i: usize = 0;
        while i < IDENTITY_BYTES
            invariant
                i <= IDENTITY_BYTES,
                forall|j: int| 0 <= j < i ==> self.bytes@[j] == other.bytes@[j],
            decreases IDENTITY_BYTES - i,
        {
            if self.bytes[i] != other.bytes[i] {
                return false;
            }
            i += 1;
        }
        assert(self.bytes =~= other.bytes);
        true
    }
}

impl PartialEq for Identity {
    fn eq(&self, other: &Identity) -> (same: bool) {
        self.same_as(other)
    }
}

impl Eq for Identity {}

impl vstd::std_specs::cmp::PartialEqSpecImpl for Identity {
    open spec fn obeys_eq_spec() -> bool {
        true
    }

    open spec fn eq_spec(&self, other: &Identity) -> bool {
        self@ == other@
    }
}

} // verus!
