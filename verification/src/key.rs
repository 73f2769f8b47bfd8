use vstd::prelude::*;

verus! {

/// An opaque 32-byte identity. Networks, operators, vaults, owning programs
/// and record addresses are all named by such a key; the engine only ever
/// compares keys for equality and feeds their bytes into address derivation.
#[derive(Clone, Copy, Debug, PartialEq, Eq)]
pub struct Key {
    pub bytes: [u8; 32],
}

impl View for Key {
    type V = Seq<u8>;

    open spec fn view(&self) -> Seq<u8> {
        self.bytes@
    }
}

/// The all-zero key: the default identity stored in an empty slot.
pub open spec fn zero_key() -> Seq<u8> {
    Seq::new(32, |i: int| 0u8)
}

impl Key {
    /// The key made of 32 zero bytes.
    pub fn zeroed() -> (r: Key)
        ensures
            r@ == zero_key(),
    {
        let bytes = [0u8; 32];
        proof {
            assert(bytes@ =~= zero_key());
        }
        Key { bytes }
    }

    /// Byte-wise equality of two keys.
    pub fn eq_bytes(&self, other: &Key) -> (r: bool)
        ensures
            r == (self@ == other@),
    {
        let mut i: usize = 0;
        while i < 32
            invariant
                i <= 32,
                forall|k: int| 0 <= k < i ==> self.bytes@[k] == other.bytes@[k],
            decreases 32 - i,
        {
            if self.bytes[i] != other.bytes[i] {
                return false;
            }
            i = i + 1;
        }
        proof {
            assert(self@ =~= other@);
        }
        true
    }

    /// The key's bytes as a fresh vector, for use as a derivation seed.
    pub fn to_vec(&self) -> (r: Vec<u8>)
        ensures
            r@ == self@,
    {
        let mut r: Vec<u8> = Vec::new();
        let mut i: usize = 0;
        while i < 32
            invariant
                i <= 32,
                r@.len() == i,
                forall|k: int| 0 <= k < i ==> r@[k] == self.bytes@[k],
            decreases 32 - i,
        {
            r.push(self.bytes[i]);
            i = i + 1;
        }
        proof {
            assert(r@ =~= self@);
        }
        r
    }
}

} // verus!
