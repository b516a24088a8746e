use vstd::prelude::*;

verus! {

broadcast use vstd::array::group_array_axioms;

/// A 32-byte account identity (a public key or a program-derived address).
#[derive(Clone, Copy, Debug, PartialEq, Eq, Hash)]
pub struct Key {
    pub bytes: [u8; 32],
}

impl View for Key {
    type V = Seq<u8>;

    open spec fn view(&self) -> Seq<u8> {
        self.bytes@
    }
}

/// The all-zero identity, which stands for "no account".
pub open spec fn spec_default_key() -> Key {
    Key { bytes: vstd::array::spec_array_fill_for_copy_type::<u8, 32>(0u8) }
}

/// Two identities with the same bytes are the same identity.
pub proof fn lemma_view_injective(a: Key, b: Key)
    ensures
        a@ == b@ ==> a == b,
{
    if a@ == b@ {
        assert(a.bytes =~= b.bytes);
    }
}

impl Key {
    pub fn new(bytes: [u8; 32]) -> (k: Key)
        ensures
            k.bytes == bytes,
    {
        Key { bytes }
    }

    /// The all-zero identity.
    pub fn default_key() -> (k: Key)
        ensures
            k == spec_default_key(),
    {
        Key { bytes: [0u8; 32] }
    }

    /// Compares two identities byte by byte.
    pub fn same_as(&self, other: &Key) -> (r: bool)
        ensures
            r == (*self == *other),
    {
        let mut i: usize = 0;
        while i < 32
            invariant
                0 <= i <= 32,
                forall|j: int| 0 <= j < i ==> self.bytes@[j] == other.bytes@[j],
            decreases 32 - i,
        {
            if self.bytes[i] != other.bytes[i] {
                return false;
            }
            i = i + 1;
        }
        assert(self.bytes =~= other.bytes);
        true
    }

    /// Whether this is the all-zero identity.
    pub fn is_default(&self) -> (r: bool)
        ensures
            r == (*self == spec_default_key()),
    {
        let zero = Key::default_key();
        self.same_as(&zero)
    }
}

} // verus!
