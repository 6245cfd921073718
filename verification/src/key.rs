use vstd::prelude::*;

verus! {

/// The 32-byte address of an account.
#[derive(Clone, Copy, Debug)]
pub struct AccountKey {
    pub bytes: [u8; 32],
}

/// Two addresses are the same when their bytes are.
pub open spec fn same_key(a: AccountKey, b: AccountKey) -> bool {
    a.bytes@ == b.bytes@
}

impl AccountKey {
    /// Wraps 32 bytes as an address.
    pub fn new(bytes: [u8; 32]) -> (k: AccountKey)
        ensures
            k.bytes@ == bytes@,
    {
        AccountKey { bytes }
    }

    /// Whether two addresses are the same, byte for byte.
    pub fn equals(&self, other: &AccountKey) -> (r: bool)
        ensures
            r == (self.bytes@ == other.bytes@),
    {
        let mut i: usize = 0;
        while i < 32
            invariant
                0 <= i <= 32,
                forall|j: int| 0 <= j < i ==> self.bytes@[j] == other.bytes@[j],
            decreases 32 - i,
        {
            if self.bytes[i] != other.bytes[i] {
                return false;
            }
            i = i + 1;
        }
        assert(self.bytes@ =~= other.bytes@);
        true
    }
}

} // verus!
