//! Principal and asset identifiers.
use vstd::prelude::*;

verus! {

/// A 32-byte identifier of a principal, an asset or a holding account.
#[derive(Clone, Copy, Debug)]
pub struct Pubkey {
    pub bytes: [u8; 32],
}

impl Pubkey {
    pub open spec fn view(&self) -> Seq<u8> {
        self.bytes@
    }

    pub fn new_from_array(bytes: [u8; 32]) -> (r: Pubkey)
        ensures
            r.bytes == bytes,
    {
        Pubkey { bytes }
    }

    pub fn to_bytes(&self) -> (r: [u8; 32])
        ensures
            r == self.bytes,
    {
        self.bytes
    }

    /// Compares two identifiers byte by byte.
    pub fn same_as(&self, other: &Pubkey) -> (r: bool)
        ensures
            r == (*self == *other),
    {
        let mut i: usize = 0;
        while i < 32
            invariant
                i <= 32,
                forall|j: int| 0 <= j < i ==> self.bytes@[j] == other.bytes@[j],
            decreases 32 - i,
        {
            if self.bytes[i] != other.bytes[i] {
                return false;
            }
            i = i + 1;
        }
        proof {
            assert(self.bytes@ =~= other.bytes@);
            vstd::array::axiom_array_ext_equal(self.bytes, other.bytes);
        }
        true
    }
}

/// Whether `slot` holds exactly `key`.
pub fn holds_key(slot: &Option<Pubkey>, key: &Pubkey) -> (r: bool)
    ensures
        r == (*slot == Some(*key)),
{
    match slot {
        Some(k) => k.same_as(key),
        None => false,
    }
}

/// Whether `key` is one of `set`.
pub fn contains_key(set: &Vec<Pubkey>, key: &Pubkey) -> (r: bool)
    ensures
        r == set@.contains(*key),
{
    let mut i: usize = 0;
    while i < set.len()
        invariant
            i <= set@.len(),
            forall|j: int| 0 <= j < i ==> set@[j] != *key,
        decreases set.len() - i,
    {
        if set[i].same_as(key) {
            return true;
        }
        i = i + 1;
    }
    false
}

} // verus!
