use vstd::prelude::*;

verus! {

broadcast use vstd::array::group_array_axioms;

/// A 32-byte account address, compared byte for byte.
#[derive(Clone, Copy, Debug)]
pub struct Pubkey {
    pub bytes: [u8; 32],
}

impl Pubkey {
    pub fn new(bytes: [u8; 32]) -> (r: Pubkey)
        ensures
            r.bytes == bytes,
    {
        Pubkey { bytes }
    }
}

impl PartialEq for Pubkey {
    fn eq(&self, o: &Pubkey) -> (r: bool) {
        let mut i: usize = 0;
        while i < 32
            invariant
                0 <= i <= 32,
                forall|j: int| 0 <= j < i ==> self.bytes[j] == o.bytes[j],
            decreases 32 - i,
        {
            if self.bytes[i] != o.bytes[i] {
                return false;
            }
            i = i + 1;
        }
        assert(self.bytes =~= o.bytes);
        true
    }
}

impl vstd::std_specs::cmp::PartialEqSpecImpl for Pubkey {
    open spec fn obeys_eq_spec() -> bool {
        true
    }

    open spec fn eq_spec(&self, o: &Pubkey) -> bool {
        self.bytes == o.bytes
    }
}

impl Eq for Pubkey {
}

} // verus!
