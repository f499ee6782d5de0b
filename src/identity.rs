use vstd::prelude::*;

verus! {

/// Width in bytes of an account address or signing key.
pub const IDENTITY_LEN: usize = 32;

/// An account address or signing identity, as its raw bytes.
#[derive(Clone, Copy, Debug)]
pub struct Identity {
    pub bytes: [u8; 32],
}

/// Every byte of `id` is zero.
pub open spec fn is_zero_identity(id: Identity) -> bool {
    forall|i: int| 0 <= i < 32 ==> id.bytes@[i] == 0u8
}

/// The all-zero identity, used where an address is required but unused.
pub open spec fn zero_identity() -> Identity {
    choose|id: Identity| is_zero_identity(id)
}

impl Identity {
    pub fn zero() -> (r: Identity)
        ensures
            r == zero_identity(),
    {
        let r = Identity { bytes: [0u8; 32] };
        proof {
            assert(is_zero_identity(r));
            let z = zero_identity();
            assert(r.bytes@ =~= z.bytes@);
            vstd::array::axiom_array_ext_equal(r.bytes, z.bytes);
        }
        r
    }

    pub fn new(bytes: [u8; 32]) -> (r: Identity)
        ensures
            r.bytes == bytes,
    {
        Identity { bytes }
    }

    /// Whether the two identities hold the same bytes.
    pub fn same_as(&self, other: &Identity) -> (r: bool)
        ensures
            r == (*self == *other),
    {
        let mut i: usize = 0;
        while i < IDENTITY_LEN
            invariant
                i <= IDENTITY_LEN,
                forall|j: int| 0 <= j < i ==> self.bytes@[j] == other.bytes@[j],
            decreases IDENTITY_LEN - i,
        {
            if self.bytes[i] != other.bytes[i] {
                return false;
            }
            i = i + 1;
        }
        proof {
            assert(self.bytes@ =~= other.bytes@);
            vstd::array::axiom_array_ext_equal(self.bytes, other.bytes);
        }
        true
    }
}

impl PartialEq for Identity {
    fn eq(&self, other: &Identity) -> (r: bool) {
        self.same_as(other)
    }
}

impl Eq for Identity {
}

impl vstd::std_specs::cmp::PartialEqSpecImpl for Identity {
    open spec fn obeys_eq_spec() -> bool {
        true
    }

    open spec fn eq_spec(&self, other: &Identity) -> bool {
        *self == *other
    }
}

/// Whether `who` occurs in `list`.
pub fn list_holds(list: &Vec<Identity>, who: &Identity) -> (r: bool)
    ensures
        r == list@.contains(*who),
{
    let mut i: usize = 0;
    while i < list.len()
        invariant
            i <= list.len(),
            forall|j: int| 0 <= j < i ==> list@[j] != *who,
        decreases list.len() - i,
    {
        if list[i].same_as(who) {
            return true;
        }
        i = i + 1;
    }
    false
}

} // verus!
