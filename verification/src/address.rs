use vstd::prelude::*;

verus! {

/// A 32-byte account address (an ed25519 public key or a program-derived
/// address), held as plain bytes.
#[derive(Clone, Copy, Debug)]
pub struct Address {
    pub bytes: [u8; 32],
}

impl Address {
    /// Every byte is zero: the value an address field holds before it is set.
    pub open spec fn is_zero(self) -> bool {
        forall|i: int| 0 <= i < 32 ==> #[trigger] self.bytes@[i] == 0u8
    }

    /// The all-zero address.
    pub fn zero() -> (r: Address)
        ensures
            r.is_zero(),
    {
        Address { bytes: [0u8; 32] }
    }

    /// The address with the given bytes.
    pub fn new_from_array(bytes: [u8; 32]) -> (r: Address)
        ensures
            r.bytes == bytes,
    {
        Address { bytes }
    }

    /// The bytes of the address.
    pub fn to_bytes(&self) -> (r: [u8; 32])
        ensures
            r == self.bytes,
    {
        self.bytes
    }
}

/// Two addresses with the same bytes are the same address.
pub proof fn lemma_same_bytes_same_address(a: Address, b: Address)
    requires
        a.bytes@ == b.bytes@,
    ensures
        a == b,
{
    assert(a.bytes =~= b.bytes);
}

impl PartialEq for Address {
    fn eq(&self, other: &Address) -> (r: bool) {
        let mut i: usize = 0;
        while i < 32
            invariant
                0 <= i <= 32,
                forall|j: int| 0 <= j < i ==> self.bytes@[j] == other.bytes@[j],
            decreases 32 - i,
        {
            if self.bytes[i] != other.bytes[i] {
                return false;
            }
            i = i + 1;
        }
        proof {
            assert(self.bytes@ =~= other.bytes@);
            lemma_same_bytes_same_address(*self, *other);
        }
        true
    }
}

impl vstd::std_specs::cmp::PartialEqSpecImpl for Address {
    open spec fn obeys_eq_spec() -> bool {
        true
    }

    open spec fn eq_spec(&self, other: &Address) -> bool {
        *self == *other
    }
}

} // verus!
