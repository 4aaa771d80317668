use vstd::prelude::*;

verus! {

/// A 32-byte value that names a principal or a storage address.
///
/// The library never looks inside an identity: it compares two of them for
/// equality and feeds their bytes into address derivation.
#[derive(Clone, Copy, Debug)]
pub struct Pubkey {
    pub bytes: [u8; 32],
}

impl View for Pubkey {
    type V = Seq<u8>;

    open spec fn view(&self) -> Seq<u8> {
        self.bytes@
    }
}

impl PartialEq for Pubkey {
    fn eq(&self, other: &Pubkey) -> (same: bool) {
        bytes32_eq(&self.bytes, &other.bytes)
    }
}

impl Eq for Pubkey {

}

impl vstd::std_specs::cmp::PartialEqSpecImpl for Pubkey {
    open spec fn obeys_eq_spec() -> bool {
        true
    }

    open spec fn eq_spec(&self, other: &Pubkey) -> bool {
        self@ == other@
    }
}

impl Pubkey {
    /// The identity with the given bytes.
    pub fn new_from_array(bytes: [u8; 32]) -> (key: Pubkey)
        ensures
            key@ == bytes@,
    {
        Pubkey { bytes }
    }

    /// The bytes of the identity.
    pub fn to_bytes(&self) -> (bytes: [u8; 32])
        ensures
            bytes@ == self@,
    {
        self.bytes
    }
}

/// Whether two 32-byte arrays hold the same bytes.
pub fn bytes32_eq(a: &[u8; 32], b: &[u8; 32]) -> (same: bool)
    ensures
        same == (a@ == b@),
{
    let mut i: usize = 0;
    while i < 32
        invariant
            i <= 32,
            forall|j: int| 0 <= j < i ==> a@[j] == b@[j],
        decreases 32 - i,
    {
        if a[i] != b[i] {
            return false;
        }
        i += 1;
    }
    assert(a@ =~= b@);
    true
}

} // verus!
