use vstd::prelude::*;

verus! {

/// Length in bytes of an identity.
pub const KEY_LEN: usize = 32;

/// An account identity: 32 raw bytes, as a ledger address is written.
#[derive(Clone, Copy, Debug)]
pub struct Pubkey {
    pub bytes: [u8; 32],
}

/// The all-zero identity, which no party signs as; it marks an unset field.
pub open spec fn unset_key() -> Seq<u8> {
    Seq::new(32, |i: int| 0u8)
}

impl View for Pubkey {
    type V = Seq<u8>;

    open spec fn view(&self) -> Seq<u8> {
        self.bytes@
    }
}

impl Pubkey {
    /// Builds an identity from its bytes.
    pub fn new_from_array(bytes: [u8; 32]) -> (r: Pubkey)
        ensures
            r.bytes == bytes,
            r@ == bytes@,
    {
        Pubkey { bytes }
    }

    /// The sentinel identity: all bytes zero.
    pub fn unset() -> (r: Pubkey)
        ensures
            r@ == unset_key(),
    {
        let r = Pubkey { bytes: [0u8; 32] };
        assert(r@ =~= unset_key());
        r
    }

    /// Copies out the bytes of the identity.
    pub fn to_bytes(&self) -> (r: [u8; 32])
        ensures
            r == self.bytes,
    {
        self.bytes
    }

    /// Whether this identity is the unset sentinel.
    pub fn is_unset(&self) -> (r: bool)
        ensures
            r == (self@ == unset_key()),
    {
        let mut i: usize = 0;
        while i < KEY_LEN
            invariant
                i <= KEY_LEN,
                self@.len() == KEY_LEN,
                forall|j: int| 0 <= j < i ==> self@[j] == 0u8,
            decreases KEY_LEN - i,
        {
            if self.bytes[i] != 0u8 {
                assert(self@[i as int] != unset_key()[i as int]);
                return false;
            }
            i = i + 1;
        }
        assert(self@ =~= unset_key());
        true
    }
}

impl PartialEq for Pubkey {
    fn eq(&self, other: &Pubkey) -> (r: bool) {
        let mut i: usize = 0;
        while i < KEY_LEN
            invariant
                i <= KEY_LEN,
                self@.len() == KEY_LEN,
                other@.len() == KEY_LEN,
                forall|j: int| 0 <= j < i ==> self@[j] == other@[j],
            decreases KEY_LEN - i,
        {
            if self.bytes[i] != other.bytes[i] {
                assert(self@[i as int] != other@[i as int]);
                return false;
            }
            i = i + 1;
        }
        assert(self@ =~= other@);
        assert(self.bytes == other.bytes);
        true
    }
}

impl vstd::std_specs::cmp::PartialEqSpecImpl for Pubkey {
    open spec fn obeys_eq_spec() -> bool {
        true
    }

    open spec fn eq_spec(&self, other: &Pubkey) -> bool {
        self@ == other@
    }
}

impl Eq for Pubkey {}

} // verus!
