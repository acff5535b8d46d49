use vstd::prelude::*;
use vstd::std_specs::cmp::PartialEqSpecImpl;

verus! {

/// Number of bytes in an account address.
pub const KEY_LEN: usize = 32;

/// The address of an account: thirty-two raw bytes.
#[derive(Clone, Copy, Debug)]
pub struct Pubkey {
    pub bytes: [u8; KEY_LEN],
}

impl View for Pubkey {
    type V = Seq<u8>;

    open spec fn view(&self) -> Seq<u8> {
        self.bytes@
    }
}

/// The all-zero byte string of an address's length.
pub open spec fn zero_key_bytes() -> Seq<u8> {
    Seq::new(KEY_LEN as nat, |i: int| 0u8)
}

impl Pubkey {
    /// The address made of the given bytes.
    pub fn new(bytes: [u8; KEY_LEN]) -> (k: Pubkey)
        ensures
            k.bytes == bytes,
    {
        Pubkey { bytes }
    }

    /// The all-zero address, which stands in unused registry slots.
    pub fn zeroed() -> (k: Pubkey)
        ensures
            k@ == zero_key_bytes(),
    {
        let k = Pubkey { bytes: [0u8; KEY_LEN] };
        assert(k@ =~= zero_key_bytes());
        k
    }

    /// The raw bytes of the address.
    pub fn to_bytes(&self) -> (b: [u8; KEY_LEN])
        ensures
            b == self.bytes,
    {
        self.bytes
    }

    /// Whether two addresses are the same, byte for byte.
    pub fn equals(&self, other: &Pubkey) -> (r: bool)
        ensures
            r == (*self == *other),
            r == (self@ == other@),
    {
        let mut i: usize = 0;
        while i < KEY_LEN
            invariant
                0 <= i <= KEY_LEN,
                self@.len() == KEY_LEN,
                other@.len() == KEY_LEN,
                forall|j: int| 0 <= j < i ==> self@[j] == other@[j],
            decreases KEY_LEN - i,
        {
            if self.bytes[i] != other.bytes[i] {
                assert(self@[i as int] != other@[i as int]);
                return false;
            }
            i = i + 1;
        }
        assert(self.bytes =~= other.bytes);
        assert(self@ =~= other@);
        true
    }
}

impl PartialEq for Pubkey {
    fn eq(&self, other: &Pubkey) -> (r: bool) {
        self.equals(other)
    }
}

impl Eq for Pubkey {
}

impl PartialEqSpecImpl for Pubkey {
    open spec fn obeys_eq_spec() -> bool {
        true
    }

    open spec fn eq_spec(&self, other: &Pubkey) -> bool {
        *self == *other
    }
}

} // verus!
