use vstd::prelude::*;
use vstd::bytes::{spec_u64_to_le_bytes, u64_to_le_bytes};

use crate::key::Pubkey;

verus! {

/// The seed prefix of collection addresses: the ASCII bytes of `collection`.
pub open spec fn collection_seed_prefix() -> Seq<u8> {
    seq![0x63u8, 0x6f, 0x6c, 0x6c, 0x65, 0x63, 0x74, 0x69, 0x6f, 0x6e]
}

/// The seed prefix of distribution addresses: the ASCII bytes of `distribution`.
pub open spec fn distribution_seed_prefix() -> Seq<u8> {
    seq![0x64u8, 0x69, 0x73, 0x74, 0x72, 0x69, 0x62, 0x75, 0x74, 0x69, 0x6f, 0x6e]
}

/// Who authorises a token call.
#[derive(Clone, Copy, Debug, PartialEq, Eq)]
pub enum Signer {
    /// The wallet that signed the transaction.
    Wallet,
    /// The collection's program-derived address, from its authority, mint, counter and bump.
    Collection { authority: Pubkey, mint: Pubkey, counter: u64, bump: u8 },
    /// A distribution's program-derived address, from its collection, mint and bump.
    Distribution { collection: Pubkey, mint: Pubkey, bump: u8 },
}

impl Signer {
    /// The seeds with which the program signs for its derived address
    /// (none when the transaction's own signer authorises the call).
    pub open spec fn spec_seeds(self) -> Seq<Seq<u8>> {
        match self {
            Signer::Wallet => seq![],
            Signer::Collection { authority, mint, counter, bump } => seq![
                collection_seed_prefix(),
                authority@,
                mint@,
                spec_u64_to_le_bytes(counter),
                seq![bump],
            ],
            Signer::Distribution { collection, mint, bump } => seq![
                distribution_seed_prefix(),
                collection@,
                mint@,
                seq![bump],
            ],
        }
    }

    /// Builds the signer seeds.
    pub fn seeds(&self) -> (r: Vec<Vec<u8>>)
        ensures
            r@.map_values(|v: Vec<u8>| v@) == self.spec_seeds(),
    {
        let mut r: Vec<Vec<u8>> = Vec::new();
        match self {
            Signer::Wallet => {},
            Signer::Collection { authority, mint, counter, bump } => {
                let prefix = vec![0x63u8, 0x6f, 0x6c, 0x6c, 0x65, 0x63, 0x74, 0x69, 0x6f, 0x6e];
                assert(prefix@ =~= collection_seed_prefix());
                r.push(prefix);
                r.push(key_bytes(authority));
                r.push(key_bytes(mint));
                r.push(u64_to_le_bytes(*counter));
                let last = vec![*bump];
                assert(last@ =~= seq![*bump]);
                r.push(last);
            },
            Signer::Distribution { collection, mint, bump } => {
                let prefix = vec![0x64u8, 0x69, 0x73, 0x74, 0x72, 0x69, 0x62, 0x75, 0x74, 0x69, 0x6f, 0x6e];
                assert(prefix@ =~= distribution_seed_prefix());
                r.push(prefix);
                r.push(key_bytes(collection));
                r.push(key_bytes(mint));
                let last = vec![*bump];
                assert(last@ =~= seq![*bump]);
                r.push(last);
            },
        }
        assert(r@.map_values(|v: Vec<u8>| v@) =~= self.spec_seeds());
        r
    }
}

/// The bytes of an address, as a vector.
fn key_bytes(k: &Pubkey) -> (r: Vec<u8>)
    ensures
        r@ == k@,
{
    let mut r: Vec<u8> = Vec::new();
    let mut i: usize = 0;
    while i < crate::key::KEY_LEN
        invariant
            0 <= i <= crate::key::KEY_LEN,
            k@.len() == crate::key::KEY_LEN,
            r@ == k@.take(i as int),
        decreases crate::key::KEY_LEN - i,
    {
        r.push(k.bytes[i]);
        i = i + 1;
        assert(r@ =~= k@.take(i as int));
    }
    assert(k@.take(crate::key::KEY_LEN as int) =~= k@);
    r
}

/// An instruction to the token program.
#[derive(Clone, Copy, Debug, PartialEq, Eq)]
pub enum TokenInstruction {
    /// Hand the authority to mint `mint` from `current_authority` to `new_authority`.
    SetMintAuthority { mint: Pubkey, current_authority: Pubkey, new_authority: Pubkey },
    /// Move `amount` tokens from `from` to `to`, authorised by `authority`.
    Transfer { from: Pubkey, to: Pubkey, authority: Pubkey, amount: u64 },
    /// Destroy `amount` tokens of `mint` held in `from`, authorised by `authority`.
    Burn { mint: Pubkey, from: Pubkey, authority: Pubkey, amount: u64 },
    /// Create `amount` tokens of `mint` into `to`, authorised by `authority`.
    MintTo { mint: Pubkey, to: Pubkey, authority: Pubkey, amount: u64 },
}

/// A call into the token program, with who signs it.
#[derive(Clone, Copy, Debug, PartialEq, Eq)]
pub struct TokenCall {
    pub instruction: TokenInstruction,
    pub signer: Signer,
}

} // verus!
