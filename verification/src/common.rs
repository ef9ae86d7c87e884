//! Plain-value model of the Solana objects that the game's programs read and
//! hand to other programs: account addresses, PDA signer seeds, token-program
//! requests and raw instructions.
use vstd::prelude::*;

verus! {

/// A 32-byte account address.
#[derive(Clone, Copy, Debug, PartialEq, Eq)]
pub struct Pubkey {
    pub bytes: [u8; 32],
}

impl Pubkey {
    pub fn new_from_array(bytes: [u8; 32]) -> (k: Pubkey)
        ensures
            k.bytes == bytes,
    {
        Pubkey { bytes }
    }

    /// The all-zero address (what `Pubkey::default()` gives).
    pub open spec fn is_default(self) -> bool {
        forall|i: int| 0 <= i < 32 ==> self.bytes@[i] == 0u8
    }

    pub fn default_key() -> (k: Pubkey)
        ensures
            k.is_default(),
    {
        let bytes: [u8; 32] = [0u8; 32];
        Pubkey { bytes }
    }

    /// Byte-wise comparison of two addresses.
    pub fn key_eq(&self, other: &Pubkey) -> (r: bool)
        ensures
            r == (*self == *other),
    {
        let mut i: usize = 0;
        while i < 32
            invariant
                0 <= i <= 32,
                forall|j: int| 0 <= j < i ==> self.bytes@[j] == other.bytes@[j],
            decreases 32 - i,
        {
            if self.bytes[i] != other.bytes[i] {
                return false;
            }
            i = i + 1;
        }
        proof {
            broadcast use vstd::array::group_array_axioms;

            assert(self.bytes@ =~= other.bytes@);
            assert(self.bytes == other.bytes);
        }
        true
    }

    /// Whether this is the all-zero address.
    pub fn is_default_key(&self) -> (r: bool)
        ensures
            r == self.is_default(),
    {
        let mut i: usize = 0;
        while i < 32
            invariant
                0 <= i <= 32,
                forall|j: int| 0 <= j < i ==> self.bytes@[j] == 0u8,
            decreases 32 - i,
        {
            if self.bytes[i] != 0 {
                return false;
            }
            i = i + 1;
        }
        true
    }
}

/// The program-derived addresses the game's programs sign for, each named
/// by its fixed seed.
#[derive(Clone, Copy, Debug, PartialEq, Eq)]
pub enum AuthoritySeed {
    CraftingAuthority,
    ItemAuthority,
    MintAuthority,
    MarketplaceAuthority,
    ResourceAuthority,
    SearchAuthority,
}

impl AuthoritySeed {
    pub open spec fn spec_seed(self) -> Seq<char> {
        match self {
            AuthoritySeed::CraftingAuthority => "crafting_authority"@,
            AuthoritySeed::ItemAuthority => "item_authority"@,
            AuthoritySeed::MintAuthority => "mint_authority"@,
            AuthoritySeed::MarketplaceAuthority => "marketplace_authority"@,
            AuthoritySeed::ResourceAuthority => "resource_authority"@,
            AuthoritySeed::SearchAuthority => "search_authority"@,
        }
    }

    /// The seed string of this authority's address.
    pub fn seed(&self) -> (r: &'static str)
        ensures
            r@ == self.spec_seed(),
    {
        match self {
            AuthoritySeed::CraftingAuthority => "crafting_authority",
            AuthoritySeed::ItemAuthority => "item_authority",
            AuthoritySeed::MintAuthority => "mint_authority",
            AuthoritySeed::MarketplaceAuthority => "marketplace_authority",
            AuthoritySeed::ResourceAuthority => "resource_authority",
            AuthoritySeed::SearchAuthority => "search_authority",
        }
    }
}

/// Signer seeds `[seed, [bump]]` with which a program signs for one of its
/// authority addresses.
#[derive(Clone, Copy, Debug, PartialEq, Eq)]
pub struct SignerSeeds {
    pub authority: AuthoritySeed,
    pub bump: u8,
}

/// A `mint_to` request to a token program.
#[derive(Clone, Copy, Debug, PartialEq, Eq)]
pub struct MintTo {
    pub token_program: Pubkey,
    pub mint: Pubkey,
    pub to: Pubkey,
    pub authority: Pubkey,
    pub amount: u64,
    pub signer: Option<SignerSeeds>,
}

/// A `burn` request to a token program.
#[derive(Clone, Copy, Debug, PartialEq, Eq)]
pub struct Burn {
    pub token_program: Pubkey,
    pub mint: Pubkey,
    pub from: Pubkey,
    pub authority: Pubkey,
    pub amount: u64,
    pub signer: Option<SignerSeeds>,
}

/// A `transfer` request to the SPL token program.
#[derive(Clone, Copy, Debug, PartialEq, Eq)]
pub struct Transfer {
    pub token_program: Pubkey,
    pub from: Pubkey,
    pub to: Pubkey,
    pub authority: Pubkey,
    pub amount: u64,
    pub signer: Option<SignerSeeds>,
}

/// A decoded token account: its address, mint, owner and amount.
#[derive(Clone, Copy, Debug, PartialEq, Eq)]
pub struct TokenAccount {
    pub key: Pubkey,
    pub mint: Pubkey,
    pub owner: Pubkey,
    pub amount: u64,
}

/// A program account that an instruction creates or closes: its address,
/// and its decoded state if the account exists.
#[derive(Clone, Copy, Debug, PartialEq, Eq)]
pub struct StateAccount<T> {
    pub key: Pubkey,
    pub state: Option<T>,
}

/// Closing a program account: all its lamports go to `destination` and its
/// data is cleared.
#[derive(Clone, Copy, Debug, PartialEq, Eq)]
pub struct CloseAccount {
    pub account: Pubkey,
    pub destination: Pubkey,
}

/// Creating the associated token account of `authority` for `mint`, under
/// `token_program`, if it does not exist yet (the associated-token
/// program's idempotent create), funded by `payer`. `associated_token` is
/// the account's address.
#[derive(Clone, Copy, Debug, PartialEq, Eq)]
pub struct CreateAssociatedTokenAccount {
    pub associated_token_program: Pubkey,
    pub payer: Pubkey,
    pub associated_token: Pubkey,
    pub authority: Pubkey,
    pub mint: Pubkey,
    pub system_program: Pubkey,
    pub token_program: Pubkey,
}

/// Creating a mint account: funded by `payer`, owned by `token_program`,
/// initialized with `decimals`, `mint_authority` and `freeze_authority`;
/// for a Token-2022 mint with the metadata-pointer extension,
/// `metadata_pointer` names the pointer's authority and the metadata
/// address.
#[derive(Clone, Copy, Debug, PartialEq, Eq)]
pub struct CreateMint {
    pub mint: Pubkey,
    pub payer: Pubkey,
    pub token_program: Pubkey,
    pub decimals: u8,
    pub mint_authority: Pubkey,
    pub freeze_authority: Option<Pubkey>,
    pub metadata_pointer: Option<(Pubkey, Pubkey)>,
}

/// An account reference of a raw instruction.
#[derive(Clone, Copy, Debug, PartialEq, Eq)]
pub struct AccountMeta {
    pub pubkey: Pubkey,
    pub is_signer: bool,
    pub is_writable: bool,
}

/// A raw instruction for another program.
#[derive(Clone, Debug)]
pub struct Instruction {
    pub program_id: Pubkey,
    pub accounts: Vec<AccountMeta>,
    pub data: Vec<u8>,
}

/// What an instruction handler is given: its named accounts (with the
/// decoded state of the accounts it reads or writes) and the extra accounts
/// passed after them.
#[derive(Clone, Debug)]
pub struct Context<T> {
    pub accounts: T,
    pub remaining_accounts: Vec<Pubkey>,
}

/// The clock sysvar's fields that the game reads.
#[derive(Clone, Copy, Debug, PartialEq, Eq)]
pub struct Clock {
    pub slot: u64,
    pub unix_timestamp: i64,
}

} // verus!
