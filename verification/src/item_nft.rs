//! The item NFT program: the four craftable item types, the program's
//! configuration, and the rules for minting an item (on the crafting
//! program's behalf) and burning one (on the marketplace's behalf).
use vstd::prelude::*;
use crate::common::{
    AuthoritySeed, CloseAccount, Context, CreateAssociatedTokenAccount, CreateMint, Pubkey, SignerSeeds, StateAccount,
    TokenAccount,
};

verus! {

/// Item types that can be crafted in the game, numbered 0 to 3.
#[derive(Clone, Copy, PartialEq, Eq, Debug)]
pub enum ItemType {
    /// Kozak sable: 3 Iron, 1 Wood, 1 Leather.
    KozakSable,
    /// Elder stick: 2 Wood, 1 Gold, 1 Diamond.
    ElderStick,
    /// Kharakternyk armour: 4 Leather, 2 Iron, 1 Gold.
    Armour,
    /// Battle brace: 4 Iron, 2 Gold, 2 Diamond.
    Brace,
}

/// The item type numbered `v`, if there is one.
pub open spec fn item_type_of(v: u8) -> Option<ItemType> {
    match v {
        0 => Some(ItemType::KozakSable),
        1 => Some(ItemType::ElderStick),
        2 => Some(ItemType::Armour),
        3 => Some(ItemType::Brace),
        _ => None,
    }
}

impl ItemType {
    /// The number of this item type.
    pub open spec fn code(self) -> u8 {
        match self {
            ItemType::KozakSable => 0,
            ItemType::ElderStick => 1,
            ItemType::Armour => 2,
            ItemType::Brace => 3,
        }
    }

    pub open spec fn spec_name(self) -> Seq<char> {
        match self {
            ItemType::KozakSable => "Kozak Sable"@,
            ItemType::ElderStick => "Elder Stick"@,
            ItemType::Armour => "Armour"@,
            ItemType::Brace => "Brace"@,
        }
    }

    pub open spec fn spec_symbol(self) -> Seq<char> {
        match self {
            ItemType::KozakSable => "SABLE"@,
            ItemType::ElderStick => "STICK"@,
            ItemType::Armour => "ARMR"@,
            ItemType::Brace => "BRACE"@,
        }
    }

    pub open spec fn spec_uri(self) -> Seq<char> {
        match self {
            ItemType::KozakSable => "https://arweave.net/kozak-sable"@,
            ItemType::ElderStick => "https://arweave.net/elder-stick"@,
            ItemType::Armour => "https://arweave.net/armour"@,
            ItemType::Brace => "https://arweave.net/brace"@,
        }
    }

    pub fn from_u8(v: u8) -> (r: Option<Self>)
        ensures
            r == item_type_of(v),
    {
        match v {
            0 => Some(ItemType::KozakSable),
            1 => Some(ItemType::ElderStick),
            2 => Some(ItemType::Armour),
            3 => Some(ItemType::Brace),
            _ => None,
        }
    }

    pub fn name(&self) -> (r: &'static str)
        ensures
            r@ == self.spec_name(),
    {
        match self {
            ItemType::KozakSable => "Kozak Sable",
            ItemType::ElderStick => "Elder Stick",
            ItemType::Armour => "Armour",
            ItemType::Brace => "Brace",
        }
    }

    pub fn symbol(&self) -> (r: &'static str)
        ensures
            r@ == self.spec_symbol(),
    {
        match self {
            ItemType::KozakSable => "SABLE",
            ItemType::ElderStick => "STICK",
            ItemType::Armour => "ARMR",
            ItemType::Brace => "BRACE",
        }
    }

    pub fn uri(&self) -> (r: &'static str)
        ensures
            r@ == self.spec_uri(),
    {
        match self {
            ItemType::KozakSable => "https://arweave.net/kozak-sable",
            ItemType::ElderStick => "https://arweave.net/elder-stick",
            ItemType::Armour => "https://arweave.net/armour",
            ItemType::Brace => "https://arweave.net/brace",
        }
    }
}

/// Every number from 0 to 3 names exactly one item type, and that type's
/// number is the number it was read from; no other number names one.
pub proof fn lemma_item_type_codes(v: u8)
    ensures
        item_type_of(v) is Some <==> v < 4,
        item_type_of(v) matches Some(t) ==> t.code() == v,
{
}

/// Every item type is read back from its own number.
pub proof fn lemma_item_type_code_round_trip(t: ItemType)
    ensures
        item_type_of(t.code()) == Some(t),
{
}

/// Global configuration for the item NFT program.
#[derive(Clone, Copy, PartialEq, Eq, Debug)]
pub struct ItemConfig {
    pub admin: Pubkey,
    /// Authority address of the crafting program, allowed to mint items.
    pub crafting_program_authority: Pubkey,
    /// Authority address of the marketplace program, allowed to burn items.
    pub marketplace_program_authority: Pubkey,
    pub bump: u8,
    pub item_authority_bump: u8,
}

impl ItemConfig {
    pub const SIZE: usize = 8 + 32 + 32 + 32 + 1 + 1;
}

/// Per-item record kept at the address derived from `["item_metadata", mint]`.
#[derive(Clone, Copy, PartialEq, Eq, Debug)]
pub struct ItemMetadata {
    /// The item type's number.
    pub item_type: u8,
    pub owner: Pubkey,
    pub mint: Pubkey,
    pub bump: u8,
}

impl ItemMetadata {
    pub const SIZE: usize = 8 + 1 + 32 + 32 + 1;
}

#[derive(Clone, Copy, PartialEq, Eq, Debug)]
pub enum ItemNftError {
    /// Caller is not an authorized program authority.
    Unauthorized,
    /// Invalid item type: must be 0 to 3.
    InvalidItemType,
    /// The signer is not the configuration's admin (account validation:
    /// `has_one = admin`).
    ConstraintHasOne,
    /// The account to create exists already (account validation: `init`).
    AccountAlreadyInitialized,
    /// The account to read does not exist (account validation).
    AccountNotInitialized,
    /// The holder's token account is not the holder's (account validation:
    /// `associated_token::authority`).
    ConstraintTokenOwner,
    /// The holder's token account is not an account of the item's mint
    /// (account validation: `associated_token::mint`; the check made here is
    /// on the account's mint, its address is the caller's to check).
    ConstraintAssociated,
}

/// Accounts of `initialize`, with the bumps found for the new addresses.
#[derive(Clone, Copy, PartialEq, Eq, Debug)]
pub struct Initialize {
    pub admin: Pubkey,
    /// The configuration account to create.
    pub config: StateAccount<ItemConfig>,
    pub item_authority: Pubkey,
    pub system_program: Pubkey,
    pub config_bump: u8,
    pub item_authority_bump: u8,
}

/// Accounts of `set_authorities`.
#[derive(Clone, Copy, PartialEq, Eq, Debug)]
pub struct SetAuthorities {
    pub admin: Pubkey,
    pub config: ItemConfig,
}

/// Accounts of `mint_item`.
#[derive(Clone, Copy, PartialEq, Eq, Debug)]
pub struct MintItem {
    /// The crafting program's authority address (a signer).
    pub caller_authority: Pubkey,
    pub config: ItemConfig,
    /// The address that is mint and update authority of every item.
    pub item_authority: Pubkey,
    /// The new item's mint.
    pub mint: Pubkey,
    /// Whether an account exists at `mint` already.
    pub mint_exists: bool,
    pub metadata: Pubkey,
    pub master_edition: Pubkey,
    pub player: Pubkey,
    pub player_ata: Pubkey,
    /// The per-item record to create.
    pub item_metadata: StateAccount<ItemMetadata>,
    pub item_metadata_bump: u8,
    pub fee_payer: Pubkey,
    pub token_program: Pubkey,
    pub associated_token_program: Pubkey,
    pub system_program: Pubkey,
    pub sysvar_instructions: Pubkey,
    pub token_metadata_program: Pubkey,
}

/// Accounts of `burn_item`.
#[derive(Clone, Copy, PartialEq, Eq, Debug)]
pub struct BurnItem {
    /// The marketplace program's authority address (a signer).
    pub caller_authority: Pubkey,
    pub config: ItemConfig,
    pub item_authority: Pubkey,
    pub holder: Pubkey,
    pub mint: Pubkey,
    pub metadata: Pubkey,
    pub master_edition: Pubkey,
    /// The holder's token account of the item.
    pub holder_ata: TokenAccount,
    /// The per-item record, closed to the holder.
    pub item_metadata: StateAccount<ItemMetadata>,
    pub token_program: Pubkey,
    pub system_program: Pubkey,
    pub sysvar_instructions: Pubkey,
    pub token_metadata_program: Pubkey,
}

/// What `burn_item` does: burn the item's token, then close the item's
/// record to the holder.
#[derive(Clone, Copy, PartialEq, Eq, Debug)]
pub struct BurnItemCpis {
    pub burn: BurnV1,
    pub close: CloseAccount,
}

/// Token standards of the token-metadata program.
#[derive(Clone, Copy, PartialEq, Eq, Debug)]
pub enum TokenStandard {
    NonFungible,
    FungibleAsset,
    Fungible,
    NonFungibleEdition,
    ProgrammableNonFungible,
    ProgrammableNonFungibleEdition,
}

/// Print supply of a master edition.
#[derive(Clone, Copy, PartialEq, Eq, Debug)]
pub enum PrintSupply {
    Zero,
    Limited(u64),
    Unlimited,
}

/// A token-metadata `CreateV1` call: creates the metadata and master edition
/// of an item's mint.
#[derive(Clone, Copy, Debug)]
pub struct CreateV1 {
    /// The token-metadata program.
    pub program: Pubkey,
    pub metadata: Pubkey,
    pub master_edition: Pubkey,
    pub mint: Pubkey,
    pub mint_is_signer: bool,
    pub authority: Pubkey,
    pub payer: Pubkey,
    pub update_authority: Pubkey,
    pub update_authority_is_signer: bool,
    pub system_program: Pubkey,
    pub sysvar_instructions: Pubkey,
    pub spl_token_program: Pubkey,
    pub name: &'static str,
    pub symbol: &'static str,
    pub uri: &'static str,
    pub seller_fee_basis_points: u16,
    pub is_mutable: bool,
    pub token_standard: TokenStandard,
    pub print_supply: PrintSupply,
    pub signer: SignerSeeds,
}

/// A token-metadata `MintV1` call: mints tokens of an item's mint.
#[derive(Clone, Copy, PartialEq, Eq, Debug)]
pub struct MintV1 {
    /// The token-metadata program.
    pub program: Pubkey,
    pub token: Pubkey,
    pub token_owner: Pubkey,
    pub metadata: Pubkey,
    pub master_edition: Pubkey,
    pub mint: Pubkey,
    pub authority: Pubkey,
    pub payer: Pubkey,
    pub system_program: Pubkey,
    pub sysvar_instructions: Pubkey,
    pub spl_token_program: Pubkey,
    pub spl_ata_program: Pubkey,
    pub amount: u64,
    pub signer: SignerSeeds,
}

/// A token-metadata `BurnV1` call: burns tokens of an item's mint.
#[derive(Clone, Copy, PartialEq, Eq, Debug)]
pub struct BurnV1 {
    /// The token-metadata program.
    pub program: Pubkey,
    pub authority: Pubkey,
    pub metadata: Pubkey,
    pub edition: Pubkey,
    pub mint: Pubkey,
    pub token: Pubkey,
    pub system_program: Pubkey,
    pub sysvar_instructions: Pubkey,
    pub spl_token_program: Pubkey,
    pub amount: u64,
    pub signer: SignerSeeds,
}

/// What `mint_item` does: create the item's mint and, where it does not
/// exist yet, the player's token account of it, then the two token-metadata
/// calls that make it an NFT and mint its one token.
#[derive(Clone, Copy, Debug)]
pub struct MintItemCpis {
    pub create_mint: CreateMint,
    pub create_player_ata: CreateAssociatedTokenAccount,
    pub create: CreateV1,
    pub mint: MintV1,
}

/// A cross-program call of `mint_item`: the item program, the named
/// accounts, the item type and the seeds the calling program signs with.
#[derive(Clone, Copy, PartialEq, Eq, Debug)]
pub struct MintItemCpi {
    pub program: Pubkey,
    pub caller_authority: Pubkey,
    pub config: Pubkey,
    pub item_authority: Pubkey,
    pub mint: Pubkey,
    pub metadata: Pubkey,
    pub master_edition: Pubkey,
    pub player: Pubkey,
    pub player_ata: Pubkey,
    pub item_metadata: Pubkey,
    pub fee_payer: Pubkey,
    pub token_program: Pubkey,
    pub associated_token_program: Pubkey,
    pub system_program: Pubkey,
    pub sysvar_instructions: Pubkey,
    pub token_metadata_program: Pubkey,
    pub item_type: u8,
    pub signer: SignerSeeds,
}

/// A cross-program call of `burn_item`.
#[derive(Clone, Copy, PartialEq, Eq, Debug)]
pub struct BurnItemCpi {
    pub program: Pubkey,
    pub caller_authority: Pubkey,
    pub config: Pubkey,
    pub item_authority: Pubkey,
    pub holder: Pubkey,
    pub mint: Pubkey,
    pub metadata: Pubkey,
    pub master_edition: Pubkey,
    pub holder_ata: Pubkey,
    pub item_metadata: Pubkey,
    pub token_program: Pubkey,
    pub system_program: Pubkey,
    pub sysvar_instructions: Pubkey,
    pub token_metadata_program: Pubkey,
    pub signer: SignerSeeds,
}

/// The signer seeds of the item authority address.
pub open spec fn item_authority_signer(config: ItemConfig) -> SignerSeeds {
    SignerSeeds { authority: AuthoritySeed::ItemAuthority, bump: config.item_authority_bump }
}

/// The calls by which `mint_item` creates an item of type `t` for the
/// accounts `a`: a non-fungible, immutable, unprintable NFT with the type's
/// name, symbol and URI and no seller fee, and one token of it for the player.
pub open spec fn is_mint_item_cpis(p: MintItemCpis, a: MintItem, t: ItemType) -> bool {
    let signer = item_authority_signer(a.config);
    &&& p.create_mint == item_mint_creation(a)
    &&& p.create_player_ata == (CreateAssociatedTokenAccount {
        associated_token_program: a.associated_token_program,
        payer: a.fee_payer,
        associated_token: a.player_ata,
        authority: a.player,
        mint: a.mint,
        system_program: a.system_program,
        token_program: a.token_program,
    })
    &&& p.create.program == a.token_metadata_program
    &&& p.create.metadata == a.metadata
    &&& p.create.master_edition == a.master_edition
    &&& p.create.mint == a.mint
    &&& p.create.mint_is_signer
    &&& p.create.authority == a.item_authority
    &&& p.create.payer == a.fee_payer
    &&& p.create.update_authority == a.item_authority
    &&& p.create.update_authority_is_signer
    &&& p.create.system_program == a.system_program
    &&& p.create.sysvar_instructions == a.sysvar_instructions
    &&& p.create.spl_token_program == a.token_program
    &&& p.create.name@ == t.spec_name()
    &&& p.create.symbol@ == t.spec_symbol()
    &&& p.create.uri@ == t.spec_uri()
    &&& p.create.seller_fee_basis_points == 0
    &&& !p.create.is_mutable
    &&& p.create.token_standard == TokenStandard::NonFungible
    &&& p.create.print_supply == PrintSupply::Zero
    &&& p.create.signer == signer
    &&& p.mint == (MintV1 {
        program: a.token_metadata_program,
        token: a.player_ata,
        token_owner: a.player,
        metadata: a.metadata,
        master_edition: a.master_edition,
        mint: a.mint,
        authority: a.item_authority,
        payer: a.fee_payer,
        system_program: a.system_program,
        sysvar_instructions: a.sysvar_instructions,
        spl_token_program: a.token_program,
        spl_ata_program: a.associated_token_program,
        amount: 1,
        signer,
    })
}

/// Why `mint_item` refuses, if it does.
pub open spec fn mint_item_error(a: MintItem, item_type: u8) -> Option<ItemNftError> {
    if a.mint_exists || a.item_metadata.state is Some {
        Some(ItemNftError::AccountAlreadyInitialized)
    } else if a.caller_authority != a.config.crafting_program_authority {
        Some(ItemNftError::Unauthorized)
    } else if item_type_of(item_type) is None {
        Some(ItemNftError::InvalidItemType)
    } else {
        None
    }
}

/// The item's mint that `mint_item` creates: no decimals, the item
/// authority as mint and freeze authority, paid by the fee payer.
pub open spec fn item_mint_creation(a: MintItem) -> CreateMint {
    CreateMint {
        mint: a.mint,
        payer: a.fee_payer,
        token_program: a.token_program,
        decimals: 0,
        mint_authority: a.item_authority,
        freeze_authority: Some(a.item_authority),
        metadata_pointer: None,
    }
}

/// The record that an accepted `mint_item(a, item_type)` writes: the item's
/// type, the player as owner and the new mint.
pub open spec fn minted_record(a: MintItem, item_type: u8) -> ItemMetadata {
    ItemMetadata { item_type, owner: a.player, mint: a.mint, bump: a.item_metadata_bump }
}

/// The state of the record account that `mint_item(a, item_type)` leaves:
/// the new record where the call is accepted, the old state otherwise.
pub open spec fn record_after_mint(a: MintItem, item_type: u8) -> Option<ItemMetadata> {
    if mint_item_error(a, item_type) is Some {
        a.item_metadata.state
    } else {
        Some(minted_record(a, item_type))
    }
}

/// The state of the record account that `burn_item(a)` leaves: none where
/// the call is accepted (the record is closed), the old state otherwise.
pub open spec fn record_after_burn(a: BurnItem) -> Option<ItemMetadata> {
    if burn_item_error(a) is Some {
        a.item_metadata.state
    } else {
        None
    }
}

/// Why `burn_item` refuses, if it does.
pub open spec fn burn_item_error(a: BurnItem) -> Option<ItemNftError> {
    if a.item_metadata.state is None {
        Some(ItemNftError::AccountNotInitialized)
    } else if a.holder_ata.owner != a.holder {
        Some(ItemNftError::ConstraintTokenOwner)
    } else if a.holder_ata.mint != a.mint {
        Some(ItemNftError::ConstraintAssociated)
    } else if a.caller_authority != a.config.marketplace_program_authority {
        Some(ItemNftError::Unauthorized)
    } else {
        None
    }
}

/// The burn call of `burn_item` for the accounts `a`: one token burnt from
/// the holder's account, signed with the item authority's seeds.
pub open spec fn burn_item_cpi(a: BurnItem) -> BurnV1 {
    BurnV1 {
        program: a.token_metadata_program,
        authority: a.holder,
        metadata: a.metadata,
        edition: a.master_edition,
        mint: a.mint,
        token: a.holder_ata.key,
        system_program: a.system_program,
        sysvar_instructions: a.sysvar_instructions,
        spl_token_program: a.token_program,
        amount: 1,
        signer: item_authority_signer(a.config),
    }
}

/// The accounts `mint_item` sees when called by `c` with a fresh mint, the
/// item configuration `config`, the state of the record's account `record`
/// and its bump.
pub open spec fn mint_item_accounts_of(c: MintItemCpi, config: ItemConfig, record: Option<ItemMetadata>, bump: u8) -> MintItem {
    MintItem {
        caller_authority: c.caller_authority,
        config,
        item_authority: c.item_authority,
        mint: c.mint,
        mint_exists: false,
        metadata: c.metadata,
        master_edition: c.master_edition,
        player: c.player,
        player_ata: c.player_ata,
        item_metadata: StateAccount { key: c.item_metadata, state: record },
        item_metadata_bump: bump,
        fee_payer: c.fee_payer,
        token_program: c.token_program,
        associated_token_program: c.associated_token_program,
        system_program: c.system_program,
        sysvar_instructions: c.sysvar_instructions,
        token_metadata_program: c.token_metadata_program,
    }
}

/// The accounts `burn_item` sees when called by `c`, with the item
/// configuration `config`, the state of the record's account `record` and
/// the holder's token account `holder_ata` (the one `c` names).
pub open spec fn burn_item_accounts_of(c: BurnItemCpi, config: ItemConfig, record: Option<ItemMetadata>, holder_ata: TokenAccount) -> BurnItem {
    BurnItem {
        caller_authority: c.caller_authority,
        config,
        item_authority: c.item_authority,
        holder: c.holder,
        mint: c.mint,
        metadata: c.metadata,
        master_edition: c.master_edition,
        holder_ata,
        item_metadata: StateAccount { key: c.item_metadata, state: record },
        token_program: c.token_program,
        system_program: c.system_program,
        sysvar_instructions: c.sysvar_instructions,
        token_metadata_program: c.token_metadata_program,
    }
}

/// Whether `c` is the configuration that `initialize` creates: admin and
/// bumps given, no program authority set.
pub open spec fn is_fresh_item_config(c: ItemConfig, admin: Pubkey, bump: u8, item_authority_bump: u8) -> bool {
    &&& c.admin == admin
    &&& c.bump == bump
    &&& c.item_authority_bump == item_authority_bump
    &&& c.crafting_program_authority.is_default()
    &&& c.marketplace_program_authority.is_default()
}

/// Create the item NFT configuration, with the signer as admin. The
/// configuration can be created once.
pub fn initialize(ctx: &mut Context<Initialize>) -> (r: Result<(), ItemNftError>)
    ensures
        final(ctx).remaining_accounts == old(ctx).remaining_accounts,
        match r {
            Err(e) => {
                &&& e == ItemNftError::AccountAlreadyInitialized
                &&& old(ctx).accounts.config.state is Some
                &&& *final(ctx) == *old(ctx)
            },
            Ok(_) => {
                &&& old(ctx).accounts.config.state is None
                &&& final(ctx).accounts == (Initialize {
                    config: StateAccount { state: final(ctx).accounts.config.state, ..old(ctx).accounts.config },
                    ..old(ctx).accounts
                })
                &&& final(ctx).accounts.config.state matches Some(c) && is_fresh_item_config(
                    c,
                    old(ctx).accounts.admin,
                    old(ctx).accounts.config_bump,
                    old(ctx).accounts.item_authority_bump,
                )
            },
        },
{
    if ctx.accounts.config.state.is_some() {
        return Err(ItemNftError::AccountAlreadyInitialized);
    }
    let zero = Pubkey::default_key();
    ctx.accounts.config.state = Some(ItemConfig {
        admin: ctx.accounts.admin,
        crafting_program_authority: zero,
        marketplace_program_authority: zero,
        bump: ctx.accounts.config_bump,
        item_authority_bump: ctx.accounts.item_authority_bump,
    });
    Ok(())
}

/// Why `set_authorities` refuses, if it does: only the admin may.
pub open spec fn set_authorities_error(a: SetAuthorities) -> Option<ItemNftError> {
    if a.admin != a.config.admin {
        Some(ItemNftError::ConstraintHasOne)
    } else {
        None
    }
}

/// Set the crafting and marketplace program authority addresses; only the
/// admin may.
pub fn set_authorities(
    ctx: &mut Context<SetAuthorities>,
    crafting_authority: Pubkey,
    marketplace_authority: Pubkey,
) -> (r: Result<(), ItemNftError>)
    ensures
        r is Err <==> set_authorities_error(old(ctx).accounts) is Some,
        r matches Err(e) ==> set_authorities_error(old(ctx).accounts) == Some(e) && *final(ctx) == *old(ctx),
        r is Ok ==> {
            &&& final(ctx).remaining_accounts == old(ctx).remaining_accounts
            &&& final(ctx).accounts == (SetAuthorities {
                config: ItemConfig {
                    crafting_program_authority: crafting_authority,
                    marketplace_program_authority: marketplace_authority,
                    ..old(ctx).accounts.config
                },
                ..old(ctx).accounts
            })
        },
{
    if !ctx.accounts.admin.key_eq(&ctx.accounts.config.admin) {
        return Err(ItemNftError::ConstraintHasOne);
    }
    ctx.accounts.config.crafting_program_authority = crafting_authority;
    ctx.accounts.config.marketplace_program_authority = marketplace_authority;
    Ok(())
}

/// Mint a new item NFT to a player; only the crafting program's authority
/// may call it, and the mint and the item's record must not exist yet. On
/// success the item's mint (no decimals, the item authority as mint and
/// freeze authority) and the calls to make are returned, and the item's
/// record names its type, owner and mint.
pub fn mint_item(ctx: &mut Context<MintItem>, item_type: u8) -> (r: Result<MintItemCpis, ItemNftError>)
    ensures
        final(ctx).accounts.item_metadata.state == record_after_mint(old(ctx).accounts, item_type),
        match r {
            Err(e) => {
                &&& mint_item_error(old(ctx).accounts, item_type) == Some(e)
                &&& *final(ctx) == *old(ctx)
            },
            Ok(p) => {
                &&& mint_item_error(old(ctx).accounts, item_type) is None
                &&& is_mint_item_cpis(p, old(ctx).accounts, item_type_of(item_type)->Some_0)
                &&& final(ctx).remaining_accounts == old(ctx).remaining_accounts
                &&& final(ctx).accounts == (MintItem {
                    item_metadata: StateAccount {
                        state: Some(ItemMetadata {
                            item_type,
                            owner: old(ctx).accounts.player,
                            mint: old(ctx).accounts.mint,
                            bump: old(ctx).accounts.item_metadata_bump,
                        }),
                        ..old(ctx).accounts.item_metadata
                    },
                    ..old(ctx).accounts
                })
            },
        },
{
    if ctx.accounts.mint_exists || ctx.accounts.item_metadata.state.is_some() {
        return Err(ItemNftError::AccountAlreadyInitialized);
    }
    if !ctx.accounts.caller_authority.key_eq(&ctx.accounts.config.crafting_program_authority) {
        return Err(ItemNftError::Unauthorized);
    }
    let it = match ItemType::from_u8(item_type) {
        Some(it) => it,
        None => return Err(ItemNftError::InvalidItemType),
    };
    let a = &ctx.accounts;
    let signer = SignerSeeds { authority: AuthoritySeed::ItemAuthority, bump: a.config.item_authority_bump };
    let create = CreateV1 {
        program: a.token_metadata_program,
        metadata: a.metadata,
        master_edition: a.master_edition,
        mint: a.mint,
        mint_is_signer: true,
        authority: a.item_authority,
        payer: a.fee_payer,
        update_authority: a.item_authority,
        update_authority_is_signer: true,
        system_program: a.system_program,
        sysvar_instructions: a.sysvar_instructions,
        spl_token_program: a.token_program,
        name: it.name(),
        symbol: it.symbol(),
        uri: it.uri(),
        seller_fee_basis_points: 0,
        is_mutable: false,
        token_standard: TokenStandard::NonFungible,
        print_supply: PrintSupply::Zero,
        signer,
    };
    let mint = MintV1 {
        program: a.token_metadata_program,
        token: a.player_ata,
        token_owner: a.player,
        metadata: a.metadata,
        master_edition: a.master_edition,
        mint: a.mint,
        authority: a.item_authority,
        payer: a.fee_payer,
        system_program: a.system_program,
        sysvar_instructions: a.sysvar_instructions,
        spl_token_program: a.token_program,
        spl_ata_program: a.associated_token_program,
        amount: 1,
        signer,
    };
    let record = ItemMetadata {
        item_type,
        owner: ctx.accounts.player,
        mint: ctx.accounts.mint,
        bump: ctx.accounts.item_metadata_bump,
    };
    let create_mint = CreateMint {
        mint: ctx.accounts.mint,
        payer: ctx.accounts.fee_payer,
        token_program: ctx.accounts.token_program,
        decimals: 0,
        mint_authority: ctx.accounts.item_authority,
        freeze_authority: Some(ctx.accounts.item_authority),
        metadata_pointer: None,
    };
    let create_player_ata = CreateAssociatedTokenAccount {
        associated_token_program: ctx.accounts.associated_token_program,
        payer: ctx.accounts.fee_payer,
        associated_token: ctx.accounts.player_ata,
        authority: ctx.accounts.player,
        mint: ctx.accounts.mint,
        system_program: ctx.accounts.system_program,
        token_program: ctx.accounts.token_program,
    };
    ctx.accounts.item_metadata.state = Some(record);
    Ok(MintItemCpis { create_mint, create_player_ata, create, mint })
}

/// Burn an item NFT from the holder's own token account; only the
/// marketplace program's authority may call it. The item's record is
/// closed to the holder.
pub fn burn_item(ctx: &mut Context<BurnItem>) -> (r: Result<BurnItemCpis, ItemNftError>)
    ensures
        final(ctx).accounts.item_metadata.state == record_after_burn(old(ctx).accounts),
        match r {
            Err(e) => {
                &&& burn_item_error(old(ctx).accounts) == Some(e)
                &&& *final(ctx) == *old(ctx)
            },
            Ok(p) => {
                &&& burn_item_error(old(ctx).accounts) is None
                &&& p.burn == burn_item_cpi(old(ctx).accounts)
                &&& p.burn.authority == old(ctx).accounts.holder
                &&& p.burn.token == old(ctx).accounts.holder_ata.key
                &&& p.burn.mint == old(ctx).accounts.mint
                &&& p.burn.amount == 1
                &&& p.close == (CloseAccount {
                    account: old(ctx).accounts.item_metadata.key,
                    destination: old(ctx).accounts.holder,
                })
                &&& final(ctx).remaining_accounts == old(ctx).remaining_accounts
                &&& final(ctx).accounts == (BurnItem {
                    item_metadata: StateAccount { state: None, ..old(ctx).accounts.item_metadata },
                    ..old(ctx).accounts
                })
            },
        },
{
    if ctx.accounts.item_metadata.state.is_none() {
        return Err(ItemNftError::AccountNotInitialized);
    }
    let a = &ctx.accounts;
    if !a.holder_ata.owner.key_eq(&a.holder) {
        return Err(ItemNftError::ConstraintTokenOwner);
    }
    if !a.holder_ata.mint.key_eq(&a.mint) {
        return Err(ItemNftError::ConstraintAssociated);
    }
    if !a.caller_authority.key_eq(&a.config.marketplace_program_authority) {
        return Err(ItemNftError::Unauthorized);
    }
    let burn = BurnV1 {
        program: a.token_metadata_program,
        authority: a.holder,
        metadata: a.metadata,
        edition: a.master_edition,
        mint: a.mint,
        token: a.holder_ata.key,
        system_program: a.system_program,
        sysvar_instructions: a.sysvar_instructions,
        spl_token_program: a.token_program,
        amount: 1,
        signer: SignerSeeds { authority: AuthoritySeed::ItemAuthority, bump: a.config.item_authority_bump },
    };
    let close = CloseAccount { account: a.item_metadata.key, destination: a.holder };
    ctx.accounts.item_metadata.state = None;
    Ok(BurnItemCpis { burn, close })
}

} // verus!
