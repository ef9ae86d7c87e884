//! The crafting program: burns a recipe's resources from the player and
//! mints the crafted item NFT, both through calls to the other programs.
use vstd::prelude::*;
use crate::common::{AuthoritySeed, Context, Pubkey, SignerSeeds, StateAccount};
use crate::item_nft::MintItemCpi;
use crate::resource_manager::BurnResourcesCpi;

verus! {

/// The resources required to craft one item type, as parallel lists of
/// resource type numbers and amounts.
struct Recipe {
    types: Vec<u8>,
    amounts: Vec<u64>,
}

/// The resource types of the recipe of item type `t` (empty if `t` names no
/// item type).
pub open spec fn recipe_types(t: u8) -> Seq<u8> {
    match t {
        // Iron, Wood, Leather
        0 => seq![1u8, 0, 3],
        // Wood, Gold, Diamond
        1 => seq![0u8, 2, 5],
        // Leather, Iron, Gold
        2 => seq![3u8, 1, 2],
        // Iron, Gold, Diamond
        3 => seq![1u8, 2, 5],
        _ => Seq::empty(),
    }
}

/// The amounts of the recipe of item type `t`, parallel to `recipe_types(t)`.
pub open spec fn recipe_amounts(t: u8) -> Seq<u64> {
    match t {
        0 => seq![3u64, 1, 1],
        1 => seq![2u64, 1, 1],
        2 => seq![4u64, 2, 1],
        3 => seq![4u64, 2, 2],
        _ => Seq::empty(),
    }
}

/// The crafting recipe for an item type:
/// Kozak Sable (0): 3 Iron + 1 Wood + 1 Leather;
/// Elder Stick (1): 2 Wood + 1 Gold + 1 Diamond;
/// Armour (2): 4 Leather + 2 Iron + 1 Gold;
/// Brace (3): 4 Iron + 2 Gold + 2 Diamond.
fn recipe_for(item_type: u8) -> (r: Option<Recipe>)
    ensures
        r is Some <==> item_type < 4,
        r matches Some(rec) ==> rec.types@ == recipe_types(item_type) && rec.amounts@ == recipe_amounts(item_type),
{
    match item_type {
        0 => Some(Recipe { types: vec![1u8, 0, 3], amounts: vec![3u64, 1, 1] }),
        1 => Some(Recipe { types: vec![0u8, 2, 5], amounts: vec![2u64, 1, 1] }),
        2 => Some(Recipe { types: vec![3u8, 1, 2], amounts: vec![4u64, 2, 1] }),
        3 => Some(Recipe { types: vec![1u8, 2, 5], amounts: vec![4u64, 2, 2] }),
        _ => None,
    }
}

/// Configuration of the crafting program.
#[derive(Clone, Copy, PartialEq, Eq, Debug)]
pub struct CraftingConfig {
    pub admin: Pubkey,
    pub bump: u8,
    pub crafting_authority_bump: u8,
}

impl CraftingConfig {
    pub const SIZE: usize = 8 + 32 + 1 + 1;
}

#[derive(Clone, Copy, PartialEq, Eq, Debug)]
pub enum CraftingError {
    /// Invalid item type: must be 0 to 3.
    InvalidItemType,
    /// The extra accounts do not match the layout expected for the recipe.
    InvalidRemainingAccounts,
    /// The account to create exists already (account validation: `init`).
    AccountAlreadyInitialized,
}

/// Accounts of `initialize`, with the bumps found for the new addresses.
#[derive(Clone, Copy, PartialEq, Eq, Debug)]
pub struct Initialize {
    pub admin: Pubkey,
    /// The configuration account to create.
    pub config: StateAccount<CraftingConfig>,
    pub crafting_authority: Pubkey,
    pub system_program: Pubkey,
    pub config_bump: u8,
    pub crafting_authority_bump: u8,
}

/// Accounts of `craft_item`. The extra accounts are, in recipe order,
/// `[mint_0, player_ata_0, mint_1, player_ata_1, mint_2, player_ata_2]`, then
/// `[item_mint, item_player_ata, metadata, master_edition,
/// sysvar_instructions, token_metadata_program, item_metadata]`.
#[derive(Clone, Copy, PartialEq, Eq, Debug)]
pub struct CraftItem {
    pub player: Pubkey,
    pub config: CraftingConfig,
    /// The crafting program's authority address, which signs both calls.
    pub crafting_authority: Pubkey,
    pub resource_game_config: Pubkey,
    pub resource_manager_program: Pubkey,
    pub item_config: Pubkey,
    pub item_authority: Pubkey,
    pub item_nft_program: Pubkey,
    pub token_program: Pubkey,
    /// The legacy SPL token program, used by the item program.
    pub spl_token_program: Pubkey,
    pub associated_token_program: Pubkey,
    pub system_program: Pubkey,
}

/// The two calls by which an item is crafted: burn the recipe, then mint
/// the item.
#[derive(Clone, Debug)]
pub struct CraftCpis {
    pub burn: BurnResourcesCpi,
    pub mint: MintItemCpi,
}

/// Why `craft_item` refuses, if it does.
pub open spec fn craft_item_error(remaining: Seq<Pubkey>, item_type: u8) -> Option<CraftingError> {
    if item_type >= 4 {
        Some(CraftingError::InvalidItemType)
    } else if remaining.len() < 10 {
        Some(CraftingError::InvalidRemainingAccounts)
    } else {
        None
    }
}

/// The seeds with which the crafting program signs.
pub open spec fn crafting_signer(config: CraftingConfig) -> SignerSeeds {
    SignerSeeds { authority: AuthoritySeed::CraftingAuthority, bump: config.crafting_authority_bump }
}

/// The calls by which `craft_item` crafts item type `t`: the resource
/// program burns the recipe from the player's token accounts named by the
/// first six extra accounts, and the item program mints the item with the
/// accounts named by the next seven; the player pays, and the crafting
/// authority signs both.
pub open spec fn is_craft_cpis(p: CraftCpis, a: CraftItem, remaining: Seq<Pubkey>, t: u8) -> bool {
    &&& p.burn.program == a.resource_manager_program
    &&& p.burn.caller_authority == a.crafting_authority
    &&& p.burn.player == a.player
    &&& p.burn.game_config == a.resource_game_config
    &&& p.burn.token_program == a.token_program
    &&& p.burn.remaining_accounts@ == remaining.subrange(0, 6)
    &&& p.burn.resource_types@ == recipe_types(t)
    &&& p.burn.amounts@ == recipe_amounts(t)
    &&& p.burn.signer == crafting_signer(a.config)
    &&& p.mint == (MintItemCpi {
        program: a.item_nft_program,
        caller_authority: a.crafting_authority,
        config: a.item_config,
        item_authority: a.item_authority,
        mint: remaining[6],
        metadata: remaining[8],
        master_edition: remaining[9],
        player: a.player,
        player_ata: remaining[7],
        item_metadata: remaining[12],
        fee_payer: a.player,
        token_program: a.spl_token_program,
        associated_token_program: a.associated_token_program,
        system_program: a.system_program,
        sysvar_instructions: remaining[10],
        token_metadata_program: remaining[11],
        item_type: t,
        signer: crafting_signer(a.config),
    })
}

/// Create the crafting configuration, with the signer as admin. The
/// configuration can be created once.
pub fn initialize(ctx: &mut Context<Initialize>) -> (r: Result<(), CraftingError>)
    ensures
        final(ctx).remaining_accounts == old(ctx).remaining_accounts,
        match r {
            Err(e) => {
                &&& e == CraftingError::AccountAlreadyInitialized
                &&& old(ctx).accounts.config.state is Some
                &&& *final(ctx) == *old(ctx)
            },
            Ok(_) => {
                &&& old(ctx).accounts.config.state is None
                &&& final(ctx).accounts == (Initialize {
                    config: StateAccount {
                        state: Some(CraftingConfig {
                            admin: old(ctx).accounts.admin,
                            bump: old(ctx).accounts.config_bump,
                            crafting_authority_bump: old(ctx).accounts.crafting_authority_bump,
                        }),
                        ..old(ctx).accounts.config
                    },
                    ..old(ctx).accounts
                })
            },
        },
{
    if ctx.accounts.config.state.is_some() {
        return Err(CraftingError::AccountAlreadyInitialized);
    }
    ctx.accounts.config.state = Some(CraftingConfig {
        admin: ctx.accounts.admin,
        bump: ctx.accounts.config_bump,
        crafting_authority_bump: ctx.accounts.crafting_authority_bump,
    });
    Ok(())
}

/// Craft an item: returns the call that burns the recipe's resources and the
/// call that mints the item NFT. At least ten extra accounts are demanded,
/// and thirteen are read: with ten to twelve of them the item's accounts are
/// out of range, so those inputs are excluded.
pub fn craft_item(ctx: Context<CraftItem>, item_type: u8) -> (r: Result<CraftCpis, CraftingError>)
    requires
        item_type >= 4 || ctx.remaining_accounts@.len() < 10 || ctx.remaining_accounts@.len() >= 13,
    ensures
        match r {
            Err(e) => craft_item_error(ctx.remaining_accounts@, item_type) == Some(e),
            Ok(p) => {
                &&& craft_item_error(ctx.remaining_accounts@, item_type) is None
                &&& is_craft_cpis(p, ctx.accounts, ctx.remaining_accounts@, item_type)
            },
        },
{
    let recipe = match recipe_for(item_type) {
        Some(recipe) => recipe,
        None => return Err(CraftingError::InvalidItemType),
    };
    let n = recipe.types.len();
    if ctx.remaining_accounts.len() < n * 2 + 4 {
        return Err(CraftingError::InvalidRemainingAccounts);
    }
    let a = &ctx.accounts;
    let signer = SignerSeeds { authority: AuthoritySeed::CraftingAuthority, bump: a.config.crafting_authority_bump };
    let base = n * 2;
    let mut resource_remaining: Vec<Pubkey> = Vec::new();
    let mut i: usize = 0;
    while i < base
        invariant
            base == 6,
            ctx.remaining_accounts@.len() >= 13,
            0 <= i <= base,
            resource_remaining@ == ctx.remaining_accounts@.subrange(0, i as int),
        decreases base - i,
    {
        resource_remaining.push(ctx.remaining_accounts[i]);
        i = i + 1;
        proof {
            assert(resource_remaining@ =~= ctx.remaining_accounts@.subrange(0, i as int));
        }
    }
    let burn = BurnResourcesCpi {
        program: a.resource_manager_program,
        caller_authority: a.crafting_authority,
        player: a.player,
        game_config: a.resource_game_config,
        token_program: a.token_program,
        remaining_accounts: resource_remaining,
        resource_types: recipe.types,
        amounts: recipe.amounts,
        signer,
    };
    let rem = &ctx.remaining_accounts;
    let mint = MintItemCpi {
        program: a.item_nft_program,
        caller_authority: a.crafting_authority,
        config: a.item_config,
        item_authority: a.item_authority,
        mint: rem[base],
        metadata: rem[base + 2],
        master_edition: rem[base + 3],
        player: a.player,
        player_ata: rem[base + 1],
        item_metadata: rem[base + 6],
        fee_payer: a.player,
        token_program: a.spl_token_program,
        associated_token_program: a.associated_token_program,
        system_program: a.system_program,
        sysvar_instructions: rem[base + 4],
        token_metadata_program: rem[base + 5],
        item_type,
        signer,
    };
    Ok(CraftCpis { burn, mint })
}

} // verus!
