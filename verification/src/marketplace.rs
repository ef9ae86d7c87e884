//! The marketplace program: players list item NFTs for a price in the
//! in-game currency, buy listed items, or sell an item back to the game,
//! which burns it and pays the seller.
use vstd::prelude::*;
use crate::common::{
    AuthoritySeed, CloseAccount, Context, CreateAssociatedTokenAccount, Pubkey, SignerSeeds, StateAccount, TokenAccount,
    Transfer,
};
use crate::item_nft::BurnItemCpi;
use crate::magic_token::{BurnMagicTokensCpi, MintMagicTokensCpi};

verus! {

/// Configuration of the marketplace program.
#[derive(Clone, Copy, PartialEq, Eq, Debug)]
pub struct MarketplaceConfig {
    pub admin: Pubkey,
    pub bump: u8,
    pub marketplace_authority_bump: u8,
}

impl MarketplaceConfig {
    pub const SIZE: usize = 8 + 32 + 1 + 1;
}

/// An active listing of an item NFT.
#[derive(Clone, Copy, PartialEq, Eq, Debug)]
pub struct Listing {
    pub seller: Pubkey,
    pub item_mint: Pubkey,
    /// Price in the in-game currency.
    pub price: u64,
    pub bump: u8,
}

impl Listing {
    pub const SIZE: usize = 8 + 32 + 32 + 8 + 1;
}

#[derive(Clone, Copy, PartialEq, Eq, Debug)]
pub enum MarketplaceError {
    /// Price must be greater than zero.
    ZeroPrice,
    /// Signer does not hold this item.
    NotItemOwner,
    /// Signer is not the seller of this listing.
    NotSeller,
    /// The account to create exists already (account validation: `init`).
    AccountAlreadyInitialized,
    /// The account to read does not exist (account validation).
    AccountNotInitialized,
    /// A token account is not owned by the wallet it must belong to
    /// (account validation: `associated_token::authority`).
    ConstraintTokenOwner,
    /// A token account is not an account of the mint it must hold (account
    /// validation: `associated_token::mint`; the check made here is on the
    /// account's mint, its address is the caller's to check).
    ConstraintAssociated,
    /// The item named is not the one the listing sells.
    ItemNotListed,
}

/// Accounts of `initialize`, with the bumps found for the new addresses.
#[derive(Clone, Copy, PartialEq, Eq, Debug)]
pub struct Initialize {
    pub admin: Pubkey,
    /// The configuration account to create.
    pub config: StateAccount<MarketplaceConfig>,
    pub marketplace_authority: Pubkey,
    pub system_program: Pubkey,
    pub config_bump: u8,
    pub marketplace_authority_bump: u8,
}

/// Accounts of `list_item`, with the bump found for the listing.
#[derive(Clone, Copy, PartialEq, Eq, Debug)]
pub struct ListItem {
    pub seller: Pubkey,
    pub config: MarketplaceConfig,
    pub item_mint: Pubkey,
    /// The seller's token account of the item.
    pub seller_ata: TokenAccount,
    /// The listing account to create.
    pub listing: StateAccount<Listing>,
    pub listing_bump: u8,
    pub token_program: Pubkey,
    pub system_program: Pubkey,
}

/// Accounts of `cancel_listing`.
#[derive(Clone, Copy, PartialEq, Eq, Debug)]
pub struct CancelListing {
    pub seller: Pubkey,
    /// The listing, closed to the seller.
    pub listing: StateAccount<Listing>,
}

/// Accounts of `buy_item`; both buyer and seller sign.
#[derive(Clone, Copy, PartialEq, Eq, Debug)]
pub struct BuyItem {
    pub buyer: Pubkey,
    pub seller: Pubkey,
    pub config: MarketplaceConfig,
    pub marketplace_authority: Pubkey,
    /// The listing bought, closed to the seller.
    pub listing: StateAccount<Listing>,
    pub item_mint: Pubkey,
    /// The seller's token account of the item.
    pub seller_item_ata: TokenAccount,
    pub buyer_item_ata: Pubkey,
    pub magic_token_config: Pubkey,
    pub magic_token_mint: Pubkey,
    pub magic_token_mint_authority: Pubkey,
    /// The buyer's token account of the currency.
    pub buyer_magic_ata: TokenAccount,
    pub seller_magic_ata: Pubkey,
    pub magic_token_program: Pubkey,
    pub magic_token_program_interface: Pubkey,
    pub item_nft_program: Pubkey,
    pub spl_token_program: Pubkey,
    pub associated_token_program: Pubkey,
    pub system_program: Pubkey,
}

/// Accounts of `sell_item`.
#[derive(Clone, Copy, PartialEq, Eq, Debug)]
pub struct SellItem {
    pub seller: Pubkey,
    pub config: MarketplaceConfig,
    pub marketplace_authority: Pubkey,
    pub item_mint: Pubkey,
    pub seller_item_ata: TokenAccount,
    /// The token-metadata account of the item.
    pub item_metadata_account: Pubkey,
    pub master_edition: Pubkey,
    /// The item program's per-item record.
    pub item_metadata: Pubkey,
    pub item_config: Pubkey,
    pub item_authority: Pubkey,
    pub magic_token_config: Pubkey,
    pub magic_token_mint: Pubkey,
    pub magic_token_mint_authority: Pubkey,
    pub seller_magic_ata: Pubkey,
    pub item_nft_program: Pubkey,
    pub magic_token_program: Pubkey,
    pub magic_token_program_interface: Pubkey,
    pub spl_token_program: Pubkey,
    pub associated_token_program: Pubkey,
    pub system_program: Pubkey,
    pub sysvar_instructions: Pubkey,
    pub token_metadata_program: Pubkey,
}

/// The calls of a purchase, in order: create the buyer's item account and
/// the seller's currency account where they do not exist yet, burn the
/// price from the buyer, move the item from seller to buyer, mint the price
/// to the seller; then the listing is closed to the seller.
#[derive(Clone, Copy, PartialEq, Eq, Debug)]
pub struct BuyCpis {
    pub create_buyer_item_ata: CreateAssociatedTokenAccount,
    pub create_seller_magic_ata: CreateAssociatedTokenAccount,
    pub burn: BurnMagicTokensCpi,
    pub transfer: Transfer,
    pub mint: MintMagicTokensCpi,
    pub close: CloseAccount,
}

/// The calls of a sale to the game, in order: create the seller's currency
/// account where it does not exist yet, burn the item, mint the price to
/// the seller.
#[derive(Clone, Copy, PartialEq, Eq, Debug)]
pub struct SellCpis {
    pub create_seller_magic_ata: CreateAssociatedTokenAccount,
    pub burn: BurnItemCpi,
    pub mint: MintMagicTokensCpi,
}

/// The seeds with which the marketplace signs.
pub open spec fn marketplace_signer(config: MarketplaceConfig) -> SignerSeeds {
    SignerSeeds { authority: AuthoritySeed::MarketplaceAuthority, bump: config.marketplace_authority_bump }
}

/// Why a token account `ata` is refused as `owner`'s account of `mint`, if
/// it is.
pub open spec fn token_account_error(ata: TokenAccount, owner: Pubkey, mint: Pubkey) -> Option<MarketplaceError> {
    if ata.owner != owner {
        Some(MarketplaceError::ConstraintTokenOwner)
    } else if ata.mint != mint {
        Some(MarketplaceError::ConstraintAssociated)
    } else {
        None
    }
}

/// Why listing or selling the item `item_mint` at `price` from the token
/// account `ata` of `seller` is refused, if it is: the account must be the
/// seller's account of the item, the price positive, and the account must
/// hold the item (exactly 1 token).
pub open spec fn offer_error(price: u64, seller: Pubkey, item_mint: Pubkey, ata: TokenAccount) -> Option<MarketplaceError> {
    if token_account_error(ata, seller, item_mint) is Some {
        token_account_error(ata, seller, item_mint)
    } else if price == 0 {
        Some(MarketplaceError::ZeroPrice)
    } else if ata.amount != 1 {
        Some(MarketplaceError::NotItemOwner)
    } else {
        None
    }
}

/// Why `list_item` refuses, if it does.
pub open spec fn list_item_error(a: ListItem, price: u64) -> Option<MarketplaceError> {
    if a.listing.state is Some {
        Some(MarketplaceError::AccountAlreadyInitialized)
    } else {
        offer_error(price, a.seller, a.item_mint, a.seller_ata)
    }
}

/// Why cancelling or buying `listing` as `seller` is refused, if it is: the
/// listing must exist and be the seller's.
pub open spec fn listing_error(listing: StateAccount<Listing>, seller: Pubkey) -> Option<MarketplaceError> {
    match listing.state {
        None => Some(MarketplaceError::AccountNotInitialized),
        Some(l) => if l.seller != seller {
            Some(MarketplaceError::NotSeller)
        } else {
            None
        },
    }
}

/// Why `buy_item` refuses, if it does: the listing must exist and be the
/// seller's, the item named must be the listed one, the item's token
/// account must be the seller's account of it and the currency account the
/// buyer's account of the currency.
pub open spec fn buy_item_error(a: BuyItem) -> Option<MarketplaceError> {
    if listing_error(a.listing, a.seller) is Some {
        listing_error(a.listing, a.seller)
    } else if a.listing.state->Some_0.item_mint != a.item_mint {
        Some(MarketplaceError::ItemNotListed)
    } else if token_account_error(a.seller_item_ata, a.seller, a.item_mint) is Some {
        token_account_error(a.seller_item_ata, a.seller, a.item_mint)
    } else if token_account_error(a.buyer_magic_ata, a.buyer, a.magic_token_mint) is Some {
        token_account_error(a.buyer_magic_ata, a.buyer, a.magic_token_mint)
    } else {
        None
    }
}

/// The calls of `buy_item` for a listing `l`: the buyer's item account and
/// the seller's currency account are created where needed, at the buyer's
/// cost; the listed price is burnt from the buyer's currency account and
/// minted to the seller's, one item token moves from the seller's account
/// to the buyer's, and the listing is closed to the seller.
pub open spec fn buy_cpis(a: BuyItem, l: Listing) -> BuyCpis {
    BuyCpis {
        create_buyer_item_ata: CreateAssociatedTokenAccount {
            associated_token_program: a.associated_token_program,
            payer: a.buyer,
            associated_token: a.buyer_item_ata,
            authority: a.buyer,
            mint: a.item_mint,
            system_program: a.system_program,
            token_program: a.spl_token_program,
        },
        create_seller_magic_ata: CreateAssociatedTokenAccount {
            associated_token_program: a.associated_token_program,
            payer: a.buyer,
            associated_token: a.seller_magic_ata,
            authority: a.seller,
            mint: a.magic_token_mint,
            system_program: a.system_program,
            token_program: a.magic_token_program_interface,
        },
        burn: BurnMagicTokensCpi {
            program: a.magic_token_program,
            caller_authority: a.marketplace_authority,
            config: a.magic_token_config,
            mint: a.magic_token_mint,
            holder: a.buyer,
            holder_ata: a.buyer_magic_ata.key,
            token_program: a.magic_token_program_interface,
            amount: l.price,
            signer: marketplace_signer(a.config),
        },
        transfer: Transfer {
            token_program: a.spl_token_program,
            from: a.seller_item_ata.key,
            to: a.buyer_item_ata,
            authority: a.seller,
            amount: 1,
            signer: None,
        },
        mint: MintMagicTokensCpi {
            program: a.magic_token_program,
            caller_authority: a.marketplace_authority,
            config: a.magic_token_config,
            mint: a.magic_token_mint,
            mint_authority: a.magic_token_mint_authority,
            recipient: a.seller,
            recipient_ata: a.seller_magic_ata,
            fee_payer: a.buyer,
            token_program: a.magic_token_program_interface,
            associated_token_program: a.associated_token_program,
            system_program: a.system_program,
            amount: l.price,
            signer: marketplace_signer(a.config),
        },
        close: CloseAccount { account: a.listing.key, destination: a.seller },
    }
}

/// The calls of `sell_item` at `price`: the seller's currency account is
/// created where needed, the item is burnt from the seller's account and
/// `price` is minted to the seller, who pays.
pub open spec fn sell_cpis(a: SellItem, price: u64) -> SellCpis {
    SellCpis {
        create_seller_magic_ata: CreateAssociatedTokenAccount {
            associated_token_program: a.associated_token_program,
            payer: a.seller,
            associated_token: a.seller_magic_ata,
            authority: a.seller,
            mint: a.magic_token_mint,
            system_program: a.system_program,
            token_program: a.magic_token_program_interface,
        },
        burn: BurnItemCpi {
            program: a.item_nft_program,
            caller_authority: a.marketplace_authority,
            config: a.item_config,
            item_authority: a.item_authority,
            holder: a.seller,
            mint: a.item_mint,
            metadata: a.item_metadata_account,
            master_edition: a.master_edition,
            holder_ata: a.seller_item_ata.key,
            item_metadata: a.item_metadata,
            token_program: a.spl_token_program,
            system_program: a.system_program,
            sysvar_instructions: a.sysvar_instructions,
            token_metadata_program: a.token_metadata_program,
            signer: marketplace_signer(a.config),
        },
        mint: MintMagicTokensCpi {
            program: a.magic_token_program,
            caller_authority: a.marketplace_authority,
            config: a.magic_token_config,
            mint: a.magic_token_mint,
            mint_authority: a.magic_token_mint_authority,
            recipient: a.seller,
            recipient_ata: a.seller_magic_ata,
            fee_payer: a.seller,
            token_program: a.magic_token_program_interface,
            associated_token_program: a.associated_token_program,
            system_program: a.system_program,
            amount: price,
            signer: marketplace_signer(a.config),
        },
    }
}

/// Create the marketplace configuration, with the signer as admin. The
/// configuration can be created once.
pub fn initialize(ctx: &mut Context<Initialize>) -> (r: Result<(), MarketplaceError>)
    ensures
        final(ctx).remaining_accounts == old(ctx).remaining_accounts,
        match r {
            Err(e) => {
                &&& e == MarketplaceError::AccountAlreadyInitialized
                &&& old(ctx).accounts.config.state is Some
                &&& *final(ctx) == *old(ctx)
            },
            Ok(_) => {
                &&& old(ctx).accounts.config.state is None
                &&& final(ctx).accounts == (Initialize {
                    config: StateAccount {
                        state: Some(MarketplaceConfig {
                            admin: old(ctx).accounts.admin,
                            bump: old(ctx).accounts.config_bump,
                            marketplace_authority_bump: old(ctx).accounts.marketplace_authority_bump,
                        }),
                        ..old(ctx).accounts.config
                    },
                    ..old(ctx).accounts
                })
            },
        },
{
    if ctx.accounts.config.state.is_some() {
        return Err(MarketplaceError::AccountAlreadyInitialized);
    }
    ctx.accounts.config.state = Some(MarketplaceConfig {
        admin: ctx.accounts.admin,
        bump: ctx.accounts.config_bump,
        marketplace_authority_bump: ctx.accounts.marketplace_authority_bump,
    });
    Ok(())
}

/// List an item for sale: the listing must not exist yet, the seller's
/// token account must be the seller's account of the item, the price must
/// be positive and the seller must hold the item (a balance of exactly 1).
pub fn list_item(ctx: &mut Context<ListItem>, price: u64) -> (r: Result<(), MarketplaceError>)
    ensures
        match r {
            Err(e) => {
                &&& list_item_error(old(ctx).accounts, price) == Some(e)
                &&& *final(ctx) == *old(ctx)
            },
            Ok(_) => {
                &&& list_item_error(old(ctx).accounts, price) is None
                &&& final(ctx).remaining_accounts == old(ctx).remaining_accounts
                &&& final(ctx).accounts == (ListItem {
                    listing: StateAccount {
                        state: Some(Listing {
                            seller: old(ctx).accounts.seller,
                            item_mint: old(ctx).accounts.item_mint,
                            price,
                            bump: old(ctx).accounts.listing_bump,
                        }),
                        ..old(ctx).accounts.listing
                    },
                    ..old(ctx).accounts
                })
            },
        },
{
    if ctx.accounts.listing.state.is_some() {
        return Err(MarketplaceError::AccountAlreadyInitialized);
    }
    check_token_account(&ctx.accounts.seller_ata, &ctx.accounts.seller, &ctx.accounts.item_mint)?;
    if price == 0 {
        return Err(MarketplaceError::ZeroPrice);
    }
    if ctx.accounts.seller_ata.amount != 1 {
        return Err(MarketplaceError::NotItemOwner);
    }
    let listing = Listing {
        seller: ctx.accounts.seller,
        item_mint: ctx.accounts.item_mint,
        price,
        bump: ctx.accounts.listing_bump,
    };
    ctx.accounts.listing.state = Some(listing);
    Ok(())
}

/// Checks that `listing` exists and is `seller`'s.
fn check_listing(listing: &StateAccount<Listing>, seller: &Pubkey) -> (r: Result<(), MarketplaceError>)
    ensures
        r is Err <==> listing_error(*listing, *seller) is Some,
        r matches Err(e) ==> listing_error(*listing, *seller) == Some(e),
{
    match &listing.state {
        None => Err(MarketplaceError::AccountNotInitialized),
        Some(l) => if l.seller.key_eq(seller) {
            Ok(())
        } else {
            Err(MarketplaceError::NotSeller)
        },
    }
}

/// Checks that `ata` is `owner`'s account of `mint`.
fn check_token_account(ata: &TokenAccount, owner: &Pubkey, mint: &Pubkey) -> (r: Result<(), MarketplaceError>)
    ensures
        r is Err <==> token_account_error(*ata, *owner, *mint) is Some,
        r matches Err(e) ==> token_account_error(*ata, *owner, *mint) == Some(e),
{
    if !ata.owner.key_eq(owner) {
        return Err(MarketplaceError::ConstraintTokenOwner);
    }
    if !ata.mint.key_eq(mint) {
        return Err(MarketplaceError::ConstraintAssociated);
    }
    Ok(())
}

/// Cancel a listing; only its seller may. The listing is closed to the
/// seller.
pub fn cancel_listing(ctx: &mut Context<CancelListing>) -> (r: Result<CloseAccount, MarketplaceError>)
    ensures
        match r {
            Err(e) => {
                &&& listing_error(old(ctx).accounts.listing, old(ctx).accounts.seller) == Some(e)
                &&& *final(ctx) == *old(ctx)
            },
            Ok(c) => {
                &&& listing_error(old(ctx).accounts.listing, old(ctx).accounts.seller) is None
                &&& c == (CloseAccount { account: old(ctx).accounts.listing.key, destination: old(ctx).accounts.seller })
                &&& final(ctx).remaining_accounts == old(ctx).remaining_accounts
                &&& final(ctx).accounts == (CancelListing {
                    listing: StateAccount { state: None, ..old(ctx).accounts.listing },
                    ..old(ctx).accounts
                })
            },
        },
{
    check_listing(&ctx.accounts.listing, &ctx.accounts.seller)?;
    let close = CloseAccount { account: ctx.accounts.listing.key, destination: ctx.accounts.seller };
    ctx.accounts.listing.state = None;
    Ok(close)
}

/// Buy a listed item: the listing must exist, the seller must be its seller
/// and the item named must be the listed one, and the item and currency
/// accounts must be the seller's account of the item and the buyer's of the
/// currency. Returns the calls that create the buyer's item account and the
/// seller's currency account where needed, burn the listed price from the
/// buyer, move the item to the buyer and mint the price to the seller, and
/// closes the listing to the seller: a listing is bought at most once.
pub fn buy_item(ctx: &mut Context<BuyItem>) -> (r: Result<BuyCpis, MarketplaceError>)
    ensures
        match r {
            Err(e) => {
                &&& buy_item_error(old(ctx).accounts) == Some(e)
                &&& *final(ctx) == *old(ctx)
            },
            Ok(p) => {
                &&& buy_item_error(old(ctx).accounts) is None
                &&& p == buy_cpis(old(ctx).accounts, old(ctx).accounts.listing.state->Some_0)
                &&& final(ctx).remaining_accounts == old(ctx).remaining_accounts
                &&& final(ctx).accounts == (BuyItem {
                    listing: StateAccount { state: None, ..old(ctx).accounts.listing },
                    ..old(ctx).accounts
                })
            },
        },
{
    check_listing(&ctx.accounts.listing, &ctx.accounts.seller)?;
    let (price, listed_mint) = match &ctx.accounts.listing.state {
        Some(l) => (l.price, l.item_mint),
        None => return Err(MarketplaceError::AccountNotInitialized),
    };
    let a = &ctx.accounts;
    if !listed_mint.key_eq(&a.item_mint) {
        return Err(MarketplaceError::ItemNotListed);
    }
    check_token_account(&a.seller_item_ata, &a.seller, &a.item_mint)?;
    check_token_account(&a.buyer_magic_ata, &a.buyer, &a.magic_token_mint)?;
    let signer = SignerSeeds { authority: AuthoritySeed::MarketplaceAuthority, bump: a.config.marketplace_authority_bump };
    let burn = BurnMagicTokensCpi {
        program: a.magic_token_program,
        caller_authority: a.marketplace_authority,
        config: a.magic_token_config,
        mint: a.magic_token_mint,
        holder: a.buyer,
        holder_ata: a.buyer_magic_ata.key,
        token_program: a.magic_token_program_interface,
        amount: price,
        signer,
    };
    let transfer = Transfer {
        token_program: a.spl_token_program,
        from: a.seller_item_ata.key,
        to: a.buyer_item_ata,
        authority: a.seller,
        amount: 1,
        signer: None,
    };
    let mint = MintMagicTokensCpi {
        program: a.magic_token_program,
        caller_authority: a.marketplace_authority,
        config: a.magic_token_config,
        mint: a.magic_token_mint,
        mint_authority: a.magic_token_mint_authority,
        recipient: a.seller,
        recipient_ata: a.seller_magic_ata,
        fee_payer: a.buyer,
        token_program: a.magic_token_program_interface,
        associated_token_program: a.associated_token_program,
        system_program: a.system_program,
        amount: price,
        signer,
    };
    let create_buyer_item_ata = CreateAssociatedTokenAccount {
        associated_token_program: a.associated_token_program,
        payer: a.buyer,
        associated_token: a.buyer_item_ata,
        authority: a.buyer,
        mint: a.item_mint,
        system_program: a.system_program,
        token_program: a.spl_token_program,
    };
    let create_seller_magic_ata = CreateAssociatedTokenAccount {
        associated_token_program: a.associated_token_program,
        payer: a.buyer,
        associated_token: a.seller_magic_ata,
        authority: a.seller,
        mint: a.magic_token_mint,
        system_program: a.system_program,
        token_program: a.magic_token_program_interface,
    };
    let close = CloseAccount { account: a.listing.key, destination: a.seller };
    ctx.accounts.listing.state = None;
    Ok(BuyCpis { create_buyer_item_ata, create_seller_magic_ata, burn, transfer, mint, close })
}

/// Sell an item to the game: the seller's token account must be the
/// seller's account of the item, the price positive and the seller must
/// hold the item; returns the calls that create the seller's currency
/// account where needed, burn the item and mint the price to the seller.
pub fn sell_item(ctx: Context<SellItem>, price: u64) -> (r: Result<SellCpis, MarketplaceError>)
    ensures
        match r {
            Err(e) => offer_error(price, ctx.accounts.seller, ctx.accounts.item_mint, ctx.accounts.seller_item_ata) == Some(e),
            Ok(p) => {
                &&& offer_error(price, ctx.accounts.seller, ctx.accounts.item_mint, ctx.accounts.seller_item_ata) is None
                &&& p == sell_cpis(ctx.accounts, price)
            },
        },
{
    check_token_account(&ctx.accounts.seller_item_ata, &ctx.accounts.seller, &ctx.accounts.item_mint)?;
    if price == 0 {
        return Err(MarketplaceError::ZeroPrice);
    }
    if ctx.accounts.seller_item_ata.amount != 1 {
        return Err(MarketplaceError::NotItemOwner);
    }
    let a = &ctx.accounts;
    let signer = SignerSeeds { authority: AuthoritySeed::MarketplaceAuthority, bump: a.config.marketplace_authority_bump };
    let burn = BurnItemCpi {
        program: a.item_nft_program,
        caller_authority: a.marketplace_authority,
        config: a.item_config,
        item_authority: a.item_authority,
        holder: a.seller,
        mint: a.item_mint,
        metadata: a.item_metadata_account,
        master_edition: a.master_edition,
        holder_ata: a.seller_item_ata.key,
        item_metadata: a.item_metadata,
        token_program: a.spl_token_program,
        system_program: a.system_program,
        sysvar_instructions: a.sysvar_instructions,
        token_metadata_program: a.token_metadata_program,
        signer,
    };
    let mint = MintMagicTokensCpi {
        program: a.magic_token_program,
        caller_authority: a.marketplace_authority,
        config: a.magic_token_config,
        mint: a.magic_token_mint,
        mint_authority: a.magic_token_mint_authority,
        recipient: a.seller,
        recipient_ata: a.seller_magic_ata,
        fee_payer: a.seller,
        token_program: a.magic_token_program_interface,
        associated_token_program: a.associated_token_program,
        system_program: a.system_program,
        amount: price,
        signer,
    };
    let create_seller_magic_ata = CreateAssociatedTokenAccount {
        associated_token_program: a.associated_token_program,
        payer: a.seller,
        associated_token: a.seller_magic_ata,
        authority: a.seller,
        mint: a.magic_token_mint,
        system_program: a.system_program,
        token_program: a.magic_token_program_interface,
    };
    Ok(SellCpis { create_seller_magic_ata, burn, mint })
}

} // verus!
