//! The in-game currency ("MagicToken"): a Token-2022 mint whose tokens only
//! the marketplace program's authority may mint or burn.
use vstd::prelude::*;
use crate::common::{
    AuthoritySeed, Burn, Context, CreateAssociatedTokenAccount, CreateMint, MintTo, Pubkey, SignerSeeds, StateAccount,
    TokenAccount,
};

verus! {

/// Configuration of the currency program.
#[derive(Clone, Copy, PartialEq, Eq, Debug)]
pub struct MagicTokenConfig {
    pub admin: Pubkey,
    pub mint: Pubkey,
    /// Authority address of the marketplace program, the sole authority for
    /// mint and burn.
    pub marketplace_authority: Pubkey,
    pub bump: u8,
    pub mint_authority_bump: u8,
}

impl MagicTokenConfig {
    pub const SIZE: usize = 8 + 32 + 32 + 32 + 1 + 1;
}

#[derive(Clone, Copy, PartialEq, Eq, Debug)]
pub enum MagicTokenError {
    /// Caller is not the authorized marketplace program authority.
    Unauthorized,
    /// Amount must be greater than zero.
    ZeroAmount,
    /// The signer is not the configuration's admin, or the mint is not the
    /// configured mint (account validation: `has_one`).
    ConstraintHasOne,
    /// The account to create exists already (account validation: `init`).
    AccountAlreadyInitialized,
    /// The holder's token account is not the holder's (account validation:
    /// `associated_token::authority`).
    ConstraintTokenOwner,
    /// The holder's token account is not an account of the currency mint
    /// (account validation: `associated_token::mint`; the check made here
    /// is on the account's mint, its address is the caller's to check).
    ConstraintAssociated,
}

/// Accounts of `initialize`, with the bumps found for the new addresses.
#[derive(Clone, Copy, PartialEq, Eq, Debug)]
pub struct Initialize {
    pub admin: Pubkey,
    /// The configuration account to create.
    pub config: StateAccount<MagicTokenConfig>,
    /// The currency mint to create.
    pub mint: Pubkey,
    /// Whether an account exists at `mint` already.
    pub mint_exists: bool,
    pub mint_authority: Pubkey,
    pub token_program: Pubkey,
    pub system_program: Pubkey,
    pub config_bump: u8,
    pub mint_authority_bump: u8,
}

/// Accounts of `set_marketplace_authority`.
#[derive(Clone, Copy, PartialEq, Eq, Debug)]
pub struct SetMarketplaceAuthority {
    pub admin: Pubkey,
    pub config: MagicTokenConfig,
}

/// Accounts of `mint_magic_tokens`.
#[derive(Clone, Copy, PartialEq, Eq, Debug)]
pub struct MintMagicTokens {
    /// The marketplace program's authority address (a signer).
    pub caller_authority: Pubkey,
    pub config: MagicTokenConfig,
    pub mint: Pubkey,
    pub mint_authority: Pubkey,
    pub recipient: Pubkey,
    pub recipient_ata: Pubkey,
    pub fee_payer: Pubkey,
    pub token_program: Pubkey,
    pub associated_token_program: Pubkey,
    pub system_program: Pubkey,
}

/// Accounts of `burn_magic_tokens`.
#[derive(Clone, Copy, PartialEq, Eq, Debug)]
pub struct BurnMagicTokens {
    /// The marketplace program's authority address (a signer).
    pub caller_authority: Pubkey,
    pub config: MagicTokenConfig,
    pub mint: Pubkey,
    /// The token holder (a signer).
    pub holder: Pubkey,
    /// The holder's token account of the currency.
    pub holder_ata: TokenAccount,
    pub token_program: Pubkey,
}

/// What `mint_magic_tokens` does: create the recipient's currency account
/// where it does not exist yet, then mint to it.
#[derive(Clone, Copy, PartialEq, Eq, Debug)]
pub struct CurrencyMint {
    pub create_recipient_ata: CreateAssociatedTokenAccount,
    pub mint: MintTo,
}

/// A cross-program call of `mint_magic_tokens`: the currency program, the
/// named accounts, the amount and the seeds the calling program signs with.
#[derive(Clone, Copy, PartialEq, Eq, Debug)]
pub struct MintMagicTokensCpi {
    pub program: Pubkey,
    pub caller_authority: Pubkey,
    pub config: Pubkey,
    pub mint: Pubkey,
    pub mint_authority: Pubkey,
    pub recipient: Pubkey,
    pub recipient_ata: Pubkey,
    pub fee_payer: Pubkey,
    pub token_program: Pubkey,
    pub associated_token_program: Pubkey,
    pub system_program: Pubkey,
    pub amount: u64,
    pub signer: SignerSeeds,
}

/// A cross-program call of `burn_magic_tokens`.
#[derive(Clone, Copy, PartialEq, Eq, Debug)]
pub struct BurnMagicTokensCpi {
    pub program: Pubkey,
    pub caller_authority: Pubkey,
    pub config: Pubkey,
    pub mint: Pubkey,
    pub holder: Pubkey,
    pub holder_ata: Pubkey,
    pub token_program: Pubkey,
    pub amount: u64,
    pub signer: SignerSeeds,
}

/// Why a mint of `amount` of `mint` by `caller` is refused under `config`,
/// if it is: the mint must be the configured one, the caller the
/// marketplace authority and the amount positive. A burn is held to the
/// same checks once its token account is found to be the holder's.
pub open spec fn currency_error(config: MagicTokenConfig, mint: Pubkey, caller: Pubkey, amount: u64) -> Option<MagicTokenError> {
    if mint != config.mint {
        Some(MagicTokenError::ConstraintHasOne)
    } else if caller != config.marketplace_authority {
        Some(MagicTokenError::Unauthorized)
    } else if amount == 0 {
        Some(MagicTokenError::ZeroAmount)
    } else {
        None
    }
}

/// The token-program mint of `mint_magic_tokens`: `amount` new tokens to the
/// recipient's account, signed with the mint authority's seeds.
pub open spec fn mint_magic_tokens_cpi(a: MintMagicTokens, amount: u64) -> MintTo {
    MintTo {
        token_program: a.token_program,
        mint: a.mint,
        to: a.recipient_ata,
        authority: a.mint_authority,
        amount,
        signer: Some(SignerSeeds { authority: AuthoritySeed::MintAuthority, bump: a.config.mint_authority_bump }),
    }
}

/// The creation of the recipient's currency account that
/// `mint_magic_tokens` asks for where the account does not exist yet,
/// paid by the fee payer.
pub open spec fn recipient_ata_creation(a: MintMagicTokens) -> CreateAssociatedTokenAccount {
    CreateAssociatedTokenAccount {
        associated_token_program: a.associated_token_program,
        payer: a.fee_payer,
        associated_token: a.recipient_ata,
        authority: a.recipient,
        mint: a.mint,
        system_program: a.system_program,
        token_program: a.token_program,
    }
}

/// The token-program burn of `burn_magic_tokens`: `amount` tokens from the
/// holder's account, with the holder's own signature.
pub open spec fn burn_magic_tokens_cpi(a: BurnMagicTokens, amount: u64) -> Burn {
    Burn {
        token_program: a.token_program,
        mint: a.mint,
        from: a.holder_ata.key,
        authority: a.holder,
        amount,
        signer: None,
    }
}

/// Why a burn of `amount` with the accounts `a` is refused, if it is: the
/// mint must be the configured one and the token account the holder's
/// account of it, then
/// the checks of every currency call apply.
pub open spec fn burn_error(a: BurnMagicTokens, amount: u64) -> Option<MagicTokenError> {
    if a.mint != a.config.mint {
        Some(MagicTokenError::ConstraintHasOne)
    } else if a.holder_ata.owner != a.holder {
        Some(MagicTokenError::ConstraintTokenOwner)
    } else if a.holder_ata.mint != a.mint {
        Some(MagicTokenError::ConstraintAssociated)
    } else {
        currency_error(a.config, a.mint, a.caller_authority, amount)
    }
}

/// The accounts `mint_magic_tokens` sees when called by `c`, with the
/// currency configuration `config`.
pub open spec fn mint_magic_tokens_accounts_of(c: MintMagicTokensCpi, config: MagicTokenConfig) -> MintMagicTokens {
    MintMagicTokens {
        caller_authority: c.caller_authority,
        config,
        mint: c.mint,
        mint_authority: c.mint_authority,
        recipient: c.recipient,
        recipient_ata: c.recipient_ata,
        fee_payer: c.fee_payer,
        token_program: c.token_program,
        associated_token_program: c.associated_token_program,
        system_program: c.system_program,
    }
}

/// The accounts `burn_magic_tokens` sees when called by `c`, with the
/// currency configuration `config` and the holder's token account
/// `holder_ata` (the one `c` names).
pub open spec fn burn_magic_tokens_accounts_of(c: BurnMagicTokensCpi, config: MagicTokenConfig, holder_ata: TokenAccount) -> BurnMagicTokens {
    BurnMagicTokens {
        caller_authority: c.caller_authority,
        config,
        mint: c.mint,
        holder: c.holder,
        holder_ata,
        token_program: c.token_program,
    }
}

/// Whether `c` is the configuration that `initialize` creates: admin, mint
/// and bumps given, no marketplace authority set.
pub open spec fn is_fresh_currency_config(c: MagicTokenConfig, a: Initialize) -> bool {
    &&& c.admin == a.admin
    &&& c.mint == a.mint
    &&& c.bump == a.config_bump
    &&& c.mint_authority_bump == a.mint_authority_bump
    &&& c.marketplace_authority.is_default()
}

/// The currency mint that `initialize` creates: no decimals, the mint
/// authority address as its sole authority, paid by the admin.
pub open spec fn currency_mint_creation(a: Initialize) -> CreateMint {
    CreateMint {
        mint: a.mint,
        payer: a.admin,
        token_program: a.token_program,
        decimals: 0,
        mint_authority: a.mint_authority,
        freeze_authority: None,
        metadata_pointer: None,
    }
}

/// Create the currency configuration, with the signer as admin, and the
/// currency mint. Both can be created once.
pub fn initialize(ctx: &mut Context<Initialize>) -> (r: Result<CreateMint, MagicTokenError>)
    ensures
        final(ctx).remaining_accounts == old(ctx).remaining_accounts,
        match r {
            Err(e) => {
                &&& e == MagicTokenError::AccountAlreadyInitialized
                &&& (old(ctx).accounts.config.state is Some || old(ctx).accounts.mint_exists)
                &&& *final(ctx) == *old(ctx)
            },
            Ok(m) => {
                &&& old(ctx).accounts.config.state is None
                &&& !old(ctx).accounts.mint_exists
                &&& m == currency_mint_creation(old(ctx).accounts)
                &&& final(ctx).accounts == (Initialize {
                    config: StateAccount { state: final(ctx).accounts.config.state, ..old(ctx).accounts.config },
                    ..old(ctx).accounts
                })
                &&& final(ctx).accounts.config.state matches Some(c) && is_fresh_currency_config(c, old(ctx).accounts)
            },
        },
{
    if ctx.accounts.config.state.is_some() || ctx.accounts.mint_exists {
        return Err(MagicTokenError::AccountAlreadyInitialized);
    }
    ctx.accounts.config.state = Some(MagicTokenConfig {
        admin: ctx.accounts.admin,
        mint: ctx.accounts.mint,
        marketplace_authority: Pubkey::default_key(),
        bump: ctx.accounts.config_bump,
        mint_authority_bump: ctx.accounts.mint_authority_bump,
    });
    Ok(CreateMint {
        mint: ctx.accounts.mint,
        payer: ctx.accounts.admin,
        token_program: ctx.accounts.token_program,
        decimals: 0,
        mint_authority: ctx.accounts.mint_authority,
        freeze_authority: None,
        metadata_pointer: None,
    })
}

/// Why `set_marketplace_authority` refuses, if it does: only the admin may.
pub open spec fn set_marketplace_authority_error(a: SetMarketplaceAuthority) -> Option<MagicTokenError> {
    if a.admin != a.config.admin {
        Some(MagicTokenError::ConstraintHasOne)
    } else {
        None
    }
}

/// Set the marketplace authority address allowed to mint and burn; only the
/// admin may.
pub fn set_marketplace_authority(
    ctx: &mut Context<SetMarketplaceAuthority>,
    marketplace_authority: Pubkey,
) -> (r: Result<(), MagicTokenError>)
    ensures
        r is Err <==> set_marketplace_authority_error(old(ctx).accounts) is Some,
        r matches Err(e) ==> set_marketplace_authority_error(old(ctx).accounts) == Some(e) && *final(ctx) == *old(ctx),
        r is Ok ==> {
            &&& final(ctx).remaining_accounts == old(ctx).remaining_accounts
            &&& final(ctx).accounts == (SetMarketplaceAuthority {
                config: MagicTokenConfig { marketplace_authority, ..old(ctx).accounts.config },
                ..old(ctx).accounts
            })
        },
{
    if !ctx.accounts.admin.key_eq(&ctx.accounts.config.admin) {
        return Err(MagicTokenError::ConstraintHasOne);
    }
    ctx.accounts.config.marketplace_authority = marketplace_authority;
    Ok(())
}

/// Mint currency to a recipient, creating the recipient's currency account
/// where needed; only of the configured mint, only the marketplace
/// authority may call it, and only for a positive amount.
pub fn mint_magic_tokens(ctx: Context<MintMagicTokens>, amount: u64) -> (r: Result<CurrencyMint, MagicTokenError>)
    ensures
        match r {
            Err(e) => currency_error(ctx.accounts.config, ctx.accounts.mint, ctx.accounts.caller_authority, amount) == Some(e),
            Ok(m) => {
                &&& currency_error(ctx.accounts.config, ctx.accounts.mint, ctx.accounts.caller_authority, amount) is None
                &&& m.create_recipient_ata == recipient_ata_creation(ctx.accounts)
                &&& m.mint == mint_magic_tokens_cpi(ctx.accounts, amount)
                &&& m.mint.amount == amount
                &&& m.mint.mint == ctx.accounts.mint
                &&& m.mint.to == ctx.accounts.recipient_ata
            },
        },
{
    let a = &ctx.accounts;
    if !a.mint.key_eq(&a.config.mint) {
        return Err(MagicTokenError::ConstraintHasOne);
    }
    if !a.caller_authority.key_eq(&a.config.marketplace_authority) {
        return Err(MagicTokenError::Unauthorized);
    }
    if amount == 0 {
        return Err(MagicTokenError::ZeroAmount);
    }
    let create_recipient_ata = CreateAssociatedTokenAccount {
        associated_token_program: a.associated_token_program,
        payer: a.fee_payer,
        associated_token: a.recipient_ata,
        authority: a.recipient,
        mint: a.mint,
        system_program: a.system_program,
        token_program: a.token_program,
    };
    let mint = MintTo {
        token_program: a.token_program,
        mint: a.mint,
        to: a.recipient_ata,
        authority: a.mint_authority,
        amount,
        signer: Some(SignerSeeds { authority: AuthoritySeed::MintAuthority, bump: a.config.mint_authority_bump }),
    };
    Ok(CurrencyMint { create_recipient_ata, mint })
}

/// Burn currency from a holder's own token account; only of the configured
/// mint, only the marketplace authority may call it, and only for a
/// positive amount.
pub fn burn_magic_tokens(ctx: Context<BurnMagicTokens>, amount: u64) -> (r: Result<Burn, MagicTokenError>)
    ensures
        match r {
            Err(e) => burn_error(ctx.accounts, amount) == Some(e),
            Ok(b) => {
                &&& burn_error(ctx.accounts, amount) is None
                &&& b == burn_magic_tokens_cpi(ctx.accounts, amount)
                &&& b.amount == amount
                &&& b.mint == ctx.accounts.mint
                &&& b.from == ctx.accounts.holder_ata.key
                &&& b.authority == ctx.accounts.holder
            },
        },
{
    let a = &ctx.accounts;
    if !a.mint.key_eq(&a.config.mint) {
        return Err(MagicTokenError::ConstraintHasOne);
    }
    if !a.holder_ata.owner.key_eq(&a.holder) {
        return Err(MagicTokenError::ConstraintTokenOwner);
    }
    if !a.holder_ata.mint.key_eq(&a.mint) {
        return Err(MagicTokenError::ConstraintAssociated);
    }
    if !a.caller_authority.key_eq(&a.config.marketplace_authority) {
        return Err(MagicTokenError::Unauthorized);
    }
    if amount == 0 {
        return Err(MagicTokenError::ZeroAmount);
    }
    Ok(Burn {
        token_program: a.token_program,
        mint: a.mint,
        from: a.holder_ata.key,
        authority: a.holder,
        amount,
        signer: None,
    })
}

} // verus!
