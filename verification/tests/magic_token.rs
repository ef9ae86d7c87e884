use game_programs::common::{
    AuthoritySeed, Burn, Context, CreateAssociatedTokenAccount, CreateMint, MintTo, Pubkey, SignerSeeds, StateAccount,
    TokenAccount,
};
use game_programs::magic_token::{
    burn_magic_tokens, initialize, mint_magic_tokens, set_marketplace_authority, BurnMagicTokens,
    CurrencyMint, Initialize, MagicTokenConfig, MagicTokenError, MintMagicTokens, SetMarketplaceAuthority,
};

fn key(n: u8) -> Pubkey {
    Pubkey { bytes: [n; 32] }
}

fn config() -> MagicTokenConfig {
    MagicTokenConfig { admin: key(1), mint: key(2), marketplace_authority: key(3), bump: 254, mint_authority_bump: 251 }
}

fn mint_ctx(caller: u8) -> Context<MintMagicTokens> {
    Context {
        accounts: MintMagicTokens {
            caller_authority: key(caller),
            config: config(),
            mint: key(2),
            mint_authority: key(10),
            recipient: key(11),
            recipient_ata: key(12),
            fee_payer: key(13),
            token_program: key(14),
            associated_token_program: key(15),
            system_program: key(16),
        },
        remaining_accounts: vec![],
    }
}

fn burn_ctx(caller: u8) -> Context<BurnMagicTokens> {
    Context {
        accounts: BurnMagicTokens {
            caller_authority: key(caller),
            config: config(),
            mint: key(2),
            holder: key(20),
            holder_ata: TokenAccount { key: key(21), mint: key(2), owner: key(20), amount: 100 },
            token_program: key(14),
        },
        remaining_accounts: vec![],
    }
}

#[test]
fn magic_token_initialize_creates_config_once() {
    let mut ctx = Context {
        accounts: Initialize {
            admin: key(1),
            config: StateAccount { key: key(9), state: None },
            mint: key(2),
            mint_exists: false,
            mint_authority: key(10),
            token_program: key(14),
            system_program: key(16),
            config_bump: 254,
            mint_authority_bump: 251,
        },
        remaining_accounts: vec![],
    };
    assert_eq!(
        initialize(&mut ctx),
        Ok(CreateMint {
            mint: key(2),
            payer: key(1),
            token_program: key(14),
            decimals: 0,
            mint_authority: key(10),
            freeze_authority: None,
            metadata_pointer: None,
        })
    );
    let created = MagicTokenConfig { marketplace_authority: key(0), ..config() };
    assert_eq!(ctx.accounts.config.state, Some(created));
    assert_eq!(MagicTokenConfig::SIZE, 106);
    ctx.accounts.admin = key(5);
    assert_eq!(initialize(&mut ctx), Err(MagicTokenError::AccountAlreadyInitialized));
    assert_eq!(ctx.accounts.config.state, Some(created));
    // An existing mint account is refused too.
    ctx.accounts.config.state = None;
    ctx.accounts.mint_exists = true;
    assert_eq!(initialize(&mut ctx), Err(MagicTokenError::AccountAlreadyInitialized));
    assert_eq!(ctx.accounts.config.state, None);
}

#[test]
fn set_marketplace_authority_records_it() {
    let mut ctx = Context { accounts: SetMarketplaceAuthority { admin: key(1), config: config() }, remaining_accounts: vec![] };
    assert_eq!(set_marketplace_authority(&mut ctx, key(99)), Ok(()));
    assert_eq!(ctx.accounts.config, MagicTokenConfig { marketplace_authority: key(99), ..config() });
}

#[test]
fn set_marketplace_authority_only_by_admin() {
    let mut ctx = Context { accounts: SetMarketplaceAuthority { admin: key(3), config: config() }, remaining_accounts: vec![] };
    assert_eq!(set_marketplace_authority(&mut ctx, key(99)), Err(MagicTokenError::ConstraintHasOne));
    assert_eq!(ctx.accounts.config, config());
}

#[test]
fn mint_magic_tokens_mints_amount_to_recipient() {
    assert_eq!(
        mint_magic_tokens(mint_ctx(3), 500),
        Ok(CurrencyMint {
            create_recipient_ata: CreateAssociatedTokenAccount {
                associated_token_program: key(15),
                payer: key(13),
                associated_token: key(12),
                authority: key(11),
                mint: key(2),
                system_program: key(16),
                token_program: key(14),
            },
            mint: MintTo {
                token_program: key(14),
                mint: key(2),
                to: key(12),
                authority: key(10),
                amount: 500,
                signer: Some(SignerSeeds { authority: AuthoritySeed::MintAuthority, bump: 251 }),
            },
        })
    );
}

#[test]
fn mint_magic_tokens_errors() {
    assert_eq!(mint_magic_tokens(mint_ctx(4), 500), Err(MagicTokenError::Unauthorized));
    assert_eq!(mint_magic_tokens(mint_ctx(4), 0), Err(MagicTokenError::Unauthorized));
    assert_eq!(mint_magic_tokens(mint_ctx(3), 0), Err(MagicTokenError::ZeroAmount));
    let mut other_mint = mint_ctx(3);
    other_mint.accounts.mint = key(77);
    assert_eq!(mint_magic_tokens(other_mint, 500), Err(MagicTokenError::ConstraintHasOne));
}

#[test]
fn burn_magic_tokens_burns_from_holder() {
    assert_eq!(
        burn_magic_tokens(burn_ctx(3), 7),
        Ok(Burn { token_program: key(14), mint: key(2), from: key(21), authority: key(20), amount: 7, signer: None })
    );
}

#[test]
fn burn_magic_tokens_errors() {
    assert_eq!(burn_magic_tokens(burn_ctx(20), 7), Err(MagicTokenError::Unauthorized));
    assert_eq!(burn_magic_tokens(burn_ctx(3), 0), Err(MagicTokenError::ZeroAmount));
    let mut other_mint = burn_ctx(3);
    other_mint.accounts.mint = key(77);
    assert_eq!(burn_magic_tokens(other_mint, 7), Err(MagicTokenError::ConstraintHasOne));
    let mut other_holder = burn_ctx(3);
    other_holder.accounts.holder_ata.owner = key(11);
    assert_eq!(burn_magic_tokens(other_holder, 7), Err(MagicTokenError::ConstraintTokenOwner));
    let mut both = burn_ctx(20);
    both.accounts.holder_ata.owner = key(11);
    assert_eq!(burn_magic_tokens(both, 0), Err(MagicTokenError::ConstraintTokenOwner));
    let mut other_currency = burn_ctx(3);
    other_currency.accounts.holder_ata.mint = key(77);
    assert_eq!(burn_magic_tokens(other_currency, 7), Err(MagicTokenError::ConstraintAssociated));
}

#[test]
fn burn_magic_tokens_undoes_a_mint() {
    let minted = mint_magic_tokens(mint_ctx(3), 40).unwrap().mint;
    let mut b = burn_ctx(3);
    b.accounts.holder = key(11);
    b.accounts.holder_ata = TokenAccount { key: key(12), mint: key(2), owner: key(11), amount: 40 };
    let burnt = burn_magic_tokens(b, 40).unwrap();
    assert_eq!((burnt.mint, burnt.from, burnt.amount), (minted.mint, minted.to, minted.amount));
    assert_eq!(burnt.authority, key(11));
}
