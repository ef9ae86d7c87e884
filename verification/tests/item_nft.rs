use game_programs::common::{
    AuthoritySeed, CloseAccount, Context, CreateAssociatedTokenAccount, CreateMint, Pubkey, SignerSeeds, StateAccount,
    TokenAccount,
};
use game_programs::item_nft::{
    burn_item, initialize, mint_item, set_authorities, BurnItem, BurnV1, Initialize, ItemConfig,
    ItemMetadata, ItemNftError, ItemType, MintItem, PrintSupply, SetAuthorities, TokenStandard,
};

fn key(n: u8) -> Pubkey {
    Pubkey { bytes: [n; 32] }
}

fn config() -> ItemConfig {
    ItemConfig {
        admin: key(1),
        crafting_program_authority: key(2),
        marketplace_program_authority: key(3),
        bump: 254,
        item_authority_bump: 253,
    }
}

fn record() -> ItemMetadata {
    ItemMetadata { item_type: 2, owner: key(30), mint: key(31), bump: 7 }
}

fn no_record() -> StateAccount<ItemMetadata> {
    StateAccount { key: key(22), state: None }
}

fn mint_ctx(caller: u8) -> Context<MintItem> {
    Context {
        accounts: MintItem {
            caller_authority: key(caller),
            config: config(),
            item_authority: key(10),
            mint: key(11),
            mint_exists: false,
            metadata: key(12),
            master_edition: key(13),
            player: key(14),
            player_ata: key(15),
            item_metadata: no_record(),
            item_metadata_bump: 252,
            fee_payer: key(16),
            token_program: key(17),
            associated_token_program: key(18),
            system_program: key(19),
            sysvar_instructions: key(20),
            token_metadata_program: key(21),
        },
        remaining_accounts: vec![],
    }
}

fn burn_ctx(caller: u8) -> Context<BurnItem> {
    Context {
        accounts: BurnItem {
            caller_authority: key(caller),
            config: config(),
            item_authority: key(10),
            holder: key(30),
            mint: key(31),
            metadata: key(32),
            master_edition: key(33),
            holder_ata: TokenAccount { key: key(34), mint: key(31), owner: key(30), amount: 1 },
            item_metadata: StateAccount { key: key(35), state: Some(record()) },
            token_program: key(36),
            system_program: key(37),
            sysvar_instructions: key(38),
            token_metadata_program: key(39),
        },
        remaining_accounts: vec![],
    }
}

#[test]
fn item_type_from_u8_and_codes() {
    assert_eq!(ItemType::from_u8(0), Some(ItemType::KozakSable));
    assert_eq!(ItemType::from_u8(1), Some(ItemType::ElderStick));
    assert_eq!(ItemType::from_u8(2), Some(ItemType::Armour));
    assert_eq!(ItemType::from_u8(3), Some(ItemType::Brace));
    assert_eq!(ItemType::from_u8(4), None);
    assert_eq!(ItemType::from_u8(255), None);
    for v in 0u8..=255 {
        assert_eq!(ItemType::from_u8(v).is_some(), v < 4);
    }
}

#[test]
fn item_type_names_symbols_uris() {
    assert_eq!(ItemType::KozakSable.name(), "Kozak Sable");
    assert_eq!(ItemType::ElderStick.name(), "Elder Stick");
    assert_eq!(ItemType::Armour.name(), "Armour");
    assert_eq!(ItemType::Brace.name(), "Brace");
    assert_eq!(ItemType::KozakSable.symbol(), "SABLE");
    assert_eq!(ItemType::ElderStick.symbol(), "STICK");
    assert_eq!(ItemType::Armour.symbol(), "ARMR");
    assert_eq!(ItemType::Brace.symbol(), "BRACE");
    assert_eq!(ItemType::KozakSable.uri(), "https://arweave.net/kozak-sable");
    assert_eq!(ItemType::ElderStick.uri(), "https://arweave.net/elder-stick");
    assert_eq!(ItemType::Armour.uri(), "https://arweave.net/armour");
    assert_eq!(ItemType::Brace.uri(), "https://arweave.net/brace");
}

#[test]
fn item_config_sizes() {
    assert_eq!(ItemConfig::SIZE, 106);
    assert_eq!(ItemMetadata::SIZE, 74);
}

#[test]
fn item_nft_initialize_creates_config_once() {
    let mut ctx = Context {
        accounts: Initialize {
            admin: key(1),
            config: StateAccount { key: key(9), state: None },
            item_authority: key(10),
            system_program: key(19),
            config_bump: 254,
            item_authority_bump: 253,
        },
        remaining_accounts: vec![],
    };
    assert_eq!(initialize(&mut ctx), Ok(()));
    let created = ItemConfig {
        admin: key(1),
        crafting_program_authority: key(0),
        marketplace_program_authority: key(0),
        bump: 254,
        item_authority_bump: 253,
    };
    assert_eq!(ctx.accounts.config, StateAccount { key: key(9), state: Some(created) });
    // A second initialization is refused and changes nothing.
    ctx.accounts.admin = key(66);
    assert_eq!(initialize(&mut ctx), Err(ItemNftError::AccountAlreadyInitialized));
    assert_eq!(ctx.accounts.config.state, Some(created));
}

#[test]
fn item_nft_set_authorities_records_both() {
    let mut ctx = Context { accounts: SetAuthorities { admin: key(1), config: config() }, remaining_accounts: vec![] };
    assert_eq!(set_authorities(&mut ctx, key(40), key(41)), Ok(()));
    assert_eq!(
        ctx.accounts.config,
        ItemConfig { crafting_program_authority: key(40), marketplace_program_authority: key(41), ..config() }
    );
}

#[test]
fn item_nft_set_authorities_only_by_admin() {
    let mut ctx = Context { accounts: SetAuthorities { admin: key(2), config: config() }, remaining_accounts: vec![] };
    assert_eq!(set_authorities(&mut ctx, key(40), key(41)), Err(ItemNftError::ConstraintHasOne));
    assert_eq!(ctx.accounts.config, config());
}

#[test]
fn mint_item_creates_nft_and_record() {
    let mut ctx = mint_ctx(2);
    let cpis = mint_item(&mut ctx, 1).unwrap();
    let signer = SignerSeeds { authority: AuthoritySeed::ItemAuthority, bump: 253 };
    assert_eq!(
        cpis.create_mint,
        CreateMint {
            mint: key(11),
            payer: key(16),
            token_program: key(17),
            decimals: 0,
            mint_authority: key(10),
            freeze_authority: Some(key(10)),
            metadata_pointer: None,
        }
    );
    assert_eq!(
        cpis.create_player_ata,
        CreateAssociatedTokenAccount {
            associated_token_program: key(18),
            payer: key(16),
            associated_token: key(15),
            authority: key(14),
            mint: key(11),
            system_program: key(19),
            token_program: key(17),
        }
    );
    let c = cpis.create;
    assert_eq!((c.program, cpis.mint.program), (key(21), key(21)));
    assert_eq!((c.metadata, c.master_edition, c.mint, c.mint_is_signer), (key(12), key(13), key(11), true));
    assert_eq!((c.authority, c.payer, c.update_authority, c.update_authority_is_signer), (key(10), key(16), key(10), true));
    assert_eq!((c.system_program, c.sysvar_instructions, c.spl_token_program), (key(19), key(20), key(17)));
    assert_eq!((c.name, c.symbol, c.uri), ("Elder Stick", "STICK", "https://arweave.net/elder-stick"));
    assert_eq!(c.seller_fee_basis_points, 0);
    assert!(!c.is_mutable);
    assert_eq!(c.token_standard, TokenStandard::NonFungible);
    assert_eq!(c.print_supply, PrintSupply::Zero);
    assert_eq!(c.signer, signer);
    let m = cpis.mint;
    assert_eq!((m.token, m.token_owner, m.metadata, m.master_edition, m.mint), (key(15), key(14), key(12), key(13), key(11)));
    assert_eq!((m.authority, m.payer, m.system_program, m.sysvar_instructions), (key(10), key(16), key(19), key(20)));
    assert_eq!((m.spl_token_program, m.spl_ata_program, m.amount, m.signer), (key(17), key(18), 1, signer));
    assert_eq!(
        ctx.accounts.item_metadata,
        StateAccount { key: key(22), state: Some(ItemMetadata { item_type: 1, owner: key(14), mint: key(11), bump: 252 }) }
    );
}

#[test]
fn mint_item_refuses_other_caller() {
    let mut ctx = mint_ctx(3);
    assert_eq!(mint_item(&mut ctx, 0).unwrap_err(), ItemNftError::Unauthorized);
    // The caller check comes first.
    assert_eq!(mint_item(&mut ctx, 9).unwrap_err(), ItemNftError::Unauthorized);
    assert_eq!(ctx.accounts.item_metadata, no_record());
}

#[test]
fn mint_item_refuses_invalid_type() {
    let mut ctx = mint_ctx(2);
    assert_eq!(mint_item(&mut ctx, 4).unwrap_err(), ItemNftError::InvalidItemType);
    assert_eq!(ctx.accounts.item_metadata, no_record());
}

#[test]
fn mint_item_refuses_existing_record() {
    let mut ctx = mint_ctx(2);
    ctx.accounts.item_metadata.state = Some(record());
    assert_eq!(mint_item(&mut ctx, 0).unwrap_err(), ItemNftError::AccountAlreadyInitialized);
    assert_eq!(ctx.accounts.item_metadata.state, Some(record()));
    let mut ctx = mint_ctx(2);
    ctx.accounts.mint_exists = true;
    assert_eq!(mint_item(&mut ctx, 0).unwrap_err(), ItemNftError::AccountAlreadyInitialized);
    assert_eq!(ctx.accounts.item_metadata, no_record());
}

#[test]
fn burn_item_burns_one_token_and_closes_record() {
    let mut ctx = burn_ctx(3);
    let p = burn_item(&mut ctx).unwrap();
    assert_eq!(p.close, CloseAccount { account: key(35), destination: key(30) });
    assert_eq!(ctx.accounts.item_metadata, StateAccount { key: key(35), state: None });
    let b = p.burn;
    assert_eq!(
        b,
        BurnV1 {
            program: key(39),
            authority: key(30),
            metadata: key(32),
            edition: key(33),
            mint: key(31),
            token: key(34),
            system_program: key(37),
            sysvar_instructions: key(38),
            spl_token_program: key(36),
            amount: 1,
            signer: SignerSeeds { authority: AuthoritySeed::ItemAuthority, bump: 253 },
        }
    );
}

#[test]
fn burn_item_refuses_crafting_authority() {
    let mut ctx = burn_ctx(2);
    assert_eq!(burn_item(&mut ctx).unwrap_err(), ItemNftError::Unauthorized);
    assert_eq!(ctx.accounts.item_metadata.state, Some(record()));
}

#[test]
fn burn_item_refuses_token_account_of_another() {
    let mut ctx = burn_ctx(3);
    ctx.accounts.holder_ata.owner = key(40);
    assert_eq!(burn_item(&mut ctx).unwrap_err(), ItemNftError::ConstraintTokenOwner);
    assert_eq!(ctx.accounts.item_metadata.state, Some(record()));
    let mut ctx = burn_ctx(2);
    ctx.accounts.holder_ata.owner = key(40);
    assert_eq!(burn_item(&mut ctx).unwrap_err(), ItemNftError::ConstraintTokenOwner);
    let mut ctx = burn_ctx(3);
    ctx.accounts.holder_ata.mint = key(40);
    assert_eq!(burn_item(&mut ctx).unwrap_err(), ItemNftError::ConstraintAssociated);
    assert_eq!(ctx.accounts.item_metadata.state, Some(record()));
}

#[test]
fn burn_item_twice_is_refused() {
    let mut ctx = burn_ctx(3);
    assert!(burn_item(&mut ctx).is_ok());
    assert_eq!(burn_item(&mut ctx).unwrap_err(), ItemNftError::AccountNotInitialized);
}
