use game_programs::common::{AuthoritySeed, Context, Pubkey, SignerSeeds, StateAccount};
use game_programs::crafting::{craft_item, initialize, CraftItem, CraftingConfig, CraftingError, Initialize};
use game_programs::item_nft::{mint_item, ItemConfig, ItemMetadata, MintItem, MintItemCpi};
use game_programs::resource_manager::{burn_resources, BurnResources, GameConfig};

fn key(n: u8) -> Pubkey {
    Pubkey { bytes: [n; 32] }
}

fn craft_ctx(extra: u8) -> Context<CraftItem> {
    Context {
        accounts: CraftItem {
            player: key(1),
            config: CraftingConfig { admin: key(2), bump: 254, crafting_authority_bump: 247 },
            crafting_authority: key(3),
            resource_game_config: key(4),
            resource_manager_program: key(5),
            item_config: key(6),
            item_authority: key(7),
            item_nft_program: key(8),
            token_program: key(9),
            spl_token_program: key(10),
            associated_token_program: key(11),
            system_program: key(12),
        },
        remaining_accounts: (100..100 + extra).map(key).collect(),
    }
}

#[test]
fn crafting_initialize_creates_config_once() {
    let mut ctx = Context {
        accounts: Initialize {
            admin: key(2),
            config: StateAccount { key: key(13), state: None },
            crafting_authority: key(3),
            system_program: key(12),
            config_bump: 254,
            crafting_authority_bump: 247,
        },
        remaining_accounts: vec![],
    };
    assert_eq!(initialize(&mut ctx), Ok(()));
    let created = CraftingConfig { admin: key(2), bump: 254, crafting_authority_bump: 247 };
    assert_eq!(ctx.accounts.config, StateAccount { key: key(13), state: Some(created) });
    ctx.accounts.admin = key(4);
    assert_eq!(initialize(&mut ctx), Err(CraftingError::AccountAlreadyInitialized));
    assert_eq!(ctx.accounts.config.state, Some(created));
    assert_eq!(CraftingConfig::SIZE, 42);
}

#[test]
fn craft_item_recipes() {
    let expected: [(Vec<u8>, Vec<u64>); 4] = [
        (vec![1, 0, 3], vec![3, 1, 1]),
        (vec![0, 2, 5], vec![2, 1, 1]),
        (vec![3, 1, 2], vec![4, 2, 1]),
        (vec![1, 2, 5], vec![4, 2, 2]),
    ];
    for (t, (types, amounts)) in expected.iter().enumerate() {
        let p = craft_item(craft_ctx(13), t as u8).unwrap();
        assert_eq!(&p.burn.resource_types, types);
        assert_eq!(&p.burn.amounts, amounts);
        assert_eq!(p.mint.item_type, t as u8);
    }
}

#[test]
fn craft_item_calls_use_the_account_layout() {
    let p = craft_item(craft_ctx(13), 2).unwrap();
    let signer = SignerSeeds { authority: AuthoritySeed::CraftingAuthority, bump: 247 };
    assert_eq!(p.burn.program, key(5));
    assert_eq!(p.burn.caller_authority, key(3));
    assert_eq!(p.burn.player, key(1));
    assert_eq!(p.burn.game_config, key(4));
    assert_eq!(p.burn.token_program, key(9));
    assert_eq!(p.burn.remaining_accounts, (100..106).map(key).collect::<Vec<_>>());
    assert_eq!(p.burn.signer, signer);
    assert_eq!(
        p.mint,
        MintItemCpi {
            program: key(8),
            caller_authority: key(3),
            config: key(6),
            item_authority: key(7),
            mint: key(106),
            metadata: key(108),
            master_edition: key(109),
            player: key(1),
            player_ata: key(107),
            item_metadata: key(112),
            fee_payer: key(1),
            token_program: key(10),
            associated_token_program: key(11),
            system_program: key(12),
            sysvar_instructions: key(110),
            token_metadata_program: key(111),
            item_type: 2,
            signer,
        }
    );
}

#[test]
fn craft_item_errors() {
    assert_eq!(craft_item(craft_ctx(13), 4).unwrap_err(), CraftingError::InvalidItemType);
    assert_eq!(craft_item(craft_ctx(0), 200).unwrap_err(), CraftingError::InvalidItemType);
    assert_eq!(craft_item(craft_ctx(9), 0).unwrap_err(), CraftingError::InvalidRemainingAccounts);
    assert_eq!(craft_item(craft_ctx(0), 3).unwrap_err(), CraftingError::InvalidRemainingAccounts);
    assert!(craft_item(craft_ctx(20), 3).is_ok());
}

#[test]
fn craft_item_calls_are_accepted_by_the_other_programs() {
    // Resource mints recorded so that the player's extra accounts match the recipe of Armour (Leather, Iron, Gold).
    let mut mints = [key(0); 6];
    mints[3] = key(100);
    mints[1] = key(102);
    mints[2] = key(104);
    let game = GameConfig {
        admin: key(2),
        resource_mints: mints,
        search_program_authority: key(30),
        crafting_program_authority: key(3),
        bump: 1,
    };
    let p = craft_item(craft_ctx(13), 2).unwrap();
    let burns = burn_resources(
        Context {
            accounts: BurnResources {
                caller_authority: p.burn.caller_authority,
                player: p.burn.player,
                game_config: game,
                token_program: p.burn.token_program,
            },
            remaining_accounts: p.burn.remaining_accounts.clone(),
        },
        p.burn.resource_types.clone(),
        p.burn.amounts.clone(),
    )
    .unwrap();
    let burnt: Vec<(Pubkey, Pubkey, u64)> = burns.iter().map(|b| (b.mint, b.from, b.amount)).collect();
    assert_eq!(burnt, vec![(key(100), key(101), 4), (key(102), key(103), 2), (key(104), key(105), 1)]);
    assert!(burns.iter().all(|b| b.authority == key(1)));

    let items = ItemConfig {
        admin: key(2),
        crafting_program_authority: key(3),
        marketplace_program_authority: key(31),
        bump: 1,
        item_authority_bump: 2,
    };
    let m = p.mint;
    let mut item_ctx = Context {
        accounts: MintItem {
            caller_authority: m.caller_authority,
            config: items,
            item_authority: m.item_authority,
            mint: m.mint,
            mint_exists: false,
            metadata: m.metadata,
            master_edition: m.master_edition,
            player: m.player,
            player_ata: m.player_ata,
            item_metadata: StateAccount { key: m.item_metadata, state: None },
            item_metadata_bump: 3,
            fee_payer: m.fee_payer,
            token_program: m.token_program,
            associated_token_program: m.associated_token_program,
            system_program: m.system_program,
            sysvar_instructions: m.sysvar_instructions,
            token_metadata_program: m.token_metadata_program,
        },
        remaining_accounts: vec![],
    };
    let created = mint_item(&mut item_ctx, m.item_type).unwrap();
    assert_eq!(created.create.name, "Armour");
    assert_eq!(
        item_ctx.accounts.item_metadata.state,
        Some(ItemMetadata { item_type: 2, owner: key(1), mint: key(106), bump: 3 })
    );
}
