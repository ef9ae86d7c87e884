use game_programs::common::{AccountMeta, AuthoritySeed, Burn, Context, CreateMint, MintTo, Pubkey, SignerSeeds, StateAccount, TokenAccount};
use game_programs::resource_manager::{
    burn_resources, init_resource_mint, initialize, mint_resources, set_authorities, BurnResources,
    GameConfig, InitResourceMint, Initialize, MintResources, ResourceError, ResourceType, SetAuthorities,
};

fn key(n: u8) -> Pubkey {
    Pubkey { bytes: [n; 32] }
}

const TOKEN_2022_ID: [u8; 32] = [
    6, 221, 246, 225, 238, 117, 143, 222, 24, 66, 93, 188, 228, 108, 205, 218, 182, 26, 252, 77, 131, 185, 13, 39,
    254, 189, 249, 40, 216, 161, 139, 252,
];

fn config() -> GameConfig {
    GameConfig {
        admin: key(1),
        resource_mints: [key(100), key(101), key(102), key(103), key(104), key(105)],
        search_program_authority: key(2),
        crafting_program_authority: key(3),
        bump: 254,
    }
}

fn init_ctx(config: GameConfig) -> Context<InitResourceMint> {
    Context {
        accounts: InitResourceMint {
            admin: key(1),
            game_config: config,
            mint: key(50),
            mint_exists: false,
            resource_authority: key(51),
            resource_authority_bump: 248,
            token_program: key(52),
            system_program: key(53),
        },
        remaining_accounts: vec![],
    }
}

fn blank_mints() -> GameConfig {
    GameConfig { resource_mints: [key(0); 6], ..config() }
}

/// The player's token accounts for the pairs `[mint, account, ...]`.
fn players_accounts(remaining: &[Pubkey]) -> Vec<TokenAccount> {
    remaining
        .chunks(2)
        .filter(|pair| pair.len() == 2)
        .map(|pair| TokenAccount { key: pair[1], mint: pair[0], owner: key(60), amount: 0 })
        .collect()
}

fn mint_ctx(caller: u8, remaining: Vec<Pubkey>) -> Context<MintResources> {
    Context {
        accounts: MintResources {
            caller_authority: key(caller),
            player: key(60),
            game_config: config(),
            recipients: players_accounts(&remaining),
            resource_authority: key(51),
            resource_authority_bump: 248,
            token_program: key(52),
            associated_token_program: key(54),
            system_program: key(53),
        },
        remaining_accounts: remaining,
    }
}

fn burn_ctx(caller: u8, remaining: Vec<Pubkey>) -> Context<BurnResources> {
    Context {
        accounts: BurnResources { caller_authority: key(caller), player: key(60), game_config: config(), token_program: key(52) },
        remaining_accounts: remaining,
    }
}

fn borsh_str(s: &str) -> Vec<u8> {
    let mut v = (s.len() as u32).to_le_bytes().to_vec();
    v.extend_from_slice(s.as_bytes());
    v
}

#[test]
fn resource_type_from_u8_names_symbols() {
    let all = [
        (ResourceType::Wood, "Wood", "WOOD"),
        (ResourceType::Iron, "Iron", "IRON"),
        (ResourceType::Gold, "Gold", "GOLD"),
        (ResourceType::Leather, "Leather", "LEATHER"),
        (ResourceType::Stone, "Stone", "STONE"),
        (ResourceType::Diamond, "Diamond", "DIAMOND"),
    ];
    for (i, (t, name, symbol)) in all.iter().enumerate() {
        assert_eq!(ResourceType::from_u8(i as u8), Some(*t));
        assert_eq!(t.name(), *name);
        assert_eq!(t.symbol(), *symbol);
    }
    assert_eq!(ResourceType::from_u8(6), None);
    assert_eq!(ResourceType::from_u8(200), None);
    assert_eq!(GameConfig::SIZE, 297);
}

#[test]
fn resource_manager_initialize_creates_config_once() {
    let mut ctx = Context {
        accounts: Initialize {
            admin: key(9),
            game_config: StateAccount { key: key(8), state: None },
            system_program: key(53),
            game_config_bump: 201,
        },
        remaining_accounts: vec![],
    };
    assert_eq!(initialize(&mut ctx), Ok(()));
    let created = GameConfig {
        admin: key(9),
        resource_mints: [key(0); 6],
        search_program_authority: key(0),
        crafting_program_authority: key(0),
        bump: 201,
    };
    assert_eq!(ctx.accounts.game_config.state, Some(created));
    // A second initialization does not overwrite the admin.
    ctx.accounts.admin = key(10);
    assert_eq!(initialize(&mut ctx), Err(ResourceError::AccountAlreadyInitialized));
    assert_eq!(ctx.accounts.game_config.state, Some(created));
}

#[test]
fn resource_manager_set_authorities_only_by_admin() {
    let mut ctx = Context { accounts: SetAuthorities { admin: key(1), game_config: config() }, remaining_accounts: vec![] };
    assert_eq!(set_authorities(&mut ctx, key(70), key(71)), Ok(()));
    assert_eq!(
        ctx.accounts.game_config,
        GameConfig { search_program_authority: key(70), crafting_program_authority: key(71), ..config() }
    );
    let mut ctx = Context { accounts: SetAuthorities { admin: key(2), game_config: config() }, remaining_accounts: vec![] };
    assert_eq!(set_authorities(&mut ctx, key(70), key(71)), Err(ResourceError::ConstraintHasOne));
    assert_eq!(ctx.accounts.game_config, config());
}

#[test]
fn init_resource_mint_records_mint_and_builds_metadata_instruction() {
    let mut ctx = init_ctx(blank_mints());
    let cpis = init_resource_mint(&mut ctx, 3, "https://x.io/leather".to_string()).unwrap();
    assert_eq!(
        cpis.create_mint,
        CreateMint {
            mint: key(50),
            payer: key(1),
            token_program: key(52),
            decimals: 0,
            mint_authority: key(51),
            freeze_authority: Some(key(51)),
            metadata_pointer: Some((key(51), key(50))),
        }
    );
    let invoke = cpis.init_metadata;
    let mut mints = [key(0); 6];
    mints[3] = key(50);
    assert_eq!(ctx.accounts.game_config, GameConfig { resource_mints: mints, ..blank_mints() });
    let ix = &invoke.instruction;
    assert_eq!(ix.program_id.bytes, TOKEN_2022_ID);
    assert_eq!(ix.program_id.bytes, spl_token_2022::id().to_bytes());
    assert_eq!(
        ix.accounts,
        vec![
            AccountMeta { pubkey: key(50), is_signer: false, is_writable: true },
            AccountMeta { pubkey: key(51), is_signer: false, is_writable: false },
            AccountMeta { pubkey: key(50), is_signer: false, is_writable: false },
            AccountMeta { pubkey: key(51), is_signer: true, is_writable: false },
        ]
    );
    let mut data = vec![210u8, 225, 30, 162, 88, 184, 77, 141];
    data.extend(borsh_str("Leather"));
    data.extend(borsh_str("LEATHER"));
    data.extend(borsh_str("https://x.io/leather"));
    assert_eq!(ix.data, data);
    assert_eq!(invoke.account_infos, [key(50), key(51)]);
    assert_eq!(invoke.signer, SignerSeeds { authority: AuthoritySeed::ResourceAuthority, bump: 248 });
}

#[test]
fn init_resource_mint_errors_leave_state() {
    let mut ctx = init_ctx(blank_mints());
    assert_eq!(init_resource_mint(&mut ctx, 6, String::new()).unwrap_err(), ResourceError::InvalidResourceType);
    assert_eq!(ctx.accounts.game_config, blank_mints());
    let mut ctx = init_ctx(config());
    assert_eq!(init_resource_mint(&mut ctx, 0, String::new()).unwrap_err(), ResourceError::MintAlreadyInitialized);
    assert_eq!(ctx.accounts.game_config, config());
    let mut ctx = init_ctx(blank_mints());
    ctx.accounts.mint_exists = true;
    assert_eq!(init_resource_mint(&mut ctx, 0, String::new()).unwrap_err(), ResourceError::AccountAlreadyInitialized);
    assert_eq!(ctx.accounts.game_config, blank_mints());
}

#[test]
fn init_resource_mint_only_by_admin() {
    let mut ctx = init_ctx(blank_mints());
    ctx.accounts.admin = key(2);
    assert_eq!(init_resource_mint(&mut ctx, 1, String::new()).unwrap_err(), ResourceError::ConstraintHasOne);
    assert_eq!(ctx.accounts.game_config, blank_mints());
    ctx.accounts.mint_exists = true;
    assert_eq!(init_resource_mint(&mut ctx, 1, String::new()).unwrap_err(), ResourceError::AccountAlreadyInitialized);
}

#[test]
fn init_resource_mint_only_once_per_type() {
    let mut ctx = init_ctx(blank_mints());
    assert!(init_resource_mint(&mut ctx, 5, "u".to_string()).is_ok());
    assert_eq!(init_resource_mint(&mut ctx, 5, "u".to_string()).unwrap_err(), ResourceError::MintAlreadyInitialized);
    // Another type is still free.
    assert!(init_resource_mint(&mut ctx, 4, "u".to_string()).is_ok());
}

#[test]
fn mint_resources_mints_each_entry() {
    let remaining = vec![key(101), key(200), key(105), key(201)];
    let mints = mint_resources(mint_ctx(2, remaining), vec![1, 5], vec![3, 4]).unwrap();
    let signer = Some(SignerSeeds { authority: AuthoritySeed::ResourceAuthority, bump: 248 });
    assert_eq!(
        mints,
        vec![
            MintTo { token_program: key(52), mint: key(101), to: key(200), authority: key(51), amount: 3, signer },
            MintTo { token_program: key(52), mint: key(105), to: key(201), authority: key(51), amount: 4, signer },
        ]
    );
    assert_eq!(mint_resources(mint_ctx(2, vec![]), vec![], vec![]), Ok(vec![]));
}

#[test]
fn mint_resources_errors() {
    let rem = vec![key(101), key(200)];
    assert_eq!(mint_resources(mint_ctx(2, rem.clone()), vec![1], vec![1, 2]), Err(ResourceError::InvalidArgs));
    assert_eq!(mint_resources(mint_ctx(2, vec![key(101)]), vec![1], vec![1]), Err(ResourceError::InvalidArgs));
    assert_eq!(mint_resources(mint_ctx(3, rem.clone()), vec![1], vec![1]), Err(ResourceError::Unauthorized));
    assert_eq!(mint_resources(mint_ctx(2, rem.clone()), vec![6], vec![1]), Err(ResourceError::InvalidResourceType));
    assert_eq!(mint_resources(mint_ctx(2, rem.clone()), vec![2], vec![1]), Err(ResourceError::InvalidMint));
    // The token account must be the player's account of the entry's mint.
    let mut wrong_owner = mint_ctx(2, rem.clone());
    wrong_owner.accounts.recipients[0].owner = key(61);
    assert_eq!(mint_resources(wrong_owner, vec![1], vec![1]), Err(ResourceError::InvalidRecipient));
    let mut wrong_mint = mint_ctx(2, rem.clone());
    wrong_mint.accounts.recipients[0].mint = key(102);
    assert_eq!(mint_resources(wrong_mint, vec![1], vec![1]), Err(ResourceError::InvalidRecipient));
    let mut wrong_key = mint_ctx(2, rem.clone());
    wrong_key.accounts.recipients[0].key = key(250);
    assert_eq!(mint_resources(wrong_key, vec![1], vec![1]), Err(ResourceError::InvalidRecipient));
    let mut missing = mint_ctx(2, rem.clone());
    missing.accounts.recipients.clear();
    assert_eq!(mint_resources(missing, vec![1], vec![1]), Err(ResourceError::InvalidRecipient));
    // The first bad entry decides the error.
    let rem2 = vec![key(9), key(200), key(101), key(201)];
    assert_eq!(mint_resources(mint_ctx(2, rem2.clone()), vec![1, 7], vec![1, 1]), Err(ResourceError::InvalidMint));
    assert_eq!(mint_resources(mint_ctx(2, rem2), vec![7, 1], vec![1, 1]), Err(ResourceError::InvalidResourceType));
}

#[test]
fn burn_resources_burns_each_entry() {
    let remaining = vec![key(100), key(200), key(103), key(201)];
    assert_eq!(
        burn_resources(burn_ctx(3, remaining), vec![0, 3], vec![2, 9]),
        Ok(vec![
            Burn { token_program: key(52), mint: key(100), from: key(200), authority: key(60), amount: 2, signer: None },
            Burn { token_program: key(52), mint: key(103), from: key(201), authority: key(60), amount: 9, signer: None },
        ])
    );
}

#[test]
fn burn_resources_errors() {
    let rem = vec![key(100), key(200)];
    assert_eq!(burn_resources(burn_ctx(3, rem.clone()), vec![0, 1], vec![1, 1]), Err(ResourceError::InvalidArgs));
    assert_eq!(burn_resources(burn_ctx(2, rem.clone()), vec![0], vec![1]), Err(ResourceError::Unauthorized));
    assert_eq!(burn_resources(burn_ctx(3, rem.clone()), vec![9], vec![1]), Err(ResourceError::InvalidResourceType));
    assert_eq!(burn_resources(burn_ctx(3, rem), vec![4], vec![1]), Err(ResourceError::InvalidMint));
}

#[test]
fn set_authorities_are_the_ones_checked() {
    let mut ctx = Context { accounts: SetAuthorities { admin: key(1), game_config: config() }, remaining_accounts: vec![] };
    set_authorities(&mut ctx, key(80), key(81)).unwrap();
    let cfg = ctx.accounts.game_config;
    let mut m = mint_ctx(80, vec![key(100), key(1)]);
    m.accounts.recipients = players_accounts(&m.remaining_accounts);
    m.accounts.game_config = cfg;
    assert!(mint_resources(m.clone(), vec![0], vec![1]).is_ok());
    m.accounts.caller_authority = key(2);
    assert_eq!(mint_resources(m, vec![0], vec![1]), Err(ResourceError::Unauthorized));
    let mut b = burn_ctx(81, vec![key(100), key(1)]);
    b.accounts.game_config = cfg;
    assert!(burn_resources(b.clone(), vec![0], vec![1]).is_ok());
    b.accounts.caller_authority = key(80);
    assert_eq!(burn_resources(b, vec![0], vec![1]), Err(ResourceError::Unauthorized));
}

#[test]
fn burn_resources_undoes_a_mint() {
    let remaining = vec![key(101), key(200), key(105), key(201)];
    let mints = mint_resources(mint_ctx(2, remaining.clone()), vec![1, 5], vec![3, 4]).unwrap();
    let burns = burn_resources(burn_ctx(3, remaining), vec![1, 5], vec![3, 4]).unwrap();
    for (m, b) in mints.iter().zip(&burns) {
        assert_eq!((b.mint, b.from, b.amount, b.authority), (m.mint, m.to, m.amount, key(60)));
    }
}
