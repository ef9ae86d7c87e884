use game_programs::resource_manager::{mint_resources, GameConfig, MintResources};
use game_programs::common::{Clock, Context, Pubkey, StateAccount, TokenAccount};
use game_programs::search::{
    derive_random_resources, register_player, resource_type_from_digest, search_resources, PlayerState, RegisterPlayer,
    SearchError, SearchResources, RESOURCES_PER_SEARCH, RESOURCE_TYPE_COUNT, SEARCH_COOLDOWN_SECS,
};

fn key(n: u8) -> Pubkey {
    Pubkey { bytes: [n; 32] }
}

fn slot_hashes() -> Vec<u8> {
    let mut data = vec![1u8, 0, 0, 0, 0, 0, 0, 0, 9, 0, 0, 0, 0, 0, 0, 0];
    data.extend(1u8..=32);
    data
}

fn search_ctx(last: i64) -> Context<SearchResources> {
    Context {
        accounts: SearchResources {
            player: key(7),
            player_state: PlayerState { owner: key(7), last_search_timestamp: last, bump: 250 },
            search_authority: key(20),
            search_authority_bump: 249,
            resource_game_config: key(21),
            resource_authority: key(22),
            resource_manager_program: key(23),
            token_program: key(24),
            associated_token_program: key(25),
            system_program: key(26),
            slot_hashes_data: slot_hashes(),
        },
        remaining_accounts: (40u8..46).map(key).collect(),
    }
}

/// The seed layout hashed by a search, built independently of the library.
fn expected_types(data: &[u8], player: &Pubkey, slot: u64) -> Vec<u8> {
    let hash: Vec<u8> = if data.len() >= 48 { data[16..48].to_vec() } else { vec![0u8; 32] };
    (0u8..3)
        .map(|i| {
            let mut seed = hash.clone();
            seed.extend_from_slice(&slot.to_le_bytes());
            seed.push(i);
            seed.extend_from_slice(&player.bytes);
            anchor_lang::solana_program::keccak::hash(&seed).0[0] % 6
        })
        .collect()
}

#[test]
fn derive_random_resources_exact_values() {
    // Expected values computed with an independent Keccak-256.
    assert_eq!(derive_random_resources(&slot_hashes(), &key(7), 123456789), vec![3, 2, 2]);
    assert_eq!(derive_random_resources(&[], &key(7), 123456789), vec![2, 3, 0]);
    assert_eq!(derive_random_resources(&[0u8; 47], &key(3), 42), vec![3, 3, 2]);
}

#[test]
fn derive_random_resources_matches_seed_layout() {
    for slot in [0u64, 1, 77, u64::MAX] {
        for data in [slot_hashes(), vec![], vec![5u8; 100]] {
            let got = derive_random_resources(&data, &key(9), slot);
            assert_eq!(got, expected_types(&data, &key(9), slot));
            assert_eq!(got.len(), RESOURCES_PER_SEARCH);
            assert!(got.iter().all(|t| *t < RESOURCE_TYPE_COUNT));
        }
    }
}

#[test]
fn register_player_creates_state_once() {
    let mut ctx = Context {
        accounts: RegisterPlayer {
            player: key(7),
            player_state: StateAccount { key: key(70), state: None },
            system_program: key(26),
            player_state_bump: 253,
        },
        remaining_accounts: vec![],
    };
    assert_eq!(register_player(&mut ctx), Ok(()));
    let created = PlayerState { owner: key(7), last_search_timestamp: 0, bump: 253 };
    assert_eq!(ctx.accounts.player_state, StateAccount { key: key(70), state: Some(created) });
    // Registering again does not reset the search time.
    ctx.accounts.player_state.state = Some(PlayerState { last_search_timestamp: 900, ..created });
    assert_eq!(register_player(&mut ctx), Err(SearchError::AccountAlreadyInitialized));
    assert_eq!(ctx.accounts.player_state.state, Some(PlayerState { last_search_timestamp: 900, ..created }));
}

#[test]
fn resource_type_from_digest_values() {
    let mut digest = [0u8; 32];
    for (first, expected) in [(0u8, 0u8), (5, 5), (6, 0), (13, 1), (255, 3)] {
        digest[0] = first;
        assert_eq!(resource_type_from_digest(&digest), expected);
    }
}

#[test]
fn search_resources_mints_three_found_resources() {
    let mut ctx = search_ctx(0);
    let clock = Clock { slot: 123456789, unix_timestamp: 1_000 };
    let call = search_resources(&mut ctx, clock).unwrap();
    assert_eq!(call.resource_types, vec![3, 2, 2]);
    assert_eq!(call.amounts, vec![1, 1, 1]);
    assert_eq!(call.caller_authority, key(20));
    assert_eq!(call.player, key(7));
    assert_eq!(call.game_config, key(21));
    assert_eq!(call.program, key(23));
    assert_eq!(call.remaining_accounts, (40u8..46).map(key).collect::<Vec<_>>());
    assert_eq!(call.signer.bump, 249);
    assert_eq!(call.signer.authority.seed(), "search_authority");
    assert_eq!(ctx.accounts.player_state.last_search_timestamp, 1_000);
}

#[test]
fn search_resources_cooldown_law_on_values() {
    let mut ctx = search_ctx(0);
    assert!(search_resources(&mut ctx, Clock { slot: 1, unix_timestamp: 500 }).is_ok());
    // 59 seconds later: refused, state unchanged.
    let before = ctx.accounts.player_state;
    assert_eq!(
        search_resources(&mut ctx, Clock { slot: 2, unix_timestamp: 559 }).unwrap_err(),
        SearchError::CooldownNotElapsed
    );
    assert_eq!(ctx.accounts.player_state, before);
    // Exactly the cooldown later: allowed.
    assert!(search_resources(&mut ctx, Clock { slot: 3, unix_timestamp: 500 + SEARCH_COOLDOWN_SECS }).is_ok());
    assert_eq!(ctx.accounts.player_state.last_search_timestamp, 560);
}

#[test]
fn search_resources_first_search_needs_sixty_seconds_since_zero() {
    let mut ctx = search_ctx(0);
    assert_eq!(
        search_resources(&mut ctx, Clock { slot: 1, unix_timestamp: 59 }).unwrap_err(),
        SearchError::CooldownNotElapsed
    );
    assert!(search_resources(&mut ctx, Clock { slot: 1, unix_timestamp: 60 }).is_ok());
}

#[test]
fn search_resources_saturating_elapsed_time() {
    // now - last underflows i64: saturates to i64::MIN, so refused.
    let mut ctx = search_ctx(i64::MAX);
    assert_eq!(
        search_resources(&mut ctx, Clock { slot: 1, unix_timestamp: i64::MIN }).unwrap_err(),
        SearchError::CooldownNotElapsed
    );
    // now - last overflows i64: saturates to i64::MAX, so allowed.
    let mut ctx = search_ctx(i64::MIN);
    assert!(search_resources(&mut ctx, Clock { slot: 1, unix_timestamp: i64::MAX }).is_ok());
}

#[test]
fn search_resources_refuses_other_owner() {
    let mut ctx = search_ctx(0);
    ctx.accounts.player_state.owner = key(8);
    assert_eq!(
        search_resources(&mut ctx, Clock { slot: 1, unix_timestamp: 10_000 }).unwrap_err(),
        SearchError::NotPlayerOwner
    );
    assert_eq!(ctx.accounts.player_state.last_search_timestamp, 0);
}

#[test]
fn search_call_is_accepted_by_resource_program() {
    let mut ctx = search_ctx(0);
    // The found types for this slot hash, player and slot are [3, 2, 2].
    ctx.remaining_accounts = vec![key(103), key(200), key(102), key(201), key(102), key(202)];
    let call = search_resources(&mut ctx, Clock { slot: 123456789, unix_timestamp: 1_000 }).unwrap();
    let game = GameConfig {
        admin: key(1),
        resource_mints: [key(100), key(101), key(102), key(103), key(104), key(105)],
        search_program_authority: key(20),
        crafting_program_authority: key(30),
        bump: 1,
    };
    let mints = mint_resources(
        Context {
            accounts: MintResources {
                caller_authority: call.caller_authority,
                player: call.player,
                game_config: game,
                recipients: call
                    .remaining_accounts
                    .chunks(2)
                    .map(|pair| TokenAccount { key: pair[1], mint: pair[0], owner: call.player, amount: 0 })
                    .collect(),
                resource_authority: call.resource_authority,
                resource_authority_bump: 5,
                token_program: call.token_program,
                associated_token_program: call.associated_token_program,
                system_program: call.system_program,
            },
            remaining_accounts: call.remaining_accounts.clone(),
        },
        call.resource_types.clone(),
        call.amounts.clone(),
    )
    .unwrap();
    let minted: Vec<(Pubkey, Pubkey, u64)> = mints.iter().map(|m| (m.mint, m.to, m.amount)).collect();
    assert_eq!(minted, vec![(key(103), key(200), 1), (key(102), key(201), 1), (key(102), key(202), 1)]);
}
