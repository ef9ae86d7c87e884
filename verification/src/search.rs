//! The search program: a registered player may search once per cooldown
//! period and finds three pseudo-random resources, which the resource
//! program mints to the player.
use vstd::prelude::*;
use crate::common::{AuthoritySeed, Clock, Context, Pubkey, SignerSeeds, StateAccount};
use crate::outside::{keccak256, keccak_hash};
use crate::resource_manager::MintResourcesCpi;

verus! {

/// Seconds a player must wait between searches.
pub const SEARCH_COOLDOWN_SECS: i64 = 60;

/// Number of resources found per search.
pub const RESOURCES_PER_SEARCH: usize = 3;

/// Number of distinct resource types.
pub const RESOURCE_TYPE_COUNT: u8 = 6;

/// Per-player state of the search program.
#[derive(Clone, Copy, PartialEq, Eq, Debug)]
pub struct PlayerState {
    pub owner: Pubkey,
    pub last_search_timestamp: i64,
    pub bump: u8,
}

impl PlayerState {
    pub const SIZE: usize = 8 + 32 + 8 + 1;
}

#[derive(Clone, Copy, PartialEq, Eq, Debug)]
pub enum SearchError {
    /// Search cooldown has not elapsed (60 seconds required).
    CooldownNotElapsed,
    /// Signer is not the owner of this player state account.
    NotPlayerOwner,
    /// The account to create exists already (account validation: `init`).
    AccountAlreadyInitialized,
}

/// Accounts of `register_player`, with the bump found for the player state.
#[derive(Clone, Copy, PartialEq, Eq, Debug)]
pub struct RegisterPlayer {
    pub player: Pubkey,
    /// The player state account to create.
    pub player_state: StateAccount<PlayerState>,
    pub system_program: Pubkey,
    pub player_state_bump: u8,
}

/// Accounts of `search_resources`; the extra accounts
/// (`[mint_0, player_ata_0, mint_1, player_ata_1, mint_2, player_ata_2]`)
/// are passed on to the resource program.
#[derive(Clone, Debug)]
pub struct SearchResources {
    pub player: Pubkey,
    pub player_state: PlayerState,
    /// The search program's authority address, which signs the call.
    pub search_authority: Pubkey,
    pub search_authority_bump: u8,
    pub resource_game_config: Pubkey,
    pub resource_authority: Pubkey,
    pub resource_manager_program: Pubkey,
    pub token_program: Pubkey,
    pub associated_token_program: Pubkey,
    pub system_program: Pubkey,
    /// The data of the SlotHashes sysvar account.
    pub slot_hashes_data: Vec<u8>,
}

/// `a - b`, clamped to the range of `i64`.
pub open spec fn saturating_sub_i64(a: i64, b: i64) -> i64 {
    if a - b > i64::MAX {
        i64::MAX
    } else if a - b < i64::MIN {
        i64::MIN
    } else {
        (a - b) as i64
    }
}

fn saturating_sub(a: i64, b: i64) -> (r: i64)
    ensures
        r == saturating_sub_i64(a, b),
{
    let d: i128 = a as i128 - b as i128;
    if d > i64::MAX as i128 {
        i64::MAX
    } else if d < i64::MIN as i128 {
        i64::MIN
    } else {
        d as i64
    }
}

/// Whether a search at time `now` is allowed after one at time `last`.
pub open spec fn cooldown_elapsed(last: i64, now: i64) -> bool {
    saturating_sub_i64(now, last) >= SEARCH_COOLDOWN_SECS
}

/// The most recent slot hash in the SlotHashes data (an 8-byte count, then
/// 8-byte slot and 32-byte hash pairs), or 32 zero bytes if the data is too
/// short to hold one.
pub open spec fn latest_slot_hash(data: Seq<u8>) -> Seq<u8> {
    if data.len() >= 48 {
        data.subrange(16, 48)
    } else {
        Seq::new(32, |i: int| 0u8)
    }
}

/// The 8 little-endian bytes of `x`.
pub open spec fn le_u64_bytes(x: u64) -> Seq<u8> {
    Seq::new(8, |k: int| ((x >> (8 * k) as u64) & 0xff) as u8)
}

/// The bytes hashed for the `i`-th resource of a search: the latest slot
/// hash, the slot, the index and the player's address.
pub open spec fn search_seed(data: Seq<u8>, player: Pubkey, slot: u64, i: u8) -> Seq<u8> {
    latest_slot_hash(data) + le_u64_bytes(slot) + seq![i] + player.bytes@
}

/// The three resource types found by a search: for each index, the first
/// byte of the Keccak-256 digest of its seed, modulo the number of types.
pub open spec fn random_resources(data: Seq<u8>, player: Pubkey, slot: u64) -> Seq<u8> {
    Seq::new(3, |i: int| resource_from_digest(keccak256(search_seed(data, player, slot, i as u8))))
}

/// The resource type number that a Keccak-256 digest selects: its first
/// byte modulo the number of resource types.
pub open spec fn resource_from_digest(digest: Seq<u8>) -> u8 {
    (digest[0] % 6) as u8
}

/// The resource type number that a Keccak-256 digest selects.
pub fn resource_type_from_digest(digest: &[u8; 32]) -> (t: u8)
    ensures
        t == resource_from_digest(digest@),
        t < RESOURCE_TYPE_COUNT,
{
    digest[0] % RESOURCE_TYPE_COUNT
}

/// Appends `src` to `dst`.
fn push_all(dst: &mut Vec<u8>, src: &[u8])
    ensures
        final(dst)@ == old(dst)@ + src@,
{
    let mut i: usize = 0;
    while i < src.len()
        invariant
            0 <= i <= src@.len(),
            dst@ == old(dst)@ + src@.subrange(0, i as int),
        decreases src@.len() - i,
    {
        dst.push(src[i]);
        i = i + 1;
        proof {
            assert(dst@ =~= old(dst)@ + src@.subrange(0, i as int));
        }
    }
    proof {
        assert(src@.subrange(0, src@.len() as int) =~= src@);
    }
}

/// The latest slot hash of the SlotHashes data.
fn latest_slot_hash_bytes(data: &[u8]) -> (h: Vec<u8>)
    ensures
        h@ == latest_slot_hash(data@),
        data@.len() >= 48 ==> h@ == data@.subrange(16, 48),
        data@.len() < 48 ==> h@.len() == 32 && forall|k: int| 0 <= k < 32 ==> h@[k] == 0,
{
    let mut h: Vec<u8> = Vec::new();
    if data.len() >= 48 {
        let mut i: usize = 16;
        while i < 48
            invariant
                16 <= i <= 48,
                data@.len() >= 48,
                h@ == data@.subrange(16, i as int),
            decreases 48 - i,
        {
            h.push(data[i]);
            i = i + 1;
            proof {
                assert(h@ =~= data@.subrange(16, i as int));
            }
        }
    } else {
        let mut i: usize = 0;
        while i < 32
            invariant
                0 <= i <= 32,
                h@ == Seq::new(i as nat, |k: int| 0u8),
            decreases 32 - i,
        {
            h.push(0u8);
            i = i + 1;
            proof {
                assert(h@ =~= Seq::new(i as nat, |k: int| 0u8));
            }
        }
    }
    h
}

/// Derive three pseudo-random resource type numbers (0 to 5) from the
/// SlotHashes data, the player's address and the slot. Not secure
/// randomness: anyone who knows the slot can predict the result.
pub fn derive_random_resources(slot_hashes_data: &[u8], player: &Pubkey, slot: u64) -> (types: Vec<u8>)
    ensures
        types@ == random_resources(slot_hashes_data@, *player, slot),
        slot_hashes_data@.len() >= 48 ==> forall|i: int| 0 <= i < 3 ==> types@[i] == resource_from_digest(keccak256(
            #[trigger] slot_hashes_data@.subrange(16, 48) + le_u64_bytes(slot) + seq![i as u8] + player.bytes@,
        )),
        types@.len() == RESOURCES_PER_SEARCH,
        forall|i: int| 0 <= i < types@.len() ==> types@[i] < RESOURCE_TYPE_COUNT,
{
    let hash_bytes = latest_slot_hash_bytes(slot_hashes_data);
    let mut types: Vec<u8> = Vec::new();
    let mut i: u8 = 0;
    while i < 3
        invariant
            0 <= i <= 3,
            hash_bytes@ == latest_slot_hash(slot_hashes_data@),
            types@ == random_resources(slot_hashes_data@, *player, slot).subrange(0, i as int),
        decreases 3 - i,
    {
        let mut seed: Vec<u8> = Vec::new();
        push_all(&mut seed, hash_bytes.as_slice());
        let mut k: u64 = 0;
        while k < 8
            invariant
                0 <= k <= 8,
                seed@ == latest_slot_hash(slot_hashes_data@) + le_u64_bytes(slot).subrange(0, k as int),
            decreases 8 - k,
        {
            seed.push(((slot >> (8 * k)) & 0xff) as u8);
            k = k + 1;
            proof {
                assert(seed@ =~= latest_slot_hash(slot_hashes_data@) + le_u64_bytes(slot).subrange(0, k as int));
            }
        }
        proof {
            assert(le_u64_bytes(slot).subrange(0, 8) =~= le_u64_bytes(slot));
        }
        seed.push(i);
        push_all(&mut seed, player.bytes.as_slice());
        proof {
            assert(seed@ =~= search_seed(slot_hashes_data@, *player, slot, i));
        }
        let digest = keccak_hash(&seed);
        types.push(resource_type_from_digest(&digest));
        i = i + 1;
        proof {
            assert(types@ =~= random_resources(slot_hashes_data@, *player, slot).subrange(0, i as int));
        }
    }
    proof {
        assert(types@ =~= random_resources(slot_hashes_data@, *player, slot));
    }
    types
}

/// Register a new player: the player's state names its owner and has never
/// searched. A player registers once.
pub fn register_player(ctx: &mut Context<RegisterPlayer>) -> (r: Result<(), SearchError>)
    ensures
        final(ctx).remaining_accounts == old(ctx).remaining_accounts,
        match r {
            Err(e) => {
                &&& e == SearchError::AccountAlreadyInitialized
                &&& old(ctx).accounts.player_state.state is Some
                &&& *final(ctx) == *old(ctx)
            },
            Ok(_) => {
                &&& old(ctx).accounts.player_state.state is None
                &&& final(ctx).accounts == (RegisterPlayer {
                    player_state: StateAccount {
                        state: Some(PlayerState {
                            owner: old(ctx).accounts.player,
                            last_search_timestamp: 0,
                            bump: old(ctx).accounts.player_state_bump,
                        }),
                        ..old(ctx).accounts.player_state
                    },
                    ..old(ctx).accounts
                })
            },
        },
{
    if ctx.accounts.player_state.state.is_some() {
        return Err(SearchError::AccountAlreadyInitialized);
    }
    ctx.accounts.player_state.state = Some(PlayerState {
        owner: ctx.accounts.player,
        last_search_timestamp: 0,
        bump: ctx.accounts.player_state_bump,
    });
    Ok(())
}

/// Why `search_resources` refuses at time `now`, if it does.
pub open spec fn search_error(a: SearchResources, now: i64) -> Option<SearchError> {
    if a.player_state.owner != a.player {
        Some(SearchError::NotPlayerOwner)
    } else if !cooldown_elapsed(a.player_state.last_search_timestamp, now) {
        Some(SearchError::CooldownNotElapsed)
    } else {
        None
    }
}

/// The call of the resource program by which a search at `clock` mints the
/// found resources, one of each, to the player.
pub open spec fn is_search_cpi(c: MintResourcesCpi, a: SearchResources, remaining: Seq<Pubkey>, clock: Clock) -> bool {
    &&& c.program == a.resource_manager_program
    &&& c.caller_authority == a.search_authority
    &&& c.player == a.player
    &&& c.game_config == a.resource_game_config
    &&& c.resource_authority == a.resource_authority
    &&& c.token_program == a.token_program
    &&& c.associated_token_program == a.associated_token_program
    &&& c.system_program == a.system_program
    &&& c.remaining_accounts@ == remaining
    &&& c.resource_types@ == random_resources(a.slot_hashes_data@, a.player, clock.slot)
    &&& c.amounts@ == seq![1u64, 1u64, 1u64]
    &&& c.signer == (SignerSeeds { authority: AuthoritySeed::SearchAuthority, bump: a.search_authority_bump })
}

/// Search for resources: at most once per cooldown period; returns the call
/// that mints the three found resources and records the search time.
pub fn search_resources(ctx: &mut Context<SearchResources>, clock: Clock) -> (r: Result<MintResourcesCpi, SearchError>)
    ensures
        match r {
            Err(e) => {
                &&& search_error(old(ctx).accounts, clock.unix_timestamp) == Some(e)
                &&& *final(ctx) == *old(ctx)
            },
            Ok(c) => {
                &&& search_error(old(ctx).accounts, clock.unix_timestamp) is None
                &&& is_search_cpi(c, old(ctx).accounts, old(ctx).remaining_accounts@, clock)
                &&& final(ctx).remaining_accounts == old(ctx).remaining_accounts
                &&& final(ctx).accounts == (SearchResources {
                    player_state: PlayerState {
                        last_search_timestamp: clock.unix_timestamp,
                        ..old(ctx).accounts.player_state
                    },
                    ..old(ctx).accounts
                })
            },
        },
{
    if !ctx.accounts.player_state.owner.key_eq(&ctx.accounts.player) {
        return Err(SearchError::NotPlayerOwner);
    }
    let now = clock.unix_timestamp;
    let elapsed = saturating_sub(now, ctx.accounts.player_state.last_search_timestamp);
    if elapsed < SEARCH_COOLDOWN_SECS {
        return Err(SearchError::CooldownNotElapsed);
    }
    let resource_types = derive_random_resources(ctx.accounts.slot_hashes_data.as_slice(), &ctx.accounts.player, clock.slot);
    let amounts: Vec<u64> = vec![1u64, 1u64, 1u64];
    let a = &ctx.accounts;
    let call = MintResourcesCpi {
        program: a.resource_manager_program,
        caller_authority: a.search_authority,
        player: a.player,
        game_config: a.resource_game_config,
        resource_authority: a.resource_authority,
        token_program: a.token_program,
        associated_token_program: a.associated_token_program,
        system_program: a.system_program,
        remaining_accounts: ctx.remaining_accounts.clone(),
        resource_types,
        amounts,
        signer: SignerSeeds { authority: AuthoritySeed::SearchAuthority, bump: a.search_authority_bump },
    };
    ctx.accounts.player_state.last_search_timestamp = now;
    Ok(call)
}

} // verus!
