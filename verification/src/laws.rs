//! Properties of the game that span its programs or its calls: what one
//! program asks of another is what the other accepts, what one call writes
//! decides what the next call may do, and what one call undoes of another.
use vstd::prelude::*;
use crate::common::{Clock, Pubkey, StateAccount, TokenAccount};
use crate::crafting::{CraftCpis, CraftItem, craft_item_error, is_craft_cpis, recipe_amounts, recipe_types};
use crate::item_nft::{
    self, BurnItem, ItemConfig, ItemMetadata, MintItem, burn_item_accounts_of, burn_item_cpi, burn_item_error,
    item_mint_creation,
    item_type_of, mint_item_accounts_of, mint_item_error, minted_record, record_after_burn, record_after_mint,
};
use crate::magic_token::{
    self, BurnMagicTokens, MagicTokenConfig, MintMagicTokens, burn_error, burn_magic_tokens_accounts_of,
    burn_magic_tokens_cpi, currency_error, currency_mint_creation, mint_magic_tokens_accounts_of, mint_magic_tokens_cpi,
    set_marketplace_authority_error,
};
use crate::marketplace::{
    BuyItem, CancelListing, ListItem, Listing, SellItem, buy_cpis, buy_item_error, list_item_error, listing_error, offer_error,
    sell_cpis, MarketplaceError,
};
use crate::resource_manager::{
    self, BurnResources, GameConfig, InitResourceMint, MintResources, MintResourcesCpi, ResourceError,
    burn_resources_accounts_of, burn_resources_error, entries_error, init_resource_mint_error,
    lemma_entries_accepted, law_entries_use_recorded_mints, mint_resources_accounts_of, mint_resources_error,
    recipient_ok, request_error, resource_burn_cpi, resource_mint_cpi, resource_mint_creation, resource_type_of,
};
use crate::search::{
    PlayerState, SearchError, SearchResources, is_search_cpi, latest_slot_hash, le_u64_bytes, random_resources,
    search_error, search_seed,
};

verus! {

/// A recipe exists for exactly the numbers that name an item type, and every
/// recipe lists three resource types, each naming a resource, with a
/// positive amount of each.
pub proof fn law_recipes_are_well_formed(t: u8)
    ensures
        recipe_types(t).len() > 0 <==> item_type_of(t) is Some,
        item_type_of(t) is Some ==> {
            &&& recipe_types(t).len() == 3
            &&& recipe_amounts(t).len() == 3
            &&& forall|i: int| 0 <= i < 3 ==> resource_type_of(#[trigger] recipe_types(t)[i]) is Some
            &&& forall|i: int| 0 <= i < 3 ==> #[trigger] recipe_amounts(t)[i] > 0
        },
{
}

/// The burn that crafting asks of the resource program is accepted whenever
/// the resource program lets the crafting authority burn and the player's
/// first, third and fifth extra accounts are the recorded mints of the
/// recipe's resources; it then burns exactly the recipe, from the player's
/// accounts, with the player's signature.
pub proof fn law_craft_burn_is_accepted(p: CraftCpis, a: CraftItem, remaining: Seq<Pubkey>, t: u8, config: GameConfig)
    requires
        craft_item_error(remaining, t) is None,
        is_craft_cpis(p, a, remaining, t),
        config.crafting_program_authority == a.crafting_authority,
        forall|i: int| 0 <= i < 3 ==> remaining[2 * i] == config.resource_mints@[#[trigger] recipe_types(t)[i] as int],
    ensures
        burn_resources_error(
            burn_resources_accounts_of(p.burn, config),
            p.burn.remaining_accounts@,
            p.burn.resource_types@,
            p.burn.amounts@,
        ) is None,
        forall|i: int| 0 <= i < 3 ==> {
            let b = #[trigger] resource_burn_cpi(burn_resources_accounts_of(p.burn, config), p.burn.remaining_accounts@, p.burn.amounts@, i);
            &&& b.mint == remaining[2 * i]
            &&& b.from == remaining[2 * i + 1]
            &&& b.authority == a.player
            &&& b.amount == recipe_amounts(t)[i]
        },
{
    law_recipes_are_well_formed(t);
    let types = p.burn.resource_types@;
    let rem = p.burn.remaining_accounts@;
    assert forall|i: int| 0 <= i < 3 implies {
        &&& #[trigger] types[i] < 6
        &&& rem[2 * i] == config.resource_mints@[types[i] as int]
        &&& (None::<(Seq<TokenAccount>, Pubkey)> matches Some((r, player)) ==> recipient_ok(r, player, rem, i))
    } by {
        assert(resource_type_of(recipe_types(t)[i]) is Some);
        assert(remaining[2 * i] == config.resource_mints@[recipe_types(t)[i] as int]);
    }
    lemma_entries_accepted(config, rem, None, types, 3);
}

/// The mint that crafting asks of the item program is accepted whenever the
/// item program lets the crafting authority mint and the item's record does
/// not exist yet; the item's type is the one crafted.
pub proof fn law_craft_mint_is_accepted(p: CraftCpis, a: CraftItem, remaining: Seq<Pubkey>, t: u8, config: ItemConfig, bump: u8)
    requires
        craft_item_error(remaining, t) is None,
        is_craft_cpis(p, a, remaining, t),
        config.crafting_program_authority == a.crafting_authority,
    ensures
        mint_item_error(mint_item_accounts_of(p.mint, config, None, bump), p.mint.item_type) is None,
        p.mint.item_type == t,
{
}

/// Every item record that `mint_item` writes names an item type.
pub proof fn law_item_records_name_item_types(a: item_nft::MintItem, t: u8)
    requires
        mint_item_error(a, t) is None,
    ensures
        t < 4,
        item_type_of(t) is Some,
{
}

/// The mint that a search asks of the resource program is accepted whenever
/// the resource program lets the search authority mint and the six extra
/// accounts name, in pairs, the recorded mint of each found resource and the
/// player's own token account of it; it then mints one of each found
/// resource.
pub proof fn law_search_mint_is_accepted(
    c: MintResourcesCpi,
    a: SearchResources,
    remaining: Seq<Pubkey>,
    clock: Clock,
    config: GameConfig,
    recipients: Vec<TokenAccount>,
    bump: u8,
)
    requires
        is_search_cpi(c, a, remaining, clock),
        config.search_program_authority == a.search_authority,
        remaining.len() == 6,
        forall|i: int| 0 <= i < 3 ==> remaining[2 * i] == config.resource_mints@[
            #[trigger] random_resources(a.slot_hashes_data@, a.player, clock.slot)[i] as int
        ],
        forall|i: int| 0 <= i < 3 ==> #[trigger] recipient_ok(recipients@, a.player, remaining, i),
    ensures
        mint_resources_error(
            mint_resources_accounts_of(c, config, recipients, bump),
            c.remaining_accounts@,
            c.resource_types@,
            c.amounts@,
        ) is None,
        forall|i: int| 0 <= i < 3 ==> {
            let m = #[trigger] resource_mint_cpi(mint_resources_accounts_of(c, config, recipients, bump), c.remaining_accounts@, c.amounts@, i);
            &&& m.mint == config.resource_mints@[c.resource_types@[i] as int]
            &&& m.to == remaining[2 * i + 1]
            &&& m.amount == 1
        },
{
    let types = c.resource_types@;
    let rs = Some((recipients@, a.player));
    assert forall|i: int| 0 <= i < 3 implies {
        &&& #[trigger] types[i] < 6
        &&& remaining[2 * i] == config.resource_mints@[types[i] as int]
        &&& (rs matches Some((r, player)) ==> recipient_ok(r, player, remaining, i))
    } by {
        assert(types[i] == random_resources(a.slot_hashes_data@, a.player, clock.slot)[i]);
        assert(recipient_ok(recipients@, a.player, remaining, i));
    }
    lemma_entries_accepted(config, remaining, rs, types, 3);
}

/// Burning what `mint_resources` minted undoes it: for an accepted mint
/// request, the burn request with the same entries and extra accounts,
/// made by the crafting authority for the same player, is accepted and
/// burns, entry by entry, the same amount of the same mint from the very
/// token account that was credited, which the player owns.
pub proof fn law_resource_burn_undoes_mint(
    m: MintResources,
    b: BurnResources,
    remaining: Seq<Pubkey>,
    types: Seq<u8>,
    amounts: Seq<u64>,
)
    requires
        mint_resources_error(m, remaining, types, amounts) is None,
        b.player == m.player,
        b.game_config.resource_mints == m.game_config.resource_mints,
        b.caller_authority == b.game_config.crafting_program_authority,
    ensures
        burn_resources_error(b, remaining, types, amounts) is None,
        forall|i: int| 0 <= i < types.len() ==> {
            let minted = #[trigger] resource_mint_cpi(m, remaining, amounts, i);
            let burnt = resource_burn_cpi(b, remaining, amounts, i);
            &&& burnt.mint == minted.mint
            &&& burnt.from == minted.to
            &&& burnt.amount == minted.amount
            &&& burnt.authority == m.recipients@[i].owner
        },
{
    let rs = Some((m.recipients@, m.player));
    law_entries_use_recorded_mints(m.game_config, remaining, rs, types, types.len());
    assert forall|i: int| 0 <= i < types.len() implies {
        &&& #[trigger] types[i] < 6
        &&& remaining[2 * i] == b.game_config.resource_mints@[types[i] as int]
        &&& (None::<(Seq<TokenAccount>, Pubkey)> matches Some((r, player)) ==> recipient_ok(r, player, remaining, i))
    } by {
        assert(types[i] < 6);
    }
    lemma_entries_accepted(b.game_config, remaining, None, types, types.len());
    assert forall|i: int| 0 <= i < types.len() implies {
        let minted = #[trigger] resource_mint_cpi(m, remaining, amounts, i);
        let burnt = resource_burn_cpi(b, remaining, amounts, i);
        &&& burnt.mint == minted.mint
        &&& burnt.from == minted.to
        &&& burnt.amount == minted.amount
        &&& burnt.authority == m.recipients@[i].owner
    } by {
        assert(types[i] < 6);
        assert(recipient_ok(m.recipients@, m.player, remaining, i));
    }
}

/// Burning what `mint_magic_tokens` minted undoes it: a burn of the same
/// amount by the recipient from the credited account, which is the
/// recipient's account of the currency, is accepted under the same configuration and takes the same amount
/// of the same mint from that account.
pub proof fn law_currency_burn_undoes_mint(m: MintMagicTokens, b: BurnMagicTokens, amount: u64)
    requires
        currency_error(m.config, m.mint, m.caller_authority, amount) is None,
        b.config == m.config,
        b.caller_authority == m.caller_authority,
        b.mint == m.mint,
        b.holder == m.recipient,
        b.holder_ata.key == m.recipient_ata,
        b.holder_ata.owner == m.recipient,
        b.holder_ata.mint == m.mint,
        b.token_program == m.token_program,
    ensures
        burn_error(b, amount) is None,
        burn_magic_tokens_cpi(b, amount).mint == mint_magic_tokens_cpi(m, amount).mint,
        burn_magic_tokens_cpi(b, amount).from == mint_magic_tokens_cpi(m, amount).to,
        burn_magic_tokens_cpi(b, amount).amount == mint_magic_tokens_cpi(m, amount).amount,
        burn_magic_tokens_cpi(b, amount).authority == m.recipient,
        burn_magic_tokens_cpi(b, amount).token_program == mint_magic_tokens_cpi(m, amount).token_program,
{
}

/// A purchase of a listing made by `list_item` conserves the currency: the
/// amount burnt from the buyer equals the amount minted to the seller, which
/// is the listed price; exactly one token of the listed item moves from the
/// seller's account to the buyer's, which is created where needed; the
/// listing is closed to the seller. If the currency program's
/// configured mint is the one named and it lets the marketplace authority
/// mint and burn, both currency calls are accepted.
pub proof fn law_buy_conserves_currency(l: ListItem, price: u64, a: BuyItem, config: MagicTokenConfig)
    requires
        list_item_error(l, price) is None,
        a.listing.state == Some(Listing { seller: l.seller, item_mint: l.item_mint, price, bump: l.listing_bump }),
        buy_item_error(a) is None,
        config.marketplace_authority == a.marketplace_authority,
        config.mint == a.magic_token_mint,
    ensures
        a.seller == l.seller,
        ({
            let p = buy_cpis(a, a.listing.state->Some_0);
            &&& p.burn.amount == p.mint.amount
            &&& p.burn.amount == price
            &&& p.burn.holder == a.buyer
            &&& p.mint.recipient == a.seller
            &&& a.item_mint == l.item_mint
            &&& a.seller_item_ata.mint == l.item_mint
            &&& p.transfer.from == a.seller_item_ata.key
            &&& p.transfer.to == a.buyer_item_ata
            &&& p.create_buyer_item_ata.associated_token == a.buyer_item_ata
            &&& p.create_buyer_item_ata.authority == a.buyer
            &&& p.create_buyer_item_ata.mint == l.item_mint
            &&& p.transfer.amount == 1
            &&& p.close.account == a.listing.key
            &&& p.close.destination == a.seller
            &&& burn_error(burn_magic_tokens_accounts_of(p.burn, config, a.buyer_magic_ata), p.burn.amount) is None
            &&& currency_error(
                mint_magic_tokens_accounts_of(p.mint, config).config,
                p.mint.mint,
                mint_magic_tokens_accounts_of(p.mint, config).caller_authority,
                p.mint.amount,
            ) is None
        }),
{
}

/// A purchase consumes its listing: once `buy_item` (or `cancel_listing`)
/// has closed a listing, every later purchase or cancellation naming it is
/// refused, whoever asks; a listing is bought at most once.
pub proof fn law_purchase_consumes_listing(
    listing: StateAccount<Listing>,
    seller: Pubkey,
    later_buy: BuyItem,
    later_cancel: CancelListing,
)
    requires
        listing_error(listing, seller) is None,
        later_buy.listing == (StateAccount { state: None, ..listing }),
        later_cancel.listing == (StateAccount { state: None, ..listing }),
    ensures
        buy_item_error(later_buy) == Some(MarketplaceError::AccountNotInitialized),
        listing_error(later_cancel.listing, later_cancel.seller) == Some(MarketplaceError::AccountNotInitialized),
{
}

/// A sale to the game that `sell_item` accepts burns exactly the seller's
/// item and pays the seller the asked price; the item and currency programs
/// accept both calls whenever the item's record exists, they let the
/// marketplace authority burn items and mint currency, and the currency
/// mint named is the configured one.
pub proof fn law_sell_is_accepted(
    a: SellItem,
    price: u64,
    items: ItemConfig,
    record: ItemMetadata,
    currency: MagicTokenConfig,
)
    requires
        offer_error(price, a.seller, a.item_mint, a.seller_item_ata) is None,
        items.marketplace_program_authority == a.marketplace_authority,
        currency.marketplace_authority == a.marketplace_authority,
        currency.mint == a.magic_token_mint,
    ensures
        burn_item_error(burn_item_accounts_of(sell_cpis(a, price).burn, items, Some(record), a.seller_item_ata)) is None,
        sell_cpis(a, price).burn.mint == a.item_mint,
        sell_cpis(a, price).burn.holder == a.seller,
        sell_cpis(a, price).mint.recipient == a.seller,
        sell_cpis(a, price).mint.amount == price,
        currency_error(
            mint_magic_tokens_accounts_of(sell_cpis(a, price).mint, currency).config,
            sell_cpis(a, price).mint.mint,
            mint_magic_tokens_accounts_of(sell_cpis(a, price).mint, currency).caller_authority,
            price,
        ) is None,
{
}

/// After a search at time `now`, the player's next search at time `later`
/// is allowed exactly when at least 60 seconds have passed.
pub proof fn law_search_cooldown(a: SearchResources, now: i64, later: i64)
    requires
        search_error(a, now) is None,
    ensures
        search_error(
            SearchResources { player_state: PlayerState { last_search_timestamp: now, ..a.player_state }, ..a },
            later,
        ) is None <==> later - now >= 60,
        later - now < 60 ==> search_error(
            SearchResources { player_state: PlayerState { last_search_timestamp: now, ..a.player_state }, ..a },
            later,
        ) == Some(SearchError::CooldownNotElapsed),
{
}

/// A newly registered player may search at time `now` exactly when `now` is
/// at least 60.
pub proof fn law_first_search(a: SearchResources, now: i64)
    requires
        a.player_state.owner == a.player,
        a.player_state.last_search_timestamp == 0,
    ensures
        search_error(a, now) is None <==> now >= 60,
{
}

/// Only the admin configures: under any configuration, the resource
/// program's `set_authorities` and `init_resource_mint`, the item program's
/// `set_authorities` and the currency program's `set_marketplace_authority`
/// are refused unless the signer is the configuration's admin (with the
/// admin check's own error, unless the mint to create exists already). No
/// call but `initialize` (which creates a configuration once, with its
/// signer as admin) writes the admin.
pub proof fn law_only_admin_configures(
    game: resource_manager::SetAuthorities,
    mint: InitResourceMint,
    resource_type: u8,
    items: item_nft::SetAuthorities,
    currency: magic_token::SetMarketplaceAuthority,
)
    ensures
        resource_manager::set_authorities_error(game) is None ==> game.admin == game.game_config.admin,
        init_resource_mint_error(mint, resource_type) is None ==> mint.admin == mint.game_config.admin,
        item_nft::set_authorities_error(items) is None ==> items.admin == items.config.admin,
        set_marketplace_authority_error(currency) is None ==> currency.admin == currency.config.admin,
        game.admin != game.game_config.admin ==> resource_manager::set_authorities_error(game) == Some(
            ResourceError::ConstraintHasOne,
        ),
        mint.admin != mint.game_config.admin && !mint.mint_exists ==> init_resource_mint_error(mint, resource_type) == Some(
            ResourceError::ConstraintHasOne,
        ),
        items.admin != items.config.admin ==> item_nft::set_authorities_error(items) == Some(
            item_nft::ItemNftError::ConstraintHasOne,
        ),
        currency.admin != currency.config.admin ==> set_marketplace_authority_error(currency) == Some(
            magic_token::MagicTokenError::ConstraintHasOne,
        ),
{
}

/// The authorities that `set_authorities` records are the ones the resource
/// program checks: a well-shaped mint request is refused as unauthorized
/// exactly when its caller is not the recorded search authority, and a burn
/// request exactly when its caller is not the recorded crafting authority.
pub proof fn law_recorded_authorities_are_checked(
    config: GameConfig,
    search: Pubkey,
    crafting: Pubkey,
    caller: Pubkey,
    remaining: Seq<Pubkey>,
    recipients: Option<(Seq<TokenAccount>, Pubkey)>,
    types: Seq<u8>,
    amounts: Seq<u64>,
)
    requires
        types.len() == amounts.len(),
        remaining.len() == 2 * types.len(),
    ensures
        ({
            let set = GameConfig { search_program_authority: search, crafting_program_authority: crafting, ..config };
            &&& (request_error(set, caller, set.search_program_authority, remaining, recipients, types, amounts)
                == Some(ResourceError::Unauthorized) <==> caller != search)
            &&& (request_error(set, caller, set.crafting_program_authority, remaining, recipients, types, amounts)
                == Some(ResourceError::Unauthorized) <==> caller != crafting)
        }),
{
    let set = GameConfig { search_program_authority: search, crafting_program_authority: crafting, ..config };
    lemma_entries_never_unauthorized(set, remaining, recipients, types, types.len());
}

/// Entry checks never refuse a request as unauthorized.
proof fn lemma_entries_never_unauthorized(
    config: GameConfig,
    remaining: Seq<Pubkey>,
    recipients: Option<(Seq<TokenAccount>, Pubkey)>,
    types: Seq<u8>,
    n: nat,
)
    ensures
        entries_error(config, remaining, recipients, types, n) != Some(ResourceError::Unauthorized),
    decreases n,
{
    if n > 0 {
        lemma_entries_never_unauthorized(config, remaining, recipients, types, (n - 1) as nat);
    }
}

/// A resource type's mint can be recorded only once: after
/// `init_resource_mint` records a mint (other than the all-zero address)
/// for a type, every later call by the admin with a fresh mint for that
/// type is refused as already initialized, and the other types are as they
/// were.
pub proof fn law_resource_mint_recorded_once(a: InitResourceMint, t: u8, after: GameConfig, later: InitResourceMint, t2: u8)
    requires
        init_resource_mint_error(a, t) is None,
        !a.mint.is_default(),
        after.resource_mints@ == a.game_config.resource_mints@.update(t as int, a.mint),
        after.admin == a.game_config.admin,
        later.game_config == after,
        later.admin == after.admin,
        !later.mint_exists,
    ensures
        init_resource_mint_error(later, t) == Some(ResourceError::MintAlreadyInitialized),
        t2 != t ==> init_resource_mint_error(later, t2)
            == init_resource_mint_error(InitResourceMint { game_config: a.game_config, ..later }, t2),
{
}

/// A call of the item program that names an item's record account: a mint
/// of an item (with its type code) or a burn.
pub enum RecordCall {
    Mint(MintItem, u8),
    Burn(BurnItem),
}

/// The state of the record account that `c` is handed.
pub open spec fn record_seen(c: RecordCall) -> Option<ItemMetadata> {
    match c {
        RecordCall::Mint(a, _) => a.item_metadata.state,
        RecordCall::Burn(a) => a.item_metadata.state,
    }
}

/// The state of the record account that `c` leaves.
pub open spec fn record_left(c: RecordCall) -> Option<ItemMetadata> {
    match c {
        RecordCall::Mint(a, t) => record_after_mint(a, t),
        RecordCall::Burn(a) => record_after_burn(a),
    }
}

/// Whether call `j` of `calls` is an accepted `mint_item` that wrote the
/// record `m`.
pub open spec fn written_by(calls: Seq<RecordCall>, j: int, m: ItemMetadata) -> bool {
    calls[j] matches RecordCall::Mint(a, t) && mint_item_error(a, t) is None && minted_record(a, t) == m
}

/// Every live item record names an item type, along any sequence of calls
/// on the record's account starting from no record: each record alive after
/// some calls was written by an earlier accepted `mint_item`, which created
/// the record's mint with no decimals (and mints one token of it, as its
/// contract fixes). The other calls of the item program (`initialize`,
/// `set_authorities`) are not handed a record.
pub proof fn law_item_records_always_name_item_types(calls: Seq<RecordCall>, states: Seq<Option<ItemMetadata>>)
    requires
        states.len() == calls.len() + 1,
        states[0] is None,
        forall|i: int| 0 <= i < calls.len() ==> record_seen(#[trigger] calls[i]) == states[i],
        forall|i: int| 0 <= i < calls.len() ==> record_left(#[trigger] calls[i]) == states[i + 1],
    ensures
        forall|i: int| 0 <= i < states.len() ==> (#[trigger] states[i] matches Some(m) ==> {
            &&& m.item_type < 4
            &&& item_type_of(m.item_type) is Some
            &&& exists|j: int| 0 <= j < i && #[trigger] written_by(calls, j, m)
        }),
        forall|j: int, m: ItemMetadata| 0 <= j < calls.len() && #[trigger] written_by(calls, j, m) ==> {
            &&& calls[j] matches RecordCall::Mint(a, _) && a.mint == m.mint
            &&& calls[j] matches RecordCall::Mint(a, _) && item_mint_creation(a).decimals == 0
        },
{
    lemma_records_name_item_types(calls, states, calls.len() as int);
}

/// The invariant of `law_item_records_always_name_item_types` on the first
/// `n + 1` states.
proof fn lemma_records_name_item_types(calls: Seq<RecordCall>, states: Seq<Option<ItemMetadata>>, n: int)
    requires
        0 <= n <= calls.len(),
        states.len() == calls.len() + 1,
        states[0] is None,
        forall|i: int| 0 <= i < calls.len() ==> record_seen(#[trigger] calls[i]) == states[i],
        forall|i: int| 0 <= i < calls.len() ==> record_left(#[trigger] calls[i]) == states[i + 1],
    ensures
        forall|i: int| 0 <= i <= n ==> (#[trigger] states[i] matches Some(m) ==> {
            &&& m.item_type < 4
            &&& item_type_of(m.item_type) is Some
            &&& exists|j: int| 0 <= j < i && #[trigger] written_by(calls, j, m)
        }),
    decreases n,
{
    if n > 0 {
        lemma_records_name_item_types(calls, states, n - 1);
        let k = n - 1;
        assert(record_seen(calls[k]) == states[k]);
        assert(record_left(calls[k]) == states[n]);
        if let Some(m) = states[n] {
            match calls[k] {
                RecordCall::Mint(a, t) => {
                    if mint_item_error(a, t) is None {
                        assert(written_by(calls, k, m));
                    } else {
                        assert(states[k] == states[n]);
                        let j = choose|j: int| 0 <= j < k && #[trigger] written_by(calls, j, m);
                        assert(written_by(calls, j, m));
                    }
                },
                RecordCall::Burn(a) => {
                    assert(states[k] == states[n]);
                    let j = choose|j: int| 0 <= j < k && #[trigger] written_by(calls, j, m);
                    assert(written_by(calls, j, m));
                },
            }
        }
    }
}

/// A search draws on the most recent slot hash: in SlotHashes data of at
/// least 48 bytes (an 8-byte count, then the newest entry's 8-byte slot and
/// 32-byte hash, then older entries) the hash bytes of every seed are bytes
/// 16 to 48, and the entries after it do not matter: appending more data
/// leaves the found resource types unchanged. Each seed is that hash, the
/// slot's 8 little-endian bytes, the index and the player's address.
pub proof fn law_search_reads_most_recent_hash(data: Seq<u8>, extra: Seq<u8>, player: Pubkey, slot: u64, i: u8)
    requires
        data.len() >= 48,
    ensures
        search_seed(data, player, slot, i).len() == 73,
        search_seed(data, player, slot, i).subrange(0, 32) == data.subrange(16, 48),
        search_seed(data, player, slot, i).subrange(32, 40) == le_u64_bytes(slot),
        search_seed(data, player, slot, i)[40] == i,
        search_seed(data, player, slot, i).subrange(41, 73) == player.bytes@,
        random_resources(data + extra, player, slot) == random_resources(data, player, slot),
        random_resources(data.subrange(0, 48), player, slot) == random_resources(data, player, slot),
{
    let seed = search_seed(data, player, slot, i);
    assert(seed.subrange(0, 32) =~= data.subrange(16, 48));
    assert(seed.subrange(32, 40) =~= le_u64_bytes(slot));
    assert(seed.subrange(41, 73) =~= player.bytes@);
    assert((data + extra).subrange(16, 48) =~= data.subrange(16, 48));
    assert(data.subrange(0, 48).subrange(16, 48) =~= data.subrange(16, 48));
    assert(latest_slot_hash(data + extra) == latest_slot_hash(data));
    assert(latest_slot_hash(data.subrange(0, 48)) == latest_slot_hash(data));
    assert(random_resources(data + extra, player, slot) =~= random_resources(data, player, slot));
    assert(random_resources(data.subrange(0, 48), player, slot) =~= random_resources(data, player, slot));
}

/// SlotHashes data too short to hold an entry gives seeds whose hash bytes
/// are 32 zeros.
pub proof fn law_search_without_hash(data: Seq<u8>, player: Pubkey, slot: u64, i: u8)
    requires
        data.len() < 48,
    ensures
        forall|k: int| 0 <= k < 32 ==> #[trigger] search_seed(data, player, slot, i)[k] == 0,
{
}

/// The slot enters a seed as its 8 little-endian bytes: they spell the slot
/// back.
pub proof fn law_slot_bytes_spell_the_slot(x: u64)
    ensures
        le_u64_bytes(x).len() == 8,
        le_u64_bytes(x)[0] as int + 256 * le_u64_bytes(x)[1] as int + 65536 * le_u64_bytes(x)[2] as int
            + 16777216 * le_u64_bytes(x)[3] as int + 4294967296 * le_u64_bytes(x)[4] as int
            + 1099511627776 * le_u64_bytes(x)[5] as int + 281474976710656 * le_u64_bytes(x)[6] as int
            + 72057594037927936 * le_u64_bytes(x)[7] as int == x as int,
{
    let b = le_u64_bytes(x);
    assert(b[0] as u64 == ((x >> 0u64) & 0xff)) by {
        assert((((x >> 0u64) & 0xff) as u8) as u64 == ((x >> 0u64) & 0xff)) by (bit_vector);
    }
    assert(b[1] as u64 == ((x >> 8u64) & 0xff)) by {
        assert((((x >> 8u64) & 0xff) as u8) as u64 == ((x >> 8u64) & 0xff)) by (bit_vector);
    }
    assert(b[2] as u64 == ((x >> 16u64) & 0xff)) by {
        assert((((x >> 16u64) & 0xff) as u8) as u64 == ((x >> 16u64) & 0xff)) by (bit_vector);
    }
    assert(b[3] as u64 == ((x >> 24u64) & 0xff)) by {
        assert((((x >> 24u64) & 0xff) as u8) as u64 == ((x >> 24u64) & 0xff)) by (bit_vector);
    }
    assert(b[4] as u64 == ((x >> 32u64) & 0xff)) by {
        assert((((x >> 32u64) & 0xff) as u8) as u64 == ((x >> 32u64) & 0xff)) by (bit_vector);
    }
    assert(b[5] as u64 == ((x >> 40u64) & 0xff)) by {
        assert((((x >> 40u64) & 0xff) as u8) as u64 == ((x >> 40u64) & 0xff)) by (bit_vector);
    }
    assert(b[6] as u64 == ((x >> 48u64) & 0xff)) by {
        assert((((x >> 48u64) & 0xff) as u8) as u64 == ((x >> 48u64) & 0xff)) by (bit_vector);
    }
    assert(b[7] as u64 == ((x >> 56u64) & 0xff)) by {
        assert((((x >> 56u64) & 0xff) as u8) as u64 == ((x >> 56u64) & 0xff)) by (bit_vector);
    }
    assert(((x >> 0u64) & 0xff) + 256 * ((x >> 8u64) & 0xff) + 65536 * ((x >> 16u64) & 0xff)
        + 16777216 * ((x >> 24u64) & 0xff) + 4294967296 * ((x >> 32u64) & 0xff)
        + 1099511627776 * ((x >> 40u64) & 0xff) + 281474976710656 * ((x >> 48u64) & 0xff)
        + 72057594037927936 * ((x >> 56u64) & 0xff) == x) by (bit_vector);
}

/// An item is burnt on its holder's authority: the burn call takes one token
/// of the named mint from the holder's named token account, with the holder
/// (who signs) as authority, whatever the item's record says. The record's
/// owner, written when the item was minted and not updated when the item
/// changes hands, decides neither the call nor whether it is accepted: a
/// player who bought an item can burn (sell) it.
pub proof fn law_burn_acts_for_the_holder(a: BurnItem, other: ItemMetadata)
    ensures
        burn_item_cpi(a).authority == a.holder,
        burn_item_cpi(a).token == a.holder_ata.key,
        burn_item_cpi(a).mint == a.mint,
        burn_item_cpi(a).amount == 1,
        burn_item_cpi(BurnItem { item_metadata: StateAccount { state: Some(other), ..a.item_metadata }, ..a })
            == burn_item_cpi(a),
        a.item_metadata.state is Some ==> burn_item_error(
            BurnItem { item_metadata: StateAccount { state: Some(other), ..a.item_metadata }, ..a },
        ) == burn_item_error(a),
{
}

/// The currency calls move exactly the amount asked: a mint of `amount`
/// credits `amount` tokens of the named mint to the recipient's named
/// account, and a burn of `amount` takes `amount` tokens of the named mint
/// from the holder's named account on the holder's authority.
pub proof fn law_currency_calls_move_the_amount(m: MintMagicTokens, b: BurnMagicTokens, amount: u64)
    ensures
        mint_magic_tokens_cpi(m, amount).amount == amount,
        mint_magic_tokens_cpi(m, amount).mint == m.mint,
        mint_magic_tokens_cpi(m, amount).to == m.recipient_ata,
        burn_magic_tokens_cpi(b, amount).amount == amount,
        burn_magic_tokens_cpi(b, amount).mint == b.mint,
        burn_magic_tokens_cpi(b, amount).from == b.holder_ata.key,
        burn_magic_tokens_cpi(b, amount).authority == b.holder,
{
}

/// The resource calls move exactly the amounts asked: entry `i` of a mint
/// request credits `amounts[i]` tokens of the entry's mint (extra account
/// `2i`) to the entry's token account (extra account `2i + 1`), and entry `i`
/// of a burn request takes `amounts[i]` tokens of the entry's mint from the
/// entry's token account on the player's authority.
pub proof fn law_resource_calls_move_the_amounts(
    m: MintResources,
    b: BurnResources,
    remaining: Seq<Pubkey>,
    amounts: Seq<u64>,
    i: int,
)
    ensures
        resource_mint_cpi(m, remaining, amounts, i).amount == amounts[i],
        resource_mint_cpi(m, remaining, amounts, i).mint == remaining[2 * i],
        resource_mint_cpi(m, remaining, amounts, i).to == remaining[2 * i + 1],
        resource_burn_cpi(b, remaining, amounts, i).amount == amounts[i],
        resource_burn_cpi(b, remaining, amounts, i).mint == remaining[2 * i],
        resource_burn_cpi(b, remaining, amounts, i).from == remaining[2 * i + 1],
        resource_burn_cpi(b, remaining, amounts, i).authority == b.player,
{
}

/// The mints are created as the programs declare them: the currency mint
/// with no decimals and the currency's mint-authority address as its sole
/// authority, paid by the admin; each resource mint with no decimals, the
/// resource authority as mint and freeze authority and a metadata pointer,
/// held by the resource authority, to the mint itself; each item mint with
/// no decimals and the item authority as mint and freeze authority, paid by
/// the fee payer.
pub proof fn law_mints_are_created_as_declared(c: magic_token::Initialize, r: InitResourceMint, i: MintItem)
    ensures
        currency_mint_creation(c).mint == c.mint,
        currency_mint_creation(c).payer == c.admin,
        currency_mint_creation(c).decimals == 0,
        currency_mint_creation(c).mint_authority == c.mint_authority,
        currency_mint_creation(c).freeze_authority is None,
        currency_mint_creation(c).metadata_pointer is None,
        resource_mint_creation(r).mint == r.mint,
        resource_mint_creation(r).payer == r.admin,
        resource_mint_creation(r).decimals == 0,
        resource_mint_creation(r).mint_authority == r.resource_authority,
        resource_mint_creation(r).freeze_authority == Some(r.resource_authority),
        resource_mint_creation(r).metadata_pointer == Some((r.resource_authority, r.mint)),
        item_mint_creation(i).mint == i.mint,
        item_mint_creation(i).payer == i.fee_payer,
        item_mint_creation(i).decimals == 0,
        item_mint_creation(i).mint_authority == i.item_authority,
        item_mint_creation(i).freeze_authority == Some(i.item_authority),
        item_mint_creation(i).metadata_pointer is None,
{
}

/// The calls of a trade name its parties' own accounts: a purchase burns the
/// currency from the buyer's currency account, pays into the seller's
/// currency account (created for the seller where needed, at the buyer's
/// cost) and moves the item on the seller's authority into the buyer's item
/// account (created for the buyer where needed); a sale to the game burns
/// the item from the seller's item account on the seller's authority and
/// pays the asked price into the seller's currency account.
pub proof fn law_trade_calls_name_the_parties(a: BuyItem, l: Listing, s: SellItem, price: u64)
    ensures
        ({
            let p = buy_cpis(a, l);
            &&& p.burn.holder_ata == a.buyer_magic_ata.key
            &&& p.burn.mint == a.magic_token_mint
            &&& p.mint.mint == a.magic_token_mint
            &&& p.mint.recipient_ata == a.seller_magic_ata
            &&& p.transfer.authority == a.seller
            &&& p.create_seller_magic_ata.associated_token == a.seller_magic_ata
            &&& p.create_seller_magic_ata.authority == a.seller
            &&& p.create_seller_magic_ata.mint == a.magic_token_mint
            &&& p.create_seller_magic_ata.payer == a.buyer
            &&& p.create_buyer_item_ata.payer == a.buyer
        }),
        ({
            let p = sell_cpis(s, price);
            &&& p.burn.holder == s.seller
            &&& p.burn.holder_ata == s.seller_item_ata.key
            &&& p.burn.mint == s.item_mint
            &&& p.mint.recipient == s.seller
            &&& p.mint.recipient_ata == s.seller_magic_ata
            &&& p.mint.mint == s.magic_token_mint
            &&& p.mint.amount == price
            &&& p.create_seller_magic_ata.associated_token == s.seller_magic_ata
            &&& p.create_seller_magic_ata.authority == s.seller
            &&& p.create_seller_magic_ata.mint == s.magic_token_mint
        }),
{
}

} // verus!
