//! The resource program: six fungible resource tokens (one Token-2022 mint
//! per resource type), minted on the search program's behalf and burnt on
//! the crafting program's behalf.
use vstd::prelude::*;
use vstd::utf8::encode_utf8;
use crate::common::{AuthoritySeed, Burn, Context, CreateMint, Instruction, MintTo, Pubkey, SignerSeeds, StateAccount, TokenAccount};
use crate::outside::{borsh_encodable, token_2022_program_id, token_metadata_initialize, token_2022_id_bytes, metadata_initialize_data};

verus! {

/// Resource types available in the game, numbered 0 to 5.
#[derive(Clone, Copy, PartialEq, Eq, Debug)]
pub enum ResourceType {
    Wood,
    Iron,
    Gold,
    Leather,
    Stone,
    Diamond,
}

/// The resource type numbered `v`, if there is one.
pub open spec fn resource_type_of(v: u8) -> Option<ResourceType> {
    match v {
        0 => Some(ResourceType::Wood),
        1 => Some(ResourceType::Iron),
        2 => Some(ResourceType::Gold),
        3 => Some(ResourceType::Leather),
        4 => Some(ResourceType::Stone),
        5 => Some(ResourceType::Diamond),
        _ => None,
    }
}

impl ResourceType {
    /// The number of this resource type: its index among the game's mints.
    pub open spec fn code(self) -> u8 {
        match self {
            ResourceType::Wood => 0,
            ResourceType::Iron => 1,
            ResourceType::Gold => 2,
            ResourceType::Leather => 3,
            ResourceType::Stone => 4,
            ResourceType::Diamond => 5,
        }
    }

    pub open spec fn spec_name(self) -> Seq<char> {
        match self {
            ResourceType::Wood => "Wood"@,
            ResourceType::Iron => "Iron"@,
            ResourceType::Gold => "Gold"@,
            ResourceType::Leather => "Leather"@,
            ResourceType::Stone => "Stone"@,
            ResourceType::Diamond => "Diamond"@,
        }
    }

    pub open spec fn spec_symbol(self) -> Seq<char> {
        match self {
            ResourceType::Wood => "WOOD"@,
            ResourceType::Iron => "IRON"@,
            ResourceType::Gold => "GOLD"@,
            ResourceType::Leather => "LEATHER"@,
            ResourceType::Stone => "STONE"@,
            ResourceType::Diamond => "DIAMOND"@,
        }
    }

    pub fn from_u8(v: u8) -> (r: Option<Self>)
        ensures
            r == resource_type_of(v),
    {
        match v {
            0 => Some(ResourceType::Wood),
            1 => Some(ResourceType::Iron),
            2 => Some(ResourceType::Gold),
            3 => Some(ResourceType::Leather),
            4 => Some(ResourceType::Stone),
            5 => Some(ResourceType::Diamond),
            _ => None,
        }
    }

    pub fn name(&self) -> (r: &'static str)
        ensures
            r@ == self.spec_name(),
            r@.len() <= 7,
    {
        match self {
            ResourceType::Wood => {
                proof { reveal_strlit("Wood"); }
                "Wood"
            },
            ResourceType::Iron => {
                proof { reveal_strlit("Iron"); }
                "Iron"
            },
            ResourceType::Gold => {
                proof { reveal_strlit("Gold"); }
                "Gold"
            },
            ResourceType::Leather => {
                proof { reveal_strlit("Leather"); }
                "Leather"
            },
            ResourceType::Stone => {
                proof { reveal_strlit("Stone"); }
                "Stone"
            },
            ResourceType::Diamond => {
                proof { reveal_strlit("Diamond"); }
                "Diamond"
            },
        }
    }

    pub fn symbol(&self) -> (r: &'static str)
        ensures
            r@ == self.spec_symbol(),
            r@.len() <= 7,
    {
        match self {
            ResourceType::Wood => {
                proof { reveal_strlit("WOOD"); }
                "WOOD"
            },
            ResourceType::Iron => {
                proof { reveal_strlit("IRON"); }
                "IRON"
            },
            ResourceType::Gold => {
                proof { reveal_strlit("GOLD"); }
                "GOLD"
            },
            ResourceType::Leather => {
                proof { reveal_strlit("LEATHER"); }
                "LEATHER"
            },
            ResourceType::Stone => {
                proof { reveal_strlit("STONE"); }
                "STONE"
            },
            ResourceType::Diamond => {
                proof { reveal_strlit("DIAMOND"); }
                "DIAMOND"
            },
        }
    }
}

/// Every number from 0 to 5 names exactly one resource type, and that type's
/// number is the number it was read from; no other number names one.
pub proof fn lemma_resource_type_codes(v: u8)
    ensures
        resource_type_of(v) is Some <==> v < 6,
        resource_type_of(v) matches Some(t) ==> t.code() == v,
{
}

/// Every resource type is read back from its own number.
pub proof fn lemma_resource_type_code_round_trip(t: ResourceType)
    ensures
        resource_type_of(t.code()) == Some(t),
{
}

/// The UTF-8 form of a string is at most four bytes per character.
proof fn lemma_utf8_len_bound(s: Seq<char>)
    ensures
        encode_utf8(s).len() <= 4 * s.len(),
    decreases s.len(),
{
    if s.len() > 0 {
        lemma_utf8_len_bound(s.drop_first());
    }
}

/// Global configuration of the resource program.
#[derive(Clone, Copy, PartialEq, Eq, Debug)]
pub struct GameConfig {
    /// Admin that can set authorities and initialize mints.
    pub admin: Pubkey,
    /// One mint per resource type, indexed by the type's number; the
    /// all-zero address while a type's mint is not initialized.
    pub resource_mints: [Pubkey; 6],
    /// Authority address of the search program, allowed to mint resources.
    pub search_program_authority: Pubkey,
    /// Authority address of the crafting program, allowed to burn resources.
    pub crafting_program_authority: Pubkey,
    pub bump: u8,
}

impl GameConfig {
    pub const SIZE: usize = 8 + 32 + 32 * 6 + 32 + 32 + 1;
}

#[derive(Clone, Copy, PartialEq, Eq, Debug)]
pub enum ResourceError {
    /// Invalid resource type: must be 0 to 5.
    InvalidResourceType,
    /// Mint for this resource type is already initialized.
    MintAlreadyInitialized,
    /// Caller is not an authorized program authority.
    Unauthorized,
    /// Provided mint does not match the stored resource mint.
    InvalidMint,
    /// `resource_types` and `amounts` must have equal length, and the extra
    /// accounts must be one mint and one token account per entry.
    InvalidArgs,
    /// The signer is not the configuration's admin (account validation:
    /// `has_one = admin`).
    ConstraintHasOne,
    /// The account to create exists already (account validation: `init`).
    AccountAlreadyInitialized,
    /// An entry's token account is not the player's account of the entry's
    /// mint.
    InvalidRecipient,
}

/// Accounts of `initialize`, with the bump found for the configuration.
#[derive(Clone, Copy, PartialEq, Eq, Debug)]
pub struct Initialize {
    pub admin: Pubkey,
    /// The configuration account to create.
    pub game_config: StateAccount<GameConfig>,
    pub system_program: Pubkey,
    pub game_config_bump: u8,
}

/// Accounts of `init_resource_mint`.
#[derive(Clone, Copy, PartialEq, Eq, Debug)]
pub struct InitResourceMint {
    pub admin: Pubkey,
    pub game_config: GameConfig,
    /// The new Token-2022 mint, whose metadata pointer names itself.
    pub mint: Pubkey,
    /// Whether an account exists at `mint` already.
    pub mint_exists: bool,
    /// The address that is mint and freeze authority of every resource mint.
    pub resource_authority: Pubkey,
    pub resource_authority_bump: u8,
    pub token_program: Pubkey,
    pub system_program: Pubkey,
}

/// Accounts of `set_authorities`.
#[derive(Clone, Copy, PartialEq, Eq, Debug)]
pub struct SetAuthorities {
    pub admin: Pubkey,
    pub game_config: GameConfig,
}

/// Accounts of `mint_resources`; the extra accounts are
/// `[mint_0, player_ata_0, mint_1, player_ata_1, ...]`, and `recipients`
/// holds the decoded token accounts `player_ata_0, player_ata_1, ...`.
#[derive(Clone, Debug)]
pub struct MintResources {
    /// The search program's authority address (a signer).
    pub caller_authority: Pubkey,
    pub player: Pubkey,
    pub game_config: GameConfig,
    pub recipients: Vec<TokenAccount>,
    pub resource_authority: Pubkey,
    pub resource_authority_bump: u8,
    pub token_program: Pubkey,
    pub associated_token_program: Pubkey,
    pub system_program: Pubkey,
}

/// Accounts of `burn_resources`; the extra accounts are
/// `[mint_0, player_ata_0, mint_1, player_ata_1, ...]`.
#[derive(Clone, Copy, PartialEq, Eq, Debug)]
pub struct BurnResources {
    /// The crafting program's authority address (a signer).
    pub caller_authority: Pubkey,
    /// The player whose resources are burnt (a signer).
    pub player: Pubkey,
    pub game_config: GameConfig,
    pub token_program: Pubkey,
}

/// A raw instruction to invoke, with the accounts handed to it and the
/// seeds the program signs with.
#[derive(Clone, Debug)]
pub struct InvokeSigned {
    pub instruction: Instruction,
    pub account_infos: [Pubkey; 2],
    pub signer: SignerSeeds,
}

/// What `init_resource_mint` does: create the mint, then write its token
/// metadata.
#[derive(Clone, Debug)]
pub struct InitResourceMintCpis {
    pub create_mint: CreateMint,
    pub init_metadata: InvokeSigned,
}

/// The resource mint that `init_resource_mint` creates: a Token-2022 mint
/// with no decimals, the resource authority as mint and freeze authority,
/// and a metadata pointer (whose authority is the resource authority) to
/// the mint itself, paid by the admin.
pub open spec fn resource_mint_creation(a: InitResourceMint) -> CreateMint {
    CreateMint {
        mint: a.mint,
        payer: a.admin,
        token_program: a.token_program,
        decimals: 0,
        mint_authority: a.resource_authority,
        freeze_authority: Some(a.resource_authority),
        metadata_pointer: Some((a.resource_authority, a.mint)),
    }
}

/// A cross-program call of `mint_resources`: the resource program, the
/// named accounts, the extra accounts, the arguments and the seeds the
/// calling program signs with.
#[derive(Clone, Debug)]
pub struct MintResourcesCpi {
    pub program: Pubkey,
    pub caller_authority: Pubkey,
    pub player: Pubkey,
    pub game_config: Pubkey,
    pub resource_authority: Pubkey,
    pub token_program: Pubkey,
    pub associated_token_program: Pubkey,
    pub system_program: Pubkey,
    pub remaining_accounts: Vec<Pubkey>,
    pub resource_types: Vec<u8>,
    pub amounts: Vec<u64>,
    pub signer: SignerSeeds,
}

/// A cross-program call of `burn_resources`.
#[derive(Clone, Debug)]
pub struct BurnResourcesCpi {
    pub program: Pubkey,
    pub caller_authority: Pubkey,
    pub player: Pubkey,
    pub game_config: Pubkey,
    pub token_program: Pubkey,
    pub remaining_accounts: Vec<Pubkey>,
    pub resource_types: Vec<u8>,
    pub amounts: Vec<u64>,
    pub signer: SignerSeeds,
}

/// Why `init_resource_mint` refuses, if it does.
pub open spec fn init_resource_mint_error(a: InitResourceMint, resource_type: u8) -> Option<ResourceError> {
    if a.mint_exists {
        Some(ResourceError::AccountAlreadyInitialized)
    } else if a.admin != a.game_config.admin {
        Some(ResourceError::ConstraintHasOne)
    } else if resource_type_of(resource_type) is None {
        Some(ResourceError::InvalidResourceType)
    } else if !a.game_config.resource_mints@[resource_type as int].is_default() {
        Some(ResourceError::MintAlreadyInitialized)
    } else {
        None
    }
}

/// The invocation by which `init_resource_mint` writes the token metadata of
/// a new resource mint: the token-metadata `Initialize` instruction of the
/// Token-2022 program for the mint (which holds its own metadata), with the
/// resource authority as update and mint authority, the type's name and
/// symbol and the given URI, signed with the resource authority's seeds.
pub open spec fn is_init_metadata_invoke(v: InvokeSigned, a: InitResourceMint, t: ResourceType, uri: Seq<char>) -> bool {
    &&& v.instruction.program_id.bytes@ == token_2022_id_bytes()
    &&& v.instruction.accounts@ == seq![
        crate::common::AccountMeta { pubkey: a.mint, is_signer: false, is_writable: true },
        crate::common::AccountMeta { pubkey: a.resource_authority, is_signer: false, is_writable: false },
        crate::common::AccountMeta { pubkey: a.mint, is_signer: false, is_writable: false },
        crate::common::AccountMeta { pubkey: a.resource_authority, is_signer: true, is_writable: false },
    ]
    &&& v.instruction.data@ == metadata_initialize_data(t.spec_name(), t.spec_symbol(), uri)
    &&& v.account_infos@ == seq![a.mint, a.resource_authority]
    &&& v.signer == (SignerSeeds { authority: AuthoritySeed::ResourceAuthority, bump: a.resource_authority_bump })
}

/// Whether entry `i`'s token account (the second account of the pair) is
/// `player`'s account of the entry's mint, by the decoded token accounts
/// `recipients`.
pub open spec fn recipient_ok(recipients: Seq<TokenAccount>, player: Pubkey, remaining: Seq<Pubkey>, i: int) -> bool {
    &&& i < recipients.len()
    &&& recipients[i].key == remaining[2 * i + 1]
    &&& recipients[i].owner == player
    &&& recipients[i].mint == remaining[2 * i]
}

/// Why entry `i` (of type `rt`) of a mint or burn request is refused, if it
/// is; a mint request also names the decoded token accounts and the player
/// they must belong to.
pub open spec fn entry_error(
    config: GameConfig,
    remaining: Seq<Pubkey>,
    recipients: Option<(Seq<TokenAccount>, Pubkey)>,
    rt: u8,
    i: int,
) -> Option<ResourceError> {
    if rt >= 6 {
        Some(ResourceError::InvalidResourceType)
    } else if remaining[2 * i] != config.resource_mints@[rt as int] {
        Some(ResourceError::InvalidMint)
    } else {
        match recipients {
            Some((r, player)) => if recipient_ok(r, player, remaining, i) {
                None
            } else {
                Some(ResourceError::InvalidRecipient)
            },
            None => None,
        }
    }
}

/// The first refusal among the first `n` entries, in entry order.
pub open spec fn entries_error(
    config: GameConfig,
    remaining: Seq<Pubkey>,
    recipients: Option<(Seq<TokenAccount>, Pubkey)>,
    types: Seq<u8>,
    n: nat,
) -> Option<ResourceError>
    decreases n,
{
    if n == 0 {
        None
    } else {
        match entries_error(config, remaining, recipients, types, (n - 1) as nat) {
            Some(e) => Some(e),
            None => entry_error(config, remaining, recipients, types[n - 1], n - 1),
        }
    }
}

/// Why a mint or burn request by `caller`, whose allowed caller is
/// `authorized`, is refused, if it is.
pub open spec fn request_error(
    config: GameConfig,
    caller: Pubkey,
    authorized: Pubkey,
    remaining: Seq<Pubkey>,
    recipients: Option<(Seq<TokenAccount>, Pubkey)>,
    types: Seq<u8>,
    amounts: Seq<u64>,
) -> Option<ResourceError> {
    if types.len() != amounts.len() {
        Some(ResourceError::InvalidArgs)
    } else if remaining.len() != 2 * types.len() {
        Some(ResourceError::InvalidArgs)
    } else if caller != authorized {
        Some(ResourceError::Unauthorized)
    } else {
        entries_error(config, remaining, recipients, types, types.len())
    }
}

/// Why `mint_resources` refuses, if it does.
pub open spec fn mint_resources_error(a: MintResources, remaining: Seq<Pubkey>, types: Seq<u8>, amounts: Seq<u64>) -> Option<ResourceError> {
    request_error(
        a.game_config,
        a.caller_authority,
        a.game_config.search_program_authority,
        remaining,
        Some((a.recipients@, a.player)),
        types,
        amounts,
    )
}

/// Why `burn_resources` refuses, if it does.
pub open spec fn burn_resources_error(a: BurnResources, remaining: Seq<Pubkey>, types: Seq<u8>, amounts: Seq<u64>) -> Option<ResourceError> {
    request_error(a.game_config, a.caller_authority, a.game_config.crafting_program_authority, remaining, None, types, amounts)
}

/// The mint of entry `i`: `amounts[i]` tokens of the entry's mint to the
/// entry's token account, signed with the resource authority's seeds.
pub open spec fn resource_mint_cpi(a: MintResources, remaining: Seq<Pubkey>, amounts: Seq<u64>, i: int) -> MintTo {
    MintTo {
        token_program: a.token_program,
        mint: remaining[2 * i],
        to: remaining[2 * i + 1],
        authority: a.resource_authority,
        amount: amounts[i],
        signer: Some(SignerSeeds { authority: AuthoritySeed::ResourceAuthority, bump: a.resource_authority_bump }),
    }
}

/// The burn of entry `i`: `amounts[i]` tokens of the entry's mint from the
/// entry's token account, with the player's own signature.
pub open spec fn resource_burn_cpi(a: BurnResources, remaining: Seq<Pubkey>, amounts: Seq<u64>, i: int) -> Burn {
    Burn {
        token_program: a.token_program,
        mint: remaining[2 * i],
        from: remaining[2 * i + 1],
        authority: a.player,
        amount: amounts[i],
        signer: None,
    }
}

/// The accounts `mint_resources` sees when called by `c`, with the game
/// configuration `config`, the decoded token accounts `recipients` and the
/// resource authority's bump `bump`.
pub open spec fn mint_resources_accounts_of(c: MintResourcesCpi, config: GameConfig, recipients: Vec<TokenAccount>, bump: u8) -> MintResources {
    MintResources {
        caller_authority: c.caller_authority,
        player: c.player,
        game_config: config,
        recipients,
        resource_authority: c.resource_authority,
        resource_authority_bump: bump,
        token_program: c.token_program,
        associated_token_program: c.associated_token_program,
        system_program: c.system_program,
    }
}

/// The accounts `burn_resources` sees when called by `c`, with the game
/// configuration `config`.
pub open spec fn burn_resources_accounts_of(c: BurnResourcesCpi, config: GameConfig) -> BurnResources {
    BurnResources {
        caller_authority: c.caller_authority,
        player: c.player,
        game_config: config,
        token_program: c.token_program,
    }
}

/// Every entry of an accepted request names a resource type and that type's
/// recorded mint: the resource program only mints and burns its own
/// resource mints; and every minted entry goes to the player's own token
/// account of that mint.
pub proof fn law_entries_use_recorded_mints(
    config: GameConfig,
    remaining: Seq<Pubkey>,
    recipients: Option<(Seq<TokenAccount>, Pubkey)>,
    types: Seq<u8>,
    n: nat,
)
    requires
        entries_error(config, remaining, recipients, types, n) is None,
    ensures
        forall|i: int| 0 <= i < n ==> {
            &&& #[trigger] types[i] < 6
            &&& remaining[2 * i] == config.resource_mints@[types[i] as int]
            &&& (recipients matches Some((r, player)) ==> recipient_ok(r, player, remaining, i))
        },
    decreases n,
{
    if n > 0 {
        law_entries_use_recorded_mints(config, remaining, recipients, types, (n - 1) as nat);
    }
}

/// An entry list in which every entry names a resource type and that type's
/// recorded mint (and, for a mint, the player's own token account of it) is
/// accepted.
pub proof fn lemma_entries_accepted(
    config: GameConfig,
    remaining: Seq<Pubkey>,
    recipients: Option<(Seq<TokenAccount>, Pubkey)>,
    types: Seq<u8>,
    n: nat,
)
    requires
        forall|i: int| 0 <= i < n ==> {
            &&& #[trigger] types[i] < 6
            &&& remaining[2 * i] == config.resource_mints@[types[i] as int]
            &&& (recipients matches Some((r, player)) ==> recipient_ok(r, player, remaining, i))
        },
    ensures
        entries_error(config, remaining, recipients, types, n) is None,
    decreases n,
{
    if n > 0 {
        lemma_entries_accepted(config, remaining, recipients, types, (n - 1) as nat);
    }
}

/// Whether `c` is the configuration that `initialize` creates: admin and
/// bump given, no mint recorded, no authority set.
pub open spec fn is_fresh_game_config(c: GameConfig, admin: Pubkey, bump: u8) -> bool {
    &&& c.admin == admin
    &&& c.bump == bump
    &&& forall|i: int| 0 <= i < 6 ==> (#[trigger] c.resource_mints@[i]).is_default()
    &&& c.search_program_authority.is_default()
    &&& c.crafting_program_authority.is_default()
}

/// Create the game configuration, with the signer as admin. The
/// configuration can be created once.
pub fn initialize(ctx: &mut Context<Initialize>) -> (r: Result<(), ResourceError>)
    ensures
        final(ctx).remaining_accounts == old(ctx).remaining_accounts,
        match r {
            Err(e) => {
                &&& e == ResourceError::AccountAlreadyInitialized
                &&& old(ctx).accounts.game_config.state is Some
                &&& *final(ctx) == *old(ctx)
            },
            Ok(_) => {
                &&& old(ctx).accounts.game_config.state is None
                &&& final(ctx).accounts == (Initialize {
                    game_config: crate::common::StateAccount {
                        state: final(ctx).accounts.game_config.state,
                        ..old(ctx).accounts.game_config
                    },
                    ..old(ctx).accounts
                })
                &&& final(ctx).accounts.game_config.state matches Some(c)
                    && is_fresh_game_config(c, old(ctx).accounts.admin, old(ctx).accounts.game_config_bump)
            },
        },
{
    if ctx.accounts.game_config.state.is_some() {
        return Err(ResourceError::AccountAlreadyInitialized);
    }
    let zero = Pubkey::default_key();
    let config = GameConfig {
        admin: ctx.accounts.admin,
        resource_mints: [zero, zero, zero, zero, zero, zero],
        search_program_authority: zero,
        crafting_program_authority: zero,
        bump: ctx.accounts.game_config_bump,
    };
    ctx.accounts.game_config.state = Some(config);
    Ok(())
}

/// Initialize the mint of one resource type: only the admin may; record the
/// mint in the configuration and return the creation of the mint and the
/// invocation that writes its token metadata. Each type's mint can be
/// recorded once.
pub fn init_resource_mint(ctx: &mut Context<InitResourceMint>, resource_type: u8, uri: String) -> (r: Result<InitResourceMintCpis, ResourceError>)
    requires
        borsh_encodable(uri@),
    ensures
        match r {
            Err(e) => {
                &&& init_resource_mint_error(old(ctx).accounts, resource_type) == Some(e)
                &&& *final(ctx) == *old(ctx)
            },
            Ok(v) => {
                &&& init_resource_mint_error(old(ctx).accounts, resource_type) is None
                &&& v.create_mint == resource_mint_creation(old(ctx).accounts)
                &&& is_init_metadata_invoke(v.init_metadata, old(ctx).accounts, resource_type_of(resource_type)->Some_0, uri@)
                &&& final(ctx).remaining_accounts == old(ctx).remaining_accounts
                &&& final(ctx).accounts.game_config.resource_mints@
                    == old(ctx).accounts.game_config.resource_mints@.update(resource_type as int, old(ctx).accounts.mint)
                &&& final(ctx).accounts == (InitResourceMint {
                    game_config: GameConfig {
                        resource_mints: final(ctx).accounts.game_config.resource_mints,
                        ..old(ctx).accounts.game_config
                    },
                    ..old(ctx).accounts
                })
            },
        },
{
    if ctx.accounts.mint_exists {
        return Err(ResourceError::AccountAlreadyInitialized);
    }
    if !ctx.accounts.admin.key_eq(&ctx.accounts.game_config.admin) {
        return Err(ResourceError::ConstraintHasOne);
    }
    let rt = match ResourceType::from_u8(resource_type) {
        Some(rt) => rt,
        None => return Err(ResourceError::InvalidResourceType),
    };
    let idx = resource_type as usize;
    if !ctx.accounts.game_config.resource_mints[idx].is_default_key() {
        return Err(ResourceError::MintAlreadyInitialized);
    }
    let mint = ctx.accounts.mint;
    ctx.accounts.game_config.resource_mints[idx] = mint;
    let name = rt.name();
    let symbol = rt.symbol();
    proof {
        lemma_utf8_len_bound(name@);
        lemma_utf8_len_bound(symbol@);
    }
    let program_id = token_2022_program_id();
    let authority = ctx.accounts.resource_authority;
    let instruction = token_metadata_initialize(
        &program_id,
        &mint,
        &authority,
        &mint,
        &authority,
        name,
        symbol,
        uri.as_str(),
    );
    let create_mint = CreateMint {
        mint,
        payer: ctx.accounts.admin,
        token_program: ctx.accounts.token_program,
        decimals: 0,
        mint_authority: authority,
        freeze_authority: Some(authority),
        metadata_pointer: Some((authority, mint)),
    };
    let init_metadata = InvokeSigned {
        instruction,
        account_infos: [mint, authority],
        signer: SignerSeeds { authority: AuthoritySeed::ResourceAuthority, bump: ctx.accounts.resource_authority_bump },
    };
    Ok(InitResourceMintCpis { create_mint, init_metadata })
}

/// Once a refusal is found among the first entries, it stays the first
/// refusal of every longer prefix.
proof fn lemma_entries_error_stable(
    config: GameConfig,
    remaining: Seq<Pubkey>,
    recipients: Option<(Seq<TokenAccount>, Pubkey)>,
    types: Seq<u8>,
    k: nat,
    m: nat,
)
    requires
        k <= m,
        entries_error(config, remaining, recipients, types, k) is Some,
    ensures
        entries_error(config, remaining, recipients, types, m) == entries_error(config, remaining, recipients, types, k),
    decreases m - k,
{
    if k < m {
        lemma_entries_error_stable(config, remaining, recipients, types, k, (m - 1) as nat);
    }
}

/// Why `set_authorities` refuses, if it does: only the admin may.
pub open spec fn set_authorities_error(a: SetAuthorities) -> Option<ResourceError> {
    if a.admin != a.game_config.admin {
        Some(ResourceError::ConstraintHasOne)
    } else {
        None
    }
}

/// Set the authority addresses of the search and crafting programs; only
/// the admin may.
pub fn set_authorities(
    ctx: &mut Context<SetAuthorities>,
    search_authority: Pubkey,
    crafting_authority: Pubkey,
) -> (r: Result<(), ResourceError>)
    ensures
        r is Err <==> set_authorities_error(old(ctx).accounts) is Some,
        r matches Err(e) ==> set_authorities_error(old(ctx).accounts) == Some(e) && *final(ctx) == *old(ctx),
        r is Ok ==> {
            &&& final(ctx).remaining_accounts == old(ctx).remaining_accounts
            &&& final(ctx).accounts == (SetAuthorities {
                game_config: GameConfig {
                    search_program_authority: search_authority,
                    crafting_program_authority: crafting_authority,
                    ..old(ctx).accounts.game_config
                },
                ..old(ctx).accounts
            })
        },
{
    if !ctx.accounts.admin.key_eq(&ctx.accounts.game_config.admin) {
        return Err(ResourceError::ConstraintHasOne);
    }
    ctx.accounts.game_config.search_program_authority = search_authority;
    ctx.accounts.game_config.crafting_program_authority = crafting_authority;
    Ok(())
}

/// Checks the shape of a mint or burn request: one amount per type, and one
/// mint and one token account per entry.
fn check_request_shape(remaining: &Vec<Pubkey>, resource_types: &Vec<u8>, amounts: &Vec<u64>) -> (ok: bool)
    ensures
        ok == (resource_types@.len() == amounts@.len() && remaining@.len() == 2 * resource_types@.len()),
{
    if resource_types.len() != amounts.len() {
        return false;
    }
    let rem_len = remaining.len();
    rem_len % 2 == 0 && rem_len / 2 == resource_types.len()
}

/// Mint resources to a player; only the search program's authority may call
/// it. Every entry must name a resource type, that type's recorded mint, and
/// the player's own token account of that mint; the first entry that does
/// not decides the error. On success one mint per
/// entry is returned, in entry order.
pub fn mint_resources(ctx: Context<MintResources>, resource_types: Vec<u8>, amounts: Vec<u64>) -> (r: Result<Vec<MintTo>, ResourceError>)
    ensures
        match r {
            Err(e) => mint_resources_error(ctx.accounts, ctx.remaining_accounts@, resource_types@, amounts@) == Some(e),
            Ok(v) => {
                &&& mint_resources_error(ctx.accounts, ctx.remaining_accounts@, resource_types@, amounts@) is None
                &&& v@ == Seq::new(
                    resource_types@.len(),
                    |i: int| resource_mint_cpi(ctx.accounts, ctx.remaining_accounts@, amounts@, i),
                )
            },
        },
{
    if !check_request_shape(&ctx.remaining_accounts, &resource_types, &amounts) {
        return Err(ResourceError::InvalidArgs);
    }
    let a = &ctx.accounts;
    if !a.caller_authority.key_eq(&a.game_config.search_program_authority) {
        return Err(ResourceError::Unauthorized);
    }
    let ghost remaining = ctx.remaining_accounts@;
    let ghost recipients = Some((ctx.accounts.recipients@, ctx.accounts.player));
    let signer = SignerSeeds { authority: AuthoritySeed::ResourceAuthority, bump: a.resource_authority_bump };
    let n = resource_types.len();
    let mut out: Vec<MintTo> = Vec::new();
    for i in 0..n
        invariant
            n == resource_types@.len(),
            n == amounts@.len(),
            remaining == ctx.remaining_accounts@,
            remaining.len() == 2 * n,
            ctx.remaining_accounts.len() == 2 * n,
            signer == (SignerSeeds { authority: AuthoritySeed::ResourceAuthority, bump: ctx.accounts.resource_authority_bump }),
            ctx.accounts.caller_authority == ctx.accounts.game_config.search_program_authority,
            recipients == Some((ctx.accounts.recipients@, ctx.accounts.player)),
            entries_error(ctx.accounts.game_config, remaining, recipients, resource_types@, i as nat) is None,
            out@ == Seq::new(i as nat, |j: int| resource_mint_cpi(ctx.accounts, remaining, amounts@, j)),
    {
        let rt = resource_types[i];
        if rt >= 6 {
            proof {
                lemma_entries_error_stable(ctx.accounts.game_config, remaining, recipients, resource_types@, (i + 1) as nat, n as nat);
            }
            return Err(ResourceError::InvalidResourceType);
        }
        let mint = ctx.remaining_accounts[2 * i];
        if !mint.key_eq(&ctx.accounts.game_config.resource_mints[rt as usize]) {
            proof {
                lemma_entries_error_stable(ctx.accounts.game_config, remaining, recipients, resource_types@, (i + 1) as nat, n as nat);
            }
            return Err(ResourceError::InvalidMint);
        }
        let to = ctx.remaining_accounts[2 * i + 1];
        let recipient_is_players = i < ctx.accounts.recipients.len() && {
            let acct = &ctx.accounts.recipients[i];
            acct.key.key_eq(&to) && acct.owner.key_eq(&ctx.accounts.player) && acct.mint.key_eq(&mint)
        };
        if !recipient_is_players {
            proof {
                lemma_entries_error_stable(ctx.accounts.game_config, remaining, recipients, resource_types@, (i + 1) as nat, n as nat);
            }
            return Err(ResourceError::InvalidRecipient);
        }
        out.push(MintTo {
            token_program: ctx.accounts.token_program,
            mint,
            to,
            authority: ctx.accounts.resource_authority,
            amount: amounts[i],
            signer: Some(signer),
        });
        proof {
            assert(out@ =~= Seq::new((i + 1) as nat, |j: int| resource_mint_cpi(ctx.accounts, remaining, amounts@, j)));
        }
    }
    Ok(out)
}

/// Burn resources from a player; only the crafting program's authority may
/// call it. Every entry must name a resource type and that type's recorded
/// mint; the first entry that does not decides the error. On success one
/// burn per entry is returned, in entry order.
pub fn burn_resources(ctx: Context<BurnResources>, resource_types: Vec<u8>, amounts: Vec<u64>) -> (r: Result<Vec<Burn>, ResourceError>)
    ensures
        match r {
            Err(e) => burn_resources_error(ctx.accounts, ctx.remaining_accounts@, resource_types@, amounts@) == Some(e),
            Ok(v) => {
                &&& burn_resources_error(ctx.accounts, ctx.remaining_accounts@, resource_types@, amounts@) is None
                &&& v@ == Seq::new(
                    resource_types@.len(),
                    |i: int| resource_burn_cpi(ctx.accounts, ctx.remaining_accounts@, amounts@, i),
                )
            },
        },
{
    if !check_request_shape(&ctx.remaining_accounts, &resource_types, &amounts) {
        return Err(ResourceError::InvalidArgs);
    }
    let a = &ctx.accounts;
    if !a.caller_authority.key_eq(&a.game_config.crafting_program_authority) {
        return Err(ResourceError::Unauthorized);
    }
    let ghost remaining = ctx.remaining_accounts@;
    let n = resource_types.len();
    let mut out: Vec<Burn> = Vec::new();
    for i in 0..n
        invariant
            n == resource_types@.len(),
            n == amounts@.len(),
            remaining == ctx.remaining_accounts@,
            remaining.len() == 2 * n,
            ctx.remaining_accounts.len() == 2 * n,
            entries_error(ctx.accounts.game_config, remaining, None, resource_types@, i as nat) is None,
            out@ == Seq::new(i as nat, |j: int| resource_burn_cpi(ctx.accounts, remaining, amounts@, j)),
            ctx.accounts.caller_authority == ctx.accounts.game_config.crafting_program_authority,
    {
        let rt = resource_types[i];
        if rt >= 6 {
            proof {
                lemma_entries_error_stable(ctx.accounts.game_config, remaining, None, resource_types@, (i + 1) as nat, n as nat);
            }
            return Err(ResourceError::InvalidResourceType);
        }
        let mint = ctx.remaining_accounts[2 * i];
        if !mint.key_eq(&ctx.accounts.game_config.resource_mints[rt as usize]) {
            proof {
                lemma_entries_error_stable(ctx.accounts.game_config, remaining, None, resource_types@, (i + 1) as nat, n as nat);
            }
            return Err(ResourceError::InvalidMint);
        }
        out.push(Burn {
            token_program: ctx.accounts.token_program,
            mint,
            from: ctx.remaining_accounts[2 * i + 1],
            authority: ctx.accounts.player,
            amount: amounts[i],
            signer: None,
        });
        proof {
            assert(out@ =~= Seq::new((i + 1) as nat, |j: int| resource_burn_cpi(ctx.accounts, remaining, amounts@, j)));
        }
    }
    Ok(out)
}

} // verus!
