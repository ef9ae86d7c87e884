//! The calls the game's logic makes into outside crates: Keccak hashing
//! (anchor-lang), the Token-2022 program id (spl-token-2022) and the
//! token-metadata `initialize` instruction builder
//! (spl-token-metadata-interface).
use vstd::prelude::*;
use vstd::utf8::encode_utf8;
use crate::common::{AccountMeta, Instruction, Pubkey};

verus! {

/// The Keccak-256 digest of a byte string.
pub uninterp spec fn keccak256(data: Seq<u8>) -> Seq<u8>;

/// Calls `anchor_lang::solana_program::keccak::hash` on `data`; the contract
/// claims only that the 32 bytes returned are `keccak256(data)`, a value fixed
/// by the bytes hashed.
#[verifier::external_body]
pub(crate) fn keccak_hash(data: &Vec<u8>) -> (digest: [u8; 32])
    ensures
        digest@ == keccak256(data@),
{
    anchor_lang::solana_program::keccak::hash(data.as_slice()).0
}

/// The bytes of the SPL Token-2022 program id
/// `TokenzQdBNbLqP5VEhdkAS6EPFLC1PHnBqCXEpPxuEb`.
pub open spec fn token_2022_id_bytes() -> Seq<u8> {
    seq![
        6u8, 221, 246, 225, 238, 117, 143, 222, 24, 66, 93, 188, 228, 108, 205, 218,
        182, 26, 252, 77, 131, 185, 13, 39, 254, 189, 249, 40, 216, 161, 139, 252,
    ]
}

/// Calls `spl_token_2022::id()`, the id that the crate declares with
/// `declare_id!("TokenzQdBNbLqP5VEhdkAS6EPFLC1PHnBqCXEpPxuEb")`; the contract
/// claims the 32 bytes that this base58 string decodes to.
#[verifier::external_body]
pub(crate) fn token_2022_program_id() -> (id: Pubkey)
    ensures
        id.bytes@ == token_2022_id_bytes(),
{
    Pubkey { bytes: spl_token_2022::id().to_bytes() }
}

/// The 4 little-endian bytes of `n`, for `0 <= n < 2^32`.
pub open spec fn le_u32_bytes(n: int) -> Seq<u8> {
    seq![
        (n % 256) as u8,
        ((n / 256) % 256) as u8,
        ((n / 65536) % 256) as u8,
        ((n / 16777216) % 256) as u8,
    ]
}

/// Borsh encoding of a string: its UTF-8 byte length as a little-endian
/// `u32`, then the UTF-8 bytes.
pub open spec fn borsh_string(s: Seq<char>) -> Seq<u8> {
    le_u32_bytes(encode_utf8(s).len() as int) + encode_utf8(s)
}

/// The 8-byte discriminator of the token-metadata `Initialize` instruction:
/// the first bytes of the SHA-256 digest of
/// `spl_token_metadata_interface:initialize_account`.
pub open spec fn metadata_initialize_discriminator() -> Seq<u8> {
    seq![210u8, 225, 30, 162, 88, 184, 77, 141]
}

/// The data of a token-metadata `Initialize` instruction.
pub open spec fn metadata_initialize_data(name: Seq<char>, symbol: Seq<char>, uri: Seq<char>) -> Seq<u8> {
    metadata_initialize_discriminator() + borsh_string(name) + borsh_string(symbol) + borsh_string(uri)
}

/// A string whose Borsh encoding exists: its UTF-8 form is at most
/// `u32::MAX` bytes long.
pub open spec fn borsh_encodable(s: Seq<char>) -> bool {
    encode_utf8(s).len() <= u32::MAX
}

/// Calls `spl_token_metadata_interface::instruction::initialize`. As its
/// source shows, the instruction goes to `program_id`, names `metadata`
/// (writable), `update_authority` and `mint` (read-only) and `mint_authority`
/// (read-only signer), and carries the `Initialize` discriminator followed by
/// the Borsh encoding of `name`, `symbol` and `uri`; the Borsh encoding is
/// unwrapped, so each string's UTF-8 form must fit a `u32` length.
#[verifier::external_body]
pub(crate) fn token_metadata_initialize(
    program_id: &Pubkey,
    metadata: &Pubkey,
    update_authority: &Pubkey,
    mint: &Pubkey,
    mint_authority: &Pubkey,
    name: &str,
    symbol: &str,
    uri: &str,
) -> (ix: Instruction)
    requires
        borsh_encodable(name@),
        borsh_encodable(symbol@),
        borsh_encodable(uri@),
    ensures
        ix.program_id == *program_id,
        ix.accounts@ == seq![
            AccountMeta { pubkey: *metadata, is_signer: false, is_writable: true },
            AccountMeta { pubkey: *update_authority, is_signer: false, is_writable: false },
            AccountMeta { pubkey: *mint, is_signer: false, is_writable: false },
            AccountMeta { pubkey: *mint_authority, is_signer: true, is_writable: false },
        ],
        ix.data@ == metadata_initialize_data(name@, symbol@, uri@),
{
    let k = |p: &Pubkey| anchor_lang::prelude::Pubkey::new_from_array(p.bytes);
    let ix = spl_token_metadata_interface::instruction::initialize(
        &k(program_id), &k(metadata), &k(update_authority), &k(mint), &k(mint_authority),
        name.to_string(), symbol.to_string(), uri.to_string(),
    );
    let accounts = ix.accounts.iter().map(|m| AccountMeta {
        pubkey: Pubkey { bytes: m.pubkey.to_bytes() }, is_signer: m.is_signer, is_writable: m.is_writable,
    }).collect();
    Instruction { program_id: Pubkey { bytes: ix.program_id.to_bytes() }, accounts, data: ix.data }
}

} // verus!
