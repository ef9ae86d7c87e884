# game_programs

Verified decision logic of a small on-chain game made of six Solana
programs: resource search, resource tokens, item crafting, item NFTs, an
in-game currency and a marketplace.

- `src/` — the library, verified with Verus. Each program is a module
  (`search`, `resource_manager`, `crafting`, `item_nft`, `magic_token`,
  `marketplace`); its instruction handlers take the decoded accounts as a
  `Context`, check the account rules the programs declare (accounts created
  once, the configured admin and mint, the owners of token accounts),
  update the program's state and return the calls to make: mint and
  token-account creations, cross-program calls and account closes. `common` holds addresses, signer
  seeds and token requests, `outside` the calls into outside crates, `laws`
  the properties that span programs.
- `tests/` — tests of every handler, error and law on concrete values.
- `app/` — the Solana glue: account-state encodings, Anchor error codes, and
  the execution of the returned calls through the system, token,
  token-metadata and game programs. It holds no program entry points; see
  its crate documentation for what is left to the caller.
