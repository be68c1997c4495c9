# token_22_tc

A Solana program around Token-2022 mints with extensions, split in two:

- `src/` is the verified library. It checks mint data against the
  program's extension allowlist, computes transfer fees, builds the
  confidential-transfer instructions, and decides, for every handler, the
  exact sequence of token-program calls to make. Calls into the Token-2022
  interface crate stand behind small trusted wrappers (`token.rs`,
  `confidential_ix.rs`); `laws.rs` holds the properties that span handlers.
- `app/` is the Anchor program: account validation, reading account data and
  the clock and rent sysvars, and carrying out the calls the library returns.
