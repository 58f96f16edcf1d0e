# crowdfunding

A verified core for an initial-DEX-offering (IDO) program on Solana, written
in Verus.

- `src/` is the verified library: the sale account (`ido`), its rounds,
  tiers and release schedule, the wallet records (`users`), the role
  registry (`onepad`, `roles`), the vesting and round arithmetic (`utils`),
  the state changes of each instruction (`instructions/`), and the
  properties that tie them together (`laws`).  Checked arithmetic comes from
  `solana-safe-math`, and associated token addresses are derived with
  `Pubkey::try_find_program_address` under the program ids that `anchor-spl`
  exports, through the trusted wrappers in `safe_math` and `token`.
- `app/` is the Anchor program around it: account layouts, account
  constraints, the clock and rent sysvars, token transfers and events.
- `tests/` exercises the library on concrete values.
