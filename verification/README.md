# zebrad_config

The logic of the `zebrad` configuration, verified with Verus.

- `src/sensitive.rs` — the case-insensitive suffix deny-list (`password`, `secret`, `token`,
  `cookie`, `private_key`) for leaf keys set through environment variables.
- `src/env.rs` — which `{PREFIX}_SECTION__KEY` variables become configuration overrides
  (`{PREFIX}_TARGET_…` ones are left to the target configuration), and the refusal of any
  `{PREFIX}_…` variable, target ones included, whose last `__`-separated piece is sensitive.
- `src/local_genesis.rs` — the `[local_genesis]` section: decoding its 32-byte hex seed and
  building the local-testnet generator options; the activation-height key names of upgrades.
- `src/radix.rs`, `src/text.rs` — models of the `str`/integer-parsing operations used above,
  with the two trusted wrappers (`str::trim`, `u8::from_str_radix`).
- `app/` — loading: reading the process environment and the TOML file with the `config`
  crate, and the serde form of the configuration.
