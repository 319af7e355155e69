# hydra-umc-twin

Readiness and state-sync checks for the HYDRA-UMC Digital Twin, the
integration parent of three child repositories (PHYSICS-REPLICA, HIL-BRIDGE,
SYNTHETIC-DATA-GEN). The library is written in Verus and proved against its
contracts; the program around it reads manifests, prints and serves.

Layout:

- `src/text.rs` - splitting, decimal numbers and `u32` parsing over characters.
- `src/manifest.rs` - a child's `hydra-umc.project.json` record.
- `src/contract.rs` - the sync contract (`assess`): minimum maturity
  `functional`, complete numeric `MAJOR.MINOR.PATCH` version with major at
  most `0`, maturity checked first; and its laws.
- `src/family.rs` - the expected children, their presence and sync outcomes.
- `src/report.rs` - the lines and exit codes of `family-status` / `family-sync`.
- `src/cli.rs`, `src/server.rs` - command-line and HTTP request decisions.
- `app/` - `main`: file reading, JSON decoding and encoding, the `tiny_http` loop.
