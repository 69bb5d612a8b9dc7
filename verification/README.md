# pinocchio_fundraiser

The state layout and contribution rules of a Solana token fundraiser program,
verified with Verus.

- `src/state/` — the fundraiser account (90 bytes: maker, mint, amount to
  raise, amount raised, start time, duration, bump) and the contributor
  account (8 bytes: amount given), with typed getters and setters and
  reading/writing of account data.
- `src/instructions.rs` — instruction data decoding.
- `src/instructions/contribute.rs` — a contribution: `check_contribution`
  decides it from what the instruction reads (`spec_check_contribution` gives
  the checks in order), `apply_contribution` records it for the contributor and
  names the token transfer, `record_raised_amount` records it for the
  fundraiser; the laws `law_contribution_effect` and
  `law_contribution_no_abort` state the whole effect.
- `src/address.rs` — the contributor account's program address, derived by
  `pinocchio_pubkey::derive_address`.
- `src/le.rs` — little-endian integer fields.
- `app/` — the program entrypoint, account access, sysvar reads, and the
  account creation and token transfer that the verified decisions direct.
