# xcode_build

Logic of a helper that builds a Rust crate as a static library for an Xcode
project, with its contracts proved by Verus.

- `src/config.rs` — iOS feature flags and the `cargo rustc` arguments they give.
- `src/manifest.rs` — a TOML document model and the lookup of the
  `[package.metadata.xcode-build-rs]` section of a manifest.
- `src/xcode_env.rs` — decisions taken from Xcode's environment (release
  profile, simulator, architecture) and the full `cargo rustc` command line.
- `src/cli.rs` — the command line as plain values; the manifest path.
- `src/xcode_build_rs.rs` — the earlier, smaller helper's command line.
- `src/signup.rs`, `src/scribble.rs` — sign-up field checks, and finding a
  scribble pad and its spawners for a touch detector.
- `app/` — clap and serde copies of the types, environment and file reads,
  running `cargo`, and logging.
