# un-motion

The configuration, profile and control logic of the UN Motion capture stack,
written in Verus: every function in `src/` carries a contract, and Verus
proves each one, except the few trusted wrappers around `toml`, `image` and
std described below, whose contracts are assumed.

- `src/` — the verified library: profile documents and their edits, the runner
  profile format, the runtime configuration a profile yields, the control
  decisions of the core process, the capturer book the supervisor keeps, the
  still-image input, output telemetry, and the small parsers and names they
  share. `src/laws.rs` states properties that span functions.
- `tests/` — tests that run the library with the outside crates linked.
- `app/` — the core program around the library: command line, files on disk,
  serde copies of the profile document, and the floating-point statistics
  that Verus does not reason about.

Calls into `toml`, `image` and std that the library makes go through a few
trusted wrappers; each says in its doc comment what is claimed of it.
