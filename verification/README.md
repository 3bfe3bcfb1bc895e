# mixxc filter

The channel and device filter of the mixxc mixer, verified with Verus.

- `src/text.rs`: substring search on Unicode strings (`contains_str`), proved against `is_substring`.
- `src/pattern.rs`: one pattern against one text, as a substring or as a regular expression
  compiled by the `regex` crate (behind two trusted wrappers).
- `src/filter.rs`: `FilterConfig` and the whitelist / blacklist decision (`should_show_with_fields`, `should_show`).
- `src/outputs.rs`: output switches fed by audio-server messages, keeping only outputs that pass the filter.
- `src/laws.rs`: properties of the filter proved for all configurations.
- `app/`: reading `config.toml` (serde + toml), outside the verified library.
