# open4x

The account service, wire types, command-line helpers and browser-client
helpers of the open4x strategy game, as a Verus library whose functions carry
proved `requires`/`ensures` contracts.

- `src/accounts/` — player ids, identities, magic-link and session tokens,
  OIDC authorization requests, friends, presets, games index rows, audit
  kinds, mail text; hashing, HMAC, base64 and the clock through trusted
  wrappers of `sha2`, `hmac`, `base64`, `subtle`, `rand` and `chrono`.
- `src/api/` — ids, coordinates, enums and client messages of the wire
  protocol.
- `src/cli/` — argument model, command and REPL parsers, ULID and name
  lookup, short ids, prompt rendering, console headings.
- `src/web/` — tab navigation, map tile packing, terrain colours, number
  formatting, reading the session token from the page URL.
- `src/text.rs`, `src/number.rs` — character and number helpers the rest
  builds on.
- `app/` — SQLite stores, mail delivery, serde/clap copies of library
  types, and what needs floating point.
- `tests/` — tests of the library through its public functions.
