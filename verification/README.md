# monero_block_explorer

A web explorer for the Monero blockchain, split in two:

- `src/` is the library, verified with Verus: the daemon's data types, the
  requests sent to the daemon (`rpc`), the decimal reader for block heights
  (`parse`), the search dispatcher as a state machine (`search`), the payment URI
  and QR code of a wallet address (`wallet`), and the error answers (`status`).
- `app/` is the Rocket server around it: routes, HTTP calls to the daemon named
  by `DAEMON_URI`, JSON (de)serialization through serde copies of the library's
  types, and template rendering.

## Dependencies

`base64` and `qrcode-generator` are called from `src/`; the others serve `app/`,
which shares the library's dependency table. Rocket 0.4 and `rocket_contrib`
need a nightly compiler, so the server uses Rocket 0.5, whose templates moved
from `rocket_contrib` to `rocket_dyn_templates`. `serde` supplies the derives
that `serde_derive` implements, for the copies of the library's types in
`app/wire.rs`.
