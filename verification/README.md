# magic-carpet

The verified core of a Nostr list marketplace with Lightning (PhoenixD) and
on-chain (BDK) payments, written in Verus.

- `src/` — the library, written in Verus: its functions carry contracts that Verus proves, except the few marked `external_body`, which call the outside crates and whose contracts are trusted:
  - `text` — decimal and hex rendering, integer parsing, splitting;
  - `event` — keys, tags and signed events as plain values;
  - `dcosl` — list coordinates, item tags, event rendering, ordering, paging;
  - `nostr_lib` — relay filters, profiles, paged fetching, list assembly,
    NIP-57 zap requests;
  - `phoenixd` — the PhoenixD API's settings, forms, responses and errors;
  - `bdk` — wallet files per network, BIP-39/BIP-84 wallet creation, balances;
  - `cli` — flag handling and error mapping of the two agent command lines;
  - `ui` — the screens' data, sample data and display formatting.
- `tests/` — tests run against the compiled library and the real outside crates.
- `app/` — the I/O around the library: the relay client, the HTTP client, the
  wallet's files and network calls, and the agent command lines.
