# gua_auth

Gua's customisations of the Matrix Authentication Service, as a verified
library (Verus) with a thin service layer.

- `src/` — the library. Its functions carry `requires`/`ensures` contracts
  proved by Verus, except three trusted wrappers whose contracts Verus takes
  on trust: `guard::host_of_uri` (the `url` crate's parser),
  `identity_reset::ulid_to_string` (the `ulid` crate's text form) and
  `text::debug_string` (std's `Debug` form of a string). The public
  `proof fn`s state the library's
  laws (text round trips of the provider settings, the downstream-client
  marker, consent skipping, the order of auto-fulfilling a grant, the
  identity-reset subject, the account-page user check).
  - `provider`: discovery, PKCE, response mode, token endpoint
    authentication and back-channel logout settings with their textual
    forms; the stored upstream provider.
  - `claims`: which upstream claims are imported.
  - `guard`: the `gua_downstream` marker (`web` / `native`).
  - `consent`, `config`: skipping the consent screen; the `[gua]` section.
  - `identity_reset`: which session may open a cross-signing reset, and the
    answers to refusals.
  - `authorize`: the decisions of starting an upstream login.
  - `account`: which user the app says it is signed in as, and what the
    account page does about it.
  - `text`: character-level string helpers.
- `tests/` — tests of the library on concrete values.
- `app/` — serde forms of the settings, the `[gua]` configuration section,
  and handlers that run the library's decisions against storage and the
  homeserver.

Identifiers (ULIDs) are held as their 128-bit value throughout the library.
