# better_ch

A terminal client for the CloudHub runtime manager, with its logic written in
Verus and proved against its contracts.

- `src/` is the verified library: error messages, configuration defaults and
  overrides, the OAuth flow (PKCE challenge, state, authorization URL, token
  forms, the redirect callback parser, token lifetimes), the keyring outcomes,
  the API endpoints and how responses map to errors, the application state and
  the TUI's key handling and screen texts. Calls into outside crates
  (`urlencoding`, `sha2`, `base64`, `rand`, `chrono`, `reqwest`) sit behind
  small trusted wrappers whose contracts say what the library relies on.
- `app/` is the program around it: terminal drawing, HTTP and keyring I/O,
  file-based configuration, and the serde copies of the library's types.
- `tests/` runs the library on concrete values.
