# arcpanel

The verified core of a hosting control panel's API: the checks every
request goes through, the decisions taken from stored state, the
configuration the server agent is sent, and the WebAuthn (passkey)
ceremonies down to the bytes of the authenticator data.

- `src/` is the library, written in Verus. Each public function carries a
  contract over mathematical models (`Seq`, `Map`, spec functions), and the
  properties that span several calls are stated as proof functions named
  `law_*`. Calls into outside crates (digests, base64, CBOR, P-256, URL
  parsing, random values, password hashing, JWT signing, the clock) go
  through the small trusted wrappers of `src/crypto.rs`; the few std calls
  Verus has no specification for (`str::to_lowercase`, collecting chars
  into a `String`, `char::is_alphanumeric`) have theirs
  in `src/text.rs` and `src/site_settings.rs`.
- `tests/` runs the library on concrete values.
- `app/` is the plain Rust around it: serde request and reply types, the
  decoding of the agent's streamed update lines, and
  the floating-point rounding of metric summaries.
