# codlet

One-time-code authentication primitives, verified with Verus.

A service issues a short, human-friendly code; the holder redeems it once for
a host-defined subject and a session. The library provides code generation by
rejection sampling, input normalization and validation, keyed (HMAC-SHA256)
lookup-key derivation with key rotation, the claim / session / form-token
state machines, secure cookie construction, redacted secret types, audit
events, and in-memory reference stores.

## Layout

- `src/` — the verified library. Its functions carry contracts that Verus
  checks; the calls into the standard library, HMAC-SHA256 and constant-time
  comparison go through small trusted wrappers. The laws the library promises
  (single use of codes and form tokens, idempotent normalization, each
  accepted byte value below the unbiased ceiling standing for each symbol
  equally often, generation following rejection sampling over the drawn
  bytes, domain separation, effective logout, rate-limit reset, issued codes
  and sessions being found again) are public proof functions or contracts
  beside the code they are about.
  The manager flows in `src/auth/` are split at their store calls: each step
  is verified, and the host performs the store call between two steps.
- `tests/` — tests of the library's behaviour on concrete values.
- `app/` — the host-side runtime: asynchronous store interfaces and
  thread-safe adapters over the in-memory tables, the operating system's
  randomness, the asynchronous flows that drive the verified steps, and the
  serde / `std::error::Error` forms of the library's types.
