# fa_local

Verified support library for FA Local admission inputs.

- `src/vocabulary.rs`: approval postures and environment modes.
- `src/ids.rs`: 128-bit identifiers, their lowercase hyphenated text, parsing
  and random version-4 minting through the `uuid` crate.
- `src/timestamp.rs`: UTC instants over chrono's range and their ISO-8601 text
  through `chrono`.
- `src/envelopes.rs`: the requester-trust, policy, capability-registry and
  execution-request envelopes.
- `src/admission.rs`: admission inputs, the admission context and the
  (stateless, operation-free) facade type. The admission decision itself is not
  part of this library.
- `src/nil.rs`: the AuthorForge NIL Writer Authority Mode policy, the
  narrative-commit capabilities, the builder of a commit's admission inputs,
  and the laws of the NIL tier mapping.
- `app/lib.rs`: renders the envelopes as `serde_json` values and converts
  `chrono` instants.
