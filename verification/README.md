# filecoin_proofs

The response side of the proofs API, verified with Verus.

- `src/responses.rs`: the response records, their status codes and defaults.
- `src/metadata.rs`: what the sector builder hands back (sectors, pieces, sealing states, errors).
- `src/api.rs`: one function per entry point, turning an outcome into its response, and the cutting of flattened replica commitments.
- `src/laws.rs`: properties that span the entry points.
- `app/`: the C-facing entry points (raw pointers, C strings) around the library; the sector builder and the proof checks are reached through the traits of `app/backend.rs`.
