# cryptix_miner

The proof-of-work core of a Cryptix CPU miner, written in Verus. The functions in `src/`
carry contracts that Verus proves; the few calls into std and BLAKE3 that they rest on
are trusted items, each with a doc comment that says what its contract claims.

- `hash` – 256-bit hashes as four little-endian words, and their byte encoding.
- `xoshiro` – the xoshiro256++ generator seeded by a pre-PoW hash.
- `matrix`, `generate` – the 64 x 64 HeavyHash matrix, drawn nibble by nibble from
  the generator until the rank test accepts it.
- `octonion`, `octonion_laws`, `anti_fpga`, `bits`, `heavy_hash` – the mixing stages of HeavyHash:
  matrix-vector product on the nibbles, octonion hash, S-box, anti-FPGA transform and
  the BLAKE3 chain.
- `cli` – the command-line options, the dev-fund share parser and the node address.
- `messages` – the requests sent to the node.
- `arrays` – building an array from a function of the index.

`app/` holds the command-line front end (clap, logging, IP address parsing) and the
floating-point rank of the matrix, which `generate` takes as its rank test.
