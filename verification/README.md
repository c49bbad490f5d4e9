# attributes_builder

Derives the payload attributes of OP Stack L2 blocks from L1, with contracts that Verus proves.

- `src/` is the library. It decides and computes, and performs no I/O: a job names what it needs to
  know next and goes on with the reply. `src/outside.rs` holds all that is relied on of other crates
  without proof. `src/run.rs` and `src/laws.rs` hold what is proved of whole runs, of gas prices and
  of upgrades.
- `tests/` runs the library against chains in memory.
- `app/` puts the library on top of asynchronous L1 and L2 providers.
