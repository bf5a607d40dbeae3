# kona

The deterministic core of the kona proof program, written and verified in Verus: the decisions by
which L2 blocks are derived from L1 data, and the rules by which executed blocks are sealed and
blocks are looked up through a preimage oracle. Running the transactions of a block is not part of
it: that is left to the virtual machine behind the executor.

Where the program talks to the world, the library holds the decisions only. A run is then a sequence
of steps: each step hands out one action and takes back the event that came of it. The contract of
a step is a function from state and event to the next state and action, and the `law_` proof
functions state what follows for whole runs.

- `src/driver.rs`, `src/driver_laws.rs`: deriving and executing blocks until a target is reached
- `src/channel_reader.rs`: reading batches out of channels
- `src/assemble.rs`, `src/receipt.rs`: headers, receipts roots and output roots
- `src/executor.rs`: the block executor, around the builder that runs the transactions
- `src/oracle.rs`, `src/walk.rs`, `src/block_query.rs`, `src/block_read.rs`, `src/chain_provider.rs`:
  the L2 chain as seen through the oracle
- `src/sync.rs`: the starting point of the derivation
- `src/hint.rs`: the hint protocol
- `src/rpc.rs`: how requests to an endpoint are limited
- `src/config.rs`, `src/primitives.rs`, `src/header.rs`, `src/transaction.rs`, `src/errors.rs`: what
  the others share

`app/` performs the actions: it holds the asynchronous loops and the traits of the pipeline, the
executor, the oracle and the channels.
