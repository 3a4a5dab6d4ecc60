# ZGDA client and test harness

Generates workload tests for the ZeroGravity data availability (DA) layer.

A block of random data is cut into blobs, each blob is handed to the disperser, and, in a store
test, waited for until it is finalized, retrieved, and compared with what was stored.

## Layout

- `src/` is the verified library. It does no I/O: an operation of the client comes back as the
  work that it takes, blob by blob, and each step of that work is a function from what happened to
  what is to be done next.
  - `config`: the settings of a client
  - `blob`: how a block is cut into blobs
  - `disperser`: the messages and the errors
  - `disperse`, `confirm`, `retrieve`: the three kinds of work
  - `gather`: many outcomes made into one
  - `da`: the client
  - `metrics`: what the client counts
  - `workload`: the rules of a test run
  - `run`, `laws`: what holds of the work as a whole, whatever turns the blobs take
  - `outside`: what is believed of the crates that the library calls
- `app/` is the program: the command line, the gRPC client, and the Prometheus exporter.
- `tests/` runs the library.

## Quick test

    cargo run -- zerog-da-disperse

runs dispersals of 3 MB. Each request is limited to a 512K chunk. Requests, those that repeat a
refused one among them, are limited to 6 per second, with at most 6 under way.
