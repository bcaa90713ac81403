# transact

A verified core for a transaction-protocol toolkit.

- `src/codegen`: the decisions of the `FromProtoImpl` code generator over a
  plain model of a derive input (`input.rs`): where the protobuf message type
  comes from and how its path splits (`path.rs`), how each field is filled or
  which protobuf variant each enum variant maps from, and which error stops the
  generator and where it points (`protos.rs`).
- `src/protocol`: the transaction-processor registration request, its builder
  and its conversion from the protobuf message (`src/protos`).
- `src/signing`: what the Sawtooth signer does with the answers of its signing
  context (public key, hex-encoded signatures).
- `src/workload`: the interfaces of transaction and batch sources.
- `app/`: the parts that need `syn`/`quote` (parsing items and printing the
  generated code) and the Sawtooth signing context.
