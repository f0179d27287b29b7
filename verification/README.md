# bagua_communicators

Communicators for data-parallel training over NCCL, verified with Verus.

A communicator knows its place among the ranks and decides which device
operations to launch. The library in `src/` makes these decisions and returns
each operation as a plain value; the program in `app/` launches it on NCCL and
CUDA.

- `datatypes`: what a communicator reads of a tensor.
- `calls`: the device operations.
- `inner`: the collectives of one NCCL communicator, and how a tensor is cut
  into one chunk per rank.
- `unique_id`: the identifier that the ranks share, and its base64 text.
- `single`: a flat communicator and how it is set up.
- `hierarchical`: the leader and the workers of a node.
- `communicator`: the communicator that a training program uses, and the steps
  in which it communicates a tensor.
- `group`: groups of NCCL calls.
- `laws`: what holds of all of these together.

Two outside functions are trusted, `base64::encode` and `base64::decode`, and
one of the standard library, `Arc::clone`; their contracts stand in
`unique_id` and `single`.
