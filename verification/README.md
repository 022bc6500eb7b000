# nnis-kernels

Inference kernel families for NVIDIA devices: elementwise operations, matrix
products, reductions, softmax, normalization, attention, rotary embeddings,
projections, row moves, argmax and top-k, over `f32` and packed-bf16 storage.

Everything an operation decides before and between its device calls is decided
by a verified library, written in [Verus](https://github.com/verus-lang/verus):
which requests are refused and with what message, launch geometry and shared
memory, argument lists, multi-pass schedules, which path a dispatch takes, what
is allocated, and when the stream is waited for or drained.

## Layout

- `src/` is the verified library. An operation is a function from plain values
  (contexts, buffer lengths, shapes, what the driver reported of a function) to
  a `Plan`: the device calls to make, in order, and how the operation ends.
  - `device`, `launch`, `plan`, `error`, `text` describe device objects,
    launches, plans and refusals.
  - One module per family holds its checks and plans, each as a spec function
    and the executable function proved equal to it, followed by the family's
    laws.
  - `conformance`, `grounding`, `scratch`, `settling` and `waiting` hold laws
    about all families: every launch passes the arguments its kernel declares,
    scratch is allocated before it is used, and how much of it there is, nothing
    is left running when an operation that waits returns, and how often an
    operation waits.
  - `machine` gives each kernel an effect on the bit patterns in device memory,
    for every `f32` arithmetic, and a plan the memory it leaves.
  - `results`, `tree_results` and `selection` hold laws on what plans leave:
    elementwise operations, projections and rotations; reductions and softmax;
    top-k and argmax.
  - `bitwise`, `bitwise_rows`, `bitwise_heads` and `bitwise_composed` hold laws
    on operations that agree bit for bit: packed batches and heads with single
    ones, packed bf16 with the narrowed `f32` result, a transposed operand with
    the transpose, a causal row with itself whatever the later rows hold.
  - `row_moves` gives the threads of the gather and scatter kernels an effect on
    memory, and has the laws on what those plans leave there in whatever order
    the threads run.
- `tests/` runs the library: refusals and their exact messages, exact plans,
  and plans carried out on a host model of the device against numeric
  references.
- `app/` holds the CUDA sources, compiles them through `nnis-jit`, and carries
  plans out on `nnis-rt` streams.
