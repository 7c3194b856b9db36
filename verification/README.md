# crosvm_plugin

The client library that a plugin process loads to drive a virtual machine monitor, written in
Verus.

- `src/` is the library. It decides what each operation sends, what a response means, which error a
  caller gets, and which identifiers objects have. It is verified.
- `app/` holds the C API and what goes with it: sockets, the encoding of messages, raw pointers.
- `tests/` runs the library.

An operation of the library is a function that makes a request and one that takes what came of it.
`src/transaction.rs` is the exchange in between, as a state machine that the caller drives. The
connections of one plugin share an `IdAllocator`. The caller keeps it behind a lock, held for one
step at a time.

`src/rand_ish.rs` makes random alphanumeric text, from a generator or from bytes that the caller
reads.
