# nanomsg

A nanomsg socket binding whose decisions are verified with Verus.

- `src/` is the verified library. It holds what the socket hands to the
  nanomsg C API for each operation (protocol numbers, option levels, names
  and values) and what it makes of the C API's answers (sockets,
  endpoints, errors with their descriptions, the bytes a receive leaves in
  a buffer, the steps of reading to the end).
  - `protocol.rs`: the protocols and their numbers.
  - `option.rs`: the socket options.
  - `socket.rs`: opening, binding, connecting, setting options, sending
    and receiving, seen through the return codes.
  - `reader.rs`: reading to the end, as a machine fed one receive at a time.
  - `duration.rs`, `format.rs`: spans of time and the decimal and ISO 8601
    texts that error descriptions carry.
  - `result.rs`, `constants.rs`: errors, and the numbers of the C API.
- `app/` makes the calls into the C library and runs the loops, asking the
  library at each step.
- `tests/` runs the library on the scenarios of the socket's life.
