# bitcomm

Grams of a messaging network and the decisions of its servers, verified with Verus.

- `src/object/gram/`: the five grams (message, receipt, reply, command,
  server hookup). Each is a fixed header of little-endian `u32` (and, for the
  message, `u64`) fields; the files give the byte offsets, the reading of a
  header from bytes, the writing of a header into bytes, and the functions
  that recognise, create and answer grams.
- `src/queue.rs`: the resend buffer (a first-in first-out order of keys and
  the buffers stored under them) and the events of the servers' queues.
- `src/exserver/`, `src/imserver/`: what the exchange server (server to
  server) and the messaging server (client to server) decide about the grams
  they receive, and the bytes of the answers they send.
- `src/laws.rs`: properties that relate several functions.
- `src/wire.rs`: little-endian fields in byte sequences.
- `app/`: the QUIC endpoints, queues, tasks and global tables around the
  library.
