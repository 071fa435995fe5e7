# cesa_conn

Serverless, end-to-end encrypted communication between a user's own devices, with its logic verified
by Verus.

- `src/` is the verified library. It never touches a socket: a protocol is a value that says which
  stream operation comes next and is told what became of it (`exchange`).
  - `crand`, `x25519_cesa`, `aes`, `pswd_manager`: randomness and cryptography, over the crates that
    implement them.
  - `auth`: the encrypted tunnel, and the mutual authentication that opens it.
  - `auth_snow`: hybrid authentication with SPAKE2, X25519, ML-KEM-1024 and a Noise responder.
  - `tcp_networker`: one packet over an authenticated connection, on both of its ends.
  - `udp_networker`: presence broadcast and discovery.
  - `ipc`: the control channel of the daemon.
  - `command`: the command line of the test modes.
  - `loopback`: both ends of a connection run against each other in memory.
  - `secret`: key material that is wiped when it is dropped.
  - `address`, `le`, `text`: addresses, little-endian numbers and text.
- `tests/` runs the library together with the real cryptography.
- `app/` is the program: sockets, files, tasks and logging around the library.

Every connection is protected by two keys. The authentication key is used for authentication and
discovery alone, the data key for the data alone.
