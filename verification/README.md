# smartguard

A WireGuard client whose static private key may live on an OpenPGP smartcard.

`src/` is the library. Everything in it is verified with Verus.

- `card` holds the machines that list cards, open one, find it again and let it
  compute a shared secret. A machine names the next question to the PC/SC layer
  and takes the answer; it never touches a card itself.
- `crypto`, `cache` and `precompute` route Diffie-Hellman operations between the
  card, the cache of static-static results and software.
- `config`, `net`, `plan`, `pin` and `up` lead from a configuration to a tunnel.
- `tunnel` is the state machine of the event loop; `device` frames packets on a
  TUN device; `sync` gives synchronous access to asynchronous sessions.
- `report`, `error` and `text` hold what is shown to the user.

The calls into other crates stand behind a few trusted functions: `ct_eq` in
`secret`, `parse_ipv4_net` and `parse_ipv4_prefix` in `net`, `encode_key` in
`report` and `address_families` in `device`.

`app/` is ordinary Rust around the library: command line, PC/SC, TUN device,
sockets and signals. It is generic over a `Platform` that supplies the WireGuard
sessions, the software cryptography, the configuration file and the routes.
