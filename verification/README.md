# multicast_relay

A relay between servers of several domains. Servers announce themselves on a
multicast group (`ECHO <port> <domain>`); the relay connects to those of its
configured domains, decrypts what each sends with the domain's AES-256-GCM
key, and forwards `SEND ...` requests, re-encrypted, to the target domain.

- `src/` — the verified library (Verus):
  - `text.rs`: trimming, decimal rendering and parsing;
  - `models.rs`, `infrastructure.rs`: the configuration and its file form;
  - `aesgcm.rs`: the message envelope (base64 of nonce and ciphertext);
  - `net_chooser.rs`: the list of IPv4 interfaces and the user's choice;
  - `server_manager.rs`, `server_thread.rs`: the routing decisions.
- `app/` — the program: terminal, configuration file, sockets and threads.
- `tests/` — tests of the library.
