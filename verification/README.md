# substrate_features

Decision logic of a Substrate-style node, written and proved in Verus.

- `network`: the protocol state machine over a notifications layer (`protocol`), the
  syncing state machine (`sync_helper`, `sync_responses`) and the loop around it
  (`sync_loop`), the cache of announcement data and the bounded set of known blocks. The
  mathematical models stand in `protocol_model` and `sync_model`, what holds over several
  steps in `protocol_laws` and `sync_laws`.
- `nfts`: metadata with deposits and approvals of transfers.
- `message_queue`: messages, pages, weights and processors to try out a message queue.
- `sassafras`: the threshold for tickets.
- `scale`, `hex`, `double_map`: the wire format, hexadecimal digits, and a map keyed by
  pairs.

Block numbers have 32 bits, hashes 32 bytes, and headers are hashed with BLAKE2b. Peers
and accounts are numbered by the embedding node.

The state machines perform nothing themselves: they return the actions that the services
around them have to perform, and take the outcomes as arguments. `app/` drives them.
