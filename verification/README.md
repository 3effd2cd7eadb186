# ethcore_sync

The decisions of a full synchronisation service for an Ethereum client, verified
with Verus: configuration and its conversion to and from the network layer,
which protocols and timers are registered, in which context a peer is greeted or
given up, what is announced, broadcast and told about peers, and the way up and
down.

* `src/` is the verified library.
  * `fixed_bytes`: byte strings of a fixed size, their order and their
    hexadecimal form.
  * `ordered_map`: a map keyed by such strings, kept in order.
  * `common_types`: types shared by full and light synchronisation, and the
    network configuration.
  * `full_sync`: configuration, the service (`eth_sync`), its protocol handler
    (`handler`), the light server's parameters (`light_params`) and the peers
    (`peers`).
  * `light_sync`: what a light synchronisation tells about itself.
* `tests/` runs the library.
* `app/` is the running service: network, chain, snapshots and the light protocol
  stand behind traits, and it carries out what the library decides.

Addresses are read by a parser that the caller hands in, and written by their own
`Display`. The load share of a light peer is kept as a fraction; `app/` turns it
into a floating point number.
