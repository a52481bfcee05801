# artnet_client

An Art-Net client, verified with Verus: a DMX producer (a controller that finds
nodes with ArtPoll and sends them ArtDmx packets) and a DMX receiver (a node
that answers ArtPoll and hands the newest data of each universe to its user).

- `src/address.rs`: Net, Sub-Net, Universe and the 15-bit Port-Address.
- `src/artnet.rs`: the Art-Net packets this client reads and writes, as
  functions on bytes; ArtPoll, ArtDmx and ArtCommand are read with
  `tiny_artnet`, ArtPollReply is written with it.
- `src/receiver.rs`, `src/producer.rs`: the decisions of the receiver and the
  producer, one packet or one event at a time, as state machines that return
  what to send.
- `src/payload.rs`, `src/lib.rs`: the `bytes` buffers and `async_channel`
  channels that events travel in.
- `src/text.rs`: decimal numbers and string building for debugging text.
- `src/laws.rs`: properties that span several functions.
- `app/`: the asynchronous loops that drive the state machines over a socket
  (`edge_net` UDP; the ESP32 IEEE 802.15.4 radio behind the `io-wpan` feature).
