# p2p_voice

A peer-to-peer voice client. `src/` is the verified library: every
function there carries a machine-checked contract, and the properties
that relate several operations are stated and proved as `law_*` proof
functions.

* `packet` – the datagram formats (hole punch, ping/pong, audio frames,
  relay headers) with their parsers and round-trip laws, the numbering
  of outgoing frames and the decision taken for each incoming datagram.
* `crypto` – the room hash (SHA-256, hex) and the session of a room.
* `jitter` – the per-peer adaptive jitter buffer.
* `voice` – voice activity gating with hangover; the mixer's clean-up tick.
* `liveness` – timeouts, relay choice and round-trip times.
* `signal` – server URLs, the peer announcements of the signalling
  socket and what an announcement makes this side do.
* `stun` – the STUN binding request and the mapped-address reply.
* `account`, `update`, `i18n` – settings, the login flow, device choice,
  update checks and the interface texts.
* `text`, `bytes`, `seqnum`, `clock` – helpers.

`app/` is the program around the library: audio devices and streams,
Opus coding and mixing, sockets, threads, HTTP and WebSocket calls, the
updater and the egui interface. `tests/` exercises the library.
