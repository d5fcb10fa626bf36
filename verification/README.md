# rithmic_rs

Client-side logic of the Rithmic R | Protocol API, verified with Verus.

- `src/wire.rs` reads the fields that the client needs (`template_id`,
  `user_msg`, `rq_handler_rp_code`, `rp_code`) out of an encoded protobuf
  message with `prost`'s field readers, and skips every other field.
- `src/api/receiver_api.rs` turns a received frame into a `RithmicResponse`:
  which message it is, whether it is an update, whether more answers follow,
  and which error it reports.
- `src/plants/actor.rs` decides what a plant does with what its WebSocket
  delivers: forward to subscribers, hand to pending requests, or stop.
- `src/plants/commands.rs` decides what a plant does for the commands of its
  handles: which request it writes, whether it registers the responder, what
  a failed write does.
- `src/plants/requests.rs` gathers the responses of each pending request
  until the last one arrives.
- `src/heartbeat_manager.rs` keeps the heartbeat that waits for its answer and
  decides when it has timed out.
- `src/config.rs` and `src/connection_info.rs` hold the configuration types
  and the conversions between the current and the deprecated ones.

`app/` holds what stays outside the verified library: reading environment
variables, converting WebSocket messages into the library's events, the
plant's event loop (heartbeats, pings, commands, frames) and its handle, and
the order types whose prices are floating point. The loop takes the request
encoder as an argument.
