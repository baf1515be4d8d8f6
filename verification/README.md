# ironrdp-rail

RemoteApp (RAIL) static virtual channel: the wire format of the handshake, client
status, execute and execute-result PDUs, and the client-side state machine that
answers the server's handshake and launches a remote program.

- `src/pdu/` holds the PDU types, their encoders and decoders as functions on bytes,
  the UTF-16LE string fields, and the proof that decoding gives back what encoding
  wrote (`roundtrip.rs`).
- `src/lib.rs` holds the channel state machine `Rail`, whose steps are stated as
  spec functions over `RailSpec`; `src/properties.rs` proves what holds across steps.
- `app/` connects the library to the ironrdp codec and static-virtual-channel traits.
