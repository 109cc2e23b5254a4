# gstwebsink

A GStreamer sink element that streams H.264 video to web browsers over WebRTC,
with its logic verified by Verus.

- `src/` is the verified library: the element and its state (`element`), its
  properties (`settings`, `description`), the channel on which it announces
  changes (`signal`), the media it hands to WebRTC (`media`), the negotiation
  with a browser (`session`), the HTTP server's ports and answers (`server`,
  `assets`), and the program's reaction to its pipeline (`pipeline`).
- `app/` is the program around it: GStreamer's virtual methods, the HTTP
  servers, the peer connections, and the lock on which a render waits. The web
  page is embedded from `rswebsink/static/`.
- `tests/` runs the library with the real WebRTC, tokio and JSON crates.

What the library takes on trust of those crates stands beside its use, in
functions marked `external_body`, in `assume_specification` items, and in the
declarations of their types.
