# tas_rust

The video peer of a drone. It keeps a socket.io connection to a signalling server, answers
the session descriptions and ICE candidates that arrive there, and streams its camera over
WebRTC.

- `src/` is the library, verified with Verus. Whatever decides what happens next is a step
  function there: it takes a state and what an outside party reported, and gives the next
  state, the lines to print and the next command. Its contract says exactly which. Functions
  named `law_..` prove what holds over whole runs, such as that an offer is answered only
  after a stable connection has taken it, or that every frame is written in the order of
  arrival.
- `tests/` runs the library, with real peer connections where it touches the `webrtc` crate.
- `app/` is the program: it carries out the commands on the socket, the peer connection and
  the GStreamer pipeline, and hands the reports back. The capture device comes from the
  environment variable `VIDEO_SRC` at build time.
