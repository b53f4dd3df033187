# Astralink

A music node. Clients ask it over HTTP to find tracks on YouTube, Spotify and SoundCloud, queue
them for a guild and control their playback; they follow the state of a guild over a WebSocket and
receive its sound over TCP, in frames of 20 ms.

## Layout

- `src/` holds the rules of the node, verified with Verus: the sessions and what queueing,
  controls and track ends do to them (`state`), what requests are answered (`api`), how tracks are
  searched for, ranked, cached and described (`resolve`), the state machines of playback and
  streaming (`audio`), the nodes and source addresses (`net`), the configuration (`config`), and
  the text, JSON and identifier helpers that these rest on.
- `app/` is the program around them: sockets, processes, HTTP clients and the wire format. It
  performs the actions that the library asks for and hands back how they went.
- `tests/` runs the library.

## What is taken on trust

The contracts of calls into other crates are stated, not proved. They stand beside the calls:
`collections` (`dashmap`), `json` (`serde_json`), `track_id` (`uuid`), `net::ipv6` (`rand`),
`resolve::spotify` (`base64`), and `text` for four functions of the standard library.

A moment is a number of nanoseconds on a clock that never goes back, a track's identifier is the
128-bit number of its UUID, and an IPv6 address is the 128-bit number that it stands for.
