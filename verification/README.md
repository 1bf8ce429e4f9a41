# sendspin_vst3

The playback and control logic of a Sendspin `player@v1` VST3 plugin, verified with
Verus. The plugin connects to a Sendspin server over WebSocket, receives timestamped
PCM audio, and plays it in time with the other players of its group.

## Layout

- `src/`: the verified library.
  - `text`: character-level text operations.
  - `constants`: fixed parameters.
  - `config`: client names, server URLs, the client identity and the version.
  - `clock`: wall-clock time, monotonic instants and how they relate.
  - `pcm`: decoding of integer PCM of 16, 24 and 32 bits.
  - `queue`: timestamped chunks and the queue that carries them to the audio thread.
  - `state`: the state that the plugin's threads share.
  - `playback`: which frame is due when, the render clock, and the synchronization
    state.
  - `protocol`: the messages exchanged with a server and what they do.
  - `network`: the life of the connection, from the first attempt to the reconnect
    delay.
  - `mdns`: discovered servers and the automatic choice among them.
  - `editor`: what the editor shows and what its controls do.
- `app/`: the plugin around the library: parameters, threads, the WebSocket and mDNS
  loops, the editor window, and the conversion of samples to floating point.
- `tests/`: tests of the library.

## Where the proofs rest on other code

The contracts of a few functions are taken on trust. Each of them wraps a call into
`url`, `uuid`, `rtrb` or the standard library, and says in its doc comment which
functions it calls and what it claims of them: see `config` (URL parsing, UUIDs), `queue` (the ring buffer) and `clock` (the
system time).

## Notes

- Samples are integers in the library; an amplitude is a value divided by its full
  scale.
- A positive pipeline offset makes a block count as heard later, so that audio starts
  sooner.
- Server URLs are turned into `ws://` or `wss://` URLs: a bare host is taken as
  `ws://<host>/sendspin`, `http` becomes `ws`, and `https` becomes `wss`.
