# channel_watch

A small desktop program that follows Twitch channels: it keeps a list of them, asks which
are live, and shows the live ones first, with a preview and some details of each stream.

- `src/` is the library: the rules of the program, with contracts that Verus proves.
  - `app`: the program from one frame to the next.
  - `state`, `input`, `roster`: the followed users, the line in which a channel is typed, and
    the list as it is shown.
  - `status`, `images`, `decode`: which channels are live, which pictures are kept or fetched,
    and how they are loaded.
  - `jpeg`, `png`, `bytes`: which files the decoder of pictures can be given.
  - `helix`, `channel`, `config`, `runtime`: requests to the Twitch API, channel names, the
    settings, and work in the asynchronous runtime.
  - `duration`, `info`, `text`: spans of time, the lines about a stream, and text helpers.
  - `laws`: what holds of several of these together.
- `app/` is the program around it: windows, network, threads and JSON.
- `tests/` holds the tests of the library.
