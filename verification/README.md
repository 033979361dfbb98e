# player_core

The core of a media player: who owns what while a medium is opened, installed, played, sought in
and replaced. It is written in Verus; every function states what it returns or changes, and Verus
proves it.

## Layout

- `src/time.rs`, `src/playback_rate.rs`, `src/playback_window.rs`: exact arithmetic on media time,
  rates and windows.
- `src/pipeline.rs` and `src/pipeline/`: packets, frames, textures, decoders, audio and clocks of
  one medium.
- `src/media_install.rs` and `src/media_install/`: the protocol by which one medium takes the place
  of another, with the receipts of its requests.
- `src/media_opening.rs` and `src/media_opening/`: a medium that was opened and is not installed
  yet.
- `src/background_indexer.rs`, `src/prepared_demux_seek.rs`: indexes of keyframes and seeks.
- `src/render_lease_bridge.rs`: frames on their way to the renderer and back.
- `src/diagnostics.rs`, `src/runtime_settings.rs`, `src/command.rs`, `src/event.rs`,
  `src/state.rs`, `src/error.rs`: what the player shows and takes.
- `src/channel.rs`, `src/demux.rs`, `src/path.rs`: the declarations of `crossbeam_channel`, `bytes`
  and the standard library's paths that the proofs rest on.
- `app/`: clocks, files, locks, channels and floating point around the core.
- `tests/`: the core on concrete values.

Public proof functions whose names begin with `law_` state what holds of several functions
together.
