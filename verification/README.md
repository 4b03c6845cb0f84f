# handy_audio

The audio-session logic of a push-to-talk transcription app, verified with
Verus.

- `src/` is the verified library:
  - `mixer` — sample-wise mixing of two streams, the shorter padded with silence;
  - `manager` — the recording manager as a state machine: microphone stream
    life cycle, muting, microphone modes, lazy closing, recordings, meeting
    mode; padding of short recordings; mixing of meeting audio;
  - `devices` — which input device the stream opens;
  - `transcript`, `clock`, `text` — the meeting transcript file: name,
    header, segment lines, duration, numbering of transcribed segments; dates
    and times are rendered by chrono;
  - `loopback` — the system-audio capture worker's command handling, and
    whether its owner has a worker to talk to;
  - `mute` — the commands that mute the system output on Linux and macOS,
    and when to stop trying them.
- Each manager operation is a sequence of verified steps; the caller does
  the outside work each step asks for and hands back the outcome. Clock
  readings carry a type invariant: only valid readings exist.
- `app/` runs the manager: locks, threads, channels, files, the clock, the
  recorder and the Windows WASAPI/COM code, behind the `AudioHost` trait that
  the surrounding application implements. Sample arithmetic (`f32` mixing,
  clamping, down-mixing) lives there too.
- `tests/` exercises the library on concrete values.
