# mediadecode-ffmpeg

The admission, pricing and routing rules of an FFmpeg-backed decode tier,
verified with Verus.

- `src/` — the library. A container is judged whole before anything it
  declares is paid for (`admission`, `chapters`, `tracks`), and a demux
  session decides, between the reads its caller performs, what each pull
  delivers (`session`). Metadata is measured, charged and only then decoded
  (`metadata`, `text`). On the decoder side, frames are priced before they
  are allocated (`pricing`, `side_data`), errors are read against the
  session's phase and the refusals its callbacks latched (`gates`,
  `opening`), and a hardware probe keeps the caller's packets until a
  backend commits (`probe`). The decoder's roads — sending a packet or
  the end of stream, receiving a frame, advancing the probe — are step
  functions from what the last FFmpeg call came to, to what to do next
  (`decoder`).
- `tests/` — tests of the library on concrete values.
- `app/` — the FFmpeg glue: reading libavformat's structures into the
  library's records, the demux loop, the hardware decoder's calls into
  libavcodec, and displayable error wrappers.
