# tracker

The logic of a terminal music tracker, verified with Verus.

- `src/` is the verified library: the tab handler, the sequencer's modal
  cursor over its tables, the sampler's scrolling windows over two signals,
  the sequencer screen's layout (through ratatui's layout solver), and the
  spreading of stereo samples over an output buffer's channels.
- `app/` is the terminal and audio side: crossterm keys, ratatui drawing,
  tokio channels, the floating point signals and the cpal/fundsp sound test.
- `tests/` runs the library on concrete inputs.
