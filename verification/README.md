# stone_raft

Control logic of a small multitimbral subtractive synthesizer (four engine
slots, four voices each), verified with Verus.

- `src/`: the verified library. The terminal command language (`text`,
  `args`, `params_cmd`, `commands`, `single_engine`), the shared event
  vocabulary (`events`), mixer routing (`mixer`), engine params with the
  envelope link rules (`params`), whole-patch event lists (`patch`), voice
  allocation and envelope stages (`voices`, `envelope`), MIDI and keyboard
  input (`midi`, `keyboard`, `select`), report text (`report`), LFO seeds
  (`lfo`), the audio-load probe's step plan (`probe`), and the breadboard
  demo's arpeggio (`demo`).
- `app/`: the laptop host program. Audio (cpal), MIDI (midir), terminal
  (crossterm), the lock-free event queue (rtrb), the floating-point signal
  path, and random patches (rand, libm). It calls the library for every
  decision.
- `tests/`: tests of the library on concrete inputs.

Numbers in events are generic: the library routes and stores them but never
computes with them. The command parser yields each number as its text,
checked to be valid `f32` syntax; the host reads it as `f32`.
