# gtw_logic

Split decisions for a LiveSplit auto splitter of the game Get To Work, verified
with Verus.

- `src/splitter.rs`: the splitter state machine (`Snapshot`, `Actions`,
  `Splitter`) and its model `step`, which `Splitter::update` implements exactly.
  In-game time is held as whole milliseconds.
- `src/reading.rs`: what one tick reads from the game's progress provider,
  when that reading is ready, and the snapshot it stands for.
- `src/session.rs`: one attached game process, tick by tick: readiness notices
  and the timer operations to run.
- `src/laws.rs`: properties proved of every tick.
- `app/`: the wasm auto splitter around the library: process attaching, memory
  reads through the auto splitting runtime, and the timer calls.
