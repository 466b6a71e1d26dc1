# progress_state

The state behind a progress bar, verified with Verus: its position and length, the samples that
its estimates are taken from, the limit on how often it is redrawn, its ticker, and what becomes
of it when it finishes.

- `src/time.rs`: points in time and lengths of time.
- `src/position.rs`: the position, with the budget that limits redraws.
- `src/estimator.rs`: the ring buffer of samples.
- `src/progress.rs`: the state of a bar at a moment in time.
- `src/finish.rs`, `src/text.rs`: what finishing does, and texts with their lines.
- `src/bar.rs`: the operations on a bar, each with the drawing it asks for.
- `src/ticker.rs`: the ticker that moves a bar on while nothing else does.
- `app/`: the clock, the draw target, the ticker's thread, and the figures in floating point.

The library neither reads a clock nor draws. Each operation takes the time as an argument and
returns a request to draw. The laws that relate several operations are the public proof functions
at the end of each module.
