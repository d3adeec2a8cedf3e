# detcore

Deterministic fault injection, and the control protocol that steers it.

A fault injector decides for each operation whether it fails. It is
deterministic (the same seed always produces the same faults), configurable (a
probability for each type of fault) and schedulable (faults at given logical
times). A control server takes commands, one per line, that inspect and control
a run.

- `src/` is the library. Every function in it has a contract. Verus proves all of
  them but those of the eleven small functions in `random` and `errno` that call
  `rand_pcg` or read a constant of `libc`: these it believes.
  - `fault_injection`, `fault_type`, `schedule`, `chances`: the fault injector.
  - `probability`: probabilities as bit patterns of binary64 numbers, compared,
    clamped and printed exactly.
  - `random`, `errno`: what the library has from `rand_pcg` and `libc`.
  - `control`, `serving`: commands, responses and the steps of the server.
  - `text`: text in decimal notation and the search for text.
  - `fault_laws`, `schedule_laws`, `control_laws`: what holds of it as a whole.
- `tests/` runs the library.
- `app/` is what surrounds it: floating-point numbers, JSON, locks, threads, the
  Unix socket and the log.
