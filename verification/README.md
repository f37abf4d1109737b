# reth-bench-compare

Compares the performance of a node between two git references. Both references are compiled, the
caches are warmed up, each reference is benchmarked over the same number of blocks, and a report is
generated; charts and profile servers follow if they are asked for. The git reference that was
checked out at the start is always restored.

- `src/` is the verified library. It decides: each step of a comparison names one action, and the
  event that came of the action leads to the next step. `protocol` holds actions and events;
  `compilation`, `warmup`, `benchmark`, `charts` and `samply` are the phases; `workflow` puts them
  in order and `comparison` sets up, validates and restores. `history` states what holds of every
  comparison, and `scripts` what each phase does from its first action to its last. `home` is the
  home directory that a leading tilde stands for. `outside` holds the calls into other crates,
  whose contracts are trusted.
- `app/` acts: it reads the command line, performs the actions and reports the outcome.
- `tests/` runs the library on concrete values.
