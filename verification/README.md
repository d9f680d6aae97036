# testing

Helpers for integration tests of an Epic Cash node, wallet and miner.

- `src/` is the library, verified with Verus: the networks (`chain`), the
  command lines that start the tools (`commands`), reading what they print
  (`text`, `number`, `utils`) and the records the tests compare (`types`).
- `app/` runs the tools, touches the file system and the node's configuration,
  and holds what works on floating point; it calls the library for everything
  else.
- `tests/` runs the library on concrete values.
