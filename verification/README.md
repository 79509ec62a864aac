# luarc

A verified library for the Lua language server's configuration file, `.luarc.json`,
and for `llam`, a small addon manager that clones Lua definition libraries and records
them in that file.

- `src/` is the library, written in Verus: the settings model with its defaults and
  write-out rules, the readers of diagnostic codes, severities and addon sources, the
  git command plans, and the updates the addon manager makes to the file. Verus
  proves the contract of every function there, except for a few small trusted
  wrappers around outside calls (URL parsing, `String::push`, and the texts of
  outside errors), whose contracts are believed and documented above each one.
- `app/` is the program around it: JSON (de)serialisation with serde, file access,
  running git, and the command line.
- `tests/` runs the library on concrete inputs.
