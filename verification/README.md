# theya

Theya is an offline AI coding assistant: it chats with a model served by an
OpenAI-compatible or Ollama server, lets the model call tools in a git
repository (read, search and write files, compile, test, inspect and commit
with git), and reviews the last commit. The library also holds the
bookkeeping of a long-term memory (note and knowledge entries, Copilot
session reading); its store is not part of this build, so the command line
offers no `memory` command.

## Layout

- `src/` is the library, written in Verus: every function carries a
  contract and is verified, except a few small trusted wrappers around
  outside calls (`String::push`, the system clock, `uuid`, `serde_json`
  and `serde_yaml` parsing), whose contracts are assumed and documented
  where they stand. It makes all the decisions of the program:
  configuration fallbacks, tool schemas and tool calls (as state machines
  whose effects the caller performs), the path check that keeps tools within
  the working directory, the conversation state of both kinds of server, the
  session loops, the editor files, and the memory entries.
- `app/` is the command line (`theya chat`, `theya code`, `theya pr`): it
  reads the configuration file, runs commands and the editor, talks HTTP,
  and performs the effects that the library asks for.
- `tests/` exercises the library on concrete values.
