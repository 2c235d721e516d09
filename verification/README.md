# xojo-mcp

An MCP (Model Context Protocol) server that lets an AI client drive the
Xojo IDE over its IPC socket.

- `src/` is the verified library, checked by Verus:
  - `server`: which answer each JSON-RPC request gets, the read-only gate,
    and the tool list;
  - `tool`, `catalog`: the tool descriptions and the argument rules;
  - `protocol`: the JSON-RPC message types and protocol-revision negotiation;
  - `communicator`: socket-name and path resolution, the retry schedule,
    the framing of IDE replies, and error summaries;
  - `runs`, `scripts`: the IDE scripts the tools send and the formatting of
    the IDE's replies;
  - `docs`: the documentation tools' searches and the cost estimate;
  - `settings`: environment flags and documentation version ordering;
  - `json`, `text`: plain JSON values and string operations with exact
    specifications.
- `app/` is the program around it: argument parsing, stdin/stdout, the
  socket, the file system and the `log` process.
- `tests/` runs the library on concrete inputs.
