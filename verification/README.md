# easypdf

The verified core of a local PDF tool that parses untrusted documents in a
sandboxed worker process.

- `src/` is the library, verified with Verus: the document model and its
  undoable commands, the memory-bounded tile cache, the page wire format,
  the framing of the worker channel, the worker's and the host's decisions
  (refusals, the worker's loop and its confinement order, reply validation,
  the restart policy), resource limits, and encryption policy.
- `tests/` runs the library on concrete values.
- `app/` is the worker process and the host side around the library: process
  spawning, pipes, the PDFium engine, operating-system confinement, JSON
  messages, and the floating-point zoom and text geometry.
