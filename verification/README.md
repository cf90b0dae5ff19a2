# ink_dap

The decision logic of a Debug Adapter Protocol server for ink! v6 contracts,
verified with Verus, and the process around it.

- `src/` — the verified library:
  - `handler` answers each request: the next session state and the messages to
    send, in order (`DapState::handle`), with one spec predicate per command.
  - `state`, `breakpoints` — the session state and the breakpoint table (a map
    from source path to lines, with unique paths as its invariant).
  - `launch`, `json`, `number`, `text` — reading the sandbox port from the
    `launch` arguments, decimal text, text comparison.
  - `log_channel` — handing log lines to the console channel, and the `output`
    event that shows one.
  - `sandbox` — what the contract sandbox posts to the adapter.
  - `laws` — properties over several requests.
- `app/` — the process: stdin/stdout DAP transport, the HTTP endpoint for the
  sandbox, conversions to and from the `dap` crate's types, and the sandbox
  client that reports each program counter.
- `tests/` — tests of the library on concrete values.
