# lastkey_ui

The settings window of LastKey, a SOCD key filter: the verified core in `src/`
and the egui view layer around it in `app/`.

`src/` is checked by Verus. It holds the window's decisions and tables, each
with a contract and, where several calls are involved, a proof function that
states the law:

- `keycap`: the direction table, the accessible labels, the key-name splitter
  and the D-pad cap's text size, the keycap's paint and click decisions.
- `mapping`: duplicate bindings, the assignment status, and the D-pad dot's
  last-input-priority resolution.
- `preview`: the mode preview's transport state machine and the picture each
  phase shows.
- `ipc_client`: the IPC reader's state machine (connect, announce, drain the
  outbound queue before reading inbound, reconnect after a failure, stop when
  the window is gone or the session is closed).
- `header`, `profiles`, `message`: the status dot, the slot-state bridge, the
  timing-field table and the key-event routing.
- `language`: the string tables and their fallback rule.
- `theme`: the colour tokens (as packed `0xRRGGBBAA` integers), the state inks
  and the font fallback order.
- `figures`, `text`: thousands grouping and the character-level string helpers
  the rest is built on.

`app/` is ordinary Rust against egui: painting, floating-point motion and
figures, the reader thread that performs the state machine's actions, and the
font file reads. `tests/` exercises the library on concrete values.
