# lapce_acp

The client side of the Agent Client Protocol for an editor, with its behaviour
stated in contracts and proved by Verus.

- `src/` is the library. It decides and does not act: `json` and `wire` are the
  values and the lines that cross the connection, `protocol` and `decode` the
  protocol's types, `client` the client's side of a connection, `agent` a session
  with its transcript, `panel` what is shown of it. `laws` and `agent_laws` state
  what holds of them together.
- `tests/` runs the library with the crates it calls.
- `app/` is what acts: processes, threads, and the panel's layout.

What the library calls outside itself stands behind small functions whose
contracts are believed: parsing, printing and taking apart `serde_json` values,
how `serde` shows text in errors, `im::Vector` for the transcript, `lapce_xi_rope::Rope` for the prompt box, and
`str::trim` and `Path::file_name` of the standard library. Each says in its
comment what is claimed.
