# spacebot_desktop

The verified core of the Spacebot desktop shell, written in Verus.

- `src/settings.rs` — the `connection.json` document: JSON object semantics
  for reading and writing keys, and the settings the shell stores (proxy
  target, Umbrel password, shortcut configuration), with read-back and
  isolation laws.
- `src/keys.rs` — key names, modifier names and the shortcut-string parser,
  and the binding that swaps one shortcut for another.
- `src/overlay.rs` — what the voice overlay and the global shortcut handler do.
- `src/proxy.rs` — the local proxy's rules: header filtering, target URL,
  body forwarding, Umbrel login redirects and login URLs, error replies.
- `src/text.rs` — text helpers used by the above.
- `app/` — the Tauri program around the library: windows, files, the axum /
  reqwest proxy server, shortcut registration.
