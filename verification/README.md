# openmcp

A desktop helper that turns MCP server definitions into the `mcpServers`
block of an OpenCode configuration file, and installs or removes entries in
that file directly.

The crate is written in Verus. `src/` is the verified library:

- `json` – a plain-data JSON tree whose objects have distinct keys, modelled
  as maps from key text to values, parsed from and printed to text with
  serde_json;
- `text` – whitespace, trimming, decimal numbers, word splitting and ordering
  of text, each against its specification;
- `models` – locales, scopes, transports, server definitions and profiles, and
  the OpenCode entry generated for a server;
- `validation` – the checks run on a profile before export and their messages;
- `opencode` – what a configuration file that was read means, and how an
  install or uninstall edits it;
- `paths`, `storage` – home-directory shorthands, path joining and where the
  saved state lives;
- `ui_text`, `app` – the interface texts and the editor's state and decisions;
- `laws` – properties of the library as a whole.

`app/` is the program: the egui window, file reading and writing, and the
saved-state file format.
