# swelearn

An offline, keyboard-driven terminal tool for software engineering interview
prep, with its logic verified by Verus.

## Layout

- `src/` — the verified library:
  - `app.rs` — the navigation state (`App`, `Screen`), the transition
    function `step` that `App::handle_action` implements, the
    well-formedness invariant, and the navigation laws.
  - `events.rs` — `Action`, and the key bindings (`action_for_event`).
  - `modules.rs` — the learning modules in menu order.
  - `content.rs` — topics: frontmatter stripping (`Topic::body`), title
    extraction (`parse_title`), and the topic list of each module, built
    from the module's files by a stable sort on paths.
  - `bundled/` — the study notes, one file per module, as string constants.
  - `markdown.rs` — rendering of the markdown subset used by the notes into
    styled lines (`render`, `parse_inline`).
  - `text.rs` — character-level searching, line splitting and trimming.
- `app/` — the terminal program: terminal setup, the event loop, reading
  key events, and drawing the screens with ratatui.
- `tests/` — tests of the library.

## Keys

| Key | Action |
|-----|--------|
| `↑` / `↓` or `k` / `j` | Navigate |
| `Enter` | Select |
| `Esc` / `b` | Go back |
| `/` | Search (no search view yet: changes nothing) |
| `q` | Quit |
| `?` | Show or hide the key help |
