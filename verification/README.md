# vertere

Translate a screen region, the clipboard, or the selected text with a
multimodal model behind an OpenAI-compatible endpoint (OpenRouter by default);
the result appears in a floating bubble next to your work.

Layout:

- `src/` — the library, verified with Verus: the system prompt and the
  streamed reply split, settings and their defaults, the history's rows and
  queries, the model check and request texts, XDG directories, window
  placement, image-cache naming and pruning, the command line and the tray
  menu. Every public function states what it returns in its contract, and the
  laws that tie several functions together are proof functions beside them.
- `app/` — the program around it: GTK windows, the tray item, SQLite, the
  HTTP client, the capture tools and the environment.
- `tests/` — tests of the library on concrete values.
