# AI-Arena client GUI backend, verified core

`src/` is a library verified with Verus. It holds the rules of the backend of
the AI-Arena client GUI:

- `results`: deciding the winner and result of a game from the per-bot
  reports, the record kept of each game, the highest match id;
- `hashes`: the archive and data hashes of downloaded bots;
- `download`: which AI-Arena bots to download, archive names, API addresses;
- `bot`: `ladderbots.json`, how a bot is started, download progress;
- `games`: bots to fetch before a run, the order of matches, what the game
  server is told, the decisions while a match is set up;
- `paths`: map and bot names from directory listings;
- `settings`, `helpers`, `errors`: settings checks and the error type;
- `todo`, `gui`: the task list of the web view and the log file name of the
  desktop shell;
- `str_map`, `text`: a text-keyed map and character-level text operations.

`app/` is the HTTP server around it (actix-web): files, downloads, the game
server link and the routes. `tests/` runs the library on concrete values.
