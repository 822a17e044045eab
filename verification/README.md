# chess_app

A desktop chess board (egui) whose game logic is a Verus-verified library.

The rules of chess come from `shakmaty`; everything built on top of them is
verified in `src/`:

- `types.rs`: colors, roles, pieces, squares.
- `engine.rs`: the bridge to `shakmaty`. Positions and moves carry the
  engine value together with a plain copy of their contents (bitboards,
  side to move, castling rights, en passant square, halfmove clock), which is
  their view. The engine calls sit behind small trusted wrappers whose
  contracts name what the engine computes.
- `moves.rs`: origin, destination (the king's landing square for castling)
  and promotion role of a move.
- `game.rs`: the game record with undo, repetition counting, outcome
  detection, the move list, the CSV export and the status line, with the
  laws that tie play, undo and the repetition counts together. The
  repetition table is a vector of (position key, count) entries whose keys
  never repeat. A `HashMap` keyed by `PositionKey` would not do: vstd
  specifies a hash map's contents only for keys whose hashing it knows
  (integers and the like), not for a struct with derived `Hash`, so with such
  a key not even the size of the map after an insert can be proved.
- `text.rs`, `notation.rs`: decimal numbers, square names, CSV escaping, the
  clock reading, and the text of move-list lines and CSV rows.
- `layout.rs`: board orientation (grid cell to square and back).
- `assets.rs`: board themes and the asset file of each piece and square.
- `session.rs`: the interactive session: selection and move markers,
  promotion choice, keyboard cursor, one-step undo, timer settings (locked
  once the first move is played), display settings, timeout, messages. Each
  event maps the session state to the next one and tells the caller what to
  do with the clocks.

`app/` is the program around it: the egui window, painting, SVG
rasterisation (resvg), the wall-clock timers, and writing the CSV file.
The piece and square images are read at run time from `assets/`, under the
file names that `assets::asset_file` gives.
