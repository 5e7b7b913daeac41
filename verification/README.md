# klondike

Klondike solitaire for the terminal, as a library whose behaviour is stated in contracts and
proved with Verus, and a small program around it.

## Layout

- `src/` — the verified library.
  - `model/` — cards, decks, the areas of the table (stock, talon, foundations, tableaux), the
    list of areas with its selection, dealing, and the game with the player's actions. Every
    action keeps the same cards in play.
  - `game/` — a second model of the table: cards that face up or down, a deck, and games that
    move a focus between areas.
  - `display/` — widgets that render the game as text with terminal escape codes, and a screen
    of character cells that cards and selectors are printed on.
  - `input.rs` — what each key does in each display state.
  - `engine.rs` — the decisions of a session, one key at a time: what to deal, what to apply,
    what to draw.
  - `utils.rs`, `error.rs`, `terminal.rs` — helpers and error texts.
- `app/` — the program: settings from configuration files and the environment, the terminal in
  raw mode, and the loop that reads keys, hands them to the engine and writes its drawings.
- `tests/` — tests of the library on concrete values.

The only calls into outside crates that the library makes go through a few trusted wrappers:
the shuffle of a deck (`rand`) and the escape codes of the terminal (`termion`).
