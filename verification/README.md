# tictactoe

A terminal game of tic-tac-toe against a computer opponent (minimax with alpha-beta
pruning, or random moves), written in Verus.

- `src/` is the verified library:
  - `game` — marks, the 3x3 board (its cells live in an `ndarray` array), the game's
    outcome, and `Game`, the state machine of one game (turns, moves, finishing);
  - `player` — the `Player` trait and the minimax, random and interface players;
    the minimax value of a position is defined as a spec function, and alpha-beta
    search is proved to compute it;
  - `renderer` — the state machines behind the terminal interface: the board,
    sidebar, new-game and status widgets, the messages they emit, and what the
    application does with each message.
- `app/` is the program around it: the game thread, the terminal event loop, and the
  drawing of the widgets with `ratatui`/`tuirealm`.
- `tests/` exercises the library on concrete boards, games and key presses.
