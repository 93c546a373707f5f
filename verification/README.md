# Hexagonal chess bitboards, verified

A library for hexagonal chess on a 91-cell board, written in Verus: every
function carries a `requires`/`ensures` contract that Verus proves.

- `src/bitboard.rs`: `u128` bitboards, the trailing-zeros count and the walk
  over set bits, lowest first.
- `src/board/`: pieces, piece kinds, the board cells (`is_valid_idx`) and the
  board of twelve piece bitboards plus two colour totals.
- `src/moves/`: packed moves, the attack tables (`tables.rs`) and move
  generation (`Game::get_legal_moves`).

Tests in `tests/` run the compiled library on concrete positions.
