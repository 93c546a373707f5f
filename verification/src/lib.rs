pub mod bitboard;
pub mod board;
pub mod moves;
