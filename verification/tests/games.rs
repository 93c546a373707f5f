use lib::board::{Board, Piece, PieceType};
use lib::moves::{Game, Move};

fn parts(m: &Move) -> (u8, u8, PieceType, PieceType, bool, bool, bool) {
    (
        m.from(),
        m.to(),
        m.promoted_piece(),
        m.captured_piece(),
        m.was_pawn_double_push(),
        m.was_en_passant(),
        m.was_promotion(),
    )
}

fn quiet(from: u8, tos: &[u8]) -> Vec<(u8, u8, PieceType, PieceType, bool, bool, bool)> {
    tos.iter()
        .map(|&to| (from, to, PieceType::Empty, PieceType::Empty, false, false, false))
        .collect()
}

#[test]
fn black_to_move_from_the_starting_position_has_no_moves() {
    let game = Game::from_pos(false, Board::starting_pos());
    assert!(game.get_legal_moves().is_empty());
}

#[test]
fn lone_white_knight_moves_to_its_targets() {
    let mut b = Board::new();
    b.set_piece(48, Piece::new(true, PieceType::Knight));
    b.set_piece(1, Piece::new(true, PieceType::King));
    b.set_piece(119, Piece::new(false, PieceType::King));
    let moves = Game::from_pos(true, b).get_legal_moves();
    let got: Vec<_> = moves.iter().map(parts).collect();
    assert_eq!(got, quiet(48, &[13, 14, 23, 27, 34, 39, 57, 62, 69, 73, 82, 83]));
}

#[test]
fn white_pieces_in_order_and_own_cells_skipped() {
    let mut b = Board::new();
    b.set_piece(47, Piece::new(true, PieceType::Knight));
    b.set_piece(57, Piece::new(true, PieceType::Knight));
    b.set_piece(60, Piece::new(true, PieceType::Queen));
    b.set_piece(25, Piece::new(true, PieceType::Bishop));
    b.set_piece(26, Piece::new(true, PieceType::Rook));
    b.set_piece(2, Piece::new(true, PieceType::King));
    b.set_piece(100, Piece::new(false, PieceType::Bishop));
    b.set_piece(58, Piece::new(false, PieceType::Pawn));
    let moves = Game::from_pos(true, b).get_legal_moves();
    let got: Vec<_> = moves.iter().map(parts).collect();
    let mut want = quiet(47, &[12, 13, 22, 33, 38, 56, 61, 68, 72, 81, 82]);
    want.extend(quiet(57, &[22, 23, 36, 48, 71, 82, 91, 92]));
    assert_eq!(got, want);
}

#[test]
fn knight_on_g3_covers_cells_outside_the_board() {
    let mut b = Board::new();
    b.set_piece(68, Piece::new(true, PieceType::Knight));
    b.set_piece(55, Piece::new(true, PieceType::King));
    b.set_piece(119, Piece::new(false, PieceType::King));
    let moves = Game::from_pos(true, b).get_legal_moves();
    let got: Vec<_> = moves.iter().map(parts).collect();
    assert_eq!(got, quiet(68, &[29, 30, 43, 78, 89, 99]));
}

#[test]
fn king_on_a_covered_cell_leaves_only_king_moves() {
    let mut b = Board::new();
    b.set_piece(68, Piece::new(true, PieceType::Knight));
    b.set_piece(30, Piece::new(true, PieceType::King));
    b.set_piece(119, Piece::new(false, PieceType::King));
    let moves = Game::from_pos(true, b).get_legal_moves();
    assert!(moves.is_empty());
}

#[test]
fn black_knight_moves_and_no_king_moves() {
    let mut b = Board::new();
    b.set_piece(60, Piece::new(false, PieceType::Knight));
    b.set_piece(93, Piece::new(false, PieceType::King));
    b.set_piece(49, Piece::new(true, PieceType::Knight));
    b.set_piece(71, Piece::new(false, PieceType::Pawn));
    b.set_piece(104, Piece::new(false, PieceType::Bishop));
    b.set_piece(36, Piece::new(false, PieceType::Queen));
    b.set_piece(14, Piece::new(false, PieceType::Rook));
    let moves = Game::from_pos(false, b).get_legal_moves();
    let got: Vec<_> = moves.iter().map(parts).collect();
    assert_eq!(got, quiet(60, &[25, 26, 35, 39, 46, 51, 69, 74, 81, 85, 94, 95]));
}

#[test]
fn moves_are_equal_by_value() {
    let mut b = Board::new();
    b.set_piece(48, Piece::new(true, PieceType::Knight));
    b.set_piece(1, Piece::new(true, PieceType::King));
    let game = Game::from_pos(true, b);
    let first = game.get_legal_moves();
    let second = game.clone().get_legal_moves();
    assert_eq!(first, second);
    assert_ne!(first[0], first[1]);
}

#[test]
fn lone_kings_do_not_move() {
    let mut b = Board::new();
    b.set_piece(60, Piece::new(true, PieceType::King));
    b.set_piece(50, Piece::new(false, PieceType::King));
    assert!(Game::from_pos(true, b.clone()).get_legal_moves().is_empty());
    assert!(Game::from_pos(false, b).get_legal_moves().is_empty());
}

#[test]
fn moves_come_in_increasing_order_without_repeats() {
    let mut b = Board::new();
    b.set_piece(57, Piece::new(true, PieceType::Knight));
    b.set_piece(47, Piece::new(true, PieceType::Knight));
    b.set_piece(47, Piece::new(true, PieceType::Bishop));
    b.set_piece(2, Piece::new(true, PieceType::King));
    let moves = Game::from_pos(true, b).get_legal_moves();
    assert_eq!(moves.len(), 12 + 8);
    for w in moves.windows(2) {
        let a = (w[0].from(), w[0].to());
        let c = (w[1].from(), w[1].to());
        assert!(a < c);
    }
}
