use lib::board::{Board, Piece, PieceType, BOARD_SIZE, ON_BOARD};

#[test]
fn test_piece() {
    let piece = Piece::new(true, PieceType::Pawn);
    assert_eq!(piece.piece_type(), PieceType::Pawn);
}

#[test]
fn piece_colour_and_kind_come_back() {
    let kinds = [
        PieceType::King,
        PieceType::Pawn,
        PieceType::Queen,
        PieceType::Rook,
        PieceType::Bishop,
        PieceType::Knight,
    ];
    for kind in kinds {
        for white in [true, false] {
            let p = Piece::new(white, kind);
            assert_eq!(p.piece_type(), kind);
            assert_eq!(p.is_white(), white);
            assert!(!p.is_empty());
            assert!(!p.is_off_board());
        }
    }
}

#[test]
fn empty_and_off_board_pieces() {
    assert!(Piece::empty().is_empty());
    assert!(!Piece::empty().is_off_board());
    assert!(Piece::off_board().is_off_board());
    assert!(!Piece::off_board().is_empty());
    assert_eq!(Piece::empty().piece_type(), PieceType::Empty);
    assert_eq!(Piece::off_board().piece_type(), PieceType::Empty);
    assert!(!Piece::off_board().is_white());
    assert_eq!(Piece::new(false, PieceType::Empty), Piece::empty());
}

#[test]
fn piece_type_numbers() {
    assert_eq!(PieceType::from(1u8), PieceType::King);
    assert_eq!(PieceType::from(2u8), PieceType::Pawn);
    assert_eq!(PieceType::from(3u8), PieceType::Queen);
    assert_eq!(PieceType::from(4u8), PieceType::Rook);
    assert_eq!(PieceType::from(5u8), PieceType::Bishop);
    assert_eq!(PieceType::from(6u8), PieceType::Knight);
    assert_eq!(PieceType::from(0u8), PieceType::Empty);
    assert_eq!(PieceType::from(7u8), PieceType::Empty);
    assert_eq!(PieceType::from(200u8), PieceType::Empty);
    assert_eq!(u8::from(PieceType::Empty), 0);
    assert_eq!(u8::from(PieceType::Bishop), 5);
    for v in 0u8..=255 {
        let back = u8::from(PieceType::from(v));
        assert_eq!(back, if (1..=6).contains(&v) { v } else { 0 });
    }
}

#[test]
fn board_cells_form_the_hexagon() {
    let mut count = 0;
    for idx in 0u8..=255 {
        let file = idx as i32 / 11;
        let rank = idx as i32 % 11;
        let hex = file < 11 && if file <= 5 { rank < 6 + file } else { rank >= file - 5 };
        assert_eq!(Board::is_valid_idx(idx), hex, "cell {}", idx);
        assert_eq!(Board::is_invalid_idx(idx), !hex);
        if hex {
            count += 1;
        }
    }
    assert_eq!(count, 91);
    assert_eq!(BOARD_SIZE, 121);
    assert_eq!(ON_BOARD.count_ones(), 91);
    assert!(Board::is_valid_idx(0));
    assert!(!Board::is_valid_idx(6));
    assert!(Board::is_valid_idx(120));
    assert!(!Board::is_valid_idx(121));
}

#[test]
fn new_board_is_empty() {
    let b = Board::new();
    assert_eq!(b.white_pieces(), 0);
    assert_eq!(b.black_pieces(), 0);
    assert_eq!(b.white_pawns() | b.black_pawns() | b.white_kings() | b.black_kings(), 0);
    assert_eq!(b.white_rooks() | b.black_rooks() | b.white_knights() | b.black_knights(), 0);
    assert_eq!(b.white_bishops() | b.black_bishops() | b.white_queens() | b.black_queens(), 0);
    assert_eq!(Board::default(), b);
}

#[test]
fn starting_position_bitboards() {
    let b = Board::starting_pos();
    let bits = |x: u128| (0..128).filter(|i| x >> i & 1 == 1).collect::<Vec<u32>>();
    assert_eq!(bits(b.white_pawns()), vec![6, 18, 29, 40, 48, 49, 50, 51, 52]);
    assert_eq!(bits(b.black_pawns()), vec![68, 69, 70, 71, 72, 81, 92, 103, 115]);
    assert_eq!(bits(b.white_rooks()), vec![7, 43]);
    assert_eq!(bits(b.black_rooks()), vec![77, 113]);
    assert_eq!(bits(b.white_knights()), vec![8, 32]);
    assert_eq!(bits(b.black_knights()), vec![90, 112]);
    assert_eq!(bits(b.white_bishops()), vec![0, 11, 23]);
    assert_eq!(bits(b.black_bishops()), vec![97, 109, 120]);
    assert_eq!(bits(b.white_queens()), vec![21]);
    assert_eq!(bits(b.black_queens()), vec![108]);
    assert_eq!(bits(b.white_kings()), vec![1]);
    assert_eq!(bits(b.black_kings()), vec![119]);
    assert_eq!(
        bits(b.white_pieces()),
        vec![0, 1, 6, 7, 8, 11, 18, 20, 21, 23, 29, 32, 40, 43, 48, 49, 50, 51, 52]
    );
    assert_eq!(
        bits(b.black_pieces()),
        vec![68, 69, 70, 71, 72, 77, 81, 90, 92, 97, 103, 108, 109, 113, 115, 119, 120]
    );
    assert_eq!(b.clone(), b);
}

#[test]
fn every_cell_reads_empty_or_off_board() {
    let boards = [Board::new(), Board::starting_pos()];
    for b in boards.iter() {
        for idx in 0u8..=255 {
            let p = b.get_piece(idx);
            if Board::is_valid_idx(idx) {
                assert_eq!(p, Piece::empty());
            } else {
                assert_eq!(p, Piece::off_board());
            }
        }
    }
    let mut b = Board::new();
    b.set_piece(48, Piece::new(true, PieceType::Queen));
    assert_eq!(b.get_piece(48), Piece::empty());
    assert_eq!(b.get_piece(47), Piece::empty());
    assert_eq!(b.get_piece(6), Piece::off_board());
}

#[test]
fn set_piece_adds_to_the_piece_bitboard() {
    let mut b = Board::new();
    b.set_piece(48, Piece::new(true, PieceType::Knight));
    assert_eq!(b.white_knights(), 1u128 << 48);
    assert_eq!(b.white_pieces(), 1u128 << 48);
    assert_eq!(b.black_pieces(), 0);
    b.set_piece(70, Piece::new(false, PieceType::Rook));
    assert_eq!(b.black_rooks(), 1u128 << 70);
    assert_eq!(b.black_pieces(), 1u128 << 70);
    assert_eq!(b.white_knights(), 1u128 << 48);
    b.set_piece(127, Piece::new(false, PieceType::King));
    assert_eq!(b.black_kings(), 1u128 << 127);
    assert_eq!(b.black_pieces(), (1u128 << 70) | (1u128 << 127));
}

#[test]
fn set_piece_keeps_the_previous_occupant() {
    let mut b = Board::new();
    b.set_piece(48, Piece::new(true, PieceType::Knight));
    b.set_piece(48, Piece::new(false, PieceType::Bishop));
    assert_eq!(b.white_knights(), 1u128 << 48);
    assert_eq!(b.black_bishops(), 1u128 << 48);
    assert_eq!(b.white_pieces(), 1u128 << 48);
    assert_eq!(b.black_pieces(), 1u128 << 48);
    b.set_piece(48, Piece::empty());
    b.set_piece(48, Piece::off_board());
    assert_eq!(b.white_knights(), 1u128 << 48);
    assert_eq!(b.black_bishops(), 1u128 << 48);
}

#[test]
fn set_piece_on_the_starting_position_resyncs_totals() {
    let mut b = Board::starting_pos();
    b.set_piece(2, Piece::empty());
    let w = b.white_pawns() | b.white_knights() | b.white_bishops() | b.white_rooks()
        | b.white_queens() | b.white_kings();
    let k = b.black_pawns() | b.black_knights() | b.black_bishops() | b.black_rooks()
        | b.black_queens() | b.black_kings();
    assert_eq!(b.white_pieces(), w);
    assert_eq!(b.black_pieces(), k);
    assert_eq!(b.white_pieces() >> 20 & 1, 0);
    assert_eq!(b.black_pieces() >> 112 & 1, 1);
}

#[test]
fn board_is_symmetric_under_half_turn_and_transpose() {
    for i in 0u8..=120 {
        let v = Board::is_valid_idx(i);
        assert_eq!(v, Board::is_valid_idx(120 - i), "cell {}", i);
        assert_eq!(v, Board::is_valid_idx(11 * (i % 11) + i / 11), "cell {}", i);
    }
}
