//! Pieces and the board of hexagonal chess.
//!
//! The board is laid out on an 11 x 11 grid of cell indices: index
//! `11 * file + rank`, files A..K and ranks 1..11. Only 91 of the 121 grid
//! cells belong to the hexagonal board; `ON_BOARD` marks them. A board keeps
//! one bitboard per coloured piece kind and one per colour.
use vstd::prelude::*;
use vstd::set_lib::{lemma_int_range, lemma_set_disjoint_lens, set_int_range};

verus! {

/// A piece code: bit 3 is the colour (set for white), bits 0..=2 the kind
/// as numbered by `PieceType`. Code 0 is an empty cell, code 128 a cell
/// outside the board.
#[derive(Debug, Clone, Copy, PartialEq, Eq, Structural)]
pub struct Piece(u8);

/// Number of cells of the grid that holds the board.
pub const BOARD_SIZE: usize = 121;

/// The kinds of pieces, numbered 0 (no piece) to 6.
#[derive(Debug, Copy, Clone, PartialEq, Eq, Structural)]
pub enum PieceType {
    Empty,
    King,
    Pawn,
    Queen,
    Rook,
    Bishop,
    Knight,
}

impl PieceType {
    /// The kind numbered `value`; numbers outside 1..=6 name no piece.
    pub open spec fn spec_from_u8(value: u8) -> PieceType {
        match value {
            1 => PieceType::King,
            2 => PieceType::Pawn,
            3 => PieceType::Queen,
            4 => PieceType::Rook,
            5 => PieceType::Bishop,
            6 => PieceType::Knight,
            _ => PieceType::Empty,
        }
    }

    /// The number of a kind, 0 to 6 in declaration order.
    pub open spec fn spec_to_u8(self) -> u8 {
        match self {
            PieceType::Empty => 0,
            PieceType::King => 1,
            PieceType::Pawn => 2,
            PieceType::Queen => 3,
            PieceType::Rook => 4,
            PieceType::Bishop => 5,
            PieceType::Knight => 6,
        }
    }
}

impl From<u8> for PieceType {
    fn from(value: u8) -> (r: Self) {
        match value {
            1 => PieceType::King,
            2 => PieceType::Pawn,
            3 => PieceType::Queen,
            4 => PieceType::Rook,
            5 => PieceType::Bishop,
            6 => PieceType::Knight,
            _ => PieceType::Empty,
        }
    }
}

impl vstd::std_specs::convert::FromSpecImpl<u8> for PieceType {
    open spec fn obeys_from_spec() -> bool {
        true
    }

    open spec fn from_spec(value: u8) -> PieceType {
        PieceType::spec_from_u8(value)
    }
}

impl From<PieceType> for u8 {
    fn from(piece: PieceType) -> (r: Self) {
        match piece {
            PieceType::Empty => 0,
            PieceType::King => 1,
            PieceType::Pawn => 2,
            PieceType::Queen => 3,
            PieceType::Rook => 4,
            PieceType::Bishop => 5,
            PieceType::Knight => 6,
        }
    }
}

impl vstd::std_specs::convert::FromSpecImpl<PieceType> for u8 {
    open spec fn obeys_from_spec() -> bool {
        true
    }

    open spec fn from_spec(piece: PieceType) -> u8 {
        piece.spec_to_u8()
    }
}

/// Converting a kind to its number and back gives the kind again; a number
/// converted to a kind and back is kept when it is 1..=6 and becomes 0
/// otherwise.
pub proof fn lemma_piece_type_round_trip(t: PieceType, value: u8)
    ensures
        PieceType::spec_from_u8(t.spec_to_u8()) == t,
        PieceType::spec_from_u8(value).spec_to_u8() == (if 1 <= value <= 6 {
            value
        } else {
            0
        }),
{
}

/// Colour flag of a piece code.
pub open spec fn code_is_white(code: u8) -> bool {
    code & 8 == 8
}

/// Kind of a piece code, read from its low three bits.
pub open spec fn code_piece_type(code: u8) -> PieceType {
    PieceType::spec_from_u8(code & 7)
}

/// The code of a piece of the given colour and kind.
pub open spec fn piece_code(is_white: bool, piece_type: PieceType) -> u8 {
    ((if is_white {
        1u8
    } else {
        0u8
    }) << 3u8) | piece_type.spec_to_u8()
}

/// Code of an empty cell.
pub const EMPTY_CODE: u8 = 0;

/// Code of a cell outside the board.
pub const OFF_BOARD_CODE: u8 = 128;

impl View for Piece {
    type V = u8;

    /// The piece code.
    closed spec fn view(&self) -> u8 {
        self.0
    }
}

proof fn lemma_code_bits(c: u8, t: u8)
    by (bit_vector)
    requires
        c <= 1,
        t <= 6,
    ensures
        ((c << 3u8) | t) & 8 == 8 <==> c == 1,
        ((c << 3u8) | t) & 7 == t,
        ((c << 3u8) | t) < 16,
{
}

/// A piece made from a colour and a kind has that colour and that kind.
pub proof fn lemma_piece_code(is_white: bool, piece_type: PieceType)
    ensures
        code_is_white(piece_code(is_white, piece_type)) == is_white,
        code_piece_type(piece_code(is_white, piece_type)) == piece_type,
        piece_code(is_white, piece_type) < 16,
{
    let c: u8 = if is_white {
        1
    } else {
        0
    };
    lemma_code_bits(c, piece_type.spec_to_u8());
}

/// Neither the empty code nor the off-board code is white or has a kind.
pub proof fn lemma_empty_and_off_board_codes()
    ensures
        !code_is_white(EMPTY_CODE),
        !code_is_white(OFF_BOARD_CODE),
        code_piece_type(EMPTY_CODE) == PieceType::Empty,
        code_piece_type(OFF_BOARD_CODE) == PieceType::Empty,
{
    lemma_no_kind_bits();
}

proof fn lemma_no_kind_bits()
    by (bit_vector)
    ensures
        0u8 & 8u8 == 0u8,
        128u8 & 8u8 == 0u8,
        0u8 & 7u8 == 0u8,
        128u8 & 7u8 == 0u8,
{
}

impl Piece {
    /// The piece of the given colour and kind.
    pub fn new(is_white: bool, piece_type: PieceType) -> (r: Piece)
        ensures
            r@ == piece_code(is_white, piece_type),
    {
        let colour: u8 = if is_white {
            1
        } else {
            0
        };
        Piece((colour << 3u8) | u8::from(piece_type))
    }

    /// The content of an empty cell.
    pub fn empty() -> (r: Piece)
        ensures
            r@ == EMPTY_CODE,
    {
        Piece(EMPTY_CODE)
    }

    /// The content reported for a cell outside the board.
    pub fn off_board() -> (r: Piece)
        ensures
            r@ == OFF_BOARD_CODE,
    {
        Piece(OFF_BOARD_CODE)
    }

    pub fn is_white(self) -> (r: bool)
        ensures
            r == code_is_white(self@),
    {
        self.0 & 0b0000_1000 == 0b1000
    }

    pub fn piece_type(self) -> (r: PieceType)
        ensures
            r == code_piece_type(self@),
    {
        PieceType::from(self.0 & 0b0000_0111)
    }

    pub fn is_off_board(self) -> (r: bool)
        ensures
            r == (self@ == OFF_BOARD_CODE),
    {
        self == Piece::off_board()
    }

    pub fn is_empty(self) -> (r: bool)
        ensures
            r == (self@ == EMPTY_CODE),
    {
        self == Piece::empty()
    }
}

/// Cells of the grid that belong to the hexagonal board.
pub const ON_BOARD: u128 =
    0b00000001111110000011111110000111111110001111111110011111111110111111111110111111111100111111111000111111110000111111100000111111;

/// A cell index names a cell of the board.
pub open spec fn spec_is_valid_idx(idx: u8) -> bool {
    idx <= 120 && (1u128 << idx) & ON_BOARD != 0
}

/// The shape of the hexagonal board on the grid: file `f` (0 to 10) holds
/// ranks `0..6 + f` for `f <= 5` and ranks `f - 5..11` beyond.
pub open spec fn hex_cell(file: int, rank: int) -> bool {
    &&& 0 <= file < 11
    &&& 0 <= rank < 11
    &&& if file <= 5 {
        rank < 6 + file
    } else {
        rank >= file - 5
    }
}

/// The board as a record of plain bitboards.
pub struct BoardView {
    pub wp: u128,
    pub bp: u128,
    pub wr: u128,
    pub br: u128,
    pub wn: u128,
    pub bn: u128,
    pub wb: u128,
    pub bb: u128,
    pub wk: u128,
    pub bk: u128,
    pub wq: u128,
    pub bq: u128,
    pub white: u128,
    pub black: u128,
}

impl BoardView {
    /// The board with no pieces.
    pub open spec fn empty() -> BoardView {
        BoardView {
            wp: 0,
            bp: 0,
            wr: 0,
            br: 0,
            wn: 0,
            bn: 0,
            wb: 0,
            bb: 0,
            wk: 0,
            bk: 0,
            wq: 0,
            bq: 0,
            white: 0,
            black: 0,
        }
    }

    /// The bitboard of the pieces of one colour and kind; zero for no kind.
    pub open spec fn pieces_of(self, is_white: bool, piece_type: PieceType) -> u128 {
        match piece_type {
            PieceType::Empty => 0,
            PieceType::King => if is_white {
                self.wk
            } else {
                self.bk
            },
            PieceType::Pawn => if is_white {
                self.wp
            } else {
                self.bp
            },
            PieceType::Queen => if is_white {
                self.wq
            } else {
                self.bq
            },
            PieceType::Rook => if is_white {
                self.wr
            } else {
                self.br
            },
            PieceType::Bishop => if is_white {
                self.wb
            } else {
                self.bb
            },
            PieceType::Knight => if is_white {
                self.wn
            } else {
                self.bn
            },
        }
    }

    /// Every piece bitboard together.
    pub open spec fn all_pieces(self) -> u128 {
        self.wp | self.bp | self.wr | self.br | self.wn | self.bn | self.wb | self.bb | self.wk
            | self.bk | self.wq | self.bq
    }

    /// Each piece that stands on a cell of the board is also in the total of
    /// one of the colours.
    pub open spec fn colors_cover_pieces(self) -> bool {
        self.all_pieces() & ON_BOARD & !(self.white | self.black) == 0
    }

    /// The board after putting the piece with code `code` on cell `idx`:
    /// when the code is one of the twelve coloured pieces, the bit of `idx`
    /// is added to that piece's bitboard; no other bit of a piece bitboard
    /// changes, and each colour total becomes the union of that colour's six
    /// piece bitboards.
    pub open spec fn place(self, idx: u8, code: u8) -> BoardView {
        let m = 1u128 << idx;
        let wp = if code == 0b1010 {
            self.wp | m
        } else {
            self.wp
        };
        let bp = if code == 0b0010 {
            self.bp | m
        } else {
            self.bp
        };
        let wr = if code == 0b1100 {
            self.wr | m
        } else {
            self.wr
        };
        let br = if code == 0b0100 {
            self.br | m
        } else {
            self.br
        };
        let wn = if code == 0b1110 {
            self.wn | m
        } else {
            self.wn
        };
        let bn = if code == 0b0110 {
            self.bn | m
        } else {
            self.bn
        };
        let wb = if code == 0b1101 {
            self.wb | m
        } else {
            self.wb
        };
        let bb = if code == 0b0101 {
            self.bb | m
        } else {
            self.bb
        };
        let wq = if code == 0b1011 {
            self.wq | m
        } else {
            self.wq
        };
        let bq = if code == 0b0011 {
            self.bq | m
        } else {
            self.bq
        };
        let wk = if code == 0b1001 {
            self.wk | m
        } else {
            self.wk
        };
        let bk = if code == 0b0001 {
            self.bk | m
        } else {
            self.bk
        };
        BoardView {
            wp,
            bp,
            wr,
            br,
            wn,
            bn,
            wb,
            bb,
            wk,
            bk,
            wq,
            bq,
            white: wp | wn | wb | wr | wq | wk,
            black: bp | bn | bb | br | bq | bk,
        }
    }
}

/// The board: one bitboard per coloured piece kind, and the totals of each
/// colour.
#[derive(Debug, PartialEq, Eq, Structural)]
pub struct Board {
    wp: u128,
    bp: u128,
    wr: u128,
    br: u128,
    wn: u128,
    bn: u128,
    wb: u128,
    bb: u128,
    wk: u128,
    bk: u128,
    wq: u128,
    bq: u128,
    white: u128,
    black: u128,
}

/// The twelve piece bitboards, before the colour totals are derived.
struct PieceBoards {
    wp: u128,
    bp: u128,
    wr: u128,
    br: u128,
    wn: u128,
    bn: u128,
    wb: u128,
    bb: u128,
    wk: u128,
    bk: u128,
    wq: u128,
    bq: u128,
}

impl View for Board {
    type V = BoardView;

    /// The bitboards of the board.
    closed spec fn view(&self) -> BoardView {
        BoardView {
            wp: self.wp,
            bp: self.bp,
            wr: self.wr,
            br: self.br,
            wn: self.wn,
            bn: self.bn,
            wb: self.wb,
            bb: self.bb,
            wk: self.wk,
            bk: self.bk,
            wq: self.wq,
            bq: self.bq,
            white: self.white,
            black: self.black,
        }
    }
}

proof fn lemma_totals_cover(
    wp: u128,
    bp: u128,
    wr: u128,
    br: u128,
    wn: u128,
    bn: u128,
    wb: u128,
    bb: u128,
    wk: u128,
    bk: u128,
    wq: u128,
    bq: u128,
    on: u128,
)
    by (bit_vector)
    ensures
        (wp | bp | wr | br | wn | bn | wb | bb | wk | bk | wq | bq) & on & !((wp | wn | wb | wr | wq
            | wk) | (bp | bn | bb | br | bq | bk)) == 0,
{
}

proof fn lemma_uncovered_cell(
    wp: u128,
    bp: u128,
    wr: u128,
    br: u128,
    wn: u128,
    bn: u128,
    wb: u128,
    bb: u128,
    wk: u128,
    bk: u128,
    wq: u128,
    bq: u128,
    white: u128,
    black: u128,
    on: u128,
    idx: u8,
    mask: u128,
)
    by (bit_vector)
    requires
        (wp | bp | wr | br | wn | bn | wb | bb | wk | bk | wq | bq) & on & !(white | black) == 0,
        idx < 128,
        mask == 1u128 << idx,
        mask & on != 0,
        (white | black) & mask == 0,
    ensures
        white & mask == 0,
        (wk | bk) & mask == 0,
        (wp | bp) & mask == 0,
        (wq | bq) & mask == 0,
        (wr | br) & mask == 0,
        (wb | bb) & mask == 0,
        (wn | bn) & mask == 0,
{
}

proof fn lemma_empty_board_covered()
    by (bit_vector)
    ensures
        (0u128 | 0u128 | 0u128 | 0u128 | 0u128 | 0u128 | 0u128 | 0u128 | 0u128 | 0u128 | 0u128
            | 0u128) & ON_BOARD & !(0u128 | 0u128) == 0,
{
}

proof fn lemma_zero_code()
    by (bit_vector)
    ensures
        (0u8 << 3u8) | ((((((0u8 | 0u8) | 0u8) | 0u8) | 0u8) | 0u8)) == 0u8,
{
}

proof fn lemma_starting_cover()
    by (bit_vector)
    ensures
        (0b00000000000_00000000000_00000000000_00000000000_00000000000_00000000000_00111110000_00010000000_00010000000_00010000000_00001000000u128
            | 0b00000100000_00000010000_00000010000_00000010000_00001111100_00000000000_00000000000_00000000000_00000000000_00000000000_00000000000u128
            | 0b00000000000_00000000000_00000000000_00000000000_00000000000_00000000000_00000000000_10000000000_00000000000_00000000000_00010000000u128
            | 0b00000001000_00000000000_00000000000_00000000001_00000000000_00000000000_00000000000_00000000000_00000000000_00000000000_00000000000u128
            | 0b00000000000_00000000000_00000000000_00000000000_00000000000_00000000000_00000000000_00000000000_10000000000_00000000000_00100000000u128
            | 0b00000000100_00000000000_00000000100_00000000000_00000000000_00000000000_00000000000_00000000000_00000000000_00000000000_00000000000u128
            | 0b00000000000_00000000000_00000000000_00000000000_00000000000_00000000000_00000000000_00000000000_00000000010_00000000001_00000000001u128
            | 0b10000000000_10000000000_01000000000_00000000000_00000000000_00000000000_00000000000_00000000000_00000000000_00000000000_00000000000u128
            | 0b00000000000_00000000000_00000000000_00000000000_00000000000_00000000000_00000000000_00000000000_00000000000_00000000000_00000000010u128
            | 0b01000000000_00000000000_00000000000_00000000000_00000000000_00000000000_00000000000_00000000000_00000000000_00000000000_00000000000u128
            | 0b00000000000_00000000000_00000000000_00000000000_00000000000_00000000000_00000000000_00000000000_00000000000_10000000000_00000000000u128
            | 0b00000000000_01000000000_00000000000_00000000000_00000000000_00000000000_00000000000_00000000000_00000000000_00000000000_00000000000u128)
            & ON_BOARD & !(
        0b00000000000_00000000000_00000000000_00000000000_00000000000_00000000000_00111110000_10010000000_10010000010_11010000001_00111000011u128
            | 0b11000101000_11000010000_01000010100_00000010001_00001111100_00000000000_00000000000_00000000000_00000000000_00000000000_00000000000u128)
            == 0,
{
}

impl Board {
    /// The colour totals cover every piece standing on a cell of the board.
    #[verifier::type_invariant]
    spec fn colors_cover_pieces(self) -> bool {
        self@.colors_cover_pieces()
    }

    /// The board whose piece bitboards are `p` and whose colour totals are
    /// the unions of each colour's piece bitboards.
    fn sync_total_bb(p: PieceBoards) -> (r: Board)
        ensures
            r@ == (BoardView {
                wp: p.wp,
                bp: p.bp,
                wr: p.wr,
                br: p.br,
                wn: p.wn,
                bn: p.bn,
                wb: p.wb,
                bb: p.bb,
                wk: p.wk,
                bk: p.bk,
                wq: p.wq,
                bq: p.bq,
                white: p.wp | p.wn | p.wb | p.wr | p.wq | p.wk,
                black: p.bp | p.bn | p.bb | p.br | p.bq | p.bk,
            }),
    {
        proof {
            lemma_totals_cover(
                p.wp,
                p.bp,
                p.wr,
                p.br,
                p.wn,
                p.bn,
                p.wb,
                p.bb,
                p.wk,
                p.bk,
                p.wq,
                p.bq,
                ON_BOARD,
            );
        }
        Board {
            wp: p.wp,
            bp: p.bp,
            wr: p.wr,
            br: p.br,
            wn: p.wn,
            bn: p.bn,
            wb: p.wb,
            bb: p.bb,
            wk: p.wk,
            bk: p.bk,
            wq: p.wq,
            bq: p.bq,
            white: p.wp | p.wn | p.wb | p.wr | p.wq | p.wk,
            black: p.bp | p.bn | p.bb | p.br | p.bq | p.bk,
        }
    }

    /// Whether `idx` names a cell of the hexagonal board.
    #[inline]
    pub fn is_valid_idx(idx: u8) -> (r: bool)
        ensures
            r == spec_is_valid_idx(idx),
    {
        if idx > 120 {
            return false;
        }
        (1u128 << idx) & ON_BOARD != 0
    }

    #[inline]
    pub fn is_invalid_idx(idx: u8) -> (r: bool)
        ensures
            r == !spec_is_valid_idx(idx),
    {
        !Self::is_valid_idx(idx)
    }

    /// The board with no pieces.
    #[inline]
    pub fn new() -> (r: Self)
        ensures
            r@ == BoardView::empty(),
    {
        proof {
            lemma_empty_board_covered();
        }
        Board {
            wp: 0,
            bp: 0,
            wr: 0,
            br: 0,
            wn: 0,
            bn: 0,
            wb: 0,
            bb: 0,
            wk: 0,
            bk: 0,
            wq: 0,
            bq: 0,
            white: 0,
            black: 0,
        }
    }

    /// The opening position of hexagonal chess, as this library writes it.
    #[inline]
    pub fn starting_pos() -> (r: Self)
        ensures
            r@ == starting_view(),
    {
        proof {
            lemma_starting_cover();
        }
        Board {
            wp: 0b00000000000_00000000000_00000000000_00000000000_00000000000_00000000000_00111110000_00010000000_00010000000_00010000000_00001000000,
            bp: 0b00000100000_00000010000_00000010000_00000010000_00001111100_00000000000_00000000000_00000000000_00000000000_00000000000_00000000000,
            wr: 0b00000000000_00000000000_00000000000_00000000000_00000000000_00000000000_00000000000_10000000000_00000000000_00000000000_00010000000,
            br: 0b00000001000_00000000000_00000000000_00000000001_00000000000_00000000000_00000000000_00000000000_00000000000_00000000000_00000000000,
            wn: 0b00000000000_00000000000_00000000000_00000000000_00000000000_00000000000_00000000000_00000000000_10000000000_00000000000_00100000000,
            bn: 0b00000000100_00000000000_00000000100_00000000000_00000000000_00000000000_00000000000_00000000000_00000000000_00000000000_00000000000,
            wb: 0b00000000000_00000000000_00000000000_00000000000_00000000000_00000000000_00000000000_00000000000_00000000010_00000000001_00000000001,
            bb: 0b10000000000_10000000000_01000000000_00000000000_00000000000_00000000000_00000000000_00000000000_00000000000_00000000000_00000000000,
            wq: 0b00000000000_00000000000_00000000000_00000000000_00000000000_00000000000_00000000000_00000000000_00000000000_10000000000_00000000000,
            bq: 0b00000000000_01000000000_00000000000_00000000000_00000000000_00000000000_00000000000_00000000000_00000000000_00000000000_00000000000,
            wk: 0b00000000000_00000000000_00000000000_00000000000_00000000000_00000000000_00000000000_00000000000_00000000000_00000000000_00000000010,
            bk: 0b01000000000_00000000000_00000000000_00000000000_00000000000_00000000000_00000000000_00000000000_00000000000_00000000000_00000000000,
            white: 0b00000000000_00000000000_00000000000_00000000000_00000000000_00000000000_00111110000_10010000000_10010000010_11010000001_00111000011,
            black: 0b11000101000_11000010000_01000010100_00000010001_00001111100_00000000000_00000000000_00000000000_00000000000_00000000000_00000000000,
        }
    }

    /// Puts `piece` on cell `idx`.
    ///
    /// The previous content of the cell is read with `get_piece`, and its bit
    /// would be cleared from its piece bitboard; as `get_piece` never reports
    /// a piece (see there), no bit is cleared. The bit of `idx` is then added
    /// to the bitboard of `piece` (when it is one of the twelve coloured
    /// pieces) and the colour totals are recomputed.
    pub fn set_piece(&mut self, idx: u8, piece: Piece)
        requires
            idx < 128,
        ensures
            final(self)@ == old(self)@.place(idx, piece@),
    {
        let select_mask = 1u128 << idx;
        let mut p = PieceBoards {
            wp: self.wp,
            bp: self.bp,
            wr: self.wr,
            br: self.br,
            wn: self.wn,
            bn: self.bn,
            wb: self.wb,
            bb: self.bb,
            wk: self.wk,
            bk: self.bk,
            wq: self.wq,
            bq: self.bq,
        };
        match self.get_piece(idx).0 {
            0b1010 => p.wp = p.wp & !select_mask,  // white pawn
            0b0010 => p.bp = p.bp & !select_mask,  // black pawn
            0b1100 => p.wr = p.wr & !select_mask,  // white rook
            0b0100 => p.br = p.br & !select_mask,  // black rook
            0b1110 => p.wn = p.wn & !select_mask,  // white knight
            0b0110 => p.bn = p.bn & !select_mask,  // black knight
            0b1101 => p.wb = p.wb & !select_mask,  // white bishop
            0b0101 => p.bb = p.bb & !select_mask,  // black bishop
            0b1011 => p.wq = p.wq & !select_mask,  // white queen
            0b0011 => p.bq = p.bq & !select_mask,  // black queen
            0b1001 => p.wk = p.wk & !select_mask,  // white king
            0b0001 => p.bk = p.bk & !select_mask,  // black king
            _ => {},
        }
        match piece.0 {
            0b1010 => p.wp = p.wp | select_mask,
            0b0010 => p.bp = p.bp | select_mask,
            0b1100 => p.wr = p.wr | select_mask,
            0b0100 => p.br = p.br | select_mask,
            0b1110 => p.wn = p.wn | select_mask,
            0b0110 => p.bn = p.bn | select_mask,
            0b1101 => p.wb = p.wb | select_mask,
            0b0101 => p.bb = p.bb | select_mask,
            0b1011 => p.wq = p.wq | select_mask,
            0b0011 => p.bq = p.bq | select_mask,
            0b1001 => p.wk = p.wk | select_mask,
            0b0001 => p.bk = p.bk | select_mask,
            _ => {},
        }
        *self = Board::sync_total_bb(p);
    }

    #[inline]
    pub fn white_pieces(&self) -> (r: u128)
        ensures
            r == self@.white,
    {
        self.white
    }

    #[inline]
    pub fn black_pieces(&self) -> (r: u128)
        ensures
            r == self@.black,
    {
        self.black
    }

    #[inline]
    pub fn white_pawns(&self) -> (r: u128)
        ensures
            r == self@.wp,
    {
        self.wp
    }

    #[inline]
    pub fn black_pawns(&self) -> (r: u128)
        ensures
            r == self@.bp,
    {
        self.bp
    }

    #[inline]
    pub fn white_kings(&self) -> (r: u128)
        ensures
            r == self@.wk,
    {
        self.wk
    }

    #[inline]
    pub fn black_kings(&self) -> (r: u128)
        ensures
            r == self@.bk,
    {
        self.bk
    }

    #[inline]
    pub fn white_rooks(&self) -> (r: u128)
        ensures
            r == self@.wr,
    {
        self.wr
    }

    #[inline]
    pub fn black_rooks(&self) -> (r: u128)
        ensures
            r == self@.br,
    {
        self.br
    }

    #[inline]
    pub fn white_knights(&self) -> (r: u128)
        ensures
            r == self@.wn,
    {
        self.wn
    }

    #[inline]
    pub fn black_knights(&self) -> (r: u128)
        ensures
            r == self@.bn,
    {
        self.bn
    }

    #[inline]
    pub fn white_bishops(&self) -> (r: u128)
        ensures
            r == self@.wb,
    {
        self.wb
    }

    #[inline]
    pub fn black_bishops(&self) -> (r: u128)
        ensures
            r == self@.bb,
    {
        self.bb
    }

    #[inline]
    pub fn white_queens(&self) -> (r: u128)
        ensures
            r == self@.wq,
    {
        self.wq
    }

    #[inline]
    pub fn black_queens(&self) -> (r: u128)
        ensures
            r == self@.bq,
    {
        self.bq
    }

    /// The content of cell `idx`.
    ///
    /// Cells outside the board read as `Piece::off_board()`. For a cell of
    /// the board, the lookup returns `Piece::empty()` as soon as the cell is
    /// set in either colour total, and otherwise assembles the code from the
    /// piece bitboards; since the colour totals cover every piece on the
    /// board, that code is always the empty one. So every cell of the board
    /// reads as empty.
    pub fn get_piece(&self, idx: u8) -> (r: Piece)
        ensures
            r@ == (if spec_is_valid_idx(idx) {
                EMPTY_CODE
            } else {
                OFF_BOARD_CODE
            }),
    {
        if !Self::is_valid_idx(idx) {
            return Piece::off_board();
        }
        let mask = 1u128 << idx;
        let occupancy = self.white | self.black;
        if (occupancy & mask) != 0 {
            return Piece::empty();
        }
        proof {
            use_type_invariant(self);
            lemma_uncovered_cell(
                self.wp,
                self.bp,
                self.wr,
                self.br,
                self.wn,
                self.bn,
                self.wb,
                self.bb,
                self.wk,
                self.bk,
                self.wq,
                self.bq,
                self.white,
                self.black,
                ON_BOARD,
                idx,
                mask,
            );
            lemma_zero_code();
        }
        let is_white = ((self.white & mask) != 0) as u8;

        let is_king = ((self.wk | self.bk) & mask != 0) as u8;
        let is_pawn = ((self.wp | self.bp) & mask != 0) as u8;
        let is_queen = ((self.wq | self.bq) & mask != 0) as u8;
        let is_rook = ((self.wr | self.br) & mask != 0) as u8;
        let is_bishop = ((self.wb | self.bb) & mask != 0) as u8;
        let is_knight = ((self.wn | self.bn) & mask != 0) as u8;

        let piece_type = (is_king * 1) | (is_pawn * 2) | (is_queen * 3) | (is_rook * 4) | (
        is_bishop * 5) | (is_knight * 6);

        Piece((is_white << 3u8 | piece_type))
    }
}

/// The bitboards of `Board::starting_pos`.
pub open spec fn starting_view() -> BoardView {
    BoardView {
        wp: 0b00000000000_00000000000_00000000000_00000000000_00000000000_00000000000_00111110000_00010000000_00010000000_00010000000_00001000000,
        bp: 0b00000100000_00000010000_00000010000_00000010000_00001111100_00000000000_00000000000_00000000000_00000000000_00000000000_00000000000,
        wr: 0b00000000000_00000000000_00000000000_00000000000_00000000000_00000000000_00000000000_10000000000_00000000000_00000000000_00010000000,
        br: 0b00000001000_00000000000_00000000000_00000000001_00000000000_00000000000_00000000000_00000000000_00000000000_00000000000_00000000000,
        wn: 0b00000000000_00000000000_00000000000_00000000000_00000000000_00000000000_00000000000_00000000000_10000000000_00000000000_00100000000,
        bn: 0b00000000100_00000000000_00000000100_00000000000_00000000000_00000000000_00000000000_00000000000_00000000000_00000000000_00000000000,
        wb: 0b00000000000_00000000000_00000000000_00000000000_00000000000_00000000000_00000000000_00000000000_00000000010_00000000001_00000000001,
        bb: 0b10000000000_10000000000_01000000000_00000000000_00000000000_00000000000_00000000000_00000000000_00000000000_00000000000_00000000000,
        wq: 0b00000000000_00000000000_00000000000_00000000000_00000000000_00000000000_00000000000_00000000000_00000000000_10000000000_00000000000,
        bq: 0b00000000000_01000000000_00000000000_00000000000_00000000000_00000000000_00000000000_00000000000_00000000000_00000000000_00000000000,
        wk: 0b00000000000_00000000000_00000000000_00000000000_00000000000_00000000000_00000000000_00000000000_00000000000_00000000000_00000000010,
        bk: 0b01000000000_00000000000_00000000000_00000000000_00000000000_00000000000_00000000000_00000000000_00000000000_00000000000_00000000000,
        white: 0b00000000000_00000000000_00000000000_00000000000_00000000000_00000000000_00111110000_10010000000_10010000010_11010000001_00111000011,
        black: 0b11000101000_11000010000_01000010100_00000010001_00001111100_00000000000_00000000000_00000000000_00000000000_00000000000_00000000000,
    }
}

impl Default for Board {
    fn default() -> (r: Self)
        ensures
            r@ == BoardView::empty(),
    {
        Self::new()
    }
}

impl Clone for Board {
    fn clone(&self) -> (r: Self)
        ensures
            r@ == self@,
    {
        proof {
            use_type_invariant(self);
        }
        Board {
            wp: self.wp,
            bp: self.bp,
            wr: self.wr,
            br: self.br,
            wn: self.wn,
            bn: self.bn,
            wb: self.wb,
            bb: self.bb,
            wk: self.wk,
            bk: self.bk,
            wq: self.wq,
            bq: self.bq,
            white: self.white,
            black: self.black,
        }
    }
}

proof fn lemma_board_shape_bits(idx: u8)
    by (bit_vector)
    ensures
        (idx <= 120 && (1u128 << idx) & ON_BOARD != 0) <==> (idx / 11 < 11 && (if idx / 11 <= 5 {
            idx % 11 < 6 + idx / 11
        } else {
            idx % 11 + 5 >= idx / 11
        })),
{
}

/// The cells that `is_valid_idx` accepts are exactly the cells of the
/// hexagonal board: eleven files of 6, 7, .., 11, .., 7, 6 cells.
pub proof fn lemma_board_shape(idx: u8)
    ensures
        spec_is_valid_idx(idx) <==> hex_cell(idx as int / 11, idx as int % 11),
{
    lemma_board_shape_bits(idx);
}

proof fn lemma_piece_code_values()
    by (bit_vector)
    ensures
        (1u8 << 3u8) | 1u8 == 0b1001u8,
        (1u8 << 3u8) | 2u8 == 0b1010u8,
        (1u8 << 3u8) | 3u8 == 0b1011u8,
        (1u8 << 3u8) | 4u8 == 0b1100u8,
        (1u8 << 3u8) | 5u8 == 0b1101u8,
        (1u8 << 3u8) | 6u8 == 0b1110u8,
        (0u8 << 3u8) | 1u8 == 0b0001u8,
        (0u8 << 3u8) | 2u8 == 0b0010u8,
        (0u8 << 3u8) | 3u8 == 0b0011u8,
        (0u8 << 3u8) | 4u8 == 0b0100u8,
        (0u8 << 3u8) | 5u8 == 0b0101u8,
        (0u8 << 3u8) | 6u8 == 0b0110u8,
        (1u8 << 3u8) | 0u8 == 0b1000u8,
        (0u8 << 3u8) | 0u8 == 0u8,
{
}

/// What `set_piece` writes is read back: putting a piece of colour
/// `is_white` and kind `piece_type` on `idx` adds the bit of `idx` to that
/// piece's bitboard and leaves every other piece bitboard as it was.
pub proof fn lemma_place_piece(
    v: BoardView,
    idx: u8,
    is_white: bool,
    piece_type: PieceType,
    other_white: bool,
    other_type: PieceType,
)
    requires
        piece_type != PieceType::Empty,
    ensures
        v.place(idx, piece_code(is_white, piece_type)).pieces_of(is_white, piece_type) == v.pieces_of(
            is_white,
            piece_type,
        ) | (1u128 << idx),
        (other_white != is_white || other_type != piece_type) ==> v.place(
            idx,
            piece_code(is_white, piece_type),
        ).pieces_of(other_white, other_type) == v.pieces_of(other_white, other_type),
{
    lemma_piece_code_values();
}

/// Putting the empty or the off-board content on a cell changes no piece
/// bitboard.
pub proof fn lemma_place_no_piece(v: BoardView, idx: u8, is_white: bool, piece_type: PieceType)
    ensures
        v.place(idx, EMPTY_CODE).pieces_of(is_white, piece_type) == v.pieces_of(
            is_white,
            piece_type,
        ),
        v.place(idx, OFF_BOARD_CODE).pieces_of(is_white, piece_type) == v.pieces_of(
            is_white,
            piece_type,
        ),
{
}

/// Every board this library builds keeps its colour totals covering the
/// pieces on the board: the empty board, the starting position, and any
/// board after `set_piece`, whatever it held before.
pub proof fn lemma_boards_cover_pieces(v: BoardView, idx: u8, code: u8)
    ensures
        BoardView::empty().colors_cover_pieces(),
        starting_view().colors_cover_pieces(),
        v.place(idx, code).colors_cover_pieces(),
{
    lemma_empty_board_covered();
    lemma_starting_cover();
    let w = v.place(idx, code);
    lemma_totals_cover(
        w.wp,
        w.bp,
        w.wr,
        w.br,
        w.wn,
        w.bn,
        w.wb,
        w.bb,
        w.wk,
        w.bk,
        w.wq,
        w.bq,
        ON_BOARD,
    );
}

proof fn lemma_board_symmetry_bits(i: u8)
    by (bit_vector)
    requires
        i <= 120,
    ensures
        ((1u128 << i) & ON_BOARD != 0) == ((1u128 << ((120 - i) as u8)) & ON_BOARD != 0),
        ((1u128 << i) & ON_BOARD != 0) == ((1u128 << ((11 * (i % 11) + i / 11) as u8))
            & ON_BOARD != 0),
{
}

/// The board is symmetric under the half turn about its centre cell 60
/// (`i` to `120 - i`) and under exchanging file and rank (`11 * f + r` to
/// `11 * r + f`).
pub proof fn lemma_board_symmetries(i: u8)
    requires
        i <= 120,
    ensures
        spec_is_valid_idx(i) == spec_is_valid_idx((120 - i) as u8),
        spec_is_valid_idx(i) == spec_is_valid_idx((11 * (i % 11) + i / 11) as u8),
{
    lemma_board_symmetry_bits(i);
}

/// The cells of the board, as a set of indices.
pub open spec fn board_cells() -> Set<int> {
    Set::new(|i: int| 0 <= i < 256 && spec_is_valid_idx(i as u8))
}

/// First rank of file `f` on the board.
spec fn file_low(f: int) -> int {
    if f <= 5 {
        0
    } else {
        f - 5
    }
}

/// One past the last rank of file `f` on the board.
spec fn file_high(f: int) -> int {
    if f <= 5 {
        6 + f
    } else {
        11
    }
}

/// The board cells of the first `n` files.
spec fn first_files(n: nat) -> Set<int>
    decreases n,
{
    if n == 0 {
        Set::empty()
    } else {
        first_files((n - 1) as nat) + set_int_range(
            11 * (n - 1) + file_low(n - 1),
            11 * (n - 1) + file_high(n - 1),
        )
    }
}

/// The number of board cells in the first `n` files.
spec fn first_files_count(n: nat) -> int
    decreases n,
{
    if n == 0 {
        0
    } else {
        first_files_count((n - 1) as nat) + file_high(n - 1) - file_low(n - 1)
    }
}

proof fn lemma_first_files(n: nat)
    requires
        n <= 11,
    ensures
        first_files(n).finite(),
        first_files(n).len() == first_files_count(n),
        forall|i: int| #[trigger]
            first_files(n).contains(i) <==> (0 <= i < 11 * n && hex_cell(i / 11, i % 11)),
    decreases n,
{
    if n > 0 {
        let m = (n - 1) as nat;
        lemma_first_files(m);
        let lo = 11 * m + file_low(m as int);
        let hi = 11 * m + file_high(m as int);
        let a = first_files(m);
        let r = set_int_range(lo, hi);
        lemma_int_range(lo, hi);
        assert(a.disjoint(r));
        lemma_set_disjoint_lens(a, r);
        assert forall|i: int| #[trigger] first_files(n).contains(i) <==> (0 <= i < 11 * n
            && hex_cell(i / 11, i % 11)) by {
            if 11 * m <= i < 11 * n {
                assert(i / 11 == m && i % 11 == i - 11 * m);
            }
        }
    }
}

/// The board has exactly 91 cells, all below index 121.
pub proof fn lemma_board_has_91_cells()
    ensures
        board_cells().finite(),
        board_cells().len() == 91,
        forall|i: int| board_cells().contains(i) ==> 0 <= i <= 120,
{
    lemma_first_files(11);
    assert forall|i: int| board_cells().contains(i) <==> first_files(11).contains(i) by {
        if 0 <= i < 256 {
            lemma_board_shape(i as u8);
        }
    }
    assert(board_cells() =~= first_files(11));
    reveal_with_fuel(first_files_count, 12);
}

/// After `set_piece` each colour total is exactly the union of that
/// colour's six piece bitboards, and the cell's bit is added to no piece
/// bitboard of the other colour.
pub proof fn lemma_place_totals_are_unions(
    v: BoardView,
    idx: u8,
    is_white: bool,
    piece_type: PieceType,
    other_type: PieceType,
)
    ensures
        ({
            let w = v.place(idx, piece_code(is_white, piece_type));
            &&& w.white == w.wp | w.wn | w.wb | w.wr | w.wq | w.wk
            &&& w.black == w.bp | w.bn | w.bb | w.br | w.bq | w.bk
            &&& w.pieces_of(!is_white, other_type) == v.pieces_of(!is_white, other_type)
        }),
{
    lemma_piece_code_values();
}

} // verus!