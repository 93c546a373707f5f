//! Move encoding and move generation.
use vstd::prelude::*;

use crate::bitboard::{
    bit_indices, clear_lowest, lemma_bit_indices_are_set, lemma_bit_indices_increasing,
    lemma_clear_lowest, lemma_set_bits_are_listed,
    spec_trailing_zeros, trailing_zeros, within_grid,
};
use crate::board::{
    lemma_empty_and_off_board_codes, spec_is_valid_idx, starting_view, Board,
    BoardView, PieceType, ON_BOARD,
};

pub mod tables;

use tables::{
    lemma_king_steps,
    bishop_attacks_db, bishop_magic, king_attacks, knight_attacks, magic_fits, rook_c_attacks_db,
    rook_c_magic, rook_r_attacks_db, rook_r_magic, rook_x_attacks_db, rook_x_magic,
    spec_bishop_attacks_db, spec_bishop_magic, spec_king_attacks, spec_knight_attacks,
    spec_rook_c_attacks_db, spec_rook_c_magic, spec_rook_r_attacks_db, spec_rook_r_magic,
    spec_rook_x_attacks_db, spec_rook_x_magic, Magic,
};

verus! {

/// A game: the side to move, the en-passant cell (never set by this
/// library) and the board.
#[derive(Debug)]
pub struct Game {
    is_white: bool,
    en_passant_square: Option<u8>,
    board: Board,
}

impl Clone for Game {
    fn clone(&self) -> (r: Self)
        ensures
            r@ == self@,
    {
        Game {
            is_white: self.is_white,
            en_passant_square: self.en_passant_square,
            board: self.board.clone(),
        }
    }
}

/// A move packed into 23 bits: origin cell (bits 16..=22), target cell
/// (bits 9..=15), promoted kind (bits 6..=8), captured kind (bits 3..=5),
/// then the flags double push (bit 2), en passant (bit 1) and promotion
/// (bit 0).
#[derive(Debug, Copy, Clone, PartialEq, Eq, Structural)]
pub struct Move(u32);

impl View for Move {
    type V = u32;

    /// The packed code.
    closed spec fn view(&self) -> u32 {
        self.0
    }
}

/// A flag as a bit.
pub open spec fn flag_bit(b: bool) -> u32 {
    if b {
        1
    } else {
        0
    }
}

/// The packed code of a move.
pub open spec fn move_code(
    from: u8,
    to: u8,
    promoted_piece: PieceType,
    captured_piece: PieceType,
    was_pawn_double_push: bool,
    was_en_passant: bool,
    was_promotion: bool,
) -> u32 {
    ((from as u32) << 16u32) | ((to as u32) << 9u32) | ((promoted_piece.spec_to_u8() as u32)
        << 6u32) | ((captured_piece.spec_to_u8() as u32) << 3u32) | (flag_bit(was_pawn_double_push)
        << 2u32) | (flag_bit(was_en_passant) << 1u32) | flag_bit(was_promotion)
}

/// Origin cell stored in a code.
pub open spec fn code_from(code: u32) -> u8 {
    ((code >> 16u32) & 0x7F) as u8
}

/// Target cell stored in a code.
pub open spec fn code_to(code: u32) -> u8 {
    ((code >> 9u32) & 0x7F) as u8
}

/// Promoted kind stored in a code.
pub open spec fn code_promoted(code: u32) -> PieceType {
    PieceType::spec_from_u8(((code >> 6u32) & 0x7) as u8)
}

/// Captured kind stored in a code.
pub open spec fn code_captured(code: u32) -> PieceType {
    PieceType::spec_from_u8(((code >> 3u32) & 0x7) as u8)
}

proof fn lemma_move_bits(
    x: u32,
    from: u32,
    to: u32,
    promoted: u32,
    captured: u32,
    double_push: u32,
    en_passant: u32,
    promotion: u32,
)
    by (bit_vector)
    requires
        from < 128,
        to < 128,
        promoted < 8,
        captured < 8,
        double_push < 2,
        en_passant < 2,
        promotion < 2,
        x == (from << 16u32) | (to << 9u32) | (promoted << 6u32) | (captured << 3u32) | (double_push
            << 2u32) | (en_passant << 1u32) | promotion,
    ensures
        (x >> 16u32) & 0x7F == from,
        (x >> 9u32) & 0x7F == to,
        (x >> 6u32) & 0x7 == promoted,
        (x >> 3u32) & 0x7 == captured,
        ((x >> 2u32) & 0x1 != 0) == (double_push == 1),
        ((x >> 1u32) & 0x1 != 0) == (en_passant == 1),
        (x & 0x1 != 0) == (promotion == 1),
{
}

/// Decoding a packed move gives back what was packed, for cells below 128.
pub proof fn lemma_move_round_trip(
    from: u8,
    to: u8,
    promoted_piece: PieceType,
    captured_piece: PieceType,
    was_pawn_double_push: bool,
    was_en_passant: bool,
    was_promotion: bool,
)
    requires
        from < 128,
        to < 128,
    ensures
        ({
            let c = move_code(
                from,
                to,
                promoted_piece,
                captured_piece,
                was_pawn_double_push,
                was_en_passant,
                was_promotion,
            );
            &&& code_from(c) == from
            &&& code_to(c) == to
            &&& code_promoted(c) == promoted_piece
            &&& code_captured(c) == captured_piece
            &&& ((c >> 2u32) & 0x1 != 0) == was_pawn_double_push
            &&& ((c >> 1u32) & 0x1 != 0) == was_en_passant
            &&& (c & 0x1 != 0) == was_promotion
        }),
{
    let c = move_code(
        from,
        to,
        promoted_piece,
        captured_piece,
        was_pawn_double_push,
        was_en_passant,
        was_promotion,
    );
    lemma_move_bits(
        c,
        from as u32,
        to as u32,
        promoted_piece.spec_to_u8() as u32,
        captured_piece.spec_to_u8() as u32,
        flag_bit(was_pawn_double_push),
        flag_bit(was_en_passant),
        flag_bit(was_promotion),
    );
}

/// The packing is injective on cells below 128: two packed moves are equal
/// exactly when all their parts are.
pub proof fn lemma_move_code_injective(
    from1: u8,
    to1: u8,
    promoted1: PieceType,
    captured1: PieceType,
    double_push1: bool,
    en_passant1: bool,
    promotion1: bool,
    from2: u8,
    to2: u8,
    promoted2: PieceType,
    captured2: PieceType,
    double_push2: bool,
    en_passant2: bool,
    promotion2: bool,
)
    requires
        from1 < 128,
        to1 < 128,
        from2 < 128,
        to2 < 128,
    ensures
        (move_code(from1, to1, promoted1, captured1, double_push1, en_passant1, promotion1)
            == move_code(from2, to2, promoted2, captured2, double_push2, en_passant2, promotion2))
            <==> (from1 == from2 && to1 == to2 && promoted1 == promoted2 && captured1 == captured2
            && double_push1 == double_push2 && en_passant1 == en_passant2 && promotion1
            == promotion2),
{
    lemma_move_round_trip(from1, to1, promoted1, captured1, double_push1, en_passant1, promotion1);
    lemma_move_round_trip(from2, to2, promoted2, captured2, double_push2, en_passant2, promotion2);
}

/// Two moves are equal exactly when their packed codes are.
pub proof fn lemma_move_equal_by_code(a: Move, b: Move)
    ensures
        (a == b) <==> (a@ == b@),
{
}

impl Move {
    fn new(
        from: u8,
        to: u8,
        promoted_piece: PieceType,
        captured_piece: PieceType,
        was_pawn_double_push: bool,
        was_en_passant: bool,
        was_promotion: bool,
    ) -> (r: Self)
        ensures
            r@ == move_code(
                from,
                to,
                promoted_piece,
                captured_piece,
                was_pawn_double_push,
                was_en_passant,
                was_promotion,
            ),
    {
        let final_val = ((from as u32) << 16u32) | ((to as u32) << 9u32) | ((u8::from(
            promoted_piece,
        ) as u32) << 6u32) | ((u8::from(captured_piece) as u32) << 3u32) | ((
        was_pawn_double_push as u32) << 2u32) | ((was_en_passant as u32) << 1u32) | (
        was_promotion as u32);

        Self(final_val)
    }

    pub fn from(self) -> (r: u8)
        ensures
            r == code_from(self@),
    {
        ((self.0 >> 16u32) & 0x7F) as u8
    }

    pub fn to(self) -> (r: u8)
        ensures
            r == code_to(self@),
    {
        ((self.0 >> 9u32) & 0x7F) as u8
    }

    pub fn promoted_piece(self) -> (r: PieceType)
        ensures
            r == code_promoted(self@),
    {
        PieceType::from(((self.0 >> 6u32) & 0x7) as u8)
    }

    pub fn captured_piece(self) -> (r: PieceType)
        ensures
            r == code_captured(self@),
    {
        PieceType::from(((self.0 >> 3u32) & 0x7) as u8)
    }

    pub fn was_pawn_double_push(self) -> (r: bool)
        ensures
            r == ((self@ >> 2u32) & 0x1 != 0),
    {
        ((self.0 >> 2u32) & 0x1) != 0
    }

    pub fn was_en_passant(self) -> (r: bool)
        ensures
            r == ((self@ >> 1u32) & 0x1 != 0),
    {
        ((self.0 >> 1u32) & 0x1) != 0
    }

    pub fn was_promotion(self) -> (r: bool)
        ensures
            r == (self@ & 0x1 != 0),
    {
        (self.0 & 0x1) != 0
    }
}

/// A game as plain values.
pub struct GameView {
    pub is_white: bool,
    pub en_passant_square: Option<u8>,
    pub board: BoardView,
}

impl View for Game {
    type V = GameView;

    /// The side to move, the en-passant cell and the board's bitboards.
    closed spec fn view(&self) -> GameView {
        GameView {
            is_white: self.is_white,
            en_passant_square: self.en_passant_square,
            board: self.board@,
        }
    }
}

/// Hash of occupancy `occ` under the magic entry `m`.
pub open spec fn magic_hash(m: Magic, occ: u128) -> int {
    ((occ & m.mask).wrapping_mul(m.magic) >> m.shift) as int
}

/// Cells a bishop on `from` attacks, looked up in the bishop database.
pub open spec fn bishop_attack_set(from: u8, occ: u128) -> u128 {
    let m = spec_bishop_magic(from);
    if m.mask == 0 {
        0
    } else {
        spec_bishop_attacks_db(m.offset + magic_hash(m, occ))
    }
}

/// Cells a rook on `from` attacks: the union of its lookups along the
/// three axes of the board.
pub open spec fn rook_attack_set(from: u8, occ: u128) -> u128 {
    let mr = spec_rook_r_magic(from);
    let mc = spec_rook_c_magic(from);
    let mx = spec_rook_x_magic(from);
    let hash_r = if mr.mask != 0 {
        magic_hash(mr, occ)
    } else {
        0
    };
    let hash_c = if mc.mask != 0 {
        magic_hash(mc, occ)
    } else {
        0
    };
    let hash_x = if mx.mask != 0 {
        magic_hash(mx, occ)
    } else {
        0
    };
    spec_rook_r_attacks_db(mr.offset + hash_r) | spec_rook_c_attacks_db(mc.offset + hash_c)
        | spec_rook_x_attacks_db(mx.offset + hash_x)
}

/// The kinds whose attack sets `attack_set` describes.
pub open spec fn is_attacker(kind: PieceType) -> bool {
    kind != PieceType::Empty && kind != PieceType::Pawn
}

/// Cells a piece of kind `kind` on `from` attacks under occupancy `occ`.
pub open spec fn attack_set(kind: PieceType, from: u8, occ: u128) -> u128 {
    match kind {
        PieceType::Bishop => bishop_attack_set(from, occ),
        PieceType::Rook => rook_attack_set(from, occ),
        PieceType::Queen => rook_attack_set(from, occ) | bishop_attack_set(from, occ),
        PieceType::Knight => spec_knight_attacks(from),
        PieceType::King => spec_king_attacks(from),
        _ => 0,
    }
}

proof fn lemma_hash_bound(x: u128, shift: u32)
    by (bit_vector)
    requires
        120 <= shift < 128,
    ensures
        x >> shift < 256,
{
}

/// The code of the move from `from` to `to` that promotes nothing, captures
/// nothing and carries no flag.
pub open spec fn quiet_code(from: u8, to: u8) -> u32 {
    move_code(from, to, PieceType::Empty, PieceType::Empty, false, false, false)
}

/// The codes of the quiet moves from `from` to each cell of `targets`, in
/// order.
pub open spec fn quiet_codes(from: u8, targets: Seq<u8>) -> Seq<u32> {
    targets.map_values(|to: u8| quiet_code(from, to))
}

/// The packed codes of a list of moves.
pub open spec fn move_codes(moves: Seq<Move>) -> Seq<u32> {
    moves.map_values(|m: Move| m@)
}

/// For each origin of `sources` in order, the quiet moves of a piece of kind
/// `kind` there to every cell, lowest first, of its attack set that `mask`
/// keeps.
pub open spec fn piece_codes(kind: PieceType, sources: Seq<u8>, occ: u128, mask: u128) -> Seq<
    u32,
>
    decreases sources.len(),
{
    if sources.len() == 0 {
        Seq::empty()
    } else {
        quiet_codes(sources[0], bit_indices(attack_set(kind, sources[0], occ) & mask))
            + piece_codes(kind, sources.drop_first(), occ, mask)
    }
}

/// The union of the attack sets of pieces of kind `kind` on each origin of
/// `sources`.
pub open spec fn attack_union(kind: PieceType, sources: Seq<u8>, occ: u128) -> u128
    decreases sources.len(),
{
    if sources.len() == 0 {
        0
    } else {
        attack_set(kind, sources[0], occ) | attack_union(kind, sources.drop_first(), occ)
    }
}

/// The pieces of one side that move generation walks all lie on the grid,
/// and the side has a king on the grid.
pub open spec fn side_on_grid(v: BoardView, is_white: bool) -> bool {
    &&& within_grid(v.pieces_of(is_white, PieceType::Bishop))
    &&& within_grid(v.pieces_of(is_white, PieceType::Rook))
    &&& within_grid(v.pieces_of(is_white, PieceType::Queen))
    &&& within_grid(v.pieces_of(is_white, PieceType::Knight))
    &&& spec_trailing_zeros(v.pieces_of(is_white, PieceType::King)) < 121
}

/// The cells `get_opp_covered_squares` reports: the cells outside the board
/// that the pieces of the side to move attack (bishops, rooks, queens,
/// knights and its lowest king), other than the cells of the opposing colour
/// total.
pub open spec fn covered_squares(g: GameView) -> u128 {
    let v = g.board;
    let side = if !g.is_white {
        v.white
    } else {
        v.black
    };
    let opp = if !g.is_white {
        v.black
    } else {
        v.white
    };
    let occ = side | opp;
    let me = g.is_white;
    let king_from = spec_trailing_zeros(v.pieces_of(me, PieceType::King)) as u8;
    (attack_union(PieceType::Bishop, bit_indices(v.pieces_of(me, PieceType::Bishop)), occ)
        | attack_union(PieceType::Rook, bit_indices(v.pieces_of(me, PieceType::Rook)), occ)
        | attack_union(PieceType::Queen, bit_indices(v.pieces_of(me, PieceType::Queen)), occ)
        | attack_union(PieceType::Knight, bit_indices(v.pieces_of(me, PieceType::Knight)), occ)
        | spec_king_attacks(king_from)) & !side & !ON_BOARD
}

proof fn lemma_union_step(res: u128, a: u128, u: u128, eoe: u128)
    by (bit_vector)
    ensures
        (res | ((a & eoe) & !ON_BOARD)) | (u & eoe & !ON_BOARD) == res | ((a | u) & eoe & !ON_BOARD),
{
}

proof fn lemma_cover_step(res: u128, a: u128, c: u128, t: u8)
    by (bit_vector)
    requires
        c | (1u128 << t) == a,
        t < 128,
    ensures
        (t <= 120 && (1u128 << t) & ON_BOARD != 0) ==> res | (c & !ON_BOARD) == res | (a
            & !ON_BOARD),
        !(t <= 120 && (1u128 << t) & ON_BOARD != 0) ==> (res | (1u128 << t)) | (c & !ON_BOARD)
            == res | (a & !ON_BOARD),
{
}

proof fn lemma_nothing_left(res: u128, e: u128)
    by (bit_vector)
    ensures
        res | (0u128 & !ON_BOARD) == res,
        res | (0u128 & e & !ON_BOARD) == res,
{
}

proof fn lemma_cover_total(b: u128, r: u128, q: u128, n: u128, k: u128, e: u128)
    by (bit_vector)
    ensures
        ((((0u128 | (b & e & !ON_BOARD)) | (r & e & !ON_BOARD)) | (q & e & !ON_BOARD)) | (n & e
            & !ON_BOARD)) | ((k & e) & !ON_BOARD) == (b | r | q | n | k) & e & !ON_BOARD,
{
}

/// The inputs on which `get_legal_moves` runs to the end: the pieces of the
/// side to move lie on the grid with a king among them; when white moves,
/// black has no rook or queen, and at most 11 bishops, all on the grid.
///
/// With white to move, the walk over black's rooks and queens looks its
/// pieces up at cell 128, past the end of every table, and the bishops are
/// stored in a list of 11 entries.
pub open spec fn can_generate_moves(g: GameView) -> bool {
    let v = g.board;
    &&& side_on_grid(v, g.is_white)
    &&& g.is_white ==> {
        &&& v.br | v.bq == 0
        &&& within_grid(v.bb | v.bq)
        &&& bit_indices(v.bb | v.bq).len() <= 11
    }
}

/// The codes of the moves `get_legal_moves` lists, in order.
///
/// White: when `covered_squares` meets the white kings, only the king's
/// moves; else the moves of the bishops, rooks, queens and knights, then of
/// the king. Black: the moves of the bishops, rooks, queens, knights, then
/// of the king. A piece moves to every cell of its attack set that its own
/// colour total does not hold; the king, from the lowest cell of its
/// bitboard, moves only to such cells that are also in `covered_squares`.
/// Every move is quiet (`quiet_code`): the captured kind is read from the
/// target cell, which never reports a piece, and the pawn walks find no
/// pawn.
pub open spec fn legal_move_codes(g: GameView) -> Seq<u32> {
    let v = g.board;
    let covered = covered_squares(g);
    if g.is_white {
        let occ = v.white | v.black;
        let eoe = !v.white;
        let king_from = spec_trailing_zeros(v.wk) as u8;
        let king_moves = quiet_codes(
            king_from,
            bit_indices(spec_king_attacks(king_from) & eoe & covered),
        );
        if covered & v.wk != 0 {
            king_moves
        } else {
            piece_codes(PieceType::Bishop, bit_indices(v.wb), occ, eoe) + piece_codes(
                PieceType::Rook,
                bit_indices(v.wr),
                occ,
                eoe,
            ) + piece_codes(PieceType::Queen, bit_indices(v.wq), occ, eoe) + piece_codes(
                PieceType::Knight,
                bit_indices(v.wn),
                occ,
                eoe,
            ) + king_moves
        }
    } else {
        let occ = v.black | v.white;
        let eoe = !v.black;
        let king_from = spec_trailing_zeros(v.bk) as u8;
        piece_codes(PieceType::Bishop, bit_indices(v.bb), occ, eoe) + piece_codes(
            PieceType::Rook,
            bit_indices(v.br),
            occ,
            eoe,
        ) + piece_codes(PieceType::Queen, bit_indices(v.bq), occ, eoe) + piece_codes(
            PieceType::Knight,
            bit_indices(v.bn),
            occ,
            eoe,
        ) + quiet_codes(king_from, bit_indices(spec_king_attacks(king_from) & eoe & covered))
    }
}

/// Cells white pawns start on.
const WHITE_STARTING_PAWNS: u128 =
    0b0000100000000001000000000010000000000100000011111000000000000000000000000000000000000000000000000000000000000000000000000000000000;

/// Cells black pawns start on: the white pattern with its bits reversed,
/// shifted up by 7.
const BLACK_STARTING_PAWNS: u128 = 0b111110000001000000000010000000000100000000001000000000;

/// The pieces of one side that move generation walks.
pub open spec fn movers(v: BoardView, is_white: bool) -> u128 {
    v.pieces_of(is_white, PieceType::Bishop) | v.pieces_of(is_white, PieceType::Rook)
        | v.pieces_of(is_white, PieceType::Queen) | v.pieces_of(is_white, PieceType::Knight)
        | v.pieces_of(is_white, PieceType::King)
}

/// The colour total of one side.
pub open spec fn colour_total(v: BoardView, is_white: bool) -> u128 {
    if is_white {
        v.white
    } else {
        v.black
    }
}

/// A packed move that leaves a cell of `from_cells` for a cell outside
/// `barred`, promoting and capturing nothing and carrying no flag.
pub open spec fn quiet_between(c: u32, from_cells: u128, barred: u128) -> bool {
    &&& (from_cells >> code_from(c)) & 1 == 1
    &&& (barred >> code_to(c)) & 1 == 0
    &&& code_promoted(c) == PieceType::Empty
    &&& code_captured(c) == PieceType::Empty
    &&& (c >> 2u32) & 0x1 == 0
    &&& (c >> 1u32) & 0x1 == 0
    &&& c & 0x1 == 0
}

/// Every move of `s` is `quiet_between` `from_cells` and `barred`.
pub open spec fn all_quiet_between(s: Seq<u32>, from_cells: u128, barred: u128) -> bool {
    forall|k: int| 0 <= k < s.len() ==> quiet_between(#[trigger] s[k], from_cells, barred)
}

proof fn lemma_target_not_barred(targets: u128, barred: u128, t: u8)
    by (bit_vector)
    requires
        targets & barred == 0,
        t < 128,
        (targets >> t) & 1 == 1,
    ensures
        (barred >> t) & 1 == 0,
{
}

proof fn lemma_flag_bits(c: u32)
    by (bit_vector)
    ensures
        ((c >> 2u32) & 0x1 != 0) == false ==> (c >> 2u32) & 0x1 == 0,
        ((c >> 1u32) & 0x1 != 0) == false ==> (c >> 1u32) & 0x1 == 0,
        (c & 0x1 != 0) == false ==> c & 0x1 == 0,
{
}

proof fn lemma_quiet_moves_between(from: u8, targets: u128, from_cells: u128, barred: u128)
    requires
        from < 128,
        (from_cells >> from) & 1 == 1,
        targets & barred == 0,
    ensures
        all_quiet_between(quiet_codes(from, bit_indices(targets)), from_cells, barred),
{
    let s = quiet_codes(from, bit_indices(targets));
    assert forall|k: int| 0 <= k < s.len() implies quiet_between(
        #[trigger] s[k],
        from_cells,
        barred,
    ) by {
        let t = bit_indices(targets)[k];
        lemma_bit_indices_are_set(targets, k);
        lemma_target_not_barred(targets, barred, t);
        lemma_move_round_trip(from, t, PieceType::Empty, PieceType::Empty, false, false, false);
        let c = move_code(from, t, PieceType::Empty, PieceType::Empty, false, false, false);
        lemma_flag_bits(c);
        assert(s[k] == quiet_code(from, t));
    }
}

proof fn lemma_masked_targets(a: u128, mask: u128, barred: u128)
    by (bit_vector)
    requires
        mask & barred == 0,
    ensures
        (a & mask) & barred == 0,
{
}

proof fn lemma_piece_moves_between(
    kind: PieceType,
    sources: Seq<u8>,
    occ: u128,
    mask: u128,
    from_cells: u128,
    barred: u128,
)
    requires
        forall|j: int|
            0 <= j < sources.len() ==> #[trigger] sources[j] < 128 && (from_cells >> sources[j]) & 1
                == 1,
        mask & barred == 0,
    ensures
        all_quiet_between(piece_codes(kind, sources, occ, mask), from_cells, barred),
    decreases sources.len(),
{
    if sources.len() > 0 {
        let from = sources[0];
        let a = attack_set(kind, from, occ);
        lemma_masked_targets(a, mask, barred);
        lemma_quiet_moves_between(from, a & mask, from_cells, barred);
        let rest = sources.drop_first();
        assert forall|j: int| 0 <= j < rest.len() implies #[trigger] rest[j] < 128 && (from_cells
            >> rest[j]) & 1 == 1 by {
            assert(rest[j] == sources[j + 1]);
        }
        lemma_piece_moves_between(kind, rest, occ, mask, from_cells, barred);
        lemma_concat_between(
            quiet_codes(from, bit_indices(a & mask)),
            piece_codes(kind, rest, occ, mask),
            from_cells,
            barred,
        );
    }
}

proof fn lemma_concat_between(a: Seq<u32>, b: Seq<u32>, from_cells: u128, barred: u128)
    requires
        all_quiet_between(a, from_cells, barred),
        all_quiet_between(b, from_cells, barred),
    ensures
        all_quiet_between(a + b, from_cells, barred),
{
    assert forall|k: int| 0 <= k < (a + b).len() implies quiet_between(
        #[trigger] (a + b)[k],
        from_cells,
        barred,
    ) by {
        if k < a.len() {
            assert((a + b)[k] == a[k]);
        } else {
            assert((a + b)[k] == b[k - a.len()]);
        }
    }
}

proof fn lemma_in_movers(b: u128, r: u128, q: u128, n: u128, k: u128, i: u8)
    by (bit_vector)
    requires
        i < 128,
    ensures
        (b >> i) & 1 == 1 ==> ((b | r | q | n | k) >> i) & 1 == 1,
        (r >> i) & 1 == 1 ==> ((b | r | q | n | k) >> i) & 1 == 1,
        (q >> i) & 1 == 1 ==> ((b | r | q | n | k) >> i) & 1 == 1,
        (n >> i) & 1 == 1 ==> ((b | r | q | n | k) >> i) & 1 == 1,
        (k >> i) & 1 == 1 ==> ((b | r | q | n | k) >> i) & 1 == 1,
{
}

proof fn lemma_sources_are_movers(v: BoardView, is_white: bool, kind: PieceType)
    requires
        is_attacker(kind),
    ensures
        forall|j: int|
            0 <= j < bit_indices(v.pieces_of(is_white, kind)).len() ==> #[trigger] bit_indices(
                v.pieces_of(is_white, kind),
            )[j] < 128 && (movers(v, is_white) >> bit_indices(v.pieces_of(is_white, kind))[j]) & 1
                == 1,
{
    let p = v.pieces_of(is_white, kind);
    assert forall|j: int| 0 <= j < bit_indices(p).len() implies #[trigger] bit_indices(p)[j] < 128
        && (movers(v, is_white) >> bit_indices(p)[j]) & 1 == 1 by {
        lemma_bit_indices_are_set(p, j);
        lemma_in_movers(
            v.pieces_of(is_white, PieceType::Bishop),
            v.pieces_of(is_white, PieceType::Rook),
            v.pieces_of(is_white, PieceType::Queen),
            v.pieces_of(is_white, PieceType::Knight),
            v.pieces_of(is_white, PieceType::King),
            bit_indices(p)[j],
        );
    }
}

proof fn lemma_not_own(own: u128, x: u128, y: u128)
    by (bit_vector)
    ensures
        !own & own == 0,
        ((x & !own) & y) & own == 0,
{
}

/// Every listed move leaves a cell holding a bishop, rook, queen, knight or
/// king of the side to move, goes to a cell outside that side's colour
/// total, and is quiet: no promotion, no capture, no flag.
pub proof fn lemma_legal_moves_leave_own_pieces(g: GameView)
    requires
        can_generate_moves(g),
    ensures
        all_quiet_between(
            legal_move_codes(g),
            movers(g.board, g.is_white),
            colour_total(g.board, g.is_white),
        ),
{
    let v = g.board;
    let me = g.is_white;
    let own = colour_total(v, me);
    let from_cells = movers(v, me);
    let covered = covered_squares(g);
    let occ = if me {
        v.white | v.black
    } else {
        v.black | v.white
    };
    lemma_not_own(own, 0, 0);
    lemma_sources_are_movers(v, me, PieceType::Bishop);
    lemma_sources_are_movers(v, me, PieceType::Rook);
    lemma_sources_are_movers(v, me, PieceType::Queen);
    lemma_sources_are_movers(v, me, PieceType::Knight);
    lemma_piece_moves_between(
        PieceType::Bishop,
        bit_indices(v.pieces_of(me, PieceType::Bishop)),
        occ,
        !own,
        from_cells,
        own,
    );
    lemma_piece_moves_between(
        PieceType::Rook,
        bit_indices(v.pieces_of(me, PieceType::Rook)),
        occ,
        !own,
        from_cells,
        own,
    );
    lemma_piece_moves_between(
        PieceType::Queen,
        bit_indices(v.pieces_of(me, PieceType::Queen)),
        occ,
        !own,
        from_cells,
        own,
    );
    lemma_piece_moves_between(
        PieceType::Knight,
        bit_indices(v.pieces_of(me, PieceType::Knight)),
        occ,
        !own,
        from_cells,
        own,
    );
    let king = v.pieces_of(me, PieceType::King);
    let king_from = spec_trailing_zeros(king) as u8;
    lemma_clear_lowest(king);
    lemma_in_movers(
        v.pieces_of(me, PieceType::Bishop),
        v.pieces_of(me, PieceType::Rook),
        v.pieces_of(me, PieceType::Queen),
        v.pieces_of(me, PieceType::Knight),
        king,
        king_from,
    );
    lemma_not_own(own, spec_king_attacks(king_from), covered);
    lemma_quiet_moves_between(
        king_from,
        spec_king_attacks(king_from) & !own & covered,
        from_cells,
        own,
    );
    let b = piece_codes(PieceType::Bishop, bit_indices(v.pieces_of(me, PieceType::Bishop)), occ, !own);
    let r = piece_codes(PieceType::Rook, bit_indices(v.pieces_of(me, PieceType::Rook)), occ, !own);
    let q = piece_codes(PieceType::Queen, bit_indices(v.pieces_of(me, PieceType::Queen)), occ, !own);
    let n = piece_codes(PieceType::Knight, bit_indices(v.pieces_of(me, PieceType::Knight)), occ, !own);
    let k = quiet_codes(king_from, bit_indices(spec_king_attacks(king_from) & !own & covered));
    lemma_concat_between(b, r, from_cells, own);
    lemma_concat_between(b + r, q, from_cells, own);
    lemma_concat_between(b + r + q, n, from_cells, own);
    lemma_concat_between(b + r + q + n, k, from_cells, own);
}

/// A sequence of codes in strictly increasing order.
pub open spec fn strictly_increasing(s: Seq<u32>) -> bool {
    forall|i: int, j: int| 0 <= i < j < s.len() ==> s[i] < s[j]
}

proof fn lemma_zero_unions(mask: u128)
    by (bit_vector)
    ensures
        0u128 | 0u128 | 0u128 == 0u128,
        0u128 | 0u128 == 0u128,
        0u128 & mask == 0u128,
{
}

/// The sliding pieces attack nothing: their databases are never filled.
pub proof fn lemma_sliders_attack_nothing(kind: PieceType, from: u8, occ: u128)
    requires
        kind == PieceType::Bishop || kind == PieceType::Rook || kind == PieceType::Queen,
    ensures
        attack_set(kind, from, occ) == 0,
{
    lemma_zero_unions(0);
}

/// Bishops, rooks and queens have no moves.
pub proof fn lemma_sliders_have_no_moves(kind: PieceType, sources: Seq<u8>, occ: u128, mask: u128)
    requires
        kind == PieceType::Bishop || kind == PieceType::Rook || kind == PieceType::Queen,
    ensures
        piece_codes(kind, sources, occ, mask) == Seq::<u32>::empty(),
    decreases sources.len(),
{
    if sources.len() > 0 {
        lemma_sliders_attack_nothing(kind, sources[0], occ);
        lemma_zero_unions(mask);
        lemma_sliders_have_no_moves(kind, sources.drop_first(), occ, mask);
        assert(bit_indices(0) == Seq::<u8>::empty());
        assert(piece_codes(kind, sources, occ, mask) =~= Seq::<u32>::empty());
    }
}

proof fn lemma_king_misses_covered(k: u128, e: u128, y: u128)
    by (bit_vector)
    requires
        k & !ON_BOARD == 0,
    ensures
        (k & e) & (y & !ON_BOARD) == 0,
{
}

proof fn lemma_covered_off_board(x: u128, side: u128)
    by (bit_vector)
    ensures
        x & !side & !ON_BOARD == (x & !side) & !ON_BOARD,
{
}

/// The side to move has no king move: the king steps only onto cells of
/// the board, while `covered_squares` holds only cells outside it.
pub proof fn lemma_no_king_moves(g: GameView)
    requires
        can_generate_moves(g),
    ensures
        ({
            let own = colour_total(g.board, g.is_white);
            let king_from = spec_trailing_zeros(g.board.pieces_of(g.is_white, PieceType::King))
                as u8;
            &&& spec_king_attacks(king_from) & !own & covered_squares(g) == 0
            &&& quiet_codes(king_from, bit_indices(spec_king_attacks(king_from) & !own
                & covered_squares(g))) == Seq::<u32>::empty()
        }),
{
    let v = g.board;
    let own = colour_total(v, g.is_white);
    let king_from = spec_trailing_zeros(v.pieces_of(g.is_white, PieceType::King)) as u8;
    let side = if !g.is_white {
        v.white
    } else {
        v.black
    };
    let opp = if !g.is_white {
        v.black
    } else {
        v.white
    };
    let occ = side | opp;
    let me = g.is_white;
    let x = attack_union(PieceType::Bishop, bit_indices(v.pieces_of(me, PieceType::Bishop)), occ)
        | attack_union(PieceType::Rook, bit_indices(v.pieces_of(me, PieceType::Rook)), occ)
        | attack_union(PieceType::Queen, bit_indices(v.pieces_of(me, PieceType::Queen)), occ)
        | attack_union(PieceType::Knight, bit_indices(v.pieces_of(me, PieceType::Knight)), occ)
        | spec_king_attacks(spec_trailing_zeros(v.pieces_of(me, PieceType::King)) as u8);
    lemma_king_steps(king_from, 0);
    lemma_covered_off_board(x, side);
    lemma_king_misses_covered(spec_king_attacks(king_from), !own, x & !side);
    assert(bit_indices(0) == Seq::<u8>::empty());
    assert(quiet_codes(king_from, Seq::<u8>::empty()) =~= Seq::<u32>::empty());
}

/// Only knights move: the list is empty when white's king is on a covered
/// cell, and otherwise it is the knight moves of the side to move.
pub proof fn lemma_only_knights_move(g: GameView)
    requires
        can_generate_moves(g),
    ensures
        legal_move_codes(g) == (if g.is_white && covered_squares(g) & g.board.wk != 0 {
            Seq::<u32>::empty()
        } else {
            piece_codes(
                PieceType::Knight,
                bit_indices(g.board.pieces_of(g.is_white, PieceType::Knight)),
                if g.is_white {
                    g.board.white | g.board.black
                } else {
                    g.board.black | g.board.white
                },
                !colour_total(g.board, g.is_white),
            )
        }),
{
    let v = g.board;
    let me = g.is_white;
    let occ = if me {
        v.white | v.black
    } else {
        v.black | v.white
    };
    let own = colour_total(v, me);
    lemma_no_king_moves(g);
    lemma_sliders_have_no_moves(PieceType::Bishop, bit_indices(v.pieces_of(me, PieceType::Bishop)), occ, !own);
    lemma_sliders_have_no_moves(PieceType::Rook, bit_indices(v.pieces_of(me, PieceType::Rook)), occ, !own);
    lemma_sliders_have_no_moves(PieceType::Queen, bit_indices(v.pieces_of(me, PieceType::Queen)), occ, !own);
    let n = piece_codes(PieceType::Knight, bit_indices(v.pieces_of(me, PieceType::Knight)), occ, !own);
    let e = Seq::<u32>::empty();
    assert(e + e + e + n + e =~= n);
}

proof fn lemma_quiet_code_bits(f: u32, t: u32)
    by (bit_vector)
    requires
        f < 128,
        t < 128,
    ensures
        (f << 16u32) | (t << 9u32) | (0u32 << 6u32) | (0u32 << 3u32) | (0u32 << 2u32) | (0u32
            << 1u32) | 0u32 == f * 65536 + t * 512,
{
}

/// For cells below 128 the quiet code is `65536 * from + 512 * to`.
pub proof fn lemma_quiet_code_value(from: u8, to: u8)
    requires
        from < 128,
        to < 128,
    ensures
        quiet_code(from, to) == from * 65536 + to * 512,
{
    lemma_quiet_code_bits(from as u32, to as u32);
}

proof fn lemma_quiet_codes_increasing(from: u8, targets: u128)
    requires
        from < 128,
    ensures
        strictly_increasing(quiet_codes(from, bit_indices(targets))),
        forall|k: int|
            0 <= k < quiet_codes(from, bit_indices(targets)).len() ==> from * 65536
                <= #[trigger] quiet_codes(from, bit_indices(targets))[k] < (from + 1) * 65536,
{
    let ts = bit_indices(targets);
    let q = quiet_codes(from, ts);
    lemma_bit_indices_increasing(targets);
    assert forall|k: int| 0 <= k < q.len() implies from * 65536 <= #[trigger] q[k] < (from + 1)
        * 65536 by {
        lemma_bit_indices_are_set(targets, k);
        lemma_quiet_code_value(from, ts[k]);
    }
    assert forall|i: int, j: int| 0 <= i < j < q.len() implies q[i] < q[j] by {
        lemma_bit_indices_are_set(targets, i);
        lemma_bit_indices_are_set(targets, j);
        lemma_quiet_code_value(from, ts[i]);
        lemma_quiet_code_value(from, ts[j]);
    }
}

proof fn lemma_piece_codes_increasing(kind: PieceType, sources: Seq<u8>, occ: u128, mask: u128)
    requires
        forall|j: int| 0 <= j < sources.len() ==> #[trigger] sources[j] < 128,
        forall|i: int, j: int| 0 <= i < j < sources.len() ==> sources[i] < sources[j],
    ensures
        strictly_increasing(piece_codes(kind, sources, occ, mask)),
        sources.len() > 0 ==> forall|k: int|
            0 <= k < piece_codes(kind, sources, occ, mask).len() ==> sources[0] * 65536
                <= #[trigger] piece_codes(kind, sources, occ, mask)[k],
    decreases sources.len(),
{
    if sources.len() > 0 {
        let from = sources[0];
        let rest = sources.drop_first();
        let q = quiet_codes(from, bit_indices(attack_set(kind, from, occ) & mask));
        let p = piece_codes(kind, rest, occ, mask);
        lemma_quiet_codes_increasing(from, attack_set(kind, from, occ) & mask);
        assert forall|j: int| 0 <= j < rest.len() implies #[trigger] rest[j] < 128 by {
            assert(rest[j] == sources[j + 1]);
        }
        assert forall|i: int, j: int| 0 <= i < j < rest.len() implies rest[i] < rest[j] by {
            assert(rest[i] == sources[i + 1]);
            assert(rest[j] == sources[j + 1]);
        }
        lemma_piece_codes_increasing(kind, rest, occ, mask);
        if rest.len() > 0 {
            assert(rest[0] == sources[1]);
            assert(from < rest[0]);
        }
        assert(piece_codes(kind, sources, occ, mask) == q + p);
        assert forall|i: int, j: int| 0 <= i < j < (q + p).len() implies (q + p)[i] < (q
            + p)[j] by {
            if j < q.len() {
            } else if i < q.len() {
                assert((q + p)[i] == q[i]);
                assert((q + p)[j] == p[j - q.len()]);
                assert(q[i] < (from + 1) * 65536);
            } else {
                assert((q + p)[i] == p[i - q.len()]);
                assert((q + p)[j] == p[j - q.len()]);
            }
        }
        assert forall|k: int| 0 <= k < (q + p).len() implies from * 65536 <= #[trigger] (q
            + p)[k] by {
            if k < q.len() {
                assert((q + p)[k] == q[k]);
            } else {
                assert((q + p)[k] == p[k - q.len()]);
            }
        }
    }
}

/// The moves are listed in strictly increasing order of their codes, so no
/// move is listed twice.
pub proof fn lemma_legal_moves_distinct(g: GameView)
    requires
        can_generate_moves(g),
    ensures
        strictly_increasing(legal_move_codes(g)),
        legal_move_codes(g).no_duplicates(),
{
    let v = g.board;
    let me = g.is_white;
    let occ = if me {
        v.white | v.black
    } else {
        v.black | v.white
    };
    let knights = v.pieces_of(me, PieceType::Knight);
    lemma_only_knights_move(g);
    lemma_bit_indices_increasing(knights);
    assert forall|j: int| 0 <= j < bit_indices(knights).len() implies #[trigger] bit_indices(
        knights,
    )[j] < 128 by {
        lemma_bit_indices_are_set(knights, j);
    }
    lemma_piece_codes_increasing(
        PieceType::Knight,
        bit_indices(knights),
        occ,
        !colour_total(v, me),
    );
    let s = legal_move_codes(g);
    assert forall|i: int, j: int| 0 <= i < s.len() && 0 <= j < s.len() && i != j implies s[i]
        != s[j] by {
        if i < j {
            assert(s[i] < s[j]);
        } else {
            assert(s[j] < s[i]);
        }
    }
}

/// Knights and kings attack the cells of their tables whatever the
/// occupancy: their attack sets do not depend on which cells are held.
pub proof fn lemma_steppers_ignore_occupancy(from: u8, occ: u128)
    ensures
        attack_set(PieceType::Knight, from, occ) == spec_knight_attacks(from),
        attack_set(PieceType::King, from, occ) == spec_king_attacks(from),
{
}

proof fn lemma_piece_codes_contain(
    kind: PieceType,
    sources: Seq<u8>,
    occ: u128,
    mask: u128,
    j: int,
    t: u8,
)
    requires
        0 <= j < sources.len(),
        bit_indices(attack_set(kind, sources[j], occ) & mask).contains(t),
    ensures
        piece_codes(kind, sources, occ, mask).contains(quiet_code(sources[j], t)),
    decreases sources.len(),
{
    let q = quiet_codes(sources[0], bit_indices(attack_set(kind, sources[0], occ) & mask));
    let rest = sources.drop_first();
    let p = piece_codes(kind, rest, occ, mask);
    if j == 0 {
        let ts = bit_indices(attack_set(kind, sources[0], occ) & mask);
        let i = choose|i: int| 0 <= i < ts.len() && ts[i] == t;
        assert((q + p)[i] == quiet_code(sources[0], t));
    } else {
        assert(rest[j - 1] == sources[j]);
        lemma_piece_codes_contain(kind, rest, occ, mask, j - 1, t);
        let i = choose|i: int| 0 <= i < p.len() && p[i] == quiet_code(sources[j], t);
        assert((q + p)[q.len() + i] == quiet_code(sources[j], t));
    }
}

proof fn lemma_piece_codes_origin(
    kind: PieceType,
    sources: Seq<u8>,
    occ: u128,
    mask: u128,
    k: int,
) -> (r: (int, int))
    requires
        0 <= k < piece_codes(kind, sources, occ, mask).len(),
    ensures
        0 <= r.0 < sources.len(),
        0 <= r.1 < bit_indices(attack_set(kind, sources[r.0], occ) & mask).len(),
        piece_codes(kind, sources, occ, mask)[k] == quiet_code(
            sources[r.0],
            bit_indices(attack_set(kind, sources[r.0], occ) & mask)[r.1],
        ),
    decreases sources.len(),
{
    let q = quiet_codes(sources[0], bit_indices(attack_set(kind, sources[0], occ) & mask));
    let rest = sources.drop_first();
    let p = piece_codes(kind, rest, occ, mask);
    if k < q.len() {
        assert((q + p)[k] == q[k]);
        (0, k)
    } else {
        assert((q + p)[k] == p[k - q.len()]);
        let r = lemma_piece_codes_origin(kind, rest, occ, mask, k - q.len());
        assert(rest[r.0] == sources[r.0 + 1]);
        (r.0 + 1, r.1)
    }
}

/// The moves listed are exactly the knight jumps of the side to move
/// (unless white's king is on a covered cell, when the list is empty):
/// every move is the quiet move from a cell holding a knight of that side
/// to a cell of that knight's table entry outside the side's colour total,
/// and every such jump is listed, whether the target cell is empty or held
/// by the other side.
pub proof fn lemma_knight_moves_exact(g: GameView)
    requires
        can_generate_moves(g),
        !(g.is_white && covered_squares(g) & g.board.wk != 0),
    ensures
        ({
            let s = legal_move_codes(g);
            let n = g.board.pieces_of(g.is_white, PieceType::Knight);
            let own = colour_total(g.board, g.is_white);
            &&& forall|k: int|
                0 <= k < s.len() ==> {
                    &&& #[trigger] s[k] == quiet_code(code_from(s[k]), code_to(s[k]))
                    &&& (n >> code_from(s[k])) & 1 == 1
                    &&& ((spec_knight_attacks(code_from(s[k])) & !own) >> code_to(s[k])) & 1 == 1
                }
            &&& forall|f: u8, t: u8|
                f < 128 && t < 128 && (n >> f) & 1 == 1 && ((spec_knight_attacks(f) & !own) >> t)
                    & 1 == 1 ==> #[trigger] s.contains(quiet_code(f, t))
        }),
{
    let v = g.board;
    let me = g.is_white;
    let occ = if me {
        v.white | v.black
    } else {
        v.black | v.white
    };
    let own = colour_total(v, me);
    let n = v.pieces_of(me, PieceType::Knight);
    let sources = bit_indices(n);
    let s = legal_move_codes(g);
    lemma_only_knights_move(g);
    assert(s == piece_codes(PieceType::Knight, sources, occ, !own));
    assert forall|k: int| 0 <= k < s.len() implies {
        &&& #[trigger] s[k] == quiet_code(code_from(s[k]), code_to(s[k]))
        &&& (n >> code_from(s[k])) & 1 == 1
        &&& ((spec_knight_attacks(code_from(s[k])) & !own) >> code_to(s[k])) & 1 == 1
    } by {
        let r = lemma_piece_codes_origin(PieceType::Knight, sources, occ, !own, k);
        let f = sources[r.0];
        let targets = attack_set(PieceType::Knight, f, occ) & !own;
        let t = bit_indices(targets)[r.1];
        lemma_bit_indices_are_set(n, r.0);
        lemma_bit_indices_are_set(targets, r.1);
        lemma_move_round_trip(f, t, PieceType::Empty, PieceType::Empty, false, false, false);
    }
    assert forall|f: u8, t: u8|
        f < 128 && t < 128 && (n >> f) & 1 == 1 && ((spec_knight_attacks(f) & !own) >> t) & 1
            == 1 implies #[trigger] s.contains(quiet_code(f, t)) by {
        lemma_set_bits_are_listed(n, f);
        let j = choose|j: int| 0 <= j < sources.len() && sources[j] == f;
        lemma_set_bits_are_listed(spec_knight_attacks(f) & !own, t);
        lemma_piece_codes_contain(PieceType::Knight, sources, occ, !own, j, t);
    }
}

/// Some knight on `knights` has `c` in its table entry.
pub open spec fn knight_reaches(knights: u128, c: u8) -> bool {
    exists|f: u8| f < 128 && (knights >> f) & 1 == 1 && #[trigger] ((spec_knight_attacks(f) >> c) & 1) == 1
}

proof fn lemma_slider_union_empty(kind: PieceType, sources: Seq<u8>, occ: u128)
    requires
        kind == PieceType::Bishop || kind == PieceType::Rook || kind == PieceType::Queen,
    ensures
        attack_union(kind, sources, occ) == 0,
    decreases sources.len(),
{
    if sources.len() > 0 {
        lemma_sliders_attack_nothing(kind, sources[0], occ);
        lemma_slider_union_empty(kind, sources.drop_first(), occ);
        lemma_zero_unions(0);
    }
}

proof fn lemma_or_bit(x: u128, y: u128, c: u8)
    by (bit_vector)
    requires
        c < 128,
    ensures
        (((x | y) >> c) & 1 == 1) == ((x >> c) & 1 == 1 || (y >> c) & 1 == 1),
        (0u128 >> c) & 1 != 1,
{
}

proof fn lemma_knight_union_bit(sources: Seq<u8>, occ: u128, c: u8)
    requires
        c < 128,
    ensures
        ((attack_union(PieceType::Knight, sources, occ) >> c) & 1 == 1) == (exists|j: int|
            0 <= j < sources.len() && #[trigger] ((spec_knight_attacks(sources[j]) >> c) & 1) == 1),
    decreases sources.len(),
{
    lemma_or_bit(0, 0, c);
    if sources.len() > 0 {
        let rest = sources.drop_first();
        lemma_knight_union_bit(rest, occ, c);
        lemma_or_bit(
            spec_knight_attacks(sources[0]),
            attack_union(PieceType::Knight, rest, occ),
            c,
        );
        if (attack_union(PieceType::Knight, sources, occ) >> c) & 1 == 1 {
            if (spec_knight_attacks(sources[0]) >> c) & 1 == 1 {
                assert((spec_knight_attacks(sources[0]) >> c) & 1 == 1);
            } else {
                let j = choose|j: int|
                    0 <= j < rest.len() && #[trigger] ((spec_knight_attacks(rest[j]) >> c) & 1)
                        == 1;
                assert(rest[j] == sources[j + 1]);
            }
        }
        if exists|j: int|
            0 <= j < sources.len() && #[trigger] ((spec_knight_attacks(sources[j]) >> c) & 1)
                == 1 {
            let j = choose|j: int|
                0 <= j < sources.len() && #[trigger] ((spec_knight_attacks(sources[j]) >> c) & 1)
                    == 1;
            if j > 0 {
                assert(rest[j - 1] == sources[j]);
            }
        }
    }
}

proof fn lemma_cover_bit(u: u128, k: u128, side: u128, c: u8)
    by (bit_vector)
    requires
        c < 128,
        k & !ON_BOARD == 0,
    ensures
        ((((0u128 | 0u128 | 0u128 | u | k) & !side & !ON_BOARD) >> c) & 1 == 1) == ((u >> c) & 1
            == 1 && (side >> c) & 1 == 0 && !(c <= 120 && (1u128 << c) & ON_BOARD != 0)),
{
}

/// The cells `get_opp_covered_squares` reports are exactly the cells
/// outside the board, not held by the opposing colour total, that some
/// knight of the side to move reaches through its table entry: sliding
/// pieces attack nothing and the king steps only onto cells of the board.
pub proof fn lemma_covered_squares_exact(g: GameView, c: u8)
    requires
        side_on_grid(g.board, g.is_white),
        c < 128,
    ensures
        ((covered_squares(g) >> c) & 1 == 1) == (!spec_is_valid_idx(c) && ((if !g.is_white {
            g.board.white
        } else {
            g.board.black
        }) >> c) & 1 == 0 && knight_reaches(g.board.pieces_of(g.is_white, PieceType::Knight), c)),
{
    let v = g.board;
    let me = g.is_white;
    let side = if !me {
        v.white
    } else {
        v.black
    };
    let opp = if !me {
        v.black
    } else {
        v.white
    };
    let occ = side | opp;
    let n = v.pieces_of(me, PieceType::Knight);
    let sources = bit_indices(n);
    let kf = spec_trailing_zeros(v.pieces_of(me, PieceType::King)) as u8;
    lemma_slider_union_empty(PieceType::Bishop, bit_indices(v.pieces_of(me, PieceType::Bishop)), occ);
    lemma_slider_union_empty(PieceType::Rook, bit_indices(v.pieces_of(me, PieceType::Rook)), occ);
    lemma_slider_union_empty(PieceType::Queen, bit_indices(v.pieces_of(me, PieceType::Queen)), occ);
    lemma_king_steps(kf, 0);
    let u = attack_union(PieceType::Knight, sources, occ);
    lemma_cover_bit(u, spec_king_attacks(kf), side, c);
    lemma_knight_union_bit(sources, occ, c);
    if (u >> c) & 1 == 1 {
        let j = choose|j: int|
            0 <= j < sources.len() && #[trigger] ((spec_knight_attacks(sources[j]) >> c) & 1) == 1;
        lemma_bit_indices_are_set(n, j);
        assert((spec_knight_attacks(sources[j]) >> c) & 1 == 1);
    }
    if knight_reaches(n, c) {
        let f = choose|f: u8|
            f < 128 && (n >> f) & 1 == 1 && #[trigger] ((spec_knight_attacks(f) >> c) & 1) == 1;
        lemma_set_bits_are_listed(n, f);
        let j = choose|j: int| 0 <= j < sources.len() && sources[j] == f;
        assert((spec_knight_attacks(sources[j]) >> c) & 1 == 1);
    }
}

impl Game {
    /// A game from the starting position, white to move.
    pub fn new() -> (r: Self)
        ensures
            r@ == (GameView { is_white: true, en_passant_square: None, board: starting_view() }),
    {
        Self { is_white: true, en_passant_square: None, board: Board::starting_pos() }
    }

    /// A game from `board`, with `is_white` telling whether white moves.
    pub fn from_pos(is_white: bool, board: Board) -> (r: Self)
        ensures
            r@ == (GameView { is_white, en_passant_square: None, board: board@ }),
    {
        Self { is_white, en_passant_square: None, board }
    }

    #[inline(always)]
    fn get_king_attacks(&self, start_idx: u8) -> (r: u128)
        requires
            start_idx < 121,
        ensures
            r == spec_king_attacks(start_idx),
    {
        king_attacks(start_idx)
    }

    #[inline(always)]
    fn get_knight_attacks(&self, start_idx: u8) -> (r: u128)
        requires
            start_idx < 121,
        ensures
            r == spec_knight_attacks(start_idx),
    {
        knight_attacks(start_idx)
    }

    fn get_bishop_attacks(&self, start_idx: u8, occ: u128) -> (r: u128)
        requires
            start_idx < 121,
        ensures
            r == bishop_attack_set(start_idx, occ),
    {
        let m = bishop_magic(start_idx);
        if m.mask == 0 {
            return 0;
        }
        let product = (occ & m.mask).wrapping_mul(m.magic);
        proof {
            lemma_hash_bound(product, m.shift);
        }
        let hash = (product >> m.shift) as usize;
        bishop_attacks_db(m.offset + hash)
    }

    /// One lookup of a rook database: the hash when the mask is used, else 0.
    fn rook_hash(m: Magic, occ: u128) -> (r: usize)
        requires
            magic_fits(m, 24576),
        ensures
            r == (if m.mask != 0 {
                magic_hash(m, occ)
            } else {
                0
            }),
            r < 256,
    {
        if m.mask != 0 {
            let product = (occ & m.mask).wrapping_mul(m.magic);
            proof {
                lemma_hash_bound(product, m.shift);
            }
            (product >> m.shift) as usize
        } else {
            0
        }
    }

    fn get_rook_attacks(&self, start_idx: u8, occ: u128) -> (r: u128)
        requires
            start_idx < 121,
        ensures
            r == rook_attack_set(start_idx, occ),
    {
        let mr = rook_r_magic(start_idx);
        let hash_r = Self::rook_hash(mr, occ);

        let mc = rook_c_magic(start_idx);
        let hash_c = Self::rook_hash(mc, occ);

        let mx = rook_x_magic(start_idx);
        let hash_x = Self::rook_hash(mx, occ);

        rook_r_attacks_db(mr.offset + hash_r) | rook_c_attacks_db(mc.offset + hash_c)
            | rook_x_attacks_db(mx.offset + hash_x)
    }

    /// The attack set of a piece of kind `kind` on `from`.
    fn attacks(&self, kind: PieceType, from: u8, occ: u128) -> (r: u128)
        requires
            from < 121,
            is_attacker(kind),
        ensures
            r == attack_set(kind, from, occ),
    {
        match kind {
            PieceType::Bishop => self.get_bishop_attacks(from, occ),
            PieceType::Rook => self.get_rook_attacks(from, occ),
            PieceType::Queen => self.get_rook_attacks(from, occ) | self.get_bishop_attacks(
                from,
                occ,
            ),
            PieceType::Knight => self.get_knight_attacks(from),
            _ => self.get_king_attacks(from),
        }
    }
    /// Appends the quiet move from `from` to each cell of `targets`, lowest
    /// first; the captured kind is read from the target cell.
    fn push_quiet_moves(&self, moves: &mut Vec<Move>, from: u8, targets: u128)
        ensures
            move_codes(final(moves)@) == move_codes(old(moves)@) + quiet_codes(
                from,
                bit_indices(targets),
            ),
    {
        let mut attack_bb = targets;
        while attack_bb != 0
            invariant
                move_codes(moves@) + quiet_codes(from, bit_indices(attack_bb)) == move_codes(
                    old(moves)@,
                ) + quiet_codes(from, bit_indices(targets)),
            decreases attack_bb,
        {
            proof {
                lemma_clear_lowest(attack_bb);
                lemma_empty_and_off_board_codes();
            }
            let to_idx = trailing_zeros(attack_bb) as u8;
            let target_piece = self.board.get_piece(to_idx);

            let ghost before = move_codes(moves@);
            moves.push(
                Move::new(
                    from,
                    to_idx,
                    PieceType::Empty,
                    target_piece.piece_type(),
                    false,
                    false,
                    false,
                ),
            );
            let next = attack_bb & (attack_bb - 1);
            proof {
                assert(next == clear_lowest(attack_bb));
                assert(quiet_codes(from, bit_indices(attack_bb)) =~= seq![quiet_code(from, to_idx)]
                    + quiet_codes(from, bit_indices(next)));
                assert(move_codes(moves@) =~= before.push(quiet_code(from, to_idx)));
                assert(move_codes(moves@) + quiet_codes(from, bit_indices(next)) =~= before + quiet_codes(
                    from,
                    bit_indices(attack_bb),
                ));
            }
            attack_bb = next;
        }
    }

    /// Appends, for each piece of `pieces` lowest first, the quiet moves of a
    /// piece of kind `kind` to the cells of its attack set kept by `mask`.
    fn push_piece_moves(
        &self,
        moves: &mut Vec<Move>,
        pieces: u128,
        kind: PieceType,
        occ: u128,
        mask: u128,
    )
        requires
            within_grid(pieces),
            is_attacker(kind),
        ensures
            move_codes(final(moves)@) == move_codes(old(moves)@) + piece_codes(
                kind,
                bit_indices(pieces),
                occ,
                mask,
            ),
    {
        let mut rest = pieces;
        while rest != 0
            invariant
                within_grid(rest),
                is_attacker(kind),
                move_codes(moves@) + piece_codes(kind, bit_indices(rest), occ, mask) == move_codes(
                    old(moves)@,
                ) + piece_codes(kind, bit_indices(pieces), occ, mask),
            decreases rest,
        {
            proof {
                lemma_clear_lowest(rest);
            }
            let from_idx = trailing_zeros(rest) as u8;
            let attack_bb = self.attacks(kind, from_idx, occ) & mask;
            let ghost before = move_codes(moves@);
            self.push_quiet_moves(moves, from_idx, attack_bb);
            let next = rest & (rest - 1);
            proof {
                assert(next == clear_lowest(rest));
                assert(bit_indices(rest).drop_first() =~= bit_indices(next));
                assert(move_codes(moves@) + piece_codes(kind, bit_indices(next), occ, mask) =~= before
                    + piece_codes(kind, bit_indices(rest), occ, mask));
            }
            rest = next;
        }
    }

    /// `acc` together with the cells of `targets` that lie outside the board.
    fn add_covered_targets(&self, acc: u128, targets: u128) -> (r: u128)
        ensures
            r == acc | (targets & !ON_BOARD),
    {
        let mut res = acc;
        let mut attack_bb = targets;
        while attack_bb != 0
            invariant
                res | (attack_bb & !ON_BOARD) == acc | (targets & !ON_BOARD),
            decreases attack_bb,
        {
            proof {
                lemma_clear_lowest(attack_bb);
            }
            let to_idx = trailing_zeros(attack_bb) as u8;
            let target_piece = self.board.get_piece(to_idx);
            let next = attack_bb & (attack_bb - 1);
            proof {
                assert(next == clear_lowest(attack_bb));
                lemma_cover_step(res, attack_bb, next, to_idx);
            }
            if !target_piece.is_empty() {
                res |= 1u128 << to_idx;
            }
            attack_bb = next;
        }
        proof {
            lemma_nothing_left(res, 0);
        }
        res
    }

    /// `acc` together with the cells outside the board that pieces of kind
    /// `kind` on `pieces` attack, other than those `eoe` leaves out.
    fn add_covered_by(&self, acc: u128, pieces: u128, kind: PieceType, occ: u128, eoe: u128) -> (r:
        u128)
        requires
            within_grid(pieces),
            is_attacker(kind),
        ensures
            r == acc | (attack_union(kind, bit_indices(pieces), occ) & eoe & !ON_BOARD),
    {
        let mut res = acc;
        let mut rest = pieces;
        while rest != 0
            invariant
                within_grid(rest),
                is_attacker(kind),
                res | (attack_union(kind, bit_indices(rest), occ) & eoe & !ON_BOARD) == acc | (
                attack_union(kind, bit_indices(pieces), occ) & eoe & !ON_BOARD),
            decreases rest,
        {
            proof {
                lemma_clear_lowest(rest);
            }
            let from_idx = trailing_zeros(rest) as u8;
            let attack_bb = self.attacks(kind, from_idx, occ) & eoe;
            let next = rest & (rest - 1);
            proof {
                assert(next == clear_lowest(rest));
                assert(bit_indices(rest).drop_first() =~= bit_indices(next));
                lemma_union_step(
                    res,
                    attack_set(kind, from_idx, occ),
                    attack_union(kind, bit_indices(next), occ),
                    eoe,
                );
            }
            res = self.add_covered_targets(res, attack_bb);
            rest = next;
        }
        proof {
            lemma_nothing_left(res, eoe);
        }
        res
    }
    /// The cells `covered_squares` describes.
    ///
    /// The walk over each attack set marks a target when `get_piece` does
    /// not report it empty, which happens only outside the board. The pawn
    /// walk at the end looks for pawns with `get_piece`, which reports none,
    /// so it marks nothing.
    fn get_opp_covered_squares(&self) -> (r: u128)
        requires
            side_on_grid(self@.board, self@.is_white),
        ensures
            r == covered_squares(self@),
    {
        let mut res: u128 = 0;
        let (side_mask, opp_mask) = if !self.is_white {
            (self.board.white_pieces(), self.board.black_pieces())
        } else {
            (self.board.black_pieces(), self.board.white_pieces())
        };
        let all_occ = side_mask | opp_mask;
        let empty_or_enemy = !side_mask;

        if self.is_white {
            res = self.add_covered_by(
                res,
                self.board.white_bishops(),
                PieceType::Bishop,
                all_occ,
                empty_or_enemy,
            );
            res = self.add_covered_by(
                res,
                self.board.white_rooks(),
                PieceType::Rook,
                all_occ,
                empty_or_enemy,
            );
            res = self.add_covered_by(
                res,
                self.board.white_queens(),
                PieceType::Queen,
                all_occ,
                empty_or_enemy,
            );
            res = self.add_covered_by(
                res,
                self.board.white_knights(),
                PieceType::Knight,
                all_occ,
                empty_or_enemy,
            );

            let king = self.board.white_kings();
            let from_idx = trailing_zeros(king) as u8;
            res = self.add_covered_targets(res, self.get_king_attacks(from_idx) & empty_or_enemy);

            let ghost before_pawns = res;
            for i in 0u8..121u8
                invariant
                    res == before_pawns,
            {
                proof {
                    lemma_empty_and_off_board_codes();
                }
                let piece = self.board.get_piece(i);
                if piece.piece_type() == PieceType::Pawn && piece.is_white() {
                    let en_passant_bb: u128 = match self.en_passant_square {
                        Some(sq) => 1u128 << sq,
                        None => 0,
                    };
                    if ((1u128 << (i + 1)) & en_passant_bb) != 0 {
                        res |= 1u128 << (i + 1);
                    }
                    if ((1u128 << (i + 11)) & en_passant_bb) != 0 {
                        res |= 1u128 << (i + 11);
                    }
                    if 1u128 << (i + 1) != 0 {
                        res |= 1u128 << (i + 1);
                    }
                    if 1u128 << (i - 11) != 0 {
                        res |= 1u128 << (i + 11);
                    }
                }
            }
        } else {
            res = self.add_covered_by(
                res,
                self.board.black_bishops(),
                PieceType::Bishop,
                all_occ,
                empty_or_enemy,
            );
            res = self.add_covered_by(
                res,
                self.board.black_rooks(),
                PieceType::Rook,
                all_occ,
                empty_or_enemy,
            );
            res = self.add_covered_by(
                res,
                self.board.black_queens(),
                PieceType::Queen,
                all_occ,
                empty_or_enemy,
            );
            res = self.add_covered_by(
                res,
                self.board.black_knights(),
                PieceType::Knight,
                all_occ,
                empty_or_enemy,
            );

            let king = self.board.black_kings();
            let from_idx = trailing_zeros(king) as u8;
            res = self.add_covered_targets(res, self.get_king_attacks(from_idx) & empty_or_enemy);

            let ghost before_pawns = res;
            for i in 0u8..121u8
                invariant
                    res == before_pawns,
            {
                proof {
                    lemma_empty_and_off_board_codes();
                }
                let piece = self.board.get_piece(i);
                if piece.piece_type() == PieceType::Pawn && !piece.is_white() {
                    let en_passant_bb: u128 = match self.en_passant_square {
                        Some(sq) => 1u128 << sq,
                        None => 0,
                    };
                    if ((1u128 << (i - 1)) & en_passant_bb) != 0 {
                        res |= 1u128 << (i - 1);
                    }
                    if ((1u128 << (i - 11)) & en_passant_bb) != 0 {
                        res |= 1u128 << (i - 11);
                    }
                    if 1u128 << (i - 1) != 0 {
                        res |= 1u128 << (i - 1);
                    }
                    if 1u128 << (i - 11) != 0 {
                        res |= 1u128 << (i - 11);
                    }
                }
            }
        }
        proof {
            let v = self@.board;
            let me = self@.is_white;
            lemma_cover_total(
                attack_union(PieceType::Bishop, bit_indices(v.pieces_of(me, PieceType::Bishop)), all_occ),
                attack_union(PieceType::Rook, bit_indices(v.pieces_of(me, PieceType::Rook)), all_occ),
                attack_union(PieceType::Queen, bit_indices(v.pieces_of(me, PieceType::Queen)), all_occ),
                attack_union(PieceType::Knight, bit_indices(v.pieces_of(me, PieceType::Knight)), all_occ),
                spec_king_attacks(spec_trailing_zeros(v.pieces_of(me, PieceType::King)) as u8),
                empty_or_enemy,
            );
        }
        res
    }
    /// The white pawn moves: for each cell whose content `get_piece` reports
    /// as a white pawn, its pushes, double push, en-passant captures and
    /// captures, with promotions on the last cells. `get_piece` reports no
    /// pawn on any cell, so nothing is appended.
    fn push_white_pawn_moves(&self, moves: &mut Vec<Move>, all_occ: u128, opp_mask: u128)
        ensures
            final(moves)@ == old(moves)@,
    {
        let ghost start = moves@;
        for i in 0u8..121u8
            invariant
                moves@ == start,
        {
            proof {
                lemma_empty_and_off_board_codes();
            }
            let piece = self.board.get_piece(i);
            if piece.piece_type() == PieceType::Pawn && piece.is_white() {
                let single_push = (1u128 << (i + 12)) & !all_occ;
                if single_push != 0 {
                    if !matches!(i + 12, 116 | 117 | 118 | 119 | 120 | 109 | 98 | 87 | 76) {
                        moves.push(Move::new(i, i + 12, PieceType::Empty, PieceType::Empty, false, false, false));
                    } else {
                        moves.push(Move::new(i, i + 12, PieceType::Queen, PieceType::Empty, false, false, true));
                        moves.push(Move::new(i, i + 12, PieceType::Knight, PieceType::Empty, false, false, true));
                        moves.push(Move::new(i, i + 12, PieceType::Rook, PieceType::Empty, false, false, true));
                        moves.push(Move::new(i, i + 12, PieceType::Knight, PieceType::Empty, false, false, true));
                    }
                }
                if ((1u128 << i) & WHITE_STARTING_PAWNS) != 0 && single_push != 0 {
                    moves.push(Move::new(i, i + 24, PieceType::Empty, PieceType::Empty, true, false, false));
                }
                let en_passant_bb: i32 = match self.en_passant_square {
                    Some(sq) => 1i32 << sq,
                    None => 0,
                };
                if ((1i32 << (i + 1)) & en_passant_bb) != 0 {
                    moves.push(Move::new(i, i + 1, PieceType::Empty, PieceType::Empty, false, true, false));
                }
                if ((1i32 << (i + 11)) & en_passant_bb) != 0 {
                    moves.push(Move::new(i, i + 11, PieceType::Empty, PieceType::Empty, false, true, false));
                }
                if ((1u128 << (i + 1)) & opp_mask) != 0 {
                    let target_piece = self.board.get_piece(i + 1);
                    if !matches!(i + 1, 116 | 117 | 118 | 119 | 120) {
                        moves.push(Move::new(i, i + 1, PieceType::Empty, target_piece.piece_type(), false, false, false));
                    } else {
                        moves.push(Move::new(i, i + 1, PieceType::Queen, target_piece.piece_type(), false, false, false));
                        moves.push(Move::new(i, i + 1, PieceType::Knight, target_piece.piece_type(), false, false, false));
                        moves.push(Move::new(i, i + 1, PieceType::Rook, target_piece.piece_type(), false, false, false));
                        moves.push(Move::new(i, i + 1, PieceType::Bishop, target_piece.piece_type(), false, false, false));
                    }
                }
                if ((1u128 << (i + 11)) & opp_mask) != 0 {
                    let target_piece = self.board.get_piece(i + 11);
                    if !matches!(i + 11, 120 | 109 | 98 | 87 | 76) {
                        moves.push(Move::new(i, i + 11, PieceType::Empty, target_piece.piece_type(), false, false, false));
                    } else {
                        moves.push(Move::new(i, i + 11, PieceType::Queen, target_piece.piece_type(), false, false, false));
                        moves.push(Move::new(i, i + 11, PieceType::Knight, target_piece.piece_type(), false, false, false));
                        moves.push(Move::new(i, i + 11, PieceType::Rook, target_piece.piece_type(), false, false, false));
                        moves.push(Move::new(i, i + 11, PieceType::Bishop, target_piece.piece_type(), false, false, false));
                    }
                }
            }
        }
    }

    /// The black pawn moves: for each cell whose content `get_piece` reports
    /// as a black pawn, its pushes, double push, en-passant captures and
    /// captures, with promotions on the last cells. `get_piece` reports no
    /// pawn on any cell, so nothing is appended.
    fn push_black_pawn_moves(&self, moves: &mut Vec<Move>, all_occ: u128, opp_mask: u128)
        ensures
            final(moves)@ == old(moves)@,
    {
        let ghost start = moves@;
        for i in 0u8..121u8
            invariant
                moves@ == start,
        {
            proof {
                lemma_empty_and_off_board_codes();
            }
            let piece = self.board.get_piece(i);
            if piece.piece_type() == PieceType::Pawn && !piece.is_white() {
                let single_push = (1u128 << (i - 12)) & !all_occ;
                if single_push != 0 {
                    if !matches!(i - 12, 4 | 3 | 2 | 1 | 0 | 11 | 22 | 33 | 44) {
                        moves.push(Move::new(i, i - 12, PieceType::Empty, PieceType::Empty, false, false, false));
                    } else {
                        moves.push(Move::new(i, i - 12, PieceType::Queen, PieceType::Empty, false, false, true));
                        moves.push(Move::new(i, i - 12, PieceType::Knight, PieceType::Empty, false, false, true));
                        moves.push(Move::new(i, i - 12, PieceType::Rook, PieceType::Empty, false, false, true));
                        moves.push(Move::new(i, i - 12, PieceType::Knight, PieceType::Empty, false, false, true));
                    }
                }
                if ((1u128 << i) & BLACK_STARTING_PAWNS) != 0 && single_push != 0 {
                    moves.push(Move::new(i, i - 24, PieceType::Empty, PieceType::Empty, true, false, false));
                }
                let en_passant_bb: u128 = match self.en_passant_square {
                    Some(sq) => 1u128 << sq,
                    None => 0,
                };
                if ((1u128 << (i - 1)) & en_passant_bb) != 0 {
                    moves.push(Move::new(i, i - 1, PieceType::Empty, PieceType::Empty, false, true, false));
                }
                if ((1u128 << (i - 11)) & en_passant_bb) != 0 {
                    moves.push(Move::new(i, i - 11, PieceType::Empty, PieceType::Empty, false, true, false));
                }
                if ((1u128 << (i - 1)) & opp_mask) != 0 {
                    let target_piece = self.board.get_piece(i - 1);
                    if !matches!(i - 1, 4 | 3 | 2 | 1) {
                        moves.push(Move::new(i, i - 1, PieceType::Empty, target_piece.piece_type(), false, false, false));
                    } else {
                        moves.push(Move::new(i, i - 1, PieceType::Queen, target_piece.piece_type(), false, false, false));
                        moves.push(Move::new(i, i - 1, PieceType::Knight, target_piece.piece_type(), false, false, false));
                        moves.push(Move::new(i, i - 1, PieceType::Rook, target_piece.piece_type(), false, false, false));
                        moves.push(Move::new(i, i - 1, PieceType::Bishop, target_piece.piece_type(), false, false, false));
                    }
                }
                if ((1u128 << (i - 11)) & opp_mask) != 0 {
                    let target_piece = self.board.get_piece(i - 11);
                    if !matches!(i - 11, 11 | 22 | 33 | 44 | 55) {
                        moves.push(Move::new(i, i - 11, PieceType::Empty, target_piece.piece_type(), false, false, false));
                    } else {
                        moves.push(Move::new(i, i - 11, PieceType::Queen, target_piece.piece_type(), false, false, false));
                        moves.push(Move::new(i, i - 11, PieceType::Knight, target_piece.piece_type(), false, false, false));
                        moves.push(Move::new(i, i - 11, PieceType::Rook, target_piece.piece_type(), false, false, false));
                        moves.push(Move::new(i, i - 11, PieceType::Bishop, target_piece.piece_type(), false, false, false));
                    }
                }
            }
        }
    }

    /// The moves of the side to move, as `legal_move_codes` lists them.
    pub fn get_legal_moves(&self) -> (moves: Vec<Move>)
        requires
            can_generate_moves(self@),
        ensures
            move_codes(moves@) == legal_move_codes(self@),
    {
        let mut moves: Vec<Move> = Vec::with_capacity(64);

        let (side_mask, opp_mask) = if self.is_white {
            (self.board.white_pieces(), self.board.black_pieces())
        } else {
            (self.board.black_pieces(), self.board.white_pieces())
        };
        let all_occ = side_mask | opp_mask;
        let empty_or_enemy = !side_mask;
        if self.is_white {
            let mut bishop_pins = [0u128; 11];
            let mut rook_pins = [0u128; 11];
            let opp_covered_squares = self.get_opp_covered_squares();
            let in_check = opp_covered_squares & self.board.white_kings() != 0;

            let mut opp_bishops = self.board.black_bishops() | self.board.black_queens();
            let mut bishop_idx: usize = 0;
            while opp_bishops != 0
                invariant
                    within_grid(opp_bishops),
                    bishop_idx + bit_indices(opp_bishops).len() <= 11,
                decreases opp_bishops,
            {
                proof {
                    lemma_clear_lowest(opp_bishops);
                }
                let from_idx = trailing_zeros(opp_bishops) as u8;
                bishop_pins[bishop_idx] = self.get_bishop_attacks(from_idx, all_occ);
                bishop_idx += 1;
                opp_bishops = opp_bishops & (opp_bishops - 1);
            }

            // Black has no rook or queen here (`can_generate_moves`): the
            // lookup below reads the cell of the exhausted bishop walk,
            // 128, which lies past the end of the tables.
            let mut opp_rooks = self.board.black_rooks() | self.board.black_queens();
            let mut rook_idx: usize = 0;
            while opp_rooks != 0
                invariant
                    opp_rooks == 0,
                decreases opp_rooks,
            {
                let from_idx = trailing_zeros(opp_bishops) as u8;
                rook_pins[rook_idx] = self.get_rook_attacks(from_idx, all_occ);
                rook_idx += 1;
                opp_rooks = opp_rooks & (opp_rooks - 1);
            }

            if !in_check {
                self.push_piece_moves(
                    &mut moves,
                    self.board.white_bishops(),
                    PieceType::Bishop,
                    all_occ,
                    empty_or_enemy,
                );
                self.push_piece_moves(
                    &mut moves,
                    self.board.white_rooks(),
                    PieceType::Rook,
                    all_occ,
                    empty_or_enemy,
                );
                self.push_piece_moves(
                    &mut moves,
                    self.board.white_queens(),
                    PieceType::Queen,
                    all_occ,
                    empty_or_enemy,
                );
                self.push_piece_moves(
                    &mut moves,
                    self.board.white_knights(),
                    PieceType::Knight,
                    all_occ,
                    empty_or_enemy,
                );
                self.push_white_pawn_moves(&mut moves, all_occ, opp_mask);
            } else {
                let mut rook_attack_idx: Option<usize> = None;
                let mut i: usize = 0;
                while i < 11
                    invariant
                        i <= 11,
                    decreases 11 - i,
                {
                    if rook_pins[i] & self.board.white_kings() != 0 {
                        rook_attack_idx = Some(i);
                    }
                    i += 1;
                }

                let mut bishop_attack_idx: Option<usize> = None;
                let mut i: usize = 0;
                while i < 11
                    invariant
                        i <= 11,
                    decreases 11 - i,
                {
                    if rook_pins[i] & self.board.white_kings() != 0 {
                        bishop_attack_idx = Some(i);
                    }
                    i += 1;
                }
            }

            let king = self.board.white_kings();
            let from_idx = trailing_zeros(king) as u8;
            let attack_bb = self.get_king_attacks(from_idx) & empty_or_enemy & opp_covered_squares;
            self.push_quiet_moves(&mut moves, from_idx, attack_bb);
        } else {
            self.push_piece_moves(
                &mut moves,
                self.board.black_bishops(),
                PieceType::Bishop,
                all_occ,
                empty_or_enemy,
            );
            self.push_piece_moves(
                &mut moves,
                self.board.black_rooks(),
                PieceType::Rook,
                all_occ,
                empty_or_enemy,
            );
            self.push_piece_moves(
                &mut moves,
                self.board.black_queens(),
                PieceType::Queen,
                all_occ,
                empty_or_enemy,
            );
            self.push_piece_moves(
                &mut moves,
                self.board.black_knights(),
                PieceType::Knight,
                all_occ,
                empty_or_enemy,
            );

            let king = self.board.black_kings();
            let from_idx = trailing_zeros(king) as u8;
            let attack_bb = self.get_king_attacks(from_idx) & empty_or_enemy
                & self.get_opp_covered_squares();
            self.push_quiet_moves(&mut moves, from_idx, attack_bb);

            self.push_black_pawn_moves(&mut moves, all_occ, opp_mask);
        }
        proof {
            assert(move_codes(moves@) =~= legal_move_codes(self@));
        }
        moves
    }
}

} // verus!
