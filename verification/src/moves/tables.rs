//! The precomputed tables of move generation: knight and king steps per
//! cell, and the magic-multiplication parameters of the sliding pieces.
//! Cells outside the board have no entry (zero steps, zero mask).
use vstd::prelude::*;

use crate::board::{spec_is_valid_idx, ON_BOARD};

verus! {

/// Parameters of a magic-multiplication lookup for one cell: the relevant
/// occupancy `mask`, the `magic` factor, the right `shift` of the product and
/// the `offset` of the cell's block in the attack database.
#[derive(Debug, Clone, Copy)]
pub struct Magic {
    pub mask: u128,
    pub magic: u128,
    pub shift: u32,
    pub offset: usize,
}

/// A magic entry whose lookups stay inside a database of `len` entries:
/// the shift is at least 120, so a hash is below 256, and is below 128
/// whenever the mask is used.
pub open spec fn magic_fits(m: Magic, len: usize) -> bool {
    &&& 120 <= m.shift <= 128
    &&& m.mask != 0 ==> m.shift < 128
    &&& m.offset + 256 <= len
}

/// Cells a knight on `idx` reaches.
pub open spec fn spec_knight_attacks(idx: u8) -> u128 {
    match idx {
        0 => 0x00000000000000000000000C02004000,
        1 => 0x00000000000000000000001804408000,
        2 => 0x00000000000000000000003008810800,
        3 => 0x00000000000000000000006011021000,
        4 => 0x0000000000000000000000C022002000,
        5 => 0x00000000000000000000018004004000,
        11 => 0x00000000000000000000601002000004,
        12 => 0x00000000000000000000C02204000008,
        13 => 0x00000000000000000001804408400010,
        14 => 0x00000000000000000003008810800021,
        15 => 0x00000000000000000006011021000002,
        16 => 0x0000000000000000000C022002000004,
        17 => 0x00000000000000000018004004000008,
        22 => 0x00000000000000000300801000002002,
        23 => 0x00000000000000000601102000004004,
        24 => 0x00000000000000000C02204200008008,
        25 => 0x00000000000000001804408400010811,
        26 => 0x00000000000000003008810800021022,
        27 => 0x00000000000000006011021000002004,
        28 => 0x0000000000000000C022002000004008,
        29 => 0x00000000000000018004004000008010,
        33 => 0x00000000000000180400800001001000,
        34 => 0x00000000000000300881000002002001,
        35 => 0x00000000000000601102100004004003,
        36 => 0x00000000000000C02204200008408806,
        37 => 0x0000000000000180440840001081100C,
        38 => 0x00000000000003008810800021022018,
        39 => 0x00000000000006011021000002004030,
        40 => 0x0000000000000C022002000004008020,
        41 => 0x00000000000018004004000008010000,
        44 => 0x00000000000080200400000800800000,
        45 => 0x00000000000180400800001001000800,
        46 => 0x00000000000300881080002002001800,
        47 => 0x00000000000601102100004204403000,
        48 => 0x00000000000C02204200008408806000,
        49 => 0x0000000000180440840001081100C000,
        50 => 0x00000000003008810800021022018000,
        51 => 0x00000000006011021000002004030000,
        52 => 0x0000000000C002002000004008020000,
        53 => 0x00000000008004004000008010000000,
        55 => 0x00000000000100200000400400000000,
        56 => 0x00000000080200400000800800400000,
        57 => 0x00000000180400800001001000C00000,
        58 => 0x00000000300881080002102201800000,
        59 => 0x00000000601102100004204403000000,
        60 => 0x00000000C02204200008408806000000,
        61 => 0x0000000180440840001081100C000000,
        62 => 0x00000003008810800021022018000000,
        63 => 0x00000006001001000002004030000000,
        64 => 0x00000004002002000004008020000000,
        65 => 0x00000000004004000008010000000000,
        67 => 0x00000000100200000400400200000000,
        68 => 0x00000008020040000080080060000000,
        69 => 0x00000180400800001081100C00000000,
        70 => 0x00000300881080002102201800000000,
        71 => 0x00000601102100004204403000000000,
        72 => 0x00000C02204200008408806000000000,
        73 => 0x0000180440840001081100C000000000,
        74 => 0x00003000800800021022018000000000,
        75 => 0x00002001001000002004030000000000,
        76 => 0x00000002002000004008020000000000,
        79 => 0x00000100200000400400300000000000,
        80 => 0x00080200400000800880600000000000,
        81 => 0x00180400800001081100C00000000000,
        82 => 0x00300881080002102201800000000000,
        83 => 0x00601102100004204403000000000000,
        84 => 0x00C02204200008408806000000000000,
        85 => 0x0180040040001081100C000000000000,
        86 => 0x01000800800001022018000000000000,
        87 => 0x00001001000002004030000000000000,
        91 => 0x00100200000400400300000000000000,
        92 => 0x00200400000800880600000000000000,
        93 => 0x00400800001081100C00000000000000,
        94 => 0x00881080002102201800000000000000,
        95 => 0x01102100004204403000000000000000,
        96 => 0x00200200008408806000000000000000,
        97 => 0x0040040000081100C000000000000000,
        98 => 0x00800800001002018000000000000000,
        103 => 0x00200000400400300000000000000000,
        104 => 0x00400000800880600000000000000000,
        105 => 0x00800001081100C00000000000000000,
        106 => 0x01080002102201800000000000000000,
        107 => 0x00100004204403000000000000000000,
        108 => 0x00200000408806000000000000000000,
        109 => 0x0040000080100C000000000000000000,
        115 => 0x00000400400300000000000000000000,
        116 => 0x00000800880600000000000000000000,
        117 => 0x00001081100C00000000000000000000,
        118 => 0x00002102201800000000000000000000,
        119 => 0x00000204403000000000000000000000,
        120 => 0x00000400806000000000000000000000,
        _ => 0,
    }
}

pub(crate) fn knight_attacks(idx: u8) -> (r: u128)
    requires
        idx < 121,
    ensures
        r == spec_knight_attacks(idx),
{
    match idx {
        0 => 0x00000000000000000000000C02004000,
        1 => 0x00000000000000000000001804408000,
        2 => 0x00000000000000000000003008810800,
        3 => 0x00000000000000000000006011021000,
        4 => 0x0000000000000000000000C022002000,
        5 => 0x00000000000000000000018004004000,
        11 => 0x00000000000000000000601002000004,
        12 => 0x00000000000000000000C02204000008,
        13 => 0x00000000000000000001804408400010,
        14 => 0x00000000000000000003008810800021,
        15 => 0x00000000000000000006011021000002,
        16 => 0x0000000000000000000C022002000004,
        17 => 0x00000000000000000018004004000008,
        22 => 0x00000000000000000300801000002002,
        23 => 0x00000000000000000601102000004004,
        24 => 0x00000000000000000C02204200008008,
        25 => 0x00000000000000001804408400010811,
        26 => 0x00000000000000003008810800021022,
        27 => 0x00000000000000006011021000002004,
        28 => 0x0000000000000000C022002000004008,
        29 => 0x00000000000000018004004000008010,
        33 => 0x00000000000000180400800001001000,
        34 => 0x00000000000000300881000002002001,
        35 => 0x00000000000000601102100004004003,
        36 => 0x00000000000000C02204200008408806,
        37 => 0x0000000000000180440840001081100C,
        38 => 0x00000000000003008810800021022018,
        39 => 0x00000000000006011021000002004030,
        40 => 0x0000000000000C022002000004008020,
        41 => 0x00000000000018004004000008010000,
        44 => 0x00000000000080200400000800800000,
        45 => 0x00000000000180400800001001000800,
        46 => 0x00000000000300881080002002001800,
        47 => 0x00000000000601102100004204403000,
        48 => 0x00000000000C02204200008408806000,
        49 => 0x0000000000180440840001081100C000,
        50 => 0x00000000003008810800021022018000,
        51 => 0x00000000006011021000002004030000,
        52 => 0x0000000000C002002000004008020000,
        53 => 0x00000000008004004000008010000000,
        55 => 0x00000000000100200000400400000000,
        56 => 0x00000000080200400000800800400000,
        57 => 0x00000000180400800001001000C00000,
        58 => 0x00000000300881080002102201800000,
        59 => 0x00000000601102100004204403000000,
        60 => 0x00000000C02204200008408806000000,
        61 => 0x0000000180440840001081100C000000,
        62 => 0x00000003008810800021022018000000,
        63 => 0x00000006001001000002004030000000,
        64 => 0x00000004002002000004008020000000,
        65 => 0x00000000004004000008010000000000,
        67 => 0x00000000100200000400400200000000,
        68 => 0x00000008020040000080080060000000,
        69 => 0x00000180400800001081100C00000000,
        70 => 0x00000300881080002102201800000000,
        71 => 0x00000601102100004204403000000000,
        72 => 0x00000C02204200008408806000000000,
        73 => 0x0000180440840001081100C000000000,
        74 => 0x00003000800800021022018000000000,
        75 => 0x00002001001000002004030000000000,
        76 => 0x00000002002000004008020000000000,
        79 => 0x00000100200000400400300000000000,
        80 => 0x00080200400000800880600000000000,
        81 => 0x00180400800001081100C00000000000,
        82 => 0x00300881080002102201800000000000,
        83 => 0x00601102100004204403000000000000,
        84 => 0x00C02204200008408806000000000000,
        85 => 0x0180040040001081100C000000000000,
        86 => 0x01000800800001022018000000000000,
        87 => 0x00001001000002004030000000000000,
        91 => 0x00100200000400400300000000000000,
        92 => 0x00200400000800880600000000000000,
        93 => 0x00400800001081100C00000000000000,
        94 => 0x00881080002102201800000000000000,
        95 => 0x01102100004204403000000000000000,
        96 => 0x00200200008408806000000000000000,
        97 => 0x0040040000081100C000000000000000,
        98 => 0x00800800001002018000000000000000,
        103 => 0x00200000400400300000000000000000,
        104 => 0x00400000800880600000000000000000,
        105 => 0x00800001081100C00000000000000000,
        106 => 0x01080002102201800000000000000000,
        107 => 0x00100004204403000000000000000000,
        108 => 0x00200000408806000000000000000000,
        109 => 0x0040000080100C000000000000000000,
        115 => 0x00000400400300000000000000000000,
        116 => 0x00000800880600000000000000000000,
        117 => 0x00001081100C00000000000000000000,
        118 => 0x00002102201800000000000000000000,
        119 => 0x00000204403000000000000000000000,
        120 => 0x00000400806000000000000000000000,
        _ => 0,
    }
}

/// Cells a king on `idx` reaches.
pub open spec fn spec_king_attacks(idx: u8) -> u128 {
    match idx {
        0 => 0x00000000000000000000000000803802,
        1 => 0x00000000000000000000000001007805,
        2 => 0x0000000000000000000000000200F00A,
        3 => 0x0000000000000000000000000401E014,
        4 => 0x0000000000000000000000000803C028,
        5 => 0x00000000000000000000000010038010,
        11 => 0x00000000000000000000000401C01003,
        12 => 0x00000000000000000000000803C02807,
        13 => 0x0000000000000000000000100780500F,
        14 => 0x0000000000000000000000200F00A01E,
        15 => 0x0000000000000000000000401E01403C,
        16 => 0x0000000000000000000000803C028038,
        17 => 0x00000000000000000000010038010030,
        22 => 0x00000000000000000000200E00801800,
        23 => 0x00000000000000000000401E01403801,
        24 => 0x00000000000000000000803C02807802,
        25 => 0x0000000000000000000100780500F004,
        26 => 0x0000000000000000000200F00A01E008,
        27 => 0x0000000000000000000401E01403C010,
        28 => 0x0000000000000000000803C028038020,
        29 => 0x00000000000000000010038010030000,
        33 => 0x00000000000000000100700400C00000,
        34 => 0x00000000000000000200F00A01C00800,
        35 => 0x00000000000000000401E01403C01000,
        36 => 0x00000000000000000803C02807802000,
        37 => 0x0000000000000000100780500F004000,
        38 => 0x0000000000000000200F00A01E008000,
        39 => 0x0000000000000000401E01403C010000,
        40 => 0x0000000000000000803C028038020000,
        41 => 0x00000000000000010038010030000000,
        44 => 0x00000000000000080380200600000000,
        45 => 0x00000000000000100780500E00400000,
        46 => 0x00000000000000200F00A01E00800000,
        47 => 0x00000000000000401E01403C01000000,
        48 => 0x00000000000000803C02807802000000,
        49 => 0x0000000000000100780500F004000000,
        50 => 0x0000000000000200F00A01E008000000,
        51 => 0x0000000000000401E01403C010000000,
        52 => 0x0000000000000803C028038020000000,
        53 => 0x00000000000010038010030000000000,
        55 => 0x00000000000000180100300000000000,
        56 => 0x00000000000080380280700200000000,
        57 => 0x00000000000100780500F00400000000,
        58 => 0x00000000000200F00A01E00800000000,
        59 => 0x00000000000401E01403C01000000000,
        60 => 0x00000000000803C02807802000000000,
        61 => 0x0000000000100780500F004000000000,
        62 => 0x0000000000200F00A01E008000000000,
        63 => 0x0000000000401E01403C010000000000,
        64 => 0x0000000000801C028038020000000000,
        65 => 0x00000000000018010030000000000000,
        67 => 0x00000000000180100380100000000000,
        68 => 0x00000000080380280780200000000000,
        69 => 0x00000000100780500F00400000000000,
        70 => 0x00000000200F00A01E00800000000000,
        71 => 0x00000000401E01403C01000000000000,
        72 => 0x00000000803C02807802000000000000,
        73 => 0x0000000100780500F004000000000000,
        74 => 0x0000000200F00A01E008000000000000,
        75 => 0x0000000400E01403C010000000000000,
        76 => 0x0000000000C008038020000000000000,
        79 => 0x00000000180100380100000000000000,
        80 => 0x00000080380280780200000000000000,
        81 => 0x00000100780500F00400000000000000,
        82 => 0x00000200F00A01E00800000000000000,
        83 => 0x00000401E01403C01000000000000000,
        84 => 0x00000803C02807802000000000000000,
        85 => 0x0000100780500F004000000000000000,
        86 => 0x0000200700A01E008000000000000000,
        87 => 0x0000000600401C010000000000000000,
        91 => 0x00000180100380100000000000000000,
        92 => 0x00080380280780200000000000000000,
        93 => 0x00100780500F00400000000000000000,
        94 => 0x00200F00A01E00800000000000000000,
        95 => 0x00401E01403C01000000000000000000,
        96 => 0x00803C02807802000000000000000000,
        97 => 0x0100380500F004000000000000000000,
        98 => 0x0000300200E008000000000000000000,
        103 => 0x00180100380100000000000000000000,
        104 => 0x00380280780200000000000000000000,
        105 => 0x00780500F00400000000000000000000,
        106 => 0x00F00A01E00800000000000000000000,
        107 => 0x01E01403C01000000000000000000000,
        108 => 0x01C02807802000000000000000000000,
        109 => 0x01801007004000000000000000000000,
        115 => 0x00100380100000000000000000000000,
        116 => 0x00280780200000000000000000000000,
        117 => 0x00500F00400000000000000000000000,
        118 => 0x00A01E00800000000000000000000000,
        119 => 0x01403C01000000000000000000000000,
        120 => 0x00803802000000000000000000000000,
        _ => 0,
    }
}

pub(crate) fn king_attacks(idx: u8) -> (r: u128)
    requires
        idx < 121,
    ensures
        r == spec_king_attacks(idx),
{
    match idx {
        0 => 0x00000000000000000000000000803802,
        1 => 0x00000000000000000000000001007805,
        2 => 0x0000000000000000000000000200F00A,
        3 => 0x0000000000000000000000000401E014,
        4 => 0x0000000000000000000000000803C028,
        5 => 0x00000000000000000000000010038010,
        11 => 0x00000000000000000000000401C01003,
        12 => 0x00000000000000000000000803C02807,
        13 => 0x0000000000000000000000100780500F,
        14 => 0x0000000000000000000000200F00A01E,
        15 => 0x0000000000000000000000401E01403C,
        16 => 0x0000000000000000000000803C028038,
        17 => 0x00000000000000000000010038010030,
        22 => 0x00000000000000000000200E00801800,
        23 => 0x00000000000000000000401E01403801,
        24 => 0x00000000000000000000803C02807802,
        25 => 0x0000000000000000000100780500F004,
        26 => 0x0000000000000000000200F00A01E008,
        27 => 0x0000000000000000000401E01403C010,
        28 => 0x0000000000000000000803C028038020,
        29 => 0x00000000000000000010038010030000,
        33 => 0x00000000000000000100700400C00000,
        34 => 0x00000000000000000200F00A01C00800,
        35 => 0x00000000000000000401E01403C01000,
        36 => 0x00000000000000000803C02807802000,
        37 => 0x0000000000000000100780500F004000,
        38 => 0x0000000000000000200F00A01E008000,
        39 => 0x0000000000000000401E01403C010000,
        40 => 0x0000000000000000803C028038020000,
        41 => 0x00000000000000010038010030000000,
        44 => 0x00000000000000080380200600000000,
        45 => 0x00000000000000100780500E00400000,
        46 => 0x00000000000000200F00A01E00800000,
        47 => 0x00000000000000401E01403C01000000,
        48 => 0x00000000000000803C02807802000000,
        49 => 0x0000000000000100780500F004000000,
        50 => 0x0000000000000200F00A01E008000000,
        51 => 0x0000000000000401E01403C010000000,
        52 => 0x0000000000000803C028038020000000,
        53 => 0x00000000000010038010030000000000,
        55 => 0x00000000000000180100300000000000,
        56 => 0x00000000000080380280700200000000,
        57 => 0x00000000000100780500F00400000000,
        58 => 0x00000000000200F00A01E00800000000,
        59 => 0x00000000000401E01403C01000000000,
        60 => 0x00000000000803C02807802000000000,
        61 => 0x0000000000100780500F004000000000,
        62 => 0x0000000000200F00A01E008000000000,
        63 => 0x0000000000401E01403C010000000000,
        64 => 0x0000000000801C028038020000000000,
        65 => 0x00000000000018010030000000000000,
        67 => 0x00000000000180100380100000000000,
        68 => 0x00000000080380280780200000000000,
        69 => 0x00000000100780500F00400000000000,
        70 => 0x00000000200F00A01E00800000000000,
        71 => 0x00000000401E01403C01000000000000,
        72 => 0x00000000803C02807802000000000000,
        73 => 0x0000000100780500F004000000000000,
        74 => 0x0000000200F00A01E008000000000000,
        75 => 0x0000000400E01403C010000000000000,
        76 => 0x0000000000C008038020000000000000,
        79 => 0x00000000180100380100000000000000,
        80 => 0x00000080380280780200000000000000,
        81 => 0x00000100780500F00400000000000000,
        82 => 0x00000200F00A01E00800000000000000,
        83 => 0x00000401E01403C01000000000000000,
        84 => 0x00000803C02807802000000000000000,
        85 => 0x0000100780500F004000000000000000,
        86 => 0x0000200700A01E008000000000000000,
        87 => 0x0000000600401C010000000000000000,
        91 => 0x00000180100380100000000000000000,
        92 => 0x00080380280780200000000000000000,
        93 => 0x00100780500F00400000000000000000,
        94 => 0x00200F00A01E00800000000000000000,
        95 => 0x00401E01403C01000000000000000000,
        96 => 0x00803C02807802000000000000000000,
        97 => 0x0100380500F004000000000000000000,
        98 => 0x0000300200E008000000000000000000,
        103 => 0x00180100380100000000000000000000,
        104 => 0x00380280780200000000000000000000,
        105 => 0x00780500F00400000000000000000000,
        106 => 0x00F00A01E00800000000000000000000,
        107 => 0x01E01403C01000000000000000000000,
        108 => 0x01C02807802000000000000000000000,
        109 => 0x01801007004000000000000000000000,
        115 => 0x00100380100000000000000000000000,
        116 => 0x00280780200000000000000000000000,
        117 => 0x00500F00400000000000000000000000,
        118 => 0x00A01E00800000000000000000000000,
        119 => 0x01403C01000000000000000000000000,
        120 => 0x00803802000000000000000000000000,
        _ => 0,
    }
}

/// Magic parameters of the bishop lookup (database of 20480 entries).
pub open spec fn spec_bishop_magic(idx: u8) -> Magic {
    match idx {
        0 => Magic { mask: 0x20040080000000, magic: 0x61804018804001042404300400020000, shift: 124, offset: 0 },
        1 => Magic { mask: 0x440080100000000, magic: 0x04084200400045000088001041004000, shift: 124, offset: 16 },
        2 => Magic { mask: 0x8801002000040000, magic: 0x14041002820480300424008001002000, shift: 124, offset: 32 },
        3 => Magic { mask: 0x1102004000008000000, magic: 0x00805001021008040280424018110000, shift: 124, offset: 48 },
        4 => Magic { mask: 0x22040080000010000000, magic: 0x05401180205800081010050800040000, shift: 124, offset: 64 },
        5 => Magic { mask: 0x44080100000020000000, magic: 0x00220448100140220020040101010000, shift: 124, offset: 84 },
        6 => Magic { mask: 0x0, magic: 0x00000000000000000000000000000000, shift: 128, offset: 100 },
        7 => Magic { mask: 0x0, magic: 0x00000000000000000000000000000000, shift: 128, offset: 100 },
        8 => Magic { mask: 0x0, magic: 0x00000000000000000000000000000000, shift: 128, offset: 100 },
        9 => Magic { mask: 0x0, magic: 0x00000000000000000000000000000000, shift: 128, offset: 100 },
        10 => Magic { mask: 0x0, magic: 0x00000000000000000000000000000000, shift: 128, offset: 100 },
        11 => Magic { mask: 0x40080100200000, magic: 0x04040410214081005018040010084000, shift: 124, offset: 100 },
        12 => Magic { mask: 0x880100200400000, magic: 0x00410114002010882142200440402000, shift: 124, offset: 116 },
        13 => Magic { mask: 0x11020040080800000, magic: 0x00808818814838020840240101020000, shift: 123, offset: 132 },
        14 => Magic { mask: 0x2204008010100000000, magic: 0x10102830413000801102080081044000, shift: 123, offset: 164 },
        15 => Magic { mask: 0x44080100202000000000, magic: 0x0318041400a40204850840c100040000, shift: 123, offset: 196 },
        16 => Magic { mask: 0x88100200404000000000, magic: 0x101410c5000940024220100400c01000, shift: 123, offset: 228 },
        17 => Magic { mask: 0x110200400808000000000, magic: 0x041308a002440301010c240084801000, shift: 123, offset: 260 },
        18 => Magic { mask: 0x0, magic: 0x00000000000000000000000000000000, shift: 128, offset: 292 },
        19 => Magic { mask: 0x0, magic: 0x00000000000000000000000000000000, shift: 128, offset: 292 },
        20 => Magic { mask: 0x0, magic: 0x00000000000000000000000000000000, shift: 128, offset: 292 },
        21 => Magic { mask: 0x0, magic: 0x00000000000000000000000000000000, shift: 128, offset: 292 },
        22 => Magic { mask: 0x880100200400801, magic: 0x00a0a01004245412400808a202201000, shift: 123, offset: 292 },
        23 => Magic { mask: 0x11020040080801002, magic: 0x0022410a08340114c004818128404000, shift: 122, offset: 324 },
        24 => Magic { mask: 0x2204008010101002004, magic: 0x0282a51010028c0010884a1005820000, shift: 122, offset: 388 },
        25 => Magic { mask: 0x44080100202020004008, magic: 0x008d1840810488410d21054224090000, shift: 122, offset: 452 },
        26 => Magic { mask: 0x88100200404040008010, magic: 0x181050a41815042211020e4088050000, shift: 122, offset: 516 },
        27 => Magic { mask: 0x110200400808080010020, magic: 0x0080e5445214041a02100804c8430000, shift: 122, offset: 580 },
        28 => Magic { mask: 0x220400801010101002004, magic: 0x0c485a0881a424220c4a408111a40000, shift: 122, offset: 644 },
        29 => Magic { mask: 0x440801002020202004008, magic: 0x00c401340166245100e129158c304000, shift: 122, offset: 708 },
        30 => Magic { mask: 0x0, magic: 0x00000000000000000000000000000000, shift: 128, offset: 772 },
        31 => Magic { mask: 0x0, magic: 0x00000000000000000000000000000000, shift: 128, offset: 772 },
        32 => Magic { mask: 0x0, magic: 0x00000000000000000000000000000000, shift: 128, offset: 772 },
        33 => Magic { mask: 0x11020040080801002, magic: 0x008c2401880403c40184c106428c0400, shift: 123, offset: 772 },
        34 => Magic { mask: 0x2204008010101002004, magic: 0x02a1140685040d34208a00298a0c2000, shift: 122, offset: 804 },
        35 => Magic { mask: 0x44080100202020004008, magic: 0x00908852309101d222d4809d30c80000, shift: 122, offset: 868 },
        36 => Magic { mask: 0x88100200404040008010, magic: 0x082522c0d5c0b8cc194c5e62cda12000, shift: 122, offset: 932 },
        37 => Magic { mask: 0x110200400808080010020, magic: 0x0801c8da9a4c7e6ec4baf070e6091000, shift: 121, offset: 996 },
        38 => Magic { mask: 0x220400801010101002004, magic: 0x0013ca6a4b3af2dbe44bf56b3e7cd800, shift: 121, offset: 1124 },
        39 => Magic { mask: 0x440801002020202004008, magic: 0x0606b29cd166be4eecdbf1cadd5ee800, shift: 121, offset: 1252 },
        40 => Magic { mask: 0x881002004040404008010, magic: 0x04467d0cf0c4b2ca5ceab562c56a3000, shift: 121, offset: 1380 },
        41 => Magic { mask: 0x1102004008080808010020, magic: 0x0113c2ce526cc6e144ea1b36aaac5000, shift: 121, offset: 1508 },
        42 => Magic { mask: 0x0, magic: 0x00000000000000000000000000000000, shift: 128, offset: 1636 },
        43 => Magic { mask: 0x0, magic: 0x00000000000000000000000000000000, shift: 128, offset: 1636 },
        44 => Magic { mask: 0x2204008010101002004, magic: 0x010c28308434a53821049210c4224000, shift: 122, offset: 1636 },
        45 => Magic { mask: 0x44080100202020004008, magic: 0x0092491148e65842188da50d03611000, shift: 122, offset: 1700 },
        46 => Magic { mask: 0x88100200404040008010, magic: 0x0003180c430291e66c62ca16cc8c3000, shift: 122, offset: 1764 },
        47 => Magic { mask: 0x110200400808080010020, magic: 0x048cdcd4cc9adaca4e3ada5ecd3b1000, shift: 121, offset: 1828 },
        48 => Magic { mask: 0x220400801010101002004, magic: 0x04825ece6cc6be7a0cdc8669ae494000, shift: 121, offset: 1956 },
        49 => Magic { mask: 0x440801002020202004008, magic: 0x054caea792dceede2ee6bc4add1e5800, shift: 120, offset: 2084 },
        50 => Magic { mask: 0x881002004040404008010, magic: 0x0d41e7dcdbc0baca1dc73e52ee3e3000, shift: 120, offset: 2340 },
        51 => Magic { mask: 0x1102004008080808010020, magic: 0x03a67aebe5cc4ca74e6efab6ac4b9000, shift: 120, offset: 2596 },
        52 => Magic { mask: 0x2204008010101010020040, magic: 0x053075aebe64f2abce6afca2c52aa000, shift: 120, offset: 2852 },
        53 => Magic { mask: 0x4408010020202020040080, magic: 0x001138beaa4ac84c146ea1706ca25000, shift: 121, offset: 3108 },
        54 => Magic { mask: 0x0, magic: 0x00000000000000000000000000000000, shift: 128, offset: 3236 },
        55 => Magic { mask: 0x44080100202020004008, magic: 0x028c253810c950529124408c02c01000, shift: 122, offset: 3236 },
        56 => Magic { mask: 0x88100200404040008010, magic: 0x029402542183c21a48c9a38431102000, shift: 122, offset: 3300 },
        57 => Magic { mask: 0x110200400808080010020, magic: 0x0188c6c518aa72da1aca31cd330b2000, shift: 121, offset: 3364 },
        58 => Magic { mask: 0x220400801010101002004, magic: 0x0c0ea9b4a44ebeee0cd6b5b5b4ad1000, shift: 121, offset: 3492 },
        59 => Magic { mask: 0x440801002020202004008, magic: 0x0611a5bba6dcfedee69ef6caeedad000, shift: 120, offset: 3620 },
        60 => Magic { mask: 0x881002004040404008010, magic: 0x01416bd9dbccd6de0e6af4b4eb2b7000, shift: 120, offset: 3876 },
        61 => Magic { mask: 0x1102004008080808010020, magic: 0x0696f5baa728fede64cee6daeae31000, shift: 120, offset: 4132 },
        62 => Magic { mask: 0x2204008010101010020040, magic: 0x0c0aa3b4c4ceb6ee0caeb3b5b62d2000, shift: 121, offset: 4388 },
        63 => Magic { mask: 0x4408010020202020040080, magic: 0x0188c5a91ca272ea1aca51a3328e4000, shift: 121, offset: 4516 },
        64 => Magic { mask: 0x8810020040404040080100, magic: 0x028c2294108bc0da488ca21c32148000, shift: 122, offset: 4644 },
        65 => Magic { mask: 0x11020040080808080100200, magic: 0x028c1145108510ca44845106208a0000, shift: 122, offset: 4708 },
        66 => Magic { mask: 0x0, magic: 0x00000000000000000000000000000000, shift: 128, offset: 4772 },
        67 => Magic { mask: 0x88100200404040008010, magic: 0x008da50d20d188421849150424090000, shift: 122, offset: 4772 },
        68 => Magic { mask: 0x110200400808080010020, magic: 0x018cc6c98aa124aa1aca118eaab68000, shift: 121, offset: 4836 },
        69 => Magic { mask: 0x220400801010101002004, magic: 0x04825eaecac67e720c9c3e4eee3c1000, shift: 121, offset: 4964 },
        70 => Magic { mask: 0x440801002020202004008, magic: 0x03a6fadfe72c4caee4eeeefcaea9a000, shift: 120, offset: 5092 },
        71 => Magic { mask: 0x881002004040404008010, magic: 0x0d41e7d8abc0baca1dc23ebaeaea3000, shift: 120, offset: 5348 },
        72 => Magic { mask: 0x1102004008080808010020, magic: 0x052cfade7a24c2eeae6aecaa67caa000, shift: 120, offset: 5604 },
        73 => Magic { mask: 0x2204008010101010020040, magic: 0x0481deaee6647e740cdc2a54ee34a000, shift: 120, offset: 5860 },
        74 => Magic { mask: 0x4408010020202020040080, magic: 0x0184ca91aa216ca146a81a2daacc4000, shift: 121, offset: 6116 },
        75 => Magic { mask: 0x8810020040404040080100, magic: 0x0088e505244181aa1a249114ac308000, shift: 122, offset: 6244 },
        76 => Magic { mask: 0x11020040080808080100200, magic: 0x0108a30485304a922448490a20460000, shift: 122, offset: 6308 },
        77 => Magic { mask: 0x0, magic: 0x00000000000000000000000000000000, shift: 128, offset: 6372 },
        78 => Magic { mask: 0x0, magic: 0x00000000000000000000000000000000, shift: 128, offset: 6372 },
        79 => Magic { mask: 0x110200400808080010020, magic: 0x0188c6c8206010da1aca010260ca2000, shift: 121, offset: 6372 },
        80 => Magic { mask: 0x220400801010101002004, magic: 0x04025ea8c40442320c8c0e0cca421000, shift: 121, offset: 6500 },
        81 => Magic { mask: 0x440801002020202004008, magic: 0x02a27adcc92410a646ee8ea6ac493000, shift: 121, offset: 6628 },
        82 => Magic { mask: 0x881002004040404008010, magic: 0x0541e7d825c09aca19c21e3cae6a3000, shift: 121, offset: 6756 },
        83 => Magic { mask: 0x1102004008080808010020, magic: 0x01247ade6e2482ee4e6ae29a67cb1000, shift: 121, offset: 6884 },
        84 => Magic { mask: 0x2204008010101010020040, magic: 0x0481deae66645e740cdc1e10ee2d2000, shift: 121, offset: 7012 },
        85 => Magic { mask: 0x4408010020202020040080, magic: 0x0100ca91aa2168a14428122daac22000, shift: 121, offset: 7140 },
        86 => Magic { mask: 0x8810020040404040080100, magic: 0x0088a501244180aa18241114ac204000, shift: 122, offset: 7268 },
        87 => Magic { mask: 0x11020040080808080100200, magic: 0x01082300853048922048110a20420000, shift: 122, offset: 7332 },
        88 => Magic { mask: 0x0, magic: 0x00000000000000000000000000000000, shift: 128, offset: 7396 },
        89 => Magic { mask: 0x0, magic: 0x00000000000000000000000000000000, shift: 128, offset: 7396 },
        90 => Magic { mask: 0x0, magic: 0x00000000000000000000000000000000, shift: 128, offset: 7396 },
        91 => Magic { mask: 0x220400801010101002004, magic: 0x040214a00404023204840e04240a1000, shift: 122, offset: 7396 },
        92 => Magic { mask: 0x440801002020202004008, magic: 0x00a270dc8124102606ae06a62c453000, shift: 122, offset: 7460 },
        93 => Magic { mask: 0x881002004040404008010, magic: 0x014167d021c090ca09c2161ca62a3000, shift: 122, offset: 7524 },
        94 => Magic { mask: 0x1102004008080808010020, magic: 0x01243ade4224822e0e6ae11a27cb1000, shift: 122, offset: 7588 },
        95 => Magic { mask: 0x2204008010101010020040, magic: 0x04819eae42645a740cdc1610662d2000, shift: 122, offset: 7652 },
        96 => Magic { mask: 0x4408010020202020040080, magic: 0x01008a912a2168214428111daac22000, shift: 122, offset: 7716 },
        97 => Magic { mask: 0x8810020040404040080100, magic: 0x008825012041802a1824110ca4204000, shift: 123, offset: 7780 },
        98 => Magic { mask: 0x11020040080808080100200, magic: 0x01081100813048122048110220420000, shift: 123, offset: 7812 },
        99 => Magic { mask: 0x0, magic: 0x00000000000000000000000000000000, shift: 128, offset: 7844 },
        100 => Magic { mask: 0x0, magic: 0x00000000000000000000000000000000, shift: 128, offset: 7844 },
        101 => Magic { mask: 0x0, magic: 0x00000000000000000000000000000000, shift: 128, offset: 7844 },
        102 => Magic { mask: 0x0, magic: 0x00000000000000000000000000000000, shift: 128, offset: 7844 },
        103 => Magic { mask: 0x440801002020202004008, magic: 0x0022301001241006022e022204413000, shift: 123, offset: 7844 },
        104 => Magic { mask: 0x881002004040404008010, magic: 0x014107102140900a09421210222a3000, shift: 123, offset: 7876 },
        105 => Magic { mask: 0x1102004008080808010020, magic: 0x0124125e4224802e064ae01a224b1000, shift: 123, offset: 7908 },
        106 => Magic { mask: 0x2204008010101010020040, magic: 0x04811eae42245a340cdc121026252000, shift: 123, offset: 7940 },
        107 => Magic { mask: 0x4408010020202020040080, magic: 0x010012912a2168214228111522c22000, shift: 123, offset: 7972 },
        108 => Magic { mask: 0x8810020040404040080100, magic: 0x008811012041802a1024110aa0204000, shift: 124, offset: 8004 },
        109 => Magic { mask: 0x11020040080808080100200, magic: 0x01081100811048122048110220420000, shift: 124, offset: 8020 },
        110 => Magic { mask: 0x0, magic: 0x00000000000000000000000000000000, shift: 128, offset: 8036 },
        111 => Magic { mask: 0x0, magic: 0x00000000000000000000000000000000, shift: 128, offset: 8036 },
        112 => Magic { mask: 0x0, magic: 0x00000000000000000000000000000000, shift: 128, offset: 8036 },
        113 => Magic { mask: 0x0, magic: 0x00000000000000000000000000000000, shift: 128, offset: 8036 },
        114 => Magic { mask: 0x0, magic: 0x00000000000000000000000000000000, shift: 128, offset: 8036 },
        115 => Magic { mask: 0x881002004040404008010, magic: 0x00410110214010020142101022023000, shift: 124, offset: 8036 },
        116 => Magic { mask: 0x1102004008080808010020, magic: 0x0124111e4224802a024ae01a22031000, shift: 124, offset: 8052 },
        117 => Magic { mask: 0x2204008010101010020040, magic: 0x04811eae42241a340cdc121022252000, shift: 124, offset: 8068 },
        118 => Magic { mask: 0x4408010020202020040080, magic: 0x010012912a2128214228111522422000, shift: 124, offset: 8084 },
        119 => Magic { mask: 0x8810020040404040080100, magic: 0x008811012041802a1024110620204000, shift: 125, offset: 8100 },
        120 => Magic { mask: 0x11020040080808080100200, magic: 0x01081100811048122048110220420000, shift: 125, offset: 8108 },
        _ => Magic { mask: 0, magic: 0, shift: 128, offset: 0 },
    }
}

pub(crate) fn bishop_magic(idx: u8) -> (r: Magic)
    requires
        idx < 121,
    ensures
        r == spec_bishop_magic(idx),
        magic_fits(r, 20480),
{
    match idx {
        0 => Magic { mask: 0x20040080000000, magic: 0x61804018804001042404300400020000, shift: 124, offset: 0 },
        1 => Magic { mask: 0x440080100000000, magic: 0x04084200400045000088001041004000, shift: 124, offset: 16 },
        2 => Magic { mask: 0x8801002000040000, magic: 0x14041002820480300424008001002000, shift: 124, offset: 32 },
        3 => Magic { mask: 0x1102004000008000000, magic: 0x00805001021008040280424018110000, shift: 124, offset: 48 },
        4 => Magic { mask: 0x22040080000010000000, magic: 0x05401180205800081010050800040000, shift: 124, offset: 64 },
        5 => Magic { mask: 0x44080100000020000000, magic: 0x00220448100140220020040101010000, shift: 124, offset: 84 },
        6 => Magic { mask: 0x0, magic: 0x00000000000000000000000000000000, shift: 128, offset: 100 },
        7 => Magic { mask: 0x0, magic: 0x00000000000000000000000000000000, shift: 128, offset: 100 },
        8 => Magic { mask: 0x0, magic: 0x00000000000000000000000000000000, shift: 128, offset: 100 },
        9 => Magic { mask: 0x0, magic: 0x00000000000000000000000000000000, shift: 128, offset: 100 },
        10 => Magic { mask: 0x0, magic: 0x00000000000000000000000000000000, shift: 128, offset: 100 },
        11 => Magic { mask: 0x40080100200000, magic: 0x04040410214081005018040010084000, shift: 124, offset: 100 },
        12 => Magic { mask: 0x880100200400000, magic: 0x00410114002010882142200440402000, shift: 124, offset: 116 },
        13 => Magic { mask: 0x11020040080800000, magic: 0x00808818814838020840240101020000, shift: 123, offset: 132 },
        14 => Magic { mask: 0x2204008010100000000, magic: 0x10102830413000801102080081044000, shift: 123, offset: 164 },
        15 => Magic { mask: 0x44080100202000000000, magic: 0x0318041400a40204850840c100040000, shift: 123, offset: 196 },
        16 => Magic { mask: 0x88100200404000000000, magic: 0x101410c5000940024220100400c01000, shift: 123, offset: 228 },
        17 => Magic { mask: 0x110200400808000000000, magic: 0x041308a002440301010c240084801000, shift: 123, offset: 260 },
        18 => Magic { mask: 0x0, magic: 0x00000000000000000000000000000000, shift: 128, offset: 292 },
        19 => Magic { mask: 0x0, magic: 0x00000000000000000000000000000000, shift: 128, offset: 292 },
        20 => Magic { mask: 0x0, magic: 0x00000000000000000000000000000000, shift: 128, offset: 292 },
        21 => Magic { mask: 0x0, magic: 0x00000000000000000000000000000000, shift: 128, offset: 292 },
        22 => Magic { mask: 0x880100200400801, magic: 0x00a0a01004245412400808a202201000, shift: 123, offset: 292 },
        23 => Magic { mask: 0x11020040080801002, magic: 0x0022410a08340114c004818128404000, shift: 122, offset: 324 },
        24 => Magic { mask: 0x2204008010101002004, magic: 0x0282a51010028c0010884a1005820000, shift: 122, offset: 388 },
        25 => Magic { mask: 0x44080100202020004008, magic: 0x008d1840810488410d21054224090000, shift: 122, offset: 452 },
        26 => Magic { mask: 0x88100200404040008010, magic: 0x181050a41815042211020e4088050000, shift: 122, offset: 516 },
        27 => Magic { mask: 0x110200400808080010020, magic: 0x0080e5445214041a02100804c8430000, shift: 122, offset: 580 },
        28 => Magic { mask: 0x220400801010101002004, magic: 0x0c485a0881a424220c4a408111a40000, shift: 122, offset: 644 },
        29 => Magic { mask: 0x440801002020202004008, magic: 0x00c401340166245100e129158c304000, shift: 122, offset: 708 },
        30 => Magic { mask: 0x0, magic: 0x00000000000000000000000000000000, shift: 128, offset: 772 },
        31 => Magic { mask: 0x0, magic: 0x00000000000000000000000000000000, shift: 128, offset: 772 },
        32 => Magic { mask: 0x0, magic: 0x00000000000000000000000000000000, shift: 128, offset: 772 },
        33 => Magic { mask: 0x11020040080801002, magic: 0x008c2401880403c40184c106428c0400, shift: 123, offset: 772 },
        34 => Magic { mask: 0x2204008010101002004, magic: 0x02a1140685040d34208a00298a0c2000, shift: 122, offset: 804 },
        35 => Magic { mask: 0x44080100202020004008, magic: 0x00908852309101d222d4809d30c80000, shift: 122, offset: 868 },
        36 => Magic { mask: 0x88100200404040008010, magic: 0x082522c0d5c0b8cc194c5e62cda12000, shift: 122, offset: 932 },
        37 => Magic { mask: 0x110200400808080010020, magic: 0x0801c8da9a4c7e6ec4baf070e6091000, shift: 121, offset: 996 },
        38 => Magic { mask: 0x220400801010101002004, magic: 0x0013ca6a4b3af2dbe44bf56b3e7cd800, shift: 121, offset: 1124 },
        39 => Magic { mask: 0x440801002020202004008, magic: 0x0606b29cd166be4eecdbf1cadd5ee800, shift: 121, offset: 1252 },
        40 => Magic { mask: 0x881002004040404008010, magic: 0x04467d0cf0c4b2ca5ceab562c56a3000, shift: 121, offset: 1380 },
        41 => Magic { mask: 0x1102004008080808010020, magic: 0x0113c2ce526cc6e144ea1b36aaac5000, shift: 121, offset: 1508 },
        42 => Magic { mask: 0x0, magic: 0x00000000000000000000000000000000, shift: 128, offset: 1636 },
        43 => Magic { mask: 0x0, magic: 0x00000000000000000000000000000000, shift: 128, offset: 1636 },
        44 => Magic { mask: 0x2204008010101002004, magic: 0x010c28308434a53821049210c4224000, shift: 122, offset: 1636 },
        45 => Magic { mask: 0x44080100202020004008, magic: 0x0092491148e65842188da50d03611000, shift: 122, offset: 1700 },
        46 => Magic { mask: 0x88100200404040008010, magic: 0x0003180c430291e66c62ca16cc8c3000, shift: 122, offset: 1764 },
        47 => Magic { mask: 0x110200400808080010020, magic: 0x048cdcd4cc9adaca4e3ada5ecd3b1000, shift: 121, offset: 1828 },
        48 => Magic { mask: 0x220400801010101002004, magic: 0x04825ece6cc6be7a0cdc8669ae494000, shift: 121, offset: 1956 },
        49 => Magic { mask: 0x440801002020202004008, magic: 0x054caea792dceede2ee6bc4add1e5800, shift: 120, offset: 2084 },
        50 => Magic { mask: 0x881002004040404008010, magic: 0x0d41e7dcdbc0baca1dc73e52ee3e3000, shift: 120, offset: 2340 },
        51 => Magic { mask: 0x1102004008080808010020, magic: 0x03a67aebe5cc4ca74e6efab6ac4b9000, shift: 120, offset: 2596 },
        52 => Magic { mask: 0x2204008010101010020040, magic: 0x053075aebe64f2abce6afca2c52aa000, shift: 120, offset: 2852 },
        53 => Magic { mask: 0x4408010020202020040080, magic: 0x001138beaa4ac84c146ea1706ca25000, shift: 121, offset: 3108 },
        54 => Magic { mask: 0x0, magic: 0x00000000000000000000000000000000, shift: 128, offset: 3236 },
        55 => Magic { mask: 0x44080100202020004008, magic: 0x028c253810c950529124408c02c01000, shift: 122, offset: 3236 },
        56 => Magic { mask: 0x88100200404040008010, magic: 0x029402542183c21a48c9a38431102000, shift: 122, offset: 3300 },
        57 => Magic { mask: 0x110200400808080010020, magic: 0x0188c6c518aa72da1aca31cd330b2000, shift: 121, offset: 3364 },
        58 => Magic { mask: 0x220400801010101002004, magic: 0x0c0ea9b4a44ebeee0cd6b5b5b4ad1000, shift: 121, offset: 3492 },
        59 => Magic { mask: 0x440801002020202004008, magic: 0x0611a5bba6dcfedee69ef6caeedad000, shift: 120, offset: 3620 },
        60 => Magic { mask: 0x881002004040404008010, magic: 0x01416bd9dbccd6de0e6af4b4eb2b7000, shift: 120, offset: 3876 },
        61 => Magic { mask: 0x1102004008080808010020, magic: 0x0696f5baa728fede64cee6daeae31000, shift: 120, offset: 4132 },
        62 => Magic { mask: 0x2204008010101010020040, magic: 0x0c0aa3b4c4ceb6ee0caeb3b5b62d2000, shift: 121, offset: 4388 },
        63 => Magic { mask: 0x4408010020202020040080, magic: 0x0188c5a91ca272ea1aca51a3328e4000, shift: 121, offset: 4516 },
        64 => Magic { mask: 0x8810020040404040080100, magic: 0x028c2294108bc0da488ca21c32148000, shift: 122, offset: 4644 },
        65 => Magic { mask: 0x11020040080808080100200, magic: 0x028c1145108510ca44845106208a0000, shift: 122, offset: 4708 },
        66 => Magic { mask: 0x0, magic: 0x00000000000000000000000000000000, shift: 128, offset: 4772 },
        67 => Magic { mask: 0x88100200404040008010, magic: 0x008da50d20d188421849150424090000, shift: 122, offset: 4772 },
        68 => Magic { mask: 0x110200400808080010020, magic: 0x018cc6c98aa124aa1aca118eaab68000, shift: 121, offset: 4836 },
        69 => Magic { mask: 0x220400801010101002004, magic: 0x04825eaecac67e720c9c3e4eee3c1000, shift: 121, offset: 4964 },
        70 => Magic { mask: 0x440801002020202004008, magic: 0x03a6fadfe72c4caee4eeeefcaea9a000, shift: 120, offset: 5092 },
        71 => Magic { mask: 0x881002004040404008010, magic: 0x0d41e7d8abc0baca1dc23ebaeaea3000, shift: 120, offset: 5348 },
        72 => Magic { mask: 0x1102004008080808010020, magic: 0x052cfade7a24c2eeae6aecaa67caa000, shift: 120, offset: 5604 },
        73 => Magic { mask: 0x2204008010101010020040, magic: 0x0481deaee6647e740cdc2a54ee34a000, shift: 120, offset: 5860 },
        74 => Magic { mask: 0x4408010020202020040080, magic: 0x0184ca91aa216ca146a81a2daacc4000, shift: 121, offset: 6116 },
        75 => Magic { mask: 0x8810020040404040080100, magic: 0x0088e505244181aa1a249114ac308000, shift: 122, offset: 6244 },
        76 => Magic { mask: 0x11020040080808080100200, magic: 0x0108a30485304a922448490a20460000, shift: 122, offset: 6308 },
        77 => Magic { mask: 0x0, magic: 0x00000000000000000000000000000000, shift: 128, offset: 6372 },
        78 => Magic { mask: 0x0, magic: 0x00000000000000000000000000000000, shift: 128, offset: 6372 },
        79 => Magic { mask: 0x110200400808080010020, magic: 0x0188c6c8206010da1aca010260ca2000, shift: 121, offset: 6372 },
        80 => Magic { mask: 0x220400801010101002004, magic: 0x04025ea8c40442320c8c0e0cca421000, shift: 121, offset: 6500 },
        81 => Magic { mask: 0x440801002020202004008, magic: 0x02a27adcc92410a646ee8ea6ac493000, shift: 121, offset: 6628 },
        82 => Magic { mask: 0x881002004040404008010, magic: 0x0541e7d825c09aca19c21e3cae6a3000, shift: 121, offset: 6756 },
        83 => Magic { mask: 0x1102004008080808010020, magic: 0x01247ade6e2482ee4e6ae29a67cb1000, shift: 121, offset: 6884 },
        84 => Magic { mask: 0x2204008010101010020040, magic: 0x0481deae66645e740cdc1e10ee2d2000, shift: 121, offset: 7012 },
        85 => Magic { mask: 0x4408010020202020040080, magic: 0x0100ca91aa2168a14428122daac22000, shift: 121, offset: 7140 },
        86 => Magic { mask: 0x8810020040404040080100, magic: 0x0088a501244180aa18241114ac204000, shift: 122, offset: 7268 },
        87 => Magic { mask: 0x11020040080808080100200, magic: 0x01082300853048922048110a20420000, shift: 122, offset: 7332 },
        88 => Magic { mask: 0x0, magic: 0x00000000000000000000000000000000, shift: 128, offset: 7396 },
        89 => Magic { mask: 0x0, magic: 0x00000000000000000000000000000000, shift: 128, offset: 7396 },
        90 => Magic { mask: 0x0, magic: 0x00000000000000000000000000000000, shift: 128, offset: 7396 },
        91 => Magic { mask: 0x220400801010101002004, magic: 0x040214a00404023204840e04240a1000, shift: 122, offset: 7396 },
        92 => Magic { mask: 0x440801002020202004008, magic: 0x00a270dc8124102606ae06a62c453000, shift: 122, offset: 7460 },
        93 => Magic { mask: 0x881002004040404008010, magic: 0x014167d021c090ca09c2161ca62a3000, shift: 122, offset: 7524 },
        94 => Magic { mask: 0x1102004008080808010020, magic: 0x01243ade4224822e0e6ae11a27cb1000, shift: 122, offset: 7588 },
        95 => Magic { mask: 0x2204008010101010020040, magic: 0x04819eae42645a740cdc1610662d2000, shift: 122, offset: 7652 },
        96 => Magic { mask: 0x4408010020202020040080, magic: 0x01008a912a2168214428111daac22000, shift: 122, offset: 7716 },
        97 => Magic { mask: 0x8810020040404040080100, magic: 0x008825012041802a1824110ca4204000, shift: 123, offset: 7780 },
        98 => Magic { mask: 0x11020040080808080100200, magic: 0x01081100813048122048110220420000, shift: 123, offset: 7812 },
        99 => Magic { mask: 0x0, magic: 0x00000000000000000000000000000000, shift: 128, offset: 7844 },
        100 => Magic { mask: 0x0, magic: 0x00000000000000000000000000000000, shift: 128, offset: 7844 },
        101 => Magic { mask: 0x0, magic: 0x00000000000000000000000000000000, shift: 128, offset: 7844 },
        102 => Magic { mask: 0x0, magic: 0x00000000000000000000000000000000, shift: 128, offset: 7844 },
        103 => Magic { mask: 0x440801002020202004008, magic: 0x0022301001241006022e022204413000, shift: 123, offset: 7844 },
        104 => Magic { mask: 0x881002004040404008010, magic: 0x014107102140900a09421210222a3000, shift: 123, offset: 7876 },
        105 => Magic { mask: 0x1102004008080808010020, magic: 0x0124125e4224802e064ae01a224b1000, shift: 123, offset: 7908 },
        106 => Magic { mask: 0x2204008010101010020040, magic: 0x04811eae42245a340cdc121026252000, shift: 123, offset: 7940 },
        107 => Magic { mask: 0x4408010020202020040080, magic: 0x010012912a2168214228111522c22000, shift: 123, offset: 7972 },
        108 => Magic { mask: 0x8810020040404040080100, magic: 0x008811012041802a1024110aa0204000, shift: 124, offset: 8004 },
        109 => Magic { mask: 0x11020040080808080100200, magic: 0x01081100811048122048110220420000, shift: 124, offset: 8020 },
        110 => Magic { mask: 0x0, magic: 0x00000000000000000000000000000000, shift: 128, offset: 8036 },
        111 => Magic { mask: 0x0, magic: 0x00000000000000000000000000000000, shift: 128, offset: 8036 },
        112 => Magic { mask: 0x0, magic: 0x00000000000000000000000000000000, shift: 128, offset: 8036 },
        113 => Magic { mask: 0x0, magic: 0x00000000000000000000000000000000, shift: 128, offset: 8036 },
        114 => Magic { mask: 0x0, magic: 0x00000000000000000000000000000000, shift: 128, offset: 8036 },
        115 => Magic { mask: 0x881002004040404008010, magic: 0x00410110214010020142101022023000, shift: 124, offset: 8036 },
        116 => Magic { mask: 0x1102004008080808010020, magic: 0x0124111e4224802a024ae01a22031000, shift: 124, offset: 8052 },
        117 => Magic { mask: 0x2204008010101010020040, magic: 0x04811eae42241a340cdc121022252000, shift: 124, offset: 8068 },
        118 => Magic { mask: 0x4408010020202020040080, magic: 0x010012912a2128214228111522422000, shift: 124, offset: 8084 },
        119 => Magic { mask: 0x8810020040404040080100, magic: 0x008811012041802a1024110620204000, shift: 125, offset: 8100 },
        120 => Magic { mask: 0x11020040080808080100200, magic: 0x01081100811048122048110220420000, shift: 125, offset: 8108 },
        _ => Magic { mask: 0, magic: 0, shift: 128, offset: 0 },
    }
}

/// Magic parameters of the rook lookup along the first axis (database of 24576 entries).
pub open spec fn spec_rook_r_magic(idx: u8) -> Magic {
    match idx {
        0 => Magic { mask: 0x7C0, magic: 0x1f02148408a110a18431055018a38100, shift: 123, offset: 0 },
        1 => Magic { mask: 0xF800, magic: 0x07de0255c4d0a138902048500c563800, shift: 123, offset: 32 },
        2 => Magic { mask: 0x1F0000, magic: 0x00fc4214488b0a99182410a6cc662400, shift: 123, offset: 64 },
        3 => Magic { mask: 0x3E00000, magic: 0x003f1141444d32a4a82410d4ea3d0800, shift: 123, offset: 96 },
        4 => Magic { mask: 0x7C000000, magic: 0x000fa2514d868995a91448dbbbba2800, shift: 123, offset: 128 },
        5 => Magic { mask: 0xF80000000, magic: 0x0003e8a4a4b2a4aa92212959ea2fa800, shift: 123, offset: 160 },
        6 => Magic { mask: 0x0, magic: 0x00000000000000000000000000000000, shift: 128, offset: 192 },
        7 => Magic { mask: 0x0, magic: 0x00000000000000000000000000000000, shift: 128, offset: 192 },
        8 => Magic { mask: 0x0, magic: 0x00000000000000000000000000000000, shift: 128, offset: 192 },
        9 => Magic { mask: 0x0, magic: 0x00000000000000000000000000000000, shift: 128, offset: 192 },
        10 => Magic { mask: 0x0, magic: 0x00000000000000000000000000000000, shift: 128, offset: 192 },
        11 => Magic { mask: 0x7C0, magic: 0x1f0214821c3222a4d0411a141aa32200, shift: 123, offset: 192 },
        12 => Magic { mask: 0xF800, magic: 0x07da290cb646eaec82245a90962b4800, shift: 123, offset: 224 },
        13 => Magic { mask: 0x1F0000, magic: 0x00fc462aecccdaca51249b5aeccb0c00, shift: 123, offset: 256 },
        14 => Magic { mask: 0x3E00000, magic: 0x003f0aa7bb34d3b14512535ae7aa2800, shift: 123, offset: 288 },
        15 => Magic { mask: 0x7C000000, magic: 0x000fc26bb4dc8fa0d4c94cdbbf3a4800, shift: 123, offset: 320 },
        16 => Magic { mask: 0xF80000000, magic: 0x0003eaee8b6a9ea51622aa5eea6b4800, shift: 123, offset: 352 },
        17 => Magic { mask: 0xF800000000, magic: 0x0000faeecb2cbabaaa14ca9faeeea800, shift: 123, offset: 384 },
        18 => Magic { mask: 0x0, magic: 0x00000000000000000000000000000000, shift: 128, offset: 416 },
        19 => Magic { mask: 0x0, magic: 0x00000000000000000000000000000000, shift: 128, offset: 416 },
        20 => Magic { mask: 0x0, magic: 0x00000000000000000000000000000000, shift: 128, offset: 416 },
        21 => Magic { mask: 0x0, magic: 0x00000000000000000000000000000000, shift: 128, offset: 416 },
        22 => Magic { mask: 0x7C0, magic: 0x1f0214821c3222a4d0411a141aa32200, shift: 123, offset: 416 },
        23 => Magic { mask: 0xF800, magic: 0x07da290cb646eaec82245a90962b4800, shift: 123, offset: 448 },
        24 => Magic { mask: 0x1F0000, magic: 0x00fc462aecccdaca51249b5aeccb0c00, shift: 123, offset: 480 },
        25 => Magic { mask: 0x3E00000, magic: 0x003f0aa7bb34d3b14512535ae7aa2800, shift: 123, offset: 512 },
        26 => Magic { mask: 0x7C000000, magic: 0x000fc26bb4dc8fa0d4c94cdbbf3a4800, shift: 123, offset: 544 },
        27 => Magic { mask: 0xF80000000, magic: 0x0003eaee8b6a9ea51622aa5eea6b4800, shift: 123, offset: 576 },
        28 => Magic { mask: 0xF800000000, magic: 0x0000faeecb2cbabaaa14ca9faeeea800, shift: 123, offset: 608 },
        29 => Magic { mask: 0xF8000000000, magic: 0x00003eefbe6ebef6ea2296bdaeaeb800, shift: 123, offset: 640 },
        30 => Magic { mask: 0x0, magic: 0x00000000000000000000000000000000, shift: 128, offset: 672 },
        31 => Magic { mask: 0x0, magic: 0x00000000000000000000000000000000, shift: 128, offset: 672 },
        32 => Magic { mask: 0x0, magic: 0x00000000000000000000000000000000, shift: 128, offset: 672 },
        33 => Magic { mask: 0x7C0, magic: 0x1f0214821c3222a4d0411a141aa32200, shift: 123, offset: 672 },
        34 => Magic { mask: 0xF800, magic: 0x07da290cb646eaec82245a90962b4800, shift: 123, offset: 704 },
        35 => Magic { mask: 0x1F0000, magic: 0x00fc462aecccdaca51249b5aeccb0c00, shift: 123, offset: 736 },
        36 => Magic { mask: 0x3E00000, magic: 0x003f0aa7bb34d3b14512535ae7aa2800, shift: 123, offset: 768 },
        37 => Magic { mask: 0x7C000000, magic: 0x000fc26bb4dc8fa0d4c94cdbbf3a4800, shift: 123, offset: 800 },
        38 => Magic { mask: 0xF80000000, magic: 0x0003eaee8b6a9ea51622aa5eea6b4800, shift: 123, offset: 832 },
        39 => Magic { mask: 0xF800000000, magic: 0x0000faeecb2cbabaaa14ca9faeeea800, shift: 123, offset: 864 },
        40 => Magic { mask: 0xF8000000000, magic: 0x00003eefbe6ebef6ea2296bdaeaeb800, shift: 123, offset: 896 },
        41 => Magic { mask: 0xF80000000000, magic: 0x00000ffbeaaa4caeea6aeeb6caaea800, shift: 123, offset: 928 },
        42 => Magic { mask: 0x0, magic: 0x00000000000000000000000000000000, shift: 128, offset: 960 },
        43 => Magic { mask: 0x0, magic: 0x00000000000000000000000000000000, shift: 128, offset: 960 },
        44 => Magic { mask: 0x7C0, magic: 0x1f0214821c3222a4d0411a141aa32200, shift: 123, offset: 960 },
        45 => Magic { mask: 0xF800, magic: 0x07da290cb646eaec82245a90962b4800, shift: 123, offset: 992 },
        46 => Magic { mask: 0x1F0000, magic: 0x00fc462aecccdaca51249b5aeccb0c00, shift: 123, offset: 1024 },
        47 => Magic { mask: 0x3E00000, magic: 0x003f0aa7bb34d3b14512535ae7aa2800, shift: 123, offset: 1056 },
        48 => Magic { mask: 0x7C000000, magic: 0x000fc26bb4dc8fa0d4c94cdbbf3a4800, shift: 123, offset: 1088 },
        49 => Magic { mask: 0xF80000000, magic: 0x0003eaee8b6a9ea51622aa5eea6b4800, shift: 123, offset: 1120 },
        50 => Magic { mask: 0xF800000000, magic: 0x0000faeecb2cbabaaa14ca9faeeea800, shift: 123, offset: 1152 },
        51 => Magic { mask: 0xF8000000000, magic: 0x00003eefbe6ebef6ea2296bdaeaeb800, shift: 123, offset: 1184 },
        52 => Magic { mask: 0xF80000000000, magic: 0x00000ffbeaaa4caeea6aeeb6caaea800, shift: 123, offset: 1216 },
        53 => Magic { mask: 0x3E00000000000, magic: 0x0000003fabaaa4cae4aa2eb6caaaa800, shift: 123, offset: 1248 },
        54 => Magic { mask: 0x0, magic: 0x00000000000000000000000000000000, shift: 128, offset: 1280 },
        55 => Magic { mask: 0x3E0, magic: 0x0f810a410e191150c2208d0c0c511000, shift: 123, offset: 1280 },
        56 => Magic { mask: 0xF800, magic: 0x07da290cb646eaec82245a90962b4800, shift: 123, offset: 1312 },
        57 => Magic { mask: 0x1F0000, magic: 0x00fc462aecccdaca51249b5aeccb0c00, shift: 123, offset: 1344 },
        58 => Magic { mask: 0x3E00000, magic: 0x003f0aa7bb34d3b14512535ae7aa2800, shift: 123, offset: 1376 },
        59 => Magic { mask: 0x7C000000, magic: 0x000fc26bb4dc8fa0d4c94cdbbf3a4800, shift: 123, offset: 1408 },
        60 => Magic { mask: 0xF80000000, magic: 0x0003eaee8b6a9ea51622aa5eea6b4800, shift: 123, offset: 1440 },
        61 => Magic { mask: 0xF800000000, magic: 0x0000faeecb2cbabaaa14ca9faeeea800, shift: 123, offset: 1472 },
        62 => Magic { mask: 0xF8000000000, magic: 0x00003eefbe6ebef6ea2296bdaeaeb800, shift: 123, offset: 1504 },
        63 => Magic { mask: 0xF80000000000, magic: 0x00000ffbeaaa4caeea6aeeb6caaea800, shift: 123, offset: 1536 },
        64 => Magic { mask: 0x3E00000000000, magic: 0x0000003fabaaa4cae4aa2eb6caaaa800, shift: 123, offset: 1568 },
        65 => Magic { mask: 0x0, magic: 0x00000000000000000000000000000000, shift: 128, offset: 1600 },
        66 => Magic { mask: 0x0, magic: 0x00000000000000000000000000000000, shift: 128, offset: 1600 },
        67 => Magic { mask: 0xF800, magic: 0x07da290cb646eaec82245a90962b4800, shift: 123, offset: 1600 },
        68 => Magic { mask: 0x1F0000, magic: 0x00fc462aecccdaca51249b5aeccb0c00, shift: 123, offset: 1632 },
        69 => Magic { mask: 0x3E00000, magic: 0x003f0aa7bb34d3b14512535ae7aa2800, shift: 123, offset: 1664 },
        70 => Magic { mask: 0x7C000000, magic: 0x000fc26bb4dc8fa0d4c94cdbbf3a4800, shift: 123, offset: 1696 },
        71 => Magic { mask: 0xF80000000, magic: 0x0003eaee8b6a9ea51622aa5eea6b4800, shift: 123, offset: 1728 },
        72 => Magic { mask: 0xF800000000, magic: 0x0000faeecb2cbabaaa14ca9faeeea800, shift: 123, offset: 1760 },
        73 => Magic { mask: 0xF8000000000, magic: 0x00003eefbe6ebef6ea2296bdaeaeb800, shift: 123, offset: 1792 },
        74 => Magic { mask: 0xF80000000000, magic: 0x00000ffbeaaa4caeea6aeeb6caaea800, shift: 123, offset: 1824 },
        75 => Magic { mask: 0x3E00000000000, magic: 0x0000003fabaaa4cae4aa2eb6caaaa800, shift: 123, offset: 1856 },
        76 => Magic { mask: 0x0, magic: 0x00000000000000000000000000000000, shift: 128, offset: 1888 },
        77 => Magic { mask: 0x0, magic: 0x00000000000000000000000000000000, shift: 128, offset: 1888 },
        78 => Magic { mask: 0x0, magic: 0x00000000000000000000000000000000, shift: 128, offset: 1888 },
        79 => Magic { mask: 0x1F0000, magic: 0x00fc462aecccdaca51249b5aeccb0c00, shift: 123, offset: 1888 },
        80 => Magic { mask: 0x3E00000, magic: 0x003f0aa7bb34d3b14512535ae7aa2800, shift: 123, offset: 1920 },
        81 => Magic { mask: 0x7C000000, magic: 0x000fc26bb4dc8fa0d4c94cdbbf3a4800, shift: 123, offset: 1952 },
        82 => Magic { mask: 0xF80000000, magic: 0x0003eaee8b6a9ea51622aa5eea6b4800, shift: 123, offset: 1984 },
        83 => Magic { mask: 0xF800000000, magic: 0x0000faeecb2cbabaaa14ca9faeeea800, shift: 123, offset: 2016 },
        84 => Magic { mask: 0xF8000000000, magic: 0x00003eefbe6ebef6ea2296bdaeaeb800, shift: 123, offset: 2048 },
        85 => Magic { mask: 0xF80000000000, magic: 0x00000ffbeaaa4caeea6aeeb6caaea800, shift: 123, offset: 2080 },
        86 => Magic { mask: 0x3E00000000000, magic: 0x0000003fabaaa4cae4aa2eb6caaaa800, shift: 123, offset: 2112 },
        87 => Magic { mask: 0x0, magic: 0x00000000000000000000000000000000, shift: 128, offset: 2144 },
        88 => Magic { mask: 0x0, magic: 0x00000000000000000000000000000000, shift: 128, offset: 2144 },
        89 => Magic { mask: 0x0, magic: 0x00000000000000000000000000000000, shift: 128, offset: 2144 },
        90 => Magic { mask: 0x0, magic: 0x00000000000000000000000000000000, shift: 128, offset: 2144 },
        91 => Magic { mask: 0x3E00000, magic: 0x003f0aa7bb34d3b14512535ae7aa2800, shift: 123, offset: 2144 },
        92 => Magic { mask: 0x7C000000, magic: 0x000fc26bb4dc8fa0d4c94cdbbf3a4800, shift: 123, offset: 2176 },
        93 => Magic { mask: 0xF80000000, magic: 0x0003eaee8b6a9ea51622aa5eea6b4800, shift: 123, offset: 2208 },
        94 => Magic { mask: 0xF800000000, magic: 0x0000faeecb2cbabaaa14ca9faeeea800, shift: 123, offset: 2240 },
        95 => Magic { mask: 0xF8000000000, magic: 0x00003eefbe6ebef6ea2296bdaeaeb800, shift: 123, offset: 2272 },
        96 => Magic { mask: 0xF80000000000, magic: 0x00000ffbeaaa4caeea6aeeb6caaea800, shift: 123, offset: 2304 },
        97 => Magic { mask: 0x3E00000000000, magic: 0x0000003fabaaa4cae4aa2eb6caaaa800, shift: 123, offset: 2336 },
        98 => Magic { mask: 0x0, magic: 0x00000000000000000000000000000000, shift: 128, offset: 2368 },
        99 => Magic { mask: 0x0, magic: 0x00000000000000000000000000000000, shift: 128, offset: 2368 },
        100 => Magic { mask: 0x0, magic: 0x00000000000000000000000000000000, shift: 128, offset: 2368 },
        101 => Magic { mask: 0x0, magic: 0x00000000000000000000000000000000, shift: 128, offset: 2368 },
        102 => Magic { mask: 0x0, magic: 0x00000000000000000000000000000000, shift: 128, offset: 2368 },
        103 => Magic { mask: 0x7C000000, magic: 0x000fc26bb4dc8fa0d4c94cdbbf3a4800, shift: 123, offset: 2368 },
        104 => Magic { mask: 0xF80000000, magic: 0x0003eaee8b6a9ea51622aa5eea6b4800, shift: 123, offset: 2400 },
        105 => Magic { mask: 0xF800000000, magic: 0x0000faeecb2cbabaaa14ca9faeeea800, shift: 123, offset: 2432 },
        106 => Magic { mask: 0xF8000000000, magic: 0x00003eefbe6ebef6ea2296bdaeaeb800, shift: 123, offset: 2464 },
        107 => Magic { mask: 0xF80000000000, magic: 0x00000ffbeaaa4caeea6aeeb6caaea800, shift: 123, offset: 2496 },
        108 => Magic { mask: 0x3E00000000000, magic: 0x0000003fabaaa4cae4aa2eb6caaaa800, shift: 123, offset: 2528 },
        109 => Magic { mask: 0x0, magic: 0x00000000000000000000000000000000, shift: 128, offset: 2560 },
        110 => Magic { mask: 0x0, magic: 0x00000000000000000000000000000000, shift: 128, offset: 2560 },
        111 => Magic { mask: 0x0, magic: 0x00000000000000000000000000000000, shift: 128, offset: 2560 },
        112 => Magic { mask: 0x0, magic: 0x00000000000000000000000000000000, shift: 128, offset: 2560 },
        113 => Magic { mask: 0x0, magic: 0x00000000000000000000000000000000, shift: 128, offset: 2560 },
        114 => Magic { mask: 0x0, magic: 0x00000000000000000000000000000000, shift: 128, offset: 2560 },
        115 => Magic { mask: 0xF80000000, magic: 0x0003eaee8b6a9ea51622aa5eea6b4800, shift: 123, offset: 2560 },
        116 => Magic { mask: 0xF800000000, magic: 0x0000faeecb2cbabaaa14ca9faeeea800, shift: 123, offset: 2592 },
        117 => Magic { mask: 0xF8000000000, magic: 0x00003eefbe6ebef6ea2296bdaeaeb800, shift: 123, offset: 2624 },
        118 => Magic { mask: 0xF80000000000, magic: 0x00000ffbeaaa4caeea6aeeb6caaea800, shift: 123, offset: 2656 },
        119 => Magic { mask: 0x3E00000000000, magic: 0x0000003fabaaa4cae4aa2eb6caaaa800, shift: 123, offset: 2688 },
        120 => Magic { mask: 0x0, magic: 0x00000000000000000000000000000000, shift: 128, offset: 2720 },
        _ => Magic { mask: 0, magic: 0, shift: 128, offset: 0 },
    }
}

pub(crate) fn rook_r_magic(idx: u8) -> (r: Magic)
    requires
        idx < 121,
    ensures
        r == spec_rook_r_magic(idx),
        magic_fits(r, 24576),
{
    match idx {
        0 => Magic { mask: 0x7C0, magic: 0x1f02148408a110a18431055018a38100, shift: 123, offset: 0 },
        1 => Magic { mask: 0xF800, magic: 0x07de0255c4d0a138902048500c563800, shift: 123, offset: 32 },
        2 => Magic { mask: 0x1F0000, magic: 0x00fc4214488b0a99182410a6cc662400, shift: 123, offset: 64 },
        3 => Magic { mask: 0x3E00000, magic: 0x003f1141444d32a4a82410d4ea3d0800, shift: 123, offset: 96 },
        4 => Magic { mask: 0x7C000000, magic: 0x000fa2514d868995a91448dbbbba2800, shift: 123, offset: 128 },
        5 => Magic { mask: 0xF80000000, magic: 0x0003e8a4a4b2a4aa92212959ea2fa800, shift: 123, offset: 160 },
        6 => Magic { mask: 0x0, magic: 0x00000000000000000000000000000000, shift: 128, offset: 192 },
        7 => Magic { mask: 0x0, magic: 0x00000000000000000000000000000000, shift: 128, offset: 192 },
        8 => Magic { mask: 0x0, magic: 0x00000000000000000000000000000000, shift: 128, offset: 192 },
        9 => Magic { mask: 0x0, magic: 0x00000000000000000000000000000000, shift: 128, offset: 192 },
        10 => Magic { mask: 0x0, magic: 0x00000000000000000000000000000000, shift: 128, offset: 192 },
        11 => Magic { mask: 0x7C0, magic: 0x1f0214821c3222a4d0411a141aa32200, shift: 123, offset: 192 },
        12 => Magic { mask: 0xF800, magic: 0x07da290cb646eaec82245a90962b4800, shift: 123, offset: 224 },
        13 => Magic { mask: 0x1F0000, magic: 0x00fc462aecccdaca51249b5aeccb0c00, shift: 123, offset: 256 },
        14 => Magic { mask: 0x3E00000, magic: 0x003f0aa7bb34d3b14512535ae7aa2800, shift: 123, offset: 288 },
        15 => Magic { mask: 0x7C000000, magic: 0x000fc26bb4dc8fa0d4c94cdbbf3a4800, shift: 123, offset: 320 },
        16 => Magic { mask: 0xF80000000, magic: 0x0003eaee8b6a9ea51622aa5eea6b4800, shift: 123, offset: 352 },
        17 => Magic { mask: 0xF800000000, magic: 0x0000faeecb2cbabaaa14ca9faeeea800, shift: 123, offset: 384 },
        18 => Magic { mask: 0x0, magic: 0x00000000000000000000000000000000, shift: 128, offset: 416 },
        19 => Magic { mask: 0x0, magic: 0x00000000000000000000000000000000, shift: 128, offset: 416 },
        20 => Magic { mask: 0x0, magic: 0x00000000000000000000000000000000, shift: 128, offset: 416 },
        21 => Magic { mask: 0x0, magic: 0x00000000000000000000000000000000, shift: 128, offset: 416 },
        22 => Magic { mask: 0x7C0, magic: 0x1f0214821c3222a4d0411a141aa32200, shift: 123, offset: 416 },
        23 => Magic { mask: 0xF800, magic: 0x07da290cb646eaec82245a90962b4800, shift: 123, offset: 448 },
        24 => Magic { mask: 0x1F0000, magic: 0x00fc462aecccdaca51249b5aeccb0c00, shift: 123, offset: 480 },
        25 => Magic { mask: 0x3E00000, magic: 0x003f0aa7bb34d3b14512535ae7aa2800, shift: 123, offset: 512 },
        26 => Magic { mask: 0x7C000000, magic: 0x000fc26bb4dc8fa0d4c94cdbbf3a4800, shift: 123, offset: 544 },
        27 => Magic { mask: 0xF80000000, magic: 0x0003eaee8b6a9ea51622aa5eea6b4800, shift: 123, offset: 576 },
        28 => Magic { mask: 0xF800000000, magic: 0x0000faeecb2cbabaaa14ca9faeeea800, shift: 123, offset: 608 },
        29 => Magic { mask: 0xF8000000000, magic: 0x00003eefbe6ebef6ea2296bdaeaeb800, shift: 123, offset: 640 },
        30 => Magic { mask: 0x0, magic: 0x00000000000000000000000000000000, shift: 128, offset: 672 },
        31 => Magic { mask: 0x0, magic: 0x00000000000000000000000000000000, shift: 128, offset: 672 },
        32 => Magic { mask: 0x0, magic: 0x00000000000000000000000000000000, shift: 128, offset: 672 },
        33 => Magic { mask: 0x7C0, magic: 0x1f0214821c3222a4d0411a141aa32200, shift: 123, offset: 672 },
        34 => Magic { mask: 0xF800, magic: 0x07da290cb646eaec82245a90962b4800, shift: 123, offset: 704 },
        35 => Magic { mask: 0x1F0000, magic: 0x00fc462aecccdaca51249b5aeccb0c00, shift: 123, offset: 736 },
        36 => Magic { mask: 0x3E00000, magic: 0x003f0aa7bb34d3b14512535ae7aa2800, shift: 123, offset: 768 },
        37 => Magic { mask: 0x7C000000, magic: 0x000fc26bb4dc8fa0d4c94cdbbf3a4800, shift: 123, offset: 800 },
        38 => Magic { mask: 0xF80000000, magic: 0x0003eaee8b6a9ea51622aa5eea6b4800, shift: 123, offset: 832 },
        39 => Magic { mask: 0xF800000000, magic: 0x0000faeecb2cbabaaa14ca9faeeea800, shift: 123, offset: 864 },
        40 => Magic { mask: 0xF8000000000, magic: 0x00003eefbe6ebef6ea2296bdaeaeb800, shift: 123, offset: 896 },
        41 => Magic { mask: 0xF80000000000, magic: 0x00000ffbeaaa4caeea6aeeb6caaea800, shift: 123, offset: 928 },
        42 => Magic { mask: 0x0, magic: 0x00000000000000000000000000000000, shift: 128, offset: 960 },
        43 => Magic { mask: 0x0, magic: 0x00000000000000000000000000000000, shift: 128, offset: 960 },
        44 => Magic { mask: 0x7C0, magic: 0x1f0214821c3222a4d0411a141aa32200, shift: 123, offset: 960 },
        45 => Magic { mask: 0xF800, magic: 0x07da290cb646eaec82245a90962b4800, shift: 123, offset: 992 },
        46 => Magic { mask: 0x1F0000, magic: 0x00fc462aecccdaca51249b5aeccb0c00, shift: 123, offset: 1024 },
        47 => Magic { mask: 0x3E00000, magic: 0x003f0aa7bb34d3b14512535ae7aa2800, shift: 123, offset: 1056 },
        48 => Magic { mask: 0x7C000000, magic: 0x000fc26bb4dc8fa0d4c94cdbbf3a4800, shift: 123, offset: 1088 },
        49 => Magic { mask: 0xF80000000, magic: 0x0003eaee8b6a9ea51622aa5eea6b4800, shift: 123, offset: 1120 },
        50 => Magic { mask: 0xF800000000, magic: 0x0000faeecb2cbabaaa14ca9faeeea800, shift: 123, offset: 1152 },
        51 => Magic { mask: 0xF8000000000, magic: 0x00003eefbe6ebef6ea2296bdaeaeb800, shift: 123, offset: 1184 },
        52 => Magic { mask: 0xF80000000000, magic: 0x00000ffbeaaa4caeea6aeeb6caaea800, shift: 123, offset: 1216 },
        53 => Magic { mask: 0x3E00000000000, magic: 0x0000003fabaaa4cae4aa2eb6caaaa800, shift: 123, offset: 1248 },
        54 => Magic { mask: 0x0, magic: 0x00000000000000000000000000000000, shift: 128, offset: 1280 },
        55 => Magic { mask: 0x3E0, magic: 0x0f810a410e191150c2208d0c0c511000, shift: 123, offset: 1280 },
        56 => Magic { mask: 0xF800, magic: 0x07da290cb646eaec82245a90962b4800, shift: 123, offset: 1312 },
        57 => Magic { mask: 0x1F0000, magic: 0x00fc462aecccdaca51249b5aeccb0c00, shift: 123, offset: 1344 },
        58 => Magic { mask: 0x3E00000, magic: 0x003f0aa7bb34d3b14512535ae7aa2800, shift: 123, offset: 1376 },
        59 => Magic { mask: 0x7C000000, magic: 0x000fc26bb4dc8fa0d4c94cdbbf3a4800, shift: 123, offset: 1408 },
        60 => Magic { mask: 0xF80000000, magic: 0x0003eaee8b6a9ea51622aa5eea6b4800, shift: 123, offset: 1440 },
        61 => Magic { mask: 0xF800000000, magic: 0x0000faeecb2cbabaaa14ca9faeeea800, shift: 123, offset: 1472 },
        62 => Magic { mask: 0xF8000000000, magic: 0x00003eefbe6ebef6ea2296bdaeaeb800, shift: 123, offset: 1504 },
        63 => Magic { mask: 0xF80000000000, magic: 0x00000ffbeaaa4caeea6aeeb6caaea800, shift: 123, offset: 1536 },
        64 => Magic { mask: 0x3E00000000000, magic: 0x0000003fabaaa4cae4aa2eb6caaaa800, shift: 123, offset: 1568 },
        65 => Magic { mask: 0x0, magic: 0x00000000000000000000000000000000, shift: 128, offset: 1600 },
        66 => Magic { mask: 0x0, magic: 0x00000000000000000000000000000000, shift: 128, offset: 1600 },
        67 => Magic { mask: 0xF800, magic: 0x07da290cb646eaec82245a90962b4800, shift: 123, offset: 1600 },
        68 => Magic { mask: 0x1F0000, magic: 0x00fc462aecccdaca51249b5aeccb0c00, shift: 123, offset: 1632 },
        69 => Magic { mask: 0x3E00000, magic: 0x003f0aa7bb34d3b14512535ae7aa2800, shift: 123, offset: 1664 },
        70 => Magic { mask: 0x7C000000, magic: 0x000fc26bb4dc8fa0d4c94cdbbf3a4800, shift: 123, offset: 1696 },
        71 => Magic { mask: 0xF80000000, magic: 0x0003eaee8b6a9ea51622aa5eea6b4800, shift: 123, offset: 1728 },
        72 => Magic { mask: 0xF800000000, magic: 0x0000faeecb2cbabaaa14ca9faeeea800, shift: 123, offset: 1760 },
        73 => Magic { mask: 0xF8000000000, magic: 0x00003eefbe6ebef6ea2296bdaeaeb800, shift: 123, offset: 1792 },
        74 => Magic { mask: 0xF80000000000, magic: 0x00000ffbeaaa4caeea6aeeb6caaea800, shift: 123, offset: 1824 },
        75 => Magic { mask: 0x3E00000000000, magic: 0x0000003fabaaa4cae4aa2eb6caaaa800, shift: 123, offset: 1856 },
        76 => Magic { mask: 0x0, magic: 0x00000000000000000000000000000000, shift: 128, offset: 1888 },
        77 => Magic { mask: 0x0, magic: 0x00000000000000000000000000000000, shift: 128, offset: 1888 },
        78 => Magic { mask: 0x0, magic: 0x00000000000000000000000000000000, shift: 128, offset: 1888 },
        79 => Magic { mask: 0x1F0000, magic: 0x00fc462aecccdaca51249b5aeccb0c00, shift: 123, offset: 1888 },
        80 => Magic { mask: 0x3E00000, magic: 0x003f0aa7bb34d3b14512535ae7aa2800, shift: 123, offset: 1920 },
        81 => Magic { mask: 0x7C000000, magic: 0x000fc26bb4dc8fa0d4c94cdbbf3a4800, shift: 123, offset: 1952 },
        82 => Magic { mask: 0xF80000000, magic: 0x0003eaee8b6a9ea51622aa5eea6b4800, shift: 123, offset: 1984 },
        83 => Magic { mask: 0xF800000000, magic: 0x0000faeecb2cbabaaa14ca9faeeea800, shift: 123, offset: 2016 },
        84 => Magic { mask: 0xF8000000000, magic: 0x00003eefbe6ebef6ea2296bdaeaeb800, shift: 123, offset: 2048 },
        85 => Magic { mask: 0xF80000000000, magic: 0x00000ffbeaaa4caeea6aeeb6caaea800, shift: 123, offset: 2080 },
        86 => Magic { mask: 0x3E00000000000, magic: 0x0000003fabaaa4cae4aa2eb6caaaa800, shift: 123, offset: 2112 },
        87 => Magic { mask: 0x0, magic: 0x00000000000000000000000000000000, shift: 128, offset: 2144 },
        88 => Magic { mask: 0x0, magic: 0x00000000000000000000000000000000, shift: 128, offset: 2144 },
        89 => Magic { mask: 0x0, magic: 0x00000000000000000000000000000000, shift: 128, offset: 2144 },
        90 => Magic { mask: 0x0, magic: 0x00000000000000000000000000000000, shift: 128, offset: 2144 },
        91 => Magic { mask: 0x3E00000, magic: 0x003f0aa7bb34d3b14512535ae7aa2800, shift: 123, offset: 2144 },
        92 => Magic { mask: 0x7C000000, magic: 0x000fc26bb4dc8fa0d4c94cdbbf3a4800, shift: 123, offset: 2176 },
        93 => Magic { mask: 0xF80000000, magic: 0x0003eaee8b6a9ea51622aa5eea6b4800, shift: 123, offset: 2208 },
        94 => Magic { mask: 0xF800000000, magic: 0x0000faeecb2cbabaaa14ca9faeeea800, shift: 123, offset: 2240 },
        95 => Magic { mask: 0xF8000000000, magic: 0x00003eefbe6ebef6ea2296bdaeaeb800, shift: 123, offset: 2272 },
        96 => Magic { mask: 0xF80000000000, magic: 0x00000ffbeaaa4caeea6aeeb6caaea800, shift: 123, offset: 2304 },
        97 => Magic { mask: 0x3E00000000000, magic: 0x0000003fabaaa4cae4aa2eb6caaaa800, shift: 123, offset: 2336 },
        98 => Magic { mask: 0x0, magic: 0x00000000000000000000000000000000, shift: 128, offset: 2368 },
        99 => Magic { mask: 0x0, magic: 0x00000000000000000000000000000000, shift: 128, offset: 2368 },
        100 => Magic { mask: 0x0, magic: 0x00000000000000000000000000000000, shift: 128, offset: 2368 },
        101 => Magic { mask: 0x0, magic: 0x00000000000000000000000000000000, shift: 128, offset: 2368 },
        102 => Magic { mask: 0x0, magic: 0x00000000000000000000000000000000, shift: 128, offset: 2368 },
        103 => Magic { mask: 0x7C000000, magic: 0x000fc26bb4dc8fa0d4c94cdbbf3a4800, shift: 123, offset: 2368 },
        104 => Magic { mask: 0xF80000000, magic: 0x0003eaee8b6a9ea51622aa5eea6b4800, shift: 123, offset: 2400 },
        105 => Magic { mask: 0xF800000000, magic: 0x0000faeecb2cbabaaa14ca9faeeea800, shift: 123, offset: 2432 },
        106 => Magic { mask: 0xF8000000000, magic: 0x00003eefbe6ebef6ea2296bdaeaeb800, shift: 123, offset: 2464 },
        107 => Magic { mask: 0xF80000000000, magic: 0x00000ffbeaaa4caeea6aeeb6caaea800, shift: 123, offset: 2496 },
        108 => Magic { mask: 0x3E00000000000, magic: 0x0000003fabaaa4cae4aa2eb6caaaa800, shift: 123, offset: 2528 },
        109 => Magic { mask: 0x0, magic: 0x00000000000000000000000000000000, shift: 128, offset: 2560 },
        110 => Magic { mask: 0x0, magic: 0x00000000000000000000000000000000, shift: 128, offset: 2560 },
        111 => Magic { mask: 0x0, magic: 0x00000000000000000000000000000000, shift: 128, offset: 2560 },
        112 => Magic { mask: 0x0, magic: 0x00000000000000000000000000000000, shift: 128, offset: 2560 },
        113 => Magic { mask: 0x0, magic: 0x00000000000000000000000000000000, shift: 128, offset: 2560 },
        114 => Magic { mask: 0x0, magic: 0x00000000000000000000000000000000, shift: 128, offset: 2560 },
        115 => Magic { mask: 0xF80000000, magic: 0x0003eaee8b6a9ea51622aa5eea6b4800, shift: 123, offset: 2560 },
        116 => Magic { mask: 0xF800000000, magic: 0x0000faeecb2cbabaaa14ca9faeeea800, shift: 123, offset: 2592 },
        117 => Magic { mask: 0xF8000000000, magic: 0x00003eefbe6ebef6ea2296bdaeaeb800, shift: 123, offset: 2624 },
        118 => Magic { mask: 0xF80000000000, magic: 0x00000ffbeaaa4caeea6aeeb6caaea800, shift: 123, offset: 2656 },
        119 => Magic { mask: 0x3E00000000000, magic: 0x0000003fabaaa4cae4aa2eb6caaaa800, shift: 123, offset: 2688 },
        120 => Magic { mask: 0x0, magic: 0x00000000000000000000000000000000, shift: 128, offset: 2720 },
        _ => Magic { mask: 0, magic: 0, shift: 128, offset: 0 },
    }
}

/// Magic parameters of the rook lookup along the second axis (database of 24576 entries).
pub open spec fn spec_rook_c_magic(idx: u8) -> Magic {
    match idx {
        0 => Magic { mask: 0x40080100202020004000, magic: 0x0114002450005080c502120c43041000, shift: 123, offset: 0 },
        1 => Magic { mask: 0x80100200404040008000, magic: 0x03a435aeeb5daeaece224a5eea3b2000, shift: 123, offset: 32 },
        2 => Magic { mask: 0x110200400808080010000, magic: 0x0df2bb6eb6fcaefeeee2d4baeedb1000, shift: 123, offset: 64 },
        3 => Magic { mask: 0x220400801010101002000, magic: 0x0f8aebeebeaed6deeeb69ef6caeed000, shift: 123, offset: 96 },
        4 => Magic { mask: 0x440801002020202004000, magic: 0x0b69efaeeeaeaadeee9efadaeaeaa000, shift: 123, offset: 128 },
        5 => Magic { mask: 0x881002004040404008000, magic: 0x0d41e7dcdbc6baee1de6efbaeaeb2000, shift: 123, offset: 160 },
        6 => Magic { mask: 0x0, magic: 0x00000000000000000000000000000000, shift: 128, offset: 192 },
        7 => Magic { mask: 0x0, magic: 0x00000000000000000000000000000000, shift: 128, offset: 192 },
        8 => Magic { mask: 0x0, magic: 0x00000000000000000000000000000000, shift: 128, offset: 192 },
        9 => Magic { mask: 0x0, magic: 0x00000000000000000000000000000000, shift: 128, offset: 192 },
        10 => Magic { mask: 0x0, magic: 0x00000000000000000000000000000000, shift: 128, offset: 192 },
        11 => Magic { mask: 0x40080100202020000000, magic: 0x0114002450005080c502120c43041000, shift: 123, offset: 192 },
        12 => Magic { mask: 0x80100200404040008000, magic: 0x03a435aeeb5daeaece224a5eea3b2000, shift: 123, offset: 224 },
        13 => Magic { mask: 0x110200400808080010000, magic: 0x0df2bb6eb6fcaefeeee2d4baeedb1000, shift: 123, offset: 256 },
        14 => Magic { mask: 0x220400801010101002000, magic: 0x0f8aebeebeaed6deeeb69ef6caeed000, shift: 123, offset: 288 },
        15 => Magic { mask: 0x440801002020202004000, magic: 0x0b69efaeeeaeaadeee9efadaeaeaa000, shift: 123, offset: 320 },
        16 => Magic { mask: 0x881002004040404008000, magic: 0x0d41e7dcdbc6baee1de6efbaeaeb2000, shift: 123, offset: 352 },
        17 => Magic { mask: 0x1102004008080808010000, magic: 0x06aeefaeae2aecdaae2eeeb6caaca000, shift: 123, offset: 384 },
        18 => Magic { mask: 0x0, magic: 0x00000000000000000000000000000000, shift: 128, offset: 416 },
        19 => Magic { mask: 0x0, magic: 0x00000000000000000000000000000000, shift: 128, offset: 416 },
        20 => Magic { mask: 0x0, magic: 0x00000000000000000000000000000000, shift: 128, offset: 416 },
        21 => Magic { mask: 0x0, magic: 0x00000000000000000000000000000000, shift: 128, offset: 416 },
        22 => Magic { mask: 0x40080100202020000000, magic: 0x0114002450005080c502120c43041000, shift: 123, offset: 416 },
        23 => Magic { mask: 0x80100200404040000000, magic: 0x03a435aeeb5daeaece224a5eea3b2000, shift: 123, offset: 448 },
        24 => Magic { mask: 0x110200400808080010000, magic: 0x0df2bb6eb6fcaefeeee2d4baeedb1000, shift: 123, offset: 480 },
        25 => Magic { mask: 0x220400801010101002000, magic: 0x0f8aebeebeaed6deeeb69ef6caeed000, shift: 123, offset: 512 },
        26 => Magic { mask: 0x440801002020202004000, magic: 0x0b69efaeeeaeaadeee9efadaeaeaa000, shift: 123, offset: 544 },
        27 => Magic { mask: 0x881002004040404008000, magic: 0x0d41e7dcdbc6baee1de6efbaeaeb2000, shift: 123, offset: 576 },
        28 => Magic { mask: 0x1102004008080808010000, magic: 0x06aeefaeae2aecdaae2eeeb6caaca000, shift: 123, offset: 608 },
        29 => Magic { mask: 0x2204008010101010020000, magic: 0x0d48aaeea24a12ca924ca54eaca38000, shift: 123, offset: 640 },
        30 => Magic { mask: 0x0, magic: 0x00000000000000000000000000000000, shift: 128, offset: 672 },
        31 => Magic { mask: 0x0, magic: 0x00000000000000000000000000000000, shift: 128, offset: 672 },
        32 => Magic { mask: 0x0, magic: 0x00000000000000000000000000000000, shift: 128, offset: 672 },
        33 => Magic { mask: 0x40080100202020000000, magic: 0x0114002450005080c502120c43041000, shift: 123, offset: 672 },
        34 => Magic { mask: 0x80100200404040000000, magic: 0x03a435aeeb5daeaece224a5eea3b2000, shift: 123, offset: 704 },
        35 => Magic { mask: 0x110200400808080010000, magic: 0x0df2bb6eb6fcaefeeee2d4baeedb1000, shift: 123, offset: 736 },
        36 => Magic { mask: 0x220400801010101000000, magic: 0x0f8aebeebeaed6deeeb69ef6caeed000, shift: 123, offset: 768 },
        37 => Magic { mask: 0x440801002020202004000, magic: 0x0b69efaeeeaeaadeee9efadaeaeaa000, shift: 123, offset: 800 },
        38 => Magic { mask: 0x881002004040404008000, magic: 0x0d41e7dcdbc6baee1de6efbaeaeb2000, shift: 123, offset: 832 },
        39 => Magic { mask: 0x1102004008080808010000, magic: 0x06aeefaeae2aecdaae2eeeb6caaca000, shift: 123, offset: 864 },
        40 => Magic { mask: 0x2204008010101010020000, magic: 0x0d48aaeea24a12ca924ca54eaca38000, shift: 123, offset: 896 },
        41 => Magic { mask: 0x4408001020202020040000, magic: 0x03a22530812111521224910e20c30000, shift: 123, offset: 928 },
        42 => Magic { mask: 0x0, magic: 0x00000000000000000000000000000000, shift: 128, offset: 960 },
        43 => Magic { mask: 0x0, magic: 0x00000000000000000000000000000000, shift: 128, offset: 960 },
        44 => Magic { mask: 0x40080100202020000000, magic: 0x0114002450005080c502120c43041000, shift: 123, offset: 960 },
        45 => Magic { mask: 0x80100200404040000000, magic: 0x03a435aeeb5daeaece224a5eea3b2000, shift: 123, offset: 992 },
        46 => Magic { mask: 0x110200400808080010000, magic: 0x0df2bb6eb6fcaefeeee2d4baeedb1000, shift: 123, offset: 1024 },
        47 => Magic { mask: 0x220400801010101000000, magic: 0x0f8aebeebeaed6deeeb69ef6caeed000, shift: 123, offset: 1056 },
        48 => Magic { mask: 0x440801002020202000000, magic: 0x0b69efaeeeaeaadeee9efadaeaeaa000, shift: 123, offset: 1088 },
        49 => Magic { mask: 0x881002004040404008000, magic: 0x0d41e7dcdbc6baee1de6efbaeaeb2000, shift: 123, offset: 1120 },
        50 => Magic { mask: 0x1102004008080808010000, magic: 0x06aeefaeae2aecdaae2eeeb6caaca000, shift: 123, offset: 1152 },
        51 => Magic { mask: 0x2204008010101010020000, magic: 0x0d48aaeea24a12ca924ca54eaca38000, shift: 123, offset: 1184 },
        52 => Magic { mask: 0x4408001020202020040000, magic: 0x03a22530812111521224910e20c30000, shift: 123, offset: 1216 },
        53 => Magic { mask: 0x8810002040404040080000, magic: 0x01141128410881510484510620850000, shift: 123, offset: 1248 },
        54 => Magic { mask: 0x0, magic: 0x00000000000000000000000000000000, shift: 128, offset: 1280 },
        55 => Magic { mask: 0x40080100202020000000, magic: 0x0114002450005080c502120c43041000, shift: 123, offset: 1280 },
        56 => Magic { mask: 0x80100200404040000000, magic: 0x03a435aeeb5daeaece224a5eea3b2000, shift: 123, offset: 1312 },
        57 => Magic { mask: 0x110200400808080010000, magic: 0x0df2bb6eb6fcaefeeee2d4baeedb1000, shift: 123, offset: 1344 },
        58 => Magic { mask: 0x220400801010101000000, magic: 0x0f8aebeebeaed6deeeb69ef6caeed000, shift: 123, offset: 1376 },
        59 => Magic { mask: 0x440801002020202000000, magic: 0x0b69efaeeeaeaadeee9efadaeaeaa000, shift: 123, offset: 1408 },
        60 => Magic { mask: 0x881002004040404000000, magic: 0x0d41e7dcdbc6baee1de6efbaeaeb2000, shift: 123, offset: 1440 },
        61 => Magic { mask: 0x1102004008080808010000, magic: 0x06aeefaeae2aecdaae2eeeb6caaca000, shift: 123, offset: 1472 },
        62 => Magic { mask: 0x2204008010101010020000, magic: 0x0d48aaeea24a12ca924ca54eaca38000, shift: 123, offset: 1504 },
        63 => Magic { mask: 0x4408001020202020040000, magic: 0x03a22530812111521224910e20c30000, shift: 123, offset: 1536 },
        64 => Magic { mask: 0x8810002040404040080000, magic: 0x01141128410881510484510620850000, shift: 123, offset: 1568 },
        65 => Magic { mask: 0x11020004080808080100000, magic: 0x00a8a104210440a42448450a20430000, shift: 123, offset: 1600 },
        66 => Magic { mask: 0x0, magic: 0x00000000000000000000000000000000, shift: 128, offset: 1632 },
        67 => Magic { mask: 0x80100200404040000000, magic: 0x03a435aeeb5daeaece224a5eea3b2000, shift: 123, offset: 1632 },
        68 => Magic { mask: 0x110200400808080010000, magic: 0x0df2bb6eb6fcaefeeee2d4baeedb1000, shift: 123, offset: 1664 },
        69 => Magic { mask: 0x220400801010101000000, magic: 0x0f8aebeebeaed6deeeb69ef6caeed000, shift: 123, offset: 1696 },
        70 => Magic { mask: 0x440801002020202000000, magic: 0x0b69efaeeeaeaadeee9efadaeaeaa000, shift: 123, offset: 1728 },
        71 => Magic { mask: 0x881002004040404000000, magic: 0x0d41e7dcdbc6baee1de6efbaeaeb2000, shift: 123, offset: 1760 },
        72 => Magic { mask: 0x1102004008080808010000, magic: 0x06aeefaeae2aecdaae2eeeb6caaca000, shift: 123, offset: 1792 },
        73 => Magic { mask: 0x2204008010101010020000, magic: 0x0d48aaeea24a12ca924ca54eaca38000, shift: 123, offset: 1824 },
        74 => Magic { mask: 0x4408001020202020040000, magic: 0x03a22530812111521224910e20c30000, shift: 123, offset: 1856 },
        75 => Magic { mask: 0x8810002040404040080000, magic: 0x01141128410881510484510620850000, shift: 123, offset: 1888 },
        76 => Magic { mask: 0x11020004080808080100000, magic: 0x00a8a104210440a42448450a20430000, shift: 123, offset: 1920 },
        77 => Magic { mask: 0x0, magic: 0x00000000000000000000000000000000, shift: 128, offset: 1952 },
        78 => Magic { mask: 0x0, magic: 0x00000000000000000000000000000000, shift: 128, offset: 1952 },
        79 => Magic { mask: 0x110200400808080010000, magic: 0x0df2bb6eb6fcaefeeee2d4baeedb1000, shift: 123, offset: 1952 },
        80 => Magic { mask: 0x220400801010101000000, magic: 0x0f8aebeebeaed6deeeb69ef6caeed000, shift: 123, offset: 1984 },
        81 => Magic { mask: 0x440801002020202000000, magic: 0x0b69efaeeeaeaadeee9efadaeaeaa000, shift: 123, offset: 2016 },
        82 => Magic { mask: 0x881002004040404000000, magic: 0x0d41e7dcdbc6baee1de6efbaeaeb2000, shift: 123, offset: 2048 },
        83 => Magic { mask: 0x1102004008080808010000, magic: 0x06aeefaeae2aecdaae2eeeb6caaca000, shift: 123, offset: 2080 },
        84 => Magic { mask: 0x2204008010101010020000, magic: 0x0d48aaeea24a12ca924ca54eaca38000, shift: 123, offset: 2112 },
        85 => Magic { mask: 0x4408001020202020040000, magic: 0x03a22530812111521224910e20c30000, shift: 123, offset: 2144 },
        86 => Magic { mask: 0x8810002040404040080000, magic: 0x01141128410881510484510620850000, shift: 123, offset: 2176 },
        87 => Magic { mask: 0x11020004080808080100000, magic: 0x00a8a104210440a42448450a20430000, shift: 123, offset: 2208 },
        88 => Magic { mask: 0x0, magic: 0x00000000000000000000000000000000, shift: 128, offset: 2240 },
        89 => Magic { mask: 0x0, magic: 0x00000000000000000000000000000000, shift: 128, offset: 2240 },
        90 => Magic { mask: 0x0, magic: 0x00000000000000000000000000000000, shift: 128, offset: 2240 },
        91 => Magic { mask: 0x220400801010101000000, magic: 0x0f8aebeebeaed6deeeb69ef6caeed000, shift: 123, offset: 2240 },
        92 => Magic { mask: 0x440801002020202000000, magic: 0x0b69efaeeeaeaadeee9efadaeaeaa000, shift: 123, offset: 2272 },
        93 => Magic { mask: 0x881002004040404000000, magic: 0x0d41e7dcdbc6baee1de6efbaeaeb2000, shift: 123, offset: 2304 },
        94 => Magic { mask: 0x1102004008080808010000, magic: 0x06aeefaeae2aecdaae2eeeb6caaca000, shift: 123, offset: 2336 },
        95 => Magic { mask: 0x2204008010101010020000, magic: 0x0d48aaeea24a12ca924ca54eaca38000, shift: 123, offset: 2368 },
        96 => Magic { mask: 0x4408001020202020040000, magic: 0x03a22530812111521224910e20c30000, shift: 123, offset: 2400 },
        97 => Magic { mask: 0x8810002040404040080000, magic: 0x01141128410881510484510620850000, shift: 123, offset: 2432 },
        98 => Magic { mask: 0x11020004080808080100000, magic: 0x00a8a104210440a42448450a20430000, shift: 123, offset: 2464 },
        99 => Magic { mask: 0x0, magic: 0x00000000000000000000000000000000, shift: 128, offset: 2496 },
        100 => Magic { mask: 0x0, magic: 0x00000000000000000000000000000000, shift: 128, offset: 2496 },
        101 => Magic { mask: 0x0, magic: 0x00000000000000000000000000000000, shift: 128, offset: 2496 },
        102 => Magic { mask: 0x0, magic: 0x00000000000000000000000000000000, shift: 128, offset: 2496 },
        103 => Magic { mask: 0x440801002020202000000, magic: 0x0b69efaeeeaeaadeee9efadaeaeaa000, shift: 123, offset: 2496 },
        104 => Magic { mask: 0x881002004040404000000, magic: 0x0d41e7dcdbc6baee1de6efbaeaeb2000, shift: 123, offset: 2528 },
        105 => Magic { mask: 0x1102004008080808010000, magic: 0x06aeefaeae2aecdaae2eeeb6caaca000, shift: 123, offset: 2560 },
        106 => Magic { mask: 0x2204008010101010020000, magic: 0x0d48aaeea24a12ca924ca54eaca38000, shift: 123, offset: 2592 },
        107 => Magic { mask: 0x4408001020202020040000, magic: 0x03a22530812111521224910e20c30000, shift: 123, offset: 2624 },
        108 => Magic { mask: 0x8810002040404040080000, magic: 0x01141128410881510484510620850000, shift: 123, offset: 2656 },
        109 => Magic { mask: 0x11020004080808080100000, magic: 0x00a8a104210440a42448450a20430000, shift: 123, offset: 2688 },
        110 => Magic { mask: 0x0, magic: 0x00000000000000000000000000000000, shift: 128, offset: 2720 },
        111 => Magic { mask: 0x0, magic: 0x00000000000000000000000000000000, shift: 128, offset: 2720 },
        112 => Magic { mask: 0x0, magic: 0x00000000000000000000000000000000, shift: 128, offset: 2720 },
        113 => Magic { mask: 0x0, magic: 0x00000000000000000000000000000000, shift: 128, offset: 2720 },
        114 => Magic { mask: 0x0, magic: 0x00000000000000000000000000000000, shift: 128, offset: 2720 },
        115 => Magic { mask: 0x881002004040404000000, magic: 0x0d41e7dcdbc6baee1de6efbaeaeb2000, shift: 123, offset: 2720 },
        116 => Magic { mask: 0x1102004008080808010000, magic: 0x06aeefaeae2aecdaae2eeeb6caaca000, shift: 123, offset: 2752 },
        117 => Magic { mask: 0x2204008010101010020000, magic: 0x0d48aaeea24a12ca924ca54eaca38000, shift: 123, offset: 2784 },
        118 => Magic { mask: 0x4408001020202020040000, magic: 0x03a22530812111521224910e20c30000, shift: 123, offset: 2816 },
        119 => Magic { mask: 0x8810002040404040080000, magic: 0x01141128410881510484510620850000, shift: 123, offset: 2848 },
        120 => Magic { mask: 0x11020004080808080100000, magic: 0x00a8a104210440a42448450a20430000, shift: 123, offset: 2880 },
        _ => Magic { mask: 0, magic: 0, shift: 128, offset: 0 },
    }
}

pub(crate) fn rook_c_magic(idx: u8) -> (r: Magic)
    requires
        idx < 121,
    ensures
        r == spec_rook_c_magic(idx),
        magic_fits(r, 24576),
{
    match idx {
        0 => Magic { mask: 0x40080100202020004000, magic: 0x0114002450005080c502120c43041000, shift: 123, offset: 0 },
        1 => Magic { mask: 0x80100200404040008000, magic: 0x03a435aeeb5daeaece224a5eea3b2000, shift: 123, offset: 32 },
        2 => Magic { mask: 0x110200400808080010000, magic: 0x0df2bb6eb6fcaefeeee2d4baeedb1000, shift: 123, offset: 64 },
        3 => Magic { mask: 0x220400801010101002000, magic: 0x0f8aebeebeaed6deeeb69ef6caeed000, shift: 123, offset: 96 },
        4 => Magic { mask: 0x440801002020202004000, magic: 0x0b69efaeeeaeaadeee9efadaeaeaa000, shift: 123, offset: 128 },
        5 => Magic { mask: 0x881002004040404008000, magic: 0x0d41e7dcdbc6baee1de6efbaeaeb2000, shift: 123, offset: 160 },
        6 => Magic { mask: 0x0, magic: 0x00000000000000000000000000000000, shift: 128, offset: 192 },
        7 => Magic { mask: 0x0, magic: 0x00000000000000000000000000000000, shift: 128, offset: 192 },
        8 => Magic { mask: 0x0, magic: 0x00000000000000000000000000000000, shift: 128, offset: 192 },
        9 => Magic { mask: 0x0, magic: 0x00000000000000000000000000000000, shift: 128, offset: 192 },
        10 => Magic { mask: 0x0, magic: 0x00000000000000000000000000000000, shift: 128, offset: 192 },
        11 => Magic { mask: 0x40080100202020000000, magic: 0x0114002450005080c502120c43041000, shift: 123, offset: 192 },
        12 => Magic { mask: 0x80100200404040008000, magic: 0x03a435aeeb5daeaece224a5eea3b2000, shift: 123, offset: 224 },
        13 => Magic { mask: 0x110200400808080010000, magic: 0x0df2bb6eb6fcaefeeee2d4baeedb1000, shift: 123, offset: 256 },
        14 => Magic { mask: 0x220400801010101002000, magic: 0x0f8aebeebeaed6deeeb69ef6caeed000, shift: 123, offset: 288 },
        15 => Magic { mask: 0x440801002020202004000, magic: 0x0b69efaeeeaeaadeee9efadaeaeaa000, shift: 123, offset: 320 },
        16 => Magic { mask: 0x881002004040404008000, magic: 0x0d41e7dcdbc6baee1de6efbaeaeb2000, shift: 123, offset: 352 },
        17 => Magic { mask: 0x1102004008080808010000, magic: 0x06aeefaeae2aecdaae2eeeb6caaca000, shift: 123, offset: 384 },
        18 => Magic { mask: 0x0, magic: 0x00000000000000000000000000000000, shift: 128, offset: 416 },
        19 => Magic { mask: 0x0, magic: 0x00000000000000000000000000000000, shift: 128, offset: 416 },
        20 => Magic { mask: 0x0, magic: 0x00000000000000000000000000000000, shift: 128, offset: 416 },
        21 => Magic { mask: 0x0, magic: 0x00000000000000000000000000000000, shift: 128, offset: 416 },
        22 => Magic { mask: 0x40080100202020000000, magic: 0x0114002450005080c502120c43041000, shift: 123, offset: 416 },
        23 => Magic { mask: 0x80100200404040000000, magic: 0x03a435aeeb5daeaece224a5eea3b2000, shift: 123, offset: 448 },
        24 => Magic { mask: 0x110200400808080010000, magic: 0x0df2bb6eb6fcaefeeee2d4baeedb1000, shift: 123, offset: 480 },
        25 => Magic { mask: 0x220400801010101002000, magic: 0x0f8aebeebeaed6deeeb69ef6caeed000, shift: 123, offset: 512 },
        26 => Magic { mask: 0x440801002020202004000, magic: 0x0b69efaeeeaeaadeee9efadaeaeaa000, shift: 123, offset: 544 },
        27 => Magic { mask: 0x881002004040404008000, magic: 0x0d41e7dcdbc6baee1de6efbaeaeb2000, shift: 123, offset: 576 },
        28 => Magic { mask: 0x1102004008080808010000, magic: 0x06aeefaeae2aecdaae2eeeb6caaca000, shift: 123, offset: 608 },
        29 => Magic { mask: 0x2204008010101010020000, magic: 0x0d48aaeea24a12ca924ca54eaca38000, shift: 123, offset: 640 },
        30 => Magic { mask: 0x0, magic: 0x00000000000000000000000000000000, shift: 128, offset: 672 },
        31 => Magic { mask: 0x0, magic: 0x00000000000000000000000000000000, shift: 128, offset: 672 },
        32 => Magic { mask: 0x0, magic: 0x00000000000000000000000000000000, shift: 128, offset: 672 },
        33 => Magic { mask: 0x40080100202020000000, magic: 0x0114002450005080c502120c43041000, shift: 123, offset: 672 },
        34 => Magic { mask: 0x80100200404040000000, magic: 0x03a435aeeb5daeaece224a5eea3b2000, shift: 123, offset: 704 },
        35 => Magic { mask: 0x110200400808080010000, magic: 0x0df2bb6eb6fcaefeeee2d4baeedb1000, shift: 123, offset: 736 },
        36 => Magic { mask: 0x220400801010101000000, magic: 0x0f8aebeebeaed6deeeb69ef6caeed000, shift: 123, offset: 768 },
        37 => Magic { mask: 0x440801002020202004000, magic: 0x0b69efaeeeaeaadeee9efadaeaeaa000, shift: 123, offset: 800 },
        38 => Magic { mask: 0x881002004040404008000, magic: 0x0d41e7dcdbc6baee1de6efbaeaeb2000, shift: 123, offset: 832 },
        39 => Magic { mask: 0x1102004008080808010000, magic: 0x06aeefaeae2aecdaae2eeeb6caaca000, shift: 123, offset: 864 },
        40 => Magic { mask: 0x2204008010101010020000, magic: 0x0d48aaeea24a12ca924ca54eaca38000, shift: 123, offset: 896 },
        41 => Magic { mask: 0x4408001020202020040000, magic: 0x03a22530812111521224910e20c30000, shift: 123, offset: 928 },
        42 => Magic { mask: 0x0, magic: 0x00000000000000000000000000000000, shift: 128, offset: 960 },
        43 => Magic { mask: 0x0, magic: 0x00000000000000000000000000000000, shift: 128, offset: 960 },
        44 => Magic { mask: 0x40080100202020000000, magic: 0x0114002450005080c502120c43041000, shift: 123, offset: 960 },
        45 => Magic { mask: 0x80100200404040000000, magic: 0x03a435aeeb5daeaece224a5eea3b2000, shift: 123, offset: 992 },
        46 => Magic { mask: 0x110200400808080010000, magic: 0x0df2bb6eb6fcaefeeee2d4baeedb1000, shift: 123, offset: 1024 },
        47 => Magic { mask: 0x220400801010101000000, magic: 0x0f8aebeebeaed6deeeb69ef6caeed000, shift: 123, offset: 1056 },
        48 => Magic { mask: 0x440801002020202000000, magic: 0x0b69efaeeeaeaadeee9efadaeaeaa000, shift: 123, offset: 1088 },
        49 => Magic { mask: 0x881002004040404008000, magic: 0x0d41e7dcdbc6baee1de6efbaeaeb2000, shift: 123, offset: 1120 },
        50 => Magic { mask: 0x1102004008080808010000, magic: 0x06aeefaeae2aecdaae2eeeb6caaca000, shift: 123, offset: 1152 },
        51 => Magic { mask: 0x2204008010101010020000, magic: 0x0d48aaeea24a12ca924ca54eaca38000, shift: 123, offset: 1184 },
        52 => Magic { mask: 0x4408001020202020040000, magic: 0x03a22530812111521224910e20c30000, shift: 123, offset: 1216 },
        53 => Magic { mask: 0x8810002040404040080000, magic: 0x01141128410881510484510620850000, shift: 123, offset: 1248 },
        54 => Magic { mask: 0x0, magic: 0x00000000000000000000000000000000, shift: 128, offset: 1280 },
        55 => Magic { mask: 0x40080100202020000000, magic: 0x0114002450005080c502120c43041000, shift: 123, offset: 1280 },
        56 => Magic { mask: 0x80100200404040000000, magic: 0x03a435aeeb5daeaece224a5eea3b2000, shift: 123, offset: 1312 },
        57 => Magic { mask: 0x110200400808080010000, magic: 0x0df2bb6eb6fcaefeeee2d4baeedb1000, shift: 123, offset: 1344 },
        58 => Magic { mask: 0x220400801010101000000, magic: 0x0f8aebeebeaed6deeeb69ef6caeed000, shift: 123, offset: 1376 },
        59 => Magic { mask: 0x440801002020202000000, magic: 0x0b69efaeeeaeaadeee9efadaeaeaa000, shift: 123, offset: 1408 },
        60 => Magic { mask: 0x881002004040404000000, magic: 0x0d41e7dcdbc6baee1de6efbaeaeb2000, shift: 123, offset: 1440 },
        61 => Magic { mask: 0x1102004008080808010000, magic: 0x06aeefaeae2aecdaae2eeeb6caaca000, shift: 123, offset: 1472 },
        62 => Magic { mask: 0x2204008010101010020000, magic: 0x0d48aaeea24a12ca924ca54eaca38000, shift: 123, offset: 1504 },
        63 => Magic { mask: 0x4408001020202020040000, magic: 0x03a22530812111521224910e20c30000, shift: 123, offset: 1536 },
        64 => Magic { mask: 0x8810002040404040080000, magic: 0x01141128410881510484510620850000, shift: 123, offset: 1568 },
        65 => Magic { mask: 0x11020004080808080100000, magic: 0x00a8a104210440a42448450a20430000, shift: 123, offset: 1600 },
        66 => Magic { mask: 0x0, magic: 0x00000000000000000000000000000000, shift: 128, offset: 1632 },
        67 => Magic { mask: 0x80100200404040000000, magic: 0x03a435aeeb5daeaece224a5eea3b2000, shift: 123, offset: 1632 },
        68 => Magic { mask: 0x110200400808080010000, magic: 0x0df2bb6eb6fcaefeeee2d4baeedb1000, shift: 123, offset: 1664 },
        69 => Magic { mask: 0x220400801010101000000, magic: 0x0f8aebeebeaed6deeeb69ef6caeed000, shift: 123, offset: 1696 },
        70 => Magic { mask: 0x440801002020202000000, magic: 0x0b69efaeeeaeaadeee9efadaeaeaa000, shift: 123, offset: 1728 },
        71 => Magic { mask: 0x881002004040404000000, magic: 0x0d41e7dcdbc6baee1de6efbaeaeb2000, shift: 123, offset: 1760 },
        72 => Magic { mask: 0x1102004008080808010000, magic: 0x06aeefaeae2aecdaae2eeeb6caaca000, shift: 123, offset: 1792 },
        73 => Magic { mask: 0x2204008010101010020000, magic: 0x0d48aaeea24a12ca924ca54eaca38000, shift: 123, offset: 1824 },
        74 => Magic { mask: 0x4408001020202020040000, magic: 0x03a22530812111521224910e20c30000, shift: 123, offset: 1856 },
        75 => Magic { mask: 0x8810002040404040080000, magic: 0x01141128410881510484510620850000, shift: 123, offset: 1888 },
        76 => Magic { mask: 0x11020004080808080100000, magic: 0x00a8a104210440a42448450a20430000, shift: 123, offset: 1920 },
        77 => Magic { mask: 0x0, magic: 0x00000000000000000000000000000000, shift: 128, offset: 1952 },
        78 => Magic { mask: 0x0, magic: 0x00000000000000000000000000000000, shift: 128, offset: 1952 },
        79 => Magic { mask: 0x110200400808080010000, magic: 0x0df2bb6eb6fcaefeeee2d4baeedb1000, shift: 123, offset: 1952 },
        80 => Magic { mask: 0x220400801010101000000, magic: 0x0f8aebeebeaed6deeeb69ef6caeed000, shift: 123, offset: 1984 },
        81 => Magic { mask: 0x440801002020202000000, magic: 0x0b69efaeeeaeaadeee9efadaeaeaa000, shift: 123, offset: 2016 },
        82 => Magic { mask: 0x881002004040404000000, magic: 0x0d41e7dcdbc6baee1de6efbaeaeb2000, shift: 123, offset: 2048 },
        83 => Magic { mask: 0x1102004008080808010000, magic: 0x06aeefaeae2aecdaae2eeeb6caaca000, shift: 123, offset: 2080 },
        84 => Magic { mask: 0x2204008010101010020000, magic: 0x0d48aaeea24a12ca924ca54eaca38000, shift: 123, offset: 2112 },
        85 => Magic { mask: 0x4408001020202020040000, magic: 0x03a22530812111521224910e20c30000, shift: 123, offset: 2144 },
        86 => Magic { mask: 0x8810002040404040080000, magic: 0x01141128410881510484510620850000, shift: 123, offset: 2176 },
        87 => Magic { mask: 0x11020004080808080100000, magic: 0x00a8a104210440a42448450a20430000, shift: 123, offset: 2208 },
        88 => Magic { mask: 0x0, magic: 0x00000000000000000000000000000000, shift: 128, offset: 2240 },
        89 => Magic { mask: 0x0, magic: 0x00000000000000000000000000000000, shift: 128, offset: 2240 },
        90 => Magic { mask: 0x0, magic: 0x00000000000000000000000000000000, shift: 128, offset: 2240 },
        91 => Magic { mask: 0x220400801010101000000, magic: 0x0f8aebeebeaed6deeeb69ef6caeed000, shift: 123, offset: 2240 },
        92 => Magic { mask: 0x440801002020202000000, magic: 0x0b69efaeeeaeaadeee9efadaeaeaa000, shift: 123, offset: 2272 },
        93 => Magic { mask: 0x881002004040404000000, magic: 0x0d41e7dcdbc6baee1de6efbaeaeb2000, shift: 123, offset: 2304 },
        94 => Magic { mask: 0x1102004008080808010000, magic: 0x06aeefaeae2aecdaae2eeeb6caaca000, shift: 123, offset: 2336 },
        95 => Magic { mask: 0x2204008010101010020000, magic: 0x0d48aaeea24a12ca924ca54eaca38000, shift: 123, offset: 2368 },
        96 => Magic { mask: 0x4408001020202020040000, magic: 0x03a22530812111521224910e20c30000, shift: 123, offset: 2400 },
        97 => Magic { mask: 0x8810002040404040080000, magic: 0x01141128410881510484510620850000, shift: 123, offset: 2432 },
        98 => Magic { mask: 0x11020004080808080100000, magic: 0x00a8a104210440a42448450a20430000, shift: 123, offset: 2464 },
        99 => Magic { mask: 0x0, magic: 0x00000000000000000000000000000000, shift: 128, offset: 2496 },
        100 => Magic { mask: 0x0, magic: 0x00000000000000000000000000000000, shift: 128, offset: 2496 },
        101 => Magic { mask: 0x0, magic: 0x00000000000000000000000000000000, shift: 128, offset: 2496 },
        102 => Magic { mask: 0x0, magic: 0x00000000000000000000000000000000, shift: 128, offset: 2496 },
        103 => Magic { mask: 0x440801002020202000000, magic: 0x0b69efaeeeaeaadeee9efadaeaeaa000, shift: 123, offset: 2496 },
        104 => Magic { mask: 0x881002004040404000000, magic: 0x0d41e7dcdbc6baee1de6efbaeaeb2000, shift: 123, offset: 2528 },
        105 => Magic { mask: 0x1102004008080808010000, magic: 0x06aeefaeae2aecdaae2eeeb6caaca000, shift: 123, offset: 2560 },
        106 => Magic { mask: 0x2204008010101010020000, magic: 0x0d48aaeea24a12ca924ca54eaca38000, shift: 123, offset: 2592 },
        107 => Magic { mask: 0x4408001020202020040000, magic: 0x03a22530812111521224910e20c30000, shift: 123, offset: 2624 },
        108 => Magic { mask: 0x8810002040404040080000, magic: 0x01141128410881510484510620850000, shift: 123, offset: 2656 },
        109 => Magic { mask: 0x11020004080808080100000, magic: 0x00a8a104210440a42448450a20430000, shift: 123, offset: 2688 },
        110 => Magic { mask: 0x0, magic: 0x00000000000000000000000000000000, shift: 128, offset: 2720 },
        111 => Magic { mask: 0x0, magic: 0x00000000000000000000000000000000, shift: 128, offset: 2720 },
        112 => Magic { mask: 0x0, magic: 0x00000000000000000000000000000000, shift: 128, offset: 2720 },
        113 => Magic { mask: 0x0, magic: 0x00000000000000000000000000000000, shift: 128, offset: 2720 },
        114 => Magic { mask: 0x0, magic: 0x00000000000000000000000000000000, shift: 128, offset: 2720 },
        115 => Magic { mask: 0x881002004040404000000, magic: 0x0d41e7dcdbc6baee1de6efbaeaeb2000, shift: 123, offset: 2720 },
        116 => Magic { mask: 0x1102004008080808010000, magic: 0x06aeefaeae2aecdaae2eeeb6caaca000, shift: 123, offset: 2752 },
        117 => Magic { mask: 0x2204008010101010020000, magic: 0x0d48aaeea24a12ca924ca54eaca38000, shift: 123, offset: 2784 },
        118 => Magic { mask: 0x4408001020202020040000, magic: 0x03a22530812111521224910e20c30000, shift: 123, offset: 2816 },
        119 => Magic { mask: 0x8810002040404040080000, magic: 0x01141128410881510484510620850000, shift: 123, offset: 2848 },
        120 => Magic { mask: 0x11020004080808080100000, magic: 0x00a8a104210440a42448450a20430000, shift: 123, offset: 2880 },
        _ => Magic { mask: 0, magic: 0, shift: 128, offset: 0 },
    }
}

/// Magic parameters of the rook lookup along the third axis (database of 24576 entries).
pub open spec fn spec_rook_x_magic(idx: u8) -> Magic {
    match idx {
        0 => Magic { mask: 0x100080040020010000000, magic: 0x030825010c3422114224080e0c521000, shift: 123, offset: 0 },
        1 => Magic { mask: 0x200100080040020000000, magic: 0x0611a4321863a21a48c9a38431102000, shift: 123, offset: 32 },
        2 => Magic { mask: 0x400200100080040000000, magic: 0x0c2246aa18aa72da1aca31cd330b2000, shift: 123, offset: 64 },
        3 => Magic { mask: 0x800400200100080000000, magic: 0x0c0ea9b4a44ebeee0cd6b5b5b4ad1000, shift: 123, offset: 96 },
        4 => Magic { mask: 0x1000800400200100000000, magic: 0x0611a5bba6dcfedee69ef6caeedad000, shift: 123, offset: 128 },
        5 => Magic { mask: 0x2001000800400200000000, magic: 0x01416bd9dbccd6de0e6af4b4eb2b7000, shift: 123, offset: 160 },
        6 => Magic { mask: 0x0, magic: 0x00000000000000000000000000000000, shift: 128, offset: 192 },
        7 => Magic { mask: 0x0, magic: 0x00000000000000000000000000000000, shift: 128, offset: 192 },
        8 => Magic { mask: 0x0, magic: 0x00000000000000000000000000000000, shift: 128, offset: 192 },
        9 => Magic { mask: 0x0, magic: 0x00000000000000000000000000000000, shift: 128, offset: 192 },
        10 => Magic { mask: 0x0, magic: 0x00000000000000000000000000000000, shift: 128, offset: 192 },
        11 => Magic { mask: 0x200100080040020000000, magic: 0x0611a4321863a21a48c9a38431102000, shift: 123, offset: 192 },
        12 => Magic { mask: 0x400200100080040000000, magic: 0x0c2246aa18aa72da1aca31cd330b2000, shift: 123, offset: 224 },
        13 => Magic { mask: 0x800400200100080000000, magic: 0x0c0ea9b4a44ebeee0cd6b5b5b4ad1000, shift: 123, offset: 256 },
        14 => Magic { mask: 0x1000800400200100000000, magic: 0x0611a5bba6dcfedee69ef6caeedad000, shift: 123, offset: 288 },
        15 => Magic { mask: 0x2001000800400200000000, magic: 0x01416bd9dbccd6de0e6af4b4eb2b7000, shift: 123, offset: 320 },
        16 => Magic { mask: 0x4002001000800400000000, magic: 0x0696f5baa728fede64cee6daeae31000, shift: 123, offset: 352 },
        17 => Magic { mask: 0x8004002001000800000000, magic: 0x0c0aa3b4c4ceb6ee0caeb3b5b62d2000, shift: 123, offset: 384 },
        18 => Magic { mask: 0x0, magic: 0x00000000000000000000000000000000, shift: 128, offset: 416 },
        19 => Magic { mask: 0x0, magic: 0x00000000000000000000000000000000, shift: 128, offset: 416 },
        20 => Magic { mask: 0x0, magic: 0x00000000000000000000000000000000, shift: 128, offset: 416 },
        21 => Magic { mask: 0x0, magic: 0x00000000000000000000000000000000, shift: 128, offset: 416 },
        22 => Magic { mask: 0x400200100080040000000, magic: 0x0c2246aa18aa72da1aca31cd330b2000, shift: 123, offset: 416 },
        23 => Magic { mask: 0x800400200100080000000, magic: 0x0c0ea9b4a44ebeee0cd6b5b5b4ad1000, shift: 123, offset: 448 },
        24 => Magic { mask: 0x1000800400200100000000, magic: 0x0611a5bba6dcfedee69ef6caeedad000, shift: 123, offset: 480 },
        25 => Magic { mask: 0x2001000800400200000000, magic: 0x01416bd9dbccd6de0e6af4b4eb2b7000, shift: 123, offset: 512 },
        26 => Magic { mask: 0x4002001000800400000000, magic: 0x0696f5baa728fede64cee6daeae31000, shift: 123, offset: 544 },
        27 => Magic { mask: 0x8004002001000800000000, magic: 0x0c0aa3b4c4ceb6ee0caeb3b5b62d2000, shift: 123, offset: 576 },
        28 => Magic { mask: 0x10008004002001000000000, magic: 0x0188c5a91ca272ea1aca51a3328e4000, shift: 123, offset: 608 },
        29 => Magic { mask: 0x20010008004002000000000, magic: 0x028c2294108bc0da488ca21c32148000, shift: 123, offset: 640 },
        30 => Magic { mask: 0x0, magic: 0x00000000000000000000000000000000, shift: 128, offset: 672 },
        31 => Magic { mask: 0x0, magic: 0x00000000000000000000000000000000, shift: 128, offset: 672 },
        32 => Magic { mask: 0x0, magic: 0x00000000000000000000000000000000, shift: 128, offset: 672 },
        33 => Magic { mask: 0x800400200100080000000, magic: 0x0c0ea9b4a44ebeee0cd6b5b5b4ad1000, shift: 123, offset: 672 },
        34 => Magic { mask: 0x1000800400200100000000, magic: 0x0611a5bba6dcfedee69ef6caeedad000, shift: 123, offset: 704 },
        35 => Magic { mask: 0x2001000800400200000000, magic: 0x01416bd9dbccd6de0e6af4b4eb2b7000, shift: 123, offset: 736 },
        36 => Magic { mask: 0x4002001000800400000000, magic: 0x0696f5baa728fede64cee6daeae31000, shift: 123, offset: 768 },
        37 => Magic { mask: 0x8004002001000800000000, magic: 0x0c0aa3b4c4ceb6ee0caeb3b5b62d2000, shift: 123, offset: 800 },
        38 => Magic { mask: 0x10008004002001000000000, magic: 0x0188c5a91ca272ea1aca51a3328e4000, shift: 123, offset: 832 },
        39 => Magic { mask: 0x20010008004002000000000, magic: 0x028c2294108bc0da488ca21c32148000, shift: 123, offset: 864 },
        40 => Magic { mask: 0x40020010008004000000000, magic: 0x028c1145108510ca44845106208a0000, shift: 123, offset: 896 },
        41 => Magic { mask: 0x80040020010008000000000, magic: 0x0108a30485304a922448490a20460000, shift: 123, offset: 928 },
        42 => Magic { mask: 0x0, magic: 0x00000000000000000000000000000000, shift: 128, offset: 960 },
        43 => Magic { mask: 0x0, magic: 0x00000000000000000000000000000000, shift: 128, offset: 960 },
        44 => Magic { mask: 0x1000800400200100000000, magic: 0x0611a5bba6dcfedee69ef6caeedad000, shift: 123, offset: 960 },
        45 => Magic { mask: 0x2001000800400200000000, magic: 0x01416bd9dbccd6de0e6af4b4eb2b7000, shift: 123, offset: 992 },
        46 => Magic { mask: 0x4002001000800400000000, magic: 0x0696f5baa728fede64cee6daeae31000, shift: 123, offset: 1024 },
        47 => Magic { mask: 0x8004002001000800000000, magic: 0x0c0aa3b4c4ceb6ee0caeb3b5b62d2000, shift: 123, offset: 1056 },
        48 => Magic { mask: 0x10008004002001000000000, magic: 0x0188c5a91ca272ea1aca51a3328e4000, shift: 123, offset: 1088 },
        49 => Magic { mask: 0x20010008004002000000000, magic: 0x028c2294108bc0da488ca21c32148000, shift: 123, offset: 1120 },
        50 => Magic { mask: 0x40020010008004000000000, magic: 0x028c1145108510ca44845106208a0000, shift: 123, offset: 1152 },
        51 => Magic { mask: 0x80040020010008000000000, magic: 0x0108a30485304a922448490a20460000, shift: 123, offset: 1184 },
        52 => Magic { mask: 0x100080040020010000000000, magic: 0x0088e505244181aa1a249114ac308000, shift: 123, offset: 1216 },
        53 => Magic { mask: 0x200100080040020000000000, magic: 0x01082300853048922048110a20420000, shift: 123, offset: 1248 },
        54 => Magic { mask: 0x0, magic: 0x00000000000000000000000000000000, shift: 128, offset: 1280 },
        55 => Magic { mask: 0x2001000800400200000000, magic: 0x01416bd9dbccd6de0e6af4b4eb2b7000, shift: 123, offset: 1280 },
        56 => Magic { mask: 0x4002001000800400000000, magic: 0x0696f5baa728fede64cee6daeae31000, shift: 123, offset: 1312 },
        57 => Magic { mask: 0x8004002001000800000000, magic: 0x0c0aa3b4c4ceb6ee0caeb3b5b62d2000, shift: 123, offset: 1344 },
        58 => Magic { mask: 0x10008004002001000000000, magic: 0x0188c5a91ca272ea1aca51a3328e4000, shift: 123, offset: 1376 },
        59 => Magic { mask: 0x20010008004002000000000, magic: 0x028c2294108bc0da488ca21c32148000, shift: 123, offset: 1408 },
        60 => Magic { mask: 0x40020010008004000000000, magic: 0x028c1145108510ca44845106208a0000, shift: 123, offset: 1440 },
        61 => Magic { mask: 0x80040020010008000000000, magic: 0x0108a30485304a922448490a20460000, shift: 123, offset: 1472 },
        62 => Magic { mask: 0x100080040020010000000000, magic: 0x0088e505244181aa1a249114ac308000, shift: 123, offset: 1504 },
        63 => Magic { mask: 0x200100080040020000000000, magic: 0x01082300853048922048110a20420000, shift: 123, offset: 1536 },
        64 => Magic { mask: 0x400200100080040000000000, magic: 0x008825012041802a1824110ca4204000, shift: 123, offset: 1568 },
        65 => Magic { mask: 0x800400200100080000000000, magic: 0x004412501021008a0c24910620460000, shift: 123, offset: 1600 },
        66 => Magic { mask: 0x0, magic: 0x00000000000000000000000000000000, shift: 128, offset: 1632 },
        67 => Magic { mask: 0x4002001000800400000000, magic: 0x0696f5baa728fede64cee6daeae31000, shift: 123, offset: 1632 },
        68 => Magic { mask: 0x8004002001000800000000, magic: 0x0c0aa3b4c4ceb6ee0caeb3b5b62d2000, shift: 123, offset: 1664 },
        69 => Magic { mask: 0x10008004002001000000000, magic: 0x0188c5a91ca272ea1aca51a3328e4000, shift: 123, offset: 1696 },
        70 => Magic { mask: 0x20010008004002000000000, magic: 0x028c2294108bc0da488ca21c32148000, shift: 123, offset: 1728 },
        71 => Magic { mask: 0x40020010008004000000000, magic: 0x028c1145108510ca44845106208a0000, shift: 123, offset: 1760 },
        72 => Magic { mask: 0x80040020010008000000000, magic: 0x0108a30485304a922448490a20460000, shift: 123, offset: 1792 },
        73 => Magic { mask: 0x100080040020010000000000, magic: 0x0088e505244181aa1a249114ac308000, shift: 123, offset: 1824 },
        74 => Magic { mask: 0x200100080040020000000000, magic: 0x01082300853048922048110a20420000, shift: 123, offset: 1856 },
        75 => Magic { mask: 0x400200100080040000000000, magic: 0x008825012041802a1824110ca4204000, shift: 123, offset: 1888 },
        76 => Magic { mask: 0x800400200100080000000000, magic: 0x004412501021008a0c24910620460000, shift: 123, offset: 1920 },
        77 => Magic { mask: 0x0, magic: 0x00000000000000000000000000000000, shift: 128, offset: 1952 },
        78 => Magic { mask: 0x0, magic: 0x00000000000000000000000000000000, shift: 128, offset: 1952 },
        79 => Magic { mask: 0x8004002001000800000000, magic: 0x0c0aa3b4c4ceb6ee0caeb3b5b62d2000, shift: 123, offset: 1952 },
        80 => Magic { mask: 0x10008004002001000000000, magic: 0x0188c5a91ca272ea1aca51a3328e4000, shift: 123, offset: 1984 },
        81 => Magic { mask: 0x20010008004002000000000, magic: 0x028c2294108bc0da488ca21c32148000, shift: 123, offset: 2016 },
        82 => Magic { mask: 0x40020010008004000000000, magic: 0x028c1145108510ca44845106208a0000, shift: 123, offset: 2048 },
        83 => Magic { mask: 0x80040020010008000000000, magic: 0x0108a30485304a922448490a20460000, shift: 123, offset: 2080 },
        84 => Magic { mask: 0x100080040020010000000000, magic: 0x0088e505244181aa1a249114ac308000, shift: 123, offset: 2112 },
        85 => Magic { mask: 0x200100080040020000000000, magic: 0x01082300853048922048110a20420000, shift: 123, offset: 2144 },
        86 => Magic { mask: 0x400200100080040000000000, magic: 0x008825012041802a1824110ca4204000, shift: 123, offset: 2176 },
        87 => Magic { mask: 0x800400200100080000000000, magic: 0x004412501021008a0c24910620460000, shift: 123, offset: 2208 },
        88 => Magic { mask: 0x0, magic: 0x00000000000000000000000000000000, shift: 128, offset: 2240 },
        89 => Magic { mask: 0x0, magic: 0x00000000000000000000000000000000, shift: 128, offset: 2240 },
        90 => Magic { mask: 0x0, magic: 0x00000000000000000000000000000000, shift: 128, offset: 2240 },
        91 => Magic { mask: 0x10008004002001000000000, magic: 0x0188c5a91ca272ea1aca51a3328e4000, shift: 123, offset: 2240 },
        92 => Magic { mask: 0x20010008004002000000000, magic: 0x028c2294108bc0da488ca21c32148000, shift: 123, offset: 2272 },
        93 => Magic { mask: 0x40020010008004000000000, magic: 0x028c1145108510ca44845106208a0000, shift: 123, offset: 2304 },
        94 => Magic { mask: 0x80040020010008000000000, magic: 0x0108a30485304a922448490a20460000, shift: 123, offset: 2336 },
        95 => Magic { mask: 0x100080040020010000000000, magic: 0x0088e505244181aa1a249114ac308000, shift: 123, offset: 2368 },
        96 => Magic { mask: 0x200100080040020000000000, magic: 0x01082300853048922048110a20420000, shift: 123, offset: 2400 },
        97 => Magic { mask: 0x400200100080040000000000, magic: 0x008825012041802a1824110ca4204000, shift: 123, offset: 2432 },
        98 => Magic { mask: 0x800400200100080000000000, magic: 0x004412501021008a0c24910620460000, shift: 123, offset: 2464 },
        99 => Magic { mask: 0x0, magic: 0x00000000000000000000000000000000, shift: 128, offset: 2496 },
        100 => Magic { mask: 0x0, magic: 0x00000000000000000000000000000000, shift: 128, offset: 2496 },
        101 => Magic { mask: 0x0, magic: 0x00000000000000000000000000000000, shift: 128, offset: 2496 },
        102 => Magic { mask: 0x0, magic: 0x00000000000000000000000000000000, shift: 128, offset: 2496 },
        103 => Magic { mask: 0x20010008004002000000000, magic: 0x028c2294108bc0da488ca21c32148000, shift: 123, offset: 2496 },
        104 => Magic { mask: 0x40020010008004000000000, magic: 0x028c1145108510ca44845106208a0000, shift: 123, offset: 2528 },
        105 => Magic { mask: 0x80040020010008000000000, magic: 0x0108a30485304a922448490a20460000, shift: 123, offset: 2560 },
        106 => Magic { mask: 0x100080040020010000000000, magic: 0x0088e505244181aa1a249114ac308000, shift: 123, offset: 2592 },
        107 => Magic { mask: 0x200100080040020000000000, magic: 0x01082300853048922048110a20420000, shift: 123, offset: 2624 },
        108 => Magic { mask: 0x400200100080040000000000, magic: 0x008825012041802a1824110ca4204000, shift: 123, offset: 2656 },
        109 => Magic { mask: 0x800400200100080000000000, magic: 0x004412501021008a0c24910620460000, shift: 123, offset: 2688 },
        110 => Magic { mask: 0x0, magic: 0x00000000000000000000000000000000, shift: 128, offset: 2720 },
        111 => Magic { mask: 0x0, magic: 0x00000000000000000000000000000000, shift: 128, offset: 2720 },
        112 => Magic { mask: 0x0, magic: 0x00000000000000000000000000000000, shift: 128, offset: 2720 },
        113 => Magic { mask: 0x0, magic: 0x00000000000000000000000000000000, shift: 128, offset: 2720 },
        114 => Magic { mask: 0x0, magic: 0x00000000000000000000000000000000, shift: 128, offset: 2720 },
        115 => Magic { mask: 0x40020010008004000000000, magic: 0x028c1145108510ca44845106208a0000, shift: 123, offset: 2720 },
        116 => Magic { mask: 0x80040020010008000000000, magic: 0x0108a30485304a922448490a20460000, shift: 123, offset: 2752 },
        117 => Magic { mask: 0x100080040020010000000000, magic: 0x0088e505244181aa1a249114ac308000, shift: 123, offset: 2784 },
        118 => Magic { mask: 0x200100080040020000000000, magic: 0x01082300853048922048110a20420000, shift: 123, offset: 2816 },
        119 => Magic { mask: 0x400200100080040000000000, magic: 0x008825012041802a1824110ca4204000, shift: 123, offset: 2848 },
        120 => Magic { mask: 0x800400200100080000000000, magic: 0x004412501021008a0c24910620460000, shift: 123, offset: 2880 },
        _ => Magic { mask: 0, magic: 0, shift: 128, offset: 0 },
    }
}

pub(crate) fn rook_x_magic(idx: u8) -> (r: Magic)
    requires
        idx < 121,
    ensures
        r == spec_rook_x_magic(idx),
        magic_fits(r, 24576),
{
    match idx {
        0 => Magic { mask: 0x100080040020010000000, magic: 0x030825010c3422114224080e0c521000, shift: 123, offset: 0 },
        1 => Magic { mask: 0x200100080040020000000, magic: 0x0611a4321863a21a48c9a38431102000, shift: 123, offset: 32 },
        2 => Magic { mask: 0x400200100080040000000, magic: 0x0c2246aa18aa72da1aca31cd330b2000, shift: 123, offset: 64 },
        3 => Magic { mask: 0x800400200100080000000, magic: 0x0c0ea9b4a44ebeee0cd6b5b5b4ad1000, shift: 123, offset: 96 },
        4 => Magic { mask: 0x1000800400200100000000, magic: 0x0611a5bba6dcfedee69ef6caeedad000, shift: 123, offset: 128 },
        5 => Magic { mask: 0x2001000800400200000000, magic: 0x01416bd9dbccd6de0e6af4b4eb2b7000, shift: 123, offset: 160 },
        6 => Magic { mask: 0x0, magic: 0x00000000000000000000000000000000, shift: 128, offset: 192 },
        7 => Magic { mask: 0x0, magic: 0x00000000000000000000000000000000, shift: 128, offset: 192 },
        8 => Magic { mask: 0x0, magic: 0x00000000000000000000000000000000, shift: 128, offset: 192 },
        9 => Magic { mask: 0x0, magic: 0x00000000000000000000000000000000, shift: 128, offset: 192 },
        10 => Magic { mask: 0x0, magic: 0x00000000000000000000000000000000, shift: 128, offset: 192 },
        11 => Magic { mask: 0x200100080040020000000, magic: 0x0611a4321863a21a48c9a38431102000, shift: 123, offset: 192 },
        12 => Magic { mask: 0x400200100080040000000, magic: 0x0c2246aa18aa72da1aca31cd330b2000, shift: 123, offset: 224 },
        13 => Magic { mask: 0x800400200100080000000, magic: 0x0c0ea9b4a44ebeee0cd6b5b5b4ad1000, shift: 123, offset: 256 },
        14 => Magic { mask: 0x1000800400200100000000, magic: 0x0611a5bba6dcfedee69ef6caeedad000, shift: 123, offset: 288 },
        15 => Magic { mask: 0x2001000800400200000000, magic: 0x01416bd9dbccd6de0e6af4b4eb2b7000, shift: 123, offset: 320 },
        16 => Magic { mask: 0x4002001000800400000000, magic: 0x0696f5baa728fede64cee6daeae31000, shift: 123, offset: 352 },
        17 => Magic { mask: 0x8004002001000800000000, magic: 0x0c0aa3b4c4ceb6ee0caeb3b5b62d2000, shift: 123, offset: 384 },
        18 => Magic { mask: 0x0, magic: 0x00000000000000000000000000000000, shift: 128, offset: 416 },
        19 => Magic { mask: 0x0, magic: 0x00000000000000000000000000000000, shift: 128, offset: 416 },
        20 => Magic { mask: 0x0, magic: 0x00000000000000000000000000000000, shift: 128, offset: 416 },
        21 => Magic { mask: 0x0, magic: 0x00000000000000000000000000000000, shift: 128, offset: 416 },
        22 => Magic { mask: 0x400200100080040000000, magic: 0x0c2246aa18aa72da1aca31cd330b2000, shift: 123, offset: 416 },
        23 => Magic { mask: 0x800400200100080000000, magic: 0x0c0ea9b4a44ebeee0cd6b5b5b4ad1000, shift: 123, offset: 448 },
        24 => Magic { mask: 0x1000800400200100000000, magic: 0x0611a5bba6dcfedee69ef6caeedad000, shift: 123, offset: 480 },
        25 => Magic { mask: 0x2001000800400200000000, magic: 0x01416bd9dbccd6de0e6af4b4eb2b7000, shift: 123, offset: 512 },
        26 => Magic { mask: 0x4002001000800400000000, magic: 0x0696f5baa728fede64cee6daeae31000, shift: 123, offset: 544 },
        27 => Magic { mask: 0x8004002001000800000000, magic: 0x0c0aa3b4c4ceb6ee0caeb3b5b62d2000, shift: 123, offset: 576 },
        28 => Magic { mask: 0x10008004002001000000000, magic: 0x0188c5a91ca272ea1aca51a3328e4000, shift: 123, offset: 608 },
        29 => Magic { mask: 0x20010008004002000000000, magic: 0x028c2294108bc0da488ca21c32148000, shift: 123, offset: 640 },
        30 => Magic { mask: 0x0, magic: 0x00000000000000000000000000000000, shift: 128, offset: 672 },
        31 => Magic { mask: 0x0, magic: 0x00000000000000000000000000000000, shift: 128, offset: 672 },
        32 => Magic { mask: 0x0, magic: 0x00000000000000000000000000000000, shift: 128, offset: 672 },
        33 => Magic { mask: 0x800400200100080000000, magic: 0x0c0ea9b4a44ebeee0cd6b5b5b4ad1000, shift: 123, offset: 672 },
        34 => Magic { mask: 0x1000800400200100000000, magic: 0x0611a5bba6dcfedee69ef6caeedad000, shift: 123, offset: 704 },
        35 => Magic { mask: 0x2001000800400200000000, magic: 0x01416bd9dbccd6de0e6af4b4eb2b7000, shift: 123, offset: 736 },
        36 => Magic { mask: 0x4002001000800400000000, magic: 0x0696f5baa728fede64cee6daeae31000, shift: 123, offset: 768 },
        37 => Magic { mask: 0x8004002001000800000000, magic: 0x0c0aa3b4c4ceb6ee0caeb3b5b62d2000, shift: 123, offset: 800 },
        38 => Magic { mask: 0x10008004002001000000000, magic: 0x0188c5a91ca272ea1aca51a3328e4000, shift: 123, offset: 832 },
        39 => Magic { mask: 0x20010008004002000000000, magic: 0x028c2294108bc0da488ca21c32148000, shift: 123, offset: 864 },
        40 => Magic { mask: 0x40020010008004000000000, magic: 0x028c1145108510ca44845106208a0000, shift: 123, offset: 896 },
        41 => Magic { mask: 0x80040020010008000000000, magic: 0x0108a30485304a922448490a20460000, shift: 123, offset: 928 },
        42 => Magic { mask: 0x0, magic: 0x00000000000000000000000000000000, shift: 128, offset: 960 },
        43 => Magic { mask: 0x0, magic: 0x00000000000000000000000000000000, shift: 128, offset: 960 },
        44 => Magic { mask: 0x1000800400200100000000, magic: 0x0611a5bba6dcfedee69ef6caeedad000, shift: 123, offset: 960 },
        45 => Magic { mask: 0x2001000800400200000000, magic: 0x01416bd9dbccd6de0e6af4b4eb2b7000, shift: 123, offset: 992 },
        46 => Magic { mask: 0x4002001000800400000000, magic: 0x0696f5baa728fede64cee6daeae31000, shift: 123, offset: 1024 },
        47 => Magic { mask: 0x8004002001000800000000, magic: 0x0c0aa3b4c4ceb6ee0caeb3b5b62d2000, shift: 123, offset: 1056 },
        48 => Magic { mask: 0x10008004002001000000000, magic: 0x0188c5a91ca272ea1aca51a3328e4000, shift: 123, offset: 1088 },
        49 => Magic { mask: 0x20010008004002000000000, magic: 0x028c2294108bc0da488ca21c32148000, shift: 123, offset: 1120 },
        50 => Magic { mask: 0x40020010008004000000000, magic: 0x028c1145108510ca44845106208a0000, shift: 123, offset: 1152 },
        51 => Magic { mask: 0x80040020010008000000000, magic: 0x0108a30485304a922448490a20460000, shift: 123, offset: 1184 },
        52 => Magic { mask: 0x100080040020010000000000, magic: 0x0088e505244181aa1a249114ac308000, shift: 123, offset: 1216 },
        53 => Magic { mask: 0x200100080040020000000000, magic: 0x01082300853048922048110a20420000, shift: 123, offset: 1248 },
        54 => Magic { mask: 0x0, magic: 0x00000000000000000000000000000000, shift: 128, offset: 1280 },
        55 => Magic { mask: 0x2001000800400200000000, magic: 0x01416bd9dbccd6de0e6af4b4eb2b7000, shift: 123, offset: 1280 },
        56 => Magic { mask: 0x4002001000800400000000, magic: 0x0696f5baa728fede64cee6daeae31000, shift: 123, offset: 1312 },
        57 => Magic { mask: 0x8004002001000800000000, magic: 0x0c0aa3b4c4ceb6ee0caeb3b5b62d2000, shift: 123, offset: 1344 },
        58 => Magic { mask: 0x10008004002001000000000, magic: 0x0188c5a91ca272ea1aca51a3328e4000, shift: 123, offset: 1376 },
        59 => Magic { mask: 0x20010008004002000000000, magic: 0x028c2294108bc0da488ca21c32148000, shift: 123, offset: 1408 },
        60 => Magic { mask: 0x40020010008004000000000, magic: 0x028c1145108510ca44845106208a0000, shift: 123, offset: 1440 },
        61 => Magic { mask: 0x80040020010008000000000, magic: 0x0108a30485304a922448490a20460000, shift: 123, offset: 1472 },
        62 => Magic { mask: 0x100080040020010000000000, magic: 0x0088e505244181aa1a249114ac308000, shift: 123, offset: 1504 },
        63 => Magic { mask: 0x200100080040020000000000, magic: 0x01082300853048922048110a20420000, shift: 123, offset: 1536 },
        64 => Magic { mask: 0x400200100080040000000000, magic: 0x008825012041802a1824110ca4204000, shift: 123, offset: 1568 },
        65 => Magic { mask: 0x800400200100080000000000, magic: 0x004412501021008a0c24910620460000, shift: 123, offset: 1600 },
        66 => Magic { mask: 0x0, magic: 0x00000000000000000000000000000000, shift: 128, offset: 1632 },
        67 => Magic { mask: 0x4002001000800400000000, magic: 0x0696f5baa728fede64cee6daeae31000, shift: 123, offset: 1632 },
        68 => Magic { mask: 0x8004002001000800000000, magic: 0x0c0aa3b4c4ceb6ee0caeb3b5b62d2000, shift: 123, offset: 1664 },
        69 => Magic { mask: 0x10008004002001000000000, magic: 0x0188c5a91ca272ea1aca51a3328e4000, shift: 123, offset: 1696 },
        70 => Magic { mask: 0x20010008004002000000000, magic: 0x028c2294108bc0da488ca21c32148000, shift: 123, offset: 1728 },
        71 => Magic { mask: 0x40020010008004000000000, magic: 0x028c1145108510ca44845106208a0000, shift: 123, offset: 1760 },
        72 => Magic { mask: 0x80040020010008000000000, magic: 0x0108a30485304a922448490a20460000, shift: 123, offset: 1792 },
        73 => Magic { mask: 0x100080040020010000000000, magic: 0x0088e505244181aa1a249114ac308000, shift: 123, offset: 1824 },
        74 => Magic { mask: 0x200100080040020000000000, magic: 0x01082300853048922048110a20420000, shift: 123, offset: 1856 },
        75 => Magic { mask: 0x400200100080040000000000, magic: 0x008825012041802a1824110ca4204000, shift: 123, offset: 1888 },
        76 => Magic { mask: 0x800400200100080000000000, magic: 0x004412501021008a0c24910620460000, shift: 123, offset: 1920 },
        77 => Magic { mask: 0x0, magic: 0x00000000000000000000000000000000, shift: 128, offset: 1952 },
        78 => Magic { mask: 0x0, magic: 0x00000000000000000000000000000000, shift: 128, offset: 1952 },
        79 => Magic { mask: 0x8004002001000800000000, magic: 0x0c0aa3b4c4ceb6ee0caeb3b5b62d2000, shift: 123, offset: 1952 },
        80 => Magic { mask: 0x10008004002001000000000, magic: 0x0188c5a91ca272ea1aca51a3328e4000, shift: 123, offset: 1984 },
        81 => Magic { mask: 0x20010008004002000000000, magic: 0x028c2294108bc0da488ca21c32148000, shift: 123, offset: 2016 },
        82 => Magic { mask: 0x40020010008004000000000, magic: 0x028c1145108510ca44845106208a0000, shift: 123, offset: 2048 },
        83 => Magic { mask: 0x80040020010008000000000, magic: 0x0108a30485304a922448490a20460000, shift: 123, offset: 2080 },
        84 => Magic { mask: 0x100080040020010000000000, magic: 0x0088e505244181aa1a249114ac308000, shift: 123, offset: 2112 },
        85 => Magic { mask: 0x200100080040020000000000, magic: 0x01082300853048922048110a20420000, shift: 123, offset: 2144 },
        86 => Magic { mask: 0x400200100080040000000000, magic: 0x008825012041802a1824110ca4204000, shift: 123, offset: 2176 },
        87 => Magic { mask: 0x800400200100080000000000, magic: 0x004412501021008a0c24910620460000, shift: 123, offset: 2208 },
        88 => Magic { mask: 0x0, magic: 0x00000000000000000000000000000000, shift: 128, offset: 2240 },
        89 => Magic { mask: 0x0, magic: 0x00000000000000000000000000000000, shift: 128, offset: 2240 },
        90 => Magic { mask: 0x0, magic: 0x00000000000000000000000000000000, shift: 128, offset: 2240 },
        91 => Magic { mask: 0x10008004002001000000000, magic: 0x0188c5a91ca272ea1aca51a3328e4000, shift: 123, offset: 2240 },
        92 => Magic { mask: 0x20010008004002000000000, magic: 0x028c2294108bc0da488ca21c32148000, shift: 123, offset: 2272 },
        93 => Magic { mask: 0x40020010008004000000000, magic: 0x028c1145108510ca44845106208a0000, shift: 123, offset: 2304 },
        94 => Magic { mask: 0x80040020010008000000000, magic: 0x0108a30485304a922448490a20460000, shift: 123, offset: 2336 },
        95 => Magic { mask: 0x100080040020010000000000, magic: 0x0088e505244181aa1a249114ac308000, shift: 123, offset: 2368 },
        96 => Magic { mask: 0x200100080040020000000000, magic: 0x01082300853048922048110a20420000, shift: 123, offset: 2400 },
        97 => Magic { mask: 0x400200100080040000000000, magic: 0x008825012041802a1824110ca4204000, shift: 123, offset: 2432 },
        98 => Magic { mask: 0x800400200100080000000000, magic: 0x004412501021008a0c24910620460000, shift: 123, offset: 2464 },
        99 => Magic { mask: 0x0, magic: 0x00000000000000000000000000000000, shift: 128, offset: 2496 },
        100 => Magic { mask: 0x0, magic: 0x00000000000000000000000000000000, shift: 128, offset: 2496 },
        101 => Magic { mask: 0x0, magic: 0x00000000000000000000000000000000, shift: 128, offset: 2496 },
        102 => Magic { mask: 0x0, magic: 0x00000000000000000000000000000000, shift: 128, offset: 2496 },
        103 => Magic { mask: 0x20010008004002000000000, magic: 0x028c2294108bc0da488ca21c32148000, shift: 123, offset: 2496 },
        104 => Magic { mask: 0x40020010008004000000000, magic: 0x028c1145108510ca44845106208a0000, shift: 123, offset: 2528 },
        105 => Magic { mask: 0x80040020010008000000000, magic: 0x0108a30485304a922448490a20460000, shift: 123, offset: 2560 },
        106 => Magic { mask: 0x100080040020010000000000, magic: 0x0088e505244181aa1a249114ac308000, shift: 123, offset: 2592 },
        107 => Magic { mask: 0x200100080040020000000000, magic: 0x01082300853048922048110a20420000, shift: 123, offset: 2624 },
        108 => Magic { mask: 0x400200100080040000000000, magic: 0x008825012041802a1824110ca4204000, shift: 123, offset: 2656 },
        109 => Magic { mask: 0x800400200100080000000000, magic: 0x004412501021008a0c24910620460000, shift: 123, offset: 2688 },
        110 => Magic { mask: 0x0, magic: 0x00000000000000000000000000000000, shift: 128, offset: 2720 },
        111 => Magic { mask: 0x0, magic: 0x00000000000000000000000000000000, shift: 128, offset: 2720 },
        112 => Magic { mask: 0x0, magic: 0x00000000000000000000000000000000, shift: 128, offset: 2720 },
        113 => Magic { mask: 0x0, magic: 0x00000000000000000000000000000000, shift: 128, offset: 2720 },
        114 => Magic { mask: 0x0, magic: 0x00000000000000000000000000000000, shift: 128, offset: 2720 },
        115 => Magic { mask: 0x40020010008004000000000, magic: 0x028c1145108510ca44845106208a0000, shift: 123, offset: 2720 },
        116 => Magic { mask: 0x80040020010008000000000, magic: 0x0108a30485304a922448490a20460000, shift: 123, offset: 2752 },
        117 => Magic { mask: 0x100080040020010000000000, magic: 0x0088e505244181aa1a249114ac308000, shift: 123, offset: 2784 },
        118 => Magic { mask: 0x200100080040020000000000, magic: 0x01082300853048922048110a20420000, shift: 123, offset: 2816 },
        119 => Magic { mask: 0x400200100080040000000000, magic: 0x008825012041802a1824110ca4204000, shift: 123, offset: 2848 },
        120 => Magic { mask: 0x800400200100080000000000, magic: 0x004412501021008a0c24910620460000, shift: 123, offset: 2880 },
        _ => Magic { mask: 0, magic: 0, shift: 128, offset: 0 },
    }
}


/// Entry `i` of the bishop attack database. The database has 20480 entries
/// and nothing in the library ever fills it: every entry is zero.
pub open spec fn spec_bishop_attacks_db(i: int) -> u128 {
    0
}

pub(crate) fn bishop_attacks_db(i: usize) -> (r: u128)
    requires
        i < 20480,
    ensures
        r == spec_bishop_attacks_db(i as int),
{
    0
}

/// Entry `i` of the rook attack database along the first axis. The database
/// has 24576 entries and nothing in the library ever fills it: every entry
/// is zero.
pub open spec fn spec_rook_r_attacks_db(i: int) -> u128 {
    0
}

pub(crate) fn rook_r_attacks_db(i: usize) -> (r: u128)
    requires
        i < 24576,
    ensures
        r == spec_rook_r_attacks_db(i as int),
{
    0
}

/// Entry `i` of the rook attack database along the second axis. The database
/// has 24576 entries and nothing in the library ever fills it: every entry
/// is zero.
pub open spec fn spec_rook_c_attacks_db(i: int) -> u128 {
    0
}

pub(crate) fn rook_c_attacks_db(i: usize) -> (r: u128)
    requires
        i < 24576,
    ensures
        r == spec_rook_c_attacks_db(i as int),
{
    0
}

/// Entry `i` of the rook attack database along the third axis. The database
/// has 24576 entries and nothing in the library ever fills it: every entry
/// is zero.
pub open spec fn spec_rook_x_attacks_db(i: int) -> u128 {
    0
}

pub(crate) fn rook_x_attacks_db(i: usize) -> (r: u128)
    requires
        i < 24576,
    ensures
        r == spec_rook_x_attacks_db(i as int),
{
    0
}

proof fn lemma_king_steps_bits(a: u8, c: u8)
    by (bit_vector)
    requires
        a < 121,
        c < 128,
    ensures
        c < 121 ==> (spec_king_attacks(a) >> c) & 1 == (spec_king_attacks(c) >> a) & 1,
        (spec_king_attacks(a) >> a) & 1 == 0,
        spec_king_attacks(a) & !ON_BOARD == 0,
        (spec_king_attacks(a) >> c) & 1 == 1 ==> c <= 120 && (1u128 << c) & ON_BOARD != 0,
{
}

/// The king's steps are a symmetric, irreflexive relation between cells of
/// the board: a king on `a` reaches `c` exactly when a king on `c` reaches
/// `a`, never reaches its own cell, and reaches only cells of the board.
pub proof fn lemma_king_steps(a: u8, c: u8)
    requires
        a < 121,
        c < 128,
    ensures
        c < 121 ==> (spec_king_attacks(a) >> c) & 1 == (spec_king_attacks(c) >> a) & 1,
        (spec_king_attacks(a) >> a) & 1 == 0,
        (spec_king_attacks(a) >> c) & 1 == 1 ==> spec_is_valid_idx(c),
        spec_king_attacks(a) & !ON_BOARD == 0,
{
    lemma_king_steps_bits(a, c);
}

/// The twelve (file, rank) changes of a king step: to the six neighbouring cells and the six cells across their corners.
pub open spec fn king_offset(df: int, dr: int) -> bool {
    ||| (df == -2 && dr == -1)
    ||| (df == -1 && dr == -2)
    ||| (df == -1 && dr == -1)
    ||| (df == -1 && dr == 0)
    ||| (df == -1 && dr == 1)
    ||| (df == 0 && dr == -1)
    ||| (df == 0 && dr == 1)
    ||| (df == 1 && dr == -1)
    ||| (df == 1 && dr == 0)
    ||| (df == 1 && dr == 1)
    ||| (df == 1 && dr == 2)
    ||| (df == 2 && dr == 1)
}

/// The twelve (file, rank) changes of a knight jump.
pub open spec fn knight_offset(df: int, dr: int) -> bool {
    ||| (df == -3 && dr == -2)
    ||| (df == -3 && dr == -1)
    ||| (df == -2 && dr == -3)
    ||| (df == -2 && dr == 1)
    ||| (df == -1 && dr == -3)
    ||| (df == -1 && dr == 2)
    ||| (df == 1 && dr == -2)
    ||| (df == 1 && dr == 3)
    ||| (df == 2 && dr == -1)
    ||| (df == 2 && dr == 3)
    ||| (df == 3 && dr == 1)
    ||| (df == 3 && dr == 2)
}

spec fn king_offset_cells(a: u8, c: u8) -> bool {
    ||| (c / 11 + 2 == a / 11 && c % 11 + 1 == a % 11)
    ||| (c / 11 + 1 == a / 11 && c % 11 + 2 == a % 11)
    ||| (c / 11 + 1 == a / 11 && c % 11 + 1 == a % 11)
    ||| (c / 11 + 1 == a / 11 && c % 11 == a % 11)
    ||| (c / 11 + 1 == a / 11 && c % 11 == a % 11 + 1)
    ||| (c / 11 == a / 11 && c % 11 + 1 == a % 11)
    ||| (c / 11 == a / 11 && c % 11 == a % 11 + 1)
    ||| (c / 11 == a / 11 + 1 && c % 11 + 1 == a % 11)
    ||| (c / 11 == a / 11 + 1 && c % 11 == a % 11)
    ||| (c / 11 == a / 11 + 1 && c % 11 == a % 11 + 1)
    ||| (c / 11 == a / 11 + 1 && c % 11 == a % 11 + 2)
    ||| (c / 11 == a / 11 + 2 && c % 11 == a % 11 + 1)
}

spec fn knight_offset_cells(a: u8, c: u8) -> bool {
    ||| (c / 11 + 3 == a / 11 && c % 11 + 2 == a % 11)
    ||| (c / 11 + 3 == a / 11 && c % 11 + 1 == a % 11)
    ||| (c / 11 + 2 == a / 11 && c % 11 + 3 == a % 11)
    ||| (c / 11 + 2 == a / 11 && c % 11 == a % 11 + 1)
    ||| (c / 11 + 1 == a / 11 && c % 11 + 3 == a % 11)
    ||| (c / 11 + 1 == a / 11 && c % 11 == a % 11 + 2)
    ||| (c / 11 == a / 11 + 1 && c % 11 + 2 == a % 11)
    ||| (c / 11 == a / 11 + 1 && c % 11 == a % 11 + 3)
    ||| (c / 11 == a / 11 + 2 && c % 11 + 1 == a % 11)
    ||| (c / 11 == a / 11 + 2 && c % 11 == a % 11 + 3)
    ||| (c / 11 == a / 11 + 3 && c % 11 == a % 11 + 1)
    ||| (c / 11 == a / 11 + 3 && c % 11 == a % 11 + 2)
}


/// A king step between two cells of the board.
pub open spec fn king_step(a: u8, c: u8) -> bool {
    &&& spec_is_valid_idx(a)
    &&& spec_is_valid_idx(c)
    &&& king_offset(c as int / 11 - a as int / 11, c as int % 11 - a as int % 11)
}

/// A knight jump between two cells of the board.
pub open spec fn knight_step(a: u8, c: u8) -> bool {
    &&& spec_is_valid_idx(a)
    &&& spec_is_valid_idx(c)
    &&& knight_offset(c as int / 11 - a as int / 11, c as int % 11 - a as int % 11)
}

proof fn lemma_king_table_bits(a: u8, c: u8)
    by (bit_vector)
    requires
        a < 121,
        c < 128,
    ensures
        ((spec_king_attacks(a) >> c) & 1 == 1) == ((a <= 120 && (1u128 << a) & ON_BOARD != 0) && (
        c <= 120 && (1u128 << c) & ON_BOARD != 0) && king_offset_cells(a, c)),
{
}

proof fn lemma_knight_table_bits(a: u8, c: u8)
    by (bit_vector)
    requires
        a < 121,
        c < 128,
    ensures
        a != 68 ==> ((spec_knight_attacks(a) >> c) & 1 == 1) == ((a <= 120 && (1u128 << a)
            & ON_BOARD != 0) && (c <= 120 && (1u128 << c) & ON_BOARD != 0) && knight_offset_cells(
            a,
            c,
        )),
        a == 68 ==> ((spec_knight_attacks(a) >> c) & 1 == 1) == (c <= 116 && (1u128 << ((c + 4) as u8))
            & ON_BOARD != 0 && knight_offset_cells(a, (c + 4) as u8)),
        a == 68 ==> (1u128 << a) & ON_BOARD != 0,
{
}

/// The king table holds exactly the king steps: a king on cell `a` reaches
/// `c` when both are cells of the board and `c` lies one of the twelve king
/// offsets (`king_offset`) away in file and rank.
pub proof fn lemma_king_table_is_geometric(a: u8, c: u8)
    requires
        a < 121,
        c < 128,
    ensures
        ((spec_king_attacks(a) >> c) & 1 == 1) == king_step(a, c),
{
    lemma_king_table_bits(a, c);
}

/// The knight table holds exactly the knight jumps, with one irregular
/// entry: a knight on any cell `a` other than G3 (index 68) reaches `c`
/// when both are cells of the board and `c` lies one of the twelve knight
/// offsets away; the entry of G3 holds the jumps of G3 each moved four
/// cells down (bit `c` is set when `c + 4` is a jump from G3). Between
/// board cells other than G3 the jumps are symmetric.
pub proof fn lemma_knight_table_is_geometric(a: u8, c: u8)
    requires
        a < 121,
        c < 128,
    ensures
        a != 68 ==> ((spec_knight_attacks(a) >> c) & 1 == 1) == knight_step(a, c),
        a == 68 ==> ((spec_knight_attacks(a) >> c) & 1 == 1) == (c <= 116 && knight_step(
            a,
            (c + 4) as u8,
        )),
        a != 68 && c != 68 && c < 121 ==> ((spec_knight_attacks(a) >> c) & 1 == 1) == ((
        spec_knight_attacks(c) >> a) & 1 == 1),
{
    lemma_knight_table_bits(a, c);
    if c < 121 {
        lemma_knight_table_bits(c, a);
    }
}

} // verus!
