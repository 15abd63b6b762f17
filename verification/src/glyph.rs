//! The three glyph sets of the terminal and their mapping to Unicode.

use vstd::prelude::*;
use crate::error::Error;
use crate::unicode::{canonical_decomposition, decompose, decomposition_part};
use crate::videotex::C0;
use crate::{IntoSequence, MinitelMessage};

verus! {

/// A glyph of the alphabetic set, nearly ASCII.
#[derive(Debug, Clone, Copy, PartialEq, Eq, Structural)]
pub struct G0(pub u8);

impl G0 {
    /// Whether the byte lies in the range of the set.
    pub open spec fn wf(self) -> bool {
        0x20 <= self.0 <= 0x7E
    }

    /// The character that the terminal shows for the glyph: its ASCII
    /// character, but for five drawing characters.
    pub open spec fn spec_char(self) -> char {
        if self.0 == 0x5E {
            '\u{2191}'
        } else if self.0 == 0x60 {
            '\u{2500}'
        } else if self.0 == 0x7B {
            '\u{258F}'
        } else if self.0 == 0x7D {
            '\u{2595}'
        } else if self.0 == 0x7E {
            '\u{2594}'
        } else {
            self.0 as char
        }
    }

    /// The character that the terminal shows for the glyph.
    pub fn to_char(self) -> (c: char)
        requires
            self.wf(),
        ensures
            c == self.spec_char(),
    {
        match self.0 {
            0x5E => '\u{2191}',
            0x60 => '\u{2500}',
            0x7B => '\u{258F}',
            0x7D => '\u{2595}',
            0x7E => '\u{2594}',
            b => b as char,
        }
    }

    /// The glyph that a byte stands for in the alphabetic set.
    pub open spec fn of_byte(b: u8) -> Option<G0> {
        if 0x20 <= b <= 0x7E {
            Some(G0(b))
        } else {
            None
        }
    }

    /// Decodes a byte of the alphabetic set.
    pub fn from_byte(b: u8) -> (r: Option<G0>)
        ensures
            r == Self::of_byte(b),
    {
        if 0x20 <= b && b <= 0x7E {
            Some(G0(b))
        } else {
            None
        }
    }

    /// The glyph that shows a character: itself for the ASCII characters
    /// that the set shares, and the nearest glyph for five drawing characters.
    pub open spec fn of_char(c: char) -> Option<G0> {
        let n = c as u32;
        if (0x20 <= n <= 0x5D) || n == 0x5F || (0x61 <= n <= 0x7A) || n == 0x7C {
            Some(G0(n as u8))
        } else if n == 0x2581 {
            Some(G0(0x5F))
        } else if n == 0x2500 {
            Some(G0(0x60))
        } else if n == 0x258F {
            Some(G0(0x7B))
        } else if n == 0x2595 {
            Some(G0(0x7D))
        } else if n == 0x2594 {
            Some(G0(0x7E))
        } else {
            None
        }
    }

    /// Maps a character to the alphabetic set.
    pub fn from_char(c: char) -> (r: Option<G0>)
        ensures
            r == Self::of_char(c),
            r matches Some(g) ==> g.wf(),
    {
        let n: u32 = c as u32;
        if (0x20 <= n && n <= 0x5D) || n == 0x5F || (0x61 <= n && n <= 0x7A) || n == 0x7C {
            Some(G0(n as u8))
        } else {
            match n {
                0x2581 => Some(G0(0x5F)),
                0x2500 => Some(G0(0x60)),
                0x258F => Some(G0(0x7B)),
                0x2595 => Some(G0(0x7D)),
                0x2594 => Some(G0(0x7E)),
                _ => None,
            }
        }
    }
}

impl MinitelMessage for G0 {
    open spec fn wf(self) -> bool {
        0x20 <= self.0 <= 0x7E
    }

    open spec fn bytes(self) -> Seq<u8> {
        seq![self.0]
    }

    fn is_wf(&self) -> (b: bool) {
        0x20 <= self.0 && self.0 <= 0x7E
    }

    fn message(self) -> (m: Vec<u8>) {
        vec![self.0]
    }
}

/// The byte of the mosaic whose six dots are lit as given: the left and the
/// right dot of the top row, of the middle row and of the bottom row.
///
/// The dots weigh 1, 2, 4, 8, 16 and 64; bit 5 is always set.
pub open spec fn mosaic(tl: bool, tr: bool, ml: bool, mr: bool, bl: bool, br: bool) -> u8 {
    (0x20 + (if tl { 1int } else { 0 }) + (if tr { 2int } else { 0 }) + (if ml { 4int } else { 0 })
        + (if mr { 8int } else { 0 }) + (if bl { 16int } else { 0 }) + (if br { 64int } else { 0 })) as u8
}

/// The byte of the mosaic that approximates a Braille pattern, given as the
/// offset of its character from U+2800. Dots 1 to 3 run down the left
/// column, dots 4 to 6 down the right one; dots 7 and 8 are dropped.
pub open spec fn braille_mosaic(offset: u32) -> u8 {
    mosaic(
        offset & 0x01 != 0,
        offset & 0x08 != 0,
        offset & 0x02 != 0,
        offset & 0x10 != 0,
        offset & 0x04 != 0,
        offset & 0x20 != 0,
    )
}

/// Offset from U+2800 of the Braille pattern that has the dots of a
/// sextant, given as the offset of its character from U+1FB00.
pub open spec fn sextant_braille(index: u32) -> u32 {
    match index {
        0 => 0x01,
        1 => 0x08,
        2 => 0x09,
        3 => 0x02,
        4 => 0x03,
        5 => 0x0A,
        6 => 0x0B,
        7 => 0x10,
        8 => 0x11,
        9 => 0x18,
        10 => 0x19,
        11 => 0x12,
        12 => 0x13,
        13 => 0x1A,
        14 => 0x1B,
        15 => 0x04,
        16 => 0x05,
        17 => 0x0C,
        18 => 0x0D,
        19 => 0x06,
        20 => 0x0E,
        21 => 0x0F,
        22 => 0x14,
        23 => 0x15,
        24 => 0x1C,
        25 => 0x1D,
        26 => 0x16,
        27 => 0x17,
        28 => 0x1E,
        29 => 0x1F,
        30 => 0x20,
        31 => 0x21,
        32 => 0x28,
        33 => 0x29,
        34 => 0x22,
        35 => 0x23,
        36 => 0x2A,
        37 => 0x2B,
        38 => 0x30,
        39 => 0x31,
        40 => 0x39,
        41 => 0x32,
        42 => 0x33,
        43 => 0x3A,
        44 => 0x3B,
        45 => 0x24,
        46 => 0x25,
        47 => 0x2C,
        48 => 0x2D,
        49 => 0x26,
        50 => 0x27,
        51 => 0x2E,
        52 => 0x2F,
        53 => 0x34,
        54 => 0x35,
        55 => 0x3C,
        56 => 0x3D,
        57 => 0x36,
        58 => 0x37,
        59 => 0x3E,
        _ => 0x00,
    }
}

/// Number of sextant characters, which start at U+1FB00.
pub const SEXTANTS: u32 = 60;

/// Looks a sextant up in the table of Braille patterns.
fn sextant_to_braille(index: u32) -> (offset: u32)
    requires
        index < SEXTANTS,
    ensures
        offset == sextant_braille(index),
        offset < 0x40,
{
    match index {
        0 => 0x01,
        1 => 0x08,
        2 => 0x09,
        3 => 0x02,
        4 => 0x03,
        5 => 0x0A,
        6 => 0x0B,
        7 => 0x10,
        8 => 0x11,
        9 => 0x18,
        10 => 0x19,
        11 => 0x12,
        12 => 0x13,
        13 => 0x1A,
        14 => 0x1B,
        15 => 0x04,
        16 => 0x05,
        17 => 0x0C,
        18 => 0x0D,
        19 => 0x06,
        20 => 0x0E,
        21 => 0x0F,
        22 => 0x14,
        23 => 0x15,
        24 => 0x1C,
        25 => 0x1D,
        26 => 0x16,
        27 => 0x17,
        28 => 0x1E,
        29 => 0x1F,
        30 => 0x20,
        31 => 0x21,
        32 => 0x28,
        33 => 0x29,
        34 => 0x22,
        35 => 0x23,
        36 => 0x2A,
        37 => 0x2B,
        38 => 0x30,
        39 => 0x31,
        40 => 0x39,
        41 => 0x32,
        42 => 0x33,
        43 => 0x3A,
        44 => 0x3B,
        45 => 0x24,
        46 => 0x25,
        47 => 0x2C,
        48 => 0x2D,
        49 => 0x26,
        50 => 0x27,
        51 => 0x2E,
        52 => 0x2F,
        53 => 0x34,
        54 => 0x35,
        55 => 0x3C,
        56 => 0x3D,
        57 => 0x36,
        58 => 0x37,
        59 => 0x3E,
        _ => 0x00,
    }
}

/// A glyph of the semi-graphic set: a cell of three rows of two dots.
#[derive(Debug, Clone, Copy, PartialEq, Eq, Structural)]
pub struct G1(pub u8);

impl G1 {
    /// Whether the byte is a mosaic of the set: bit 5 set, bit 7 clear.
    pub open spec fn wf(self) -> bool {
        0x20 <= self.0 < 0x40 || 0x60 <= self.0 < 0x80
    }

    /// Whether the dot at a row (0 to 2) and a column (0 or 1) is lit.
    pub open spec fn lit(self, row: int, col: int) -> bool {
        let v = self.0 as int;
        if row == 0 && col == 0 {
            v % 2 == 1
        } else if row == 0 {
            (v / 2) % 2 == 1
        } else if row == 1 && col == 0 {
            (v / 4) % 2 == 1
        } else if row == 1 {
            (v / 8) % 2 == 1
        } else if row == 2 && col == 0 {
            (v / 16) % 2 == 1
        } else {
            (v / 64) % 2 == 1
        }
    }

    /// Wraps the byte of a mosaic.
    pub fn new(val: u8) -> (g: G1)
        requires
            G1(val).wf(),
        ensures
            g == G1(val),
    {
        G1(val)
    }

    /// Builds the mosaic whose dots are lit as given, row by row.
    pub fn from_bits(bits: [[bool; 2]; 3]) -> (g: G1)
        ensures
            g.0 == mosaic(bits[0][0], bits[0][1], bits[1][0], bits[1][1], bits[2][0], bits[2][1]),
            g.wf(),
            forall|row: int, col: int|
                0 <= row < 3 && 0 <= col < 2 ==> g.lit(row, col) == #[trigger] bits[row][col],
    {
        let b0: u8 = bits[0][0] as u8;
        let b1: u8 = bits[0][1] as u8;
        let b2: u8 = bits[1][0] as u8;
        let b3: u8 = bits[1][1] as u8;
        let b4: u8 = bits[2][0] as u8;
        let b5: u8 = bits[2][1] as u8;
        let val: u8 = b0 | b1 << 1 | b2 << 2 | b3 << 3 | b4 << 4 | 1u8 << 5 | b5 << 6;
        assert(val == 0x20 + b0 + 2 * b1 + 4 * b2 + 8 * b3 + 16 * b4 + 64 * b5) by (bit_vector)
            requires
                b0 <= 1,
                b1 <= 1,
                b2 <= 1,
                b3 <= 1,
                b4 <= 1,
                b5 <= 1,
                val == b0 | b1 << 1 | b2 << 2 | b3 << 3 | b4 << 4 | 1u8 << 5 | b5 << 6,
        ;
        G1(val)
    }

    /// The dots of the mosaic, row by row.
    pub fn bits(self) -> (b: [[bool; 2]; 3])
        ensures
            forall|row: int, col: int|
                0 <= row < 3 && 0 <= col < 2 ==> #[trigger] b[row][col] == self.lit(row, col),
    {
        let v: u8 = self.0;
        assert((v & 0x01 != 0) == (v % 2 == 1) && (v & 0x02 != 0) == ((v / 2) % 2 == 1) && (v & 0x04
            != 0) == ((v / 4) % 2 == 1) && (v & 0x08 != 0) == ((v / 8) % 2 == 1) && (v & 0x10 != 0)
            == ((v / 16) % 2 == 1) && (v & 0x40 != 0) == ((v / 64) % 2 == 1)) by (bit_vector);
        [[v & 0x01 != 0, v & 0x02 != 0], [v & 0x04 != 0, v & 0x08 != 0], [v & 0x10 != 0, v & 0x40 != 0]]
    }

    /// The mosaic that comes nearest to a character, if any does.
    ///
    /// Sextants go through the Braille pattern with their dots, Braille
    /// patterns keep their six upper dots, and each block element has a
    /// fixed mosaic. Several characters share one mosaic.
    pub open spec fn approximation(c: char) -> Option<G1> {
        let n = c as u32;
        if 0x1FB00 <= n < 0x1FB00 + SEXTANTS {
            Some(G1(braille_mosaic(sextant_braille((n - 0x1FB00) as u32))))
        } else if 0x2800 <= n < 0x2900 {
            Some(G1(braille_mosaic((n - 0x2800) as u32)))
        } else if n == 0x20 || n == 0x258E || n == 0x258F || n == 0x2581 {
            Some(G1(0x20))
        } else if n == 0x2598 {
            Some(G1(0x21))
        } else if n == 0x259D {
            Some(G1(0x22))
        } else if n == 0x2596 {
            Some(G1(0x30))
        } else if n == 0x2597 {
            Some(G1(0x60))
        } else if n == 0x2580 {
            Some(G1(0x23))
        } else if n == 0x2584 || n == 0x2583 || n == 0x2582 {
            Some(G1(0x70))
        } else if n == 0x258C || n == 0x258B || n == 0x258D {
            Some(G1(0x35))
        } else if n == 0x2590 {
            Some(G1(0x6A))
        } else if n == 0x2599 {
            Some(G1(0x75))
        } else if n == 0x259B {
            Some(G1(0x37))
        } else if n == 0x259C {
            Some(G1(0x6B))
        } else if n == 0x259F {
            Some(G1(0x7A))
        } else if n == 0x259A {
            Some(G1(0x64))
        } else if n == 0x259E {
            Some(G1(0x26))
        } else if n == 0x2588 || n == 0x2589 || n == 0x258A || n == 0x2587 {
            Some(G1(0x7F))
        } else if n == 0x2586 || n == 0x2585 {
            Some(G1(0x7C))
        } else {
            None
        }
    }

    /// Approximates a character by a mosaic.
    pub fn approximate_char(c: char) -> (r: Option<G1>)
        ensures
            r == Self::approximation(c),
            r matches Some(g) ==> g.wf(),
    {
        let n: u32 = c as u32;
        let n: u32 = if 0x1FB00 <= n && n < 0x1FB00 + SEXTANTS {
            0x2800 + sextant_to_braille(n - 0x1FB00)
        } else {
            n
        };
        if 0x2800 <= n && n < 0x2900 {
            let val: u32 = n - 0x2800;
            let mut bits = [[false; 2]; 3];
            bits[0][0] = val & 0b00000001 != 0;
            bits[1][0] = val & 0b00000010 != 0;
            bits[2][0] = val & 0b00000100 != 0;
            bits[0][1] = val & 0b00001000 != 0;
            bits[1][1] = val & 0b00010000 != 0;
            bits[2][1] = val & 0b00100000 != 0;
            Some(G1::from_bits(bits))
        } else {
            match n {
                0x20 => Some(G1(0x20)),
                // quadrants
                0x2598 => Some(G1(0x21)),
                0x259D => Some(G1(0x22)),
                0x2596 => Some(G1(0x30)),
                0x2597 => Some(G1(0x60)),
                0x2580 => Some(G1(0x23)),
                0x2584 => Some(G1(0x70)),
                0x258C => Some(G1(0x35)),
                0x2590 => Some(G1(0x6A)),
                0x2599 => Some(G1(0x75)),
                0x259B => Some(G1(0x37)),
                0x259C => Some(G1(0x6B)),
                0x259F => Some(G1(0x7A)),
                0x259A => Some(G1(0x64)),
                0x259E => Some(G1(0x26)),
                0x2588 => Some(G1(0x7F)),
                // blocks that grow from the left
                0x2589 => Some(G1(0x7F)),
                0x258A => Some(G1(0x7F)),
                0x258B => Some(G1(0x35)),
                0x258D => Some(G1(0x35)),
                0x258E => Some(G1(0x20)),
                0x258F => Some(G1(0x20)),
                // blocks that grow from the bottom
                0x2587 => Some(G1(0x7F)),
                0x2586 => Some(G1(0x7C)),
                0x2585 => Some(G1(0x7C)),
                0x2583 => Some(G1(0x70)),
                0x2582 => Some(G1(0x70)),
                0x2581 => Some(G1(0x20)),
                _ => None,
            }
        }
    }
}

/// The number of the pattern of a sextant, given as the offset of its
/// character from U+1FB00: the patterns count from 1, and the two that are
/// half blocks have no sextant character.
pub open spec fn sextant_pattern(index: u32) -> int {
    if index < 20 {
        index + 1
    } else if index < 40 {
        index + 2
    } else {
        index + 3
    }
}

/// A sextant is approximated by the mosaic with its own pattern: the dots
/// of the pattern weigh 1, 2, 4, 8, 16 and 32 in the number of the pattern,
/// and 1, 2, 4, 8, 16 and 64 in the byte of the mosaic.
pub proof fn lemma_sextant_keeps_pattern(index: u32)
    requires
        index < SEXTANTS,
    ensures
        braille_mosaic(sextant_braille(index)) == 0x20 + sextant_pattern(index) % 32 + 64 * (
            sextant_pattern(index) / 32),
{
    assert(forall|v: u32|
        v < 0x40 ==> (#[trigger] (v & 0x01) != 0) == (v % 2 == 1) && (v & 0x02 != 0) == ((v / 2) % 2
            == 1) && (v & 0x04 != 0) == ((v / 4) % 2 == 1) && (v & 0x08 != 0) == ((v / 8) % 2 == 1)
            && (v & 0x10 != 0) == ((v / 16) % 2 == 1) && (v & 0x20 != 0) == ((v / 32) % 2 == 1))
        by (bit_vector);
}

/// Mosaics with the same byte have the same dots: the byte tells the six dots apart.
pub proof fn lemma_mosaic_injective(
    a: (bool, bool, bool, bool, bool, bool),
    b: (bool, bool, bool, bool, bool, bool),
)
    requires
        mosaic(a.0, a.1, a.2, a.3, a.4, a.5) == mosaic(b.0, b.1, b.2, b.3, b.4, b.5),
    ensures
        a == b,
{
}

/// The mosaic built from six dots is a glyph of the set, and its dots are
/// the six it was built from.
pub proof fn lemma_mosaic_keeps_dots(tl: bool, tr: bool, ml: bool, mr: bool, bl: bool, br: bool)
    ensures
        ({
            let g = G1(mosaic(tl, tr, ml, mr, bl, br));
            &&& g.wf()
            &&& g.lit(0, 0) == tl
            &&& g.lit(0, 1) == tr
            &&& g.lit(1, 0) == ml
            &&& g.lit(1, 1) == mr
            &&& g.lit(2, 0) == bl
            &&& g.lit(2, 1) == br
        }),
{
}

/// Building a mosaic from the dots of a glyph of the set gives the glyph
/// back, and so does doing it over again.
pub proof fn lemma_mosaic_of_dots(g: G1)
    requires
        g.wf(),
    ensures
        G1(mosaic(g.lit(0, 0), g.lit(0, 1), g.lit(1, 0), g.lit(1, 1), g.lit(2, 0), g.lit(2, 1))) == g,
{
}

impl MinitelMessage for G1 {
    open spec fn wf(self) -> bool {
        0x20 <= self.0 < 0x40 || 0x60 <= self.0 < 0x80
    }

    open spec fn bytes(self) -> Seq<u8> {
        seq![self.0]
    }

    fn is_wf(&self) -> (b: bool) {
        (0x20 <= self.0 && self.0 < 0x40) || (0x60 <= self.0 && self.0 < 0x80)
    }

    fn message(self) -> (m: Vec<u8>) {
        vec![self.0]
    }
}

/// Glyphs of the special set, sent after `SS2`.
#[derive(Debug, Clone, Copy, PartialEq, Eq, Structural)]
pub enum G2 {
    Pound,
    Dollar,
    Hash,
    Section,
    LeftArrow,
    UpArrow,
    RightArrow,
    DownArrow,
    Degree,
    PlusMinus,
    Division,
    OneQuarter,
    OneHalf,
    ThreeQuarters,
    Grave,
    Acute,
    Circumflex,
    Diaeresis,
    Cedille,
    OeMaj,
    OeMin,
    Beta,
}

impl G2 {
    /// The byte that stands for this code on the wire.
    pub open spec fn byte(self) -> u8 {
        match self {
            G2::Pound => 0x23,
            G2::Dollar => 0x24,
            G2::Hash => 0x26,
            G2::Section => 0x27,
            G2::LeftArrow => 0x2C,
            G2::UpArrow => 0x2D,
            G2::RightArrow => 0x2E,
            G2::DownArrow => 0x2F,
            G2::Degree => 0x30,
            G2::PlusMinus => 0x31,
            G2::Division => 0x38,
            G2::OneQuarter => 0x3C,
            G2::OneHalf => 0x3D,
            G2::ThreeQuarters => 0x3E,
            G2::Grave => 0x41,
            G2::Acute => 0x42,
            G2::Circumflex => 0x43,
            G2::Diaeresis => 0x48,
            G2::Cedille => 0x4B,
            G2::OeMaj => 0x6A,
            G2::OeMin => 0x7A,
            G2::Beta => 0x7B,
        }
    }

    /// Encodes this code as its byte.
    pub fn to_byte(self) -> (b: u8)
        ensures
            b == self.byte(),
    {
        match self {
            G2::Pound => 0x23,
            G2::Dollar => 0x24,
            G2::Hash => 0x26,
            G2::Section => 0x27,
            G2::LeftArrow => 0x2C,
            G2::UpArrow => 0x2D,
            G2::RightArrow => 0x2E,
            G2::DownArrow => 0x2F,
            G2::Degree => 0x30,
            G2::PlusMinus => 0x31,
            G2::Division => 0x38,
            G2::OneQuarter => 0x3C,
            G2::OneHalf => 0x3D,
            G2::ThreeQuarters => 0x3E,
            G2::Grave => 0x41,
            G2::Acute => 0x42,
            G2::Circumflex => 0x43,
            G2::Diaeresis => 0x48,
            G2::Cedille => 0x4B,
            G2::OeMaj => 0x6A,
            G2::OeMin => 0x7A,
            G2::Beta => 0x7B,
        }
    }

    /// The code that a byte stands for, if it stands for one.
    pub open spec fn of_byte(b: u8) -> Option<G2> {
        match b {
            0x23 => Some(G2::Pound),
            0x24 => Some(G2::Dollar),
            0x26 => Some(G2::Hash),
            0x27 => Some(G2::Section),
            0x2C => Some(G2::LeftArrow),
            0x2D => Some(G2::UpArrow),
            0x2E => Some(G2::RightArrow),
            0x2F => Some(G2::DownArrow),
            0x30 => Some(G2::Degree),
            0x31 => Some(G2::PlusMinus),
            0x38 => Some(G2::Division),
            0x3C => Some(G2::OneQuarter),
            0x3D => Some(G2::OneHalf),
            0x3E => Some(G2::ThreeQuarters),
            0x41 => Some(G2::Grave),
            0x42 => Some(G2::Acute),
            0x43 => Some(G2::Circumflex),
            0x48 => Some(G2::Diaeresis),
            0x4B => Some(G2::Cedille),
            0x6A => Some(G2::OeMaj),
            0x7A => Some(G2::OeMin),
            0x7B => Some(G2::Beta),
            _ => None,
        }
    }

    /// Decodes a byte: the one code whose byte it is, and `None` where no code has it.
    pub fn from_byte(b: u8) -> (r: Option<G2>)
        ensures
            r == Self::of_byte(b),
            r matches Some(c) ==> c.byte() == b,
            forall|c: G2| c.byte() == b ==> r == Some(c),
    {
        match b {
            0x23 => Some(G2::Pound),
            0x24 => Some(G2::Dollar),
            0x26 => Some(G2::Hash),
            0x27 => Some(G2::Section),
            0x2C => Some(G2::LeftArrow),
            0x2D => Some(G2::UpArrow),
            0x2E => Some(G2::RightArrow),
            0x2F => Some(G2::DownArrow),
            0x30 => Some(G2::Degree),
            0x31 => Some(G2::PlusMinus),
            0x38 => Some(G2::Division),
            0x3C => Some(G2::OneQuarter),
            0x3D => Some(G2::OneHalf),
            0x3E => Some(G2::ThreeQuarters),
            0x41 => Some(G2::Grave),
            0x42 => Some(G2::Acute),
            0x43 => Some(G2::Circumflex),
            0x48 => Some(G2::Diaeresis),
            0x4B => Some(G2::Cedille),
            0x6A => Some(G2::OeMaj),
            0x7A => Some(G2::OeMin),
            0x7B => Some(G2::Beta),
            _ => None,
        }
    }
}

impl G2 {
    /// The character that the glyph shows, standing alone.
    pub open spec fn spec_char(self) -> char {
        match self {
            G2::Pound => '\u{00A3}',
            G2::Dollar => '$',
            G2::Hash => '#',
            G2::Section => '\u{00A7}',
            G2::LeftArrow => '\u{2190}',
            G2::UpArrow => '\u{2191}',
            G2::RightArrow => '\u{2192}',
            G2::DownArrow => '\u{2193}',
            G2::Degree => '\u{00B0}',
            G2::PlusMinus => '\u{00B1}',
            G2::Division => '\u{00F7}',
            G2::OneQuarter => '\u{00BC}',
            G2::OneHalf => '\u{00BD}',
            G2::ThreeQuarters => '\u{00BE}',
            G2::Grave => '`',
            G2::Acute => '\u{00B4}',
            G2::Circumflex => '^',
            G2::Diaeresis => '\u{00A8}',
            G2::Cedille => '\u{00B8}',
            G2::OeMaj => '\u{0152}',
            G2::OeMin => '\u{0153}',
            G2::Beta => '\u{03B2}',
        }
    }

    /// The character that the glyph shows, standing alone.
    #[verifier::when_used_as_spec(spec_char)]
    pub fn char(self) -> (c: char)
        ensures
            c == self.spec_char(),
    {
        match self {
            G2::Pound => '\u{00A3}',
            G2::Dollar => '$',
            G2::Hash => '#',
            G2::Section => '\u{00A7}',
            G2::LeftArrow => '\u{2190}',
            G2::UpArrow => '\u{2191}',
            G2::RightArrow => '\u{2192}',
            G2::DownArrow => '\u{2193}',
            G2::Degree => '\u{00B0}',
            G2::PlusMinus => '\u{00B1}',
            G2::Division => '\u{00F7}',
            G2::OneQuarter => '\u{00BC}',
            G2::OneHalf => '\u{00BD}',
            G2::ThreeQuarters => '\u{00BE}',
            G2::Grave => '`',
            G2::Acute => '\u{00B4}',
            G2::Circumflex => '^',
            G2::Diaeresis => '\u{00A8}',
            G2::Cedille => '\u{00B8}',
            G2::OeMaj => '\u{0152}',
            G2::OeMin => '\u{0153}',
            G2::Beta => '\u{03B2}',
        }
    }

    /// The combining mark that the glyph stands for, where it is an accent.
    pub open spec fn spec_unicode_diacritic(self) -> Option<char> {
        match self {
            G2::Grave => Some('\u{0300}'),
            G2::Acute => Some('\u{0301}'),
            G2::Circumflex => Some('\u{0302}'),
            G2::Diaeresis => Some('\u{0308}'),
            G2::Cedille => Some('\u{0327}'),
            _ => None,
        }
    }

    /// The combining mark that the glyph stands for, where it is an accent.
    #[verifier::when_used_as_spec(spec_unicode_diacritic)]
    pub fn unicode_diacritic(self) -> (m: Option<char>)
        ensures
            m == self.spec_unicode_diacritic(),
    {
        match self {
            G2::Grave => Some('\u{0300}'),
            G2::Acute => Some('\u{0301}'),
            G2::Circumflex => Some('\u{0302}'),
            G2::Diaeresis => Some('\u{0308}'),
            G2::Cedille => Some('\u{0327}'),
            _ => None,
        }
    }

    /// The accent that stands for a combining mark, if the set has it.
    pub open spec fn of_diacritic(c: char) -> Option<G2> {
        match c {
            '\u{0300}' => Some(G2::Grave),
            '\u{0301}' => Some(G2::Acute),
            '\u{0302}' => Some(G2::Circumflex),
            '\u{0308}' => Some(G2::Diaeresis),
            '\u{0327}' => Some(G2::Cedille),
            _ => None,
        }
    }

    /// The accent that stands for a combining mark, if the set has it.
    pub fn try_from_diactric(c: char) -> (r: Option<G2>)
        ensures
            r == Self::of_diacritic(c),
            r matches Some(g) ==> g.unicode_diacritic() == Some(c),
            forall|g: G2| g.unicode_diacritic() == Some(c) ==> r == Some(g),
    {
        match c {
            '\u{0300}' => Some(G2::Grave),
            '\u{0301}' => Some(G2::Acute),
            '\u{0302}' => Some(G2::Circumflex),
            '\u{0308}' => Some(G2::Diaeresis),
            '\u{0327}' => Some(G2::Cedille),
            _ => None,
        }
    }

    /// Whether the glyph is an accent, which shows only over a base letter.
    pub open spec fn is_accent(self) -> bool {
        self.unicode_diacritic() is Some
    }

    /// The glyph that shows a character by itself, if the set has one: the accents are left out.
    pub open spec fn of_char(c: char) -> Option<G2> {
        match c {
            '\u{00A3}' => Some(G2::Pound),
            '$' => Some(G2::Dollar),
            '#' => Some(G2::Hash),
            '\u{00A7}' => Some(G2::Section),
            '\u{2190}' => Some(G2::LeftArrow),
            '\u{2191}' => Some(G2::UpArrow),
            '\u{2192}' => Some(G2::RightArrow),
            '\u{2193}' => Some(G2::DownArrow),
            '\u{00B0}' => Some(G2::Degree),
            '\u{00B1}' => Some(G2::PlusMinus),
            '\u{00F7}' => Some(G2::Division),
            '\u{00BC}' => Some(G2::OneQuarter),
            '\u{00BD}' => Some(G2::OneHalf),
            '\u{00BE}' => Some(G2::ThreeQuarters),
            '\u{0152}' => Some(G2::OeMaj),
            '\u{0153}' => Some(G2::OeMin),
            '\u{03B2}' => Some(G2::Beta),
            _ => None,
        }
    }

    /// The glyph that shows a character by itself, if the set has one.
    ///
    /// The accents are left out: they are reached through their combining marks.
    pub fn from_char(c: char) -> (r: Option<G2>)
        ensures
            r == Self::of_char(c),
            r matches Some(g) ==> g.char() == c && !g.is_accent(),
            forall|g: G2| g.char() == c && !g.is_accent() ==> r == Some(g),
    {
        match c {
            '\u{00A3}' => Some(G2::Pound),
            '$' => Some(G2::Dollar),
            '#' => Some(G2::Hash),
            '\u{00A7}' => Some(G2::Section),
            '\u{2190}' => Some(G2::LeftArrow),
            '\u{2191}' => Some(G2::UpArrow),
            '\u{2192}' => Some(G2::RightArrow),
            '\u{2193}' => Some(G2::DownArrow),
            '\u{00B0}' => Some(G2::Degree),
            '\u{00B1}' => Some(G2::PlusMinus),
            '\u{00F7}' => Some(G2::Division),
            '\u{00BC}' => Some(G2::OneQuarter),
            '\u{00BD}' => Some(G2::OneHalf),
            '\u{00BE}' => Some(G2::ThreeQuarters),
            '\u{0152}' => Some(G2::OeMaj),
            '\u{0153}' => Some(G2::OeMin),
            '\u{03B2}' => Some(G2::Beta),
            _ => None,
        }
    }
}

impl MinitelMessage for G2 {
    open spec fn wf(self) -> bool {
        true
    }

    open spec fn bytes(self) -> Seq<u8> {
        seq![C0::SS2.byte(), self.byte()]
    }

    fn is_wf(&self) -> (b: bool) {
        true
    }

    fn message(self) -> (m: Vec<u8>) {
        vec![C0::SS2.to_byte(), self.to_byte()]
    }
}

impl IntoSequence<2> for G2 {
    open spec fn wire(self) -> Seq<u8> {
        seq![C0::SS2.byte(), self.byte()]
    }

    fn sequence(self) -> (m: [u8; 2]) {
        [C0::SS2.to_byte(), self.to_byte()]
    }
}

/// A character of the alphabetic mode: a glyph, or an accent over a glyph.
#[derive(Debug, Clone, Copy, PartialEq, Eq, Structural)]
pub enum SIChar {
    /// A glyph of the alphabetic set.
    G0(G0),
    /// A glyph of the alphabetic set under an accent of the special set.
    G0Diacritic(G0, G2),
    /// A glyph of the special set.
    G2(G2),
}

impl SIChar {
    /// The accented glyph that a base and a combining mark make, where the
    /// alphabetic set has the base and the special set has the accent.
    pub open spec fn of_parts(base: char, mark: char) -> Option<SIChar> {
        match (G0::of_char(base), G2::of_diacritic(mark)) {
            (Some(g0), Some(g2)) => Some(SIChar::G0Diacritic(g0, g2)),
            _ => None,
        }
    }

    /// Maps a base and a combining mark to an accented glyph.
    pub fn from_parts(base: char, mark: char) -> (r: Option<SIChar>)
        ensures
            r == Self::of_parts(base, mark),
            r matches Some(c) ==> MinitelMessage::wf(c),
    {
        match (G0::from_char(base), G2::try_from_diactric(mark)) {
            (Some(g0), Some(g2)) => Some(SIChar::G0Diacritic(g0, g2)),
            _ => None,
        }
    }

    /// The representation of a character: its glyph of the alphabetic set
    /// where there is one, else its glyph of the special set, else the
    /// accented glyph that the first two characters of its canonical
    /// decomposition make.
    pub open spec fn encoding(c: char) -> Option<SIChar> {
        if let Some(g0) = G0::of_char(c) {
            Some(SIChar::G0(g0))
        } else if let Some(g2) = G2::of_char(c) {
            Some(SIChar::G2(g2))
        } else if canonical_decomposition(c).len() >= 2 {
            Self::of_parts(canonical_decomposition(c)[0], canonical_decomposition(c)[1])
        } else {
            None
        }
    }

    /// Maps a character to its videotex representation, and fails with
    /// `Unmappable` where it has none.
    pub fn encode(c: char) -> (r: Result<SIChar, Error>)
        ensures
            match Self::encoding(c) {
                Some(si) => r == Ok::<SIChar, Error>(si) && MinitelMessage::wf(si),
                None => r matches Err(Error::Unmappable),
            },
    {
        if let Some(g0) = G0::from_char(c) {
            return Ok(SIChar::G0(g0));
        }
        if let Some(g2) = G2::from_char(c) {
            return Ok(SIChar::G2(g2));
        }
        let parts = decompose(c);
        if let (Some(base), Some(mark)) = (decomposition_part(&parts, 0), decomposition_part(&parts, 1)) {
            if let Some(si) = Self::from_parts(base, mark) {
                return Ok(si);
            }
        }
        Err(Error::Unmappable)
    }
}

impl MinitelMessage for SIChar {
    /// The glyph of the alphabetic set is one, and what stands over it is an accent.
    open spec fn wf(self) -> bool {
        match self {
            SIChar::G0(g0) => MinitelMessage::wf(g0),
            SIChar::G0Diacritic(g0, g2) => MinitelMessage::wf(g0) && g2.is_accent(),
            SIChar::G2(_) => true,
        }
    }

    /// The accent goes out before the glyph that it stands over.
    open spec fn bytes(self) -> Seq<u8> {
        match self {
            SIChar::G0(g0) => g0.bytes(),
            SIChar::G0Diacritic(g0, g2) => g2.bytes() + g0.bytes(),
            SIChar::G2(g2) => g2.bytes(),
        }
    }

    fn is_wf(&self) -> (b: bool) {
        match self {
            SIChar::G0(g0) => g0.is_wf(),
            SIChar::G0Diacritic(g0, g2) => g0.is_wf() && g2.unicode_diacritic().is_some(),
            SIChar::G2(_) => true,
        }
    }

    fn message(self) -> (m: Vec<u8>) {
        match self {
            SIChar::G0(g0) => g0.message(),
            SIChar::G0Diacritic(g0, g2) => {
                let mut m = g2.message();
                let mut base = g0.message();
                m.append(&mut base);
                m
            },
            SIChar::G2(g2) => g2.message(),
        }
    }
}

/// The bytes of a character of a text: those of its representation, and
/// none where it has no representation.
pub open spec fn char_bytes(c: char) -> Seq<u8> {
    match SIChar::encoding(c) {
        Some(si) => si.bytes(),
        None => Seq::empty(),
    }
}

/// The bytes of a text: those of its characters, one after the other.
pub open spec fn text_bytes(text: Seq<char>) -> Seq<u8>
    decreases text.len(),
{
    if text.len() == 0 {
        Seq::empty()
    } else {
        text_bytes(text.drop_last()) + char_bytes(text.last())
    }
}

/// A text, sent as far as its characters have a representation.
#[derive(Debug, PartialEq, Eq)]
pub struct StringMessage(pub String);

impl MinitelMessage for StringMessage {
    open spec fn wf(self) -> bool {
        true
    }

    open spec fn bytes(self) -> Seq<u8> {
        text_bytes(self.0@)
    }

    fn is_wf(&self) -> (b: bool) {
        true
    }

    fn message(self) -> (m: Vec<u8>) {
        let mut m: Vec<u8> = Vec::new();
        for c in it: self.0.as_str().chars()
            invariant
                it.seq() == self.0@,
                m@ == text_bytes(self.0@.take(it.index())),
        {
            proof {
                let done = self.0@.take(it.index() + 1);
                assert(done.drop_last() == self.0@.take(it.index()));
            }
            if let Ok(si) = SIChar::encode(c) {
                let mut bytes = si.message();
                m.append(&mut bytes);
            }
        }
        proof {
            assert(self.0@.take(self.0@.len() as int) == self.0@);
        }
        m
    }
}

} // verus!
