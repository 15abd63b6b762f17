//! Control codes, attribute codes and function keys of the videotex mode.

use vstd::prelude::*;
use crate::{IntoSequence, MinitelMessage};

verus! {

/// Single-byte control codes.
#[derive(Debug, Clone, Copy, PartialEq, Eq, Structural)]
pub enum C0 {
    /// Padding, ignored by the terminal.
    NUL,
    /// Opens the answer to an identification request.
    SOH,
    /// Closes the answer to an identification request.
    EOL,
    ENQ,
    BEL,
    /// Move the cursor to the left.
    BS,
    /// Move the cursor to the right.
    HT,
    /// Move the cursor down.
    LF,
    /// Move the cursor up.
    VT,
    /// Move the cursor to the first position of the first line and clear the screen.
    FF,
    /// Move the cursor to the beginning of the line.
    CR,
    /// Select the semi-graphic set.
    SO,
    /// Select the alphabetic set.
    SI,
    DLE,
    /// Show the cursor.
    Con,
    /// Repeat the last glyph.
    Rep,
    /// Announces a function key.
    Sep,
    /// Hide the cursor.
    Coff,
    NACK,
    SYN,
    CAN,
    /// Announces a glyph of the special set.
    SS2,
    SUB,
    /// Announces an attribute code or a protocol message.
    ESC,
    SS3,
    /// Move the cursor to the first position of the first line.
    RS,
    /// Announces a cursor position.
    US,
}

impl C0 {
    /// The byte that stands for this code on the wire.
    pub open spec fn byte(self) -> u8 {
        match self {
            C0::NUL => 0x00,
            C0::SOH => 0x01,
            C0::EOL => 0x04,
            C0::ENQ => 0x05,
            C0::BEL => 0x07,
            C0::BS => 0x08,
            C0::HT => 0x09,
            C0::LF => 0x0A,
            C0::VT => 0x0B,
            C0::FF => 0x0C,
            C0::CR => 0x0D,
            C0::SO => 0x0E,
            C0::SI => 0x0F,
            C0::DLE => 0x10,
            C0::Con => 0x11,
            C0::Rep => 0x12,
            C0::Sep => 0x13,
            C0::Coff => 0x14,
            C0::NACK => 0x15,
            C0::SYN => 0x16,
            C0::CAN => 0x18,
            C0::SS2 => 0x19,
            C0::SUB => 0x1A,
            C0::ESC => 0x1B,
            C0::SS3 => 0x1D,
            C0::RS => 0x1E,
            C0::US => 0x1F,
        }
    }

    /// Encodes this code as its byte.
    pub fn to_byte(self) -> (b: u8)
        ensures
            b == self.byte(),
    {
        match self {
            C0::NUL => 0x00,
            C0::SOH => 0x01,
            C0::EOL => 0x04,
            C0::ENQ => 0x05,
            C0::BEL => 0x07,
            C0::BS => 0x08,
            C0::HT => 0x09,
            C0::LF => 0x0A,
            C0::VT => 0x0B,
            C0::FF => 0x0C,
            C0::CR => 0x0D,
            C0::SO => 0x0E,
            C0::SI => 0x0F,
            C0::DLE => 0x10,
            C0::Con => 0x11,
            C0::Rep => 0x12,
            C0::Sep => 0x13,
            C0::Coff => 0x14,
            C0::NACK => 0x15,
            C0::SYN => 0x16,
            C0::CAN => 0x18,
            C0::SS2 => 0x19,
            C0::SUB => 0x1A,
            C0::ESC => 0x1B,
            C0::SS3 => 0x1D,
            C0::RS => 0x1E,
            C0::US => 0x1F,
        }
    }

    /// The code that a byte stands for, if it stands for one.
    pub open spec fn of_byte(b: u8) -> Option<C0> {
        match b {
            0x00 => Some(C0::NUL),
            0x01 => Some(C0::SOH),
            0x04 => Some(C0::EOL),
            0x05 => Some(C0::ENQ),
            0x07 => Some(C0::BEL),
            0x08 => Some(C0::BS),
            0x09 => Some(C0::HT),
            0x0A => Some(C0::LF),
            0x0B => Some(C0::VT),
            0x0C => Some(C0::FF),
            0x0D => Some(C0::CR),
            0x0E => Some(C0::SO),
            0x0F => Some(C0::SI),
            0x10 => Some(C0::DLE),
            0x11 => Some(C0::Con),
            0x12 => Some(C0::Rep),
            0x13 => Some(C0::Sep),
            0x14 => Some(C0::Coff),
            0x15 => Some(C0::NACK),
            0x16 => Some(C0::SYN),
            0x18 => Some(C0::CAN),
            0x19 => Some(C0::SS2),
            0x1A => Some(C0::SUB),
            0x1B => Some(C0::ESC),
            0x1D => Some(C0::SS3),
            0x1E => Some(C0::RS),
            0x1F => Some(C0::US),
            _ => None,
        }
    }

    /// Decodes a byte: the one code whose byte it is, and `None` where no code has it.
    pub fn from_byte(b: u8) -> (r: Option<C0>)
        ensures
            r == Self::of_byte(b),
            r matches Some(c) ==> c.byte() == b,
            forall|c: C0| c.byte() == b ==> r == Some(c),
    {
        match b {
            0x00 => Some(C0::NUL),
            0x01 => Some(C0::SOH),
            0x04 => Some(C0::EOL),
            0x05 => Some(C0::ENQ),
            0x07 => Some(C0::BEL),
            0x08 => Some(C0::BS),
            0x09 => Some(C0::HT),
            0x0A => Some(C0::LF),
            0x0B => Some(C0::VT),
            0x0C => Some(C0::FF),
            0x0D => Some(C0::CR),
            0x0E => Some(C0::SO),
            0x0F => Some(C0::SI),
            0x10 => Some(C0::DLE),
            0x11 => Some(C0::Con),
            0x12 => Some(C0::Rep),
            0x13 => Some(C0::Sep),
            0x14 => Some(C0::Coff),
            0x15 => Some(C0::NACK),
            0x16 => Some(C0::SYN),
            0x18 => Some(C0::CAN),
            0x19 => Some(C0::SS2),
            0x1A => Some(C0::SUB),
            0x1B => Some(C0::ESC),
            0x1D => Some(C0::SS3),
            0x1E => Some(C0::RS),
            0x1F => Some(C0::US),
            _ => None,
        }
    }
}

impl MinitelMessage for C0 {
    open spec fn wf(self) -> bool {
        true
    }

    open spec fn bytes(self) -> Seq<u8> {
        seq![self.byte()]
    }

    fn is_wf(&self) -> (b: bool) {
        true
    }

    fn message(self) -> (m: Vec<u8>) {
        vec![self.to_byte()]
    }
}

/// Attribute codes, sent after `ESC`.
#[derive(Debug, Clone, Copy, PartialEq, Eq, Structural)]
pub enum C1 {
    /// Foreground at 0% luminance.
    CharBlack,
    /// Foreground at 50% luminance.
    CharRed,
    /// Foreground at 70% luminance.
    CharGreen,
    /// Foreground at 90% luminance.
    CharYellow,
    /// Foreground at 40% luminance.
    CharBlue,
    /// Foreground at 60% luminance.
    CharMagenta,
    /// Foreground at 80% luminance.
    CharCyan,
    /// Foreground at 100% luminance.
    CharWhite,
    Blink,
    Fixed,
    NormalSize,
    DoubleHeight,
    DoubleWidth,
    DoubleSize,
    /// Background at 0% luminance.
    BgBlack,
    /// Background at 50% luminance.
    BgRed,
    /// Background at 70% luminance.
    BgGreen,
    /// Background at 90% luminance.
    BgYellow,
    /// Background at 40% luminance.
    BgBlue,
    /// Background at 60% luminance.
    BgMagenta,
    /// Background at 80% luminance.
    BgCyan,
    /// Background at 100% luminance.
    BgWhite,
    Mask,
    /// End underline, or joint semi-graphic.
    EndUnderline,
    /// Begin underline, or disjoint semi-graphic.
    BeginUnderline,
    Csi,
    NormalBg,
    InvertBg,
    Unmask,
    /// Ask for the cursor position.
    EnqCursor,
}

impl C1 {
    /// The byte that stands for this code on the wire.
    pub open spec fn byte(self) -> u8 {
        match self {
            C1::CharBlack => 0x40,
            C1::CharRed => 0x41,
            C1::CharGreen => 0x42,
            C1::CharYellow => 0x43,
            C1::CharBlue => 0x44,
            C1::CharMagenta => 0x45,
            C1::CharCyan => 0x46,
            C1::CharWhite => 0x47,
            C1::Blink => 0x48,
            C1::Fixed => 0x49,
            C1::NormalSize => 0x4C,
            C1::DoubleHeight => 0x4D,
            C1::DoubleWidth => 0x4E,
            C1::DoubleSize => 0x4F,
            C1::BgBlack => 0x50,
            C1::BgRed => 0x51,
            C1::BgGreen => 0x52,
            C1::BgYellow => 0x53,
            C1::BgBlue => 0x54,
            C1::BgMagenta => 0x55,
            C1::BgCyan => 0x56,
            C1::BgWhite => 0x57,
            C1::Mask => 0x58,
            C1::EndUnderline => 0x59,
            C1::BeginUnderline => 0x5A,
            C1::Csi => 0x5B,
            C1::NormalBg => 0x5C,
            C1::InvertBg => 0x5D,
            C1::Unmask => 0x5F,
            C1::EnqCursor => 0x61,
        }
    }

    /// Encodes this code as its byte.
    pub fn to_byte(self) -> (b: u8)
        ensures
            b == self.byte(),
    {
        match self {
            C1::CharBlack => 0x40,
            C1::CharRed => 0x41,
            C1::CharGreen => 0x42,
            C1::CharYellow => 0x43,
            C1::CharBlue => 0x44,
            C1::CharMagenta => 0x45,
            C1::CharCyan => 0x46,
            C1::CharWhite => 0x47,
            C1::Blink => 0x48,
            C1::Fixed => 0x49,
            C1::NormalSize => 0x4C,
            C1::DoubleHeight => 0x4D,
            C1::DoubleWidth => 0x4E,
            C1::DoubleSize => 0x4F,
            C1::BgBlack => 0x50,
            C1::BgRed => 0x51,
            C1::BgGreen => 0x52,
            C1::BgYellow => 0x53,
            C1::BgBlue => 0x54,
            C1::BgMagenta => 0x55,
            C1::BgCyan => 0x56,
            C1::BgWhite => 0x57,
            C1::Mask => 0x58,
            C1::EndUnderline => 0x59,
            C1::BeginUnderline => 0x5A,
            C1::Csi => 0x5B,
            C1::NormalBg => 0x5C,
            C1::InvertBg => 0x5D,
            C1::Unmask => 0x5F,
            C1::EnqCursor => 0x61,
        }
    }

    /// The code that a byte stands for, if it stands for one.
    pub open spec fn of_byte(b: u8) -> Option<C1> {
        match b {
            0x40 => Some(C1::CharBlack),
            0x41 => Some(C1::CharRed),
            0x42 => Some(C1::CharGreen),
            0x43 => Some(C1::CharYellow),
            0x44 => Some(C1::CharBlue),
            0x45 => Some(C1::CharMagenta),
            0x46 => Some(C1::CharCyan),
            0x47 => Some(C1::CharWhite),
            0x48 => Some(C1::Blink),
            0x49 => Some(C1::Fixed),
            0x4C => Some(C1::NormalSize),
            0x4D => Some(C1::DoubleHeight),
            0x4E => Some(C1::DoubleWidth),
            0x4F => Some(C1::DoubleSize),
            0x50 => Some(C1::BgBlack),
            0x51 => Some(C1::BgRed),
            0x52 => Some(C1::BgGreen),
            0x53 => Some(C1::BgYellow),
            0x54 => Some(C1::BgBlue),
            0x55 => Some(C1::BgMagenta),
            0x56 => Some(C1::BgCyan),
            0x57 => Some(C1::BgWhite),
            0x58 => Some(C1::Mask),
            0x59 => Some(C1::EndUnderline),
            0x5A => Some(C1::BeginUnderline),
            0x5B => Some(C1::Csi),
            0x5C => Some(C1::NormalBg),
            0x5D => Some(C1::InvertBg),
            0x5F => Some(C1::Unmask),
            0x61 => Some(C1::EnqCursor),
            _ => None,
        }
    }

    /// Decodes a byte: the one code whose byte it is, and `None` where no code has it.
    pub fn from_byte(b: u8) -> (r: Option<C1>)
        ensures
            r == Self::of_byte(b),
            r matches Some(c) ==> c.byte() == b,
            forall|c: C1| c.byte() == b ==> r == Some(c),
    {
        match b {
            0x40 => Some(C1::CharBlack),
            0x41 => Some(C1::CharRed),
            0x42 => Some(C1::CharGreen),
            0x43 => Some(C1::CharYellow),
            0x44 => Some(C1::CharBlue),
            0x45 => Some(C1::CharMagenta),
            0x46 => Some(C1::CharCyan),
            0x47 => Some(C1::CharWhite),
            0x48 => Some(C1::Blink),
            0x49 => Some(C1::Fixed),
            0x4C => Some(C1::NormalSize),
            0x4D => Some(C1::DoubleHeight),
            0x4E => Some(C1::DoubleWidth),
            0x4F => Some(C1::DoubleSize),
            0x50 => Some(C1::BgBlack),
            0x51 => Some(C1::BgRed),
            0x52 => Some(C1::BgGreen),
            0x53 => Some(C1::BgYellow),
            0x54 => Some(C1::BgBlue),
            0x55 => Some(C1::BgMagenta),
            0x56 => Some(C1::BgCyan),
            0x57 => Some(C1::BgWhite),
            0x58 => Some(C1::Mask),
            0x59 => Some(C1::EndUnderline),
            0x5A => Some(C1::BeginUnderline),
            0x5B => Some(C1::Csi),
            0x5C => Some(C1::NormalBg),
            0x5D => Some(C1::InvertBg),
            0x5F => Some(C1::Unmask),
            0x61 => Some(C1::EnqCursor),
            _ => None,
        }
    }
}

impl MinitelMessage for C1 {
    open spec fn wf(self) -> bool {
        true
    }

    open spec fn bytes(self) -> Seq<u8> {
        seq![C0::ESC.byte(), self.byte()]
    }

    fn is_wf(&self) -> (b: bool) {
        true
    }

    fn message(self) -> (m: Vec<u8>) {
        vec![C0::ESC.to_byte(), self.to_byte()]
    }
}

impl IntoSequence<2> for C1 {
    open spec fn wire(self) -> Seq<u8> {
        seq![C0::ESC.byte(), self.byte()]
    }

    fn sequence(self) -> (m: [u8; 2]) {
        [C0::ESC.to_byte(), self.to_byte()]
    }
}

/// Keys of the function keypad, sent after `Sep`.
#[derive(Debug, Clone, Copy, PartialEq, Eq, Structural)]
pub enum FunctionKey {
    Envoi,
    Retour,
    Repetition,
    Guide,
    Annulation,
    Sommaire,
    Correction,
    Suite,
    ConnexionFin,
}

impl FunctionKey {
    /// The byte that stands for this code on the wire.
    pub open spec fn byte(self) -> u8 {
        match self {
            FunctionKey::Envoi => 0x41,
            FunctionKey::Retour => 0x42,
            FunctionKey::Repetition => 0x43,
            FunctionKey::Guide => 0x44,
            FunctionKey::Annulation => 0x45,
            FunctionKey::Sommaire => 0x46,
            FunctionKey::Correction => 0x47,
            FunctionKey::Suite => 0x48,
            FunctionKey::ConnexionFin => 0x49,
        }
    }

    /// Encodes this code as its byte.
    pub fn to_byte(self) -> (b: u8)
        ensures
            b == self.byte(),
    {
        match self {
            FunctionKey::Envoi => 0x41,
            FunctionKey::Retour => 0x42,
            FunctionKey::Repetition => 0x43,
            FunctionKey::Guide => 0x44,
            FunctionKey::Annulation => 0x45,
            FunctionKey::Sommaire => 0x46,
            FunctionKey::Correction => 0x47,
            FunctionKey::Suite => 0x48,
            FunctionKey::ConnexionFin => 0x49,
        }
    }

    /// The code that a byte stands for, if it stands for one.
    pub open spec fn of_byte(b: u8) -> Option<FunctionKey> {
        match b {
            0x41 => Some(FunctionKey::Envoi),
            0x42 => Some(FunctionKey::Retour),
            0x43 => Some(FunctionKey::Repetition),
            0x44 => Some(FunctionKey::Guide),
            0x45 => Some(FunctionKey::Annulation),
            0x46 => Some(FunctionKey::Sommaire),
            0x47 => Some(FunctionKey::Correction),
            0x48 => Some(FunctionKey::Suite),
            0x49 => Some(FunctionKey::ConnexionFin),
            _ => None,
        }
    }

    /// Decodes a byte: the one code whose byte it is, and `None` where no code has it.
    pub fn from_byte(b: u8) -> (r: Option<FunctionKey>)
        ensures
            r == Self::of_byte(b),
            r matches Some(c) ==> c.byte() == b,
            forall|c: FunctionKey| c.byte() == b ==> r == Some(c),
    {
        match b {
            0x41 => Some(FunctionKey::Envoi),
            0x42 => Some(FunctionKey::Retour),
            0x43 => Some(FunctionKey::Repetition),
            0x44 => Some(FunctionKey::Guide),
            0x45 => Some(FunctionKey::Annulation),
            0x46 => Some(FunctionKey::Sommaire),
            0x47 => Some(FunctionKey::Correction),
            0x48 => Some(FunctionKey::Suite),
            0x49 => Some(FunctionKey::ConnexionFin),
            _ => None,
        }
    }
}

impl MinitelMessage for FunctionKey {
    open spec fn wf(self) -> bool {
        true
    }

    open spec fn bytes(self) -> Seq<u8> {
        seq![C0::Sep.byte(), self.byte()]
    }

    fn is_wf(&self) -> (b: bool) {
        true
    }

    fn message(self) -> (m: Vec<u8>) {
        vec![C0::Sep.to_byte(), self.to_byte()]
    }
}

impl IntoSequence<2> for FunctionKey {
    open spec fn wire(self) -> Seq<u8> {
        seq![C0::Sep.byte(), self.byte()]
    }

    fn sequence(self) -> (m: [u8; 2]) {
        [C0::Sep.to_byte(), self.to_byte()]
    }
}

/// The function keys, under their French name.
pub type TouchesFonction = FunctionKey;

/// Luminance levels, for terminals with a monochrome screen.
#[derive(Debug, Clone, Copy, PartialEq, Eq, Structural)]
pub enum GrayScale {
    Black,
    Gray40,
    Gray50,
    Gray60,
    Gray70,
    Gray80,
    Gray90,
    White,
}

impl GrayScale {
    /// The foreground colour that the screen shows at this luminance.
    pub open spec fn spec_char(&self) -> C1 {
        match self {
            GrayScale::Black => C1::CharBlack,
            GrayScale::Gray40 => C1::CharBlue,
            GrayScale::Gray50 => C1::CharRed,
            GrayScale::Gray60 => C1::CharMagenta,
            GrayScale::Gray70 => C1::CharGreen,
            GrayScale::Gray80 => C1::CharCyan,
            GrayScale::Gray90 => C1::CharYellow,
            GrayScale::White => C1::CharWhite,
        }
    }

    /// The background colour that the screen shows at this luminance.
    pub open spec fn spec_bg(&self) -> C1 {
        match self {
            GrayScale::Black => C1::BgBlack,
            GrayScale::Gray40 => C1::BgBlue,
            GrayScale::Gray50 => C1::BgRed,
            GrayScale::Gray60 => C1::BgMagenta,
            GrayScale::Gray70 => C1::BgGreen,
            GrayScale::Gray80 => C1::BgCyan,
            GrayScale::Gray90 => C1::BgYellow,
            GrayScale::White => C1::BgWhite,
        }
    }

    #[verifier::when_used_as_spec(spec_char)]
    pub fn char(&self) -> (c: C1)
        ensures
            c == self.spec_char(),
    {
        match self {
            GrayScale::Black => C1::CharBlack,
            GrayScale::Gray40 => C1::CharBlue,
            GrayScale::Gray50 => C1::CharRed,
            GrayScale::Gray60 => C1::CharMagenta,
            GrayScale::Gray70 => C1::CharGreen,
            GrayScale::Gray80 => C1::CharCyan,
            GrayScale::Gray90 => C1::CharYellow,
            GrayScale::White => C1::CharWhite,
        }
    }

    #[verifier::when_used_as_spec(spec_bg)]
    pub fn bg(&self) -> (c: C1)
        ensures
            c == self.spec_bg(),
    {
        match self {
            GrayScale::Black => C1::BgBlack,
            GrayScale::Gray40 => C1::BgBlue,
            GrayScale::Gray50 => C1::BgRed,
            GrayScale::Gray60 => C1::BgMagenta,
            GrayScale::Gray70 => C1::BgGreen,
            GrayScale::Gray80 => C1::BgCyan,
            GrayScale::Gray90 => C1::BgYellow,
            GrayScale::White => C1::BgWhite,
        }
    }
}

/// Highest column that a cursor position can name.
pub const MAX_COLUMN: u8 = 190;

/// Highest row that a cursor position can name.
pub const MAX_ROW: u8 = 191;

/// Moves the cursor to a column and a row, in that order.
///
/// Columns count from 0. Row 0 is the status row, the text rows count from 1.
#[derive(Debug, Clone, Copy, PartialEq, Eq, Structural)]
pub struct SetPosition(pub u8, pub u8);

impl MinitelMessage for SetPosition {
    /// The column and the row fit in their bytes.
    open spec fn wf(self) -> bool {
        self.0 <= MAX_COLUMN && self.1 <= MAX_ROW
    }

    /// `US`, then the row, then the column counted from 1, each above `0x40`.
    open spec fn bytes(self) -> Seq<u8> {
        seq![C0::US.byte(), (0x40 + self.1) as u8, (0x40 + self.0 + 1) as u8]
    }

    fn is_wf(&self) -> (b: bool) {
        self.0 <= MAX_COLUMN && self.1 <= MAX_ROW
    }

    fn message(self) -> (m: Vec<u8>) {
        vec![C0::US.to_byte(), 0x40 + self.1, 0x40 + self.0 + 1]
    }
}

/// Highest count that a repetition can carry.
pub const MAX_REPEAT: u8 = 191;

/// Repeats the last glyph a number of times.
#[derive(Debug, Clone, Copy, PartialEq, Eq, Structural)]
pub struct Repeat(pub u8);

impl MinitelMessage for Repeat {
    /// The count fits in its byte.
    open spec fn wf(self) -> bool {
        self.0 <= MAX_REPEAT
    }

    /// `Rep`, then the count above `0x40`.
    open spec fn bytes(self) -> Seq<u8> {
        seq![C0::Rep.byte(), (0x40 + self.0) as u8]
    }

    fn is_wf(&self) -> (b: bool) {
        self.0 <= MAX_REPEAT
    }

    fn message(self) -> (m: Vec<u8>) {
        vec![C0::Rep.to_byte(), 0x40 + self.0]
    }
}

/// A decoded keystroke.
#[derive(Debug, Clone, Copy, PartialEq, Eq, Structural)]
pub enum UserInput {
    /// A character of the alphabetic or of the special set.
    Char(char),
    /// A control code.
    C0(C0),
    /// An attribute code.
    C1(C1),
    /// A key of the function keypad.
    FunctionKey(FunctionKey),
}

/// A keystroke, as the session reads it.
pub type Stroke = UserInput;

} // verus!
