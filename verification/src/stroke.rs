//! Keystrokes of the alphabetic mode, decoded byte by byte.

use vstd::prelude::*;
use crate::error::Error;
use crate::glyph::{G0, G2, SIChar};
use crate::MinitelMessage;
use crate::unicode::{canonical_composition, canonical_decomposition, compose};
use crate::videotex::{FunctionKey, UserInput, C0, C1};

verus! {

/// What a keystroke decoder waits for.
#[derive(Debug, Clone, Copy, PartialEq, Eq, Structural)]
pub enum StrokeState {
    /// The first byte of a keystroke.
    Start,
    /// The attribute code after `ESC`.
    Escape,
    /// The function key after `Sep`.
    Function,
    /// The glyph of the special set after `SS2`.
    Special,
    /// The base letter under an accent, with the combining mark of the accent.
    Accent(char),
}

/// What a byte makes of a keystroke.
#[derive(Debug, Clone, Copy, PartialEq, Eq, Structural)]
pub enum StrokeStep {
    /// The keystroke goes on.
    Pending(StrokeState),
    /// The keystroke is complete.
    Stroke(UserInput),
    /// The byte, or the accent with its base, stands for nothing.
    Invalid,
}

impl StrokeStep {
    /// The step that ends a keystroke under an accent, given what the base
    /// and the mark compose to.
    pub open spec fn of_composition(composition: Option<char>) -> StrokeStep {
        match composition {
            Some(c) => StrokeStep::Stroke(UserInput::Char(c)),
            None => StrokeStep::Invalid,
        }
    }

    /// Ends a keystroke under an accent: the composed character is the
    /// keystroke, and a pair that does not compose is invalid.
    pub fn from_composition(composition: Option<char>) -> (step: StrokeStep)
        ensures
            step == Self::of_composition(composition),
    {
        match composition {
            Some(c) => StrokeStep::Stroke(UserInput::Char(c)),
            None => StrokeStep::Invalid,
        }
    }

    /// What a byte makes of a keystroke in a given state.
    ///
    /// A byte of the alphabetic set is its character. A control code stands
    /// for itself, but `ESC`, `Sep` and `SS2` announce an attribute code, a
    /// function key and a glyph of the special set. An accent of the
    /// special set announces its base letter, and the two make the
    /// character that they compose to canonically.
    pub open spec fn of_byte(state: StrokeState, byte: u8) -> StrokeStep {
        match state {
            StrokeState::Start => if let Some(g0) = G0::of_byte(byte) {
                StrokeStep::Stroke(UserInput::Char(g0.spec_char()))
            } else {
                match C0::of_byte(byte) {
                    Some(C0::ESC) => StrokeStep::Pending(StrokeState::Escape),
                    Some(C0::Sep) => StrokeStep::Pending(StrokeState::Function),
                    Some(C0::SS2) => StrokeStep::Pending(StrokeState::Special),
                    Some(c0) => StrokeStep::Stroke(UserInput::C0(c0)),
                    None => StrokeStep::Invalid,
                }
            },
            StrokeState::Escape => match C1::of_byte(byte) {
                Some(c1) => StrokeStep::Stroke(UserInput::C1(c1)),
                None => StrokeStep::Invalid,
            },
            StrokeState::Function => match FunctionKey::of_byte(byte) {
                Some(key) => StrokeStep::Stroke(UserInput::FunctionKey(key)),
                None => StrokeStep::Invalid,
            },
            StrokeState::Special => match G2::of_byte(byte) {
                Some(g2) => match g2.unicode_diacritic() {
                    Some(mark) => StrokeStep::Pending(StrokeState::Accent(mark)),
                    None => StrokeStep::Stroke(UserInput::Char(g2.char())),
                },
                None => StrokeStep::Invalid,
            },
            StrokeState::Accent(mark) => Self::of_composition(
                canonical_composition(byte as char, mark),
            ),
        }
    }

    /// Takes the next byte of a keystroke.
    pub fn feed(state: StrokeState, byte: u8) -> (step: StrokeStep)
        ensures
            step == Self::of_byte(state, byte),
    {
        match state {
            StrokeState::Start => {
                if let Some(g0) = G0::from_byte(byte) {
                    return StrokeStep::Stroke(UserInput::Char(g0.to_char()));
                }
                match C0::from_byte(byte) {
                    Some(C0::ESC) => StrokeStep::Pending(StrokeState::Escape),
                    Some(C0::Sep) => StrokeStep::Pending(StrokeState::Function),
                    Some(C0::SS2) => StrokeStep::Pending(StrokeState::Special),
                    Some(c0) => StrokeStep::Stroke(UserInput::C0(c0)),
                    None => StrokeStep::Invalid,
                }
            },
            StrokeState::Escape => match C1::from_byte(byte) {
                Some(c1) => StrokeStep::Stroke(UserInput::C1(c1)),
                None => StrokeStep::Invalid,
            },
            StrokeState::Function => match FunctionKey::from_byte(byte) {
                Some(key) => StrokeStep::Stroke(UserInput::FunctionKey(key)),
                None => StrokeStep::Invalid,
            },
            StrokeState::Special => match G2::from_byte(byte) {
                Some(g2) => match g2.unicode_diacritic() {
                    Some(mark) => StrokeStep::Pending(StrokeState::Accent(mark)),
                    None => StrokeStep::Stroke(UserInput::Char(g2.char())),
                },
                None => StrokeStep::Invalid,
            },
            StrokeState::Accent(mark) => Self::from_composition(compose(byte as char, mark)),
        }
    }

    /// Whether the keystroke has ended, one way or another.
    pub open spec fn is_final(self) -> bool {
        !(self is Pending)
    }

    /// How many more bytes the keystroke can take at most.
    pub open spec fn room(self) -> int {
        match self {
            StrokeStep::Pending(StrokeState::Start) => 3,
            StrokeStep::Pending(StrokeState::Special) => 2,
            StrokeStep::Pending(_) => 1,
            _ => 0,
        }
    }

    /// The outcome of a keystroke that has ended: the keystroke, and
    /// `UnknownCode` where it is invalid.
    pub open spec fn outcome(self) -> Result<UserInput, Error> {
        match self {
            StrokeStep::Stroke(input) => Ok(input),
            _ => Err(Error::UnknownCode),
        }
    }

    /// The outcome of a keystroke that has ended.
    pub fn finish(self) -> (r: Result<UserInput, Error>)
        requires
            self.is_final(),
        ensures
            r == self.outcome(),
    {
        match self {
            StrokeStep::Stroke(input) => Ok(input),
            _ => Err(Error::UnknownCode),
        }
    }

    /// What a sequence of bytes makes of a keystroke, from its start. A
    /// keystroke that has ended stays as it is.
    pub open spec fn of(bytes: Seq<u8>) -> StrokeStep
        decreases bytes.len(),
    {
        if bytes.len() == 0 {
            StrokeStep::Pending(StrokeState::Start)
        } else {
            match Self::of(bytes.drop_last()) {
                StrokeStep::Pending(state) => Self::of_byte(state, bytes.last()),
                ended => ended,
            }
        }
    }

    /// Whether a sequence of bytes ends where its keystroke does.
    pub open spec fn ends_with(bytes: Seq<u8>) -> bool {
        &&& bytes.len() > 0
        &&& !Self::of(bytes.drop_last()).is_final()
        &&& Self::of(bytes).is_final()
    }
}

/// A keystroke takes three bytes at most: while it has not ended, the bytes
/// taken and the bytes that it can still take are no more than three.
pub proof fn lemma_stroke_room(bytes: Seq<u8>)
    ensures
        !StrokeStep::of(bytes).is_final() ==> bytes.len() + StrokeStep::of(bytes).room() <= 3,
        !StrokeStep::of(bytes).is_final() ==> StrokeStep::of(bytes).room() > 0,
    decreases bytes.len(),
{
    if bytes.len() > 0 {
        lemma_stroke_room(bytes.drop_last());
    }
}

/// No keystroke goes on for ever: after three bytes it has ended.
pub proof fn lemma_stroke_ends(bytes: Seq<u8>)
    requires
        bytes.len() >= 3,
    ensures
        StrokeStep::of(bytes).is_final(),
{
    lemma_stroke_room(bytes);
}

/// What the sequences of one, two and three bytes make of a keystroke.
pub proof fn lemma_stroke_of_bytes(a: u8, b: u8, c: u8)
    ensures
        StrokeStep::of(seq![a]) == StrokeStep::of_byte(StrokeState::Start, a),
        StrokeStep::of(seq![a, b]) == match StrokeStep::of(seq![a]) {
            StrokeStep::Pending(state) => StrokeStep::of_byte(state, b),
            ended => ended,
        },
        StrokeStep::of(seq![a, b, c]) == match StrokeStep::of(seq![a, b]) {
            StrokeStep::Pending(state) => StrokeStep::of_byte(state, c),
            ended => ended,
        },
{
    assert(StrokeStep::of(seq![a].drop_last()) == StrokeStep::Pending(StrokeState::Start));
    assert(seq![a, b].drop_last() =~= seq![a]);
    assert(seq![a, b, c].drop_last() =~= seq![a, b]);
}

/// A printable ASCII character that has a representation comes back from
/// the keyboard as it went out to the screen: its representation is one
/// glyph of the alphabetic set, and the byte of the glyph is the keystroke
/// of the character.
///
/// The five printable characters without a representation are left out:
/// the circumflex, the grave accent, the braces and the tilde.
pub proof fn lemma_ascii_round_trip(c: char)
    requires
        0x20 <= c as u32 <= 0x7E,
        c != '^',
        c != '`',
        c != '{',
        c != '}',
        c != '~',
    ensures
        SIChar::encoding(c) == Some(SIChar::G0(G0(c as u8))),
        SIChar::G0(G0(c as u8)).bytes() == seq![c as u8],
        StrokeStep::of(seq![c as u8]) == StrokeStep::Stroke(UserInput::Char(c)),
        StrokeStep::ends_with(seq![c as u8]),
{
    lemma_stroke_of_bytes(c as u8, 0, 0);
}

/// A symbol of the special set comes back from the keyboard as it went out
/// to the screen: its representation is its glyph after `SS2`, and these
/// two bytes are the keystroke of the character.
pub proof fn lemma_special_round_trip(c: char)
    requires
        G0::of_char(c) is None,
        G2::of_char(c) is Some,
    ensures
        ({
            let glyph = G2::of_char(c)->0;
            &&& SIChar::encoding(c) == Some(SIChar::G2(glyph))
            &&& SIChar::G2(glyph).bytes() == seq![0x19u8, glyph.byte()]
            &&& StrokeStep::of(seq![0x19u8, glyph.byte()]) == StrokeStep::Stroke(UserInput::Char(c))
            &&& StrokeStep::ends_with(seq![0x19u8, glyph.byte()])
        }),
{
    let glyph = G2::of_char(c)->0;
    lemma_stroke_of_bytes(0x19u8, glyph.byte(), 0);
    assert(seq![0x19u8, glyph.byte()].drop_last() =~= seq![0x19u8]);
}

/// The keystrokes mirror the messages: the bytes of a function key, of an
/// attribute code and of a control code that announces nothing are the
/// keystrokes of the key and of the codes.
pub proof fn lemma_stroke_mirrors_messages(key: FunctionKey, c1: C1, c0: C0)
    ensures
        StrokeStep::of(key.bytes()) == StrokeStep::Stroke(UserInput::FunctionKey(key)),
        StrokeStep::ends_with(key.bytes()),
        StrokeStep::of(c1.bytes()) == StrokeStep::Stroke(UserInput::C1(c1)),
        StrokeStep::ends_with(c1.bytes()),
        c0 != C0::ESC && c0 != C0::Sep && c0 != C0::SS2 ==> StrokeStep::of(c0.bytes())
            == StrokeStep::Stroke(UserInput::C0(c0)) && StrokeStep::ends_with(c0.bytes()),
{
    lemma_stroke_of_bytes(0x13u8, key.byte(), 0);
    lemma_stroke_of_bytes(0x1Bu8, c1.byte(), 0);
    lemma_stroke_of_bytes(c0.byte(), 0, 0);
    assert(seq![0x13u8, key.byte()].drop_last() =~= seq![0x13u8]);
    assert(seq![0x1Bu8, c1.byte()].drop_last() =~= seq![0x1Bu8]);
}

/// A character made of a base letter and one of the five accents goes out
/// as the accent before the letter, and comes back from these three bytes
/// as the same character.
///
/// The character has no glyph of its own, the base is an ASCII character
/// of the alphabetic set, and the mark is one of the five combining marks.
/// That the two make the character means: the character decomposes
/// canonically to the base and the mark, and they compose canonically to it.
pub proof fn lemma_accent_round_trip(c: char, base: char, mark: char)
    requires
        G0::of_char(c) is None,
        G2::of_char(c) is None,
        base as u32 <= 0x7E,
        G0::of_char(base) is Some,
        G2::of_diacritic(mark) is Some,
    ensures
        canonical_decomposition(c) == seq![base, mark] && canonical_composition(base, mark) == Some(c)
            ==> ({
            let accent = G2::of_diacritic(mark)->0;
            let si = SIChar::G0Diacritic(G0(base as u8), accent);
            &&& SIChar::encoding(c) == Some(si)
            &&& si.bytes() == seq![0x19u8, accent.byte(), base as u8]
            &&& StrokeStep::of(si.bytes()) == StrokeStep::Stroke(UserInput::Char(c))
            &&& StrokeStep::ends_with(si.bytes())
        }),
{
    if canonical_decomposition(c) == seq![base, mark] && canonical_composition(base, mark) == Some(c) {
        let accent = G2::of_diacritic(mark)->0;
        let si = SIChar::G0Diacritic(G0(base as u8), accent);
        let bytes = seq![0x19u8, accent.byte(), base as u8];
        assert(si.bytes() =~= bytes);
        lemma_stroke_of_bytes(0x19u8, accent.byte(), base as u8);
        assert(StrokeStep::of(seq![0x19u8, accent.byte()]) == StrokeStep::Pending(
            StrokeState::Accent(mark),
        ));
        assert(bytes.drop_last() =~= seq![0x19u8, accent.byte()]);
    }
}

} // verus!
