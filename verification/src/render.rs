//! Differential rendering of a grid of styled cells.
//!
//! The terminal keeps a cursor, a selected glyph set and the attributes
//! last sent, and none of them can be read back. The renderer mirrors
//! them, and sends for each cell only what the mirror does not hold yet.

use vstd::prelude::*;
use crate::glyph::{G0, G1, SIChar};
use crate::videotex::{C0, C1, GrayScale, Repeat, SetPosition, MAX_COLUMN, MAX_ROW};
use crate::MinitelMessage;

verus! {

/// The sixteen colours of a character grid, and the colour that a style leaves unset.
#[derive(Debug, Clone, Copy, PartialEq, Eq, Structural)]
pub enum Color {
    Reset,
    Black,
    Red,
    Green,
    Yellow,
    Blue,
    Magenta,
    Cyan,
    Gray,
    DarkGray,
    LightRed,
    LightGreen,
    LightYellow,
    LightBlue,
    LightMagenta,
    LightCyan,
    White,
}

impl Color {
    /// The background code of the colour: bright colours fall on their
    /// base colour, the two grays on the colours of their luminance, and an
    /// unset colour on black.
    pub open spec fn spec_background(self) -> C1 {
        match self {
            Color::Black => C1::BgBlack,
            Color::Red => C1::BgRed,
            Color::Green => C1::BgGreen,
            Color::Yellow => C1::BgYellow,
            Color::Blue => C1::BgBlue,
            Color::Magenta => C1::BgMagenta,
            Color::Cyan => C1::BgCyan,
            Color::Gray => GrayScale::Gray50.bg(),
            Color::DarkGray => GrayScale::Gray40.bg(),
            Color::LightRed => C1::BgRed,
            Color::LightGreen => C1::BgGreen,
            Color::LightYellow => C1::BgYellow,
            Color::LightBlue => C1::BgBlue,
            Color::LightMagenta => C1::BgMagenta,
            Color::LightCyan => C1::BgCyan,
            Color::White => C1::BgWhite,
            Color::Reset => C1::BgBlack,
        }
    }

    /// The foreground code of the colour: bright colours fall on their
    /// base colour, the two grays on the colours of their luminance, and an
    /// unset colour on white.
    pub open spec fn spec_foreground(self) -> C1 {
        match self {
            Color::Black => C1::CharBlack,
            Color::Red => C1::CharRed,
            Color::Green => C1::CharGreen,
            Color::Yellow => C1::CharYellow,
            Color::Blue => C1::CharBlue,
            Color::Magenta => C1::CharMagenta,
            Color::Cyan => C1::CharCyan,
            Color::Gray => GrayScale::Gray50.char(),
            Color::DarkGray => GrayScale::Gray40.char(),
            Color::LightRed => C1::CharRed,
            Color::LightGreen => C1::CharGreen,
            Color::LightYellow => C1::CharYellow,
            Color::LightBlue => C1::CharBlue,
            Color::LightMagenta => C1::CharMagenta,
            Color::LightCyan => C1::CharCyan,
            Color::White => C1::CharWhite,
            Color::Reset => C1::CharWhite,
        }
    }

    /// The background code of the colour.
    #[verifier::when_used_as_spec(spec_background)]
    pub fn background(self) -> (c: C1)
        ensures
            c == self.spec_background(),
    {
        match self {
            Color::Black => C1::BgBlack,
            Color::Red => C1::BgRed,
            Color::Green => C1::BgGreen,
            Color::Yellow => C1::BgYellow,
            Color::Blue => C1::BgBlue,
            Color::Magenta => C1::BgMagenta,
            Color::Cyan => C1::BgCyan,
            Color::Gray => GrayScale::Gray50.bg(),
            Color::DarkGray => GrayScale::Gray40.bg(),
            Color::LightRed => C1::BgRed,
            Color::LightGreen => C1::BgGreen,
            Color::LightYellow => C1::BgYellow,
            Color::LightBlue => C1::BgBlue,
            Color::LightMagenta => C1::BgMagenta,
            Color::LightCyan => C1::BgCyan,
            Color::White => C1::BgWhite,
            Color::Reset => C1::BgBlack,
        }
    }

    /// The foreground code of the colour.
    #[verifier::when_used_as_spec(spec_foreground)]
    pub fn foreground(self) -> (c: C1)
        ensures
            c == self.spec_foreground(),
    {
        match self {
            Color::Black => C1::CharBlack,
            Color::Red => C1::CharRed,
            Color::Green => C1::CharGreen,
            Color::Yellow => C1::CharYellow,
            Color::Blue => C1::CharBlue,
            Color::Magenta => C1::CharMagenta,
            Color::Cyan => C1::CharCyan,
            Color::Gray => GrayScale::Gray50.char(),
            Color::DarkGray => GrayScale::Gray40.char(),
            Color::LightRed => C1::CharRed,
            Color::LightGreen => C1::CharGreen,
            Color::LightYellow => C1::CharYellow,
            Color::LightBlue => C1::CharBlue,
            Color::LightMagenta => C1::CharMagenta,
            Color::LightCyan => C1::CharCyan,
            Color::White => C1::CharWhite,
            Color::Reset => C1::CharWhite,
        }
    }
}

/// The modifiers of a cell that the terminal can show.
#[derive(Debug, Clone, Copy, PartialEq, Eq, Structural)]
pub struct Modifier {
    pub underlined: bool,
    pub reversed: bool,
    pub blink: bool,
    /// Asks for a mosaic where the symbol has one.
    pub crossed_out: bool,
}

/// One cell of the grid: a symbol and its style.
#[derive(Debug, Clone, Copy, PartialEq, Eq, Structural)]
pub struct Cell {
    pub symbol: char,
    pub fg: Color,
    pub bg: Color,
    pub modifier: Modifier,
}

/// The glyph set that a cell is drawn in, with its glyph.
#[derive(Debug, Clone, Copy, PartialEq, Eq, Structural)]
pub enum CharKind {
    /// The symbol has no glyph.
    Unmapped,
    /// A character of the alphabetic mode.
    Alphabet(SIChar),
    /// A mosaic.
    SemiGraphic(G1),
}

impl CharKind {
    /// The code that selects the glyph set.
    pub open spec fn spec_escape_code(&self) -> C0 {
        match self {
            CharKind::Unmapped => C0::NUL,
            CharKind::Alphabet(_) => C0::SI,
            CharKind::SemiGraphic(_) => C0::SO,
        }
    }

    /// The code that selects the glyph set.
    #[verifier::when_used_as_spec(spec_escape_code)]
    pub fn escape_code(&self) -> (c: C0)
        ensures
            c == self.spec_escape_code(),
    {
        match self {
            CharKind::Unmapped => C0::NUL,
            CharKind::Alphabet(_) => C0::SI,
            CharKind::SemiGraphic(_) => C0::SO,
        }
    }

    /// Whether two kinds name the same glyph set, whatever their glyphs.
    pub open spec fn spec_same_set(&self, other: &CharKind) -> bool {
        match (self, other) {
            (CharKind::Unmapped, CharKind::Unmapped) => true,
            (CharKind::Alphabet(_), CharKind::Alphabet(_)) => true,
            (CharKind::SemiGraphic(_), CharKind::SemiGraphic(_)) => true,
            _ => false,
        }
    }

    /// Whether two kinds name the same glyph set.
    #[verifier::when_used_as_spec(spec_same_set)]
    pub fn same_set(&self, other: &CharKind) -> (b: bool)
        ensures
            b == self.spec_same_set(other),
    {
        match (self, other) {
            (CharKind::Unmapped, CharKind::Unmapped) => true,
            (CharKind::Alphabet(_), CharKind::Alphabet(_)) => true,
            (CharKind::SemiGraphic(_), CharKind::SemiGraphic(_)) => true,
            _ => false,
        }
    }

    /// Whether the glyph has an encoding on the wire.
    pub open spec fn wf(self) -> bool {
        match self {
            CharKind::Unmapped => true,
            CharKind::Alphabet(c) => MinitelMessage::wf(c),
            CharKind::SemiGraphic(g) => MinitelMessage::wf(g),
        }
    }

    /// The kind that a symbol is drawn in. The alphabetic mode comes first
    /// and the mosaic second, or the other way round where a mosaic is preferred.
    pub open spec fn of_symbol(symbol: char, prefer_mosaic: bool) -> CharKind {
        let alphabet = SIChar::encoding(symbol);
        let mosaic = G1::approximation(symbol);
        if prefer_mosaic {
            match (mosaic, alphabet) {
                (Some(g), _) => CharKind::SemiGraphic(g),
                (None, Some(c)) => CharKind::Alphabet(c),
                (None, None) => CharKind::Unmapped,
            }
        } else {
            match (alphabet, mosaic) {
                (Some(c), _) => CharKind::Alphabet(c),
                (None, Some(g)) => CharKind::SemiGraphic(g),
                (None, None) => CharKind::Unmapped,
            }
        }
    }

    /// Chooses the kind that a symbol is drawn in.
    pub fn select(symbol: char, prefer_mosaic: bool) -> (k: CharKind)
        ensures
            k == Self::of_symbol(symbol, prefer_mosaic),
            k.wf(),
    {
        if prefer_mosaic {
            match G1::approximate_char(symbol) {
                Some(g) => CharKind::SemiGraphic(g),
                None => match SIChar::encode(symbol) {
                    Ok(c) => CharKind::Alphabet(c),
                    Err(_) => CharKind::Unmapped,
                },
            }
        } else {
            match SIChar::encode(symbol) {
                Ok(c) => CharKind::Alphabet(c),
                Err(_) => match G1::approximate_char(symbol) {
                    Some(g) => CharKind::SemiGraphic(g),
                    None => CharKind::Unmapped,
                },
            }
        }
    }
}

impl Cell {
    /// The attributes that hold for a zone of the row: background colour,
    /// underline and inversion, in that order.
    pub open spec fn spec_zone_attributes(&self) -> Seq<C1> {
        seq![
            self.bg.background(),
            if self.modifier.underlined { C1::BeginUnderline } else { C1::EndUnderline },
            if self.modifier.reversed { C1::InvertBg } else { C1::NormalBg },
        ]
    }

    /// The attributes that hold for single characters: foreground colour
    /// and blinking, in that order.
    pub open spec fn spec_char_attributes(&self) -> Seq<C1> {
        seq![self.fg.foreground(), if self.modifier.blink { C1::Blink } else { C1::Fixed }]
    }

    /// The kind that the cell is drawn in.
    pub open spec fn spec_char_kind(&self) -> CharKind {
        CharKind::of_symbol(self.symbol, self.modifier.crossed_out)
    }

    /// The zone attributes of the cell.
    pub fn zone_attributes(&self) -> (v: Vec<C1>)
        ensures
            v@ == self.spec_zone_attributes(),
    {
        vec![
            self.bg.background(),
            if self.modifier.underlined { C1::BeginUnderline } else { C1::EndUnderline },
            if self.modifier.reversed { C1::InvertBg } else { C1::NormalBg },
        ]
    }

    /// The character attributes of the cell.
    pub fn char_attributes(&self) -> (v: Vec<C1>)
        ensures
            v@ == self.spec_char_attributes(),
    {
        vec![self.fg.foreground(), if self.modifier.blink { C1::Blink } else { C1::Fixed }]
    }

    /// The kind that the cell is drawn in.
    #[verifier::when_used_as_spec(spec_char_kind)]
    pub fn char_kind(&self) -> (k: CharKind)
        ensures
            k == self.spec_char_kind(),
            k.wf(),
    {
        CharKind::select(self.symbol, self.modifier.crossed_out)
    }
}

/// The bytes of a list of attribute codes: each code after an `ESC`.
pub open spec fn codes_bytes(codes: Seq<C1>) -> Seq<u8>
    decreases codes.len(),
{
    if codes.len() == 0 {
        Seq::empty()
    } else {
        codes_bytes(codes.drop_last()) + codes.last().bytes()
    }
}

/// Appends the bytes of a list of attribute codes.
fn push_codes(out: &mut Vec<u8>, codes: &Vec<C1>)
    ensures
        final(out)@ == old(out)@ + codes_bytes(codes@),
{
    let mut i: usize = 0;
    while i < codes.len()
        invariant
            i <= codes.len(),
            out@ == old(out)@ + codes_bytes(codes@.take(i as int)),
        decreases codes.len() - i,
    {
        proof {
            let done = codes@.take(i + 1);
            assert(done.drop_last() == codes@.take(i as int));
        }
        out.push(C0::ESC.to_byte());
        out.push(codes[i].to_byte());
        i = i + 1;
    }
    proof {
        assert(codes@.take(codes@.len() as int) == codes@);
    }
}

/// Whether two lists hold the same codes in the same order.
fn same_codes(a: &Vec<C1>, b: &Vec<C1>) -> (same: bool)
    ensures
        same == (a@ == b@),
{
    if a.len() != b.len() {
        return false;
    }
    let mut i: usize = 0;
    while i < a.len()
        invariant
            i <= a.len(),
            a.len() == b.len(),
            forall|j: int| 0 <= j < i ==> a@[j] == b@[j],
        decreases a.len() - i,
    {
        if a[i] != b[i] {
            return false;
        }
        i = i + 1;
    }
    assert(a@ =~= b@);
    true
}

/// What the renderer knows of the terminal.
#[verifier::ext_equal]
pub struct RenderModel {
    /// Where the next glyph lands, as column and row; `None` while unknown.
    pub cursor: Option<(u16, u16)>,
    /// The glyph set selected last.
    pub kind: CharKind,
    /// The character attributes in force, empty while unknown.
    pub char_attributes: Seq<C1>,
    /// The zone attributes in force, empty while unknown.
    pub zone_attributes: Seq<C1>,
    /// How many copies of the last cell are held back.
    pub repeat: u8,
    /// The cell drawn last.
    pub last_cell: Option<Cell>,
}

impl RenderModel {
    /// The state in which nothing is known of the terminal.
    pub open spec fn unknown() -> RenderModel {
        RenderModel {
            cursor: None,
            kind: CharKind::Unmapped,
            char_attributes: Seq::empty(),
            zone_attributes: Seq::empty(),
            repeat: 0,
            last_cell: None,
        }
    }

    /// The cursor lies within reach of a position command, and the copies
    /// held back fit left of it.
    pub open spec fn wf(self) -> bool {
        &&& self.cursor matches Some((x, y)) ==> x <= MAX_COLUMN + 1 && y <= MAX_ROW
        &&& self.repeat > 0 ==> (self.cursor matches Some((x, y)) && self.repeat <= x)
    }

    /// Whether a cell continues the last one: it lies where the cursor is
    /// and looks the same.
    pub open spec fn repeats(self, x: u16, y: u16, cell: Cell) -> bool {
        self.cursor == Some((x, y)) && self.last_cell == Some(cell)
    }

    /// The bytes that release the copies held back: one repetition, or nothing.
    pub open spec fn pending(self) -> Seq<u8> {
        if self.repeat > 0 {
            Repeat(self.repeat).bytes()
        } else {
            Seq::empty()
        }
    }

    /// Whether drawing a kind at a position has to start afresh: the cursor
    /// is elsewhere, or another glyph set is selected.
    pub open spec fn stale(self, x: u16, y: u16, kind: CharKind) -> bool {
        self.cursor != Some((x, y)) || !self.kind.same_set(&kind)
    }

    /// The bytes that start afresh at a position: the position command and
    /// the code that selects the glyph set.
    pub open spec fn opening(x: u16, y: u16, kind: CharKind) -> Seq<u8> {
        SetPosition(x as u8, y as u8).bytes() + kind.escape_code().bytes()
    }

    /// The zone attributes to send before a cell of the given kind: those of
    /// the cell where a blank or a mosaic finds others in force.
    pub open spec fn zone_update(self, kind: CharKind, cell: Cell) -> Seq<C1> {
        let due = match kind {
            CharKind::Alphabet(c) => c == SIChar::G0(G0(0x20)),
            CharKind::SemiGraphic(_) => true,
            CharKind::Unmapped => false,
        };
        if due && self.zone_attributes != cell.spec_zone_attributes() {
            cell.spec_zone_attributes()
        } else {
            Seq::empty()
        }
    }

    /// The character attributes to send before a cell of the given kind:
    /// those of the cell where a visible character or a mosaic finds others
    /// in force.
    pub open spec fn char_update(self, kind: CharKind, cell: Cell) -> Seq<C1> {
        let due = match kind {
            CharKind::Alphabet(c) => c != SIChar::G0(G0(0x20)),
            CharKind::SemiGraphic(_) => true,
            CharKind::Unmapped => false,
        };
        if due && self.char_attributes != cell.spec_char_attributes() {
            cell.spec_char_attributes()
        } else {
            Seq::empty()
        }
    }

    /// The bytes of the glyph itself.
    pub open spec fn glyph(kind: CharKind) -> Seq<u8> {
        match kind {
            CharKind::Alphabet(c) => c.bytes(),
            CharKind::SemiGraphic(g) => g.bytes(),
            CharKind::Unmapped => Seq::empty(),
        }
    }

    /// The state once the copies held back are released.
    pub open spec fn released(self) -> RenderModel {
        RenderModel { repeat: 0, ..self }
    }

    /// The bytes that bring the cursor and the glyph set in place for a kind
    /// at a position: the position command and the code that selects the
    /// glyph set where the state is stale, and nothing where it is not.
    pub open spec fn opening_bytes(self, x: u16, y: u16, kind: CharKind) -> Seq<u8> {
        if self.stale(x, y, kind) {
            Self::opening(x, y, kind)
        } else {
            Seq::empty()
        }
    }

    /// The state once the cursor and the glyph set are in place: where the
    /// state was stale, the attributes in force are forgotten.
    pub open spec fn opened(self, x: u16, y: u16, kind: CharKind) -> RenderModel {
        if self.stale(x, y, kind) {
            RenderModel {
                cursor: Some((x, y)),
                kind,
                char_attributes: Seq::empty(),
                zone_attributes: Seq::empty(),
                ..self
            }
        } else {
            self
        }
    }

    /// The bytes that draw a cell of the given kind where the cursor is:
    /// the zone attributes and the character attributes that are due, then
    /// the glyph.
    pub open spec fn glyph_bytes(self, kind: CharKind, cell: Cell) -> Seq<u8> {
        codes_bytes(self.zone_update(kind, cell)) + codes_bytes(self.char_update(kind, cell))
            + Self::glyph(kind)
    }

    /// The state once a cell of the given kind is drawn: the attributes
    /// sent are in force.
    pub open spec fn drawn(self, kind: CharKind, cell: Cell) -> RenderModel {
        RenderModel {
            char_attributes: if self.char_update(kind, cell).len() > 0 {
                cell.spec_char_attributes()
            } else {
                self.char_attributes
            },
            zone_attributes: if self.zone_update(kind, cell).len() > 0 {
                cell.spec_zone_attributes()
            } else {
                self.zone_attributes
            },
            ..self
        }
    }

    /// The bytes that one cell at a column and a row adds to the stream:
    /// nothing where it continues the last cell; else the release of the
    /// copies held back, what brings cursor and glyph set in place, and
    /// what draws the cell.
    pub open spec fn cell_bytes(self, x: u16, y: u16, cell: Cell) -> Seq<u8> {
        if self.repeats(x, y, cell) {
            Seq::empty()
        } else {
            let kind = cell.char_kind();
            self.pending() + self.released().opening_bytes(x, y, kind) + self.released().opened(
                x,
                y,
                kind,
            ).glyph_bytes(kind, cell)
        }
    }

    /// The state after one cell at a column and a row: one more copy held
    /// back where it continues the last cell, and the cell drawn else. The
    /// cursor stands one column further.
    pub open spec fn after_cell(self, x: u16, y: u16, cell: Cell) -> RenderModel {
        if self.repeats(x, y, cell) {
            RenderModel { repeat: (self.repeat + 1) as u8, cursor: Some(((x + 1) as u16, y)), ..self }
        } else {
            let kind = cell.char_kind();
            RenderModel {
                cursor: Some(((x + 1) as u16, y)),
                last_cell: Some(cell),
                ..self.released().opened(x, y, kind).drawn(kind, cell)
            }
        }
    }

    /// The bytes that a sequence of cells adds to the stream, copies held
    /// back at the end not counted.
    pub open spec fn cells_bytes(self, cells: Seq<(u16, u16, Cell)>) -> Seq<u8>
        decreases cells.len(),
    {
        if cells.len() == 0 {
            Seq::empty()
        } else {
            let before = self.after_cells(cells.drop_last());
            let (x, y, cell) = cells.last();
            self.cells_bytes(cells.drop_last()) + before.cell_bytes(x, y, cell)
        }
    }

    /// The state after a sequence of cells.
    pub open spec fn after_cells(self, cells: Seq<(u16, u16, Cell)>) -> RenderModel
        decreases cells.len(),
    {
        if cells.len() == 0 {
            self
        } else {
            let (x, y, cell) = cells.last();
            self.after_cells(cells.drop_last()).after_cell(x, y, cell)
        }
    }

    /// The bytes of one pass over a sequence of cells: those of the cells,
    /// then the release of the copies held back.
    pub open spec fn pass_bytes(self, cells: Seq<(u16, u16, Cell)>) -> Seq<u8> {
        self.cells_bytes(cells) + self.after_cells(cells).pending()
    }

    /// The state after one pass over a sequence of cells.
    pub open spec fn after_pass(self, cells: Seq<(u16, u16, Cell)>) -> RenderModel {
        self.after_cells(cells).released()
    }
}

/// The mirror of the terminal that a renderer keeps between cells.
#[derive(Debug)]
pub struct RendererState {
    /// Where the next glyph lands, as column and row; `None` while unknown.
    pub cursor_position: Option<(u16, u16)>,
    /// The glyph set selected last.
    pub last_char_kind: CharKind,
    /// The character attributes in force, empty while unknown.
    pub char_attributes: Vec<C1>,
    /// The zone attributes in force, empty while unknown.
    pub zone_attributes: Vec<C1>,
    /// How many copies of the last cell are held back.
    pub repeat: u8,
    /// The cell drawn last.
    pub last_cell: Option<Cell>,
}

impl View for RendererState {
    type V = RenderModel;

    open spec fn view(&self) -> RenderModel {
        RenderModel {
            cursor: self.cursor_position,
            kind: self.last_char_kind,
            char_attributes: self.char_attributes@,
            zone_attributes: self.zone_attributes@,
            repeat: self.repeat,
            last_cell: self.last_cell,
        }
    }
}

impl RendererState {
    /// A mirror that knows nothing of the terminal.
    pub fn new() -> (state: RendererState)
        ensures
            state@ == RenderModel::unknown(),
    {
        RendererState {
            cursor_position: None,
            last_char_kind: CharKind::Unmapped,
            char_attributes: Vec::new(),
            zone_attributes: Vec::new(),
            repeat: 0,
            last_cell: None,
        }
    }

    /// Forgets what is known of the terminal, so that the next cell starts afresh.
    pub fn reset(&mut self)
        ensures
            final(self)@ == RenderModel::unknown(),
    {
        self.cursor_position = None;
        self.last_char_kind = CharKind::Unmapped;
        self.char_attributes = Vec::new();
        self.zone_attributes = Vec::new();
        self.repeat = 0;
        self.last_cell = None;
    }

    /// Tests whether the mirror is in order: the cursor lies within reach
    /// of a position command, and the copies held back fit left of it.
    pub fn is_wf(&self) -> (b: bool)
        ensures
            b == self@.wf(),
    {
        match self.cursor_position {
            Some((x, y)) => x <= MAX_COLUMN as u16 + 1 && y <= MAX_ROW as u16 && self.repeat as u16 <= x,
            None => self.repeat == 0,
        }
    }

    /// Releases the copies held back as one repetition.
    pub fn flush_repeat(&mut self, out: &mut Vec<u8>)
        requires
            old(self)@.wf(),
        ensures
            final(out)@ == old(out)@ + old(self)@.pending(),
            final(self)@ == old(self)@.released(),
            final(self)@.wf(),
    {
        if self.repeat > 0 {
            let mut bytes = Repeat(self.repeat).message();
            out.append(&mut bytes);
            self.repeat = 0;
        }
    }

    /// Draws one cell at a column and a row: appends the bytes that the
    /// terminal still needs for it, and keeps the mirror in step.
    pub fn render_cell(&mut self, x: u16, y: u16, cell: &Cell, out: &mut Vec<u8>)
        requires
            old(self)@.wf(),
            x <= MAX_COLUMN,
            y <= MAX_ROW,
        ensures
            final(out)@ == old(out)@ + old(self)@.cell_bytes(x, y, *cell),
            final(self)@ == old(self)@.after_cell(x, y, *cell),
            final(self)@.wf(),
    {
        if self.continues(x, y, cell) {
            self.repeat = self.repeat + 1;
            self.cursor_position = Some((x + 1, y));
            return ;
        }
        let kind = cell.char_kind();
        self.flush_repeat(out);
        self.open(x, y, kind, out);
        self.draw_glyph(kind, cell, out);
        self.cursor_position = Some((x + 1, y));
        self.last_cell = Some(*cell);
    }

    /// Whether a cell continues the last one.
    fn continues(&self, x: u16, y: u16, cell: &Cell) -> (b: bool)
        ensures
            b == self@.repeats(x, y, *cell),
    {
        let at_cursor = match self.cursor_position {
            Some((cx, cy)) => cx == x && cy == y,
            None => false,
        };
        let same_cell = match self.last_cell {
            Some(last) => last == *cell,
            None => false,
        };
        at_cursor && same_cell
    }

    /// Brings the cursor and the glyph set in place for a kind at a position.
    fn open(&mut self, x: u16, y: u16, kind: CharKind, out: &mut Vec<u8>)
        requires
            x <= MAX_COLUMN,
            y <= MAX_ROW,
        ensures
            final(out)@ == old(out)@ + old(self)@.opening_bytes(x, y, kind),
            final(self)@ == old(self)@.opened(x, y, kind),
    {
        let at_cursor = match self.cursor_position {
            Some((cx, cy)) => cx == x && cy == y,
            None => false,
        };
        if !at_cursor || !self.last_char_kind.same_set(&kind) {
            self.cursor_position = Some((x, y));
            self.last_char_kind = kind;
            self.char_attributes = Vec::new();
            self.zone_attributes = Vec::new();
            let mut position = SetPosition(x as u8, y as u8).message();
            out.append(&mut position);
            out.push(kind.escape_code().to_byte());
        }
    }

    /// Draws a cell of the given kind where the cursor is.
    fn draw_glyph(&mut self, kind: CharKind, cell: &Cell, out: &mut Vec<u8>)
        requires
            kind.wf(),
        ensures
            final(out)@ == old(out)@ + old(self)@.glyph_bytes(kind, *cell),
            final(self)@ == old(self)@.drawn(kind, *cell),
    {
        match kind {
            CharKind::Alphabet(c) => {
                if c == SIChar::G0(G0(0x20)) {
                    self.update_zone(cell, out);
                } else {
                    self.update_char(cell, out);
                }
                let mut glyph = c.message();
                out.append(&mut glyph);
            },
            CharKind::SemiGraphic(g) => {
                self.update_zone(cell, out);
                self.update_char(cell, out);
                out.push(g.0);
            },
            CharKind::Unmapped => {},
        }
    }

    /// Sends the zone attributes of a cell unless they are in force.
    fn update_zone(&mut self, cell: &Cell, out: &mut Vec<u8>)
        ensures
            final(out)@ == old(out)@ + codes_bytes(
                if old(self)@.zone_attributes != cell.spec_zone_attributes() {
                    cell.spec_zone_attributes()
                } else {
                    Seq::empty()
                },
            ),
            final(self)@ == (RenderModel { zone_attributes: cell.spec_zone_attributes(), ..old(self)@ }),
    {
        let zone_attributes = cell.zone_attributes();
        if !same_codes(&self.zone_attributes, &zone_attributes) {
            push_codes(out, &zone_attributes);
            self.zone_attributes = zone_attributes;
        } else {
        }
    }

    /// Sends the character attributes of a cell unless they are in force.
    fn update_char(&mut self, cell: &Cell, out: &mut Vec<u8>)
        ensures
            final(out)@ == old(out)@ + codes_bytes(
                if old(self)@.char_attributes != cell.spec_char_attributes() {
                    cell.spec_char_attributes()
                } else {
                    Seq::empty()
                },
            ),
            final(self)@ == (RenderModel { char_attributes: cell.spec_char_attributes(), ..old(self)@ }),
    {
        let char_attributes = cell.char_attributes();
        if !same_codes(&self.char_attributes, &char_attributes) {
            push_codes(out, &char_attributes);
            self.char_attributes = char_attributes;
        } else {
        }
    }

    /// Draws one pass over a sequence of cells, each with its column and
    /// row, and returns the bytes that bring the terminal up to date.
    pub fn render(&mut self, cells: &[(u16, u16, Cell)]) -> (out: Vec<u8>)
        requires
            old(self)@.wf(),
            in_reach(cells@),
        ensures
            out@ == old(self)@.pass_bytes(cells@),
            final(self)@ == old(self)@.after_pass(cells@),
            final(self)@.wf(),
            final(self)@.repeat == 0,
    {
        let mut out: Vec<u8> = Vec::new();
        let mut i: usize = 0;
        while i < cells.len()
            invariant
                i <= cells.len(),
                in_reach(cells@),
                self@.wf(),
                self@ == old(self)@.after_cells(cells@.take(i as int)),
                out@ == old(self)@.cells_bytes(cells@.take(i as int)),
            decreases cells.len() - i,
        {
            proof {
                let done = cells@.take(i + 1);
                assert(done.drop_last() == cells@.take(i as int));
            }
            let (x, y, cell) = cells[i];
            self.render_cell(x, y, &cell, &mut out);
            i = i + 1;
        }
        proof {
            assert(cells@.take(cells@.len() as int) == cells@);
        }
        self.flush_repeat(&mut out);
        out
    }
}

/// After a cell the cursor stands one column to its right, and the cell is
/// the one drawn last, whether it was sent or held back.
pub proof fn lemma_cursor_follows_cell(state: RenderModel, x: u16, y: u16, cell: Cell)
    requires
        x <= MAX_COLUMN,
    ensures
        state.after_cell(x, y, cell).cursor == Some(((x + 1) as u16, y)),
        state.after_cell(x, y, cell).last_cell == Some(cell),
{
}

/// After a pass over cells the cursor stands one column to the right of the
/// last of them, and no copies are held back.
pub proof fn lemma_cursor_follows_pass(state: RenderModel, cells: Seq<(u16, u16, Cell)>)
    requires
        cells.len() > 0,
        in_reach(cells),
    ensures
        state.after_pass(cells).cursor == Some(((cells.last().0 + 1) as u16, cells.last().1)),
        state.after_pass(cells).last_cell == Some(cells.last().2),
        state.after_pass(cells).repeat == 0,
{
    let before = state.after_cells(cells.drop_last());
    lemma_cursor_follows_cell(before, cells.last().0, cells.last().1, cells.last().2);
}

/// A cell that looks like the cell before it and lies one column to its
/// right is not drawn a second time: it adds no bytes, it is held back as
/// one more copy, and the pass ends with a single repetition that counts it.
pub proof fn lemma_duplicate_is_repeated(state: RenderModel, x: u16, y: u16, cell: Cell)
    requires
        state.wf(),
        x < MAX_COLUMN,
        y <= MAX_ROW,
    ensures
        ({
            let first = state.after_cell(x, y, cell);
            let second = first.after_cell((x + 1) as u16, y, cell);
            let both = seq![(x, y, cell), ((x + 1) as u16, y, cell)];
            &&& first.cell_bytes((x + 1) as u16, y, cell) == Seq::<u8>::empty()
            &&& second.repeat == first.repeat + 1
            &&& second.pending() == Repeat(second.repeat).bytes()
            &&& state.pass_bytes(both) == state.cell_bytes(x, y, cell) + Repeat(
                (first.repeat + 1) as u8,
            ).bytes()
        }),
{
    let first = state.after_cell(x, y, cell);
    let next = (x + 1) as u16;
    let both = seq![(x, y, cell), (next, y, cell)];
    lemma_cursor_follows_cell(state, x, y, cell);
    assert(first.repeat <= x + 1);
    let one = both.drop_last();
    assert(state.cells_bytes(one.drop_last()) =~= Seq::<u8>::empty());
    assert(state.cells_bytes(one) =~= state.cell_bytes(x, y, cell));
}

/// A cell that does not lie where the cursor is starts with a position
/// command, whatever glyph set and attributes are in force: after the
/// release of the copies held back come `US`, the row and the column, then
/// the code that selects the glyph set.
pub proof fn lemma_jump_sets_position(state: RenderModel, x: u16, y: u16, cell: Cell)
    requires
        state.cursor != Some((x, y)),
        x <= MAX_COLUMN,
        y <= MAX_ROW,
    ensures
        ({
            let kind = cell.char_kind();
            let bytes = state.cell_bytes(x, y, cell);
            let skip = state.pending().len() as int;
            &&& bytes == state.pending() + SetPosition(x as u8, y as u8).bytes()
                + kind.escape_code().bytes() + state.released().opened(x, y, kind).glyph_bytes(
                kind,
                cell,
            )
            &&& bytes.len() >= skip + 4
            &&& bytes[skip] == 0x1F
            &&& bytes[skip + 1] == 0x40 + y
            &&& bytes[skip + 2] == 0x41 + x
            &&& bytes[skip + 3] == kind.escape_code().byte()
        }),
{
    let kind = cell.char_kind();
    let bytes = state.cell_bytes(x, y, cell);
    assert(bytes =~= state.pending() + SetPosition(x as u8, y as u8).bytes()
        + kind.escape_code().bytes() + state.released().opened(x, y, kind).glyph_bytes(kind, cell));
}

/// Tests whether a column and a row lie within reach of a position command.
pub fn position_in_reach(x: u16, y: u16) -> (b: bool)
    ensures
        b == (x <= MAX_COLUMN && y <= MAX_ROW),
{
    x <= MAX_COLUMN as u16 && y <= MAX_ROW as u16
}

/// Whether every cell of a sequence lies within reach of a position command.
pub open spec fn in_reach(cells: Seq<(u16, u16, Cell)>) -> bool {
    forall|i: int| 0 <= i < cells.len() ==> (#[trigger] cells[i]).0 <= MAX_COLUMN && cells[i].1 <= MAX_ROW
}

} // verus!
