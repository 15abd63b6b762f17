use minitel::backend::MinitelBackend;
use minitel::error::Error;
use minitel::glyph::{SIChar, G0, G1};
use minitel::render::{Cell, CharKind, Color, Modifier, RendererState};
use minitel::session::{Minitel, MinitelRead, MinitelWrite};
use minitel::videotex::{C0, C1};

/// A channel that answers with a script, and keeps what it is sent.
struct Wire {
    answer: Vec<u8>,
    at: usize,
    sent: Vec<u8>,
    broken: bool,
}

impl Wire {
    fn new(answer: Vec<u8>) -> Wire {
        Wire {
            answer,
            at: 0,
            sent: Vec::new(),
            broken: false,
        }
    }
}

impl MinitelRead for Wire {
    fn read(&mut self, data: &mut [u8]) -> Result<(), std::io::Error> {
        if self.answer.len() - self.at < data.len() {
            return Err(std::io::ErrorKind::UnexpectedEof.into());
        }
        for byte in data.iter_mut() {
            *byte = self.answer[self.at];
            self.at += 1;
        }
        Ok(())
    }
}

impl MinitelWrite for Wire {
    fn send(&mut self, data: &[u8]) -> Result<(), std::io::Error> {
        if self.broken {
            return Err(std::io::ErrorKind::BrokenPipe.into());
        }
        self.sent.extend_from_slice(data);
        Ok(())
    }

    fn flush(&mut self) -> Result<(), std::io::Error> {
        Ok(())
    }
}

const PLAIN: Modifier = Modifier {
    underlined: false,
    reversed: false,
    blink: false,
    crossed_out: false,
};

fn cell(symbol: char, fg: Color, bg: Color) -> Cell {
    Cell {
        symbol,
        fg,
        bg,
        modifier: PLAIN,
    }
}

fn backend() -> MinitelBackend<Wire> {
    MinitelBackend::new(Minitel::new(Wire::new(Vec::new())))
}

fn sent(backend: &mut MinitelBackend<Wire>) -> Vec<u8> {
    std::mem::take(&mut backend.minitel.port.sent)
}

#[test]
fn first_cell_sets_position_set_and_attributes() {
    let mut b = backend();
    b.draw(&[(0, 0, cell('A', Color::Yellow, Color::Black))])
        .unwrap();
    assert_eq!(
        sent(&mut b),
        vec![0x1F, 0x40, 0x41, 0x0F, 0x1B, 0x43, 0x1B, 0x49, 0x41]
    );
}

#[test]
fn next_cell_with_the_same_attributes_is_only_its_glyph() {
    let mut b = backend();
    b.set_cursor_position(0, 0).unwrap();
    assert_eq!(sent(&mut b), vec![0x1F, 0x40, 0x41]);
    b.draw(&[(0, 0, cell('A', Color::Yellow, Color::Black))])
        .unwrap();
    sent(&mut b);
    b.draw(&[(1, 0, cell('B', Color::Yellow, Color::Black))])
        .unwrap();
    assert_eq!(sent(&mut b), vec![0x42]);
}

#[test]
fn next_cell_in_the_same_pass_is_only_its_glyph() {
    let mut b = backend();
    b.draw(&[
        (0, 0, cell('A', Color::Yellow, Color::Black)),
        (1, 0, cell('B', Color::Yellow, Color::Black)),
    ])
    .unwrap();
    assert_eq!(
        sent(&mut b),
        vec![0x1F, 0x40, 0x41, 0x0F, 0x1B, 0x43, 0x1B, 0x49, 0x41, 0x42]
    );
}

#[test]
fn duplicate_cell_is_sent_as_one_repetition() {
    let a = cell('A', Color::Yellow, Color::Black);
    let mut b = backend();
    b.draw(&[(0, 0, a), (1, 0, a)]).unwrap();
    assert_eq!(
        sent(&mut b),
        vec![0x1F, 0x40, 0x41, 0x0F, 0x1B, 0x43, 0x1B, 0x49, 0x41, 0x12, 0x41]
    );
}

#[test]
fn run_of_duplicates_is_counted() {
    let a = cell('-', Color::White, Color::Black);
    let mut b = backend();
    let row: Vec<(u16, u16, Cell)> = (0..40).map(|x| (x, 3, a)).collect();
    b.draw(&row).unwrap();
    assert_eq!(
        sent(&mut b),
        vec![0x1F, 0x43, 0x41, 0x0F, 0x1B, 0x47, 0x1B, 0x49, 0x2D, 0x12, 0x40 + 39]
    );
}

#[test]
fn duplicates_are_released_before_the_next_cell() {
    let a = cell('A', Color::White, Color::Black);
    let c = cell('C', Color::White, Color::Black);
    let mut b = backend();
    b.draw(&[(0, 0, a), (1, 0, a), (2, 0, a), (3, 0, c)]).unwrap();
    assert_eq!(
        sent(&mut b),
        vec![0x1F, 0x40, 0x41, 0x0F, 0x1B, 0x47, 0x1B, 0x49, 0x41, 0x12, 0x42, 0x43]
    );
}

#[test]
fn duplicate_across_passes_is_a_repetition() {
    let a = cell('A', Color::White, Color::Black);
    let mut b = backend();
    b.draw(&[(0, 0, a)]).unwrap();
    sent(&mut b);
    b.draw(&[(1, 0, a)]).unwrap();
    assert_eq!(sent(&mut b), vec![0x12, 0x41]);
}

#[test]
fn equal_cell_elsewhere_is_drawn_again() {
    let a = cell('A', Color::White, Color::Black);
    let mut b = backend();
    b.draw(&[(0, 0, a), (0, 1, a)]).unwrap();
    assert_eq!(
        sent(&mut b),
        vec![
            0x1F, 0x40, 0x41, 0x0F, 0x1B, 0x47, 0x1B, 0x49, 0x41, 0x1F, 0x41, 0x41, 0x0F, 0x1B,
            0x47, 0x1B, 0x49, 0x41
        ]
    );
}

#[test]
fn jump_sets_the_position_again() {
    let mut b = backend();
    b.draw(&[
        (0, 0, cell('A', Color::White, Color::Black)),
        (5, 0, cell('B', Color::White, Color::Black)),
    ])
    .unwrap();
    assert_eq!(
        sent(&mut b),
        vec![
            0x1F, 0x40, 0x41, 0x0F, 0x1B, 0x47, 0x1B, 0x49, 0x41, 0x1F, 0x40, 0x46, 0x0F, 0x1B,
            0x47, 0x1B, 0x49, 0x42
        ]
    );
}

#[test]
fn blank_sends_the_zone_attributes_only() {
    let mut b = backend();
    b.draw(&[(2, 1, cell(' ', Color::Red, Color::Blue))]).unwrap();
    assert_eq!(
        sent(&mut b),
        vec![0x1F, 0x41, 0x43, 0x0F, 0x1B, 0x54, 0x1B, 0x59, 0x1B, 0x5C, 0x20]
    );
    b.draw(&[(3, 1, cell('x', Color::Red, Color::Blue))]).unwrap();
    assert_eq!(sent(&mut b), vec![0x1B, 0x41, 0x1B, 0x49, 0x78]);
}

#[test]
fn modifiers_choose_the_attributes() {
    let styled = Cell {
        symbol: ' ',
        fg: Color::White,
        bg: Color::Green,
        modifier: Modifier {
            underlined: true,
            reversed: true,
            blink: true,
            crossed_out: false,
        },
    };
    assert_eq!(
        styled.zone_attributes(),
        vec![C1::BgGreen, C1::BeginUnderline, C1::InvertBg]
    );
    assert_eq!(styled.char_attributes(), vec![C1::CharWhite, C1::Blink]);
    let plain = cell('a', Color::Cyan, Color::Magenta);
    assert_eq!(
        plain.zone_attributes(),
        vec![C1::BgMagenta, C1::EndUnderline, C1::NormalBg]
    );
    assert_eq!(plain.char_attributes(), vec![C1::CharCyan, C1::Fixed]);
}

#[test]
fn colours_fall_on_the_eight_of_the_terminal() {
    let table = [
        (Color::Reset, C1::CharWhite, C1::BgBlack),
        (Color::Black, C1::CharBlack, C1::BgBlack),
        (Color::Red, C1::CharRed, C1::BgRed),
        (Color::Green, C1::CharGreen, C1::BgGreen),
        (Color::Yellow, C1::CharYellow, C1::BgYellow),
        (Color::Blue, C1::CharBlue, C1::BgBlue),
        (Color::Magenta, C1::CharMagenta, C1::BgMagenta),
        (Color::Cyan, C1::CharCyan, C1::BgCyan),
        (Color::Gray, C1::CharRed, C1::BgRed),
        (Color::DarkGray, C1::CharBlue, C1::BgBlue),
        (Color::LightRed, C1::CharRed, C1::BgRed),
        (Color::LightGreen, C1::CharGreen, C1::BgGreen),
        (Color::LightYellow, C1::CharYellow, C1::BgYellow),
        (Color::LightBlue, C1::CharBlue, C1::BgBlue),
        (Color::LightMagenta, C1::CharMagenta, C1::BgMagenta),
        (Color::LightCyan, C1::CharCyan, C1::BgCyan),
        (Color::White, C1::CharWhite, C1::BgWhite),
    ];
    for (color, fg, bg) in table {
        assert_eq!(color.foreground(), fg);
        assert_eq!(color.background(), bg);
    }
}

#[test]
fn kind_prefers_the_alphabet_unless_crossed_out() {
    assert_eq!(
        CharKind::select('A', false),
        CharKind::Alphabet(SIChar::G0(G0(0x41)))
    );
    assert_eq!(
        CharKind::select('A', true),
        CharKind::Alphabet(SIChar::G0(G0(0x41)))
    );
    assert_eq!(
        CharKind::select(' ', false),
        CharKind::Alphabet(SIChar::G0(G0(0x20)))
    );
    assert_eq!(CharKind::select(' ', true), CharKind::SemiGraphic(G1(0x20)));
    assert_eq!(
        CharKind::select('▏', false),
        CharKind::Alphabet(SIChar::G0(G0(0x7B)))
    );
    assert_eq!(CharKind::select('▏', true), CharKind::SemiGraphic(G1(0x20)));
    assert_eq!(CharKind::select('█', false), CharKind::SemiGraphic(G1(0x7F)));
    assert_eq!(CharKind::select('█', true), CharKind::SemiGraphic(G1(0x7F)));
    assert_eq!(CharKind::select('中', false), CharKind::Unmapped);
    assert_eq!(CharKind::select('中', true), CharKind::Unmapped);
}

#[test]
fn kind_selects_its_glyph_set() {
    assert_eq!(CharKind::Unmapped.escape_code(), C0::NUL);
    assert_eq!(
        CharKind::Alphabet(SIChar::G0(G0(0x41))).escape_code(),
        C0::SI
    );
    assert_eq!(CharKind::SemiGraphic(G1(0x7F)).escape_code(), C0::SO);
    assert!(CharKind::Unmapped.same_set(&CharKind::Unmapped));
    assert!(CharKind::SemiGraphic(G1(0x7F)).same_set(&CharKind::SemiGraphic(G1(0x20))));
    assert!(!CharKind::SemiGraphic(G1(0x7F)).same_set(&CharKind::Unmapped));
}

#[test]
fn mosaic_sends_zone_and_character_attributes() {
    let mut b = backend();
    b.draw(&[(0, 0, cell('█', Color::Green, Color::Black))])
        .unwrap();
    assert_eq!(
        sent(&mut b),
        vec![
            0x1F, 0x40, 0x41, 0x0E, 0x1B, 0x50, 0x1B, 0x59, 0x1B, 0x5C, 0x1B, 0x42, 0x1B, 0x49,
            0x7F
        ]
    );
}

#[test]
fn change_of_glyph_set_starts_afresh() {
    let mut b = backend();
    b.draw(&[
        (0, 0, cell('A', Color::White, Color::Black)),
        (1, 0, cell('▀', Color::White, Color::Black)),
    ])
    .unwrap();
    assert_eq!(
        sent(&mut b),
        vec![
            0x1F, 0x40, 0x41, 0x0F, 0x1B, 0x47, 0x1B, 0x49, 0x41, 0x1F, 0x40, 0x42, 0x0E, 0x1B,
            0x50, 0x1B, 0x59, 0x1B, 0x5C, 0x1B, 0x47, 0x1B, 0x49, 0x23
        ]
    );
}

#[test]
fn symbol_without_glyph_draws_nothing() {
    let mut b = backend();
    b.draw(&[(0, 0, cell('中', Color::White, Color::Black))])
        .unwrap();
    assert_eq!(sent(&mut b), vec![0x1F, 0x40, 0x41, 0x00]);
    b.draw(&[(1, 0, cell('文', Color::White, Color::Black))])
        .unwrap();
    assert_eq!(sent(&mut b), Vec::<u8>::new());
}

#[test]
fn accented_cell_sends_accent_and_base() {
    let mut b = backend();
    b.draw(&[(0, 0, cell('é', Color::White, Color::Black))])
        .unwrap();
    assert_eq!(
        sent(&mut b),
        vec![0x1F, 0x40, 0x41, 0x0F, 0x1B, 0x47, 0x1B, 0x49, 0x19, 0x42, 0x65]
    );
}

#[test]
fn clear_forgets_the_mirror() {
    let a = cell('A', Color::White, Color::Black);
    let mut b = backend();
    b.draw(&[(0, 0, a)]).unwrap();
    sent(&mut b);
    b.clear().unwrap();
    assert_eq!(sent(&mut b), vec![0x0C]);
    b.draw(&[(1, 0, a)]).unwrap();
    assert_eq!(
        sent(&mut b),
        vec![0x1F, 0x40, 0x42, 0x0F, 0x1B, 0x47, 0x1B, 0x49, 0x41]
    );
}

#[test]
fn failure_forgets_the_mirror() {
    let a = cell('A', Color::White, Color::Black);
    let mut b = backend();
    b.draw(&[(0, 0, a)]).unwrap();
    sent(&mut b);
    b.minitel.port.broken = true;
    assert!(matches!(b.draw(&[(1, 0, a)]), Err(Error::Io(_))));
    b.minitel.port.broken = false;
    b.draw(&[(2, 0, a)]).unwrap();
    assert_eq!(
        sent(&mut b),
        vec![0x1F, 0x40, 0x43, 0x0F, 0x1B, 0x47, 0x1B, 0x49, 0x41]
    );
}

#[test]
fn cursor_commands_pass_through() {
    let mut b = backend();
    b.hide_cursor().unwrap();
    b.show_cursor().unwrap();
    b.set_cursor_position(39, 24).unwrap();
    b.flush().unwrap();
    assert_eq!(sent(&mut b), vec![0x14, 0x11, 0x1F, 0x58, 0x68]);
    assert_eq!(b.size(), (40, 25));
}

#[test]
fn cursor_position_is_asked_of_the_terminal() {
    let mut b = MinitelBackend::new(Minitel::new(Wire::new(vec![0x1F, 0x42, 0x45])));
    assert_eq!(b.get_cursor_position().unwrap(), (4, 1));
    assert_eq!(sent(&mut b), vec![0x1B, 0x61]);
    assert!(matches!(b.get_cursor_position(), Err(Error::Io(_))));
}

#[test]
fn renderer_state_renders_cell_by_cell() {
    let a = cell('A', Color::Yellow, Color::Black);
    let mut state = RendererState::new();
    let mut out = Vec::new();
    state.render_cell(0, 0, &a, &mut out);
    assert_eq!(out, vec![0x1F, 0x40, 0x41, 0x0F, 0x1B, 0x43, 0x1B, 0x49, 0x41]);
    assert_eq!(state.cursor_position, Some((1, 0)));
    assert_eq!(state.last_cell, Some(a));
    assert_eq!(state.repeat, 0);
    out.clear();
    state.render_cell(1, 0, &a, &mut out);
    assert!(out.is_empty());
    assert_eq!(state.repeat, 1);
    assert_eq!(state.cursor_position, Some((2, 0)));
    state.flush_repeat(&mut out);
    assert_eq!(out, vec![0x12, 0x41]);
    assert_eq!(state.repeat, 0);
    state.reset();
    assert_eq!(state.cursor_position, None);
    assert_eq!(state.last_cell, None);
    assert!(state.char_attributes.is_empty());
    let bytes = state.render(&[(7, 7, a)]);
    assert_eq!(bytes, vec![0x1F, 0x47, 0x48, 0x0F, 0x1B, 0x43, 0x1B, 0x49, 0x41]);
}
