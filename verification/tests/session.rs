use minitel::error::Error;
use minitel::glyph::{SIChar, G0, G2};
use minitel::protocol::{FunctionMode, Pro1, Pro2, Pro2Resp, Pro3, Pro3Resp, Rom, RoutingRx, RoutingTx};
use minitel::reply::Frame;
use minitel::reply::position_from_answer;
use minitel::session::{Minitel, MinitelRead, MinitelWrite};
use minitel::videotex::{FunctionKey, Repeat, SetPosition, UserInput, C0, C1};
use minitel::MinitelMessage;
use std::io::{Cursor, Read, Write};

/// A channel over a buffer in memory, as `std::io::Cursor` reads and writes it.
struct Port(Cursor<Vec<u8>>);

impl Port {
    fn new(bytes: Vec<u8>) -> Port {
        Port(Cursor::new(bytes))
    }

    fn into_inner(self) -> Vec<u8> {
        self.0.into_inner()
    }
}

impl MinitelRead for Port {
    fn read(&mut self, data: &mut [u8]) -> Result<(), std::io::Error> {
        self.0.read_exact(data)
    }
}

impl MinitelWrite for Port {
    fn send(&mut self, data: &[u8]) -> Result<(), std::io::Error> {
        self.0.write_all(data)
    }

    fn flush(&mut self) -> Result<(), std::io::Error> {
        self.0.flush()
    }
}

/// A channel that answers with a script, and keeps what it is sent.
struct Wire {
    answer: Vec<u8>,
    at: usize,
    sent: Vec<u8>,
    broken: bool,
}

impl Wire {
    fn new(answer: Vec<u8>) -> Wire {
        Wire {
            answer,
            at: 0,
            sent: Vec::new(),
            broken: false,
        }
    }

    fn broken() -> Wire {
        Wire {
            answer: Vec::new(),
            at: 0,
            sent: Vec::new(),
            broken: true,
        }
    }

    fn left(&self) -> usize {
        self.answer.len() - self.at
    }
}

impl MinitelRead for Wire {
    fn read(&mut self, data: &mut [u8]) -> Result<(), std::io::Error> {
        if self.left() < data.len() {
            return Err(std::io::ErrorKind::UnexpectedEof.into());
        }
        for byte in data.iter_mut() {
            *byte = self.answer[self.at];
            self.at += 1;
        }
        Ok(())
    }
}

impl MinitelWrite for Wire {
    fn send(&mut self, data: &[u8]) -> Result<(), std::io::Error> {
        if self.broken {
            return Err(std::io::ErrorKind::BrokenPipe.into());
        }
        self.sent.extend_from_slice(data);
        Ok(())
    }

    fn flush(&mut self) -> Result<(), std::io::Error> {
        if self.broken {
            return Err(std::io::ErrorKind::BrokenPipe.into());
        }
        Ok(())
    }
}

fn check_read_stroke() {
    let seq: Vec<_> = "He?! ".bytes().collect();
    let mut minitel = Minitel::new(Port::new(seq));
    assert_eq!(minitel.read_s0_stroke().unwrap(), UserInput::Char('H'));
    assert_eq!(minitel.read_s0_stroke().unwrap(), UserInput::Char('e'));
    assert_eq!(minitel.read_s0_stroke().unwrap(), UserInput::Char('?'));
    assert_eq!(minitel.read_s0_stroke().unwrap(), UserInput::Char('!'));
    assert_eq!(minitel.read_s0_stroke().unwrap(), UserInput::Char(' '));

    let seq: Vec<_> = vec![0x20, 0x13, 0x41, 0x13, 0x49, 0x20, 0x1B, 0x54];
    let mut minitel = Minitel::new(Port::new(seq));
    assert_eq!(minitel.read_s0_stroke().unwrap(), UserInput::Char(' '));
    assert_eq!(
        minitel.read_s0_stroke().unwrap(),
        UserInput::FunctionKey(FunctionKey::Envoi)
    );
    assert_eq!(
        minitel.read_s0_stroke().unwrap(),
        UserInput::FunctionKey(FunctionKey::ConnexionFin)
    );
    assert_eq!(minitel.read_s0_stroke().unwrap(), UserInput::Char(' '));
    assert_eq!(minitel.read_s0_stroke().unwrap(), UserInput::C1(C1::BgBlue));

    let seq: Vec<_> = vec![0x19, 0x42, 0x65, 0x19, 0x3D]; // SS2, ', e, SS2, ½
    let mut minitel = Minitel::new(Port::new(seq));
    assert_eq!(minitel.read_s0_stroke().unwrap(), UserInput::Char('é'));
    assert_eq!(minitel.read_s0_stroke().unwrap(), UserInput::Char('½'));
}

fn check_write_str() {
    let seq: Vec<u8> = Vec::new();
    let mut minitel = Minitel::new(Port::new(seq));
    minitel.write_str("Hé½").unwrap();
    let written = minitel.port.into_inner();
    assert_eq!(written, vec![0x48, 0x19, 0x42, 0x65, 0x19, 0x3D]); // H, SS2, ', e, SS2, ½
}

#[test]
fn read_stroke() {
    check_read_stroke();
}

#[test]
fn lib_read_stroke() {
    check_read_stroke();
}

#[test]
fn stum_read_stroke() {
    check_read_stroke();
}

#[test]
fn write_str() {
    check_write_str();
}

#[test]
fn lib_write_str() {
    check_write_str();
}

#[test]
fn stum_write_str() {
    check_write_str();
}

#[test]
fn printable_ascii_goes_out_and_comes_back() {
    for b in 0x20..=0x7Eu8 {
        let c = b as char;
        let mut out = Minitel::new(Wire::new(Vec::new()));
        match out.write_char(c) {
            Ok(()) => {
                assert_eq!(out.port.sent, vec![b]);
                let mut back = Minitel::new(Wire::new(out.port.sent));
                assert_eq!(back.read_s0_stroke().unwrap(), UserInput::Char(c));
                assert_eq!(back.port.left(), 0);
            }
            Err(e) => {
                assert!(matches!(e, Error::Unmappable));
                assert!(['^', '`', '{', '}', '~'].contains(&c));
                assert!(out.port.sent.is_empty());
            }
        }
    }
}

#[test]
fn accented_letters_go_out_and_come_back() {
    let cases = [
        ('à', 0x41, b'a'),
        ('é', 0x42, b'e'),
        ('ê', 0x43, b'e'),
        ('ë', 0x48, b'e'),
        ('ç', 0x4B, b'c'),
        ('È', 0x41, b'E'),
        ('Ü', 0x48, b'U'),
        ('î', 0x43, b'i'),
    ];
    for (c, accent, base) in cases {
        let mut out = Minitel::new(Wire::new(Vec::new()));
        out.write_char(c).unwrap();
        assert_eq!(out.port.sent, vec![0x19, accent, base]);
        let mut back = Minitel::new(Wire::new(out.port.sent));
        assert_eq!(back.read_s0_stroke().unwrap(), UserInput::Char(c));
        assert_eq!(back.port.left(), 0);
    }
}

#[test]
fn special_symbols_go_out_and_come_back() {
    for c in [
        '£', '§', '←', '↑', '→', '↓', '°', '±', '÷', '¼', '½', '¾', 'Œ', 'œ', 'β',
    ] {
        let mut out = Minitel::new(Wire::new(Vec::new()));
        out.write_char(c).unwrap();
        assert_eq!(out.port.sent.len(), 2);
        assert_eq!(out.port.sent[0], 0x19);
        let mut back = Minitel::new(Wire::new(out.port.sent));
        assert_eq!(back.read_s0_stroke().unwrap(), UserInput::Char(c));
        assert_eq!(back.port.left(), 0);
    }
}

#[test]
fn keys_and_codes_come_back_from_their_messages() {
    let mut m = Minitel::new(Wire::new(
        [
            FunctionKey::Sommaire.message(),
            C1::InvertBg.message(),
            C0::FF.message(),
        ]
        .concat(),
    ));
    assert_eq!(
        m.read_s0_stroke().unwrap(),
        UserInput::FunctionKey(FunctionKey::Sommaire)
    );
    assert_eq!(m.read_s0_stroke().unwrap(), UserInput::C1(C1::InvertBg));
    assert_eq!(m.read_s0_stroke().unwrap(), UserInput::C0(C0::FF));
}

#[test]
fn stroke_control_codes_come_back_as_they_are() {
    let mut minitel = Minitel::new(Wire::new(vec![0x0D, 0x08, 0x00, 0x1F]));
    assert_eq!(minitel.read_s0_stroke().unwrap(), UserInput::C0(C0::CR));
    assert_eq!(minitel.read_s0_stroke().unwrap(), UserInput::C0(C0::BS));
    assert_eq!(minitel.read_s0_stroke().unwrap(), UserInput::C0(C0::NUL));
    assert_eq!(minitel.read_s0_stroke().unwrap(), UserInput::C0(C0::US));
}

#[test]
fn stroke_drawing_glyphs_come_back_as_their_characters() {
    let mut minitel = Minitel::new(Wire::new(vec![0x5E, 0x60, 0x7B, 0x7D, 0x7E]));
    assert_eq!(minitel.read_s0_stroke().unwrap(), UserInput::Char('↑'));
    assert_eq!(minitel.read_s0_stroke().unwrap(), UserInput::Char('─'));
    assert_eq!(minitel.read_s0_stroke().unwrap(), UserInput::Char('▏'));
    assert_eq!(minitel.read_s0_stroke().unwrap(), UserInput::Char('▕'));
    assert_eq!(minitel.read_s0_stroke().unwrap(), UserInput::Char('▔'));
}

#[test]
fn stroke_unknown_codes_fail() {
    for bytes in [
        vec![0x7F],
        vec![0x80],
        vec![0x02],
        vec![0x1B, 0x00],
        vec![0x13, 0x40],
        vec![0x19, 0x25],
        vec![0x19, 0x42, 0x71],
        vec![0x19, 0x4B, 0x31],
    ] {
        let n = bytes.len();
        let mut minitel = Minitel::new(Wire::new(bytes));
        assert!(matches!(minitel.read_s0_stroke(), Err(Error::UnknownCode)));
        assert_eq!(minitel.port.at, n);
    }
}

#[test]
fn stroke_cut_short_fails_with_the_channel() {
    for bytes in [vec![], vec![0x1B], vec![0x13], vec![0x19], vec![0x19, 0x42]] {
        let mut minitel = Minitel::new(Wire::new(bytes));
        assert!(matches!(minitel.read_s0_stroke(), Err(Error::Io(_))));
    }
}

#[test]
fn commands_send_their_bytes() {
    let mut m = Minitel::new(Wire::new(Vec::new()));
    m.clear_screen().unwrap();
    m.set_pos(0, 0).unwrap();
    m.set_pos(39, 24).unwrap();
    m.write_c1(C1::CharYellow).unwrap();
    m.write_g2(G2::Pound).unwrap();
    m.show_cursor().unwrap();
    m.hide_cursor().unwrap();
    m.cursor_down().unwrap();
    m.cursor_up().unwrap();
    m.cursor_right().unwrap();
    m.cursor_left().unwrap();
    m.zone_delimiter().unwrap();
    m.write_byte(0x07).unwrap();
    m.write_bytes(&[1, 2, 3]).unwrap();
    m.flush().unwrap();
    assert_eq!(
        m.port.sent,
        vec![
            0x0C, 0x1F, 0x40, 0x41, 0x1F, 0x58, 0x68, 0x1B, 0x43, 0x19, 0x23, 0x11, 0x14, 0x0A,
            0x0B, 0x09, 0x08, 0x20, 0x07, 1, 2, 3
        ]
    );
}

#[test]
fn protocol_commands_send_their_bytes() {
    let mut m = Minitel::new(Wire::new(Vec::new()));
    m.pro1(Pro1::EnqSpeed).unwrap();
    m.pro2(Pro2::Prog, 0x7F).unwrap();
    m.pro3(Pro3::RoutingOn, 0x58, 0x51).unwrap();
    assert_eq!(
        m.port.sent,
        vec![0x1B, 0x39, 0x74, 0x1B, 0x3A, 0x6B, 0x7F, 0x1B, 0x3B, 0x61, 0x58, 0x51]
    );
}

#[test]
fn messages_and_sequences_send_their_bytes() {
    let mut m = Minitel::new(Wire::new(Vec::new()));
    m.send(SetPosition(3, 2)).unwrap();
    m.send(Repeat(5)).unwrap();
    m.send(FunctionKey::Envoi).unwrap();
    m.write_sequence(C1::Blink).unwrap();
    m.write_sequence(G2::Degree).unwrap();
    m.si_char(SIChar::G0Diacritic(G0(0x61), G2::Grave)).unwrap();
    assert_eq!(
        m.port.sent,
        vec![0x1F, 0x42, 0x44, 0x12, 0x45, 0x13, 0x41, 0x1B, 0x48, 0x19, 0x30, 0x19, 0x41, 0x61]
    );
}

#[test]
fn start_zone_ends_with_a_blank() {
    let mut m = Minitel::new(Wire::new(Vec::new()));
    m.start_zone(&[C1::BgBlue, C1::CharWhite]).unwrap();
    m.start_zone(&[]).unwrap();
    assert_eq!(m.port.sent, vec![0x1B, 0x54, 0x1B, 0x47, 0x20, 0x20]);
}

#[test]
fn write_char_without_representation_sends_nothing() {
    let mut m = Minitel::new(Wire::new(Vec::new()));
    assert!(matches!(m.write_char('中'), Err(Error::Unmappable)));
    assert!(m.port.sent.is_empty());
}

#[test]
fn write_str_stops_at_the_first_failure() {
    let mut m = Minitel::new(Wire::new(Vec::new()));
    assert!(matches!(m.write_str("a中b"), Err(Error::Unmappable)));
    assert_eq!(m.port.sent, vec![0x61]);
    let mut m = Minitel::new(Wire::new(Vec::new()));
    assert!(m.write_chars(&['o', 'u', 'ï']).is_ok());
    assert_eq!(m.port.sent, vec![0x6F, 0x75, 0x19, 0x48, 0x69]);
}

#[test]
fn writeln_sends_the_text_and_fails_on_the_line_end() {
    let mut m = Minitel::new(Wire::new(Vec::new()));
    assert!(matches!(m.writeln("ok"), Err(Error::Unmappable)));
    assert_eq!(m.port.sent, vec![0x6F, 0x6B]);
}

#[test]
fn a_broken_channel_fails_every_command() {
    let mut m = Minitel::new(Wire::broken());
    assert!(matches!(m.clear_screen(), Err(Error::Io(_))));
    assert!(matches!(m.write_char('a'), Err(Error::Io(_))));
    assert!(matches!(m.write_str("abc"), Err(Error::Io(_))));
    assert!(matches!(m.flush(), Err(Error::Io(_))));
    assert!(matches!(m.read_rom(), Err(Error::Io(_))));
    assert!(matches!(m.read_byte(), Err(Error::Io(_))));
    assert!(m.port.sent.is_empty());
}

#[test]
fn read_bytes_fills_the_buffer() {
    let mut m = Minitel::new(Wire::new(vec![1, 2, 3, 4]));
    let mut data = [0u8; 3];
    m.read_bytes(&mut data).unwrap();
    assert_eq!(data, [1, 2, 3]);
    assert_eq!(m.read_byte().unwrap(), 4);
    assert!(matches!(m.read_byte(), Err(Error::Io(_))));
}

#[test]
fn wait_for_passes_over_nine_bytes() {
    let mut bytes = vec![0x00; 9];
    bytes.push(0x1B);
    bytes.push(0x55);
    let mut m = Minitel::new(Wire::new(bytes));
    m.wait_for(0x1B).unwrap();
    assert_eq!(m.port.at, 10);
    assert_eq!(m.read_byte().unwrap(), 0x55);
}

#[test]
fn wait_for_gives_up_after_ten_bytes() {
    let mut bytes = vec![0x00; 10];
    bytes.push(0x1B);
    let mut m = Minitel::new(Wire::new(bytes));
    assert!(matches!(m.wait_for(0x1B), Err(Error::Timeout)));
    assert_eq!(m.port.at, 10);
}

#[test]
fn wait_for_fails_with_the_channel() {
    let mut m = Minitel::new(Wire::new(vec![0x00; 4]));
    assert!(matches!(m.wait_for(0x1B), Err(Error::Io(_))));
    assert_eq!(m.port.at, 4);
}

#[test]
fn expect_read_checks_one_byte() {
    let mut m = Minitel::new(Wire::new(vec![0x04, 0x05]));
    m.expect_read(0x04).unwrap();
    assert!(matches!(m.expect_read(0x04), Err(Error::ProtocolViolation)));
    assert!(matches!(m.expect_read(0x04), Err(Error::Io(_))));
}

#[test]
fn read_pro2_returns_the_parameter() {
    let mut m = Minitel::new(Wire::new(vec![0x41, 0x1B, 0x3A, 0x73, 0x2A]));
    assert_eq!(m.read_pro2(Pro2Resp::RepStatus).unwrap(), 0x2A);
    let mut m = Minitel::new(Wire::new(vec![0x1B, 0x3A, 0x75, 0x64]));
    assert!(matches!(
        m.read_pro2(Pro2Resp::RepStatus),
        Err(Error::ProtocolViolation)
    ));
    assert_eq!(m.port.at, 3);
    let mut m = Minitel::new(Wire::new(vec![0x1B, 0x3B, 0x73, 0x64]));
    assert!(matches!(
        m.read_pro2(Pro2Resp::RepStatus),
        Err(Error::ProtocolViolation)
    ));
    assert_eq!(m.port.at, 2);
}

#[test]
fn read_pro3_returns_both_parameters() {
    let mut m = Minitel::new(Wire::new(vec![0x1B, 0x3B, 0x63, 0x58, 0x01]));
    assert_eq!(m.read_pro3(Pro3Resp::RoutingFrom).unwrap(), (0x58, 0x01));
    let mut m = Minitel::new(Wire::new(vec![0x1B, 0x3A, 0x63, 0x58, 0x01]));
    assert!(matches!(
        m.read_pro3(Pro3Resp::RoutingFrom),
        Err(Error::ProtocolViolation)
    ));
}

#[test]
fn read_answer_returns_the_payload() {
    let mut m = Minitel::new(Wire::new(vec![9, 9, 0x01, 7, 8, 9, 0x04]));
    assert_eq!(m.read_answer(Frame::Rom).unwrap(), vec![7, 8, 9]);
    let mut m = Minitel::new(Wire::new(vec![0x55]));
    assert_eq!(m.read_answer(Frame::Byte(0x55)).unwrap(), Vec::<u8>::new());
}

#[test]
fn read_rom_asks_and_decodes() {
    let mut m = Minitel::new(Wire::new(vec![0x00, 0x01, 0x43, 0x75, 0x3C, 0x04]));
    let rom = m.read_rom().unwrap();
    assert_eq!(
        rom,
        Rom {
            manufacturer: 0x43,
            model: 0x75,
            version: 0x3C
        }
    );
    assert_eq!(m.port.sent, vec![0x1B, 0x39, 0x7B]);
}

#[test]
fn read_rom_needs_the_closing_byte() {
    let mut m = Minitel::new(Wire::new(vec![0x01, 0x43, 0x75, 0x3C, 0x05]));
    assert!(matches!(m.read_rom(), Err(Error::ProtocolViolation)));
    let mut m = Minitel::new(Wire::new(vec![0x00; 12]));
    assert!(matches!(m.read_rom(), Err(Error::Timeout)));
}

#[test]
fn query_position_subtracts_the_offsets() {
    let mut m = Minitel::new(Wire::new(vec![0x1F, 0x41, 0x42]));
    assert_eq!(m.get_pos().unwrap(), (1, 0));
    assert_eq!(m.port.sent, vec![0x1B, 0x61]);
    let mut m = Minitel::new(Wire::new(vec![0x1F, 0x41, 0x41]));
    assert_eq!(m.get_pos().unwrap(), (0, 0));
    let mut m = Minitel::new(Wire::new(vec![0x07, 0x1F, 0x59, 0x68]));
    assert_eq!(m.get_pos().unwrap(), (39, 24));
}

#[test]
fn query_position_rejects_bytes_below_the_offsets() {
    let mut m = Minitel::new(Wire::new(vec![0x1F, 0x40, 0x41]));
    assert!(matches!(m.get_pos(), Err(Error::ProtocolViolation)));
    let mut m = Minitel::new(Wire::new(vec![0x1F, 0x41, 0x20]));
    assert!(matches!(m.get_pos(), Err(Error::ProtocolViolation)));
    assert!(matches!(
        position_from_answer(0x00, 0xFF),
        Err(Error::ProtocolViolation)
    ));
    assert!(matches!(position_from_answer(0xFF, 0xFF), Ok((0xBE, 0xBE))));
    assert!(matches!(position_from_answer(0x41, 0x42), Ok((1, 0))));
}

#[test]
fn function_modes_ask_and_wait_for_the_status() {
    let mut m = Minitel::new(Wire::new(vec![0x1B, 0x3A, 0x73, 0x00]));
    m.set_function_mode(FunctionMode::Rouleau, true).unwrap();
    assert_eq!(m.port.sent, vec![0x1B, 0x3A, 0x69, 0x43]);
    let mut m = Minitel::new(Wire::new(vec![0x1B, 0x3A, 0x73, 0x00]));
    m.set_rouleau(false).unwrap();
    assert_eq!(m.port.sent, vec![0x1B, 0x3A, 0x6A, 0x43]);
    let mut m = Minitel::new(Wire::new(vec![0x1B, 0x3A, 0x73, 0x00]));
    m.set_procedure(true).unwrap();
    assert_eq!(m.port.sent, vec![0x1B, 0x3A, 0x69, 0x44]);
    let mut m = Minitel::new(Wire::new(vec![0x1B, 0x3A, 0x73, 0x00]));
    m.set_minuscule(true).unwrap();
    assert_eq!(m.port.sent, vec![0x1B, 0x3A, 0x69, 0x45]);
    let mut m = Minitel::new(Wire::new(vec![0x1B, 0x3A, 0x75, 0x00]));
    assert!(matches!(
        m.set_minuscule(true),
        Err(Error::ProtocolViolation)
    ));
}

#[test]
fn routing_asks_and_waits_for_the_status() {
    let mut m = Minitel::new(Wire::new(vec![0x1B, 0x3B, 0x63, 0x58, 0x01]));
    m.set_routing(true, RoutingRx::Screen, RoutingTx::Keyboard)
        .unwrap();
    assert_eq!(m.port.sent, vec![0x1B, 0x3B, 0x61, 0x58, 0x51]);
    let mut m = Minitel::new(Wire::new(vec![0x1B, 0x3B, 0x64, 0x58, 0x01]));
    assert!(matches!(
        m.set_routing(false, RoutingRx::Modem, RoutingTx::Prise),
        Err(Error::ProtocolViolation)
    ));
    assert_eq!(m.port.sent, vec![0x1B, 0x3B, 0x60, 0x5A, 0x53]);
}
