use minitel::error::Error;
use minitel::glyph::{SIChar, StringMessage, G0, G1, G2};
use minitel::{IntoSequence, MinitelMessage};

#[test]
fn semigraphic_from_bits() {
    assert_eq!(
        0x20,
        G1::from_bits([[false, false], [false, false], [false, false]]).0
    );
    assert_eq!(
        0x7F,
        G1::from_bits([[true, true], [true, true], [true, true]]).0
    );
    assert_eq!(
        0x2C,
        G1::from_bits([[false, false], [true, true], [false, false]]).0
    );
}

#[test]
fn semigraphic_from_char() {
    assert_eq!(G1::approximate_char('⠉'), Some(G1(0x23)));
    assert_eq!(G1::approximate_char('⠯'), Some(G1(0x77)));
    assert_eq!(G1::approximate_char('⡯'), Some(G1(0x77)));
    assert_eq!(G1::approximate_char('⢯'), Some(G1(0x77)));
    assert_eq!(G1::approximate_char('⣯'), Some(G1(0x77)));
    assert_eq!(G1::approximate_char('⣿'), Some(G1(0x7F)));
    assert_eq!(G1::approximate_char('\u{1FB00}'), Some(G1(0x21)));
    assert_eq!(G1::approximate_char('\u{1FB28}'), Some(G1(0x6B)));
}

#[test]
fn videotex_semigraphic_from_bits() {
    assert_eq!(
        0x20,
        G1::from_bits([[false, false], [false, false], [false, false]]).0
    );
    assert_eq!(
        0x7F,
        G1::from_bits([[true, true], [true, true], [true, true]]).0
    );
    assert_eq!(
        0x2C,
        G1::from_bits([[false, false], [true, true], [false, false]]).0
    );
}

#[test]
fn videotex_semigraphic_from_char() {
    assert_eq!(G1::approximate_char('⠉'), Some(G1(0x23)));
    assert_eq!(G1::approximate_char('⠯'), Some(G1(0x77)));
    assert_eq!(G1::approximate_char('⡯'), Some(G1(0x77)));
    assert_eq!(G1::approximate_char('⢯'), Some(G1(0x77)));
    assert_eq!(G1::approximate_char('⣯'), Some(G1(0x77)));
    assert_eq!(G1::approximate_char('⣿'), Some(G1(0x7F)));
    assert_eq!(G1::approximate_char('\u{1FB00}'), Some(G1(0x21)));
    assert_eq!(G1::approximate_char('\u{1FB28}'), Some(G1(0x6B)));
}

fn dots(n: u8) -> [[bool; 2]; 3] {
    [
        [n & 1 != 0, n & 2 != 0],
        [n & 4 != 0, n & 8 != 0],
        [n & 16 != 0, n & 32 != 0],
    ]
}

#[test]
fn from_bits_tells_all_patterns_apart() {
    let mut seen: Vec<u8> = Vec::new();
    for n in 0..64u8 {
        let g = G1::from_bits(dots(n));
        assert!(g.0 & 0x20 != 0);
        assert!(g.0 < 0x80);
        assert!(g.is_wf());
        assert!(!seen.contains(&g.0));
        seen.push(g.0);
    }
    assert_eq!(seen.len(), 64);
}

#[test]
fn bits_and_from_bits_undo_each_other() {
    for n in 0..64u8 {
        let g = G1::from_bits(dots(n));
        assert_eq!(g.bits(), dots(n));
        assert_eq!(G1::from_bits(g.bits()), g);
        assert_eq!(G1::from_bits(G1::from_bits(g.bits()).bits()), g);
    }
    assert_eq!(G1(0x6A).bits(), [[false, true], [false, true], [false, true]]);
    assert_eq!(G1::new(0x35).bits(), [[true, false], [true, false], [true, false]]);
}

#[test]
fn from_bits_weighs_each_dot() {
    let f = false;
    let t = true;
    assert_eq!(G1::from_bits([[t, f], [f, f], [f, f]]).0, 0x21);
    assert_eq!(G1::from_bits([[f, t], [f, f], [f, f]]).0, 0x22);
    assert_eq!(G1::from_bits([[f, f], [t, f], [f, f]]).0, 0x24);
    assert_eq!(G1::from_bits([[f, f], [f, t], [f, f]]).0, 0x28);
    assert_eq!(G1::from_bits([[f, f], [f, f], [t, f]]).0, 0x30);
    assert_eq!(G1::from_bits([[f, f], [f, f], [f, t]]).0, 0x60);
}

#[test]
fn approximate_char_block_elements() {
    let table = [
        (' ', 0x20),
        ('▘', 0x21),
        ('▝', 0x22),
        ('▖', 0x30),
        ('▗', 0x60),
        ('▀', 0x23),
        ('▄', 0x70),
        ('▌', 0x35),
        ('▐', 0x6A),
        ('▙', 0x75),
        ('▛', 0x37),
        ('▜', 0x6B),
        ('▟', 0x7A),
        ('▚', 0x64),
        ('▞', 0x26),
        ('█', 0x7F),
        ('▉', 0x7F),
        ('▊', 0x7F),
        ('▋', 0x35),
        ('▍', 0x35),
        ('▎', 0x20),
        ('▏', 0x20),
        ('▇', 0x7F),
        ('▆', 0x7C),
        ('▅', 0x7C),
        ('▃', 0x70),
        ('▂', 0x70),
        ('▁', 0x20),
    ];
    for (c, byte) in table {
        assert_eq!(G1::approximate_char(c), Some(G1(byte)));
    }
}

#[test]
fn approximate_char_braille_drops_lower_dots() {
    assert_eq!(G1::approximate_char('\u{2800}'), Some(G1(0x20)));
    assert_eq!(G1::approximate_char('\u{2801}'), Some(G1(0x21)));
    assert_eq!(G1::approximate_char('\u{2802}'), Some(G1(0x24)));
    assert_eq!(G1::approximate_char('\u{2804}'), Some(G1(0x30)));
    assert_eq!(G1::approximate_char('\u{2808}'), Some(G1(0x22)));
    assert_eq!(G1::approximate_char('\u{2810}'), Some(G1(0x28)));
    assert_eq!(G1::approximate_char('\u{2820}'), Some(G1(0x60)));
    assert_eq!(G1::approximate_char('\u{2840}'), Some(G1(0x20)));
    assert_eq!(G1::approximate_char('\u{2880}'), Some(G1(0x20)));
    assert_eq!(G1::approximate_char('\u{28FF}'), Some(G1(0x7F)));
    assert_eq!(G1::approximate_char('\u{2900}'), None);
    assert_eq!(G1::approximate_char('\u{27FF}'), None);
}

#[test]
fn approximate_char_sextants_keep_their_pattern() {
    for i in 0..60u32 {
        let pattern = if i < 20 {
            i + 1
        } else if i < 40 {
            i + 2
        } else {
            i + 3
        };
        let byte = 0x20 + (pattern % 32) as u8 + 0x40 * (pattern / 32) as u8;
        let c = char::from_u32(0x1FB00 + i).unwrap();
        assert_eq!(G1::approximate_char(c), Some(G1(byte)));
    }
    assert_eq!(G1::approximate_char('\u{1FB3B}'), Some(G1(0x7E)));
    assert_eq!(G1::approximate_char('\u{1FB3C}'), None);
    assert_eq!(G1::approximate_char('\u{1FAFF}'), None);
}

#[test]
fn approximate_char_rejects_plain_text() {
    assert_eq!(G1::approximate_char('A'), None);
    assert_eq!(G1::approximate_char('é'), None);
    assert_eq!(G1::approximate_char('─'), None);
}

#[test]
fn g0_from_byte_takes_its_range() {
    assert_eq!(G0::from_byte(0x1F), None);
    assert_eq!(G0::from_byte(0x20), Some(G0(0x20)));
    assert_eq!(G0::from_byte(0x7E), Some(G0(0x7E)));
    assert_eq!(G0::from_byte(0x7F), None);
    assert_eq!(G0::from_byte(0xE9), None);
}

#[test]
fn g0_to_char_differs_from_ascii_in_five_places() {
    for b in 0x20..=0x7Eu8 {
        let c = G0(b).to_char();
        match b {
            0x5E => assert_eq!(c, '↑'),
            0x60 => assert_eq!(c, '─'),
            0x7B => assert_eq!(c, '▏'),
            0x7D => assert_eq!(c, '▕'),
            0x7E => assert_eq!(c, '▔'),
            _ => assert_eq!(c, b as char),
        }
    }
}

#[test]
fn g0_from_char_ranges_and_drawing_characters() {
    assert_eq!(G0::from_char(' '), Some(G0(0x20)));
    assert_eq!(G0::from_char(']'), Some(G0(0x5D)));
    assert_eq!(G0::from_char('^'), None);
    assert_eq!(G0::from_char('_'), Some(G0(0x5F)));
    assert_eq!(G0::from_char('`'), None);
    assert_eq!(G0::from_char('a'), Some(G0(0x61)));
    assert_eq!(G0::from_char('z'), Some(G0(0x7A)));
    assert_eq!(G0::from_char('{'), None);
    assert_eq!(G0::from_char('|'), Some(G0(0x7C)));
    assert_eq!(G0::from_char('}'), None);
    assert_eq!(G0::from_char('~'), None);
    assert_eq!(G0::from_char('\u{1F}'), None);
    assert_eq!(G0::from_char('\u{7F}'), None);
    assert_eq!(G0::from_char('▁'), Some(G0(0x5F)));
    assert_eq!(G0::from_char('─'), Some(G0(0x60)));
    assert_eq!(G0::from_char('▏'), Some(G0(0x7B)));
    assert_eq!(G0::from_char('▕'), Some(G0(0x7D)));
    assert_eq!(G0::from_char('▔'), Some(G0(0x7E)));
    assert_eq!(G0::from_char('↑'), None);
    assert_eq!(G0::from_char('é'), None);
}

#[test]
fn g2_bytes_round_trip() {
    let mut known = 0;
    for b in 0..=255u8 {
        if let Some(g) = G2::from_byte(b) {
            assert_eq!(g.to_byte(), b);
            known += 1;
        }
    }
    assert_eq!(known, 22);
    assert_eq!(G2::from_byte(0x3D), Some(G2::OneHalf));
    assert_eq!(G2::from_byte(0x42), Some(G2::Acute));
    assert_eq!(G2::from_byte(0x25), None);
}

#[test]
fn g2_characters() {
    let table = [
        (G2::Pound, '£'),
        (G2::Dollar, '$'),
        (G2::Hash, '#'),
        (G2::Section, '§'),
        (G2::LeftArrow, '←'),
        (G2::UpArrow, '↑'),
        (G2::RightArrow, '→'),
        (G2::DownArrow, '↓'),
        (G2::Degree, '°'),
        (G2::PlusMinus, '±'),
        (G2::Division, '÷'),
        (G2::OneQuarter, '¼'),
        (G2::OneHalf, '½'),
        (G2::ThreeQuarters, '¾'),
        (G2::OeMaj, 'Œ'),
        (G2::OeMin, 'œ'),
        (G2::Beta, 'β'),
    ];
    for (g, c) in table {
        assert_eq!(g.char(), c);
        assert_eq!(G2::from_char(c), Some(g));
        assert_eq!(g.unicode_diacritic(), None);
    }
    assert_eq!(G2::from_char('A'), None);
}

#[test]
fn g2_accents() {
    let table = [
        (G2::Grave, '`', '\u{0300}'),
        (G2::Acute, '´', '\u{0301}'),
        (G2::Circumflex, '^', '\u{0302}'),
        (G2::Diaeresis, '¨', '\u{0308}'),
        (G2::Cedille, '¸', '\u{0327}'),
    ];
    for (g, c, mark) in table {
        assert_eq!(g.char(), c);
        assert_eq!(G2::from_char(c), None);
        assert_eq!(g.unicode_diacritic(), Some(mark));
        assert_eq!(G2::try_from_diactric(mark), Some(g));
    }
    assert_eq!(G2::try_from_diactric('\u{0303}'), None);
    assert_eq!(G2::try_from_diactric('e'), None);
}

#[test]
fn encode_picks_the_alphabetic_set_first() {
    assert!(matches!(SIChar::encode('A'), Ok(SIChar::G0(G0(0x41)))));
    assert!(matches!(SIChar::encode('$'), Ok(SIChar::G0(G0(0x24)))));
    assert!(matches!(SIChar::encode('#'), Ok(SIChar::G0(G0(0x23)))));
    assert!(matches!(SIChar::encode('▔'), Ok(SIChar::G0(G0(0x7E)))));
}

#[test]
fn encode_special_symbols() {
    assert!(matches!(SIChar::encode('£'), Ok(SIChar::G2(G2::Pound))));
    assert!(matches!(SIChar::encode('½'), Ok(SIChar::G2(G2::OneHalf))));
    assert!(matches!(SIChar::encode('↑'), Ok(SIChar::G2(G2::UpArrow))));
    assert!(matches!(SIChar::encode('œ'), Ok(SIChar::G2(G2::OeMin))));
}

#[test]
fn encode_decomposes_accented_letters() {
    assert!(matches!(
        SIChar::encode('à'),
        Ok(SIChar::G0Diacritic(G0(0x61), G2::Grave))
    ));
    assert!(matches!(
        SIChar::encode('é'),
        Ok(SIChar::G0Diacritic(G0(0x65), G2::Acute))
    ));
    assert!(matches!(
        SIChar::encode('Ê'),
        Ok(SIChar::G0Diacritic(G0(0x45), G2::Circumflex))
    ));
    assert!(matches!(
        SIChar::encode('ï'),
        Ok(SIChar::G0Diacritic(G0(0x69), G2::Diaeresis))
    ));
    assert!(matches!(
        SIChar::encode('ç'),
        Ok(SIChar::G0Diacritic(G0(0x63), G2::Cedille))
    ));
    // only the first mark of a longer decomposition is kept
    assert!(matches!(
        SIChar::encode('\u{01D8}'),
        Ok(SIChar::G0Diacritic(G0(0x75), G2::Diaeresis))
    ));
}

#[test]
fn encode_fails_on_what_has_no_representation() {
    for c in ['^', '`', '{', '}', '~', 'ñ', '中', '\u{0301}', '\r', '\n', '█'] {
        assert!(matches!(SIChar::encode(c), Err(Error::Unmappable)));
    }
}

#[test]
fn from_parts_needs_base_and_accent() {
    assert_eq!(
        SIChar::from_parts('e', '\u{0301}'),
        Some(SIChar::G0Diacritic(G0(0x65), G2::Acute))
    );
    assert_eq!(SIChar::from_parts('e', '\u{0303}'), None);
    assert_eq!(SIChar::from_parts('é', '\u{0301}'), None);
    assert_eq!(SIChar::from_parts('e', 'e'), None);
}

#[test]
fn si_char_sends_the_accent_first() {
    assert_eq!(SIChar::G0(G0(0x48)).message(), vec![0x48]);
    assert_eq!(SIChar::G2(G2::OneHalf).message(), vec![0x19, 0x3D]);
    assert_eq!(
        SIChar::G0Diacritic(G0(0x65), G2::Acute).message(),
        vec![0x19, 0x42, 0x65]
    );
    assert_eq!(G2::Pound.message(), vec![0x19, 0x23]);
    assert_eq!(G2::Pound.sequence(), [0x19, 0x23]);
    assert_eq!(G0(0x41).message(), vec![0x41]);
    assert_eq!(G1(0x7F).message(), vec![0x7F]);
}

#[test]
fn si_char_tells_what_can_be_sent() {
    assert!(SIChar::G0(G0(0x20)).is_wf());
    assert!(!SIChar::G0(G0(0x1F)).is_wf());
    assert!(SIChar::G0Diacritic(G0(0x65), G2::Acute).is_wf());
    assert!(!SIChar::G0Diacritic(G0(0x65), G2::Pound).is_wf());
    assert!(SIChar::G2(G2::Acute).is_wf());
    assert!(G1(0x20).is_wf());
    assert!(G1(0x7F).is_wf());
    assert!(!G1(0x40).is_wf());
    assert!(!G1(0x80).is_wf());
    assert!(!G1(0x1F).is_wf());
}

#[test]
fn string_message_skips_what_has_no_representation() {
    assert_eq!(
        StringMessage("Hé½".to_string()).message(),
        vec![0x48, 0x19, 0x42, 0x65, 0x19, 0x3D]
    );
    assert_eq!(
        StringMessage("a中b\r\n".to_string()).message(),
        vec![0x61, 0x62]
    );
    assert_eq!(StringMessage(String::new()).message(), Vec::<u8>::new());
}
