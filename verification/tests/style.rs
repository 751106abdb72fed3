use rustbox::style::CellWrite;
use rustbox::style::Color;
use rustbox::style::Style;
use rustbox::style::RB_BOLD;
use rustbox::style::RB_NORMAL;
use rustbox::style::RB_REVERSE;
use rustbox::style::RB_UNDERLINE;
use rustbox::style::TB_ATTRIB;
use rustbox::style::TB_NORMAL_COLOR;

const ALL_COLORS: [Color; 9] = [
    Color::Default,
    Color::Black,
    Color::Red,
    Color::Green,
    Color::Yellow,
    Color::Blue,
    Color::Magenta,
    Color::Cyan,
    Color::White,
];

const ALL_ATTRS: [u16; 8] = [
    RB_NORMAL,
    RB_BOLD,
    RB_UNDERLINE,
    RB_REVERSE,
    RB_BOLD | RB_UNDERLINE,
    RB_BOLD | RB_REVERSE,
    RB_UNDERLINE | RB_REVERSE,
    RB_BOLD | RB_UNDERLINE | RB_REVERSE,
];

#[test]
fn color_codes_are_the_documented_nine() {
    let codes: Vec<u16> = ALL_COLORS.iter().map(|c| c.code()).collect();
    assert_eq!(codes, vec![0, 1, 2, 3, 4, 5, 6, 7, 8]);
}

#[test]
fn from_color_packs_only_the_color_field() {
    for c in ALL_COLORS {
        let s = Style::from_color(c);
        assert_eq!(s.bits(), c.code());
        assert_eq!(s.bits() & TB_ATTRIB, 0);
    }
}

#[test]
fn color_round_trips_for_all_nine_colors() {
    for c in ALL_COLORS {
        assert_eq!(Style::from_color(c).color(), Some(c));
        assert_eq!(Style::from(c).color(), Some(c));
    }
}

#[test]
fn color_decodes_none_outside_the_nine_patterns() {
    for code in 9..=15u16 {
        assert_eq!(Style::from_bits(code).color(), None);
    }
}

#[test]
fn color_decode_ignores_attribute_bits() {
    let s = Style::from_bits(RB_BOLD | RB_REVERSE | 0x03);
    assert_eq!(s.color(), Some(Color::Green));
}

#[test]
fn attributes_survive_any_color() {
    for attrs in ALL_ATTRS {
        for c in ALL_COLORS {
            let combined = Style::from_bits(attrs).with_color(c);
            assert_eq!(combined.attributes().bits(), attrs & TB_ATTRIB);
            assert_eq!(combined.bits() & TB_NORMAL_COLOR, c.code());
        }
    }
}

#[test]
fn with_color_discards_the_old_color_field() {
    let dirty = Style::from_bits(RB_UNDERLINE | 0x07);
    let combined = dirty.with_color(Color::Red);
    assert_eq!(combined.bits(), RB_UNDERLINE | 0x02);
}

#[test]
fn attribute_masks_do_not_overlap_the_color_field() {
    assert_eq!(TB_ATTRIB & TB_NORMAL_COLOR, 0);
    assert_eq!(RB_BOLD, 0x0100);
    assert_eq!(RB_UNDERLINE, 0x0200);
    assert_eq!(RB_REVERSE, 0x0400);
    assert_eq!(RB_NORMAL, 0);
}

#[test]
fn print_char_combines_foreground_and_background() {
    let w = rustbox::style::print_char(3, 5, Style::from_bits(RB_BOLD), Color::Yellow, Color::Blue, 'x');
    assert_eq!(
        w,
        CellWrite { x: 3, y: 5, ch: 'x' as u32, fg: RB_BOLD | 0x04, bg: 0x05 }
    );
}

#[test]
fn print_writes_one_cell_per_character_at_sequential_columns() {
    let cells = rustbox::style::print(10, 2, Style::from_bits(RB_REVERSE), Color::White, Color::Default, "hi!");
    assert_eq!(cells.len(), 3);
    assert_eq!(
        cells[0],
        CellWrite { x: 10, y: 2, ch: 'h' as u32, fg: RB_REVERSE | 0x08, bg: 0 }
    );
    assert_eq!(
        cells[1],
        CellWrite { x: 11, y: 2, ch: 'i' as u32, fg: RB_REVERSE | 0x08, bg: 0 }
    );
    assert_eq!(
        cells[2],
        CellWrite { x: 12, y: 2, ch: '!' as u32, fg: RB_REVERSE | 0x08, bg: 0 }
    );
}

#[test]
fn print_counts_characters_not_bytes() {
    let cells = rustbox::style::print(0, 0, Style::from_bits(RB_NORMAL), Color::Default, Color::Default, "\u{e9}\u{4e2d}");
    assert_eq!(cells.len(), 2);
    assert_eq!(cells[0].ch, 0xe9);
    assert_eq!(cells[0].x, 0);
    assert_eq!(cells[1].ch, 0x4e2d);
    assert_eq!(cells[1].x, 1);
}

#[test]
fn print_of_empty_string_writes_nothing() {
    let cells = rustbox::style::print(4, 4, Style::from_bits(RB_BOLD), Color::Red, Color::Black, "");
    assert!(cells.is_empty());
}
