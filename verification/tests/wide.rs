use theme_toggle::notice::COLOR_SET;
use theme_toggle::registry::Flag;
use theme_toggle::registry::KEY_PATH;
use theme_toggle::wide::to_utf16;

fn by_std(s: &str) -> Vec<u16> {
    let mut units: Vec<u16> = s.encode_utf16().collect();
    units.push(0);
    units
}

#[test]
fn empty_string_is_the_terminator_alone() {
    assert_eq!(to_utf16(""), vec![0u16]);
}

#[test]
fn ascii_is_widened_byte_for_byte() {
    assert_eq!(to_utf16("AB"), vec![65u16, 66, 0]);
    let text = "AppsUseLightTheme";
    let wide = to_utf16(text);
    assert_eq!(wide.len(), text.len() + 1);
    for (i, byte) in text.bytes().enumerate() {
        assert_eq!(wide[i], byte as u16);
    }
    assert_eq!(wide[text.len()], 0);
}

#[test]
fn basic_plane_characters_take_one_unit() {
    assert_eq!(to_utf16("\u{e9}"), vec![0x00E9u16, 0]);
    assert_eq!(to_utf16("\u{20ac}"), vec![0x20ACu16, 0]);
    assert_eq!(to_utf16("\u{d7ff}"), vec![0xD7FFu16, 0]);
    assert_eq!(to_utf16("\u{e000}"), vec![0xE000u16, 0]);
    assert_eq!(to_utf16("\u{ffff}"), vec![0xFFFFu16, 0]);
}

#[test]
fn higher_characters_take_a_surrogate_pair() {
    assert_eq!(to_utf16("\u{10000}"), vec![0xD800u16, 0xDC00, 0]);
    assert_eq!(to_utf16("\u{1f600}"), vec![0xD83Du16, 0xDE00, 0]);
    assert_eq!(to_utf16("\u{10ffff}"), vec![0xDBFFu16, 0xDFFF, 0]);
}

#[test]
fn mixed_text_is_encoded_in_order() {
    assert_eq!(
        to_utf16("a\u{1f600}\u{e9}z"),
        vec![0x61u16, 0xD83D, 0xDE00, 0xE9, 0x7A, 0]
    );
}

#[test]
fn an_inner_nul_is_kept() {
    assert_eq!(to_utf16("a\0b"), vec![0x61u16, 0, 0x62, 0]);
}

#[test]
fn encoding_agrees_with_the_standard_library() {
    for text in [
        "",
        "ImmersiveColorSet",
        "Gr\u{fc}\u{df}e",
        "\u{65e5}\u{672c}\u{8a9e}",
        "\u{1f311}\u{1f315} theme",
        "\u{ffff}\u{10000}\u{10ffff}",
    ] {
        assert_eq!(to_utf16(text), by_std(text));
    }
}

#[test]
fn terminator_is_the_only_zero_of_the_fixed_names() {
    for text in [KEY_PATH, COLOR_SET, Flag::Apps.name(), Flag::System.name()] {
        let wide = to_utf16(text);
        assert_eq!(wide, by_std(text));
        assert_eq!(wide.len(), text.len() + 1);
        assert_eq!(wide.iter().position(|unit| *unit == 0), Some(text.len()));
    }
}

#[test]
fn key_path_takes_sixty_one_units() {
    assert_eq!(to_utf16(KEY_PATH).len(), 61);
}

#[test]
fn long_text_is_not_cut() {
    let text = "x".repeat(200);
    let wide = to_utf16(&text);
    assert_eq!(wide.len(), 201);
    assert!(wide[..200].iter().all(|unit| *unit == 0x78));
    assert_eq!(wide[200], 0);
}
