use images_manager::text::{ascii_lower_char, chars_of, same_chars, text_of, to_ascii_lowercase};

#[test]
fn characters_and_text_convert_both_ways() {
    assert_eq!(chars_of("a/é.png"), vec!['a', '/', 'é', '.', 'p', 'n', 'g']);
    assert_eq!(chars_of(""), Vec::<char>::new());
    assert_eq!(text_of(&vec!['x', '.', 'ß', '日']), "x.ß日");
    assert_eq!(text_of(&Vec::new()), "");
    for text in ["", "plain", "späte Grüße", "日本語/画像.png"] {
        assert_eq!(text_of(&chars_of(text)), text);
    }
}

#[test]
fn same_characters_means_equal_vectors() {
    assert!(same_chars(&chars_of("png"), &chars_of("png")));
    assert!(same_chars(&Vec::new(), &Vec::new()));
    assert!(!same_chars(&chars_of("png"), &chars_of("pnG")));
    assert!(!same_chars(&chars_of("png"), &chars_of("pn")));
    assert!(!same_chars(&chars_of("pn"), &chars_of("png")));
}

#[test]
fn only_ascii_capitals_are_lowered() {
    assert_eq!(ascii_lower_char('A'), 'a');
    assert_eq!(ascii_lower_char('Z'), 'z');
    assert_eq!(ascii_lower_char('m'), 'm');
    assert_eq!(ascii_lower_char('@'), '@');
    assert_eq!(ascii_lower_char('['), '[');
    assert_eq!(ascii_lower_char('É'), 'É');
    assert_eq!(ascii_lower_char('\u{212A}'), '\u{212A}');
    assert_eq!(text_of(&to_ascii_lowercase(&chars_of("JPG.Ää-09"))), "jpg.Ää-09");
}
