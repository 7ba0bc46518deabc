use contacts_api::text::{chars_of, find, starts_with, whitespace, Stop};

#[test]
fn whitespace_is_the_unicode_property() {
    let mut code: u32 = 0;
    while code <= 0x10FFFF {
        if let Some(c) = char::from_u32(code) {
            assert_eq!(whitespace(c), c.is_whitespace(), "U+{:04X}", code);
        }
        code += 1;
    }
}

#[test]
fn whitespace_of_some_characters() {
    assert!(whitespace(' '));
    assert!(whitespace('\t'));
    assert!(whitespace('\n'));
    assert!(whitespace('\r'));
    assert!(whitespace('\u{0B}'));
    assert!(whitespace('\u{0C}'));
    assert!(whitespace('\u{85}'));
    assert!(whitespace('\u{A0}'));
    assert!(whitespace('\u{3000}'));
    assert!(!whitespace('\u{08}'));
    assert!(!whitespace('\u{0E}'));
    assert!(!whitespace('\u{200B}'));
    assert!(!whitespace('\u{180E}'));
    assert!(!whitespace('a'));
    assert!(!whitespace('/'));
}

#[test]
fn stop_hits_what_it_looks_for() {
    assert!(Stop::Slash.hits('/'));
    assert!(!Stop::Slash.hits('\\'));
    assert!(Stop::Space.hits(' '));
    assert!(!Stop::Space.hits('x'));
    assert!(Stop::Word.hits('x'));
    assert!(Stop::Word.hits('/'));
    assert!(!Stop::Word.hits('\n'));
}

#[test]
fn chars_of_keeps_every_character() {
    assert_eq!(chars_of(""), Vec::<char>::new());
    assert_eq!(chars_of("a/é 1"), vec!['a', '/', 'é', ' ', '1']);
}

#[test]
fn find_gives_the_first_hit_or_the_end() {
    let chars = chars_of("ab/cd/ e");
    assert_eq!(find(&chars, 0, 8, Stop::Slash), 2);
    assert_eq!(find(&chars, 2, 8, Stop::Slash), 2);
    assert_eq!(find(&chars, 3, 8, Stop::Slash), 5);
    assert_eq!(find(&chars, 6, 8, Stop::Slash), 8);
    assert_eq!(find(&chars, 0, 2, Stop::Slash), 2);
    assert_eq!(find(&chars, 0, 1, Stop::Slash), 1);
    assert_eq!(find(&chars, 4, 4, Stop::Slash), 4);
    assert_eq!(find(&chars, 0, 8, Stop::Space), 6);
    assert_eq!(find(&chars, 6, 8, Stop::Word), 7);
    assert_eq!(find(&chars, 0, 8, Stop::Word), 0);
}

#[test]
fn starts_with_compares_the_leading_characters() {
    let cases = ["", "G", "GET", "GET /contacts", "GET /contacts/", "GET /contacts/1", "get /contacts", "é", "éa"];
    let prefixes = ["", "G", "GET /contacts", "GET /contacts/", "é", "éa", "éab"];
    for text in cases {
        for prefix in prefixes {
            assert_eq!(starts_with(&chars_of(text), prefix), text.starts_with(prefix), "{:?} {:?}", text, prefix);
        }
    }
}
