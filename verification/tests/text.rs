use irodori_qdrant::percent::url_component;
use irodori_qdrant::text::{replace_all, same, trim, trim_end};

#[test]
fn replaces_from_the_left_without_overlap() {
    for (text, from, to) in [
        ("aaa", "aa", "b"),
        ("aaaa", "aa", "a"),
        ("abc", "", "-"),
        ("", "", "-"),
        ("", "a", "-"),
        ("häß ßh", "ß", "ss"),
        ("xx*", "x*", "****"),
        ("no match", "z", "y"),
    ] {
        assert_eq!(replace_all(text, from, to), text.replace(from, to));
    }
    assert_eq!(replace_all("aaa", "aa", "b"), "ba");
}

#[test]
fn a_secret_that_the_mask_can_spell_may_show_again() {
    assert_eq!(replace_all("aa*", "a*", "****"), "a****");
}

#[test]
fn trims_unicode_white_space() {
    for text in [
        "", " ", "a", " a b\t", "\u{a0}\u{1680}x\u{2000}\u{200a}", "\u{2028}\u{2029}y\u{202f}\u{205f}\u{3000}",
        "\u{200b}z\u{200b}", "\r\n\u{b}\u{c}q\u{85}", "\u{8}w\u{e}", "\u{180e}v\u{feff}",
    ] {
        assert_eq!(trim(text), text.trim());
    }
}

#[test]
fn trimming_agrees_with_the_standard_library_on_every_character() {
    for code in 0..0x110000u32 {
        if let Some(c) = char::from_u32(code) {
            let text = c.to_string();
            assert_eq!(trim(&text).is_empty(), c.is_whitespace(), "{code:x}");
        }
    }
}

#[test]
fn trims_one_trailing_character() {
    assert_eq!(trim_end("a/b//", '/'), "a/b");
    assert_eq!(trim_end("///", '/'), "");
    assert_eq!(trim_end("a", '/'), "a");
}

#[test]
fn compares_texts() {
    assert!(same("häß", "häß"));
    assert!(!same("häß", "hä"));
    assert!(!same("a", "b"));
    assert!(same("", ""));
}

#[test]
fn encodes_a_path_segment() {
    assert_eq!(url_component("AZaz09-_.~"), "AZaz09-_.~");
    assert_eq!(url_component("a b/c?d#e"), "a%20b%2Fc%3Fd%23e");
    assert_eq!(url_component("ü€𝄞"), "%C3%BC%E2%82%AC%F0%9D%84%9E");
    assert_eq!(url_component("%20"), "%2520");
    assert_eq!(url_component("\u{0}\u{7f}"), "%00%7F");
    assert_eq!(url_component(""), "");
}

#[test]
fn different_names_give_different_segments() {
    assert_ne!(url_component("a/b"), url_component("a%2Fb"));
    assert_ne!(url_component("a b"), url_component("a+b"));
    assert_eq!(url_component("plain-name_1.0~x"), "plain-name_1.0~x");
}

#[test]
fn trimming_twice_changes_nothing() {
    let text = " \u{2003} a b \t";
    assert_eq!(trim(trim(text)), trim(text));
    assert_eq!(trim_end(trim_end("a//", '/'), '/'), "a");
}
