use poit::text::{chars_of, concat_str, contains_char, same_text, split_char, text_from_bytes, trim};

#[test]
fn split_keeps_empty_pieces() {
    assert_eq!(split_char("a..b.", '.'), vec!["a", "", "b", ""]);
    assert_eq!(split_char("", '.'), vec![""]);
    assert_eq!(split_char("abc", '.'), vec!["abc"]);
}

#[test]
fn split_matches_std() {
    for s in ["pip 23.0.1 from /x (python 3.11)\n", "  a  b ", "x"] {
        let expected: Vec<String> = s.split(' ').map(|p| p.to_string()).collect();
        assert_eq!(split_char(s, ' '), expected);
    }
}

#[test]
fn trim_matches_std() {
    for s in ["  abc \n", "\u{3000}x\u{a0}", "", "   ", "a b", "\t\r\nq\u{2009}"] {
        assert_eq!(trim(s), s.trim());
    }
}

#[test]
fn contains_and_concat() {
    assert!(contains_char("a~b", '~'));
    assert!(!contains_char("ab", '~'));
    assert_eq!(concat_str("ab", "cd"), "abcd");
    assert!(same_text("x", "x"));
    assert!(!same_text("x", "y"));
    assert_eq!(chars_of("hé"), vec!['h', 'é']);
}

#[test]
fn bytes_as_text() {
    assert_eq!(text_from_bytes("héllo".as_bytes()), "héllo");
    assert_eq!(text_from_bytes(&[b'a', 0xff, b'b']), "a\u{fffd}b");
}
