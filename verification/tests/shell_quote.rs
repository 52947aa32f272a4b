use firewall::shell_quote::{is_quote_safe, shell_quote, shell_quote_many};

#[test]
fn t_shell_quote() {
    assert_eq!(shell_quote("1"), "1");
    assert_eq!(shell_quote("1,2"), "1,2");
    assert_eq!(shell_quote("_"), "_");
    assert_eq!(shell_quote("foo.txt"), "foo.txt");
    assert_eq!(shell_quote("foo=10+2/3-3:4"), "foo=10+2/3-3:4");
    assert_eq!(shell_quote("foo=10*2"), "\'foo=10*2\'");
    assert_eq!(shell_quote("ä"), "'ä'");
    assert_eq!(shell_quote(""), "\'\'");
    assert_eq!(shell_quote("ab'foo*2"), "ab\\''foo*2'");
}

#[test]
fn t_shell_quote_many() {
    assert_eq!(
        shell_quote_many(&["foo", "bar baz", "3*2", "4'5"]),
        "foo 'bar baz' '3*2' 4\\'5"
    );
    assert_eq!(shell_quote_many::<&str>(&[]), "");
    assert_eq!(shell_quote_many::<String>(&[]), "");
    assert_eq!(shell_quote_many(&[String::from("foo")]), "foo");
}

#[test]
fn quote_safe_characters() {
    for c in ['a', 'z', 'A', 'Z', '0', '9', '_', '=', '-', '/', '+', '%', '.', ',', ':'] {
        assert!(is_quote_safe(c), "{c:?}");
    }
    for c in [' ', '*', '\'', '"', '$', '\\', 'ä', '\n', '!', '~', '@', '[', '`', '{'] {
        assert!(!is_quote_safe(c), "{c:?}");
    }
}

#[test]
fn shell_quote_pieces_around_single_quotes() {
    assert_eq!(shell_quote("'"), "\\'");
    assert_eq!(shell_quote("''"), "\\'\\'");
    assert_eq!(shell_quote("a'"), "a\\'");
    assert_eq!(shell_quote("'a b"), "\\''a b'");
    assert_eq!(shell_quote("a b'c d'e"), "'a b'\\''c d'\\'e");
}
