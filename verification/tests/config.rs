use befiboot::config::{
    parse_config, parse_tokens, BootConfig, RequiredKey, SyntaxError, SyntaxReason,
};
use befiboot::lexer::{is_separator, is_whitespace, tokenize};
use befiboot::store::ConfigStore;

fn text(s: &str) -> String {
    s.to_string()
}

/// The entries of the store that `source` parses to, in order.
fn entries(source: &str) -> Vec<(String, String)> {
    let mut store = parse_config(source).expect("the text is well formed");
    let tokens = tokenize(source);
    let mut out = Vec::new();
    for group in tokens.chunks(3) {
        let key = &group[0];
        if let Some(value) = store.get(key).cloned() {
            out.push((key.clone(), value));
            assert_eq!(store.remove(key), Ok(()));
        }
    }
    assert_eq!(store.len(), 0);
    out
}

#[test]
fn new_store_is_empty() {
    let store = ConfigStore::new();
    assert_eq!(store.len(), 0);
    assert_eq!(store.get("esp"), None);
}

#[test]
fn insert_then_get() {
    let mut store = ConfigStore::new();
    store.insert(text("esp"), text("0"));
    store.insert(text("kernel"), text("\\kernel.elf"));
    assert_eq!(store.len(), 2);
    assert_eq!(store.get("esp"), Some(&text("0")));
    assert_eq!(store.get("kernel"), Some(&text("\\kernel.elf")));
    assert_eq!(store.get("missing"), None);
}

#[test]
fn first_insertion_wins() {
    let mut store = ConfigStore::new();
    store.insert(text("a"), text("1"));
    store.insert(text("a"), text("2"));
    assert_eq!(store.len(), 1);
    assert_eq!(store.get("a"), Some(&text("1")));
}

#[test]
fn remove_takes_the_entry_out() {
    let mut store = ConfigStore::new();
    store.insert(text("a"), text("1"));
    store.insert(text("b"), text("2"));
    store.insert(text("c"), text("3"));
    assert_eq!(store.remove("b"), Ok(()));
    assert_eq!(store.len(), 2);
    assert_eq!(store.get("b"), None);
    assert_eq!(store.get("a"), Some(&text("1")));
    assert_eq!(store.get("c"), Some(&text("3")));
}

#[test]
fn remove_of_an_absent_key_fails() {
    let mut store = ConfigStore::new();
    store.insert(text("a"), text("1"));
    assert_eq!(store.remove("b"), Err(()));
    assert_eq!(store.len(), 1);
    assert_eq!(store.get("a"), Some(&text("1")));
}

#[test]
fn a_removed_key_can_be_inserted_again() {
    let mut store = ConfigStore::new();
    store.insert(text("a"), text("1"));
    assert_eq!(store.remove("a"), Ok(()));
    store.insert(text("a"), text("2"));
    assert_eq!(store.get("a"), Some(&text("2")));
}

#[test]
fn whitespace_is_what_std_calls_whitespace() {
    for code in 0u32..=0x10ffff {
        if let Some(c) = char::from_u32(code) {
            assert_eq!(is_whitespace(c), c.is_whitespace(), "U+{:04X}", code);
        }
    }
}

#[test]
fn separators_are_space_and_newline() {
    assert!(is_separator(' '));
    assert!(is_separator('\n'));
    assert!(!is_separator('\t'));
    assert!(!is_separator('\r'));
    assert!(!is_separator('='));
}

#[test]
fn tokens_are_trimmed_and_never_empty() {
    assert_eq!(tokenize("  a \n\n =\t \n b  "), vec!["a", "=", "b"]);
    assert_eq!(tokenize(""), Vec::<String>::new());
    assert_eq!(tokenize(" \n \n"), Vec::<String>::new());
    assert_eq!(tokenize("\t\r"), Vec::<String>::new());
    for token in tokenize(" x  \r\n y\t \n\n\u{a0}z\u{3000} ") {
        assert!(!token.is_empty());
        assert_eq!(token.trim(), token);
    }
}

#[test]
fn tokens_are_what_split_trim_and_filter_give() {
    let samples = [
        "esp = 0 \n kernel = \\kernel.elf",
        "a=\nb",
        "a\t=\tb",
        " \u{2003}k\u{2003} = v\r\n",
        "é = ü\nλ = \u{1f600}",
        "a \t b",
        "=",
    ];
    for sample in samples {
        let expected: Vec<String> = sample
            .split(|c| c == ' ' || c == '\n')
            .map(|piece| piece.trim())
            .filter(|piece| !piece.is_empty())
            .map(|piece| piece.to_string())
            .collect();
        assert_eq!(tokenize(sample), expected, "{:?}", sample);
    }
}

#[test]
fn a_tab_does_not_cut() {
    assert_eq!(tokenize("a\t=\tb"), vec!["a\t=\tb"]);
}

#[test]
fn example_configuration_parses() {
    let store = parse_config("esp = 0 \n kernel = \\kernel.elf").unwrap();
    assert_eq!(store.len(), 2);
    assert_eq!(store.get("esp"), Some(&text("0")));
    assert_eq!(store.get("kernel"), Some(&text("\\kernel.elf")));
    assert_eq!(
        entries("esp = 0 \n kernel = \\kernel.elf"),
        vec![(text("esp"), text("0")), (text("kernel"), text("\\kernel.elf"))]
    );
}

#[test]
fn empty_text_gives_an_empty_store() {
    assert_eq!(parse_config("").unwrap().len(), 0);
    assert_eq!(parse_config(" \n\n ").unwrap().len(), 0);
}

#[test]
fn entries_come_in_the_order_of_the_text() {
    assert_eq!(
        entries("c = 3\nb = 2\na = 1\nd = 4"),
        vec![
            (text("c"), text("3")),
            (text("b"), text("2")),
            (text("a"), text("1")),
            (text("d"), text("4")),
        ]
    );
}

#[test]
fn repeated_separators_do_not_matter() {
    assert_eq!(entries("a  =  b"), entries("a = b"));
    assert_eq!(entries("a \n\n = \n b\n"), entries("a = b"));
    assert_eq!(entries("a = b"), vec![(text("a"), text("b"))]);
}

#[test]
fn a_repeated_key_keeps_its_first_value() {
    let store = parse_config("a = 1 a = 2 b = 3").unwrap();
    assert_eq!(store.len(), 2);
    assert_eq!(store.get("a"), Some(&text("1")));
    assert_eq!(store.get("b"), Some(&text("3")));
}

#[test]
fn dangling_key_is_a_syntax_error() {
    assert_eq!(
        parse_config("a").unwrap_err(),
        SyntaxError { reason: SyntaxReason::ExpectedEquals, token_index: 1 }
    );
    assert_eq!(
        parse_config("a = b c").unwrap_err(),
        SyntaxError { reason: SyntaxReason::ExpectedEquals, token_index: 4 }
    );
}

#[test]
fn dangling_key_and_equals_is_a_syntax_error() {
    assert_eq!(
        parse_config("a =").unwrap_err(),
        SyntaxError { reason: SyntaxReason::ExpectedValue, token_index: 2 }
    );
    assert_eq!(
        parse_config("a = b\nc =").unwrap_err(),
        SyntaxError { reason: SyntaxReason::ExpectedValue, token_index: 5 }
    );
}

#[test]
fn a_second_token_other_than_equals_is_a_syntax_error() {
    assert_eq!(
        parse_config("a b c").unwrap_err(),
        SyntaxError { reason: SyntaxReason::ExpectedEquals, token_index: 1 }
    );
    assert_eq!(
        parse_config("a = b c == d").unwrap_err(),
        SyntaxError { reason: SyntaxReason::ExpectedEquals, token_index: 4 }
    );
}

#[test]
fn a_missing_value_is_reported_before_a_wrong_second_token() {
    assert_eq!(
        parse_config("a b").unwrap_err(),
        SyntaxError { reason: SyntaxReason::ExpectedValue, token_index: 2 }
    );
}

#[test]
fn a_triple_written_without_spaces_is_not_a_triple() {
    assert_eq!(
        parse_config("a=\nb").unwrap_err(),
        SyntaxError { reason: SyntaxReason::ExpectedValue, token_index: 2 }
    );
}

#[test]
fn the_first_violation_is_reported() {
    assert_eq!(
        parse_config("a x b c = d e").unwrap_err(),
        SyntaxError { reason: SyntaxReason::ExpectedEquals, token_index: 1 }
    );
}

#[test]
fn tokens_can_be_grouped_directly() {
    let store = parse_tokens(vec![text("k"), text("="), text("v")]).unwrap();
    assert_eq!(store.len(), 1);
    assert_eq!(store.get("k"), Some(&text("v")));
    assert_eq!(
        parse_tokens(vec![text("k"), text("="), text("v"), text("x")]).unwrap_err(),
        SyntaxError { reason: SyntaxReason::ExpectedEquals, token_index: 4 }
    );
}

#[test]
fn required_keys_are_taken_out() {
    let store = parse_config("esp = 0 \n quiet = yes \n kernel = \\kernel.elf").unwrap();
    let config = BootConfig::from_store(store).unwrap();
    assert_eq!(config.volume, "0");
    assert_eq!(config.kernel_path, "\\kernel.elf");
    assert_eq!(config.kernel_args.len(), 1);
    assert_eq!(config.kernel_args.get("quiet"), Some(&text("yes")));
    assert_eq!(config.kernel_args.get("esp"), None);
    assert_eq!(config.kernel_args.get("kernel"), None);
}

#[test]
fn missing_kernel_key_is_reported() {
    let store = parse_config("esp = 0").unwrap();
    let fault = BootConfig::from_store(store).unwrap_err();
    assert_eq!(fault.key, RequiredKey::Kernel);
}

#[test]
fn missing_volume_key_is_reported_first() {
    let fault = BootConfig::from_store(parse_config("").unwrap()).unwrap_err();
    assert_eq!(fault.key, RequiredKey::Volume);
    let fault = BootConfig::from_store(parse_config("kernel = k").unwrap()).unwrap_err();
    assert_eq!(fault.key, RequiredKey::Volume);
}

#[test]
fn no_token_holds_a_separator() {
    for source in ["a b\nc", "  a  ", "\n\n", "a\tb c\rd\n", " \u{a0} x \u{a0} "] {
        for token in tokenize(source) {
            assert!(!token.is_empty());
            assert!(!token.contains(' '));
            assert!(!token.contains('\n'));
            assert!(!token.starts_with(char::is_whitespace));
            assert!(!token.ends_with(char::is_whitespace));
        }
    }
}
