use tokenviz::config::{config_from_toml, load_config, Config};
use tokenviz::tokens::{classify, Category, Token};

#[test]
fn valid_config_parses_both_lists() {
    let text = "extra_separators = [\"a\", \"b\"]\nremoved_separators = [\"c\"]\n";
    let cfg = config_from_toml(text).unwrap();
    assert_eq!(cfg.extra_separators, vec!["a".to_string(), "b".to_string()]);
    assert_eq!(cfg.removed_separators, vec!["c".to_string()]);
}

#[test]
fn unknown_keys_are_ignored() {
    let text = "extra_separators = [\"a\"]\nremoved_separators = []\nother = 17\n";
    let cfg = config_from_toml(text).unwrap();
    assert_eq!(cfg.extra_separators, vec!["a".to_string()]);
    assert!(cfg.removed_separators.is_empty());
}

#[test]
fn missing_key_is_a_parse_failure() {
    assert!(config_from_toml("extra_separators = []\n").is_none());
    assert!(config_from_toml("removed_separators = []\n").is_none());
    assert!(config_from_toml("").is_none());
}

#[test]
fn wrong_types_are_a_parse_failure() {
    assert!(config_from_toml("extra_separators = 3\nremoved_separators = []\n").is_none());
    assert!(config_from_toml("extra_separators = [1]\nremoved_separators = []\n").is_none());
    assert!(
        config_from_toml("extra_separators = \"a\"\nremoved_separators = []\n").is_none()
    );
}

#[test]
fn malformed_toml_is_a_parse_failure() {
    assert!(config_from_toml("extra_separators = ]\n").is_none());
    assert!(config_from_toml("= nonsense").is_none());
}

#[test]
fn loading_falls_back_to_the_empty_default() {
    let missing = load_config(None);
    assert!(missing.extra_separators.is_empty());
    assert!(missing.removed_separators.is_empty());

    let garbled = "not [ valid (".to_string();
    let fallback = load_config(Some(&garbled));
    assert!(fallback.extra_separators.is_empty());
    assert!(fallback.removed_separators.is_empty());
}

#[test]
fn missing_file_and_empty_lists_classify_identically() {
    let from_missing = load_config(None);
    let text = "extra_separators = []\nremoved_separators = []\n".to_string();
    let from_empty_lists = load_config(Some(&text));
    assert_eq!(
        from_missing.extra_separators,
        from_empty_lists.extra_separators
    );
    assert_eq!(
        from_missing.removed_separators,
        from_empty_lists.removed_separators
    );

    let samples = vec![
        Token { lemma: "hello".to_string(), separator: false },
        Token { lemma: ",".to_string(), separator: true },
        Token { lemma: " ".to_string(), separator: true },
        Token { lemma: "".to_string(), separator: false },
    ];
    for token in &samples {
        assert_eq!(
            classify(token, &from_missing),
            classify(token, &from_empty_lists)
        );
    }
}

#[test]
fn classification_checks_removed_before_separator() {
    let cfg = Config {
        extra_separators: vec!["x".to_string()],
        removed_separators: vec!["x".to_string()],
    };
    let token = Token { lemma: "x".to_string(), separator: true };
    assert_eq!(classify(&token, &cfg), Category::Removed);
}

#[test]
fn classification_follows_the_ordered_rule() {
    let cfg = Config {
        extra_separators: vec!["y".to_string()],
        removed_separators: vec!["x".to_string()],
    };
    assert_eq!(
        classify(&Token { lemma: "x".to_string(), separator: false }, &cfg),
        Category::Removed
    );
    assert_eq!(
        classify(&Token { lemma: "y".to_string(), separator: false }, &cfg),
        Category::Separator
    );
    assert_eq!(
        classify(&Token { lemma: "z".to_string(), separator: true }, &cfg),
        Category::Separator
    );
    assert_eq!(
        classify(&Token { lemma: "z".to_string(), separator: false }, &cfg),
        Category::Word
    );
}
