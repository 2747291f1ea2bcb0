use bdk_cli::tokenizer::render_line;
use bdk_cli::tokenizer::render_token_string;
use bdk_cli::tokenizer::tokenize;
use bdk_cli::tokenizer::blank_line;

#[test]
fn test_regex_double_quotes() {
    let line = r#"restore -m "word1 word2 word3" -p 'test! 123 -test' "#;
    let split_line = tokenize(line);
    assert_eq!(
        vec![
            "restore".to_string(),
            "-m".to_string(),
            "word1 word2 word3".to_string(),
            "-p".to_string(),
            "test! 123 -test".to_string(),
        ],
        split_line
    );
}

#[test]
fn test_regex_single_quotes() {
    let line = r#"restore -m 'word1 word2 word3' -p "test *123 -test" "#;
    let split_line = tokenize(line);
    assert_eq!(
        vec![
            "restore".to_string(),
            "-m".to_string(),
            "word1 word2 word3".to_string(),
            "-p".to_string(),
            "test *123 -test".to_string(),
        ],
        split_line
    );
}

#[test]
fn tokenize_restore_line_exactly() {
    let line = r#"restore -m "word1 word2 word3" -p 'test! 123 -test'"#;
    let toks = tokenize(line);
    assert_eq!(
        toks,
        vec![
            "restore".to_string(),
            "-m".to_string(),
            "word1 word2 word3".to_string(),
            "-p".to_string(),
            "test! 123 -test".to_string(),
        ]
    );
}

#[test]
fn tokenize_empty_and_blank() {
    assert_eq!(tokenize(""), Vec::<String>::new());
    assert_eq!(tokenize("   \t  "), Vec::<String>::new());
    assert!(blank_line(""));
    assert!(blank_line(" \t\r\n"));
    assert!(!blank_line(" x "));
}

#[test]
fn tokenize_skips_non_word_punctuation() {
    assert_eq!(
        tokenize("a.b!c"),
        vec!["a".to_string(), "b".to_string(), "c".to_string()]
    );
    assert_eq!(tokenize("sync --max-addresses 50"), vec![
        "sync".to_string(),
        "--max-addresses".to_string(),
        "50".to_string(),
    ]);
}

#[test]
fn tokenize_unterminated_quote_drops_run() {
    assert_eq!(
        tokenize(r#"restore -m "word1 word2"#),
        vec!["restore".to_string(), "-m".to_string()]
    );
    assert_eq!(tokenize(r#"""#), Vec::<String>::new());
}

#[test]
fn tokenize_empty_quoted_token() {
    assert_eq!(tokenize(r#"a "" b"#), vec![
        "a".to_string(),
        "".to_string(),
        "b".to_string(),
    ]);
}

#[test]
fn render_token_forms() {
    assert_eq!(render_token_string("word-1"), "word-1".to_string());
    assert_eq!(render_token_string("two words"), "\"two words\"".to_string());
    assert_eq!(render_token_string("has \" quote"), "'has \" quote'".to_string());
    assert_eq!(render_token_string(""), "\"\"".to_string());
}

#[test]
fn tokenize_render_round_trip() {
    let line = r#"restore -m "word1 word2 word3" -p 'test! 123 -test' junk..x"#;
    let toks = tokenize(line);
    let rendered = render_line(&toks);
    assert_eq!(tokenize(&rendered), toks);
}
