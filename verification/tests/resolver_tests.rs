use bdk_cli::commands::KeySubCommand;
use bdk_cli::commands::OfflineWalletSubCommand;
use bdk_cli::commands::OnlineWalletSubCommand;
use bdk_cli::commands::ReplSubCommand;
use bdk_cli::resolver::ParseErrorKind;
use bdk_cli::resolver::parse_dec;
use bdk_cli::resolver::resolve_tokens;
use bdk_cli::tokenizer::tokenize;

fn toks(words: &[&str]) -> Vec<String> {
    words.iter().map(|w| w.to_string()).collect()
}

#[test]
fn resolve_exit() {
    let r = resolve_tokens(&toks(&["exit"]));
    assert_eq!(r, Ok(ReplSubCommand::Exit));
}

#[test]
fn resolve_exit_with_argument_is_error() {
    let r = resolve_tokens(&toks(&["exit", "now"]));
    let e = r.unwrap_err();
    assert_eq!(e.kind, ParseErrorKind::UnexpectedArgument);
    assert_eq!(e.detail, "now".to_string());
}

#[test]
fn resolve_empty_is_error() {
    let r = resolve_tokens(&Vec::new());
    assert_eq!(r.unwrap_err().kind, ParseErrorKind::EmptyCommand);
}

#[test]
fn resolve_unknown_command() {
    let r = resolve_tokens(&toks(&["frobnicate"]));
    let e = r.unwrap_err();
    assert_eq!(e.kind, ParseErrorKind::UnknownCommand);
    assert_eq!(e.message(), "unknown command: frobnicate".to_string());
}

#[test]
fn resolve_restore_from_tokenized_line() {
    let line = r#"restore -m "word1 word2 word3" -p 'test! 123 -test'"#;
    let r = resolve_tokens(&tokenize(line));
    assert_eq!(
        r,
        Ok(ReplSubCommand::KeySubCommand(KeySubCommand::Restore {
            mnemonic: "word1 word2 word3".to_string(),
            password: Some("test! 123 -test".to_string()),
        }))
    );
}

#[test]
fn resolve_restore_missing_mnemonic() {
    let r = resolve_tokens(&toks(&["restore", "-p", "pw"]));
    let e = r.unwrap_err();
    assert_eq!(e.kind, ParseErrorKind::MissingRequiredFlag);
    assert_eq!(e.detail, "--mnemonic".to_string());
}

#[test]
fn resolve_restore_duplicate_flag() {
    let r = resolve_tokens(&toks(&["restore", "-m", "a", "-m", "b"]));
    assert_eq!(r.unwrap_err().kind, ParseErrorKind::DuplicateFlag);
}

#[test]
fn resolve_sync_plain_and_with_flag() {
    assert_eq!(
        resolve_tokens(&toks(&["sync"])),
        Ok(ReplSubCommand::OnlineWalletSubCommand(OnlineWalletSubCommand::Sync {
            max_addresses: None,
        }))
    );
    assert_eq!(
        resolve_tokens(&toks(&["sync", "--max-addresses", "50"])),
        Ok(ReplSubCommand::OnlineWalletSubCommand(OnlineWalletSubCommand::Sync {
            max_addresses: Some(50),
        }))
    );
}

#[test]
fn resolve_sync_missing_value() {
    let r = resolve_tokens(&toks(&["sync", "--max-addresses"]));
    assert_eq!(r.unwrap_err().kind, ParseErrorKind::MissingFlagValue);
}

#[test]
fn resolve_sync_malformed_value() {
    let r = resolve_tokens(&toks(&["sync", "--max-addresses", "many"]));
    let e = r.unwrap_err();
    assert_eq!(e.kind, ParseErrorKind::MalformedValue);
    assert_eq!(e.message(), "malformed value: many".to_string());
}

#[test]
fn resolve_sync_unknown_flag() {
    let r = resolve_tokens(&toks(&["sync", "--fast"]));
    assert_eq!(r.unwrap_err().kind, ParseErrorKind::UnknownFlag);
}

#[test]
fn resolve_broadcast() {
    assert_eq!(
        resolve_tokens(&toks(&["broadcast", "--psbt", "cHNidP8B"])),
        Ok(ReplSubCommand::OnlineWalletSubCommand(OnlineWalletSubCommand::Broadcast {
            psbt: "cHNidP8B".to_string(),
        }))
    );
    let e = resolve_tokens(&toks(&["broadcast"])).unwrap_err();
    assert_eq!(e.kind, ParseErrorKind::MissingRequiredFlag);
    assert_eq!(e.detail, "--psbt".to_string());
}

#[test]
fn resolve_offline_zero_arg_ops() {
    assert_eq!(
        resolve_tokens(&toks(&["get_balance"])),
        Ok(ReplSubCommand::OfflineWalletSubCommand(OfflineWalletSubCommand::GetBalance))
    );
    assert_eq!(
        resolve_tokens(&toks(&["get_new_address"])),
        Ok(ReplSubCommand::OfflineWalletSubCommand(OfflineWalletSubCommand::GetNewAddress))
    );
    assert_eq!(
        resolve_tokens(&toks(&["policies"])),
        Ok(ReplSubCommand::OfflineWalletSubCommand(OfflineWalletSubCommand::Policies))
    );
    let e = resolve_tokens(&toks(&["get_balance", "now"])).unwrap_err();
    assert_eq!(e.kind, ParseErrorKind::UnexpectedArgument);
}

#[test]
fn resolve_sign() {
    assert_eq!(
        resolve_tokens(&toks(&["sign", "--psbt", "AAA"])),
        Ok(ReplSubCommand::OfflineWalletSubCommand(OfflineWalletSubCommand::Sign {
            psbt: "AAA".to_string(),
        }))
    );
}

#[test]
fn resolve_generate_defaults_and_word_count() {
    assert_eq!(
        resolve_tokens(&toks(&["generate"])),
        Ok(ReplSubCommand::KeySubCommand(KeySubCommand::Generate {
            word_count: 24,
            password: None,
        }))
    );
    assert_eq!(
        resolve_tokens(&toks(&["generate", "-e", "12", "-p", "pw"])),
        Ok(ReplSubCommand::KeySubCommand(KeySubCommand::Generate {
            word_count: 12,
            password: Some("pw".to_string()),
        }))
    );
    let e = resolve_tokens(&toks(&["generate", "-e", "13"])).unwrap_err();
    assert_eq!(e.kind, ParseErrorKind::MalformedValue);
}

#[test]
fn resolve_derive_requires_both_flags() {
    assert_eq!(
        resolve_tokens(&toks(&["derive", "-x", "xprv9s", "-p", "m/84h/1h/0h"])),
        Ok(ReplSubCommand::KeySubCommand(KeySubCommand::Derive {
            xprv: "xprv9s".to_string(),
            path: "m/84h/1h/0h".to_string(),
        }))
    );
    let e = resolve_tokens(&toks(&["derive", "-x", "xprv9s"])).unwrap_err();
    assert_eq!(e.kind, ParseErrorKind::MissingRequiredFlag);
    assert_eq!(e.detail, "--path".to_string());
    let e = resolve_tokens(&toks(&["derive", "-p", "m/0"])).unwrap_err();
    assert_eq!(e.detail, "--xprv".to_string());
}

#[test]
fn parse_dec_exact_values() {
    assert_eq!(parse_dec("42", 255), Some(42));
    assert_eq!(parse_dec("0042", 255), Some(42));
    assert_eq!(parse_dec("0", 255), Some(0));
    assert_eq!(parse_dec("256", 255), None);
    assert_eq!(parse_dec("255", 255), Some(255));
    assert_eq!(parse_dec("", 255), None);
    assert_eq!(parse_dec("1x", 255), None);
    assert_eq!(parse_dec("4294967295", 4294967295), Some(4294967295));
    assert_eq!(parse_dec("4294967296", 4294967295), None);
}
