use bdk_cli::backend::BackendConfig;
use bdk_cli::backend::build_backend_config;
use bdk_cli::cli::CliOpts;
use bdk_cli::cli::CliSubCommand;
use bdk_cli::cli::WalletSubCommand;
use bdk_cli::cli::resolve_cli;
use bdk_cli::commands::KeySubCommand;
use bdk_cli::commands::Network;
use bdk_cli::commands::OfflineWalletSubCommand;
use bdk_cli::commands::OnlineWalletSubCommand;
use bdk_cli::resolver::ParseErrorKind;

fn args(words: &[&str]) -> Vec<String> {
    words.iter().map(|w| w.to_string()).collect()
}

#[test]
fn cli_key_op_with_network() {
    let r = resolve_cli(&args(&["-n", "regtest", "key", "generate"])).unwrap();
    assert_eq!(r.network, Network::Regtest);
    assert_eq!(
        r.subcommand,
        CliSubCommand::Key {
            subcommand: KeySubCommand::Generate { word_count: 24, password: None },
        }
    );
}

#[test]
fn cli_network_defaults_to_testnet() {
    let r = resolve_cli(&args(&["key", "generate"])).unwrap();
    assert_eq!(r.network, Network::Testnet);
}

#[test]
fn cli_bad_network_name() {
    let e = resolve_cli(&args(&["-n", "nowhere", "key", "generate"])).unwrap_err();
    assert_eq!(e.kind, ParseErrorKind::MalformedValue);
    assert_eq!(e.detail, "nowhere".to_string());
}

#[test]
fn cli_wallet_offline_op_with_defaults() {
    let r = resolve_cli(&args(&["wallet", "-d", "wpkh(k)", "get_balance"])).unwrap();
    match r {
        CliOpts {
            network: Network::Testnet,
            subcommand: CliSubCommand::Wallet { wallet_opts, subcommand },
        } => {
            assert_eq!(wallet_opts.wallet, "main".to_string());
            assert_eq!(wallet_opts.descriptor, "wpkh(k)".to_string());
            assert_eq!(wallet_opts.change_descriptor, None);
            assert_eq!(
                wallet_opts.electrum_opts.electrum,
                "ssl://electrum.blockstream.info:60002".to_string()
            );
            assert_eq!(wallet_opts.electrum_opts.retries, 5);
            assert_eq!(wallet_opts.esplora_opts.esplora, None);
            assert_eq!(wallet_opts.esplora_opts.esplora_concurrency, 4);
            assert_eq!(
                subcommand,
                WalletSubCommand::OfflineWalletSubCommand(OfflineWalletSubCommand::GetBalance)
            );
        }
        other => panic!("unexpected resolution: {:?}", other),
    }
}

#[test]
fn cli_wallet_esplora_flag_wins_in_backend_config() {
    let r = resolve_cli(&args(&[
        "wallet", "-d", "wpkh(k)", "-s", "ssl://my.server:50002", "-e",
        "https://blockstream.info/api", "sync",
    ]))
    .unwrap();
    match r.subcommand {
        CliSubCommand::Wallet { wallet_opts, subcommand } => {
            assert_eq!(
                subcommand,
                WalletSubCommand::OnlineWalletSubCommand(OnlineWalletSubCommand::Sync {
                    max_addresses: None,
                })
            );
            let config = build_backend_config(&wallet_opts);
            assert_eq!(
                config,
                BackendConfig::Esplora {
                    base_url: "https://blockstream.info/api".to_string(),
                    concurrency: 4,
                }
            );
        }
        other => panic!("unexpected resolution: {:?}", other),
    }
}

#[test]
fn cli_repl_subcommand() {
    let r = resolve_cli(&args(&["repl", "-d", "wpkh(k)", "-w", "mywallet"])).unwrap();
    match r.subcommand {
        CliSubCommand::Repl { wallet_opts } => {
            assert_eq!(wallet_opts.wallet, "mywallet".to_string());
        }
        other => panic!("unexpected resolution: {:?}", other),
    }
}

#[test]
fn cli_wallet_missing_descriptor() {
    let e = resolve_cli(&args(&["wallet", "get_balance"])).unwrap_err();
    assert_eq!(e.kind, ParseErrorKind::MissingRequiredFlag);
    let e = resolve_cli(&args(&["wallet", "-w", "w1", "-r", "3"])).unwrap_err();
    assert_eq!(e.kind, ParseErrorKind::MissingRequiredFlag);
    assert_eq!(e.detail, "--descriptor".to_string());
}

#[test]
fn cli_empty_and_unknown() {
    assert_eq!(resolve_cli(&Vec::new()).unwrap_err().kind, ParseErrorKind::EmptyCommand);
    let e = resolve_cli(&args(&["walet"])).unwrap_err();
    assert_eq!(e.kind, ParseErrorKind::UnknownCommand);
    assert_eq!(e.detail, "walet".to_string());
}

#[test]
fn cli_repl_rejects_trailing_tokens() {
    let e = resolve_cli(&args(&["repl", "-d", "wpkh(k)", "extra"])).unwrap_err();
    assert_eq!(e.kind, ParseErrorKind::UnexpectedArgument);
    assert_eq!(e.detail, "extra".to_string());
}

#[test]
fn cli_wallet_numeric_options() {
    let r = resolve_cli(&args(&[
        "wallet", "-d", "wpkh(k)", "-r", "8", "-t", "30", "--conc", "2", "sync",
    ]))
    .unwrap();
    match r.subcommand {
        CliSubCommand::Wallet { wallet_opts, .. } => {
            assert_eq!(wallet_opts.electrum_opts.retries, 8);
            assert_eq!(wallet_opts.electrum_opts.timeout, Some(30));
            assert_eq!(wallet_opts.esplora_opts.esplora_concurrency, 2);
        }
        other => panic!("unexpected resolution: {:?}", other),
    }
}
