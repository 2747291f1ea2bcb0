use bdk_cli::backend::BackendConfig;
use bdk_cli::backend::ElectrumOpts;
use bdk_cli::backend::EsploraOpts;
use bdk_cli::backend::WalletOpts;
use bdk_cli::backend::build_backend_config;
use bdk_cli::commands::KeySubCommand;
use bdk_cli::commands::Network;
use bdk_cli::commands::OnlineWalletSubCommand;
use bdk_cli::commands::ReplSubCommand;
use bdk_cli::resolver::ParseErrorKind;
use bdk_cli::session::DispatchError;
use bdk_cli::session::DispatchPlan;
use bdk_cli::session::HandlerFamily;
use bdk_cli::session::LineEvent;
use bdk_cli::session::Session;
use bdk_cli::session::SessionState;
use bdk_cli::session::StepAction;
use bdk_cli::session::TerminationCause;
use bdk_cli::session::WalletSession;
use bdk_cli::session::dispatch;
use bdk_cli::session::handler_family;
use bdk_cli::session::prompt;
use bdk_cli::session::termination_message;

fn wallet_opts(esplora: Option<&str>) -> WalletOpts {
    WalletOpts {
        wallet: "main".to_string(),
        descriptor: "wpkh(k)".to_string(),
        change_descriptor: None,
        electrum_opts: ElectrumOpts {
            electrum: "ssl://electrum.blockstream.info:60002".to_string(),
            proxy: None,
            retries: 5,
            timeout: None,
        },
        esplora_opts: EsploraOpts {
            esplora: esplora.map(|s| s.to_string()),
            esplora_concurrency: 4,
        },
    }
}

fn test_session() -> Session {
    Session::new(WalletSession {
        wallet_name: "main".to_string(),
        network: Network::Testnet,
        backend: build_backend_config(&wallet_opts(None)),
    })
}

#[test]
fn backend_precedence_esplora_wins() {
    let opts = wallet_opts(Some("https://blockstream.info/testnet/api"));
    let config = build_backend_config(&opts);
    assert_eq!(
        config,
        BackendConfig::Esplora {
            base_url: "https://blockstream.info/testnet/api".to_string(),
            concurrency: 4,
        }
    );
}

#[test]
fn backend_electrum_without_esplora() {
    let config = build_backend_config(&wallet_opts(None));
    assert_eq!(
        config,
        BackendConfig::Electrum {
            url: "ssl://electrum.blockstream.info:60002".to_string(),
            proxy: None,
            retry_count: 5,
            timeout: None,
        }
    );
}

#[test]
fn key_op_dispatches_identically_with_and_without_session() {
    let session = test_session();
    let req = ReplSubCommand::KeySubCommand(KeySubCommand::Generate {
        word_count: 24,
        password: None,
    });
    let with = dispatch(req.clone(), Some(&session.wallet), Network::Regtest);
    let without = dispatch(req, None, Network::Regtest);
    assert_eq!(with, without);
    assert_eq!(
        with,
        Ok(DispatchPlan::CallKey(
            Network::Regtest,
            KeySubCommand::Generate { word_count: 24, password: None }
        ))
    );
}

#[test]
fn online_op_requires_session() {
    let req = ReplSubCommand::OnlineWalletSubCommand(OnlineWalletSubCommand::Sync {
        max_addresses: None,
    });
    let r = dispatch(req, None, Network::Testnet);
    assert_eq!(r, Err(DispatchError::MissingSession(HandlerFamily::OnlineWallet)));
    let session = test_session();
    let req = ReplSubCommand::OnlineWalletSubCommand(OnlineWalletSubCommand::Sync {
        max_addresses: None,
    });
    let r = dispatch(req, Some(&session.wallet), Network::Testnet);
    assert_eq!(
        r,
        Ok(DispatchPlan::CallOnline(OnlineWalletSubCommand::Sync { max_addresses: None }))
    );
}

#[test]
fn blank_line_reprompts_without_dispatch() {
    let mut session = test_session();
    let before = session.clone();
    let action = session.step(LineEvent::Line("   \t ".to_string()));
    assert_eq!(action, StepAction::Reprompt);
    assert_eq!(session, before);
    assert_eq!(session.state, SessionState::Running);
}

#[test]
fn parse_error_leaves_session_unchanged() {
    let mut session = test_session();
    let before = session.clone();
    let action = session.step(LineEvent::Line("frobnicate the wallet".to_string()));
    match action {
        StepAction::ReportParseError(e) => {
            assert_eq!(e.kind, ParseErrorKind::UnknownCommand);
            assert_eq!(e.detail, "frobnicate".to_string());
        }
        other => panic!("expected a parse error report, got {:?}", other),
    }
    assert_eq!(session, before);
}

#[test]
fn exit_terminates_without_dispatch() {
    let mut session = test_session();
    let wallet_before = session.wallet.clone();
    let action = session.step(LineEvent::Line("  exit  ".to_string()));
    assert_eq!(action, StepAction::Terminate(TerminationCause::ExitRequested));
    assert_eq!(session.state, SessionState::Terminated(TerminationCause::ExitRequested));
    assert_eq!(session.wallet, wallet_before);
}

#[test]
fn command_line_yields_one_dispatch() {
    let mut session = test_session();
    let action = session.step(LineEvent::Line("get_balance".to_string()));
    assert_eq!(
        action,
        StepAction::Dispatch(ReplSubCommand::OfflineWalletSubCommand(
            bdk_cli::commands::OfflineWalletSubCommand::GetBalance
        ))
    );
    assert_eq!(session.state, SessionState::Running);
}

#[test]
fn interrupt_reprompts_and_end_of_input_terminates() {
    let mut session = test_session();
    assert_eq!(session.step(LineEvent::Interrupted), StepAction::Reprompt);
    assert_eq!(session.state, SessionState::Running);
    assert_eq!(
        session.step(LineEvent::EndOfInput),
        StepAction::Terminate(TerminationCause::EndOfInput)
    );
    assert_eq!(session.state, SessionState::Terminated(TerminationCause::EndOfInput));
}

#[test]
fn read_failure_terminates() {
    let mut session = test_session();
    assert_eq!(
        session.step(LineEvent::ReadFailed),
        StepAction::Terminate(TerminationCause::ReadError)
    );
    assert_eq!(session.state, SessionState::Terminated(TerminationCause::ReadError));
}

#[test]
fn handler_family_routing() {
    assert_eq!(
        handler_family(&ReplSubCommand::KeySubCommand(KeySubCommand::Generate {
            word_count: 24,
            password: None,
        })),
        Some(HandlerFamily::KeyManagement)
    );
    assert_eq!(
        handler_family(&ReplSubCommand::OnlineWalletSubCommand(OnlineWalletSubCommand::Sync {
            max_addresses: None,
        })),
        Some(HandlerFamily::OnlineWallet)
    );
    assert_eq!(handler_family(&ReplSubCommand::Exit), None);
}

#[test]
fn fixed_prompt_and_termination_message() {
    assert_eq!(prompt(), ">> ");
    assert_eq!(termination_message(), "Exiting REPL");
}
