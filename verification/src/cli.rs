//! One-shot command-line resolution: network selector, wallet selector
//! and backend flags, and exactly one operation, parsed from the process
//! argument list against the same closed grammar as the interactive
//! resolver.

use vstd::prelude::*;
use vstd::string::StringExecFns;
use crate::backend::ElectrumOptsV;
use crate::backend::EsploraOptsV;
use crate::backend::ElectrumOpts;
use crate::backend::EsploraOpts;
use crate::backend::WalletOpts;
use crate::backend::WalletOptsV;
use crate::commands::Cmd;
use crate::commands::KeyCmd;
use crate::commands::KeySubCommand;
use crate::commands::Network;
use crate::commands::OfflineCmd;
use crate::commands::OfflineWalletSubCommand;
use crate::commands::OnlineCmd;
use crate::commands::OnlineWalletSubCommand;
use crate::commands::ReplSubCommand;
use crate::resolver::ParseErrV;
use crate::resolver::ParseError;
use crate::resolver::ParseErrorKind;
use crate::resolver::dec_digits;
use crate::resolver::dec_val;
use crate::resolver::key_op_spec;
use crate::resolver::parse_dec;
use crate::resolver::parse_key_op;
use crate::resolver::parse_wallet_op;
use crate::resolver::str_eq;
use crate::resolver::wallet_op_spec;

verus! {

/// A wallet operation of either kind, as the one-shot grammar nests it.
#[derive(Clone, Debug, PartialEq)]
pub enum WalletSubCommand {
    OnlineWalletSubCommand(OnlineWalletSubCommand),
    OfflineWalletSubCommand(OfflineWalletSubCommand),
}

/// Mathematical model of `WalletSubCommand`.
pub enum WalletSubCommandV {
    Online(OnlineCmd),
    Offline(OfflineCmd),
}

impl View for WalletSubCommand {
    type V = WalletSubCommandV;

    open spec fn view(&self) -> WalletSubCommandV {
        match self {
            WalletSubCommand::OnlineWalletSubCommand(o) => WalletSubCommandV::Online(o@),
            WalletSubCommand::OfflineWalletSubCommand(f) => WalletSubCommandV::Offline(f@),
        }
    }
}

/// The one-shot subcommand: a wallet operation, a key operation, or
/// entry into the interactive session.
#[derive(Clone, Debug, PartialEq)]
pub enum CliSubCommand {
    Wallet { wallet_opts: WalletOpts, subcommand: WalletSubCommand },
    Key { subcommand: KeySubCommand },
    Repl { wallet_opts: WalletOpts },
}

/// Mathematical model of `CliSubCommand`.
pub enum CliSubCommandV {
    Wallet { wallet_opts: WalletOptsV, subcommand: WalletSubCommandV },
    Key { subcommand: KeyCmd },
    Repl { wallet_opts: WalletOptsV },
}

impl View for CliSubCommand {
    type V = CliSubCommandV;

    open spec fn view(&self) -> CliSubCommandV {
        match self {
            CliSubCommand::Wallet { wallet_opts, subcommand } => CliSubCommandV::Wallet {
                wallet_opts: wallet_opts@,
                subcommand: subcommand@,
            },
            CliSubCommand::Key { subcommand } => CliSubCommandV::Key { subcommand: subcommand@ },
            CliSubCommand::Repl { wallet_opts } => CliSubCommandV::Repl {
                wallet_opts: wallet_opts@,
            },
        }
    }
}

/// A fully resolved one-shot invocation.
#[derive(Clone, Debug, PartialEq)]
pub struct CliOpts {
    pub network: Network,
    pub subcommand: CliSubCommand,
}

/// Mathematical model of `CliOpts`.
pub struct CliOptsV {
    pub network: Network,
    pub subcommand: CliSubCommandV,
}

impl View for CliOpts {
    type V = CliOptsV;

    open spec fn view(&self) -> CliOptsV {
        CliOptsV { network: self.network, subcommand: self.subcommand@ }
    }
}

/// The network a name denotes.
pub open spec fn network_of_name(s: Seq<char>) -> Option<Network> {
    if s == "bitcoin"@ {
        Some(Network::Bitcoin)
    } else if s == "testnet"@ {
        Some(Network::Testnet)
    } else if s == "signet"@ {
        Some(Network::Signet)
    } else if s == "regtest"@ {
        Some(Network::Regtest)
    } else {
        None
    }
}

/// Parse a network name.
pub fn parse_network(t: &str) -> (r: Option<Network>)
    ensures
        r == network_of_name(t@),
{
    if str_eq(t, "bitcoin") {
        Some(Network::Bitcoin)
    } else if str_eq(t, "testnet") {
        Some(Network::Testnet)
    } else if str_eq(t, "signet") {
        Some(Network::Signet)
    } else if str_eq(t, "regtest") {
        Some(Network::Regtest)
    } else {
        None
    }
}

/// Leading `-n <network>` flags: the selected network (default testnet)
/// and the index where the subcommand begins.
pub open spec fn cli_network_args(ts: Seq<Seq<char>>, i: int, net: Option<Network>) -> Result<
    (Network, int),
    ParseErrV,
>
    decreases ts.len() - i,
{
    if i >= ts.len() {
        Ok(
            (
                match net {
                    Some(n) => n,
                    None => Network::Testnet,
                },
                i,
            ),
        )
    } else if ts[i] == "-n"@ || ts[i] == "--network"@ {
        if i + 1 >= ts.len() {
            Err(ParseErrV { kind: ParseErrorKind::MissingFlagValue, detail: ts[i] })
        } else if net is Some {
            Err(ParseErrV { kind: ParseErrorKind::DuplicateFlag, detail: ts[i] })
        } else {
            match network_of_name(ts[i + 1]) {
                Some(n) => cli_network_args(ts, i + 2, Some(n)),
                None => Err(ParseErrV { kind: ParseErrorKind::MalformedValue, detail: ts[i + 1] }),
            }
        }
    } else {
        Ok(
            (
                match net {
                    Some(n) => n,
                    None => Network::Testnet,
                },
                i,
            ),
        )
    }
}

/// Accumulated wallet-option flags, each `None` until supplied.
pub struct WalletOptsAcc {
    pub wallet: Option<Seq<char>>,
    pub descriptor: Option<Seq<char>>,
    pub change_descriptor: Option<Seq<char>>,
    pub server: Option<Seq<char>>,
    pub proxy: Option<Seq<char>>,
    pub retries: Option<u8>,
    pub timeout: Option<u8>,
    pub esplora: Option<Seq<char>>,
    pub conc: Option<u8>,
}

pub open spec fn empty_wallet_acc() -> WalletOptsAcc {
    WalletOptsAcc {
        wallet: None,
        descriptor: None,
        change_descriptor: None,
        server: None,
        proxy: None,
        retries: None,
        timeout: None,
        esplora: None,
        conc: None,
    }
}

/// Close the wallet-option flags: the descriptor is required, every
/// other option falls back to its default.
pub open spec fn finish_wallet_opts(acc: WalletOptsAcc, i: int) -> Result<
    (WalletOptsV, int),
    ParseErrV,
> {
    match acc.descriptor {
        None => Err(ParseErrV { kind: ParseErrorKind::MissingRequiredFlag, detail: "--descriptor"@ }),
        Some(d) => Ok(
            (
                WalletOptsV {
                    wallet: match acc.wallet {
                        Some(w) => w,
                        None => "main"@,
                    },
                    descriptor: d,
                    change_descriptor: acc.change_descriptor,
                    electrum_opts: ElectrumOptsV {
                        electrum: match acc.server {
                            Some(s) => s,
                            None => "ssl://electrum.blockstream.info:60002"@,
                        },
                        proxy: acc.proxy,
                        retries: match acc.retries {
                            Some(r) => r,
                            None => 5,
                        },
                        timeout: acc.timeout,
                    },
                    esplora_opts: EsploraOptsV {
                        esplora: acc.esplora,
                        esplora_concurrency: match acc.conc {
                            Some(c) => c,
                            None => 4,
                        },
                    },
                },
                i,
            ),
        ),
    }
}

/// Wallet-option flags from index `i` up to the first token that is not
/// one of them: the finished options and the index where they end.
pub open spec fn wallet_opts_args(ts: Seq<Seq<char>>, i: int, acc: WalletOptsAcc) -> Result<
    (WalletOptsV, int),
    ParseErrV,
>
    decreases ts.len() - i,
{
    if i >= ts.len() {
        finish_wallet_opts(acc, i)
    } else if ts[i] == "-w"@ || ts[i] == "--wallet"@ {
        if i + 1 >= ts.len() {
            Err(ParseErrV { kind: ParseErrorKind::MissingFlagValue, detail: ts[i] })
        } else if acc.wallet is Some {
            Err(ParseErrV { kind: ParseErrorKind::DuplicateFlag, detail: ts[i] })
        } else {
            wallet_opts_args(ts, i + 2, WalletOptsAcc { wallet: Some(ts[i + 1]), ..acc })
        }
    } else if ts[i] == "-d"@ || ts[i] == "--descriptor"@ {
        if i + 1 >= ts.len() {
            Err(ParseErrV { kind: ParseErrorKind::MissingFlagValue, detail: ts[i] })
        } else if acc.descriptor is Some {
            Err(ParseErrV { kind: ParseErrorKind::DuplicateFlag, detail: ts[i] })
        } else {
            wallet_opts_args(ts, i + 2, WalletOptsAcc { descriptor: Some(ts[i + 1]), ..acc })
        }
    } else if ts[i] == "-c"@ || ts[i] == "--change-descriptor"@ {
        if i + 1 >= ts.len() {
            Err(ParseErrV { kind: ParseErrorKind::MissingFlagValue, detail: ts[i] })
        } else if acc.change_descriptor is Some {
            Err(ParseErrV { kind: ParseErrorKind::DuplicateFlag, detail: ts[i] })
        } else {
            wallet_opts_args(
                ts,
                i + 2,
                WalletOptsAcc { change_descriptor: Some(ts[i + 1]), ..acc },
            )
        }
    } else if ts[i] == "-s"@ || ts[i] == "--server"@ {
        if i + 1 >= ts.len() {
            Err(ParseErrV { kind: ParseErrorKind::MissingFlagValue, detail: ts[i] })
        } else if acc.server is Some {
            Err(ParseErrV { kind: ParseErrorKind::DuplicateFlag, detail: ts[i] })
        } else {
            wallet_opts_args(ts, i + 2, WalletOptsAcc { server: Some(ts[i + 1]), ..acc })
        }
    } else if ts[i] == "-p"@ || ts[i] == "--proxy"@ {
        if i + 1 >= ts.len() {
            Err(ParseErrV { kind: ParseErrorKind::MissingFlagValue, detail: ts[i] })
        } else if acc.proxy is Some {
            Err(ParseErrV { kind: ParseErrorKind::DuplicateFlag, detail: ts[i] })
        } else {
            wallet_opts_args(ts, i + 2, WalletOptsAcc { proxy: Some(ts[i + 1]), ..acc })
        }
    } else if ts[i] == "-r"@ || ts[i] == "--retries"@ {
        if i + 1 >= ts.len() {
            Err(ParseErrV { kind: ParseErrorKind::MissingFlagValue, detail: ts[i] })
        } else if acc.retries is Some {
            Err(ParseErrV { kind: ParseErrorKind::DuplicateFlag, detail: ts[i] })
        } else if !(dec_digits(ts[i + 1]) && dec_val(ts[i + 1]) <= 255) {
            Err(ParseErrV { kind: ParseErrorKind::MalformedValue, detail: ts[i + 1] })
        } else {
            wallet_opts_args(
                ts,
                i + 2,
                WalletOptsAcc { retries: Some(dec_val(ts[i + 1]) as u8), ..acc },
            )
        }
    } else if ts[i] == "-t"@ || ts[i] == "--timeout"@ {
        if i + 1 >= ts.len() {
            Err(ParseErrV { kind: ParseErrorKind::MissingFlagValue, detail: ts[i] })
        } else if acc.timeout is Some {
            Err(ParseErrV { kind: ParseErrorKind::DuplicateFlag, detail: ts[i] })
        } else if !(dec_digits(ts[i + 1]) && dec_val(ts[i + 1]) <= 255) {
            Err(ParseErrV { kind: ParseErrorKind::MalformedValue, detail: ts[i + 1] })
        } else {
            wallet_opts_args(
                ts,
                i + 2,
                WalletOptsAcc { timeout: Some(dec_val(ts[i + 1]) as u8), ..acc },
            )
        }
    } else if ts[i] == "-e"@ || ts[i] == "--esplora"@ {
        if i + 1 >= ts.len() {
            Err(ParseErrV { kind: ParseErrorKind::MissingFlagValue, detail: ts[i] })
        } else if acc.esplora is Some {
            Err(ParseErrV { kind: ParseErrorKind::DuplicateFlag, detail: ts[i] })
        } else {
            wallet_opts_args(ts, i + 2, WalletOptsAcc { esplora: Some(ts[i + 1]), ..acc })
        }
    } else if ts[i] == "--conc"@ {
        if i + 1 >= ts.len() {
            Err(ParseErrV { kind: ParseErrorKind::MissingFlagValue, detail: ts[i] })
        } else if acc.conc is Some {
            Err(ParseErrV { kind: ParseErrorKind::DuplicateFlag, detail: ts[i] })
        } else if !(dec_digits(ts[i + 1]) && dec_val(ts[i + 1]) <= 255) {
            Err(ParseErrV { kind: ParseErrorKind::MalformedValue, detail: ts[i + 1] })
        } else {
            wallet_opts_args(ts, i + 2, WalletOptsAcc { conc: Some(dec_val(ts[i + 1]) as u8), ..acc })
        }
    } else {
        finish_wallet_opts(acc, i)
    }
}

/// The complete one-shot grammar: network flags, then `wallet`, `key`
/// or `repl`, each with its own operation grammar.
pub open spec fn resolve_cli_spec(ts: Seq<Seq<char>>) -> Result<CliOptsV, ParseErrV> {
    match cli_network_args(ts, 0, None) {
        Err(e) => Err(e),
        Ok((net, i)) => {
            if i >= ts.len() {
                Err(ParseErrV { kind: ParseErrorKind::EmptyCommand, detail: Seq::empty() })
            } else if ts[i] == "wallet"@ {
                match wallet_opts_args(ts, i + 1, empty_wallet_acc()) {
                    Err(e) => Err(e),
                    Ok((w, j)) => match wallet_op_spec(ts, j) {
                        Ok(Cmd::Online(o)) => Ok(
                            CliOptsV {
                                network: net,
                                subcommand: CliSubCommandV::Wallet {
                                    wallet_opts: w,
                                    subcommand: WalletSubCommandV::Online(o),
                                },
                            },
                        ),
                        Ok(Cmd::Offline(f)) => Ok(
                            CliOptsV {
                                network: net,
                                subcommand: CliSubCommandV::Wallet {
                                    wallet_opts: w,
                                    subcommand: WalletSubCommandV::Offline(f),
                                },
                            },
                        ),
                        Ok(_) => Err(
                            ParseErrV {
                                kind: ParseErrorKind::UnknownCommand,
                                detail: if j < ts.len() {
                                    ts[j]
                                } else {
                                    Seq::empty()
                                },
                            },
                        ),
                        Err(e) => Err(e),
                    },
                }
            } else if ts[i] == "repl"@ {
                match wallet_opts_args(ts, i + 1, empty_wallet_acc()) {
                    Err(e) => Err(e),
                    Ok((w, j)) => if j >= ts.len() {
                        Ok(
                            CliOptsV {
                                network: net,
                                subcommand: CliSubCommandV::Repl { wallet_opts: w },
                            },
                        )
                    } else {
                        Err(
                            ParseErrV {
                                kind: ParseErrorKind::UnexpectedArgument,
                                detail: ts[j],
                            },
                        )
                    },
                }
            } else if ts[i] == "key"@ {
                match key_op_spec(ts, i + 1) {
                    Ok(Cmd::Key(k)) => Ok(
                        CliOptsV { network: net, subcommand: CliSubCommandV::Key { subcommand: k } },
                    ),
                    Ok(_) => Err(
                        ParseErrV {
                            kind: ParseErrorKind::UnknownCommand,
                            detail: if i + 1 < ts.len() {
                                ts[i + 1]
                            } else {
                                Seq::empty()
                            },
                        },
                    ),
                    Err(e) => Err(e),
                }
            } else {
                Err(ParseErrV { kind: ParseErrorKind::UnknownCommand, detail: ts[i] })
            }
        },
    }
}

/// Wallet-option flags, starting at `start`.
fn parse_wallet_opts(tokens: &Vec<String>, start: usize) -> (r: Result<(WalletOpts, usize), ParseError>)
    requires
        start <= tokens@.len(),
    ensures
        match r {
            Ok(p) => wallet_opts_args(tokens.deep_view(), start as int, empty_wallet_acc())
                == Ok::<(WalletOptsV, int), ParseErrV>((p.0@, p.1 as int)) && p.1 <= tokens@.len(),
            Err(e) => wallet_opts_args(tokens.deep_view(), start as int, empty_wallet_acc())
                == Err::<(WalletOptsV, int), ParseErrV>(e@),
        },
{
    let ghost tsv = tokens.deep_view();
    let mut wallet: Option<String> = None;
    let mut descriptor: Option<String> = None;
    let mut change_descriptor: Option<String> = None;
    let mut server: Option<String> = None;
    let mut proxy: Option<String> = None;
    let mut retries: Option<u8> = None;
    let mut timeout: Option<u8> = None;
    let mut esplora: Option<String> = None;
    let mut conc: Option<u8> = None;
    let mut i: usize = start;
    let ghost acc0 = empty_wallet_acc();
    while i < tokens.len()
        invariant
            tsv == tokens.deep_view(),
            tsv.len() == tokens@.len(),
            start <= tokens@.len(),
            i <= tokens@.len(),
            wallet_opts_args(tsv, start as int, acc0) == wallet_opts_args(
                tsv,
                i as int,
                WalletOptsAcc {
                    wallet: crate::commands::opt_string_view(wallet),
                    descriptor: crate::commands::opt_string_view(descriptor),
                    change_descriptor: crate::commands::opt_string_view(change_descriptor),
                    server: crate::commands::opt_string_view(server),
                    proxy: crate::commands::opt_string_view(proxy),
                    retries,
                    timeout,
                    esplora: crate::commands::opt_string_view(esplora),
                    conc,
                },
            ),
            acc0 == empty_wallet_acc(),
        ensures
            tsv.len() == tokens@.len(),
            i <= tokens@.len(),
            wallet_opts_args(tsv, start as int, acc0) == wallet_opts_args(
                tsv,
                i as int,
                WalletOptsAcc {
                    wallet: crate::commands::opt_string_view(wallet),
                    descriptor: crate::commands::opt_string_view(descriptor),
                    change_descriptor: crate::commands::opt_string_view(change_descriptor),
                    server: crate::commands::opt_string_view(server),
                    proxy: crate::commands::opt_string_view(proxy),
                    retries,
                    timeout,
                    esplora: crate::commands::opt_string_view(esplora),
                    conc,
                },
            ),
            i >= tokens@.len() || !(tsv[i as int] == "-w"@ || tsv[i as int] == "--wallet"@
                || tsv[i as int] == "-d"@ || tsv[i as int] == "--descriptor"@
                || tsv[i as int] == "-c"@ || tsv[i as int] == "--change-descriptor"@
                || tsv[i as int] == "-s"@ || tsv[i as int] == "--server"@
                || tsv[i as int] == "-p"@ || tsv[i as int] == "--proxy"@
                || tsv[i as int] == "-r"@ || tsv[i as int] == "--retries"@
                || tsv[i as int] == "-t"@ || tsv[i as int] == "--timeout"@
                || tsv[i as int] == "-e"@ || tsv[i as int] == "--esplora"@
                || tsv[i as int] == "--conc"@),
        decreases tokens@.len() - i,
    {
        let tok: &String = &tokens[i];
        proof {
            assert(tsv[i as int] == tokens@[i as int]@);
        }
        let is_val_flag = str_eq(tok.as_str(), "-w") || str_eq(tok.as_str(), "--wallet")
            || str_eq(tok.as_str(), "-d") || str_eq(tok.as_str(), "--descriptor")
            || str_eq(tok.as_str(), "-c") || str_eq(tok.as_str(), "--change-descriptor")
            || str_eq(tok.as_str(), "-s") || str_eq(tok.as_str(), "--server")
            || str_eq(tok.as_str(), "-p") || str_eq(tok.as_str(), "--proxy")
            || str_eq(tok.as_str(), "-r") || str_eq(tok.as_str(), "--retries")
            || str_eq(tok.as_str(), "-t") || str_eq(tok.as_str(), "--timeout")
            || str_eq(tok.as_str(), "-e") || str_eq(tok.as_str(), "--esplora")
            || str_eq(tok.as_str(), "--conc");
        if !is_val_flag {
            break;
        }
        if i + 1 >= tokens.len() {
            return Err(ParseError::new(ParseErrorKind::MissingFlagValue, tok.clone()));
        }
        let v: &String = &tokens[i + 1];
        proof {
            assert(tsv[i as int + 1] == tokens@[i as int + 1]@);
        }
        if str_eq(tok.as_str(), "-w") || str_eq(tok.as_str(), "--wallet") {
            if wallet.is_some() {
                return Err(ParseError::new(ParseErrorKind::DuplicateFlag, tok.clone()));
            }
            wallet = Some(v.clone());
        } else if str_eq(tok.as_str(), "-d") || str_eq(tok.as_str(), "--descriptor") {
            if descriptor.is_some() {
                return Err(ParseError::new(ParseErrorKind::DuplicateFlag, tok.clone()));
            }
            descriptor = Some(v.clone());
        } else if str_eq(tok.as_str(), "-c") || str_eq(tok.as_str(), "--change-descriptor") {
            if change_descriptor.is_some() {
                return Err(ParseError::new(ParseErrorKind::DuplicateFlag, tok.clone()));
            }
            change_descriptor = Some(v.clone());
        } else if str_eq(tok.as_str(), "-s") || str_eq(tok.as_str(), "--server") {
            if server.is_some() {
                return Err(ParseError::new(ParseErrorKind::DuplicateFlag, tok.clone()));
            }
            server = Some(v.clone());
        } else if str_eq(tok.as_str(), "-p") || str_eq(tok.as_str(), "--proxy") {
            if proxy.is_some() {
                return Err(ParseError::new(ParseErrorKind::DuplicateFlag, tok.clone()));
            }
            proxy = Some(v.clone());
        } else if str_eq(tok.as_str(), "-r") || str_eq(tok.as_str(), "--retries") {
            if retries.is_some() {
                return Err(ParseError::new(ParseErrorKind::DuplicateFlag, tok.clone()));
            }
            match parse_dec(v.as_str(), 255) {
                Some(n) => {
                    retries = Some(n as u8);
                },
                None => {
                    return Err(ParseError::new(ParseErrorKind::MalformedValue, v.clone()));
                },
            }
        } else if str_eq(tok.as_str(), "-t") || str_eq(tok.as_str(), "--timeout") {
            if timeout.is_some() {
                return Err(ParseError::new(ParseErrorKind::DuplicateFlag, tok.clone()));
            }
            match parse_dec(v.as_str(), 255) {
                Some(n) => {
                    timeout = Some(n as u8);
                },
                None => {
                    return Err(ParseError::new(ParseErrorKind::MalformedValue, v.clone()));
                },
            }
        } else if str_eq(tok.as_str(), "-e") || str_eq(tok.as_str(), "--esplora") {
            if esplora.is_some() {
                return Err(ParseError::new(ParseErrorKind::DuplicateFlag, tok.clone()));
            }
            esplora = Some(v.clone());
        } else {
            if conc.is_some() {
                return Err(ParseError::new(ParseErrorKind::DuplicateFlag, tok.clone()));
            }
            match parse_dec(v.as_str(), 255) {
                Some(n) => {
                    conc = Some(n as u8);
                },
                None => {
                    return Err(ParseError::new(ParseErrorKind::MalformedValue, v.clone()));
                },
            }
        }
        i = i + 2;
    }
    let d = match descriptor {
        Some(d) => d,
        None => {
            return Err(
                ParseError::new(ParseErrorKind::MissingRequiredFlag, String::from_str("--descriptor")),
            );
        },
    };
    let w = WalletOpts {
        wallet: match wallet {
            Some(w) => w,
            None => String::from_str("main"),
        },
        descriptor: d,
        change_descriptor,
        electrum_opts: ElectrumOpts {
            electrum: match server {
                Some(s) => s,
                None => String::from_str("ssl://electrum.blockstream.info:60002"),
            },
            proxy,
            retries: match retries {
                Some(r) => r,
                None => 5,
            },
            timeout,
        },
        esplora_opts: EsploraOpts {
            esplora,
            esplora_concurrency: match conc {
                Some(c) => c,
                None => 4,
            },
        },
    };
    Ok((w, i))
}

/// Resolve one process argument list (program name excluded) against
/// the one-shot grammar.
pub fn resolve_cli(args: &Vec<String>) -> (r: Result<CliOpts, ParseError>)
    ensures
        match r {
            Ok(c) => resolve_cli_spec(args.deep_view()) == Ok::<CliOptsV, ParseErrV>(c@),
            Err(e) => resolve_cli_spec(args.deep_view()) == Err::<CliOptsV, ParseErrV>(e@),
        },
{
    let ghost tsv = args.deep_view();
    let mut net: Option<Network> = None;
    let mut i: usize = 0;
    while i < args.len()
        invariant
            tsv == args.deep_view(),
            tsv.len() == args@.len(),
            i <= args@.len(),
            cli_network_args(tsv, 0, None) == cli_network_args(tsv, i as int, net),
        ensures
            tsv.len() == args@.len(),
            i <= args@.len(),
            cli_network_args(tsv, 0, None) == cli_network_args(tsv, i as int, net),
            i >= args@.len() || !(tsv[i as int] == "-n"@ || tsv[i as int] == "--network"@),
        decreases args@.len() - i,
    {
        let tok: &String = &args[i];
        proof {
            assert(tsv[i as int] == args@[i as int]@);
        }
        if str_eq(tok.as_str(), "-n") || str_eq(tok.as_str(), "--network") {
            if i + 1 >= args.len() {
                return Err(ParseError::new(ParseErrorKind::MissingFlagValue, tok.clone()));
            }
            if net.is_some() {
                return Err(ParseError::new(ParseErrorKind::DuplicateFlag, tok.clone()));
            }
            let v: &String = &args[i + 1];
            proof {
                assert(tsv[i as int + 1] == args@[i as int + 1]@);
            }
            match parse_network(v.as_str()) {
                Some(n) => {
                    net = Some(n);
                    i = i + 2;
                },
                None => {
                    return Err(ParseError::new(ParseErrorKind::MalformedValue, v.clone()));
                },
            }
        } else {
            break;
        }
    }
    let network: Network = match net {
        Some(n) => n,
        None => Network::Testnet,
    };
    if i >= args.len() {
        return Err(ParseError::new(ParseErrorKind::EmptyCommand, String::new()));
    }
    let head: &String = &args[i];
    proof {
        assert(tsv[i as int] == args@[i as int]@);
    }
    if str_eq(head.as_str(), "wallet") {
        let (wopts, j) = match parse_wallet_opts(args, i + 1) {
            Ok(p) => p,
            Err(e) => {
                return Err(e);
            },
        };
        match parse_wallet_op(args, j) {
            Ok(cmd) => match cmd {
                ReplSubCommand::OnlineWalletSubCommand(o) => Ok(
                    CliOpts {
                        network,
                        subcommand: CliSubCommand::Wallet {
                            wallet_opts: wopts,
                            subcommand: WalletSubCommand::OnlineWalletSubCommand(o),
                        },
                    },
                ),
                ReplSubCommand::OfflineWalletSubCommand(f) => Ok(
                    CliOpts {
                        network,
                        subcommand: CliSubCommand::Wallet {
                            wallet_opts: wopts,
                            subcommand: WalletSubCommand::OfflineWalletSubCommand(f),
                        },
                    },
                ),
                _ => {
                    let detail = if j < args.len() {
                        proof {
                            assert(tsv[j as int] == args@[j as int]@);
                        }
                        args[j].clone()
                    } else {
                        String::new()
                    };
                    Err(ParseError::new(ParseErrorKind::UnknownCommand, detail))
                },
            },
            Err(e) => Err(e),
        }
    } else if str_eq(head.as_str(), "repl") {
        let (wopts, j) = match parse_wallet_opts(args, i + 1) {
            Ok(p) => p,
            Err(e) => {
                return Err(e);
            },
        };
        if j >= args.len() {
            Ok(CliOpts { network, subcommand: CliSubCommand::Repl { wallet_opts: wopts } })
        } else {
            proof {
                assert(tsv[j as int] == args@[j as int]@);
            }
            Err(ParseError::new(ParseErrorKind::UnexpectedArgument, args[j].clone()))
        }
    } else if str_eq(head.as_str(), "key") {
        match parse_key_op(args, i + 1) {
            Ok(cmd) => match cmd {
                ReplSubCommand::KeySubCommand(k) => Ok(
                    CliOpts { network, subcommand: CliSubCommand::Key { subcommand: k } },
                ),
                _ => {
                    let detail = if i + 1 < args.len() {
                        proof {
                            assert(tsv[i as int + 1] == args@[i as int + 1]@);
                        }
                        args[i + 1].clone()
                    } else {
                        String::new()
                    };
                    Err(ParseError::new(ParseErrorKind::UnknownCommand, detail))
                },
            },
            Err(e) => Err(e),
        }
    } else {
        Err(ParseError::new(ParseErrorKind::UnknownCommand, head.clone()))
    }
}

} // verus!
