//! The closed command grammar: typed requests for the three handler
//! families (online wallet, offline wallet, key management) plus the
//! interactive-only `Exit` request, and the network selector.

use vstd::prelude::*;

verus! {

/// Target network for wallet and key operations.
#[derive(Clone, Copy, Debug, PartialEq, Eq, Structural)]
pub enum Network {
    Bitcoin,
    Testnet,
    Signet,
    Regtest,
}

/// Operations that need a live backend connection.
#[derive(Clone, Debug, PartialEq)]
pub enum OnlineWalletSubCommand {
    /// Synchronize the wallet with the blockchain backend.
    Sync { max_addresses: Option<u32> },
    /// Broadcast a finalized transaction held in a PSBT.
    Broadcast { psbt: String },
}

/// Operations that need only the wallet handle, no backend.
#[derive(Clone, Debug, PartialEq)]
pub enum OfflineWalletSubCommand {
    GetNewAddress,
    GetBalance,
    ListUnspent,
    ListTransactions,
    Policies,
    PublicDescriptor,
    /// Sign a PSBT with the wallet's keys.
    Sign { psbt: String },
}

/// Key-management operations; independent of any wallet session.
#[derive(Clone, Debug, PartialEq)]
pub enum KeySubCommand {
    /// Generate a fresh recovery phrase of `word_count` words.
    Generate { word_count: u8, password: Option<String> },
    /// Restore a key from a recovery phrase.
    Restore { mnemonic: String, password: Option<String> },
    /// Derive a child key from an extended private key and a path.
    Derive { xprv: String, path: String },
}

/// A fully resolved interactive request: one of the three operation
/// families, or the terminal `Exit` request.
#[derive(Clone, Debug, PartialEq)]
pub enum ReplSubCommand {
    OnlineWalletSubCommand(OnlineWalletSubCommand),
    OfflineWalletSubCommand(OfflineWalletSubCommand),
    KeySubCommand(KeySubCommand),
    Exit,
}

/// Mathematical model of `OnlineWalletSubCommand`.
pub enum OnlineCmd {
    Sync { max_addresses: Option<u32> },
    Broadcast { psbt: Seq<char> },
}

/// Mathematical model of `OfflineWalletSubCommand`.
pub enum OfflineCmd {
    GetNewAddress,
    GetBalance,
    ListUnspent,
    ListTransactions,
    Policies,
    PublicDescriptor,
    Sign { psbt: Seq<char> },
}

/// Mathematical model of `KeySubCommand`.
pub enum KeyCmd {
    Generate { word_count: u8, password: Option<Seq<char>> },
    Restore { mnemonic: Seq<char>, password: Option<Seq<char>> },
    Derive { xprv: Seq<char>, path: Seq<char> },
}

/// Mathematical model of `ReplSubCommand`.
pub enum Cmd {
    Online(OnlineCmd),
    Offline(OfflineCmd),
    Key(KeyCmd),
    Exit,
}

pub open spec fn opt_string_view(o: Option<String>) -> Option<Seq<char>> {
    match o {
        Some(s) => Some(s@),
        None => None,
    }
}

impl View for OnlineWalletSubCommand {
    type V = OnlineCmd;

    open spec fn view(&self) -> OnlineCmd {
        match self {
            OnlineWalletSubCommand::Sync { max_addresses } => OnlineCmd::Sync {
                max_addresses: *max_addresses,
            },
            OnlineWalletSubCommand::Broadcast { psbt } => OnlineCmd::Broadcast { psbt: psbt@ },
        }
    }
}

impl View for OfflineWalletSubCommand {
    type V = OfflineCmd;

    open spec fn view(&self) -> OfflineCmd {
        match self {
            OfflineWalletSubCommand::GetNewAddress => OfflineCmd::GetNewAddress,
            OfflineWalletSubCommand::GetBalance => OfflineCmd::GetBalance,
            OfflineWalletSubCommand::ListUnspent => OfflineCmd::ListUnspent,
            OfflineWalletSubCommand::ListTransactions => OfflineCmd::ListTransactions,
            OfflineWalletSubCommand::Policies => OfflineCmd::Policies,
            OfflineWalletSubCommand::PublicDescriptor => OfflineCmd::PublicDescriptor,
            OfflineWalletSubCommand::Sign { psbt } => OfflineCmd::Sign { psbt: psbt@ },
        }
    }
}

impl View for KeySubCommand {
    type V = KeyCmd;

    open spec fn view(&self) -> KeyCmd {
        match self {
            KeySubCommand::Generate { word_count, password } => KeyCmd::Generate {
                word_count: *word_count,
                password: opt_string_view(*password),
            },
            KeySubCommand::Restore { mnemonic, password } => KeyCmd::Restore {
                mnemonic: mnemonic@,
                password: opt_string_view(*password),
            },
            KeySubCommand::Derive { xprv, path } => KeyCmd::Derive {
                xprv: xprv@,
                path: path@,
            },
        }
    }
}

impl View for ReplSubCommand {
    type V = Cmd;

    open spec fn view(&self) -> Cmd {
        match self {
            ReplSubCommand::OnlineWalletSubCommand(c) => Cmd::Online(c@),
            ReplSubCommand::OfflineWalletSubCommand(c) => Cmd::Offline(c@),
            ReplSubCommand::KeySubCommand(c) => Cmd::Key(c@),
            ReplSubCommand::Exit => Cmd::Exit,
        }
    }
}

} // verus!
