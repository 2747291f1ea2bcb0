//! Command resolver: parses a token sequence against the closed command
//! grammar and yields a fully populated request, or a structured parse
//! error. Resolution is total and side-effect free.

use vstd::prelude::*;
use vstd::string::StrSliceExecFns;
use vstd::string::StringExecFns;
use crate::commands::Cmd;
use crate::commands::KeyCmd;
use crate::commands::KeySubCommand;
use crate::commands::OfflineCmd;
use crate::commands::OfflineWalletSubCommand;
use crate::commands::OnlineCmd;
use crate::commands::OnlineWalletSubCommand;
use crate::commands::ReplSubCommand;
use crate::commands::opt_string_view;

verus! {

/// The ways a command line can fail to resolve.
#[derive(Clone, Copy, Debug, PartialEq, Eq, Structural)]
pub enum ParseErrorKind {
    EmptyCommand,
    UnknownCommand,
    UnexpectedArgument,
    UnknownFlag,
    MissingFlagValue,
    DuplicateFlag,
    MissingRequiredFlag,
    MalformedValue,
}

/// Mathematical model of a parse error.
pub struct ParseErrV {
    pub kind: ParseErrorKind,
    pub detail: Seq<char>,
}

/// A structured parse failure: its kind, and the offending token or flag
/// (empty when there is none), from which a human-readable message is
/// rendered without re-deriving anything.
#[derive(Clone, Debug, PartialEq)]
pub struct ParseError {
    pub kind: ParseErrorKind,
    pub detail: String,
}

impl View for ParseError {
    type V = ParseErrV;

    open spec fn view(&self) -> ParseErrV {
        ParseErrV { kind: self.kind, detail: self.detail@ }
    }
}

/// The fixed message prefix for each error kind.
pub open spec fn kind_text(k: ParseErrorKind) -> Seq<char> {
    match k {
        ParseErrorKind::EmptyCommand => "empty command"@,
        ParseErrorKind::UnknownCommand => "unknown command: "@,
        ParseErrorKind::UnexpectedArgument => "unexpected argument: "@,
        ParseErrorKind::UnknownFlag => "unknown flag: "@,
        ParseErrorKind::MissingFlagValue => "missing value for flag: "@,
        ParseErrorKind::DuplicateFlag => "duplicate flag: "@,
        ParseErrorKind::MissingRequiredFlag => "missing required flag: "@,
        ParseErrorKind::MalformedValue => "malformed value: "@,
    }
}

impl ParseError {
    pub fn new(kind: ParseErrorKind, detail: String) -> (r: ParseError)
        ensures
            r@ == (ParseErrV { kind, detail: detail@ }),
    {
        ParseError { kind, detail }
    }

    /// The human-readable message: the kind's fixed prefix followed by
    /// the offending token.
    pub fn message(&self) -> (r: String)
        ensures
            r@ == kind_text(self.kind) + self.detail@,
    {
        let mut s = match self.kind {
            ParseErrorKind::EmptyCommand => String::from_str("empty command"),
            ParseErrorKind::UnknownCommand => String::from_str("unknown command: "),
            ParseErrorKind::UnexpectedArgument => String::from_str("unexpected argument: "),
            ParseErrorKind::UnknownFlag => String::from_str("unknown flag: "),
            ParseErrorKind::MissingFlagValue => String::from_str("missing value for flag: "),
            ParseErrorKind::DuplicateFlag => String::from_str("duplicate flag: "),
            ParseErrorKind::MissingRequiredFlag => String::from_str("missing required flag: "),
            ParseErrorKind::MalformedValue => String::from_str("malformed value: "),
        };
        s.append(self.detail.as_str());
        s
    }
}

/// Whether the strings `a` and `b` hold the same characters.
pub fn str_eq(a: &str, b: &str) -> (r: bool)
    ensures
        r == (a@ == b@),
{
    let na = a.unicode_len();
    let nb = b.unicode_len();
    if na != nb {
        return false;
    }
    let mut i: usize = 0;
    while i < na
        invariant
            na == a@.len(),
            nb == b@.len(),
            na == nb,
            i <= na,
            forall|k: int| 0 <= k < i ==> a@[k] == b@[k],
        decreases na - i,
    {
        if a.get_char(i) != b.get_char(i) {
            return false;
        }
        i = i + 1;
    }
    proof {
        assert(a@ =~= b@);
    }
    true
}

/// An ASCII decimal digit.
pub open spec fn is_dec_digit(c: char) -> bool {
    48 <= c as u32 && c as u32 <= 57
}

pub open spec fn digit_val(c: char) -> nat {
    if is_dec_digit(c) {
        (c as u32 - 48) as nat
    } else {
        0
    }
}

/// A non-empty string of decimal digits.
pub open spec fn dec_digits(s: Seq<char>) -> bool {
    s.len() > 0 && forall|k: int| 0 <= k < s.len() ==> is_dec_digit(s[k])
}

/// The value a digit string denotes.
pub open spec fn dec_val(s: Seq<char>) -> nat
    decreases s.len(),
{
    if s.len() == 0 {
        0
    } else {
        dec_val(s.drop_last()) * 10 + digit_val(s.last())
    }
}

proof fn lemma_dec_val_prefix(s: Seq<char>, i: int)
    requires
        0 <= i <= s.len(),
    ensures
        dec_val(s.take(i)) <= dec_val(s),
    decreases s.len() - i,
{
    if i == s.len() {
        assert(s.take(i) =~= s);
    } else {
        lemma_dec_val_prefix(s, i + 1);
        assert(s.take(i + 1).drop_last() =~= s.take(i));
        assert(dec_val(s.take(i + 1)) == dec_val(s.take(i)) * 10 + digit_val(s.take(i + 1).last()));
    }
}

/// Parse a decimal number no greater than `max`.
pub fn parse_dec(t: &str, max: u64) -> (r: Option<u64>)
    requires
        max <= 0xFFFF_FFFF,
    ensures
        match r {
            Some(v) => dec_digits(t@) && dec_val(t@) <= max && v == dec_val(t@),
            None => !(dec_digits(t@) && dec_val(t@) <= max),
        },
{
    let n = t.unicode_len();
    if n == 0 {
        return None;
    }
    let mut val: u64 = 0;
    let mut i: usize = 0;
    while i < n
        invariant
            n == t@.len(),
            0 < n,
            i <= n,
            max <= 0xFFFF_FFFF,
            forall|k: int| 0 <= k < i ==> is_dec_digit(t@[k]),
            val == dec_val(t@.take(i as int)),
            val <= max,
        decreases n - i,
    {
        let c = t.get_char(i);
        let u = c as u32;
        if !(48 <= u && u <= 57) {
            return None;
        }
        let d: u64 = (u - 48) as u64;
        let next: u64 = val * 10 + d;
        proof {
            assert(t@.take(i as int + 1).drop_last() =~= t@.take(i as int));
            assert(t@.take(i as int + 1).last() == t@[i as int]);
            assert(next == dec_val(t@.take(i as int + 1)));
        }
        if next > max {
            proof {
                lemma_dec_val_prefix(t@, i as int + 1);
            }
            return None;
        }
        val = next;
        i = i + 1;
    }
    proof {
        assert(t@.take(n as int) =~= t@);
    }
    Some(val)
}

// --- spec-level grammar -------------------------------------------------

pub open spec fn err(kind: ParseErrorKind, detail: Seq<char>) -> Result<Cmd, ParseErrV> {
    Err(ParseErrV { kind, detail })
}

/// `sync [--max-addresses <n>]`
pub open spec fn sync_args(ts: Seq<Seq<char>>, i: int, acc: Option<u32>) -> Result<Cmd, ParseErrV>
    decreases ts.len() - i,
{
    if i >= ts.len() {
        Ok(Cmd::Online(OnlineCmd::Sync { max_addresses: acc }))
    } else if ts[i] == "--max-addresses"@ {
        if i + 1 >= ts.len() {
            err(ParseErrorKind::MissingFlagValue, ts[i])
        } else if acc is Some {
            err(ParseErrorKind::DuplicateFlag, ts[i])
        } else if !(dec_digits(ts[i + 1]) && dec_val(ts[i + 1]) <= 0xFFFF_FFFF) {
            err(ParseErrorKind::MalformedValue, ts[i + 1])
        } else {
            sync_args(ts, i + 2, Some(dec_val(ts[i + 1]) as u32))
        }
    } else {
        err(ParseErrorKind::UnknownFlag, ts[i])
    }
}

/// `broadcast --psbt <psbt>`
pub open spec fn broadcast_args(ts: Seq<Seq<char>>, i: int, psbt: Option<Seq<char>>) -> Result<
    Cmd,
    ParseErrV,
>
    decreases ts.len() - i,
{
    if i >= ts.len() {
        match psbt {
            Some(p) => Ok(Cmd::Online(OnlineCmd::Broadcast { psbt: p })),
            None => err(ParseErrorKind::MissingRequiredFlag, "--psbt"@),
        }
    } else if ts[i] == "--psbt"@ {
        if i + 1 >= ts.len() {
            err(ParseErrorKind::MissingFlagValue, ts[i])
        } else if psbt is Some {
            err(ParseErrorKind::DuplicateFlag, ts[i])
        } else {
            broadcast_args(ts, i + 2, Some(ts[i + 1]))
        }
    } else {
        err(ParseErrorKind::UnknownFlag, ts[i])
    }
}

/// `sign --psbt <psbt>`
pub open spec fn sign_args(ts: Seq<Seq<char>>, i: int, psbt: Option<Seq<char>>) -> Result<
    Cmd,
    ParseErrV,
>
    decreases ts.len() - i,
{
    if i >= ts.len() {
        match psbt {
            Some(p) => Ok(Cmd::Offline(OfflineCmd::Sign { psbt: p })),
            None => err(ParseErrorKind::MissingRequiredFlag, "--psbt"@),
        }
    } else if ts[i] == "--psbt"@ {
        if i + 1 >= ts.len() {
            err(ParseErrorKind::MissingFlagValue, ts[i])
        } else if psbt is Some {
            err(ParseErrorKind::DuplicateFlag, ts[i])
        } else {
            sign_args(ts, i + 2, Some(ts[i + 1]))
        }
    } else {
        err(ParseErrorKind::UnknownFlag, ts[i])
    }
}

/// A valid recovery-phrase length.
pub open spec fn valid_word_count(n: nat) -> bool {
    n == 12 || n == 15 || n == 18 || n == 21 || n == 24
}

/// `generate [-e <word count>] [-p <password>]`
pub open spec fn generate_args(
    ts: Seq<Seq<char>>,
    i: int,
    wc: Option<u8>,
    pw: Option<Seq<char>>,
) -> Result<Cmd, ParseErrV>
    decreases ts.len() - i,
{
    if i >= ts.len() {
        Ok(
            Cmd::Key(
                KeyCmd::Generate {
                    word_count: match wc {
                        Some(n) => n,
                        None => 24,
                    },
                    password: pw,
                },
            ),
        )
    } else if ts[i] == "-e"@ || ts[i] == "--entropy"@ {
        if i + 1 >= ts.len() {
            err(ParseErrorKind::MissingFlagValue, ts[i])
        } else if wc is Some {
            err(ParseErrorKind::DuplicateFlag, ts[i])
        } else if !(dec_digits(ts[i + 1]) && valid_word_count(dec_val(ts[i + 1]))) {
            err(ParseErrorKind::MalformedValue, ts[i + 1])
        } else {
            generate_args(ts, i + 2, Some(dec_val(ts[i + 1]) as u8), pw)
        }
    } else if ts[i] == "-p"@ || ts[i] == "--password"@ {
        if i + 1 >= ts.len() {
            err(ParseErrorKind::MissingFlagValue, ts[i])
        } else if pw is Some {
            err(ParseErrorKind::DuplicateFlag, ts[i])
        } else {
            generate_args(ts, i + 2, wc, Some(ts[i + 1]))
        }
    } else {
        err(ParseErrorKind::UnknownFlag, ts[i])
    }
}

/// `restore -m <mnemonic> [-p <password>]`
pub open spec fn restore_args(
    ts: Seq<Seq<char>>,
    i: int,
    m: Option<Seq<char>>,
    pw: Option<Seq<char>>,
) -> Result<Cmd, ParseErrV>
    decreases ts.len() - i,
{
    if i >= ts.len() {
        match m {
            Some(ph) => Ok(Cmd::Key(KeyCmd::Restore { mnemonic: ph, password: pw })),
            None => err(ParseErrorKind::MissingRequiredFlag, "--mnemonic"@),
        }
    } else if ts[i] == "-m"@ || ts[i] == "--mnemonic"@ {
        if i + 1 >= ts.len() {
            err(ParseErrorKind::MissingFlagValue, ts[i])
        } else if m is Some {
            err(ParseErrorKind::DuplicateFlag, ts[i])
        } else {
            restore_args(ts, i + 2, Some(ts[i + 1]), pw)
        }
    } else if ts[i] == "-p"@ || ts[i] == "--password"@ {
        if i + 1 >= ts.len() {
            err(ParseErrorKind::MissingFlagValue, ts[i])
        } else if pw is Some {
            err(ParseErrorKind::DuplicateFlag, ts[i])
        } else {
            restore_args(ts, i + 2, m, Some(ts[i + 1]))
        }
    } else {
        err(ParseErrorKind::UnknownFlag, ts[i])
    }
}

/// `derive -x <xprv> -p <path>`
pub open spec fn derive_args(
    ts: Seq<Seq<char>>,
    i: int,
    x: Option<Seq<char>>,
    p: Option<Seq<char>>,
) -> Result<Cmd, ParseErrV>
    decreases ts.len() - i,
{
    if i >= ts.len() {
        match x {
            Some(xp) => match p {
                Some(pa) => Ok(Cmd::Key(KeyCmd::Derive { xprv: xp, path: pa })),
                None => err(ParseErrorKind::MissingRequiredFlag, "--path"@),
            },
            None => err(ParseErrorKind::MissingRequiredFlag, "--xprv"@),
        }
    } else if ts[i] == "-x"@ || ts[i] == "--xprv"@ {
        if i + 1 >= ts.len() {
            err(ParseErrorKind::MissingFlagValue, ts[i])
        } else if x is Some {
            err(ParseErrorKind::DuplicateFlag, ts[i])
        } else {
            derive_args(ts, i + 2, Some(ts[i + 1]), p)
        }
    } else if ts[i] == "-p"@ || ts[i] == "--path"@ {
        if i + 1 >= ts.len() {
            err(ParseErrorKind::MissingFlagValue, ts[i])
        } else if p is Some {
            err(ParseErrorKind::DuplicateFlag, ts[i])
        } else {
            derive_args(ts, i + 2, x, Some(ts[i + 1]))
        }
    } else {
        err(ParseErrorKind::UnknownFlag, ts[i])
    }
}

/// An offline operation that takes no arguments, by its command word.
pub open spec fn zero_arg_offline(head: Seq<char>) -> Option<OfflineCmd> {
    if head == "get_new_address"@ {
        Some(OfflineCmd::GetNewAddress)
    } else if head == "get_balance"@ {
        Some(OfflineCmd::GetBalance)
    } else if head == "list_unspent"@ {
        Some(OfflineCmd::ListUnspent)
    } else if head == "list_transactions"@ {
        Some(OfflineCmd::ListTransactions)
    } else if head == "policies"@ {
        Some(OfflineCmd::Policies)
    } else if head == "public_descriptor"@ {
        Some(OfflineCmd::PublicDescriptor)
    } else {
        None
    }
}

/// One wallet operation (online or offline), with its command word at
/// index `i`.
pub open spec fn wallet_op_spec(ts: Seq<Seq<char>>, i: int) -> Result<Cmd, ParseErrV> {
    if i >= ts.len() {
        err(ParseErrorKind::EmptyCommand, Seq::empty())
    } else if ts[i] == "sync"@ {
        sync_args(ts, i + 1, None)
    } else if ts[i] == "broadcast"@ {
        broadcast_args(ts, i + 1, None)
    } else if ts[i] == "sign"@ {
        sign_args(ts, i + 1, None)
    } else if zero_arg_offline(ts[i]) is Some {
        if ts.len() == i + 1 {
            Ok(Cmd::Offline(zero_arg_offline(ts[i]).unwrap()))
        } else {
            err(ParseErrorKind::UnexpectedArgument, ts[i + 1])
        }
    } else {
        err(ParseErrorKind::UnknownCommand, ts[i])
    }
}

/// One key operation, with its command word at index `i`.
pub open spec fn key_op_spec(ts: Seq<Seq<char>>, i: int) -> Result<Cmd, ParseErrV> {
    if i >= ts.len() {
        err(ParseErrorKind::EmptyCommand, Seq::empty())
    } else if ts[i] == "generate"@ {
        generate_args(ts, i + 1, None, None)
    } else if ts[i] == "restore"@ {
        restore_args(ts, i + 1, None, None)
    } else if ts[i] == "derive"@ {
        derive_args(ts, i + 1, None, None)
    } else {
        err(ParseErrorKind::UnknownCommand, ts[i])
    }
}

/// Whether `head` opens a wallet operation.
pub open spec fn is_wallet_op_head(head: Seq<char>) -> bool {
    head == "sync"@ || head == "broadcast"@ || head == "sign"@ || zero_arg_offline(head) is Some
}

/// Whether `head` opens a key operation.
pub open spec fn is_key_op_head(head: Seq<char>) -> bool {
    head == "generate"@ || head == "restore"@ || head == "derive"@
}

/// The complete interactive grammar: the three operation families plus
/// `exit`. Anything else is a structured parse error.
pub open spec fn resolve_tokens_spec(ts: Seq<Seq<char>>) -> Result<Cmd, ParseErrV> {
    if ts.len() == 0 {
        err(ParseErrorKind::EmptyCommand, Seq::empty())
    } else if ts[0] == "exit"@ {
        if ts.len() == 1 {
            Ok(Cmd::Exit)
        } else {
            err(ParseErrorKind::UnexpectedArgument, ts[1])
        }
    } else if is_wallet_op_head(ts[0]) {
        wallet_op_spec(ts, 0)
    } else if is_key_op_head(ts[0]) {
        key_op_spec(ts, 0)
    } else {
        err(ParseErrorKind::UnknownCommand, ts[0])
    }
}

// --- executable resolver ------------------------------------------------

/// `sync [--max-addresses <n>]`, flags starting at `start`.
fn parse_sync(tokens: &Vec<String>, start: usize) -> (r: Result<ReplSubCommand, ParseError>)
    ensures
        match r {
            Ok(cmd) => sync_args(tokens.deep_view(), start as int, None) == Ok::<Cmd, ParseErrV>(
                cmd@,
            ),
            Err(e) => sync_args(tokens.deep_view(), start as int, None) == Err::<Cmd, ParseErrV>(
                e@,
            ),
        },
{
    let ghost tsv = tokens.deep_view();
    let mut acc: Option<u32> = None;
    let mut i: usize = start;
    while i < tokens.len()
        invariant
            tsv == tokens.deep_view(),
            tsv.len() == tokens@.len(),
            sync_args(tsv, start as int, None) == sync_args(tsv, i as int, acc),
        decreases tokens@.len() - i,
    {
        let tok: &String = &tokens[i];
        proof {
            assert(tsv[i as int] == tokens@[i as int]@);
        }
        if str_eq(tok.as_str(), "--max-addresses") {
            if i + 1 >= tokens.len() {
                return Err(ParseError::new(ParseErrorKind::MissingFlagValue, tok.clone()));
            }
            if acc.is_some() {
                return Err(ParseError::new(ParseErrorKind::DuplicateFlag, tok.clone()));
            }
            let v: &String = &tokens[i + 1];
            proof {
                assert(tsv[i as int + 1] == tokens@[i as int + 1]@);
            }
            match parse_dec(v.as_str(), 0xFFFF_FFFF) {
                Some(n) => {
                    acc = Some(n as u32);
                    i = i + 2;
                },
                None => {
                    return Err(ParseError::new(ParseErrorKind::MalformedValue, v.clone()));
                },
            }
        } else {
            return Err(ParseError::new(ParseErrorKind::UnknownFlag, tok.clone()));
        }
    }
    Ok(ReplSubCommand::OnlineWalletSubCommand(OnlineWalletSubCommand::Sync { max_addresses: acc }))
}

/// `broadcast --psbt <psbt>`, flags starting at `start`.
fn parse_broadcast(tokens: &Vec<String>, start: usize) -> (r: Result<ReplSubCommand, ParseError>)
    ensures
        match r {
            Ok(cmd) => broadcast_args(tokens.deep_view(), start as int, None) == Ok::<
                Cmd,
                ParseErrV,
            >(cmd@),
            Err(e) => broadcast_args(tokens.deep_view(), start as int, None) == Err::<
                Cmd,
                ParseErrV,
            >(e@),
        },
{
    let ghost tsv = tokens.deep_view();
    let mut psbt: Option<String> = None;
    let mut i: usize = start;
    while i < tokens.len()
        invariant
            tsv == tokens.deep_view(),
            tsv.len() == tokens@.len(),
            broadcast_args(tsv, start as int, None) == broadcast_args(
                tsv,
                i as int,
                opt_string_view(psbt),
            ),
        decreases tokens@.len() - i,
    {
        let tok: &String = &tokens[i];
        proof {
            assert(tsv[i as int] == tokens@[i as int]@);
        }
        if str_eq(tok.as_str(), "--psbt") {
            if i + 1 >= tokens.len() {
                return Err(ParseError::new(ParseErrorKind::MissingFlagValue, tok.clone()));
            }
            if psbt.is_some() {
                return Err(ParseError::new(ParseErrorKind::DuplicateFlag, tok.clone()));
            }
            let v: &String = &tokens[i + 1];
            proof {
                assert(tsv[i as int + 1] == tokens@[i as int + 1]@);
            }
            psbt = Some(v.clone());
            i = i + 2;
        } else {
            return Err(ParseError::new(ParseErrorKind::UnknownFlag, tok.clone()));
        }
    }
    match psbt {
        Some(p) => Ok(
            ReplSubCommand::OnlineWalletSubCommand(OnlineWalletSubCommand::Broadcast { psbt: p }),
        ),
        None => Err(
            ParseError::new(ParseErrorKind::MissingRequiredFlag, String::from_str("--psbt")),
        ),
    }
}

/// `sign --psbt <psbt>`, flags starting at `start`.
fn parse_sign(tokens: &Vec<String>, start: usize) -> (r: Result<ReplSubCommand, ParseError>)
    ensures
        match r {
            Ok(cmd) => sign_args(tokens.deep_view(), start as int, None) == Ok::<Cmd, ParseErrV>(
                cmd@,
            ),
            Err(e) => sign_args(tokens.deep_view(), start as int, None) == Err::<Cmd, ParseErrV>(
                e@,
            ),
        },
{
    let ghost tsv = tokens.deep_view();
    let mut psbt: Option<String> = None;
    let mut i: usize = start;
    while i < tokens.len()
        invariant
            tsv == tokens.deep_view(),
            tsv.len() == tokens@.len(),
            sign_args(tsv, start as int, None) == sign_args(tsv, i as int, opt_string_view(psbt)),
        decreases tokens@.len() - i,
    {
        let tok: &String = &tokens[i];
        proof {
            assert(tsv[i as int] == tokens@[i as int]@);
        }
        if str_eq(tok.as_str(), "--psbt") {
            if i + 1 >= tokens.len() {
                return Err(ParseError::new(ParseErrorKind::MissingFlagValue, tok.clone()));
            }
            if psbt.is_some() {
                return Err(ParseError::new(ParseErrorKind::DuplicateFlag, tok.clone()));
            }
            let v: &String = &tokens[i + 1];
            proof {
                assert(tsv[i as int + 1] == tokens@[i as int + 1]@);
            }
            psbt = Some(v.clone());
            i = i + 2;
        } else {
            return Err(ParseError::new(ParseErrorKind::UnknownFlag, tok.clone()));
        }
    }
    match psbt {
        Some(p) => Ok(
            ReplSubCommand::OfflineWalletSubCommand(OfflineWalletSubCommand::Sign { psbt: p }),
        ),
        None => Err(
            ParseError::new(ParseErrorKind::MissingRequiredFlag, String::from_str("--psbt")),
        ),
    }
}

/// `generate [-e <word count>] [-p <password>]`, flags starting at `start`.
fn parse_generate(tokens: &Vec<String>, start: usize) -> (r: Result<ReplSubCommand, ParseError>)
    ensures
        match r {
            Ok(cmd) => generate_args(tokens.deep_view(), start as int, None, None) == Ok::<
                Cmd,
                ParseErrV,
            >(cmd@),
            Err(e) => generate_args(tokens.deep_view(), start as int, None, None) == Err::<
                Cmd,
                ParseErrV,
            >(e@),
        },
{
    let ghost tsv = tokens.deep_view();
    let mut wc: Option<u8> = None;
    let mut pw: Option<String> = None;
    let mut i: usize = start;
    while i < tokens.len()
        invariant
            tsv == tokens.deep_view(),
            tsv.len() == tokens@.len(),
            generate_args(tsv, start as int, None, None) == generate_args(
                tsv,
                i as int,
                wc,
                opt_string_view(pw),
            ),
        decreases tokens@.len() - i,
    {
        let tok: &String = &tokens[i];
        proof {
            assert(tsv[i as int] == tokens@[i as int]@);
        }
        if str_eq(tok.as_str(), "-e") || str_eq(tok.as_str(), "--entropy") {
            if i + 1 >= tokens.len() {
                return Err(ParseError::new(ParseErrorKind::MissingFlagValue, tok.clone()));
            }
            if wc.is_some() {
                return Err(ParseError::new(ParseErrorKind::DuplicateFlag, tok.clone()));
            }
            let v: &String = &tokens[i + 1];
            proof {
                assert(tsv[i as int + 1] == tokens@[i as int + 1]@);
            }
            match parse_dec(v.as_str(), 255) {
                Some(n) => {
                    if n == 12 || n == 15 || n == 18 || n == 21 || n == 24 {
                        wc = Some(n as u8);
                        i = i + 2;
                    } else {
                        return Err(ParseError::new(ParseErrorKind::MalformedValue, v.clone()));
                    }
                },
                None => {
                    return Err(ParseError::new(ParseErrorKind::MalformedValue, v.clone()));
                },
            }
        } else if str_eq(tok.as_str(), "-p") || str_eq(tok.as_str(), "--password") {
            if i + 1 >= tokens.len() {
                return Err(ParseError::new(ParseErrorKind::MissingFlagValue, tok.clone()));
            }
            if pw.is_some() {
                return Err(ParseError::new(ParseErrorKind::DuplicateFlag, tok.clone()));
            }
            let v: &String = &tokens[i + 1];
            proof {
                assert(tsv[i as int + 1] == tokens@[i as int + 1]@);
            }
            pw = Some(v.clone());
            i = i + 2;
        } else {
            return Err(ParseError::new(ParseErrorKind::UnknownFlag, tok.clone()));
        }
    }
    let count: u8 = match wc {
        Some(n) => n,
        None => 24,
    };
    Ok(
        ReplSubCommand::KeySubCommand(
            KeySubCommand::Generate { word_count: count, password: pw },
        ),
    )
}

/// `restore -m <mnemonic> [-p <password>]`, flags starting at `start`.
fn parse_restore(tokens: &Vec<String>, start: usize) -> (r: Result<ReplSubCommand, ParseError>)
    ensures
        match r {
            Ok(cmd) => restore_args(tokens.deep_view(), start as int, None, None) == Ok::<
                Cmd,
                ParseErrV,
            >(cmd@),
            Err(e) => restore_args(tokens.deep_view(), start as int, None, None) == Err::<
                Cmd,
                ParseErrV,
            >(e@),
        },
{
    let ghost tsv = tokens.deep_view();
    let mut m: Option<String> = None;
    let mut pw: Option<String> = None;
    let mut i: usize = start;
    while i < tokens.len()
        invariant
            tsv == tokens.deep_view(),
            tsv.len() == tokens@.len(),
            restore_args(tsv, start as int, None, None) == restore_args(
                tsv,
                i as int,
                opt_string_view(m),
                opt_string_view(pw),
            ),
        decreases tokens@.len() - i,
    {
        let tok: &String = &tokens[i];
        proof {
            assert(tsv[i as int] == tokens@[i as int]@);
        }
        if str_eq(tok.as_str(), "-m") || str_eq(tok.as_str(), "--mnemonic") {
            if i + 1 >= tokens.len() {
                return Err(ParseError::new(ParseErrorKind::MissingFlagValue, tok.clone()));
            }
            if m.is_some() {
                return Err(ParseError::new(ParseErrorKind::DuplicateFlag, tok.clone()));
            }
            let v: &String = &tokens[i + 1];
            proof {
                assert(tsv[i as int + 1] == tokens@[i as int + 1]@);
            }
            m = Some(v.clone());
            i = i + 2;
        } else if str_eq(tok.as_str(), "-p") || str_eq(tok.as_str(), "--password") {
            if i + 1 >= tokens.len() {
                return Err(ParseError::new(ParseErrorKind::MissingFlagValue, tok.clone()));
            }
            if pw.is_some() {
                return Err(ParseError::new(ParseErrorKind::DuplicateFlag, tok.clone()));
            }
            let v: &String = &tokens[i + 1];
            proof {
                assert(tsv[i as int + 1] == tokens@[i as int + 1]@);
            }
            pw = Some(v.clone());
            i = i + 2;
        } else {
            return Err(ParseError::new(ParseErrorKind::UnknownFlag, tok.clone()));
        }
    }
    match m {
        Some(ph) => Ok(
            ReplSubCommand::KeySubCommand(KeySubCommand::Restore { mnemonic: ph, password: pw }),
        ),
        None => Err(
            ParseError::new(ParseErrorKind::MissingRequiredFlag, String::from_str("--mnemonic")),
        ),
    }
}

/// `derive -x <xprv> -p <path>`, flags starting at `start`.
fn parse_derive(tokens: &Vec<String>, start: usize) -> (r: Result<ReplSubCommand, ParseError>)
    ensures
        match r {
            Ok(cmd) => derive_args(tokens.deep_view(), start as int, None, None) == Ok::<
                Cmd,
                ParseErrV,
            >(cmd@),
            Err(e) => derive_args(tokens.deep_view(), start as int, None, None) == Err::<
                Cmd,
                ParseErrV,
            >(e@),
        },
{
    let ghost tsv = tokens.deep_view();
    let mut x: Option<String> = None;
    let mut p: Option<String> = None;
    let mut i: usize = start;
    while i < tokens.len()
        invariant
            tsv == tokens.deep_view(),
            tsv.len() == tokens@.len(),
            derive_args(tsv, start as int, None, None) == derive_args(
                tsv,
                i as int,
                opt_string_view(x),
                opt_string_view(p),
            ),
        decreases tokens@.len() - i,
    {
        let tok: &String = &tokens[i];
        proof {
            assert(tsv[i as int] == tokens@[i as int]@);
        }
        if str_eq(tok.as_str(), "-x") || str_eq(tok.as_str(), "--xprv") {
            if i + 1 >= tokens.len() {
                return Err(ParseError::new(ParseErrorKind::MissingFlagValue, tok.clone()));
            }
            if x.is_some() {
                return Err(ParseError::new(ParseErrorKind::DuplicateFlag, tok.clone()));
            }
            let v: &String = &tokens[i + 1];
            proof {
                assert(tsv[i as int + 1] == tokens@[i as int + 1]@);
            }
            x = Some(v.clone());
            i = i + 2;
        } else if str_eq(tok.as_str(), "-p") || str_eq(tok.as_str(), "--path") {
            if i + 1 >= tokens.len() {
                return Err(ParseError::new(ParseErrorKind::MissingFlagValue, tok.clone()));
            }
            if p.is_some() {
                return Err(ParseError::new(ParseErrorKind::DuplicateFlag, tok.clone()));
            }
            let v: &String = &tokens[i + 1];
            proof {
                assert(tsv[i as int + 1] == tokens@[i as int + 1]@);
            }
            p = Some(v.clone());
            i = i + 2;
        } else {
            return Err(ParseError::new(ParseErrorKind::UnknownFlag, tok.clone()));
        }
    }
    match x {
        Some(xp) => match p {
            Some(pa) => Ok(
                ReplSubCommand::KeySubCommand(KeySubCommand::Derive { xprv: xp, path: pa }),
            ),
            None => Err(
                ParseError::new(ParseErrorKind::MissingRequiredFlag, String::from_str("--path")),
            ),
        },
        None => Err(
            ParseError::new(ParseErrorKind::MissingRequiredFlag, String::from_str("--xprv")),
        ),
    }
}

/// One wallet operation, with its command word at index `at`.
pub fn parse_wallet_op(tokens: &Vec<String>, at: usize) -> (r: Result<ReplSubCommand, ParseError>)
    ensures
        match r {
            Ok(cmd) => wallet_op_spec(tokens.deep_view(), at as int) == Ok::<Cmd, ParseErrV>(cmd@),
            Err(e) => wallet_op_spec(tokens.deep_view(), at as int) == Err::<Cmd, ParseErrV>(e@),
        },
{
    let ghost tsv = tokens.deep_view();
    if at >= tokens.len() {
        return Err(ParseError::new(ParseErrorKind::EmptyCommand, String::new()));
    }
    let head: &String = &tokens[at];
    proof {
        assert(tsv[at as int] == tokens@[at as int]@);
    }
    if str_eq(head.as_str(), "sync") {
        parse_sync(tokens, at + 1)
    } else if str_eq(head.as_str(), "broadcast") {
        parse_broadcast(tokens, at + 1)
    } else if str_eq(head.as_str(), "sign") {
        parse_sign(tokens, at + 1)
    } else if str_eq(head.as_str(), "get_new_address") {
        if tokens.len() == at + 1 {
            Ok(ReplSubCommand::OfflineWalletSubCommand(OfflineWalletSubCommand::GetNewAddress))
        } else {
            proof {
                assert(tsv[at as int + 1] == tokens@[at as int + 1]@);
            }
            Err(ParseError::new(ParseErrorKind::UnexpectedArgument, tokens[at + 1].clone()))
        }
    } else if str_eq(head.as_str(), "get_balance") {
        if tokens.len() == at + 1 {
            Ok(ReplSubCommand::OfflineWalletSubCommand(OfflineWalletSubCommand::GetBalance))
        } else {
            proof {
                assert(tsv[at as int + 1] == tokens@[at as int + 1]@);
            }
            Err(ParseError::new(ParseErrorKind::UnexpectedArgument, tokens[at + 1].clone()))
        }
    } else if str_eq(head.as_str(), "list_unspent") {
        if tokens.len() == at + 1 {
            Ok(ReplSubCommand::OfflineWalletSubCommand(OfflineWalletSubCommand::ListUnspent))
        } else {
            proof {
                assert(tsv[at as int + 1] == tokens@[at as int + 1]@);
            }
            Err(ParseError::new(ParseErrorKind::UnexpectedArgument, tokens[at + 1].clone()))
        }
    } else if str_eq(head.as_str(), "list_transactions") {
        if tokens.len() == at + 1 {
            Ok(ReplSubCommand::OfflineWalletSubCommand(OfflineWalletSubCommand::ListTransactions))
        } else {
            proof {
                assert(tsv[at as int + 1] == tokens@[at as int + 1]@);
            }
            Err(ParseError::new(ParseErrorKind::UnexpectedArgument, tokens[at + 1].clone()))
        }
    } else if str_eq(head.as_str(), "policies") {
        if tokens.len() == at + 1 {
            Ok(ReplSubCommand::OfflineWalletSubCommand(OfflineWalletSubCommand::Policies))
        } else {
            proof {
                assert(tsv[at as int + 1] == tokens@[at as int + 1]@);
            }
            Err(ParseError::new(ParseErrorKind::UnexpectedArgument, tokens[at + 1].clone()))
        }
    } else if str_eq(head.as_str(), "public_descriptor") {
        if tokens.len() == at + 1 {
            Ok(ReplSubCommand::OfflineWalletSubCommand(OfflineWalletSubCommand::PublicDescriptor))
        } else {
            proof {
                assert(tsv[at as int + 1] == tokens@[at as int + 1]@);
            }
            Err(ParseError::new(ParseErrorKind::UnexpectedArgument, tokens[at + 1].clone()))
        }
    } else {
        Err(ParseError::new(ParseErrorKind::UnknownCommand, head.clone()))
    }
}

/// One key operation, with its command word at index `at`.
pub fn parse_key_op(tokens: &Vec<String>, at: usize) -> (r: Result<ReplSubCommand, ParseError>)
    ensures
        match r {
            Ok(cmd) => key_op_spec(tokens.deep_view(), at as int) == Ok::<Cmd, ParseErrV>(cmd@),
            Err(e) => key_op_spec(tokens.deep_view(), at as int) == Err::<Cmd, ParseErrV>(e@),
        },
{
    let ghost tsv = tokens.deep_view();
    if at >= tokens.len() {
        return Err(ParseError::new(ParseErrorKind::EmptyCommand, String::new()));
    }
    let head: &String = &tokens[at];
    proof {
        assert(tsv[at as int] == tokens@[at as int]@);
    }
    if str_eq(head.as_str(), "generate") {
        parse_generate(tokens, at + 1)
    } else if str_eq(head.as_str(), "restore") {
        parse_restore(tokens, at + 1)
    } else if str_eq(head.as_str(), "derive") {
        parse_derive(tokens, at + 1)
    } else {
        Err(ParseError::new(ParseErrorKind::UnknownCommand, head.clone()))
    }
}

/// Resolve one interactive token sequence against the closed grammar.
pub fn resolve_tokens(tokens: &Vec<String>) -> (r: Result<ReplSubCommand, ParseError>)
    ensures
        match r {
            Ok(cmd) => resolve_tokens_spec(tokens.deep_view()) == Ok::<Cmd, ParseErrV>(cmd@),
            Err(e) => resolve_tokens_spec(tokens.deep_view()) == Err::<Cmd, ParseErrV>(e@),
        },
{
    let ghost tsv = tokens.deep_view();
    if tokens.len() == 0 {
        return Err(ParseError::new(ParseErrorKind::EmptyCommand, String::new()));
    }
    let head: &String = &tokens[0];
    proof {
        assert(tsv[0] == tokens@[0]@);
    }
    if str_eq(head.as_str(), "exit") {
        if tokens.len() == 1 {
            Ok(ReplSubCommand::Exit)
        } else {
            proof {
                assert(tsv[1] == tokens@[1]@);
            }
            Err(ParseError::new(ParseErrorKind::UnexpectedArgument, tokens[1].clone()))
        }
    } else {
        let wallet_head = str_eq(head.as_str(), "sync") || str_eq(head.as_str(), "broadcast")
            || str_eq(head.as_str(), "sign") || str_eq(head.as_str(), "get_new_address")
            || str_eq(head.as_str(), "get_balance") || str_eq(head.as_str(), "list_unspent")
            || str_eq(head.as_str(), "list_transactions") || str_eq(head.as_str(), "policies")
            || str_eq(head.as_str(), "public_descriptor");
        if wallet_head {
            parse_wallet_op(tokens, 0)
        } else {
            let key_head = str_eq(head.as_str(), "generate") || str_eq(head.as_str(), "restore")
                || str_eq(head.as_str(), "derive");
            if key_head {
                parse_key_op(tokens, 0)
            } else {
                Err(ParseError::new(ParseErrorKind::UnknownCommand, head.clone()))
            }
        }
    }
}

} // verus!
