//! Dispatcher and Session Engine.
//!
//! The dispatcher routes a resolved request to exactly one handler
//! family, producing the collaborator call to perform; it is stateless
//! and never swallows an error. The session engine is the interactive
//! state machine `Init -> Running -> Terminated`: each cycle reads one
//! line, tokenizes and resolves it, and either re-prompts, reports a
//! parse error, hands one dispatch to the caller, or terminates.

use vstd::prelude::*;
use crate::backend::BackendConfig;
use crate::backend::BackendConfigV;
use crate::commands::Cmd;
use crate::commands::KeyCmd;
use crate::commands::KeySubCommand;
use crate::commands::Network;
use crate::commands::OfflineCmd;
use crate::commands::OfflineWalletSubCommand;
use crate::commands::OnlineCmd;
use crate::commands::OnlineWalletSubCommand;
use crate::commands::ReplSubCommand;
use crate::resolver::ParseErrV;
use crate::resolver::ParseError;
use crate::resolver::resolve_tokens;
use crate::resolver::resolve_tokens_spec;
use crate::tokenizer::is_blank;
use crate::tokenizer::blank_line;
use crate::tokenizer::tokenize;
use crate::tokenizer::tokens_of;

verus! {

/// The three handler families a request can route to.
#[derive(Clone, Copy, Debug, PartialEq, Eq, Structural)]
pub enum HandlerFamily {
    OnlineWallet,
    OfflineWallet,
    KeyManagement,
}

/// The cross-cycle state of an interactive session: the wallet handle's
/// identity, bound network and backend configuration.
#[derive(Clone, Debug, PartialEq)]
pub struct WalletSession {
    pub wallet_name: String,
    pub network: Network,
    pub backend: BackendConfig,
}

/// Mathematical model of `WalletSession`.
pub struct WalletSessionV {
    pub wallet_name: Seq<char>,
    pub network: Network,
    pub backend: BackendConfigV,
}

impl View for WalletSession {
    type V = WalletSessionV;

    open spec fn view(&self) -> WalletSessionV {
        WalletSessionV {
            wallet_name: self.wallet_name@,
            network: self.network,
            backend: self.backend@,
        }
    }
}

/// The collaborator call the dispatcher selected.
#[derive(Clone, Debug, PartialEq)]
pub enum DispatchPlan {
    CallOnline(OnlineWalletSubCommand),
    CallOffline(OfflineWalletSubCommand),
    CallKey(Network, KeySubCommand),
}

/// Mathematical model of `DispatchPlan`.
pub enum PlanV {
    CallOnline(OnlineCmd),
    CallOffline(OfflineCmd),
    CallKey(Network, KeyCmd),
}

impl View for DispatchPlan {
    type V = PlanV;

    open spec fn view(&self) -> PlanV {
        match self {
            DispatchPlan::CallOnline(o) => PlanV::CallOnline(o@),
            DispatchPlan::CallOffline(f) => PlanV::CallOffline(f@),
            DispatchPlan::CallKey(n, k) => PlanV::CallKey(*n, k@),
        }
    }
}

/// Dispatch failure: the request needs a wallet session and none exists.
#[derive(Clone, Copy, Debug, PartialEq, Eq, Structural)]
pub enum DispatchError {
    MissingSession(HandlerFamily),
}

/// Routing rule: wallet operations need a session (which owns the
/// wallet handle, and for online operations the connected backend); key
/// operations need only the target network; `Exit` is never dispatched.
pub open spec fn dispatch_spec(c: Cmd, has_session: bool, network: Network) -> Result<
    PlanV,
    DispatchError,
> {
    match c {
        Cmd::Online(o) => if has_session {
            Ok(PlanV::CallOnline(o))
        } else {
            Err(DispatchError::MissingSession(HandlerFamily::OnlineWallet))
        },
        Cmd::Offline(f) => if has_session {
            Ok(PlanV::CallOffline(f))
        } else {
            Err(DispatchError::MissingSession(HandlerFamily::OfflineWallet))
        },
        Cmd::Key(k) => Ok(PlanV::CallKey(network, k)),
        Cmd::Exit => Err(DispatchError::MissingSession(HandlerFamily::KeyManagement)),
    }
}

/// Route one resolved request to its handler family, yielding the
/// collaborator call to perform. `Exit` never reaches the dispatcher.
pub fn dispatch(req: ReplSubCommand, session: Option<&WalletSession>, network: Network) -> (r:
    Result<DispatchPlan, DispatchError>)
    requires
        !(req is Exit),
    ensures
        match r {
            Ok(p) => dispatch_spec(req@, session is Some, network) == Ok::<PlanV, DispatchError>(
                p@,
            ),
            Err(e) => dispatch_spec(req@, session is Some, network) == Err::<PlanV, DispatchError>(
                e,
            ),
        },
{
    match req {
        ReplSubCommand::OnlineWalletSubCommand(o) => match session {
            Some(_) => Ok(DispatchPlan::CallOnline(o)),
            None => Err(DispatchError::MissingSession(HandlerFamily::OnlineWallet)),
        },
        ReplSubCommand::OfflineWalletSubCommand(f) => match session {
            Some(_) => Ok(DispatchPlan::CallOffline(f)),
            None => Err(DispatchError::MissingSession(HandlerFamily::OfflineWallet)),
        },
        ReplSubCommand::KeySubCommand(k) => Ok(DispatchPlan::CallKey(network, k)),
        ReplSubCommand::Exit => Err(DispatchError::MissingSession(HandlerFamily::KeyManagement)),
    }
}

/// The family a request routes to; `Exit` routes nowhere.
pub fn handler_family(req: &ReplSubCommand) -> (r: Option<HandlerFamily>)
    ensures
        r == (match req@ {
            Cmd::Online(_) => Some(HandlerFamily::OnlineWallet),
            Cmd::Offline(_) => Some(HandlerFamily::OfflineWallet),
            Cmd::Key(_) => Some(HandlerFamily::KeyManagement),
            Cmd::Exit => None::<HandlerFamily>,
        }),
{
    match req {
        ReplSubCommand::OnlineWalletSubCommand(_) => Some(HandlerFamily::OnlineWallet),
        ReplSubCommand::OfflineWalletSubCommand(_) => Some(HandlerFamily::OfflineWallet),
        ReplSubCommand::KeySubCommand(_) => Some(HandlerFamily::KeyManagement),
        ReplSubCommand::Exit => None,
    }
}

/// Law: a key operation dispatches identically whether or not a wallet
/// session exists — it never reads session state.
pub proof fn lemma_key_op_ignores_session(k: KeyCmd, with_session: bool, without_session: bool, network: Network)
    ensures
        dispatch_spec(Cmd::Key(k), with_session, network) == dispatch_spec(
            Cmd::Key(k),
            without_session,
            network,
        ),
{
}

/// Why a session terminated.
#[derive(Clone, Copy, Debug, PartialEq, Eq, Structural)]
pub enum TerminationCause {
    ExitRequested,
    EndOfInput,
    ReadError,
}

/// The session engine's state machine value.
#[derive(Clone, Copy, Debug, PartialEq, Eq, Structural)]
pub enum SessionState {
    Running,
    Terminated(TerminationCause),
}

/// What one read cycle delivered.
#[derive(Clone, Debug, PartialEq)]
pub enum LineEvent {
    Line(String),
    Interrupted,
    EndOfInput,
    ReadFailed,
}

/// Mathematical model of `LineEvent`.
pub enum LineEventV {
    Line(Seq<char>),
    Interrupted,
    EndOfInput,
    ReadFailed,
}

impl View for LineEvent {
    type V = LineEventV;

    open spec fn view(&self) -> LineEventV {
        match self {
            LineEvent::Line(l) => LineEventV::Line(l@),
            LineEvent::Interrupted => LineEventV::Interrupted,
            LineEvent::EndOfInput => LineEventV::EndOfInput,
            LineEvent::ReadFailed => LineEventV::ReadFailed,
        }
    }
}

/// What the caller must do after one step.
#[derive(Clone, Debug, PartialEq)]
pub enum StepAction {
    /// Print nothing; read the next line.
    Reprompt,
    /// Print the parse error's message; read the next line.
    ReportParseError(ParseError),
    /// Perform the dispatch, render its result; read the next line.
    Dispatch(ReplSubCommand),
    /// Print the final status message; read no further input.
    Terminate(TerminationCause),
}

/// Mathematical model of `StepAction`.
pub enum StepActionV {
    Reprompt,
    ReportParseError(ParseErrV),
    Dispatch(Cmd),
    Terminate(TerminationCause),
}

impl View for StepAction {
    type V = StepActionV;

    open spec fn view(&self) -> StepActionV {
        match self {
            StepAction::Reprompt => StepActionV::Reprompt,
            StepAction::ReportParseError(e) => StepActionV::ReportParseError(e@),
            StepAction::Dispatch(c) => StepActionV::Dispatch(c@),
            StepAction::Terminate(t) => StepActionV::Terminate(*t),
        }
    }
}

/// An interactive session: its state machine value and the wallet
/// session it exclusively owns for its lifetime.
#[derive(Clone, Debug, PartialEq)]
pub struct Session {
    pub state: SessionState,
    pub wallet: WalletSession,
}

/// Mathematical model of `Session`.
pub struct SessionV {
    pub state: SessionState,
    pub wallet: WalletSessionV,
}

impl View for Session {
    type V = SessionV;

    open spec fn view(&self) -> SessionV {
        SessionV { state: self.state, wallet: self.wallet@ }
    }
}

/// One cycle of the `Running` state: what the session becomes and what
/// the caller must do, for each possible read event.
pub open spec fn step_spec(s: SessionV, ev: LineEventV) -> (SessionV, StepActionV) {
    match ev {
        LineEventV::Line(l) => {
            if is_blank(l) {
                (s, StepActionV::Reprompt)
            } else {
                match resolve_tokens_spec(tokens_of(l)) {
                    Ok(Cmd::Exit) => (
                        SessionV {
                            state: SessionState::Terminated(TerminationCause::ExitRequested),
                            ..s
                        },
                        StepActionV::Terminate(TerminationCause::ExitRequested),
                    ),
                    Ok(c) => (s, StepActionV::Dispatch(c)),
                    Err(e) => (s, StepActionV::ReportParseError(e)),
                }
            }
        },
        LineEventV::Interrupted => (s, StepActionV::Reprompt),
        LineEventV::EndOfInput => (
            SessionV { state: SessionState::Terminated(TerminationCause::EndOfInput), ..s },
            StepActionV::Terminate(TerminationCause::EndOfInput),
        ),
        LineEventV::ReadFailed => (
            SessionV { state: SessionState::Terminated(TerminationCause::ReadError), ..s },
            StepActionV::Terminate(TerminationCause::ReadError),
        ),
    }
}

impl Session {
    /// `Init`: bind the wallet session; the engine enters `Running`.
    pub fn new(wallet: WalletSession) -> (s: Session)
        ensures
            s.state is Running,
            s@.wallet == wallet@,
    {
        Session { state: SessionState::Running, wallet }
    }

    /// One read-parse cycle of the `Running` state.
    pub fn step(&mut self, event: LineEvent) -> (action: StepAction)
        requires
            old(self).state is Running,
        ensures
            final(self)@ == step_spec(old(self)@, event@).0,
            action@ == step_spec(old(self)@, event@).1,
    {
        match event {
            LineEvent::Line(l) => {
                if blank_line(l.as_str()) {
                    StepAction::Reprompt
                } else {
                    let toks = tokenize(l.as_str());
                    match resolve_tokens(&toks) {
                        Ok(cmd) => match cmd {
                            ReplSubCommand::Exit => {
                                self.state = SessionState::Terminated(
                                    TerminationCause::ExitRequested,
                                );
                                StepAction::Terminate(TerminationCause::ExitRequested)
                            },
                            ReplSubCommand::OnlineWalletSubCommand(o) => StepAction::Dispatch(
                                ReplSubCommand::OnlineWalletSubCommand(o),
                            ),
                            ReplSubCommand::OfflineWalletSubCommand(f) => StepAction::Dispatch(
                                ReplSubCommand::OfflineWalletSubCommand(f),
                            ),
                            ReplSubCommand::KeySubCommand(k) => StepAction::Dispatch(
                                ReplSubCommand::KeySubCommand(k),
                            ),
                        },
                        Err(e) => StepAction::ReportParseError(e),
                    }
                }
            },
            LineEvent::Interrupted => StepAction::Reprompt,
            LineEvent::EndOfInput => {
                self.state = SessionState::Terminated(TerminationCause::EndOfInput);
                StepAction::Terminate(TerminationCause::EndOfInput)
            },
            LineEvent::ReadFailed => {
                self.state = SessionState::Terminated(TerminationCause::ReadError);
                StepAction::Terminate(TerminationCause::ReadError)
            },
        }
    }
}

/// Law: a blank or whitespace-only line produces no dispatch and leaves
/// the session unchanged; the engine stays in `Running` and re-prompts.
pub proof fn lemma_blank_line_reprompts(s: SessionV, l: Seq<char>)
    requires
        is_blank(l),
    ensures
        step_spec(s, LineEventV::Line(l)) == (s, StepActionV::Reprompt),
        !(step_spec(s, LineEventV::Line(l)).1 is Dispatch),
{
}

/// Law: an unresolvable command line produces exactly the structured
/// parse error, dispatches nothing, and leaves the session — including
/// its wallet state — unchanged.
pub proof fn lemma_parse_error_preserves_session(s: SessionV, l: Seq<char>)
    requires
        !is_blank(l),
        resolve_tokens_spec(tokens_of(l)) is Err,
    ensures
        step_spec(s, LineEventV::Line(l)) == (
            s,
            StepActionV::ReportParseError(resolve_tokens_spec(tokens_of(l))->Err_0),
        ),
        !(step_spec(s, LineEventV::Line(l)).1 is Dispatch),
{
}

/// Law: a line resolving to `Exit` transitions the session to
/// `Terminated` without invoking the dispatcher, whatever the prior
/// wallet state; only the state machine value changes.
pub proof fn lemma_exit_terminates(s: SessionV, l: Seq<char>)
    requires
        !is_blank(l),
        resolve_tokens_spec(tokens_of(l)) == Ok::<Cmd, ParseErrV>(Cmd::Exit),
    ensures
        step_spec(s, LineEventV::Line(l)).0 == (SessionV {
            state: SessionState::Terminated(TerminationCause::ExitRequested),
            wallet: s.wallet,
        }),
        step_spec(s, LineEventV::Line(l)).1 == StepActionV::Terminate(
            TerminationCause::ExitRequested,
        ),
        !(step_spec(s, LineEventV::Line(l)).1 is Dispatch),
{
}

/// The prompt printed before each interactive read.
pub fn prompt() -> (s: &'static str)
    ensures
        s@ == ">> "@,
{
    ">> "
}

/// The fixed final status message printed when a session terminates.
pub fn termination_message() -> (s: &'static str)
    ensures
        s@ == "Exiting REPL"@,
{
    "Exiting REPL"
}

} // verus!
