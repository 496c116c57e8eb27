//! The supervised lifecycle wrapper, as a state machine.
//!
//! One invocation of the wrapper walks a fixed, linear protocol: start a
//! container through the command runner, hand control to the caller's unit of
//! work, fetch and print the container's log output when the work failed, and
//! tear the container down again. The decisions live here, verified; the
//! caller owns the side effects. It drives the machine by performing each
//! emitted [`Action`] and feeding the result back as an [`Event`].
//!
//! The machine records every emitted action in a ghost history, and its
//! invariant pins that history down per phase. From it follow the wrapper's
//! guarantees: once the start step has succeeded, a finished run has issued
//! exactly one teardown call, the diagnostic fetch always addresses the handle
//! the start step returned and precedes the teardown, and a failure of the
//! unit of work reaches the wrapper's caller unchanged.

use vstd::prelude::*;

verus! {

use crate::runner::{build_invocation, FatalError, Invocation};
use vstd::string::StringExecFns;

/// A failure raised by the caller-supplied unit of work. Its message is
/// preserved verbatim so the wrapper's caller observes the original failure.
pub struct WorkError {
    /// The failure's message.
    pub message: String,
}

/// How one supervised invocation ended.
pub enum Outcome {
    /// The unit of work succeeded and the container was torn down.
    Completed,
    /// The unit of work failed; diagnostics were printed, the container was
    /// torn down, and the original failure is re-raised unchanged.
    WorkFailed {
        /// The unit of work's failure, exactly as it was raised.
        failure: WorkError,
    },
    /// A command invocation failed; this aborts the whole chain. When the
    /// unit of work had already failed, that original failure is carried
    /// alongside so it is not silently masked.
    Fatal {
        /// The failing command's error.
        error: FatalError,
        /// The unit of work's failure, when one had already occurred.
        work_failure: Option<WorkError>,
    },
}

/// What the pending teardown call will have to report once it completes.
pub enum Pending {
    /// The unit of work succeeded.
    Clean,
    /// The unit of work failed and its diagnostics were printed.
    WorkFailure {
        /// The unit of work's failure.
        failure: WorkError,
    },
    /// The unit of work failed and then the diagnostic fetch itself failed;
    /// the teardown is still attempted before either is reported.
    Superseded {
        /// The diagnostic fetch's error.
        error: FatalError,
        /// The unit of work's failure.
        failure: WorkError,
    },
}

/// The phases of one supervised invocation, in the order they are passed:
/// `Starting`, `Running`, then — only when the work failed — `FetchingLogs`
/// and `Reporting`, then `Killing` and `Done`. A start failure short-cuts
/// straight to `Done`: nothing was created, so nothing is torn down.
pub enum Phase {
    /// The start command has been issued; its captured output will be the
    /// container handle.
    Starting,
    /// The container is up and the unit of work is in progress.
    Running {
        /// The container handle the start step returned.
        handle: String,
    },
    /// The unit of work failed; the log-fetch command has been issued.
    FetchingLogs {
        /// The container handle.
        handle: String,
        /// The unit of work's failure, held for later.
        failure: WorkError,
    },
    /// The fetched log text is being printed as a diagnostic aid.
    Reporting {
        /// The container handle.
        handle: String,
        /// The unit of work's failure, held for later.
        failure: WorkError,
        /// The fetched log text.
        logs: String,
    },
    /// The teardown command has been issued.
    Killing {
        /// The container handle.
        handle: String,
        /// What to report once the teardown completes.
        pending: Pending,
    },
    /// The invocation is over.
    Done {
        /// How it ended.
        outcome: Outcome,
    },
}

/// What the driver reports back to the machine.
pub enum Event {
    /// The result of the command invocation the machine asked for, as the
    /// command runner interpreted it.
    Command {
        /// Captured text on success, or the fatal error.
        result: Result<String, FatalError>,
    },
    /// The unit of work finished. The driver keeps a successful work result's
    /// value; the machine only needs to know whether the work failed.
    Work {
        /// Success, or the failure to be re-raised later.
        status: Result<(), WorkError>,
    },
    /// The diagnostic log text has been printed.
    Printed,
}

/// What the driver must do next.
pub enum Action {
    /// Invoke the start subcommand with these argument tokens and feed back
    /// the captured container handle.
    InvokeRun {
        /// The start arguments, passed through as discrete tokens.
        args: Vec<String>,
    },
    /// Run the unit of work, exactly once.
    DoWork,
    /// Invoke the log-fetch subcommand with the handle as its sole argument.
    InvokeLogs {
        /// The container handle to fetch logs for.
        handle: String,
    },
    /// Print this log text, clearly bracketed, as a diagnostic aid.
    PrintDiagnostics {
        /// The fetched log text.
        logs: String,
    },
    /// Invoke the teardown subcommand with the handle as its sole argument.
    InvokeKill {
        /// The container handle to tear down.
        handle: String,
    },
    /// The run is over; the outcome stands in the machine's `Done` phase.
    Finish,
}

impl Action {
    /// The concrete command invocation for an action that invokes the
    /// container-management executable, and `None` for the others. The
    /// subcommands are the fixed three of the protocol — `run`, `logs`,
    /// `kill` — and every caller-supplied token is passed through discrete
    /// and unchanged.
    pub fn command_line(&self) -> (r: Option<Invocation>)
        ensures
            match *self {
                Action::InvokeRun { args } => r matches Some(inv) && inv.program@ == "docker"@
                    && inv.tokens@.len() == args@.len() + 1 && inv.tokens@[0]@ == "run"@ && forall|
                    i: int,
                |
                    0 <= i < args@.len() ==> inv.tokens@[i + 1] == args@[i],
                Action::InvokeLogs { handle } => r matches Some(inv) && inv.program@ == "docker"@
                    && inv.tokens@.len() == 2 && inv.tokens@[0]@ == "logs"@ && inv.tokens@[1]
                    == handle,
                Action::InvokeKill { handle } => r matches Some(inv) && inv.program@ == "docker"@
                    && inv.tokens@.len() == 2 && inv.tokens@[0]@ == "kill"@ && inv.tokens@[1]
                    == handle,
                _ => r is None,
            },
    {
        match self {
            Action::InvokeRun { args } => Some(
                build_invocation(
                    String::from_str("docker"),
                    String::from_str("run"),
                    clone_tokens(args),
                ),
            ),
            Action::InvokeLogs { handle } => Some(
                build_invocation(
                    String::from_str("docker"),
                    String::from_str("logs"),
                    vec![handle.clone()],
                ),
            ),
            Action::InvokeKill { handle } => Some(
                build_invocation(
                    String::from_str("docker"),
                    String::from_str("kill"),
                    vec![handle.clone()],
                ),
            ),
            _ => None,
        }
    }
}

/// Copy a token list; every token of the copy is the same string.
fn clone_tokens(tokens: &Vec<String>) -> (r: Vec<String>)
    ensures
        r@ == tokens@,
{
    let mut r: Vec<String> = Vec::new();
    let mut k: usize = 0;
    while k < tokens.len()
        invariant
            k <= tokens@.len(),
            r@ =~= tokens@.subrange(0, k as int),
        decreases tokens@.len() - k,
    {
        r.push(tokens[k].clone());
        k += 1;
    }
    proof {
        assert(r@ =~= tokens@);
    }
    r
}

/// The text the driver prints for a `PrintDiagnostics` action: the fetched
/// log output, bracketed by a header that sets it apart from other output.
pub fn framed_diagnostics(logs: &String) -> (r: String)
    ensures
        r@ == "\n---- docker stdout ----\n"@ + logs@,
{
    let mut r = String::from_str("\n---- docker stdout ----\n");
    r.append(logs.as_str());
    r
}

/// Which events the machine can consume in each phase. The driver performs
/// the emitted action and reports exactly the matching event.
pub open spec fn accepts(p: Phase, e: Event) -> bool {
    match p {
        Phase::Starting => e is Command,
        Phase::Running { .. } => e is Work,
        Phase::FetchingLogs { .. } => e is Command,
        Phase::Reporting { .. } => e is Printed,
        Phase::Killing { .. } => e is Command,
        Phase::Done { .. } => false,
    }
}

/// The outcome a completed teardown settles for each pending report.
pub open spec fn settled(pending: Pending) -> Outcome {
    match pending {
        Pending::Clean => Outcome::Completed,
        Pending::WorkFailure { failure } => Outcome::WorkFailed { failure },
        Pending::Superseded { error, failure } => Outcome::Fatal {
            error,
            work_failure: Some(failure),
        },
    }
}

/// The work failure a pending report carries, if any.
pub open spec fn carried_failure(pending: Pending) -> Option<WorkError> {
    match pending {
        Pending::Clean => None,
        Pending::WorkFailure { failure } => Some(failure),
        Pending::Superseded { error: _, failure } => Some(failure),
    }
}

/// The machine's transition function: the phase after consuming `e` in `p`.
///
/// A fatal error from the diagnostic fetch or from the teardown supersedes an
/// earlier work failure in the reported outcome, but the original failure is
/// carried alongside it rather than dropped, and the teardown is still issued
/// after a failed diagnostic fetch.
pub open spec fn lifecycle_next(p: Phase, e: Event) -> Phase {
    match (p, e) {
        (Phase::Starting, Event::Command { result }) => match result {
            Ok(handle) => Phase::Running { handle },
            Err(error) => Phase::Done {
                outcome: Outcome::Fatal { error, work_failure: None },
            },
        },
        (Phase::Running { handle }, Event::Work { status }) => match status {
            Ok(_) => Phase::Killing { handle, pending: Pending::Clean },
            Err(failure) => Phase::FetchingLogs { handle, failure },
        },
        (Phase::FetchingLogs { handle, failure }, Event::Command { result }) => match result {
            Ok(logs) => Phase::Reporting { handle, failure, logs },
            Err(error) => Phase::Killing {
                handle,
                pending: Pending::Superseded { error, failure },
            },
        },
        (Phase::Reporting { handle, failure, logs: _ }, Event::Printed) => Phase::Killing {
            handle,
            pending: Pending::WorkFailure { failure },
        },
        (Phase::Killing { handle: _, pending }, Event::Command { result }) => match result {
            Ok(_) => Phase::Done { outcome: settled(pending) },
            Err(error) => Phase::Done {
                outcome: Outcome::Fatal { error, work_failure: carried_failure(pending) },
            },
        },
        (q, _) => q,
    }
}

/// The action the machine emits when consuming `e` in `p`.
pub open spec fn lifecycle_emit(p: Phase, e: Event) -> Action {
    match (p, e) {
        (Phase::Starting, Event::Command { result }) => match result {
            Ok(_) => Action::DoWork,
            Err(_) => Action::Finish,
        },
        (Phase::Running { handle }, Event::Work { status }) => match status {
            Ok(_) => Action::InvokeKill { handle },
            Err(_) => Action::InvokeLogs { handle },
        },
        (Phase::FetchingLogs { handle, failure: _ }, Event::Command { result }) => match result {
            Ok(logs) => Action::PrintDiagnostics { logs },
            Err(_) => Action::InvokeKill { handle },
        },
        (Phase::Reporting { handle, failure: _, logs: _ }, Event::Printed) => Action::InvokeKill {
            handle,
        },
        (Phase::Killing { handle: _, pending: _ }, Event::Command { result: _ }) => Action::Finish,
        (_, _) => Action::Finish,
    }
}

/// The supervisor for one invocation of the wrapper. It owns the container
/// handle for the invocation's whole duration and never exposes it except
/// inside the actions that address the container.
pub struct Supervisor {
    /// The current phase.
    pub phase: Phase,
    /// The handle the start step returned, once it has; `None` before and
    /// when the start step failed.
    pub started_handle: Ghost<Option<String>>,
    /// Every action emitted so far, in order.
    pub history: Ghost<Seq<Action>>,
}

impl Supervisor {
    /// The supervisor's invariant: the emitted history is pinned down by the
    /// phase. The start action comes first; the unit of work is invoked at
    /// most once; the diagnostic fetch and the teardown address exactly the
    /// started handle; and a finished run's history is complete.
    pub open spec fn inv(self) -> bool {
        let h = self.history@;
        match self.phase {
            Phase::Starting => self.started_handle@ is None && h.len() == 1 && h[0] is InvokeRun,
            Phase::Running { handle } => self.started_handle@ == Some(handle) && h.len() == 2
                && h[0] is InvokeRun && h[1] == Action::DoWork,
            Phase::FetchingLogs { handle, failure: _ } => self.started_handle@ == Some(handle)
                && h.len() == 3 && h[0] is InvokeRun && h[1] == Action::DoWork && h[2] == (
            Action::InvokeLogs { handle }),
            Phase::Reporting { handle, failure: _, logs } => self.started_handle@ == Some(handle)
                && h.len() == 4 && h[0] is InvokeRun && h[1] == Action::DoWork && h[2] == (
            Action::InvokeLogs { handle }) && h[3] == (Action::PrintDiagnostics { logs }),
            Phase::Killing { handle, pending } => self.started_handle@ == Some(handle) && match pending {
                Pending::Clean => h.len() == 3 && h[0] is InvokeRun && h[1] == Action::DoWork && h[2]
                    == (Action::InvokeKill { handle }),
                Pending::WorkFailure { failure: _ } => h.len() == 5 && h[0] is InvokeRun && h[1]
                    == Action::DoWork && h[2] == (Action::InvokeLogs { handle })
                    && h[3] is PrintDiagnostics && h[4] == (Action::InvokeKill { handle }),
                Pending::Superseded { error: _, failure: _ } => h.len() == 4 && h[0] is InvokeRun
                    && h[1] == Action::DoWork && h[2] == (Action::InvokeLogs { handle }) && h[3] == (
                Action::InvokeKill { handle }),
            },
            Phase::Done { outcome: _ } => h.len() >= 2 && h.last() == Action::Finish && match self.started_handle@ {
                None => h.len() == 2 && h[0] is InvokeRun,
                Some(handle) => (h.len() == 4 && h[0] is InvokeRun && h[1] == Action::DoWork && h[2]
                    == (Action::InvokeKill { handle })) || (h.len() == 6 && h[0] is InvokeRun
                    && h[1] == Action::DoWork && h[2] == (Action::InvokeLogs { handle })
                    && h[3] is PrintDiagnostics && h[4] == (Action::InvokeKill { handle })) || (
                h.len() == 5 && h[0] is InvokeRun && h[1] == Action::DoWork && h[2] == (
                Action::InvokeLogs { handle }) && h[3] == (Action::InvokeKill { handle })),
            },
        }
    }

    /// Begin one supervised invocation: the machine enters `Starting` and
    /// asks the driver to issue the start command with `start_args`.
    pub fn begin(start_args: Vec<String>) -> (r: (Supervisor, Action))
        ensures
            r.0.inv(),
            r.0.phase is Starting,
            r.0.started_handle@ is None,
            r.1 == (Action::InvokeRun { args: start_args }),
            r.0.history@ == seq![r.1],
    {
        let action = Action::InvokeRun { args: start_args };
        let ghost h: Seq<Action> = seq![action];
        let s = Supervisor { phase: Phase::Starting, started_handle: Ghost(None), history: Ghost(h) };
        (s, action)
    }

    /// Consume one event and emit the next action. The full transition is
    /// `lifecycle_next` / `lifecycle_emit`; the emitted action is appended to
    /// the history.
    pub fn step(&mut self, event: Event) -> (r: Action)
        requires
            old(self).inv(),
            accepts(old(self).phase, event),
        ensures
            final(self).inv(),
            final(self).phase == lifecycle_next(old(self).phase, event),
            r == lifecycle_emit(old(self).phase, event),
            final(self).history@ == old(self).history@.push(r),
    {
        let mut phase = Phase::Starting;
        core::mem::swap(&mut phase, &mut self.phase);
        let (next, action): (Phase, Action) = match (phase, event) {
            (Phase::Starting, Event::Command { result }) => match result {
                Ok(handle) => {
                    proof {
                        self.started_handle@ = Some(handle);
                    }
                    (Phase::Running { handle }, Action::DoWork)
                },
                Err(error) => (
                    Phase::Done { outcome: Outcome::Fatal { error, work_failure: None } },
                    Action::Finish,
                ),
            },
            (Phase::Running { handle }, Event::Work { status }) => match status {
                Ok(_) => {
                    let action = Action::InvokeKill { handle: handle.clone() };
                    (Phase::Killing { handle, pending: Pending::Clean }, action)
                },
                Err(failure) => {
                    let action = Action::InvokeLogs { handle: handle.clone() };
                    (Phase::FetchingLogs { handle, failure }, action)
                },
            },
            (Phase::FetchingLogs { handle, failure }, Event::Command { result }) => match result {
                Ok(logs) => {
                    let action = Action::PrintDiagnostics { logs: logs.clone() };
                    (Phase::Reporting { handle, failure, logs }, action)
                },
                Err(error) => {
                    let action = Action::InvokeKill { handle: handle.clone() };
                    (
                        Phase::Killing {
                            handle,
                            pending: Pending::Superseded { error, failure },
                        },
                        action,
                    )
                },
            },
            (Phase::Reporting { handle, failure, logs: _ }, Event::Printed) => {
                let action = Action::InvokeKill { handle: handle.clone() };
                (Phase::Killing { handle, pending: Pending::WorkFailure { failure } }, action)
            },
            (Phase::Killing { handle: _, pending }, Event::Command { result }) => match result {
                Ok(_) => (Phase::Done { outcome: settle_pending(pending) }, Action::Finish),
                Err(error) => (
                    Phase::Done {
                        outcome: Outcome::Fatal {
                            error,
                            work_failure: take_carried_failure(pending),
                        },
                    },
                    Action::Finish,
                ),
            },
            (_, _) => vstd::pervasive::unreached(),
        };
        self.phase = next;
        proof {
            self.history@ = self.history@.push(action);
        }
        action
    }
}

/// How many teardown calls a history of emitted actions holds.
pub open spec fn teardown_count(h: Seq<Action>) -> nat
    decreases h.len(),
{
    if h.len() == 0 {
        0
    } else {
        teardown_count(h.drop_last()) + if h.last() is InvokeKill {
            1nat
        } else {
            0nat
        }
    }
}

/// Cleanup guarantee: in a finished invocation whose start step succeeded,
/// exactly one teardown call was issued, and it addressed the handle the
/// start step returned; when the start step failed, no teardown call was
/// issued at all.
pub proof fn lemma_cleanup_guarantee(s: Supervisor)
    requires
        s.inv(),
        s.phase is Done,
    ensures
        s.started_handle@ matches Some(handle) ==> teardown_count(s.history@) == 1
            && s.history@.contains((Action::InvokeKill { handle })),
        s.started_handle@ is None ==> teardown_count(s.history@) == 0,
{
    let h = s.history@;
    match s.started_handle@ {
        Some(handle) => {
            assert(h[h.len() - 2] == (Action::InvokeKill { handle }));
            assert(h.contains((Action::InvokeKill { handle })));
            lemma_single_teardown(h, h.len() - 2);
        },
        None => {
            lemma_no_teardown(h);
        },
    }
}

/// A history without any teardown call counts zero of them.
proof fn lemma_no_teardown(h: Seq<Action>)
    requires
        forall|i: int| 0 <= i < h.len() ==> !(h[i] is InvokeKill),
    ensures
        teardown_count(h) == 0,
    decreases h.len(),
{
    if h.len() > 0 {
        lemma_no_teardown(h.drop_last());
    }
}

/// A history whose only teardown call stands at position `j` counts one.
proof fn lemma_single_teardown(h: Seq<Action>, j: int)
    requires
        0 <= j < h.len(),
        h[j] is InvokeKill,
        forall|i: int| 0 <= i < h.len() && i != j ==> !(h[i] is InvokeKill),
    ensures
        teardown_count(h) == 1,
    decreases h.len(),
{
    if j == h.len() - 1 {
        lemma_no_teardown(h.drop_last());
    } else {
        lemma_single_teardown(h.drop_last(), j);
    }
}

/// Diagnostic ordering: whenever the emitted history holds both a log-fetch
/// and a teardown call, the log fetch came strictly first, and both address
/// exactly the handle the start step returned. With the cleanup guarantee
/// this pins the failing path down: logs are fetched for the started
/// container before it is torn down.
pub proof fn lemma_diagnostics_precede_teardown(s: Supervisor, i: int, j: int)
    requires
        s.inv(),
        0 <= i < s.history@.len(),
        0 <= j < s.history@.len(),
        s.history@[i] is InvokeLogs,
        s.history@[j] is InvokeKill,
    ensures
        i < j,
        s.started_handle@ matches Some(handle) && s.history@[i] == (Action::InvokeLogs { handle })
            && s.history@[j] == (Action::InvokeKill { handle }),
{
}

/// Success transparency: when the unit of work succeeds and the teardown
/// command then succeeds, the invocation finishes completed — the wrapper
/// hands its caller the work's own result and nothing else.
pub proof fn lemma_success_transparency(p: Phase, ack: String)
    requires
        p is Running,
    ensures
        ({
            let p1 = lifecycle_next(p, (Event::Work { status: Ok(()) }));
            let p2 = lifecycle_next(p1, (Event::Command { result: Ok(ack) }));
            p2 == (Phase::Done { outcome: Outcome::Completed })
        }),
{
}

/// Failure transparency: when the unit of work fails and the diagnostic and
/// teardown commands then both succeed, the invocation finishes with the very
/// failure the work raised — same identity, not wrapped, not masked.
pub proof fn lemma_failure_transparency(
    p: Phase,
    failure: WorkError,
    logs: String,
    ack: String,
)
    requires
        p is Running,
    ensures
        ({
            let p1 = lifecycle_next(p, (Event::Work { status: Err(failure) }));
            let p2 = lifecycle_next(p1, (Event::Command { result: Ok(logs) }));
            let p3 = lifecycle_next(p2, Event::Printed);
            let p4 = lifecycle_next(p3, (Event::Command { result: Ok(ack) }));
            p4 == (Phase::Done { outcome: (Outcome::WorkFailed { failure }) })
        }),
{
}

/// Compute the settled outcome for a completed teardown.
fn settle_pending(pending: Pending) -> (r: Outcome)
    ensures
        r == settled(pending),
{
    match pending {
        Pending::Clean => Outcome::Completed,
        Pending::WorkFailure { failure } => Outcome::WorkFailed { failure },
        Pending::Superseded { error, failure } => Outcome::Fatal {
            error,
            work_failure: Some(failure),
        },
    }
}

/// Extract the work failure a pending report carries, if any.
fn take_carried_failure(pending: Pending) -> (r: Option<WorkError>)
    ensures
        r == carried_failure(pending),
{
    match pending {
        Pending::Clean => None,
        Pending::WorkFailure { failure } => Some(failure),
        Pending::Superseded { error: _, failure } => Some(failure),
    }
}

} // verus!
