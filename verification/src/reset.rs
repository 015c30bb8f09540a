//! The steps of resetting one Pi agent: quit it, wait until Herdr no longer
//! lists it, then start it again on its recorded session.

use vstd::prelude::*;
use crate::herdr::{AgentInfo, unit_result_view};
use crate::pi::ResetCandidate;
use crate::text::{joined, str_eq};

verus! {

/// How long a reset waits for the old Pi to disappear, in seconds.
pub const EXIT_WAIT_SECS: u64 = 15;

/// How long a reset waits between two looks at the agent list, in milliseconds.
pub const EXIT_POLL_MILLIS: u64 = 500;

/// A character that Unix shell escaping leaves as it is.
pub open spec fn shell_plain_char(c: char) -> bool {
    ('a' <= c && c <= 'z') || ('A' <= c && c <= 'Z') || ('0' <= c && c <= '9') || c == '-' || c
        == '_' || c == '=' || c == '/' || c == ',' || c == '.' || c == '+'
}

/// The inside of a single-quoted word: `'` and `!` close the quote, are
/// written escaped, and the quote opens again.
pub open spec fn quoted_body(s: Seq<char>) -> Seq<char>
    decreases s.len(),
{
    if s.len() == 0 {
        seq![]
    } else if s.last() == '\'' || s.last() == '!' {
        quoted_body(s.drop_last()) + seq!['\'', '\\', s.last(), '\'']
    } else {
        quoted_body(s.drop_last()).push(s.last())
    }
}

/// What `shell_escape::unix::escape` makes of `s`: `s` itself when it is
/// non-empty and all plain, otherwise `s` single-quoted.
pub open spec fn unix_shell_escape(s: Seq<char>) -> Seq<char> {
    if s.len() > 0 && forall|i: int| 0 <= i < s.len() ==> shell_plain_char(#[trigger] s[i]) {
        s
    } else {
        seq!['\''] + quoted_body(s) + seq!['\'']
    }
}

/// Calls `shell_escape::unix::escape`. Its source returns the text unchanged
/// when it is non-empty and every character is an ASCII letter, digit or one
/// of `-_=/,.+`; otherwise it wraps the text in single quotes and writes each
/// `'` and `!` as `'\` followed by the character and `'`. The contract states
/// exactly that.
#[verifier::external_body]
fn shell_escape_unix(s: &str) -> (r: String)
    ensures
        r@ == unix_shell_escape(s@),
{
    shell_escape::unix::escape(std::borrow::Cow::Borrowed(s)).into_owned()
}

/// The command that starts Pi again on a session file.
pub open spec fn start_command_text(session_path: Seq<char>) -> Seq<char> {
    "pi --session "@ + unix_shell_escape(session_path)
}

/// Writes the command that starts Pi again on a session file, the path
/// escaped for the shell.
pub fn start_command(session_path: &str) -> (c: String)
    ensures
        c@ == start_command_text(session_path@),
{
    let escaped = shell_escape_unix(session_path);
    joined("pi --session ", escaped.as_str())
}

/// Whether Herdr still lists a Pi agent in the pane.
pub open spec fn pi_in_pane(agents: Seq<AgentInfo>, pane_id: Seq<char>) -> bool {
    exists|i: int| 0 <= i < agents.len() && (#[trigger] agents[i]).agent@ == "pi"@ && agents[i].pane_id@ == pane_id
}

/// What one look at the agent list tells a reset waiting for Pi to exit.
pub enum ExitPoll {
    /// No Pi agent is listed in the pane any more.
    Exited,
    /// A Pi agent is still listed in the pane: look again later.
    StillRunning,
    /// The agent list could not be had.
    Failed(String),
}

fn pi_listed_in_pane(list: &Vec<AgentInfo>, pane_id: &str) -> (r: bool)
    ensures
        r == pi_in_pane(list@, pane_id@),
{
    let mut i: usize = 0;
    while i < list.len()
        invariant
            i <= list@.len(),
            forall|j: int|
                0 <= j < i ==> !((#[trigger] list@[j]).agent@ == "pi"@ && list@[j].pane_id@ == pane_id@),
        decreases list@.len() - i,
    {
        if str_eq(list[i].agent.as_str(), "pi") && str_eq(list[i].pane_id.as_str(), pane_id) {
            assert(list@[i as int].agent@ == "pi"@ && list@[i as int].pane_id@ == pane_id@);
            return true;
        }
        i = i + 1;
    }
    false
}

/// Judges one look at the agent list while waiting for Pi to leave a pane.
pub fn exit_poll(agents: &Result<Vec<AgentInfo>, String>, pane_id: &str) -> (r: ExitPoll)
    ensures
        match agents {
            Ok(list) => if pi_in_pane(list@, pane_id@) {
                r is StillRunning
            } else {
                r is Exited
            },
            Err(e) => r matches ExitPoll::Failed(m) && m@ == e@,
        },
{
    match agents {
        Ok(list) => {
            if pi_listed_in_pane(list, pane_id) {
                ExitPoll::StillRunning
            } else {
                ExitPoll::Exited
            }
        },
        Err(e) => ExitPoll::Failed(e.clone()),
    }
}

/// The error of a wait that ran out of time.
pub fn exit_timeout_message(pane_id: &str, elapsed: &str) -> (s: String)
    ensures
        s@ == "Error, timeout reached for pane_id: "@ + pane_id@ + " - error: "@ + elapsed@,
{
    let mut s = String::from_str("Error, timeout reached for pane_id: ");
    s.append(pane_id);
    s.append(" - error: ");
    s.append(elapsed);
    s
}

/// Where the reset of one candidate stands.
#[derive(PartialEq, Eq, Structural, Debug, Clone, Copy)]
pub enum ResetStage {
    SendingQuit,
    WaitingForExit,
    StartingPi,
    Finished,
}

/// The reset of one candidate.
pub struct ResetRun {
    pub pane_id: String,
    pub session_path: String,
    pub stage: ResetStage,
}

/// What the reset of one candidate asks of the outside next.
pub enum ResetAction {
    /// Run `command` in the pane through Herdr and report how it went.
    RunInPane { pane_id: String, command: String },
    /// Wait until Herdr no longer lists Pi in the pane and report how it went.
    WaitForExit { pane_id: String },
    /// The reset is over, with this result.
    Finish(Result<(), String>),
}

/// A `ResetAction` with its strings taken as text.
pub enum ResetActionView {
    RunInPane(Seq<char>, Seq<char>),
    WaitForExit(Seq<char>),
    Finish(Result<(), Seq<char>>),
}

impl View for ResetAction {
    type V = ResetActionView;

    open spec fn view(&self) -> ResetActionView {
        match self {
            ResetAction::RunInPane { pane_id, command } => ResetActionView::RunInPane(pane_id@, command@),
            ResetAction::WaitForExit { pane_id } => ResetActionView::WaitForExit(pane_id@),
            ResetAction::Finish(r) => ResetActionView::Finish(unit_result_view(*r)),
        }
    }
}

/// The error of a reset step, naming what failed and the pane.
pub open spec fn step_failure_text(what: Seq<char>, pane_id: Seq<char>, error: Seq<char>) -> Seq<char> {
    what + pane_id + " - error: "@ + error
}

/// The next stage and action of a reset, given how the current step went.
pub open spec fn reset_next(
    stage: ResetStage,
    pane_id: Seq<char>,
    session_path: Seq<char>,
    outcome: Result<(), Seq<char>>,
) -> (ResetStage, ResetActionView) {
    match (stage, outcome) {
        (ResetStage::SendingQuit, Ok(_)) => (ResetStage::WaitingForExit, ResetActionView::WaitForExit(pane_id)),
        (ResetStage::SendingQuit, Err(e)) => (
            ResetStage::Finished,
            ResetActionView::Finish(Err(step_failure_text("Error with resetting pane: "@, pane_id, e))),
        ),
        (ResetStage::WaitingForExit, Ok(_)) => (
            ResetStage::StartingPi,
            ResetActionView::RunInPane(pane_id, start_command_text(session_path)),
        ),
        (ResetStage::WaitingForExit, Err(e)) => (
            ResetStage::Finished,
            ResetActionView::Finish(Err(step_failure_text("Error with exiting pi on pane: "@, pane_id, e))),
        ),
        (ResetStage::StartingPi, Ok(_)) => (ResetStage::Finished, ResetActionView::Finish(Ok(()))),
        (ResetStage::StartingPi, Err(e)) => (
            ResetStage::Finished,
            ResetActionView::Finish(Err(step_failure_text("Error with starting pi on pane: "@, pane_id, e))),
        ),
        (ResetStage::Finished, o) => (ResetStage::Finished, ResetActionView::Finish(o)),
    }
}

fn step_failure(what: &str, pane_id: &str, error: &str) -> (s: String)
    ensures
        s@ == step_failure_text(what@, pane_id@, error@),
{
    let mut s = String::from_str(what);
    s.append(pane_id);
    s.append(" - error: ");
    s.append(error);
    s
}

impl ResetRun {
    /// Starts the reset of a candidate: its first action sends `/quit` to the pane.
    pub fn begin(candidate: &ResetCandidate) -> (r: (ResetRun, ResetAction))
        ensures
            r.0.pane_id@ == candidate.pane_id@,
            r.0.session_path@ == candidate.session_path@,
            r.0.stage == ResetStage::SendingQuit,
            r.1@ == ResetActionView::RunInPane(candidate.pane_id@, "/quit"@),
    {
        let run = ResetRun {
            pane_id: candidate.pane_id.clone(),
            session_path: candidate.session_path.clone(),
            stage: ResetStage::SendingQuit,
        };
        let action = ResetAction::RunInPane {
            pane_id: candidate.pane_id.clone(),
            command: String::from_str("/quit"),
        };
        (run, action)
    }

    /// Takes in how the last action went and gives the next one.
    pub fn advance(&mut self, outcome: Result<(), String>) -> (a: ResetAction)
        requires
            old(self).stage != ResetStage::Finished,
        ensures
            (final(self).stage, a@) == reset_next(
                old(self).stage,
                old(self).pane_id@,
                old(self).session_path@,
                unit_result_view(outcome),
            ),
            final(self).pane_id == old(self).pane_id,
            final(self).session_path == old(self).session_path,
    {
        match outcome {
            Ok(_) => {
                match self.stage {
                    ResetStage::SendingQuit => {
                        self.stage = ResetStage::WaitingForExit;
                        ResetAction::WaitForExit { pane_id: self.pane_id.clone() }
                    },
                    ResetStage::WaitingForExit => {
                        self.stage = ResetStage::StartingPi;
                        let command = start_command(self.session_path.as_str());
                        ResetAction::RunInPane { pane_id: self.pane_id.clone(), command }
                    },
                    _ => {
                        self.stage = ResetStage::Finished;
                        ResetAction::Finish(Ok(()))
                    },
                }
            },
            Err(e) => {
                let what = match self.stage {
                    ResetStage::SendingQuit => "Error with resetting pane: ",
                    ResetStage::WaitingForExit => "Error with exiting pi on pane: ",
                    _ => "Error with starting pi on pane: ",
                };
                let msg = step_failure(what, self.pane_id.as_str(), e.as_str());
                self.stage = ResetStage::Finished;
                ResetAction::Finish(Err(msg))
            },
        }
    }
}

/// The number of steps a reset has taken.
pub open spec fn stage_rank(stage: ResetStage) -> nat {
    match stage {
        ResetStage::SendingQuit => 0,
        ResetStage::WaitingForExit => 1,
        ResetStage::StartingPi => 2,
        ResetStage::Finished => 3,
    }
}

/// Every step moves a reset forward, so it finishes within three reported
/// outcomes; a failed step finishes it at once with an error and asks for
/// nothing more.
pub proof fn reset_run_moves_forward(
    stage: ResetStage,
    pane_id: Seq<char>,
    session_path: Seq<char>,
    outcome: Result<(), Seq<char>>,
)
    requires
        stage != ResetStage::Finished,
    ensures
        stage_rank(reset_next(stage, pane_id, session_path, outcome).0) > stage_rank(stage),
        outcome is Err ==> reset_next(stage, pane_id, session_path, outcome).0 == ResetStage::Finished
            && reset_next(stage, pane_id, session_path, outcome).1 matches ResetActionView::Finish(Err(_)),
{
}

/// A reset whose steps all succeed quits Pi, waits for it to exit, starts it
/// again with `pi --session` and the escaped path, and finishes with `Ok`.
pub proof fn reset_run_success_path(pane_id: Seq<char>, session_path: Seq<char>)
    ensures
        reset_next(ResetStage::SendingQuit, pane_id, session_path, Ok(())) == (
            ResetStage::WaitingForExit,
            ResetActionView::WaitForExit(pane_id),
        ),
        reset_next(ResetStage::WaitingForExit, pane_id, session_path, Ok(())) == (
            ResetStage::StartingPi,
            ResetActionView::RunInPane(pane_id, start_command_text(session_path)),
        ),
        reset_next(ResetStage::StartingPi, pane_id, session_path, Ok(())) == (
            ResetStage::Finished,
            ResetActionView::Finish(Ok(())),
        ),
{
}

/// A reset keeps waiting exactly while some agent of the list, at any
/// position, is a Pi agent in the pane; agents in other panes, or other agents
/// in the pane, do not hold it back.
pub proof fn exit_wait_looks_at_every_agent(agents: Seq<AgentInfo>, pane_id: Seq<char>, k: int)
    ensures
        pi_in_pane(agents, pane_id) <==> exists|i: int|
            0 <= i < agents.len() && agents[i].agent@ == "pi"@ && #[trigger] agents[i].pane_id@ == pane_id,
        (0 <= k < agents.len() && agents[k].agent@ == "pi"@ && agents[k].pane_id@ == pane_id) ==> pi_in_pane(
            agents,
            pane_id,
        ),
        (forall|i: int| 0 <= i < agents.len() ==> #[trigger] agents[i].pane_id@ != pane_id) ==> !pi_in_pane(
            agents,
            pane_id,
        ),
{
    if 0 <= k < agents.len() && agents[k].agent@ == "pi"@ && agents[k].pane_id@ == pane_id {
        assert(agents[k].agent@ == "pi"@);
    }
    if pi_in_pane(agents, pane_id) {
        let i = choose|i: int|
            0 <= i < agents.len() && (#[trigger] agents[i]).agent@ == "pi"@ && agents[i].pane_id@ == pane_id;
        assert(agents[i].pane_id@ == pane_id);
    }
}

} // verus!
