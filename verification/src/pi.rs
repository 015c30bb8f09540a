//! Which agents are reloaded or reset, and the summaries of both operations.

use vstd::prelude::*;
use crate::herdr::AgentInfo;
use crate::text::{joined, decimal, decimal_string, str_eq};

verus! {

/// How an operation treats one agent record.
#[derive(PartialEq, Eq, Structural, Debug, Clone, Copy)]
pub enum AgentClass {
    /// Not a Pi agent (a record that does not say `pi` included): ignored.
    NonPi,
    /// A Pi agent without a pane id or a status.
    InvalidAgentData,
    /// A Pi agent whose status is neither `idle` nor `done`.
    UnsafeStatus,
    /// A Pi agent eligible for reset that has no session.
    MissingSession,
    /// A Pi agent eligible for reset whose session is not a Pi session path.
    InvalidSession,
    /// An agent that the operation acts on.
    Eligible,
}

/// The statuses in which a Pi agent may be touched.
pub open spec fn is_safe_status(status: Seq<char>) -> bool {
    status == "done"@ || status == "idle"@
}

/// How a reload treats an agent.
pub open spec fn reload_class(a: AgentInfo) -> AgentClass {
    if a.agent@ != "pi"@ {
        AgentClass::NonPi
    } else if a.pane_id@.len() == 0 || a.agent_status@.len() == 0 {
        AgentClass::InvalidAgentData
    } else if !is_safe_status(a.agent_status@) {
        AgentClass::UnsafeStatus
    } else {
        AgentClass::Eligible
    }
}

/// How a reset treats an agent: as a reload does, and an eligible agent
/// needs a session of agent `pi`, kind `path` and a non-empty value.
pub open spec fn reset_class(a: AgentInfo) -> AgentClass {
    if reload_class(a) != AgentClass::Eligible {
        reload_class(a)
    } else {
        match a.agent_session {
            None => AgentClass::MissingSession,
            Some(s) => if s.agent@ == "pi"@ && s.kind@ == "path"@ && s.value@.len() > 0 {
                AgentClass::Eligible
            } else {
                AgentClass::InvalidSession
            },
        }
    }
}

/// The number of agents that a reload puts in class `c`.
pub open spec fn reload_count(agents: Seq<AgentInfo>, c: AgentClass) -> nat
    decreases agents.len(),
{
    if agents.len() == 0 {
        0
    } else {
        reload_count(agents.drop_last(), c) + if reload_class(agents.last()) == c {
            1nat
        } else {
            0nat
        }
    }
}

/// The number of agents that a reset puts in class `c`.
pub open spec fn reset_count(agents: Seq<AgentInfo>, c: AgentClass) -> nat
    decreases agents.len(),
{
    if agents.len() == 0 {
        0
    } else {
        reset_count(agents.drop_last(), c) + if reset_class(agents.last()) == c {
            1nat
        } else {
            0nat
        }
    }
}

/// The panes that a reload sends `/reload` to, in the order of the agents.
pub open spec fn reload_targets_spec(agents: Seq<AgentInfo>) -> Seq<Seq<char>>
    decreases agents.len(),
{
    if agents.len() == 0 {
        seq![]
    } else if reload_class(agents.last()) == AgentClass::Eligible {
        reload_targets_spec(agents.drop_last()).push(agents.last().pane_id@)
    } else {
        reload_targets_spec(agents.drop_last())
    }
}

/// The (pane, session path) pairs that a reset acts on, in the order of the agents.
pub open spec fn reset_candidates_spec(agents: Seq<AgentInfo>) -> Seq<(Seq<char>, Seq<char>)>
    decreases agents.len(),
{
    if agents.len() == 0 {
        seq![]
    } else if reset_class(agents.last()) == AgentClass::Eligible {
        reset_candidates_spec(agents.drop_last()).push(
            (agents.last().pane_id@, agents.last().agent_session.unwrap().value@),
        )
    } else {
        reset_candidates_spec(agents.drop_last())
    }
}

/// Classifies an agent for a reload.
pub fn reload_class_of(a: &AgentInfo) -> (c: AgentClass)
    ensures
        c == reload_class(*a),
{
    if !str_eq(a.agent.as_str(), "pi") {
        AgentClass::NonPi
    } else if a.pane_id.as_str().is_empty() || a.agent_status.as_str().is_empty() {
        AgentClass::InvalidAgentData
    } else if !str_eq(a.agent_status.as_str(), "done") && !str_eq(a.agent_status.as_str(), "idle") {
        AgentClass::UnsafeStatus
    } else {
        AgentClass::Eligible
    }
}

/// Classifies an agent for a reset.
pub fn reset_class_of(a: &AgentInfo) -> (c: AgentClass)
    ensures
        c == reset_class(*a),
{
    let c = reload_class_of(a);
    match c {
        AgentClass::Eligible => {},
        _ => return c,
    }
    match &a.agent_session {
        None => AgentClass::MissingSession,
        Some(s) => {
            if str_eq(s.agent.as_str(), "pi") && str_eq(s.kind.as_str(), "path")
                && !s.value.as_str().is_empty() {
                AgentClass::Eligible
            } else {
                AgentClass::InvalidSession
            }
        },
    }
}

/// A Pi agent that a reset will restart: its pane and its session path.
#[derive(Debug)]
pub struct ResetCandidate {
    pub pane_id: String,
    pub session_path: String,
}

/// How a reset classified the agent list.
#[derive(Debug)]
pub struct ResetCandidatesSummary {
    pub candidates: usize,
    pub skipped_non_pi: usize,
    pub skipped_unsafe_status: usize,
    pub skipped_invalid_agent_data: usize,
    pub skipped_missing_session: usize,
    pub skipped_invalid_session: usize,
}

/// The counters of a `ResetCandidatesSummary` match the classes of `agents`.
pub open spec fn candidates_summary_counts(s: ResetCandidatesSummary, agents: Seq<AgentInfo>) -> bool {
    &&& s.candidates == reset_count(agents, AgentClass::Eligible)
    &&& s.skipped_non_pi == reset_count(agents, AgentClass::NonPi)
    &&& s.skipped_unsafe_status == reset_count(agents, AgentClass::UnsafeStatus)
    &&& s.skipped_invalid_agent_data == reset_count(agents, AgentClass::InvalidAgentData)
    &&& s.skipped_missing_session == reset_count(agents, AgentClass::MissingSession)
    &&& s.skipped_invalid_session == reset_count(agents, AgentClass::InvalidSession)
}

/// The candidates, taken as (pane, session path) pairs.
pub open spec fn candidates_view(c: Seq<ResetCandidate>) -> Seq<(Seq<char>, Seq<char>)> {
    c.map_values(|r: ResetCandidate| (r.pane_id@, r.session_path@))
}

proof fn lemma_reset_count_bound(agents: Seq<AgentInfo>, c: AgentClass)
    ensures
        reset_count(agents, c) <= agents.len(),
    decreases agents.len(),
{
    if agents.len() > 0 {
        lemma_reset_count_bound(agents.drop_last(), c);
    }
}

/// Picks the Pi agents to reset, in order, and counts every other agent by
/// the reason it was left out.
pub fn get_reset_candidates(agent_list: &[AgentInfo]) -> (r: (Vec<ResetCandidate>, ResetCandidatesSummary))
    ensures
        candidates_view(r.0@) == reset_candidates_spec(agent_list@),
        candidates_summary_counts(r.1, agent_list@),
{
    let mut summary = ResetCandidatesSummary {
        candidates: 0,
        skipped_non_pi: 0,
        skipped_unsafe_status: 0,
        skipped_invalid_agent_data: 0,
        skipped_missing_session: 0,
        skipped_invalid_session: 0,
    };
    let mut candidates: Vec<ResetCandidate> = Vec::new();
    let mut i: usize = 0;
    while i < agent_list.len()
        invariant
            i <= agent_list@.len(),
            candidates_view(candidates@) == reset_candidates_spec(agent_list@.take(i as int)),
            candidates_summary_counts(summary, agent_list@.take(i as int)),
        decreases agent_list@.len() - i,
    {
        let ghost prefix = agent_list@.take(i as int);
        let ghost next = agent_list@.take(i + 1);
        assert(next.drop_last() =~= prefix);
        assert(next.last() == agent_list@[i as int]);
        proof {
            lemma_reset_count_bound(prefix, AgentClass::Eligible);
            lemma_reset_count_bound(prefix, AgentClass::NonPi);
            lemma_reset_count_bound(prefix, AgentClass::UnsafeStatus);
            lemma_reset_count_bound(prefix, AgentClass::InvalidAgentData);
            lemma_reset_count_bound(prefix, AgentClass::MissingSession);
            lemma_reset_count_bound(prefix, AgentClass::InvalidSession);
        }
        let value = &agent_list[i];
        match reset_class_of(value) {
            AgentClass::NonPi => {
                summary.skipped_non_pi = summary.skipped_non_pi + 1;
            },
            AgentClass::InvalidAgentData => {
                summary.skipped_invalid_agent_data = summary.skipped_invalid_agent_data + 1;
            },
            AgentClass::UnsafeStatus => {
                summary.skipped_unsafe_status = summary.skipped_unsafe_status + 1;
            },
            AgentClass::MissingSession => {
                summary.skipped_missing_session = summary.skipped_missing_session + 1;
            },
            AgentClass::InvalidSession => {
                summary.skipped_invalid_session = summary.skipped_invalid_session + 1;
            },
            AgentClass::Eligible => {
                let session_path = match &value.agent_session {
                    Some(s) => s.value.clone(),
                    None => String::new(),
                };
                let ghost before = candidates@;
                candidates.push(ResetCandidate { pane_id: value.pane_id.clone(), session_path });
                summary.candidates = summary.candidates + 1;
                assert(candidates_view(candidates@) =~= candidates_view(before).push(
                    (value.pane_id@, value.agent_session.unwrap().value@),
                ));
            },
        }
        i = i + 1;
    }
    assert(agent_list@.take(agent_list@.len() as int) =~= agent_list@);
    (candidates, summary)
}

/// Every agent falls in exactly one reload class: the counters of the four
/// classes a reload uses add up to the number of agents, and none is put in a
/// session class.
pub proof fn reload_classes_cover_agents(agents: Seq<AgentInfo>)
    ensures
        reload_count(agents, AgentClass::NonPi) + reload_count(agents, AgentClass::InvalidAgentData)
            + reload_count(agents, AgentClass::UnsafeStatus) + reload_count(agents, AgentClass::Eligible)
            == agents.len(),
        reload_count(agents, AgentClass::MissingSession) == 0,
        reload_count(agents, AgentClass::InvalidSession) == 0,
    decreases agents.len(),
{
    if agents.len() > 0 {
        reload_classes_cover_agents(agents.drop_last());
    }
}

/// Every agent falls in exactly one reset class: the six counters add up to
/// the number of agents.
pub proof fn reset_classes_cover_agents(agents: Seq<AgentInfo>)
    ensures
        reset_count(agents, AgentClass::NonPi) + reset_count(agents, AgentClass::InvalidAgentData)
            + reset_count(agents, AgentClass::UnsafeStatus) + reset_count(agents, AgentClass::MissingSession)
            + reset_count(agents, AgentClass::InvalidSession) + reset_count(agents, AgentClass::Eligible)
            == agents.len(),
    decreases agents.len(),
{
    if agents.len() > 0 {
        reset_classes_cover_agents(agents.drop_last());
    }
}

/// A reload sends `/reload` once per eligible agent, and a reset picks one
/// candidate per eligible agent.
pub proof fn one_action_per_eligible_agent(agents: Seq<AgentInfo>)
    ensures
        reload_targets_spec(agents).len() == reload_count(agents, AgentClass::Eligible),
        reset_candidates_spec(agents).len() == reset_count(agents, AgentClass::Eligible),
    decreases agents.len(),
{
    if agents.len() > 0 {
        one_action_per_eligible_agent(agents.drop_last());
    }
}

/// Only idle or done Pi agents are acted on: each pane that a reload targets
/// belongs to such an agent of the list.
pub proof fn reload_targets_are_idle_pi(agents: Seq<AgentInfo>)
    ensures
        forall|k: int|
            #![trigger reload_targets_spec(agents)[k]]
            0 <= k < reload_targets_spec(agents).len() ==> exists|j: int|
                #![trigger agents[j]]
                0 <= j < agents.len() && agents[j].pane_id@ == reload_targets_spec(agents)[k]
                    && agents[j].agent@ == "pi"@ && (agents[j].agent_status@ == "idle"@ || agents[j].agent_status@ == "done"@),
    decreases agents.len(),
{
    if agents.len() > 0 {
        let rest = agents.drop_last();
        reload_targets_are_idle_pi(rest);
        assert forall|k: int| #![trigger reload_targets_spec(agents)[k]] 0 <= k < reload_targets_spec(agents).len() implies exists|j: int|
            #![trigger agents[j]]
            0 <= j < agents.len() && agents[j].pane_id@ == reload_targets_spec(agents)[k]
                && agents[j].agent@ == "pi"@ && (agents[j].agent_status@ == "idle"@ || agents[j].agent_status@ == "done"@) by {
            if k < reload_targets_spec(rest).len() {
                let j = choose|j: int|
                    #![trigger rest[j]]
                    0 <= j < rest.len() && rest[j].pane_id@ == reload_targets_spec(rest)[k]
                        && rest[j].agent@ == "pi"@ && (rest[j].agent_status@ == "idle"@ || rest[j].agent_status@ == "done"@);
                assert(agents[j] == rest[j]);
            } else {
                assert(agents[agents.len() - 1] == agents.last());
            }
        }
    }
}

/// Agent `j` of the list is an idle or done Pi agent whose pane and session
/// path are those of `candidate`.
pub open spec fn is_reset_source(agents: Seq<AgentInfo>, j: int, candidate: (Seq<char>, Seq<char>)) -> bool {
    &&& 0 <= j < agents.len()
    &&& agents[j].agent@ == "pi"@
    &&& (agents[j].agent_status@ == "idle"@ || agents[j].agent_status@ == "done"@)
    &&& agents[j].pane_id@ == candidate.0
    &&& agents[j].agent_session is Some
    &&& agents[j].agent_session.unwrap().agent@ == "pi"@
    &&& agents[j].agent_session.unwrap().kind@ == "path"@
    &&& agents[j].agent_session.unwrap().value@ == candidate.1
}

/// Some agent of the list is the source of `candidate`.
pub open spec fn has_reset_source(agents: Seq<AgentInfo>, candidate: (Seq<char>, Seq<char>)) -> bool {
    exists|j: int| is_reset_source(agents, j, candidate)
}

/// Only idle or done Pi agents with a Pi session path are reset: each
/// candidate's pane and session path come from such an agent of the list.
pub proof fn reset_candidates_are_idle_pi(agents: Seq<AgentInfo>)
    ensures
        forall|k: int|
            0 <= k < reset_candidates_spec(agents).len() ==> has_reset_source(
                agents,
                #[trigger] reset_candidates_spec(agents)[k],
            ),
    decreases agents.len(),
{
    if agents.len() > 0 {
        let rest = agents.drop_last();
        reset_candidates_are_idle_pi(rest);
        assert forall|k: int| 0 <= k < reset_candidates_spec(agents).len() implies has_reset_source(
            agents,
            #[trigger] reset_candidates_spec(agents)[k],
        ) by {
            if k < reset_candidates_spec(rest).len() {
                let c = reset_candidates_spec(rest)[k];
                assert(reset_candidates_spec(agents)[k] == c);
                assert(has_reset_source(rest, c));
                let j = choose|j: int| is_reset_source(rest, j, c);
                assert(agents[j] == rest[j]);
                assert(is_reset_source(agents, j, c));
            } else {
                let j = agents.len() - 1;
                assert(agents[j] == agents.last());
                assert(is_reset_source(agents, j, reset_candidates_spec(agents)[k]));
            }
        }
    }
}

/// Agents other than Pi change nothing that an operation does or shows:
/// adding one leaves the reload targets, the reset candidates and every
/// counter but the ignored non-Pi one as they were.
pub proof fn non_pi_agents_change_nothing(agents: Seq<AgentInfo>, other: AgentInfo)
    requires
        other.agent@ != "pi"@,
    ensures
        reload_targets_spec(agents.push(other)) == reload_targets_spec(agents),
        reset_candidates_spec(agents.push(other)) == reset_candidates_spec(agents),
        forall|c: AgentClass|
            c != AgentClass::NonPi ==> #[trigger] reload_count(agents.push(other), c) == reload_count(agents, c)
                && reset_count(agents.push(other), c) == reset_count(agents, c),
{
    assert(agents.push(other).drop_last() =~= agents);
}

/// The texts of a list of strings.
pub open spec fn texts(v: Seq<String>) -> Seq<Seq<char>> {
    v.map_values(|s: String| s@)
}

/// A note that `n` candidates were left out for the reason `what`, if any were.
pub open spec fn count_note(n: nat, what: Seq<char>) -> Seq<Seq<char>> {
    if n > 0 {
        seq![decimal(n) + what]
    } else {
        seq![]
    }
}

fn push_count_note(errors: &mut Vec<String>, n: usize, what: &str)
    ensures
        texts(final(errors)@) == texts(old(errors)@) + count_note(n as nat, what@),
{
    let ghost before = errors@;
    if n > 0 {
        let mut note = decimal_string(n);
        note.append(what);
        errors.push(note);
        assert(texts(errors@) =~= texts(before) + count_note(n as nat, what@));
    } else {
        assert(texts(errors@) =~= texts(before) + count_note(n as nat, what@));
    }
}

/// The outcome of a reload: what was reloaded, skipped and failed, and why.
#[derive(Debug, PartialEq)]
pub struct ReloadSummary {
    pub reloaded: usize,
    pub skipped_non_pi: usize,
    pub skipped_unsafe_status: usize,
    pub skipped_invalid_agent_data: usize,
    pub failed: usize,
    pub errors: Vec<String>,
}

/// The note on Pi agents that a reload could not act on for want of data.
pub open spec fn reload_data_errors(invalid: nat) -> Seq<Seq<char>> {
    count_note(invalid, " reload candidate(s) had invalid agent data"@)
}

/// The command that reloads Pi.
pub fn reload_command() -> (c: &'static str)
    ensures
        c@ == "/reload"@,
{
    "/reload"
}

/// Starts a reload: the panes to send `/reload` to, in order, and the summary
/// of the agents left out, with a note on Pi agents that lack data.
pub fn plan_reload(agents: &[AgentInfo]) -> (r: (Vec<String>, ReloadSummary))
    ensures
        texts(r.0@) == reload_targets_spec(agents@),
        r.1.reloaded == 0,
        r.1.failed == 0,
        r.1.skipped_non_pi == reload_count(agents@, AgentClass::NonPi),
        r.1.skipped_unsafe_status == reload_count(agents@, AgentClass::UnsafeStatus),
        r.1.skipped_invalid_agent_data == reload_count(agents@, AgentClass::InvalidAgentData),
        texts(r.1.errors@) == reload_data_errors(reload_count(agents@, AgentClass::InvalidAgentData)),
{
    let mut targets: Vec<String> = Vec::new();
    let mut non_pi: usize = 0;
    let mut unsafe_status: usize = 0;
    let mut invalid: usize = 0;
    let mut i: usize = 0;
    while i < agents.len()
        invariant
            i <= agents@.len(),
            texts(targets@) == reload_targets_spec(agents@.take(i as int)),
            non_pi == reload_count(agents@.take(i as int), AgentClass::NonPi),
            unsafe_status == reload_count(agents@.take(i as int), AgentClass::UnsafeStatus),
            invalid == reload_count(agents@.take(i as int), AgentClass::InvalidAgentData),
        decreases agents@.len() - i,
    {
        let ghost prefix = agents@.take(i as int);
        let ghost next = agents@.take(i + 1);
        assert(next.drop_last() =~= prefix);
        assert(next.last() == agents@[i as int]);
        proof {
            reload_classes_cover_agents(prefix);
        }
        let agent = &agents[i];
        match reload_class_of(agent) {
            AgentClass::NonPi => {
                non_pi = non_pi + 1;
            },
            AgentClass::UnsafeStatus => {
                unsafe_status = unsafe_status + 1;
            },
            AgentClass::Eligible => {
                let ghost before = targets@;
                targets.push(agent.pane_id.clone());
                assert(texts(targets@) =~= texts(before).push(agent.pane_id@));
            },
            _ => {
                invalid = invalid + 1;
            },
        }
        i = i + 1;
    }
    assert(agents@.take(agents@.len() as int) =~= agents@);
    let mut errors: Vec<String> = Vec::new();
    push_count_note(&mut errors, invalid, " reload candidate(s) had invalid agent data");
    assert(texts(Seq::<String>::empty()) =~= Seq::<Seq<char>>::empty());
    assert(Seq::<Seq<char>>::empty() + reload_data_errors(invalid as nat) =~= reload_data_errors(invalid as nat));
    let summary = ReloadSummary {
        reloaded: 0,
        skipped_non_pi: non_pi,
        skipped_unsafe_status: unsafe_status,
        skipped_invalid_agent_data: invalid,
        failed: 0,
        errors,
    };
    (targets, summary)
}

/// The number of commands that succeeded.
pub open spec fn ok_count(outcomes: Seq<Result<(), String>>) -> nat
    decreases outcomes.len(),
{
    if outcomes.len() == 0 {
        0
    } else {
        ok_count(outcomes.drop_last()) + if outcomes.last() is Ok {
            1nat
        } else {
            0nat
        }
    }
}

/// The error messages of the commands that failed, in order.
pub open spec fn failure_texts(outcomes: Seq<Result<(), String>>) -> Seq<Seq<char>>
    decreases outcomes.len(),
{
    if outcomes.len() == 0 {
        seq![]
    } else {
        match outcomes.last() {
            Ok(_) => failure_texts(outcomes.drop_last()),
            Err(e) => failure_texts(outcomes.drop_last()).push(e@),
        }
    }
}

/// Each command either succeeded or left one error message.
pub proof fn outcomes_split(outcomes: Seq<Result<(), String>>)
    ensures
        ok_count(outcomes) + failure_texts(outcomes).len() == outcomes.len(),
    decreases outcomes.len(),
{
    if outcomes.len() > 0 {
        outcomes_split(outcomes.drop_last());
    }
}

/// Ends a reload: counts each `/reload` that succeeded, and each that failed
/// with its error message, after those of `plan`.
pub fn finish_reload(plan: ReloadSummary, outcomes: &Vec<Result<(), String>>) -> (s: ReloadSummary)
    requires
        plan.reloaded + outcomes@.len() <= usize::MAX,
        plan.failed + outcomes@.len() <= usize::MAX,
    ensures
        s.reloaded == plan.reloaded + ok_count(outcomes@),
        s.failed == plan.failed + failure_texts(outcomes@).len(),
        s.skipped_non_pi == plan.skipped_non_pi,
        s.skipped_unsafe_status == plan.skipped_unsafe_status,
        s.skipped_invalid_agent_data == plan.skipped_invalid_agent_data,
        texts(s.errors@) == texts(plan.errors@) + failure_texts(outcomes@),
{
    let mut s = plan;
    let ghost start = s;
    let mut i: usize = 0;
    while i < outcomes.len()
        invariant
            i <= outcomes@.len(),
            start.reloaded + outcomes@.len() <= usize::MAX,
            start.failed + outcomes@.len() <= usize::MAX,
            s.reloaded == start.reloaded + ok_count(outcomes@.take(i as int)),
            s.failed == start.failed + failure_texts(outcomes@.take(i as int)).len(),
            s.skipped_non_pi == start.skipped_non_pi,
            s.skipped_unsafe_status == start.skipped_unsafe_status,
            s.skipped_invalid_agent_data == start.skipped_invalid_agent_data,
            texts(s.errors@) == texts(start.errors@) + failure_texts(outcomes@.take(i as int)),
        decreases outcomes@.len() - i,
    {
        let ghost prefix = outcomes@.take(i as int);
        let ghost next = outcomes@.take(i + 1);
        assert(next.drop_last() =~= prefix);
        assert(next.last() == outcomes@[i as int]);
        proof {
            outcomes_split(prefix);
        }
        match &outcomes[i] {
            Ok(_) => {
                s.reloaded = s.reloaded + 1;
            },
            Err(e) => {
                let ghost before = s.errors@;
                s.failed = s.failed + 1;
                s.errors.push(e.clone());
                assert(texts(s.errors@) =~= texts(before).push(e@));
                assert(texts(start.errors@) + failure_texts(next) =~= (texts(start.errors@) + failure_texts(prefix)).push(e@));
            },
        }
        i = i + 1;
    }
    assert(outcomes@.take(outcomes@.len() as int) =~= outcomes@);
    s
}

/// A reload accounts for every agent: with one outcome per targeted pane, the
/// reloaded, failed and skipped counters of the finished summary add up to
/// the number of agents.
pub proof fn reload_accounts_for_every_agent(agents: Seq<AgentInfo>, outcomes: Seq<Result<(), String>>)
    requires
        outcomes.len() == reload_targets_spec(agents).len(),
    ensures
        ok_count(outcomes) + failure_texts(outcomes).len() + reload_count(agents, AgentClass::NonPi)
            + reload_count(agents, AgentClass::UnsafeStatus) + reload_count(
            agents,
            AgentClass::InvalidAgentData,
        ) == agents.len(),
{
    outcomes_split(outcomes);
    one_action_per_eligible_agent(agents);
    reload_classes_cover_agents(agents);
}

/// The outcome of a reset: what was reset, skipped and failed, and why.
#[derive(Debug)]
pub struct ResetSummary {
    pub reset: usize,
    pub skipped_unsafe_status: usize,
    pub failed: usize,
    pub errors: Vec<String>,
}

/// The notes on Pi agents that a reset could not act on for want of data.
pub open spec fn reset_data_errors(c: ResetCandidatesSummary) -> Seq<Seq<char>> {
    count_note(c.skipped_invalid_agent_data as nat, " reset candidate(s) had invalid agent data"@)
        + count_note(c.skipped_missing_session as nat, " reset candidate(s) had no session data"@)
        + count_note(c.skipped_invalid_session as nat, " reset candidate(s) had invalid session data"@)
}

/// The number of reset tasks that finished and succeeded.
pub open spec fn reset_ok_count(outcomes: Seq<Result<Result<(), String>, String>>) -> nat
    decreases outcomes.len(),
{
    if outcomes.len() == 0 {
        0
    } else {
        reset_ok_count(outcomes.drop_last()) + if outcomes.last() matches Ok(Ok(_)) {
            1nat
        } else {
            0nat
        }
    }
}

/// The error of each reset task that failed or could not be joined, in order.
pub open spec fn reset_failure_texts(outcomes: Seq<Result<Result<(), String>, String>>) -> Seq<Seq<char>>
    decreases outcomes.len(),
{
    if outcomes.len() == 0 {
        seq![]
    } else {
        match outcomes.last() {
            Ok(Ok(_)) => reset_failure_texts(outcomes.drop_last()),
            Ok(Err(e)) => reset_failure_texts(outcomes.drop_last()).push(e@),
            Err(j) => reset_failure_texts(outcomes.drop_last()).push("Join error: "@ + j@),
        }
    }
}

/// Each reset task either succeeded or left one error message.
pub proof fn reset_outcomes_split(outcomes: Seq<Result<Result<(), String>, String>>)
    ensures
        reset_ok_count(outcomes) + reset_failure_texts(outcomes).len() == outcomes.len(),
    decreases outcomes.len(),
{
    if outcomes.len() > 0 {
        reset_outcomes_split(outcomes.drop_last());
    }
}

/// Sums up a reset from the classification of the agents and the outcome of
/// each candidate's task (`Err` holds why a task could not be joined). Pi
/// agents left out for want of data count as failed, with one note per
/// reason; each failed task counts as failed, with its error.
pub fn summarize_reset(
    candidates: &ResetCandidatesSummary,
    outcomes: &Vec<Result<Result<(), String>, String>>,
) -> (s: ResetSummary)
    requires
        candidates.skipped_invalid_agent_data + candidates.skipped_missing_session
            + candidates.skipped_invalid_session + outcomes@.len() <= usize::MAX,
    ensures
        s.reset == reset_ok_count(outcomes@),
        s.skipped_unsafe_status == candidates.skipped_unsafe_status,
        s.failed == candidates.skipped_invalid_agent_data + candidates.skipped_missing_session
            + candidates.skipped_invalid_session + reset_failure_texts(outcomes@).len(),
        texts(s.errors@) == reset_data_errors(*candidates) + reset_failure_texts(outcomes@),
{
    let mut errors: Vec<String> = Vec::new();
    push_count_note(&mut errors, candidates.skipped_invalid_agent_data, " reset candidate(s) had invalid agent data");
    push_count_note(&mut errors, candidates.skipped_missing_session, " reset candidate(s) had no session data");
    push_count_note(&mut errors, candidates.skipped_invalid_session, " reset candidate(s) had invalid session data");
    assert(texts(errors@) =~= reset_data_errors(*candidates));
    let ghost notes = texts(errors@);
    let base: usize = candidates.skipped_invalid_agent_data + candidates.skipped_missing_session
        + candidates.skipped_invalid_session;
    let mut reset: usize = 0;
    let mut failed: usize = base;
    let mut i: usize = 0;
    while i < outcomes.len()
        invariant
            i <= outcomes@.len(),
            base + outcomes@.len() <= usize::MAX,
            reset == reset_ok_count(outcomes@.take(i as int)),
            failed == base + reset_failure_texts(outcomes@.take(i as int)).len(),
            texts(errors@) == notes + reset_failure_texts(outcomes@.take(i as int)),
        decreases outcomes@.len() - i,
    {
        let ghost prefix = outcomes@.take(i as int);
        let ghost next = outcomes@.take(i + 1);
        assert(next.drop_last() =~= prefix);
        assert(next.last() == outcomes@[i as int]);
        proof {
            reset_outcomes_split(prefix);
        }
        let ghost before = errors@;
        match &outcomes[i] {
            Ok(Ok(_)) => {
                reset = reset + 1;
            },
            Ok(Err(e)) => {
                failed = failed + 1;
                errors.push(e.clone());
                assert(texts(errors@) =~= texts(before).push(e@));
                assert(notes + reset_failure_texts(next) =~= (notes + reset_failure_texts(prefix)).push(e@));
            },
            Err(j) => {
                failed = failed + 1;
                let msg = joined("Join error: ", j.as_str());
                errors.push(msg);
                assert(texts(errors@) =~= texts(before).push("Join error: "@ + j@));
                assert(notes + reset_failure_texts(next) =~= (notes + reset_failure_texts(prefix)).push(
                    "Join error: "@ + j@,
                ));
            },
        }
        i = i + 1;
    }
    assert(outcomes@.take(outcomes@.len() as int) =~= outcomes@);
    ResetSummary { reset, skipped_unsafe_status: candidates.skipped_unsafe_status, failed, errors }
}

/// A reset accounts for every agent: with one outcome per candidate, the
/// reset, failed and skipped counters add up to the number of agents once
/// the ignored non-Pi agents are counted in.
pub proof fn reset_accounts_for_every_agent(
    agents: Seq<AgentInfo>,
    outcomes: Seq<Result<Result<(), String>, String>>,
)
    requires
        outcomes.len() == reset_candidates_spec(agents).len(),
    ensures
        reset_ok_count(outcomes) + reset_count(agents, AgentClass::InvalidAgentData) + reset_count(
            agents,
            AgentClass::MissingSession,
        ) + reset_count(agents, AgentClass::InvalidSession) + reset_failure_texts(outcomes).len()
            + reset_count(agents, AgentClass::UnsafeStatus) + reset_count(agents, AgentClass::NonPi)
            == agents.len(),
{
    reset_outcomes_split(outcomes);
    one_action_per_eligible_agent(agents);
    reset_classes_cover_agents(agents);
}

/// A reload acts on an agent exactly when it is a Pi agent with a pane whose
/// status reads `idle` or `done`. Any other non-empty status of a Pi agent
/// with a pane is skipped as unsafe; a record that does not say `pi` is
/// ignored; a Pi record without pane or status is invalid data.
pub proof fn reload_acts_only_on_idle_or_done_pi(a: AgentInfo)
    ensures
        reload_class(a) == AgentClass::Eligible <==> (a.agent@ == "pi"@ && a.pane_id@.len() > 0 && (
        a.agent_status@ == "idle"@ || a.agent_status@ == "done"@)),
        (a.agent@ == "pi"@ && a.pane_id@.len() > 0 && a.agent_status@.len() > 0 && a.agent_status@
            != "idle"@ && a.agent_status@ != "done"@) ==> reload_class(a) == AgentClass::UnsafeStatus,
        a.agent@ != "pi"@ ==> reload_class(a) == AgentClass::NonPi,
        (a.agent@ == "pi"@ && (a.pane_id@.len() == 0 || a.agent_status@.len() == 0)) ==> reload_class(a)
            == AgentClass::InvalidAgentData,
{
    reveal_strlit("idle");
    reveal_strlit("done");
}

/// A reset acts on an agent exactly when it is a Pi agent with a pane, its
/// status reads `idle` or `done`, and its session is a non-empty path of a
/// Pi session; a reset classifies agents as a reload does up to the session.
pub proof fn reset_acts_only_on_idle_or_done_pi_with_session(a: AgentInfo)
    ensures
        reset_class(a) == AgentClass::Eligible <==> (a.agent@ == "pi"@ && a.pane_id@.len() > 0 && (
        a.agent_status@ == "idle"@ || a.agent_status@ == "done"@) && a.agent_session is Some
            && a.agent_session.unwrap().agent@ == "pi"@ && a.agent_session.unwrap().kind@ == "path"@
            && a.agent_session.unwrap().value@.len() > 0),
        (a.agent@ == "pi"@ && a.pane_id@.len() > 0 && a.agent_status@.len() > 0 && a.agent_status@
            != "idle"@ && a.agent_status@ != "done"@) ==> reset_class(a) == AgentClass::UnsafeStatus,
        a.agent@ != "pi"@ ==> reset_class(a) == AgentClass::NonPi,
        (a.agent@ == "pi"@ && (a.pane_id@.len() == 0 || a.agent_status@.len() == 0)) ==> reset_class(a)
            == AgentClass::InvalidAgentData,
        (reload_class(a) == AgentClass::Eligible && a.agent_session is None) ==> reset_class(a)
            == AgentClass::MissingSession,
{
    reveal_strlit("idle");
    reveal_strlit("done");
}

/// The reload tally of a list of command outcomes is the sum of the tallies
/// of its parts: successes add up and error messages follow one another.
pub proof fn reload_tally_adds_up(first: Seq<Result<(), String>>, second: Seq<Result<(), String>>)
    ensures
        ok_count(first + second) == ok_count(first) + ok_count(second),
        failure_texts(first + second) == failure_texts(first) + failure_texts(second),
    decreases second.len(),
{
    if second.len() == 0 {
        assert(first + second =~= first);
        assert(failure_texts(first) + failure_texts(second) =~= failure_texts(first));
    } else {
        let rest = second.drop_last();
        reload_tally_adds_up(first, rest);
        assert((first + second).drop_last() =~= first + rest);
        assert((first + second).last() == second.last());
        match second.last() {
            Ok(_) => {},
            Err(e) => {
                assert(failure_texts(first) + failure_texts(second) =~= (failure_texts(first)
                    + failure_texts(rest)).push(e@));
            },
        }
    }
}

/// One command outcome: a success counts one and leaves no message; a
/// failure counts none and leaves its error message.
pub proof fn reload_tally_of_one(outcome: Result<(), String>)
    ensures
        ok_count(seq![outcome]) == (if outcome is Ok { 1nat } else { 0nat }),
        failure_texts(seq![outcome]) == match outcome {
            Ok(_) => Seq::<Seq<char>>::empty(),
            Err(e) => seq![e@],
        },
{
    let one = seq![outcome];
    assert(one.drop_last() =~= Seq::<Result<(), String>>::empty());
    assert(one.last() == outcome);
    assert(failure_texts(one.drop_last()) == Seq::<Seq<char>>::empty());
    assert(ok_count(one.drop_last()) == 0);
    match outcome {
        Ok(_) => {},
        Err(e) => {
            assert(Seq::<Seq<char>>::empty().push(e@) =~= seq![e@]);
        },
    }
}

/// The reset tally of a list of task outcomes is the sum of the tallies of
/// its parts: resets add up and error messages follow one another.
pub proof fn reset_tally_adds_up(
    first: Seq<Result<Result<(), String>, String>>,
    second: Seq<Result<Result<(), String>, String>>,
)
    ensures
        reset_ok_count(first + second) == reset_ok_count(first) + reset_ok_count(second),
        reset_failure_texts(first + second) == reset_failure_texts(first) + reset_failure_texts(second),
    decreases second.len(),
{
    if second.len() == 0 {
        assert(first + second =~= first);
        assert(reset_failure_texts(first) + reset_failure_texts(second) =~= reset_failure_texts(first));
    } else {
        let rest = second.drop_last();
        reset_tally_adds_up(first, rest);
        assert((first + second).drop_last() =~= first + rest);
        assert((first + second).last() == second.last());
        match second.last() {
            Ok(Ok(_)) => {},
            Ok(Err(e)) => {
                assert(reset_failure_texts(first) + reset_failure_texts(second) =~= (reset_failure_texts(first)
                    + reset_failure_texts(rest)).push(e@));
            },
            Err(j) => {
                assert(reset_failure_texts(first) + reset_failure_texts(second) =~= (reset_failure_texts(first)
                    + reset_failure_texts(rest)).push("Join error: "@ + j@));
            },
        }
    }
}

/// One task outcome: a finished, successful reset counts one and leaves no
/// message; a failed reset counts none and leaves its error; a task that
/// could not be joined counts none and leaves `Join error: ` and the cause.
pub proof fn reset_tally_of_one(outcome: Result<Result<(), String>, String>)
    ensures
        reset_ok_count(seq![outcome]) == (if outcome matches Ok(Ok(_)) { 1nat } else { 0nat }),
        reset_failure_texts(seq![outcome]) == match outcome {
            Ok(Ok(_)) => Seq::<Seq<char>>::empty(),
            Ok(Err(e)) => seq![e@],
            Err(j) => seq!["Join error: "@ + j@],
        },
{
    let one = seq![outcome];
    assert(one.drop_last() =~= Seq::<Result<Result<(), String>, String>>::empty());
    assert(one.last() == outcome);
    assert(reset_failure_texts(one.drop_last()) == Seq::<Seq<char>>::empty());
    assert(reset_ok_count(one.drop_last()) == 0);
    match outcome {
        Ok(Ok(_)) => {},
        Ok(Err(e)) => {
            assert(Seq::<Seq<char>>::empty().push(e@) =~= seq![e@]);
        },
        Err(j) => {
            assert(Seq::<Seq<char>>::empty().push("Join error: "@ + j@) =~= seq!["Join error: "@ + j@]);
        },
    }
}

/// A reset whose tasks all failed resets nothing, and each failure leaves
/// one message.
pub proof fn failed_resets_count_none(outcomes: Seq<Result<Result<(), String>, String>>)
    requires
        forall|k: int| 0 <= k < outcomes.len() ==> !(#[trigger] outcomes[k] matches Ok(Ok(_))),
    ensures
        reset_ok_count(outcomes) == 0,
        reset_failure_texts(outcomes).len() == outcomes.len(),
    decreases outcomes.len(),
{
    if outcomes.len() > 0 {
        let rest = outcomes.drop_last();
        assert forall|k: int| 0 <= k < rest.len() implies !(#[trigger] rest[k] matches Ok(Ok(_))) by {
            assert(rest[k] == outcomes[k]);
        }
        failed_resets_count_none(rest);
        assert(outcomes.last() == outcomes[outcomes.len() - 1]);
    }
}

} // verus!
