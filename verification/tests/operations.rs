use herdr_pi_reloader::herdr::{AgentInfo, AgentSession};
use herdr_pi_reloader::pi::AgentClass::{Eligible, InvalidAgentData, InvalidSession, MissingSession, NonPi, UnsafeStatus};
use herdr_pi_reloader::pi::{
    finish_reload, get_reset_candidates, plan_reload, reload_class_of, reload_command, reset_class_of,
    summarize_reset, AgentClass, ResetCandidatesSummary,
};

fn agent(name: &str, status: &str, pane: &str, session: Option<(&str, &str, &str)>) -> AgentInfo {
    AgentInfo {
        agent: name.to_string(),
        agent_status: status.to_string(),
        pane_id: pane.to_string(),
        agent_session: session.map(|(a, k, v)| AgentSession {
            agent: a.to_string(),
            kind: k.to_string(),
            value: v.to_string(),
        }),
    }
}

fn pi_session(path: &str) -> Option<(&str, &str, &str)> {
    Some(("pi", "path", path))
}

fn mixed_agents() -> Vec<AgentInfo> {
    vec![
        agent("pi", "idle", "p1", pi_session("/s/one.jsonl")),
        agent("amp", "idle", "p2", None),
        agent("pi", "working", "p3", pi_session("/s/three.jsonl")),
        agent("pi", "done", "", pi_session("/s/four.jsonl")),
        agent("pi", "done", "p5", None),
        agent("pi", "idle", "p6", Some(("pi", "id", "abc"))),
        agent("pi", "idle", "p7", Some(("codex", "path", "/s/x"))),
        agent("pi", "idle", "p8", Some(("pi", "path", ""))),
        agent("pi", "done", "p9", pi_session("/s/nine.jsonl")),
        agent("", "", "", None),
        agent("codex", "", "p11", None),
        agent("pi", "", "p12", None),
    ]
}

#[test]
fn classification_follows_name_data_status_and_session() {
    let a = mixed_agents();
    let reload: Vec<AgentClass> = a.iter().map(reload_class_of).collect();
    let reset: Vec<AgentClass> = a.iter().map(reset_class_of).collect();
    assert_eq!(
        reload,
        vec![
            Eligible, NonPi, UnsafeStatus, InvalidAgentData, Eligible, Eligible, Eligible, Eligible, Eligible,
            NonPi, NonPi, InvalidAgentData
        ]
    );
    assert_eq!(
        reset,
        vec![
            Eligible, NonPi, UnsafeStatus, InvalidAgentData, MissingSession, InvalidSession, InvalidSession,
            InvalidSession, Eligible, NonPi, NonPi, InvalidAgentData
        ]
    );
}

#[test]
fn reset_candidates_are_picked_in_order_and_counted() {
    let a = mixed_agents();
    let (candidates, summary) = get_reset_candidates(&a);
    let pairs: Vec<(String, String)> =
        candidates.iter().map(|c| (c.pane_id.clone(), c.session_path.clone())).collect();
    assert_eq!(
        pairs,
        vec![
            ("p1".to_string(), "/s/one.jsonl".to_string()),
            ("p9".to_string(), "/s/nine.jsonl".to_string())
        ]
    );
    assert_eq!(summary.candidates, 2);
    assert_eq!(summary.skipped_non_pi, 3);
    assert_eq!(summary.skipped_unsafe_status, 1);
    assert_eq!(summary.skipped_invalid_agent_data, 2);
    assert_eq!(summary.skipped_missing_session, 1);
    assert_eq!(summary.skipped_invalid_session, 3);
    // every agent is counted exactly once
    let total = summary.candidates
        + summary.skipped_non_pi
        + summary.skipped_unsafe_status
        + summary.skipped_invalid_agent_data
        + summary.skipped_missing_session
        + summary.skipped_invalid_session;
    assert_eq!(total, a.len());
}

#[test]
fn reset_candidates_of_empty_list() {
    let (candidates, summary) = get_reset_candidates(&[]);
    assert!(candidates.is_empty());
    assert_eq!(summary.candidates + summary.skipped_non_pi + summary.skipped_invalid_agent_data, 0);
}

#[test]
fn non_pi_agents_change_nothing_visible() {
    let base = vec![agent("pi", "idle", "p1", pi_session("/s"))];
    let mut more = vec![agent("pi", "idle", "p1", pi_session("/s"))];
    more.push(agent("amp", "", "", None));
    more.push(agent("", "idle", "p4", None));
    let (c1, s1) = get_reset_candidates(&base);
    let (c2, s2) = get_reset_candidates(&more);
    assert_eq!(c1.len(), c2.len());
    assert_eq!(s1.skipped_invalid_agent_data, s2.skipped_invalid_agent_data);
    assert_eq!(s1.skipped_unsafe_status, s2.skipped_unsafe_status);
    assert_eq!(s2.skipped_non_pi, 2);
    let (t1, r1) = plan_reload(&base);
    let (t2, r2) = plan_reload(&more);
    assert_eq!(t1, t2);
    assert_eq!(r1.skipped_invalid_agent_data, r2.skipped_invalid_agent_data);
    assert_eq!(r1.errors, r2.errors);
}

#[test]
fn reload_plan_targets_idle_pi_panes() {
    let a = mixed_agents();
    let (targets, plan) = plan_reload(&a);
    assert_eq!(targets, vec!["p1", "p5", "p6", "p7", "p8", "p9"]);
    assert_eq!(plan.reloaded, 0);
    assert_eq!(plan.failed, 0);
    assert_eq!(plan.skipped_non_pi, 3);
    assert_eq!(plan.skipped_unsafe_status, 1);
    assert_eq!(plan.skipped_invalid_agent_data, 2);
    assert_eq!(plan.errors, vec!["2 reload candidate(s) had invalid agent data".to_string()]);
    assert_eq!(reload_command(), "/reload");
}

#[test]
fn reload_plan_without_invalid_agents_has_no_note() {
    let (targets, plan) = plan_reload(&[agent("pi", "done", "p1", None)]);
    assert_eq!(targets, vec!["p1"]);
    assert!(plan.errors.is_empty());
}

#[test]
fn finished_reload_counts_outcomes() {
    let a = mixed_agents();
    let (targets, plan) = plan_reload(&a);
    let outcomes: Vec<Result<(), String>> = targets
        .iter()
        .map(|t| if t == "p6" || t == "p8" { Err(format!("failed on {}", t)) } else { Ok(()) })
        .collect();
    let s = finish_reload(plan, &outcomes);
    assert_eq!(s.reloaded, 4);
    assert_eq!(s.failed, 2);
    assert_eq!(
        s.errors,
        vec![
            "2 reload candidate(s) had invalid agent data".to_string(),
            "failed on p6".to_string(),
            "failed on p8".to_string()
        ]
    );
    // every agent is accounted for
    assert_eq!(
        s.reloaded + s.failed + s.skipped_non_pi + s.skipped_unsafe_status + s.skipped_invalid_agent_data,
        a.len()
    );
}

#[test]
fn reset_summary_counts_data_failures_and_task_outcomes() {
    let a = mixed_agents();
    let (candidates, cs) = get_reset_candidates(&a);
    assert_eq!(candidates.len(), 2);
    let outcomes: Vec<Result<Result<(), String>, String>> =
        vec![Ok(Ok(())), Err("task 7 panicked".to_string())];
    let s = summarize_reset(&cs, &outcomes);
    assert_eq!(s.reset, 1);
    assert_eq!(s.skipped_unsafe_status, 1);
    assert_eq!(s.failed, 2 + 1 + 3 + 1);
    assert_eq!(
        s.errors,
        vec![
            "2 reset candidate(s) had invalid agent data".to_string(),
            "1 reset candidate(s) had no session data".to_string(),
            "3 reset candidate(s) had invalid session data".to_string(),
            "Join error: task 7 panicked".to_string()
        ]
    );
    assert_eq!(s.reset + s.failed + s.skipped_unsafe_status + cs.skipped_non_pi, a.len());
}

#[test]
fn reset_summary_with_task_error_and_no_data_problems() {
    let cs = ResetCandidatesSummary {
        candidates: 3,
        skipped_non_pi: 4,
        skipped_unsafe_status: 0,
        skipped_invalid_agent_data: 0,
        skipped_missing_session: 0,
        skipped_invalid_session: 0,
    };
    let outcomes = vec![Ok(Ok(())), Ok(Err("Error with exiting pi on pane: p2 - error: t".to_string())), Ok(Ok(()))];
    let s = summarize_reset(&cs, &outcomes);
    assert_eq!(s.reset, 2);
    assert_eq!(s.failed, 1);
    assert_eq!(s.errors, vec!["Error with exiting pi on pane: p2 - error: t".to_string()]);
}

#[test]
fn reset_summary_of_nothing() {
    let (candidates, cs) = get_reset_candidates(&[agent("amp", "idle", "p", None)]);
    assert!(candidates.is_empty());
    let s = summarize_reset(&cs, &Vec::new());
    assert_eq!((s.reset, s.failed, s.skipped_unsafe_status), (0, 0, 0));
    assert!(s.errors.is_empty());
}
