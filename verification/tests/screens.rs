use herdr_pi_reloader::pi::{ReloadSummary, ResetSummary};
use herdr_pi_reloader::render::{
    footer, heading_text, menu_lines, reload_result_view, reset_result_view, running_text, title, Heading,
};
use herdr_pi_reloader::tui::{Action, AppState, KeyCode, KeyInput, Screen};

fn press(code: KeyCode) -> KeyInput {
    KeyInput { code, ctrl: false, press: true }
}

fn reload_summary(reloaded: usize, unsafe_: usize, invalid: usize, failed: usize, errors: &[&str]) -> ReloadSummary {
    ReloadSummary {
        reloaded,
        skipped_non_pi: 0,
        skipped_unsafe_status: unsafe_,
        skipped_invalid_agent_data: invalid,
        failed,
        errors: errors.iter().map(|e| e.to_string()).collect(),
    }
}

#[test]
fn menu_navigation_wraps() {
    let mut s = AppState::new();
    assert_eq!(s.selected, 0);
    assert_eq!(s.handle_key(press(KeyCode::Down)), Action::Nothing);
    assert_eq!(s.selected, 1);
    assert_eq!(s.handle_key(press(KeyCode::Char('j'))), Action::Nothing);
    assert_eq!(s.selected, 0);
    assert_eq!(s.handle_key(press(KeyCode::Up)), Action::Nothing);
    assert_eq!(s.selected, 1);
    assert_eq!(s.handle_key(press(KeyCode::Char('k'))), Action::Nothing);
    assert_eq!(s.selected, 0);
    assert!(matches!(s.screen, Screen::Menu));
}

#[test]
fn exit_keys_close_the_menu() {
    for key in [
        press(KeyCode::Char('q')),
        press(KeyCode::Esc),
        KeyInput { code: KeyCode::Char('c'), ctrl: true, press: true },
    ] {
        let mut s = AppState::new();
        assert_eq!(s.handle_key(key), Action::Quit);
        assert!(matches!(s.screen, Screen::Menu));
    }
    let mut s = AppState::new();
    assert_eq!(s.handle_key(press(KeyCode::Char('c'))), Action::Nothing);
    assert_eq!(s.handle_key(KeyInput { code: KeyCode::Esc, ctrl: false, press: false }), Action::Nothing);
}

#[test]
fn enter_starts_the_selected_operation() {
    let mut s = AppState::new();
    assert_eq!(s.handle_key(press(KeyCode::Enter)), Action::StartReload);
    assert!(matches!(s.screen, Screen::RunningReload));

    let mut s = AppState::new();
    s.handle_key(press(KeyCode::Down));
    s.spinner_frame = 9;
    assert_eq!(s.handle_key(press(KeyCode::Enter)), Action::StartReset);
    assert!(matches!(s.screen, Screen::RunningReset));
    assert_eq!(s.spinner_frame, 0);
}

#[test]
fn running_operation_ignores_every_key() {
    let mut s = AppState::new();
    s.handle_key(press(KeyCode::Down));
    s.handle_key(press(KeyCode::Enter));
    for key in [
        press(KeyCode::Char('q')),
        press(KeyCode::Esc),
        KeyInput { code: KeyCode::Char('c'), ctrl: true, press: true },
        press(KeyCode::Enter),
        press(KeyCode::Up),
    ] {
        assert_eq!(s.handle_key(key), Action::Nothing);
        assert!(matches!(s.screen, Screen::RunningReset));
        assert_eq!(s.selected, 1);
    }
    s.tick();
    s.tick();
    assert_eq!(s.spinner_frame, 2);
}

#[test]
fn spinner_turns_only_while_an_operation_runs() {
    let mut s = AppState::new();
    s.tick();
    assert_eq!(s.spinner_frame, 0);
    s.handle_key(press(KeyCode::Enter));
    assert!(matches!(s.screen, Screen::RunningReload));
    s.tick();
    s.tick();
    s.tick();
    assert_eq!(s.spinner_frame, 3);
    assert_eq!(s.handle_key(press(KeyCode::Char('q'))), Action::Nothing);
    s.reload_finished(Ok(Ok(reload_summary(1, 0, 0, 0, &[]))));
    s.tick();
    assert_eq!(s.spinner_frame, 3);
}

#[test]
fn spinner_restarts_with_each_operation() {
    let mut s = AppState::new();
    s.spinner_frame = 5;
    assert_eq!(s.handle_key(press(KeyCode::Enter)), Action::StartReload);
    assert_eq!(s.spinner_frame, 0);
}

#[test]
fn results_show_and_close() {
    let mut s = AppState::new();
    s.handle_key(press(KeyCode::Enter));
    s.reload_finished(Ok(Ok(reload_summary(2, 0, 0, 0, &[]))));
    assert!(matches!(&s.screen, Screen::ReloadResult(r) if r.reloaded == 2));
    assert_eq!(s.handle_key(press(KeyCode::Down)), Action::Nothing);
    assert_eq!(s.handle_key(press(KeyCode::Enter)), Action::Quit);
    assert_eq!(s.handle_key(press(KeyCode::Char('q'))), Action::Quit);

    let mut s = AppState::new();
    s.reload_finished(Ok(Err("Failed to run herdr agent list: gone".to_string())));
    assert!(matches!(&s.screen, Screen::Error(e) if e == "Failed to get agent list: Failed to run herdr agent list: gone"));
    assert_eq!(s.handle_key(KeyInput { code: KeyCode::Char('c'), ctrl: true, press: true }), Action::Quit);
    s.reload_finished(Err("task panicked".to_string()));
    assert!(matches!(&s.screen, Screen::Error(e) if e == "Join handle error: task panicked"));

    let mut s = AppState::new();
    s.reset_finished(Ok(Ok(ResetSummary { reset: 1, skipped_unsafe_status: 0, failed: 0, errors: vec![] })));
    assert!(matches!(&s.screen, Screen::ResetResult(r) if r.reset == 1));
    s.reset_finished(Ok(Err("no agents".to_string())));
    assert!(matches!(&s.screen, Screen::Error(e) if e == "no agents"));
    s.reset_finished(Err("task cancelled".to_string()));
    assert!(matches!(&s.screen, Screen::Error(e) if e == "Join handle error: task cancelled"));
    assert_eq!(s.handle_key(press(KeyCode::Enter)), Action::Quit);
}

#[test]
fn menu_text() {
    assert_eq!(title(), "Herdr Pi Reloader");
    let lines = menu_lines(0);
    assert_eq!(lines.len(), 2);
    assert_eq!(lines[0].text, "> Reload all Pi");
    assert!(lines[0].highlighted);
    assert_eq!(lines[1].text, "  Reset all Pi");
    assert!(!lines[1].highlighted);
    let lines = menu_lines(1);
    assert_eq!(lines[0].text, "  Reload all Pi");
    assert_eq!(lines[1].text, "> Reset all Pi");
    assert!(lines[1].highlighted);
}

#[test]
fn running_text_and_footers() {
    assert_eq!(running_text(false, 0), "| Reloading Pi instances...");
    assert_eq!(running_text(true, 1), "/ Resetting Pi instances...");
    assert_eq!(running_text(true, 2), "- Resetting Pi instances...");
    assert_eq!(running_text(true, 7), "\\ Resetting Pi instances...");
    assert_eq!(footer(&Screen::Menu), "↑/k ↓/j select • Enter run • q/Esc quit");
    assert_eq!(footer(&Screen::RunningReset), "Operation in progress...");
    assert_eq!(footer(&Screen::Error("x".to_string())), "Enter/q/Esc quit");
}

#[test]
fn headings() {
    assert_eq!(heading_text(Heading::CompletedWithErrors), "Completed with errors");
    assert_eq!(heading_text(Heading::Success), "Success");
    assert_eq!(heading_text(Heading::NothingToDo), "Nothing to do");
    assert_eq!(reload_result_view(&reload_summary(3, 1, 0, 0, &[])).heading, Heading::Success);
    assert_eq!(reload_result_view(&reload_summary(3, 1, 1, 0, &["1 x"])).heading, Heading::CompletedWithErrors);
    assert_eq!(reload_result_view(&reload_summary(0, 4, 0, 0, &[])).heading, Heading::NothingToDo);
    assert_eq!(reload_result_view(&reload_summary(0, 0, 0, 1, &["e"])).heading, Heading::CompletedWithErrors);
    let reset = ResetSummary { reset: 0, skipped_unsafe_status: 2, failed: 0, errors: vec![] };
    assert_eq!(reset_result_view(&reset).heading, Heading::NothingToDo);
}

#[test]
fn reload_result_lines_without_errors() {
    let v = reload_result_view(&reload_summary(3, 1, 0, 0, &[]));
    assert_eq!(v.lines, vec!["", "Reloaded: 3", "Skipped: 1", "Failed: 0"]);
}

#[test]
fn reload_result_failed_counts_invalid_data() {
    let v = reload_result_view(&reload_summary(1, 0, 2, 1, &["2 reload candidate(s) had invalid agent data", "boom"]));
    assert_eq!(
        v.lines,
        vec![
            "",
            "Reloaded: 1",
            "Skipped: 0",
            "Failed: 3",
            "",
            "Errors:",
            "",
            "Error 1: 2 reload candidate(s) had invalid agent data",
            "Error 2: boom"
        ]
    );
}

#[test]
fn reset_result_shows_at_most_five_errors() {
    let errors: Vec<String> = (1..=7).map(|i| format!("e{}", i)).collect();
    let s = ResetSummary { reset: 2, skipped_unsafe_status: 1, failed: 7, errors };
    let v = reset_result_view(&s);
    assert_eq!(v.heading, Heading::CompletedWithErrors);
    assert_eq!(
        v.lines,
        vec![
            "", "Reset: 2", "Skipped: 1", "Failed: 7", "", "Errors:", "", "Error 1: e1", "Error 2: e2", "Error 3: e3",
            "Error 4: e4", "Error 5: e5", "", "...and 2 more errors"
        ]
    );
}

#[test]
fn exactly_five_errors_have_no_more_line() {
    let errors: Vec<String> = (1..=5).map(|i| format!("e{}", i)).collect();
    let s = ResetSummary { reset: 0, skipped_unsafe_status: 0, failed: 5, errors };
    let v = reset_result_view(&s);
    assert_eq!(v.lines.len(), 4 + 3 + 5);
    assert_eq!(v.lines.last().unwrap(), "Error 5: e5");
}
