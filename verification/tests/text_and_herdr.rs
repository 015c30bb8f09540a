use herdr_pi_reloader::herdr::{
    agent_list_parsed, agent_list_stdout, output_detail, pane_pi_status, process_info_args,
    process_info_parsed, process_info_stdout, process_is_pi, processes_run_pi, run_failure_message,
    run_in_pane_args, run_in_pane_result, AgentInfo, CommandOutput, ForegroundProcess, PanePiStatus,
};
use herdr_pi_reloader::text::{joined, decimal_string, str_eq};

fn proc(name: &str, argv: &[&str]) -> ForegroundProcess {
    ForegroundProcess { name: name.to_string(), argv: argv.iter().map(|a| a.to_string()).collect() }
}

fn output(success: bool, stdout: &[u8], stderr: &[u8]) -> Result<CommandOutput, String> {
    Ok(CommandOutput { success, stdout: stdout.to_vec(), stderr: stderr.to_vec() })
}

#[test]
fn decimal_string_writes_numbers() {
    assert_eq!(decimal_string(0), "0");
    assert_eq!(decimal_string(7), "7");
    assert_eq!(decimal_string(10), "10");
    assert_eq!(decimal_string(1234), "1234");
    assert_eq!(decimal_string(usize::MAX), usize::MAX.to_string());
}

#[test]
fn str_eq_compares_text() {
    assert!(str_eq("pi", "pi"));
    assert!(!str_eq("pi", "p"));
    assert!(!str_eq("pi", "Pi"));
    assert!(str_eq("", ""));
    assert!(str_eq("żółw", "żółw"));
    assert_eq!(joined("ab", "cd"), "abcd");
}

#[test]
fn pane_command_arguments() {
    assert_eq!(run_in_pane_args("p1", "/reload"), vec!["pane", "run", "p1", "/reload"]);
    assert_eq!(process_info_args("p2"), vec!["pane", "process-info", "--pane", "p2"]);
}

#[test]
fn run_in_pane_succeeds_only_on_success_status() {
    assert_eq!(run_in_pane_result("p1", "/reload", &output(true, b"out", b"err")), Ok(()));
    assert_eq!(
        run_in_pane_result("p1", "/reload", &output(false, b"some out", b"bad pane")),
        Err("Error in executing command: /reload: on pane: p1 - error: std_err: bad pane - std_out: some out"
            .to_string())
    );
    assert_eq!(
        run_in_pane_result("p1", "/quit", &Err("No such file or directory (os error 2)".to_string())),
        Err("Error in executing command: /quit: on pane: p1 - error: No such file or directory (os error 2)"
            .to_string())
    );
}

#[test]
fn run_in_pane_decodes_invalid_utf8_lossily() {
    let r = run_in_pane_result("p", "c", &output(false, b"", &[b'a', 0xff, b'b']));
    assert_eq!(r, Err("Error in executing command: c: on pane: p - error: std_err: a\u{FFFD}b - std_out: ".to_string()));
}

#[test]
fn failure_message_formulas() {
    assert_eq!(
        run_failure_message("cmd", "pane", "why"),
        "Error in executing command: cmd: on pane: pane - error: why"
    );
    assert_eq!(output_detail("e", "o"), "std_err: e - std_out: o");
}

#[test]
fn agent_list_stdout_cases() {
    assert_eq!(agent_list_stdout(&output(true, b"{\"result\":{}}", b"")), Ok("{\"result\":{}}".to_string()));
    assert_eq!(
        agent_list_stdout(&output(false, b"", b"server down")),
        Err("Herdr agent list output error: server down".to_string())
    );
    assert_eq!(
        agent_list_stdout(&Err("not found".to_string())),
        Err("Failed to run herdr agent list: not found".to_string())
    );
}

#[test]
fn process_info_stdout_cases() {
    assert_eq!(process_info_stdout(&output(true, b"[]", b"x")), Ok("[]".to_string()));
    assert_eq!(
        process_info_stdout(&output(false, b"", b"no pane")),
        Err("Herdr process output error: no pane".to_string())
    );
    assert_eq!(
        process_info_stdout(&Err("denied".to_string())),
        Err("Failed to run herdr pane process info: denied".to_string())
    );
}

#[test]
fn parse_errors_are_prefixed() {
    let agents: Vec<AgentInfo> = Vec::new();
    assert!(matches!(agent_list_parsed(Ok(agents)), Ok(v) if v.is_empty()));
    match agent_list_parsed(Err("EOF while parsing".to_string())) {
        Err(e) => assert_eq!(e, "Error with parsing agents json: EOF while parsing"),
        Ok(_) => panic!("expected an error"),
    }
    match process_info_parsed(Err("bad".to_string())) {
        Err(e) => assert_eq!(e, "Error with parsing processes json: bad"),
        Ok(_) => panic!("expected an error"),
    }
    assert!(matches!(process_info_parsed(Ok(vec![proc("pi", &[])])), Ok(v) if v.len() == 1));
}

#[test]
fn pi_process_detection() {
    assert!(process_is_pi("pi", &None));
    assert!(process_is_pi("node", &Some("pi".to_string())));
    assert!(!process_is_pi("node", &Some("pix".to_string())));
    assert!(!process_is_pi("bash", &None));

    assert!(processes_run_pi(&vec![proc("bash", &[]), proc("pi", &[])]));
    assert!(processes_run_pi(&vec![proc("node", &["/usr/local/bin/pi", "--session", "x"])]));
    assert!(processes_run_pi(&vec![proc("node", &["pi"])]));
    assert!(!processes_run_pi(&vec![proc("node", &["/usr/bin/node", "pi"])]));
    assert!(!processes_run_pi(&vec![proc("node", &["/opt/pi-tools/run"])]));
    assert!(!processes_run_pi(&vec![proc("pi-agent", &[])]));
    assert!(!processes_run_pi(&vec![]));
}

#[test]
fn pane_status_and_its_error() {
    assert_eq!(pane_pi_status(Ok(vec![proc("pi", &[])])), Ok(PanePiStatus::RunningPi));
    assert_eq!(pane_pi_status(Ok(vec![proc("zsh", &["-zsh"])])), Ok(PanePiStatus::NonPi));
    assert_eq!(
        pane_pi_status(Err("Herdr process output error: x".to_string())),
        Err("Failed to check if pi is running in pane: Herdr process output error: x".to_string())
    );
}
