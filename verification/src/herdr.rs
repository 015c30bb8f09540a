//! What the library knows of Herdr: the records of `herdr agent list` and
//! `herdr pane process-info`, the command lines sent to Herdr, and how a
//! command's outcome becomes a result or an error message.

use vstd::prelude::*;
use crate::text::{joined, str_eq};

verus! {

/// The session that Herdr records for an agent.
pub struct AgentSession {
    pub agent: String,
    pub kind: String,
    pub value: String,
}

/// One agent of `herdr agent list`; a missing text field reads as empty.
pub struct AgentInfo {
    pub agent: String,
    pub agent_status: String,
    pub pane_id: String,
    pub agent_session: Option<AgentSession>,
}

/// One foreground process of a pane.
pub struct ForegroundProcess {
    pub name: String,
    pub argv: Vec<String>,
}

/// What a finished Herdr command left: its exit status and its output bytes.
pub struct CommandOutput {
    pub success: bool,
    pub stdout: Vec<u8>,
    pub stderr: Vec<u8>,
}

/// Whether a pane runs Pi in its foreground.
#[derive(PartialEq, Eq, Structural, Debug)]
pub enum PanePiStatus {
    RunningPi,
    NonPi,
}

/// The text that `String::from_utf8_lossy` makes of `bytes`.
pub uninterp spec fn utf8_lossy(bytes: Seq<u8>) -> Seq<char>;

/// Decodes command output with `String::from_utf8_lossy` (std). The result is
/// the named `utf8_lossy` of the bytes; std documents that bytes that are valid
/// UTF-8 decode to exactly the text they encode. What invalid sequences become
/// (replacement characters) is left unsaid.
#[verifier::external_body]
fn decode_lossy(bytes: &Vec<u8>) -> (s: String)
    ensures
        s@ == utf8_lossy(bytes@),
        vstd::utf8::valid_utf8(bytes@) ==> s@ == vstd::utf8::decode_utf8(bytes@),
{
    String::from_utf8_lossy(bytes.as_slice()).into_owned()
}

/// The final component that `std::path::Path::file_name` finds in `path`,
/// taken as text.
pub uninterp spec fn path_file_name(path: Seq<char>) -> Option<Seq<char>>;

/// Calls `std::path::Path::new(path).file_name()` and turns the `OsStr` it
/// returns into a `String`. The result is the named `path_file_name` of the
/// path; which component std picks is left unsaid.
#[verifier::external_body]
fn file_name_of(path: &str) -> (r: Option<String>)
    ensures
        match r {
            Some(n) => path_file_name(path@) == Some(n@),
            None => path_file_name(path@) is None,
        },
{
    std::path::Path::new(path).file_name().map(|n| n.to_string_lossy().into_owned())
}

/// The arguments of `herdr pane run <pane> <command>`.
pub fn run_in_pane_args(pane_id: &str, command: &str) -> (args: Vec<String>)
    ensures
        args@.len() == 4,
        args@[0]@ == "pane"@,
        args@[1]@ == "run"@,
        args@[2]@ == pane_id@,
        args@[3]@ == command@,
{
    let mut args: Vec<String> = Vec::new();
    args.push(String::from_str("pane"));
    args.push(String::from_str("run"));
    args.push(String::from_str(pane_id));
    args.push(String::from_str(command));
    args
}

/// The arguments of `herdr pane process-info --pane <pane>`.
pub fn process_info_args(pane_id: &str) -> (args: Vec<String>)
    ensures
        args@.len() == 4,
        args@[0]@ == "pane"@,
        args@[1]@ == "process-info"@,
        args@[2]@ == "--pane"@,
        args@[3]@ == pane_id@,
{
    let mut args: Vec<String> = Vec::new();
    args.push(String::from_str("pane"));
    args.push(String::from_str("process-info"));
    args.push(String::from_str("--pane"));
    args.push(String::from_str(pane_id));
    args
}

/// A unit result with its error taken as text.
pub open spec fn unit_result_view(r: Result<(), String>) -> Result<(), Seq<char>> {
    match r {
        Ok(_) => Ok(()),
        Err(e) => Err(e@),
    }
}

/// The message of a command that Herdr did not run in a pane.
pub open spec fn run_failure_text(command: Seq<char>, pane_id: Seq<char>, detail: Seq<char>) -> Seq<char> {
    "Error in executing command: "@ + command + ": on pane: "@ + pane_id + " - error: "@ + detail
}

/// What a failed `herdr pane run` printed.
pub open spec fn output_detail_text(stderr: Seq<char>, stdout: Seq<char>) -> Seq<char> {
    "std_err: "@ + stderr + " - std_out: "@ + stdout
}

/// The result of `herdr pane run` for each outcome of the process.
pub open spec fn run_in_pane_spec(
    pane_id: Seq<char>,
    command: Seq<char>,
    output: Result<CommandOutput, String>,
) -> Result<(), Seq<char>> {
    match output {
        Ok(o) => if o.success {
            Ok(())
        } else {
            Err(
                run_failure_text(
                    command,
                    pane_id,
                    output_detail_text(utf8_lossy(o.stderr@), utf8_lossy(o.stdout@)),
                ),
            )
        },
        Err(e) => Err(run_failure_text(command, pane_id, e@)),
    }
}

/// Writes the message of a command that Herdr did not run in a pane.
pub fn run_failure_message(command: &str, pane_id: &str, detail: &str) -> (s: String)
    ensures
        s@ == run_failure_text(command@, pane_id@, detail@),
{
    let mut s = String::from_str("Error in executing command: ");
    s.append(command);
    s.append(": on pane: ");
    s.append(pane_id);
    s.append(" - error: ");
    s.append(detail);
    s
}

/// Writes what a failed command printed on its two streams.
pub fn output_detail(stderr: &str, stdout: &str) -> (s: String)
    ensures
        s@ == output_detail_text(stderr@, stdout@),
{
    let mut s = String::from_str("std_err: ");
    s.append(stderr);
    s.append(" - std_out: ");
    s.append(stdout);
    s
}

/// Turns the outcome of `herdr pane run <pane> <command>` into the result of
/// running the command: `Ok` exactly when the process ran and succeeded; the
/// error names the command, the pane and the cause (the launch error, or what
/// the process printed on stderr and stdout).
pub fn run_in_pane_result(pane_id: &str, command: &str, output: &Result<CommandOutput, String>) -> (r: Result<(), String>)
    ensures
        unit_result_view(r) == run_in_pane_spec(pane_id@, command@, *output),
{
    match output {
        Ok(o) => {
            if o.success {
                Ok(())
            } else {
                let err = decode_lossy(&o.stderr);
                let out = decode_lossy(&o.stdout);
                let detail = output_detail(err.as_str(), out.as_str());
                Err(run_failure_message(command, pane_id, detail.as_str()))
            }
        },
        Err(e) => Err(run_failure_message(command, pane_id, e.as_str())),
    }
}

/// What a Herdr query hands on for parsing: the decoded stdout of a process
/// that succeeded; otherwise an error made of `status_prefix` and the decoded
/// stderr, or of `launch_prefix` and the launch error.
pub open spec fn query_stdout_spec(
    output: Result<CommandOutput, String>,
    status_prefix: Seq<char>,
    launch_prefix: Seq<char>,
) -> Result<Seq<char>, Seq<char>> {
    match output {
        Ok(o) => if o.success {
            Ok(utf8_lossy(o.stdout@))
        } else {
            Err(status_prefix + utf8_lossy(o.stderr@))
        },
        Err(e) => Err(launch_prefix + e@),
    }
}

/// A text result taken as text on both sides.
pub open spec fn text_result_view(r: Result<String, String>) -> Result<Seq<char>, Seq<char>> {
    match r {
        Ok(t) => Ok(t@),
        Err(e) => Err(e@),
    }
}

fn query_stdout(output: &Result<CommandOutput, String>, status_prefix: &str, launch_prefix: &str) -> (r: Result<String, String>)
    ensures
        text_result_view(r) == query_stdout_spec(*output, status_prefix@, launch_prefix@),
{
    match output {
        Ok(o) => {
            if o.success {
                Ok(decode_lossy(&o.stdout))
            } else {
                let err = decode_lossy(&o.stderr);
                Err(joined(status_prefix, err.as_str()))
            }
        },
        Err(e) => Err(joined(launch_prefix, e.as_str())),
    }
}

/// The stdout of `herdr agent list` to be parsed, or the error that ends the query.
pub fn agent_list_stdout(output: &Result<CommandOutput, String>) -> (r: Result<String, String>)
    ensures
        text_result_view(r) == query_stdout_spec(
            *output,
            "Herdr agent list output error: "@,
            "Failed to run herdr agent list: "@,
        ),
{
    query_stdout(output, "Herdr agent list output error: ", "Failed to run herdr agent list: ")
}

/// The stdout of `herdr pane process-info` to be parsed, or the error that ends the query.
pub fn process_info_stdout(output: &Result<CommandOutput, String>) -> (r: Result<String, String>)
    ensures
        text_result_view(r) == query_stdout_spec(
            *output,
            "Herdr process output error: "@,
            "Failed to run herdr pane process info: "@,
        ),
{
    query_stdout(output, "Herdr process output error: ", "Failed to run herdr pane process info: ")
}

/// The agent list, or the parse error behind the prefix that names it.
pub fn agent_list_parsed(parsed: Result<Vec<AgentInfo>, String>) -> (r: Result<Vec<AgentInfo>, String>)
    ensures
        match parsed {
            Ok(agents) => r == Ok::<Vec<AgentInfo>, String>(agents),
            Err(e) => r matches Err(m) && m@ == "Error with parsing agents json: "@ + e@,
        },
{
    match parsed {
        Ok(agents) => Ok(agents),
        Err(e) => Err(joined("Error with parsing agents json: ", e.as_str())),
    }
}

/// The foreground processes, or the parse error behind the prefix that names it.
pub fn process_info_parsed(parsed: Result<Vec<ForegroundProcess>, String>) -> (r: Result<Vec<ForegroundProcess>, String>)
    ensures
        match parsed {
            Ok(procs) => r == Ok::<Vec<ForegroundProcess>, String>(procs),
            Err(e) => r matches Err(m) && m@ == "Error with parsing processes json: "@ + e@,
        },
{
    match parsed {
        Ok(procs) => Ok(procs),
        Err(e) => Err(joined("Error with parsing processes json: ", e.as_str())),
    }
}

/// A process counts as Pi when it is named `pi` or its first argument is a
/// path whose file name is `pi`.
pub open spec fn is_pi_process(name: Seq<char>, first_arg_file_name: Option<Seq<char>>) -> bool {
    name == "pi"@ || first_arg_file_name == Some("pi"@)
}

/// The file name of a process's first argument, if it has one.
pub open spec fn first_arg_file_name(p: ForegroundProcess) -> Option<Seq<char>> {
    if p.argv@.len() > 0 {
        path_file_name(p.argv@[0]@)
    } else {
        None
    }
}

/// Whether a process, given its name and the file name of its first argument, is Pi.
pub fn process_is_pi(name: &str, first_arg_file_name: &Option<String>) -> (r: bool)
    ensures
        r == is_pi_process(
            name@,
            match first_arg_file_name {
                Some(n) => Some(n@),
                None => None,
            },
        ),
{
    if str_eq(name, "pi") {
        return true;
    }
    match first_arg_file_name {
        Some(n) => {
            let r = str_eq(n.as_str(), "pi");
            proof {
                if !r {
                    assert(Some(n@) != Some("pi"@));
                }
            }
            r
        },
        None => false,
    }
}

/// Whether any of the processes is Pi.
pub fn processes_run_pi(processes: &Vec<ForegroundProcess>) -> (r: bool)
    ensures
        r == exists|i: int|
            0 <= i < processes@.len() && #[trigger] is_pi_process(
                processes@[i].name@,
                first_arg_file_name(processes@[i]),
            ),
{
    let mut i: usize = 0;
    while i < processes.len()
        invariant
            i <= processes@.len(),
            forall|j: int|
                0 <= j < i ==> !#[trigger] is_pi_process(
                    processes@[j].name@,
                    first_arg_file_name(processes@[j]),
                ),
        decreases processes@.len() - i,
    {
        let p = &processes[i];
        let file_name = if p.argv.len() > 0 {
            file_name_of(p.argv[0].as_str())
        } else {
            None
        };
        if process_is_pi(p.name.as_str(), &file_name) {
            assert(is_pi_process(processes@[i as int].name@, first_arg_file_name(processes@[i as int])));
            return true;
        }
        i = i + 1;
    }
    false
}

/// Whether Pi runs in a pane, from the pane's foreground processes; a failed
/// query becomes an error that says so.
pub fn pane_pi_status(info: Result<Vec<ForegroundProcess>, String>) -> (r: Result<PanePiStatus, String>)
    ensures
        match info {
            Ok(procs) => r == Ok::<PanePiStatus, String>(
                if exists|i: int|
                    0 <= i < procs@.len() && #[trigger] is_pi_process(
                        procs@[i].name@,
                        first_arg_file_name(procs@[i]),
                    ) {
                    PanePiStatus::RunningPi
                } else {
                    PanePiStatus::NonPi
                },
            ),
            Err(e) => r matches Err(m) && m@ == "Failed to check if pi is running in pane: "@ + e@,
        },
{
    match info {
        Ok(procs) => {
            if processes_run_pi(&procs) {
                Ok(PanePiStatus::RunningPi)
            } else {
                Ok(PanePiStatus::NonPi)
            }
        },
        Err(e) => Err(joined("Failed to check if pi is running in pane: ", e.as_str())),
    }
}

} // verus!
