//! The text of each screen: menu lines, running message, result heading and
//! counters, shown errors, and footer. Styling and drawing stay outside.

use vstd::prelude::*;
use crate::pi::{ReloadSummary, ResetSummary, texts};
use crate::text::{decimal, decimal_string};
use crate::tui::Screen;

verus! {

/// The title of the overlay's frame.
pub fn title() -> (t: &'static str)
    ensures
        t@ == "Herdr Pi Reloader"@,
{
    "Herdr Pi Reloader"
}

/// The entries of the menu, in order.
pub open spec fn menu_item(i: int) -> Seq<char> {
    if i == 0 {
        "Reload all Pi"@
    } else {
        "Reset all Pi"@
    }
}

/// One line of the menu and whether it is highlighted.
pub struct MenuLine {
    pub text: String,
    pub highlighted: bool,
}

/// The lines of the menu: the entry under the cursor marked with `> ` and
/// highlighted, the others indented by two spaces.
pub fn menu_lines(selected: usize) -> (lines: Vec<MenuLine>)
    ensures
        lines@.len() == 2,
        forall|i: int|
            0 <= i < 2 ==> (#[trigger] lines@[i]).highlighted == (i == selected) && lines@[i].text@ == (if i
                == selected {
                "> "@
            } else {
                "  "@
            }) + menu_item(i),
{
    let mut lines: Vec<MenuLine> = Vec::new();
    let mut i: usize = 0;
    while i < 2
        invariant
            i <= 2,
            lines@.len() == i,
            forall|j: int|
                0 <= j < i ==> (#[trigger] lines@[j]).highlighted == (j == selected) && lines@[j].text@ == (if j
                    == selected {
                    "> "@
                } else {
                    "  "@
                }) + menu_item(j),
        decreases 2 - i,
    {
        let item = if i == 0 {
            "Reload all Pi"
        } else {
            "Reset all Pi"
        };
        let marker = if i == selected {
            "> "
        } else {
            "  "
        };
        let mut text = String::from_str(marker);
        text.append(item);
        lines.push(MenuLine { text, highlighted: i == selected });
        i = i + 1;
    }
    lines
}

/// The frames of the spinner.
pub open spec fn spinner_char(frame: nat) -> Seq<char> {
    if frame % 4 == 0 {
        "|"@
    } else if frame % 4 == 1 {
        "/"@
    } else if frame % 4 == 2 {
        "-"@
    } else {
        "\\"@
    }
}

/// The message of a running operation, after the spinner's current frame.
pub open spec fn running_text_spec(reset: bool, frame: nat) -> Seq<char> {
    spinner_char(frame) + " "@ + if reset {
        "Resetting Pi instances..."@
    } else {
        "Reloading Pi instances..."@
    }
}

/// Writes the message of a running reload or reset with its spinner.
pub fn running_text(reset: bool, frame: usize) -> (t: String)
    ensures
        t@ == running_text_spec(reset, frame as nat),
{
    let spin = if frame % 4 == 0 {
        "|"
    } else if frame % 4 == 1 {
        "/"
    } else if frame % 4 == 2 {
        "-"
    } else {
        "\\"
    };
    let mut t = String::from_str(spin);
    t.append(" ");
    t.append(
        if reset {
            "Resetting Pi instances..."
        } else {
            "Reloading Pi instances..."
        },
    );
    t
}

/// The footer of a screen: the keys that work there.
pub open spec fn footer_spec(screen: Screen) -> Seq<char> {
    match screen {
        Screen::Menu => "↑/k ↓/j select • Enter run • q/Esc quit"@,
        Screen::RunningReload | Screen::RunningReset => "Operation in progress..."@,
        _ => "Enter/q/Esc quit"@,
    }
}

/// The footer of a screen.
pub fn footer(screen: &Screen) -> (t: &'static str)
    ensures
        t@ == footer_spec(*screen),
{
    match screen {
        Screen::Menu => "↑/k ↓/j select • Enter run • q/Esc quit",
        Screen::RunningReload | Screen::RunningReset => "Operation in progress...",
        _ => "Enter/q/Esc quit",
    }
}

/// The overall verdict of a finished operation.
#[derive(PartialEq, Eq, Structural, Debug, Clone, Copy)]
pub enum Heading {
    CompletedWithErrors,
    Success,
    NothingToDo,
}

/// Any failure makes the result `Completed with errors`; otherwise one success
/// makes it `Success`; with neither there was `Nothing to do`.
pub open spec fn heading_for(failed: nat, succeeded: nat) -> Heading {
    if failed > 0 {
        Heading::CompletedWithErrors
    } else if succeeded > 0 {
        Heading::Success
    } else {
        Heading::NothingToDo
    }
}

/// A result is `Success` when something succeeded and nothing failed,
/// `Completed with errors` when anything failed, whatever succeeded, and
/// `Nothing to do` when nothing succeeded or failed.
pub proof fn heading_follows_the_counts(failed: nat, succeeded: nat)
    ensures
        (failed == 0 && succeeded > 0) <==> heading_for(failed, succeeded) == Heading::Success,
        failed > 0 <==> heading_for(failed, succeeded) == Heading::CompletedWithErrors,
        (failed == 0 && succeeded == 0) <==> heading_for(failed, succeeded) == Heading::NothingToDo,
{
}

/// The words of a heading.
pub fn heading_text(h: Heading) -> (t: &'static str)
    ensures
        t@ == match h {
            Heading::CompletedWithErrors => "Completed with errors"@,
            Heading::Success => "Success"@,
            Heading::NothingToDo => "Nothing to do"@,
        },
{
    match h {
        Heading::CompletedWithErrors => "Completed with errors",
        Heading::Success => "Success",
        Heading::NothingToDo => "Nothing to do",
    }
}

/// The most error messages a result screen shows.
pub const MAX_SHOWN_ERRORS: usize = 5;

/// The line of the `i`-th shown error (counting from 0).
pub open spec fn error_line(i: int, error: Seq<char>) -> Seq<char> {
    "Error "@ + decimal((i + 1) as nat) + ": "@ + error
}

/// The first shown error lines, up to `n` of them.
pub open spec fn shown_error_lines(errors: Seq<Seq<char>>, n: int) -> Seq<Seq<char>>
    decreases n,
{
    if n <= 0 {
        seq![]
    } else {
        shown_error_lines(errors, n - 1).push(error_line(n - 1, errors[n - 1]))
    }
}

/// The number of errors a result screen shows.
pub open spec fn shown_count(n: nat) -> nat {
    if n < MAX_SHOWN_ERRORS {
        n
    } else {
        MAX_SHOWN_ERRORS as nat
    }
}

/// The error part of a result screen: nothing without errors; otherwise a
/// title, at most five numbered messages and, for the rest, how many more.
pub open spec fn error_section(errors: Seq<Seq<char>>) -> Seq<Seq<char>> {
    if errors.len() == 0 {
        seq![]
    } else {
        seq![""@, "Errors:"@, ""@] + shown_error_lines(errors, shown_count(errors.len()) as int) + if errors.len()
            > MAX_SHOWN_ERRORS {
            seq![""@, "...and "@ + decimal((errors.len() - MAX_SHOWN_ERRORS) as nat) + " more errors"@]
        } else {
            seq![]
        }
    }
}

proof fn lemma_shown_error_lines(errors: Seq<Seq<char>>, n: int)
    requires
        0 <= n <= errors.len(),
    ensures
        shown_error_lines(errors, n).len() == n,
        forall|k: int|
            0 <= k < n ==> #[trigger] shown_error_lines(errors, n)[k] == "Error "@ + decimal((k + 1) as nat)
                + ": "@ + errors[k],
    decreases n,
{
    if n > 0 {
        lemma_shown_error_lines(errors, n - 1);
    }
}

/// A result screen shows no error part without errors; otherwise a title
/// block, then the first errors in order, numbered from 1, at most five of
/// them, and, past five, one line saying how many more there are.
pub proof fn error_section_shows_at_most_five(errors: Seq<Seq<char>>)
    ensures
        errors.len() == 0 ==> error_section(errors).len() == 0,
        errors.len() > 0 ==> {
            let shown = if errors.len() < 5 {
                errors.len() as int
            } else {
                5
            };
            &&& error_section(errors).len() == 3 + shown + if errors.len() > 5 {
                2int
            } else {
                0int
            }
            &&& error_section(errors)[1] == "Errors:"@
            &&& forall|k: int|
                0 <= k < shown ==> #[trigger] error_section(errors)[3 + k] == "Error "@ + decimal(
                    (k + 1) as nat,
                ) + ": "@ + errors[k]
            &&& errors.len() > 5 ==> error_section(errors)[error_section(errors).len() - 1] == "...and "@
                + decimal((errors.len() - 5) as nat) + " more errors"@
        },
{
    if errors.len() > 0 {
        let n = shown_count(errors.len()) as int;
        lemma_shown_error_lines(errors, n);
        let head = seq![""@, "Errors:"@, ""@];
        let body = shown_error_lines(errors, n);
        assert forall|k: int| 0 <= k < n implies #[trigger] error_section(errors)[3 + k] == "Error "@ + decimal(
            (k + 1) as nat,
        ) + ": "@ + errors[k] by {
            assert(error_section(errors)[3 + k] == body[k]);
        }
    }
}

/// The lines under the heading of a result screen.
pub open spec fn result_lines(
    done_label: Seq<char>,
    done: nat,
    skipped: nat,
    failed: nat,
    errors: Seq<Seq<char>>,
) -> Seq<Seq<char>> {
    seq![
        ""@,
        done_label + decimal(done),
        "Skipped: "@ + decimal(skipped),
        "Failed: "@ + decimal(failed),
    ] + error_section(errors)
}

/// A result screen: its heading and the lines under it.
pub struct ResultView {
    pub heading: Heading,
    pub lines: Vec<String>,
}

fn labelled(label: &str, n: usize) -> (s: String)
    ensures
        s@ == label@ + decimal(n as nat),
{
    let d = decimal_string(n);
    let mut s = String::from_str(label);
    s.append(d.as_str());
    s
}

fn result_lines_exec(done_label: &str, done: usize, skipped: usize, failed: usize, errors: &Vec<String>) -> (lines: Vec<String>)
    ensures
        texts(lines@) == result_lines(done_label@, done as nat, skipped as nat, failed as nat, texts(errors@)),
{
    proof {
        reveal_strlit("");
    }
    let mut lines: Vec<String> = Vec::new();
    let l0 = String::new();
    let l1 = labelled(done_label, done);
    let l2 = labelled("Skipped: ", skipped);
    let l3 = labelled("Failed: ", failed);
    assert(l0@ == ""@);
    lines.push(l0);
    lines.push(l1);
    lines.push(l2);
    lines.push(l3);
    let ghost head = texts(lines@);
    assert(head.len() == 4);
    assert(head[0] == ""@);
    assert(head[1] == done_label@ + decimal(done as nat));
    assert(head =~= seq![
        ""@,
        done_label@ + decimal(done as nat),
        "Skipped: "@ + decimal(skipped as nat),
        "Failed: "@ + decimal(failed as nat),
    ]);
    let ghost errs = texts(errors@);
    let total = errors.len();
    if total > 0 {
        lines.push(String::new());
        lines.push(String::from_str("Errors:"));
        lines.push(String::new());
        let shown = if total < MAX_SHOWN_ERRORS {
            total
        } else {
            MAX_SHOWN_ERRORS
        };
        let ghost top = texts(lines@);
        assert(top =~= head + seq![""@, "Errors:"@, ""@]);
        let mut i: usize = 0;
        while i < shown
            invariant
                i <= shown,
                shown <= total,
                total == errors@.len(),
                errs == texts(errors@),
                texts(lines@) == top + shown_error_lines(errs, i as int),
            decreases shown - i,
        {
            let mut line = labelled("Error ", i + 1);
            line.append(": ");
            line.append(errors[i].as_str());
            let ghost before = lines@;
            lines.push(line);
            assert(texts(lines@) =~= texts(before).push(error_line(i as int, errs[i as int])));
            assert(shown_error_lines(errs, i + 1) == shown_error_lines(errs, i as int).push(
                error_line(i as int, errs[i as int]),
            ));
            i = i + 1;
        }
        if total > MAX_SHOWN_ERRORS {
            let ghost mid = texts(lines@);
            lines.push(String::new());
            let mut more = labelled("...and ", total - MAX_SHOWN_ERRORS);
            more.append(" more errors");
            lines.push(more);
            assert(texts(lines@) =~= mid + seq![""@, "...and "@ + decimal((total - MAX_SHOWN_ERRORS) as nat) + " more errors"@]);
        }
        assert(texts(lines@) =~= result_lines(done_label@, done as nat, skipped as nat, failed as nat, errs));
    } else {
        assert(texts(lines@) =~= result_lines(done_label@, done as nat, skipped as nat, failed as nat, errs));
    }
    lines
}

/// The failures a reload result shows: failed commands and Pi agents left
/// out for want of data.
pub open spec fn reload_failed_total(s: ReloadSummary) -> nat {
    (s.failed + s.skipped_invalid_agent_data) as nat
}

/// The result screen of a reload.
pub fn reload_result_view(s: &ReloadSummary) -> (v: ResultView)
    requires
        s.failed + s.skipped_invalid_agent_data <= usize::MAX,
    ensures
        v.heading == heading_for(reload_failed_total(*s), s.reloaded as nat),
        (v.heading == Heading::Success) <==> (s.failed == 0 && s.skipped_invalid_agent_data == 0 && s.reloaded > 0),
        (v.heading == Heading::NothingToDo) <==> (s.failed == 0 && s.skipped_invalid_agent_data == 0
            && s.reloaded == 0),
        texts(v.lines@) == result_lines(
            "Reloaded: "@,
            s.reloaded as nat,
            s.skipped_unsafe_status as nat,
            reload_failed_total(*s),
            texts(s.errors@),
        ),
{
    let failed = s.failed + s.skipped_invalid_agent_data;
    let heading = if failed > 0 {
        Heading::CompletedWithErrors
    } else if s.reloaded > 0 {
        Heading::Success
    } else {
        Heading::NothingToDo
    };
    let lines = result_lines_exec("Reloaded: ", s.reloaded, s.skipped_unsafe_status, failed, &s.errors);
    ResultView { heading, lines }
}

/// The result screen of a reset.
pub fn reset_result_view(s: &ResetSummary) -> (v: ResultView)
    ensures
        v.heading == heading_for(s.failed as nat, s.reset as nat),
        (v.heading == Heading::Success) <==> (s.failed == 0 && s.reset > 0),
        (v.heading == Heading::NothingToDo) <==> (s.failed == 0 && s.reset == 0),
        texts(v.lines@) == result_lines(
            "Reset: "@,
            s.reset as nat,
            s.skipped_unsafe_status as nat,
            s.failed as nat,
            texts(s.errors@),
        ),
{
    let heading = if s.failed > 0 {
        Heading::CompletedWithErrors
    } else if s.reset > 0 {
        Heading::Success
    } else {
        Heading::NothingToDo
    };
    let lines = result_lines_exec("Reset: ", s.reset, s.skipped_unsafe_status, s.failed, &s.errors);
    ResultView { heading, lines }
}

} // verus!
