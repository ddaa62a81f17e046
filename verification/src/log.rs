//! Console log lines of the form `[<time>] [<label>] <message>`.

use vstd::prelude::*;
use colored::Colorize;

verus! {

/// The escape sequence that starts a foreground colour with SGR code `code`.
pub open spec fn sgr_start(code: Seq<char>) -> Seq<char> {
    seq!['\x1b', '['] + code + seq!['m']
}

/// The escape sequence that resets all attributes.
pub open spec fn sgr_reset() -> Seq<char> {
    seq!['\x1b', '[', '0', 'm']
}

/// What `colored` prints for `s` painted with SGR colour `code`: either the
/// text alone (when colouring is switched off by the environment) or the text
/// between the colour's start sequence and the reset sequence.
pub open spec fn painted(s: Seq<char>, code: Seq<char>, res: Seq<char>) -> bool {
    res == s || res == sgr_start(code) + s + sgr_reset()
}

/// Calls `colored::Colorize::green` and formats the result with `Display`.
/// Trusted: the text comes back unchanged or wrapped in `ESC[32m` ... `ESC[0m`;
/// which of the two depends on the environment (`NO_COLOR`, `CLICOLOR`,
/// `CLICOLOR_FORCE`, whether stdout is a terminal), so nothing more is said.
/// Stated only for text without an escape character, which `colored`
/// otherwise rewrites.
#[verifier::external_body]
fn paint_green(s: &str) -> (res: String)
    ensures
        !s@.contains('\x1b') ==> painted(s@, seq!['3', '2'], res@),
{
    format!("{}", s.green())
}

/// Calls `colored::Colorize::red` and formats the result with `Display`.
/// Trusted: as for `paint_green`, with `ESC[31m`.
#[verifier::external_body]
fn paint_red(s: &str) -> (res: String)
    ensures
        !s@.contains('\x1b') ==> painted(s@, seq!['3', '1'], res@),
{
    format!("{}", s.red())
}

/// The kinds of message the launcher logs: `0` is an informational message,
/// `1` an error.
pub open spec fn is_known_kind(type_of_msg: i32) -> bool {
    type_of_msg == 0 || type_of_msg == 1
}

/// The label for a message kind.
pub open spec fn label_for(type_of_msg: i32) -> Seq<char> {
    if type_of_msg == 0 {
        seq!['m', 'a', 'i', 'n']
    } else {
        seq!['e', 'r', 'r', 'o', 'r']
    }
}

/// The SGR colour of the label: green for information, red for errors.
pub open spec fn colour_for(type_of_msg: i32) -> Seq<char> {
    if type_of_msg == 0 {
        seq!['3', '2']
    } else {
        seq!['3', '1']
    }
}

/// `[<timestamp>] [<label>] <mesg>`.
pub open spec fn log_line_text(timestamp: Seq<char>, label: Seq<char>, mesg: Seq<char>) -> Seq<char> {
    seq!['['] + timestamp + seq![']', ' ', '['] + label + seq![']', ' '] + mesg
}

/// A log line opens with the timestamp in brackets, then the label in
/// brackets after a space, and ends with the message after a space.
pub proof fn lemma_log_line_layout(timestamp: Seq<char>, label: Seq<char>, mesg: Seq<char>)
    ensures
        ({
            let line = log_line_text(timestamp, label, mesg);
            let t = timestamp.len() as int;
            let l = label.len() as int;
            &&& line.len() == t + l + mesg.len() + 6
            &&& line[0] == '['
            &&& line.subrange(1, t + 1) == timestamp
            &&& line[t + 1] == ']' && line[t + 2] == ' ' && line[t + 3] == '['
            &&& line.subrange(t + 4, t + 4 + l) == label
            &&& line[t + 4 + l] == ']' && line[t + 5 + l] == ' '
            &&& line.subrange(t + 6 + l, line.len() as int) == mesg
        }),
{
    let line = log_line_text(timestamp, label, mesg);
    let t = timestamp.len() as int;
    let l = label.len() as int;
    assert(line.subrange(1, t + 1) =~= timestamp);
    assert(line.subrange(t + 4, t + 4 + l) =~= label);
    assert(line.subrange(t + 6 + l, line.len() as int) =~= mesg);
}

/// Lays out one log line from its parts.
pub fn format_log_line(timestamp: &str, label: &str, mesg: &str) -> (res: String)
    ensures
        res@ == log_line_text(timestamp@, label@, mesg@),
{
    let mut res = String::from_str("[");
    res.append(timestamp);
    res.append("] [");
    res.append(label);
    res.append("] ");
    res.append(mesg);
    proof {
        reveal_strlit("[");
        reveal_strlit("] [");
        reveal_strlit("] ");
    }
    assert(res@ =~= log_line_text(timestamp@, label@, mesg@));
    res
}

/// The line that the launcher prints for a message of kind `type_of_msg`
/// (`0`: information, labelled `main` in green; `1`: error, labelled `error`
/// in red), stamped with `timestamp`. Other kinds are not supported.
pub fn log_line(timestamp: &str, mesg: &str, type_of_msg: i32) -> (res: String)
    requires
        is_known_kind(type_of_msg),
    ensures
        exists|label: Seq<char>|
            painted(label_for(type_of_msg), colour_for(type_of_msg), label)
                && res@ == #[trigger] log_line_text(timestamp@, label, mesg@),
{
    let label = if type_of_msg == 0 {
        let l = paint_green("main");
        proof {
            reveal_strlit("main");
            assert("main"@ =~= label_for(0));
        }
        l
    } else {
        let l = paint_red("error");
        proof {
            reveal_strlit("error");
            assert("error"@ =~= label_for(1));
        }
        l
    };
    format_log_line(timestamp, label.as_str(), mesg)
}

} // verus!
