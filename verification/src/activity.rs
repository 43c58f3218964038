//! The text of tool-activity entries in a session's transcript.
use vstd::prelude::*;

use crate::contracts::CompletionCandidate;
use crate::text::{
    chars_of, concat_chars, join_line_chars, join_lines, string_from_chars, trim, trim_chars,
};

verus! {

/// The line that lists a command: `- label`, followed by ` — detail` when
/// the trimmed detail is not empty.
pub open spec fn command_line(label: Seq<char>, detail: Seq<char>) -> Seq<char> {
    if trim(detail).len() == 0 {
        "- "@ + label
    } else {
        "- "@ + label + " — "@ + trim(detail)
    }
}

/// The line that lists a completion candidate.
pub open spec fn candidate_line(c: CompletionCandidate) -> Seq<char> {
    command_line(c.label@, c.detail@)
}

/// The lines of an activity entry: the trimmed title and detail when not
/// blank, then `Commands:` and one line per command when there are any.
pub open spec fn activity_lines(
    title: Seq<char>,
    detail: Seq<char>,
    commands: Seq<CompletionCandidate>,
) -> Seq<Seq<char>> {
    (if trim(title).len() > 0 {
        seq![trim(title)]
    } else {
        Seq::empty()
    }) + (if trim(detail).len() > 0 {
        seq![trim(detail)]
    } else {
        Seq::empty()
    }) + (if commands.len() > 0 {
        seq!["Commands:"@] + commands.map_values(|c: CompletionCandidate| candidate_line(c))
    } else {
        Seq::empty()
    })
}

/// The text of an activity entry: its lines joined by newlines.
pub open spec fn tool_activity_text_spec(
    title: Seq<char>,
    detail: Seq<char>,
    commands: Seq<CompletionCandidate>,
) -> Seq<char> {
    join_lines(activity_lines(title, detail, commands))
}

fn command_line_chars(command: &CompletionCandidate) -> (line: Vec<char>)
    ensures
        line@ == candidate_line(*command),
{
    let detail_chars = chars_of(command.detail.as_str());
    let detail = trim_chars(detail_chars.as_slice());
    let dash = chars_of("- ");
    let label = chars_of(command.label.as_str());
    let head = concat_chars(dash.as_slice(), label.as_slice());
    if detail.len() == 0 {
        head
    } else {
        let sep = chars_of(" — ");
        let with_sep = concat_chars(head.as_slice(), sep.as_slice());
        concat_chars(with_sep.as_slice(), detail.as_slice())
    }
}

/// The line that lists `command` in an activity entry.
pub fn format_tool_activity_command(command: &CompletionCandidate) -> (line: String)
    ensures
        line@ == candidate_line(*command),
{
    let chars = command_line_chars(command);
    string_from_chars(chars.as_slice())
}

/// The text of an activity entry with the given title, detail and commands.
pub fn tool_activity_text(title: &str, detail: &str, commands: &[CompletionCandidate]) -> (text:
    String)
    ensures
        text@ == tool_activity_text_spec(title@, detail@, commands@),
{
    let mut lines: Vec<Vec<char>> = Vec::new();
    let title_chars = chars_of(title);
    let title_trimmed = trim_chars(title_chars.as_slice());
    if title_trimmed.len() > 0 {
        lines.push(title_trimmed);
    }
    let detail_chars = chars_of(detail);
    let detail_trimmed = trim_chars(detail_chars.as_slice());
    if detail_trimmed.len() > 0 {
        lines.push(detail_trimmed);
    }
    let ghost fixed = lines@.map_values(|l: Vec<char>| l@);
    assert(fixed =~= activity_lines(title@, detail@, Seq::empty()));
    if commands.len() > 0 {
        lines.push(chars_of("Commands:"));
        let mut i: usize = 0;
        while i < commands.len()
            invariant
                i <= commands.len(),
                commands.len() > 0,
                lines@.map_values(|l: Vec<char>| l@) == fixed + seq!["Commands:"@]
                    + commands@.take(i as int).map_values(|c: CompletionCandidate| candidate_line(c)),
            decreases commands.len() - i,
        {
            let ghost before = lines@;
            let line = command_line_chars(&commands[i]);
            lines.push(line);
            i = i + 1;
            assert(lines@.map_values(|l: Vec<char>| l@) =~= before.map_values(|l: Vec<char>| l@).push(
                candidate_line(commands@[i - 1]),
            ));
            assert(commands@.take(i as int).map_values(|c: CompletionCandidate| candidate_line(c))
                =~= commands@.take(i - 1).map_values(|c: CompletionCandidate| candidate_line(c)).push(
                candidate_line(commands@[i - 1]),
            ));
            assert(lines@.map_values(|l: Vec<char>| l@) =~= fixed + seq!["Commands:"@]
                + commands@.take(i as int).map_values(|c: CompletionCandidate| candidate_line(c)));
        }
        assert(commands@.take(commands.len() as int) =~= commands@);
    }
    assert(lines@.map_values(|l: Vec<char>| l@) =~= activity_lines(title@, detail@, commands@));
    let joined = join_line_chars(&lines);
    string_from_chars(joined.as_slice())
}

} // verus!
