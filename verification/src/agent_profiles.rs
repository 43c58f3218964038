//! ACP agent launch profiles: how their commands are shown and edited.
use vstd::prelude::*;

use crate::contracts::{AgentProfile, AgentProfileMode};
use crate::icons::{busy_or, AppIcon};
use crate::text::{
    chars_eq, chars_of, concat_chars, is_white_space, is_white_space_char, join_chars_with,
    join_with, str_eq, string_from_chars, trim, trim_chars,
};

verus! {

/// Characters that an argument may show without quotes: anything but white
/// space, quotes and backslashes.
pub open spec fn can_stay_unquoted(c: char) -> bool {
    !is_white_space(c) && c != '\'' && c != '"' && c != '\\'
}

/// Whether `ch` may appear in an argument shown without quotes.
pub fn preview_arg_can_stay_unquoted(ch: char) -> (r: bool)
    ensures
        r == can_stay_unquoted(ch),
{
    !is_white_space_char(ch) && ch != '\'' && ch != '"' && ch != '\\'
}

/// The characters of `s` with each `'` written as `'\''`.
pub open spec fn escape_single_quotes(s: Seq<char>) -> Seq<char>
    decreases s.len(),
{
    if s.len() == 0 {
        seq![]
    } else {
        (if s[0] == '\'' {
            seq!['\'', '\\', '\'', '\'']
        } else {
            seq![s[0]]
        }) + escape_single_quotes(s.drop_first())
    }
}

/// How one argument of a command is shown: `''` when empty, as it is when
/// every character may stay unquoted, else in single quotes with its single
/// quotes escaped.
pub open spec fn preview_arg(arg: Seq<char>) -> Seq<char> {
    if arg.len() == 0 {
        seq!['\'', '\'']
    } else if forall|i: int| 0 <= i < arg.len() ==> can_stay_unquoted(#[trigger] arg[i]) {
        arg
    } else {
        seq!['\''] + escape_single_quotes(arg) + seq!['\'']
    }
}

/// How a command is shown: its arguments, each shown as [`preview_arg`]
/// says, separated by spaces.
pub open spec fn command_preview(argv: Seq<Seq<char>>) -> Seq<char> {
    join_with(argv.map_values(|a: Seq<char>| preview_arg(a)), seq![' '])
}

/// The views of a list of strings.
pub open spec fn strings_view(v: Seq<String>) -> Seq<Seq<char>> {
    v.map_values(|s: String| s@)
}

fn preview_arg_chars(arg: &str) -> (r: Vec<char>)
    ensures
        r@ == preview_arg(arg@),
{
    let chars = chars_of(arg);
    if chars.len() == 0 {
        let mut r: Vec<char> = Vec::new();
        r.push('\'');
        r.push('\'');
        assert(r@ =~= seq!['\'', '\'']);
        return r;
    }
    let mut all_plain = true;
    let mut i: usize = 0;
    while i < chars.len()
        invariant
            i <= chars.len(),
            all_plain == forall|j: int| 0 <= j < i ==> can_stay_unquoted(#[trigger] chars@[j]),
        decreases chars.len() - i,
    {
        let ok = preview_arg_can_stay_unquoted(chars[i]);
        proof {
            if !ok {
                assert(!can_stay_unquoted(chars@[i as int]));
            }
        }
        all_plain = all_plain && ok;
        i = i + 1;
    }
    if all_plain {
        return chars;
    }
    let mut out: Vec<char> = Vec::new();
    out.push('\'');
    let ghost s = chars@;
    assert(s.skip(0) =~= s);
    let mut k: usize = 0;
    while k < chars.len()
        invariant
            s == chars@,
            k <= chars.len(),
            seq!['\''] + escape_single_quotes(s) == out@ + escape_single_quotes(s.skip(k as int)),
        decreases chars.len() - k,
    {
        let ghost before = out@;
        assert(s.skip(k as int).drop_first() =~= s.skip(k + 1));
        if chars[k] == '\'' {
            out.push('\'');
            out.push('\\');
            out.push('\'');
            out.push('\'');
            assert(out@ =~= before + seq!['\'', '\\', '\'', '\'']);
        } else {
            out.push(chars[k]);
            assert(out@ =~= before + seq![chars@[k as int]]);
        }
        k = k + 1;
    }
    assert(s.skip(k as int) =~= Seq::<char>::empty());
    out.push('\'');
    assert(out@ =~= seq!['\''] + escape_single_quotes(s) + seq!['\'']);
    out
}

/// How one argument of a command is shown.
pub fn preview_argv_arg(arg: &str) -> (shown: String)
    ensures
        shown@ == preview_arg(arg@),
{
    let chars = preview_arg_chars(arg);
    string_from_chars(chars.as_slice())
}

fn command_preview_chars(command_argv: &[String]) -> (r: Vec<char>)
    ensures
        r@ == command_preview(strings_view(command_argv@)),
{
    let mut pieces: Vec<Vec<char>> = Vec::new();
    let mut i: usize = 0;
    while i < command_argv.len()
        invariant
            i <= command_argv.len(),
            pieces@.map_values(|l: Vec<char>| l@) == strings_view(command_argv@).take(
                i as int,
            ).map_values(|a: Seq<char>| preview_arg(a)),
        decreases command_argv.len() - i,
    {
        let ghost before = pieces@;
        let piece = preview_arg_chars(command_argv[i].as_str());
        pieces.push(piece);
        i = i + 1;
        assert(pieces@.map_values(|l: Vec<char>| l@) =~= before.map_values(|l: Vec<char>| l@).push(
            preview_arg(command_argv@[i - 1]@),
        ));
        assert(strings_view(command_argv@).take(i as int).map_values(|a: Seq<char>| preview_arg(a))
            =~= strings_view(command_argv@).take(i - 1).map_values(|a: Seq<char>| preview_arg(a)).push(
            preview_arg(command_argv@[i - 1]@),
        ));
    }
    assert(strings_view(command_argv@).take(command_argv@.len() as int) =~= strings_view(
        command_argv@,
    ));
    let mut space: Vec<char> = Vec::new();
    space.push(' ');
    assert(space@ =~= seq![' ']);
    join_chars_with(&pieces, space.as_slice())
}

/// How a command is shown in an editable field: each argument as
/// [`preview_argv_arg`] shows it, separated by spaces.
pub fn agent_command_preview(command_argv: &[String]) -> (shown: String)
    ensures
        shown@ == command_preview(strings_view(command_argv@)),
{
    let chars = command_preview_chars(command_argv);
    string_from_chars(chars.as_slice())
}

/// The form value of a launch mode.
pub open spec fn mode_value_spec(mode: AgentProfileMode) -> Seq<char> {
    match mode {
        AgentProfileMode::Host => "host"@,
        AgentProfileMode::Chroot => "chroot"@,
    }
}

/// The form value of a launch mode.
pub fn profile_mode_value(mode: AgentProfileMode) -> (value: &'static str)
    ensures
        value@ == mode_value_spec(mode),
{
    match mode {
        AgentProfileMode::Host => "host",
        AgentProfileMode::Chroot => "chroot",
    }
}

/// The launch mode of a form value: `chroot`, else host.
pub open spec fn mode_from_value_spec(value: Seq<char>) -> AgentProfileMode {
    if value == "chroot"@ {
        AgentProfileMode::Chroot
    } else {
        AgentProfileMode::Host
    }
}

/// The launch mode of a form value.
pub fn profile_mode_from_value(value: &str) -> (mode: AgentProfileMode)
    ensures
        mode == mode_from_value_spec(value@),
{
    if str_eq(value, "chroot") {
        AgentProfileMode::Chroot
    } else {
        AgentProfileMode::Host
    }
}

/// A launch mode survives its form value: for every mode `m`,
/// `profile_mode_from_value(profile_mode_value(m))` is `m`.
pub proof fn lemma_profile_mode_round_trip(mode: AgentProfileMode)
    ensures
        mode_from_value_spec(mode_value_spec(mode)) == mode,
{
    reveal_strlit("host");
    reveal_strlit("chroot");
    assert("host"@.len() != "chroot"@.len());
}

/// Whether an edited profile differs from the stored one: the trimmed name,
/// the trimmed command against the stored command's preview, or the mode.
pub open spec fn values_changed_spec(
    name: Seq<char>,
    command: Seq<char>,
    mode: AgentProfileMode,
    original: AgentProfile,
) -> bool {
    trim(name) != original.name@ || trim(command) != command_preview(
        strings_view(original.command_argv@),
    ) || mode != original.mode
}

/// Whether an edited profile differs from the stored one.
pub fn agent_profile_values_changed(
    name: &str,
    command: &str,
    mode: AgentProfileMode,
    original: &AgentProfile,
) -> (changed: bool)
    ensures
        changed == values_changed_spec(name@, command@, mode, *original),
{
    let name_chars = chars_of(name);
    let name_trimmed = trim_chars(name_chars.as_slice());
    let original_name = chars_of(original.name.as_str());
    if !chars_eq(name_trimmed.as_slice(), original_name.as_slice()) {
        return true;
    }
    let command_chars = chars_of(command);
    let command_trimmed = trim_chars(command_chars.as_slice());
    let preview = command_preview_chars(original.command_argv.as_slice());
    if !chars_eq(command_trimmed.as_slice(), preview.as_slice()) {
        return true;
    }
    mode != original.mode
}

/// The label of a profile's save button.
pub fn agent_profile_save_label(saving: bool) -> (label: &'static str)
    ensures
        label@ == (if saving {
            "Saving…"@
        } else {
            "Save profile"@
        }),
{
    if saving {
        "Saving…"
    } else {
        "Save profile"
    }
}

/// The label of a profile's delete button.
pub fn delete_profile_label(deleting: bool) -> (label: &'static str)
    ensures
        label@ == (if deleting {
            "Deleting…"@
        } else {
            "Delete profile"@
        }),
{
    if deleting {
        "Deleting…"
    } else {
        "Delete profile"
    }
}

/// The icon of a profile's save button.
pub fn agent_profile_save_icon(saving: bool) -> (icon: AppIcon)
    ensures
        icon == (if saving {
            AppIcon::Busy
        } else {
            AppIcon::Save
        }),
{
    busy_or(saving, AppIcon::Save)
}

/// The icon of a profile's delete button.
pub fn agent_profile_delete_icon(deleting: bool) -> (icon: AppIcon)
    ensures
        icon == (if deleting {
            AppIcon::Busy
        } else {
            AppIcon::Delete
        }),
{
    busy_or(deleting, AppIcon::Delete)
}

/// How a POSIX shell reads a word outside quotes: `'` opens a quoted part,
/// `\` takes the next character as it is.
pub open spec fn shell_unquote(s: Seq<char>) -> Seq<char>
    decreases s.len(), 1int,
{
    if s.len() == 0 {
        seq![]
    } else if s[0] == '\'' {
        shell_unquote_quoted(s.drop_first())
    } else if s[0] == '\\' && s.len() >= 2 {
        seq![s[1]] + shell_unquote(s.skip(2))
    } else {
        seq![s[0]] + shell_unquote(s.drop_first())
    }
}

/// How a POSIX shell reads a word inside single quotes: everything up to the
/// closing `'` as it is.
pub open spec fn shell_unquote_quoted(s: Seq<char>) -> Seq<char>
    decreases s.len(), 0int,
{
    if s.len() == 0 {
        seq![]
    } else if s[0] == '\'' {
        shell_unquote(s.drop_first())
    } else {
        seq![s[0]] + shell_unquote_quoted(s.drop_first())
    }
}

proof fn lemma_unquote_plain_word(a: Seq<char>)
    requires
        forall|i: int| 0 <= i < a.len() ==> can_stay_unquoted(#[trigger] a[i]),
    ensures
        shell_unquote(a) == a,
    decreases a.len(),
{
    if a.len() > 0 {
        assert(can_stay_unquoted(a[0]));
        assert forall|i: int| 0 <= i < a.drop_first().len() implies can_stay_unquoted(
            #[trigger] a.drop_first()[i],
        ) by {
            assert(a.drop_first()[i] == a[i + 1]);
        }
        lemma_unquote_plain_word(a.drop_first());
        assert(seq![a[0]] + a.drop_first() =~= a);
    }
}

proof fn lemma_unquote_escaped(a: Seq<char>, rest: Seq<char>)
    ensures
        shell_unquote_quoted(escape_single_quotes(a) + rest) == a + shell_unquote_quoted(rest),
    decreases a.len(),
{
    if a.len() == 0 {
        assert(escape_single_quotes(a) + rest =~= rest);
        assert(a + shell_unquote_quoted(rest) =~= shell_unquote_quoted(rest));
    } else {
        lemma_unquote_escaped(a.drop_first(), rest);
        let tail = escape_single_quotes(a.drop_first()) + rest;
        if a[0] == '\'' {
            let t = seq!['\'', '\\', '\'', '\''] + tail;
            assert(escape_single_quotes(a) + rest =~= t);
            assert(t.drop_first() =~= seq!['\\', '\'', '\''] + tail);
            assert(t.drop_first().skip(2) =~= seq!['\''] + tail);
            assert((seq!['\''] + tail).drop_first() =~= tail);
            let t1 = t.drop_first();
            let t2 = seq!['\''] + tail;
            assert(t[0] == '\'');
            assert(shell_unquote_quoted(t) == shell_unquote(t1));
            assert(t1[0] == '\\' && t1.len() >= 2 && t1[1] == '\'');
            assert(shell_unquote(t1) == seq![t1[1]] + shell_unquote(t1.skip(2)));
            assert(t2[0] == '\'');
            assert(shell_unquote(t2) == shell_unquote_quoted(t2.drop_first()));
            assert(shell_unquote_quoted(t) == seq!['\''] + shell_unquote_quoted(tail));
        } else {
            let t = seq![a[0]] + tail;
            assert(escape_single_quotes(a) + rest =~= t);
            assert(t.drop_first() =~= tail);
        }
        assert(seq![a[0]] + (a.drop_first() + shell_unquote_quoted(rest)) =~= a
            + shell_unquote_quoted(rest));
    }
}

/// Every shown argument reads back as the argument: for every argument `a`,
/// a POSIX shell reads `preview_argv_arg(a)` as `a`.
pub proof fn lemma_preview_arg_reads_back(a: Seq<char>)
    ensures
        shell_unquote(preview_arg(a)) == a,
{
    if a.len() == 0 {
        let p = seq!['\'', '\''];
        let q = seq!['\''];
        assert(p.drop_first() =~= q);
        assert(q.drop_first() =~= Seq::<char>::empty());
        assert(shell_unquote(p) == shell_unquote_quoted(q));
        assert(shell_unquote_quoted(q) == shell_unquote(Seq::<char>::empty()));
        assert(shell_unquote(p) =~= a);
    } else if forall|i: int| 0 <= i < a.len() ==> can_stay_unquoted(#[trigger] a[i]) {
        lemma_unquote_plain_word(a);
    } else {
        let p = seq!['\''] + escape_single_quotes(a) + seq!['\''];
        assert(p.drop_first() =~= escape_single_quotes(a) + seq!['\'']);
        lemma_unquote_escaped(a, seq!['\'']);
        let q = seq!['\''];
        assert(q.drop_first() =~= Seq::<char>::empty());
        assert(shell_unquote_quoted(q) == shell_unquote(Seq::<char>::empty()));
        assert(shell_unquote_quoted(q) =~= Seq::<char>::empty());
        assert(a + Seq::<char>::empty() =~= a);
    }
}

/// An argument without white space, quotes or backslashes is shown exactly
/// as it is: for every non-empty such argument (placeholders like
/// `${ACP_PORT}` among them), the preview is the argument itself.
pub proof fn lemma_plain_arg_shown_as_is(a: Seq<char>)
    requires
        a.len() > 0,
        forall|i: int|
            0 <= i < a.len() ==> !is_white_space(#[trigger] a[i]) && a[i] != '\'' && a[i] != '"'
                && a[i] != '\\',
    ensures
        preview_arg(a) == a,
{
}

} // verus!
