//! The prompt itself: two lines that tell where one is and how the last
//! command went.
//!
//! ```text
//! 💥 [1]
//! ⎡ host ~/src/project 1.25s main ±2 ▲1 ❖3⎤
//! ⎣ ⭑
//! ```
//!
//! The first line appears only after a command that failed. Every coloured
//! piece goes between zsh's marks, so that zsh measures the prompt as it shows.

use vstd::prelude::*;
use vstd::string::*;
use crate::ansi::{Color, Style};
use crate::decimal::{decimal, push_decimal};
use crate::duration::{duration_text, format_duration, Duration};
use crate::git::{status_view, RefName, RefNameView, Status, StatusView, UpstreamStatus};
use crate::path::{short_path, shorten};
use crate::text::{str_of, text_of};
use crate::zsh::{wrapped, IntoZsh};

verus! {

/// `text` in `style`, as zsh takes it: between the codes of the style, each
/// code between zsh's marks.
pub open spec fn styled(style: Style, text: Seq<char>) -> Seq<char> {
    wrapped(style.prefix_codes(), text, style.suffix_codes())
}

/// `color`, not bold.
pub open spec fn plain(color: Color) -> Style {
    Style { foreground: color, is_bold: false }
}

/// `color`, in bold.
pub open spec fn bold(color: Color) -> Style {
    Style { foreground: color, is_bold: true }
}

/// A space and `glyph`, followed by `count`, in `style`; nothing for a count of zero.
pub open spec fn count_text(style: Style, glyph: char, count: u32) -> Seq<char> {
    if count > 0 {
        styled(style, seq![' ', glyph] + decimal(count as nat))
    } else {
        Seq::empty()
    }
}

/// The name of what is checked out: a branch in bold blue, a commit in bold yellow.
pub open spec fn ref_name_text(name: RefNameView) -> Seq<char> {
    match name {
        RefNameView::Branch(branch) => styled(bold(Color::Blue), branch),
        RefNameView::Hash(id) => styled(bold(Color::Yellow), id),
    }
}

/// Whether there are changes to commit: a green `✓` where there are none, else a
/// red `±` with the number of files.
pub open spec fn dirty_text(uncommitted_files: u32) -> Seq<char> {
    if uncommitted_files == 0 {
        styled(bold(Color::Green), seq![' ', '\u{2713}'])
    } else {
        styled(bold(Color::Red), seq![' ', '\u{b1}'] + decimal(uncommitted_files as nat))
    }
}

/// How far the branch is from its upstream: `▲` with the commits it is ahead,
/// `▼` with those it is behind, each only where there are any.
pub open spec fn upstream_text(upstream: Option<UpstreamStatus>) -> Seq<char> {
    match upstream {
        Some(u) => count_text(plain(Color::Red), '\u{25b2}', u.commits_ahead) + count_text(
            plain(Color::Red),
            '\u{25bc}',
            u.commits_behind,
        ),
        None => Seq::empty(),
    }
}

/// The part of the prompt that tells the state of the repository: the name,
/// the changes to commit, the distance to the upstream, and `❖` with the number
/// of untracked files where there are any.
pub open spec fn git_status_text(status: StatusView) -> Seq<char> {
    ref_name_text(status.ref_name) + dirty_text(status.files.uncommitted_files) + upstream_text(
        status.upstream,
    ) + count_text(plain(Color::Yellow), '\u{2756}', status.files.untracked_files)
}

/// The time that the last command took, in bold yellow, where it is known.
/// `duration` is the time as it reads, such as `1.25s`.
pub open spec fn duration_part(duration: Option<Seq<char>>) -> Option<Seq<char>> {
    match duration {
        Some(text) => Some(styled(bold(Color::Yellow), text)),
        None => None,
    }
}

/// A part that may be missing: a space and the part where it is there, nothing
/// where it is not.
pub open spec fn optional_text(part: Option<Seq<char>>) -> Seq<char> {
    match part {
        Some(text) => seq![' '] + text,
        None => Seq::empty(),
    }
}

/// Two parts that may be missing, one after the other.
pub open spec fn opts_text(first: Option<Seq<char>>, second: Option<Seq<char>>) -> Seq<char> {
    optional_text(first) + optional_text(second)
}

/// What tells that the last command failed: `💥` and its exit code between
/// square brackets in bold red. Nothing for the exit code `0`.
pub open spec fn exit_code_text(last_exit_code: Seq<char>) -> Seq<char> {
    if last_exit_code == seq!['0'] {
        Seq::empty()
    } else {
        seq!['\u{1f4a5}', ' '] + styled(bold(Color::Red), seq!['['] + last_exit_code + seq![']'])
    }
}

/// The first line of the prompt: between `⎡` and `⎤`, the host in bold green,
/// the directory in green, and the two parts that may be missing: the time of
/// the last command in bold yellow, then the state of the repository.
/// `duration` is the time as it reads; `git_status` is written out already.
pub open spec fn main_line_text(
    hostname: Seq<char>,
    cwd_short: Seq<char>,
    duration: Option<Seq<char>>,
    git_status: Option<Seq<char>>,
) -> Seq<char> {
    styled(plain(Color::White), seq!['\u{23a1}']) + seq![' '] + styled(bold(Color::Green), hostname)
        + seq![' '] + styled(plain(Color::Green), cwd_short) + opts_text(
        duration_part(duration),
        git_status,
    ) + styled(plain(Color::White), seq!['\u{23a4}'])
}

/// The character to type after: a bold red `#` for root, a red `⭑` for anyone else.
pub open spec fn prompt_char_text(is_root: bool) -> Seq<char> {
    if is_root {
        styled(bold(Color::Red), seq!['#'])
    } else {
        styled(plain(Color::Red), seq!['\u{2b51}'])
    }
}

/// The second line of the prompt: `⎣`, the character to type after, and two
/// spaces that do not break.
pub open spec fn input_line_text(is_root: bool) -> Seq<char> {
    styled(plain(Color::White), seq!['\u{23a3}']) + seq![' '] + prompt_char_text(is_root)
        + seq!['\u{a0}', '\u{a0}']
}

/// The whole prompt: what tells of a failed command, then the two lines, each
/// on a line of its own.
pub open spec fn prompt_text(
    hostname: Seq<char>,
    cwd_short: Seq<char>,
    last_exit_code: Seq<char>,
    duration: Option<Seq<char>>,
    git_status: Option<Seq<char>>,
    is_root: bool,
) -> Seq<char> {
    exit_code_text(last_exit_code) + seq!['\n'] + main_line_text(
        hostname,
        cwd_short,
        duration,
        git_status,
    ) + seq!['\n'] + input_line_text(is_root)
}

/// Appends `text` in `style`, between zsh's marks.
fn push_styled(out: &mut String, style: Style, text: &str)
    ensures
        final(out)@ == old(out)@ + styled(style, text@),
{
    let written = style.paint(text).into_zsh().to_string();
    out.append(written.as_str());
}

/// Appends a count with its glyph in `style`, or nothing for a count of zero.
/// `lead` is a space and the glyph.
fn push_count(out: &mut String, style: Style, lead: &str, count: u32)
    requires
        lead@.len() == 2,
        lead@[0] == ' ',
    ensures
        final(out)@ == old(out)@ + count_text(style, lead@[1], count),
{
    if count > 0 {
        let mut text = String::new();
        text.append(lead);
        push_decimal(&mut text, count as u64);
        assert(text@ =~= seq![' ', lead@[1]] + decimal(count as nat));
        push_styled(out, style, text.as_str());
    } else {
        assert(out@ =~= old(out)@ + count_text(style, lead@[1], count));
    }
}

/// The state of a repository, as the prompt shows it.
#[derive(Debug, Clone, PartialEq, Eq)]
pub struct GitStatus(pub Status);

impl GitStatus {
    /// What the state is written out as.
    pub open spec fn rendered(self) -> Seq<char> {
        git_status_text(self.0@)
    }

    /// Writes the state out: the name of what is checked out, `✓` or `±` with
    /// the files to commit, `▲` and `▼` with the commits ahead and behind, `❖`
    /// with the untracked files.
    pub fn to_string(&self) -> (out: String)
        ensures
            out@ == self.rendered(),
    {
        proof {
            reveal_strlit(" \u{2713}");
            reveal_strlit(" \u{b1}");
            reveal_strlit(" \u{25b2}");
            reveal_strlit(" \u{25bc}");
            reveal_strlit(" \u{2756}");
        }
        let status = &self.0;
        let mut out = String::new();
        match &status.ref_name {
            RefName::Branch(name) => push_styled(&mut out, Color::Blue.bold(), name.as_str()),
            RefName::Hash(hash) => push_styled(&mut out, Color::Yellow.bold(), hash.as_str()),
        }
        assert(out@ =~= ref_name_text(status.ref_name@));
        if status.files.uncommitted_files == 0 {
            push_styled(&mut out, Color::Green.bold(), " \u{2713}");
        } else {
            let mut text = String::new();
            text.append(" \u{b1}");
            push_decimal(&mut text, status.files.uncommitted_files as u64);
            assert(text@ =~= seq![' ', '\u{b1}'] + decimal(status.files.uncommitted_files as nat));
            push_styled(&mut out, Color::Red.bold(), text.as_str());
        }
        let ghost before_upstream = out@;
        match &status.upstream {
            Some(upstream) => {
                push_count(&mut out, Color::Red.normal(), " \u{25b2}", upstream.commits_ahead);
                push_count(&mut out, Color::Red.normal(), " \u{25bc}", upstream.commits_behind);
            },
            None => {},
        }
        assert(out@ =~= before_upstream + upstream_text(status.upstream));
        push_count(&mut out, Color::Yellow.normal(), " \u{2756}", status.files.untracked_files);
        assert(out@ =~= git_status_text(status@));
        out
    }
}

/// `text` in `style`, written out for zsh.
pub fn paint(style: Style, text: &str) -> (out: String)
    ensures
        out@ == styled(style, text@),
{
    style.paint(text).into_zsh().to_string()
}

/// Puts a space before each part that is there, and leaves out those that are not.
pub fn format_opts(first: &Option<String>, second: &Option<String>) -> (out: String)
    ensures
        out@ == opts_text(text_of(*first), text_of(*second)),
{
    proof {
        reveal_strlit(" ");
    }
    let mut out = String::new();
    match first {
        Some(text) => {
            out.append(" ");
            out.append(text.as_str());
        },
        None => {},
    }
    assert(out@ =~= optional_text(text_of(*first)));
    match second {
        Some(text) => {
            out.append(" ");
            out.append(text.as_str());
        },
        None => {},
    }
    assert(out@ =~= opts_text(text_of(*first), text_of(*second)));
    out
}

/// Whether `last_exit_code` is `0`, the exit code of a command that succeeded.
pub fn is_success(last_exit_code: &str) -> (success: bool)
    ensures
        success == (last_exit_code@ == seq!['0']),
{
    let success = last_exit_code.unicode_len() == 1 && last_exit_code.get_char(0) == '0';
    assert(success == (last_exit_code@ =~= seq!['0']));
    success
}

/// What tells that the last command failed, or nothing after a command that
/// succeeded.
pub fn exit_code_segment(last_exit_code: &str) -> (out: String)
    ensures
        out@ == exit_code_text(last_exit_code@),
{
    proof {
        reveal_strlit("\u{1f4a5} ");
        reveal_strlit("[");
        reveal_strlit("]");
    }
    let mut out = String::new();
    if !is_success(last_exit_code) {
        let mut code = String::new();
        code.append("[");
        code.append(last_exit_code);
        code.append("]");
        assert(code@ =~= seq!['['] + last_exit_code@ + seq![']']);
        out.append("\u{1f4a5} ");
        assert(out@ =~= seq!['\u{1f4a5}', ' ']);
        push_styled(&mut out, Color::Red.bold(), code.as_str());
    }
    out
}

/// The first line of the prompt.
pub fn main_line(
    hostname: &str,
    cwd_short: &str,
    duration: &Option<String>,
    git_status: &Option<String>,
) -> (out: String)
    ensures
        out@ == main_line_text(hostname@, cwd_short@, text_of(*duration), text_of(*git_status)),
{
    proof {
        reveal_strlit(" ");
        reveal_strlit("\u{23a1}");
        reveal_strlit("\u{23a4}");
    }
    let mut out = String::new();
    assert("\u{23a1}"@ =~= seq!['\u{23a1}']);
    assert("\u{23a4}"@ =~= seq!['\u{23a4}']);
    assert(" "@ =~= seq![' ']);
    push_styled(&mut out, Color::White.normal(), "\u{23a1}");
    assert(out@ =~= styled(plain(Color::White), seq!['\u{23a1}']));
    out.append(" ");
    push_styled(&mut out, Color::Green.bold(), hostname);
    out.append(" ");
    push_styled(&mut out, Color::Green.normal(), cwd_short);
    let duration_part: Option<String> = match duration {
        Some(text) => Some(paint(Color::Yellow.bold(), text.as_str())),
        None => None,
    };
    let opts = format_opts(&duration_part, git_status);
    out.append(opts.as_str());
    push_styled(&mut out, Color::White.normal(), "\u{23a4}");
    out
}

/// The second line of the prompt.
pub fn input_line(is_root: bool) -> (out: String)
    ensures
        out@ == input_line_text(is_root),
{
    proof {
        reveal_strlit(" ");
        reveal_strlit("\u{23a3}");
        reveal_strlit("#");
        reveal_strlit("\u{2b51}");
        reveal_strlit("\u{a0}\u{a0}");
    }
    let mut out = String::new();
    assert("\u{23a3}"@ =~= seq!['\u{23a3}']);
    assert("#"@ =~= seq!['#']);
    assert("\u{2b51}"@ =~= seq!['\u{2b51}']);
    assert(" "@ =~= seq![' ']);
    assert("\u{a0}\u{a0}"@ =~= seq!['\u{a0}', '\u{a0}']);
    push_styled(&mut out, Color::White.normal(), "\u{23a3}");
    assert(out@ =~= styled(plain(Color::White), seq!['\u{23a3}']));
    out.append(" ");
    if is_root {
        push_styled(&mut out, Color::Red.bold(), "#");
    } else {
        push_styled(&mut out, Color::Red.normal(), "\u{2b51}");
    }
    out.append("\u{a0}\u{a0}");
    out
}

/// Puts the prompt together from its parts.
///
/// `duration` is the time of the last command as it reads, such as `1.25s`;
/// `git_status` is the state of the repository, written out already. Where one
/// is missing, nothing takes its place, not even a space.
pub fn assemble(
    hostname: &str,
    cwd_short: &str,
    last_exit_code: &str,
    duration: &Option<String>,
    git_status: &Option<String>,
    is_root: bool,
) -> (out: String)
    ensures
        out@ == prompt_text(
            hostname@,
            cwd_short@,
            last_exit_code@,
            text_of(*duration),
            text_of(*git_status),
            is_root,
        ),
{
    proof {
        reveal_strlit("\n");
    }
    assert("\n"@ =~= seq!['\n']);
    let mut out = exit_code_segment(last_exit_code);
    out.append("\n");
    let first = main_line(hostname, cwd_short, duration, git_status);
    out.append(first.as_str());
    out.append("\n");
    let second = input_line(is_root);
    out.append(second.as_str());
    out
}

/// The time that the last command took, as it reads, where it is known.
pub open spec fn command_duration_text(millis: Option<u64>) -> Option<Seq<char>> {
    match millis {
        Some(ms) => Some(duration_text(ms as nat * 1_000_000)),
        None => None,
    }
}

/// The state of the repository, written out, where there is one.
pub open spec fn git_status_part(status: Option<StatusView>) -> Option<Seq<char>> {
    match status {
        Some(s) => Some(git_status_text(s)),
        None => None,
    }
}

/// The prompt for a shell on `hostname` in the directory `cwd`, after a command
/// that ended with `last_exit_code`.
///
/// The directory is shown in its short form, with `home_dir` as `~`.
/// `command_duration_ms` is the time the command took, in milliseconds, where it
/// was measured; `git_status` the state of the repository, where the directory
/// lies in one. The user with the id 0 is root.
pub fn prompt(
    last_exit_code: &str,
    hostname: &str,
    cwd: &str,
    home_dir: Option<&str>,
    command_duration_ms: Option<u64>,
    git_status: Option<Status>,
    user_id: u32,
) -> (out: String)
    ensures
        out@ == prompt_text(
            hostname@,
            short_path(cwd@, str_of(home_dir)),
            last_exit_code@,
            command_duration_text(command_duration_ms),
            git_status_part(status_view(git_status)),
            user_id == 0,
        ),
{
    let cwd_short = shorten(cwd, home_dir);
    let duration: Option<String> = match command_duration_ms {
        Some(ms) => Some(format_duration(Duration::from_millis(ms))),
        None => None,
    };
    let git: Option<String> = match git_status {
        Some(status) => Some(GitStatus(status).to_string()),
        None => None,
    };
    assemble(hostname, cwd_short.as_str(), last_exit_code, &duration, &git, user_id == 0)
}

/// Each part that is there takes its own length and one space; a part that is
/// missing takes nothing. With both missing, nothing stands between the
/// directory and the closing bracket.
pub proof fn lemma_missing_parts_leave_no_space(
    hostname: Seq<char>,
    cwd_short: Seq<char>,
    first: Option<Seq<char>>,
    second: Option<Seq<char>>,
)
    ensures
        optional_text(None) == Seq::<char>::empty(),
        first is Some ==> optional_text(first) == seq![' '] + first->0,
        opts_text(first, second).len() == (if first is Some {
            first->0.len() + 1
        } else {
            0
        }) + (if second is Some {
            second->0.len() + 1
        } else {
            0
        }),
        opts_text(None, None) == Seq::<char>::empty(),
        main_line_text(hostname, cwd_short, None, None) == styled(
            plain(Color::White),
            seq!['\u{23a1}'],
        ) + seq![' '] + styled(bold(Color::Green), hostname) + seq![' '] + styled(
            plain(Color::Green),
            cwd_short,
        ) + styled(plain(Color::White), seq!['\u{23a4}']),
{
    let lead = styled(plain(Color::White), seq!['\u{23a1}']) + seq![' '] + styled(
        bold(Color::Green),
        hostname,
    ) + seq![' '] + styled(plain(Color::Green), cwd_short);
    assert(opts_text(None, None) =~= Seq::<char>::empty());
    assert(lead + Seq::<char>::empty() =~= lead);
}

/// After a command that failed, the prompt begins with what tells so: `💥`, a
/// space and the exit code in brackets, and only then, on a new line, the first line.
pub proof fn lemma_failure_comes_first(
    hostname: Seq<char>,
    cwd_short: Seq<char>,
    last_exit_code: Seq<char>,
    duration: Option<Seq<char>>,
    git_status: Option<Seq<char>>,
    is_root: bool,
)
    requires
        last_exit_code != seq!['0'],
    ensures
        exit_code_text(last_exit_code) == seq!['\u{1f4a5}', ' '] + styled(
            bold(Color::Red),
            seq!['['] + last_exit_code + seq![']'],
        ),
        exit_code_text(last_exit_code).len() > 0,
        (exit_code_text(last_exit_code) + seq!['\n'] + main_line_text(
            hostname,
            cwd_short,
            duration,
            git_status,
        )).is_prefix_of(
            prompt_text(hostname, cwd_short, last_exit_code, duration, git_status, is_root),
        ),
{
}

/// After a command that succeeded, the prompt begins with the new line that
/// leads to its first line.
pub proof fn lemma_success_shows_nothing(
    hostname: Seq<char>,
    cwd_short: Seq<char>,
    duration: Option<Seq<char>>,
    git_status: Option<Seq<char>>,
    is_root: bool,
)
    ensures
        prompt_text(hostname, cwd_short, seq!['0'], duration, git_status, is_root) == seq!['\n']
            + main_line_text(hostname, cwd_short, duration, git_status) + seq!['\n']
            + input_line_text(is_root),
{
    assert(exit_code_text(seq!['0']) + seq!['\n'] =~= seq!['\n']);
}

/// Root gets `#` to type after, in bold red, whatever else the prompt shows, and
/// nobody else does.
pub proof fn lemma_root_gets_hash(
    hostname: Seq<char>,
    cwd_short: Seq<char>,
    last_exit_code: Seq<char>,
    duration: Option<Seq<char>>,
    git_status: Option<Seq<char>>,
    is_root: bool,
)
    ensures
        is_root <==> prompt_char_text(is_root) == styled(bold(Color::Red), seq!['#']),
        (styled(plain(Color::White), seq!['\u{23a3}']) + seq![' '] + prompt_char_text(is_root)
            + seq!['\u{a0}', '\u{a0}']).is_suffix_of(
            prompt_text(hostname, cwd_short, last_exit_code, duration, git_status, is_root),
        ),
{
    let hash = styled(bold(Color::Red), seq!['#']);
    let star = styled(plain(Color::Red), seq!['\u{2b51}']);
    // The two characters differ in their codes, the bold one being longer.
    assert(hash.len() == 2 + 7 + 2 + 1 + 2 + 4 + 2);
    assert(star.len() == 2 + 5 + 2 + 1 + 2 + 4 + 2);
    let whole = prompt_text(hostname, cwd_short, last_exit_code, duration, git_status, is_root);
    let tail = input_line_text(is_root);
    let head = exit_code_text(last_exit_code) + seq!['\n'] + main_line_text(
        hostname,
        cwd_short,
        duration,
        git_status,
    ) + seq!['\n'];
    assert(whole.subrange(whole.len() - tail.len(), whole.len() as int) =~= tail);
}

} // verus!
