//! What a prompt shows on screen.
//!
//! The codes of a prompt colour its text and take no room. This module says
//! what remains when they are gone, and proves that this is what zsh counts: every
//! code that the prompt holds stands between zsh's marks.

use vstd::prelude::*;
use crate::ansi::{Color, Style};
use crate::decimal::{decimal, lemma_decimal_is_numeral};
use crate::duration::{duration_text, is_duration_char, lemma_duration_text_chars};
use crate::git::{RefNameView, StatusView, UpstreamStatus};
use crate::prompt::{
    bold, command_duration_text, count_text, dirty_text, duration_part, exit_code_text,
    git_status_part, git_status_text, input_line_text, main_line_text, optional_text, opts_text,
    plain, prompt_char_text, prompt_text, ref_name_text, styled, upstream_text,
};
use crate::zsh::{
    has_mark, lemma_codes_hold_no_mark, lemma_visible_of_plain_then,
    lemma_visible_of_wrapped_then, visible,
};

verus! {

/// A count with its glyph as it shows: a space, the glyph and the number, or
/// nothing for a count of zero.
pub open spec fn count_seen(glyph: char, count: u32) -> Seq<char> {
    if count > 0 {
        seq![' ', glyph] + decimal(count as nat)
    } else {
        Seq::empty()
    }
}

/// The name of what is checked out, as it shows.
pub open spec fn ref_name_seen(name: RefNameView) -> Seq<char> {
    match name {
        RefNameView::Branch(branch) => branch,
        RefNameView::Hash(id) => id,
    }
}

/// The changes to commit, as they show: ` ✓`, or ` ±` and their number.
pub open spec fn dirty_seen(uncommitted_files: u32) -> Seq<char> {
    if uncommitted_files == 0 {
        seq![' ', '\u{2713}']
    } else {
        seq![' ', '\u{b1}'] + decimal(uncommitted_files as nat)
    }
}

/// The distance to the upstream, as it shows.
pub open spec fn upstream_seen(upstream: Option<UpstreamStatus>) -> Seq<char> {
    match upstream {
        Some(u) => count_seen('\u{25b2}', u.commits_ahead) + count_seen(
            '\u{25bc}',
            u.commits_behind,
        ),
        None => Seq::empty(),
    }
}

/// The state of the repository, as it shows: `main ±2 ▲1 ❖3`.
pub open spec fn git_status_seen(status: StatusView) -> Seq<char> {
    ref_name_seen(status.ref_name) + dirty_seen(status.files.uncommitted_files) + upstream_seen(
        status.upstream,
    ) + count_seen('\u{2756}', status.files.untracked_files)
}

/// What tells of a failed command, as it shows: `💥 [1]`.
pub open spec fn exit_code_seen(last_exit_code: Seq<char>) -> Seq<char> {
    if last_exit_code == seq!['0'] {
        Seq::empty()
    } else {
        seq!['\u{1f4a5}', ' '] + (seq!['['] + last_exit_code + seq![']'])
    }
}

/// The state of the repository, as it shows, where there is one.
pub open spec fn git_status_seen_part(status: Option<StatusView>) -> Option<Seq<char>> {
    match status {
        Some(s) => Some(git_status_seen(s)),
        None => None,
    }
}

/// The first line of the prompt, as it shows: `⎡ host ~/src 1.25s main ✓⎤`.
pub open spec fn main_line_seen(
    hostname: Seq<char>,
    cwd_short: Seq<char>,
    duration: Option<Seq<char>>,
    status: Option<StatusView>,
) -> Seq<char> {
    seq!['\u{23a1}'] + seq![' '] + hostname + seq![' '] + cwd_short + opts_text(
        duration,
        git_status_seen_part(status),
    ) + seq!['\u{23a4}']
}

/// The character to type after, as it shows.
pub open spec fn prompt_char_seen(is_root: bool) -> Seq<char> {
    if is_root {
        seq!['#']
    } else {
        seq!['\u{2b51}']
    }
}

/// The second line of the prompt, as it shows.
pub open spec fn input_line_seen(is_root: bool) -> Seq<char> {
    seq!['\u{23a3}'] + seq![' '] + prompt_char_seen(is_root) + seq!['\u{a0}', '\u{a0}']
}

/// The whole prompt, as it shows.
pub open spec fn prompt_seen(
    hostname: Seq<char>,
    cwd_short: Seq<char>,
    last_exit_code: Seq<char>,
    duration: Option<Seq<char>>,
    status: Option<StatusView>,
    is_root: bool,
) -> Seq<char> {
    exit_code_seen(last_exit_code) + seq!['\n'] + main_line_seen(
        hostname,
        cwd_short,
        duration,
        status,
    ) + seq!['\n'] + input_line_seen(is_root)
}

/// Whether zsh counts `text` as `seen` wherever it stands: whatever follows
/// `text`, zsh counts `seen` and then what it counts of the rest.
pub open spec fn counted_as(text: Seq<char>, seen: Seq<char>) -> bool {
    forall|rest: Seq<char>| #[trigger] visible(text + rest) == seen + visible(rest)
}

/// What is counted as `seen` wherever it stands is counted so on its own.
pub proof fn lemma_counted_alone(text: Seq<char>, seen: Seq<char>)
    requires
        counted_as(text, seen),
    ensures
        visible(text) == seen,
{
    let rest = Seq::<char>::empty();
    assert(text + rest =~= text);
    assert(visible(text + rest) == seen + visible(rest));
    assert(seen + visible(rest) =~= seen);
}

/// Two texts in a row are counted as what each of them is counted as, in a row.
pub proof fn lemma_counted_in_a_row(
    first: Seq<char>,
    first_seen: Seq<char>,
    second: Seq<char>,
    second_seen: Seq<char>,
)
    requires
        counted_as(first, first_seen),
        counted_as(second, second_seen),
    ensures
        counted_as(first + second, first_seen + second_seen),
{
    assert forall|rest: Seq<char>| #[trigger]
        visible((first + second) + rest) == (first_seen + second_seen) + visible(rest) by {
        assert((first + second) + rest =~= first + (second + rest));
        assert(visible(first + (second + rest)) == first_seen + visible(second + rest));
        assert(visible(second + rest) == second_seen + visible(rest));
        assert(first_seen + (second_seen + visible(rest)) =~= (first_seen + second_seen)
            + visible(rest));
    }
}

/// Nothing is counted as nothing.
pub proof fn lemma_nothing_counted()
    ensures
        counted_as(Seq::empty(), Seq::empty()),
{
    let nothing = Seq::<char>::empty();
    assert forall|rest: Seq<char>| #[trigger]
        visible(nothing + rest) == nothing + visible(rest) by {
        assert(nothing + rest =~= rest);
        assert(nothing + visible(rest) =~= visible(rest));
    }
}

/// Text without any `%` is counted as it stands.
pub proof fn lemma_plain_counted(text: Seq<char>)
    requires
        forall|k: int| 0 <= k < text.len() ==> #[trigger] text[k] != '%',
    ensures
        counted_as(text, text),
{
    assert forall|rest: Seq<char>| #[trigger] visible(text + rest) == text + visible(rest) by {
        lemma_visible_of_plain_then(text, rest);
    }
}

/// Styled text is counted as its text, as long as the text holds no `%{`.
pub proof fn lemma_styled_counted(style: Style, text: Seq<char>)
    requires
        !has_mark(text, '{'),
    ensures
        counted_as(styled(style, text), text),
{
    lemma_codes_hold_no_mark(style);
    assert forall|rest: Seq<char>| #[trigger]
        visible(styled(style, text) + rest) == text + visible(rest) by {
        lemma_visible_of_wrapped_then(style.prefix_codes(), text, style.suffix_codes(), rest);
    }
}

/// A glyph and a number hold no `%{`.
proof fn lemma_count_holds_no_mark(glyph: char, count: nat)
    ensures
        !has_mark(seq![' ', glyph] + decimal(count), '{'),
{
    let text = seq![' ', glyph] + decimal(count);
    lemma_decimal_is_numeral(count);
    assert forall|k: int| 0 <= k < text.len() - 1 implies !(#[trigger] text[k] == '%' && text[k
        + 1] == '{') by {
        if k >= 1 {
            assert(text[k + 1] == decimal(count)[k - 1]);
        }
    }
}

/// A count is counted as it shows.
pub proof fn lemma_count_counted(style: Style, glyph: char, count: u32)
    ensures
        counted_as(count_text(style, glyph, count), count_seen(glyph, count)),
{
    if count > 0 {
        lemma_count_holds_no_mark(glyph, count as nat);
        lemma_styled_counted(style, seq![' ', glyph] + decimal(count as nat));
    } else {
        lemma_nothing_counted();
    }
}

/// The changes to commit are counted as they show.
pub proof fn lemma_dirty_counted(uncommitted_files: u32)
    ensures
        counted_as(dirty_text(uncommitted_files), dirty_seen(uncommitted_files)),
{
    if uncommitted_files == 0 {
        let text = seq![' ', '\u{2713}'];
        assert(!has_mark(text, '{'));
        lemma_styled_counted(bold(Color::Green), text);
    } else {
        lemma_count_holds_no_mark('\u{b1}', uncommitted_files as nat);
        lemma_styled_counted(
            bold(Color::Red),
            seq![' ', '\u{b1}'] + decimal(uncommitted_files as nat),
        );
    }
}

/// The distance to the upstream is counted as it shows.
pub proof fn lemma_upstream_counted(upstream: Option<UpstreamStatus>)
    ensures
        counted_as(upstream_text(upstream), upstream_seen(upstream)),
{
    match upstream {
        Some(u) => {
            lemma_count_counted(plain(Color::Red), '\u{25b2}', u.commits_ahead);
            lemma_count_counted(plain(Color::Red), '\u{25bc}', u.commits_behind);
            lemma_counted_in_a_row(
                count_text(plain(Color::Red), '\u{25b2}', u.commits_ahead),
                count_seen('\u{25b2}', u.commits_ahead),
                count_text(plain(Color::Red), '\u{25bc}', u.commits_behind),
                count_seen('\u{25bc}', u.commits_behind),
            );
        },
        None => {
            lemma_nothing_counted();
        },
    }
}

/// The name of what is checked out is counted as it shows, as long as it
/// holds no `%{`.
pub proof fn lemma_ref_name_counted(name: RefNameView)
    requires
        !has_mark(ref_name_seen(name), '{'),
    ensures
        counted_as(ref_name_text(name), ref_name_seen(name)),
{
    match name {
        RefNameView::Branch(branch) => {
            lemma_styled_counted(bold(Color::Blue), branch);
        },
        RefNameView::Hash(id) => {
            lemma_styled_counted(bold(Color::Yellow), id);
        },
    }
}

/// The state of a repository is counted as it shows, as long as the name of
/// what is checked out holds no `%{`.
pub proof fn lemma_git_status_counted(status: StatusView)
    requires
        !has_mark(ref_name_seen(status.ref_name), '{'),
    ensures
        counted_as(git_status_text(status), git_status_seen(status)),
{
    let name = ref_name_text(status.ref_name);
    let dirty = dirty_text(status.files.uncommitted_files);
    let upstream = upstream_text(status.upstream);
    let untracked = count_text(plain(Color::Yellow), '\u{2756}', status.files.untracked_files);
    let name_seen = ref_name_seen(status.ref_name);
    let dirty_seen = dirty_seen(status.files.uncommitted_files);
    let upstream_seen = upstream_seen(status.upstream);
    let untracked_seen = count_seen('\u{2756}', status.files.untracked_files);
    lemma_ref_name_counted(status.ref_name);
    lemma_dirty_counted(status.files.uncommitted_files);
    lemma_upstream_counted(status.upstream);
    lemma_count_counted(plain(Color::Yellow), '\u{2756}', status.files.untracked_files);
    lemma_counted_in_a_row(name, name_seen, dirty, dirty_seen);
    lemma_counted_in_a_row(name + dirty, name_seen + dirty_seen, upstream, upstream_seen);
    lemma_counted_in_a_row(
        name + dirty + upstream,
        name_seen + dirty_seen + upstream_seen,
        untracked,
        untracked_seen,
    );
}

/// A span of time that is written out holds no `%{`.
pub proof fn lemma_duration_holds_no_mark(nanos: nat)
    ensures
        !has_mark(duration_text(nanos), '{'),
{
    let text = duration_text(nanos);
    lemma_duration_text_chars(nanos);
    assert forall|k: int| 0 <= k < text.len() - 1 implies !(#[trigger] text[k] == '%' && text[k
        + 1] == '{') by {
        assert(is_duration_char(text[k]));
    }
}

/// A part that may be missing is counted as it shows: with its space where
/// it is there, as nothing where it is not.
pub proof fn lemma_optional_counted(part: Option<Seq<char>>, part_seen: Option<Seq<char>>)
    requires
        part is Some <==> part_seen is Some,
        part is Some ==> counted_as(part->0, part_seen->0),
    ensures
        counted_as(optional_text(part), optional_text(part_seen)),
{
    if part is Some {
        lemma_plain_counted(seq![' ']);
        lemma_counted_in_a_row(seq![' '], seq![' '], part->0, part_seen->0);
    } else {
        lemma_nothing_counted();
    }
}

/// The time of the last command and the state of the repository are counted
/// as they show, each where it is there.
pub proof fn lemma_opts_counted(duration: Option<Seq<char>>, status: Option<StatusView>)
    requires
        duration is Some ==> !has_mark(duration->0, '{'),
        status is Some ==> !has_mark(ref_name_seen(status->0.ref_name), '{'),
    ensures
        counted_as(
            opts_text(duration_part(duration), git_status_part(status)),
            opts_text(duration, git_status_seen_part(status)),
        ),
{
    if duration is Some {
        lemma_styled_counted(bold(Color::Yellow), duration->0);
    }
    if status is Some {
        lemma_git_status_counted(status->0);
    }
    lemma_optional_counted(duration_part(duration), duration);
    lemma_optional_counted(git_status_part(status), git_status_seen_part(status));
    lemma_counted_in_a_row(
        optional_text(duration_part(duration)),
        optional_text(duration),
        optional_text(git_status_part(status)),
        optional_text(git_status_seen_part(status)),
    );
}

/// The first line of the prompt is counted as it shows.
pub proof fn lemma_main_line_counted(
    hostname: Seq<char>,
    cwd_short: Seq<char>,
    duration: Option<Seq<char>>,
    status: Option<StatusView>,
)
    requires
        !has_mark(hostname, '{'),
        !has_mark(cwd_short, '{'),
        duration is Some ==> !has_mark(duration->0, '{'),
        status is Some ==> !has_mark(ref_name_seen(status->0.ref_name), '{'),
    ensures
        counted_as(
            main_line_text(hostname, cwd_short, duration, git_status_part(status)),
            main_line_seen(hostname, cwd_short, duration, status),
        ),
{
    let open = styled(plain(Color::White), seq!['\u{23a1}']);
    let open_seen = seq!['\u{23a1}'];
    let space = seq![' '];
    let host = styled(bold(Color::Green), hostname);
    let cwd = styled(plain(Color::Green), cwd_short);
    let opts = opts_text(duration_part(duration), git_status_part(status));
    let opts_seen = opts_text(duration, git_status_seen_part(status));
    let close = styled(plain(Color::White), seq!['\u{23a4}']);
    let close_seen = seq!['\u{23a4}'];
    assert(!has_mark(open_seen, '{'));
    assert(!has_mark(close_seen, '{'));
    lemma_styled_counted(plain(Color::White), open_seen);
    lemma_plain_counted(space);
    lemma_styled_counted(bold(Color::Green), hostname);
    lemma_styled_counted(plain(Color::Green), cwd_short);
    lemma_opts_counted(duration, status);
    lemma_styled_counted(plain(Color::White), close_seen);
    lemma_counted_in_a_row(open, open_seen, space, space);
    lemma_counted_in_a_row(open + space, open_seen + space, host, hostname);
    lemma_counted_in_a_row(open + space + host, open_seen + space + hostname, space, space);
    lemma_counted_in_a_row(
        open + space + host + space,
        open_seen + space + hostname + space,
        cwd,
        cwd_short,
    );
    lemma_counted_in_a_row(
        open + space + host + space + cwd,
        open_seen + space + hostname + space + cwd_short,
        opts,
        opts_seen,
    );
    lemma_counted_in_a_row(
        open + space + host + space + cwd + opts,
        open_seen + space + hostname + space + cwd_short + opts_seen,
        close,
        close_seen,
    );
}

/// What tells of a failed command is counted as it shows, as long as the exit
/// code holds no `%{`.
pub proof fn lemma_exit_code_counted(last_exit_code: Seq<char>)
    requires
        !has_mark(last_exit_code, '{'),
    ensures
        counted_as(exit_code_text(last_exit_code), exit_code_seen(last_exit_code)),
{
    if last_exit_code == seq!['0'] {
        lemma_nothing_counted();
    } else {
        let lead = seq!['\u{1f4a5}', ' '];
        let code = seq!['['] + last_exit_code + seq![']'];
        assert forall|k: int| 0 <= k < code.len() - 1 implies !(#[trigger] code[k] == '%'
            && code[k + 1] == '{') by {
            if 1 <= k < code.len() - 2 {
                assert(code[k] == last_exit_code[k - 1]);
                assert(code[k + 1] == last_exit_code[k - 1 + 1]);
            }
        }
        lemma_plain_counted(lead);
        lemma_styled_counted(bold(Color::Red), code);
        lemma_counted_in_a_row(lead, lead, styled(bold(Color::Red), code), code);
    }
}

/// The second line of the prompt is counted as it shows.
pub proof fn lemma_input_line_counted(is_root: bool)
    ensures
        counted_as(input_line_text(is_root), input_line_seen(is_root)),
{
    let open = styled(plain(Color::White), seq!['\u{23a3}']);
    let open_seen = seq!['\u{23a3}'];
    let space = seq![' '];
    let character = prompt_char_text(is_root);
    let character_seen = prompt_char_seen(is_root);
    let end = seq!['\u{a0}', '\u{a0}'];
    assert(!has_mark(open_seen, '{'));
    assert(!has_mark(character_seen, '{'));
    lemma_styled_counted(plain(Color::White), open_seen);
    lemma_plain_counted(space);
    if is_root {
        lemma_styled_counted(bold(Color::Red), character_seen);
    } else {
        lemma_styled_counted(plain(Color::Red), character_seen);
    }
    lemma_plain_counted(end);
    lemma_counted_in_a_row(open, open_seen, space, space);
    lemma_counted_in_a_row(open + space, open_seen + space, character, character_seen);
    lemma_counted_in_a_row(
        open + space + character,
        open_seen + space + character_seen,
        end,
        end,
    );
}

/// zsh counts the prompt as it shows on screen: every code in it stands
/// between zsh's marks, and nothing else does.
///
/// This holds where the host, the directory, the exit code, the time of the
/// last command and the name of what is checked out hold no `%{`, which zsh
/// would take for a mark of its own.
pub proof fn lemma_prompt_counted_as_seen(
    hostname: Seq<char>,
    cwd_short: Seq<char>,
    last_exit_code: Seq<char>,
    duration: Option<Seq<char>>,
    status: Option<StatusView>,
    is_root: bool,
)
    requires
        !has_mark(hostname, '{'),
        !has_mark(cwd_short, '{'),
        !has_mark(last_exit_code, '{'),
        duration is Some ==> !has_mark(duration->0, '{'),
        status is Some ==> !has_mark(ref_name_seen(status->0.ref_name), '{'),
    ensures
        visible(
            prompt_text(
                hostname,
                cwd_short,
                last_exit_code,
                duration,
                git_status_part(status),
                is_root,
            ),
        ) == prompt_seen(hostname, cwd_short, last_exit_code, duration, status, is_root),
{
    let exit = exit_code_text(last_exit_code);
    let exit_seen = exit_code_seen(last_exit_code);
    let line = seq!['\n'];
    let main = main_line_text(hostname, cwd_short, duration, git_status_part(status));
    let main_seen = main_line_seen(hostname, cwd_short, duration, status);
    let input = input_line_text(is_root);
    let input_seen = input_line_seen(is_root);
    lemma_exit_code_counted(last_exit_code);
    lemma_plain_counted(line);
    lemma_main_line_counted(hostname, cwd_short, duration, status);
    lemma_input_line_counted(is_root);
    lemma_counted_in_a_row(exit, exit_seen, line, line);
    lemma_counted_in_a_row(exit + line, exit_seen + line, main, main_seen);
    lemma_counted_in_a_row(exit + line + main, exit_seen + line + main_seen, line, line);
    lemma_counted_in_a_row(
        exit + line + main + line,
        exit_seen + line + main_seen + line,
        input,
        input_seen,
    );
    lemma_counted_alone(
        exit + line + main + line + input,
        exit_seen + line + main_seen + line + input_seen,
    );
}

/// zsh counts the prompt of a shell as it shows on screen, whatever the last
/// command took and whatever the state of the repository is, as long as the
/// host, the short form of the directory, the exit code and the name of what is
/// checked out hold no `%{`.
pub proof fn lemma_whole_prompt_counted_as_seen(
    hostname: Seq<char>,
    cwd_short: Seq<char>,
    last_exit_code: Seq<char>,
    millis: Option<u64>,
    status: Option<StatusView>,
    is_root: bool,
)
    requires
        !has_mark(hostname, '{'),
        !has_mark(cwd_short, '{'),
        !has_mark(last_exit_code, '{'),
        status is Some ==> !has_mark(ref_name_seen(status->0.ref_name), '{'),
    ensures
        visible(
            prompt_text(
                hostname,
                cwd_short,
                last_exit_code,
                command_duration_text(millis),
                git_status_part(status),
                is_root,
            ),
        ) == prompt_seen(
            hostname,
            cwd_short,
            last_exit_code,
            command_duration_text(millis),
            status,
            is_root,
        ),
{
    if millis is Some {
        lemma_duration_holds_no_mark(millis->0 as nat * 1_000_000);
    }
    lemma_prompt_counted_as_seen(
        hostname,
        cwd_short,
        last_exit_code,
        command_duration_text(millis),
        status,
        is_root,
    );
}

} // verus!
