//! Styled text that zsh can measure.
//!
//! zsh counts the characters of a prompt to know where a line wraps. Escape
//! codes take no room on the screen, so each one goes between `%{` and `%}`, which
//! tell zsh to leave it out of the count.

use vstd::prelude::*;
use vstd::string::*;
use crate::ansi::{ansi_prefix, ansi_suffix, AnsiString, Style};

verus! {

/// `code` between `%{` and `%}`, the marks that make zsh leave it out of its count.
pub open spec fn marked(code: Seq<char>) -> Seq<char> {
    seq!['%', '{'] + code + seq!['%', '}']
}

/// `text` between its escape codes, each code between zsh's marks.
pub open spec fn wrapped(prefix: Seq<char>, text: Seq<char>, suffix: Seq<char>) -> Seq<char> {
    marked(prefix) + text + marked(suffix)
}

/// What is left of `s` from position `i` on once everything between a `%{` and
/// the next `%}` is taken out, the marks included. `hidden` says whether
/// position `i` lies after a `%{` that is still open.
pub open spec fn visible_from(s: Seq<char>, i: int, hidden: bool) -> Seq<char>
    decreases s.len() - i,
{
    if i < 0 || i >= s.len() {
        Seq::empty()
    } else if hidden {
        if s[i] == '%' && i + 1 < s.len() && s[i + 1] == '}' {
            visible_from(s, i + 2, false)
        } else {
            visible_from(s, i + 1, true)
        }
    } else {
        if s[i] == '%' && i + 1 < s.len() && s[i + 1] == '{' {
            visible_from(s, i + 2, true)
        } else {
            seq![s[i]] + visible_from(s, i + 1, false)
        }
    }
}

/// The part of `s` that zsh counts: `s` without what stands between `%{` and
/// `%}`, and without the marks.
pub open spec fn visible(s: Seq<char>) -> Seq<char> {
    visible_from(s, 0, false)
}

/// Whether `%` is followed by `after` somewhere in `s`.
pub open spec fn has_mark(s: Seq<char>, after: char) -> bool {
    exists|k: int| 0 <= k < s.len() - 1 && #[trigger] s[k] == '%' && s[k + 1] == after
}

/// Puts `prefix` and `suffix` between zsh's marks and `text` between the two.
pub fn wrap(prefix: &str, text: &str, suffix: &str) -> (out: String)
    ensures
        out@ == wrapped(prefix@, text@, suffix@),
{
    proof {
        reveal_strlit("%{");
        reveal_strlit("%}");
    }
    let mut out = String::new();
    out.append("%{");
    out.append(prefix);
    out.append("%}");
    out.append(text);
    out.append("%{");
    out.append(suffix);
    out.append("%}");
    assert(out@ =~= wrapped(prefix@, text@, suffix@));
    out
}

/// Styled text whose escape codes stand between zsh's marks when it is written out.
#[derive(Clone, Debug, PartialEq, Eq)]
pub struct ZshGenericAnsiString(pub AnsiString);

/// Styled text of characters, for zsh.
pub type ZshAnsiString = ZshGenericAnsiString;

impl ZshGenericAnsiString {
    /// What this text is written out as.
    pub open spec fn rendered(self) -> Seq<char> {
        wrapped(self.0.style.prefix_codes(), self.0.text@, self.0.style.suffix_codes())
    }

    /// Writes the text out: the code that switches its style on, the text, and
    /// the code that switches the style off, each code between `%{` and `%}`.
    pub fn to_string(&self) -> (out: String)
        ensures
            out@ == self.rendered(),
    {
        let prefix = ansi_prefix(self.0.style);
        let suffix = ansi_suffix(self.0.style);
        wrap(prefix.as_str(), self.0.text.as_str(), suffix.as_str())
    }
}

impl From<AnsiString> for ZshGenericAnsiString {
    fn from(s: AnsiString) -> (zsh: ZshGenericAnsiString) {
        ZshGenericAnsiString(s)
    }
}

impl vstd::std_specs::convert::FromSpecImpl<AnsiString> for ZshGenericAnsiString {
    open spec fn obeys_from_spec() -> bool {
        true
    }

    open spec fn from_spec(s: AnsiString) -> ZshGenericAnsiString {
        ZshGenericAnsiString(s)
    }
}

/// Styled text that can be handed to zsh.
pub trait IntoZsh: Sized {
    /// The styled text that `self` holds.
    spec fn styled(self) -> AnsiString;

    /// The same styled text, to be written out with zsh's marks.
    fn into_zsh(self) -> (zsh: ZshAnsiString)
        ensures
            zsh.0 == self.styled(),
    ;
}

impl IntoZsh for AnsiString {
    open spec fn styled(self) -> AnsiString {
        self
    }

    fn into_zsh(self) -> (zsh: ZshAnsiString) {
        ZshGenericAnsiString(self)
    }
}

/// Inside a hidden stretch that holds no `%}` before position `j`, where one
/// stands, nothing is visible up to and including that `%}`.
proof fn lemma_hidden_until(s: Seq<char>, i: int, j: int)
    requires
        0 <= i <= j,
        j + 2 <= s.len(),
        s[j] == '%',
        s[j + 1] == '}',
        forall|k: int| i <= k < j ==> !(#[trigger] s[k] == '%' && s[k + 1] == '}'),
    ensures
        visible_from(s, i, true) == visible_from(s, j + 2, false),
    decreases j - i,
{
    if i < j {
        assert(!(s[i] == '%' && s[i + 1] == '}'));
        lemma_hidden_until(s, i + 1, j);
    }
}

/// Outside the marks, a stretch that holds no `%{` is visible as it stands.
proof fn lemma_shown_until(s: Seq<char>, i: int, j: int)
    requires
        0 <= i <= j < s.len(),
        forall|k: int| i <= k < j ==> !(#[trigger] s[k] == '%' && s[k + 1] == '{'),
    ensures
        visible_from(s, i, false) == s.subrange(i, j) + visible_from(s, j, false),
    decreases j - i,
{
    if i < j {
        assert(!(s[i] == '%' && s[i + 1] == '{'));
        lemma_shown_until(s, i + 1, j);
        assert(s.subrange(i, j) =~= seq![s[i]] + s.subrange(i + 1, j));
        assert(seq![s[i]] + (s.subrange(i + 1, j) + visible_from(s, j, false)) =~= s.subrange(i, j)
            + visible_from(s, j, false));
    } else {
        assert(s.subrange(i, j) + visible_from(s, j, false) =~= visible_from(s, j, false));
    }
}

/// What is visible of the end of a text does not depend on what stood before it.
proof fn lemma_visible_from_shift(head: Seq<char>, tail: Seq<char>, i: int, hidden: bool)
    requires
        0 <= i,
    ensures
        visible_from(head + tail, head.len() + i, hidden) == visible_from(tail, i, hidden),
    decreases tail.len() - i,
{
    let s = head + tail;
    let n = head.len() as int;
    if i < tail.len() {
        assert(s[n + i] == tail[i]);
        lemma_visible_from_shift(head, tail, i + 1, hidden);
        if i + 1 < tail.len() {
            assert(s[n + i + 1] == tail[i + 1]);
            lemma_visible_from_shift(head, tail, i + 2, !hidden);
        }
    }
}

/// zsh counts a wrapped text as the text alone, and goes on counting after it
/// as if nothing had stood there: of a wrapped text followed by `rest`, the
/// visible part is the text followed by the visible part of `rest`.
///
/// This holds where the codes hold no `%}`, which would close their mark early, and
/// the text no `%{`, which would hide what follows it.
pub proof fn lemma_visible_of_wrapped_then(
    prefix: Seq<char>,
    text: Seq<char>,
    suffix: Seq<char>,
    rest: Seq<char>,
)
    requires
        !has_mark(prefix, '}'),
        !has_mark(suffix, '}'),
        !has_mark(text, '{'),
    ensures
        visible(wrapped(prefix, text, suffix) + rest) == text + visible(rest),
{
    let w = wrapped(prefix, text, suffix);
    let s = w + rest;
    let p = prefix.len() as int;
    let t = text.len() as int;
    let x = suffix.len() as int;
    // Where the parts of `s` begin.
    let text_at = p + 4;
    let open_at = text_at + t;
    let close_at = open_at + 2 + x;
    assert(w.len() == close_at + 2);
    assert(s[0] == '%' && s[1] == '{');
    assert(s[p + 2] == '%' && s[p + 3] == '}');
    assert(s[open_at] == '%' && s[open_at + 1] == '{');
    assert(s[close_at] == '%' && s[close_at + 1] == '}');
    assert forall|k: int| 2 <= k < p + 2 implies !(#[trigger] s[k] == '%' && s[k + 1] == '}') by {
        assert(s[k] == prefix[k - 2]);
        if k + 1 < p + 2 {
            assert(s[k + 1] == prefix[k - 2 + 1]);
        }
    }
    assert forall|k: int| text_at <= k < open_at implies !(#[trigger] s[k] == '%' && s[k + 1]
        == '{') by {
        assert(s[k] == text[k - text_at]);
        if k + 1 < open_at {
            assert(s[k + 1] == text[k - text_at + 1]);
        }
    }
    assert forall|k: int| open_at + 2 <= k < close_at implies !(#[trigger] s[k] == '%' && s[k
        + 1] == '}') by {
        assert(s[k] == suffix[k - open_at - 2]);
        if k + 1 < close_at {
            assert(s[k + 1] == suffix[k - open_at - 2 + 1]);
        }
    }
    assert(visible(s) == visible_from(s, 2, true));
    lemma_hidden_until(s, 2, p + 2);
    lemma_shown_until(s, text_at, open_at);
    assert(s.subrange(text_at, open_at) =~= text);
    assert(visible_from(s, open_at, false) == visible_from(s, open_at + 2, true));
    lemma_hidden_until(s, open_at + 2, close_at);
    lemma_visible_from_shift(w, rest, 0, false);
}

/// A wrapped text is its text between two marked codes: cutting the marked
/// prefix off its start and the marked suffix off its end leaves the text,
/// whatever the three are.
pub proof fn lemma_wrapped_without_marks(prefix: Seq<char>, text: Seq<char>, suffix: Seq<char>)
    ensures
        marked(prefix).len() == prefix.len() + 4,
        marked(suffix).len() == suffix.len() + 4,
        wrapped(prefix, text, suffix).len() == marked(prefix).len() + text.len() + marked(
            suffix,
        ).len(),
        wrapped(prefix, text, suffix).subrange(0, marked(prefix).len() as int) == marked(prefix),
        wrapped(prefix, text, suffix).subrange(
            marked(prefix).len() as int,
            (marked(prefix).len() + text.len()) as int,
        ) == text,
        wrapped(prefix, text, suffix).subrange(
            (marked(prefix).len() + text.len()) as int,
            wrapped(prefix, text, suffix).len() as int,
        ) == marked(suffix),
{
}

/// zsh counts a wrapped text as the text alone: taking the marks and what
/// they enclose out of it gives the text back, whatever the codes are, as long as
/// they hold no `%}` and the text holds no `%{`.
pub proof fn lemma_visible_of_wrapped(prefix: Seq<char>, text: Seq<char>, suffix: Seq<char>)
    requires
        !has_mark(prefix, '}'),
        !has_mark(suffix, '}'),
        !has_mark(text, '{'),
    ensures
        visible(wrapped(prefix, text, suffix)) == text,
        visible(wrapped(prefix, text, suffix)).len() == text.len(),
{
    let w = wrapped(prefix, text, suffix);
    lemma_visible_of_wrapped_then(prefix, text, suffix, Seq::empty());
    assert(w + Seq::<char>::empty() =~= w);
    assert(visible(Seq::<char>::empty()) =~= Seq::<char>::empty());
    assert(text + Seq::<char>::empty() =~= text);
}

/// Text without any `%` is counted as it stands, and zsh goes on counting
/// after it as if nothing had stood there.
pub proof fn lemma_visible_of_plain_then(text: Seq<char>, rest: Seq<char>)
    requires
        forall|k: int| 0 <= k < text.len() ==> #[trigger] text[k] != '%',
    ensures
        visible(text + rest) == text + visible(rest),
    decreases text.len(),
{
    if text.len() == 0 {
        assert(text + rest =~= rest);
        assert(text + visible(rest) =~= visible(rest));
    } else {
        let first = seq![text[0]];
        let tail = text.skip(1) + rest;
        let s = text + rest;
        assert(s =~= first + tail);
        assert(s[0] == text[0]);
        lemma_visible_from_shift(first, tail, 0, false);
        assert forall|k: int| 0 <= k < text.skip(1).len() implies #[trigger] text.skip(1)[k]
            != '%' by {
            assert(text.skip(1)[k] == text[k + 1]);
        }
        lemma_visible_of_plain_then(text.skip(1), rest);
        assert(first + (text.skip(1) + visible(rest)) =~= text + visible(rest));
    }
}

/// The codes of a style hold no `%` at all, so they never close a mark.
pub proof fn lemma_codes_hold_no_mark(style: Style)
    ensures
        !has_mark(style.prefix_codes(), '}'),
        !has_mark(style.suffix_codes(), '}'),
{
    let prefix = style.prefix_codes();
    let suffix = style.suffix_codes();
    assert forall|k: int| 0 <= k < prefix.len() implies #[trigger] prefix[k] != '%' by {}
    assert forall|k: int| 0 <= k < suffix.len() implies #[trigger] suffix[k] != '%' by {}
}

/// zsh counts styled text as its text alone, and goes on counting after it as
/// if nothing had stood there, as long as the text holds no `%{`.
pub proof fn lemma_visible_of_rendered_then(zsh: ZshGenericAnsiString, rest: Seq<char>)
    requires
        !has_mark(zsh.0.text@, '{'),
    ensures
        visible(zsh.rendered() + rest) == zsh.0.text@ + visible(rest),
        visible(zsh.rendered()) == zsh.0.text@,
{
    let style = zsh.0.style;
    lemma_codes_hold_no_mark(style);
    lemma_visible_of_wrapped_then(style.prefix_codes(), zsh.0.text@, style.suffix_codes(), rest);
    lemma_visible_of_wrapped(style.prefix_codes(), zsh.0.text@, style.suffix_codes());
}

} // verus!
