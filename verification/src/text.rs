//! Texts, and the lines they are made of.

use std::borrow::Cow;

use vstd::prelude::*;
use vstd::string::*;

verus! {

/// The characters of a text.
pub open spec fn chars(text: Cow<'static, str>) -> Seq<char> {
    match text {
        Cow::Borrowed(s) => s@,
        Cow::Owned(s) => s@,
    }
}

/// The characters of each of `lines`.
pub open spec fn line_views(lines: Seq<String>) -> Seq<Seq<char>> {
    Seq::new(lines.len(), |i: int| lines[i]@)
}

/// A text with the same characters as `text`.
pub fn copy_text(text: &Cow<'static, str>) -> (copy: Cow<'static, str>)
    ensures
        chars(copy) == chars(*text),
{
    match text {
        Cow::Borrowed(s) => Cow::Borrowed(*s),
        Cow::Owned(s) => Cow::Owned(s.clone()),
    }
}

/// Where the first line feed of `s` stands, or the length of `s` where it has none.
pub open spec fn first_feed(s: Seq<char>) -> nat
    decreases s.len(),
{
    if s.len() == 0 || s[0] == '\n' {
        0
    } else {
        1 + first_feed(s.skip(1))
    }
}

/// `s` without the carriage return at its end, if it has one there.
pub open spec fn without_return(s: Seq<char>) -> Seq<char> {
    if s.len() > 0 && s.last() == '\r' {
        s.drop_last()
    } else {
        s
    }
}

/// The lines of `s`. A line ends with a line feed, or with a carriage return and a line feed,
/// neither of which belongs to it; what follows the last line feed is a line too, unless it is
/// empty.
pub open spec fn lines_of(s: Seq<char>) -> Seq<Seq<char>>
    decreases s.len(),
{
    let n = first_feed(s);
    if s.len() == 0 {
        Seq::empty()
    } else if n >= s.len() {
        seq![s]
    } else {
        seq![without_return(s.take(n as int))] + lines_of(s.skip(n as int + 1))
    }
}

proof fn lemma_first_feed(s: Seq<char>, n: int)
    requires
        0 <= n <= s.len(),
        forall|i: int| 0 <= i < n ==> s[i] != '\n',
        n < s.len() ==> s[n] == '\n',
    ensures
        first_feed(s) == n,
    decreases s.len(),
{
    if n > 0 {
        lemma_first_feed(s.skip(1), n - 1);
    }
}

/// The lines of `msg`.
pub fn split_lines(msg: &str) -> (lines: Vec<String>)
    ensures
        line_views(lines@) == lines_of(msg@),
{
    let n: usize = msg.unicode_len();
    let mut lines: Vec<String> = Vec::new();
    let mut start: usize = 0;
    let mut end: usize = 0;
    let mut after_return: bool = false;
    assert(msg@.skip(0) =~= msg@);
    assert(line_views(lines@) + lines_of(msg@) =~= lines_of(msg@));
    for c in it: msg.chars()
        invariant
            n == msg@.len(),
            it.seq() == msg@,
            end == it.index(),
            start <= end <= n,
            forall|i: int| start <= i < end ==> msg@[i] != '\n',
            after_return == (start < end && msg@[end - 1] == '\r'),
            line_views(lines@) + lines_of(msg@.skip(start as int)) == lines_of(msg@),
    {
        assert(c == msg@[end as int]);
        if c == '\n' {
            let stop: usize = if after_return {
                end - 1
            } else {
                end
            };
            let ghost before = line_views(lines@);
            lines.push(msg.substring_char(start, stop).to_owned());
            proof {
                let rest = msg@.skip(start as int);
                lemma_first_feed(rest, end - start);
                assert(rest.take(end - start) =~= msg@.subrange(start as int, end as int));
                assert(rest.skip(end - start + 1) =~= msg@.skip(end + 1));
                assert(lines@.last()@ =~= without_return(rest.take(end - start)));
                assert(line_views(lines@) =~= before.push(lines@.last()@));
                assert(line_views(lines@) + lines_of(msg@.skip(end + 1)) =~= before + lines_of(rest));
            }
            start = end + 1;
            after_return = false;
        } else {
            after_return = c == '\r';
        }
        end = end + 1;
    }
    let ghost before = line_views(lines@);
    if start < n {
        lines.push(msg.substring_char(start, n).to_owned());
    }
    proof {
        let rest = msg@.skip(start as int);
        lemma_first_feed(rest, n - start);
        assert(line_views(lines@) =~= before + lines_of(rest));
    }
    lines
}

/// The characters of a text are those of the string it borrows or owns.
pub proof fn chars_show_text(borrowed: &'static str, owned: String)
    ensures
        chars(Cow::Borrowed(borrowed)) == borrowed@,
        chars(Cow::Owned(owned)) == owned@,
{
}

/// The view of lines shows each of them as it is.
pub proof fn line_views_show_lines(lines: Seq<String>, i: int)
    requires
        0 <= i < lines.len(),
    ensures
        line_views(lines).len() == lines.len(),
        line_views(lines)[i] == lines[i]@,
{
}

/// The text that is made of `lines` when each is ended by a line feed, or by a carriage return
/// and a line feed where `with_return` says so.
pub open spec fn ended(lines: Seq<Seq<char>>, with_return: Seq<bool>) -> Seq<char>
    decreases lines.len(),
{
    if lines.len() == 0 {
        Seq::empty()
    } else {
        lines[0] + (if with_return[0] {
            seq!['\r', '\n']
        } else {
            seq!['\n']
        }) + ended(lines.skip(1), with_return.skip(1))
    }
}

/// Splitting finds the lines that a text was made of, whichever way each of them was ended, and
/// whether the last one was ended or not.
pub proof fn lines_are_found_again(
    lines: Seq<Seq<char>>,
    with_return: Seq<bool>,
    rest: Seq<char>,
)
    requires
        lines.len() == with_return.len(),
        forall|i: int| 0 <= i < lines.len() ==> !(#[trigger] lines[i]).contains('\n'),
        forall|i: int|
            0 <= i < lines.len() && !with_return[i] && (#[trigger] lines[i]).len() > 0
                ==> lines[i].last() != '\r',
        !rest.contains('\n'),
    ensures
        rest.len() == 0 ==> lines_of(ended(lines, with_return) + rest) == lines,
        rest.len() > 0 ==> lines_of(ended(lines, with_return) + rest) == lines.push(rest),
    decreases lines.len(),
{
    let text = ended(lines, with_return) + rest;
    if lines.len() == 0 {
        assert(text =~= rest);
        assert forall|i: int| 0 <= i < rest.len() implies rest[i] != '\n' by {
            assert(rest.contains(rest[i]));
        }
        lemma_first_feed(rest, rest.len() as int);
        assert(lines_of(text) =~= if rest.len() == 0 {
            lines
        } else {
            lines.push(rest)
        });
    } else {
        let line = lines[0];
        let tail = ended(lines.skip(1), with_return.skip(1)) + rest;
        let n = line.len() as int + if with_return[0] {
            1int
        } else {
            0
        };
        lines_are_found_again(lines.skip(1), with_return.skip(1), rest);
        assert forall|i: int| 0 <= i < n implies text[i] != '\n' by {
            if i < line.len() {
                assert(text[i] == line[i]);
                assert(line.contains(line[i]));
            }
        }
        assert(text[n] == '\n');
        lemma_first_feed(text, n);
        assert(text.skip(n + 1) =~= tail);
        assert(text.take(n) =~= if with_return[0] {
            line.push('\r')
        } else {
            line
        });
        assert(line.push('\r').drop_last() =~= line);
        assert(without_return(text.take(n)) =~= line);
        assert(lines_of(text) == seq![line] + lines_of(tail));
        assert(seq![line] + lines.skip(1) =~= lines);
        assert(seq![line] + lines.skip(1).push(rest) =~= lines.push(rest));
    }
}

} // verus!
