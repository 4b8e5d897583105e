//! Splitting captured text into lines.
//!
//! A line ends at a line feed. The line feed is not part of the line, and
//! neither is a carriage return that stands directly before it. Text after
//! the last line feed is a line of its own unless it is empty.

use vstd::prelude::*;

verus! {

/// Whether `s` holds a line feed.
pub open spec fn has_newline(s: Seq<char>) -> bool {
    exists|i: int| 0 <= i < s.len() && s[i] == '\n'
}

/// The position of the first line feed in `s`, or the length of `s` when it
/// holds none.
pub open spec fn first_newline(s: Seq<char>) -> nat
    decreases s.len(),
{
    if s.len() == 0 || s[0] == '\n' {
        0
    } else {
        1 + first_newline(s.drop_first())
    }
}

/// A terminated line without the carriage return that closed it, if any.
pub open spec fn strip_carriage_return(line: Seq<char>) -> Seq<char> {
    if line.len() > 0 && line.last() == '\r' {
        line.drop_last()
    } else {
        line
    }
}

/// The lines of a text.
pub open spec fn lines_of(s: Seq<char>) -> Seq<Seq<char>>
    decreases s.len(),
{
    let cut = first_newline(s);
    if s.len() == 0 {
        Seq::empty()
    } else if cut >= s.len() {
        seq![s]
    } else {
        seq![strip_carriage_return(s.take(cut as int))] + lines_of(s.skip(cut as int + 1))
    }
}

/// `first_newline` stays within the text and points at a line feed unless it
/// ran off the end; nothing before it is a line feed.
pub proof fn lemma_first_newline(s: Seq<char>)
    ensures
        first_newline(s) <= s.len(),
        first_newline(s) < s.len() ==> s[first_newline(s) as int] == '\n',
        forall|i: int| 0 <= i < first_newline(s) ==> s[i] != '\n',
    decreases s.len(),
{
    if s.len() == 0 || s[0] == '\n' {
    } else {
        let rest = s.drop_first();
        lemma_first_newline(rest);
        assert forall|i: int| 0 <= i < first_newline(s) implies s[i] != '\n' by {
            if i > 0 {
                assert(rest[i - 1] == s[i]);
            }
        }
    }
}

/// A line feed with none before it is the first one.
pub proof fn lemma_first_newline_at(s: Seq<char>, k: int)
    requires
        0 <= k <= s.len(),
        forall|i: int| 0 <= i < k ==> s[i] != '\n',
        k < s.len() ==> s[k] == '\n',
    ensures
        first_newline(s) == k,
{
    lemma_first_newline(s);
    let f = first_newline(s) as int;
    if f < k {
        assert(s[f] != '\n');
    }
}

/// Every line that `lines_of` yields is free of line feeds.
pub proof fn lemma_lines_hold_no_newline(s: Seq<char>)
    ensures
        forall|i: int| 0 <= i < lines_of(s).len() ==> !has_newline(#[trigger] lines_of(s)[i]),
    decreases s.len(),
{
    lemma_first_newline(s);
    let cut = first_newline(s) as int;
    if s.len() == 0 {
    } else if cut >= s.len() {
        assert(!has_newline(s));
    } else {
        let head = strip_carriage_return(s.take(cut));
        let tail = lines_of(s.skip(cut + 1));
        lemma_lines_hold_no_newline(s.skip(cut + 1));
        assert(!has_newline(head)) by {
            if has_newline(head) {
                let i = choose|i: int| 0 <= i < head.len() && head[i] == '\n';
                assert(s[i] == '\n');
            }
        }
        assert forall|i: int| 0 <= i < lines_of(s).len() implies !has_newline(
            #[trigger] lines_of(s)[i],
        ) by {
            if i > 0 {
                assert(lines_of(s)[i] == tail[i - 1]);
            }
        }
    }
}

/// A text written line by line: every line followed by a line feed.
pub open spec fn join_lines(lines: Seq<Seq<char>>) -> Seq<char>
    decreases lines.len(),
{
    if lines.len() == 0 {
        Seq::empty()
    } else {
        lines[0] + seq!['\n'] + join_lines(lines.drop_first())
    }
}

/// Whether `s` can be written as one line and read back unchanged: it holds
/// no line feed and does not end in a carriage return.
pub open spec fn is_line(s: Seq<char>) -> bool {
    !has_newline(s) && (s.len() > 0 ==> s.last() != '\r')
}

/// Lines that are written one after the other, each closed by a line feed,
/// are read back as they were: as many, the same, in the same order.
pub proof fn lemma_written_lines_read_back(lines: Seq<Seq<char>>)
    requires
        forall|i: int| 0 <= i < lines.len() ==> is_line(#[trigger] lines[i]),
    ensures
        lines_of(join_lines(lines)) == lines,
    decreases lines.len(),
{
    if lines.len() > 0 {
        let head = lines[0];
        let rest = lines.drop_first();
        let text = join_lines(lines);
        assert(is_line(head));
        assert forall|i: int| 0 <= i < rest.len() implies is_line(#[trigger] rest[i]) by {
            assert(rest[i] == lines[i + 1]);
        }
        lemma_written_lines_read_back(rest);
        let cut = head.len() as int;
        assert forall|i: int| 0 <= i < cut implies text[i] != '\n' by {
            assert(text[i] == head[i]);
        }
        assert(text[cut] == '\n');
        lemma_first_newline_at(text, cut);
        assert(text.take(cut) =~= head);
        assert(text.skip(cut + 1) =~= join_lines(rest));
        assert(seq![head] + rest =~= lines);
    }
}

/// `String::push` appends the character to the end of the string.
pub assume_specification[ String::push ](s: &mut String, ch: char)
    ensures
        final(s)@ == old(s)@.push(ch),
;

/// Splits a text into its lines.
pub fn split_lines(text: &str) -> (lines: Vec<String>)
    ensures
        lines.deep_view() == lines_of(text@),
{
    let mut lines: Vec<String> = Vec::new();
    let mut current = String::new();
    // A carriage return is held back until the next character shows whether
    // it closes the line.
    let mut held_back = false;
    let ghost mut start: int = 0;
    proof {
        assert(text@.skip(0) =~= text@);
        assert(lines.deep_view() + lines_of(text@) =~= lines_of(text@));
    }
    for c in it: text.chars()
        invariant
            it.seq() == text@,
            0 <= start <= it.index(),
            lines_of(text@) == lines.deep_view() + lines_of(text@.skip(start)),
            text@.subrange(start, it.index()) == if held_back {
                current@.push('\r')
            } else {
                current@
            },
            forall|i: int| start <= i < it.index() ==> text@[i] != '\n',
            !held_back && current@.len() > 0 ==> current@.last() != '\r',
    {
        let ghost i = it.index();
        let ghost rest = text@.skip(start);
        if c == '\n' {
            proof {
                assert forall|j: int| 0 <= j < i - start implies rest[j] != '\n' by {
                    assert(rest[j] == text@[start + j]);
                }
                lemma_first_newline_at(rest, i - start);
                assert(rest.take(i - start) =~= text@.subrange(start, i));
                assert(rest.skip(i - start + 1) =~= text@.skip(i + 1));
                if held_back {
                    assert(current@.push('\r').drop_last() =~= current@);
                }
                assert(strip_carriage_return(text@.subrange(start, i)) == current@);
                assert(lines.deep_view().push(current@) =~= lines.deep_view() + seq![current@]);
            }
            let ghost before = lines.deep_view();
            lines.push(current);
            assert(lines.deep_view() =~= before.push(lines@.last()@));
            current = String::new();
            held_back = false;
            proof {
                start = i + 1;
                assert(text@.subrange(start, i + 1) =~= Seq::<char>::empty());
            }
        } else {
            if held_back {
                current.push('\r');
            }
            if c == '\r' {
                held_back = true;
            } else {
                current.push(c);
                held_back = false;
            }
            assert(text@.subrange(start, i + 1) =~= text@.subrange(start, i).push(c));
        }
    }
    let ghost rest = text@.skip(start);
    proof {
        assert(rest =~= text@.subrange(start, text@.len() as int));
        assert forall|j: int| 0 <= j < rest.len() implies rest[j] != '\n' by {
            assert(rest[j] == text@[start + j]);
        }
        lemma_first_newline_at(rest, rest.len() as int);
    }
    if held_back {
        current.push('\r');
    }
    assert(current@ == rest);
    if !current.as_str().is_empty() {
        let ghost before = lines.deep_view();
        lines.push(current);
        assert(lines.deep_view() =~= before.push(rest));
        assert(before.push(rest) =~= before + seq![rest]);
    } else {
        assert(lines.deep_view() + Seq::<Seq<char>>::empty() =~= lines.deep_view());
    }
    lines
}

} // verus!
