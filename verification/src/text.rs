//! Text as lines: how a list of lines is written out as one text, and how a
//! text is cut back into lines.

use vstd::prelude::*;

verus! {

/// Appending one character to a `String` (`String::push`) puts that character
/// after the text the string held before.
pub assume_specification[ String::push ](text: &mut String, c: char)
    ensures
        final(text)@ == old(text)@.push(c),
;

/// The lines written out as one text: each line followed by a line feed.
pub open spec fn render(lines: Seq<Seq<char>>) -> Seq<char>
    decreases lines.len(),
{
    if lines.len() == 0 {
        Seq::empty()
    } else {
        (render(lines.drop_last()) + lines.last()).push('\n')
    }
}

/// The lines written out with a line feed between each two of them, and none
/// after the last.
pub open spec fn joined(lines: Seq<Seq<char>>) -> Seq<char>
    decreases lines.len(),
{
    if lines.len() == 0 {
        Seq::empty()
    } else if lines.len() == 1 {
        lines[0]
    } else {
        joined(lines.drop_last()).push('\n') + lines.last()
    }
}

/// A line that is cut out of a text as it went in: it holds no line feed and
/// does not end in a carriage return.
pub open spec fn is_plain_line(line: Seq<char>) -> bool {
    &&& forall|j: int| 0 <= j < line.len() ==> line[j] != '\n'
    &&& line.len() > 0 ==> line.last() != '\r'
}

/// The number of characters of `text` that stand before its first line feed;
/// the length of `text` where it holds none.
pub open spec fn line_end(text: Seq<char>) -> nat
    decreases text.len(),
{
    if text.len() == 0 || text[0] == '\n' {
        0
    } else {
        1 + line_end(text.skip(1))
    }
}

/// A line as it stands before its line feed, without the carriage return of a
/// `\r\n` ending.
pub open spec fn without_cr(line: Seq<char>) -> Seq<char> {
    if line.len() > 0 && line.last() == '\r' {
        line.drop_last()
    } else {
        line
    }
}

/// The lines of a text. A line ends at a line feed, or at a carriage return
/// directly followed by one; the ending is no part of the line. A last line
/// needs no ending, and is then kept as it is.
pub open spec fn lines_of(text: Seq<char>) -> Seq<Seq<char>>
    decreases text.len(),
{
    let end = line_end(text);
    if text.len() == 0 {
        Seq::empty()
    } else if end >= text.len() {
        seq![text]
    } else {
        seq![without_cr(text.take(end as int))] + lines_of(text.skip(end as int + 1))
    }
}

/// `line_end` is the one position with no line feed before it that is the end
/// of the text or holds a line feed.
pub proof fn lemma_line_end(text: Seq<char>, k: int)
    requires
        0 <= k <= text.len(),
        forall|j: int| 0 <= j < k ==> text[j] != '\n',
        k == text.len() || text[k] == '\n',
    ensures
        line_end(text) == k,
    decreases k,
{
    if k > 0 {
        let rest = text.skip(1);
        assert forall|j: int| 0 <= j < k - 1 implies rest[j] != '\n' by {
            assert(rest[j] == text[j + 1]);
        }
        lemma_line_end(rest, k - 1);
    }
}

/// Writing out two runs of lines one after the other gives the two texts one
/// after the other.
pub proof fn lemma_render_concat(first: Seq<Seq<char>>, second: Seq<Seq<char>>)
    ensures
        render(first + second) == render(first) + render(second),
    decreases second.len(),
{
    if second.len() == 0 {
    } else {
        lemma_render_concat(first, second.drop_last());
        assert((first + second).drop_last() == first + second.drop_last());
    }
}

/// Writing out a first line and the lines after it: the line, a line feed,
/// and the rest written out.
pub proof fn lemma_render_first(lines: Seq<Seq<char>>)
    requires
        lines.len() > 0,
    ensures
        render(lines) == lines[0].push('\n') + render(lines.skip(1)),
{
    let head = seq![lines[0]];
    assert(lines == head + lines.skip(1));
    lemma_render_concat(head, lines.skip(1));
    assert(render(head) == lines[0].push('\n')) by {
        reveal_with_fuel(render, 2);
    }
}

/// Lines that hold no line feed and end in no carriage return come back as
/// they were from the text they were written out to.
pub proof fn lemma_lines_of_render(lines: Seq<Seq<char>>)
    requires
        forall|i: int| 0 <= i < lines.len() ==> is_plain_line(#[trigger] lines[i]),
    ensures
        lines_of(render(lines)) == lines,
    decreases lines.len(),
{
    if lines.len() > 0 {
        let head = lines[0];
        let rest = lines.skip(1);
        let text = render(lines);
        lemma_render_first(lines);
        lemma_line_end(text, head.len() as int);
        assert(text.take(head.len() as int) == head);
        assert(text.skip(head.len() as int + 1) == render(rest));
        assert forall|i: int| 0 <= i < rest.len() implies is_plain_line(#[trigger] rest[i]) by {
            assert(rest[i] == lines[i + 1]);
        }
        lemma_lines_of_render(rest);
    }
}

/// Cuts a text into its lines.
pub fn split_lines(text: &str) -> (lines: Vec<String>)
    ensures
        lines.deep_view() == lines_of(text@),
{
    let mut lines: Vec<String> = Vec::new();
    let mut current = String::new();
    let mut held_cr = false;
    let ghost mut start: int = 0;
    proof {
        assert(text@.skip(0) == text@);
        assert(lines.deep_view() + lines_of(text@) == lines_of(text@));
    }
    for c in it: text.chars()
        invariant
            it.seq() == text@,
            0 <= start <= it.index(),
            forall|j: int| start <= j < it.index() ==> text@[j] != '\n',
            current@ + (if held_cr { seq!['\r'] } else { Seq::<char>::empty() })
                == text@.subrange(start, it.index()),
            !held_cr ==> current@.len() == 0 || current@.last() != '\r',
            lines_of(text@) == lines.deep_view() + lines_of(text@.skip(start)),
    {
        assert(c == text@[it.index()]);
        if c == '\n' {
            proof {
                let i = it.index();
                let rest = text@.skip(start);
                lemma_line_end(rest, i - start);
                assert(rest.take(i - start) == text@.subrange(start, i));
                assert(rest.skip(i - start + 1) == text@.skip(i + 1));
                assert(without_cr(text@.subrange(start, i)) == current@);
                assert(lines.deep_view().push(current@) + lines_of(text@.skip(i + 1))
                    == lines.deep_view() + lines_of(rest));
                start = i + 1;
            }
            lines.push(current);
            current = String::new();
            held_cr = false;
        } else {
            if held_cr {
                current.push('\r');
            }
            if c == '\r' {
                held_cr = true;
            } else {
                current.push(c);
                held_cr = false;
            }
        }
    }
    if held_cr {
        current.push('\r');
    }
    proof {
        let rest = text@.skip(start);
        assert(rest == current@);
        if rest.len() > 0 {
            lemma_line_end(rest, rest.len() as int);
        }
    }
    if !current.as_str().is_empty() {
        lines.push(current);
    }
    lines
}

/// Joins lines into one text, with a line feed between each two of them.
pub fn join_lines(lines: &Vec<String>) -> (text: String)
    ensures
        text@ == joined(lines.deep_view()),
{
    let mut text = String::new();
    let mut i: usize = 0;
    while i < lines.len()
        invariant
            i <= lines.len(),
            text@ == joined(lines.deep_view().take(i as int)),
        decreases lines.len() - i,
    {
        if i > 0 {
            text.push('\n');
        }
        text.append(lines[i].as_str());
        proof {
            let upto = lines.deep_view().take(i + 1);
            assert(upto.drop_last() == lines.deep_view().take(i as int));
        }
        i += 1;
    }
    assert(lines.deep_view().take(i as int) == lines.deep_view());
    text
}

} // verus!
