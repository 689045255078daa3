use vstd::prelude::*;
use vstd::std_specs::iter::IteratorSpec;

verus! {

/// A line without the carriage return that may end it.
pub open spec fn strip_cr(line: Seq<char>) -> Seq<char> {
    if line.len() > 0 && line.last() == '\r' {
        line.drop_last()
    } else {
        line
    }
}

/// The lines of `text` from position `i` on, where the line that is being
/// read began at `start`. A line ends at a line feed; the carriage return
/// before the line feed is not part of it. What follows the last line feed
/// is a line of its own unless it is empty.
pub open spec fn lines_scan(text: Seq<char>, start: int, i: int) -> Seq<Seq<char>>
    decreases text.len() - i,
{
    if i >= text.len() {
        if start < text.len() {
            seq![text.subrange(start, text.len() as int)]
        } else {
            Seq::empty()
        }
    } else if text[i] == '\n' {
        seq![strip_cr(text.subrange(start, i))] + lines_scan(text, i + 1, i + 1)
    } else {
        lines_scan(text, start, i + 1)
    }
}

/// The lines of a text, in order.
pub open spec fn lines_of(text: Seq<char>) -> Seq<Seq<char>> {
    lines_scan(text, 0, 0)
}

/// The words of a list as sequences of characters.
pub open spec fn word_views(words: Seq<String>) -> Seq<Seq<char>> {
    words.map_values(|w: String| w@)
}

/// The carriage return that is held back until the next character is seen.
pub open spec fn held_back(pending: bool) -> Seq<char> {
    if pending {
        seq!['\r']
    } else {
        Seq::empty()
    }
}

/// `String::push`: appends one character to the string.
#[verifier::external_body]
pub(crate) fn push_char(text: &mut String, ch: char)
    ensures
        final(text)@ == old(text)@.push(ch),
{
    text.push(ch)
}

/// Splits the contents of a word list into its words, one per line. Nothing
/// but the line ending is taken off a line, and empty lines stay.
pub fn parse_word_list(text: &str) -> (words: Vec<String>)
    ensures
        word_views(words@) == lines_of(text@),
{
    broadcast use {vstd::string::axiom_spec_iter, vstd::string::next_postcondition};

    let mut rest = text.chars();
    let mut words: Vec<String> = Vec::new();
    let mut line: String = String::new();
    let mut pending: bool = false;
    let ghost mut start: int = 0;
    let ghost mut i: int = 0;
    assert(word_views(words@) =~= Seq::<Seq<char>>::empty());
    assert(text@.subrange(0, text@.len() as int) =~= text@);
    loop
        invariant
            0 <= start <= i <= text@.len(),
            rest.obeys_prophetic_iter_laws(),
            rest.remaining() == text@.subrange(i, text@.len() as int),
            line@ + held_back(pending) == text@.subrange(start, i),
            !pending && line@.len() > 0 ==> line@.last() != '\r',
            word_views(words@) + lines_scan(text@, start, i) == lines_of(text@),
        decreases text@.len() - i,
    {
        let ghost before = word_views(words@);
        let ghost read = text@.subrange(start, i);
        match rest.next() {
            None => {
                assert(i == text@.len());
                if pending {
                    push_char(&mut line, '\r');
                }
                assert(line@ =~= read);
                if !line.as_str().is_empty() {
                    words.push(line);
                    assert(word_views(words@) =~= before + seq![read]);
                } else {
                    assert(before + Seq::<Seq<char>>::empty() =~= before);
                }
                return words;
            },
            Some(ch) => {
                assert(i < text@.len() && ch == text@[i]);
                assert(text@.subrange(i, text@.len() as int).drop_first() =~= text@.subrange(
                    i + 1,
                    text@.len() as int,
                ));
                assert(text@.subrange(start, i + 1) =~= read.push(ch));
                if ch == '\n' {
                    assert(strip_cr(read) =~= line@);
                    words.push(line);
                    assert(word_views(words@) =~= before + seq![strip_cr(read)]);
                    assert(before + (seq![strip_cr(read)] + lines_scan(text@, i + 1, i + 1)) =~= (
                    before + seq![strip_cr(read)]) + lines_scan(text@, i + 1, i + 1));
                    line = String::new();
                    pending = false;
                    proof {
                        start = i + 1;
                        assert(text@.subrange(start, start) =~= Seq::<char>::empty());
                    }
                } else {
                    if pending {
                        push_char(&mut line, '\r');
                    }
                    if ch == '\r' {
                        pending = true;
                    } else {
                        push_char(&mut line, ch);
                        pending = false;
                    }
                    assert(line@ + held_back(pending) =~= read.push(ch));
                }
                proof {
                    i = i + 1;
                }
            },
        }
    }
}

} // verus!
