//! Text that crosses the boundary to the engine and to the log: decoding the
//! bytes of an engine string, joining the pieces of a line, and keeping a
//! record of the log on one line.

use std::collections::VecDeque;
use vstd::prelude::*;
use vstd::std_specs::iter::IteratorSpec;
use vstd::utf8::{decode_utf8, valid_utf8};

verus! {

/// The texts of a sequence of strings.
pub open spec fn texts(parts: Seq<String>) -> Seq<Seq<char>> {
    Seq::new(parts.len(), |i: int| parts[i]@)
}

/// The parts in their order, with `sep` between each two neighbours.
pub open spec fn joined(parts: Seq<Seq<char>>, sep: Seq<char>) -> Seq<char>
    decreases parts.len(),
{
    if parts.len() == 0 {
        Seq::empty()
    } else if parts.len() == 1 {
        parts[0]
    } else {
        joined(parts.drop_last(), sep) + sep + parts.last()
    }
}

/// The text that lossy decoding makes of `bytes`: their decoding as UTF-8,
/// with each ill-formed stretch replaced by U+FFFD.
pub uninterp spec fn lossy_text(bytes: Seq<u8>) -> Seq<char>;

/// Decodes the bytes of an engine string with `String::from_utf8_lossy`.
///
/// Trusted: the result is a function of the bytes alone, named
/// [`lossy_text`]; for well-formed UTF-8 it is the decoding of the bytes, as
/// the standard library documents. How ill-formed stretches are replaced is
/// not stated here.
#[verifier::external_body]
pub(crate) fn from_utf8_lossy(bytes: &Vec<u8>) -> (text: String)
    ensures
        text@ == lossy_text(bytes@),
        valid_utf8(bytes@) ==> text@ == decode_utf8(bytes@),
{
    String::from_utf8_lossy(bytes).into_owned()
}

/// Joins the parts of a line with `itertools::Itertools::join`.
///
/// Trusted: an empty sequence gives the empty string; otherwise the result
/// is the first part followed, for each further part in order, by `sep` and
/// that part. Each part is written by its `Display`, which for a `String` is
/// its text.
#[verifier::external_body]
pub(crate) fn join(parts: &VecDeque<String>, sep: &str) -> (line: String)
    ensures
        line@ == joined(texts(parts@), sep@),
{
    itertools::Itertools::join(&mut parts.iter(), sep)
}

/// Whether a character ends a line.
pub open spec fn is_line_break(c: char) -> bool {
    c == '\n' || c == '\r'
}

/// `text` with a space in place of each line break.
pub open spec fn one_line(text: Seq<char>) -> Seq<char> {
    Seq::new(
        text.len(),
        |i: int|
            if is_line_break(text[i]) {
                ' '
            } else {
                text[i]
            },
    )
}

/// Whether `text` holds no line break.
pub open spec fn single_line(text: Seq<char>) -> bool {
    forall|i: int| 0 <= i < text.len() ==> !is_line_break(#[trigger] text[i])
}

/// Appends `text` to `record` with a space in place of each line break, so
/// that a record of one line stays one.
pub fn append_one_line(record: &mut String, text: &str)
    ensures
        final(record)@ == old(record)@ + one_line(text@),
        single_line(old(record)@) ==> single_line(final(record)@),
{
    let length = text.unicode_len();
    let mut chars = text.chars();
    let mut start: usize = 0;
    let mut at: usize = 0;
    assert(record@ =~= old(record)@ + one_line(text@.subrange(0, 0)));
    loop
        invariant
            length == text@.len(),
            0 <= start <= at <= length,
            chars.obeys_prophetic_iter_laws(),
            chars.remaining() == text@.skip(at as int),
            record@ == old(record)@ + one_line(text@.subrange(0, start as int)),
            forall|j: int| start <= j < at ==> !is_line_break(#[trigger] text@[j]),
        decreases length - at,
    {
        match chars.next() {
            Some(c) => {
                assert(c == text@[at as int]);
                assert(text@.skip(at as int).drop_first() =~= text@.skip(at + 1));
                if c == '\n' || c == '\r' {
                    record.append(text.substring_char(start, at));
                    record.append(" ");
                    proof {
                        reveal_strlit(" ");
                        assert(one_line(text@.subrange(0, at + 1)) =~= one_line(
                            text@.subrange(0, start as int),
                        ) + text@.subrange(start as int, at as int) + " "@);
                    }
                    start = at + 1;
                }
                at = at + 1;
            },
            None => {
                record.append(text.substring_char(start, at));
                proof {
                    assert(text@.subrange(0, at as int) =~= text@);
                    assert(one_line(text@) =~= one_line(text@.subrange(0, start as int))
                        + text@.subrange(start as int, at as int));
                    if single_line(old(record)@) {
                        assert forall|i: int| 0 <= i < record@.len() implies !is_line_break(
                            #[trigger] record@[i],
                        ) by {
                            if i >= old(record)@.len() {
                                assert(record@[i] == one_line(text@)[i - old(record)@.len()]);
                            }
                        }
                    }
                }
                return ;
            },
        }
    }
}

} // verus!
