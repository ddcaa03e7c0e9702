//! Prompt intake: what is kept of a line that was read from the console.

use vstd::prelude::*;
use crate::chat::request_for;

verus! {

/// Whether `c` is white space: one of the code points that carry the Unicode
/// property White_Space. Line terminators are among them.
pub open spec fn is_whitespace(c: char) -> bool {
    let code = c as u32;
    ||| 0x09 <= code <= 0x0D
    ||| code == 0x20
    ||| code == 0x85
    ||| code == 0xA0
    ||| code == 0x1680
    ||| 0x2000 <= code <= 0x200A
    ||| code == 0x2028
    ||| code == 0x2029
    ||| code == 0x202F
    ||| code == 0x205F
    ||| code == 0x3000
}

/// Tells whether `c` is white space.
pub fn char_is_whitespace(c: char) -> (b: bool)
    ensures
        b == is_whitespace(c),
{
    let code: u32 = c as u32;
    (0x09 <= code && code <= 0x0D) || code == 0x20 || code == 0x85 || code == 0xA0 || code
        == 0x1680 || (0x2000 <= code && code <= 0x200A) || code == 0x2028 || code == 0x2029
        || code == 0x202F || code == 0x205F || code == 0x3000
}

/// Whether every character of `s` is white space.
pub open spec fn all_whitespace(s: Seq<char>) -> bool {
    forall|i: int| 0 <= i < s.len() ==> is_whitespace(#[trigger] s[i])
}

/// Whether `s` neither begins nor ends with white space.
pub open spec fn clean_ends(s: Seq<char>) -> bool {
    s.len() > 0 ==> !is_whitespace(s.first()) && !is_whitespace(s.last())
}

/// `s` without the white space that it begins with.
pub open spec fn without_leading_whitespace(s: Seq<char>) -> Seq<char>
    decreases s.len(),
{
    if s.len() > 0 && is_whitespace(s.first()) {
        without_leading_whitespace(s.drop_first())
    } else {
        s
    }
}

/// `s` without the white space that it ends with.
pub open spec fn without_trailing_whitespace(s: Seq<char>) -> Seq<char>
    decreases s.len(),
{
    if s.len() > 0 && is_whitespace(s.last()) {
        without_trailing_whitespace(s.drop_last())
    } else {
        s
    }
}

/// `s` without the white space at either end.
pub open spec fn trimmed(s: Seq<char>) -> Seq<char> {
    without_trailing_whitespace(without_leading_whitespace(s))
}

/// Turns a line that was read from the console into the prompt: the line
/// without the white space, line terminator included, at either end. Nothing
/// else is checked: the prompt may be empty, and of any length.
pub fn trim_prompt<'a>(line: &'a str) -> (prompt: &'a str)
    ensures
        prompt@ == trimmed(line@),
{
    let len = line.unicode_len();
    let mut start: usize = 0;
    assert(line@.subrange(0, len as int) =~= line@);
    while start < len && char_is_whitespace(line.get_char(start))
        invariant
            start <= len,
            len == line@.len(),
            without_leading_whitespace(line@) == without_leading_whitespace(
                line@.subrange(start as int, len as int),
            ),
        decreases len - start,
    {
        assert(line@.subrange(start as int, len as int).drop_first() =~= line@.subrange(
            start + 1,
            len as int,
        ));
        start += 1;
    }
    let mut end: usize = len;
    while end > start && char_is_whitespace(line.get_char(end - 1))
        invariant
            start <= end <= len,
            len == line@.len(),
            trimmed(line@) == without_trailing_whitespace(
                line@.subrange(start as int, end as int),
            ),
        decreases end - start,
    {
        assert(line@.subrange(start as int, end as int).drop_last() =~= line@.subrange(
            start as int,
            end - 1,
        ));
        end -= 1;
    }
    line.substring_char(start, end)
}

/// What `without_leading_whitespace` cuts: a run of white space at the front
/// of `s`, as long as it can be. The result is its length.
pub proof fn lemma_leading_whitespace_cut(s: Seq<char>) -> (cut: int)
    ensures
        0 <= cut <= s.len(),
        without_leading_whitespace(s) == s.subrange(cut, s.len() as int),
        all_whitespace(s.subrange(0, cut)),
        cut < s.len() ==> !is_whitespace(s[cut]),
    decreases s.len(),
{
    if s.len() > 0 && is_whitespace(s.first()) {
        let rest = s.drop_first();
        let inner = lemma_leading_whitespace_cut(rest);
        let cut = inner + 1;
        assert(rest.subrange(inner, rest.len() as int) =~= s.subrange(cut, s.len() as int));
        assert forall|i: int| 0 <= i < cut implies is_whitespace(
            #[trigger] s.subrange(0, cut)[i],
        ) by {
            if i > 0 {
                assert(s.subrange(0, cut)[i] == rest.subrange(0, inner)[i - 1]);
            }
        }
        cut
    } else {
        assert(s.subrange(0, s.len() as int) =~= s);
        0
    }
}

/// What `without_trailing_whitespace` keeps: `s` up to a run of white space
/// at its end, as long as it can be. The result is the length of what is kept.
pub proof fn lemma_trailing_whitespace_cut(s: Seq<char>) -> (kept: int)
    ensures
        0 <= kept <= s.len(),
        without_trailing_whitespace(s) == s.subrange(0, kept),
        all_whitespace(s.subrange(kept, s.len() as int)),
        kept > 0 ==> !is_whitespace(s[kept - 1]),
    decreases s.len(),
{
    if s.len() > 0 && is_whitespace(s.last()) {
        let rest = s.drop_last();
        let kept = lemma_trailing_whitespace_cut(rest);
        assert(rest.subrange(0, kept) =~= s.subrange(0, kept));
        assert forall|i: int| 0 <= i < s.len() - kept implies is_whitespace(
            #[trigger] s.subrange(kept, s.len() as int)[i],
        ) by {
            if i < rest.len() - kept {
                assert(s.subrange(kept, s.len() as int)[i] == rest.subrange(
                    kept,
                    rest.len() as int,
                )[i]);
            }
        }
        kept
    } else {
        assert(s.subrange(0, s.len() as int) =~= s);
        s.len() as int
    }
}

/// Trimming keeps one contiguous part of the text. What it cuts before and
/// after that part is white space, and the part neither begins nor ends with
/// white space. The result gives the bounds of the part.
pub proof fn lemma_trimmed_shape(s: Seq<char>) -> (bounds: (int, int))
    ensures
        0 <= bounds.0 <= bounds.1 <= s.len(),
        trimmed(s) == s.subrange(bounds.0, bounds.1),
        all_whitespace(s.subrange(0, bounds.0)),
        all_whitespace(s.subrange(bounds.1, s.len() as int)),
        clean_ends(trimmed(s)),
{
    let from = lemma_leading_whitespace_cut(s);
    let tail = s.subrange(from, s.len() as int);
    let kept = lemma_trailing_whitespace_cut(tail);
    let to = from + kept;
    assert(tail.subrange(0, kept) =~= s.subrange(from, to));
    assert(tail.subrange(kept, tail.len() as int) =~= s.subrange(to, s.len() as int));
    (from, to)
}

/// A text that neither begins nor ends with white space is kept as it is.
pub proof fn lemma_trimmed_keeps_clean_text(s: Seq<char>)
    requires
        clean_ends(s),
    ensures
        trimmed(s) == s,
{
}

/// White space before a text is cut together with the white space that the
/// text begins with.
proof fn lemma_leading_whitespace_absorbed(lead: Seq<char>, s: Seq<char>)
    requires
        all_whitespace(lead),
    ensures
        without_leading_whitespace(lead + s) == without_leading_whitespace(s),
    decreases lead.len(),
{
    if lead.len() > 0 {
        assert((lead + s).first() == lead.first());
        assert((lead + s).drop_first() =~= lead.drop_first() + s);
        lemma_leading_whitespace_absorbed(lead.drop_first(), s);
    } else {
        assert(lead + s =~= s);
    }
}

/// White space after a text is cut together with the white space that the
/// text ends with.
proof fn lemma_trailing_whitespace_absorbed(s: Seq<char>, trail: Seq<char>)
    requires
        all_whitespace(trail),
    ensures
        without_trailing_whitespace(s + trail) == without_trailing_whitespace(s),
    decreases trail.len(),
{
    if trail.len() > 0 {
        assert((s + trail).last() == trail.last());
        assert((s + trail).drop_last() =~= s + trail.drop_last());
        lemma_trailing_whitespace_absorbed(s, trail.drop_last());
    } else {
        assert(s + trail =~= s);
    }
}

/// Where a text holds more than white space, what follows it is out of the
/// reach of the cut at the front.
proof fn lemma_leading_cut_stops_in_text(s: Seq<char>, after: Seq<char>)
    requires
        without_leading_whitespace(s).len() > 0,
    ensures
        without_leading_whitespace(s + after) == without_leading_whitespace(s) + after,
    decreases s.len(),
{
    assert((s + after).first() == s.first());
    if is_whitespace(s.first()) {
        assert((s + after).drop_first() =~= s.drop_first() + after);
        lemma_leading_cut_stops_in_text(s.drop_first(), after);
    }
}

/// Leading and trailing white space does not reach the prompt: a text
/// trims to the same prompt with and without white space around it.
pub proof fn lemma_trimmed_ignores_surrounding_whitespace(
    lead: Seq<char>,
    s: Seq<char>,
    trail: Seq<char>,
)
    requires
        all_whitespace(lead),
        all_whitespace(trail),
    ensures
        trimmed(lead + s + trail) == trimmed(s),
{
    assert(lead + s + trail =~= lead + (s + trail));
    lemma_leading_whitespace_absorbed(lead, s + trail);
    if without_leading_whitespace(s).len() > 0 {
        lemma_leading_cut_stops_in_text(s, trail);
        lemma_trailing_whitespace_absorbed(without_leading_whitespace(s), trail);
    } else {
        let cut = lemma_leading_whitespace_cut(s);
        assert(s.subrange(0, cut) =~= s);
        let empty = Seq::<char>::empty();
        assert(s + trail + empty =~= s + trail);
        lemma_leading_whitespace_absorbed(s + trail, empty);
    }
}

/// Trimming twice is trimming once.
pub proof fn lemma_trimmed_idempotent(s: Seq<char>)
    ensures
        trimmed(trimmed(s)) == trimmed(s),
{
    let _ = lemma_trimmed_shape(s);
    lemma_trimmed_keeps_clean_text(trimmed(s));
}

/// The line terminator that a console leaves at the end of a line, a line
/// feed with or without a carriage return before it, does not reach the
/// prompt.
pub proof fn lemma_trimmed_drops_line_terminator(s: Seq<char>)
    ensures
        trimmed(s.push('\n')) == trimmed(s),
        trimmed(s.push('\r').push('\n')) == trimmed(s),
{
    let empty = Seq::<char>::empty();
    let feed = seq!['\n'];
    let both = seq!['\r', '\n'];
    lemma_trimmed_ignores_surrounding_whitespace(empty, s, feed);
    lemma_trimmed_ignores_surrounding_whitespace(empty, s, both);
    assert(empty + s + feed =~= s.push('\n'));
    assert(empty + s + both =~= s.push('\r').push('\n'));
}

/// What reaches the service of a line from the console: the request for the
/// line's prompt carries, as the content of the user's message, the text of
/// the line without the white space around it.
pub proof fn lemma_request_carries_trimmed_line(
    lead: Seq<char>,
    text: Seq<char>,
    trail: Seq<char>,
)
    requires
        all_whitespace(lead),
        all_whitespace(trail),
        clean_ends(text),
    ensures
        request_for(trimmed(lead + text + trail)).messages[1].content == text,
{
    lemma_trimmed_ignores_surrounding_whitespace(lead, text, trail);
    lemma_trimmed_keeps_clean_text(text);
}

} // verus!
