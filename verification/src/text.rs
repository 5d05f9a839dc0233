//! Sequences of characters: white space and trimming, lower case, and joining
//! parts with a separator.

use vstd::prelude::*;
use vstd::string::StrSliceExecFns;

verus! {

/// Whether `c` has the Unicode property `White_Space`. The property is a table
/// of code points that the standard library carries; here it has a name only.
pub uninterp spec fn white_space(c: char) -> bool;

/// `char::is_whitespace` of the standard library, which is documented to return
/// `true` exactly for the characters with the `White_Space` property. Trusted:
/// the result is the property named [`white_space`].
#[verifier::external_body]
fn is_whitespace(c: char) -> (b: bool)
    ensures
        b == white_space(c),
{
    c.is_whitespace()
}

/// `s` without its longest prefix of white space.
pub open spec fn trim_start(s: Seq<char>) -> Seq<char>
    decreases s.len(),
{
    if s.len() > 0 && white_space(s.first()) {
        trim_start(s.drop_first())
    } else {
        s
    }
}

/// `s` without its longest suffix of white space.
pub open spec fn trim_end(s: Seq<char>) -> Seq<char>
    decreases s.len(),
{
    if s.len() > 0 && white_space(s.last()) {
        trim_end(s.drop_last())
    } else {
        s
    }
}

/// `s` without leading and trailing white space.
pub open spec fn trimmed(s: Seq<char>) -> Seq<char> {
    trim_end(trim_start(s))
}

/// `c` in lower case, where `c` is a capital letter of the basic Latin
/// alphabet; any other character is left as it is.
pub open spec fn lower_case(c: char) -> char {
    if 'A' <= c && c <= 'Z' {
        ((c as u8) + 32) as char
    } else {
        c
    }
}

/// `s` with its capital letters of the basic Latin alphabet in lower case.
pub open spec fn in_lower_case(s: Seq<char>) -> Seq<char> {
    s.map_values(|c: char| lower_case(c))
}

/// Whether `s.subrange(i, j)` is `s` with white space taken from both ends
/// and from nowhere else: what stands before `i` and from `j` on is white
/// space, and what is left, if anything, begins and ends with a character
/// that is not.
pub open spec fn is_trimmed_at(s: Seq<char>, i: int, j: int) -> bool {
    &&& 0 <= i <= j <= s.len()
    &&& forall|k: int| 0 <= k < i ==> white_space(#[trigger] s[k])
    &&& forall|k: int| j <= k < s.len() ==> white_space(#[trigger] s[k])
    &&& i < j ==> !white_space(s[i]) && !white_space(s[j - 1])
}

/// What [`trim_start`] leaves is a suffix of `s`; what it takes is white
/// space, and it takes all there is in front.
pub proof fn lemma_trim_start_is_a_suffix(s: Seq<char>) -> (i: int)
    ensures
        0 <= i <= s.len(),
        trim_start(s) == s.skip(i),
        forall|k: int| 0 <= k < i ==> white_space(#[trigger] s[k]),
        i < s.len() ==> !white_space(s[i]),
    decreases s.len(),
{
    if s.len() > 0 && white_space(s.first()) {
        let rest = s.drop_first();
        let i = lemma_trim_start_is_a_suffix(rest);
        assert forall|k: int| 0 < k < i + 1 implies white_space(#[trigger] s[k]) by {
            assert(s[k] == rest[k - 1]);
        }
        i + 1
    } else {
        0
    }
}

/// What [`trim_end`] leaves is a prefix of `s`; what it takes is white space,
/// and it takes all there is at the end.
pub proof fn lemma_trim_end_is_a_prefix(s: Seq<char>) -> (j: int)
    ensures
        0 <= j <= s.len(),
        trim_end(s) == s.take(j),
        forall|k: int| j <= k < s.len() ==> white_space(#[trigger] s[k]),
        0 < j ==> !white_space(s[j - 1]),
    decreases s.len(),
{
    if s.len() > 0 && white_space(s.last()) {
        let rest = s.drop_last();
        let j = lemma_trim_end_is_a_prefix(rest);
        assert forall|k: int| j <= k < rest.len() implies white_space(#[trigger] s[k]) by {
            assert(s[k] == rest[k]);
        }
        j
    } else {
        s.len() as int
    }
}

/// Trimming takes white space from both ends and from nowhere else, and
/// leaves none at either end.
pub proof fn lemma_trimmed_is_trimmed(s: Seq<char>) -> (bounds: (int, int))
    ensures
        is_trimmed_at(s, bounds.0, bounds.1),
        trimmed(s) == s.subrange(bounds.0, bounds.1),
{
    let i = lemma_trim_start_is_a_suffix(s);
    let tail = s.skip(i);
    let j = lemma_trim_end_is_a_prefix(tail);
    assert forall|k: int| i + j <= k < s.len() implies white_space(#[trigger] s[k]) by {
        assert(s[k] == tail[k - i]);
    }
    (i, i + j)
}

/// There is one way to trim: whatever bounds take white space from both ends
/// and leave none there, they leave what [`trimmed`] leaves.
pub proof fn lemma_trimmed_is_unique(s: Seq<char>, i: int, j: int)
    requires
        is_trimmed_at(s, i, j),
    ensures
        s.subrange(i, j) == trimmed(s),
{
    // Where something is left, it begins and ends with a character that is
    // not white space, and neither trimming can begin or end beyond such a
    // character; where nothing is left, everything is white space.
    let (a, b) = lemma_trimmed_is_trimmed(s);
    assert(i < j ==> a == i && b == j);
    assert(i == j ==> a == b);
}

/// The parts in order, with `sep` between each two neighbours and nowhere else.
pub open spec fn join(parts: Seq<Seq<char>>, sep: Seq<char>) -> Seq<char>
    decreases parts.len(),
{
    if parts.len() == 0 {
        Seq::empty()
    } else if parts.len() == 1 {
        parts[0]
    } else {
        join(parts.drop_last(), sep) + sep + parts.last()
    }
}

/// Where part `k` begins in [`join`]`(parts, sep)`: behind the parts before it
/// and one separator for each of them.
pub open spec fn part_offset(parts: Seq<Seq<char>>, sep: Seq<char>, k: int) -> int
    decreases k,
{
    if k <= 0 {
        0
    } else {
        part_offset(parts, sep, k - 1) + parts[k - 1].len() + sep.len()
    }
}

/// Joining one more part appends the separator and the part, or the part
/// alone where it is the first.
pub proof fn lemma_join_push(parts: Seq<Seq<char>>, sep: Seq<char>, part: Seq<char>)
    ensures
        join(parts.push(part), sep) == if parts.len() == 0 {
            part
        } else {
            join(parts, sep) + sep + part
        },
{
    assert(parts.push(part).drop_last() =~= parts);
}

/// The length of a join: the parts' lengths and one separator between each
/// two neighbours.
pub proof fn lemma_join_len(parts: Seq<Seq<char>>, sep: Seq<char>)
    ensures
        join(parts, sep).len() == if parts.len() == 0 {
            0
        } else {
            part_offset(parts, sep, parts.len() - 1) + parts.last().len()
        },
    decreases parts.len(),
{
    if parts.len() > 1 {
        let front = parts.drop_last();
        lemma_join_len(front, sep);
        lemma_part_offset_of_prefix(parts, front, sep, parts.len() - 2);
    }
}

/// The offset of a part depends on the parts before it alone.
pub proof fn lemma_part_offset_of_prefix(
    parts: Seq<Seq<char>>,
    prefix: Seq<Seq<char>>,
    sep: Seq<char>,
    k: int,
)
    requires
        0 <= k <= prefix.len() <= parts.len(),
        forall|j: int| 0 <= j < prefix.len() ==> prefix[j] == parts[j],
    ensures
        part_offset(prefix, sep, k) == part_offset(parts, sep, k),
    decreases k,
{
    if k > 0 {
        lemma_part_offset_of_prefix(parts, prefix, sep, k - 1);
    }
}

/// A join holds every part verbatim and in order: part `k` stands at
/// [`part_offset`]`(parts, sep, k)`, and between it and the next part stands
/// the separator, once.
pub proof fn lemma_join_places_parts(parts: Seq<Seq<char>>, sep: Seq<char>, k: int)
    requires
        0 <= k < parts.len(),
    ensures
        0 <= part_offset(parts, sep, k),
        part_offset(parts, sep, k) + parts[k].len() <= join(parts, sep).len(),
        join(parts, sep).subrange(
            part_offset(parts, sep, k),
            part_offset(parts, sep, k) + parts[k].len(),
        ) == parts[k],
        k + 1 < parts.len() ==> {
            &&& part_offset(parts, sep, k + 1) == part_offset(parts, sep, k) + parts[k].len()
                + sep.len()
            &&& part_offset(parts, sep, k + 1) <= join(parts, sep).len()
            &&& join(parts, sep).subrange(
                part_offset(parts, sep, k) + parts[k].len(),
                part_offset(parts, sep, k + 1),
            ) == sep
        },
        k + 1 == parts.len() ==> part_offset(parts, sep, k) + parts[k].len() == join(
            parts,
            sep,
        ).len(),
    decreases parts.len(),
{
    lemma_part_offset_is_not_negative(parts, sep, k);
    lemma_join_len(parts, sep);
    if parts.len() > 1 {
        // The join of all parts is the join of all but the last, then the
        // separator, then the last part. A part that is not the last stands
        // in the first of the three, where induction finds it.
        let front = parts.drop_last();
        lemma_join_len(front, sep);
        lemma_part_offset_of_prefix(parts, front, sep, parts.len() - 2);
        if k + 1 < parts.len() {
            lemma_join_places_parts(front, sep, k);
            lemma_part_offset_of_prefix(parts, front, sep, k);
            if k + 2 < parts.len() {
                lemma_part_offset_of_prefix(parts, front, sep, k + 1);
            }
        }
    }
}

/// Offsets are not negative.
pub proof fn lemma_part_offset_is_not_negative(parts: Seq<Seq<char>>, sep: Seq<char>, k: int)
    ensures
        0 <= part_offset(parts, sep, k),
    decreases k,
{
    if k > 0 {
        lemma_part_offset_is_not_negative(parts, sep, k - 1);
    }
}

/// Removes leading and trailing white space from `s`.
pub fn trim(s: &str) -> (t: &str)
    ensures
        t@ == trimmed(s@),
{
    let n: usize = s.unicode_len();
    let mut start: usize = 0;
    assert(s@.skip(0) =~= s@);
    while start < n && is_whitespace(s.get_char(start))
        invariant
            n == s@.len(),
            start <= n,
            trim_start(s@) == trim_start(s@.skip(start as int)),
        decreases n - start,
    {
        assert(s@.skip(start as int).drop_first() =~= s@.skip(start as int + 1));
        start = start + 1;
    }
    let mut end: usize = n;
    while end > start && is_whitespace(s.get_char(end - 1))
        invariant
            n == s@.len(),
            start <= end <= n,
            trim_start(s@) == s@.skip(start as int),
            trimmed(s@) == trim_end(s@.subrange(start as int, end as int)),
        decreases end - start,
    {
        assert(s@.subrange(start as int, end as int).drop_last() =~= s@.subrange(
            start as int,
            end as int - 1,
        ));
        end = end - 1;
    }
    s.substring_char(start, end)
}

} // verus!
