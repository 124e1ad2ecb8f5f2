//! Verified helpers over the characters of a string: comparison, prefixes,
//! splitting at a separator, and trimming of white space.

use vstd::prelude::*;
use vstd::string::*;
use crate::trusted::{char_is_whitespace, is_whitespace};

verus! {

/// The view of an optional string.
pub open spec fn opt_chars(s: Option<String>) -> Option<Seq<char>> {
    match s {
        Some(s) => Some(s@),
        None => None,
    }
}

/// The views of a list of strings, in order.
pub open spec fn lines_of(v: Seq<String>) -> Seq<Seq<char>> {
    v.map_values(|s: String| s@)
}

/// Whether `s` begins with `prefix`.
pub open spec fn starts_with(s: Seq<char>, prefix: Seq<char>) -> bool {
    prefix.len() <= s.len() && s.take(prefix.len() as int) == prefix
}

/// What follows `prefix` in `s`, where `s` begins with it. The prefix is
/// taken off once.
pub open spec fn after_prefix(s: Seq<char>, prefix: Seq<char>) -> Option<Seq<char>> {
    if starts_with(s, prefix) {
        Some(s.skip(prefix.len() as int))
    } else {
        None
    }
}

/// `s` without its leading occurrences of `c`.
pub open spec fn strip_leading(s: Seq<char>, c: char) -> Seq<char>
    decreases s.len(),
{
    if s.len() > 0 && s[0] == c {
        strip_leading(s.drop_first(), c)
    } else {
        s
    }
}

/// The position of the first `c` in `s`, or the length of `s` if there is none.
pub open spec fn position_of(s: Seq<char>, c: char) -> nat
    decreases s.len(),
{
    if s.len() == 0 || s[0] == c {
        0
    } else {
        1 + position_of(s.drop_first(), c)
    }
}

/// The pieces of `s` between occurrences of `sep`. There is always at least
/// one piece; an empty text has one empty piece.
pub open spec fn split_on(s: Seq<char>, sep: char) -> Seq<Seq<char>>
    decreases s.len(),
{
    let i = position_of(s, sep);
    if i < s.len() {
        seq![s.take(i as int)] + split_on(s.skip(i as int + 1), sep)
    } else {
        seq![s]
    }
}

/// `s` without its leading white space.
pub open spec fn trim_start(s: Seq<char>) -> Seq<char>
    decreases s.len(),
{
    if s.len() > 0 && is_whitespace(s[0]) {
        trim_start(s.drop_first())
    } else {
        s
    }
}

/// `s` without its trailing white space.
pub open spec fn trim_end(s: Seq<char>) -> Seq<char>
    decreases s.len(),
{
    if s.len() > 0 && is_whitespace(s.last()) {
        trim_end(s.drop_last())
    } else {
        s
    }
}

/// `s` without leading and trailing white space.
pub open spec fn trimmed(s: Seq<char>) -> Seq<char> {
    trim_end(trim_start(s))
}

/// Each piece of `s` between commas, trimmed.
pub open spec fn comma_list(s: Seq<char>) -> Seq<Seq<char>> {
    split_on(s, ',').map_values(|piece: Seq<char>| trimmed(piece))
}

/// Stripping the leading `c`s of a text that begins with `n` of them and
/// then continues with another character, or ends, leaves the rest.
pub proof fn lemma_strip_leading(s: Seq<char>, c: char, n: int)
    requires
        0 <= n <= s.len(),
        forall|i: int| 0 <= i < n ==> s[i] == c,
        n < s.len() ==> s[n] != c,
    ensures
        strip_leading(s, c) == s.skip(n),
    decreases n,
{
    if n == 0 {
        assert(s.skip(0) == s);
    } else {
        lemma_strip_leading(s.drop_first(), c, n - 1);
        assert(s.drop_first().skip(n - 1) == s.skip(n));
    }
}

/// The first `c` of a text is where a `c` stands with none before it; where
/// there is none at all, the position is the length.
pub proof fn lemma_position_of(s: Seq<char>, c: char, n: int)
    requires
        0 <= n <= s.len(),
        forall|i: int| 0 <= i < n ==> s[i] != c,
        n < s.len() ==> s[n] == c,
    ensures
        position_of(s, c) == n,
    decreases n,
{
    if n > 0 {
        lemma_position_of(s.drop_first(), c, n - 1);
    }
}

/// Trimming the start of a text whose first `n` characters are white space
/// and whose next one, if any, is not.
pub proof fn lemma_trim_start(s: Seq<char>, n: int)
    requires
        0 <= n <= s.len(),
        forall|i: int| 0 <= i < n ==> is_whitespace(#[trigger] s[i]),
        n < s.len() ==> !is_whitespace(s[n]),
    ensures
        trim_start(s) == s.skip(n),
    decreases n,
{
    if n == 0 {
        assert(s.skip(0) == s);
    } else {
        assert(is_whitespace(s[0]));
        let rest = s.drop_first();
        assert forall|i: int| 0 <= i < n - 1 implies is_whitespace(#[trigger] rest[i]) by {
            assert(rest[i] == s[i + 1]);
        }
        lemma_trim_start(rest, n - 1);
        assert(rest.skip(n - 1) == s.skip(n));
    }
}

/// Trimming the end of a text whose characters from `n` on are white space
/// and whose character before `n`, if any, is not.
pub proof fn lemma_trim_end(s: Seq<char>, n: int)
    requires
        0 <= n <= s.len(),
        forall|i: int| n <= i < s.len() ==> is_whitespace(#[trigger] s[i]),
        0 < n ==> !is_whitespace(s[n - 1]),
    ensures
        trim_end(s) == s.take(n),
    decreases s.len() - n,
{
    if n == s.len() {
        assert(s.take(n) == s);
    } else {
        assert(is_whitespace(s[s.len() - 1]));
        let rest = s.drop_last();
        assert forall|i: int| n <= i < rest.len() implies is_whitespace(#[trigger] rest[i]) by {
            assert(rest[i] == s[i]);
        }
        lemma_trim_end(rest, n);
        assert(rest.take(n) == s.take(n));
    }
}

/// A text that neither begins nor ends with white space is its own trimmed
/// form.
pub proof fn lemma_trimmed_plain(s: Seq<char>)
    requires
        s.len() > 0 ==> !is_whitespace(s[0]) && !is_whitespace(s.last()),
    ensures
        trimmed(s) == s,
{
}

/// A text without the separator is a single piece.
pub proof fn lemma_split_single(s: Seq<char>, sep: char)
    requires
        forall|i: int| 0 <= i < s.len() ==> s[i] != sep,
    ensures
        split_on(s, sep) == seq![s],
{
    lemma_position_of(s, sep, s.len() as int);
}

/// A text with the separator at `n`, and nowhere before, is the piece before
/// `n` followed by the pieces of what comes after.
pub proof fn lemma_split_at(s: Seq<char>, sep: char, n: int)
    requires
        0 <= n < s.len(),
        s[n] == sep,
        forall|i: int| 0 <= i < n ==> s[i] != sep,
    ensures
        split_on(s, sep) == seq![s.take(n)] + split_on(s.skip(n + 1), sep),
{
    lemma_position_of(s, sep, n);
}

/// A text without a comma that neither begins nor ends with white space is
/// a list of one entry, itself.
pub proof fn lemma_single_entry_list(s: Seq<char>)
    requires
        forall|i: int| 0 <= i < s.len() ==> s[i] != ',',
        s.len() > 0 ==> !is_whitespace(s[0]) && !is_whitespace(s.last()),
    ensures
        comma_list(s) == seq![s],
{
    lemma_split_single(s, ',');
    lemma_trimmed_plain(s);
    let f = |piece: Seq<char>| trimmed(piece);
    assert(seq![s].map_values(f) == seq![trimmed(s)]);
}

/// The list `*` has the wild card as its only entry.
pub proof fn lemma_wildcard_list()
    ensures
        comma_list("*"@) == seq!["*"@],
{
    reveal_strlit("*");
    lemma_single_entry_list("*"@);
}

/// Two entries with a comma between them, and any white space behind the
/// comma, make a list of those two entries: `image/png, image/jpeg` lists
/// `image/png` and `image/jpeg`.
pub proof fn lemma_two_entry_list(first: Seq<char>, gap: Seq<char>, second: Seq<char>)
    requires
        forall|i: int| 0 <= i < first.len() ==> first[i] != ',',
        forall|i: int| 0 <= i < second.len() ==> second[i] != ',',
        forall|i: int| 0 <= i < gap.len() ==> is_whitespace(#[trigger] gap[i]),
        first.len() > 0 ==> !is_whitespace(first[0]) && !is_whitespace(first.last()),
        second.len() > 0,
        !is_whitespace(second[0]),
        !is_whitespace(second.last()),
    ensures
        comma_list(first + seq![','] + gap + second) == seq![first, second],
{
    let list = first + seq![','] + gap + second;
    let n = first.len() as int;
    let rest = gap + second;
    assert(list[n] == ',');
    assert(list.take(n) == first);
    assert(list.skip(n + 1) == rest);
    lemma_split_at(list, ',', n);
    assert forall|i: int| 0 <= i < rest.len() implies rest[i] != ',' by {
        if i < gap.len() {
            assert(is_whitespace(gap[i]));
        }
    }
    lemma_split_single(rest, ',');
    lemma_trimmed_plain(first);
    lemma_trim_start(rest, gap.len() as int);
    assert(rest.skip(gap.len() as int) == second);
    lemma_trim_end(second, second.len() as int);
    assert(second.take(second.len() as int) == second);
    let f = |piece: Seq<char>| trimmed(piece);
    assert(split_on(list, ',') == seq![first, rest]);
    assert(seq![first, rest].map_values(f) == seq![trimmed(first), trimmed(rest)]);
}

/// The characters of `s`, in order.
pub fn chars_of(s: &str) -> (v: Vec<char>)
    ensures
        v@ == s@,
{
    let mut v: Vec<char> = Vec::new();
    for c in it: s.chars()
        invariant
            v@ == it.seq().take(it.index() as int),
            it.seq() == s@,
    {
        v.push(c);
    }
    v
}

/// Whether two string slices hold the same characters.
pub fn str_eq(a: &str, b: &str) -> (r: bool)
    ensures
        r == (a@ == b@),
{
    a.to_owned() == b.to_owned()
}

/// The characters of `s` from position `from` up to, not including, `to`.
pub fn slice_of(s: &str, from: usize, to: usize) -> (r: String)
    requires
        from <= to <= s@.len(),
    ensures
        r@ == s@.subrange(from as int, to as int),
{
    s.substring_char(from, to).to_owned()
}

/// Whether the characters of `v` from position `at` on begin with `prefix`.
pub fn has_prefix_at(v: &Vec<char>, at: usize, prefix: &Vec<char>) -> (r: bool)
    requires
        at <= v@.len(),
    ensures
        r == starts_with(v@.skip(at as int), prefix@),
{
    if prefix.len() > v.len() - at {
        return false;
    }
    let mut i: usize = 0;
    while i < prefix.len()
        invariant
            at + prefix.len() <= v.len(),
            i <= prefix.len(),
            forall|j: int| 0 <= j < i ==> v@[at + j] == prefix@[j],
        decreases prefix@.len() - i,
    {
        if v[at + i] != prefix[i] {
            proof {
                let taken = v@.skip(at as int).take(prefix@.len() as int);
                assert(taken[i as int] == v@[at + i]);
            }
            return false;
        }
        i += 1;
    }
    proof {
        let taken = v@.skip(at as int).take(prefix@.len() as int);
        assert(taken =~= prefix@);
    }
    true
}

/// What follows `prefix` in `s`, where `s` begins with it.
pub fn strip_prefix(s: &str, prefix: &str) -> (rest: Option<String>)
    ensures
        opt_chars(rest) == after_prefix(s@, prefix@),
{
    let v = chars_of(s);
    let p = chars_of(prefix);
    proof {
        assert(v@.skip(0) == v@);
    }
    if has_prefix_at(&v, 0, &p) {
        proof {
            assert(s@.subrange(p@.len() as int, s@.len() as int) == s@.skip(p@.len() as int));
        }
        Some(slice_of(s, p.len(), v.len()))
    } else {
        None
    }
}

/// `s` without its leading occurrences of `c`.
pub fn strip_leading_char(s: &str, c: char) -> (r: String)
    ensures
        r@ == strip_leading(s@, c),
{
    let v = chars_of(s);
    let mut n: usize = 0;
    while n < v.len() && v[n] == c
        invariant
            n <= v@.len(),
            forall|i: int| 0 <= i < n ==> v@[i] == c,
        decreases v@.len() - n,
    {
        n += 1;
    }
    proof {
        lemma_strip_leading(s@, c, n as int);
        assert(s@.subrange(n as int, s@.len() as int) == s@.skip(n as int));
    }
    slice_of(s, n, v.len())
}

/// `s` without leading and trailing white space.
pub fn trim(s: &str) -> (r: String)
    ensures
        r@ == trimmed(s@),
{
    let v = chars_of(s);
    let mut from: usize = 0;
    while from < v.len() && char_is_whitespace(v[from])
        invariant
            from <= v@.len(),
            forall|i: int| 0 <= i < from ==> is_whitespace(#[trigger] v@[i]),
        decreases v@.len() - from,
    {
        from += 1;
    }
    let mut to: usize = v.len();
    while to > from && char_is_whitespace(v[to - 1])
        invariant
            from <= to <= v@.len(),
            forall|i: int| to <= i < v@.len() ==> is_whitespace(#[trigger] v@[i]),
        decreases to,
    {
        to -= 1;
    }
    proof {
        lemma_trim_start(s@, from as int);
        let rest = s@.skip(from as int);
        assert forall|i: int| to - from <= i < rest.len() implies is_whitespace(
            #[trigger] rest[i],
        ) by {
            assert(rest[i] == v@[from + i]);
        }
        if to > from {
            assert(rest[to - from - 1] == v@[to - 1]);
        }
        lemma_trim_end(rest, to - from);
        assert(rest.take(to - from) == s@.subrange(from as int, to as int));
    }
    slice_of(s, from, to)
}

/// The pieces of `s` between commas, each trimmed.
pub fn split_commas_trimmed(s: &str) -> (pieces: Vec<String>)
    ensures
        lines_of(pieces@) == comma_list(s@),
{
    let v = chars_of(s);
    let mut pieces: Vec<String> = Vec::new();
    let mut start: usize = 0;
    let mut i: usize = 0;
    proof {
        assert(s@.skip(0) == s@);
        assert(lines_of(pieces@) + comma_list(s@) == comma_list(s@));
    }
    while i < v.len()
        invariant
            v@ == s@,
            start <= i <= v@.len(),
            forall|j: int| start <= j < i ==> v@[j] != ',',
            comma_list(s@) == lines_of(pieces@) + comma_list(s@.skip(start as int)),
        decreases v@.len() - i,
    {
        if v[i] == ',' {
            let piece = slice_of(s, start, i);
            let piece = trim(piece.as_str());
            proof {
                let rest = s@.skip(start as int);
                let at = i - start;
                assert(rest[at] == ',');
                assert forall|j: int| 0 <= j < at implies rest[j] != ',' by {
                    assert(rest[j] == v@[start + j]);
                }
                lemma_position_of(rest, ',', at);
                assert(rest.take(at) == s@.subrange(start as int, i as int));
                assert(rest.skip(at + 1) == s@.skip(i + 1));
                let head = seq![rest.take(at)];
                let tail = split_on(rest.skip(at + 1), ',');
                assert(split_on(rest, ',') == head + tail);
                let f = |piece: Seq<char>| trimmed(piece);
                assert((head + tail).map_values(f) == head.map_values(f) + tail.map_values(f));
                assert(head.map_values(f) == seq![trimmed(rest.take(at))]);
                let old_lines = lines_of(pieces@);
                assert(lines_of(pieces@.push(piece)) == old_lines + seq![piece@]);
                assert(old_lines + (seq![piece@] + comma_list(s@.skip(i + 1))) == (old_lines
                    + seq![piece@]) + comma_list(s@.skip(i + 1)));
            }
            pieces.push(piece);
            start = i + 1;
        }
        i += 1;
    }
    let piece = slice_of(s, start, v.len());
    let piece = trim(piece.as_str());
    proof {
        let rest = s@.skip(start as int);
        assert(rest == s@.subrange(start as int, s@.len() as int));
        assert forall|j: int| 0 <= j < rest.len() implies rest[j] != ',' by {
            assert(rest[j] == v@[start + j]);
        }
        lemma_position_of(rest, ',', rest.len() as int);
        let f = |piece: Seq<char>| trimmed(piece);
        assert(seq![rest].map_values(f) == seq![trimmed(rest)]);
        let old_lines = lines_of(pieces@);
        assert(lines_of(pieces@.push(piece)) == old_lines + seq![piece@]);
    }
    pieces.push(piece);
    pieces
}

/// Whether `list` holds a string with the characters of `wanted`.
pub fn list_contains(list: &Vec<String>, wanted: &str) -> (r: bool)
    ensures
        r == lines_of(list@).contains(wanted@),
{
    let mut i: usize = 0;
    while i < list.len()
        invariant
            i <= list@.len(),
            forall|j: int| 0 <= j < i ==> lines_of(list@)[j] != wanted@,
        decreases list@.len() - i,
    {
        if str_eq(list[i].as_str(), wanted) {
            assert(lines_of(list@)[i as int] == wanted@);
            return true;
        }
        i += 1;
    }
    false
}

} // verus!
