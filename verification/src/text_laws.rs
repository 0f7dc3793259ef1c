//! What holds of the string operations.

use vstd::prelude::*;

use crate::text::{
    ascii_lowercase, halves, has_part, has_prefix, has_suffix, is_ascii, is_blank, is_space,
    lemma_halves_of_joined, lemma_one_piece, lemma_pieces_of_joined, lemma_run_before,
    lemma_trim_end_takes, lemma_trim_start_skips, lines, lowercase, pieces, slices_view, trim_end,
    trim_start, trimmed, with_replaced, with_swapped, without_prefixes, without_suffixes,
};
use crate::tool::normalized;

verus! {

/// The text does not have that character.
pub open spec fn lacks(s: Seq<char>, c: char) -> bool {
    forall|k: int| 0 <= k < s.len() ==> #[trigger] s[k] != c
}

/// Trimming takes off the white space around a text and nothing of the text.
pub proof fn law_trimming_takes_off_white_space(
    before: Seq<char>,
    inner: Seq<char>,
    after: Seq<char>,
)
    requires
        is_blank(before),
        is_blank(after),
        inner.len() > 0 ==> !is_space(inner[0]) && !is_space(inner.last()),
    ensures
        trimmed(before + inner + after) == inner,
{
    let s = before + inner + after;
    let n = before.len() as int;
    assert forall|k: int| 0 <= k < n implies is_space(#[trigger] s[k]) by {
        assert(s[k] == before[k]);
    }
    lemma_trim_start_skips(s, n);
    let rest = inner + after;
    assert(s.skip(n) =~= rest);
    if inner.len() > 0 {
        assert(rest[0] == inner[0]);
        assert(trim_start(rest) == rest);
        assert forall|k: int| inner.len() <= k < rest.len() implies is_space(
            #[trigger] rest[k],
        ) by {
            assert(rest[k] == after[k - inner.len()]);
        }
        lemma_trim_end_takes(rest, inner.len() as int);
        assert(rest.take(inner.len() as int) =~= inner);
    } else {
        assert(rest =~= after);
        assert forall|k: int| 0 <= k < after.len() implies is_space(#[trigger] after[k]) by {}
        lemma_trim_start_skips(after, after.len() as int);
        assert(after.skip(after.len() as int) =~= inner);
    }
}

/// A text is what trimming leaves of it, with white space around.
pub proof fn law_trimmed_is_inside(s: Seq<char>) -> (around: (Seq<char>, Seq<char>))
    ensures
        is_blank(around.0),
        is_blank(around.1),
        s == around.0 + trimmed(s) + around.1,
{
    let start = lemma_start(s);
    let end = lemma_end(trim_start(s));
    assert(s =~= start + trimmed(s) + end);
    (start, end)
}

proof fn lemma_start(s: Seq<char>) -> (start: Seq<char>)
    ensures
        is_blank(start),
        s == start + trim_start(s),
    decreases s.len(),
{
    if s.len() > 0 && is_space(s[0]) {
        let rest = lemma_start(s.drop_first());
        let start = seq![s[0]] + rest;
        assert forall|i: int| 0 <= i < start.len() implies is_space(#[trigger] start[i]) by {
            if i > 0 {
                assert(start[i] == rest[i - 1]);
            }
        }
        let tail = trim_start(s.drop_first());
        assert(s =~= seq![s[0]] + s.drop_first());
        assert(seq![s[0]] + (rest + tail) =~= start + tail);
        start
    } else {
        assert(s =~= seq![] + s);
        seq![]
    }
}

proof fn lemma_end(s: Seq<char>) -> (end: Seq<char>)
    ensures
        is_blank(end),
        s == trim_end(s) + end,
    decreases s.len(),
{
    if s.len() > 0 && is_space(s.last()) {
        let rest = lemma_end(s.drop_last());
        let end = rest.push(s.last());
        assert forall|i: int| 0 <= i < end.len() implies is_space(#[trigger] end[i]) by {
            if i < rest.len() {
                assert(end[i] == rest[i]);
            }
        }
        let head = trim_end(s.drop_last());
        assert(s =~= s.drop_last().push(s.last()));
        assert((head + rest).push(s.last()) =~= head + end);
        end
    } else {
        assert(s =~= s + seq![]);
        seq![]
    }
}

/// A prefix is taken off as often as it stands there, and a text without it stays
/// as it is.
pub proof fn law_prefixes_are_taken_off(prefix: Seq<char>, s: Seq<char>)
    requires
        prefix.len() > 0,
    ensures
        without_prefixes(prefix + s, prefix) == without_prefixes(s, prefix),
        !has_prefix(s, prefix) ==> without_prefixes(s, prefix) == s,
        !has_prefix(without_prefixes(s, prefix), prefix),
    decreases s.len(),
{
    let whole = prefix + s;
    assert(whole.take(prefix.len() as int) =~= prefix);
    assert(whole.skip(prefix.len() as int) =~= s);
    if has_prefix(s, prefix) {
        law_prefixes_are_taken_off(prefix, s.skip(prefix.len() as int));
    }
}

/// A suffix is taken off as often as it stands there, and a text without it stays
/// as it is.
pub proof fn law_suffixes_are_taken_off(s: Seq<char>, suffix: Seq<char>)
    requires
        suffix.len() > 0,
    ensures
        without_suffixes(s + suffix, suffix) == without_suffixes(s, suffix),
        !has_suffix(s, suffix) ==> without_suffixes(s, suffix) == s,
        !has_suffix(without_suffixes(s, suffix), suffix),
    decreases s.len(),
{
    let whole = s + suffix;
    assert(whole.skip(whole.len() - suffix.len()) =~= suffix);
    assert(whole.take(whole.len() - suffix.len()) =~= s);
    if has_suffix(s, suffix) {
        law_suffixes_are_taken_off(s.take(s.len() - suffix.len()), suffix);
    }
}

/// A text starts, ends and goes on with its parts.
pub proof fn law_parts_are_found(before: Seq<char>, part: Seq<char>, after: Seq<char>)
    ensures
        has_prefix(part + after, part),
        has_suffix(before + part, part),
        has_part(before + part + after, part),
{
    assert((part + after).take(part.len() as int) =~= part);
    let front = before + part;
    assert(front.skip(front.len() - part.len()) =~= part);
    let s = before + part + after;
    assert(s.skip(before.len() as int).take(part.len() as int) =~= part);
    assert(has_prefix(s.skip(before.len() as int), part));
}

/// What is found in a text is there.
pub proof fn law_found_parts_are_there(s: Seq<char>, part: Seq<char>)
    ensures
        has_prefix(s, part) ==> s == part + s.skip(part.len() as int),
        has_suffix(s, part) ==> s == s.take(s.len() - part.len()) + part,
        has_part(s, part) ==> exists|i: int|
            0 <= i && i + part.len() <= s.len() && #[trigger] s.subrange(i, i + part.len())
                == part,
{
    if has_prefix(s, part) {
        assert(s =~= part + s.skip(part.len() as int));
    }
    if has_suffix(s, part) {
        assert(s =~= s.take(s.len() - part.len()) + part);
    }
    if has_part(s, part) {
        let i = choose|i: int| 0 <= i <= s.len() && has_prefix(#[trigger] s.skip(i), part);
        assert(s.subrange(i, i + part.len()) =~= s.skip(i).take(part.len() as int));
    }
}

/// A text is split at every separator, and only there; it is cut at the first.
pub proof fn law_splitting(a: Seq<char>, b: Seq<char>, c: char)
    requires
        lacks(a, c),
    ensures
        pieces(a + seq![c] + b, c) == seq![a] + pieces(b, c),
        pieces(a, c) == seq![a],
        halves(a + seq![c] + b, c) == Some((a, b)),
        halves(a, c) is None,
{
    lemma_one_piece(a, c);
    lemma_pieces_of_joined(a, b, c);
    lemma_halves_of_joined(a, b, c);
    lemma_run_before(a, c, a.len() as int);
}

/// The lines of a text are what stands between its line ends: no line is lost,
/// none is added, and only the line ends are left out.
pub proof fn law_lines_are_what_stands_between(line: Seq<char>, rest: Seq<char>)
    requires
        lacks(line, '\n'),
    ensures
        line.len() == 0 || line.last() != '\r' ==> lines(line + seq!['\n'] + rest) == seq![line]
            + lines(rest),
        lines(line + seq!['\r', '\n'] + rest) == seq![line] + lines(rest),
        line.len() > 0 ==> lines(line) == seq![line],
        lines(seq![]) == Seq::<Seq<char>>::empty(),
{
    let n = line.len() as int;
    let s = line + seq!['\n'] + rest;
    assert forall|k: int| 0 <= k < n implies #[trigger] s[k] != '\n' by {
        assert(s[k] == line[k]);
    }
    assert(s[n] == '\n');
    lemma_run_before(s, '\n', n);
    assert(s.take(n) =~= line);
    assert(s.skip(n + 1) =~= rest);
    let t = line + seq!['\r', '\n'] + rest;
    assert forall|k: int| 0 <= k < n + 1 implies #[trigger] t[k] != '\n' by {
        if k < n {
            assert(t[k] == line[k]);
        } else {
            assert(t[k] == '\r');
        }
    }
    assert(t[n + 1] == '\n');
    lemma_run_before(t, '\n', n + 1);
    assert(t.take(n + 1).last() == '\r');
    assert(t.take(n + 1).drop_last() =~= line);
    assert(t.skip(n + 2) =~= rest);
    lemma_run_before(line, '\n', n);
}

/// Replacing a character changes that character wherever it stands, and no other.
pub proof fn law_replacing(a: Seq<char>, c: char, from: char, to: Seq<char>)
    ensures
        with_replaced(a.push(c), from, to) == with_replaced(a, from, to) + if c == from {
            to
        } else {
            seq![c]
        },
        with_replaced(seq![], from, to) == Seq::<char>::empty(),
{
    assert(a.push(c).drop_last() =~= a);
}

/// Swapping characters and lowering ASCII letters work character by character.
pub proof fn law_character_by_character(s: Seq<char>, i: int, from: char, to: char)
    requires
        0 <= i < s.len(),
    ensures
        with_swapped(s, from, to).len() == s.len(),
        with_swapped(s, from, to)[i] == if s[i] == from {
            to
        } else {
            s[i]
        },
        ascii_lowercase(s).len() == s.len(),
        'A' <= s[i] <= 'Z' ==> ascii_lowercase(s)[i] == (s[i] as u32 + 32) as char,
        !('A' <= s[i] <= 'Z') ==> ascii_lowercase(s)[i] == s[i],
        is_ascii(s) ==> lowercase(s) == ascii_lowercase(s),
{
}

/// Names are compared without regard to case, to hyphens or underscores, and to
/// the panel's prefix, and with regard to everything else.
pub proof fn law_names_are_compared(name: Seq<char>, other: Seq<char>)
    requires
        name.len() == other.len(),
        is_ascii(name),
        is_ascii(other),
        forall|i: int|
            #![trigger name[i]]
            0 <= i < name.len() ==> (name[i] == other[i] || (name[i] == '-' && other[i] == '_') || (
            'A' <= name[i] <= 'Z' && other[i] == (name[i] as u32 + 32) as char)),
    ensures
        normalized(name) == normalized(other),
        (forall|i: int|
            #![trigger other[i]]
            0 <= i < other.len() ==> other[i] != '-' && !('A' <= other[i] <= 'Z')) ==> {
            &&& !has_prefix(other, "calagopus_"@) ==> normalized(name) == other
            &&& has_prefix(other, "calagopus_"@) ==> normalized(name) == normalized(
                other.skip(10),
            )
        },
{
    let plain = with_swapped(ascii_lowercase(name), '-', '_');
    assert forall|i: int| 0 <= i < name.len() implies plain[i] == with_swapped(
        ascii_lowercase(other),
        '-',
        '_',
    )[i] by {
        let c = name[i];
        let d = other[i];
        assert(c == d || (c == '-' && d == '_') || ('A' <= c <= 'Z' && d == (c as u32
            + 32) as char));
    }
    assert(plain =~= with_swapped(ascii_lowercase(other), '-', '_'));
    if forall|i: int|
        #![trigger other[i]]
        0 <= i < other.len() ==> other[i] != '-' && !('A' <= other[i] <= 'Z') {
        reveal_strlit("calagopus_");
        assert(with_swapped(ascii_lowercase(other), '-', '_') =~= other);
        if has_prefix(other, "calagopus_"@) {
            let rest = other.skip(10);
            assert forall|i: int| 0 <= i < rest.len() implies #[trigger] rest[i] == other[i
                + 10] by {}
            assert(is_ascii(rest));
            assert(with_swapped(ascii_lowercase(rest), '-', '_') =~= rest);
        }
    }
}

/// A name of any characters is compared in lower case, with underscores for
/// hyphens and without the panel's prefix.
pub proof fn law_any_name_is_compared(name: Seq<char>, rest: Seq<char>)
    ensures
        ({
            let plain = with_swapped(lowercase(name), '-', '_');
            &&& !has_prefix(plain, "calagopus_"@) ==> normalized(name) == plain
            &&& plain == "calagopus_"@ + rest && !has_prefix(rest, "calagopus_"@) ==> normalized(
                name,
            ) == rest
        }),
{
    reveal_strlit("calagopus_");
    law_prefixes_are_taken_off("calagopus_"@, rest);
}

/// Every slice is seen, in order.
pub proof fn law_slices_are_seen(slices: Seq<&str>)
    ensures
        slices_view(slices).len() == slices.len(),
        forall|i: int|
            0 <= i < slices.len() ==> #[trigger] slices_view(slices)[i] == slices[i]@,
{
}

} // verus!
