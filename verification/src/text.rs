//! Text as sequences of characters: the few string operations the connector
//! needs, each with an exact contract.

use vstd::prelude::*;

verus! {

// ---------------------------------------------------------------------------
// Models
// ---------------------------------------------------------------------------

/// The characters with Unicode's White_Space property.
pub open spec fn is_space(c: char) -> bool {
    let n = c as u32;
    ||| 0x9 <= n <= 0xd
    ||| n == 0x20
    ||| n == 0x85
    ||| n == 0xa0
    ||| n == 0x1680
    ||| 0x2000 <= n <= 0x200a
    ||| n == 0x2028
    ||| n == 0x2029
    ||| n == 0x202f
    ||| n == 0x205f
    ||| n == 0x3000
}

/// `s` without the white space it starts with.
pub open spec fn trim_start(s: Seq<char>) -> Seq<char>
    decreases s.len(),
{
    if s.len() > 0 && is_space(s[0]) {
        trim_start(s.drop_first())
    } else {
        s
    }
}

/// `s` without the white space it ends with.
pub open spec fn trim_end(s: Seq<char>) -> Seq<char>
    decreases s.len(),
{
    if s.len() > 0 && is_space(s.last()) {
        trim_end(s.drop_last())
    } else {
        s
    }
}

/// `s` without the white space around it.
pub open spec fn trimmed(s: Seq<char>) -> Seq<char> {
    trim_end(trim_start(s))
}

/// Nothing but white space.
pub open spec fn is_blank(s: Seq<char>) -> bool {
    forall|i: int| 0 <= i < s.len() ==> is_space(#[trigger] s[i])
}

pub open spec fn has_prefix(s: Seq<char>, prefix: Seq<char>) -> bool {
    prefix.len() <= s.len() && s.take(prefix.len() as int) == prefix
}

pub open spec fn has_suffix(s: Seq<char>, suffix: Seq<char>) -> bool {
    suffix.len() <= s.len() && s.skip(s.len() - suffix.len()) == suffix
}

/// `part` occurs somewhere in `s`.
pub open spec fn has_part(s: Seq<char>, part: Seq<char>) -> bool {
    exists|i: int| 0 <= i <= s.len() && has_prefix(#[trigger] s.skip(i), part)
}

/// `s` after every leading repetition of `prefix` has been taken off.
pub open spec fn without_prefixes(s: Seq<char>, prefix: Seq<char>) -> Seq<char>
    decreases s.len(),
{
    if prefix.len() > 0 && has_prefix(s, prefix) {
        without_prefixes(s.skip(prefix.len() as int), prefix)
    } else {
        s
    }
}

/// `s` after every trailing repetition of `suffix` has been taken off.
pub open spec fn without_suffixes(s: Seq<char>, suffix: Seq<char>) -> Seq<char>
    decreases s.len(),
{
    if suffix.len() > 0 && has_suffix(s, suffix) {
        without_suffixes(s.take(s.len() - suffix.len()), suffix)
    } else {
        s
    }
}

/// `s` with every `from` replaced by the text `to`.
pub open spec fn with_replaced(s: Seq<char>, from: char, to: Seq<char>) -> Seq<char>
    decreases s.len(),
{
    if s.len() == 0 {
        seq![]
    } else {
        with_replaced(s.drop_last(), from, to) + if s.last() == from {
            to
        } else {
            seq![s.last()]
        }
    }
}

/// `s` with every `from` replaced by the character `to`.
pub open spec fn with_swapped(s: Seq<char>, from: char, to: char) -> Seq<char> {
    s.map_values(|c: char| if c == from { to } else { c })
}

/// The length of the longest prefix of `s` without `c`.
pub open spec fn run_before(s: Seq<char>, c: char) -> nat
    decreases s.len(),
{
    if s.len() == 0 || s[0] == c {
        0
    } else {
        1 + run_before(s.drop_first(), c)
    }
}

/// The pieces of `s` between the separators `c`; one more than there are
/// separators.
pub open spec fn pieces(s: Seq<char>, c: char) -> Seq<Seq<char>>
    decreases s.len(),
{
    let n = run_before(s, c);
    if n >= s.len() {
        seq![s]
    } else {
        seq![s.take(n as int)] + pieces(s.skip(n as int + 1), c)
    }
}

/// What stands before and after the first `c` in `s`.
pub open spec fn halves(s: Seq<char>, c: char) -> Option<(Seq<char>, Seq<char>)> {
    let n = run_before(s, c);
    if n >= s.len() {
        None
    } else {
        Some((s.take(n as int), s.skip(n as int + 1)))
    }
}

/// A line without the carriage return that belongs to its line ending.
pub open spec fn without_return(line: Seq<char>) -> Seq<char> {
    if line.len() > 0 && line.last() == '\r' {
        line.drop_last()
    } else {
        line
    }
}

/// The lines of `s`. A line ends at a line feed, or at a carriage return and a
/// line feed; the last one may also end with the text.
pub open spec fn lines(s: Seq<char>) -> Seq<Seq<char>>
    decreases s.len(),
{
    let n = run_before(s, '\n');
    if s.len() == 0 {
        seq![]
    } else if n >= s.len() {
        seq![s]
    } else {
        seq![without_return(s.take(n as int))] + lines(s.skip(n as int + 1))
    }
}

/// The lower-case form of a text that is not all ASCII, as `str::to_lowercase`
/// gives it.
pub uninterp spec fn unicode_lowercase(s: Seq<char>) -> Seq<char>;

/// The lower-case form of a text.
pub open spec fn lowercase(s: Seq<char>) -> Seq<char> {
    if is_ascii(s) {
        ascii_lowercase(s)
    } else {
        unicode_lowercase(s)
    }
}

pub open spec fn is_ascii(s: Seq<char>) -> bool {
    forall|i: int| 0 <= i < s.len() ==> (#[trigger] s[i] as u32) < 0x80
}

/// `s` with the letters from A to Z in lower case.
pub open spec fn ascii_lowercase(s: Seq<char>) -> Seq<char> {
    s.map_values(
        |c: char|
            if 'A' <= c <= 'Z' {
                (c as u32 + 32) as char
            } else {
                c
            },
    )
}

// ---------------------------------------------------------------------------
// Facts about the models
// ---------------------------------------------------------------------------

/// To replace by a text of one character is to replace by the character.
pub proof fn lemma_replaced_is_swapped(s: Seq<char>, from: char, to: char)
    ensures
        with_replaced(s, from, seq![to]) == with_swapped(s, from, to),
    decreases s.len(),
{
    if s.len() > 0 {
        lemma_replaced_is_swapped(s.drop_last(), from, to);
    }
    assert(with_replaced(s, from, seq![to]) =~= with_swapped(s, from, to));
}

/// White space at the start does not matter to what trimming leaves.
pub proof fn lemma_trim_start_skips(s: Seq<char>, i: int)
    requires
        0 <= i <= s.len(),
        forall|k: int| 0 <= k < i ==> is_space(#[trigger] s[k]),
    ensures
        trim_start(s) == trim_start(s.skip(i)),
    decreases i,
{
    if i == 0 {
        assert(s.skip(0) =~= s);
    } else {
        let rest = s.drop_first();
        assert(is_space(s[0]));
        assert forall|k: int| 0 <= k < i - 1 implies is_space(#[trigger] rest[k]) by {
            assert(rest[k] == s[k + 1]);
        }
        lemma_trim_start_skips(rest, i - 1);
        assert(rest.skip(i - 1) =~= s.skip(i));
    }
}

/// White space at the end does not matter to what trimming leaves.
pub proof fn lemma_trim_end_takes(s: Seq<char>, j: int)
    requires
        0 <= j <= s.len(),
        forall|k: int| j <= k < s.len() ==> is_space(#[trigger] s[k]),
    ensures
        trim_end(s) == trim_end(s.take(j)),
    decreases s.len() - j,
{
    if j == s.len() {
        assert(s.take(j) =~= s);
    } else {
        assert(is_space(s.last()));
        let rest = s.drop_last();
        lemma_trim_end_takes(rest, j);
        assert(rest.take(j) =~= s.take(j));
    }
}

/// A text is blank exactly when trimming leaves nothing of it.
pub proof fn lemma_blank_trims_to_nothing(s: Seq<char>)
    ensures
        is_blank(s) <==> trimmed(s).len() == 0,
{
    lemma_trim_start_blank(s);
    let t = trim_start(s);
    if t.len() > 0 {
        lemma_trim_end_keeps_first(t);
    }
}

proof fn lemma_trim_start_blank(s: Seq<char>)
    ensures
        is_blank(s) <==> trim_start(s).len() == 0,
        trim_start(s).len() > 0 ==> !is_space(trim_start(s)[0]),
    decreases s.len(),
{
    if s.len() > 0 && is_space(s[0]) {
        let rest = s.drop_first();
        lemma_trim_start_blank(rest);
        if is_blank(s) {
            assert forall|i: int| 0 <= i < rest.len() implies is_space(#[trigger] rest[i]) by {
                assert(rest[i] == s[i + 1]);
            }
        }
        if is_blank(rest) {
            assert forall|i: int| 0 <= i < s.len() implies is_space(#[trigger] s[i]) by {
                if i > 0 {
                    assert(rest[i - 1] == s[i]);
                }
            }
        }
    }
}

proof fn lemma_trim_end_keeps_first(s: Seq<char>)
    requires
        s.len() > 0,
        !is_space(s[0]),
    ensures
        trim_end(s).len() > 0,
    decreases s.len(),
{
    if is_space(s.last()) {
        assert(s.len() > 1);
        assert(s.drop_last()[0] == s[0]);
        lemma_trim_end_keeps_first(s.drop_last());
    }
}

/// Trimming leaves a text alone that neither starts nor ends with white space.
pub proof fn lemma_trimmed_is_same(s: Seq<char>)
    requires
        s.len() > 0 ==> !is_space(s[0]) && !is_space(s.last()),
    ensures
        trimmed(s) == s,
{
}

/// What trimming leaves neither starts nor ends with white space.
pub proof fn lemma_trimmed_ends(s: Seq<char>)
    ensures
        trimmed(s).len() > 0 ==> !is_space(trimmed(s)[0]) && !is_space(trimmed(s).last()),
        trimmed(trimmed(s)) == trimmed(s),
{
    lemma_trim_start_blank(s);
    lemma_trim_end_is_prefix(trim_start(s));
}

proof fn lemma_trim_end_is_prefix(s: Seq<char>)
    ensures
        trim_end(s).len() <= s.len(),
        trim_end(s) == s.take(trim_end(s).len() as int),
        trim_end(s).len() > 0 ==> !is_space(trim_end(s).last()),
    decreases s.len(),
{
    if s.len() > 0 && is_space(s.last()) {
        lemma_trim_end_is_prefix(s.drop_last());
        assert(s.drop_last().take(trim_end(s).len() as int) =~= s.take(trim_end(s).len() as int));
    } else {
        assert(s.take(s.len() as int) =~= s);
    }
}

/// A text is split where the separator stands and nowhere else.
pub proof fn lemma_pieces_of_joined(a: Seq<char>, b: Seq<char>, c: char)
    ensures
        pieces(a + seq![c] + b, c) == pieces(a, c) + pieces(b, c),
    decreases a.len(),
{
    let s = a + seq![c] + b;
    lemma_run_exists(a, c);
    let n = run_before(a, c) as int;
    assert forall|k: int| 0 <= k < n implies #[trigger] s[k] != c by {
        assert(s[k] == a[k]);
    }
    if n >= a.len() {
        assert(s[n] == c);
        lemma_run_before(s, c, n);
        assert(s.take(n) =~= a);
        assert(s.skip(n + 1) =~= b);
    } else {
        assert(s[n] == a[n]);
        lemma_run_before(s, c, n);
        let rest = a.skip(n + 1);
        assert(s.take(n) =~= a.take(n));
        assert(s.skip(n + 1) =~= rest + seq![c] + b);
        lemma_pieces_of_joined(rest, b, c);
        assert(seq![a.take(n)] + (pieces(rest, c) + pieces(b, c)) =~= (seq![a.take(n)] + pieces(
            rest,
            c,
        )) + pieces(b, c));
    }
}

/// A text without the separator is one piece.
pub proof fn lemma_one_piece(s: Seq<char>, c: char)
    requires
        forall|k: int| 0 <= k < s.len() ==> #[trigger] s[k] != c,
    ensures
        pieces(s, c) == seq![s],
{
    lemma_run_before(s, c, s.len() as int);
}

/// A text is cut at the first separator.
pub proof fn lemma_halves_of_joined(a: Seq<char>, b: Seq<char>, c: char)
    requires
        forall|k: int| 0 <= k < a.len() ==> #[trigger] a[k] != c,
    ensures
        halves(a + seq![c] + b, c) == Some((a, b)),
{
    let s = a + seq![c] + b;
    let n = a.len() as int;
    assert forall|k: int| 0 <= k < n implies #[trigger] s[k] != c by {
        assert(s[k] == a[k]);
    }
    assert(s[n] == c);
    lemma_run_before(s, c, n);
    assert(s.take(n) =~= a);
    assert(s.skip(n + 1) =~= b);
}

/// The run before a character is where its first occurrence ends it.
pub proof fn lemma_run_exists(s: Seq<char>, c: char)
    ensures
        run_before(s, c) <= s.len(),
        forall|k: int| 0 <= k < run_before(s, c) ==> #[trigger] s[k] != c,
        run_before(s, c) < s.len() ==> s[run_before(s, c) as int] == c,
    decreases s.len(),
{
    if s.len() > 0 && s[0] != c {
        let rest = s.drop_first();
        lemma_run_exists(rest, c);
        assert forall|k: int| 0 <= k < run_before(s, c) implies #[trigger] s[k] != c by {
            if k > 0 {
                assert(rest[k - 1] == s[k]);
            }
        }
    }
}

/// The run before a character, from where its first occurrence is.
pub proof fn lemma_run_before(s: Seq<char>, c: char, n: int)
    requires
        0 <= n <= s.len(),
        forall|k: int| 0 <= k < n ==> #[trigger] s[k] != c,
        n < s.len() ==> s[n] == c,
    ensures
        run_before(s, c) == n,
    decreases n,
{
    if n > 0 {
        let rest = s.drop_first();
        assert(s[0] != c);
        assert forall|k: int| 0 <= k < n - 1 implies #[trigger] rest[k] != c by {
            assert(rest[k] == s[k + 1]);
        }
        lemma_run_before(rest, c, n - 1);
    }
}

// ---------------------------------------------------------------------------
// Operations
// ---------------------------------------------------------------------------

/// The characters of `s`.
pub fn characters(s: &str) -> (res: Vec<char>)
    ensures
        res@ == s@,
{
    let mut res: Vec<char> = Vec::new();
    for c in it: s.chars()
        invariant
            it.seq() == s@,
            res@ == s@.take(it.index() as int),
    {
        proof {
            assert(s@.take(it.index() as int + 1) =~= s@.take(it.index() as int).push(
                s@[it.index() as int],
            ));
        }
        res.push(c);
    }
    assert(s@.take(s@.len() as int) =~= s@);
    res
}

/// Whether the two texts are the same.
pub fn same(a: &str, b: &str) -> (res: bool)
    ensures
        res == (a@ == b@),
{
    let x: Vec<char> = characters(a);
    let y: Vec<char> = characters(b);
    matches_at(&x, 0, &y) && x.len() == y.len()
}

/// Whether `part` stands in `s` at `at`.
fn matches_at(s: &Vec<char>, at: usize, part: &Vec<char>) -> (res: bool)
    requires
        at <= s@.len(),
    ensures
        res == has_prefix(s@.skip(at as int), part@),
        at == 0 ==> res == has_prefix(s@, part@),
        at == 0 && s@.len() == part@.len() ==> res == (s@ == part@),
{
    proof {
        assert(s@.skip(0) =~= s@);
        assert(s@.take(s@.len() as int) =~= s@);
    }
    let ghost tail = s@.skip(at as int);
    let length: usize = s.len();
    if length - at < part.len() {
        return false;
    }
    let mut i: usize = 0;
    while i < part.len()
        invariant
            i <= part@.len(),
            at + part@.len() <= s@.len() <= usize::MAX,
            tail == s@.skip(at as int),
            forall|k: int| 0 <= k < i ==> tail[k] == part@[k],
        decreases part@.len() - i,
    {
        if s[at + i] != part[i] {
            proof {
                assert(tail.take(part@.len() as int)[i as int] == s@[at + i]);
            }
            return false;
        }
        i = i + 1;
    }
    assert(tail.take(part@.len() as int) =~= part@);
    true
}

pub fn starts_with(s: &str, prefix: &str) -> (res: bool)
    ensures
        res == has_prefix(s@, prefix@),
{
    let x: Vec<char> = characters(s);
    let y: Vec<char> = characters(prefix);
    matches_at(&x, 0, &y)
}

pub fn ends_with(s: &str, suffix: &str) -> (res: bool)
    ensures
        res == has_suffix(s@, suffix@),
{
    let x: Vec<char> = characters(s);
    let y: Vec<char> = characters(suffix);
    if x.len() < y.len() {
        return false;
    }
    let at: usize = x.len() - y.len();
    let res = matches_at(&x, at, &y);
    proof {
        let tail = s@.skip(at as int);
        assert(tail.take(tail.len() as int) =~= tail);
    }
    res
}

/// Whether `part` occurs in `s`.
pub fn contains(s: &str, part: &str) -> (res: bool)
    ensures
        res == has_part(s@, part@),
{
    let x: Vec<char> = characters(s);
    let y: Vec<char> = characters(part);
    let mut at: usize = 0;
    while at < x.len()
        invariant
            at <= x@.len(),
            x@ == s@,
            y@ == part@,
            forall|i: int| 0 <= i < at ==> !has_prefix(#[trigger] s@.skip(i), part@),
        decreases x@.len() - at,
    {
        if matches_at(&x, at, &y) {
            return true;
        }
        at = at + 1;
    }
    matches_at(&x, at, &y)
}

/// Whether `c` is white space.
pub fn space(c: char) -> (res: bool)
    ensures
        res == is_space(c),
{
    let n: u32 = c as u32;
    (0x9 <= n && n <= 0xd) || n == 0x20 || n == 0x85 || n == 0xa0 || n == 0x1680 || (0x2000 <= n
        && n <= 0x200a) || n == 0x2028 || n == 0x2029 || n == 0x202f || n == 0x205f || n == 0x3000
}

/// `s` without the white space around it.
pub fn trim(s: &str) -> (res: &str)
    ensures
        res@ == trimmed(s@),
{
    let x: Vec<char> = characters(s);
    let mut i: usize = 0;
    while i < x.len() && space(x[i])
        invariant
            i <= x@.len(),
            x@ == s@,
            forall|k: int| 0 <= k < i ==> is_space(#[trigger] s@[k]),
        decreases x@.len() - i,
    {
        i = i + 1;
    }
    let mut j: usize = x.len();
    while j > i && space(x[j - 1])
        invariant
            i <= j <= x@.len(),
            x@ == s@,
            forall|k: int| j <= k < s@.len() ==> is_space(#[trigger] s@[k]),
        decreases j,
    {
        j = j - 1;
    }
    proof {
        lemma_trim_start_skips(s@, i as int);
        let rest = s@.skip(i as int);
        assert forall|k: int| j - i <= k < rest.len() implies is_space(#[trigger] rest[k]) by {
            assert(rest[k] == s@[k + i]);
        }
        if rest.len() > 0 {
            assert(rest[0] == s@[i as int]);
        }
        assert(trim_start(rest) == rest);
        lemma_trim_end_takes(rest, j - i);
        let middle = rest.take(j - i);
        assert(middle =~= s@.subrange(i as int, j as int));
        if middle.len() > 0 {
            assert(middle.last() == s@[j - 1]);
        }
        assert(trim_end(middle) == middle);
    }
    s.substring_char(i, j)
}

/// Whether `s` is nothing but white space.
pub fn blank(s: &str) -> (res: bool)
    ensures
        res == is_blank(s@),
{
    proof {
        lemma_blank_trims_to_nothing(s@);
    }
    trim(s).is_empty()
}

/// `s` after every leading repetition of `prefix` has been taken off.
pub fn strip_prefixes<'a>(s: &'a str, prefix: &str) -> (res: &'a str)
    ensures
        res@ == without_prefixes(s@, prefix@),
{
    let x: Vec<char> = characters(s);
    let y: Vec<char> = characters(prefix);
    let mut at: usize = 0;
    proof {
        assert(s@.skip(0) =~= s@);
    }
    while y.len() > 0 && matches_at(&x, at, &y)
        invariant
            at <= x@.len(),
            x@ == s@,
            y@ == prefix@,
            without_prefixes(s@, prefix@) == without_prefixes(s@.skip(at as int), prefix@),
        decreases x@.len() - at,
    {
        let rest: usize = x.len() - at;
        proof {
            assert(y@.len() <= rest);
            assert(s@.skip(at as int).skip(y@.len() as int) =~= s@.skip(at + y@.len()));
        }
        at = at + y.len();
    }
    proof {
        assert(s@.skip(at as int) =~= s@.subrange(at as int, s@.len() as int));
    }
    s.substring_char(at, x.len())
}

/// `s` after every trailing repetition of `suffix` has been taken off.
pub fn strip_suffixes<'a>(s: &'a str, suffix: &str) -> (res: &'a str)
    ensures
        res@ == without_suffixes(s@, suffix@),
{
    let x: Vec<char> = characters(s);
    let y: Vec<char> = characters(suffix);
    let mut end: usize = x.len();
    proof {
        assert(s@.take(s@.len() as int) =~= s@);
    }
    while 0 < y.len() && y.len() <= end && matches_at(&x, end - y.len(), &y)
        invariant
            end <= x@.len(),
            x@ == s@,
            y@ == suffix@,
            without_suffixes(s@, suffix@) == without_suffixes(s@.take(end as int), suffix@),
        decreases end,
    {
        proof {
            let head = s@.take(end as int);
            let at = end - y@.len();
            assert(head.skip(at) =~= s@.skip(at).take(y@.len() as int));
            assert(head.take(at) =~= s@.take(at));
        }
        end = end - y.len();
    }
    proof {
        let head = s@.take(end as int);
        if y@.len() <= end {
            let at = end - y@.len();
            assert(head.skip(at) =~= s@.skip(at).take(y@.len() as int));
        }
        assert(head =~= s@.subrange(0, end as int));
    }
    s.substring_char(0, end)
}

/// `s` with every `from` replaced by `to`.
pub fn replace(s: &str, from: char, to: &str) -> (res: String)
    ensures
        res@ == with_replaced(s@, from, to@),
{
    let x: Vec<char> = characters(s);
    let mut res: String = String::new();
    let mut i: usize = 0;
    while i < x.len()
        invariant
            i <= x@.len(),
            x@ == s@,
            res@ == with_replaced(s@.take(i as int), from, to@),
        decreases x@.len() - i,
    {
        proof {
            assert(s@.take(i + 1).drop_last() =~= s@.take(i as int));
            assert(s@.subrange(i as int, i + 1) =~= seq![s@[i as int]]);
        }
        if x[i] == from {
            res.append(to);
        } else {
            res.append(s.substring_char(i, i + 1));
        }
        i = i + 1;
    }
    assert(s@.take(s@.len() as int) =~= s@);
    res
}

/// The index of the first `c` in `x` from `from` on, or the length of `x`.
fn next_index(x: &Vec<char>, from: usize, c: char) -> (res: usize)
    requires
        from <= x@.len(),
    ensures
        from <= res <= x@.len(),
        res - from == run_before(x@.skip(from as int), c),
        res < x@.len() ==> x@[res as int] == c,
{
    let mut i: usize = from;
    while i < x.len() && x[i] != c
        invariant
            from <= i <= x@.len(),
            forall|k: int| from <= k < i ==> #[trigger] x@[k] != c,
        decreases x@.len() - i,
    {
        i = i + 1;
    }
    proof {
        let tail = x@.skip(from as int);
        assert forall|k: int| 0 <= k < i - from implies #[trigger] tail[k] != c by {
            assert(tail[k] == x@[k + from]);
        }
        lemma_run_before(tail, c, i - from);
    }
    i
}

/// What the texts in a list of slices read.
pub open spec fn slices_view(v: Seq<&str>) -> Seq<Seq<char>> {
    v.map_values(|s: &str| s@)
}

/// The pieces of `s` between the separators `c`.
pub fn split<'a>(s: &'a str, c: char) -> (res: Vec<&'a str>)
    ensures
        slices_view(res@) == pieces(s@, c),
{
    let x: Vec<char> = characters(s);
    let mut res: Vec<&'a str> = Vec::new();
    let mut at: usize = 0;
    proof {
        assert(s@.skip(0) =~= s@);
        assert(slices_view(res@) + pieces(s@, c) =~= pieces(s@, c));
    }
    loop
        invariant
            at <= x@.len(),
            x@ == s@,
            slices_view(res@) + pieces(s@.skip(at as int), c) == pieces(s@, c),
        decreases x@.len() - at,
    {
        let end = next_index(&x, at, c);
        let piece = s.substring_char(at, end);
        let ghost before = res@;
        let ghost tail = s@.skip(at as int);
        res.push(piece);
        proof {
            assert(slices_view(res@) =~= slices_view(before).push(piece@));
            assert(tail.take(end - at) =~= piece@);
        }
        if end == x.len() {
            proof {
                assert(tail =~= piece@);
                assert(slices_view(before) + seq![tail] =~= slices_view(res@));
            }
            return res;
        }
        proof {
            let rest = s@.skip(end + 1);
            assert(tail.skip(end - at + 1) =~= rest);
            assert(slices_view(before) + (seq![piece@] + pieces(rest, c)) =~= slices_view(res@)
                + pieces(rest, c));
        }
        at = end + 1;
    }
}

/// What stands before and after the first `c` in `s`.
pub fn split_once<'a>(s: &'a str, c: char) -> (res: Option<(&'a str, &'a str)>)
    ensures
        match res {
            Some((a, b)) => halves(s@, c) == Some((a@, b@)),
            None => halves(s@, c) is None,
        },
{
    let x: Vec<char> = characters(s);
    proof {
        assert(s@.skip(0) =~= s@);
    }
    let at = next_index(&x, 0, c);
    if at == x.len() {
        None
    } else {
        proof {
            assert(s@.take(at as int) =~= s@.subrange(0, at as int));
            assert(s@.skip(at + 1) =~= s@.subrange(at + 1, s@.len() as int));
        }
        Some((s.substring_char(0, at), s.substring_char(at + 1, x.len())))
    }
}

/// The lines of `s`.
pub fn split_lines<'a>(s: &'a str) -> (res: Vec<&'a str>)
    ensures
        slices_view(res@) == lines(s@),
{
    let x: Vec<char> = characters(s);
    let mut res: Vec<&'a str> = Vec::new();
    let mut at: usize = 0;
    proof {
        assert(s@.skip(0) =~= s@);
        assert(slices_view(res@) + lines(s@) =~= lines(s@));
    }
    while at < x.len()
        invariant
            at <= x@.len(),
            x@ == s@,
            slices_view(res@) + lines(s@.skip(at as int)) == lines(s@),
        decreases x@.len() - at,
    {
        let end = next_index(&x, at, '\n');
        let ghost before = res@;
        let ghost tail = s@.skip(at as int);
        if end == x.len() {
            let line = s.substring_char(at, end);
            res.push(line);
            proof {
                assert(tail =~= line@);
                assert(slices_view(before) + seq![tail] =~= slices_view(res@));
            }
            return res;
        }
        let stop: usize = if end > at && x[end - 1] == '\r' {
            end - 1
        } else {
            end
        };
        let line = s.substring_char(at, stop);
        res.push(line);
        proof {
            let whole = tail.take(end - at);
            if end > at {
                assert(whole.last() == s@[end - 1]);
            }
            assert(without_return(whole) =~= line@);
            let rest = s@.skip(end + 1);
            assert(tail.skip(end - at + 1) =~= rest);
            assert(slices_view(before) + (seq![line@] + lines(rest)) =~= slices_view(res@) + lines(
                rest,
            ));
        }
        at = end + 1;
    }
    proof {
        assert(s@.skip(at as int) =~= seq![]);
        assert(slices_view(res@) + seq![] =~= slices_view(res@));
    }
    res
}

/// `str::to_lowercase`. Its result depends on the text alone, and on an ASCII
/// text it changes the letters from A to Z and nothing else. What it does
/// beyond ASCII is Unicode's mapping, which has only a name here.
#[verifier::external_body]
pub(crate) fn to_lowercase(s: &str) -> (res: String)
    ensures
        res@ == if is_ascii(s@) {
            ascii_lowercase(s@)
        } else {
            unicode_lowercase(s@)
        },
{
    s.to_lowercase()
}

} // verus!
