//! Character-level helpers on strings: equality, prefixes, lexicographic
//! order, lines, joining and UTF-8 decoding.
//!
//! Contracts speak of a string through its view, the sequence of its
//! characters.

use vstd::prelude::*;
use vstd::utf8::{decode_utf8, valid_utf8};

verus! {

broadcast use vstd::string::group_string_axioms;

/// `prefix` is an initial segment of `text`.
pub open spec fn is_prefix(prefix: Seq<char>, text: Seq<char>) -> bool {
    prefix.len() <= text.len() && text.subrange(0, prefix.len() as int) == prefix
}

/// Strict lexicographic order by code point: the order in which std sorts
/// strings.
pub open spec fn lex_lt(a: Seq<char>, b: Seq<char>) -> bool
    decreases a.len(),
{
    if b.len() == 0 {
        false
    } else if a.len() == 0 {
        true
    } else if a[0] != b[0] {
        a[0] < b[0]
    } else {
        lex_lt(a.drop_first(), b.drop_first())
    }
}

/// How one string stands to another in lexicographic order.
#[derive(Clone, Copy, Debug, PartialEq, Eq, Structural)]
pub enum Rank {
    Before,
    Same,
    After,
}

/// The rank that `compare` computes.
pub open spec fn rank_of(a: Seq<char>, b: Seq<char>) -> Rank {
    if a == b {
        Rank::Same
    } else if lex_lt(a, b) {
        Rank::Before
    } else {
        Rank::After
    }
}

/// No string precedes itself.
pub proof fn lemma_lex_irreflexive(a: Seq<char>)
    ensures
        !lex_lt(a, a),
    decreases a.len(),
{
    if a.len() > 0 {
        lemma_lex_irreflexive(a.drop_first());
    }
}

/// Of two different strings exactly one precedes the other.
pub proof fn lemma_lex_total(a: Seq<char>, b: Seq<char>)
    ensures
        a != b ==> (lex_lt(a, b) <==> !lex_lt(b, a)),
        a == b ==> !lex_lt(a, b) && !lex_lt(b, a),
    decreases a.len(),
{
    if a == b {
        lemma_lex_irreflexive(a);
    } else if a.len() > 0 && b.len() > 0 && a[0] == b[0] {
        assert(a.drop_first() != b.drop_first()) by {
            if a.drop_first() == b.drop_first() {
                assert(a =~= seq![a[0]] + a.drop_first());
                assert(b =~= seq![b[0]] + b.drop_first());
            }
        }
        lemma_lex_total(a.drop_first(), b.drop_first());
    } else if a.len() == 0 && b.len() == 0 {
        assert(a =~= b);
    }
}

/// The order is transitive.
pub proof fn lemma_lex_transitive(a: Seq<char>, b: Seq<char>, c: Seq<char>)
    requires
        lex_lt(a, b),
        lex_lt(b, c),
    ensures
        lex_lt(a, c),
    decreases a.len(),
{
    if a.len() > 0 && a[0] == b[0] && b[0] == c[0] {
        lemma_lex_transitive(a.drop_first(), b.drop_first(), c.drop_first());
    }
}

/// The characters of `s`, in order.
pub fn chars_of(s: &str) -> (out: Vec<char>)
    ensures
        out@ == s@,
{
    let mut out: Vec<char> = Vec::new();
    for c in it: s.chars()
        invariant
            it.seq() == s@,
            out@ =~= s@.take(it.index()),
    {
        out.push(c);
    }
    assert(s@.take(s@.len() as int) =~= s@);
    out
}

/// Whether the characters `text` begin with the characters `prefix`.
pub fn chars_start_with(text: &Vec<char>, prefix: &Vec<char>) -> (b: bool)
    ensures
        b == is_prefix(prefix@, text@),
{
    if prefix.len() > text.len() {
        return false;
    }
    let mut i: usize = 0;
    while i < prefix.len()
        invariant
            i <= prefix.len() <= text.len(),
            text@.subrange(0, i as int) =~= prefix@.subrange(0, i as int),
        decreases prefix.len() - i,
    {
        if text[i] != prefix[i] {
            assert(text@.subrange(0, prefix@.len() as int)[i as int] != prefix@[i as int]);
            return false;
        }
        assert(text@.subrange(0, i + 1) =~= text@.subrange(0, i as int).push(text@[i as int]));
        assert(prefix@.subrange(0, i + 1) =~= prefix@.subrange(0, i as int).push(
            prefix@[i as int],
        ));
        i += 1;
    }
    assert(prefix@.subrange(0, prefix@.len() as int) =~= prefix@);
    true
}

/// Whether `text` begins with `prefix`. Case-sensitive, character by
/// character.
pub fn starts_with(text: &str, prefix: &str) -> (b: bool)
    ensures
        b == is_prefix(prefix@, text@),
{
    let t = chars_of(text);
    let p = chars_of(prefix);
    chars_start_with(&t, &p)
}

/// Ranks `a` against `b` in lexicographic order.
pub fn compare(a: &str, b: &str) -> (r: Rank)
    ensures
        r == rank_of(a@, b@),
{
    let x = chars_of(a);
    let y = chars_of(b);
    let mut i: usize = 0;
    assert(x@.skip(0) =~= x@ && y@.skip(0) =~= y@);
    while i < x.len() && i < y.len()
        invariant
            x@ == a@,
            y@ == b@,
            i <= x.len(),
            i <= y.len(),
            x@.take(i as int) =~= y@.take(i as int),
            rank_of(a@, b@) == rank_of(x@.skip(i as int), y@.skip(i as int)),
        decreases x.len() - i,
    {
        let ghost xs = x@.skip(i as int);
        let ghost ys = y@.skip(i as int);
        assert(xs[0] == x@[i as int] && ys[0] == y@[i as int]);
        assert(xs.drop_first() =~= x@.skip(i + 1));
        assert(ys.drop_first() =~= y@.skip(i + 1));
        if x[i] != y[i] {
            if x[i] < y[i] {
                return Rank::Before;
            } else {
                return Rank::After;
            }
        }
        proof {
            assert(xs =~= seq![xs[0]] + xs.drop_first());
            assert(ys =~= seq![ys[0]] + ys.drop_first());
            if xs.drop_first() == ys.drop_first() {
                assert(xs =~= ys);
            }
            lemma_lex_total(xs, ys);
            lemma_lex_total(xs.drop_first(), ys.drop_first());
        }
        assert(x@.take(i + 1) =~= x@.take(i as int).push(x@[i as int]));
        assert(y@.take(i + 1) =~= y@.take(i as int).push(y@[i as int]));
        i += 1;
    }
    let ghost xs = x@.skip(i as int);
    let ghost ys = y@.skip(i as int);
    proof {
        lemma_lex_total(xs, ys);
        if xs.len() == 0 && ys.len() == 0 {
            assert(xs =~= ys);
        }
    }
    if x.len() == y.len() {
        Rank::Same
    } else if i == x.len() {
        Rank::Before
    } else {
        Rank::After
    }
}

/// Whether `a` and `b` hold the same characters.
pub fn same(a: &str, b: &str) -> (r: bool)
    ensures
        r == (a@ == b@),
{
    compare(a, b) == Rank::Same
}

/// `head` followed by `tail`, as a new string.
pub fn join2(head: &str, tail: &str) -> (out: String)
    ensures
        out@ == head@ + tail@,
{
    let out = String::from_str(head);
    out.concat(tail)
}

/// `a`, `b` and `c` in a row, as a new string.
pub fn join3(a: &str, b: &str, c: &str) -> (out: String)
    ensures
        out@ == a@ + b@ + c@,
{
    let out = join2(a, b);
    out.concat(c)
}

/// `line` without the carriage return at its end, if it has one.
pub open spec fn without_cr(line: Seq<char>) -> Seq<char> {
    if line.len() > 0 && line.last() == '\r' {
        line.drop_last()
    } else {
        line
    }
}

/// The lines of `current` followed by `text`, where `current` is the part of
/// a line that has been read so far.
pub open spec fn lines_after(current: Seq<char>, text: Seq<char>) -> Seq<Seq<char>>
    decreases text.len(),
{
    if text.len() == 0 {
        if current.len() == 0 {
            Seq::empty()
        } else {
            seq![current]
        }
    } else if text[0] == '\n' {
        seq![without_cr(current)] + lines_after(Seq::empty(), text.drop_first())
    } else {
        lines_after(current.push(text[0]), text.drop_first())
    }
}

/// The lines of `text`. A line ends at a line feed; the line feed, and a
/// carriage return just before it, are not part of the line. After the last
/// line feed only a non-empty rest counts as a line.
pub open spec fn lines(text: Seq<char>) -> Seq<Seq<char>> {
    lines_after(Seq::empty(), text)
}

/// Some line of `text` begins with `prefix`.
pub open spec fn some_line_starts_with(text: Seq<char>, prefix: Seq<char>) -> bool {
    exists|i: int| 0 <= i < lines(text).len() && is_prefix(prefix, #[trigger] lines(text)[i])
}

/// The characters of each line of a list.
pub open spec fn line_texts(lines: Seq<Vec<char>>) -> Seq<Seq<char>> {
    lines.map_values(|l: Vec<char>| l@)
}

/// The lines of `text`.
pub fn split_lines(text: &str) -> (out: Vec<Vec<char>>)
    ensures
        line_texts(out@) == lines(text@),
{
    let all = chars_of(text);
    let mut out: Vec<Vec<char>> = Vec::new();
    let mut current: Vec<char> = Vec::new();
    let mut i: usize = 0;
    assert(all@.skip(0) =~= all@);
    assert(line_texts(out@) + lines_after(current@, all@) =~= lines(text@));
    while i < all.len()
        invariant
            i <= all.len(),
            all@ == text@,
            lines(text@) == line_texts(out@) + lines_after(current@, all@.skip(i as int)),
        decreases all.len() - i,
    {
        let ghost rest = all@.skip(i as int);
        let ghost done = line_texts(out@);
        assert(rest[0] == all@[i as int]);
        assert(rest.drop_first() =~= all@.skip(i + 1));
        let c = all[i];
        if c == '\n' {
            let ghost line = current@;
            let n = current.len();
            if n > 0 && current[n - 1] == '\r' {
                current.pop();
            }
            assert(current@ =~= without_cr(line));
            out.push(current);
            current = Vec::new();
            assert(line_texts(out@) =~= done.push(without_cr(line)));
            assert(current@ =~= Seq::<char>::empty());
            assert(line_texts(out@) + lines_after(current@, rest.drop_first()) =~= done
                + lines_after(line, rest));
        } else {
            current.push(c);
        }
        i += 1;
    }
    assert(all@.skip(i as int) =~= Seq::<char>::empty());
    if current.len() > 0 {
        let ghost done = line_texts(out@);
        out.push(current);
        assert(line_texts(out@) =~= done.push(out@[out@.len() - 1]@));
    }
    out
}

/// Whether some line of `text` begins with `prefix`.
pub fn any_line_starts_with(text: &str, prefix: &str) -> (found: bool)
    ensures
        found == some_line_starts_with(text@, prefix@),
{
    let all = split_lines(text);
    let wanted = chars_of(prefix);
    let mut i: usize = 0;
    while i < all.len()
        invariant
            i <= all.len(),
            wanted@ == prefix@,
            line_texts(all@) == lines(text@),
            forall|j: int| 0 <= j < i ==> !is_prefix(prefix@, #[trigger] lines(text@)[j]),
        decreases all.len() - i,
    {
        assert(line_texts(all@)[i as int] == all@[i as int]@);
        if chars_start_with(&all[i], &wanted) {
            return true;
        }
        i += 1;
    }
    false
}

/// std's `String::from_utf8`: the text that `bytes` encode, where they are
/// well-formed UTF-8, and nothing otherwise.
#[verifier::external_body]
pub(crate) fn decode(bytes: Vec<u8>) -> (text: Option<String>)
    ensures
        text is Some <==> valid_utf8(bytes@),
        text matches Some(t) ==> t@ == decode_utf8(bytes@),
{
    match String::from_utf8(bytes) {
        Ok(t) => Some(t),
        Err(_) => None,
    }
}

} // verus!
