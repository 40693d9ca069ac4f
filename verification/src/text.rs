//! Operations on text, stated over sequences of characters.
//!
//! A line of the protocol is cut apart with three operations: trimming a
//! class of characters from both ends, splitting on a separator, and (on the
//! way back) joining with a separator. Each is defined here as a function on
//! `Seq<char>`, and each executable function is proved to compute it.

use vstd::prelude::*;
use vstd::string::StrSliceExecFns;
use vstd::string::StringExecFns;
use vstd::string::StringSliceAdditionalSpecFns;

verus! {

/// The characters that count as whitespace: those with the Unicode property
/// `White_Space`.
pub open spec fn is_whitespace(c: char) -> bool {
    ||| '\u{9}' <= c <= '\u{D}'
    ||| c == ' '
    ||| c == '\u{85}'
    ||| c == '\u{A0}'
    ||| c == '\u{1680}'
    ||| '\u{2000}' <= c <= '\u{200A}'
    ||| c == '\u{2028}'
    ||| c == '\u{2029}'
    ||| c == '\u{202F}'
    ||| c == '\u{205F}'
    ||| c == '\u{3000}'
}

/// Tells whether `c` is whitespace.
pub fn char_is_whitespace(c: char) -> (r: bool)
    ensures
        r == is_whitespace(c),
{
    (c >= '\u{9}' && c <= '\u{D}') || c == ' ' || c == '\u{85}' || c == '\u{A0}' || c == '\u{1680}'
        || (c >= '\u{2000}' && c <= '\u{200A}') || c == '\u{2028}' || c == '\u{2029}' || c
        == '\u{202F}' || c == '\u{205F}' || c == '\u{3000}'
}

/// `s` without its longest prefix of elements that satisfy `p`.
pub open spec fn skip_leading<T>(s: Seq<T>, p: spec_fn(T) -> bool) -> Seq<T>
    decreases s.len(),
{
    if s.len() > 0 && p(s.first()) {
        skip_leading(s.drop_first(), p)
    } else {
        s
    }
}

/// `s` without its longest suffix of elements that satisfy `p`.
pub open spec fn skip_trailing<T>(s: Seq<T>, p: spec_fn(T) -> bool) -> Seq<T>
    decreases s.len(),
{
    if s.len() > 0 && p(s.last()) {
        skip_trailing(s.drop_last(), p)
    } else {
        s
    }
}

/// `s` without the elements that satisfy `p` at either end.
pub open spec fn strip<T>(s: Seq<T>, p: spec_fn(T) -> bool) -> Seq<T> {
    skip_trailing(skip_leading(s, p), p)
}

/// The class of whitespace characters, as a predicate.
pub open spec fn whitespace() -> spec_fn(char) -> bool {
    |c: char| is_whitespace(c)
}

/// The class that holds `m` alone, as a predicate.
pub open spec fn only(m: char) -> spec_fn(char) -> bool {
    |c: char| c == m
}

/// `s` without surrounding whitespace.
pub open spec fn trimmed(s: Seq<char>) -> Seq<char> {
    strip(s, whitespace())
}

/// `s` without the occurrences of `m` at either end.
pub open spec fn trimmed_of(s: Seq<char>, m: char) -> Seq<char> {
    strip(s, only(m))
}

/// The pieces of `s` between occurrences of `sep`, in order. There is always
/// at least one piece: a sequence with `n` separators has `n + 1` pieces,
/// some of which may be empty.
pub open spec fn pieces(s: Seq<char>, sep: char) -> Seq<Seq<char>>
    decreases s.len(),
{
    if s.len() == 0 {
        seq![Seq::empty()]
    } else {
        let before = pieces(s.drop_last(), sep);
        if s.last() == sep {
            before.push(Seq::empty())
        } else {
            before.drop_last().push(before.last().push(s.last()))
        }
    }
}

/// The pieces, in order, with `sep` between each two neighbours.
pub open spec fn joined(parts: Seq<Seq<char>>, sep: Seq<char>) -> Seq<char>
    decreases parts.len(),
{
    if parts.len() == 0 {
        Seq::empty()
    } else if parts.len() == 1 {
        parts[0]
    } else {
        joined(parts.drop_last(), sep) + sep + parts.last()
    }
}

/// Whether `c` occurs nowhere in `s`.
pub open spec fn free_of(s: Seq<char>, c: char) -> bool {
    forall|i: int| 0 <= i < s.len() ==> s[i] != c
}

/// How many times `c` occurs in `s`.
pub open spec fn occurrences(s: Seq<char>, c: char) -> nat
    decreases s.len(),
{
    if s.len() == 0 {
        0
    } else if s.last() == c {
        occurrences(s.drop_last(), c) + 1
    } else {
        occurrences(s.drop_last(), c)
    }
}

/// Skipping a prefix cuts at the first element that fails `p`.
pub proof fn lemma_skip_leading_cut<T>(s: Seq<T>, p: spec_fn(T) -> bool, k: int)
    requires
        0 <= k <= s.len(),
        forall|i: int| 0 <= i < k ==> p(#[trigger] s[i]),
        k < s.len() ==> !p(s[k]),
    ensures
        skip_leading(s, p) == s.subrange(k, s.len() as int),
    decreases k,
{
    if k > 0 {
        lemma_skip_leading_cut(s.drop_first(), p, k - 1);
    }
}

/// Skipping a suffix cuts after the last element that fails `p`.
pub proof fn lemma_skip_trailing_cut<T>(s: Seq<T>, p: spec_fn(T) -> bool, k: int)
    requires
        0 <= k <= s.len(),
        forall|i: int| k <= i < s.len() ==> p(#[trigger] s[i]),
        k > 0 ==> !p(s[k - 1]),
    ensures
        skip_trailing(s, p) == s.subrange(0, k),
    decreases s.len() - k,
{
    if k < s.len() {
        lemma_skip_trailing_cut(s.drop_last(), p, k);
    }
}

/// Stripping keeps exactly the range between the first and the last element
/// that fail `p`.
pub proof fn lemma_strip_range<T>(s: Seq<T>, p: spec_fn(T) -> bool, from: int, to: int)
    requires
        0 <= from < to <= s.len(),
        forall|i: int| 0 <= i < from ==> p(#[trigger] s[i]),
        forall|i: int| to <= i < s.len() ==> p(#[trigger] s[i]),
        !p(s[from]),
        !p(s[to - 1]),
    ensures
        strip(s, p) == s.subrange(from, to),
{
    lemma_skip_leading_cut(s, p, from);
    lemma_skip_trailing_cut(s.subrange(from, s.len() as int), p, to - from);
}

/// Stripping a sequence whose elements all satisfy `p` leaves nothing.
pub proof fn lemma_strip_all<T>(s: Seq<T>, p: spec_fn(T) -> bool)
    requires
        forall|i: int| 0 <= i < s.len() ==> p(#[trigger] s[i]),
    ensures
        strip(s, p) == Seq::<T>::empty(),
{
    lemma_skip_leading_cut(s, p, s.len() as int);
}

/// A split gives one piece more than there are separators, so at least
/// one.
pub proof fn lemma_pieces_count(s: Seq<char>, sep: char)
    ensures
        pieces(s, sep).len() == occurrences(s, sep) + 1,
    decreases s.len(),
{
    if s.len() > 0 {
        lemma_pieces_count(s.drop_last(), sep);
    }
}

/// Skipping a suffix leaves a prefix: what is cut satisfies `p`, and what
/// is left does not end in an element that satisfies `p`.
pub proof fn lemma_skip_trailing_prefix<T>(s: Seq<T>, p: spec_fn(T) -> bool)
    ensures
        skip_trailing(s, p).len() <= s.len(),
        skip_trailing(s, p) == s.subrange(0, skip_trailing(s, p).len() as int),
        forall|i: int| skip_trailing(s, p).len() <= i < s.len() ==> p(#[trigger] s[i]),
        skip_trailing(s, p).len() > 0 ==> !p(skip_trailing(s, p).last()),
    decreases s.len(),
{
    if s.len() > 0 && p(s.last()) {
        let rest = s.drop_last();
        lemma_skip_trailing_prefix(rest, p);
        let kept = skip_trailing(rest, p);
        assert forall|i: int| kept.len() <= i < s.len() implies p(#[trigger] s[i]) by {
            if i < rest.len() {
                assert(rest[i] == s[i]);
            }
        }
    }
}

/// Every element of a stripped sequence is an element of the sequence: a
/// character that occurs nowhere in `s` occurs nowhere in what is left.
pub proof fn lemma_strip_free_of(s: Seq<char>, p: spec_fn(char) -> bool, c: char)
    requires
        free_of(s, c),
    ensures
        free_of(strip(s, p), c),
{
    lemma_skip_leading_suffix(s, p);
    lemma_skip_trailing_prefix(skip_leading(s, p), p);
}

/// Skipping a prefix leaves a suffix: what is cut satisfies `p`, and what
/// is left does not start with an element that satisfies `p`.
pub proof fn lemma_skip_leading_suffix<T>(s: Seq<T>, p: spec_fn(T) -> bool)
    ensures
        skip_leading(s, p).len() <= s.len(),
        skip_leading(s, p) == s.subrange(
            s.len() - skip_leading(s, p).len(),
            s.len() as int,
        ),
        forall|i: int| 0 <= i < s.len() - skip_leading(s, p).len() ==> p(#[trigger] s[i]),
        skip_leading(s, p).len() > 0 ==> !p(skip_leading(s, p).first()),
    decreases s.len(),
{
    if s.len() > 0 && p(s.first()) {
        let rest = s.drop_first();
        lemma_skip_leading_suffix(rest, p);
        let kept = skip_leading(rest, p);
        assert forall|i: int| 0 <= i < s.len() - kept.len() implies p(#[trigger] s[i]) by {
            if i > 0 {
                assert(rest[i - 1] == s[i]);
            }
        }
    }
}

/// Stripping leaves nothing exactly if every element satisfies `p`.
pub proof fn lemma_strip_empty<T>(s: Seq<T>, p: spec_fn(T) -> bool)
    ensures
        strip(s, p).len() == 0 <==> forall|i: int| 0 <= i < s.len() ==> p(#[trigger] s[i]),
{
    if forall|i: int| 0 <= i < s.len() ==> p(#[trigger] s[i]) {
        lemma_strip_all(s, p);
    }
    if strip(s, p).len() == 0 {
        lemma_skip_leading_suffix(s, p);
        lemma_skip_trailing_prefix(skip_leading(s, p), p);
    }
}

/// No piece of a split holds the separator.
pub proof fn lemma_pieces_free_of_separator(s: Seq<char>, sep: char)
    ensures
        forall|i: int| 0 <= i < pieces(s, sep).len() ==> free_of(#[trigger] pieces(s, sep)[i], sep),
    decreases s.len(),
{
    if s.len() > 0 {
        lemma_pieces_free_of_separator(s.drop_last(), sep);
        lemma_pieces_count(s.drop_last(), sep);
    }
}

/// Every character of a piece is a character of the whole: a character that
/// occurs nowhere in `s` occurs in no piece of it.
pub proof fn lemma_pieces_free_of(s: Seq<char>, sep: char, c: char)
    requires
        free_of(s, c),
    ensures
        forall|i: int| 0 <= i < pieces(s, sep).len() ==> free_of(#[trigger] pieces(s, sep)[i], c),
    decreases s.len(),
{
    if s.len() > 0 {
        lemma_pieces_free_of(s.drop_last(), sep, c);
        lemma_pieces_count(s.drop_last(), sep);
    }
}

/// A sequence without separator is its own single piece.
pub proof fn lemma_pieces_single(s: Seq<char>, sep: char)
    requires
        free_of(s, sep),
    ensures
        pieces(s, sep) == seq![s],
    decreases s.len(),
{
    if s.len() == 0 {
        assert(s =~= Seq::<char>::empty());
    } else {
        lemma_pieces_single(s.drop_last(), sep);
        assert(s.drop_last().push(s.last()) =~= s);
    }
}

/// The pieces of two sequences set on either side of a separator are the
/// pieces of the first followed by the pieces of the second.
pub proof fn lemma_pieces_concat(a: Seq<char>, b: Seq<char>, sep: char)
    ensures
        pieces(a.push(sep) + b, sep) == pieces(a, sep) + pieces(b, sep),
    decreases b.len(),
{
    let whole = a.push(sep) + b;
    if b.len() == 0 {
        assert(whole.drop_last() =~= a);
    } else {
        let shorter = b.drop_last();
        lemma_pieces_concat(a, shorter, sep);
        lemma_pieces_count(shorter, sep);
        assert(whole.drop_last() =~= a.push(sep) + shorter);
    }
}

/// Splitting undoes joining: parts that hold no separator, joined with it,
/// split into the same parts.
pub proof fn lemma_pieces_of_joined(parts: Seq<Seq<char>>, sep: char)
    requires
        parts.len() >= 1,
        forall|i: int| 0 <= i < parts.len() ==> free_of(#[trigger] parts[i], sep),
    ensures
        pieces(joined(parts, seq![sep]), sep) == parts,
    decreases parts.len(),
{
    if parts.len() == 1 {
        lemma_pieces_single(parts[0], sep);
    } else {
        let front = parts.drop_last();
        lemma_pieces_of_joined(front, sep);
        lemma_pieces_concat(joined(front, seq![sep]), parts.last(), sep);
        lemma_pieces_single(parts.last(), sep);
        assert(joined(parts, seq![sep]) =~= joined(front, seq![sep]).push(sep) + parts.last());
    }
}

/// Joining undoes splitting: the pieces of a sequence, joined with the
/// separator, are the sequence.
pub proof fn lemma_joined_pieces(s: Seq<char>, sep: char)
    ensures
        joined(pieces(s, sep), seq![sep]) == s,
    decreases s.len(),
{
    if s.len() > 0 {
        let before = pieces(s.drop_last(), sep);
        lemma_joined_pieces(s.drop_last(), sep);
        lemma_pieces_count(s.drop_last(), sep);
        let all = pieces(s, sep);
        if s.last() == sep {
            assert(all.drop_last() =~= before);
        } else {
            if before.len() > 1 {
                assert(all.drop_last() =~= before.drop_last());
            }
            assert(joined(all, seq![sep]) =~= s.drop_last().push(s.last()));
        }
    }
}

/// A joined text starts as its first part starts, and ends as its last part
/// ends.
pub proof fn lemma_joined_ends(parts: Seq<Seq<char>>, sep: Seq<char>)
    requires
        parts.len() >= 1,
    ensures
        parts.first().len() > 0 ==> joined(parts, sep).len() > 0 && joined(parts, sep).first()
            == parts.first().first(),
        parts.last().len() > 0 ==> joined(parts, sep).len() > 0 && joined(parts, sep).last()
            == parts.last().last(),
    decreases parts.len(),
{
    if parts.len() > 1 {
        lemma_joined_ends(parts.drop_last(), sep);
    }
}

/// A joined text starts with its first part, and the separator follows
/// that part if it is not the only one.
pub proof fn lemma_joined_starts(parts: Seq<Seq<char>>, sep: char)
    requires
        parts.len() >= 1,
    ensures
        parts[0].len() <= joined(parts, seq![sep]).len(),
        joined(parts, seq![sep]).subrange(0, parts[0].len() as int) == parts[0],
        parts.len() > 1 ==> parts[0].len() < joined(parts, seq![sep]).len() && joined(
            parts,
            seq![sep],
        )[parts[0].len() as int] == sep,
    decreases parts.len(),
{
    if parts.len() > 1 {
        lemma_joined_starts(parts.drop_last(), sep);
    }
}

/// A character that occurs in no part and not in the separator occurs
/// nowhere in the joined text.
pub proof fn lemma_joined_free_of(parts: Seq<Seq<char>>, sep: Seq<char>, c: char)
    requires
        forall|i: int| 0 <= i < parts.len() ==> free_of(#[trigger] parts[i], c),
        free_of(sep, c),
    ensures
        free_of(joined(parts, sep), c),
    decreases parts.len(),
{
    if parts.len() > 1 {
        lemma_joined_free_of(parts.drop_last(), sep, c);
    }
}

/// A class of characters to strip from the ends of a text.
enum Class {
    /// The whitespace characters.
    Whitespace,
    /// One character alone.
    Only(char),
}

impl Class {
    /// The class as a predicate.
    spec fn predicate(self) -> spec_fn(char) -> bool {
        match self {
            Class::Whitespace => whitespace(),
            Class::Only(m) => only(m),
        }
    }

    /// Tells whether `c` is of the class.
    fn holds(&self, c: char) -> (r: bool)
        ensures
            r == self.predicate()(c),
    {
        match self {
            Class::Whitespace => char_is_whitespace(c),
            Class::Only(m) => c == *m,
        }
    }
}

/// Finds the range of `s` that is left when the characters of `class` are
/// stripped from both ends.
fn strip_bounds(s: &str, class: &Class) -> (r: (usize, usize))
    ensures
        r.0 <= r.1 <= s@.len(),
        s@.subrange(r.0 as int, r.1 as int) == strip(s@, class.predicate()),
{
    let ghost p = class.predicate();
    let n = s.unicode_len();
    let mut from: usize = 0;
    let mut to: usize = 0;
    let mut i: usize = 0;
    for c in it: s.chars()
        invariant
            it.seq() == s@,
            n == s@.len(),
            i == it.index(),
            from <= to <= i,
            p == class.predicate(),
            to == 0 ==> from == 0,
            to == 0 ==> forall|j: int| 0 <= j < i ==> p(#[trigger] s@[j]),
            to > 0 ==> from < to && !p(s@[from as int]) && !p(s@[to - 1]),
            to > 0 ==> forall|j: int| 0 <= j < from ==> p(#[trigger] s@[j]),
            to > 0 ==> forall|j: int| to <= j < i ==> p(#[trigger] s@[j]),
    {
        if !class.holds(c) {
            if to == 0 {
                from = i;
            }
            to = i + 1;
        }
        i = i + 1;
    }
    proof {
        if to == 0 {
            lemma_strip_all(s@, p);
        } else {
            lemma_strip_range(s@, p, from as int, to as int);
        }
    }
    (from, to)
}

/// Removes surrounding whitespace.
pub fn trim<'a>(s: &'a str) -> (r: &'a str)
    ensures
        r@ == trimmed(s@),
{
    let (from, to) = strip_bounds(s, &Class::Whitespace);
    s.substring_char(from, to)
}

/// Removes the occurrences of `m` at either end.
pub fn trim_matches<'a>(s: &'a str, m: char) -> (r: &'a str)
    ensures
        r@ == trimmed_of(s@, m),
{
    let (from, to) = strip_bounds(s, &Class::Only(m));
    s.substring_char(from, to)
}

/// Splits `s` at each occurrence of `sep`.
pub fn split<'a>(s: &'a str, sep: char) -> (r: Vec<&'a str>)
    ensures
        r.deep_view() == pieces(s@, sep),
{
    let n = s.unicode_len();
    let mut out: Vec<&'a str> = Vec::new();
    let mut start: usize = 0;
    let mut i: usize = 0;
    assert(s@.subrange(0, 0) =~= Seq::<char>::empty());
    for c in it: s.chars()
        invariant
            it.seq() == s@,
            n == s@.len(),
            i == it.index(),
            start <= i,
            pieces(s@.subrange(0, i as int), sep) == out.deep_view().push(
                s@.subrange(start as int, i as int),
            ),
    {
        let ghost open = s@.subrange(start as int, i as int);
        assert(s@.subrange(0, i + 1).drop_last() =~= s@.subrange(0, i as int));
        if c == sep {
            out.push(s.substring_char(start, i));
            start = i + 1;
            assert(s@.subrange(start as int, i + 1) =~= Seq::<char>::empty());
        } else {
            assert(open.push(c) =~= s@.subrange(start as int, i + 1));
        }
        i = i + 1;
    }
    assert(s@.subrange(0, n as int) =~= s@);
    out.push(s.substring_char(start, n));
    out
}

/// Joins `parts` with `sep` between each two neighbours.
pub fn join(parts: &Vec<String>, sep: &str) -> (r: String)
    ensures
        r@ == joined(parts.deep_view(), sep@),
{
    let mut out = String::new();
    let mut i: usize = 0;
    while i < parts.len()
        invariant
            i <= parts.len(),
            out@ == joined(parts.deep_view().subrange(0, i as int), sep@),
        decreases parts.len() - i,
    {
        let ghost all = parts.deep_view();
        assert(all.subrange(0, i + 1).drop_last() =~= all.subrange(0, i as int));
        if i > 0 {
            out.append(sep);
        }
        out.append(parts[i].as_str());
        i = i + 1;
    }
    assert(parts.deep_view().subrange(0, i as int) =~= parts.deep_view());
    out
}

/// Tells whether two string slices hold the same text.
pub fn str_eq(a: &str, b: &str) -> (r: bool)
    ensures
        r == (a@ == b@),
{
    let x = a.as_bytes();
    let y = b.as_bytes();
    if x.len() != y.len() {
        return false;
    }
    let mut i: usize = 0;
    while i < x.len()
        invariant
            x@ == a.spec_bytes(),
            y@ == b.spec_bytes(),
            x@.len() == y@.len(),
            i <= x@.len(),
            forall|j: int| 0 <= j < i ==> x@[j] == y@[j],
        decreases x@.len() - i,
    {
        if x[i] != y[i] {
            return false;
        }
        i = i + 1;
    }
    proof {
        assert(x@ =~= y@);
        vstd::utf8::encode_utf8_decode_utf8(a@);
        vstd::utf8::encode_utf8_decode_utf8(b@);
    }
    true
}

/// The upper-case form of an ASCII letter; any other character unchanged.
pub open spec fn ascii_upper(c: char) -> char {
    if 'a' <= c <= 'z' {
        (c as int - 32) as char
    } else {
        c
    }
}

/// `s` with each ASCII letter in upper case.
pub open spec fn ascii_uppercase(s: Seq<char>) -> Seq<char> {
    Seq::new(s.len(), |i: int| ascii_upper(s[i]))
}

/// The upper-case form that Unicode gives a text.
pub uninterp spec fn unicode_uppercase(s: Seq<char>) -> Seq<char>;

/// The upper-case form of `s`. On ASCII text it maps the letters `a` to `z`
/// to `A` to `Z`; on any other text it is the form that Unicode defines.
pub open spec fn uppercase(s: Seq<char>) -> Seq<char> {
    if vstd::utf8::is_ascii_chars(s) {
        ascii_uppercase(s)
    } else {
        unicode_uppercase(s)
    }
}

/// Puts ASCII text in upper case.
fn to_ascii_uppercase(s: &str) -> (r: String)
    requires
        s.is_ascii(),
    ensures
        r@ == ascii_uppercase(s@),
{
    let letters = "ABCDEFGHIJKLMNOPQRSTUVWXYZ";
    proof {
        reveal_strlit("ABCDEFGHIJKLMNOPQRSTUVWXYZ");
        vstd::string::is_ascii_spec_bytes(s);
    }
    let n = s.as_bytes().len();
    let mut out = String::new();
    let mut i: usize = 0;
    while i < n
        invariant
            s.is_ascii(),
            n == s@.len(),
            i <= n,
            letters@ == "ABCDEFGHIJKLMNOPQRSTUVWXYZ"@,
            letters.is_ascii(),
            letters@.len() == 26,
            forall|k: int| 0 <= k < 26 ==> letters@[k] == (k + 65) as char,
            out@ == ascii_uppercase(s@.subrange(0, i as int)),
        decreases n - i,
    {
        let b = s.get_ascii(i);
        if b >= 97 && b <= 122 {
            let k: usize = (b - 97) as usize;
            out.append(letters.substring_ascii(k, k + 1));
        } else {
            out.append(s.substring_ascii(i, i + 1));
        }
        i = i + 1;
    }
    out
}

/// Calls `str::to_uppercase`, which puts a text in upper case by the rules
/// of Unicode. The contract claims only that the result depends on the text
/// alone, by giving it a name.
#[verifier::external_body]
fn to_unicode_uppercase(s: &str) -> (r: String)
    ensures
        r@ == unicode_uppercase(s@),
{
    s.to_uppercase()
}

/// Puts a text in upper case.
pub fn to_uppercase(s: &str) -> (r: String)
    ensures
        r@ == uppercase(s@),
{
    if s.is_ascii() {
        to_ascii_uppercase(s)
    } else {
        to_unicode_uppercase(s)
    }
}

} // verus!
