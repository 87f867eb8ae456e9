//! Character-level helpers shared by the string-processing modules.

use vstd::prelude::*;

verus! {

/// The characters of `s`, in order.
pub fn chars_of(s: &str) -> (v: Vec<char>)
    ensures
        v@ == s@,
{
    let mut v: Vec<char> = Vec::new();
    for c in it: s.chars()
        invariant
            it.seq() == s@,
            v@ == it.seq().take(it.index() as int),
    {
        v.push(c);
    }
    v
}

/// Appends one character to a `String` (`String::push`).
#[verifier::external_body]
pub(crate) fn push_char(s: &mut String, c: char)
    ensures
        final(s)@ == old(s)@.push(c),
{
    s.push(c);
}

/// Builds a `String` holding exactly the characters of `v`.
pub fn string_from_chars(v: &[char]) -> (s: String)
    ensures
        s@ == v@,
{
    let mut s = String::new();
    let mut i: usize = 0;
    while i < v.len()
        invariant
            i <= v.len(),
            s@ == v@.take(i as int),
        decreases v.len() - i,
    {
        push_char(&mut s, v[i]);
        assert(v@.take(i as int).push(v@[i as int]) =~= v@.take(i + 1));
        i += 1;
    }
    assert(v@.take(v.len() as int) =~= v@);
    s
}

/// Character-wise equality of two strings.
pub fn str_eq(a: &str, b: &str) -> (r: bool)
    ensures
        r == (a@ == b@),
{
    let x = String::from_str(a);
    let y = String::from_str(b);
    x == y
}

} // verus!

verus! {

/// Whether `c` occurs in `s`.
pub fn contains_char(s: &str, c: char) -> (r: bool)
    ensures
        r == s@.contains(c),
{
    let v = chars_of(s);
    let mut i: usize = 0;
    while i < v.len()
        invariant
            i <= v.len(),
            v@ == s@,
            forall|j: int| 0 <= j < i ==> v@[j] != c,
        decreases v.len() - i,
    {
        if v[i] == c {
            assert(s@[i as int] == c);
            return true;
        }
        i += 1;
    }
    false
}

/// The first position of `c` in `s`, if it occurs.
pub open spec fn is_first_index(s: Seq<char>, c: char, i: int) -> bool {
    &&& 0 <= i < s.len()
    &&& s[i] == c
    &&& forall|j: int| 0 <= j < i ==> s[j] != c
}

/// `s` split around the first occurrence of `c` (both sides without it), or
/// `None` when `c` does not occur — the behaviour of `str::split_once`.
pub open spec fn split_once_spec(s: Seq<char>, c: char) -> Option<(Seq<char>, Seq<char>)> {
    if s.contains(c) {
        let i = choose|i: int| is_first_index(s, c, i);
        Some((s.take(i), s.skip(i + 1)))
    } else {
        None
    }
}

/// There is a first occurrence whenever `c` occurs, and it is unique.
pub proof fn lemma_first_index(s: Seq<char>, c: char, i: int)
    requires
        is_first_index(s, c, i),
    ensures
        s.contains(c),
        (choose|k: int| is_first_index(s, c, k)) == i,
{
    assert(s[i] == c);
    let k = choose|k: int| is_first_index(s, c, k);
    assert(is_first_index(s, c, k));
    if k < i {
        assert(s[k] != c);
    }
    if i < k {
        assert(s[i] != c);
    }
}

/// Splits `v` around the first occurrence of `c`.
pub fn split_once_chars(v: &[char], c: char) -> (r: Option<(String, String)>)
    ensures
        match r {
            Some((a, b)) => split_once_spec(v@, c) == Some((a@, b@)),
            None => split_once_spec(v@, c) is None,
        },
{
    let mut i: usize = 0;
    while i < v.len()
        invariant
            i <= v.len(),
            forall|j: int| 0 <= j < i ==> v@[j] != c,
        decreases v.len() - i,
    {
        if v[i] == c {
            proof {
                lemma_first_index(v@, c, i as int);
            }
            let left = string_from_chars(vstd::slice::slice_subrange(v, 0, i));
            let right = string_from_chars(vstd::slice::slice_subrange(v, i + 1, v.len()));
            assert(v@.subrange(0, i as int) =~= v@.take(i as int));
            assert(v@.subrange(i + 1, v@.len() as int) =~= v@.skip(i + 1));
            return Some((left, right));
        }
        i += 1;
    }
    assert(!v@.contains(c));
    None
}

} // verus!

verus! {

/// Unicode `White_Space`, the property that `char::is_whitespace` tests.
pub open spec fn is_whitespace_spec(c: char) -> bool {
    ||| ('\u{9}' <= c && c <= '\u{d}')
    ||| c == ' '
    ||| c == '\u{85}'
    ||| c == '\u{a0}'
    ||| c == '\u{1680}'
    ||| ('\u{2000}' <= c && c <= '\u{200a}')
    ||| c == '\u{2028}'
    ||| c == '\u{2029}'
    ||| c == '\u{202f}'
    ||| c == '\u{205f}'
    ||| c == '\u{3000}'
}

/// Whether `c` is Unicode white space.
pub fn is_whitespace(c: char) -> (r: bool)
    ensures
        r == is_whitespace_spec(c),
{
    ('\u{9}' <= c && c <= '\u{d}') || c == ' ' || c == '\u{85}' || c == '\u{a0}' || c == '\u{1680}'
        || ('\u{2000}' <= c && c <= '\u{200a}') || c == '\u{2028}' || c == '\u{2029}' || c
        == '\u{202f}' || c == '\u{205f}' || c == '\u{3000}'
}

/// Number of leading white-space characters of `s`.
pub open spec fn leading_ws(s: Seq<char>) -> nat
    decreases s.len(),
{
    if s.len() > 0 && is_whitespace_spec(s[0]) {
        1 + leading_ws(s.drop_first())
    } else {
        0
    }
}

/// `s` without its leading white space (`str::trim_start`).
pub open spec fn trim_start_spec(s: Seq<char>) -> Seq<char> {
    s.skip(leading_ws(s) as int)
}

/// `s` without its trailing white space (`str::trim_end`).
pub open spec fn trim_end_spec(s: Seq<char>) -> Seq<char>
    decreases s.len(),
{
    if s.len() > 0 && is_whitespace_spec(s.last()) {
        trim_end_spec(s.drop_last())
    } else {
        s
    }
}

/// `s` without leading and trailing white space (`str::trim`).
pub open spec fn trim_spec(s: Seq<char>) -> Seq<char> {
    trim_end_spec(trim_start_spec(s))
}

proof fn lemma_leading_ws_bound(s: Seq<char>)
    ensures
        leading_ws(s) <= s.len(),
    decreases s.len(),
{
    if s.len() > 0 && is_whitespace_spec(s[0]) {
        lemma_leading_ws_bound(s.drop_first());
    }
}

/// Position of the first non-white-space character of `v`, from `i` on.
fn skip_ws_from(v: &[char], i: usize) -> (r: usize)
    requires
        i <= v@.len(),
    ensures
        r == i + leading_ws(v@.skip(i as int)),
        r <= v@.len(),
    decreases v@.len() - i,
{
    proof {
        lemma_leading_ws_bound(v@.skip(i as int));
    }
    if i < v.len() && is_whitespace(v[i]) {
        assert(v@.skip(i as int).drop_first() =~= v@.skip(i + 1));
        skip_ws_from(v, i + 1)
    } else {
        i
    }
}

/// End (exclusive) of `v[lo..hi]` once its trailing white space is removed.
fn trim_end_bound(v: &[char], lo: usize, hi: usize) -> (r: usize)
    requires
        lo <= hi <= v@.len(),
    ensures
        lo <= r <= hi,
        v@.subrange(lo as int, r as int) == trim_end_spec(v@.subrange(lo as int, hi as int)),
    decreases hi - lo,
{
    if hi > lo && is_whitespace(v[hi - 1]) {
        assert(v@.subrange(lo as int, hi as int).drop_last() =~= v@.subrange(lo as int, hi - 1));
        trim_end_bound(v, lo, hi - 1)
    } else {
        hi
    }
}

/// `v` without leading and trailing white space.
pub fn trim_chars(v: &[char]) -> (r: Vec<char>)
    ensures
        r@ == trim_spec(v@),
{
    let lo = skip_ws_from(v, 0);
    assert(v@.skip(0) =~= v@);
    let hi = trim_end_bound(v, lo, v.len());
    assert(v@.subrange(lo as int, v@.len() as int) =~= trim_start_spec(v@));
    vstd::slice::slice_to_vec(vstd::slice::slice_subrange(v, lo, hi))
}

/// `s` without leading and trailing white space (`str::trim`).
pub fn trim(s: &str) -> (r: String)
    ensures
        r@ == trim_spec(s@),
{
    let v = chars_of(s);
    let t = trim_chars(v.as_slice());
    string_from_chars(t.as_slice())
}

} // verus!

verus! {

proof fn lemma_trim_end_prefix(s: Seq<char>)
    ensures
        trim_end_spec(s).len() <= s.len(),
        trim_end_spec(s) =~= s.take(trim_end_spec(s).len() as int),
    decreases s.len(),
{
    if s.len() > 0 && is_whitespace_spec(s.last()) {
        lemma_trim_end_prefix(s.drop_last());
        assert(s.drop_last().take(trim_end_spec(s).len() as int) =~= s.take(trim_end_spec(s).len() as int));
    }
}

/// `trim_spec(s)` is the piece of `s` that starts after its leading whitespace.
pub proof fn lemma_trim_infix(s: Seq<char>)
    ensures
        0 <= leading_ws(s),
        leading_ws(s) + trim_spec(s).len() <= s.len(),
        trim_spec(s) =~= s.subrange(leading_ws(s) as int, (leading_ws(s) + trim_spec(s).len()) as int),
{
    lemma_leading_ws_bound(s);
    let k = leading_ws(s) as int;
    let st = trim_start_spec(s);
    lemma_trim_end_prefix(st);
    assert(trim_spec(s) =~= s.subrange(k, k + trim_spec(s).len()));
}

/// The texts of a sequence of strings.
pub open spec fn views(v: Seq<String>) -> Seq<Seq<char>> {
    v.map_values(|s: String| s@)
}

/// Splitting `s` at every `c`, one character at a time: the finished pieces
/// and the piece being built.
pub open spec fn split_fold(s: Seq<char>, c: char) -> (Seq<Seq<char>>, Seq<char>)
    decreases s.len(),
{
    if s.len() == 0 {
        (Seq::empty(), Seq::empty())
    } else {
        let (done, cur) = split_fold(s.drop_last(), c);
        if s.last() == c {
            (done.push(cur), Seq::empty())
        } else {
            (done, cur.push(s.last()))
        }
    }
}

/// The pieces of `s` between occurrences of `c` (`str::split`): always at
/// least one, empty pieces included.
pub open spec fn split_spec(s: Seq<char>, c: char) -> Seq<Seq<char>> {
    split_fold(s, c).0.push(split_fold(s, c).1)
}

/// `x` without one trailing carriage return.
pub open spec fn strip_cr(x: Seq<char>) -> Seq<char> {
    if x.len() > 0 && x.last() == '\r' {
        x.drop_last()
    } else {
        x
    }
}

/// The lines of `s` (`str::lines`): split at `\n`, a `\r` before the `\n`
/// removed, no final empty line.
pub open spec fn lines_spec(s: Seq<char>) -> Seq<Seq<char>> {
    let (done, cur) = split_fold(s, '\n');
    done.map_values(|x: Seq<char>| strip_cr(x)) + if cur.len() > 0 {
        seq![cur]
    } else {
        Seq::<Seq<char>>::empty()
    }
}

/// The finished pieces and the current piece of splitting `v` at `c`.
fn split_parts(v: &[char], c: char) -> (r: (Vec<String>, Vec<char>))
    ensures
        views(r.0@) == split_fold(v@, c).0,
        r.1@ == split_fold(v@, c).1,
{
    let mut done: Vec<String> = Vec::new();
    let mut cur: Vec<char> = Vec::new();
    let mut i: usize = 0;
    while i < v.len()
        invariant
            i <= v@.len(),
            views(done@) == split_fold(v@.take(i as int), c).0,
            cur@ == split_fold(v@.take(i as int), c).1,
        decreases v.len() - i,
    {
        assert(v@.take(i + 1).drop_last() =~= v@.take(i as int));
        if v[i] == c {
            let piece = string_from_chars(cur.as_slice());
            proof {
                assert(views(done@.push(piece)) =~= views(done@).push(piece@));
            }
            done.push(piece);
            cur = Vec::new();
        } else {
            cur.push(v[i]);
        }
        i += 1;
    }
    assert(v@.take(v@.len() as int) =~= v@);
    (done, cur)
}

/// The pieces of `s` between occurrences of `c` (`str::split`).
pub fn split_str(s: &str, c: char) -> (r: Vec<String>)
    ensures
        views(r@) == split_spec(s@, c),
{
    let v = chars_of(s);
    let (mut done, cur) = split_parts(v.as_slice(), c);
    let last = string_from_chars(cur.as_slice());
    proof {
        assert(views(done@.push(last)) =~= views(done@).push(last@));
    }
    done.push(last);
    done
}

/// The lines of `s` (`str::lines`).
pub fn lines(s: &str) -> (r: Vec<String>)
    ensures
        views(r@) == lines_spec(s@),
{
    let v = chars_of(s);
    let (done, cur) = split_parts(v.as_slice(), '\n');
    let ghost pieces = split_fold(s@, '\n').0;
    let mut r: Vec<String> = Vec::new();
    let mut i: usize = 0;
    while i < done.len()
        invariant
            i <= done@.len(),
            views(done@) == pieces,
            views(r@) == pieces.take(i as int).map_values(|x: Seq<char>| strip_cr(x)),
        decreases done.len() - i,
    {
        let piece = chars_of(done[i].as_str());
        let n = piece.len();
        let kept = if n > 0 && piece[n - 1] == '\r' {
            vstd::slice::slice_subrange(piece.as_slice(), 0, n - 1)
        } else {
            vstd::slice::slice_subrange(piece.as_slice(), 0, n)
        };
        proof {
            assert(pieces[i as int] == done@[i as int]@);
            if n > 0 && piece@[n - 1] == '\r' {
                assert(kept@ =~= piece@.drop_last());
            } else {
                assert(kept@ =~= piece@);
            }
        }
        let line = string_from_chars(kept);
        proof {
            assert(views(r@.push(line)) =~= views(r@).push(line@));
            assert(pieces.take(i + 1).map_values(|x: Seq<char>| strip_cr(x)) =~= pieces.take(i as int).map_values(
                |x: Seq<char>| strip_cr(x),
            ).push(strip_cr(pieces[i as int])));
        }
        r.push(line);
        i += 1;
    }
    assert(pieces.take(done@.len() as int) =~= pieces);
    if cur.len() > 0 {
        let last = string_from_chars(cur.as_slice());
        proof {
            assert(views(r@.push(last)) =~= views(r@).push(last@));
        }
        r.push(last);
    }
    proof {
        assert(views(r@) =~= lines_spec(s@));
    }
    r
}

/// Trimming leaves alone a text that neither starts nor ends with white space.
pub proof fn lemma_trim_unchanged(s: Seq<char>)
    requires
        s.len() > 0 ==> !is_whitespace_spec(s[0]) && !is_whitespace_spec(s.last()),
    ensures
        trim_spec(s) == s,
{
    assert(s.skip(0) =~= s);
}

} // verus!
