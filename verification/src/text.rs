//! Text utilities: comparing, splitting and trimming strings.

use vstd::prelude::*;

verus! {

/// Whether `c` has the Unicode `White_Space` property: U+0009 to U+000D, U+0020,
/// U+0085, U+00A0, U+1680, U+2000 to U+200A, U+2028, U+2029, U+202F, U+205F and U+3000.
pub open spec fn white_space(c: char) -> bool {
    let u = c as u32;
    ||| 0x9 <= u <= 0xd
    ||| u == 0x20
    ||| u == 0x85
    ||| u == 0xa0
    ||| u == 0x1680
    ||| 0x2000 <= u <= 0x200a
    ||| u == 0x2028
    ||| u == 0x2029
    ||| u == 0x202f
    ||| u == 0x205f
    ||| u == 0x3000
}

/// Whether `c` has the Unicode `White_Space` property (what `char::is_whitespace`
/// reports).
fn is_whitespace(c: char) -> (r: bool)
    ensures
        r == white_space(c),
{
    let u = c as u32;
    (0x9 <= u && u <= 0xd) || u == 0x20 || u == 0x85 || u == 0xa0 || u == 0x1680 || (0x2000 <= u
        && u <= 0x200a) || u == 0x2028 || u == 0x2029 || u == 0x202f || u == 0x205f || u == 0x3000
}

/// Whether the string `s` spells exactly the literal `lit`.
pub fn text_is(s: &String, lit: &str) -> (r: bool)
    ensures
        r == (s@ == lit@),
{
    let t = String::from_str(lit);
    s.eq(&t)
}

/// The characters of `s`, in order.
pub fn chars_of(s: &str) -> (v: Vec<char>)
    ensures
        v@ == s@,
{
    let mut v: Vec<char> = Vec::new();
    for c in it: s.chars()
        invariant
            v@ == it.seq().take(it.index() as int),
            it.seq() == s@,
    {
        v.push(c);
    }
    v
}

/// The pieces of `s` between occurrences of `sep`, in order; `n` separators give
/// `n + 1` pieces, empty ones included (what `str::split` yields for a `char`).
pub open spec fn split_on(s: Seq<char>, sep: char) -> Seq<Seq<char>>
    decreases s.len(),
{
    if s.len() == 0 {
        seq![Seq::empty()]
    } else {
        let init = split_on(s.drop_last(), sep);
        if s.last() == sep {
            init.push(Seq::empty())
        } else {
            init.update(init.len() - 1, init.last().push(s.last()))
        }
    }
}

/// `s` without its leading white space.
pub open spec fn trim_start(s: Seq<char>) -> Seq<char>
    decreases s.len(),
{
    if s.len() > 0 && white_space(s[0]) {
        trim_start(s.drop_first())
    } else {
        s
    }
}

/// `s` without its trailing white space.
pub open spec fn trim_end(s: Seq<char>) -> Seq<char>
    decreases s.len(),
{
    if s.len() > 0 && white_space(s.last()) {
        trim_end(s.drop_last())
    } else {
        s
    }
}

/// `s` without leading and trailing white space (what `str::trim` returns).
pub open spec fn trim(s: Seq<char>) -> Seq<char> {
    trim_end(trim_start(s))
}

/// `r` holds, in order, the bounds in `v` of each of `pieces`.
spec fn bounds_of(v: Seq<char>, r: Seq<(usize, usize)>, pieces: Seq<Seq<char>>) -> bool {
    &&& r.len() == pieces.len()
    &&& forall|k: int|
        0 <= k < r.len() ==> {
            &&& #[trigger] r[k].0 <= r[k].1 <= v.len()
            &&& v.subrange(r[k].0 as int, r[k].1 as int) == pieces[k]
        }
}

proof fn lemma_bounds_push(v: Seq<char>, r: Seq<(usize, usize)>, pieces: Seq<Seq<char>>, a: usize, b: usize)
    requires
        bounds_of(v, r, pieces),
        a <= b <= v.len(),
    ensures
        bounds_of(v, r.push((a, b)), pieces.push(v.subrange(a as int, b as int))),
{
    let r2 = r.push((a, b));
    let p2 = pieces.push(v.subrange(a as int, b as int));
    assert forall|k: int| 0 <= k < r2.len() implies {
        &&& #[trigger] r2[k].0 <= r2[k].1 <= v.len()
        &&& v.subrange(r2[k].0 as int, r2[k].1 as int) == p2[k]
    } by {
        if k < r.len() {
            assert(r2[k] == r[k]);
            assert(r[k].0 <= r[k].1);
        }
    }
}

/// The bounds, in `v`, of the pieces of `v` between occurrences of `sep`.
fn split_ranges(v: &Vec<char>, sep: char) -> (r: Vec<(usize, usize)>)
    ensures
        bounds_of(v@, r@, split_on(v@, sep)),
{
    let mut r: Vec<(usize, usize)> = Vec::new();
    let mut start: usize = 0;
    let n = v.len();
    proof {
        assert(v@.take(0) =~= Seq::<char>::empty());
    }
    for i in 0..n
        invariant
            n == v@.len(),
            start <= i,
            bounds_of(v@, r@, split_on(v@.take(i as int), sep).drop_last()),
            split_on(v@.take(i as int), sep).len() >= 1,
            v@.subrange(start as int, i as int) == split_on(v@.take(i as int), sep).last(),
    {
        let ghost pre = v@.take(i as int);
        let ghost cur = v@.take(i + 1);
        let ghost old_r = r@;
        let ghost old_start = start;
        proof {
            assert(cur.drop_last() =~= pre);
            assert(cur.last() == v@[i as int]);
        }
        if v[i] == sep {
            proof {
                assert(v@.subrange(i + 1, i + 1) =~= Seq::<char>::empty());
                let pp = split_on(pre, sep);
                assert(split_on(cur, sep) == pp.push(Seq::empty()));
                assert(split_on(cur, sep).drop_last() =~= pp);
                assert(pp =~= pp.drop_last().push(pp.last()));
                lemma_bounds_push(v@, old_r, pp.drop_last(), old_start, i);
            }
            r.push((start, i));
            start = i + 1;
        } else {
            proof {
                assert(v@.subrange(start as int, i + 1) =~= v@.subrange(start as int, i as int).push(
                    v@[i as int],
                ));
                assert(split_on(cur, sep).drop_last() =~= split_on(pre, sep).drop_last());
            }
        }
    }
    proof {
        assert(v@.take(n as int) =~= v@);
        let pieces = split_on(v@, sep);
        assert(pieces =~= pieces.drop_last().push(pieces.last()));
        lemma_bounds_push(v@, r@, pieces.drop_last(), start, n);
    }
    r.push((start, n));
    r
}

/// The bounds, in `v`, of `v[a..b]` without its leading and trailing white space.
fn trim_range(v: &Vec<char>, a: usize, b: usize) -> (r: (usize, usize))
    requires
        a <= b <= v@.len(),
    ensures
        a <= r.0 <= r.1 <= b,
        v@.subrange(r.0 as int, r.1 as int) == trim(v@.subrange(a as int, b as int)),
{
    let mut i = a;
    while i < b && is_whitespace(v[i])
        invariant
            a <= i <= b <= v@.len(),
            trim_start(v@.subrange(a as int, b as int)) == trim_start(v@.subrange(i as int, b as int)),
        decreases b - i,
    {
        assert(v@.subrange(i as int, b as int).drop_first() =~= v@.subrange(i + 1, b as int));
        i = i + 1;
    }
    let mut j = b;
    while j > i && is_whitespace(v[j - 1])
        invariant
            i <= j <= b <= v@.len(),
            trim_start(v@.subrange(a as int, b as int)) == v@.subrange(i as int, b as int),
            trim_end(v@.subrange(i as int, b as int)) == trim_end(v@.subrange(i as int, j as int)),
        decreases j - i,
    {
        assert(v@.subrange(i as int, j as int).drop_last() =~= v@.subrange(i as int, j - 1));
        j = j - 1;
    }
    (i, j)
}

/// The pieces of `s` between occurrences of `sep`, each trimmed of white space:
/// what `s.split(sep).map(str::trim)` yields.
pub fn split_trimmed(s: &str, sep: char) -> (r: Vec<String>)
    ensures
        r@.len() == split_on(s@, sep).len(),
        forall|k: int| 0 <= k < r@.len() ==> #[trigger] r@[k]@ == trim(split_on(s@, sep)[k]),
{
    let v = chars_of(s);
    let ranges = split_ranges(&v, sep);
    let mut r: Vec<String> = Vec::new();
    for k in 0..ranges.len()
        invariant
            v@ == s@,
            bounds_of(v@, ranges@, split_on(s@, sep)),
            r@.len() == k,
            forall|m: int| 0 <= m < k ==> #[trigger] r@[m]@ == trim(split_on(s@, sep)[m]),
    {
        let (a, b) = ranges[k];
        assert(ranges@[k as int].0 <= ranges@[k as int].1 <= v@.len());
        let (x, y) = trim_range(&v, a, b);
        let piece = String::from_str(s.substring_char(x, y));
        r.push(piece);
    }
    r
}

/// Each of `items` followed by `sep`, in order.
pub open spec fn terminated(items: Seq<String>, sep: Seq<char>) -> Seq<char>
    decreases items.len(),
{
    if items.len() == 0 {
        Seq::empty()
    } else {
        terminated(items.drop_last(), sep) + items.last()@ + sep
    }
}

/// The text of one item is the item followed by the separator.
pub proof fn lemma_terminated_one(x: String, sep: Seq<char>)
    ensures
        terminated(seq![x], sep) == x@ + sep,
{
    assert(seq![x].drop_last() =~= Seq::<String>::empty());
    assert(terminated(seq![x].drop_last(), sep) == Seq::<char>::empty());
    assert(seq![x].last() == x);
    assert(Seq::<char>::empty() + x@ + sep =~= x@ + sep);
}

/// The text of items `a` then `b` is the text of `a` followed by that of `b`.
pub proof fn lemma_terminated_concat(a: Seq<String>, b: Seq<String>, sep: Seq<char>)
    ensures
        terminated(a + b, sep) == terminated(a, sep) + terminated(b, sep),
    decreases b.len(),
{
    if b.len() == 0 {
        assert(a + b =~= a);
        assert(terminated(a, sep) + Seq::<char>::empty() =~= terminated(a, sep));
    } else {
        assert((a + b).drop_last() =~= a + b.drop_last());
        assert((a + b).last() == b.last());
        lemma_terminated_concat(a, b.drop_last(), sep);
        assert(terminated(a, sep) + terminated(b.drop_last(), sep) + b.last()@ + sep =~= terminated(a, sep)
            + (terminated(b.drop_last(), sep) + b.last()@ + sep));
    }
}

/// Appends to `r` each of `items` followed by `sep`.
pub fn append_terminated(r: &mut String, items: &Vec<String>, sep: &str)
    ensures
        final(r)@ == old(r)@ + terminated(items@, sep@),
{
    let ghost head = r@;
    assert(items@.take(0) =~= Seq::<String>::empty());
    for k in 0..items.len()
        invariant
            r@ == head + terminated(items@.take(k as int), sep@),
    {
        assert(items@.take(k + 1).drop_last() =~= items@.take(k as int));
        r.append(items[k].as_str());
        r.append(sep);
    }
    assert(items@.take(items@.len() as int) =~= items@);
}

} // verus!
