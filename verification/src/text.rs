//! Character-level text utilities over `Seq<char>` models.

use vstd::prelude::*;

verus! {

/// The Unicode `White_Space` property, the set that `char::is_whitespace`
/// and `str::trim` use.
pub open spec fn is_space(c: char) -> bool {
    let n = c as u32;
    ||| 0x9 <= n <= 0xd
    ||| n == 0x20
    ||| n == 0x85
    ||| n == 0xa0
    ||| n == 0x1680
    ||| 0x2000 <= n <= 0x200a
    ||| n == 0x2028
    ||| n == 0x2029
    ||| n == 0x202f
    ||| n == 0x205f
    ||| n == 0x3000
}

/// Whether `c` has the Unicode `White_Space` property.
pub fn is_space_char(c: char) -> (r: bool)
    ensures
        r == is_space(c),
{
    let n = c as u32;
    (0x9 <= n && n <= 0xd) || n == 0x20 || n == 0x85 || n == 0xa0 || n == 0x1680 || (0x2000
        <= n && n <= 0x200a) || n == 0x2028 || n == 0x2029 || n == 0x202f || n == 0x205f || n
        == 0x3000
}

/// The characters of `s`, in order.
pub fn chars_of(s: &str) -> (v: Vec<char>)
    ensures
        v@ == s@,
{
    let mut v: Vec<char> = Vec::new();
    for c in it: s.chars()
        invariant
            v@ == it.seq().take(it.index() as int),
    {
        v.push(c);
    }
    v
}

} // verus!

verus! {

/// `s` with leading white space removed (`str::trim_start`).
pub open spec fn trim_start(s: Seq<char>) -> Seq<char>
    decreases s.len(),
{
    if s.len() > 0 && is_space(s[0]) {
        trim_start(s.drop_first())
    } else {
        s
    }
}

/// `s` with trailing white space removed (`str::trim_end`).
pub open spec fn trim_end(s: Seq<char>) -> Seq<char>
    decreases s.len(),
{
    if s.len() > 0 && is_space(s.last()) {
        trim_end(s.drop_last())
    } else {
        s
    }
}

/// `s` with leading and trailing white space removed (`str::trim`).
pub open spec fn trim(s: Seq<char>) -> Seq<char> {
    trim_end(trim_start(s))
}

/// Whether `h` begins with `n`.
pub open spec fn starts_with(h: Seq<char>, n: Seq<char>) -> bool {
    n.len() <= h.len() && h.take(n.len() as int) == n
}

/// Whether `h` ends with `n`.
pub open spec fn ends_with(h: Seq<char>, n: Seq<char>) -> bool {
    n.len() <= h.len() && h.skip(h.len() - n.len()) == n
}

/// Whether `n` occurs in `h` at position `i`.
pub open spec fn matches_at(h: Seq<char>, n: Seq<char>, i: int) -> bool {
    0 <= i && i + n.len() <= h.len() && h.subrange(i, i + n.len()) == n
}

/// Whether `n` occurs somewhere in `h` (`str::contains`).
pub open spec fn contains(h: Seq<char>, n: Seq<char>) -> bool {
    exists|i: int| matches_at(h, n, i)
}

/// The position of the first occurrence of `n` in `h`, or `h.len()` where
/// there is none.
pub open spec fn first_match(h: Seq<char>, n: Seq<char>) -> int
    decreases h.len(),
{
    if h.len() == 0 || h.len() < n.len() {
        h.len() as int
    } else if h.take(n.len() as int) == n {
        0
    } else {
        1 + first_match(h.drop_first(), n)
    }
}

/// What precedes the first occurrence of `n` in `h`, or all of `h` where
/// `n` does not occur (the first item of `str::split`).
pub open spec fn before_first(h: Seq<char>, n: Seq<char>) -> Seq<char> {
    h.take(first_match(h, n))
}

/// The first match lies within `h`, is a match where it leaves room for `n`,
/// and no match comes before it.
pub proof fn lemma_first_match(h: Seq<char>, n: Seq<char>)
    ensures
        0 <= first_match(h, n) <= h.len(),
        first_match(h, n) + n.len() <= h.len() ==> matches_at(h, n, first_match(h, n)),
        forall|i: int| 0 <= i < first_match(h, n) ==> !matches_at(h, n, i),
        first_match(h, n) + n.len() > h.len() ==> first_match(h, n) == h.len(),
    decreases h.len(),
{
    if h.len() == 0 || h.len() < n.len() {
        if h.len() == 0 && n.len() == 0 {
            assert(h.subrange(0, 0) =~= n);
        }
    } else if h.take(n.len() as int) == n {
        assert(h.subrange(0, n.len() as int) == h.take(n.len() as int));
    } else {
        let t = h.drop_first();
        lemma_first_match(t, n);
        assert(!matches_at(h, n, 0)) by {
            assert(h.subrange(0, n.len() as int) == h.take(n.len() as int));
        }
        assert forall|i: int| 0 < i < first_match(h, n) implies !matches_at(h, n, i) by {
            assert(!matches_at(t, n, i - 1));
            if i + n.len() <= h.len() {
                assert(h.subrange(i, i + n.len()) =~= t.subrange(i - 1, i - 1 + n.len()));
            }
        }
        if first_match(h, n) + n.len() <= h.len() {
            let k = first_match(t, n);
            assert(h.subrange(k + 1, k + 1 + n.len()) =~= t.subrange(k, k + n.len()));
        }
    }
}

/// `n` occurs in `h` exactly when its first match leaves room for it.
pub proof fn lemma_contains_first_match(h: Seq<char>, n: Seq<char>)
    ensures
        contains(h, n) <==> first_match(h, n) + n.len() <= h.len(),
{
    lemma_first_match(h, n);
    if contains(h, n) {
        let i = choose|i: int| matches_at(h, n, i);
        assert(!(first_match(h, n) + n.len() > h.len())) by {
            if first_match(h, n) + n.len() > h.len() {
                assert(i < first_match(h, n));
            }
        }
    }
}

/// The characters `v[from..to]`.
pub fn slice_chars(v: &Vec<char>, from: usize, to: usize) -> (r: Vec<char>)
    requires
        from <= to <= v.len(),
    ensures
        r@ == v@.subrange(from as int, to as int),
{
    let mut r: Vec<char> = Vec::new();
    let mut i = from;
    while i < to
        invariant
            from <= i <= to <= v.len(),
            r@ == v@.subrange(from as int, i as int),
        decreases to - i,
    {
        r.push(v[i]);
        i = i + 1;
    }
    r
}

/// Whether `n` occurs in `h` at position `i`.
pub fn matches_at_exec(h: &Vec<char>, n: &Vec<char>, i: usize) -> (r: bool)
    ensures
        r == matches_at(h@, n@, i as int),
{
    if i > h.len() || n.len() > h.len() - i {
        return false;
    }
    let mut k: usize = 0;
    while k < n.len()
        invariant
            i + n.len() <= h.len(),
            0 <= k <= n.len(),
            forall|j: int| 0 <= j < k ==> h@[i + j] == n@[j],
        decreases n.len() - k,
    {
        if h[i + k] != n[k] {
            assert(h@.subrange(i as int, i + n.len())[k as int] != n@[k as int]);
            return false;
        }
        k = k + 1;
    }
    assert(h@.subrange(i as int, i + n.len()) =~= n@);
    true
}

/// Whether `h` begins with `n`.
pub fn starts_with_exec(h: &Vec<char>, n: &Vec<char>) -> (r: bool)
    ensures
        r == starts_with(h@, n@),
{
    let r = matches_at_exec(h, n, 0);
    assert(h@.subrange(0, n@.len() as int) == h@.take(n@.len() as int));
    r
}

/// The position of the first occurrence of `n` in `h`, or `h.len()`.
pub fn find_exec(h: &Vec<char>, n: &Vec<char>) -> (k: usize)
    ensures
        k == first_match(h@, n@),
{
    if n.len() > h.len() {
        return h.len();
    }
    if n.len() == 0 {
        assert(h@.take(0) =~= n@);
        return 0;
    }
    let last = h.len() - n.len();
    let mut i: usize = 0;
    assert(h@.skip(0) == h@);
    while i <= last
        invariant
            last == h.len() - n.len(),
            n.len() > 0,
            i <= last + 1,
            first_match(h@, n@) == i + first_match(h@.skip(i as int), n@),
        decreases last + 1 - i,
    {
        let ghost t = h@.skip(i as int);
        assert(t.take(n.len() as int) == h@.subrange(i as int, i + n.len()));
        if matches_at_exec(h, n, i) {
            return i;
        }
        assert(t.drop_first() =~= h@.skip(i + 1));
        i = i + 1;
    }
    h.len()
}

/// The number of leading white-space characters of `v`.
fn leading_space_count(v: &Vec<char>) -> (i: usize)
    ensures
        i <= v.len(),
        trim_start(v@) == v@.subrange(i as int, v.len() as int),
{
    let n = v.len();
    let mut i: usize = 0;
    assert(v@.skip(0) =~= v@);
    loop
        invariant
            n == v.len(),
            i <= n,
            trim_start(v@) == trim_start(v@.skip(i as int)),
        decreases n - i,
    {
        if i == n {
            assert(v@.skip(i as int) =~= v@.subrange(i as int, n as int));
            return i;
        }
        if !is_space_char(v[i]) {
            assert(v@.skip(i as int) =~= v@.subrange(i as int, n as int));
            return i;
        }
        assert(v@.skip(i as int).drop_first() =~= v@.skip(i + 1));
        i = i + 1;
    }
}

/// The end of `v[from..]` once trailing white space is removed.
fn trailing_space_start(v: &Vec<char>, from: usize) -> (j: usize)
    requires
        from <= v.len(),
    ensures
        from <= j <= v.len(),
        trim_end(v@.subrange(from as int, v.len() as int)) == v@.subrange(from as int, j as int),
{
    let mut j: usize = v.len();
    loop
        invariant
            from <= j <= v.len(),
            trim_end(v@.subrange(from as int, v.len() as int)) == trim_end(
                v@.subrange(from as int, j as int),
            ),
        decreases j,
    {
        if j == from {
            return j;
        }
        if !is_space_char(v[j - 1]) {
            return j;
        }
        assert(v@.subrange(from as int, j as int).drop_last() =~= v@.subrange(
            from as int,
            j - 1,
        ));
        j = j - 1;
    }
}

/// `v` with leading and trailing white space removed.
pub fn trim_exec(v: &Vec<char>) -> (r: Vec<char>)
    ensures
        r@ == trim(v@),
{
    let i = leading_space_count(v);
    let j = trailing_space_start(v, i);
    slice_chars(v, i, j)
}

/// A `String` holding exactly the characters of `v`, in order.
///
/// Built with std's `FromIterator<&char>` for `String`; the contract claims
/// that the result is the characters of `v`, which std documents for it.
#[verifier::external_body]
pub(crate) fn string_from_chars(v: &Vec<char>) -> (s: String)
    ensures
        s@ == v@,
{
    v.iter().collect()
}

} // verus!

verus! {

/// Whether `a` and `b` hold the same characters.
pub fn same_chars(a: &Vec<char>, b: &Vec<char>) -> (r: bool)
    ensures
        r == (a@ == b@),
{
    if a.len() != b.len() {
        return false;
    }
    let mut i: usize = 0;
    while i < a.len()
        invariant
            a.len() == b.len(),
            i <= a.len(),
            forall|j: int| 0 <= j < i ==> a@[j] == b@[j],
        decreases a.len() - i,
    {
        if a[i] != b[i] {
            return false;
        }
        i = i + 1;
    }
    assert(a@ =~= b@);
    true
}

/// Whether the characters of `v` spell `s`.
pub fn spells(v: &Vec<char>, s: &str) -> (r: bool)
    ensures
        r == (v@ == s@),
{
    let w = chars_of(s);
    same_chars(v, &w)
}

/// Appends the characters of `s` to `v`.
pub fn push_str_chars(v: &mut Vec<char>, s: &str)
    ensures
        final(v)@ == old(v)@ + s@,
{
    let w = chars_of(s);
    push_all(v, &w);
}

/// Appends the characters of `w` to `v`.
pub fn push_all(v: &mut Vec<char>, w: &Vec<char>)
    ensures
        final(v)@ == old(v)@ + w@,
{
    let ghost start = v@;
    let mut i: usize = 0;
    while i < w.len()
        invariant
            i <= w.len(),
            v@ == start + w@.take(i as int),
        decreases w.len() - i,
    {
        v.push(w[i]);
        assert(w@.take(i + 1) =~= w@.take(i as int).push(w@[i as int]));
        i = i + 1;
    }
    assert(w@.take(w.len() as int) =~= w@);
}

} // verus!

verus! {

/// The decimal digit character for `d < 10`.
pub open spec fn digit_char(d: nat) -> char {
    ((d + 48) as u8) as char
}

/// The decimal rendering of `n`, as `u64`'s `Display` writes it.
pub open spec fn decimal(n: nat) -> Seq<char>
    decreases n,
{
    if n < 10 {
        seq![digit_char(n)]
    } else {
        decimal(n / 10).push(digit_char(n % 10))
    }
}

/// The decimal rendering of `n`.
pub fn decimal_chars(n: u64) -> (v: Vec<char>)
    ensures
        v@ == decimal(n as nat),
    decreases n,
{
    let d = ((n % 10) as u8 + 48u8) as char;
    if n < 10 {
        let mut v: Vec<char> = Vec::new();
        v.push(d);
        assert(v@ =~= seq![digit_char(n as nat)]);
        v
    } else {
        let mut v = decimal_chars(n / 10);
        v.push(d);
        v
    }
}

/// `"true"` or `"false"`, as `bool`'s `Display` writes them.
pub open spec fn bool_text(b: bool) -> Seq<char> {
    if b {
        "true"@
    } else {
        "false"@
    }
}

/// Appends `"true"` or `"false"` to `v`.
pub fn push_bool_text(v: &mut Vec<char>, b: bool)
    ensures
        final(v)@ == old(v)@ + bool_text(b),
{
    if b {
        push_str_chars(v, "true");
    } else {
        push_str_chars(v, "false");
    }
}

} // verus!

verus! {

/// The position of the first `c` in `v` at or after `start`, or `v.len()`.
pub fn find_char_from(v: &Vec<char>, c: char, start: usize) -> (r: usize)
    requires
        start <= v.len(),
    ensures
        r == start + first_match(v@.skip(start as int), seq![c]),
        start <= r <= v.len(),
{
    let mut i = start;
    assert(v@.skip(start as int) =~= v@.subrange(start as int, v.len() as int));
    proof {
        lemma_first_match(v@.skip(start as int), seq![c]);
    }
    while i < v.len()
        invariant
            start <= i <= v.len(),
            first_match(v@.skip(start as int), seq![c]) == (i - start) + first_match(
                v@.skip(i as int),
                seq![c],
            ),
        decreases v.len() - i,
    {
        let ghost t = v@.skip(i as int);
        assert(t.take(1) =~= seq![t[0]]);
        if v[i] == c {
            return i;
        }
        assert(t.take(1) != seq![c]) by {
            assert(t.take(1)[0] != seq![c][0]);
        }
        assert(t.drop_first() =~= v@.skip(i + 1));
        i = i + 1;
    }
    i
}

/// Whether `n` occurs in `h`.
pub fn contains_exec(h: &Vec<char>, n: &Vec<char>) -> (r: bool)
    ensures
        r == contains(h@, n@),
{
    let k = find_exec(h, n);
    proof {
        lemma_first_match(h@, n@);
        lemma_contains_first_match(h@, n@);
    }
    k <= h.len() && n.len() <= h.len() - k
}

} // verus!
