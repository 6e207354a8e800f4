//! Text as sequences of characters: the vocabulary that contracts on strings use,
//! and the executable operations that go with it.

use vstd::prelude::*;

verus! {

/// `String::push` appends the character to the end of the string.
pub assume_specification[ String::push ](s: &mut String, c: char)
    ensures
        final(s)@ == old(s)@.push(c),
;

/// The lower-case form of a text as `str::to_lowercase` gives it.
pub uninterp spec fn unicode_lowercase(s: Seq<char>) -> Seq<char>;

/// `str::to_lowercase` depends on the text alone, and on ASCII text it changes upper-case
/// letters to lower-case ones and nothing else. What it does to other text is named, not
/// stated.
pub assume_specification[ str::to_lowercase ](s: &str) -> (r: String)
    ensures
        r@ == unicode_lowercase(s@),
        vstd::utf8::is_ascii_chars(s@) ==> r@ == ascii_lower_spec(s@),
;

/// The contents of a list of strings.
pub open spec fn texts(v: Seq<String>) -> Seq<Seq<char>> {
    v.map_values(|s: String| s@)
}

/// The content of an optional string.
pub open spec fn text_opt(s: Option<String>) -> Option<Seq<char>> {
    match s {
        Some(t) => Some(t@),
        None => None,
    }
}

/// The content of an optional slice.
pub open spec fn str_opt(s: Option<&str>) -> Option<Seq<char>> {
    match s {
        Some(t) => Some(t@),
        None => None,
    }
}

/// The characters with the Unicode property White_Space.
pub open spec fn is_white_space(c: char) -> bool {
    ||| '\u{9}' <= c <= '\u{d}'
    ||| c == ' '
    ||| c == '\u{85}'
    ||| c == '\u{a0}'
    ||| c == '\u{1680}'
    ||| '\u{2000}' <= c <= '\u{200a}'
    ||| c == '\u{2028}'
    ||| c == '\u{2029}'
    ||| c == '\u{202f}'
    ||| c == '\u{205f}'
    ||| c == '\u{3000}'
}

/// Whether `c` has the Unicode property White_Space.
pub fn white_space(c: char) -> (r: bool)
    ensures
        r == is_white_space(c),
{
    ('\u{9}' <= c && c <= '\u{d}') || c == ' ' || c == '\u{85}' || c == '\u{a0}' || c == '\u{1680}' || (
    '\u{2000}' <= c && c <= '\u{200a}') || c == '\u{2028}' || c == '\u{2029}' || c == '\u{202f}' || c
        == '\u{205f}' || c == '\u{3000}'
}

/// `s` without the white space that it begins with.
pub open spec fn trim_start_spec(s: Seq<char>) -> Seq<char>
    decreases s.len(),
{
    if s.len() > 0 && is_white_space(s[0]) {
        trim_start_spec(s.skip(1))
    } else {
        s
    }
}

/// `s` without the white space that it ends with.
pub open spec fn trim_end_spec(s: Seq<char>) -> Seq<char>
    decreases s.len(),
{
    if s.len() > 0 && is_white_space(s.last()) {
        trim_end_spec(s.drop_last())
    } else {
        s
    }
}

/// `s` without the white space around it.
pub open spec fn trim_spec(s: Seq<char>) -> Seq<char> {
    trim_end_spec(trim_start_spec(s))
}

pub proof fn lemma_trim_start_at(s: Seq<char>, i: int)
    requires
        0 <= i <= s.len(),
        forall|j: int| 0 <= j < i ==> is_white_space(#[trigger] s[j]),
        i == s.len() || !is_white_space(s[i]),
    ensures
        trim_start_spec(s) == s.skip(i),
    decreases i,
{
    if i == 0 {
        assert(s.skip(0) =~= s);
    } else {
        let t = s.skip(1);
        assert forall|j: int| 0 <= j < i - 1 implies is_white_space(#[trigger] t[j]) by {
            assert(t[j] == s[j + 1]);
        }
        lemma_trim_start_at(t, i - 1);
        assert(t.skip(i - 1) =~= s.skip(i));
    }
}

pub proof fn lemma_trim_end_at(s: Seq<char>, i: int)
    requires
        0 <= i <= s.len(),
        forall|j: int| i <= j < s.len() ==> is_white_space(#[trigger] s[j]),
        i == 0 || !is_white_space(s[i - 1]),
    ensures
        trim_end_spec(s) == s.take(i),
    decreases s.len(),
{
    if i == s.len() {
        assert(s.take(i) =~= s);
    } else {
        let t = s.drop_last();
        assert forall|j: int| i <= j < t.len() implies is_white_space(#[trigger] t[j]) by {
            assert(t[j] == s[j]);
        }
        assert(is_white_space(s[s.len() - 1]));
        lemma_trim_end_at(t, i);
        assert(t.take(i) =~= s.take(i));
    }
}

/// Trimming twice is trimming once.
pub proof fn lemma_trim_idempotent(s: Seq<char>)
    ensures
        trim_spec(trim_spec(s)) == trim_spec(s),
{
    let a = trim_start_spec(s);
    lemma_trim_start_result(s);
    lemma_trim_end_result(a);
    let b = trim_end_spec(a);
    if b.len() > 0 {
        assert(b[0] == a[0]);
    }
}

proof fn lemma_trim_start_result(s: Seq<char>)
    ensures
        trim_start_spec(s).len() == 0 || !is_white_space(trim_start_spec(s)[0]),
    decreases s.len(),
{
    if s.len() > 0 && is_white_space(s[0]) {
        lemma_trim_start_result(s.skip(1));
    }
}

proof fn lemma_trim_end_result(s: Seq<char>)
    ensures
        trim_end_spec(s).len() == 0 || !is_white_space(trim_end_spec(s).last()),
        trim_end_spec(s).is_prefix_of(s),
    decreases s.len(),
{
    if s.len() > 0 && is_white_space(s.last()) {
        lemma_trim_end_result(s.drop_last());
        let r = trim_end_spec(s.drop_last());
        assert(r.is_prefix_of(s)) by {
            assert(r =~= s.take(r.len() as int));
        }
    } else {
        assert(s.is_prefix_of(s)) by {
            assert(s =~= s.take(s.len() as int));
        }
    }
}

/// Trimmed text neither begins nor ends with white space.
pub proof fn lemma_trim_ends(s: Seq<char>)
    ensures
        trim_spec(s).len() == 0 || !is_white_space(trim_spec(s)[0]) && !is_white_space(
            trim_spec(s).last(),
        ),
{
    let a = trim_start_spec(s);
    lemma_trim_start_result(s);
    lemma_trim_end_result(a);
    let b = trim_end_spec(a);
    if b.len() > 0 {
        assert(b[0] == a[0]);
    }
}

/// Trimmed text holds no character that the text does not hold.
pub proof fn lemma_trim_inside(s: Seq<char>)
    ensures
        forall|i: int|
            0 <= i < trim_spec(s).len() ==> s.contains(#[trigger] trim_spec(s)[i]),
        trim_spec(s).len() <= s.len(),
{
    lemma_trim_start_inside(s);
    let a = trim_start_spec(s);
    lemma_trim_end_result(a);
    let b = trim_end_spec(a);
    assert forall|i: int| 0 <= i < b.len() implies s.contains(#[trigger] b[i]) by {
        assert(b[i] == a[i]);
        let k = s.len() - a.len();
        assert(a[i] == s[k + i]);
    }
}

proof fn lemma_trim_start_inside(s: Seq<char>)
    ensures
        trim_start_spec(s).len() <= s.len(),
        trim_start_spec(s) == s.skip(s.len() - trim_start_spec(s).len()),
    decreases s.len(),
{
    if s.len() > 0 && is_white_space(s[0]) {
        let t = s.skip(1);
        lemma_trim_start_inside(t);
        let k = t.len() - trim_start_spec(t).len();
        assert(t.skip(k) =~= s.skip(k + 1));
    } else {
        assert(s.skip(0) =~= s);
    }
}

/// Copies the characters of `s` out.
pub fn chars_of(s: &str) -> (v: Vec<char>)
    ensures
        v@ == s@,
{
    let mut v: Vec<char> = Vec::new();
    for c in it: s.chars()
        invariant
            v@ == s@.take(it.index() as int),
            it.seq() == s@,
    {
        v.push(c);
        assert(v@ =~= s@.take(it.index() as int + 1));
    }
    assert(s@.take(s@.len() as int) =~= s@);
    v
}

/// The string with the characters of `v` from `from` up to `to`.
pub fn string_of(v: &Vec<char>, from: usize, to: usize) -> (s: String)
    requires
        from <= to <= v@.len(),
    ensures
        s@ == v@.subrange(from as int, to as int),
{
    let mut s = String::new();
    let mut i: usize = from;
    while i < to
        invariant
            from <= i <= to <= v@.len(),
            s@ == v@.subrange(from as int, i as int),
        decreases to - i,
    {
        s.push(v[i]);
        i += 1;
        assert(s@ =~= v@.subrange(from as int, i as int));
    }
    s
}

/// Whether two strings have the same characters.
pub fn same(a: &str, b: &str) -> (r: bool)
    ensures
        r == (a@ == b@),
{
    let x = a.to_owned();
    let y = b.to_owned();
    x == y
}

/// Removes white space around `s`.
pub fn trim<'a>(s: &'a str) -> (r: &'a str)
    ensures
        r@ == trim_spec(s@),
{
    let v = chars_of(s);
    let n: usize = v.len();
    let mut i: usize = 0;
    while i < n && white_space(v[i])
        invariant
            i <= n == v@.len(),
            v@ == s@,
            forall|j: int| 0 <= j < i ==> is_white_space(#[trigger] s@[j]),
        decreases n - i,
    {
        i += 1;
    }
    proof {
        lemma_trim_start_at(s@, i as int);
    }
    let mut k: usize = n;
    let ghost t = s@.skip(i as int);
    while k > i && white_space(v[k - 1])
        invariant
            i <= k <= n == v@.len(),
            v@ == s@,
            t == s@.skip(i as int),
            forall|j: int| k - i <= j < n - i ==> is_white_space(#[trigger] t[j]),
        decreases k,
    {
        k -= 1;
        assert(t[k - i] == s@[k as int]);
    }
    proof {
        if k > i {
            assert(t[k - i - 1] == s@[k - 1]);
        }
        lemma_trim_end_at(t, k - i);
        assert(t.take(k - i) =~= s@.subrange(i as int, k as int));
    }
    s.substring_char(i, k)
}

/// The pieces of `s` between the occurrences of `sep`.
pub open spec fn split_spec(s: Seq<char>, sep: char) -> Seq<Seq<char>>
    decreases s.len(),
{
    if s.len() == 0 {
        seq![Seq::empty()]
    } else {
        let p = split_spec(s.drop_last(), sep);
        if s.last() == sep {
            p.push(Seq::empty())
        } else {
            p.drop_last().push(p.last().push(s.last()))
        }
    }
}

/// The pieces with `sep` between neighbours.
pub open spec fn join_spec(parts: Seq<Seq<char>>, sep: Seq<char>) -> Seq<char>
    decreases parts.len(),
{
    if parts.len() == 0 {
        Seq::empty()
    } else if parts.len() == 1 {
        parts[0]
    } else {
        join_spec(parts.drop_last(), sep) + sep + parts.last()
    }
}

/// There is at least one piece, no piece holds the separator, and the pieces put
/// together again are the text.
pub proof fn lemma_split(s: Seq<char>, sep: char)
    ensures
        split_spec(s, sep).len() >= 1,
        forall|i: int, j: int|
            0 <= i < split_spec(s, sep).len() && 0 <= j < split_spec(s, sep)[i].len()
                ==> #[trigger] split_spec(s, sep)[i][j] != sep,
        join_spec(split_spec(s, sep), seq![sep]) == s,
    decreases s.len(),
{
    let r = split_spec(s, sep);
    if s.len() == 0 {
        assert(join_spec(r, seq![sep]) =~= s);
    } else {
        let p = split_spec(s.drop_last(), sep);
        lemma_split(s.drop_last(), sep);
        if s.last() == sep {
            assert(r.drop_last() =~= p);
            assert(join_spec(r, seq![sep]) =~= s.drop_last() + seq![sep] + Seq::<char>::empty());
            assert(join_spec(r, seq![sep]) =~= s);
        } else {
            assert(r.drop_last() =~= p.drop_last());
            assert forall|i: int, j: int| 0 <= i < r.len() && 0 <= j < r[i].len() implies
                #[trigger] r[i][j] != sep by {
                if i < p.len() - 1 {
                    assert(r[i] == p[i]);
                    assert(p[i][j] != sep);
                } else {
                    assert(r[i] == p.last().push(s.last()));
                    if j < p.last().len() {
                        assert(r[i][j] == p[p.len() - 1][j]);
                    }
                }
            }
            if p.len() == 1 {
                assert(join_spec(r, seq![sep]) =~= s);
            } else {
                assert(join_spec(r, seq![sep]) =~= join_spec(p.drop_last(), seq![sep]) + seq![sep]
                    + p.last().push(s.last()));
                assert(join_spec(p, seq![sep]) =~= join_spec(p.drop_last(), seq![sep]) + seq![sep]
                    + p.last());
                assert(join_spec(r, seq![sep]) =~= join_spec(p, seq![sep]).push(s.last()));
                assert(join_spec(r, seq![sep]) =~= s);
            }
        }
    }
}

/// The pieces of two texts with a separator between them are the pieces of the one, then those
/// of the other.
pub proof fn lemma_split_then(s: Seq<char>, t: Seq<char>, sep: char)
    ensures
        split_spec(s + seq![sep] + t, sep) == split_spec(s, sep) + split_spec(t, sep),
    decreases t.len(),
{
    let all = s + seq![sep] + t;
    let p = split_spec(s, sep);
    lemma_split(t, sep);
    if t.len() == 0 {
        assert(all.drop_last() =~= s);
        assert(split_spec(all, sep) =~= p + split_spec(t, sep));
    } else {
        let q = split_spec(t.drop_last(), sep);
        lemma_split(t.drop_last(), sep);
        lemma_split_then(s, t.drop_last(), sep);
        assert(all.drop_last() =~= s + seq![sep] + t.drop_last());
        assert((p + q).drop_last() =~= p + q.drop_last());
        assert(split_spec(all, sep) =~= p + split_spec(t, sep));
    }
}

/// A text without the separator is one piece.
pub proof fn lemma_one_piece(s: Seq<char>, sep: char)
    requires
        !s.contains(sep),
    ensures
        split_spec(s, sep) == seq![s],
    decreases s.len(),
{
    if s.len() == 0 {
        assert(s =~= Seq::<char>::empty());
        assert(split_spec(s, sep) =~= seq![s]);
    } else {
        let most = s.drop_last();
        assert(!most.contains(sep)) by {
            if most.contains(sep) {
                let i = choose|i: int| 0 <= i < most.len() && most[i] == sep;
                assert(s[i] == sep);
            }
        }
        lemma_one_piece(most, sep);
        assert(s.last() != sep) by {
            assert(s.contains(s.last()));
        }
        assert(most.push(s.last()) =~= s);
        assert(split_spec(s, sep) =~= seq![s]);
    }
}

/// Two lists of pieces put together are the one, a separator, and the other.
pub proof fn lemma_join_then(p: Seq<Seq<char>>, q: Seq<Seq<char>>, sep: Seq<char>)
    requires
        p.len() > 0,
        q.len() > 0,
    ensures
        join_spec(p + q, sep) == join_spec(p, sep) + sep + join_spec(q, sep),
    decreases q.len(),
{
    assert((p + q).drop_last() =~= p + q.drop_last());
    if q.len() == 1 {
        assert(p + q.drop_last() =~= p);
    } else {
        lemma_join_then(p, q.drop_last(), sep);
        assert(join_spec(p + q, sep) =~= join_spec(p, sep) + sep + join_spec(q, sep));
    }
}

/// Splits `s` at every occurrence of `sep`.
pub fn split(s: &str, sep: char) -> (parts: Vec<String>)
    ensures
        texts(parts@) == split_spec(s@, sep),
        parts@.len() >= 1,
{
    let v = chars_of(s);
    let mut parts: Vec<String> = Vec::new();
    let mut cur = String::new();
    let mut i: usize = 0;
    assert(texts(parts@).push(cur@) =~= split_spec(s@.take(0), sep));
    while i < v.len()
        invariant
            i <= v@.len(),
            v@ == s@,
            texts(parts@).push(cur@) == split_spec(s@.take(i as int), sep),
        decreases v.len() - i,
    {
        let c = v[i];
        let ghost before = parts@;
        let ghost last = cur@;
        let ghost pre = split_spec(s@.take(i as int), sep);
        proof {
            assert(s@.take(i + 1).drop_last() =~= s@.take(i as int));
            assert(pre.drop_last() =~= texts(before));
        }
        if c == sep {
            parts.push(cur);
            cur = String::new();
            assert(texts(parts@) =~= texts(before).push(last));
        } else {
            cur.push(c);
        }
        i += 1;
        assert(texts(parts@).push(cur@) =~= split_spec(s@.take(i as int), sep));
    }
    let ghost before = parts@;
    let ghost last = cur@;
    parts.push(cur);
    assert(texts(parts@) =~= texts(before).push(last));
    assert(s@.take(s@.len() as int) =~= s@);
    parts
}

/// The position of the first `c` in `s`, or the length of `s` where there is none.
pub open spec fn find_spec(s: Seq<char>, c: char) -> int
    decreases s.len(),
{
    if s.len() == 0 || s[0] == c {
        0
    } else {
        1 + find_spec(s.skip(1), c)
    }
}

pub proof fn lemma_find_at(s: Seq<char>, c: char, i: int)
    requires
        0 <= i <= s.len(),
        forall|j: int| 0 <= j < i ==> #[trigger] s[j] != c,
        i == s.len() || s[i] == c,
    ensures
        find_spec(s, c) == i,
    decreases i,
{
    if i > 0 {
        let t = s.skip(1);
        assert forall|j: int| 0 <= j < i - 1 implies #[trigger] t[j] != c by {
            assert(t[j] == s[j + 1]);
        }
        lemma_find_at(t, c, i - 1);
    }
}

pub proof fn lemma_find(s: Seq<char>, c: char)
    ensures
        0 <= find_spec(s, c) <= s.len(),
        forall|j: int| 0 <= j < find_spec(s, c) ==> #[trigger] s[j] != c,
        find_spec(s, c) < s.len() ==> s[find_spec(s, c)] == c,
        s.contains(c) <==> find_spec(s, c) < s.len(),
    decreases s.len(),
{
    if s.len() == 0 || s[0] == c {
    } else {
        let t = s.skip(1);
        lemma_find(t, c);
        let k = find_spec(t, c);
        assert forall|j: int| 0 <= j < find_spec(s, c) implies #[trigger] s[j] != c by {
            if j > 0 {
                assert(s[j] == t[j - 1]);
            }
        }
        if s.contains(c) {
            let w = choose|w: int| 0 <= w < s.len() && s[w] == c;
            assert(w > 0);
            assert(t[w - 1] == c);
        }
    }
}

/// The position of the first `c` at or after `from`.
pub fn find_from(v: &Vec<char>, c: char, from: usize) -> (r: usize)
    requires
        from <= v@.len(),
    ensures
        r as int == from + find_spec(v@.skip(from as int), c),
        from <= r <= v@.len(),
{
    let mut i: usize = from;
    let ghost t = v@.skip(from as int);
    while i < v.len() && v[i] != c
        invariant
            from <= i <= v@.len(),
            t == v@.skip(from as int),
            forall|j: int| 0 <= j < i - from ==> #[trigger] t[j] != c,
        decreases v.len() - i,
    {
        assert(t[i - from] == v@[i as int]);
        i += 1;
    }
    proof {
        if i < v.len() {
            assert(t[i - from] == v@[i as int]);
        }
        lemma_find_at(t, c, i - from);
    }
    i
}

/// What stands before the first `c` (all of `s` where there is none).
pub open spec fn before_spec(s: Seq<char>, c: char) -> Seq<char> {
    s.take(find_spec(s, c))
}

/// What stands after the first `c`.
pub open spec fn after_spec(s: Seq<char>, c: char) -> Seq<char> {
    s.skip(find_spec(s, c) + 1)
}

/// What stands before the first `c`.
pub fn before(s: &str, c: char) -> (r: String)
    ensures
        r@ == before_spec(s@, c),
{
    let v = chars_of(s);
    let i: usize = find_from(&v, c, 0);
    assert(v@.skip(0) =~= v@);
    string_of(&v, 0, i)
}

/// Splits `s` at the first `c`, where there is one.
pub fn split_once(s: &str, c: char) -> (r: Option<(String, String)>)
    ensures
        match r {
            Some((a, b)) => s@.contains(c) && a@ == before_spec(s@, c) && b@ == after_spec(s@, c),
            None => !s@.contains(c),
        },
{
    let v = chars_of(s);
    let i: usize = find_from(&v, c, 0);
    proof {
        assert(v@.skip(0) =~= v@);
        lemma_find(s@, c);
    }
    if i < v.len() {
        let a = string_of(&v, 0, i);
        let b = string_of(&v, i + 1, v.len());
        assert(b@ =~= after_spec(s@, c));
        Some((a, b))
    } else {
        None
    }
}

/// Whether `s` holds the character `c`.
pub fn contains_char(s: &str, c: char) -> (r: bool)
    ensures
        r == s@.contains(c),
{
    let v = chars_of(s);
    let i: usize = find_from(&v, c, 0);
    proof {
        assert(v@.skip(0) =~= v@);
        lemma_find(s@, c);
    }
    i < v.len()
}

/// Whether `s` begins with `p`.
pub fn starts_with(s: &str, p: &str) -> (r: bool)
    ensures
        r == p@.is_prefix_of(s@),
{
    let v = chars_of(s);
    let w = chars_of(p);
    if w.len() > v.len() {
        return false;
    }
    let mut i: usize = 0;
    while i < w.len()
        invariant
            i <= w@.len() <= v@.len(),
            v@ == s@,
            w@ == p@,
            forall|j: int| 0 <= j < i ==> #[trigger] w@[j] == v@[j],
        decreases w.len() - i,
    {
        if v[i] != w[i] {
            assert(s@.take(p@.len() as int)[i as int] != p@[i as int]);
            return false;
        }
        i += 1;
    }
    assert(p@ =~= s@.take(p@.len() as int));
    true
}

/// Whether `s` ends with `p`.
pub fn ends_with(s: &str, p: &str) -> (r: bool)
    ensures
        r == p@.is_suffix_of(s@),
{
    let v = chars_of(s);
    let w = chars_of(p);
    if w.len() > v.len() {
        return false;
    }
    let n: usize = v.len();
    let d: usize = n - w.len();
    let mut i: usize = 0;
    while i < w.len()
        invariant
            i <= w@.len() <= v@.len(),
            n == v@.len(),
            d == v@.len() - w@.len(),
            v@ == s@,
            w@ == p@,
            forall|j: int| 0 <= j < i ==> #[trigger] w@[j] == v@[j + d],
        decreases w.len() - i,
    {
        if v[i + d] != w[i] {
            assert(s@.subrange(d as int, s@.len() as int)[i as int] != p@[i as int]);
            return false;
        }
        i += 1;
    }
    assert(p@ =~= s@.subrange(d as int, s@.len() as int));
    true
}

/// Whether `p` stands in `s` at position `i`.
pub open spec fn occurs_at(s: Seq<char>, p: Seq<char>, i: int) -> bool {
    0 <= i && i + p.len() <= s.len() && s.subrange(i, i + p.len()) == p
}

/// Whether `p` stands somewhere in `s`.
pub open spec fn occurs(s: Seq<char>, p: Seq<char>) -> bool {
    exists|i: int| occurs_at(s, p, i)
}

/// Whether `p` stands somewhere in `s`.
pub fn contains_text(s: &str, p: &str) -> (r: bool)
    ensures
        r == occurs(s@, p@),
{
    let v = chars_of(s);
    let w = chars_of(p);
    let n: usize = v.len();
    let m: usize = w.len();
    if m > n {
        return false;
    }
    let mut i: usize = 0;
    while i <= n - m
        invariant
            i <= n - m + 1,
            n == v@.len(),
            m == w@.len(),
            m <= n,
            v@ == s@,
            w@ == p@,
            forall|k: int| 0 <= k < i ==> !occurs_at(s@, p@, k),
        decreases n - m + 1 - i,
    {
        let mut j: usize = 0;
        while j < m && v[i + j] == w[j]
            invariant
                i <= n - m,
                j <= m,
                n == v@.len(),
                m == w@.len(),
                m <= n,
                forall|k: int| 0 <= k < j ==> v@[i + k] == #[trigger] w@[k],
            decreases m - j,
        {
            j += 1;
        }
        if j == m {
            assert(s@.subrange(i as int, i + m) =~= p@);
            assert(occurs_at(s@, p@, i as int));
            return true;
        }
        assert(s@.subrange(i as int, i + m)[j as int] != p@[j as int]);
        assert(!occurs_at(s@, p@, i as int));
        if i == n - m {
            assert forall|k: int| !occurs_at(s@, p@, k) by {}
            return false;
        }
        i += 1;
    }
    false
}

/// What follows the prefix `p`, where `s` begins with it.
pub fn strip_prefix<'a>(s: &'a str, p: &str) -> (r: Option<&'a str>)
    ensures
        match r {
            Some(t) => p@.is_prefix_of(s@) && t@ == s@.skip(p@.len() as int),
            None => !p@.is_prefix_of(s@),
        },
{
    if starts_with(s, p) {
        let k: usize = p.unicode_len();
        let n: usize = s.unicode_len();
        let t = s.substring_char(k, n);
        assert(t@ =~= s@.skip(p@.len() as int));
        Some(t)
    } else {
        None
    }
}

/// `s` without the `c`s that it begins with.
pub open spec fn without_leading(s: Seq<char>, c: char) -> Seq<char>
    decreases s.len(),
{
    if s.len() > 0 && s[0] == c {
        without_leading(s.skip(1), c)
    } else {
        s
    }
}

/// Removes the `c`s that `s` begins with.
pub fn trim_leading<'a>(s: &'a str, c: char) -> (r: &'a str)
    ensures
        r@ == without_leading(s@, c),
{
    let v = chars_of(s);
    let mut i: usize = 0;
    assert(s@.skip(0) =~= s@);
    while i < v.len() && v[i] == c
        invariant
            i <= v@.len(),
            v@ == s@,
            without_leading(s@, c) == without_leading(s@.skip(i as int), c),
        decreases v.len() - i,
    {
        assert(s@.skip(i as int).skip(1) =~= s@.skip(i + 1));
        i += 1;
    }
    let t = s.substring_char(i, v.len());
    assert(t@ =~= s@.skip(i as int));
    t
}

/// `c` with an upper-case ASCII letter made lower-case.
pub open spec fn ascii_lower(c: char) -> char {
    if 'A' <= c <= 'Z' {
        (c as u32 + 32) as char
    } else {
        c
    }
}

/// `s` with its upper-case ASCII letters made lower-case.
pub open spec fn ascii_lower_spec(s: Seq<char>) -> Seq<char> {
    s.map_values(|c: char| ascii_lower(c))
}

fn lower(c: char) -> (r: char)
    ensures
        r == ascii_lower(c),
{
    if 'A' <= c && c <= 'Z' {
        let d: u8 = c as u8;
        (d + 32) as char
    } else {
        c
    }
}

/// `s` with its upper-case ASCII letters made lower-case.
pub fn to_ascii_lowercase(s: &str) -> (r: String)
    ensures
        r@ == ascii_lower_spec(s@),
{
    let v = chars_of(s);
    let mut r = String::new();
    let mut i: usize = 0;
    while i < v.len()
        invariant
            i <= v@.len(),
            v@ == s@,
            r@ == ascii_lower_spec(s@.take(i as int)),
        decreases v.len() - i,
    {
        r.push(lower(v[i]));
        i += 1;
        assert(r@ =~= ascii_lower_spec(s@.take(i as int)));
    }
    assert(s@.take(s@.len() as int) =~= s@);
    r
}

/// Whether two strings agree up to the case of ASCII letters.
pub fn same_ignore_ascii_case(a: &str, b: &str) -> (r: bool)
    ensures
        r == (ascii_lower_spec(a@) == ascii_lower_spec(b@)),
{
    let x = to_ascii_lowercase(a);
    let y = to_ascii_lowercase(b);
    x == y
}

/// `a` followed by `b`.
pub fn joined(a: &str, b: &str) -> (r: String)
    ensures
        r@ == a@ + b@,
{
    let mut m = a.to_owned();
    m.append(b);
    m
}

/// The three texts one after another.
pub fn joined3(a: &str, b: &str, c: &str) -> (r: String)
    ensures
        r@ == a@ + b@ + c@,
{
    let mut m = a.to_owned();
    m.append(b);
    m.append(c);
    m
}

/// The four texts one after another.
pub fn joined4(a: &str, b: &str, c: &str, d: &str) -> (r: String)
    ensures
        r@ == a@ + b@ + c@ + d@,
{
    let mut m = a.to_owned();
    m.append(b);
    m.append(c);
    m.append(d);
    m
}

/// The five texts one after another.
pub fn joined5(a: &str, b: &str, c: &str, d: &str, e: &str) -> (r: String)
    ensures
        r@ == a@ + b@ + c@ + d@ + e@,
{
    let mut m = a.to_owned();
    m.append(b);
    m.append(c);
    m.append(d);
    m.append(e);
    m
}

/// Puts the pieces together with `sep` between neighbours.
pub fn join(parts: &Vec<String>, sep: &str) -> (r: String)
    ensures
        r@ == join_spec(texts(parts@), sep@),
{
    let mut r = String::new();
    let mut i: usize = 0;
    while i < parts.len()
        invariant
            i <= parts@.len(),
            r@ == join_spec(texts(parts@.take(i as int)), sep@),
        decreases parts.len() - i,
    {
        if i > 0 {
            r.append(sep);
        }
        r.append(parts[i].as_str());
        proof {
            let a = texts(parts@.take(i as int));
            let b = texts(parts@.take(i + 1));
            assert(b.drop_last() =~= a);
            assert(r@ =~= join_spec(b, sep@));
        }
        i += 1;
    }
    assert(parts@.take(parts@.len() as int) =~= parts@);
    r
}

} // verus!
