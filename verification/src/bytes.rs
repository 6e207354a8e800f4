//! Byte sequences: searching and cutting.

use vstd::prelude::*;

verus! {

/// The position of the first `b` in `s`, or the length of `s` where there is none.
pub open spec fn find_byte(s: Seq<u8>, b: u8) -> int
    decreases s.len(),
{
    if s.len() == 0 || s[0] == b {
        0
    } else {
        1 + find_byte(s.skip(1), b)
    }
}

pub proof fn lemma_find_byte_at(s: Seq<u8>, b: u8, i: int)
    requires
        0 <= i <= s.len(),
        forall|j: int| 0 <= j < i ==> #[trigger] s[j] != b,
        i == s.len() || s[i] == b,
    ensures
        find_byte(s, b) == i,
    decreases i,
{
    if i > 0 {
        let t = s.skip(1);
        assert forall|j: int| 0 <= j < i - 1 implies #[trigger] t[j] != b by {
            assert(t[j] == s[j + 1]);
        }
        lemma_find_byte_at(t, b, i - 1);
    }
}

pub proof fn lemma_find_byte(s: Seq<u8>, b: u8)
    ensures
        0 <= find_byte(s, b) <= s.len(),
        forall|j: int| 0 <= j < find_byte(s, b) ==> #[trigger] s[j] != b,
        find_byte(s, b) < s.len() ==> s[find_byte(s, b)] == b,
    decreases s.len(),
{
    if s.len() == 0 || s[0] == b {
    } else {
        let t = s.skip(1);
        lemma_find_byte(t, b);
        assert forall|j: int| 0 <= j < find_byte(s, b) implies #[trigger] s[j] != b by {
            if j > 0 {
                assert(s[j] == t[j - 1]);
            }
        }
    }
}

/// The position of the first `b` at or after `from`.
pub fn find_byte_from(v: &Vec<u8>, b: u8, from: usize) -> (r: usize)
    requires
        from <= v@.len(),
    ensures
        r as int == from + find_byte(v@.skip(from as int), b),
        from <= r <= v@.len(),
{
    let mut i: usize = from;
    let ghost t = v@.skip(from as int);
    while i < v.len() && v[i] != b
        invariant
            from <= i <= v@.len(),
            t == v@.skip(from as int),
            forall|j: int| 0 <= j < i - from ==> #[trigger] t[j] != b,
        decreases v.len() - i,
    {
        assert(t[i - from] == v@[i as int]);
        i += 1;
    }
    proof {
        if i < v.len() {
            assert(t[i - from] == v@[i as int]);
        }
        lemma_find_byte_at(t, b, i - from);
    }
    i
}

/// The bytes of `v` from `from` up to `to`.
pub fn cut(v: &Vec<u8>, from: usize, to: usize) -> (r: Vec<u8>)
    requires
        from <= to <= v@.len(),
    ensures
        r@ == v@.subrange(from as int, to as int),
{
    let mut r: Vec<u8> = Vec::new();
    let mut i: usize = from;
    while i < to
        invariant
            from <= i <= to <= v@.len(),
            r@ == v@.subrange(from as int, i as int),
        decreases to - i,
    {
        r.push(v[i]);
        i += 1;
        assert(r@ =~= v@.subrange(from as int, i as int));
    }
    r
}

/// Appends the bytes of `data`.
pub fn append_slice(out: &mut Vec<u8>, data: &[u8])
    ensures
        final(out)@ == old(out)@ + data@,
{
    let ghost start = out@;
    let mut i: usize = 0;
    assert(out@ =~= start + data@.take(0));
    while i < data.len()
        invariant
            i <= data@.len(),
            start == old(out)@,
            out@ == start + data@.take(i as int),
        decreases data.len() - i,
    {
        out.push(data[i]);
        i += 1;
        assert(out@ =~= start + data@.take(i as int));
    }
    assert(data@.take(data@.len() as int) =~= data@);
}

/// The contents of a list of byte strings.
pub open spec fn byte_lists(v: Seq<Vec<u8>>) -> Seq<Seq<u8>> {
    v.map_values(|b: Vec<u8>| b@)
}

/// The pieces of `s` between the occurrences of `sep`.
pub open spec fn split_bytes(s: Seq<u8>, sep: u8) -> Seq<Seq<u8>>
    decreases s.len(),
{
    if s.len() == 0 {
        seq![Seq::empty()]
    } else {
        let p = split_bytes(s.drop_last(), sep);
        if s.last() == sep {
            p.push(Seq::empty())
        } else {
            p.drop_last().push(p.last().push(s.last()))
        }
    }
}

/// Splits the first `end` bytes of `v` at every occurrence of `sep`.
pub fn split_at_byte(v: &Vec<u8>, end: usize, sep: u8) -> (parts: Vec<Vec<u8>>)
    requires
        end <= v@.len(),
    ensures
        byte_lists(parts@) == split_bytes(v@.take(end as int), sep),
{
    let mut parts: Vec<Vec<u8>> = Vec::new();
    let mut cur: Vec<u8> = Vec::new();
    let mut i: usize = 0;
    assert(byte_lists(parts@).push(cur@) =~= split_bytes(v@.take(0), sep));
    while i < end
        invariant
            i <= end <= v@.len(),
            byte_lists(parts@).push(cur@) == split_bytes(v@.take(i as int), sep),
        decreases end - i,
    {
        let b: u8 = v[i];
        let ghost before = parts@;
        let ghost last = cur@;
        let ghost pre = split_bytes(v@.take(i as int), sep);
        proof {
            assert(v@.take(i + 1).drop_last() =~= v@.take(i as int));
            assert(pre.drop_last() =~= byte_lists(before));
        }
        if b == sep {
            parts.push(cur);
            cur = Vec::new();
            assert(byte_lists(parts@) =~= byte_lists(before).push(last));
        } else {
            cur.push(b);
        }
        i += 1;
        assert(byte_lists(parts@).push(cur@) =~= split_bytes(v@.take(i as int), sep));
    }
    let ghost before = parts@;
    let ghost last = cur@;
    parts.push(cur);
    assert(byte_lists(parts@) =~= byte_lists(before).push(last));
    parts
}

/// Whether `b` is ASCII white space: space, tab, line feed, form feed or carriage return.
pub open spec fn is_ascii_space(b: u8) -> bool {
    b == 32 || b == 9 || b == 10 || b == 12 || b == 13
}

/// Whether `b` is ASCII white space.
pub fn ascii_space(b: u8) -> (r: bool)
    ensures
        r == is_ascii_space(b),
{
    b == 32 || b == 9 || b == 10 || b == 12 || b == 13
}

/// `s` without the white space that it begins with.
pub open spec fn trim_bytes_start(s: Seq<u8>) -> Seq<u8>
    decreases s.len(),
{
    if s.len() > 0 && is_ascii_space(s[0]) {
        trim_bytes_start(s.skip(1))
    } else {
        s
    }
}

/// `s` without the white space that it ends with.
pub open spec fn trim_bytes_end(s: Seq<u8>) -> Seq<u8>
    decreases s.len(),
{
    if s.len() > 0 && is_ascii_space(s.last()) {
        trim_bytes_end(s.drop_last())
    } else {
        s
    }
}

/// `s` without the ASCII white space around it.
pub open spec fn trim_bytes(s: Seq<u8>) -> Seq<u8> {
    trim_bytes_end(trim_bytes_start(s))
}

proof fn lemma_trim_bytes_start_at(s: Seq<u8>, i: int)
    requires
        0 <= i <= s.len(),
        forall|j: int| 0 <= j < i ==> is_ascii_space(#[trigger] s[j]),
        i == s.len() || !is_ascii_space(s[i]),
    ensures
        trim_bytes_start(s) == s.skip(i),
    decreases i,
{
    if i == 0 {
        assert(s.skip(0) =~= s);
    } else {
        let t = s.skip(1);
        assert forall|j: int| 0 <= j < i - 1 implies is_ascii_space(#[trigger] t[j]) by {
            assert(t[j] == s[j + 1]);
        }
        lemma_trim_bytes_start_at(t, i - 1);
        assert(t.skip(i - 1) =~= s.skip(i));
    }
}

proof fn lemma_trim_bytes_end_at(s: Seq<u8>, i: int)
    requires
        0 <= i <= s.len(),
        forall|j: int| i <= j < s.len() ==> is_ascii_space(#[trigger] s[j]),
        i == 0 || !is_ascii_space(s[i - 1]),
    ensures
        trim_bytes_end(s) == s.take(i),
    decreases s.len(),
{
    if i == s.len() {
        assert(s.take(i) =~= s);
    } else {
        let t = s.drop_last();
        assert forall|j: int| i <= j < t.len() implies is_ascii_space(#[trigger] t[j]) by {
            assert(t[j] == s[j]);
        }
        assert(is_ascii_space(s[s.len() - 1]));
        lemma_trim_bytes_end_at(t, i);
        assert(t.take(i) =~= s.take(i));
    }
}

/// Removes the ASCII white space around `bytes`.
pub fn trim_ascii_whitespace(bytes: &Vec<u8>) -> (r: Vec<u8>)
    ensures
        r@ == trim_bytes(bytes@),
{
    let n: usize = bytes.len();
    let mut i: usize = 0;
    while i < n && ascii_space(bytes[i])
        invariant
            i <= n == bytes@.len(),
            forall|j: int| 0 <= j < i ==> is_ascii_space(#[trigger] bytes@[j]),
        decreases n - i,
    {
        i += 1;
    }
    proof {
        lemma_trim_bytes_start_at(bytes@, i as int);
    }
    let mut k: usize = n;
    let ghost t = bytes@.skip(i as int);
    while k > i && ascii_space(bytes[k - 1])
        invariant
            i <= k <= n == bytes@.len(),
            t == bytes@.skip(i as int),
            forall|j: int| k - i <= j < n - i ==> is_ascii_space(#[trigger] t[j]),
        decreases k,
    {
        k -= 1;
        assert(t[k - i] == bytes@[k as int]);
    }
    proof {
        if k > i {
            assert(t[k - i - 1] == bytes@[k - 1]);
        }
        lemma_trim_bytes_end_at(t, k - i);
        assert(t.take(k - i) =~= bytes@.subrange(i as int, k as int));
    }
    cut(bytes, i, k)
}

} // verus!
