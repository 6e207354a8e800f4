//! Network addresses: how they are read, written and compared.

use vstd::prelude::*;
use crate::decimal::{decimal, u64_text};
use crate::text::{chars_of, join_spec, joined, joined3, split, split_once, split_spec, string_of,
    find_spec, lemma_find, lemma_find_at, lemma_one_piece, lemma_split_then, before_spec, after_spec, texts};

verus! {

/// An IP address as its bits, the first group of its text in the highest place.
#[derive(Debug, Clone, Copy, PartialEq, Eq, Structural)]
pub enum IpAddr {
    V4(u32),
    V6(u128),
}

/// An IP address and a port. `scope_id` belongs to IPv6 addresses and is zero elsewhere.
#[derive(Debug, Clone, Copy, PartialEq, Eq, Structural)]
pub struct SocketAddr {
    pub ip: IpAddr,
    pub port: u16,
    pub scope_id: u32,
}

/// The number that `c` stands for in numerals of the given base, ten or sixteen.
pub open spec fn digit_of(c: char, base: nat) -> Option<nat> {
    if '0' <= c <= '9' {
        Some((c as nat - 48) as nat)
    } else if base == 16 && 'a' <= c <= 'f' {
        Some((c as nat - 87) as nat)
    } else if base == 16 && 'A' <= c <= 'F' {
        Some((c as nat - 55) as nat)
    } else {
        None
    }
}

/// Whether every character is a digit of the base.
pub open spec fn in_base(s: Seq<char>, base: nat) -> bool {
    forall|i: int| 0 <= i < s.len() ==> digit_of(#[trigger] s[i], base) is Some
}

/// The number that digits of the base stand for.
pub open spec fn base_value(s: Seq<char>, base: nat) -> nat
    decreases s.len(),
{
    if s.len() == 0 {
        0
    } else {
        base_value(s.drop_last(), base) * base + digit_of(s.last(), base).unwrap_or(0)
    }
}

/// The number of a text of at least one digit, where it is not over `max`.
pub open spec fn number(s: Seq<char>, base: nat, max: nat) -> Option<nat> {
    if s.len() > 0 && in_base(s, base) && base_value(s, base) <= max {
        Some(base_value(s, base))
    } else {
        None
    }
}

proof fn lemma_base_value_grows(s: Seq<char>, base: nat, i: int)
    requires
        0 <= i <= s.len(),
        base >= 1,
    ensures
        base_value(s.take(i), base) <= base_value(s, base),
    decreases s.len() - i,
{
    if i == s.len() {
        assert(s.take(i) =~= s);
    } else {
        lemma_base_value_grows(s, base, i + 1);
        assert(s.take(i + 1).drop_last() =~= s.take(i));
        let v = base_value(s.take(i), base);
        assert(v * base >= v) by (nonlinear_arith)
            requires
                base >= 1,
        ;
    }
}

fn digit(c: char, base: u64) -> (r: Option<u64>)
    requires
        base == 10 || base == 16,
    ensures
        match r {
            Some(d) => digit_of(c, base as nat) == Some(d as nat) && d < 16,
            None => digit_of(c, base as nat) is None,
        },
{
    let n: u64 = c as u64;
    if '0' <= c && c <= '9' {
        Some(n - 48)
    } else if base == 16 && 'a' <= c && c <= 'f' {
        Some(n - 87)
    } else if base == 16 && 'A' <= c && c <= 'F' {
        Some(n - 55)
    } else {
        None
    }
}

fn read_number(s: &str, base: u64, max: u64) -> (r: Option<u64>)
    requires
        base == 10 || base == 16,
        max <= 0xffff_ffff,
    ensures
        match r {
            Some(n) => number(s@, base as nat, max as nat) == Some(n as nat) && n <= max,
            None => number(s@, base as nat, max as nat) is None,
        },
{
    let v = chars_of(s);
    if v.len() == 0 {
        return None;
    }
    let mut total: u64 = 0;
    let mut i: usize = 0;
    while i < v.len()
        invariant
            i <= v@.len(),
            v@ == s@,
            base == 10 || base == 16,
            max <= 0xffff_ffff,
            total <= max,
            forall|k: int| 0 <= k < i ==> digit_of(#[trigger] s@[k], base as nat) is Some,
            total == base_value(s@.take(i as int), base as nat),
        decreases v.len() - i,
    {
        match digit(v[i], base) {
            None => {
                assert(digit_of(s@[i as int], base as nat) is None);
                return None;
            },
            Some(d) => {
                proof {
                    assert(s@.take(i + 1).drop_last() =~= s@.take(i as int));
                    lemma_base_value_grows(s@, base as nat, i + 1);
                    assert(total * base <= 0xffff_ffff * 16) by (nonlinear_arith)
                        requires
                            total <= 0xffff_ffff,
                            base <= 16,
                    ;
                }
                total = total * base + d;
                if total > max {
                    return None;
                }
            },
        }
        i += 1;
    }
    assert(s@.take(s@.len() as int) =~= s@);
    Some(total)
}

/// One of the four numbers of an IPv4 address: up to three digits, without leading zeros.
pub open spec fn octet(s: Seq<char>) -> Option<nat> {
    if s.len() > 3 || (s.len() > 1 && s[0] == '0') {
        None
    } else {
        number(s, 10, 255)
    }
}

fn read_octet(s: &str) -> (r: Option<u64>)
    ensures
        match r {
            Some(n) => octet(s@) == Some(n as nat) && n <= 255,
            None => octet(s@) is None,
        },
{
    let v = chars_of(s);
    if v.len() > 3 || (v.len() > 1 && v[0] == '0') {
        None
    } else {
        read_number(s, 10, 255)
    }
}

/// The bits of an IPv4 address in text: four numbers with dots between them.
pub open spec fn ipv4(s: Seq<char>) -> Option<nat> {
    let p = split_spec(s, '.');
    if p.len() == 4 && octet(p[0]) is Some && octet(p[1]) is Some && octet(p[2]) is Some && octet(
        p[3],
    ) is Some {
        Some(
            octet(p[0])->0 * 16_777_216 + octet(p[1])->0 * 65_536 + octet(p[2])->0 * 256 + octet(
                p[3],
            )->0,
        )
    } else {
        None
    }
}

fn read_ipv4(s: &str) -> (r: Option<u32>)
    ensures
        match r {
            Some(n) => ipv4(s@) == Some(n as nat),
            None => ipv4(s@) is None,
        },
{
    let p = split(s, '.');
    if p.len() != 4 {
        return None;
    }
    assert(texts(p@)[0] == p@[0]@ && texts(p@)[1] == p@[1]@ && texts(p@)[2] == p@[2]@
        && texts(p@)[3] == p@[3]@);
    match (
        read_octet(p[0].as_str()),
        read_octet(p[1].as_str()),
        read_octet(p[2].as_str()),
        read_octet(p[3].as_str()),
    ) {
        (Some(a), Some(b), Some(c), Some(d)) => Some(
            (a * 16_777_216 + b * 65_536 + c * 256 + d) as u32,
        ),
        _ => None,
    }
}

/// One group of an IPv6 address: up to four hexadecimal digits.
pub open spec fn group(s: Seq<char>) -> Option<nat> {
    if s.len() > 4 {
        None
    } else {
        number(s, 16, 0xffff)
    }
}

/// The groups that pieces of text stand for. The last piece may be an IPv4 address, which
/// stands for two groups, where `v4_last` allows it.
pub open spec fn groups_of(pieces: Seq<Seq<char>>, v4_last: bool) -> Option<Seq<u16>>
    decreases pieces.len(),
{
    if pieces.len() == 0 {
        Some(Seq::empty())
    } else if pieces.len() == 1 && v4_last && ipv4(pieces[0]) is Some {
        let bits = ipv4(pieces[0])->0;
        Some(seq![(bits / 65_536) as u16, (bits % 65_536) as u16])
    } else {
        match (group(pieces[0]), groups_of(pieces.drop_first(), v4_last)) {
            (Some(g), Some(rest)) => Some(seq![g as u16] + rest),
            _ => None,
        }
    }
}

/// The groups on one side of a double colon, where there may be none.
pub open spec fn side(s: Seq<char>, v4_last: bool) -> Option<Seq<u16>> {
    if s.len() == 0 {
        Some(Seq::empty())
    } else {
        groups_of(split_spec(s, ':'), v4_last)
    }
}

/// The position of the first double colon, or the length of the text where there is none.
pub open spec fn double_colon(s: Seq<char>) -> int
    decreases s.len(),
{
    if s.len() < 2 {
        s.len() as int
    } else if s[0] == ':' && s[1] == ':' {
        0
    } else {
        1 + double_colon(s.skip(1))
    }
}

/// The eight groups of an IPv6 address in text. A double colon stands for one or more groups
/// of zero.
pub open spec fn ipv6(s: Seq<char>) -> Option<Seq<u16>> {
    let i = double_colon(s);
    if i < s.len() && s.len() >= 2 {
        match (side(s.take(i), false), side(s.skip(i + 2), true)) {
            (Some(l), Some(r)) => if l.len() + r.len() <= 7 {
                Some(l + Seq::new((8 - l.len() - r.len()) as nat, |k: int| 0u16) + r)
            } else {
                None
            },
            _ => None,
        }
    } else {
        match groups_of(split_spec(s, ':'), true) {
            Some(g) => if g.len() == 8 {
                Some(g)
            } else {
                None
            },
            None => None,
        }
    }
}

fn read_groups(pieces: &Vec<String>, from: usize, v4_last: bool) -> (r: Option<Vec<u16>>)
    requires
        from <= pieces@.len(),
    ensures
        match r {
            Some(g) => groups_of(texts(pieces@).skip(from as int), v4_last) == Some(g@),
            None => groups_of(texts(pieces@).skip(from as int), v4_last) is None,
        },
    decreases pieces@.len() - from,
{
    let ghost p = texts(pieces@).skip(from as int);
    if from == pieces.len() {
        assert(p.len() == 0);
        let g: Vec<u16> = Vec::new();
        assert(g@ =~= Seq::<u16>::empty());
        return Some(g);
    }
    assert(p[0] == pieces@[from as int]@);
    assert(p.drop_first() =~= texts(pieces@).skip(from + 1));
    if from + 1 == pieces.len() && v4_last {
        match read_ipv4(pieces[from].as_str()) {
            Some(bits) => {
                let mut g: Vec<u16> = Vec::new();
                g.push((bits / 65_536) as u16);
                g.push((bits % 65_536) as u16);
                assert(g@ =~= seq![
                    ((bits as nat) / 65_536) as u16,
                    ((bits as nat) % 65_536) as u16,
                ]);
                return Some(g);
            },
            None => {},
        }
    }
    if chars_of(pieces[from].as_str()).len() > 4 {
        return None;
    }
    match read_number(pieces[from].as_str(), 16, 0xffff) {
        None => None,
        Some(n) => match read_groups(pieces, from + 1, v4_last) {
            None => None,
            Some(mut rest) => {
                let ghost tail = rest@;
                rest.insert(0, n as u16);
                assert(rest@ =~= seq![n as u16] + tail);
                Some(rest)
            },
        },
    }
}

fn read_side(v: &Vec<char>, from: usize, to: usize, v4_last: bool) -> (r: Option<Vec<u16>>)
    requires
        from <= to <= v@.len(),
    ensures
        match r {
            Some(g) => side(v@.subrange(from as int, to as int), v4_last) == Some(g@),
            None => side(v@.subrange(from as int, to as int), v4_last) is None,
        },
{
    if from == to {
        let g: Vec<u16> = Vec::new();
        assert(g@ =~= Seq::<u16>::empty());
        return Some(g);
    }
    let s = string_of(v, from, to);
    let pieces = split(s.as_str(), ':');
    assert(texts(pieces@).skip(0) =~= texts(pieces@));
    read_groups(&pieces, 0, v4_last)
}

proof fn lemma_double_colon(s: Seq<char>, i: int)
    requires
        0 <= i <= s.len(),
        forall|k: int| 0 <= k < i && k + 1 < s.len() ==> !(#[trigger] s[k] == ':' && s[k + 1] == ':'),
        i + 1 >= s.len() || (s[i] == ':' && s[i + 1] == ':'),
    ensures
        double_colon(s) == if i + 1 >= s.len() {
            s.len() as int
        } else {
            i
        },
    decreases s.len(),
{
    if s.len() >= 2 && i > 0 {
        let t = s.skip(1);
        assert forall|k: int| 0 <= k < i - 1 && k + 1 < t.len() implies !(#[trigger] t[k] == ':' && t[k
            + 1] == ':') by {
            assert(t[k] == s[k + 1]);
        }
        assert(s[0] == s[0]);
        lemma_double_colon(t, i - 1);
    }
}

/// The bits of eight groups.
pub open spec fn group_bits(g: Seq<u16>) -> int {
    ((((((g[0] * 65_536 + g[1]) * 65_536 + g[2]) * 65_536 + g[3]) * 65_536 + g[4]) * 65_536 + g[5])
        * 65_536 + g[6]) * 65_536 + g[7]
}

fn bits_of_groups(g: &Vec<u16>) -> (r: u128)
    requires
        g@.len() == 8,
    ensures
        r == group_bits(g@),
{
    let a: u128 = g[0] as u128 * 65_536 + g[1] as u128;
    let b: u128 = a * 65_536 + g[2] as u128;
    let c: u128 = b * 65_536 + g[3] as u128;
    let d: u128 = c * 65_536 + g[4] as u128;
    let e: u128 = d * 65_536 + g[5] as u128;
    let f: u128 = e * 65_536 + g[6] as u128;
    f * 65_536 + g[7] as u128
}

fn read_ipv6(s: &str) -> (r: Option<u128>)
    ensures
        match r {
            Some(n) => ipv6(s@) matches Some(g) && g.len() == 8 && n == group_bits(g),
            None => ipv6(s@) is None,
        },
{
    let v = chars_of(s);
    let n: usize = v.len();
    let mut i: usize = 0;
    while i < n && n - i >= 2 && !(v[i] == ':' && v[i + 1] == ':')
        invariant
            i <= n,
            n == v@.len(),
            v@ == s@,
            forall|k: int|
                0 <= k < i && k + 1 < n ==> !(#[trigger] s@[k] == ':' && s@[k + 1] == ':'),
        decreases n - i,
    {
        i += 1;
    }
    proof {
        lemma_double_colon(s@, i as int);
    }
    if i < n && n - i >= 2 {
        assert(s@.take(i as int) =~= v@.subrange(0, i as int));
        assert(s@.skip(i + 2) =~= v@.subrange(i + 2, n as int));
        match (read_side(&v, 0, i, false), read_side(&v, i + 2, n, true)) {
            (Some(l), Some(t)) => {
                if l.len() > 7 || t.len() > 7 - l.len() {
                    return None;
                }
                let mut g: Vec<u16> = Vec::new();
                let mut k: usize = 0;
                while k < 8
                    invariant
                        k <= 8,
                        g@.len() == k,
                        l@.len() + t@.len() <= 7,
                        forall|j: int|
                            0 <= j < k ==> #[trigger] g@[j] == (l@ + Seq::new(
                                (8 - l@.len() - t@.len()) as nat,
                                |m: int| 0u16,
                            ) + t@)[j],
                    decreases 8 - k,
                {
                    if k < l.len() {
                        g.push(l[k]);
                    } else if k < 8 - t.len() {
                        g.push(0);
                    } else {
                        g.push(t[k - (8 - t.len())]);
                    }
                    k += 1;
                }
                assert(g@ =~= l@ + Seq::new((8 - l@.len() - t@.len()) as nat, |m: int| 0u16) + t@);
                Some(bits_of_groups(&g))
            },
            _ => None,
        }
    } else {
        let pieces = split(s, ':');
        assert(texts(pieces@).skip(0) =~= texts(pieces@));
        match read_groups(&pieces, 0, true) {
            Some(g) => {
                if g.len() == 8 {
                    Some(bits_of_groups(&g))
                } else {
                    None
                }
            },
            None => None,
        }
    }
}

/// The address in a text, where it holds one.
pub open spec fn ip_spec(s: Seq<char>) -> Option<IpAddr> {
    match ipv4(s) {
        Some(bits) => Some(IpAddr::V4(bits as u32)),
        None => match ipv6(s) {
            Some(g) => Some(IpAddr::V6(group_bits(g) as u128)),
            None => None,
        },
    }
}

/// Reads an IPv4 or IPv6 address.
pub fn parse_ip(s: &str) -> (r: Option<IpAddr>)
    ensures
        r == ip_spec(s@),
{
    match read_ipv4(s) {
        Some(bits) => Some(IpAddr::V4(bits)),
        None => match read_ipv6(s) {
            Some(bits) => Some(IpAddr::V6(bits)),
            None => None,
        },
    }
}

/// The socket address in a text, where it holds one: `1.2.3.4:80`, `[::1]:80` or, with a scope,
/// `[fe80::1%3]:80`.
pub open spec fn socket_spec(s: Seq<char>) -> Option<SocketAddr> {
    if s.len() > 0 && s[0] == '[' {
        let inside = before_spec(s.skip(1), ']');
        let rest = after_spec(s.skip(1), ']');
        let scope = if find_spec(inside, '%') < inside.len() {
            number(after_spec(inside, '%'), 10, 0xffff_ffff)
        } else {
            Some(0)
        };
        if find_spec(s.skip(1), ']') < s.len() - 1 && rest.len() > 0 && rest[0] == ':' {
            match (ipv6(before_spec(inside, '%')), scope, number(rest.skip(1), 10, 0xffff)) {
                (Some(g), Some(n), Some(port)) => Some(
                    SocketAddr {
                        ip: IpAddr::V6(group_bits(g) as u128),
                        port: port as u16,
                        scope_id: n as u32,
                    },
                ),
                _ => None,
            }
        } else {
            None
        }
    } else if find_spec(s, ':') < s.len() {
        match (ipv4(before_spec(s, ':')), number(after_spec(s, ':'), 10, 0xffff)) {
            (Some(bits), Some(port)) => Some(
                SocketAddr { ip: IpAddr::V4(bits as u32), port: port as u16, scope_id: 0 },
            ),
            _ => None,
        }
    } else {
        None
    }
}

/// Reads an IP address with a port.
pub fn parse_socket(s: &str) -> (r: Option<SocketAddr>)
    ensures
        r == socket_spec(s@),
{
    let v = chars_of(s);
    let n: usize = v.len();
    if n > 0 && v[0] == '[' {
        let tail = string_of(&v, 1, n);
        assert(tail@ =~= s@.skip(1));
        proof {
            lemma_find(tail@, ']');
        }
        let (inside, rest) = match split_once(tail.as_str(), ']') {
            None => return None,
            Some(x) => x,
        };
        let w = chars_of(rest.as_str());
        if w.len() == 0 || w[0] != ':' {
            return None;
        }
        let port_text = string_of(&w, 1, w.len());
        assert(port_text@ =~= rest@.skip(1));
        proof {
            lemma_find(inside@, '%');
            assert(inside@.take(inside@.len() as int) =~= inside@);
        }
        let (address, scope) = match split_once(inside.as_str(), '%') {
            None => (inside, Some(0)),
            Some((address, scope)) => (address, read_number(scope.as_str(), 10, 0xffff_ffff)),
        };
        match (read_ipv6(address.as_str()), scope, read_number(port_text.as_str(), 10, 0xffff)) {
            (Some(bits), Some(scope_id), Some(port)) => Some(
                SocketAddr { ip: IpAddr::V6(bits), port: port as u16, scope_id: scope_id as u32 },
            ),
            _ => None,
        }
    } else {
        proof {
            lemma_find(s@, ':');
        }
        match split_once(s, ':') {
            None => None,
            Some((address, port)) => match (
                read_ipv4(address.as_str()),
                read_number(port.as_str(), 10, 0xffff),
            ) {
                (Some(bits), Some(port)) => Some(
                    SocketAddr { ip: IpAddr::V4(bits), port: port as u16, scope_id: 0 },
                ),
                _ => None,
            },
        }
    }
}

/// The hexadecimal digit `d` as a character.
pub open spec fn hex_char(d: nat) -> char {
    if d < 10 {
        (48 + d) as char
    } else {
        (87 + d) as char
    }
}

/// The hexadecimal numeral of `n`, without leading zeros.
pub open spec fn hex(n: nat) -> Seq<char>
    decreases n,
{
    if n < 16 {
        seq![hex_char(n)]
    } else {
        hex(n / 16).push(hex_char(n % 16))
    }
}

fn hex_text(n: u16) -> (r: String)
    ensures
        r@ == hex(n as nat),
    decreases n,
{
    let mut r = if n < 16 {
        String::new()
    } else {
        hex_text(n / 16)
    };
    let d: u8 = (n % 16) as u8;
    let c: char = if d < 10 {
        (48 + d) as char
    } else {
        (87 + d) as char
    };
    let ghost before = r@;
    r.push(c);
    assert(r@ =~= hex(n as nat));
    r
}

/// The IPv4 address with these bits in text.
pub open spec fn ipv4_text(bits: u32) -> Seq<char> {
    decimal((bits / 16_777_216) as nat) + "."@ + decimal((bits / 65_536 % 256) as nat) + "."@
        + decimal((bits / 256 % 256) as nat) + "."@ + decimal((bits % 256) as nat)
}

fn write_ipv4(bits: u32) -> (r: String)
    ensures
        r@ == ipv4_text(bits),
{
    let a = u64_text((bits / 16_777_216) as u64);
    let b = u64_text((bits / 65_536 % 256) as u64);
    let c = u64_text((bits / 256 % 256) as u64);
    let d = u64_text((bits % 256) as u64);
    let left = joined3(a.as_str(), ".", b.as_str());
    let mid = joined3(left.as_str(), ".", c.as_str());
    joined3(mid.as_str(), ".", d.as_str())
}

/// The groups of an IPv6 address.
pub open spec fn groups(bits: u128) -> Seq<u16> {
    seq![
        (bits / 0x1_0000_0000_0000_0000_0000_0000_0000 % 65_536) as u16,
        (bits / 0x1_0000_0000_0000_0000_0000_0000 % 65_536) as u16,
        (bits / 0x1_0000_0000_0000_0000_0000 % 65_536) as u16,
        (bits / 0x1_0000_0000_0000_0000 % 65_536) as u16,
        (bits / 0x1_0000_0000_0000 % 65_536) as u16,
        (bits / 0x1_0000_0000 % 65_536) as u16,
        (bits / 0x1_0000 % 65_536) as u16,
        (bits % 65_536) as u16,
    ]
}

fn groups_vec(bits: u128) -> (r: Vec<u16>)
    ensures
        r@ == groups(bits),
{
    let mut g: Vec<u16> = Vec::new();
    g.push((bits / 0x1_0000_0000_0000_0000_0000_0000_0000 % 65_536) as u16);
    g.push((bits / 0x1_0000_0000_0000_0000_0000_0000 % 65_536) as u16);
    g.push((bits / 0x1_0000_0000_0000_0000_0000 % 65_536) as u16);
    g.push((bits / 0x1_0000_0000_0000_0000 % 65_536) as u16);
    g.push((bits / 0x1_0000_0000_0000 % 65_536) as u16);
    g.push((bits / 0x1_0000_0000 % 65_536) as u16);
    g.push((bits / 0x1_0000 % 65_536) as u16);
    g.push((bits % 65_536) as u16);
    assert(g@ =~= groups(bits));
    g
}

/// How many groups of zero follow one another from `i` on.
pub open spec fn zeros_from(g: Seq<u16>, i: int) -> int
    decreases g.len() - i,
{
    if 0 <= i < g.len() && g[i] == 0 {
        1 + zeros_from(g, i + 1)
    } else {
        0
    }
}

/// The first among the longest runs of zero groups from `i` on: where it begins and how long
/// it is.
pub open spec fn longest_run(g: Seq<u16>, i: int) -> (int, int)
    decreases g.len() - i,
{
    if 0 <= i < g.len() {
        let rest = longest_run(g, i + 1);
        if zeros_from(g, i) >= rest.1 {
            (i, zeros_from(g, i))
        } else {
            rest
        }
    } else {
        (i, 0)
    }
}

/// Groups in text, with colons between them.
pub open spec fn group_texts(g: Seq<u16>) -> Seq<Seq<char>> {
    g.map_values(|x: u16| hex(x as nat))
}

/// The IPv6 address with these bits in text: the longest run of two or more zero groups is
/// written as a double colon, and an address that stands for an IPv4 address shows it.
pub open spec fn ipv6_text(bits: u128) -> Seq<char> {
    let g = groups(bits);
    let (start, len) = longest_run(g, 0);
    match mapped_ipv4(bits) {
        Some(v4) => "::ffff:"@ + ipv4_text(v4),
        None => if len > 1 {
            join_spec(group_texts(g.take(start)), ":"@) + "::"@ + join_spec(
                group_texts(g.skip(start + len)),
                ":"@,
            )
        } else {
            join_spec(group_texts(g), ":"@)
        },
    }
}

/// The IPv4 address that an IPv6 address of the form `::ffff:a.b.c.d` stands for.
pub open spec fn mapped_ipv4(bits: u128) -> Option<u32> {
    if bits / 0x1_0000_0000 == 0xffff {
        Some((bits % 0x1_0000_0000) as u32)
    } else {
        None
    }
}

/// The IPv4 address that an IPv6 address of the form `::ffff:a.b.c.d` stands for.
pub fn to_ipv4_mapped(bits: u128) -> (r: Option<u32>)
    ensures
        r == mapped_ipv4(bits),
{
    if bits / 0x1_0000_0000 == 0xffff {
        Some((bits % 0x1_0000_0000) as u32)
    } else {
        None
    }
}

fn write_groups(g: &Vec<u16>, from: usize, to: usize) -> (r: String)
    requires
        from <= to <= g@.len(),
    ensures
        r@ == join_spec(group_texts(g@.subrange(from as int, to as int)), ":"@),
{
    let mut parts: Vec<String> = Vec::new();
    let mut i: usize = from;
    while i < to
        invariant
            from <= i <= to <= g@.len(),
            texts(parts@) == group_texts(g@.subrange(from as int, i as int)),
        decreases to - i,
    {
        let ghost before = parts@;
        parts.push(hex_text(g[i]));
        assert(texts(parts@) =~= texts(before).push(hex(g@[i as int] as nat)));
        assert(g@.subrange(from as int, i + 1) =~= g@.subrange(from as int, i as int).push(
            g@[i as int],
        ));
        assert(group_texts(g@.subrange(from as int, i + 1)) =~= texts(parts@));
        i += 1;
    }
    crate::text::join(&parts, ":")
}

fn find_longest_run(g: &Vec<u16>) -> (r: (usize, usize))
    ensures
        longest_run(g@, 0) == (r.0 as int, r.1 as int),
        r.0 + r.1 <= g@.len(),
{
    let n: usize = g.len();
    let mut i: usize = n;
    let mut here: usize = 0;
    let mut best: (usize, usize) = (n, 0);
    while i > 0
        invariant
            i <= n,
            n == g@.len(),
            here == zeros_from(g@, i as int),
            here <= n - i,
            longest_run(g@, i as int) == (best.0 as int, best.1 as int),
            best.0 + best.1 <= n,
        decreases i,
    {
        i = i - 1;
        if g[i] == 0 {
            here = here + 1;
        } else {
            here = 0;
        }
        if here >= best.1 {
            best = (i, here);
        }
    }
    best
}

fn write_ipv6(bits: u128) -> (r: String)
    ensures
        r@ == ipv6_text(bits),
{
    match to_ipv4_mapped(bits) {
        Some(v4) => joined("::ffff:", write_ipv4(v4).as_str()),
        None => {
            let g = groups_vec(bits);
            let (start, len) = find_longest_run(&g);
            if len > 1 {
                let left = write_groups(&g, 0, start);
                let right = write_groups(&g, start + len, g.len());
                assert(g@.take(start as int) =~= g@.subrange(0, start as int));
                assert(g@.skip(start + len) =~= g@.subrange(start + len, g@.len() as int));
                joined3(left.as_str(), "::", right.as_str())
            } else {
                assert(g@.subrange(0, g@.len() as int) =~= g@);
                write_groups(&g, 0, g.len())
            }
        },
    }
}

impl IpAddr {
    /// The address in text.
    pub open spec fn text(self) -> Seq<char> {
        match self {
            IpAddr::V4(bits) => ipv4_text(bits),
            IpAddr::V6(bits) => ipv6_text(bits),
        }
    }

    /// The address in text.
    pub fn to_string(&self) -> (r: String)
        ensures
            r@ == self.text(),
    {
        match self {
            IpAddr::V4(bits) => write_ipv4(*bits),
            IpAddr::V6(bits) => write_ipv6(*bits),
        }
    }

    /// Whether the address is one of the machine itself: `127.0.0.0/8` or `::1`.
    pub open spec fn loopback(self) -> bool {
        match self {
            IpAddr::V4(bits) => bits / 16_777_216 == 127,
            IpAddr::V6(bits) => bits == 1,
        }
    }

    /// Whether the address is one of the machine itself.
    pub fn is_loopback(&self) -> (r: bool)
        ensures
            r == self.loopback(),
    {
        match self {
            IpAddr::V4(bits) => *bits / 16_777_216 == 127,
            IpAddr::V6(bits) => *bits == 1,
        }
    }
}

impl SocketAddr {
    /// The address in text.
    pub open spec fn text(self) -> Seq<char> {
        match self.ip {
            IpAddr::V4(bits) => ipv4_text(bits) + ":"@ + decimal(self.port as nat),
            IpAddr::V6(bits) => "["@ + ipv6_text(bits) + (if self.scope_id == 0 {
                Seq::<char>::empty()
            } else {
                "%"@ + decimal(self.scope_id as nat)
            }) + "]:"@ + decimal(self.port as nat),
        }
    }

    /// The address in text.
    pub fn to_string(&self) -> (r: String)
        ensures
            r@ == self.text(),
    {
        let port = u64_text(self.port as u64);
        match self.ip {
            IpAddr::V4(bits) => joined3(write_ipv4(bits).as_str(), ":", port.as_str()),
            IpAddr::V6(bits) => {
                let scope = if self.scope_id == 0 {
                    String::new()
                } else {
                    joined("%", u64_text(self.scope_id as u64).as_str())
                };
                assert(self.scope_id == 0 ==> scope@ =~= Seq::<char>::empty());
                let inside = joined3("[", write_ipv6(bits).as_str(), scope.as_str());
                joined3(inside.as_str(), "]:", port.as_str())
            },
        }
    }
}

proof fn lemma_decimal_in_base(n: nat)
    ensures
        decimal(n).len() >= 1,
        in_base(decimal(n), 10),
        base_value(decimal(n), 10) == n,
        n > 0 ==> decimal(n)[0] != '0',
        n == 0 ==> decimal(n).len() == 1,
        n < 10 ==> decimal(n).len() == 1,
        n < 100 ==> decimal(n).len() <= 2,
        n < 1000 ==> decimal(n).len() <= 3,
        forall|i: int| 0 <= i < decimal(n).len() ==> '0' <= #[trigger] decimal(n)[i] <= '9',
    decreases n,
{
    let s = decimal(n);
    if n < 10 {
        assert(s.drop_last() =~= Seq::<char>::empty());
        assert(base_value(Seq::<char>::empty(), 10) == 0);
        assert(s[0] == (48 + n) as char);
    } else {
        lemma_decimal_in_base(n / 10);
        let most = decimal(n / 10);
        assert(s.drop_last() =~= most);
        assert(s.last() == (48 + n % 10) as char);
        assert forall|i: int| 0 <= i < s.len() implies digit_of(#[trigger] s[i], 10) is Some && '0' <= s[i]
            <= '9' by {
            if i < most.len() {
                assert(s[i] == most[i]);
            }
        }
        assert(s[0] == most[0]);
        assert(base_value(s, 10) == (n / 10) * 10 + n % 10);
    }
}

proof fn lemma_octet(n: nat)
    requires
        n <= 255,
    ensures
        octet(decimal(n)) == Some(n),
        !decimal(n).contains('.'),
        !decimal(n).contains(':'),
        decimal(n)[0] != '[',
{
    lemma_decimal_in_base(n);
    assert forall|c: char| c == '.' || c == ':' || c == '[' implies !decimal(n).contains(c) by {
        if decimal(n).contains(c) {
            let i = choose|i: int| 0 <= i < decimal(n).len() && decimal(n)[i] == c;
            assert('0' <= decimal(n)[i] <= '9');
        }
    }
    assert(decimal(n).contains(decimal(n)[0]));
}

proof fn lemma_ipv4_parts(bits: u32)
    ensures
        split_spec(ipv4_text(bits), '.') == seq![
            decimal((bits / 16_777_216) as nat),
            decimal((bits / 65_536 % 256) as nat),
            decimal((bits / 256 % 256) as nat),
            decimal((bits % 256) as nat),
        ],
        !ipv4_text(bits).contains(':'),
        ipv4_text(bits).len() > 0 && ipv4_text(bits)[0] != '[',
{
    reveal_strlit(".");
    let a = decimal((bits / 16_777_216) as nat);
    let b = decimal((bits / 65_536 % 256) as nat);
    let c = decimal((bits / 256 % 256) as nat);
    let d = decimal((bits % 256) as nat);
    lemma_octet((bits / 16_777_216) as nat);
    lemma_octet((bits / 65_536 % 256) as nat);
    lemma_octet((bits / 256 % 256) as nat);
    lemma_octet((bits % 256) as nat);
    assert("."@ =~= seq!['.']);
    lemma_split_then(a + seq!['.'] + b + seq!['.'] + c, d, '.');
    lemma_split_then(a + seq!['.'] + b, c, '.');
    lemma_split_then(a, b, '.');
    lemma_one_piece(a, '.');
    lemma_one_piece(b, '.');
    lemma_one_piece(c, '.');
    lemma_one_piece(d, '.');
    let text = ipv4_text(bits);
    assert(text =~= a + seq!['.'] + b + seq!['.'] + c + seq!['.'] + d);
    assert(split_spec(text, '.') =~= seq![a, b, c, d]);
    assert(text[0] == a[0]);
    if text.contains(':') {
        let i = choose|i: int| 0 <= i < text.len() && text[i] == ':';
        let n = a.len() as int;
        let m = n + 1 + b.len();
        let k = m + 1 + c.len();
        if i < n {
            assert(a.contains(a[i]));
        } else if n < i < m {
            assert(b.contains(b[i - n - 1]));
        } else if m < i < k {
            assert(c.contains(c[i - m - 1]));
        } else if i > k {
            assert(d.contains(d[i - k - 1]));
        }
    }
}

/// An IPv4 address in text is read back as the address, and its first number is the highest.
pub proof fn law_ipv4_text_reads_back(bits: u32)
    ensures
        ip_spec(ipv4_text(bits)) == Some(IpAddr::V4(bits)),
        bits / 16_777_216 == 127 <==> IpAddr::V4(bits).loopback(),
{
    lemma_ipv4_parts(bits);
    lemma_octet((bits / 16_777_216) as nat);
    lemma_octet((bits / 65_536 % 256) as nat);
    lemma_octet((bits / 256 % 256) as nat);
    lemma_octet((bits % 256) as nat);
    assert((bits / 16_777_216) * 16_777_216 + (bits / 65_536 % 256) * 65_536 + (bits / 256 % 256) * 256
        + bits % 256 == bits) by (bit_vector);
}

/// An IPv4 address with a port in text is read back as it was.
pub proof fn law_ipv4_socket_text_reads_back(bits: u32, port: u16)
    ensures
        ({
            let addr = SocketAddr { ip: IpAddr::V4(bits), port, scope_id: 0 };
            socket_spec(addr.text()) == Some(addr)
        }),
{
    reveal_strlit(":");
    let addr = SocketAddr { ip: IpAddr::V4(bits), port, scope_id: 0 };
    let host = ipv4_text(bits);
    let number = decimal(port as nat);
    let s = addr.text();
    assert(":"@ =~= seq![':']);
    lemma_ipv4_parts(bits);
    law_ipv4_text_reads_back(bits);
    lemma_decimal_in_base(port as nat);
    assert forall|j: int| 0 <= j < host.len() implies #[trigger] s[j] != ':' by {
        assert(s[j] == host[j]);
        assert(host.contains(host[j]));
    }
    lemma_find_at(s, ':', host.len() as int);
    assert(s.take(host.len() as int) =~= host);
    assert(s.skip(host.len() as int + 1) =~= number);
    assert(s[0] == host[0]);
}

/// An IPv6 address stands for an IPv4 address exactly where it lies in the range set aside for
/// them; the lower bits are then the address.
pub proof fn law_mapped_addresses_are_told(bits: u128, v4: u32)
    ensures
        mapped_ipv4(bits) == Some(v4) <==> bits == 0xffff_0000_0000 + v4,
{
}

} // verus!
