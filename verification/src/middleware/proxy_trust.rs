//! Proxy trust: forwarded-header gating, origin derivation, and identity enforcement.
//!
//! When proxy trust is **disabled** (the default), all forwarded headers are
//! stripped from every request — preventing clients from spoofing origin
//! information.
//!
//! When proxy trust is **enabled**, headers are only preserved from peers whose
//! IP matches one of the configured trusted proxy addresses. The configured
//! [`ForwardedHeadersMode`] determines which header family is kept; the
//! opposing family is always stripped, even from trusted peers.

use axum::http::HeaderMap;
use vstd::prelude::*;
use crate::config::model::{Config, Settings};
use crate::config::modes::{ForwardedHeadersMode, ProxyIdentityMode, TransportMode};
use crate::config::validate::is_ip_or_cidr;
use crate::decimal::{parse_unsigned, unsigned_value};
use crate::http::{
    field_text, header_fields, header_name, header_value, is_header_name, remove_header,
};
use crate::net::{IpAddr, ip_spec, mapped_ipv4, parse_ip, to_ipv4_mapped};
use crate::text::{
    after_spec, ascii_lower_spec, before, before_spec, chars_of, same, split, split_once,
    split_spec, text_opt, texts, to_ascii_lowercase, trim, trim_spec,
};

verus! {

pub const X_FORWARDED_FOR: &'static str = "x-forwarded-for";

pub const X_FORWARDED_HOST: &'static str = "x-forwarded-host";

pub const X_FORWARDED_PROTO: &'static str = "x-forwarded-proto";

pub const X_FORWARDED_PORT: &'static str = "x-forwarded-port";

pub const FORWARDED: &'static str = "forwarded";

/// One trusted proxy: an address, or a range of addresses.
#[derive(Debug, Clone, Copy, PartialEq, Eq, Structural)]
pub enum PeerEntry {
    Exact(IpAddr),
    Cidr { network: IpAddr, prefix_len: u8 },
}

/// The largest prefix length for addresses of this family.
pub open spec fn max_prefix(network: IpAddr) -> nat {
    match network {
        IpAddr::V4(_) => 32,
        IpAddr::V6(_) => 128,
    }
}

/// The trusted proxy that a text describes: `10.0.0.1`, or `10.0.0.0/8`.
pub open spec fn peer_entry(raw: Seq<char>) -> Option<PeerEntry> {
    match ip_spec(raw) {
        Some(ip) => Some(PeerEntry::Exact(ip)),
        None => if raw.contains('/') {
            match (ip_spec(before_spec(raw, '/')), unsigned_value(after_spec(raw, '/'), 255)) {
                (Some(network), Some(n)) => if n <= max_prefix(network) {
                    Some(PeerEntry::Cidr { network, prefix_len: n as u8 })
                } else {
                    None
                },
                _ => None,
            }
        } else {
            None
        },
    }
}

/// Configuration and matching use the same syntax and prefix bounds: an entry is accepted by
/// the one exactly where the other understands it.
pub proof fn law_valid_entries_are_understood(raw: Seq<char>)
    ensures
        peer_entry(raw) is Some == is_ip_or_cidr(raw),
{
}

impl PeerEntry {
    /// Use the same syntax and prefix bounds for configuration and matching.
    pub fn parse(raw: &str) -> (r: Option<Self>)
        ensures
            r == peer_entry(raw@),
    {
        if let Some(ip) = parse_ip(raw) {
            return Some(PeerEntry::Exact(ip));
        }
        let (address, prefix) = match split_once(raw, '/') {
            Some(x) => x,
            None => return None,
        };
        match (parse_ip(address.as_str()), parse_unsigned(prefix.as_str(), 255)) {
            (Some(network), Ok(n)) => {
                let max: u64 = match network {
                    IpAddr::V4(_) => 32,
                    IpAddr::V6(_) => 128,
                };
                if n <= max {
                    Some(PeerEntry::Cidr { network, prefix_len: n as u8 })
                } else {
                    None
                }
            },
            _ => None,
        }
    }
}

/// Whether two IPv4 addresses agree in their first `n` bits.
pub open spec fn same_ipv4_prefix(a: u32, b: u32, n: u8) -> bool {
    if n == 0 {
        true
    } else if n >= 32 {
        a == b
    } else {
        a >> ((32 - n) as u32) == b >> ((32 - n) as u32)
    }
}

/// Whether two IPv6 addresses agree in their first `n` bits.
pub open spec fn same_ipv6_prefix(a: u128, b: u128, n: u8) -> bool {
    if n == 0 {
        true
    } else if n >= 128 {
        a == b
    } else {
        a >> ((128 - n) as u128) == b >> ((128 - n) as u128)
    }
}

/// Whether an address lies in a range.
pub open spec fn in_range(network: IpAddr, prefix_len: u8, candidate: IpAddr) -> bool {
    match (network, candidate) {
        (IpAddr::V4(a), IpAddr::V4(b)) => same_ipv4_prefix(a, b, prefix_len),
        (IpAddr::V6(a), IpAddr::V6(b)) => same_ipv6_prefix(a, b, prefix_len),
        _ => false,
    }
}

fn ipv4_mask(prefix_len: u8) -> (r: u32)
    ensures
        prefix_len == 0 ==> r == 0,
        prefix_len >= 32 ==> r == u32::MAX,
        0 < prefix_len < 32 ==> r == u32::MAX << ((32 - prefix_len) as u32),
{
    if prefix_len == 0 {
        0
    } else if prefix_len >= 32 {
        u32::MAX
    } else {
        u32::MAX << ((32 - prefix_len) as u32)
    }
}

fn ipv6_mask(prefix_len: u8) -> (r: u128)
    ensures
        prefix_len == 0 ==> r == 0,
        prefix_len >= 128 ==> r == u128::MAX,
        0 < prefix_len < 128 ==> r == u128::MAX << ((128 - prefix_len) as u128),
{
    if prefix_len == 0 {
        0
    } else if prefix_len >= 128 {
        u128::MAX
    } else {
        u128::MAX << ((128 - prefix_len) as u128)
    }
}

/// The bits that a mask keeps are those that a shift keeps.
proof fn lemma_mask(a: u128, k: u128)
    requires
        0 < k < 128,
    ensures
        a & (u128::MAX << k) == (a >> k) << k,
        ((a >> k) << k) >> k == a >> k,
{
    assert(k < 128 ==> a & (0xffff_ffff_ffff_ffff_ffff_ffff_ffff_ffffu128 << k) == (a >> k) << k)
        by (bit_vector);
    assert(k < 128 ==> ((a >> k) << k) >> k == a >> k) by (bit_vector);
}

/// Addresses that agree after a shift agree after each longer one.
proof fn lemma_shift_on(a: u128, b: u128, i: u128, j: u128)
    requires
        i <= j < 128,
        a >> i == b >> i,
    ensures
        a >> j == b >> j,
    decreases j - i,
{
    if i < j {
        let n = (i + 1) as u128;
        assert(i < 127 && n == i + 1 ==> a >> n == (a >> i) >> 1) by (bit_vector);
        assert(i < 127 && n == i + 1 ==> b >> n == (b >> i) >> 1) by (bit_vector);
        lemma_shift_on(a, b, n, j);
    }
}

/// Check if `candidate` falls within the `network/prefix_len` CIDR range.
fn cidr_contains(network: IpAddr, prefix_len: u8, candidate: IpAddr) -> (r: bool)
    ensures
        r == in_range(network, prefix_len, candidate),
{
    match (network, candidate) {
        (IpAddr::V4(net), IpAddr::V4(cand)) => {
            let mask = ipv4_mask(prefix_len);
            proof {
                let k = (32 - prefix_len) as u32;
                assert(net & 0 == cand & 0) by (bit_vector);
                assert(net & 0xffff_ffffu32 == net) by (bit_vector);
                assert(cand & 0xffff_ffffu32 == cand) by (bit_vector);
                assert(0 < k < 32 ==> ((net & (0xffff_ffffu32 << k)) == (cand & (0xffff_ffffu32 << k)))
                    == (net >> k == cand >> k)) by (bit_vector);
            }
            (net & mask) == (cand & mask)
        },
        (IpAddr::V6(net), IpAddr::V6(cand)) => {
            let mask = ipv6_mask(prefix_len);
            proof {
                let k = (128 - prefix_len) as u128;
                assert(net & 0 == cand & 0) by (bit_vector);
                assert(net & 0xffff_ffff_ffff_ffff_ffff_ffff_ffff_ffffu128 == net) by (bit_vector);
                assert(cand & 0xffff_ffff_ffff_ffff_ffff_ffff_ffff_ffffu128 == cand) by (bit_vector);
                if 0 < k < 128 {
                    lemma_mask(net, k);
                    lemma_mask(cand, k);
                }
            }
            (net & mask) == (cand & mask)
        },
        _ => false,
    }
}

/// Whether an entry covers an address.
pub open spec fn covers(entry: PeerEntry, addr: IpAddr) -> bool {
    match entry {
        PeerEntry::Exact(ip) => ip == addr,
        PeerEntry::Cidr { network, prefix_len } => in_range(network, prefix_len, addr),
    }
}

/// Whether an entry trusts an address: it covers the address itself, or the IPv4 address that
/// the address stands for.
pub open spec fn entry_trusts(entry: PeerEntry, addr: IpAddr) -> bool {
    covers(entry, addr) || (match addr {
        IpAddr::V6(bits) => mapped_ipv4(bits) matches Some(v4) && covers(entry, IpAddr::V4(v4)),
        IpAddr::V4(_) => false,
    })
}

/// Whether one of the entries trusts an address.
pub open spec fn trusts(entries: Seq<PeerEntry>, addr: IpAddr) -> bool {
    exists|i: int| 0 <= i < entries.len() && entry_trusts(#[trigger] entries[i], addr)
}

/// The trusted proxies that texts describe; texts that describe none are left out.
pub open spec fn entries_of(list: Seq<Seq<char>>) -> Seq<PeerEntry>
    decreases list.len(),
{
    if list.len() == 0 {
        Seq::empty()
    } else {
        let rest = entries_of(list.drop_last());
        match peer_entry(list.last()) {
            Some(entry) => rest.push(entry),
            None => rest,
        }
    }
}

/// Parsed set of trusted proxy peers.
#[derive(Debug, Clone)]
pub struct TrustedPeers {
    pub entries: Vec<PeerEntry>,
}

fn entry_covers(entry: PeerEntry, addr: IpAddr) -> (r: bool)
    ensures
        r == covers(entry, addr),
{
    match entry {
        PeerEntry::Exact(ip) => ip == addr,
        PeerEntry::Cidr { network, prefix_len } => cidr_contains(network, prefix_len, addr),
    }
}

impl TrustedPeers {
    /// Parse a list of validated IP/CIDR strings into a `TrustedPeers` set.
    ///
    /// Config validation guarantees all entries are syntactically valid by
    /// the time this constructor runs, so invalid entries are skipped.
    pub fn from_config(trusted_proxies: &Vec<String>) -> (r: Self)
        ensures
            r.entries@ == entries_of(texts(trusted_proxies@)),
    {
        let mut entries: Vec<PeerEntry> = Vec::new();
        let mut i: usize = 0;
        let ghost all = texts(trusted_proxies@);
        assert(all.take(0) =~= Seq::<Seq<char>>::empty());
        while i < trusted_proxies.len()
            invariant
                i <= trusted_proxies@.len(),
                all == texts(trusted_proxies@),
                entries@ == entries_of(all.take(i as int)),
            decreases trusted_proxies.len() - i,
        {
            assert(all.take(i + 1).drop_last() =~= all.take(i as int));
            assert(all.take(i + 1).last() == trusted_proxies@[i as int]@);
            if let Some(entry) = PeerEntry::parse(trusted_proxies[i].as_str()) {
                entries.push(entry);
            }
            i += 1;
        }
        assert(all.take(all.len() as int) =~= all);
        TrustedPeers { entries }
    }

    /// Returns `true` if `addr` matches any entry in the trusted set.
    ///
    /// Handles IPv4-mapped IPv6 addresses (`::ffff:a.b.c.d`) by also
    /// checking the unwrapped IPv4 form against IPv4 entries.
    pub fn contains(&self, addr: IpAddr) -> (r: bool)
        ensures
            r == trusts(self.entries@, addr),
    {
        let mapped: Option<u32> = match addr {
            IpAddr::V6(bits) => to_ipv4_mapped(bits),
            IpAddr::V4(_) => None,
        };
        let mut i: usize = 0;
        while i < self.entries.len()
            invariant
                i <= self.entries@.len(),
                mapped == match addr {
                    IpAddr::V6(bits) => mapped_ipv4(bits),
                    IpAddr::V4(_) => None,
                },
                forall|k: int| 0 <= k < i ==> !entry_trusts(#[trigger] self.entries@[k], addr),
            decreases self.entries.len() - i,
        {
            let entry = self.entries[i];
            let direct = entry_covers(entry, addr);
            let inner = match mapped {
                Some(v4) => entry_covers(entry, IpAddr::V4(v4)),
                None => false,
            };
            if direct || inner {
                assert(entry_trusts(self.entries@[i as int], addr));
                return true;
            }
            i += 1;
        }
        false
    }
}

/// An IPv6 address that stands for an IPv4 address is trusted wherever that IPv4 address is.
pub proof fn law_mapped_address_is_trusted_like_ipv4(entries: Seq<PeerEntry>, bits: u128, v4: u32)
    requires
        mapped_ipv4(bits) == Some(v4),
        trusts(entries, IpAddr::V4(v4)),
    ensures
        trusts(entries, IpAddr::V6(bits)),
{
    let i = choose|i: int|
        0 <= i < entries.len() && entry_trusts(#[trigger] entries[i], IpAddr::V4(v4));
    assert(entry_trusts(entries[i], IpAddr::V6(bits)));
}

/// A longer prefix covers fewer addresses: what lies in a range lies in each wider range of the
/// same network.
pub proof fn law_shorter_prefix_covers_more(network: IpAddr, long: u8, short: u8, addr: IpAddr)
    requires
        short <= long <= max_prefix(network),
        in_range(network, long, addr),
    ensures
        in_range(network, short, addr),
{
    match (network, addr) {
        (IpAddr::V4(a), IpAddr::V4(b)) => {
            let i = (32 - long) as u32;
            let j = (32 - short) as u32;
            if 0 < short && long < 32 {
                assert(a >> i == b >> i && i <= j && j < 32 ==> a >> j == b >> j) by (bit_vector);
            }
        },
        (IpAddr::V6(a), IpAddr::V6(b)) => {
            let i = (128 - long) as u128;
            let j = (128 - short) as u128;
            if 0 < short && long < 128 {
                lemma_shift_on(a, b, i, j);
            }
        },
        _ => {},
    }
}

/// Every address lies in each range around itself.
pub proof fn law_range_covers_its_network(network: IpAddr, prefix_len: u8)
    ensures
        in_range(network, prefix_len, network),
{
}

/// Per-request proxy trust decision, which later stages can record.
#[derive(Debug, Clone)]
pub struct ProxyTrustResult {
    /// The connecting peer's IP address, if available.
    pub peer_ip: Option<IpAddr>,
    /// Whether the peer matched a trusted proxy entry.
    pub trusted: bool,
    /// Request scheme after proxy trust rules are applied.
    pub scheme: String,
    /// Request authority after proxy trust rules are applied.
    pub authority: Option<String>,
    /// Client address after proxy trust rules are applied.
    pub client_address: Option<String>,
}

/// Runtime proxy trust configuration.
#[derive(Debug, Clone)]
pub struct ProxyTrustState {
    pub enabled: bool,
    pub mode: ForwardedHeadersMode,
    pub trusted_peers: TrustedPeers,
    pub transport_mode: TransportMode,
    pub identity_mode: ProxyIdentityMode,
    /// The identity header in lower case, where a valid one is configured.
    pub identity_header: Option<String>,
    pub identity_require_tls: bool,
}

/// The identity header of a configuration, in lower case, where it is a header name.
pub open spec fn identity_name(s: Settings) -> Option<Seq<char>> {
    match s.identity_header {
        Some(name) => if is_header_name(name) {
            Some(ascii_lower_spec(name))
        } else {
            None
        },
        None => None,
    }
}

impl ProxyTrustState {
    /// Build from the resolved [`Config`].
    pub fn from_config(config: &Config) -> (r: Self)
        ensures
            r.enabled == config@.proxy_enabled,
            r.mode == config@.forwarded_headers,
            r.trusted_peers.entries@ == entries_of(config@.trusted_proxies),
            r.transport_mode == config@.transport_mode,
            r.identity_mode == config@.identity_mode,
            text_opt(r.identity_header) == identity_name(config@),
            r.identity_require_tls == config@.identity_require_tls,
    {
        let proxy = &config.proxy;
        let identity_header = match &proxy.identity.header_name {
            Some(name) => match header_name(name.as_str()) {
                Ok(lower) => Some(lower),
                Err(_) => None,
            },
            None => None,
        };
        ProxyTrustState {
            enabled: proxy.enabled,
            mode: proxy.forwarded_headers,
            trusted_peers: TrustedPeers::from_config(&proxy.trusted_proxies),
            transport_mode: config.transport.mode,
            identity_mode: proxy.identity.mode,
            identity_header,
            identity_require_tls: proxy.identity.require_tls,
        }
    }

    /// Whether a request from this peer is trusted.
    pub open spec fn trusts_peer(self, peer_ip: Option<IpAddr>) -> bool {
        self.enabled && (peer_ip matches Some(ip) && trusts(self.trusted_peers.entries@, ip))
    }

    /// Whether the identity header of a request is kept.
    pub open spec fn keeps_identity(self, trusted: bool) -> bool {
        trusted && self.identity_mode == ProxyIdentityMode::Header && self.transport_mode
            == TransportMode::Mtls
    }

    /// The scheme of the connection itself.
    pub open spec fn direct_scheme(self) -> Seq<char> {
        if self.transport_mode.is_tls() {
            "https"@
        } else {
            "http"@
        }
    }
}

/// Header fields by name.
pub type Fields = Map<Seq<char>, Seq<Seq<u8>>>;

/// Fields without the `X-Forwarded-*` family.
pub open spec fn without_x_forwarded(h: Fields) -> Fields {
    h.remove("x-forwarded-for"@).remove("x-forwarded-host"@).remove("x-forwarded-proto"@).remove(
        "x-forwarded-port"@,
    )
}

/// Fields without the family that is not trusted.
pub open spec fn without_opposing(h: Fields, mode: ForwardedHeadersMode) -> Fields {
    match mode {
        ForwardedHeadersMode::XForwarded => h.remove("forwarded"@),
        ForwardedHeadersMode::Forwarded => without_x_forwarded(h),
        ForwardedHeadersMode::Disabled => without_x_forwarded(h).remove("forwarded"@),
    }
}

/// Fields without the identity header, where there is one.
pub open spec fn without_identity(h: Fields, name: Option<String>) -> Fields {
    match name {
        Some(n) => h.remove(ascii_lower_spec(n@)),
        None => h,
    }
}

/// What is left of the fields of a request.
pub open spec fn kept_fields(h: Fields, state: ProxyTrustState, trusted: bool) -> Fields {
    let kept = if trusted {
        without_opposing(h, state.mode)
    } else {
        without_x_forwarded(h).remove("forwarded"@)
    };
    if state.keeps_identity(trusted) {
        kept
    } else {
        without_identity(kept, state.identity_header)
    }
}

/// A text, where it is not empty.
pub open spec fn filled(s: Seq<char>) -> Option<Seq<char>> {
    if s.len() == 0 {
        None
    } else {
        Some(s)
    }
}

/// The client that `X-Forwarded-For` names: the first of the list.
pub open spec fn forwarded_for_spec(h: Fields) -> Option<Seq<char>> {
    match field_text(h, "x-forwarded-for"@) {
        Some(v) => filled(trim_spec(before_spec(v, ','))),
        None => None,
    }
}

/// A quoted text with each `\"` read as a quotation mark.
pub open spec fn unescaped(s: Seq<char>) -> Seq<char>
    decreases s.len(),
{
    if s.len() == 0 {
        s
    } else if s.len() >= 2 && s[0] == '\\' && s[1] == '"' {
        seq!['"'] + unescaped(s.skip(2))
    } else {
        seq![s[0]] + unescaped(s.skip(1))
    }
}

/// A parameter value without its quotation marks.
pub open spec fn unquoted(value: Seq<char>) -> Seq<char> {
    let t = trim_spec(value);
    if t.len() >= 2 && t[0] == '"' && t.last() == '"' {
        unescaped(t.subrange(1, t.len() - 1))
    } else {
        t
    }
}

/// The value that a part of a `Forwarded` entry gives to a parameter.
pub open spec fn part_value(part: Seq<char>, name: Seq<char>) -> Option<Seq<char>> {
    if part.contains('=') && ascii_lower_spec(trim_spec(before_spec(part, '='))) == name {
        filled(unquoted(trim_spec(after_spec(part, '='))))
    } else {
        None
    }
}

/// The first value that the parts of a `Forwarded` entry give to a parameter.
pub open spec fn parameter(parts: Seq<Seq<char>>, name: Seq<char>) -> Option<Seq<char>>
    decreases parts.len(),
{
    if parts.len() == 0 {
        None
    } else {
        let earlier = parameter(parts.drop_last(), name);
        if earlier is Some {
            earlier
        } else {
            part_value(parts.last(), name)
        }
    }
}

/// A parameter of the first entry of `Forwarded`.
pub open spec fn forwarded_parameter(h: Fields, name: Seq<char>) -> Option<Seq<char>> {
    match field_text(h, "forwarded"@) {
        Some(v) => parameter(split_spec(before_spec(v, ','), ';'), name),
        None => None,
    }
}

/// The first of two texts that is there.
pub open spec fn or_else(a: Option<Seq<char>>, b: Option<Seq<char>>) -> Option<Seq<char>> {
    if a is Some {
        a
    } else {
        b
    }
}

/// The text of a peer's address.
pub open spec fn peer_text(peer_ip: Option<IpAddr>) -> Option<Seq<char>> {
    match peer_ip {
        Some(ip) => Some(ip.text()),
        None => None,
    }
}

/// The scheme, authority and client address of a request: from the trusted header family, and
/// from the connection where that says nothing.
pub open spec fn origin_of(
    h: Fields,
    state: ProxyTrustState,
    peer_ip: Option<IpAddr>,
    trusted: bool,
) -> (Seq<char>, Option<Seq<char>>, Option<Seq<char>>) {
    let (scheme, authority, client) = if !trusted {
        (None, None, None)
    } else {
        match state.mode {
            ForwardedHeadersMode::XForwarded => (
                field_text(h, "x-forwarded-proto"@),
                field_text(h, "x-forwarded-host"@),
                forwarded_for_spec(h),
            ),
            ForwardedHeadersMode::Forwarded => (
                forwarded_parameter(h, "proto"@),
                forwarded_parameter(h, "host"@),
                forwarded_parameter(h, "for"@),
            ),
            ForwardedHeadersMode::Disabled => (None, None, None),
        }
    };
    (
        match scheme {
            Some(t) => t,
            None => state.direct_scheme(),
        },
        or_else(authority, field_text(h, "host"@)),
        or_else(client, peer_text(peer_ip)),
    )
}

fn unescape(v: &Vec<char>, from: usize, to: usize) -> (r: String)
    requires
        from <= to <= v@.len(),
    ensures
        r@ == unescaped(v@.subrange(from as int, to as int)),
{
    let mut r = String::new();
    let mut i: usize = from;
    let ghost all = v@.subrange(from as int, to as int);
    assert(all =~= v@.subrange(i as int, to as int));
    assert(r@ + unescaped(v@.subrange(i as int, to as int)) =~= unescaped(all));
    while i < to
        invariant
            from <= i <= to <= v@.len(),
            all == v@.subrange(from as int, to as int),
            r@ + unescaped(v@.subrange(i as int, to as int)) == unescaped(all),
        decreases to - i,
    {
        let ghost s = v@.subrange(i as int, to as int);
        let ghost before = r@;
        assert(s.skip(1) =~= v@.subrange(i + 1, to as int));
        if v[i] == '\\' && i + 1 < to && v[i + 1] == '"' {
            assert(s.skip(2) =~= v@.subrange(i + 2, to as int));
            r.push('"');
            i = i + 2;
            assert(before + (seq!['"'] + unescaped(s.skip(2))) =~= r@ + unescaped(s.skip(2)));
        } else {
            r.push(v[i]);
            i = i + 1;
            assert(before + (seq![s[0]] + unescaped(s.skip(1))) =~= r@ + unescaped(s.skip(1)));
        }
    }
    assert(v@.subrange(i as int, to as int).len() == 0);
    assert(r@ =~= unescaped(all));
    r
}

fn unquote_forwarded_value(value: &str) -> (r: String)
    ensures
        r@ == unquoted(value@),
{
    let trimmed = trim(value);
    let v = chars_of(trimmed);
    let n: usize = v.len();
    if n >= 2 && v[0] == '"' && v[n - 1] == '"' {
        unescape(&v, 1, n - 1)
    } else {
        trimmed.to_owned()
    }
}

fn read_part(part: &str, name: &str) -> (r: Option<String>)
    ensures
        text_opt(r) == part_value(part@, name@),
{
    match split_once(part, '=') {
        None => None,
        Some((raw_key, raw_value)) => {
            let key = to_ascii_lowercase(trim(raw_key.as_str()));
            if same(key.as_str(), name) {
                let value = unquote_forwarded_value(trim(raw_value.as_str()));
                if chars_of(value.as_str()).len() == 0 {
                    None
                } else {
                    Some(value)
                }
            } else {
                None
            }
        },
    }
}

fn read_parameter(parts: &Vec<String>, name: &str) -> (r: Option<String>)
    ensures
        text_opt(r) == parameter(texts(parts@), name@),
{
    let mut found: Option<String> = None;
    let mut i: usize = 0;
    let ghost all = texts(parts@);
    assert(all.take(0) =~= Seq::<Seq<char>>::empty());
    while i < parts.len()
        invariant
            i <= parts@.len(),
            all == texts(parts@),
            text_opt(found) == parameter(all.take(i as int), name@),
        decreases parts.len() - i,
    {
        assert(all.take(i + 1).drop_last() =~= all.take(i as int));
        assert(all.take(i + 1).last() == parts@[i as int]@);
        if found.is_none() {
            found = read_part(parts[i].as_str(), name);
        }
        i += 1;
    }
    assert(all.take(all.len() as int) =~= all);
    found
}

/// What the first entry of `Forwarded` says.
#[derive(Debug)]
pub struct ParsedForwarded {
    pub proto: Option<String>,
    pub host: Option<String>,
    pub for_value: Option<String>,
}

/// Reads the first entry of `Forwarded`.
pub fn parse_forwarded(headers: &HeaderMap) -> (r: ParsedForwarded)
    ensures
        text_opt(r.proto) == forwarded_parameter(header_fields(*headers), "proto"@),
        text_opt(r.host) == forwarded_parameter(header_fields(*headers), "host"@),
        text_opt(r.for_value) == forwarded_parameter(header_fields(*headers), "for"@),
{
    match header_value(headers, FORWARDED) {
        None => ParsedForwarded { proto: None, host: None, for_value: None },
        Some(value) => {
            let entry = before(value.as_str(), ',');
            let parts = split(entry.as_str(), ';');
            ParsedForwarded {
                proto: read_parameter(&parts, "proto"),
                host: read_parameter(&parts, "host"),
                for_value: read_parameter(&parts, "for"),
            }
        },
    }
}

fn forwarded_for(headers: &HeaderMap) -> (r: Option<String>)
    ensures
        text_opt(r) == forwarded_for_spec(header_fields(*headers)),
{
    match header_value(headers, X_FORWARDED_FOR) {
        None => None,
        Some(value) => {
            let first = before(value.as_str(), ',');
            let client = trim(first.as_str());
            if chars_of(client).len() == 0 {
                None
            } else {
                Some(client.to_owned())
            }
        },
    }
}

fn or_other(a: Option<String>, b: Option<String>) -> (r: Option<String>)
    ensures
        text_opt(r) == or_else(text_opt(a), text_opt(b)),
{
    if a.is_some() {
        a
    } else {
        b
    }
}

/// Derives the origin of a request from its headers.
pub fn request_origin(
    headers: &HeaderMap,
    state: &ProxyTrustState,
    peer_ip: Option<IpAddr>,
    trusted: bool,
) -> (r: ProxyTrustResult)
    ensures
        r.peer_ip == peer_ip,
        r.trusted == trusted,
        (r.scheme@, text_opt(r.authority), text_opt(r.client_address)) == origin_of(
            header_fields(*headers),
            *state,
            peer_ip,
            trusted,
        ),
{
    let direct_scheme: &'static str = if state.transport_mode.uses_tls() {
        "https"
    } else {
        "http"
    };
    let (scheme, authority, client): (Option<String>, Option<String>, Option<String>) = if !trusted {
        (None, None, None)
    } else {
        match state.mode {
            ForwardedHeadersMode::XForwarded => (
                header_value(headers, X_FORWARDED_PROTO),
                header_value(headers, X_FORWARDED_HOST),
                forwarded_for(headers),
            ),
            ForwardedHeadersMode::Forwarded => {
                let forwarded = parse_forwarded(headers);
                (forwarded.proto, forwarded.host, forwarded.for_value)
            },
            ForwardedHeadersMode::Disabled => (None, None, None),
        }
    };
    let peer: Option<String> = match peer_ip {
        Some(ip) => Some(ip.to_string()),
        None => None,
    };
    ProxyTrustResult {
        peer_ip,
        trusted,
        scheme: match scheme {
            Some(s) => s,
            None => direct_scheme.to_owned(),
        },
        authority: or_other(authority, header_value(headers, "host")),
        client_address: or_other(client, peer),
    }
}

proof fn lemma_lower_names()
    ensures
        ascii_lower_spec("x-forwarded-for"@) == "x-forwarded-for"@,
        ascii_lower_spec("x-forwarded-host"@) == "x-forwarded-host"@,
        ascii_lower_spec("x-forwarded-proto"@) == "x-forwarded-proto"@,
        ascii_lower_spec("x-forwarded-port"@) == "x-forwarded-port"@,
        ascii_lower_spec("forwarded"@) == "forwarded"@,
{
    reveal_strlit("x-forwarded-for");
    reveal_strlit("x-forwarded-host");
    reveal_strlit("x-forwarded-proto");
    reveal_strlit("x-forwarded-port");
    reveal_strlit("forwarded");
    assert(ascii_lower_spec("x-forwarded-for"@) =~= "x-forwarded-for"@);
    assert(ascii_lower_spec("x-forwarded-host"@) =~= "x-forwarded-host"@);
    assert(ascii_lower_spec("x-forwarded-proto"@) =~= "x-forwarded-proto"@);
    assert(ascii_lower_spec("x-forwarded-port"@) =~= "x-forwarded-port"@);
    assert(ascii_lower_spec("forwarded"@) =~= "forwarded"@);
}

fn strip_x_forwarded(headers: &mut HeaderMap)
    ensures
        header_fields(*final(headers)) == without_x_forwarded(header_fields(*old(headers))),
{
    proof {
        lemma_lower_names();
    }
    remove_header(headers, X_FORWARDED_FOR);
    remove_header(headers, X_FORWARDED_HOST);
    remove_header(headers, X_FORWARDED_PROTO);
    remove_header(headers, X_FORWARDED_PORT);
}

/// Remove all forwarded-header variants from the request.
fn strip_all_forwarded(headers: &mut HeaderMap)
    ensures
        header_fields(*final(headers)) == without_x_forwarded(header_fields(*old(headers))).remove(
            "forwarded"@,
        ),
{
    proof {
        lemma_lower_names();
    }
    strip_x_forwarded(headers);
    remove_header(headers, FORWARDED);
}

/// Strip the forwarded-header family that is NOT the configured mode.
fn strip_opposing_family(headers: &mut HeaderMap, mode: ForwardedHeadersMode)
    ensures
        header_fields(*final(headers)) == without_opposing(header_fields(*old(headers)), mode),
{
    proof {
        lemma_lower_names();
    }
    match mode {
        ForwardedHeadersMode::XForwarded => remove_header(headers, FORWARDED),
        ForwardedHeadersMode::Forwarded => strip_x_forwarded(headers),
        ForwardedHeadersMode::Disabled => strip_all_forwarded(headers),
    }
}

/// Whether a request was settled: what is left of its fields, whether the peer is trusted, and where
/// the request comes from.
pub open spec fn is_enforced(
    r: ProxyTrustResult,
    before: Fields,
    after: Fields,
    state: ProxyTrustState,
    peer_ip: Option<IpAddr>,
) -> bool {
    &&& after == kept_fields(before, state, state.trusts_peer(peer_ip))
    &&& r.peer_ip == peer_ip
    &&& r.trusted == state.trusts_peer(peer_ip)
    &&& (r.scheme@, text_opt(r.authority), text_opt(r.client_address)) == origin_of(
        after,
        state,
        peer_ip,
        state.trusts_peer(peer_ip),
    )
}

/// Strip or pass forwarded headers based on proxy trust rules, and derive the origin of the
/// request from what is left.
pub fn enforce_proxy_trust(
    state: &ProxyTrustState,
    headers: &mut HeaderMap,
    peer_ip: Option<IpAddr>,
) -> (r: ProxyTrustResult)
    ensures
        is_enforced(
            r,
            header_fields(*old(headers)),
            header_fields(*final(headers)),
            *state,
            peer_ip,
        ),
{
    let trusted = state.enabled && match peer_ip {
        Some(ip) => state.trusted_peers.contains(ip),
        None => false,
    };
    if trusted {
        strip_opposing_family(headers, state.mode);
    } else {
        strip_all_forwarded(headers);
    }
    let identity_allowed = trusted && state.identity_mode == ProxyIdentityMode::Header
        && state.transport_mode == TransportMode::Mtls && (!state.identity_require_tls
        || state.transport_mode.uses_tls());
    if !identity_allowed {
        if let Some(name) = &state.identity_header {
            remove_header(headers, name.as_str());
        }
    }
    request_origin(headers, state, peer_ip, trusted)
}

/// Whether a field is one of the forwarded headers.
pub open spec fn is_forwarded_name(name: Seq<char>) -> bool {
    name == "x-forwarded-for"@ || name == "x-forwarded-host"@ || name == "x-forwarded-proto"@ || name
        == "x-forwarded-port"@ || name == "forwarded"@
}

/// Nothing that an untrusted peer claims about the origin survives: no forwarded header is left,
/// nor the identity header, and the scheme and the client are those of the connection.
pub proof fn law_untrusted_claims_are_dropped(
    h: Fields,
    state: ProxyTrustState,
    peer_ip: Option<IpAddr>,
    name: Seq<char>,
)
    ensures
        is_forwarded_name(name) ==> !kept_fields(h, state, false).dom().contains(name),
        state.identity_header matches Some(n) ==> !kept_fields(h, state, false).dom().contains(
            ascii_lower_spec(n@),
        ),
        origin_of(h, state, peer_ip, false).0 == state.direct_scheme(),
        origin_of(h, state, peer_ip, false).2 == peer_text(peer_ip),
{
}

/// Where proxy trust is disabled, no peer is trusted.
pub proof fn law_disabled_trusts_nobody(state: ProxyTrustState, peer_ip: Option<IpAddr>)
    requires
        !state.enabled,
    ensures
        !state.trusts_peer(peer_ip),
{
}

/// A trusted peer keeps at most the configured header family.
pub proof fn law_one_family_is_kept(h: Fields, state: ProxyTrustState, name: Seq<char>)
    ensures
        state.mode == ForwardedHeadersMode::XForwarded ==> !kept_fields(h, state, true).dom().contains(
            "forwarded"@,
        ),
        state.mode == ForwardedHeadersMode::Forwarded && is_forwarded_name(name) && name
            != "forwarded"@ ==> !kept_fields(h, state, true).dom().contains(name),
        state.mode == ForwardedHeadersMode::Disabled && is_forwarded_name(name) ==> !kept_fields(
            h,
            state,
            true,
        ).dom().contains(name),
{
}

/// The identity header reaches the handlers only from a trusted peer over mutual TLS, where
/// identity comes by header.
pub proof fn law_identity_needs_trust_and_mutual_tls(
    h: Fields,
    state: ProxyTrustState,
    trusted: bool,
    identity: String,
)
    requires
        state.identity_header == Some(identity),
        kept_fields(h, state, trusted).dom().contains(ascii_lower_spec(identity@)),
    ensures
        trusted,
        state.identity_mode == ProxyIdentityMode::Header,
        state.transport_mode == TransportMode::Mtls,
{
}

/// Fields that have nothing to do with proxies stay as they are.
pub proof fn law_other_fields_stay(h: Fields, state: ProxyTrustState, trusted: bool, name: Seq<char>)
    requires
        !is_forwarded_name(name),
        state.identity_header matches Some(n) ==> ascii_lower_spec(n@) != name,
    ensures
        kept_fields(h, state, trusted).dom().contains(name) == h.dom().contains(name),
        h.dom().contains(name) ==> kept_fields(h, state, trusted)[name] == h[name],
{
}

} // verus!
