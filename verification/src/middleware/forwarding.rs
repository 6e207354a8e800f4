//! What a trusted proxy says of a request, and whom the server trusts to say it.

use vstd::prelude::*;
use crate::config::modes::{ForwardedHeadersMode, ProxyIdentityMode, TransportMode};
use crate::http::field_text;
use crate::middleware::proxy_trust::{
    Fields, PeerEntry, ProxyTrustResult, ProxyTrustState, covers, entries_of, entry_trusts, in_range,
    is_enforced, is_forwarded_name, kept_fields, law_other_fields_stay, law_untrusted_claims_are_dropped,
    origin_of, parameter, part_value, peer_entry, peer_text,
    unescaped, unquoted,
};
use crate::net::{IpAddr, ip_spec};
use crate::text::{
    ascii_lower_spec, is_white_space, lemma_find_at, lemma_one_piece, lemma_split_then, lemma_trim_end_at,
    lemma_trim_start_at, split_spec, text_opt, trim_spec,
};

verus! {

proof fn lemma_trimmed(s: Seq<char>)
    requires
        s.len() > 0,
        !is_white_space(s[0]),
        !is_white_space(s.last()),
    ensures
        trim_spec(s) == s,
{
    lemma_trim_start_at(s, 0);
    assert(s.skip(0) =~= s);
    lemma_trim_end_at(s, s.len() as int);
    assert(s.take(s.len() as int) =~= s);
}

/// What a trusted proxy says with the `X-Forwarded-*` headers is where a request comes from; what
/// it does not say is told by the connection and the request itself.
pub proof fn law_x_forwarded_tells_the_origin(
    h: Fields,
    state: ProxyTrustState,
    peer_ip: Option<IpAddr>,
)
    requires
        state.mode == ForwardedHeadersMode::XForwarded,
    ensures
        ({
            let (scheme, authority, client) = origin_of(h, state, peer_ip, true);
            &&& scheme == match field_text(h, "x-forwarded-proto"@) {
                Some(s) => s,
                None => state.direct_scheme(),
            }
            &&& authority == match field_text(h, "x-forwarded-host"@) {
                Some(s) => Some(s),
                None => field_text(h, "host"@),
            }
            &&& field_text(h, "x-forwarded-for"@) is None ==> client == peer_text(peer_ip)
        }),
{
}

/// The client of a list of addresses is the first one, without blanks around it; where the list
/// begins with nothing, it is the peer.
pub proof fn law_first_forwarded_address_is_the_client(
    h: Fields,
    state: ProxyTrustState,
    peer_ip: Option<IpAddr>,
    first: Seq<char>,
    others: Seq<char>,
)
    requires
        state.mode == ForwardedHeadersMode::XForwarded,
        !first.contains(','),
        field_text(h, "x-forwarded-for"@) == Some(first) || field_text(h, "x-forwarded-for"@) == Some(
            first + seq![','] + others,
        ),
    ensures
        origin_of(h, state, peer_ip, true).2 == if trim_spec(first).len() > 0 {
            Some(trim_spec(first))
        } else {
            peer_text(peer_ip)
        },
{
    let v = field_text(h, "x-forwarded-for"@)->0;
    assert forall|j: int| 0 <= j < first.len() implies #[trigger] v[j] != ',' by {
        assert(v[j] == first[j]);
        assert(first.contains(first[j]));
    }
    lemma_find_at(v, ',', first.len() as int);
    assert(v.take(first.len() as int) =~= first);
}

/// Nothing that a request says makes a peer trusted, and where the headers of proxies are disabled,
/// even a trusted peer says nothing: the origin is that of the connection.
pub proof fn law_origin_without_a_proxy(
    h: Fields,
    state: ProxyTrustState,
    peer_ip: Option<IpAddr>,
    trusted: bool,
)
    requires
        !trusted || state.mode == ForwardedHeadersMode::Disabled,
    ensures
        origin_of(h, state, peer_ip, trusted) == (
            if state.transport_mode == TransportMode::Http {
                "http"@
            } else {
                "https"@
            },
            field_text(h, "host"@),
            peer_text(peer_ip),
        ),
{
}

/// Whether a text can stand as the value of a parameter without quotation marks.
pub open spec fn is_plain_value(s: Seq<char>) -> bool {
    &&& s.len() > 0
    &&& s[0] != '"'
    &&& !is_white_space(s[0]) && !is_white_space(s.last())
    &&& !s.contains(',') && !s.contains(';') && !s.contains('=')
}

proof fn lemma_part(name: Seq<char>, value: Seq<char>, other: Seq<char>)
    requires
        is_plain_value(value),
        is_plain_value(name),
        ascii_lower_spec(name) == name,
    ensures
        part_value(name + seq!['='] + value, other) == if other == name {
            Some(value)
        } else {
            None
        },
{
    let part = name + seq!['='] + value;
    assert forall|j: int| 0 <= j < name.len() implies #[trigger] part[j] != '=' by {
        assert(part[j] == name[j]);
        assert(name.contains(name[j]));
    }
    lemma_find_at(part, '=', name.len() as int);
    assert(part[name.len() as int] == '=');
    assert(part.contains('='));
    assert(part.take(name.len() as int) =~= name);
    assert(part.skip(name.len() as int + 1) =~= value);
    lemma_trimmed(name);
    lemma_trimmed(value);
}

proof fn lemma_names()
    ensures
        "for"@.len() == 3 && is_plain_value("for"@) && ascii_lower_spec("for"@) == "for"@,
        "proto"@.len() == 5 && is_plain_value("proto"@) && ascii_lower_spec("proto"@) == "proto"@,
        "host"@.len() == 4 && is_plain_value("host"@) && ascii_lower_spec("host"@) == "host"@,
{
    reveal_strlit("for");
    reveal_strlit("proto");
    reveal_strlit("host");
    assert(ascii_lower_spec("for"@) =~= "for"@);
    assert(ascii_lower_spec("proto"@) =~= "proto"@);
    assert(ascii_lower_spec("host"@) =~= "host"@);
}

proof fn lemma_without(name: Seq<char>, value: Seq<char>, c: char)
    requires
        !name.contains(c),
        !value.contains(c),
        c != '=',
    ensures
        !(name + seq!['='] + value).contains(c),
{
    let part = name + seq!['='] + value;
    if part.contains(c) {
        let i = choose|i: int| 0 <= i < part.len() && part[i] == c;
        if i < name.len() {
            assert(name.contains(name[i]));
        } else if i > name.len() {
            assert(value.contains(value[i - name.len() - 1]));
        }
    }
}

/// What a trusted proxy says with one `Forwarded` entry is where a request comes from: the client,
/// the scheme and the host that it names, whatever other entries follow.
pub proof fn law_forwarded_tells_the_origin(
    h: Fields,
    state: ProxyTrustState,
    peer_ip: Option<IpAddr>,
    client: Seq<char>,
    scheme: Seq<char>,
    host: Seq<char>,
    others: Seq<char>,
)
    requires
        state.mode == ForwardedHeadersMode::Forwarded,
        is_plain_value(client) && is_plain_value(scheme) && is_plain_value(host),
        ({
            let entry = "for"@ + seq!['='] + client + seq![';'] + ("proto"@ + seq!['='] + scheme) + seq![
                ';',
            ] + ("host"@ + seq!['='] + host);
            field_text(h, "forwarded"@) == Some(entry) || field_text(h, "forwarded"@) == Some(
                entry + seq![','] + others,
            )
        }),
    ensures
        origin_of(h, state, peer_ip, true) == (scheme, Some(host), Some(client)),
{
    lemma_names();
    let a = "for"@ + seq!['='] + client;
    let b = "proto"@ + seq!['='] + scheme;
    let c = "host"@ + seq!['='] + host;
    let entry = a + seq![';'] + b + seq![';'] + c;
    let v = field_text(h, "forwarded"@)->0;
    lemma_without("for"@, client, ',');
    lemma_without("proto"@, scheme, ',');
    lemma_without("host"@, host, ',');
    lemma_without("for"@, client, ';');
    lemma_without("proto"@, scheme, ';');
    lemma_without("host"@, host, ';');
    assert forall|j: int| 0 <= j < entry.len() implies #[trigger] v[j] != ',' by {
        assert(v[j] == entry[j]);
        let n = a.len();
        let m = n + 1 + b.len();
        if j < n {
            assert(entry[j] == a[j]);
            assert(a.contains(a[j]));
        } else if j == n {
            assert(entry[j] == ';');
        } else if j < m {
            assert(entry[j] == b[j - n - 1]);
            assert(b.contains(b[j - n - 1]));
        } else if j == m {
            assert(entry[j] == ';');
        } else {
            assert(entry[j] == c[j - m - 1]);
            assert(c.contains(c[j - m - 1]));
        }
    }
    lemma_find_at(v, ',', entry.len() as int);
    assert(v.take(entry.len() as int) =~= entry);
    lemma_split_then(a + seq![';'] + b, c, ';');
    lemma_split_then(a, b, ';');
    lemma_one_piece(a, ';');
    lemma_one_piece(b, ';');
    lemma_one_piece(c, ';');
    let parts = split_spec(entry, ';');
    assert(parts =~= seq![a, b, c]);
    lemma_three(a, b, c, "for"@);
    lemma_three(a, b, c, "proto"@);
    lemma_three(a, b, c, "host"@);
    lemma_part("for"@, client, "for"@);
    lemma_part("for"@, client, "proto"@);
    lemma_part("for"@, client, "host"@);
    lemma_part("proto"@, scheme, "for"@);
    lemma_part("proto"@, scheme, "proto"@);
    lemma_part("proto"@, scheme, "host"@);
    lemma_part("host"@, host, "host"@);
    lemma_part("host"@, host, "for"@);
    lemma_part("host"@, host, "proto"@);
}

proof fn lemma_three(a: Seq<char>, b: Seq<char>, c: Seq<char>, name: Seq<char>)
    ensures
        parameter(seq![a, b, c], name) == match part_value(a, name) {
            Some(v) => Some(v),
            None => match part_value(b, name) {
                Some(v) => Some(v),
                None => part_value(c, name),
            },
        },
{
    assert(seq![a, b, c].drop_last() =~= seq![a, b]);
    assert(seq![a, b].drop_last() =~= seq![a]);
    assert(seq![a].drop_last() =~= Seq::<Seq<char>>::empty());
    assert(parameter(Seq::<Seq<char>>::empty(), name) is None);
    assert(seq![a].last() == a && seq![a, b].last() == b && seq![a, b, c].last() == c);
    assert(parameter(seq![a], name) == part_value(a, name));
    assert(parameter(seq![a, b], name) == match part_value(a, name) {
        Some(v) => Some(v),
        None => part_value(b, name),
    });
}

proof fn lemma_unescaped(s: Seq<char>)
    requires
        !s.contains('\\'),
    ensures
        unescaped(s) == s,
    decreases s.len(),
{
    if s.len() > 0 {
        assert(s[0] != '\\') by {
            assert(s.contains(s[0]));
        }
        let t = s.skip(1);
        assert(!t.contains('\\')) by {
            if t.contains('\\') {
                let i = choose|i: int| 0 <= i < t.len() && t[i] == '\\';
                assert(s[i + 1] == '\\');
            }
        }
        lemma_unescaped(t);
        assert(seq![s[0]] + t =~= s);
    }
}

/// A value between quotation marks is what stands between them, with each escaped quotation mark
/// read as one.
pub proof fn law_quoted_values_are_read(s: Seq<char>, rest: Seq<char>)
    ensures
        !s.contains('\\') ==> unquoted(seq!['"'] + s + seq!['"']) == s,
        unescaped(seq!['\\', '"'] + rest) == seq!['"'] + unescaped(rest),
{
    let q = seq!['"'] + s + seq!['"'];
    lemma_trimmed(q);
    assert(q.subrange(1, q.len() - 1) =~= s);
    if !s.contains('\\') {
        lemma_unescaped(s);
    }
    let e = seq!['\\', '"'] + rest;
    assert(e.skip(2) =~= rest);
}

/// A trusted peer's headers of the configured family, and the identity header where identity comes
/// by header over mutual TLS, reach the handlers as they are.
pub proof fn law_trusted_family_is_kept(h: Fields, state: ProxyTrustState, name: Seq<char>)
    requires
        state.identity_header matches Some(n) ==> ascii_lower_spec(n@) != name,
        state.mode == ForwardedHeadersMode::XForwarded && is_forwarded_name(name) && name
            != "forwarded"@ || state.mode == ForwardedHeadersMode::Forwarded && name == "forwarded"@,
    ensures
        kept_fields(h, state, true).dom().contains(name) == h.dom().contains(name),
        h.dom().contains(name) ==> kept_fields(h, state, true)[name] == h[name],
{
    lemma_forwarded_names();
}

proof fn lemma_forwarded_names()
    ensures
        "forwarded"@ != "x-forwarded-for"@,
        "forwarded"@ != "x-forwarded-host"@,
        "forwarded"@ != "x-forwarded-proto"@,
        "forwarded"@ != "x-forwarded-port"@,
{
    reveal_strlit("forwarded");
    reveal_strlit("x-forwarded-for");
    reveal_strlit("x-forwarded-host");
    reveal_strlit("x-forwarded-proto");
    reveal_strlit("x-forwarded-port");
    assert("forwarded"@.len() == 9 && "x-forwarded-for"@.len() == 15 && "x-forwarded-host"@.len() == 16);
    assert("x-forwarded-proto"@.len() == 17 && "x-forwarded-port"@.len() == 16);
}

/// A trusted peer over mutual TLS vouches for an identity where identity comes by header.
pub proof fn law_vouched_identity_is_kept(h: Fields, state: ProxyTrustState, identity: String)
    requires
        state.identity_header == Some(identity),
        state.identity_mode == ProxyIdentityMode::Header,
        state.transport_mode == TransportMode::Mtls,
        !is_forwarded_name(ascii_lower_spec(identity@)),
    ensures
        ({
            let name = ascii_lower_spec(identity@);
            let kept = kept_fields(h, state, true);
            &&& kept.dom().contains(name) == h.dom().contains(name)
            &&& h.dom().contains(name) ==> kept[name] == h[name]
        }),
{
}

/// The entries that there are, in order.
spec fn kept(found: Seq<Option<PeerEntry>>) -> Seq<PeerEntry>
    decreases found.len(),
{
    if found.len() == 0 {
        Seq::empty()
    } else {
        let rest = kept(found.drop_last());
        match found.last() {
            Some(entry) => rest.push(entry),
            None => rest,
        }
    }
}

proof fn lemma_found_entry_is_kept(found: Seq<Option<PeerEntry>>, i: int, entry: PeerEntry)
    requires
        0 <= i < found.len(),
        found[i] == Some(entry),
    ensures
        kept(found).contains(entry),
    decreases found.len(),
{
    let most = found.drop_last();
    let rest = kept(most);
    let all = kept(found);
    if i < most.len() {
        assert(most[i] == found[i]);
        lemma_found_entry_is_kept(most, i, entry);
        let k = choose|k: int| 0 <= k < rest.len() && rest[k] == entry;
        assert(all[k] == entry);
    } else {
        assert(all[rest.len() as int] == entry);
    }
}

proof fn lemma_kept_entry_was_found(found: Seq<Option<PeerEntry>>, k: int) -> (i: int)
    requires
        0 <= k < kept(found).len(),
    ensures
        0 <= i < found.len(),
        found[i] == Some(kept(found)[k]),
    decreases found.len(),
{
    let most = found.drop_last();
    if k < kept(most).len() {
        let i = lemma_kept_entry_was_found(most, k);
        assert(most[i] == found[i]);
        i
    } else {
        found.len() - 1
    }
}

proof fn lemma_entries_are_kept(list: Seq<Seq<char>>, found: Seq<Option<PeerEntry>>)
    requires
        found.len() == list.len(),
        forall|i: int| 0 <= i < list.len() ==> #[trigger] found[i] == peer_entry(list[i]),
    ensures
        entries_of(list) == kept(found),
    decreases list.len(),
{
    if list.len() > 0 {
        let most = found.drop_last();
        assert forall|i: int| 0 <= i < list.len() - 1 implies #[trigger] most[i] == peer_entry(
            list.drop_last()[i],
        ) by {
            assert(most[i] == found[i]);
        }
        lemma_entries_are_kept(list.drop_last(), most);
        assert(found[list.len() - 1] == peer_entry(list.last()));
    }
}

/// The trusted proxies are those that the texts describe, each and no others.
pub proof fn law_every_entry_counts(list: Seq<Seq<char>>, entry: PeerEntry)
    ensures
        entries_of(list).contains(entry) <==> exists|i: int|
            0 <= i < list.len() && peer_entry(#[trigger] list[i]) == Some(entry),
{
    let found = Seq::new(list.len(), |i: int| peer_entry(list[i]));
    lemma_entries_are_kept(list, found);
    let all = kept(found);
    if all.contains(entry) {
        let k = choose|k: int| 0 <= k < all.len() && all[k] == entry;
        let i = lemma_kept_entry_was_found(found, k);
        assert(found[i] == peer_entry(list[i]));
    }
    if exists|i: int| 0 <= i < list.len() && peer_entry(#[trigger] list[i]) == Some(entry) {
        let i = choose|i: int| 0 <= i < list.len() && peer_entry(#[trigger] list[i]) == Some(entry);
        assert(found[i] == Some(entry));
        lemma_found_entry_is_kept(found, i, entry);
    }
}

/// A peer is trusted where proxies are trusted at all and the configuration names its address, and
/// a peer of no known address never is.
pub proof fn law_named_peers_are_trusted(
    state: ProxyTrustState,
    list: Seq<Seq<char>>,
    i: int,
    ip: IpAddr,
)
    requires
        state.enabled,
        state.trusted_peers.entries@ == entries_of(list),
        0 <= i < list.len(),
        ip_spec(list[i]) == Some(ip),
    ensures
        state.trusts_peer(Some(ip)),
        !state.trusts_peer(None),
{
    let entry = PeerEntry::Exact(ip);
    assert(peer_entry(list[i]) == Some(entry));
    law_every_entry_counts(list, entry);
    let entries = entries_of(list);
    let k = choose|k: int| 0 <= k < entries.len() && entries[k] == entry;
    assert(entry_trusts(entries[k], ip));
}

/// Nobody else is trusted: an address that no entry covers, and that stands for no IPv4 address
/// that one covers, is not.
pub proof fn law_strangers_are_not_trusted(state: ProxyTrustState, ip: IpAddr)
    requires
        forall|i: int|
            0 <= i < state.trusted_peers.entries@.len() ==> !covers(
                #[trigger] state.trusted_peers.entries@[i],
                ip,
            ),
        ip is V4,
    ensures
        !state.trusts_peer(Some(ip)),
{
}

/// An address lies in a range of IPv4 addresses exactly where it agrees with the network in as many
/// of its highest bits as the prefix has.
pub proof fn law_ipv4_range_is_a_block(network: u32, prefix_len: u8, addr: u32)
    requires
        prefix_len <= 32,
    ensures
        prefix_len == 0 ==> in_range(IpAddr::V4(network), prefix_len, IpAddr::V4(addr)),
        prefix_len == 8 ==> (in_range(IpAddr::V4(network), prefix_len, IpAddr::V4(addr)) <==> network
            / 0x100_0000 == addr / 0x100_0000),
        prefix_len == 16 ==> (in_range(IpAddr::V4(network), prefix_len, IpAddr::V4(addr)) <==> network
            / 0x1_0000 == addr / 0x1_0000),
        prefix_len == 24 ==> (in_range(IpAddr::V4(network), prefix_len, IpAddr::V4(addr)) <==> network
            / 0x100 == addr / 0x100),
        prefix_len == 32 ==> (in_range(IpAddr::V4(network), prefix_len, IpAddr::V4(addr)) <==> network
            == addr),
        !in_range(IpAddr::V4(network), prefix_len, IpAddr::V6(addr as u128)),
{
    assert(network >> 24u32 == network / 0x100_0000 && addr >> 24u32 == addr / 0x100_0000
        && network >> 16u32 == network / 0x1_0000 && addr >> 16u32 == addr / 0x1_0000 && network
        >> 8u32 == network / 0x100 && addr >> 8u32 == addr / 0x100) by (bit_vector);
}

proof fn lemma_host_is_kept(h: Fields, state: ProxyTrustState, trusted: bool)
    requires
        state.identity_header matches Some(n) ==> ascii_lower_spec(n@) != "host"@,
    ensures
        field_text(kept_fields(h, state, trusted), "host"@) == field_text(h, "host"@),
{
    reveal_strlit("host");
    reveal_strlit("forwarded");
    reveal_strlit("x-forwarded-for");
    reveal_strlit("x-forwarded-host");
    reveal_strlit("x-forwarded-proto");
    reveal_strlit("x-forwarded-port");
    assert("host"@.len() == 4 && "forwarded"@.len() == 9 && "x-forwarded-for"@.len() == 15
        && "x-forwarded-host"@.len() == 16 && "x-forwarded-proto"@.len() == 17
        && "x-forwarded-port"@.len() == 16);
    assert(ascii_lower_spec("host"@) =~= "host"@);
    law_other_fields_stay(h, state, trusted, "host"@);
}

/// A request comes from where the connection says, unless a proxy that is trusted says otherwise:
/// nothing that another peer writes changes the scheme, the host or the client.
pub proof fn law_only_trusted_proxies_are_believed(
    r: ProxyTrustResult,
    before: Fields,
    after: Fields,
    state: ProxyTrustState,
    peer_ip: Option<IpAddr>,
)
    requires
        is_enforced(r, before, after, state, peer_ip),
        state.identity_header matches Some(n) ==> ascii_lower_spec(n@) != "host"@,
        !state.trusts_peer(peer_ip),
    ensures
        !r.trusted,
        r.peer_ip == peer_ip,
        r.scheme@ == if state.transport_mode == TransportMode::Http {
            "http"@
        } else {
            "https"@
        },
        text_opt(r.authority) == field_text(before, "host"@),
        text_opt(r.client_address) == peer_text(peer_ip),
        forall|name: Seq<char>| is_forwarded_name(name) ==> !(#[trigger] after.dom().contains(name)),
{
    lemma_host_is_kept(before, state, false);
    assert forall|name: Seq<char>| is_forwarded_name(name) implies !(#[trigger] after.dom().contains(
        name,
    )) by {
        law_untrusted_claims_are_dropped(before, state, peer_ip, name);
    }
}

/// A proxy that is trusted is believed: with the `X-Forwarded-*` headers, the scheme and the host are
/// what it says.
pub proof fn law_trusted_proxies_are_believed(
    r: ProxyTrustResult,
    before: Fields,
    after: Fields,
    state: ProxyTrustState,
    peer_ip: Option<IpAddr>,
)
    requires
        is_enforced(r, before, after, state, peer_ip),
        state.trusts_peer(peer_ip),
        state.mode == ForwardedHeadersMode::XForwarded,
        state.identity_header matches Some(n) ==> ascii_lower_spec(n@) != "host"@ && !is_forwarded_name(
            ascii_lower_spec(n@),
        ),
    ensures
        r.trusted,
        r.scheme@ == match field_text(before, "x-forwarded-proto"@) {
            Some(s) => s,
            None => state.direct_scheme(),
        },
        text_opt(r.authority) == match field_text(before, "x-forwarded-host"@) {
            Some(s) => Some(s),
            None => field_text(before, "host"@),
        },
{
    lemma_host_is_kept(before, state, true);
    reveal_strlit("x-forwarded-host");
    reveal_strlit("x-forwarded-proto");
    assert(ascii_lower_spec("x-forwarded-host"@) =~= "x-forwarded-host"@);
    assert(ascii_lower_spec("x-forwarded-proto"@) =~= "x-forwarded-proto"@);
    lemma_forwarded_names();
    law_trusted_family_is_kept(before, state, "x-forwarded-host"@);
    law_trusted_family_is_kept(before, state, "x-forwarded-proto"@);
}

} // verus!
