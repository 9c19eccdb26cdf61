//! What is sent to an upstream, and what of its answer goes to the client.
//!
//! Hop-by-hop headers are stripped both ways; headers that name the upstream
//! and its pool are added to the response.

use axum::http::{HeaderMap, HeaderName, HeaderValue};
use vstd::prelude::*;

use crate::headers;
use crate::headers::{header_lines, no_headers, set_header};
use crate::text::{join, text_eq};
use crate::upstream::snapshot::{PoolType, UpstreamScheme};

verus! {

/// Headers that concern one connection only.
pub open spec fn is_hop_name(name: Seq<char>) -> bool {
    ||| name == "connection"@
    ||| name == "keep-alive"@
    ||| name == "proxy-authenticate"@
    ||| name == "proxy-authorization"@
    ||| name == "te"@
    ||| name == "trailer"@
    ||| name == "transfer-encoding"@
    ||| name == "upgrade"@
}

/// Whether a header, by its lowercase name, concerns one connection only.
pub fn is_hop_by_hop(name: &str) -> (hop: bool)
    ensures
        hop == is_hop_name(name@),
{
    text_eq(name, "connection") || text_eq(name, "keep-alive") || text_eq(
        name,
        "proxy-authenticate",
    ) || text_eq(name, "proxy-authorization") || text_eq(name, "te") || text_eq(name, "trailer")
        || text_eq(name, "transfer-encoding") || text_eq(name, "upgrade")
}

/// Where a request is sent.
pub fn request_url(scheme: UpstreamScheme, addr: &str, path_and_query: &str) -> (url: String)
    ensures
        url@ == scheme.label() + "://"@ + addr@ + path_and_query@,
{
    let prefix = join(scheme.as_str(), "://");
    let host = join(prefix.as_str(), addr);
    join(host.as_str(), path_and_query)
}

/// The status that the client sees: the upstream's, or 500 where that is no
/// HTTP status.
pub open spec fn status_shown(status: u16) -> u16 {
    if 100 <= status < 1000 {
        status
    } else {
        500
    }
}

/// The status that the client sees.
pub fn relayed_status(status: u16) -> (relayed: u16)
    ensures
        relayed == status_shown(status),
{
    if 100 <= status && status < 1000 {
        status
    } else {
        500
    }
}

/// The values that are forwarded under a name, given the values received.
pub open spec fn forwarded(received: Seq<Seq<u8>>, name: Seq<char>) -> Seq<Seq<u8>> {
    if is_hop_name(name) {
        Seq::empty()
    } else {
        received
    }
}

/// One more line adds its value to its name's.
proof fn values_of_push(lines: Seq<(Seq<char>, Seq<u8>)>, line: (Seq<char>, Seq<u8>), name: Seq<char>)
    ensures
        headers::values_of(lines.push(line), name) == if line.0 == name {
            headers::values_of(lines, name).push(line.1)
        } else {
            headers::values_of(lines, name)
        },
{
    assert(lines.push(line).drop_last() =~= lines);
}

/// The lines that are not hop-by-hop, in their order.
pub open spec fn end_to_end(lines: Seq<(Seq<char>, Seq<u8>)>) -> Seq<(Seq<char>, Seq<u8>)> {
    lines.filter(|line: (Seq<char>, Seq<u8>)| !is_hop_name(line.0))
}

/// One more line is kept unless it is hop-by-hop.
proof fn end_to_end_push(lines: Seq<(Seq<char>, Seq<u8>)>, line: (Seq<char>, Seq<u8>))
    ensures
        end_to_end(lines.push(line)) == if is_hop_name(line.0) {
            end_to_end(lines)
        } else {
            end_to_end(lines).push(line)
        },
{
    reveal(Seq::filter);
    assert(lines.push(line).drop_last() =~= lines);
}

/// Dropping the hop-by-hop lines drops the values of hop-by-hop headers and no
/// others.
proof fn end_to_end_values(lines: Seq<(Seq<char>, Seq<u8>)>, name: Seq<char>)
    ensures
        headers::values_of(end_to_end(lines), name) == forwarded(
            headers::values_of(lines, name),
            name,
        ),
    decreases lines.len(),
{
    reveal(Seq::filter);
    if lines.len() > 0 {
        let rest = lines.drop_last();
        end_to_end_values(rest, name);
        end_to_end_push(rest, lines.last());
        assert(rest.push(lines.last()) =~= lines);
        values_of_push(end_to_end(rest), lines.last(), name);
    }
}

/// The header lines to send to an upstream: all but the hop-by-hop ones, in
/// their order.
pub fn forward_lines(lines: &[(HeaderName, HeaderValue)]) -> (sent: Vec<(HeaderName, HeaderValue)>)
    ensures
        headers::lines_view(sent@) == end_to_end(headers::lines_view(lines@)),
{
    let ghost all = headers::lines_view(lines@);
    let mut sent: Vec<(HeaderName, HeaderValue)> = Vec::new();
    let mut i: usize = 0;
    proof {
        reveal(Seq::filter);
    }
    assert(headers::lines_view(sent@) =~= end_to_end(all.take(0)));
    while i < lines.len()
        invariant
            i <= lines@.len(),
            all == headers::lines_view(lines@),
            headers::lines_view(sent@) == end_to_end(all.take(i as int)),
        decreases lines@.len() - i,
    {
        let ghost before = headers::lines_view(sent@);
        let line = &lines[i];
        let ghost plain = (headers::name_text(line.0), headers::value_bytes(line.1));
        proof {
            assert(all[i as int] == plain);
            assert(all.take(i + 1) =~= all.take(i as int).push(plain));
            end_to_end_push(all.take(i as int), plain);
        }
        if !is_hop_by_hop(line.0.as_str()) {
            sent.push((line.0.clone(), line.1.clone()));
            assert(headers::lines_view(sent@) =~= before.push(plain));
        }
        i += 1;
    }
    assert(all.take(all.len() as int) =~= all);
    sent
}

/// The header lines to send to an upstream with a request: all that the
/// client sent but the hop-by-hop ones.
pub fn request_headers(received: &HeaderMap<HeaderValue>) -> (sent: Vec<(HeaderName, HeaderValue)>)
    ensures
        forall|name: Seq<char>|
            #[trigger] headers::values_of(headers::lines_view(sent@), name) == forwarded(
                headers::values_under(headers::header_contents(*received), name),
                name,
            ),
{
    let lines = header_lines(received);
    let sent = forward_lines(lines.as_slice());
    assert forall|name: Seq<char>|
        #[trigger] headers::values_of(headers::lines_view(sent@), name) == forwarded(
            headers::values_under(headers::header_contents(*received), name),
            name,
        ) by {
        end_to_end_values(headers::lines_view(lines@), name);
        assert(headers::values_of(headers::lines_view(lines@), name) == headers::values_under(
            headers::header_contents(*received),
            name,
        ));
    }
    sent
}

/// The values that the client receives under a name, given the values that
/// the upstream sent: the last one, except that hop-by-hop headers are
/// stripped and the headers that name the upstream and its pool are the
/// router's own.
pub open spec fn relayed(
    received: Seq<Seq<u8>>,
    name: Seq<char>,
    addr: Seq<u8>,
    pool: Seq<u8>,
) -> Seq<Seq<u8>> {
    if name == "x-bge-router-pool"@ {
        seq![pool]
    } else if name == "x-bge-router-upstream"@ && headers::is_header_value(addr) {
        seq![addr]
    } else {
        stripped(received, name)
    }
}

/// The last of the values, where there are any and the header is not
/// hop-by-hop.
pub open spec fn stripped(received: Seq<Seq<u8>>, name: Seq<char>) -> Seq<Seq<u8>> {
    if is_hop_name(name) || received.len() == 0 {
        Seq::empty()
    } else {
        seq![received.last()]
    }
}

/// There is room for the headers that are relayed and for the router's own two.
pub open spec fn have_room(names: Set<Seq<char>>) -> bool {
    names.len() + 2 <= headers::settable_names()
}

/// The bytes of a pool's name may stand in a header.
proof fn label_fits_header(pool_type: PoolType)
    ensures
        headers::is_header_value(vstd::utf8::encode_utf8(pool_type.label())),
{
    reveal_strlit("gpu");
    reveal_strlit("cpu");
    let label = pool_type.label();
    assert(label.len() == 3);
    assert forall|i: int| 0 <= i < label.len() implies 'a' <= #[trigger] label[i] <= 'z' by {
        assert(i == 0 || i == 1 || i == 2);
    }
    vstd::utf8::is_ascii_chars_encode_utf8(label);
}

/// The router's own headers have header names.
proof fn own_names_are_header_names()
    ensures
        headers::is_header_name("x-bge-router-upstream"@),
        headers::is_header_name("x-bge-router-pool"@),
        "x-bge-router-upstream"@ != "x-bge-router-pool"@,
{
    reveal_strlit("x-bge-router-upstream");
    reveal_strlit("x-bge-router-pool");
    let upstream = "x-bge-router-upstream"@;
    let pool = "x-bge-router-pool"@;
    assert(upstream.len() == 21 && pool.len() == 17);
    assert forall|i: int| 0 <= i < upstream.len() implies headers::is_name_char(
        #[trigger] upstream[i],
    ) by {
        assert(i == 0 || i == 1 || i == 2 || i == 3 || i == 4 || i == 5 || i == 6 || i == 7 || i
            == 8 || i == 9 || i == 10 || i == 11 || i == 12 || i == 13 || i == 14 || i == 15 || i
            == 16 || i == 17 || i == 18 || i == 19 || i == 20);
    }
    assert forall|i: int| 0 <= i < pool.len() implies headers::is_name_char(#[trigger] pool[i]) by {
        assert(i == 0 || i == 1 || i == 2 || i == 3 || i == 4 || i == 5 || i == 6 || i == 7 || i
            == 8 || i == 9 || i == 10 || i == 11 || i == 12 || i == 13 || i == 14 || i == 15 || i
            == 16);
    }
}

/// The headers of the client's response, from the header lines of the
/// upstream's. There are none where there is no room for all of them.
pub fn relay_lines(
    lines: &[(HeaderName, HeaderValue)],
    addr: &str,
    pool_type: PoolType,
) -> (relayed_headers: Option<HeaderMap<HeaderValue>>)
    ensures
        match relayed_headers {
            Some(h) => forall|name: Seq<char>|
                #[trigger] headers::values_under(headers::header_contents(h), name) == relayed(
                    headers::values_of(headers::lines_view(lines@), name),
                    name,
                    vstd::utf8::encode_utf8(addr@),
                    vstd::utf8::encode_utf8(pool_type.label()),
                ),
            None => !have_room(headers::line_names(headers::lines_view(lines@))),
        },
{
    let ghost all = headers::lines_view(lines@);
    let ghost names = headers::line_names(all);
    proof {
        vstd::seq_lib::seq_to_set_is_finite(
            all.map_values(|line: (Seq<char>, Seq<u8>)| line.0),
        );
        own_names_are_header_names();
        label_fits_header(pool_type);
    }
    let mut out = no_headers();
    let mut i: usize = 0;
    while i < lines.len()
        invariant
            i <= lines@.len(),
            all == headers::lines_view(lines@),
            names == headers::line_names(all),
            names.finite(),
            headers::header_contents(out).dom().subset_of(names),
            forall|name: Seq<char>|
                #[trigger] headers::values_under(headers::header_contents(out), name) == stripped(
                    headers::values_of(all.take(i as int), name),
                    name,
                ),
        decreases lines@.len() - i,
    {
        let ghost before = headers::header_contents(out);
        let line = &lines[i];
        let ghost plain = (headers::name_text(line.0), headers::value_bytes(line.1));
        proof {
            assert(all[i as int] == plain);
            assert(all.take(i + 1) =~= all.take(i as int).push(plain));
            let listed = all.map_values(|line: (Seq<char>, Seq<u8>)| line.0);
            assert(listed[i as int] == plain.0);
            assert(names.contains(plain.0));
            vstd::set_lib::lemma_len_subset(before.dom(), names);
        }
        if !is_hop_by_hop(line.0.as_str()) {
            if !set_header(&mut out, line.0.clone(), line.1.clone()) {
                return None;
            }
        }
        assert forall|name: Seq<char>|
            #[trigger] headers::values_under(headers::header_contents(out), name) == stripped(
                headers::values_of(all.take(i + 1), name),
                name,
            ) by {
            values_of_push(all.take(i as int), plain, name);
            assert(headers::values_under(before, name) == stripped(
                headers::values_of(all.take(i as int), name),
                name,
            ));
        }
        i += 1;
    }
    let ghost relayed_only = headers::header_contents(out);
    proof {
        assert(all.take(all.len() as int) =~= all);
        vstd::set_lib::lemma_len_subset(relayed_only.dom(), names);
    }
    if let Ok(value) = HeaderValue::from_str(addr) {
        if !set_header(&mut out, HeaderName::from_static("x-bge-router-upstream"), value) {
            return None;
        }
    }
    if let Ok(value) = HeaderValue::from_str(pool_type.as_str()) {
        if !set_header(&mut out, HeaderName::from_static("x-bge-router-pool"), value) {
            return None;
        }
    }
    assert forall|name: Seq<char>|
        #[trigger] headers::values_under(headers::header_contents(out), name) == relayed(
            headers::values_of(all, name),
            name,
            vstd::utf8::encode_utf8(addr@),
            vstd::utf8::encode_utf8(pool_type.label()),
        ) by {
        assert(headers::values_under(relayed_only, name) == stripped(
            headers::values_of(all, name),
            name,
        ));
    }
    Some(out)
}

/// The headers of the client's response, from those of the upstream's. There
/// are none where there is no room for all of them.
pub fn response_headers(
    received: &HeaderMap<HeaderValue>,
    addr: &str,
    pool_type: PoolType,
) -> (relayed_headers: Option<HeaderMap<HeaderValue>>)
    ensures
        match relayed_headers {
            Some(h) => forall|name: Seq<char>|
                #[trigger] headers::values_under(headers::header_contents(h), name) == relayed(
                    headers::values_under(headers::header_contents(*received), name),
                    name,
                    vstd::utf8::encode_utf8(addr@),
                    vstd::utf8::encode_utf8(pool_type.label()),
                ),
            None => !have_room(headers::header_contents(*received).dom()),
        },
{
    let lines = header_lines(received);
    let relayed_headers = relay_lines(lines.as_slice(), addr, pool_type);
    proof {
        if relayed_headers is Some {
            let h = relayed_headers->0;
            assert forall|name: Seq<char>|
                #[trigger] headers::values_under(headers::header_contents(h), name) == relayed(
                    headers::values_under(headers::header_contents(*received), name),
                    name,
                    vstd::utf8::encode_utf8(addr@),
                    vstd::utf8::encode_utf8(pool_type.label()),
                ) by {
                assert(headers::values_of(headers::lines_view(lines@), name)
                    == headers::values_under(headers::header_contents(*received), name));
            }
        }
    }
    relayed_headers
}

/// No hop-by-hop header passes in either direction, and a header that is none
/// reaches the upstream with every value it had.
pub proof fn hop_by_hop_headers_are_stripped(
    received: Seq<Seq<u8>>,
    name: Seq<char>,
    addr: Seq<u8>,
    pool: Seq<u8>,
)
    ensures
        is_hop_name(name) ==> forwarded(received, name).len() == 0,
        is_hop_name(name) ==> relayed(received, name, addr, pool).len() == 0,
        !is_hop_name(name) ==> forwarded(received, name) == received,
{
    reveal_strlit("x-bge-router-upstream");
    reveal_strlit("x-bge-router-pool");
    reveal_strlit("connection");
    reveal_strlit("keep-alive");
    reveal_strlit("proxy-authenticate");
    reveal_strlit("proxy-authorization");
    reveal_strlit("te");
    reveal_strlit("trailer");
    reveal_strlit("transfer-encoding");
    reveal_strlit("upgrade");
    if is_hop_name(name) {
        assert(name[0] != 'x');
        assert("x-bge-router-upstream"@[0] == 'x' && "x-bge-router-pool"@[0] == 'x');
    }
}

/// Every response says which upstream of which pool served it, whatever the
/// upstream put under those names; every other header that is not hop-by-hop
/// reaches the client with the last value it had.
pub proof fn response_names_its_upstream(
    received: Seq<Seq<u8>>,
    name: Seq<char>,
    addr: Seq<u8>,
    pool: Seq<u8>,
)
    requires
        headers::is_header_value(addr),
    ensures
        name == "x-bge-router-upstream"@ ==> relayed(received, name, addr, pool) == seq![addr],
        name == "x-bge-router-pool"@ ==> relayed(received, name, addr, pool) == seq![pool],
        !is_hop_name(name) && name != "x-bge-router-upstream"@ && name != "x-bge-router-pool"@
            && received.len() > 0 ==> relayed(received, name, addr, pool) == seq![received.last()],
{
    reveal_strlit("x-bge-router-upstream");
    reveal_strlit("x-bge-router-pool");
    assert("x-bge-router-upstream"@.len() == 21 && "x-bge-router-pool"@.len() == 17);
}

/// A redirect passes through: the client sees the upstream's status, and the
/// place that the upstream redirects to.
pub proof fn redirects_pass_through(
    status: u16,
    locations: Seq<Seq<u8>>,
    addr: Seq<u8>,
    pool: Seq<u8>,
)
    requires
        300 <= status < 400,
        locations.len() > 0,
    ensures
        status_shown(status) == status,
        relayed(locations, "location"@, addr, pool) == seq![locations.last()],
{
    reveal_strlit("location");
    reveal_strlit("x-bge-router-upstream");
    reveal_strlit("x-bge-router-pool");
    reveal_strlit("connection");
    reveal_strlit("keep-alive");
    reveal_strlit("proxy-authenticate");
    reveal_strlit("proxy-authorization");
    reveal_strlit("te");
    reveal_strlit("trailer");
    reveal_strlit("transfer-encoding");
    reveal_strlit("upgrade");
    assert("location"@[0] == 'l' && "location"@.len() == 8);
    assert("x-bge-router-upstream"@[0] == 'x' && "x-bge-router-pool"@[0] == 'x');
    assert("connection"@[0] == 'c' && "keep-alive"@[0] == 'k' && "upgrade"@[0] == 'u');
    assert("proxy-authenticate"@[0] == 'p' && "proxy-authorization"@[0] == 'p');
    assert("te"@[0] == 't' && "trailer"@[0] == 't' && "transfer-encoding"@[0] == 't');
}

/// A request goes out over HTTPS exactly when upstream TLS is on.
pub proof fn scheme_decides_url(scheme: UpstreamScheme, addr: Seq<char>, path: Seq<char>)
    ensures
        crate::text::begins_with(scheme.label() + "://"@ + addr + path, "https://"@) <==> scheme
            == UpstreamScheme::Https,
        crate::text::begins_with(scheme.label() + "://"@ + addr + path, "http://"@) <==> scheme
            == UpstreamScheme::Http,
{
    reveal_strlit("http");
    reveal_strlit("https");
    reveal_strlit("://");
    reveal_strlit("http://");
    reveal_strlit("https://");
    let url = scheme.label() + "://"@ + addr + path;
    match scheme {
        UpstreamScheme::Http => {
            assert(url.subrange(0, 7) =~= "http://"@);
            assert(url[4] == ':');
            if crate::text::begins_with(url, "https://"@) {
                assert(url.subrange(0, 8)[4] == "https://"@[4]);
            }
        },
        UpstreamScheme::Https => {
            assert(url.subrange(0, 8) =~= "https://"@);
            assert(url[4] == 's');
            if crate::text::begins_with(url, "http://"@) {
                assert(url.subrange(0, 7)[4] == "http://"@[4]);
            }
        },
    }
}

/// Eight headers concern one connection only. A header under any other name is
/// forwarded with every value that it had and relayed with the last of them,
/// unless it is one of the router's own two; those eight pass in neither
/// direction.
pub proof fn other_headers_pass(
    received: Seq<Seq<u8>>,
    name: Seq<char>,
    addr: Seq<u8>,
    pool: Seq<u8>,
)
    ensures
        ({
            let connection_only = name == "connection"@ || name == "keep-alive"@ || name
                == "proxy-authenticate"@ || name == "proxy-authorization"@ || name == "te"@ || name
                == "trailer"@ || name == "transfer-encoding"@ || name == "upgrade"@;
            let own = name == "x-bge-router-upstream"@ || name == "x-bge-router-pool"@;
            &&& is_hop_name(name) == connection_only
            &&& !connection_only ==> forwarded(received, name) == received
            &&& connection_only ==> forwarded(received, name) == Seq::<Seq<u8>>::empty()
            &&& connection_only ==> relayed(received, name, addr, pool) == Seq::<Seq<u8>>::empty()
            &&& !connection_only && !own && received.len() > 0 ==> relayed(
                received,
                name,
                addr,
                pool,
            ) == seq![received.last()]
            &&& !connection_only && !own && received.len() == 0 ==> relayed(
                received,
                name,
                addr,
                pool,
            ) == Seq::<Seq<u8>>::empty()
        }),
{
    hop_by_hop_headers_are_stripped(received, name, addr, pool);
    assert(relayed(received, name, addr, pool).len() == 0 ==> relayed(received, name, addr, pool)
        =~= Seq::<Seq<u8>>::empty());
}

/// The lines that are forwarded are those received, in their order and with
/// their values, without the lines of the eight headers that concern one
/// connection only.
pub proof fn other_lines_are_forwarded(
    lines: Seq<(Seq<char>, Seq<u8>)>,
    name: Seq<char>,
    value: Seq<u8>,
)
    ensures
        ({
            let connection_only = name == "connection"@ || name == "keep-alive"@ || name
                == "proxy-authenticate"@ || name == "proxy-authorization"@ || name == "te"@ || name
                == "trailer"@ || name == "transfer-encoding"@ || name == "upgrade"@;
            &&& end_to_end(Seq::empty()) == Seq::<(Seq<char>, Seq<u8>)>::empty()
            &&& !connection_only ==> end_to_end(lines.push((name, value))) == end_to_end(
                lines,
            ).push((name, value))
            &&& connection_only ==> end_to_end(lines.push((name, value))) == end_to_end(lines)
            &&& !connection_only ==> headers::values_of(end_to_end(lines), name)
                == headers::values_of(lines, name)
            &&& connection_only ==> headers::values_of(end_to_end(lines), name) == Seq::<
                Seq<u8>,
            >::empty()
        }),
{
    end_to_end_push(lines, (name, value));
    end_to_end_values(lines, name);
    assert(end_to_end(Seq::empty()) =~= Seq::<(Seq<char>, Seq<u8>)>::empty()) by {
        reveal(Seq::filter);
    }
}

/// The router's own two headers name the pool, and the upstream where its
/// address may stand in a header; an address that may not leaves the upstream's
/// own value.
pub proof fn own_headers_are_set(received: Seq<Seq<u8>>, addr: Seq<u8>, pool: Seq<u8>)
    ensures
        relayed(received, "x-bge-router-pool"@, addr, pool) == seq![pool],
        headers::is_header_value(addr) ==> relayed(
            received,
            "x-bge-router-upstream"@,
            addr,
            pool,
        ) == seq![addr],
        !headers::is_header_value(addr) ==> relayed(received, "x-bge-router-upstream"@, addr, pool)
            == if received.len() == 0 {
            Seq::empty()
        } else {
            seq![received.last()]
        },
{
    own_names_are_header_names();
    hop_by_hop_headers_are_stripped(received, "x-bge-router-upstream"@, addr, pool);
    reveal_strlit("x-bge-router-upstream");
    reveal_strlit("connection");
    reveal_strlit("keep-alive");
    reveal_strlit("proxy-authenticate");
    reveal_strlit("proxy-authorization");
    reveal_strlit("te");
    reveal_strlit("trailer");
    reveal_strlit("transfer-encoding");
    reveal_strlit("upgrade");
    let name = "x-bge-router-upstream"@;
    if is_hop_name(name) {
        assert(name[0] == 'x');
        assert("connection"@[0] == 'c' && "keep-alive"@[0] == 'k' && "upgrade"@[0] == 'u');
        assert("proxy-authenticate"@[0] == 'p' && "proxy-authorization"@[0] == 'p');
        assert("te"@[0] == 't' && "trailer"@[0] == 't' && "transfer-encoding"@[0] == 't');
    }
}

/// The client sees the upstream's status wherever it has three digits, and 500
/// otherwise.
pub proof fn three_digit_statuses_pass(status: u16)
    ensures
        100 <= status <= 999 ==> status_shown(status) == status,
        status < 100 || status > 999 ==> status_shown(status) == 500,
{
}

/// A response of up to 6552 different headers always has room for them and for
/// the router's own two.
pub proof fn responses_of_few_headers_pass(names: Set<Seq<char>>)
    requires
        names.len() <= 6552,
    ensures
        have_room(names),
{
}

}
