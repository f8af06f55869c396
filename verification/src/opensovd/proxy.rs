use vstd::prelude::*;

use crate::text::{
    contains_text, decimal, decimal_text, equal_ignoring_ascii_case, equals_ignoring_ascii_case, has_substring, occurs_at,
};

verus! {

/// The server requests are passed on to.
pub const TARGET_BASE_URL: &'static str = "http://localhost:8080";

/// The URL a request is passed on to: the target, the path after a slash where
/// there is one, and the query after `?` where there is one.
pub open spec fn target_url(base: Seq<char>, path: Seq<char>, query: Option<Seq<char>>) -> Seq<char> {
    let u = if path.len() == 0 { base } else { base + "/"@ + path };
    match query {
        Some(q) => u + "?"@ + q,
        None => u,
    }
}

/// The URL a request with the path (below the proxy's scope) and query is
/// passed on to.
pub fn proxy_target_url(request_path: &str, query: Option<&str>) -> (r: String)
    ensures
        r@ == target_url(TARGET_BASE_URL@, request_path@, match query {
            Some(q) => Some(q@),
            None => None,
        }),
{
    let url = if request_path.unicode_len() == 0 {
        String::from_str(TARGET_BASE_URL)
    } else {
        String::from_str(TARGET_BASE_URL).concat("/").concat(request_path)
    };
    match query {
        Some(q) => url.concat("?").concat(q),
        None => url,
    }
}

/// The hop-by-hop headers, which are not passed on.
pub open spec fn hop_by_hop_names() -> Seq<Seq<char>> {
    seq![
        "connection"@,
        "keep-alive"@,
        "proxy-authenticate"@,
        "proxy-authorization"@,
        "te"@,
        "trailers"@,
        "transfer-encoding"@,
        "upgrade"@,
    ]
}

/// A header is hop-by-hop: its name, lower-cased, is one of the list.
pub open spec fn is_hop_by_hop_name(name: Seq<char>) -> bool {
    exists|i: int| 0 <= i < hop_by_hop_names().len() && equal_ignoring_ascii_case(name, #[trigger] hop_by_hop_names()[i])
}

/// Whether a header is passed on: it is not hop-by-hop.
pub fn forwards_header(name: &str) -> (r: bool)
    ensures
        r == !is_hop_by_hop_name(name@),
{
    let names: [&str; 8] = [
        "connection",
        "keep-alive",
        "proxy-authenticate",
        "proxy-authorization",
        "te",
        "trailers",
        "transfer-encoding",
        "upgrade",
    ];
    assert(names@.map_values(|s: &str| s@) =~= hop_by_hop_names());
    let mut i: usize = 0;
    while i < 8
        invariant
            i <= 8,
            names@.map_values(|s: &str| s@) == hop_by_hop_names(),
            forall|j: int| 0 <= j < i ==> !equal_ignoring_ascii_case(name@, #[trigger] hop_by_hop_names()[j]),
        decreases 8 - i,
    {
        if equals_ignoring_ascii_case(name, names[i]) {
            assert(names@[i as int]@ == hop_by_hop_names()[i as int]);
            return false;
        }
        assert(names@[i as int]@ == hop_by_hop_names()[i as int]);
        i = i + 1;
    }
    true
}

/// The address of the client of a request.
pub struct PeerAddr {
    /// The IP address, as text.
    pub ip: String,
    /// Whether it is an IPv6 address.
    pub v6: bool,
    /// The port.
    pub port: u16,
}

/// A parameter value of a `Forwarded` header (RFC 7239): a token as it is, a
/// value holding `:`, `;` or `,` as a quoted string.
pub open spec fn forwarded_param_value(v: Seq<char>) -> Seq<char> {
    if has_substring(v, ":"@) || has_substring(v, ";"@) || has_substring(v, ","@) {
        "\""@ + v + "\""@
    } else {
        v
    }
}

/// The node of a client: `[ip]:port` for IPv6, `ip:port` otherwise.
pub open spec fn node_of(ip: Seq<char>, v6: bool, port: u16) -> Seq<char> {
    if v6 {
        "["@ + ip + "]:"@ + decimal(port as nat)
    } else {
        ip + ":"@ + decimal(port as nat)
    }
}

/// The `Forwarded` header (RFC 7239) for a request: `for=` the client's node
/// where known, `host=` the host where known, and `proto=`, joined by `;`; each
/// value quoted where it is not a token.
pub open spec fn forwarded_header(peer: Option<(Seq<char>, bool, u16)>, host: Option<Seq<char>>, https: bool) -> Seq<char> {
    let proto = "proto="@ + if https { "https"@ } else { "http"@ };
    let with_host = match host {
        Some(h) => "host="@ + forwarded_param_value(h) + ";"@ + proto,
        None => proto,
    };
    match peer {
        Some((ip, v6, port)) => "for="@ + forwarded_param_value(node_of(ip, v6, port)) + ";"@ + with_host,
        None => with_host,
    }
}

/// A parameter value of a `Forwarded` header, quoted where it is not a token.
pub fn quote_param_value(v: &str) -> (r: String)
    ensures
        r@ == forwarded_param_value(v@),
{
    if contains_text(v, ":") || contains_text(v, ";") || contains_text(v, ",") {
        String::from_str("\"").concat(v).concat("\"")
    } else {
        String::from_str(v)
    }
}

/// The `Forwarded` header for a request from the client, with the `Host`
/// header (where it is readable text) and over HTTPS or not.
pub fn build_forwarded_header(peer: &Option<PeerAddr>, host: Option<&str>, https: bool) -> (r: String)
    ensures
        r@ == forwarded_header(
            match peer {
                Some(p) => Some((p.ip@, p.v6, p.port)),
                None => None,
            },
            match host {
                Some(h) => Some(h@),
                None => None,
            },
            https,
        ),
{
    let proto = String::from_str("proto=").concat(if https { "https" } else { "http" });
    let with_host = match host {
        Some(h) => {
            let value = quote_param_value(h);
            String::from_str("host=").concat(value.as_str()).concat(";").concat(proto.as_str())
        },
        None => proto,
    };
    match peer {
        Some(p) => {
            let port = decimal_text(p.port as u64);
            let node = if p.v6 {
                String::from_str("[").concat(p.ip.as_str()).concat("]:").concat(port.as_str())
            } else {
                p.ip.clone().concat(":").concat(port.as_str())
            };
            let value = quote_param_value(node.as_str());
            String::from_str("for=").concat(value.as_str()).concat(";").concat(with_host.as_str())
        },
        None => with_host,
    }
}

/// The `Forwarded` header passed on: the new element after the ones the request
/// had, where it had a readable one.
pub fn forwarded_value(existing: Option<&str>, new: &str) -> (r: String)
    ensures
        r@ == match existing {
            Some(e) => e@ + ", "@ + new@,
            None => new@,
        },
{
    match existing {
        Some(e) => String::from_str(e).concat(", ").concat(new),
        None => String::from_str(new),
    }
}


/// The headers passed on: those that are not hop-by-hop, in order.
pub open spec fn kept_headers<V>(h: Seq<(Seq<char>, V)>) -> Seq<(Seq<char>, V)>
    decreases h.len(),
{
    if h.len() == 0 {
        Seq::empty()
    } else {
        let rest = kept_headers(h.drop_last());
        if is_hop_by_hop_name(h.last().0) {
            rest
        } else {
            rest.push(h.last())
        }
    }
}

/// The view of a list of headers.
pub open spec fn headers_view<V>(h: Seq<(String, V)>) -> Seq<(Seq<char>, V)> {
    h.map_values(|x: (String, V)| (x.0@, x.1))
}

/// The headers that are passed on, in order: all but the hop-by-hop ones.
pub fn filter_headers<V>(headers: Vec<(String, V)>) -> (r: Vec<(String, V)>)
    ensures
        headers_view(r@) == kept_headers(headers_view(headers@)),
{
    let ghost src = headers_view(headers@);
    let ghost n = headers@.len();
    let mut rest = headers;
    let mut out: Vec<(String, V)> = Vec::new();
    assert(headers_view(out@) =~= kept_headers(src.take(0)));
    while rest.len() > 0
        invariant
            src.len() == n,
            rest@.len() <= n,
            headers_view(rest@) == src.skip(n - rest@.len()),
            headers_view(out@) == kept_headers(src.take(n - rest@.len())),
        decreases rest@.len(),
    {
        let ghost k = n - rest@.len();
        let ghost before = out@;
        let ghost old_rest = rest@;
        let (name, value) = rest.remove(0);
        proof {
            assert(rest@ =~= old_rest.subrange(1, old_rest.len() as int));
            assert forall|i: int| 0 <= i < rest@.len() implies headers_view(rest@)[i] == src.skip(k + 1)[i] by {
                assert(headers_view(old_rest)[i + 1] == src.skip(k)[i + 1]);
            }
            assert(src.skip(k)[0] == (name@, value));
            assert(src.take(k + 1).drop_last() =~= src.take(k));
            assert(src.take(k + 1).last() == (name@, value));
            assert(headers_view(rest@) =~= src.skip(k + 1));
        }
        if forwards_header(name.as_str()) {
            out.push((name, value));
            assert(headers_view(out@) =~= headers_view(before).push((name@, value)));
        }
    }
    assert(src.take(n as int) =~= src);
    out
}

/// The answer the proxy gives its client.
pub struct ProxyReply<V> {
    /// The HTTP status.
    pub status: u16,
    /// The headers passed back.
    pub headers: Vec<(String, V)>,
    /// The body of an error answer; none where the upstream body is streamed back.
    pub error_body: Option<String>,
}

/// The answer to the upstream outcome: the upstream status with its headers
/// that are not hop-by-hop (the body streamed back), or `502 Bad Gateway` with
/// `Proxy error: ` and the error where the request could not be sent.
pub fn proxy_reply<V>(outcome: Result<(u16, Vec<(String, V)>), String>) -> (r: ProxyReply<V>)
    ensures
        match outcome {
            Ok((status, headers)) => r.status == status && headers_view(r.headers@) == kept_headers(
                headers_view(headers@),
            ) && r.error_body is None,
            Err(e) => r.status == 502 && r.headers@.len() == 0 && r.error_body.deep_view() == Some(
                "Proxy error: "@ + e@,
            ),
        },
{
    match outcome {
        Ok((status, headers)) => ProxyReply { status, headers: filter_headers(headers), error_body: None },
        Err(e) => ProxyReply {
            status: 502,
            headers: Vec::new(),
            error_body: Some(String::from_str("Proxy error: ").concat(e.as_str())),
        },
    }
}


/// The headers passed on hold no hop-by-hop header, and every other header of
/// the list is passed on.
pub proof fn lemma_kept_headers<V>(h: Seq<(Seq<char>, V)>, x: (Seq<char>, V))
    ensures
        kept_headers(h).contains(x) <==> (h.contains(x) && !is_hop_by_hop_name(x.0)),
    decreases h.len(),
{
    if h.len() > 0 {
        let rest = h.drop_last();
        lemma_kept_headers(rest, x);
        if h.contains(x) {
            let i = choose|i: int| 0 <= i < h.len() && h[i] == x;
            if i < rest.len() {
                assert(rest[i] == x);
            }
        }
        if rest.contains(x) {
            let i = choose|i: int| 0 <= i < rest.len() && rest[i] == x;
            assert(h[i] == x);
        }
        let k = kept_headers(rest);
        if !is_hop_by_hop_name(h.last().0) {
            if k.contains(x) {
                let i = choose|i: int| 0 <= i < k.len() && k[i] == x;
                assert(k.push(h.last())[i] == x);
            }
            if x == h.last() {
                assert(k.push(h.last())[k.len() as int] == x);
            }
            if k.push(h.last()).contains(x) {
                let i = choose|i: int| 0 <= i < k.len() + 1 && k.push(h.last())[i] == x;
                if i < k.len() {
                    assert(k[i] == x);
                }
            }
        }
        assert(h[h.len() - 1] == h.last());
    }
}

/// A header is hop-by-hop, and never passed on, exactly when its name,
/// lower-cased in ASCII, is one of `connection`, `keep-alive`,
/// `proxy-authenticate`, `proxy-authorization`, `te`, `trailers`,
/// `transfer-encoding` and `upgrade`.
pub proof fn lemma_hop_by_hop_headers(name: Seq<char>)
    ensures
        is_hop_by_hop_name(name) <==> (equal_ignoring_ascii_case(name, "connection"@) || equal_ignoring_ascii_case(
            name,
            "keep-alive"@,
        ) || equal_ignoring_ascii_case(name, "proxy-authenticate"@) || equal_ignoring_ascii_case(
            name,
            "proxy-authorization"@,
        ) || equal_ignoring_ascii_case(name, "te"@) || equal_ignoring_ascii_case(name, "trailers"@)
            || equal_ignoring_ascii_case(name, "transfer-encoding"@) || equal_ignoring_ascii_case(name, "upgrade"@)),
{
    let l = hop_by_hop_names();
    assert(l[0] == "connection"@);
    assert(l[1] == "keep-alive"@);
    assert(l[2] == "proxy-authenticate"@);
    assert(l[3] == "proxy-authorization"@);
    assert(l[4] == "te"@);
    assert(l[5] == "trailers"@);
    assert(l[6] == "transfer-encoding"@);
    assert(l[7] == "upgrade"@);
    assert(l.len() == 8);
}

/// A `Forwarded` parameter value is quoted exactly when it holds `:`, `;` or
/// `,`; quoted, it is the value between two double quotes, and otherwise the
/// value itself.
pub proof fn lemma_forwarded_param_quoting(v: Seq<char>)
    ensures
        (exists|i: int| 0 <= i < v.len() && (#[trigger] v[i] == ':' || v[i] == ';' || v[i] == ','))
            ==> forwarded_param_value(v) == seq!['"'] + v + seq!['"'],
        !(exists|i: int| 0 <= i < v.len() && (#[trigger] v[i] == ':' || v[i] == ';' || v[i] == ','))
            ==> forwarded_param_value(v) == v,
{
    reveal_strlit(":");
    reveal_strlit(";");
    reveal_strlit(",");
    reveal_strlit("\"");
    assert("\""@ =~= seq!['"']);
    assert(":"@ =~= seq![':']);
    assert(";"@ =~= seq![';']);
    assert(","@ =~= seq![',']);
    if exists|i: int| 0 <= i < v.len() && (#[trigger] v[i] == ':' || v[i] == ';' || v[i] == ',') {
        let i = choose|i: int| 0 <= i < v.len() && (#[trigger] v[i] == ':' || v[i] == ';' || v[i] == ',');
        assert(v.subrange(i, i + 1) =~= seq![v[i]]);
        if v[i] == ':' {
            assert(occurs_at(v, ":"@, i));
        } else if v[i] == ';' {
            assert(occurs_at(v, ";"@, i));
        } else {
            assert(occurs_at(v, ","@, i));
        }
    } else {
        if has_substring(v, ":"@) {
            let i = choose|i: int| #[trigger] occurs_at(v, ":"@, i);
            assert(v[i] == v.subrange(i, i + 1)[0]);
        }
        if has_substring(v, ";"@) {
            let i = choose|i: int| #[trigger] occurs_at(v, ";"@, i);
            assert(v[i] == v.subrange(i, i + 1)[0]);
        }
        if has_substring(v, ","@) {
            let i = choose|i: int| #[trigger] occurs_at(v, ","@, i);
            assert(v[i] == v.subrange(i, i + 1)[0]);
        }
    }
}

/// The URL with a query is the URL without it, `?` and the query; it always
/// starts with the target, and a non-empty path ends it (before any query),
/// after a slash.
pub proof fn lemma_target_url_parts(base: Seq<char>, path: Seq<char>, q: Seq<char>)
    ensures
        target_url(base, path, Some(q)) == target_url(base, path, None) + "?"@ + q,
        target_url(base, path, None).subrange(0, base.len() as int) == base,
        path.len() == 0 ==> target_url(base, path, None) == base,
        path.len() > 0 ==> target_url(base, path, None).len() == base.len() + 1 + path.len() && target_url(
            base,
            path,
            None,
        )[base.len() as int] == '/' && target_url(base, path, None).subrange(
            base.len() + 1int,
            base.len() + 1int + path.len(),
        ) == path,
{
    reveal_strlit("/");
    let u = target_url(base, path, None);
    if path.len() > 0 {
        assert(u =~= base + "/"@ + path);
        assert(u.subrange(0, base.len() as int) =~= base);
        assert(u.subrange(base.len() + 1int, base.len() + 1int + path.len()) =~= path);
    } else {
        assert(u.subrange(0, base.len() as int) =~= base);
    }
}

} // verus!
