use vstd::prelude::*;

verus! {

/// The hub's HTTPS port.
pub const DIRIGERA_PORT: u16 = 8443;

/// The decimal digit for `d`, which is below ten.
pub open spec fn digit(d: nat) -> char {
    "0123456789"@[d as int]
}

/// The decimal text of `n`, without leading zeros.
pub open spec fn decimal(n: nat) -> Seq<char>
    decreases n,
{
    if n < 10 {
        seq![digit(n)]
    } else {
        decimal(n / 10) + seq![digit(n % 10)]
    }
}

/// Each route preceded by a slash, in order.
pub open spec fn routes_text(routes: Seq<Seq<char>>) -> Seq<char>
    decreases routes.len(),
{
    if routes.len() == 0 {
        Seq::empty()
    } else {
        routes_text(routes.drop_last()) + "/"@ + routes.last()
    }
}

/// `protocol://host[:port]/route/...`, the port left out when it is zero.
pub open spec fn url_text(protocol: Seq<char>, host: Seq<char>, port: u16, routes: Seq<Seq<char>>) -> Seq<char> {
    protocol + "://"@ + host + (if port == 0 {
        Seq::empty()
    } else {
        ":"@ + decimal(port as nat)
    }) + routes_text(routes)
}

/// The text of each string of `v`.
pub open spec fn texts(v: Seq<String>) -> Seq<Seq<char>> {
    v.map_values(|s: String| s@)
}

/// Relies on url_builder::URLBuilder: with no query parameters, `build` writes the
/// protocol, `://`, the host, `:` and the port unless it is zero, then `/` and each route.
#[verifier::external_body]
fn build_url(protocol: &str, host: &str, port: u16, routes: &Vec<String>) -> (r: String)
    ensures
        r@ == url_text(protocol@, host@, port, texts(routes@)),
{
    let mut ub = url_builder::URLBuilder::new();
    ub.set_protocol(protocol).set_host(host).set_port(port);
    for route in routes {
        ub.add_route(route);
    }
    ub.build()
}

/// The URL of `path` under the hub's versioned API: `https://<host>:8443/v1/<path...>`.
pub fn make_url(host: &str, path: &Vec<String>) -> (r: String)
    ensures
        r@ == url_text("https"@, host@, DIRIGERA_PORT, seq!["v1"@] + texts(path@)),
{
    let mut routes: Vec<String> = Vec::new();
    routes.push("v1".to_string());
    let mut i: usize = 0;
    while i < path.len()
        invariant
            0 <= i <= path@.len(),
            texts(routes@) == seq!["v1"@] + texts(path@.subrange(0, i as int)),
        decreases path@.len() - i,
    {
        let seg = path[i].clone();
        let ghost before = routes@;
        routes.push(seg);
        proof {
            assert(texts(routes@) =~= texts(before).push(path@[i as int]@));
            assert(texts(path@.subrange(0, i + 1)) =~= texts(path@.subrange(0, i as int)).push(
                path@[i as int]@,
            ));
        }
        i += 1;
    }
    proof {
        assert(path@.subrange(0, path@.len() as int) =~= path@);
        assert(texts(routes@) =~= seq!["v1"@] + texts(path@));
    }
    build_url("https", host, DIRIGERA_PORT, &routes)
}

/// The value of the `Authorization` header for `token`.
pub fn bearer_value(token: &str) -> (r: String)
    ensures
        r@ == "Bearer "@ + token@,
{
    let mut r = "Bearer ".to_string();
    r.append(token);
    r
}

} // verus!
