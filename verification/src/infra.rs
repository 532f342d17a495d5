//! The small HTTP endpoint that answers health checks.
use vstd::prelude::*;
use crate::text::{concat2, decimal_spec, decimal_string, owned, parse_u64_spec, parse_u64_str};

verus! {

/// The port listened on: the value of `PORT` when it parses as a `u16`, else 3000.
pub open spec fn port_spec(configured: Option<Seq<char>>) -> u16 {
    match configured {
        Some(v) => match parse_u64_spec(v) {
            Some(p) => if p <= 65535 {
                p as u16
            } else {
                3000
            },
            None => 3000,
        },
        None => 3000,
    }
}

/// Picks the port to listen on.
pub fn stub_port(configured: Option<&str>) -> (r: u16)
    ensures
        r == port_spec(
            match configured {
                Some(v) => Some(v@),
                None => None,
            },
        ),
{
    match configured {
        Some(v) => match parse_u64_str(v) {
            Some(p) => if p <= 65535 {
                p as u16
            } else {
                3000
            },
            None => 3000,
        },
        None => 3000,
    }
}

/// The address listened on.
pub fn stub_address(port: u16) -> (r: String)
    ensures
        r@ == "0.0.0.0:"@ + decimal_spec(port as nat),
{
    concat2("0.0.0.0:", decimal_string(port as u64).as_str())
}

/// The request lines answered as healthy, as ASCII bytes: `GET / ` and `GET /health `.
pub open spec fn health_prefixes() -> Seq<Seq<u8>> {
    seq![
        seq![71, 69, 84, 32, 47, 32],
        seq![71, 69, 84, 32, 47, 104, 101, 97, 108, 116, 104, 32],
    ]
}

/// Whether a request begins with one of the [`health_prefixes`].
pub open spec fn is_health_spec(request: Seq<u8>) -> bool {
    exists|i: int|
        0 <= i < 2 && request.len() >= health_prefixes()[i].len() && request.take(
            health_prefixes()[i].len() as int,
        ) == #[trigger] health_prefixes()[i]
}

/// The full HTTP response to a request that was read: `200 OK` for a health check, else
/// `404 Not Found`, each with its JSON body.
pub open spec fn stub_response_spec(request: Seq<u8>) -> Seq<char> {
    if is_health_spec(request) {
        "HTTP/1.1 200 OK\r\nContent-Type: application/json\r\nContent-Length: 38\r\nConnection: close\r\n\r\n{\"ok\":true,\"service\":\"neutrobot-rust\"}"@
    } else {
        "HTTP/1.1 404 Not Found\r\nContent-Type: application/json\r\nContent-Length: 32\r\nConnection: close\r\n\r\n{\"ok\":false,\"error\":\"not_found\"}"@
    }
}

fn starts_with_bytes(v: &[u8], pat: &[u8]) -> (r: bool)
    ensures
        r == (v@.len() >= pat@.len() && v@.take(pat@.len() as int) == pat@),
{
    if v.len() < pat.len() {
        return false;
    }
    let mut i: usize = 0;
    while i < pat.len()
        invariant
            i <= pat@.len() <= v@.len(),
            forall|j: int| 0 <= j < i ==> v@[j] == pat@[j],
        decreases pat@.len() - i,
    {
        if v[i] != pat[i] {
            assert(v@.take(pat@.len() as int)[i as int] != pat@[i as int]);
            return false;
        }
        i = i + 1;
    }
    assert(v@.take(pat@.len() as int) =~= pat@);
    true
}

/// The answer to the bytes read from a connection; none when nothing was read.
pub fn stub_response(request: &[u8]) -> (r: Option<String>)
    ensures
        request@.len() == 0 ==> r is None,
        request@.len() > 0 ==> (r matches Some(x) && x@ == stub_response_spec(request@)),
{
    if request.len() == 0 {
        return None;
    }
    let a: [u8; 6] = [71, 69, 84, 32, 47, 32];
    let b: [u8; 12] = [71, 69, 84, 32, 47, 104, 101, 97, 108, 116, 104, 32];
    assert(a@ =~= health_prefixes()[0]);
    assert(b@ =~= health_prefixes()[1]);
    let healthy = starts_with_bytes(request, &a) || starts_with_bytes(request, &b);
    if healthy {
        Some(owned("HTTP/1.1 200 OK\r\nContent-Type: application/json\r\nContent-Length: 38\r\nConnection: close\r\n\r\n{\"ok\":true,\"service\":\"neutrobot-rust\"}"))
    } else {
        assert(!is_health_spec(request@)) by {
            if is_health_spec(request@) {
                let i = choose|i: int|
                    0 <= i < 2 && request@.len() >= health_prefixes()[i].len() && request@.take(
                        health_prefixes()[i].len() as int,
                    ) == #[trigger] health_prefixes()[i];
                assert(i == 0 || i == 1);
            }
        }
        Some(owned("HTTP/1.1 404 Not Found\r\nContent-Type: application/json\r\nContent-Length: 32\r\nConnection: close\r\n\r\n{\"ok\":false,\"error\":\"not_found\"}"))
    }
}

} // verus!
