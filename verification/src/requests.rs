//! Request construction and parsing.
//!
//! The HTTP side builds complete GET and POST request texts.  The datagram
//! side uses a tiny framed format — a method tag, then path and host each
//! terminated by a zero byte, then any body — with a verified parser and
//! round-trip laws tying the two together.

use vstd::prelude::*;

use vstd::string::StringSliceAdditionalSpecFns;

use crate::scan::{copy_range, find_byte_from, first_index_of, starts_with_bytes};

verus! {

/// The decimal digit character for one digit value.
pub open spec fn digit_char(d: nat) -> char {
    if d == 0 {
        '0'
    } else if d == 1 {
        '1'
    } else if d == 2 {
        '2'
    } else if d == 3 {
        '3'
    } else if d == 4 {
        '4'
    } else if d == 5 {
        '5'
    } else if d == 6 {
        '6'
    } else if d == 7 {
        '7'
    } else if d == 8 {
        '8'
    } else {
        '9'
    }
}

/// The decimal rendering of a number, most significant digit first.
pub open spec fn dec_digits(n: nat) -> Seq<char>
    decreases n,
{
    if n < 10 {
        seq![digit_char(n)]
    } else {
        dec_digits(n / 10) + seq![digit_char(n % 10)]
    }
}

fn digit_string(d: u64) -> (r: String)
    requires
        d < 10,
    ensures
        r@ == seq![digit_char(d as nat)],
{
    let r = match d {
        0 => String::from_str("0"),
        1 => String::from_str("1"),
        2 => String::from_str("2"),
        3 => String::from_str("3"),
        4 => String::from_str("4"),
        5 => String::from_str("5"),
        6 => String::from_str("6"),
        7 => String::from_str("7"),
        8 => String::from_str("8"),
        _ => String::from_str("9"),
    };
    proof {
        reveal_strlit("0");
        reveal_strlit("1");
        reveal_strlit("2");
        reveal_strlit("3");
        reveal_strlit("4");
        reveal_strlit("5");
        reveal_strlit("6");
        reveal_strlit("7");
        reveal_strlit("8");
        reveal_strlit("9");
        assert(r@ =~= seq![digit_char(d as nat)]);
    }
    r
}

/// Render a number in decimal.
pub fn dec_string(n: u64) -> (r: String)
    ensures
        r@ == dec_digits(n as nat),
    decreases n,
{
    if n < 10 {
        digit_string(n)
    } else {
        let mut r = dec_string(n / 10);
        r.append(digit_string(n % 10).as_str());
        r
    }
}

/// The complete text of an HTTP GET request for the given host and path.
pub fn generate_get_request(host: &str, path: &str) -> (r: String)
    ensures
        r@ == "GET "@ + path@ + " HTTP/1.1\r\nHost: "@ + host@
            + "\r\nUser-Agent: Rust-TCP-Analyzer\r\nConnection: close\r\n\r\n"@,
{
    let mut r = String::from_str("GET ");
    r.append(path);
    r.append(" HTTP/1.1\r\nHost: ");
    r.append(host);
    r.append("\r\nUser-Agent: Rust-TCP-Analyzer\r\nConnection: close\r\n\r\n");
    r
}

/// The complete text of an HTTP POST request: the content length announced
/// in the header is exactly the byte length of the body.
pub fn generate_post_request(host: &str, path: &str, data: &str) -> (r: String)
    requires
        data.spec_bytes().len() <= usize::MAX,
    ensures
        r@ == "POST "@ + path@ + " HTTP/1.1\r\nHost: "@ + host@
            + "\r\nUser-Agent: Rust-TCP-Analyzer\r\nContent-Type: application/x-www-form-urlencoded\r\nContent-Length: "@
            + dec_digits(data.spec_bytes().len()) + "\r\nConnection: close\r\n\r\n"@ + data@,
{
    let mut r = String::from_str("POST ");
    r.append(path);
    r.append(" HTTP/1.1\r\nHost: ");
    r.append(host);
    r.append(
        "\r\nUser-Agent: Rust-TCP-Analyzer\r\nContent-Type: application/x-www-form-urlencoded\r\nContent-Length: ",
    );
    r.append(dec_string(data.len() as u64).as_str());
    r.append("\r\nConnection: close\r\n\r\n");
    r.append(data);
    r
}

/// The datagram method tag `GET`.
pub open spec fn get_tag() -> Seq<u8> {
    seq![71u8, 69u8, 84u8]
}

/// The datagram method tag `POST`.
pub open spec fn post_tag() -> Seq<u8> {
    seq![80u8, 79u8, 83u8, 84u8]
}

/// The framed GET datagram: tag, path, zero, host, zero.
pub open spec fn udp_get_packet(path: Seq<u8>, host: Seq<u8>) -> Seq<u8> {
    get_tag() + path + seq![0u8] + host + seq![0u8]
}

/// The framed POST datagram: tag, path, zero, host, zero, body.
pub open spec fn udp_post_packet(path: Seq<u8>, host: Seq<u8>, data: Seq<u8>) -> Seq<u8> {
    post_tag() + path + seq![0u8] + host + seq![0u8] + data
}

/// Build a GET datagram for the given host and path.
pub fn generate_udp_get_request(host: &str, path: &str) -> (r: Vec<u8>)
    ensures
        r@ == udp_get_packet(path.spec_bytes(), host.spec_bytes()),
{
    let mut r: Vec<u8> = Vec::new();
    r.push(71);
    r.push(69);
    r.push(84);
    r.extend_from_slice(path.as_bytes());
    r.push(0);
    r.extend_from_slice(host.as_bytes());
    r.push(0);
    proof {
        assert(r@ =~= udp_get_packet(path.spec_bytes(), host.spec_bytes()));
    }
    r
}

/// Build a POST datagram for the given host, path and body.
pub fn generate_udp_post_request(host: &str, path: &str, data: &str) -> (r: Vec<u8>)
    ensures
        r@ == udp_post_packet(path.spec_bytes(), host.spec_bytes(), data.spec_bytes()),
{
    let mut r: Vec<u8> = Vec::new();
    r.push(80);
    r.push(79);
    r.push(83);
    r.push(84);
    r.extend_from_slice(path.as_bytes());
    r.push(0);
    r.extend_from_slice(host.as_bytes());
    r.push(0);
    r.extend_from_slice(data.as_bytes());
    proof {
        assert(r@ =~= udp_post_packet(path.spec_bytes(), host.spec_bytes(), data.spec_bytes()));
    }
    r
}

/// What parsing a GET datagram yields: the path runs from the tag to the
/// first zero byte, the host from there to the next zero byte or the end.
/// Nothing is parsed without the tag and at least one zero byte.
pub open spec fn spec_parse_udp_get(p: Seq<u8>) -> Option<(Seq<u8>, Seq<u8>)> {
    if p.len() >= 3 && p.subrange(0, 3) == get_tag() {
        match first_index_of(p, 0, 0) {
            Some(z) => {
                let host_end = match first_index_of(p, 0, z + 1) {
                    Some(q) => q,
                    None => p.len() as int,
                };
                Some((p.subrange(3, z), p.subrange(z + 1, host_end)))
            },
            None => None,
        }
    } else {
        None
    }
}

/// Parse a GET datagram back into its path and host.
pub fn parse_udp_get(packet: &[u8]) -> (r: Option<(Vec<u8>, Vec<u8>)>)
    ensures
        match r {
            Some(pr) => spec_parse_udp_get(packet@) == Some((pr.0@, pr.1@)),
            None => spec_parse_udp_get(packet@) is None,
        },
{
    let tag: [u8; 3] = [71, 69, 84];
    proof {
        assert(tag@ =~= get_tag());
    }
    if !starts_with_bytes(packet, tag.as_slice()) {
        proof {
            if packet@.len() >= 3 {
                assert(packet@.subrange(0, 3) != get_tag());
            }
        }
        return None;
    }
    proof {
        assert(packet@.subrange(0, 3) =~= packet@.subrange(0, 3 as int));
    }
    let len = packet.len();
    match find_byte_from(packet, 0, 0) {
        Some(z) => {
            proof {
                assert(packet@.subrange(0, 3)[0] == packet@[0]);
                assert(packet@.subrange(0, 3)[1] == packet@[1]);
                assert(packet@.subrange(0, 3)[2] == packet@[2]);
                assert(packet@[0] != 0 && packet@[1] != 0 && packet@[2] != 0);
                assert(z >= 3);
            }
            let host_end = match find_byte_from(packet, 0, z + 1) {
                Some(q) => q,
                None => len,
            };
            let path = copy_range(packet, 3, z);
            let host = copy_range(packet, z + 1, host_end);
            Some((path, host))
        },
        None => None,
    }
}

/// What parsing a POST datagram yields: path, host and body are the first
/// three zero-separated parts after the tag; a missing part is empty.
pub open spec fn spec_parse_udp_post(p: Seq<u8>) -> Option<(Seq<u8>, Seq<u8>, Seq<u8>)> {
    if p.len() >= 5 && p.subrange(0, 4) == post_tag() {
        let path_end = match first_index_of(p, 0, 4) {
            Some(z) => z,
            None => p.len() as int,
        };
        let host_end = match first_index_of(p, 0, path_end + 1) {
            Some(z) => z,
            None => p.len() as int,
        };
        let data_end = match first_index_of(p, 0, host_end + 1) {
            Some(z) => z,
            None => p.len() as int,
        };
        Some(
            (
                p.subrange(4, path_end),
                p.subrange(if path_end < p.len() {
                    path_end + 1
                } else {
                    p.len() as int
                }, host_end),
                p.subrange(if host_end < p.len() {
                    host_end + 1
                } else {
                    p.len() as int
                }, data_end),
            ),
        )
    } else {
        None
    }
}

/// Parse a POST datagram back into its path, host and body.
pub fn parse_udp_post(packet: &[u8]) -> (r: Option<(Vec<u8>, Vec<u8>, Vec<u8>)>)
    ensures
        match r {
            Some(pr) => spec_parse_udp_post(packet@) == Some((pr.0@, pr.1@, pr.2@)),
            None => spec_parse_udp_post(packet@) is None,
        },
{
    let tag: [u8; 4] = [80, 79, 83, 84];
    proof {
        assert(tag@ =~= post_tag());
    }
    if packet.len() < 5 || !starts_with_bytes(packet, tag.as_slice()) {
        proof {
            if packet@.len() >= 5 {
                assert(packet@.subrange(0, 4) != post_tag());
            }
        }
        return None;
    }
    proof {
        assert(packet@.subrange(0, 4) =~= packet@.subrange(0, 4 as int));
    }
    let len = packet.len();
    let path_end = match find_byte_from(packet, 0, 4) {
        Some(z) => z,
        None => len,
    };
    let host_start = if path_end < len {
        path_end + 1
    } else {
        len
    };
    let host_end = match find_byte_from(packet, 0, host_start) {
        Some(z) => z,
        None => len,
    };
    let data_start = if host_end < len {
        host_end + 1
    } else {
        len
    };
    let data_end = match find_byte_from(packet, 0, data_start) {
        Some(z) => z,
        None => len,
    };
    let path = copy_range(packet, 4, path_end);
    let host = copy_range(packet, host_start, host_end);
    let data = copy_range(packet, data_start, data_end);
    Some((path, host, data))
}

/// Round trip for GET datagrams: a packet built from a zero-free path and
/// host parses back to exactly that path and host.
pub proof fn lemma_udp_get_round_trip(path: Seq<u8>, host: Seq<u8>)
    requires
        forall|i: int| 0 <= i < path.len() ==> path[i] != 0,
        forall|i: int| 0 <= i < host.len() ==> host[i] != 0,
    ensures
        spec_parse_udp_get(udp_get_packet(path, host)) == Some((path, host)),
{
    let p = udp_get_packet(path, host);
    let z = 3 + path.len() as int;
    let q = z + 1 + host.len() as int;
    assert(p.len() == 5 + path.len() + host.len());
    assert(p.subrange(0, 3) =~= get_tag());
    assert(p[z] == 0);
    assert(forall|j: int| 0 <= j < z ==> p[j] != 0);
    crate::scan::lemma_first_index_of_hit(p, 0, 0, z);
    assert(p[q] == 0);
    assert(forall|j: int| z + 1 <= j < q ==> p[j] != 0);
    crate::scan::lemma_first_index_of_hit(p, 0, z + 1, q);
    assert(p.subrange(3, z) =~= path);
    assert(p.subrange(z + 1, q) =~= host);
}

/// Round trip for POST datagrams: a packet built from a zero-free path,
/// host and body parses back to exactly those parts.
pub proof fn lemma_udp_post_round_trip(path: Seq<u8>, host: Seq<u8>, data: Seq<u8>)
    requires
        forall|i: int| 0 <= i < path.len() ==> path[i] != 0,
        forall|i: int| 0 <= i < host.len() ==> host[i] != 0,
        forall|i: int| 0 <= i < data.len() ==> data[i] != 0,
    ensures
        spec_parse_udp_post(udp_post_packet(path, host, data)) == Some((path, host, data)),
{
    let p = udp_post_packet(path, host, data);
    let z1 = 4 + path.len() as int;
    let z2 = z1 + 1 + host.len() as int;
    assert(p.len() == 6 + path.len() + host.len() + data.len());
    assert(p.subrange(0, 4) =~= post_tag());
    assert(p[z1] == 0);
    assert(forall|j: int| 4 <= j < z1 ==> p[j] != 0);
    crate::scan::lemma_first_index_of_hit(p, 0, 4, z1);
    assert(p[z2] == 0);
    assert(forall|j: int| z1 + 1 <= j < z2 ==> p[j] != 0);
    crate::scan::lemma_first_index_of_hit(p, 0, z1 + 1, z2);
    assert(forall|j: int| z2 + 1 <= j < p.len() ==> p[j] != 0);
    crate::scan::lemma_first_index_of_miss(p, 0, z2 + 1);
    assert(p.subrange(4, z1) =~= path);
    assert(p.subrange(z1 + 1, z2) =~= host);
    assert(p.subrange(z2 + 1, p.len() as int) =~= data);
}

} // verus!
