//! The few fixed pieces of HTTP the readiness probe needs: the service
//! URL, the text of a HEAD request, and reading the status code out of the
//! response's first line. Sending and receiving the bytes is the
//! surrounding program's work.

use vstd::prelude::*;
use vstd::slice::slice_index_get;
use crate::text::{dec_chars, push_decimal};

verus! {

/// The URL the launched service answers on: loopback at the chosen port.
pub open spec fn service_url_chars(port: u16) -> Seq<char> {
    "http://127.0.0.1:"@ + dec_chars(port as nat)
}

/// Builds the service URL for a port.
pub fn service_url(port: u16) -> (r: String)
    ensures
        r@ == service_url_chars(port),
{
    let mut s = String::from_str("http://127.0.0.1:");
    push_decimal(&mut s, port as u64);
    s
}

/// The text of a HEAD request for the root document, addressed to the
/// given host and port, on a connection that closes after the answer.
pub fn head_request(host: &str, port: u16) -> (r: String)
    ensures
        r@ == "HEAD / HTTP/1.1\r\nHost: "@ + host@ + ":"@ + dec_chars(port as nat)
            + "\r\nConnection: close\r\n\r\n"@,
{
    let mut s = String::from_str("HEAD / HTTP/1.1\r\nHost: ");
    s.append(host);
    s.append(":");
    push_decimal(&mut s, port as u64);
    s.append("\r\nConnection: close\r\n\r\n");
    s
}

/// An ASCII decimal digit.
pub open spec fn is_digit(b: u8) -> bool {
    48 <= b <= 57
}

/// Index of the first space in `s` at or after `i`, or the length of `s`
/// when there is none.
pub open spec fn space_at(s: Seq<u8>, i: int) -> int
    recommends
        0 <= i <= s.len(),
    decreases s.len() - i,
        when 0 <= i <= s.len()
{
    if i >= s.len() {
        s.len() as int
    } else if s[i] == 32 {
        i
    } else {
        space_at(s, i + 1)
    }
}

/// The status code of an HTTP response line: the value of the three
/// decimal digits right after the first space, when the line has that
/// shape, and nothing otherwise.
pub open spec fn status_of_line(s: Seq<u8>) -> Option<u16> {
    let i = space_at(s, 0);
    if i + 4 <= s.len() && is_digit(s[i + 1]) && is_digit(s[i + 2]) && is_digit(s[i + 3]) {
        Some((((s[i + 1] - 48) * 100 + (s[i + 2] - 48) * 10 + (s[i + 3] - 48)) as u16))
    } else {
        None
    }
}

/// Reads the status code out of a response's first line.
pub fn parse_status_line(line: &[u8]) -> (r: Option<u16>)
    ensures
        r == status_of_line(line@),
{
    let n: usize = line.len();
    let mut i: usize = 0;
    while i < n && *slice_index_get(line, i) != 32u8
        invariant
            0 <= i <= n,
            n == line@.len(),
            space_at(line@, 0) == space_at(line@, i as int),
        decreases n - i,
    {
        i = i + 1;
    }
    if n >= 4 && i <= n - 4 {
        let d1: u8 = *slice_index_get(line, i + 1);
        let d2: u8 = *slice_index_get(line, i + 2);
        let d3: u8 = *slice_index_get(line, i + 3);
        if 48 <= d1 && d1 <= 57 && 48 <= d2 && d2 <= 57 && 48 <= d3 && d3 <= 57 {
            let code: u16 = (d1 - 48) as u16 * 100 + (d2 - 48) as u16 * 10 + (d3 - 48) as u16;
            Some(code)
        } else {
            None
        }
    } else {
        None
    }
}

/// A success-class status: the probe treats exactly these as ready.
pub open spec fn spec_is_success_code(code: u16) -> bool {
    200 <= code < 300
}

/// Whether a status code is success-class.
pub fn is_success_code(code: u16) -> (r: bool)
    ensures
        r == spec_is_success_code(code),
{
    200 <= code && code < 300
}

} // verus!
