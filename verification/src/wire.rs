//! The text of the wire format: protocol versions, methods, status lines
//! and the numbers that frame a body.
use vstd::prelude::*;

verus! {

/// The protocol version named in a start line.
#[derive(Debug, Copy, Clone, PartialEq, Eq, Structural)]
pub enum Version {
    Http10,
    Http11,
}

/// A request method.
#[derive(Debug, Clone, PartialEq, Eq)]
pub enum Method {
    Options,
    Get,
    Post,
    Put,
    Delete,
    Head,
    Trace,
    Connect,
    Patch,
    /// Any other method, by its name.
    Extension(String),
}

/// The line terminator, `\r\n`.
pub open spec fn crlf() -> Seq<u8> {
    seq![13u8, 10u8]
}

/// A single space.
pub open spec fn space() -> Seq<u8> {
    seq![32u8]
}

/// `HTTP/1.0` or `HTTP/1.1`, in ASCII.
pub open spec fn version_bytes(v: Version) -> Seq<u8> {
    match v {
        Version::Http10 => seq![72u8, 84u8, 84u8, 80u8, 47u8, 49u8, 46u8, 48u8],
        Version::Http11 => seq![72u8, 84u8, 84u8, 80u8, 47u8, 49u8, 46u8, 49u8],
    }
}

/// The method's name in upper case ASCII; an extension method is its own
/// name, encoded as UTF-8.
pub open spec fn method_bytes(m: Method) -> Seq<u8> {
    match m {
        // OPTIONS
        Method::Options => seq![79u8, 80u8, 84u8, 73u8, 79u8, 78u8, 83u8],
        // GET
        Method::Get => seq![71u8, 69u8, 84u8],
        // POST
        Method::Post => seq![80u8, 79u8, 83u8, 84u8],
        // PUT
        Method::Put => seq![80u8, 85u8, 84u8],
        // DELETE
        Method::Delete => seq![68u8, 69u8, 76u8, 69u8, 84u8, 69u8],
        // HEAD
        Method::Head => seq![72u8, 69u8, 65u8, 68u8],
        // TRACE
        Method::Trace => seq![84u8, 82u8, 65u8, 67u8, 69u8],
        // CONNECT
        Method::Connect => seq![67u8, 79u8, 78u8, 78u8, 69u8, 67u8, 84u8],
        // PATCH
        Method::Patch => seq![80u8, 65u8, 84u8, 67u8, 72u8],
        Method::Extension(name) => vstd::utf8::encode_utf8(name@),
    }
}

/// What hyper prints for the status with this code: the code in decimal, a
/// space, and the reason phrase that hyper keeps for it.
pub uninterp spec fn status_text(code: u16) -> Seq<u8>;

/// `<version> <code> <reason>\r\n`.
pub open spec fn status_line(version: Version, code: u16) -> Seq<u8> {
    version_bytes(version) + space() + status_text(code) + crlf()
}

/// `<method> <target> <version>\r\n`.
pub open spec fn request_line_bytes(method: Method, target: Seq<u8>, version: Version) -> Seq<u8> {
    method_bytes(method) + space() + target + space() + version_bytes(version) + crlf()
}

/// The ASCII digit for a value below ten.
pub open spec fn decimal_digit(d: nat) -> u8 {
    (48 + d) as u8
}

/// `n` in decimal, without leading zeros.
pub open spec fn decimal(n: nat) -> Seq<u8>
    decreases n,
{
    if n < 10 {
        seq![decimal_digit(n)]
    } else {
        decimal(n / 10).push(decimal_digit(n % 10))
    }
}

/// The lower-case hexadecimal digit for a value below sixteen.
pub open spec fn hex_digit(d: nat) -> u8 {
    if d < 10 {
        (48 + d) as u8
    } else {
        (87 + d) as u8
    }
}

/// `n` in lower-case hexadecimal, without leading zeros.
pub open spec fn hex(n: nat) -> Seq<u8>
    decreases n,
{
    if n < 16 {
        seq![hex_digit(n)]
    } else {
        hex(n / 16).push(hex_digit(n % 16))
    }
}

/// The value of a hexadecimal digit, in either case; `None` for any other
/// byte.
pub open spec fn hex_digit_value(b: u8) -> Option<nat> {
    if 48 <= b <= 57 {
        Some((b - 48) as nat)
    } else if 97 <= b <= 102 {
        Some((b - 87) as nat)
    } else if 65 <= b <= 70 {
        Some((b - 55) as nat)
    } else {
        None
    }
}

/// The number that a run of hexadecimal digits stands for; `None` where a
/// byte is no digit. The empty run stands for zero.
pub open spec fn hex_value(digits: Seq<u8>) -> Option<nat>
    decreases digits.len(),
{
    if digits.len() == 0 {
        Some(0nat)
    } else {
        match (hex_value(digits.drop_last()), hex_digit_value(digits.last())) {
            (Some(high), Some(low)) => Some(high * 16 + low),
            _ => None,
        }
    }
}

/// Reading back the hexadecimal text of a number gives the number.
pub proof fn hex_round_trip(n: nat)
    ensures
        hex(n).len() > 0,
        hex_value(hex(n)) == Some(n),
        forall|i: int| 0 <= i < hex(n).len() ==> hex_digit_value(#[trigger] hex(n)[i]) is Some,
    decreases n,
{
    if n < 16 {
        let one = seq![hex_digit(n)];
        assert(one.drop_last() =~= Seq::<u8>::empty());
        assert(hex_value(one.drop_last()) == Some(0nat));
        assert(one.last() == hex_digit(n));
    } else {
        hex_round_trip(n / 16);
        let text = hex(n);
        assert(text.drop_last() =~= hex(n / 16));
        assert(text.last() == hex_digit(n % 16));
        assert((n / 16) * 16 + n % 16 == n);
    }
}

/// Appends `data` to `out`.
pub fn append(out: &mut Vec<u8>, data: &[u8])
    ensures
        final(out)@ == old(out)@ + data@,
{
    out.extend_from_slice(data);
    assert(out@ =~= old(out)@ + data@);
}

/// `n` in lower-case hexadecimal, as a chunk header carries it.
pub fn hex_text(n: usize) -> (text: Vec<u8>)
    ensures
        text@ == hex(n as nat),
    decreases n,
{
    let d: u8 = (n % 16) as u8;
    let digit: u8 = if d < 10 { 48 + d } else { 87 + d };
    if n < 16 {
        let mut text: Vec<u8> = Vec::new();
        text.push(digit);
        assert(text@ =~= hex(n as nat));
        text
    } else {
        let mut text = hex_text(n / 16);
        text.push(digit);
        text
    }
}

/// Calls the `Display` impl of hyper's `HttpVersion`, which prints
/// `HTTP/1.0` for `Http10` and `HTTP/1.1` for `Http11`.
#[verifier::external_body]
pub(crate) fn version_text(version: Version) -> (text: Vec<u8>)
    ensures
        text@ == version_bytes(version),
{
    let outside = match version {
        Version::Http10 => hyper::version::HttpVersion::Http10,
        Version::Http11 => hyper::version::HttpVersion::Http11,
    };
    format!("{}", outside).into_bytes()
}

/// Calls the `Display` impl of hyper's `Method`, which prints the upper-case
/// name of a standard method and the stored name of an extension method.
#[verifier::external_body]
pub(crate) fn method_text(method: &Method) -> (text: Vec<u8>)
    ensures
        text@ == method_bytes(*method),
{
    let outside = match method {
        Method::Options => hyper::method::Method::Options,
        Method::Get => hyper::method::Method::Get,
        Method::Post => hyper::method::Method::Post,
        Method::Put => hyper::method::Method::Put,
        Method::Delete => hyper::method::Method::Delete,
        Method::Head => hyper::method::Method::Head,
        Method::Trace => hyper::method::Method::Trace,
        Method::Connect => hyper::method::Method::Connect,
        Method::Patch => hyper::method::Method::Patch,
        Method::Extension(name) => hyper::method::Method::Extension(name.clone()),
    };
    format!("{}", outside).into_bytes()
}

/// Calls hyper's `StatusCode::from_u16` and prints the status with its
/// `Display` impl. The text depends on the code alone.
#[verifier::external_body]
pub(crate) fn status_text_of(code: u16) -> (text: Vec<u8>)
    ensures
        text@ == status_text(code),
{
    format!("{}", hyper::status::StatusCode::from_u16(code)).into_bytes()
}

} // verus!
