//! The head of a request: its request line and its headers, read from the
//! bytes that a client sent.
use vstd::prelude::*;
use hyper::method::Method as HyperMethod;
use crate::wire::{method_bytes, Method, Version};

verus! {

/// The most header lines that a request head may hold.
pub const MAX_HEADERS_NUM: usize = 256;

/// Status 400, Bad Request: the answer to a head that cannot be read.
pub const BAD_REQUEST: u16 = 400;

/// The target of a request.
#[derive(Debug, Clone, PartialEq, Eq)]
pub enum RequestUri {
    /// A path on the server, starting with `/`.
    AbsolutePath(String),
    /// A complete URL, in its normal form.
    AbsoluteUri(String),
    /// An authority, as `CONNECT` names one.
    Authority(String),
    /// `*`, the server as a whole.
    Star,
}

/// One header line: its name and its value.
#[derive(Debug, Clone, PartialEq, Eq)]
pub struct HeaderLine {
    pub name: String,
    pub value: Vec<u8>,
}

/// One header of a header set: its name and the values of every line that
/// carries the name.
#[derive(Debug, Clone, PartialEq, Eq)]
pub struct HeaderField {
    pub name: String,
    pub values: Vec<Vec<u8>>,
}

/// The pieces of a complete request head, as the tokenizer cut them.
#[derive(Debug, Clone, PartialEq, Eq)]
pub struct RequestTokens {
    /// How many bytes the head takes up.
    pub consumed: usize,
    /// The digit behind `HTTP/1.` in the request line.
    pub minor_version: u8,
    pub method: String,
    pub path: String,
    pub headers: Vec<HeaderLine>,
}

/// The head of a request.
#[derive(Debug, Clone, PartialEq, Eq)]
pub struct Head {
    pub version: Version,
    /// Whether the request came over a secure transport.
    pub https: bool,
    pub method: Method,
    pub uri: RequestUri,
    pub headers: Vec<HeaderField>,
}

/// The version that a request line's minor version digit stands for.
pub open spec fn version_of(minor: u8) -> Version {
    if minor == 1 {
        Version::Http11
    } else {
        Version::Http10
    }
}

/// What httparse's `Request::parse` makes of the bytes, with room for
/// `MAX_HEADERS_NUM` headers: the pieces of a complete head, or `None`.
pub uninterp spec fn tokens_of(data: Seq<u8>) -> Option<RequestTokens>;

/// What the `FromStr` impl of hyper's `Method` makes of a method name.
pub uninterp spec fn method_of(name: Seq<char>) -> Option<Method>;

/// What the `FromStr` impl of hyper's `RequestUri` makes of a request
/// target.
pub uninterp spec fn uri_of(path: Seq<char>) -> Option<RequestUri>;

/// The fields that hyper's `Headers::from_raw` makes of header lines, in
/// the order hyper keeps them.
pub uninterp spec fn fields_of(lines: Seq<HeaderLine>) -> Option<Vec<HeaderField>>;

/// Runs httparse's `Request::parse` on the bytes, with room for
/// `MAX_HEADERS_NUM` headers. Gives the pieces where httparse reports a
/// complete head, and `None` where it reports a partial head or an error,
/// too many headers among them. httparse never reads past the bytes it is
/// given and never fills more headers than it has room for.
#[verifier::external_body]
pub(crate) fn tokenize(data: &[u8]) -> (tokens: Option<RequestTokens>)
    ensures
        tokens == tokens_of(data@),
        tokens matches Some(found) ==> found.consumed <= data@.len() && found.headers@.len()
            <= MAX_HEADERS_NUM,
{
    let mut headers = [httparse::EMPTY_HEADER; MAX_HEADERS_NUM];
    let mut raw = httparse::Request::new(&mut headers);
    match raw.parse(data) {
        Ok(httparse::Status::Complete(consumed)) => Some(RequestTokens {
            consumed,
            minor_version: raw.version.unwrap(),
            method: raw.method.unwrap().to_string(),
            path: raw.path.unwrap().to_string(),
            headers: raw.headers.iter().map(|h| HeaderLine { name: h.name.to_string(), value: h.value.to_vec() }).collect(),
        }),
        Ok(httparse::Status::Partial) => None,
        Err(_) => None,
    }
}

/// The name, in UTF-8, is that of one of the nine standard methods.
pub open spec fn is_standard_method(name: Seq<u8>) -> bool {
    ||| name == method_bytes(Method::Options)
    ||| name == method_bytes(Method::Get)
    ||| name == method_bytes(Method::Post)
    ||| name == method_bytes(Method::Put)
    ||| name == method_bytes(Method::Delete)
    ||| name == method_bytes(Method::Head)
    ||| name == method_bytes(Method::Trace)
    ||| name == method_bytes(Method::Connect)
    ||| name == method_bytes(Method::Patch)
}

/// Parses a method name with the `FromStr` impl of hyper's `Method`. hyper
/// refuses the empty name and nothing else; it gives a standard method for
/// its upper-case name and an extension method, holding the name, for any
/// other, so that the method's text is the name again.
#[verifier::external_body]
pub(crate) fn parse_method(name: &str) -> (method: Option<Method>)
    ensures
        method == method_of(name@),
        method is None <==> name@.len() == 0,
        method matches Some(found) ==> method_bytes(found) == vstd::utf8::encode_utf8(name@),
        method matches Some(Method::Extension(other)) ==> other@ == name@ && !is_standard_method(
            vstd::utf8::encode_utf8(name@),
        ),
{
    let found: HyperMethod = name.parse().ok()?;
    Some(match found {
        HyperMethod::Options => Method::Options,
        HyperMethod::Get => Method::Get,
        HyperMethod::Post => Method::Post,
        HyperMethod::Put => Method::Put,
        HyperMethod::Delete => Method::Delete,
        HyperMethod::Head => Method::Head,
        HyperMethod::Trace => Method::Trace,
        HyperMethod::Connect => Method::Connect,
        HyperMethod::Patch => Method::Patch,
        HyperMethod::Extension(other) => Method::Extension(other),
    })
}

/// Parses a request target with the `FromStr` impl of hyper's `RequestUri`.
/// hyper refuses the empty target, reads `*` as `Star`, and keeps a target
/// that starts with `/` as an absolute path; an authority is kept as it was
/// written. Whether any other target is accepted is up to hyper's URL
/// parser.
#[verifier::external_body]
pub(crate) fn parse_uri(path: &str) -> (uri: Option<RequestUri>)
    ensures
        uri == uri_of(path@),
        path@.len() == 0 ==> uri is None,
        path@.len() > 0 && path@[0] == '/' ==> uri is Some,
        (uri matches Some(RequestUri::Star)) <==> path@ == seq!['*'],
        uri matches Some(RequestUri::AbsolutePath(kept)) ==> kept@ == path@ && path@.len() > 0
            && path@[0] == '/',
        uri matches Some(RequestUri::Authority(kept)) ==> kept@ == path@,
{
    match path.parse::<hyper::uri::RequestUri>() {
        Ok(hyper::uri::RequestUri::AbsolutePath(kept)) => Some(RequestUri::AbsolutePath(kept)),
        Ok(hyper::uri::RequestUri::AbsoluteUri(url)) => Some(RequestUri::AbsoluteUri(url.into_string())),
        Ok(hyper::uri::RequestUri::Authority(kept)) => Some(RequestUri::Authority(kept)),
        Ok(hyper::uri::RequestUri::Star) => Some(RequestUri::Star),
        Err(_) => None,
    }
}

/// Builds hyper's `Headers` from the header lines with `Headers::from_raw`
/// and hands its fields out in the order hyper keeps them. hyper makes one
/// field of the lines that share a name, so there are no more fields than
/// lines.
#[verifier::external_body]
pub(crate) fn header_set(lines: &Vec<HeaderLine>) -> (fields: Option<Vec<HeaderField>>)
    ensures
        fields == fields_of(lines@),
        fields matches Some(found) ==> found@.len() <= lines@.len(),
{
    let raw: Vec<httparse::Header> = lines.iter().map(|l| httparse::Header { name: &l.name, value: &l.value }).collect();
    match hyper::header::Headers::from_raw(&raw) {
        Ok(set) => Some(set.iter().map(|f| HeaderField {
            name: f.name().to_string(),
            values: set.get_raw(f.name()).unwrap().to_vec(),
        }).collect()),
        Err(_) => None,
    }
}

impl Head {
    /// What `assemble` gives: a head where the method, the target and the
    /// header set were all read, and `BAD_REQUEST` where one was not.
    pub open spec fn assembled(
        minor_version: u8,
        method: Option<Method>,
        uri: Option<RequestUri>,
        headers: Option<Vec<HeaderField>>,
    ) -> Result<Head, u16> {
        match (method, uri, headers) {
            (Some(method), Some(uri), Some(headers)) => Ok(
                Head { version: version_of(minor_version), https: false, method, uri, headers },
            ),
            _ => Err(BAD_REQUEST),
        }
    }

    /// The bytes hold nothing behind the head that the tokenizer finds in
    /// them.
    pub open spec fn nothing_behind(data: Seq<u8>) -> bool {
        tokens_of(data) matches Some(tokens) ==> tokens.consumed == data.len()
    }

    /// What `parse` gives for the bytes: what `assembled` makes of the
    /// tokenizer's pieces, and `BAD_REQUEST` where the tokenizer found no
    /// complete head.
    pub open spec fn parsed(data: Seq<u8>) -> Result<Head, u16> {
        match tokens_of(data) {
            Some(tokens) => Head::assembled(
                tokens.minor_version,
                method_of(tokens.method@),
                uri_of(tokens.path@),
                fields_of(tokens.headers@),
            ),
            None => Err(BAD_REQUEST),
        }
    }

    /// Puts a head together from the parts of a tokenized request, each as
    /// far as it could be read.
    pub fn assemble(
        minor_version: u8,
        method: Option<Method>,
        uri: Option<RequestUri>,
        headers: Option<Vec<HeaderField>>,
    ) -> (result: Result<Head, u16>)
        ensures
            result == Head::assembled(minor_version, method, uri, headers),
    {
        let version = if minor_version == 1 {
            Version::Http11
        } else {
            Version::Http10
        };
        match method {
            Some(method) => match uri {
                Some(uri) => match headers {
                    Some(headers) => Ok(Head { version, https: false, method, uri, headers }),
                    None => Err(BAD_REQUEST),
                },
                None => Err(BAD_REQUEST),
            },
            None => Err(BAD_REQUEST),
        }
    }

    /// Reads the head of a request from bytes that hold one head and
    /// nothing behind it. Whatever cannot be read as a head is answered
    /// with `BAD_REQUEST`: a head that is cut short or malformed, one with
    /// more than `MAX_HEADERS_NUM` header lines, an empty method, or a
    /// target that is no request target.
    pub fn parse(data: &[u8]) -> (result: Result<Head, u16>)
        requires
            Head::nothing_behind(data@),
        ensures
            result == Head::parsed(data@),
            result matches Err(code) ==> code == BAD_REQUEST,
            result matches Ok(head) ==> !head.https && head.headers@.len() <= MAX_HEADERS_NUM,
    {
        match tokenize(data) {
            Some(tokens) => {
                let method = parse_method(tokens.method.as_str());
                let uri = parse_uri(tokens.path.as_str());
                let headers = header_set(&tokens.headers);
                Head::assemble(tokens.minor_version, method, uri, headers)
            },
            None => Err(BAD_REQUEST),
        }
    }

    /// Reads the head of a request from any bytes: `None` where bytes
    /// follow the head, and what `parse` gives otherwise.
    pub fn parse_checked(data: &[u8]) -> (result: Option<Result<Head, u16>>)
        ensures
            result == if Head::nothing_behind(data@) {
                Some(Head::parsed(data@))
            } else {
                None
            },
            result matches Some(Err(code)) ==> code == BAD_REQUEST,
            result matches Some(Ok(head)) ==> !head.https && head.headers@.len()
                <= MAX_HEADERS_NUM,
    {
        match tokenize(data) {
            Some(tokens) => {
                if tokens.consumed != data.len() {
                    return None;
                }
            },
            None => {},
        }
        Some(Head::parse(data))
    }
}

} // verus!
