//! Headers as the framing rules see them: a declared length, a list of
//! transfer encodings, or anything else.
use vstd::prelude::*;
use crate::wire::{crlf, decimal};

verus! {

/// One transfer encoding.
#[derive(Debug, Clone, PartialEq, Eq)]
pub enum Encoding {
    Chunked,
    Gzip,
    Deflate,
    Compress,
    Identity,
    /// An encoding that has no variant of its own, by its name.
    EncodingExt(String),
}

/// A header to be added to a message.
#[derive(Debug, Clone, PartialEq, Eq)]
pub enum Header {
    /// `Content-Length`, with the length of the body in bytes.
    ContentLength(u64),
    /// `Transfer-Encoding`, with the encodings in the order they are applied.
    TransferEncoding(Vec<Encoding>),
    /// Any other header, with its name and its value as they go on the wire.
    Other { name: Vec<u8>, value: Vec<u8> },
}

/// What a header means for the framing of the body.
#[derive(Debug, Copy, Clone, PartialEq, Eq, Structural)]
pub enum HeaderKind {
    /// It declares the body's length.
    Length(u64),
    /// It declares chunked transfer encoding and nothing else.
    Chunked,
    /// It declares a transfer encoding other than chunked alone.
    UnknownEncoding,
    /// It says nothing about framing.
    Opaque,
}

/// The list holds `Chunked` and nothing else.
pub open spec fn only_chunked(encodings: Seq<Encoding>) -> bool {
    encodings.len() == 1 && encodings[0] is Chunked
}

/// `Content-Length`, in ASCII.
pub open spec fn content_length_name() -> Seq<u8> {
    seq![67u8, 111u8, 110u8, 116u8, 101u8, 110u8, 116u8, 45u8, 76u8, 101u8, 110u8, 103u8, 116u8, 104u8]
}

/// `Transfer-Encoding`, in ASCII.
pub open spec fn transfer_encoding_name() -> Seq<u8> {
    seq![
        84u8, 114u8, 97u8, 110u8, 115u8, 102u8, 101u8, 114u8, 45u8, 69u8, 110u8, 99u8, 111u8, 100u8, 105u8, 110u8, 103u8,
    ]
}

/// `chunked`, in ASCII.
pub open spec fn chunked_token() -> Seq<u8> {
    seq![99u8, 104u8, 117u8, 110u8, 107u8, 101u8, 100u8]
}

/// `: `, between a header's name and its value.
pub open spec fn name_separator() -> Seq<u8> {
    seq![58u8, 32u8]
}

impl Header {
    /// The framing meaning of this header.
    pub open spec fn spec_kind(self) -> HeaderKind {
        match self {
            Header::ContentLength(n) => HeaderKind::Length(n),
            Header::TransferEncoding(encodings) => if only_chunked(encodings@) {
                HeaderKind::Chunked
            } else {
                HeaderKind::UnknownEncoding
            },
            Header::Other { .. } => HeaderKind::Opaque,
        }
    }

    /// The header line as it is written once the header is accepted:
    /// `<Name>: <value>\r\n`.
    pub open spec fn line(self) -> Seq<u8> {
        match self {
            Header::ContentLength(n) => content_length_name() + name_separator() + decimal(
                n as nat,
            ) + crlf(),
            Header::TransferEncoding(_) => transfer_encoding_name() + name_separator()
                + chunked_token() + crlf(),
            Header::Other { name, value } => name@ + name_separator() + value@ + crlf(),
        }
    }

    /// Classifies the header for the framing rules.
    pub fn kind(&self) -> (kind: HeaderKind)
        ensures
            kind == self.spec_kind(),
    {
        match self {
            Header::ContentLength(n) => HeaderKind::Length(*n),
            Header::TransferEncoding(encodings) => {
                if encodings.len() == 1 {
                    match &encodings[0] {
                        Encoding::Chunked => HeaderKind::Chunked,
                        _ => HeaderKind::UnknownEncoding,
                    }
                } else {
                    HeaderKind::UnknownEncoding
                }
            },
            Header::Other { .. } => HeaderKind::Opaque,
        }
    }
}

/// The name of hyper's `ContentLength` header, from its `header_name`.
#[verifier::external_body]
pub(crate) fn content_length_name_text() -> (text: Vec<u8>)
    ensures
        text@ == content_length_name(),
{
    <hyper::header::ContentLength as hyper::header::Header>::header_name().as_bytes().to_vec()
}

/// The value of hyper's `ContentLength` header with the given length, as
/// hyper's `HeaderFormatter` prints it: the length in decimal.
#[verifier::external_body]
pub(crate) fn content_length_value_text(length: u64) -> (text: Vec<u8>)
    ensures
        text@ == decimal(length as nat),
{
    format!("{}", hyper::header::HeaderFormatter(&hyper::header::ContentLength(length))).into_bytes()
}

/// The name of hyper's `TransferEncoding` header, from its `header_name`.
#[verifier::external_body]
pub(crate) fn transfer_encoding_name_text() -> (text: Vec<u8>)
    ensures
        text@ == transfer_encoding_name(),
{
    <hyper::header::TransferEncoding as hyper::header::Header>::header_name().as_bytes().to_vec()
}

/// The value of hyper's `TransferEncoding` header that lists `Chunked`
/// alone, as hyper's `HeaderFormatter` prints it: `chunked`.
#[verifier::external_body]
pub(crate) fn chunked_value_text() -> (text: Vec<u8>)
    ensures
        text@ == chunked_token(),
{
    let outside = hyper::header::TransferEncoding(vec![hyper::header::Encoding::Chunked]);
    format!("{}", hyper::header::HeaderFormatter(&outside)).into_bytes()
}

} // verus!
