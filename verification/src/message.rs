//! The framing state machine of one message, and the buffer it writes to.
use vstd::prelude::*;
use crate::body::{response_body, Body};
use crate::header::{
    chunked_value_text, content_length_name_text, content_length_value_text,
    name_separator, transfer_encoding_name_text, Header, HeaderKind,
};
use crate::wire::{
    append, crlf, hex, hex_text, method_text, request_line_bytes, space, status_text,
    status_text_of, version_bytes, version_text, Method, Version,
};

verus! {

/// A combination of headers that leaves the framing of the body in doubt.
#[derive(Debug, Copy, Clone, PartialEq, Eq, Structural)]
pub enum HeaderError {
    /// Content-Length is added twice.
    DuplicateContentLength,
    /// Transfer-Encoding is added twice.
    DuplicateTransferEncoding,
    /// Transfer-Encoding is added when Content-Length is already there.
    TransferEncodingAfterContentLength,
    /// Content-Length is added after Transfer-Encoding.
    ContentLengthAfterTransferEncoding,
    /// A Transfer-Encoding other than chunked alone.
    UnknownTransferEncoding,
    /// Neither Content-Length nor Transfer-Encoding is among the headers.
    CantDetermineBodySize,
}

impl HeaderError {
    /// What went wrong, in words.
    pub open spec fn spec_description(self) -> Seq<char> {
        match self {
            HeaderError::DuplicateContentLength => "Content-Length is added twice"@,
            HeaderError::DuplicateTransferEncoding => "Transfer-Encoding is added twice"@,
            HeaderError::TransferEncodingAfterContentLength =>
                "Transfer encoding added when Content-Length is already specified"@,
            HeaderError::ContentLengthAfterTransferEncoding =>
                "Content-Length added after Transfer-Encoding"@,
            HeaderError::UnknownTransferEncoding =>
                "Unknown Transfer-Encoding, only chunked is supported"@,
            HeaderError::CantDetermineBodySize =>
                "Neither Content-Length nor TransferEncoding is present in the headers"@,
        }
    }

    /// What went wrong, in words.
    pub fn description(&self) -> (text: &'static str)
        ensures
            text@ == self.spec_description(),
    {
        match self {
            HeaderError::DuplicateContentLength => "Content-Length is added twice",
            HeaderError::DuplicateTransferEncoding => "Transfer-Encoding is added twice",
            HeaderError::TransferEncodingAfterContentLength =>
                "Transfer encoding added when Content-Length is already specified",
            HeaderError::ContentLengthAfterTransferEncoding =>
                "Content-Length added after Transfer-Encoding",
            HeaderError::UnknownTransferEncoding =>
                "Unknown Transfer-Encoding, only chunked is supported",
            HeaderError::CantDetermineBodySize =>
                "Neither Content-Length nor TransferEncoding is present in the headers",
        }
    }
}

/// Where a message stands between its start line and its end.
#[derive(Debug, Copy, Clone, PartialEq, Eq, Structural)]
pub enum MessageState {
    /// Nothing has been written; a status line comes next.
    ResponseStart { version: Version, body: Body },
    /// Nothing has been written; a request line comes next.
    RequestStart,
    /// The start line is in the buffer; headers may follow.
    Headers { body: Body, chunked: bool, request: bool, content_length: Option<u64> },
    /// The headers are closed and the message has no body.
    ZeroBodyMessage,
    /// The headers are closed and the body they describe is not sent.
    IgnoredBody,
    /// The headers are closed; this many bytes of the body are still owed.
    FixedSizeBody(u64),
    /// The headers are closed; the body goes out in chunks.
    ChunkedBody,
    /// The message is complete.
    Done,
}

/// The terminating chunk, `0\r\n`.
pub open spec fn last_chunk() -> Seq<u8> {
    seq![48u8, 13u8, 10u8]
}

/// One chunk on the wire: the length in hexadecimal, `\r\n`, the bytes.
pub open spec fn chunk(data: Seq<u8>) -> Seq<u8> {
    hex(data.len()) + crlf() + data
}

impl MessageState {
    /// Headers may be added in this state.
    pub open spec fn in_headers(self) -> bool {
        self is Headers
    }

    /// The headers seen so far do not declare both a length and chunking.
    pub open spec fn consistent(self) -> bool {
        match self {
            MessageState::Headers { chunked, content_length, .. } => !(chunked
                && content_length is Some),
            _ => true,
        }
    }

    /// The error that adding a header of this kind gives in this state, if
    /// any.
    pub open spec fn conflict(self, kind: HeaderKind) -> Option<HeaderError> {
        match (self, kind) {
            (MessageState::Headers { chunked, content_length, .. }, HeaderKind::Length(_)) => {
                if chunked {
                    Some(HeaderError::ContentLengthAfterTransferEncoding)
                } else if content_length is Some {
                    Some(HeaderError::DuplicateContentLength)
                } else {
                    None
                }
            },
            (MessageState::Headers { chunked, content_length, .. }, HeaderKind::Chunked) => {
                if content_length is Some {
                    Some(HeaderError::TransferEncodingAfterContentLength)
                } else if chunked {
                    Some(HeaderError::DuplicateTransferEncoding)
                } else {
                    None
                }
            },
            (_, HeaderKind::UnknownEncoding) => Some(HeaderError::UnknownTransferEncoding),
            _ => None,
        }
    }

    /// The state after a header of this kind has been accepted.
    pub open spec fn with_header(self, kind: HeaderKind) -> MessageState {
        match (self, kind) {
            (
                MessageState::Headers { body, chunked, request, content_length },
                HeaderKind::Length(n),
            ) => MessageState::Headers { body, chunked, request, content_length: Some(n) },
            (
                MessageState::Headers { body, chunked, request, content_length },
                HeaderKind::Chunked,
            ) => MessageState::Headers { body, chunked: true, request, content_length },
            _ => self,
        }
    }

    /// The headers can be closed: the state holds headers, and a message
    /// that may have a body does not declare both a length and chunking.
    pub open spec fn can_close_headers(self) -> bool {
        match self {
            MessageState::Headers { body, chunked, content_length, .. } => !(body == Body::Normal
                && chunked && content_length is Some),
            _ => false,
        }
    }

    /// How the body is framed once the headers are closed: the next state
    /// and whether a body is expected, or the reason why the framing cannot
    /// be told.
    pub open spec fn framing(self) -> Result<(MessageState, bool), HeaderError> {
        match self {
            MessageState::Headers { body: Body::Ignored, .. } => Ok(
                (MessageState::IgnoredBody, false),
            ),
            MessageState::Headers { body: Body::Denied, .. } => Ok(
                (MessageState::ZeroBodyMessage, false),
            ),
            MessageState::Headers { content_length: Some(n), .. } => Ok(
                (MessageState::FixedSizeBody(n), true),
            ),
            MessageState::Headers { chunked: true, .. } => Ok((MessageState::ChunkedBody, true)),
            MessageState::Headers { request: true, .. } => Ok(
                (MessageState::ZeroBodyMessage, false),
            ),
            _ => Err(HeaderError::CantDetermineBodySize),
        }
    }

    /// Body bytes of this length may be written in this state.
    pub open spec fn accepts_body(self, len: nat) -> bool {
        match self {
            MessageState::ZeroBodyMessage => len == 0,
            MessageState::FixedSizeBody(remaining) => len <= remaining,
            MessageState::ChunkedBody => true,
            _ => false,
        }
    }

    /// The bytes that writing `data` as body puts on the wire.
    pub open spec fn body_bytes(self, data: Seq<u8>) -> Seq<u8> {
        match self {
            MessageState::FixedSizeBody(_) => data,
            MessageState::ChunkedBody => chunk(data),
            _ => Seq::<u8>::empty(),
        }
    }

    /// The state after body bytes of this length have been written.
    pub open spec fn after_body(self, len: nat) -> MessageState {
        match self {
            MessageState::FixedSizeBody(remaining) => MessageState::FixedSizeBody(
                (remaining - len) as u64,
            ),
            _ => self,
        }
    }

    /// The message can be completed in this state.
    pub open spec fn can_complete(self) -> bool {
        match self {
            MessageState::ChunkedBody => true,
            MessageState::FixedSizeBody(remaining) => remaining == 0,
            MessageState::ZeroBodyMessage => true,
            MessageState::IgnoredBody => true,
            MessageState::Done => true,
            _ => false,
        }
    }

    /// The bytes that completing the message puts on the wire.
    pub open spec fn closing_bytes(self) -> Seq<u8> {
        match self {
            MessageState::ChunkedBody => last_chunk(),
            _ => Seq::<u8>::empty(),
        }
    }

    /// Binds the state to the buffer that the message is written to.
    pub fn with<'x>(self, out_buf: &'x mut Vec<u8>) -> (message: Message<'x>)
        ensures
            message@ == (MessageView { state: self, bytes: old(out_buf)@ }),
            *final(message.0) == *final(out_buf),
    {
        Message(out_buf, self)
    }
}

/// A message as the contracts see it: its state and every byte in its
/// buffer.
pub struct MessageView {
    pub state: MessageState,
    pub bytes: Seq<u8>,
}

impl MessageView {
    /// The same message with more bytes written and in a new state.
    pub open spec fn emit(self, state: MessageState, more: Seq<u8>) -> MessageView {
        MessageView { state, bytes: self.bytes + more }
    }

    /// After a status line with the given status text.
    pub open spec fn status_written(self, code: u16, text: Seq<u8>) -> MessageView {
        match self.state {
            MessageState::ResponseStart { version, body } => self.emit(
                MessageState::Headers {
                    body: response_body(body, code),
                    chunked: false,
                    request: false,
                    content_length: None,
                },
                version_bytes(version) + space() + text + crlf(),
            ),
            _ => self,
        }
    }

    /// After the status line of the given status.
    pub open spec fn response_status(self, code: u16) -> MessageView {
        self.status_written(code, status_text(code))
    }

    /// After a request line.
    pub open spec fn request_line(self, method: Method, target: Seq<u8>, version: Version)
        -> MessageView {
        self.emit(
            MessageState::Headers {
                body: Body::Normal,
                chunked: false,
                request: true,
                content_length: None,
            },
            request_line_bytes(method, target, version),
        )
    }

    /// After an attempt to add a header: unchanged where the header
    /// conflicts with those before it, else with the header's line written
    /// and its meaning recorded.
    pub open spec fn add_header(self, header: Header) -> MessageView {
        if self.state.conflict(header.spec_kind()) is Some {
            self
        } else {
            self.emit(self.state.with_header(header.spec_kind()), header.line())
        }
    }

    /// After the headers are closed: the blank line is written in any case.
    pub open spec fn done_headers(self) -> MessageView {
        match self.state.framing() {
            Ok((next, _)) => self.emit(next, crlf()),
            Err(_) => self.emit(self.state, crlf()),
        }
    }

    /// After body bytes are written.
    pub open spec fn write_body(self, data: Seq<u8>) -> MessageView {
        self.emit(self.state.after_body(data.len()), self.state.body_bytes(data))
    }

    /// After the message is completed.
    pub open spec fn done(self) -> MessageView {
        self.emit(MessageState::Done, self.state.closing_bytes())
    }
}

/// A request or a response in the making: the buffer it is written to and
/// the state of its framing. A message stays bound to the buffer it was
/// given: every operation says so by leaving the buffer's final value as it
/// was promised, so that once the message is gone the buffer holds what the
/// message last held.
pub struct Message<'a>(pub &'a mut Vec<u8>, pub MessageState);

impl<'a> View for Message<'a> {
    type V = MessageView;

    open spec fn view(&self) -> MessageView {
        MessageView { state: self.1, bytes: (*self.0)@ }
    }
}

impl<'a> Message<'a> {
    /// Writes the status line of a response.
    pub fn response_status(&mut self, code: u16)
        requires
            old(self)@.state is ResponseStart,
        ensures
            final(self)@ == old(self)@.response_status(code),
            *final(final(self).0) == *final(old(self).0),
    {
        let text = status_text_of(code);
        self.status_line(code, text.as_slice());
    }

    /// Writes a status line with the given status text, and settles whether
    /// the response may have a body.
    pub fn status_line(&mut self, code: u16, text: &[u8])
        requires
            old(self)@.state is ResponseStart,
        ensures
            final(self)@ == old(self)@.status_written(code, text@),
            *final(final(self).0) == *final(old(self).0),
    {
        match self.1 {
            MessageState::ResponseStart { version, body } => {
                let version_name = version_text(version);
                append(self.0, version_name.as_slice());
                self.0.push(32u8);
                append(self.0, text);
                self.0.push(13u8);
                self.0.push(10u8);
                self.1 = MessageState::Headers {
                    body: body.after_status(code),
                    chunked: false,
                    request: false,
                    content_length: None,
                };
                assert(self@.bytes =~= old(self)@.bytes + (version_bytes(version) + space() + text@
                    + crlf()));
            },
            _ => {},
        }
    }

    /// Writes the request line of a request.
    pub fn request_line(&mut self, method: Method, uri: &str, version: Version)
        requires
            old(self)@.state is RequestStart,
        ensures
            final(self)@ == old(self)@.request_line(method, vstd::utf8::encode_utf8(uri@), version),
            *final(final(self).0) == *final(old(self).0),
    {
        let method_name = method_text(&method);
        let version_name = version_text(version);
        append(self.0, method_name.as_slice());
        self.0.push(32u8);
        append(self.0, uri.as_bytes());
        self.0.push(32u8);
        append(self.0, version_name.as_slice());
        self.0.push(13u8);
        self.0.push(10u8);
        self.1 = MessageState::Headers {
            body: Body::Normal,
            chunked: false,
            request: true,
            content_length: None,
        };
        assert(self@.bytes =~= old(self)@.bytes + request_line_bytes(
            method,
            vstd::utf8::encode_utf8(uri@),
            version,
        ));
    }

    /// Adds a header. A header that contradicts the framing declared so far
    /// is refused, and then nothing is written.
    pub fn add_header(&mut self, header: Header) -> (result: Result<(), HeaderError>)
        requires
            old(self)@.state is Headers,
        ensures
            final(self)@ == old(self)@.add_header(header),
            *final(final(self).0) == *final(old(self).0),
            result == match old(self)@.state.conflict(header.spec_kind()) {
                Some(error) => Err::<(), HeaderError>(error),
                None => Ok(()),
            },
            old(self)@.state.consistent() ==> final(self)@.state.consistent(),
    {
        match self.1 {
            MessageState::Headers { body, chunked, request, content_length } => {
                match header.kind() {
                    HeaderKind::Length(n) => {
                        if chunked {
                            return Err(HeaderError::ContentLengthAfterTransferEncoding);
                        }
                        if content_length.is_some() {
                            return Err(HeaderError::DuplicateContentLength);
                        }
                        self.1 = MessageState::Headers {
                            body,
                            chunked,
                            request,
                            content_length: Some(n),
                        };
                    },
                    HeaderKind::Chunked => {
                        if content_length.is_some() {
                            return Err(HeaderError::TransferEncodingAfterContentLength);
                        }
                        if chunked {
                            return Err(HeaderError::DuplicateTransferEncoding);
                        }
                        self.1 = MessageState::Headers {
                            body,
                            chunked: true,
                            request,
                            content_length,
                        };
                    },
                    HeaderKind::UnknownEncoding => {
                        return Err(HeaderError::UnknownTransferEncoding);
                    },
                    HeaderKind::Opaque => {},
                }
                match &header {
                    Header::ContentLength(n) => {
                        let name = content_length_name_text();
                        let value = content_length_value_text(*n);
                        self.put_header(name.as_slice(), value.as_slice());
                    },
                    Header::TransferEncoding(_) => {
                        let name = transfer_encoding_name_text();
                        let value = chunked_value_text();
                        self.put_header(name.as_slice(), value.as_slice());
                    },
                    Header::Other { name, value } => {
                        self.put_header(name.as_slice(), value.as_slice());
                    },
                }
                Ok(())
            },
            _ => Ok(()),
        }
    }

    /// Writes one header line, `<name>: <value>\r\n`, and leaves the state
    /// as it is.
    fn put_header(&mut self, name: &[u8], value: &[u8])
        ensures
            final(self)@ == old(self)@.emit(
                old(self)@.state,
                name@ + name_separator() + value@ + crlf(),
            ),
            *final(final(self).0) == *final(old(self).0),
    {
        append(self.0, name);
        self.0.push(58u8);
        self.0.push(32u8);
        append(self.0, value);
        self.0.push(13u8);
        self.0.push(10u8);
        assert(self@.bytes =~= old(self)@.bytes + (name@ + name_separator() + value@ + crlf()));
    }

    /// Whether a start line has been written.
    pub fn is_started(&self) -> (started: bool)
        ensures
            started == !(self@.state is RequestStart || self@.state is ResponseStart),
    {
        match self.1 {
            MessageState::RequestStart => false,
            MessageState::ResponseStart { .. } => false,
            _ => true,
        }
    }

    /// Closes the headers and settles how the body is framed. Returns
    /// whether a body is expected. The blank line is written in any case.
    pub fn done_headers(&mut self) -> (result: Result<bool, HeaderError>)
        requires
            old(self)@.state.can_close_headers(),
        ensures
            final(self)@ == old(self)@.done_headers(),
            *final(final(self).0) == *final(old(self).0),
            result == match old(self)@.state.framing() {
                Ok((_, expected)) => Ok::<bool, HeaderError>(expected),
                Err(error) => Err(error),
            },
    {
        let result = match self.1 {
            MessageState::Headers { body: Body::Ignored, .. } => {
                self.1 = MessageState::IgnoredBody;
                Ok(false)
            },
            MessageState::Headers { body: Body::Denied, .. } => {
                self.1 = MessageState::ZeroBodyMessage;
                Ok(false)
            },
            MessageState::Headers { content_length: Some(n), .. } => {
                self.1 = MessageState::FixedSizeBody(n);
                Ok(true)
            },
            MessageState::Headers { chunked: true, .. } => {
                self.1 = MessageState::ChunkedBody;
                Ok(true)
            },
            MessageState::Headers { request: true, .. } => {
                self.1 = MessageState::ZeroBodyMessage;
                Ok(false)
            },
            _ => Err(HeaderError::CantDetermineBodySize),
        };
        self.0.push(13u8);
        self.0.push(10u8);
        assert(self@.bytes =~= old(self)@.bytes + crlf());
        result
    }

    /// Writes a piece of the body under the framing that the headers
    /// declared.
    pub fn write_body(&mut self, data: &[u8])
        requires
            old(self)@.state.accepts_body(data@.len()),
        ensures
            final(self)@ == old(self)@.write_body(data@),
            *final(final(self).0) == *final(old(self).0),
    {
        match self.1 {
            MessageState::FixedSizeBody(remaining) => {
                append(self.0, data);
                self.1 = MessageState::FixedSizeBody(remaining - data.len() as u64);
            },
            MessageState::ChunkedBody => {
                let size = hex_text(data.len());
                append(self.0, size.as_slice());
                self.0.push(13u8);
                self.0.push(10u8);
                append(self.0, data);
                assert(self@.bytes =~= old(self)@.bytes + chunk(data@));
            },
            _ => {
                assert(self@.bytes =~= old(self)@.bytes + Seq::<u8>::empty());
            },
        }
    }

    /// Whether the message is complete.
    pub fn is_complete(&self) -> (complete: bool)
        ensures
            complete == (self@.state is Done),
    {
        match self.1 {
            MessageState::Done => true,
            _ => false,
        }
    }

    /// Completes the message: a chunked body gets its terminating chunk.
    /// On a complete message this does nothing.
    pub fn done(&mut self)
        requires
            old(self)@.state.can_complete(),
        ensures
            final(self)@ == old(self)@.done(),
            *final(final(self).0) == *final(old(self).0),
    {
        match self.1 {
            MessageState::ChunkedBody => {
                self.0.push(48u8);
                self.0.push(13u8);
                self.0.push(10u8);
                assert(self@.bytes =~= old(self)@.bytes + last_chunk());
            },
            _ => {
                assert(self@.bytes =~= old(self)@.bytes + Seq::<u8>::empty());
            },
        }
        self.1 = MessageState::Done;
    }

    /// The state of the message, giving the buffer up.
    pub fn state(self) -> (state: MessageState)
        ensures
            state == self@.state,
            (*final(self.0))@ == self@.bytes,
    {
        self.1
    }

    /// The buffer and the state of the message.
    pub fn decompose(self) -> (parts: (&'a mut Vec<u8>, MessageState))
        ensures
            (*parts.0)@ == self@.bytes,
            parts.1 == self@.state,
            *final(parts.0) == *final(self.0),
    {
        (self.0, self.1)
    }

    /// A response to a request whose head could not be read: HTTP/1.0, and
    /// with a body unless the request is known to be a HEAD request.
    pub fn simple<'x>(out_buf: &'x mut Vec<u8>, is_head: bool) -> (message: Message<'x>)
        ensures
            message@ == (MessageView {
                state: MessageState::ResponseStart {
                    version: Version::Http10,
                    body: if is_head {
                        Body::Ignored
                    } else {
                        Body::Normal
                    },
                },
                bytes: old(out_buf)@,
            }),
            *final(message.0) == *final(out_buf),
    {
        Message(
            out_buf,
            MessageState::ResponseStart {
                version: Version::Http10,
                body: Body::of_response_to(is_head),
            },
        )
    }
}

} // verus!
