//! What holds of every message that goes through the state machine.
use vstd::prelude::*;
use crate::body::{response_body, Body, NOT_MODIFIED, NO_CONTENT};
use crate::header::{Header, HeaderKind};
use crate::message::{chunk, last_chunk, HeaderError, MessageState, MessageView};
use crate::wire::{
    crlf, hex, hex_digit_value, hex_round_trip, hex_value, method_bytes, space, status_line,
    version_bytes, Method, Version,
};

verus! {

/// The pieces one after another.
pub open spec fn concat(pieces: Seq<Seq<u8>>) -> Seq<u8>
    decreases pieces.len(),
{
    if pieces.len() == 0 {
        Seq::<u8>::empty()
    } else {
        concat(pieces.drop_last()) + pieces.last()
    }
}

/// The pieces one after another, each as a chunk.
pub open spec fn chunks(pieces: Seq<Seq<u8>>) -> Seq<u8>
    decreases pieces.len(),
{
    if pieces.len() == 0 {
        Seq::<u8>::empty()
    } else {
        chunks(pieces.drop_last()) + chunk(pieces.last())
    }
}

/// Every piece can be written as body, one call after the other.
pub open spec fn accepts_all(state: MessageState, pieces: Seq<Seq<u8>>) -> bool
    decreases pieces.len(),
{
    if pieces.len() == 0 {
        true
    } else {
        accepts_all(state, pieces.drop_last()) && write_all(
            MessageView { state, bytes: Seq::<u8>::empty() },
            pieces.drop_last(),
        ).state.accepts_body(pieces.last().len())
    }
}

/// The message after every piece has been written as body, one call after
/// the other.
pub open spec fn write_all(message: MessageView, pieces: Seq<Seq<u8>>) -> MessageView
    decreases pieces.len(),
{
    if pieces.len() == 0 {
        message
    } else {
        write_all(message, pieces.drop_last()).write_body(pieces.last())
    }
}

/// A request that gets its request line and then no header has no body:
/// once the headers are closed and the message is completed, the buffer
/// holds `<method> <target> <version>\r\n\r\n` behind what it held before,
/// and every step is legal.
pub proof fn request_without_headers(
    start: MessageView,
    method: Method,
    target: Seq<u8>,
    version: Version,
)
    requires
        start.state is RequestStart,
    ensures
        ({
            let lined = start.request_line(method, target, version);
            let closed = lined.done_headers();
            let end = closed.done();
            &&& lined.state.can_close_headers()
            &&& lined.state.framing() == Ok::<(MessageState, bool), HeaderError>(
                (MessageState::ZeroBodyMessage, false),
            )
            &&& closed.state.can_complete()
            &&& end.state is Done
            &&& end.bytes == start.bytes + (method_bytes(method) + space() + target + space()
                + version_bytes(version) + crlf() + crlf())
        }),
{
    let lined = start.request_line(method, target, version);
    let end = lined.done_headers().done();
    assert(end.bytes =~= start.bytes + (method_bytes(method) + space() + target + space()
        + version_bytes(version) + crlf() + crlf()));
}

/// A response that may have a body, with a status that leaves it so and a
/// declared length of zero, expects a body and can be completed at once,
/// without a byte of body: the buffer then holds the status line, the
/// length header and the blank line behind what it held before.
pub proof fn empty_fixed_body(start: MessageView, code: u16)
    requires
        start.state matches MessageState::ResponseStart { body: Body::Normal, .. },
        response_body(Body::Normal, code) == Body::Normal,
    ensures
        ({
            let lined = start.response_status(code);
            let declared = lined.add_header(Header::ContentLength(0));
            let closed = declared.done_headers();
            &&& lined.state.conflict(HeaderKind::Length(0)) is None
            &&& declared.state.can_close_headers()
            &&& declared.state.framing() == Ok::<(MessageState, bool), HeaderError>(
                (MessageState::FixedSizeBody(0), true),
            )
            &&& closed.state.can_complete()
            &&& closed.done().state is Done
            &&& closed.done().bytes == start.bytes + (status_line(
                start.state->ResponseStart_version,
                code,
            ) + Header::ContentLength(0).line() + crlf())
        }),
{
    let closed = start.response_status(code).add_header(Header::ContentLength(0)).done_headers();
    assert(closed.done().bytes =~= start.bytes + (status_line(
        start.state->ResponseStart_version,
        code,
    ) + Header::ContentLength(0).line() + crlf()));
}

/// The message after an attempt to add each of the headers, in order.
pub open spec fn add_all(message: MessageView, headers: Seq<Header>) -> MessageView
    decreases headers.len(),
{
    if headers.len() == 0 {
        message
    } else {
        add_all(message, headers.drop_last()).add_header(headers.last())
    }
}

/// Headers leave the body disposition of a message as it is. A message
/// that was started in the ordinary way never comes to declare both a
/// length and chunking, so its headers can always be closed.
pub proof fn headers_keep_disposition(message: MessageView, headers: Seq<Header>)
    requires
        message.state is Headers,
        message.state.consistent(),
    ensures
        add_all(message, headers).state is Headers,
        add_all(message, headers).state.consistent(),
        add_all(message, headers).state.can_close_headers(),
        add_all(message, headers).state->Headers_body == message.state->Headers_body,
        add_all(message, headers).state->Headers_request == message.state->Headers_request,
    decreases headers.len(),
{
    if headers.len() > 0 {
        headers_keep_disposition(message, headers.drop_last());
    }
}

/// On a message that declares no framing yet, a length followed by
/// chunking gives `TransferEncodingAfterContentLength`, and chunking
/// followed by a length gives `ContentLengthAfterTransferEncoding`. The
/// first header is written; the refused one changes neither the state nor
/// the buffer.
pub proof fn length_and_chunking_exclude_each_other(
    headers: MessageView,
    length: u64,
    encodings: Header,
)
    requires
        headers.state matches MessageState::Headers {
            chunked: false,
            content_length: None,
            ..
        },
        encodings.spec_kind() == HeaderKind::Chunked,
    ensures
        ({
            let sized = headers.add_header(Header::ContentLength(length));
            &&& sized.bytes == headers.bytes + Header::ContentLength(length).line()
            &&& sized.state.conflict(HeaderKind::Chunked) == Some(
                HeaderError::TransferEncodingAfterContentLength,
            )
            &&& sized.add_header(encodings) == sized
        }),
        ({
            let chunked = headers.add_header(encodings);
            &&& chunked.bytes == headers.bytes + encodings.line()
            &&& chunked.state.conflict(HeaderKind::Length(length)) == Some(
                HeaderError::ContentLengthAfterTransferEncoding,
            )
            &&& chunked.add_header(Header::ContentLength(length)) == chunked
        }),
{
}

/// A framing that is declared stays declared, whatever headers follow: as
/// long as a length is declared, a header that declares chunking is refused
/// with `TransferEncodingAfterContentLength`, and as long as chunking is
/// declared, a header that declares a length is refused with
/// `ContentLengthAfterTransferEncoding`. The refused header changes neither
/// the state nor the buffer.
pub proof fn declared_framing_excludes_the_other(
    message: MessageView,
    between: Seq<Header>,
    late: Header,
)
    requires
        message.state is Headers,
    ensures
        add_all(message, between).state is Headers,
        message.state->Headers_content_length is Some ==> {
            let later = add_all(message, between);
            &&& later.state->Headers_content_length == message.state->Headers_content_length
            &&& late.spec_kind() == HeaderKind::Chunked ==> later.state.conflict(late.spec_kind())
                == Some(HeaderError::TransferEncodingAfterContentLength) && later.add_header(late)
                == later
        },
        message.state->Headers_chunked ==> {
            let later = add_all(message, between);
            &&& later.state->Headers_chunked
            &&& late.spec_kind() is Length ==> later.state.conflict(late.spec_kind()) == Some(
                HeaderError::ContentLengthAfterTransferEncoding,
            ) && later.add_header(late) == later
        },
    decreases between.len(),
{
    if between.len() > 0 {
        declared_framing_excludes_the_other(message, between.drop_last(), between.last());
    }
}

/// Under a declared length of `n`, pieces of body can be written one after
/// the other exactly as long as their lengths add up to `n` or less. The
/// buffer then holds the pieces as they are, and the message can be
/// completed exactly when the lengths add up to `n`.
pub proof fn fixed_body_accounting(start: MessageView, n: u64, pieces: Seq<Seq<u8>>)
    requires
        start.state == MessageState::FixedSizeBody(n),
    ensures
        accepts_all(start.state, pieces) <==> concat(pieces).len() <= n,
        accepts_all(start.state, pieces) ==> {
            let end = write_all(start, pieces);
            &&& end.state == MessageState::FixedSizeBody((n - concat(pieces).len()) as u64)
            &&& end.bytes == start.bytes + concat(pieces)
            &&& end.state.can_complete() <==> concat(pieces).len() == n
        },
    decreases pieces.len(),
{
    if pieces.len() > 0 {
        let front = pieces.drop_last();
        fixed_body_accounting(start, n, front);
        fixed_body_accounting(MessageView { state: start.state, bytes: Seq::<u8>::empty() }, n, front);
        if accepts_all(start.state, pieces) {
            let end = write_all(start, pieces);
            assert(end.bytes =~= start.bytes + concat(pieces));
        }
    } else {
        assert(write_all(start, pieces).bytes =~= start.bytes + concat(pieces));
    }
}

/// Under chunked framing any pieces of body can be written, and the buffer
/// then holds one chunk for each piece, in order; completing the message
/// adds the terminating chunk.
pub proof fn chunked_body_framing(start: MessageView, pieces: Seq<Seq<u8>>)
    requires
        start.state is ChunkedBody,
    ensures
        accepts_all(start.state, pieces),
        write_all(start, pieces).state is ChunkedBody,
        write_all(start, pieces).bytes == start.bytes + chunks(pieces),
        write_all(start, pieces).state.can_complete(),
        write_all(start, pieces).done().state is Done,
        write_all(start, pieces).done().bytes == start.bytes + chunks(pieces) + last_chunk(),
    decreases pieces.len(),
{
    if pieces.len() > 0 {
        let front = pieces.drop_last();
        chunked_body_framing(start, front);
        chunked_body_framing(MessageView { state: start.state, bytes: Seq::<u8>::empty() }, front);
        assert(write_all(start, pieces).bytes =~= start.bytes + chunks(pieces));
    } else {
        assert(write_all(start, pieces).bytes =~= start.bytes + chunks(pieces));
    }
}

/// Completing a complete message changes nothing, however often it is done.
pub proof fn done_is_idempotent(message: MessageView)
    requires
        message.state is Done,
    ensures
        message.state.can_complete(),
        message.done() == message,
        message.done().done() == message,
{
    assert(message.done().bytes =~= message.bytes);
    assert(message.done().done().bytes =~= message.bytes);
}

/// A response with status 204 or 304 carries no body, whatever headers it
/// is given. After 204 the headers close into a state that takes empty
/// writes only, and such a write changes nothing; after 304 on a response
/// that could have had a body they close into a state that takes no write
/// at all. Completing the message adds nothing in either case.
pub proof fn no_content_and_not_modified_have_no_body(
    start: MessageView,
    code: u16,
    headers: Seq<Header>,
    data: Seq<u8>,
)
    requires
        start.state is ResponseStart,
        code == NO_CONTENT || code == NOT_MODIFIED,
    ensures
        ({
            let headed = add_all(start.response_status(code), headers);
            let closed = headed.done_headers();
            &&& headed.state.can_close_headers()
            &&& headed.state.framing() matches Ok((_, false))
            &&& closed.bytes == headed.bytes + crlf()
            &&& closed.state is ZeroBodyMessage || closed.state is IgnoredBody
            &&& code == NO_CONTENT ==> closed.state is ZeroBodyMessage
            &&& closed.state.accepts_body(data.len()) ==> data.len() == 0
                && closed.write_body(data) == closed
            &&& closed.state is IgnoredBody ==> !closed.state.accepts_body(data.len())
            &&& closed.state.can_complete()
            &&& closed.done().bytes == closed.bytes
        }),
{
    let lined = start.response_status(code);
    headers_keep_disposition(lined, headers);
    let closed = add_all(lined, headers).done_headers();
    assert(closed.done().bytes =~= closed.bytes);
    if closed.state.accepts_body(data.len()) {
        assert(closed.write_body(data).bytes =~= closed.bytes);
    }
}

/// How many hexadecimal digits the bytes start with.
pub open spec fn digits_at_start(wire: Seq<u8>) -> nat
    decreases wire.len(),
{
    if wire.len() == 0 || hex_digit_value(wire[0]) is None {
        0
    } else {
        1 + digits_at_start(wire.drop_first())
    }
}

/// The pieces that a run of chunks holds, read chunk header by chunk
/// header up to the end of the bytes: hexadecimal digits, `\r\n`, and as
/// many bytes as the digits say. `None` where the bytes are no run of
/// chunks.
pub open spec fn read_chunks(wire: Seq<u8>) -> Option<Seq<Seq<u8>>>
    decreases wire.len(),
{
    if wire.len() == 0 {
        Some(Seq::<Seq<u8>>::empty())
    } else {
        let digits = digits_at_start(wire) as int;
        if digits == 0 || wire.len() < digits + 2 || wire[digits] != 13 || wire[digits + 1] != 10 {
            None
        } else {
            match hex_value(wire.subrange(0, digits)) {
                Some(size) => if wire.len() < digits + 2 + size {
                    None
                } else {
                    match read_chunks(wire.skip(digits + 2 + size)) {
                        Some(rest) => Some(
                            seq![wire.subrange(digits + 2, digits + 2 + size)] + rest,
                        ),
                        None => None,
                    }
                },
                None => None,
            }
        }
    }
}

/// Digits followed by a byte that is no digit are counted exactly.
proof fn digits_counted(digits: Seq<u8>, rest: Seq<u8>)
    requires
        forall|i: int| 0 <= i < digits.len() ==> hex_digit_value(#[trigger] digits[i]) is Some,
        rest.len() > 0,
        hex_digit_value(rest[0]) is None,
    ensures
        digits_at_start(digits + rest) == digits.len(),
    decreases digits.len(),
{
    let wire = digits + rest;
    if digits.len() == 0 {
        assert(wire[0] == rest[0]);
    } else {
        assert(wire[0] == digits[0]);
        assert(wire.drop_first() =~= digits.drop_first() + rest);
        assert forall|i: int| 0 <= i < digits.drop_first().len() implies hex_digit_value(
            #[trigger] digits.drop_first()[i],
        ) is Some by {
            assert(digits.drop_first()[i] == digits[i + 1]);
        }
        digits_counted(digits.drop_first(), rest);
    }
}

/// A chunk in front of a run of chunks is read as its piece, in front of
/// the pieces of the run.
pub proof fn chunk_is_read_back(data: Seq<u8>, rest: Seq<u8>)
    ensures
        read_chunks(chunk(data) + rest) == match read_chunks(rest) {
            Some(pieces) => Some(seq![data] + pieces),
            None => None,
        },
{
    let size = hex(data.len());
    let tail = crlf() + data + rest;
    let wire = chunk(data) + rest;
    hex_round_trip(data.len());
    assert(wire =~= size + tail);
    assert(tail[0] == 13u8);
    digits_counted(size, tail);
    let digits = size.len() as int;
    assert(wire[digits] == 13u8);
    assert(wire[digits + 1] == 10u8);
    assert(wire.subrange(0, digits) =~= size);
    assert(wire.subrange(digits + 2, digits + 2 + data.len()) =~= data);
    assert(wire.skip(digits + 2 + data.len()) =~= rest);
}

/// Reading chunk by chunk what was written chunk by chunk, with whatever
/// run of chunks comes behind it, gives the pieces that were written, in
/// order, and then the pieces of that run.
pub proof fn chunks_are_read_back(pieces: Seq<Seq<u8>>, rest: Seq<u8>, behind: Seq<Seq<u8>>)
    requires
        read_chunks(rest) == Some(behind),
    ensures
        read_chunks(chunks(pieces) + rest) == Some(pieces + behind),
    decreases pieces.len(),
{
    if pieces.len() == 0 {
        assert(chunks(pieces) + rest =~= rest);
        assert(pieces + behind =~= behind);
    } else {
        let front = pieces.drop_last();
        let last = pieces.last();
        chunk_is_read_back(last, rest);
        chunks_are_read_back(front, chunk(last) + rest, seq![last] + behind);
        assert(chunks(pieces) + rest =~= chunks(front) + (chunk(last) + rest));
        assert(front + (seq![last] + behind) =~= pieces + behind);
    }
}

/// The body of a chunked message reads back as it was written: whatever
/// pieces were written under chunked framing, the bytes that the message
/// added to the buffer once it is completed, read chunk by chunk, are those
/// pieces in order and then one empty piece, the terminating chunk.
pub proof fn chunked_round_trip(start: MessageView, pieces: Seq<Seq<u8>>)
    requires
        start.state is ChunkedBody,
    ensures
        accepts_all(start.state, pieces),
        write_all(start, pieces).state.can_complete(),
        write_all(start, pieces).done().bytes == start.bytes + (chunks(pieces) + last_chunk()),
        read_chunks(chunks(pieces) + last_chunk()) == Some(pieces.push(Seq::<u8>::empty())),
{
    chunked_body_framing(start, pieces);
    let nothing = Seq::<u8>::empty();
    chunk_is_read_back(nothing, nothing);
    hex_round_trip(0);
    assert(chunk(nothing) + nothing =~= last_chunk());
    assert(read_chunks(nothing) == Some(Seq::<Seq<u8>>::empty()));
    assert(seq![nothing] + Seq::<Seq<u8>>::empty() =~= seq![nothing]);
    chunks_are_read_back(pieces, last_chunk(), seq![nothing]);
    assert(pieces + seq![nothing] =~= pieces.push(nothing));
    assert(start.bytes + chunks(pieces) + last_chunk() =~= start.bytes + (chunks(pieces)
        + last_chunk()));
}

} // verus!
