//! Whether a message may carry a body, and how the status of a response
//! decides it.
use vstd::prelude::*;

verus! {

/// Status 101, Switching Protocols.
pub const SWITCHING_PROTOCOLS: u16 = 101;

/// Status 204, No Content.
pub const NO_CONTENT: u16 = 204;

/// Status 304, Not Modified.
pub const NOT_MODIFIED: u16 = 304;

/// Whether a message may carry a body.
#[derive(Debug, Copy, Clone, PartialEq, Eq, Structural)]
pub enum Body {
    /// A body is framed by the headers of the message.
    Normal,
    /// A body is described by the headers but never sent.
    Ignored,
    /// The protocol forbids a body for this message.
    Denied,
}

/// The body disposition of a response once its status is known: 101 and 204
/// forbid a body, and 304 suppresses one that could have been sent.
pub open spec fn response_body(body: Body, code: u16) -> Body {
    if code == SWITCHING_PROTOCOLS || code == NO_CONTENT {
        Body::Denied
    } else if body == Body::Normal && code == NOT_MODIFIED {
        Body::Ignored
    } else {
        body
    }
}

impl Body {
    /// The disposition of a response to a request: a `HEAD` request gets
    /// no body sent, any other may get one.
    pub fn of_response_to(is_head: bool) -> (body: Body)
        ensures
            body == if is_head {
                Body::Ignored
            } else {
                Body::Normal
            },
    {
        if is_head {
            Body::Ignored
        } else {
            Body::Normal
        }
    }

    /// The disposition of a response once its status is known.
    pub fn after_status(self, code: u16) -> (body: Body)
        ensures
            body == response_body(self, code),
    {
        if code == SWITCHING_PROTOCOLS || code == NO_CONTENT {
            Body::Denied
        } else if self == Body::Normal && code == NOT_MODIFIED {
            Body::Ignored
        } else {
            self
        }
    }
}

} // verus!
