//! Decoding of a data frame's body into a typed message tree.
//!
//! Each layer reads one tag byte, picks its variant by that byte, and hands
//! the rest of the slice down without copying it.
use vstd::prelude::*;
use vstd::slice::slice_subrange;
use crate::checksum::{accepts, lemma_single_byte_change_detected, verify};

verus! {

/// Tag of a request at the top layer.
pub const REQUEST: u8 = 0x00;

/// Tag of a response at the top layer.
pub const RESPONSE: u8 = 0x01;

/// Tag of an application update among requests.
pub const APPLICATION_UPDATE: u8 = 0x49;

/// Tag of "node info received" among application updates.
pub const INFO_RECEIVED: u8 = 0x84;

/// Why a body could not be decoded.
#[derive(Debug, PartialEq, Eq)]
pub enum MsgError<'a> {
    /// Fewer bytes than the current layer needs.
    ShortMessage,
    /// The trailing checksum byte does not match the body.
    InvalidChecksum,
    /// The tag byte is not known at this layer; `data` starts with it.
    UnknownType { data: &'a [u8] },
}

/// A decoded message, borrowing its fields from the frame body.
#[derive(Debug, PartialEq, Eq)]
pub enum Message<'a> {
    Request(Request<'a>),
    Response(Response<'a>),
}

/// A request sent by the controller.
#[derive(Debug, PartialEq, Eq)]
pub enum Request<'a> {
    ApplicationUpdate(ApplicationUpdate<'a>),
}

/// An application update request.
#[derive(Debug, PartialEq, Eq)]
pub enum ApplicationUpdate<'a> {
    /// Information about node `node_id` arrived; `rest` holds it verbatim.
    InfoReceived { node_id: u8, rest: &'a [u8] },
}

/// A response sent by the controller. No kind of response is known yet, so
/// decoding one always reports its tag as unknown.
#[derive(Debug, PartialEq, Eq)]
pub struct Response<'a> {
    pub data: &'a [u8],
}

/// What a body decodes to, as plain values.
pub ghost enum Decoded {
    InfoReceived { node_id: u8, rest: Seq<u8> },
    Response { data: Seq<u8> },
    ShortMessage,
    InvalidChecksum,
    UnknownType { data: Seq<u8> },
}

impl<'a> MsgError<'a> {
    pub open spec fn model(&self) -> Decoded {
        match *self {
            MsgError::ShortMessage => Decoded::ShortMessage,
            MsgError::InvalidChecksum => Decoded::InvalidChecksum,
            MsgError::UnknownType { data } => Decoded::UnknownType { data: data@ },
        }
    }
}

impl<'a> ApplicationUpdate<'a> {
    pub open spec fn model(&self) -> Decoded {
        match *self {
            ApplicationUpdate::InfoReceived { node_id, rest } => Decoded::InfoReceived {
                node_id,
                rest: rest@,
            },
        }
    }
}

impl<'a> Request<'a> {
    pub open spec fn model(&self) -> Decoded {
        match *self {
            Request::ApplicationUpdate(u) => u.model(),
        }
    }
}

impl<'a> Response<'a> {
    pub open spec fn model(&self) -> Decoded {
        Decoded::Response { data: self.data@ }
    }
}

impl<'a> Message<'a> {
    pub open spec fn model(&self) -> Decoded {
        match *self {
            Message::Request(q) => q.model(),
            Message::Response(p) => p.model(),
        }
    }
}

/// The bytes that follow an application-update tag.
pub open spec fn application_update_of(buf: Seq<u8>) -> Decoded {
    if buf.len() < 1 {
        Decoded::ShortMessage
    } else if buf[0] == INFO_RECEIVED {
        if buf.len() < 2 {
            Decoded::ShortMessage
        } else {
            Decoded::InfoReceived { node_id: buf[1], rest: buf.subrange(2, buf.len() as int) }
        }
    } else {
        Decoded::UnknownType { data: buf }
    }
}

/// The bytes that follow a request tag.
pub open spec fn request_of(buf: Seq<u8>) -> Decoded {
    if buf.len() < 1 {
        Decoded::ShortMessage
    } else if buf[0] == APPLICATION_UPDATE {
        application_update_of(buf.drop_first())
    } else {
        Decoded::UnknownType { data: buf }
    }
}

/// The bytes that follow a response tag.
pub open spec fn response_of(buf: Seq<u8>) -> Decoded {
    Decoded::UnknownType { data: buf }
}

/// A whole body: type byte, payload and trailing checksum byte. The checksum
/// folds in the body's length, which is the frame's length byte.
pub open spec fn message_of(body: Seq<u8>) -> Decoded {
    let n = body.len();
    if n < 2 {
        Decoded::ShortMessage
    } else if !accepts(n as u8, body.subrange(0, n - 1), body[n - 1]) {
        Decoded::InvalidChecksum
    } else if body[0] == REQUEST {
        request_of(body.subrange(1, n - 1))
    } else if body[0] == RESPONSE {
        response_of(body.subrange(1, n - 1))
    } else {
        Decoded::UnknownType { data: body.subrange(0, n - 1) }
    }
}

impl<'a> ApplicationUpdate<'a> {
    /// Decodes the bytes that follow an application-update tag.
    pub fn decode(buf: &'a [u8]) -> (r: Result<ApplicationUpdate<'a>, MsgError<'a>>)
        ensures
            match r {
                Ok(u) => u.model() == application_update_of(buf@),
                Err(e) => e.model() == application_update_of(buf@),
            },
    {
        if buf.len() < 1 {
            return Err(MsgError::ShortMessage);
        }
        match buf[0] {
            INFO_RECEIVED => {
                if buf.len() < 2 {
                    return Err(MsgError::ShortMessage);
                }
                let rest = slice_subrange(buf, 2, buf.len());
                Ok(ApplicationUpdate::InfoReceived { node_id: buf[1], rest })
            },
            _ => Err(MsgError::UnknownType { data: buf }),
        }
    }
}

impl<'a> Request<'a> {
    /// Decodes the bytes that follow a request tag.
    pub fn decode(buf: &'a [u8]) -> (r: Result<Request<'a>, MsgError<'a>>)
        ensures
            match r {
                Ok(q) => q.model() == request_of(buf@),
                Err(e) => e.model() == request_of(buf@),
            },
    {
        if buf.len() < 1 {
            return Err(MsgError::ShortMessage);
        }
        match buf[0] {
            APPLICATION_UPDATE => {
                let rest = slice_subrange(buf, 1, buf.len());
                assert(rest@ == buf@.drop_first());
                match ApplicationUpdate::decode(rest) {
                    Ok(u) => Ok(Request::ApplicationUpdate(u)),
                    Err(e) => Err(e),
                }
            },
            _ => Err(MsgError::UnknownType { data: buf }),
        }
    }
}

impl<'a> Response<'a> {
    /// Decodes the bytes that follow a response tag.
    pub fn decode(buf: &'a [u8]) -> (r: Result<Response<'a>, MsgError<'a>>)
        ensures
            match r {
                Ok(p) => p.model() == response_of(buf@),
                Err(e) => e.model() == response_of(buf@),
            },
    {
        Err(MsgError::UnknownType { data: buf })
    }
}

impl<'a> Message<'a> {
    /// Checks the checksum of a data frame's body (type byte, payload,
    /// checksum byte) and decodes it.
    pub fn decode(body: &'a [u8]) -> (r: Result<Message<'a>, MsgError<'a>>)
        ensures
            match r {
                Ok(m) => m.model() == message_of(body@),
                Err(e) => e.model() == message_of(body@),
            },
    {
        let n = body.len();
        if n < 2 {
            return Err(MsgError::ShortMessage);
        }
        let msg = slice_subrange(body, 0, n - 1);
        if !verify(n as u8, msg, body[n - 1]) {
            return Err(MsgError::InvalidChecksum);
        }
        let rest = slice_subrange(body, 1, n - 1);
        match body[0] {
            REQUEST => match Request::decode(rest) {
                Ok(q) => Ok(Message::Request(q)),
                Err(e) => Err(e),
            },
            RESPONSE => match Response::decode(rest) {
                Ok(p) => Ok(Message::Response(p)),
                Err(e) => Err(e),
            },
            _ => Err(MsgError::UnknownType { data: msg }),
        }
    }
}

/// A body of fewer than two bytes decodes to `ShortMessage`.
pub proof fn lemma_short_body(body: Seq<u8>)
    requires
        body.len() < 2,
    ensures
        message_of(body) == Decoded::ShortMessage,
{
}

/// Decoding depends on the body's bytes alone: equal bodies decode to
/// equal messages.
pub proof fn lemma_decode_deterministic(a: Seq<u8>, b: Seq<u8>)
    requires
        a == b,
    ensures
        message_of(a) == message_of(b),
{
}

/// Changing any single byte of a body that passes its checksum makes the
/// body fail it.
pub proof fn lemma_corrupted_body_rejected(body: Seq<u8>, i: int, v: u8)
    requires
        body.len() >= 2,
        message_of(body) != Decoded::InvalidChecksum,
        0 <= i < body.len(),
        v != body[i],
    ensures
        message_of(body.update(i, v)) == Decoded::InvalidChecksum,
{
    let n = body.len();
    let c = body.update(i, v);
    let pre = body.subrange(0, n - 1);
    assert(c.len() == n);
    if i == n - 1 {
        assert(c.subrange(0, n - 1) == pre);
    } else {
        assert(c.subrange(0, n - 1) == pre.update(i, v));
        assert(c[n - 1] == body[n - 1]);
        lemma_single_byte_change_detected(n as u8, pre, i, v);
    }
}

} // verus!
