//! Recognition of frames in received bytes, and framing of outgoing ones.
use vstd::prelude::*;
use vstd::slice::slice_subrange;
use crate::checksum::{checksum_of, compute};
use crate::message::{message_of, Decoded, REQUEST, RESPONSE};

verus! {

/// Tag of a data frame.
pub const SOF: u8 = 0x01;

/// An acknowledgment.
pub const ACK: u8 = 0x06;

/// A negative acknowledgment.
pub const NACK: u8 = 0x15;

/// A cancellation.
pub const CAN: u8 = 0x18;

/// The largest number of type and payload bytes a data frame can carry:
/// its length byte also counts the checksum byte.
pub const MAX_DATA_LEN: usize = 254;

/// One frame, borrowing a data frame's body from the received bytes.
#[derive(Debug, PartialEq, Eq)]
pub enum Frame<'a> {
    Ack,
    Nack,
    Cancel,
    /// `body` is what the length byte announced: type byte, payload and
    /// checksum byte.
    Data { body: &'a [u8] },
}

/// What the start of a byte buffer holds.
#[derive(Debug, PartialEq, Eq)]
pub enum FrameRead<'a> {
    /// No whole frame yet: read more bytes and try again.
    Incomplete,
    /// A whole frame, taking the first `consumed` bytes.
    Complete { frame: Frame<'a>, consumed: usize },
    /// The first byte is no frame tag; it alone is taken.
    UnknownFrameType { tag: u8, consumed: usize },
}

/// What the start of a buffer holds, as plain values.
pub ghost enum ReadModel {
    Incomplete,
    Ack { consumed: nat },
    Nack { consumed: nat },
    Cancel { consumed: nat },
    Data { body: Seq<u8>, consumed: nat },
    UnknownFrameType { tag: u8, consumed: nat },
}

impl<'a> FrameRead<'a> {
    pub open spec fn model(&self) -> ReadModel {
        match *self {
            FrameRead::Incomplete => ReadModel::Incomplete,
            FrameRead::Complete { frame, consumed } => match frame {
                Frame::Ack => ReadModel::Ack { consumed: consumed as nat },
                Frame::Nack => ReadModel::Nack { consumed: consumed as nat },
                Frame::Cancel => ReadModel::Cancel { consumed: consumed as nat },
                Frame::Data { body } => ReadModel::Data { body: body@, consumed: consumed as nat },
            },
            FrameRead::UnknownFrameType { tag, consumed } => ReadModel::UnknownFrameType {
                tag,
                consumed: consumed as nat,
            },
        }
    }
}

/// The first frame of `buf`: a data frame takes its tag, its length byte
/// and as many bytes as that byte says; every other frame takes one byte.
pub open spec fn read_of(buf: Seq<u8>) -> ReadModel {
    if buf.len() == 0 {
        ReadModel::Incomplete
    } else if buf[0] == SOF {
        if buf.len() < 2 || buf.len() < 2 + buf[1] {
            ReadModel::Incomplete
        } else {
            ReadModel::Data {
                body: buf.subrange(2, 2 + buf[1]),
                consumed: (2 + buf[1]) as nat,
            }
        }
    } else if buf[0] == ACK {
        ReadModel::Ack { consumed: 1 }
    } else if buf[0] == NACK {
        ReadModel::Nack { consumed: 1 }
    } else if buf[0] == CAN {
        ReadModel::Cancel { consumed: 1 }
    } else {
        ReadModel::UnknownFrameType { tag: buf[0], consumed: 1 }
    }
}

/// Recognizes the first frame of `buf` without taking more bytes than it
/// owns, so that the next frame starts right after it.
pub fn read_frame<'a>(buf: &'a [u8]) -> (r: FrameRead<'a>)
    ensures
        r.model() == read_of(buf@),
{
    if buf.len() == 0 {
        return FrameRead::Incomplete;
    }
    match buf[0] {
        SOF => {
            if buf.len() < 2 {
                return FrameRead::Incomplete;
            }
            let len = buf[1] as usize;
            if buf.len() - 2 < len {
                return FrameRead::Incomplete;
            }
            let body = slice_subrange(buf, 2, 2 + len);
            FrameRead::Complete { frame: Frame::Data { body }, consumed: 2 + len }
        },
        ACK => FrameRead::Complete { frame: Frame::Ack, consumed: 1 },
        NACK => FrameRead::Complete { frame: Frame::Nack, consumed: 1 },
        CAN => FrameRead::Complete { frame: Frame::Cancel, consumed: 1 },
        _ => FrameRead::UnknownFrameType { tag: buf[0], consumed: 1 },
    }
}

/// The data frame that carries `bytes` (type byte and payload).
pub open spec fn data_frame_of(bytes: Seq<u8>) -> Seq<u8> {
    let len = (bytes.len() + 1) as u8;
    seq![SOF, len] + bytes + seq![checksum_of(len, bytes)]
}

/// Frames `bytes` (type byte and payload) as a data frame: tag, length
/// byte, the bytes, checksum. There is none when `bytes` is empty or too
/// long for the length byte.
pub fn encode_data(bytes: &[u8]) -> (r: Option<Vec<u8>>)
    ensures
        r is Some <==> 1 <= bytes@.len() <= MAX_DATA_LEN,
        r is Some ==> r->0@ == data_frame_of(bytes@),
{
    if bytes.len() == 0 || bytes.len() > MAX_DATA_LEN {
        return None;
    }
    let len = (bytes.len() + 1) as u8;
    let mut out: Vec<u8> = Vec::with_capacity(bytes.len() + 3);
    out.push(SOF);
    out.push(len);
    let mut i: usize = 0;
    while i < bytes.len()
        invariant
            i <= bytes@.len(),
            out@ == seq![SOF, len] + bytes@.take(i as int),
        decreases bytes@.len() - i,
    {
        out.push(bytes[i]);
        i = i + 1;
        assert(out@ == seq![SOF, len] + bytes@.take(i as int));
    }
    assert(bytes@.take(i as int) == bytes@);
    out.push(compute(len, bytes));
    Some(out)
}

/// A data frame built by `encode_data` is read back whole, as the body that
/// was framed followed by its checksum, and that body passes the checksum
/// test: framing and reading agree.
pub proof fn lemma_frame_round_trip(bytes: Seq<u8>)
    requires
        1 <= bytes.len() <= MAX_DATA_LEN,
    ensures
        ({
            let len = (bytes.len() + 1) as u8;
            let body = bytes.push(checksum_of(len, bytes));
            &&& read_of(data_frame_of(bytes)) == (ReadModel::Data {
                body,
                consumed: (bytes.len() + 3) as nat,
            })
            &&& message_of(body) != Decoded::InvalidChecksum
        }),
{
    let len = (bytes.len() + 1) as u8;
    let f = data_frame_of(bytes);
    let body = bytes.push(checksum_of(len, bytes));
    assert(f[1] == len);
    assert(f.subrange(2, 2 + len) == body);
    assert(body.subrange(0, body.len() - 1) == bytes);
}

/// A data frame whose type byte is neither a request nor a response is
/// still taken whole, length byte and all, while its body decodes to
/// `UnknownType` carrying everything before the checksum byte.
pub proof fn lemma_unknown_type_consumed(buf: Seq<u8>)
    requires
        read_of(buf) is Data,
        message_of(read_of(buf)->Data_body) != Decoded::InvalidChecksum,
        read_of(buf)->Data_body.len() >= 2,
        buf[2] != REQUEST,
        buf[2] != RESPONSE,
    ensures
        ({
            let body = read_of(buf)->Data_body;
            &&& read_of(buf)->Data_consumed == 2 + buf[1]
            &&& body == buf.subrange(2, 2 + buf[1])
            &&& message_of(body) == (Decoded::UnknownType {
                data: body.subrange(0, body.len() - 1),
            })
        }),
{
    let body = read_of(buf)->Data_body;
    assert(body[0] == buf[2]);
}

} // verus!
