//! The link engine: buffers received bytes, takes whole frames from them in
//! arrival order, and drives the handshake with what they are.
use vstd::prelude::*;
use vstd::slice::{slice_subrange, slice_to_vec};
use crate::checksum::{accepts, verify};
use crate::frame::{read_frame, read_of, Frame, FrameRead, ReadModel};
use crate::handshake::{step, Handshake, LinkAction, LinkConfig, LinkEvent, LinkPhase, LinkState};

verus! {

/// What the engine took from its buffer.
#[derive(Debug, PartialEq, Eq)]
pub enum Received {
    /// No whole frame is buffered yet.
    Nothing,
    Ack,
    Nack,
    Cancel,
    /// A data frame's body (type byte, payload, checksum byte), copied out
    /// of the buffer; `Message::decode` reads it.
    Data(Vec<u8>),
    /// A byte that starts no frame was skipped.
    UnknownFrameType(u8),
}

/// The result of one poll: what was received, and what to do next.
#[derive(Debug, PartialEq, Eq)]
pub struct Poll {
    pub received: Received,
    pub action: LinkAction,
}

/// Whether a data frame's body is whole and passes its checksum.
pub open spec fn body_sound(body: Seq<u8>) -> bool {
    body.len() >= 2 && accepts(
        body.len() as u8,
        body.subrange(0, body.len() - 1),
        body[body.len() - 1],
    )
}

/// The handshake event a frame stands for, if any.
pub open spec fn event_of(m: ReadModel) -> Option<LinkEvent> {
    match m {
        ReadModel::Ack { .. } => Some(LinkEvent::AckReceived),
        ReadModel::Nack { .. } => Some(LinkEvent::NackReceived),
        ReadModel::Cancel { .. } => Some(LinkEvent::CancelReceived),
        ReadModel::Data { body, .. } => Some(LinkEvent::DataReceived { checksum_ok: body_sound(body) }),
        _ => None,
    }
}

/// How many buffered bytes a frame takes.
pub open spec fn consumed_of(m: ReadModel) -> nat {
    match m {
        ReadModel::Incomplete => 0,
        ReadModel::Ack { consumed } => consumed,
        ReadModel::Nack { consumed } => consumed,
        ReadModel::Cancel { consumed } => consumed,
        ReadModel::Data { consumed, .. } => consumed,
        ReadModel::UnknownFrameType { consumed, .. } => consumed,
    }
}

/// Whether `r` reports the frame `m`.
pub open spec fn reports(r: Received, m: ReadModel) -> bool {
    match m {
        ReadModel::Incomplete => r == Received::Nothing,
        ReadModel::Ack { .. } => r == Received::Ack,
        ReadModel::Nack { .. } => r == Received::Nack,
        ReadModel::Cancel { .. } => r == Received::Cancel,
        ReadModel::Data { body, .. } => r is Data && r->Data_0@ == body,
        ReadModel::UnknownFrameType { tag, .. } => r == Received::UnknownFrameType(tag),
    }
}

/// The state of one link: the bytes received and not yet taken, and the
/// handshake.
pub struct Engine {
    inbox: Vec<u8>,
    link: Handshake,
}

impl Engine {
    pub closed spec fn inbox_view(&self) -> Seq<u8> {
        self.inbox@
    }

    pub closed spec fn link_view(&self) -> LinkState {
        self.link.view()
    }

    /// An engine with nothing received and nothing in flight.
    pub fn new(config: LinkConfig) -> (r: Engine)
        ensures
            r.inbox_view().len() == 0,
            r.link_view() == (LinkState {
                phase: LinkPhase::ReadingFrame,
                retries: 0,
                max_retries: config.max_retries,
                pending: Seq::empty(),
                resend: false,
            }),
    {
        Engine { inbox: Vec::new(), link: Handshake::new(config) }
    }

    /// Appends bytes read from the transport.
    pub fn push_bytes(&mut self, bytes: &[u8])
        requires
            old(self).inbox_view().len() + bytes@.len() <= usize::MAX,
        ensures
            final(self).inbox_view() == old(self).inbox_view() + bytes@,
            final(self).link_view() == old(self).link_view(),
    {
        let mut i: usize = 0;
        while i < bytes.len()
            invariant
                i <= bytes@.len(),
                self.inbox@ == old(self).inbox@ + bytes@.take(i as int),
                self.link.view() == old(self).link.view(),
                old(self).inbox@.len() + bytes@.len() <= usize::MAX,
            decreases bytes@.len() - i,
        {
            self.inbox.push(bytes[i]);
            i = i + 1;
            assert(self.inbox@ == old(self).inbox@ + bytes@.take(i as int));
        }
        assert(bytes@.take(i as int) == bytes@);
    }

    /// Takes the first whole frame from the buffer, if there is one, and
    /// hands it to the handshake.
    pub fn poll(&mut self) -> (r: Poll)
        ensures
            ({
                let m = read_of(old(self).inbox_view());
                &&& reports(r.received, m)
                &&& final(self).inbox_view() == old(self).inbox_view().subrange(
                    consumed_of(m) as int,
                    old(self).inbox_view().len() as int,
                )
                &&& event_of(m) is Some ==> (final(self).link_view(), r.action) == step(
                    old(self).link_view(),
                    event_of(m)->0,
                )
                &&& event_of(m) is None ==> final(self).link_view() == old(self).link_view()
                    && r.action == LinkAction::ReadMore
            }),
    {
        let (received, consumed) = match read_frame(self.inbox.as_slice()) {
            FrameRead::Incomplete => (Received::Nothing, 0),
            FrameRead::Complete { frame, consumed } => match frame {
                Frame::Ack => (Received::Ack, consumed),
                Frame::Nack => (Received::Nack, consumed),
                Frame::Cancel => (Received::Cancel, consumed),
                Frame::Data { body } => (Received::Data(slice_to_vec(body)), consumed),
            },
            FrameRead::UnknownFrameType { tag, consumed } => (Received::UnknownFrameType(tag), consumed),
        };
        let rest = self.inbox.split_off(consumed);
        self.inbox = rest;
        let action = match &received {
            Received::Nothing => LinkAction::ReadMore,
            Received::UnknownFrameType(_) => LinkAction::ReadMore,
            Received::Ack => self.link.on_event(LinkEvent::AckReceived),
            Received::Nack => self.link.on_event(LinkEvent::NackReceived),
            Received::Cancel => self.link.on_event(LinkEvent::CancelReceived),
            Received::Data(body) => {
                let checksum_ok = Self::sound(body.as_slice());
                self.link.on_event(LinkEvent::DataReceived { checksum_ok })
            },
        };
        Poll { received, action }
    }

    fn sound(body: &[u8]) -> (r: bool)
        ensures
            r == body_sound(body@),
    {
        let n = body.len();
        if n < 2 {
            return false;
        }
        verify(n as u8, slice_subrange(body, 0, n - 1), body[n - 1])
    }

    /// Takes a message (type byte and payload) to send.
    pub fn send(&mut self, bytes: &[u8]) -> (r: LinkAction)
        ensures
            (final(self).link_view(), r) == crate::handshake::send_step(old(self).link_view(), bytes@),
            final(self).inbox_view() == old(self).inbox_view(),
    {
        self.link.send(bytes)
    }

    /// Reports that the last write requested has been completed.
    pub fn write_complete(&mut self) -> (r: LinkAction)
        ensures
            (final(self).link_view(), r) == step(old(self).link_view(), LinkEvent::WriteComplete),
            final(self).inbox_view() == old(self).inbox_view(),
    {
        self.link.on_event(LinkEvent::WriteComplete)
    }

    /// Reports that the acknowledgment deadline elapsed.
    pub fn timeout(&mut self) -> (r: LinkAction)
        ensures
            (final(self).link_view(), r) == step(old(self).link_view(), LinkEvent::Timeout),
            final(self).inbox_view() == old(self).inbox_view(),
    {
        self.link.on_event(LinkEvent::Timeout)
    }

    /// The frame to write on `Transmit` and `Retransmit`.
    pub fn pending_frame(&self) -> (r: &[u8])
        ensures
            r@ == self.link_view().pending,
    {
        self.link.pending_frame()
    }

    /// The handshake's current phase.
    pub fn phase(&self) -> (r: LinkPhase)
        ensures
            r == self.link_view().phase,
    {
        self.link.phase()
    }

    /// How many received bytes wait to be taken.
    pub fn buffered(&self) -> (r: usize)
        ensures
            r == self.inbox_view().len(),
    {
        self.inbox.len()
    }
}

} // verus!
