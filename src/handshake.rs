//! The acknowledgment handshake: which phase the link is in, what to send
//! next, and when to retransmit.
//!
//! The machine never blocks: it takes one event and returns the action the
//! caller has to perform. A data frame that arrives while an acknowledgment
//! is awaited is answered as usual and counts as a negative acknowledgment
//! of the message in flight, which is then retransmitted.
use vstd::prelude::*;
use crate::frame::{data_frame_of, encode_data, ACK, MAX_DATA_LEN, NACK};

verus! {

/// Default deadline for an acknowledgment, in milliseconds.
pub const DEFAULT_ACK_TIMEOUT_MS: u64 = 100_000;

/// Default number of retransmissions of one message.
pub const DEFAULT_MAX_RETRIES: u32 = 3;

/// The link's phase; exactly one is active at a time.
#[derive(Debug, Clone, Copy, PartialEq, Eq, Structural)]
pub enum LinkPhase {
    /// Nothing in flight: frames are read as they come.
    ReadingFrame,
    /// A message went out; a control frame is expected before the deadline.
    AwaitingAck,
    /// A message frame is being written.
    WritingMessage,
    /// A control frame answering a received data frame is being written.
    WritingAck,
}

/// Something that happened on the link.
#[derive(Debug, Clone, Copy, PartialEq, Eq, Structural)]
pub enum LinkEvent {
    AckReceived,
    NackReceived,
    CancelReceived,
    /// A whole data frame arrived; `checksum_ok` tells whether it passed.
    DataReceived { checksum_ok: bool },
    /// The last write requested has been completed.
    WriteComplete,
    /// The acknowledgment deadline elapsed.
    Timeout,
}

/// What the caller has to do next.
#[derive(Debug, Clone, Copy, PartialEq, Eq, Structural)]
pub enum LinkAction {
    /// Nothing to write: go on reading.
    ReadMore,
    /// Write the pending message frame for the first time.
    Transmit,
    /// Write the pending message frame again.
    Retransmit,
    /// Write this control byte.
    WriteControl(u8),
    /// The message is out: start the acknowledgment deadline.
    AwaitAck,
    /// The controller acknowledged the message.
    Delivered,
    /// A message is still in flight: the new one was not taken.
    Busy,
    /// The message is empty or too long for one data frame.
    Unframeable,
    /// The event means nothing in the current phase.
    Ignored,
    /// The message was retransmitted as often as allowed and still not
    /// acknowledged. The link has to be reset.
    RetryLimitExceeded,
}

/// The settings of one link.
#[derive(Debug, Clone, Copy, PartialEq, Eq, Structural)]
pub struct LinkConfig {
    /// How long to wait for an acknowledgment, in milliseconds.
    pub ack_timeout_ms: u64,
    /// How many times one message may be retransmitted.
    pub max_retries: u32,
}

/// The handshake state of one link.
pub struct Handshake {
    phase: LinkPhase,
    retries: u32,
    config: LinkConfig,
    pending: Vec<u8>,
    resend: bool,
}

/// The handshake state as plain values.
pub ghost struct LinkState {
    pub phase: LinkPhase,
    /// Retransmissions of the pending message so far.
    pub retries: u32,
    pub max_retries: u32,
    /// The frame of the message in flight.
    pub pending: Seq<u8>,
    /// A data frame interrupted the wait for an acknowledgment: once it is
    /// answered, the pending message goes out again.
    pub resend: bool,
}

/// The outcome of a retransmission request: another try, or the end when
/// all were spent.
pub open spec fn retry(s: LinkState) -> (LinkState, LinkAction) {
    if s.retries < s.max_retries {
        (
            LinkState {
                phase: LinkPhase::WritingMessage,
                retries: (s.retries + 1) as u32,
                resend: false,
                ..s
            },
            LinkAction::Retransmit,
        )
    } else {
        (
            LinkState {
                phase: LinkPhase::ReadingFrame,
                retries: 0,
                pending: Seq::empty(),
                resend: false,
                ..s
            },
            LinkAction::RetryLimitExceeded,
        )
    }
}

/// The control byte that answers a data frame.
pub open spec fn answer(checksum_ok: bool) -> u8 {
    if checksum_ok {
        ACK
    } else {
        NACK
    }
}

/// One transition of the handshake.
pub open spec fn step(s: LinkState, e: LinkEvent) -> (LinkState, LinkAction) {
    match (s.phase, e) {
        (LinkPhase::ReadingFrame, LinkEvent::DataReceived { checksum_ok }) => (
            LinkState { phase: LinkPhase::WritingAck, ..s },
            LinkAction::WriteControl(answer(checksum_ok)),
        ),
        (LinkPhase::WritingMessage, LinkEvent::WriteComplete) => (
            LinkState { phase: LinkPhase::AwaitingAck, ..s },
            LinkAction::AwaitAck,
        ),
        (LinkPhase::AwaitingAck, LinkEvent::AckReceived) => (
            LinkState {
                phase: LinkPhase::ReadingFrame,
                retries: 0,
                pending: Seq::empty(),
                ..s
            },
            LinkAction::Delivered,
        ),
        (LinkPhase::AwaitingAck, LinkEvent::NackReceived) => retry(s),
        (LinkPhase::AwaitingAck, LinkEvent::CancelReceived) => retry(s),
        (LinkPhase::AwaitingAck, LinkEvent::Timeout) => retry(s),
        (LinkPhase::AwaitingAck, LinkEvent::DataReceived { checksum_ok }) => (
            LinkState { phase: LinkPhase::WritingAck, resend: true, ..s },
            LinkAction::WriteControl(answer(checksum_ok)),
        ),
        (LinkPhase::WritingAck, LinkEvent::WriteComplete) => if s.resend {
            retry(s)
        } else {
            (LinkState { phase: LinkPhase::ReadingFrame, ..s }, LinkAction::ReadMore)
        },
        _ => (s, LinkAction::Ignored),
    }
}

/// A request to send the message `bytes` (type byte and payload).
pub open spec fn send_step(s: LinkState, bytes: Seq<u8>) -> (LinkState, LinkAction) {
    if s.phase != LinkPhase::ReadingFrame {
        (s, LinkAction::Busy)
    } else if !(1 <= bytes.len() <= MAX_DATA_LEN) {
        (s, LinkAction::Unframeable)
    } else {
        (
            LinkState {
                phase: LinkPhase::WritingMessage,
                retries: 0,
                pending: data_frame_of(bytes),
                resend: false,
                ..s
            },
            LinkAction::Transmit,
        )
    }
}

/// The state after `k` rounds of a deadline elapsing and the retransmission
/// it caused being written.
pub open spec fn timeout_rounds(s: LinkState, k: nat) -> LinkState
    decreases k,
{
    if k == 0 {
        s
    } else {
        let t = timeout_rounds(s, (k - 1) as nat);
        step(step(t, LinkEvent::Timeout).0, LinkEvent::WriteComplete).0
    }
}

/// While no acknowledgment comes, each elapsed deadline causes exactly one
/// retransmission, up to the configured limit; the deadline after that ends
/// the attempt with `RetryLimitExceeded` and returns the link to reading.
pub proof fn lemma_timeouts_bounded(s: LinkState, k: nat)
    requires
        s.phase == LinkPhase::AwaitingAck,
        s.retries == 0,
        !s.resend,
        k <= s.max_retries,
    ensures
        timeout_rounds(s, k) == (LinkState { retries: k as u32, ..s }),
        k < s.max_retries ==> step(timeout_rounds(s, k), LinkEvent::Timeout) == (
            LinkState { phase: LinkPhase::WritingMessage, retries: (k + 1) as u32, ..s },
            LinkAction::Retransmit,
        ),
        k == s.max_retries ==> step(timeout_rounds(s, k), LinkEvent::Timeout).1
            == LinkAction::RetryLimitExceeded,
        k == s.max_retries ==> step(timeout_rounds(s, k), LinkEvent::Timeout).0.phase
            == LinkPhase::ReadingFrame,
    decreases k,
{
    if k > 0 {
        lemma_timeouts_bounded(s, (k - 1) as nat);
    }
}

/// An acknowledgment of the message in flight always ends the exchange:
/// the link reads frames again with nothing pending.
pub proof fn lemma_ack_completes(s: LinkState)
    requires
        s.phase == LinkPhase::AwaitingAck,
    ensures
        step(s, LinkEvent::AckReceived).0.phase == LinkPhase::ReadingFrame,
        step(s, LinkEvent::AckReceived).0.pending.len() == 0,
        step(s, LinkEvent::AckReceived).1 == LinkAction::Delivered,
{
}

/// A new message is taken only when nothing is in flight.
pub proof fn lemma_one_message_in_flight(s: LinkState, bytes: Seq<u8>)
    requires
        s.phase != LinkPhase::ReadingFrame,
    ensures
        send_step(s, bytes) == (s, LinkAction::Busy),
{
}

impl LinkConfig {
    /// An acknowledgment deadline of 100 seconds and three retransmissions.
    pub fn new() -> (r: LinkConfig)
        ensures
            r.ack_timeout_ms == DEFAULT_ACK_TIMEOUT_MS,
            r.max_retries == DEFAULT_MAX_RETRIES,
    {
        LinkConfig { ack_timeout_ms: DEFAULT_ACK_TIMEOUT_MS, max_retries: DEFAULT_MAX_RETRIES }
    }
}

impl Handshake {
    pub closed spec fn view(&self) -> LinkState {
        LinkState {
            phase: self.phase,
            retries: self.retries,
            max_retries: self.config.max_retries,
            pending: self.pending@,
            resend: self.resend,
        }
    }

    pub closed spec fn spec_config(&self) -> LinkConfig {
        self.config
    }

    /// A link that reads frames and has nothing in flight.
    pub fn new(config: LinkConfig) -> (r: Handshake)
        ensures
            r.view() == (LinkState {
                phase: LinkPhase::ReadingFrame,
                retries: 0,
                max_retries: config.max_retries,
                pending: Seq::empty(),
                resend: false,
            }),
            r.spec_config() == config,
    {
        Handshake { phase: LinkPhase::ReadingFrame, retries: 0, config, pending: Vec::new(), resend: false }
    }

    /// The current phase.
    pub fn phase(&self) -> (r: LinkPhase)
        ensures
            r == self.view().phase,
    {
        self.phase
    }

    /// How often the pending message has been retransmitted.
    pub fn retries(&self) -> (r: u32)
        ensures
            r == self.view().retries,
    {
        self.retries
    }

    /// The settings the link was made with.
    pub fn config(&self) -> (r: LinkConfig)
        ensures
            r == self.spec_config(),
    {
        self.config
    }

    /// The frame to write on `Transmit` and `Retransmit`.
    pub fn pending_frame(&self) -> (r: &[u8])
        ensures
            r@ == self.view().pending,
    {
        self.pending.as_slice()
    }

    fn retry(&mut self) -> (r: LinkAction)
        ensures
            (final(self).view(), r) == retry(old(self).view()),
            final(self).spec_config() == old(self).spec_config(),
    {
        self.resend = false;
        if self.retries < self.config.max_retries {
            self.phase = LinkPhase::WritingMessage;
            self.retries = self.retries + 1;
            LinkAction::Retransmit
        } else {
            self.phase = LinkPhase::ReadingFrame;
            self.retries = 0;
            self.pending = Vec::new();
            LinkAction::RetryLimitExceeded
        }
    }

    /// Takes one event and says what to do next.
    pub fn on_event(&mut self, e: LinkEvent) -> (r: LinkAction)
        ensures
            (final(self).view(), r) == step(old(self).view(), e),
            final(self).spec_config() == old(self).spec_config(),
    {
        match (self.phase, e) {
            (LinkPhase::ReadingFrame, LinkEvent::DataReceived { checksum_ok }) => {
                self.phase = LinkPhase::WritingAck;
                LinkAction::WriteControl(if checksum_ok { ACK } else { NACK })
            },
            (LinkPhase::WritingMessage, LinkEvent::WriteComplete) => {
                self.phase = LinkPhase::AwaitingAck;
                LinkAction::AwaitAck
            },
            (LinkPhase::AwaitingAck, LinkEvent::AckReceived) => {
                self.phase = LinkPhase::ReadingFrame;
                self.retries = 0;
                self.pending = Vec::new();
                LinkAction::Delivered
            },
            (LinkPhase::AwaitingAck, LinkEvent::NackReceived) => self.retry(),
            (LinkPhase::AwaitingAck, LinkEvent::CancelReceived) => self.retry(),
            (LinkPhase::AwaitingAck, LinkEvent::Timeout) => self.retry(),
            (LinkPhase::AwaitingAck, LinkEvent::DataReceived { checksum_ok }) => {
                self.phase = LinkPhase::WritingAck;
                self.resend = true;
                LinkAction::WriteControl(if checksum_ok { ACK } else { NACK })
            },
            (LinkPhase::WritingAck, LinkEvent::WriteComplete) => {
                if self.resend {
                    self.retry()
                } else {
                    self.phase = LinkPhase::ReadingFrame;
                    LinkAction::ReadMore
                }
            },
            _ => LinkAction::Ignored,
        }
    }

    /// Takes a message (type byte and payload) to send, when nothing else is
    /// in flight.
    pub fn send(&mut self, bytes: &[u8]) -> (r: LinkAction)
        ensures
            (final(self).view(), r) == send_step(old(self).view(), bytes@),
            final(self).spec_config() == old(self).spec_config(),
    {
        if self.phase != LinkPhase::ReadingFrame {
            return LinkAction::Busy;
        }
        match encode_data(bytes) {
            None => LinkAction::Unframeable,
            Some(f) => {
                self.phase = LinkPhase::WritingMessage;
                self.retries = 0;
                self.pending = f;
                self.resend = false;
                LinkAction::Transmit
            },
        }
    }
}

} // verus!
