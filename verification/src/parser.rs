//! The receive side of a link: per-event results and the incremental parser.

use crate::link::{LinkState, Verdict};
use crate::packet::{seq_is_valid, seq_next, Packet, PacketSeq, Sequencer, PACKET_DATA_MAX};
use vstd::prelude::*;

verus! {

/// Sync signal: asks the peer to restart its send sequence.
pub const SYNC_REQ: u8 = 0xff;

/// Sync signal: acknowledges a sync request.
pub const SYNC_ACK: u8 = 0xfe;

/// A bitset over [`SYNC_STATE_READY`] and [`SYNC_STATE_RECV`].
pub type SyncState = u8;

/// The link is synchronized.
pub const SYNC_STATE_READY: SyncState = 0x01;

/// The receiver is in the middle of a handshake or a frame.
pub const SYNC_STATE_RECV: SyncState = 0x02;

/// What the caller should do with its inter-byte timer.
#[derive(Debug, Clone, Copy, PartialEq, Eq, Structural)]
pub enum TimerAction {
    /// Leave the timer as it is.
    NoChange,
    /// Restart the timer.
    Restart,
    /// Stop the timer.
    Stop,
}

/// The `READY` bit of a state bitset.
pub open spec fn state_is_ready(state: SyncState) -> bool {
    state & SYNC_STATE_READY != 0
}

/// The `RECV` bit of a state bitset.
pub open spec fn state_is_receiving(state: SyncState) -> bool {
    state & SYNC_STATE_RECV != 0
}

/// Reads the bits of a state bitset.
pub trait SyncStateReader {
    /// Whether the `READY` bit is set.
    fn is_ready(self) -> bool;

    /// Whether the `RECV` bit is set.
    fn is_receiving(self) -> bool;
}

impl SyncStateReader for SyncState {
    fn is_ready(self) -> (r: bool)
        ensures
            r == state_is_ready(self),
    {
        self & SYNC_STATE_READY != 0
    }

    fn is_receiving(self) -> (r: bool)
        ensures
            r == state_is_receiving(self),
    {
        self & SYNC_STATE_RECV != 0
    }
}

/// The parser's answer to one event.
#[derive(Debug)]
pub struct ParseResult {
    /// Zero, or the sync signal that the caller must transmit.
    pub sync: u8,
    /// The synchronization state after the event.
    pub state: SyncState,
    /// The packet that the event completed, if any.
    pub packet: Option<Packet>,
}

impl View for ParseResult {
    type V = Verdict;

    open spec fn view(&self) -> Verdict {
        Verdict {
            sync: self.sync,
            state: self.state,
            packet: match self.packet {
                Some(p) => Some(p@),
                None => None,
            },
        }
    }
}

impl PartialEq for ParseResult {
    /// Two results are equal when their sync signals and state bits are, and
    /// both carry no packet or equal packets.
    fn eq(&self, other: &Self) -> (r: bool) {
        self.sync == other.sync && self.state == other.state && match &self.packet {
            Some(pkt) => match &other.packet {
                Some(pkt1) => pkt == pkt1,
                _ => false,
            },
            None => match &other.packet {
                None => true,
                _ => false,
            },
        }
    }
}

impl vstd::std_specs::cmp::PartialEqSpecImpl for ParseResult {
    open spec fn obeys_eq_spec() -> bool {
        true
    }

    open spec fn eq_spec(&self, other: &Self) -> bool {
        self@ == other@
    }
}

impl ParseResult {
    /// A result without a packet.
    fn new(sync: u8, state: SyncState) -> (r: ParseResult)
        ensures
            r@ == (Verdict { sync, state, packet: None }),
    {
        ParseResult { sync, state, packet: None }
    }

    /// The result that hands a completed packet to the caller.
    fn new_packet(pkt: Option<Packet>) -> (r: ParseResult)
        ensures
            r.sync == 0,
            r.state == SYNC_STATE_READY,
            r.packet == pkt,
    {
        ParseResult { sync: 0, state: SYNC_STATE_READY, packet: pkt }
    }

    /// What the caller should do with its timer after this result.
    pub fn timer_action(&self) -> (a: TimerAction)
        ensures
            a == self@.timer_action(),
    {
        if self.state.is_receiving() || self.sync == SYNC_REQ {
            TimerAction::Restart
        } else if self.state.is_ready() {
            TimerAction::Stop
        } else {
            TimerAction::NoChange
        }
    }
}

/// Where the parser stands in the handshake or in a frame.
#[derive(Debug, Clone, Copy, PartialEq, Eq, Structural)]
enum ParsingState {
    /// Waiting for a sync signal.
    SyncAck,
    /// Waiting for the sequence number that follows a sync request.
    SyncReqSeq,
    /// Waiting for the sequence number that follows a sync acknowledgement.
    SyncAckSeq,
    /// Waiting for the sequence byte of a packet.
    MsgSeq,
    /// A sync acknowledgement arrived while idle; waiting for the sequence.
    MsgAckSeq,
    /// Waiting for the opcode byte.
    MsgCode,
    /// Waiting for the explicit length byte.
    MsgLen,
    /// Waiting for payload bytes.
    MsgData,
}

/// The incremental receive state machine. It consumes one byte per call and
/// answers each with a [`ParseResult`].
pub struct Parser {
    state: ParsingState,
    peer_seq: PacketSeq,
    packet: Option<Packet>,
    data_len: usize,
}

/// Whether the fields of a parser fit parsing state `state`.
spec fn fields_fit(
    state: ParsingState,
    peer_seq: PacketSeq,
    packet: Option<Packet>,
    data_len: usize,
) -> bool {
    match state {
        ParsingState::SyncAck | ParsingState::SyncReqSeq | ParsingState::SyncAckSeq => true,
        ParsingState::MsgSeq | ParsingState::MsgAckSeq => seq_is_valid(peer_seq),
        ParsingState::MsgCode => {
            &&& packet matches Some(p)
            &&& p.data@.len() == 0
            &&& seq_is_valid(p.seq)
            &&& peer_seq == seq_next(p.seq)
        },
        ParsingState::MsgLen => {
            &&& packet matches Some(p)
            &&& p.data@.len() == 0
            &&& seq_is_valid(p.seq)
            &&& peer_seq == seq_next(p.seq)
            &&& p.code & 0x70 == 0
        },
        ParsingState::MsgData => {
            &&& packet matches Some(p)
            &&& p.data@.len() < data_len <= PACKET_DATA_MAX
            &&& seq_is_valid(p.seq)
            &&& peer_seq == seq_next(p.seq)
            &&& p.code & 0x70 == 0
        },
    }
}

impl View for Parser {
    type V = LinkState;

    closed spec fn view(&self) -> LinkState {
        match self.state {
            ParsingState::SyncAck => LinkState::AwaitSyncAck,
            ParsingState::SyncReqSeq => LinkState::AwaitReqSeq,
            ParsingState::SyncAckSeq => LinkState::AwaitAckSeq,
            ParsingState::MsgSeq => LinkState::AwaitMsgSeq { peer_seq: self.peer_seq },
            ParsingState::MsgAckSeq => LinkState::AwaitMsgAckSeq { peer_seq: self.peer_seq },
            ParsingState::MsgCode => LinkState::AwaitMsgCode {
                peer_seq: self.peer_seq,
                seq: self.packet.unwrap().seq,
            },
            ParsingState::MsgLen => LinkState::AwaitMsgLen {
                peer_seq: self.peer_seq,
                seq: self.packet.unwrap().seq,
                code: self.packet.unwrap().code,
            },
            ParsingState::MsgData => LinkState::AwaitMsgData {
                peer_seq: self.peer_seq,
                seq: self.packet.unwrap().seq,
                code: self.packet.unwrap().code,
                data: self.packet.unwrap().data@,
                expected: self.data_len as nat,
            },
        }
    }
}

impl Parser {
    /// The representation invariant: the fields fit the parsing state. It
    /// holds of every parser made by [`Parser::new`] and is kept by every
    /// method.
    pub closed spec fn inv(&self) -> bool {
        fields_fit(self.state, self.peer_seq, self.packet, self.data_len)
    }

    /// The state of a parser that satisfies its invariant is well formed.
    pub proof fn lemma_inv_well_formed(&self)
        requires
            self.inv(),
        ensures
            self@.well_formed(),
    {
    }

    /// A parser in the initial state, waiting for a sync signal.
    pub fn new() -> (p: Parser)
        ensures
            p.inv(),
            p@ == LinkState::AwaitSyncAck,
    {
        Parser { state: ParsingState::SyncAck, peer_seq: 0, packet: None, data_len: 0 }
    }

    /// Abandons whatever was in progress and returns to the initial state.
    /// The result tells the caller to transmit a sync request.
    pub fn reset(&mut self) -> (r: ParseResult)
        ensures
            final(self).inv(),
            final(self)@ == old(self)@.on_reset().next,
            r@ == old(self)@.on_reset().verdict,
    {
        self.state = ParsingState::SyncAck;
        ParseResult::new(SYNC_REQ, 0)
    }

    /// Consumes one received byte: takes the transition of
    /// [`LinkState::on_byte`] and returns its verdict. A packet that comes out
    /// has the reserved bits `0x70` of its opcode cleared.
    pub fn parse(&mut self, b: u8) -> (r: ParseResult)
        requires
            old(self).inv(),
        ensures
            final(self).inv(),
            final(self)@ == old(self)@.on_byte(b).next,
            r@ == old(self)@.on_byte(b).verdict,
            r.packet matches Some(p) ==> p.code & 0x70 == 0,
    {
        match self.state {
            ParsingState::SyncAck => {
                if b == SYNC_REQ {
                    self.transit_and_result(ParsingState::SyncReqSeq)
                } else if b == SYNC_ACK {
                    self.transit_and_result(ParsingState::SyncAckSeq)
                } else {
                    self.result_from_state()
                }
            },
            ParsingState::SyncReqSeq => {
                if b.is_valid() {
                    self.peer_seq = b;
                    self.state = ParsingState::MsgSeq;
                    ParseResult::new(SYNC_ACK, SYNC_STATE_READY)
                } else {
                    self.reset()
                }
            },
            ParsingState::SyncAckSeq => {
                if b.is_valid() {
                    self.peer_seq = b;
                    self.transit_and_result(ParsingState::MsgSeq)
                } else {
                    self.reset()
                }
            },
            ParsingState::MsgSeq => {
                if b == SYNC_REQ {
                    self.transit_and_result(ParsingState::SyncReqSeq)
                } else if b == SYNC_ACK {
                    self.transit_and_result(ParsingState::MsgAckSeq)
                } else if b == self.peer_seq {
                    self.packet = Some(Packet::new_with_seq(b));
                    self.peer_seq = self.peer_seq.next();
                    self.transit_and_result(ParsingState::MsgCode)
                } else {
                    self.reset()
                }
            },
            ParsingState::MsgAckSeq => {
                if b == self.peer_seq {
                    self.transit_and_result(ParsingState::MsgSeq)
                } else {
                    self.reset()
                }
            },
            ParsingState::MsgCode => {
                proof {
                    assert((b & 0x8f) & 0x70 == 0) by (bit_vector);
                    assert((b >> 4) & 7 <= 7) by (bit_vector);
                    assert(self.packet.unwrap().data@ =~= Seq::<u8>::empty());
                }
                let pkt = self.packet.as_mut().unwrap();
                pkt.code = b & 0x8f;
                let data_len: u8 = (b >> 4) & 7;
                if data_len == 0 {
                    self.packet_ready()
                } else if data_len == 7 {
                    self.transit_and_result(ParsingState::MsgLen)
                } else {
                    self.data_len = data_len as usize;
                    self.transit_and_result(ParsingState::MsgData)
                }
            },
            ParsingState::MsgLen => {
                proof {
                    assert(self.packet.unwrap().data@ =~= Seq::<u8>::empty());
                }
                if b >= 0x80 {
                    self.reset()
                } else if b == 0 {
                    self.packet_ready()
                } else {
                    self.data_len = b as usize;
                    self.transit_and_result(ParsingState::MsgData)
                }
            },
            ParsingState::MsgData => {
                let pkt = self.packet.as_mut().unwrap();
                pkt.data.push(b);
                if pkt.data.len() >= self.data_len {
                    self.packet_ready()
                } else {
                    self.result_from_state()
                }
            },
        }
    }

    /// Reports that the caller's timer fired. While idle and synchronized
    /// this changes nothing; anywhere else it is a loss of synchronization.
    pub fn timeout(&mut self) -> (r: ParseResult)
        requires
            old(self).inv(),
        ensures
            final(self).inv(),
            final(self)@ == old(self)@.on_timeout().next,
            r@ == old(self)@.on_timeout().verdict,
    {
        if self.state != ParsingState::MsgSeq {
            self.reset()
        } else {
            self.result_from_state()
        }
    }

    /// Moves to `state` and reports its state bits.
    fn transit_and_result(&mut self, state: ParsingState) -> (r: ParseResult)
        requires
            fields_fit(state, old(self).peer_seq, old(self).packet, old(self).data_len),
        ensures
            final(self).state == state,
            final(self).peer_seq == old(self).peer_seq,
            final(self).packet == old(self).packet,
            final(self).data_len == old(self).data_len,
            r@ == final(self)@.report(),
    {
        self.state = state;
        self.result_from_state()
    }

    /// The result that only reports the state bits of the current state.
    fn result_from_state(&self) -> (r: ParseResult)
        ensures
            r@ == self@.report(),
    {
        ParseResult::new(
            0,
            match self.state {
                ParsingState::SyncAck => 0,
                ParsingState::SyncReqSeq | ParsingState::SyncAckSeq => SYNC_STATE_RECV,
                ParsingState::MsgSeq => SYNC_STATE_READY,
                ParsingState::MsgAckSeq
                | ParsingState::MsgCode
                | ParsingState::MsgLen
                | ParsingState::MsgData => SYNC_STATE_READY | SYNC_STATE_RECV,
            },
        )
    }

    /// Goes idle and hands the packet in progress to the caller.
    fn packet_ready(&mut self) -> (r: ParseResult)
        requires
            seq_is_valid(old(self).peer_seq),
        ensures
            final(self).state == ParsingState::MsgSeq,
            final(self).peer_seq == old(self).peer_seq,
            final(self).data_len == old(self).data_len,
            r.sync == 0,
            r.state == SYNC_STATE_READY,
            r.packet == old(self).packet,
    {
        self.state = ParsingState::MsgSeq;
        ParseResult::new_packet(self.packet.take())
    }
}

} // verus!
