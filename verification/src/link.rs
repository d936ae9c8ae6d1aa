//! The receive state machine as a mathematical object: the states of a link,
//! the verdict returned for each event, and the transition function.

use crate::packet::{seq_is_valid, seq_next, PacketSeq, PacketView, PACKET_DATA_MAX};
use crate::parser::{
    state_is_ready, state_is_receiving, SyncState, TimerAction, SYNC_ACK, SYNC_REQ, SYNC_STATE_READY,
    SYNC_STATE_RECV,
};
use vstd::prelude::*;

verus! {

/// The mathematical content of a parse result: the sync signal to transmit
/// (or zero), the state bitset, and the packet completed by this event.
pub struct Verdict {
    pub sync: u8,
    pub state: SyncState,
    pub packet: Option<PacketView>,
}

impl Verdict {
    /// The timer verb that a verdict calls for: restart while receiving or
    /// when a sync request goes out, stop when idle and synchronized,
    /// otherwise leave the timer alone.
    pub open spec fn timer_action(self) -> TimerAction {
        if state_is_receiving(self.state) || self.sync == SYNC_REQ {
            TimerAction::Restart
        } else if state_is_ready(self.state) {
            TimerAction::Stop
        } else {
            TimerAction::NoChange
        }
    }
}

/// The state of the receiving side of a link. Each state carries exactly the
/// data that later transitions read.
pub enum LinkState {
    /// Initial state, and the state after every desync: waiting for a sync
    /// signal from the peer.
    AwaitSyncAck,
    /// A sync request arrived; the peer's initial sequence number is next.
    AwaitReqSeq,
    /// A sync acknowledgement arrived; the peer's initial sequence number is
    /// next.
    AwaitAckSeq,
    /// Synchronized and idle: waiting for the sequence byte of a packet.
    AwaitMsgSeq { peer_seq: PacketSeq },
    /// A sync acknowledgement arrived while idle; the peer is expected to
    /// confirm the sequence number.
    AwaitMsgAckSeq { peer_seq: PacketSeq },
    /// The sequence byte of a packet was consumed; the opcode byte is next.
    AwaitMsgCode { peer_seq: PacketSeq, seq: PacketSeq },
    /// The opcode byte carried the escape length; the length byte is next.
    AwaitMsgLen { peer_seq: PacketSeq, seq: PacketSeq, code: u8 },
    /// Payload bytes are being collected until `expected` of them are there.
    AwaitMsgData { peer_seq: PacketSeq, seq: PacketSeq, code: u8, data: Seq<u8>, expected: nat },
}

/// One transition: the state that follows and the verdict for the caller.
pub struct Step {
    pub next: LinkState,
    pub verdict: Verdict,
}

impl LinkState {
    /// The link has completed a handshake and not lost sync since.
    pub open spec fn synchronized(self) -> bool {
        !(self is AwaitSyncAck || self is AwaitReqSeq || self is AwaitAckSeq)
    }

    /// The state bitset reported for a byte that was consumed without
    /// completing a packet.
    pub open spec fn state_bits(self) -> SyncState {
        match self {
            LinkState::AwaitSyncAck => 0,
            LinkState::AwaitReqSeq | LinkState::AwaitAckSeq => SYNC_STATE_RECV,
            LinkState::AwaitMsgSeq { .. } => SYNC_STATE_READY,
            LinkState::AwaitMsgAckSeq { .. }
            | LinkState::AwaitMsgCode { .. }
            | LinkState::AwaitMsgLen { .. }
            | LinkState::AwaitMsgData { .. } => SYNC_STATE_READY | SYNC_STATE_RECV,
        }
    }

    /// The verdict that only reports the state bits of `self`.
    pub open spec fn report(self) -> Verdict {
        Verdict { sync: 0, state: self.state_bits(), packet: None }
    }

    /// Moving to `next` and reporting its state bits.
    pub open spec fn moved(next: LinkState) -> Step {
        Step { next, verdict: next.report() }
    }

    /// Loss of synchronization: back to the initial state, and the caller is
    /// told to transmit a sync request.
    pub open spec fn desync() -> Step {
        Step {
            next: LinkState::AwaitSyncAck,
            verdict: Verdict { sync: SYNC_REQ, state: 0, packet: None },
        }
    }

    /// Handing a completed packet to the caller and going idle.
    pub open spec fn emit(peer_seq: PacketSeq, packet: PacketView) -> Step {
        Step {
            next: LinkState::AwaitMsgSeq { peer_seq },
            verdict: Verdict { sync: 0, state: SYNC_STATE_READY, packet: Some(packet) },
        }
    }

    /// The transition taken when byte `b` arrives.
    pub open spec fn on_byte(self, b: u8) -> Step {
        match self {
            LinkState::AwaitSyncAck => {
                if b == SYNC_REQ {
                    Self::moved(LinkState::AwaitReqSeq)
                } else if b == SYNC_ACK {
                    Self::moved(LinkState::AwaitAckSeq)
                } else {
                    Self::moved(LinkState::AwaitSyncAck)
                }
            },
            LinkState::AwaitReqSeq => {
                if seq_is_valid(b) {
                    Step {
                        next: LinkState::AwaitMsgSeq { peer_seq: b },
                        verdict: Verdict { sync: SYNC_ACK, state: SYNC_STATE_READY, packet: None },
                    }
                } else {
                    Self::desync()
                }
            },
            LinkState::AwaitAckSeq => {
                if seq_is_valid(b) {
                    Self::moved(LinkState::AwaitMsgSeq { peer_seq: b })
                } else {
                    Self::desync()
                }
            },
            LinkState::AwaitMsgSeq { peer_seq } => {
                if b == SYNC_REQ {
                    Self::moved(LinkState::AwaitReqSeq)
                } else if b == SYNC_ACK {
                    Self::moved(LinkState::AwaitMsgAckSeq { peer_seq })
                } else if b == peer_seq {
                    Self::moved(LinkState::AwaitMsgCode { peer_seq: seq_next(peer_seq), seq: b })
                } else {
                    Self::desync()
                }
            },
            LinkState::AwaitMsgAckSeq { peer_seq } => {
                if b == peer_seq {
                    Self::moved(LinkState::AwaitMsgSeq { peer_seq })
                } else {
                    Self::desync()
                }
            },
            LinkState::AwaitMsgCode { peer_seq, seq } => {
                let code = b & 0x8f;
                let nibble = (b >> 4) & 7;
                if nibble == 0 {
                    Self::emit(peer_seq, PacketView { seq, code, data: Seq::empty() })
                } else if nibble == 7 {
                    Self::moved(LinkState::AwaitMsgLen { peer_seq, seq, code })
                } else {
                    Self::moved(
                        LinkState::AwaitMsgData {
                            peer_seq,
                            seq,
                            code,
                            data: Seq::empty(),
                            expected: nibble as nat,
                        },
                    )
                }
            },
            LinkState::AwaitMsgLen { peer_seq, seq, code } => {
                if b >= 0x80 {
                    Self::desync()
                } else if b == 0 {
                    Self::emit(peer_seq, PacketView { seq, code, data: Seq::empty() })
                } else {
                    Self::moved(
                        LinkState::AwaitMsgData {
                            peer_seq,
                            seq,
                            code,
                            data: Seq::empty(),
                            expected: b as nat,
                        },
                    )
                }
            },
            LinkState::AwaitMsgData { peer_seq, seq, code, data, expected } => {
                let data = data.push(b);
                if data.len() >= expected {
                    Self::emit(peer_seq, PacketView { seq, code, data })
                } else {
                    Self::moved(LinkState::AwaitMsgData { peer_seq, seq, code, data, expected })
                }
            },
        }
    }

    /// The transition taken when the caller's timer fires: nothing happens
    /// while idle and synchronized, and everywhere else the link desyncs.
    pub open spec fn on_timeout(self) -> Step {
        if self is AwaitMsgSeq {
            Step { next: self, verdict: self.report() }
        } else {
            Self::desync()
        }
    }

    /// The transition taken on an explicit reset.
    pub open spec fn on_reset(self) -> Step {
        Self::desync()
    }

    /// The state reached from `self` after the bytes of `bytes` arrived in
    /// order.
    pub open spec fn feed(self, bytes: Seq<u8>) -> LinkState
        decreases bytes.len(),
    {
        if bytes.len() == 0 {
            self
        } else {
            self.feed(bytes.drop_last()).on_byte(bytes.last()).next
        }
    }

    /// The transition taken for byte `i` of `bytes`, when the bytes arrive in
    /// order and `self` is the state before the first of them.
    pub open spec fn step_at(self, bytes: Seq<u8>, i: int) -> Step {
        self.feed(bytes.take(i)).on_byte(bytes[i])
    }

    /// Byte `b` arriving in state `self` completes a handshake.
    pub open spec fn completes_sync(self, b: u8) -> bool {
        (self is AwaitReqSeq || self is AwaitAckSeq) && seq_is_valid(b)
    }

    /// What holds of every state that a parser can be in.
    pub open spec fn well_formed(self) -> bool {
        match self {
            LinkState::AwaitSyncAck | LinkState::AwaitReqSeq | LinkState::AwaitAckSeq => true,
            LinkState::AwaitMsgSeq { peer_seq } | LinkState::AwaitMsgAckSeq { peer_seq } => {
                seq_is_valid(peer_seq)
            },
            LinkState::AwaitMsgCode { peer_seq, seq } => {
                &&& seq_is_valid(seq)
                &&& peer_seq == seq_next(seq)
            },
            LinkState::AwaitMsgLen { peer_seq, seq, code } => {
                &&& seq_is_valid(seq)
                &&& peer_seq == seq_next(seq)
                &&& code & 0x70 == 0
            },
            LinkState::AwaitMsgData { peer_seq, seq, code, data, expected } => {
                &&& seq_is_valid(seq)
                &&& peer_seq == seq_next(seq)
                &&& code & 0x70 == 0
                &&& data.len() < expected <= PACKET_DATA_MAX
            },
        }
    }
}

} // verus!
