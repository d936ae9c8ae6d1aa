//! Laws of the framing layer, proved over the state machine of
//! [`LinkState`] and the wire form of [`PacketView`].

use crate::link::{LinkState, Step, Verdict};
use crate::packet::{seq_is_valid, seq_next, PacketSeq, PacketView};
use crate::parser::{TimerAction, SYNC_ACK, SYNC_REQ, SYNC_STATE_READY, SYNC_STATE_RECV};
use vstd::prelude::*;

verus! {

/// Every byte is a valid sequence number exactly when it lies in `1..=0xEF`,
/// and the successor of every byte is valid.
pub proof fn lemma_seq_validity_total(b: PacketSeq)
    ensures
        seq_is_valid(b) <==> (1 <= b <= 0xef),
        seq_is_valid(seq_next(b)),
{
}

/// The successor wraps from `0xEF` to `1` and otherwise adds one to a valid
/// sequence number.
pub proof fn lemma_seq_wrap(b: PacketSeq)
    ensures
        seq_next(0xef) == 1,
        (seq_is_valid(b) && b < 0xef) ==> seq_next(b) == b + 1,
{
}

/// The wire form of a packet is two header bytes and the payload when the
/// payload is shorter than seven bytes, and three header bytes and the
/// payload otherwise. This holds of every well-formed packet, and of every
/// packet but those whose payload is 256 bytes or longer with a length whose
/// low byte is below seven.
pub proof fn lemma_wire_length(pkt: PacketView)
    requires
        pkt.data.len() < 256 || pkt.data.len() % 256 >= 7,
    ensures
        pkt.wire_bytes().len() == if pkt.data.len() < 7 {
            2 + pkt.data.len()
        } else {
            3 + pkt.data.len()
        },
{
}

/// A reset always gives the same transition, so a second reset right after
/// a first one returns the same result and leaves the same state.
pub proof fn lemma_reset_idempotent(s: LinkState)
    ensures
        s.on_reset().next.on_reset() == s.on_reset(),
        s.on_reset().next == LinkState::AwaitSyncAck,
        s.on_reset().verdict == (Verdict { sync: SYNC_REQ, state: 0, packet: None }),
{
}

/// A byte leaves a well-formed state well formed.
pub proof fn lemma_on_byte_well_formed(s: LinkState, b: u8)
    requires
        s.well_formed(),
    ensures
        s.on_byte(b).next.well_formed(),
{
    assert((b & 0x8f) & 0x70 == 0) by (bit_vector);
    assert(((b >> 4) & 7) <= 7) by (bit_vector);
}

/// A timeout and a reset leave every state well formed.
pub proof fn lemma_on_timeout_well_formed(s: LinkState)
    requires
        s.well_formed(),
    ensures
        s.on_timeout().next.well_formed(),
        s.on_reset().next.well_formed(),
{
}

/// Feeding any bytes to a well-formed state gives a well-formed state.
pub proof fn lemma_feed_well_formed(s: LinkState, bytes: Seq<u8>)
    requires
        s.well_formed(),
    ensures
        s.feed(bytes).well_formed(),
    decreases bytes.len(),
{
    if bytes.len() > 0 {
        lemma_feed_well_formed(s, bytes.drop_last());
        lemma_on_byte_well_formed(s.feed(bytes.drop_last()), bytes.last());
    }
}

/// A packet that the parser emits has a valid sequence number, a payload of
/// at most 127 bytes, and an opcode whose reserved bits `0x70` are clear.
pub proof fn lemma_emitted_packet(s: LinkState, b: u8)
    requires
        s.well_formed(),
    ensures
        s.on_byte(b).verdict.packet matches Some(p) ==> {
            &&& p.code & 0x70 == 0
            &&& seq_is_valid(p.seq)
            &&& p.well_formed()
            &&& s.on_byte(b).next == (LinkState::AwaitMsgSeq { peer_seq: seq_next(p.seq) })
        },
        s.on_timeout().verdict.packet is None,
        s.on_reset().verdict.packet is None,
{
    assert((b & 0x8f) & 0x70 == 0) by (bit_vector);
}

/// The timer verb of each transition, by the state that it leads to: stop
/// exactly when the link ends up idle and synchronized, no change exactly
/// when a byte other than a sync signal is ignored before any handshake,
/// and restart in every other case.
pub proof fn lemma_timer_action_by_step(s: LinkState, b: u8)
    ensures
        (s.on_byte(b).verdict.timer_action() == TimerAction::Stop) <==> (s.on_byte(b).next
            is AwaitMsgSeq),
        (s.on_byte(b).verdict.timer_action() == TimerAction::NoChange) <==> (s is AwaitSyncAck
            && b != SYNC_REQ && b != SYNC_ACK),
        (s.on_byte(b).verdict.timer_action() == TimerAction::Stop) ==> (s.completes_sync(b)
            || s.synchronized()),
{
    assert(0u8 & 1 == 0 && 0u8 & 2 == 0 && 1u8 & 1 != 0 && 1u8 & 2 == 0 && 2u8 & 2 != 0 && (1u8 | 2)
        & 2 != 0) by (bit_vector);
}

/// A link is synchronized only after a handshake: if the state reached from
/// the initial state by `bytes` is synchronized, then one of those bytes
/// completed a handshake.
pub proof fn lemma_synchronized_after_handshake(bytes: Seq<u8>) -> (j: int)
    requires
        LinkState::AwaitSyncAck.feed(bytes).synchronized(),
    ensures
        0 <= j < bytes.len(),
        LinkState::AwaitSyncAck.feed(bytes.take(j)).completes_sync(bytes[j]),
    decreases bytes.len(),
{
    let start = LinkState::AwaitSyncAck;
    let before = bytes.drop_last();
    assert(bytes.len() > 0);
    assert(bytes.take(bytes.len() - 1) =~= before);
    if start.feed(before).synchronized() {
        let j = lemma_synchronized_after_handshake(before);
        assert(before.take(j) =~= bytes.take(j));
        j
    } else {
        bytes.len() - 1
    }
}

/// The timer is never stopped before the first successful handshake: when
/// bytes are fed to a parser in its initial state and the verdict for byte
/// `i` stops the timer, then byte `i` or a byte before it completed a
/// handshake.
pub proof fn lemma_no_stop_before_sync(bytes: Seq<u8>, i: int) -> (j: int)
    requires
        0 <= i < bytes.len(),
        LinkState::AwaitSyncAck.step_at(bytes, i).verdict.timer_action() == TimerAction::Stop,
    ensures
        0 <= j <= i,
        LinkState::AwaitSyncAck.feed(bytes.take(j)).completes_sync(bytes[j]),
{
    let start = LinkState::AwaitSyncAck;
    let before = bytes.take(i);
    lemma_timer_action_by_step(start.feed(before), bytes[i]);
    if start.feed(before).completes_sync(bytes[i]) {
        i
    } else {
        let j = lemma_synchronized_after_handshake(before);
        assert(before.take(j) =~= bytes.take(j));
        j
    }
}

/// A handshake synchronizes the link on the sequence number that the peer
/// announces. A sync request is answered with a sync acknowledgement, both
/// before any handshake and while idle; a sync acknowledgement from the peer
/// needs no answer.
pub proof fn lemma_handshake(s: LinkState, seq0: PacketSeq)
    requires
        s is AwaitSyncAck || s is AwaitMsgSeq,
        seq_is_valid(seq0),
    ensures
        s.on_byte(SYNC_REQ).next.on_byte(seq0) == (Step {
            next: LinkState::AwaitMsgSeq { peer_seq: seq0 },
            verdict: Verdict { sync: SYNC_ACK, state: SYNC_STATE_READY, packet: None },
        }),
        LinkState::AwaitSyncAck.on_byte(SYNC_ACK).next.on_byte(seq0) == (Step {
            next: LinkState::AwaitMsgSeq { peer_seq: seq0 },
            verdict: Verdict { sync: 0, state: SYNC_STATE_READY, packet: None },
        }),
{
}

/// The state of a synchronized link that expected `pkt` and has consumed the
/// first `i` bytes of its wire form.
spec fn state_within_frame(pkt: PacketView, i: int) -> LinkState {
    let peer_seq = seq_next(pkt.seq);
    let code = pkt.code & 0x8f;
    let head = pkt.header().len() as int;
    if i == 0 {
        LinkState::AwaitMsgSeq { peer_seq: pkt.seq }
    } else if i == 1 {
        LinkState::AwaitMsgCode { peer_seq, seq: pkt.seq }
    } else if i < head {
        LinkState::AwaitMsgLen { peer_seq, seq: pkt.seq, code }
    } else {
        LinkState::AwaitMsgData {
            peer_seq,
            seq: pkt.seq,
            code,
            data: pkt.data.take(i - head),
            expected: pkt.data.len(),
        }
    }
}

/// The opcode byte of a header gives back the opcode bits and the length
/// nibble that it was built from.
proof fn lemma_code_byte(pkt: PacketView)
    requires
        pkt.well_formed(),
    ensures
        pkt.length_byte() == pkt.data.len(),
        pkt.code_byte() & 0x8f == pkt.code & 0x8f,
        (pkt.code_byte() >> 4) & 7 == if pkt.data.len() < 7 {
            pkt.length_byte()
        } else {
            7u8
        },
{
    let c = pkt.code;
    let l = pkt.length_byte();
    assert(l < 7 ==> ((c & 0x8f) | ((l << 4) & 0x70)) & 0x8f == c & 0x8f && ((((c & 0x8f) | ((l
        << 4) & 0x70)) >> 4) & 7) == l) by (bit_vector);
    assert(((c & 0x8f) | 0x70) & 0x8f == c & 0x8f && ((((c & 0x8f) | 0x70) >> 4) & 7) == 7)
        by (bit_vector);
}

/// Every byte of a frame but the last moves the link to the next state
/// within the frame.
proof fn lemma_frame_step(pkt: PacketView, i: int)
    requires
        pkt.well_formed(),
        seq_is_valid(pkt.seq),
        0 <= i < pkt.wire_bytes().len() - 1,
    ensures
        state_within_frame(pkt, i).on_byte(pkt.wire_bytes()[i]) == LinkState::moved(
            state_within_frame(pkt, i + 1),
        ),
{
    lemma_code_byte(pkt);
    let head = pkt.header().len() as int;
    if i >= head {
        assert(pkt.data.take(i - head).push(pkt.data[i - head]) =~= pkt.data.take(i + 1 - head));
    } else {
        assert(pkt.data.take(0) =~= Seq::<u8>::empty());
    }
}

/// The last byte of a frame completes the packet.
proof fn lemma_frame_last(pkt: PacketView)
    requires
        pkt.well_formed(),
        seq_is_valid(pkt.seq),
    ensures
        state_within_frame(pkt, pkt.wire_bytes().len() - 1).on_byte(pkt.wire_bytes().last())
            == LinkState::emit(
            seq_next(pkt.seq),
            PacketView { seq: pkt.seq, code: pkt.code & 0x8f, data: pkt.data },
        ),
{
    lemma_code_byte(pkt);
    let len = pkt.data.len() as int;
    if len == 0 {
        assert(pkt.data =~= Seq::<u8>::empty());
    } else {
        assert(pkt.data.take(len - 1).push(pkt.data[len - 1]) =~= pkt.data);
    }
}

/// Feeding the first `i` bytes of a frame to a synchronized link that
/// expects its sequence number leads to the `i`-th state within the frame.
proof fn lemma_feed_frame(pkt: PacketView, i: int)
    requires
        pkt.well_formed(),
        seq_is_valid(pkt.seq),
        0 <= i < pkt.wire_bytes().len(),
    ensures
        (LinkState::AwaitMsgSeq { peer_seq: pkt.seq }).feed(pkt.wire_bytes().take(i))
            == state_within_frame(pkt, i),
    decreases i,
{
    let wire = pkt.wire_bytes();
    if i > 0 {
        lemma_feed_frame(pkt, i - 1);
        lemma_frame_step(pkt, i - 1);
        assert(wire.take(i).drop_last() =~= wire.take(i - 1));
    }
}

/// Encoding round trip. Let a link be synchronized and expect the sequence
/// number of `pkt`, a packet with a valid sequence number and at most 127
/// payload bytes. When the wire form of `pkt` is fed to it, the last byte
/// emits `pkt` with its opcode masked to `0x8F`, and the link then expects
/// the successor of the sequence number. Every byte before the last reports
/// a link that is ready and receiving, with nothing to send and no packet.
pub proof fn lemma_round_trip(pkt: PacketView)
    requires
        pkt.well_formed(),
        seq_is_valid(pkt.seq),
    ensures
        ({
            let start = LinkState::AwaitMsgSeq { peer_seq: pkt.seq };
            let wire = pkt.wire_bytes();
            &&& start.step_at(wire, wire.len() - 1) == LinkState::emit(
                seq_next(pkt.seq),
                PacketView { seq: pkt.seq, code: pkt.code & 0x8f, data: pkt.data },
            )
            &&& forall|i: int|
                0 <= i < wire.len() - 1 ==> (#[trigger] start.step_at(wire, i)).verdict == (Verdict {
                    sync: 0,
                    state: SYNC_STATE_READY | SYNC_STATE_RECV,
                    packet: None,
                })
        }),
{
    let start = LinkState::AwaitMsgSeq { peer_seq: pkt.seq };
    let wire = pkt.wire_bytes();
    lemma_feed_frame(pkt, wire.len() - 1);
    lemma_frame_last(pkt);
    assert forall|i: int| 0 <= i < wire.len() - 1 implies (#[trigger] start.step_at(
        wire,
        i,
    )).verdict == (Verdict { sync: 0, state: SYNC_STATE_READY | SYNC_STATE_RECV, packet: None }) by {
        lemma_feed_frame(pkt, i);
        lemma_frame_step(pkt, i);
    }
}

} // verus!
