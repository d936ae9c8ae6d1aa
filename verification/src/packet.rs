//! Sequence numbers, the packet record and its wire encoding.

use vstd::prelude::*;

verus! {

/// A one-byte wrap-around packet counter.
pub type PacketSeq = u8;

/// A sequence number is valid when it lies in `1..=0xEF`; zero and the top
/// sixteen values are reserved for sync signals and other sentinels.
pub open spec fn seq_is_valid(s: PacketSeq) -> bool {
    1 <= s <= 0xef
}

/// The successor of a sequence number: `0xEF` and every invalid value at or
/// above it wrap to `1`, everything else advances by one.
pub open spec fn seq_next(s: PacketSeq) -> PacketSeq {
    if s >= 0xef {
        1u8
    } else {
        (s + 1) as u8
    }
}

/// Successor and validity rules for one-byte sequence numbers.
pub trait Sequencer {
    /// The sequence number that follows this one.
    fn next(&self) -> PacketSeq;

    /// Whether this value may be used as a sequence number.
    fn is_valid(&self) -> bool;
}

impl Sequencer for PacketSeq {
    fn next(&self) -> (r: PacketSeq)
        ensures
            r == seq_next(*self),
            seq_is_valid(r),
            *self < 0xef ==> r == *self + 1,
            *self >= 0xef ==> r == 1,
    {
        let n: u8 = *self;
        if n >= 0xef {
            1
        } else {
            n + 1
        }
    }

    fn is_valid(&self) -> (r: bool)
        ensures
            r == seq_is_valid(*self),
            r <==> (1 <= *self <= 0xef),
    {
        let n: u8 = *self;
        n > 0 && n < 0xf0
    }
}

/// Capacity that a fresh packet reserves for its payload.
pub const PACKET_DATA_BUF_LEN: usize = 128;

/// The longest payload that the wire format can carry.
pub const PACKET_DATA_MAX: usize = 127;

/// A framed message: sequence number, opcode and payload.
#[derive(Debug)]
pub struct Packet {
    pub seq: PacketSeq,
    pub code: u8,
    pub data: Vec<u8>,
}

/// The mathematical content of a [`Packet`].
pub struct PacketView {
    pub seq: PacketSeq,
    pub code: u8,
    pub data: Seq<u8>,
}

impl PacketView {
    /// The payload fits the wire format.
    pub open spec fn well_formed(self) -> bool {
        self.data.len() <= PACKET_DATA_MAX
    }

    /// The low eight bits of the payload length, which is the length itself
    /// for every well-formed packet.
    pub open spec fn length_byte(self) -> u8 {
        (self.data.len() % 256) as u8
    }

    /// The second header byte: the opcode bits `0x8F` together with the
    /// length nibble in bits `0x70`. The nibble holds the length when it is
    /// below seven, and the escape value seven otherwise.
    pub open spec fn code_byte(self) -> u8 {
        if self.length_byte() < 7 {
            (self.code & 0x8f) | ((self.length_byte() << 4) & 0x70)
        } else {
            (self.code & 0x8f) | 0x70
        }
    }

    /// The two or three header bytes.
    pub open spec fn header(self) -> Seq<u8> {
        if self.length_byte() < 7 {
            seq![self.seq, self.code_byte()]
        } else {
            seq![self.seq, self.code_byte(), self.length_byte()]
        }
    }

    /// The packet as it travels: header, then the payload verbatim.
    pub open spec fn wire_bytes(self) -> Seq<u8> {
        self.header() + self.data
    }
}

impl View for Packet {
    type V = PacketView;

    open spec fn view(&self) -> PacketView {
        PacketView { seq: self.seq, code: self.code, data: self.data@ }
    }
}

impl PartialEq for Packet {
    /// Two packets are equal when their sequence numbers, opcodes and
    /// payloads are.
    fn eq(&self, other: &Self) -> (r: bool) {
        let same_data = self.data == other.data;
        proof {
            assert(same_data == (self.data@ =~= other.data@));
        }
        self.seq == other.seq && self.code == other.code && same_data
    }
}

impl vstd::std_specs::cmp::PartialEqSpecImpl for Packet {
    open spec fn obeys_eq_spec() -> bool {
        true
    }

    open spec fn eq_spec(&self, other: &Self) -> bool {
        self@ == other@
    }
}

impl Packet {
    /// An empty packet with sequence number and opcode zero.
    pub fn new() -> (p: Packet)
        ensures
            p@ == (PacketView { seq: 0, code: 0, data: Seq::empty() }),
    {
        Packet { seq: 0, code: 0, data: Vec::with_capacity(PACKET_DATA_BUF_LEN) }
    }

    /// An empty packet with the given sequence number and opcode zero.
    pub fn new_with_seq(seq: u8) -> (p: Packet)
        ensures
            p@ == (PacketView { seq, code: 0, data: Seq::empty() }),
    {
        Packet::new_with(seq, 0)
    }

    /// An empty packet with the given sequence number and opcode.
    pub fn new_with(seq: u8, code: u8) -> (p: Packet)
        ensures
            p@ == (PacketView { seq, code, data: Seq::empty() }),
    {
        Packet { seq, code, data: Vec::with_capacity(PACKET_DATA_BUF_LEN) }
    }

    /// Builds the header of this packet.
    pub fn header(&self) -> (h: Vec<u8>)
        ensures
            h@ == self@.header(),
    {
        let len: u8 = (self.data.len() % 256) as u8;
        let mut h: Vec<u8> = Vec::with_capacity(3);
        h.push(self.seq);
        if len < 7 {
            h.push((self.code & 0x8f) | ((len << 4) & 0x70));
        } else {
            h.push((self.code & 0x8f) | 0x70);
            h.push(len);
        }
        h
    }

    /// Appends the wire form of this packet to the sink `w` and returns the
    /// number of bytes appended: header and payload. That is two more than
    /// the payload when the payload is shorter than seven bytes, and three
    /// more when it is longer and the low byte of its length is seven or
    /// more, as it is for every length from 7 to 255.
    pub fn encode(&self, w: &mut Vec<u8>) -> (count: usize)
        ensures
            final(w)@ == old(w)@ + self@.wire_bytes(),
            count == self@.wire_bytes().len(),
            self.data@.len() < 7 ==> count == 2 + self.data@.len(),
            self.data@.len() >= 7 && self.data@.len() % 256 >= 7 ==> count == 3 + self.data@.len(),
    {
        let start: usize = w.len();
        let mut head = self.header();
        w.append(&mut head);
        w.extend_from_slice(self.data.as_slice());
        w.len() - start
    }
}

} // verus!
