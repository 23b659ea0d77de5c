//! The frame reader: from one binary message to its sub-packets and ticks.
//!
//! A frame starts with a 16-bit count. Each sub-packet that follows is a
//! 16-bit length and a body of that many bytes. Lengths differ within one
//! frame, so the position of a sub-packet is the running sum of what came
//! before it, never a multiple of its index.

use crate::tick::{decode_packet, known_length, tick_of, Tick};
use crate::wire::{i16_at, i16_bytes, i32_at, lemma_i16_round_trip, read_i16_at, read_i32_at};
use vstd::prelude::*;
use vstd::slice::slice_subrange;

verus! {

/// Why a frame was given up. No tick of such a frame is delivered.
#[derive(Clone, Copy, Debug, PartialEq, Eq, Structural)]
pub enum ProtocolViolation {
    /// The frame ends before the length of a declared sub-packet.
    MissingLength,
    /// A sub-packet declares a negative length.
    NegativeLength,
    /// The frame ends before the body of a declared sub-packet does.
    TruncatedPacket,
}

/// One sub-packet of a frame: where its body lies, and whose it is.
#[derive(Clone, Copy, Debug, PartialEq, Eq, Structural)]
pub struct Packet {
    /// The first four bytes of the body, where it has that many.
    pub instrument_token: Option<i32>,
    /// Offset of the body in the frame, behind the length that precedes it.
    pub start: usize,
    /// Number of bytes in the body.
    pub length: usize,
}

/// A frame of at most two bytes is a heartbeat and holds no sub-packet.
pub const HEARTBEAT_MAX: usize = 2;

/// What decoding a frame gives.
#[derive(Clone, Debug, PartialEq, Eq)]
pub struct Batch {
    /// The ticks of the sub-packets with a known layout, in frame order.
    pub ticks: Vec<Tick>,
    /// The lengths of the sub-packets that were passed over, in frame order.
    pub skipped: Vec<usize>,
}

/// The number of sub-packets that a frame declares. A negative count declares
/// none.
pub open spec fn declared_count(frame: Seq<u8>) -> nat {
    if i16_at(frame, 0) > 0 {
        i16_at(frame, 0) as nat
    } else {
        0
    }
}

/// The sub-packet whose length prefix is at byte `at` of the frame.
pub open spec fn packet_at(frame: Seq<u8>, at: int) -> Packet {
    let length = i16_at(frame, at);
    Packet {
        instrument_token: if length >= 4 {
            Some(i32_at(frame, at + 2))
        } else {
            None
        },
        start: (at + 2) as usize,
        length: length as usize,
    }
}

/// The next `count` sub-packets of a frame, the first with its length prefix
/// at byte `at`, or the reason why there are not that many.
pub open spec fn packets_from(frame: Seq<u8>, at: int, count: nat) -> Result<
    Seq<Packet>,
    ProtocolViolation,
>
    decreases count,
{
    if count == 0 {
        Ok(Seq::empty())
    } else if at + 2 > frame.len() {
        Err(ProtocolViolation::MissingLength)
    } else if i16_at(frame, at) < 0 {
        Err(ProtocolViolation::NegativeLength)
    } else if at + 2 + i16_at(frame, at) > frame.len() {
        Err(ProtocolViolation::TruncatedPacket)
    } else {
        match packets_from(frame, at + 2 + i16_at(frame, at), (count - 1) as nat) {
            Ok(rest) => Ok(seq![packet_at(frame, at)] + rest),
            Err(violation) => Err(violation),
        }
    }
}

/// The sub-packets of a frame. A heartbeat has none; any other frame has as
/// many as it declares, or is in violation of the protocol.
pub open spec fn packets_of(frame: Seq<u8>) -> Result<Seq<Packet>, ProtocolViolation> {
    if frame.len() <= HEARTBEAT_MAX {
        Ok(Seq::empty())
    } else {
        packets_from(frame, 2, declared_count(frame))
    }
}

/// Whether every sub-packet of `packets` lies inside a frame of `length` bytes.
pub open spec fn packets_within(packets: Seq<Packet>, length: nat) -> bool {
    forall|i: int| 0 <= i < packets.len() ==> (#[trigger] packets[i]).start + packets[i].length <= length
}

/// The body of a sub-packet.
pub open spec fn body_of(frame: Seq<u8>, packet: Packet) -> Seq<u8> {
    frame.subrange(packet.start as int, packet.start + packet.length)
}

/// The ticks of the sub-packets that have a known layout, in order.
pub open spec fn ticks_in(frame: Seq<u8>, packets: Seq<Packet>) -> Seq<Tick>
    decreases packets.len(),
{
    if packets.len() == 0 {
        Seq::empty()
    } else {
        let before = ticks_in(frame, packets.drop_last());
        match tick_of(body_of(frame, packets.last())) {
            Some(tick) => before.push(tick),
            None => before,
        }
    }
}

/// The lengths of the sub-packets that have no known layout, in order.
pub open spec fn skipped_in(packets: Seq<Packet>) -> Seq<usize>
    decreases packets.len(),
{
    if packets.len() == 0 {
        Seq::empty()
    } else {
        let before = skipped_in(packets.drop_last());
        if known_length(packets.last().length as nat) {
            before
        } else {
            before.push(packets.last().length)
        }
    }
}

/// The bytes that a run of sub-packets takes in a frame: for each, two bytes
/// of length and the body.
pub open spec fn span_of(packets: Seq<Packet>) -> int
    decreases packets.len(),
{
    if packets.len() == 0 {
        0
    } else {
        2 + packets[0].length + span_of(packets.drop_first())
    }
}

/// A run of sub-packets as it appears in a frame: each body behind its
/// 16-bit length.
pub open spec fn packets_bytes(bodies: Seq<Seq<u8>>) -> Seq<u8>
    decreases bodies.len(),
{
    if bodies.len() == 0 {
        Seq::empty()
    } else {
        i16_bytes(bodies[0].len() as i16) + bodies[0] + packets_bytes(bodies.drop_first())
    }
}

/// The frame that holds `bodies` as its sub-packets: their number, then the
/// sub-packets.
pub open spec fn frame_of(bodies: Seq<Seq<u8>>) -> Seq<u8> {
    i16_bytes(bodies.len() as i16) + packets_bytes(bodies)
}

/// Whether `bodies` can stand in one frame: their number and the length of
/// each fit the 16 bits that the frame has for them, and the frame fits in
/// memory.
pub open spec fn frameable(bodies: Seq<Seq<u8>>) -> bool {
    &&& bodies.len() <= i16::MAX
    &&& forall|i: int| 0 <= i < bodies.len() ==> (#[trigger] bodies[i]).len() <= i16::MAX
    &&& frame_of(bodies).len() <= usize::MAX
}

/// Whether `packets` are the sub-packets of `frame` that hold `bodies`, one
/// for one.
pub open spec fn holds_bodies(frame: Seq<u8>, packets: Seq<Packet>, bodies: Seq<Seq<u8>>) -> bool {
    &&& packets.len() == bodies.len()
    &&& forall|i: int|
        0 <= i < packets.len() ==> body_of(frame, #[trigger] packets[i]) == bodies[i]
}

/// Reading from byte `at` of a frame whose rest is the encoding of `bodies`
/// gives one sub-packet for each body, and ends where the frame ends.
proof fn lemma_packets_from_encoded(frame: Seq<u8>, at: int, bodies: Seq<Seq<u8>>)
    requires
        0 <= at <= frame.len() <= usize::MAX,
        frame.subrange(at, frame.len() as int) == packets_bytes(bodies),
        forall|i: int| 0 <= i < bodies.len() ==> (#[trigger] bodies[i]).len() <= i16::MAX,
    ensures
        packets_from(frame, at, bodies.len()) is Ok,
        holds_bodies(frame, packets_from(frame, at, bodies.len())->Ok_0, bodies),
        at + span_of(packets_from(frame, at, bodies.len())->Ok_0) == frame.len(),
    decreases bodies.len(),
{
    if bodies.len() > 0 {
        let rest = frame.subrange(at, frame.len() as int);
        let body = bodies[0];
        let others = bodies.drop_first();
        let prefix = i16_bytes(body.len() as i16);
        lemma_i16_round_trip(body.len() as i16);
        assert(rest == prefix + body + packets_bytes(others));
        assert(rest.len() == 2 + body.len() + packets_bytes(others).len());
        assert(frame[at] == rest[0] && frame[at + 1] == rest[1]);
        assert(rest[0] == prefix[0] && rest[1] == prefix[1]);
        assert(i16_at(frame, at) == body.len());
        let size = body.len() as int;
        let next = at + 2 + size;
        assert(rest.subrange(2 + size, rest.len() as int) =~= packets_bytes(others));
        assert(frame.subrange(next, frame.len() as int) =~= rest.subrange(
            2 + size,
            rest.len() as int,
        ));
        assert forall|i: int| 0 <= i < others.len() implies (#[trigger] others[i]).len()
            <= i16::MAX by {
            assert(others[i] == bodies[i + 1]);
        }
        lemma_packets_from_encoded(frame, next, others);
        let tail = packets_from(frame, next, others.len())->Ok_0;
        assert(next + span_of(tail) == frame.len());
        let first = packet_at(frame, at);
        let packets = seq![first] + tail;
        assert(packets_from(frame, at, bodies.len()) == Ok::<Seq<Packet>, ProtocolViolation>(
            packets,
        ));
        assert(first.start == at + 2 && first.length == body.len());
        assert(rest.subrange(2, 2 + size) =~= body);
        assert(body_of(frame, first) =~= rest.subrange(2, 2 + size));
        assert(packets.drop_first() =~= tail);
        assert forall|i: int| 0 <= i < packets.len() implies body_of(frame, #[trigger] packets[i])
            == bodies[i] by {
            if i > 0 {
                assert(packets[i] == tail[i - 1]);
                assert(bodies[i] == others[i - 1]);
            }
        }
        assert(span_of(packets) == 2 + first.length + span_of(tail));
    } else {
        assert(frame.subrange(at, frame.len() as int).len() == 0);
    }
}

/// Where the sub-packets of a frame lie.
///
/// There are as many as the frame declares. The first body starts behind the
/// count and its own length, at byte 4. Each further body starts behind the
/// body before it and its own length: positions add up, whatever the lengths
/// are. Every body lies inside the frame.
pub proof fn lemma_packets_layout(frame: Seq<u8>)
    requires
        frame.len() > HEARTBEAT_MAX,
        frame.len() <= usize::MAX,
        packets_of(frame) is Ok,
    ensures
        ({
            let packets = packets_of(frame)->Ok_0;
            &&& packets.len() == declared_count(frame)
            &&& packets.len() > 0 ==> packets[0].start == 4
            &&& forall|i: int|
                0 <= i < packets.len() - 1 ==> (#[trigger] packets[i + 1]).start == packets[i].start
                    + packets[i].length + 2
            &&& packets_within(packets, frame.len())
            &&& 2 + span_of(packets) <= frame.len()
        }),
{
    lemma_packets_from_layout(frame, 2, declared_count(frame));
}

/// Where the next `count` sub-packets of a frame lie, the first with its
/// length at byte `at`.
proof fn lemma_packets_from_layout(frame: Seq<u8>, at: int, count: nat)
    requires
        0 <= at <= frame.len() <= usize::MAX,
        packets_from(frame, at, count) is Ok,
    ensures
        ({
            let packets = packets_from(frame, at, count)->Ok_0;
            &&& packets.len() == count
            &&& packets.len() > 0 ==> packets[0].start == at + 2
            &&& forall|i: int|
                0 <= i < packets.len() - 1 ==> (#[trigger] packets[i + 1]).start == packets[i].start
                    + packets[i].length + 2
            &&& packets_within(packets, frame.len())
            &&& at + span_of(packets) <= frame.len()
        }),
    decreases count,
{
    if count > 0 {
        let length = i16_at(frame, at) as int;
        let next = at + 2 + length;
        lemma_packets_from_layout(frame, next, (count - 1) as nat);
        let tail = packets_from(frame, next, (count - 1) as nat)->Ok_0;
        let first = packet_at(frame, at);
        let packets = seq![first] + tail;
        assert(packets_from(frame, at, count)->Ok_0 == packets);
        assert(packets.drop_first() =~= tail);
        assert forall|i: int| 0 <= i < packets.len() - 1 implies (#[trigger] packets[i
            + 1]).start == packets[i].start + packets[i].length + 2 by {
            if i > 0 {
                assert(packets[i] == tail[i - 1]);
                assert(packets[i + 1] == tail[i]);
            } else {
                assert(packets[1] == tail[0]);
            }
        }
        assert forall|i: int| 0 <= i < packets.len() implies (#[trigger] packets[i]).start
            + packets[i].length <= frame.len() by {
            if i > 0 {
                assert(packets[i] == tail[i - 1]);
            }
        }
    }
}

/// A frame is consumed to its last byte, whatever the lengths of its
/// sub-packets: the frame that holds `bodies` is read as one sub-packet for
/// each body, with that body, and two bytes of count and the sub-packets with
/// their lengths are all there is of it.
pub proof fn lemma_frame_round_trip(bodies: Seq<Seq<u8>>)
    requires
        frameable(bodies),
    ensures
        packets_of(frame_of(bodies)) is Ok,
        holds_bodies(frame_of(bodies), packets_of(frame_of(bodies))->Ok_0, bodies),
        2 + span_of(packets_of(frame_of(bodies))->Ok_0) == frame_of(bodies).len(),
{
    let frame = frame_of(bodies);
    lemma_i16_round_trip(bodies.len() as i16);
    if bodies.len() == 0 {
        assert(packets_bytes(bodies) =~= Seq::<u8>::empty());
        assert(frame.len() == 2);
    } else {
        let count = i16_bytes(bodies.len() as i16);
        assert(frame[0] == count[0] && frame[1] == count[1]);
        assert(declared_count(frame) == bodies.len());
        assert(packets_bytes(bodies).len() >= 2);
        assert(frame.subrange(2, frame.len() as int) =~= packets_bytes(bodies));
        lemma_packets_from_encoded(frame, 2, bodies);
    }
}

/// The ticks of the bodies that have a known layout, in order.
pub open spec fn ticks_of(bodies: Seq<Seq<u8>>) -> Seq<Tick>
    decreases bodies.len(),
{
    if bodies.len() == 0 {
        Seq::empty()
    } else {
        let before = ticks_of(bodies.drop_last());
        match tick_of(bodies.last()) {
            Some(tick) => before.push(tick),
            None => before,
        }
    }
}

/// The ticks of sub-packets are the ticks of their bodies.
proof fn lemma_ticks_of_bodies(frame: Seq<u8>, packets: Seq<Packet>, bodies: Seq<Seq<u8>>)
    requires
        holds_bodies(frame, packets, bodies),
    ensures
        ticks_in(frame, packets) == ticks_of(bodies),
    decreases packets.len(),
{
    if packets.len() > 0 {
        let fewer = packets.drop_last();
        assert forall|i: int| 0 <= i < fewer.len() implies body_of(frame, #[trigger] fewer[i])
            == bodies.drop_last()[i] by {
            assert(fewer[i] == packets[i]);
        }
        lemma_ticks_of_bodies(frame, fewer, bodies.drop_last());
        assert(body_of(frame, packets.last()) == bodies.last()) by {
            assert(packets.last() == packets[packets.len() - 1]);
        }
    }
}

/// Decoding a frame gives the ticks of its sub-packets in the order in which
/// they stand in the frame, each decoded by its own length: the ticks of the
/// frame that holds `bodies` are the ticks of `bodies`.
pub proof fn lemma_frame_ticks(bodies: Seq<Seq<u8>>)
    requires
        frameable(bodies),
    ensures
        packets_of(frame_of(bodies)) is Ok,
        ticks_in(frame_of(bodies), packets_of(frame_of(bodies))->Ok_0) == ticks_of(bodies),
{
    lemma_frame_round_trip(bodies);
    lemma_ticks_of_bodies(frame_of(bodies), packets_of(frame_of(bodies))->Ok_0, bodies);
}

/// Splits a frame into its sub-packets.
///
/// A frame of at most two bytes is a heartbeat: it has no sub-packets and is
/// no error. Any other frame either holds every sub-packet that its count
/// declares, each of them whole, or is refused.
pub fn split_frame(frame: &[u8]) -> (packets: Result<Vec<Packet>, ProtocolViolation>)
    ensures
        match packets {
            Ok(list) => packets_of(frame@) == Ok::<Seq<Packet>, ProtocolViolation>(list@)
                && packets_within(list@, frame@.len()),
            Err(violation) => packets_of(frame@) == Err::<Seq<Packet>, ProtocolViolation>(
                violation,
            ),
        },
        frame@.len() <= HEARTBEAT_MAX ==> packets is Ok && packets->Ok_0@.len() == 0,
        frame@.len() > HEARTBEAT_MAX && packets is Ok ==> packets->Ok_0@.len() == declared_count(
            frame@,
        ),
{
    let mut packets: Vec<Packet> = Vec::new();
    let end = frame.len();
    if end <= HEARTBEAT_MAX {
        return Ok(packets);
    }
    let count = read_i16_at(frame, 0);
    let total: usize = if count > 0 {
        count as usize
    } else {
        0
    };
    let mut at: usize = 2;
    let mut done: usize = 0;
    while done < total
        invariant
            done <= total,
            2 <= at <= end,
            end == frame@.len(),
            end > HEARTBEAT_MAX,
            packets_within(packets@, frame@.len()),
            packets_of(frame@) == match packets_from(frame@, at as int, (total - done) as nat) {
                Ok(rest) => Ok::<Seq<Packet>, ProtocolViolation>(packets@ + rest),
                Err(violation) => Err(violation),
            },
        decreases total - done,
    {
        if end - at < 2 {
            return Err(ProtocolViolation::MissingLength);
        }
        let declared = read_i16_at(frame, at);
        if declared < 0 {
            return Err(ProtocolViolation::NegativeLength);
        }
        let length = declared as usize;
        if end - at - 2 < length {
            return Err(ProtocolViolation::TruncatedPacket);
        }
        let instrument_token = if length >= 4 {
            Some(read_i32_at(frame, at + 2))
        } else {
            None
        };
        let packet = Packet { instrument_token, start: at + 2, length };
        proof {
            let rest = packets_from(frame@, at + 2 + length, (total - done - 1) as nat);
            assert(packet == packet_at(frame@, at as int));
            if rest is Ok {
                assert(packets@ + (seq![packet] + rest->Ok_0) =~= packets@.push(packet)
                    + rest->Ok_0);
            }
        }
        packets.push(packet);
        at = at + 2 + length;
        done = done + 1;
    }
    proof {
        assert(packets@ + Seq::<Packet>::empty() =~= packets@);
        lemma_packets_layout(frame@);
    }
    Ok(packets)
}

/// Decodes a frame into the batch of its ticks.
///
/// Sub-packets are decoded in frame order, each by its own length. One whose
/// length belongs to no layout is passed over and its length recorded. A
/// frame in violation of the protocol gives no tick at all.
pub fn decode_frame(frame: &[u8]) -> (outcome: Result<Batch, ProtocolViolation>)
    ensures
        match outcome {
            Ok(batch) => packets_of(frame@) is Ok && batch.ticks@ == ticks_in(
                frame@,
                packets_of(frame@)->Ok_0,
            ) && batch.skipped@ == skipped_in(packets_of(frame@)->Ok_0),
            Err(violation) => packets_of(frame@) == Err::<Seq<Packet>, ProtocolViolation>(
                violation,
            ),
        },
        frame@.len() <= HEARTBEAT_MAX ==> outcome is Ok && outcome->Ok_0.ticks@.len() == 0
            && outcome->Ok_0.skipped@.len() == 0,
{
    let packets = match split_frame(frame) {
        Ok(packets) => packets,
        Err(violation) => {
            return Err(violation);
        },
    };
    let mut ticks: Vec<Tick> = Vec::new();
    let mut skipped: Vec<usize> = Vec::new();
    let end = frame.len();
    let mut index: usize = 0;
    while index < packets.len()
        invariant
            index <= packets.len(),
            end == frame@.len(),
            packets_within(packets@, frame@.len()),
            ticks@ == ticks_in(frame@, packets@.take(index as int)),
            skipped@ == skipped_in(packets@.take(index as int)),
        decreases packets.len() - index,
    {
        let packet = packets[index];
        assert(packets@[index as int].start + packets@[index as int].length <= end);
        let body = slice_subrange(frame, packet.start, packet.start + packet.length);
        assert(packets@.take(index + 1).drop_last() =~= packets@.take(index as int));
        assert(packets@.take(index + 1).last() == packet);
        match decode_packet(body) {
            Some(tick) => {
                ticks.push(tick);
            },
            None => {
                skipped.push(packet.length);
            },
        }
        index = index + 1;
    }
    assert(packets@.take(index as int) =~= packets@);
    Ok(Batch { ticks, skipped })
}

} // verus!
