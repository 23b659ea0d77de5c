//! Tick records and the decoder that reads one out of a sub-packet.
//!
//! A sub-packet carries no tag that says what it holds: its byte length alone
//! selects one of five layouts. Prices travel as fixed-point integers; the
//! segment in the low byte of the instrument token says by what they are to be
//! divided, and whether the instrument can be traded at all.

use crate::wire::{
    i16_at, i16_byte, i32_at, i32_byte, i32_words, lemma_i16_round_trip, lemma_i32_round_trip,
    read_i16_at, read_i32_at,
};
use vstd::prelude::*;
use vstd::string::*;

verus! {

/// Level of detail of a tick stream.
#[derive(Clone, Copy, Debug, PartialEq, Eq, Hash, Structural)]
pub enum Mode {
    /// Last traded price only.
    Ltp,
    /// Price and OHLC, without market depth.
    Quote,
    /// Quote plus market depth and the open-interest fields.
    Full,
}

impl Mode {
    /// The name of the mode on the wire.
    pub open spec fn name(self) -> Seq<char> {
        match self {
            Mode::Ltp => "ltp"@,
            Mode::Quote => "quote"@,
            Mode::Full => "full"@,
        }
    }

    /// The mode of a name, if it is the name of a mode.
    pub fn from_name(name: &str) -> (mode: Option<Mode>)
        ensures
            match mode {
                Some(mode) => name@ == mode.name(),
                None => forall|mode: Mode| name@ != mode.name(),
            },
    {
        let name = name.to_owned();
        if name == "ltp".to_owned() {
            Some(Mode::Ltp)
        } else if name == "quote".to_owned() {
            Some(Mode::Quote)
        } else if name == "full".to_owned() {
            Some(Mode::Full)
        } else {
            None
        }
    }

    /// The name of the mode on the wire.
    pub fn as_str(&self) -> (name: &'static str)
        ensures
            name@ == self.name(),
    {
        match self {
            Mode::Ltp => "ltp",
            Mode::Quote => "quote",
            Mode::Full => "full",
        }
    }
}

/// Segment code of currency derivatives, whose prices have seven decimals.
pub const SEGMENT_CURRENCY: i32 = 3;

/// Segment code of indices, which cannot be traded.
pub const SEGMENT_INDICES: i32 = 9;

/// Length of a sub-packet that carries the last price only.
pub const LTP_PACKET: usize = 8;

/// Length of an index sub-packet in quote mode.
pub const INDEX_QUOTE_PACKET: usize = 28;

/// Length of an index sub-packet in full mode.
pub const INDEX_FULL_PACKET: usize = 32;

/// Length of a sub-packet in quote mode.
pub const QUOTE_PACKET: usize = 44;

/// Length of a sub-packet in full mode.
pub const FULL_PACKET: usize = 184;

/// Number of price levels on each side of the market depth.
pub const DEPTH_LEVELS: usize = 5;

/// The segment that an instrument token belongs to: its low eight bits.
pub open spec fn segment_of(instrument_token: i32) -> i32 {
    instrument_token & 0xFF
}

/// What the raw prices of a segment are divided by.
pub open spec fn divisor_of(segment: i32) -> u32 {
    if segment == SEGMENT_CURRENCY {
        10_000_000
    } else {
        100
    }
}

/// Whether the instruments of a segment can be traded.
pub open spec fn tradable_in(segment: i32) -> bool {
    segment != SEGMENT_INDICES
}

/// The segment that an instrument token belongs to.
pub fn segment(instrument_token: i32) -> (code: i32)
    ensures
        code == segment_of(instrument_token),
        0 <= code <= 255,
{
    assert(0 <= (instrument_token & 0xFF) <= 255) by (bit_vector);
    instrument_token & 0xFF
}

/// What the raw prices of a segment are divided by.
pub fn price_divisor(segment: i32) -> (divisor: u32)
    ensures
        divisor == divisor_of(segment),
        divisor > 0,
{
    if segment == SEGMENT_CURRENCY {
        10_000_000
    } else {
        100
    }
}

/// Whether the instruments of a segment can be traded.
pub fn is_tradable(segment: i32) -> (tradable: bool)
    ensures
        tradable == tradable_in(segment),
{
    segment != SEGMENT_INDICES
}

/// A fixed-point number: `raw / divisor`.
#[derive(Clone, Copy, Debug, PartialEq, Eq, Structural)]
pub struct Decimal {
    /// The integer as it came over the wire.
    pub raw: i32,
    /// What `raw` is to be divided by; never zero in a decoded tick.
    pub divisor: u32,
}

/// Open, high, low and close of the day.
#[derive(Clone, Copy, Debug, PartialEq, Eq, Structural)]
pub struct Ohlc {
    pub open: Decimal,
    pub high: Decimal,
    pub low: Decimal,
    pub close: Decimal,
}

/// Change of the last price against the previous close, in percent, as the
/// exact fraction `numerator / denominator`.
#[derive(Clone, Copy, Debug, PartialEq, Eq, Structural)]
pub struct Change {
    /// `(last_price.raw - close.raw) * 100`.
    pub numerator: i64,
    /// `close.raw`; never zero.
    pub denominator: i32,
}

/// One level of the order book.
#[derive(Clone, Copy, Debug, PartialEq, Eq, Structural)]
pub struct DepthLevel {
    pub quantity: i32,
    pub price: Decimal,
    pub orders: i16,
}

/// The five best bids and the five best offers, best first.
#[derive(Clone, Copy, Debug, PartialEq, Eq)]
pub struct Depth {
    pub buy: [DepthLevel; 5],
    pub sell: [DepthLevel; 5],
}

/// One decoded update for one instrument.
///
/// The first four fields are always there. Which of the others are present
/// follows from the layout of the sub-packet the tick was read from.
#[derive(Clone, Copy, Debug, PartialEq, Eq)]
pub struct Tick {
    /// Whether the instrument can be traded: every one can but an index.
    pub tradable: bool,
    /// The mode that the length of the sub-packet stands for.
    pub mode: Mode,
    /// The token as it is on the wire, a signed 32-bit value.
    pub instrument_token: i32,
    pub last_price: Decimal,
    pub ohlc: Option<Ohlc>,
    /// Absent when there is no close price or the close price is zero.
    pub change: Option<Change>,
    /// Scaled like a price in an index packet; whole seconds, with divisor 1,
    /// in a full packet.
    pub timestamp: Option<Decimal>,
    pub last_quantity: Option<i32>,
    pub average_price: Option<Decimal>,
    pub volume: Option<i32>,
    pub buy_quantity: Option<i32>,
    pub sell_quantity: Option<i32>,
    pub last_trade_time: Option<i32>,
    pub oi: Option<i32>,
    pub oi_day_high: Option<i32>,
    pub oi_day_low: Option<i32>,
    pub depth: Option<Depth>,
}

/// The instrument token of a sub-packet: its first four bytes.
pub open spec fn token_of(body: Seq<u8>) -> i32 {
    i32_at(body, 0)
}

/// The divisor that applies to every price of a sub-packet.
pub open spec fn body_divisor(body: Seq<u8>) -> u32 {
    divisor_of(segment_of(token_of(body)))
}

/// The price whose raw value starts at byte `at` of a sub-packet.
pub open spec fn price_at(body: Seq<u8>, at: int) -> Decimal {
    Decimal { raw: i32_at(body, at), divisor: body_divisor(body) }
}

/// The percentage change of `last` against `close`, both raw values under one
/// divisor. There is none against a close of zero.
pub open spec fn change_of(last: i32, close: i32) -> Option<Change> {
    if close == 0 {
        None
    } else {
        Some(Change { numerator: ((last - close) * 100) as i64, denominator: close })
    }
}

/// The depth level that starts at byte `at` of a sub-packet: quantity, price,
/// number of orders, and two bytes of padding.
pub open spec fn level_at(body: Seq<u8>, at: int) -> DepthLevel {
    DepthLevel {
        quantity: i32_at(body, at),
        price: price_at(body, at + 4),
        orders: i16_at(body, at + 8),
    }
}

/// Where the depth level `index` of a full sub-packet starts: the ten levels
/// follow the first 64 bytes, twelve bytes each, bids before offers.
pub open spec fn level_offset(index: int) -> int {
    64 + 12 * index
}

/// The market depth of a full sub-packet.
pub open spec fn depth_of(body: Seq<u8>) -> Depth {
    Depth {
        buy: [
            level_at(body, level_offset(0)),
            level_at(body, level_offset(1)),
            level_at(body, level_offset(2)),
            level_at(body, level_offset(3)),
            level_at(body, level_offset(4)),
        ],
        sell: [
            level_at(body, level_offset(5)),
            level_at(body, level_offset(6)),
            level_at(body, level_offset(7)),
            level_at(body, level_offset(8)),
            level_at(body, level_offset(9)),
        ],
    }
}

/// What every tick of a sub-packet starts from: the token, what follows from
/// its segment, and the last price. `mode` is the mode that the length of the
/// sub-packet stands for.
pub open spec fn base_tick(body: Seq<u8>, mode: Mode) -> Tick {
    Tick {
        tradable: tradable_in(segment_of(token_of(body))),
        mode,
        instrument_token: token_of(body),
        last_price: price_at(body, 4),
        ohlc: None,
        change: None,
        timestamp: None,
        last_quantity: None,
        average_price: None,
        volume: None,
        buy_quantity: None,
        sell_quantity: None,
        last_trade_time: None,
        oi: None,
        oi_day_high: None,
        oi_day_low: None,
        depth: None,
    }
}

/// The tick of an index sub-packet of 28 or 32 bytes: last price, then high,
/// low, open and close. The 32-byte layout, full mode, ends in a timestamp
/// that is scaled like a price.
pub open spec fn index_tick(body: Seq<u8>) -> Tick {
    let full = body.len() == INDEX_FULL_PACKET;
    Tick {
        ohlc: Some(
            Ohlc {
                high: price_at(body, 8),
                low: price_at(body, 12),
                open: price_at(body, 16),
                close: price_at(body, 20),
            },
        ),
        change: change_of(i32_at(body, 4), i32_at(body, 20)),
        timestamp: if full {
            Some(price_at(body, 24))
        } else {
            None
        },
        ..base_tick(
            body,
            if full {
                Mode::Full
            } else {
                Mode::Quote
            },
        )
    }
}

/// The tick of a sub-packet of 44 or 184 bytes: last price, last quantity,
/// average price, volume, the two aggregate quantities, then open, high, low
/// and close. The 184-byte layout, full mode, goes on with the time of the
/// last trade, the open interest with its high and low of the day, a
/// timestamp, and the market depth.
pub open spec fn quote_tick(body: Seq<u8>) -> Tick {
    let full = body.len() == FULL_PACKET;
    Tick {
        last_quantity: Some(i32_at(body, 8)),
        average_price: Some(price_at(body, 12)),
        volume: Some(i32_at(body, 16)),
        buy_quantity: Some(i32_at(body, 20)),
        sell_quantity: Some(i32_at(body, 24)),
        ohlc: Some(
            Ohlc {
                open: price_at(body, 28),
                high: price_at(body, 32),
                low: price_at(body, 36),
                close: price_at(body, 40),
            },
        ),
        change: change_of(i32_at(body, 4), i32_at(body, 40)),
        last_trade_time: if full {
            Some(i32_at(body, 44))
        } else {
            None
        },
        oi: if full {
            Some(i32_at(body, 48))
        } else {
            None
        },
        oi_day_high: if full {
            Some(i32_at(body, 52))
        } else {
            None
        },
        oi_day_low: if full {
            Some(i32_at(body, 56))
        } else {
            None
        },
        timestamp: if full {
            Some(Decimal { raw: i32_at(body, 60), divisor: 1 })
        } else {
            None
        },
        depth: if full {
            Some(depth_of(body))
        } else {
            None
        },
        ..base_tick(
            body,
            if full {
                Mode::Full
            } else {
                Mode::Quote
            },
        )
    }
}

/// Whether a sub-packet of `length` bytes has one of the five known layouts.
pub open spec fn known_length(length: nat) -> bool {
    length == LTP_PACKET || length == INDEX_QUOTE_PACKET || length == INDEX_FULL_PACKET || length
        == QUOTE_PACKET || length == FULL_PACKET
}

/// The tick that a sub-packet holds, if its length is that of a known layout.
pub open spec fn tick_of(body: Seq<u8>) -> Option<Tick> {
    if body.len() == LTP_PACKET {
        Some(base_tick(body, Mode::Ltp))
    } else if body.len() == INDEX_QUOTE_PACKET || body.len() == INDEX_FULL_PACKET {
        Some(index_tick(body))
    } else if body.len() == QUOTE_PACKET || body.len() == FULL_PACKET {
        Some(quote_tick(body))
    } else {
        None
    }
}

/// Whether every price of a tick is a fraction over `divisor`.
pub open spec fn prices_over(tick: Tick, divisor: u32) -> bool {
    &&& tick.last_price.divisor == divisor
    &&& tick.average_price matches Some(price) ==> price.divisor == divisor
    &&& tick.ohlc matches Some(ohlc) ==> ohlc.open.divisor == divisor && ohlc.high.divisor
        == divisor && ohlc.low.divisor == divisor && ohlc.close.divisor == divisor
    &&& tick.depth matches Some(depth) ==> forall|i: int|
        0 <= i < DEPTH_LEVELS ==> (#[trigger] depth.buy[i]).price.divisor == divisor
    &&& tick.depth matches Some(depth) ==> forall|i: int|
        0 <= i < DEPTH_LEVELS ==> (#[trigger] depth.sell[i]).price.divisor == divisor
}

/// Whether a tick is one that a full sub-packet of 184 bytes can hold: every
/// field is there, and what follows from the token or from other fields has
/// the value that follows.
pub open spec fn is_full_tick(tick: Tick) -> bool {
    let code = segment_of(tick.instrument_token);
    &&& tick.mode == Mode::Full
    &&& tick.tradable == tradable_in(code)
    &&& prices_over(tick, divisor_of(code))
    &&& tick.ohlc is Some
    &&& tick.change == change_of(tick.last_price.raw, tick.ohlc->0.close.raw)
    &&& tick.timestamp matches Some(timestamp) && timestamp.divisor == 1
    &&& tick.last_quantity is Some
    &&& tick.average_price is Some
    &&& tick.volume is Some
    &&& tick.buy_quantity is Some
    &&& tick.sell_quantity is Some
    &&& tick.last_trade_time is Some
    &&& tick.oi is Some
    &&& tick.oi_day_high is Some
    &&& tick.oi_day_low is Some
    &&& tick.depth is Some
}

/// Byte `index` of the twelve that hold a depth level on the wire: quantity,
/// raw price, number of orders, and two bytes of padding.
pub open spec fn level_byte(level: DepthLevel, index: int) -> u8 {
    if index < 4 {
        i32_byte(level.quantity, index)
    } else if index < 8 {
        i32_byte(level.price.raw, index - 4)
    } else if index < 10 {
        i16_byte(level.orders, index - 8)
    } else {
        0
    }
}

/// A run of depth levels as it appears on the wire.
pub open spec fn level_bytes(levels: Seq<DepthLevel>) -> Seq<u8> {
    Seq::new(12 * levels.len(), |i: int| level_byte(levels[i / 12], i % 12))
}

/// The value at position `index` of a run of 32-bit values is read back from
/// its place in the encoding, whatever follows the run.
proof fn lemma_word_at(values: Seq<i32>, rest: Seq<u8>, index: int)
    requires
        0 <= index < values.len(),
    ensures
        i32_at(i32_words(values) + rest, 4 * index) == values[index],
{
    lemma_i32_round_trip(values[index]);
    let bytes = i32_words(values) + rest;
    assert forall|k: int| 0 <= k < 4 implies bytes[4 * index + k] == i32_byte(values[index], k) by {
        assert((4 * index + k) / 4 == index);
        assert((4 * index + k) % 4 == k);
    }
}

/// Byte `offset` of the depth level at position `index` of a run of levels
/// stands at its place in the encoding, whatever precedes the run.
proof fn lemma_level_byte_at(head: Seq<u8>, levels: Seq<DepthLevel>, index: int, offset: int)
    requires
        0 <= index < levels.len(),
        0 <= offset < 12,
    ensures
        (head + level_bytes(levels))[head.len() + 12 * index + offset] == level_byte(
            levels[index],
            offset,
        ),
{
    assert((12 * index + offset) / 12 == index);
    assert((12 * index + offset) % 12 == offset);
    assert((head + level_bytes(levels))[head.len() + 12 * index + offset] == level_bytes(
        levels,
    )[12 * index + offset]);
}

/// The 32-bit value whose four bytes stand at `at` is read back from there.
proof fn lemma_i32_from_bytes(bytes: Seq<u8>, at: int, value: i32)
    requires
        bytes[at] == i32_byte(value, 0),
        bytes[at + 1] == i32_byte(value, 1),
        bytes[at + 2] == i32_byte(value, 2),
        bytes[at + 3] == i32_byte(value, 3),
    ensures
        i32_at(bytes, at) == value,
{
    lemma_i32_round_trip(value);
}

/// The 16-bit value whose two bytes stand at `at` is read back from there.
proof fn lemma_i16_from_bytes(bytes: Seq<u8>, at: int, value: i16)
    requires
        bytes[at] == i16_byte(value, 0),
        bytes[at + 1] == i16_byte(value, 1),
    ensures
        i16_at(bytes, at) == value,
{
    lemma_i16_round_trip(value);
}

/// The fields of the depth level at position `index` of a run of levels are
/// read back from their place in the encoding, whatever precedes the run.
proof fn lemma_level_fields_at(head: Seq<u8>, levels: Seq<DepthLevel>, index: int)
    requires
        0 <= index < levels.len(),
    ensures
        ({
            let bytes = head + level_bytes(levels);
            let at = head.len() + 12 * index;
            &&& i32_at(bytes, at) == levels[index].quantity
            &&& i32_at(bytes, at + 4) == levels[index].price.raw
            &&& i16_at(bytes, at + 8) == levels[index].orders
        }),
{
    let bytes = head + level_bytes(levels);
    let at = head.len() + 12 * index;
    let level = levels[index];
    lemma_level_byte_at(head, levels, index, 0);
    lemma_level_byte_at(head, levels, index, 1);
    lemma_level_byte_at(head, levels, index, 2);
    lemma_level_byte_at(head, levels, index, 3);
    lemma_level_byte_at(head, levels, index, 4);
    lemma_level_byte_at(head, levels, index, 5);
    lemma_level_byte_at(head, levels, index, 6);
    lemma_level_byte_at(head, levels, index, 7);
    lemma_level_byte_at(head, levels, index, 8);
    lemma_level_byte_at(head, levels, index, 9);
    lemma_i32_from_bytes(bytes, at, level.quantity);
    lemma_i32_from_bytes(bytes, at + 4, level.price.raw);
    lemma_i16_from_bytes(bytes, at + 8, level.orders);
}

/// The sixteen 32-bit values at the head of the full sub-packet of a tick.
pub open spec fn full_words(tick: Tick) -> Seq<i32> {
    let ohlc = tick.ohlc->0;
    seq![
        tick.instrument_token,
        tick.last_price.raw,
        tick.last_quantity->0,
        tick.average_price->0.raw,
        tick.volume->0,
        tick.buy_quantity->0,
        tick.sell_quantity->0,
        ohlc.open.raw,
        ohlc.high.raw,
        ohlc.low.raw,
        ohlc.close.raw,
        tick.last_trade_time->0,
        tick.oi->0,
        tick.oi_day_high->0,
        tick.oi_day_low->0,
        tick.timestamp->0.raw,
    ]
}

/// The full sub-packet that holds `tick`: sixteen 32-bit values, then the
/// five bids and the five offers.
#[verifier::opaque]
pub open spec fn full_packet(tick: Tick) -> Seq<u8> {
    i32_words(full_words(tick)) + level_bytes(tick.depth->0.buy@ + tick.depth->0.sell@)
}

/// The 32-bit values at the head of the full sub-packet of a tick are read
/// back from it.
proof fn lemma_full_packet_words(tick: Tick)
    ensures
        full_packet(tick).len() == FULL_PACKET,
        forall|index: int|
            0 <= index < 16 ==> i32_at(full_packet(tick), 4 * index) == #[trigger] full_words(
                tick,
            )[index],
{
    reveal(full_packet);
    let words = full_words(tick);
    let rest = level_bytes(tick.depth->0.buy@ + tick.depth->0.sell@);
    assert forall|index: int| 0 <= index < 16 implies i32_at(full_packet(tick), 4 * index)
        == #[trigger] words[index] by {
        lemma_word_at(words, rest, index);
    }
}

/// The depth level at position `index` of the full sub-packet of a tick is
/// read back from it.
proof fn lemma_full_packet_level(tick: Tick, index: int)
    requires
        is_full_tick(tick),
        0 <= index < 10,
    ensures
        level_at(full_packet(tick), level_offset(index)) == if index < 5 {
            tick.depth->0.buy[index]
        } else {
            tick.depth->0.sell[index - 5]
        },
{
    reveal(full_packet);
    let depth = tick.depth->0;
    let levels = depth.buy@ + depth.sell@;
    let words = full_words(tick);
    let head = i32_words(words);
    lemma_word_at(words, level_bytes(levels), 0);
    lemma_level_fields_at(head, levels, index);
    assert(head.len() == 64);
    if index < 5 {
        assert(levels[index] == depth.buy[index]);
    } else {
        assert(levels[index] == depth.sell[index - 5]);
    }
}

/// A sub-packet whose ten depth levels are those of `depth`, bids first, has
/// `depth` as its market depth.
proof fn lemma_depth_of(body: Seq<u8>, depth: Depth)
    requires
        forall|i: int| 0 <= i < 5 ==> level_at(body, level_offset(i)) == #[trigger] depth.buy[i],
        forall|i: int|
            0 <= i < 5 ==> level_at(body, level_offset(i + 5)) == #[trigger] depth.sell[i],
    ensures
        depth_of(body) == depth,
{
    let decoded = depth_of(body);
    assert(decoded.buy =~= depth.buy) by {
        assert(decoded.buy[0] == depth.buy[0]);
        assert(decoded.buy[1] == depth.buy[1]);
        assert(decoded.buy[2] == depth.buy[2]);
        assert(decoded.buy[3] == depth.buy[3]);
        assert(decoded.buy[4] == depth.buy[4]);
    }
    assert(decoded.sell =~= depth.sell) by {
        assert(decoded.sell[0] == depth.sell[0]);
        assert(decoded.sell[1] == depth.sell[1]);
        assert(decoded.sell[2] == depth.sell[2]);
        assert(decoded.sell[3] == depth.sell[3]);
        assert(decoded.sell[4] == depth.sell[4]);
    }
}

/// The depth levels of the full sub-packet of a tick are read back from it.
proof fn lemma_full_packet_depth(tick: Tick)
    requires
        is_full_tick(tick),
    ensures
        depth_of(full_packet(tick)) == tick.depth->0,
{
    let body = full_packet(tick);
    let depth = tick.depth->0;
    assert forall|i: int| 0 <= i < 5 implies level_at(body, level_offset(i))
        == #[trigger] depth.buy[i] by {
        lemma_full_packet_level(tick, i);
    }
    assert forall|i: int| 0 <= i < 5 implies level_at(body, level_offset(i + 5))
        == #[trigger] depth.sell[i] by {
        lemma_full_packet_level(tick, i + 5);
    }
    lemma_depth_of(body, depth);
}

/// Decoding is the inverse of encoding on full sub-packets: the packet that
/// holds a tick has 184 bytes, and decodes to that tick, field by field, the
/// five bids and the five offers each in their place.
pub proof fn lemma_full_packet_round_trip(tick: Tick)
    requires
        is_full_tick(tick),
    ensures
        full_packet(tick).len() == FULL_PACKET,
        tick_of(full_packet(tick)) == Some(tick),
{
    let body = full_packet(tick);
    let words = full_words(tick);
    lemma_full_packet_words(tick);
    lemma_full_packet_depth(tick);
    assert(i32_at(body, 0) == words[0]);
    assert(i32_at(body, 4) == words[1]);
    assert(i32_at(body, 8) == words[2]);
    assert(i32_at(body, 12) == words[3]);
    assert(i32_at(body, 16) == words[4]);
    assert(i32_at(body, 20) == words[5]);
    assert(i32_at(body, 24) == words[6]);
    assert(i32_at(body, 28) == words[7]);
    assert(i32_at(body, 32) == words[8]);
    assert(i32_at(body, 36) == words[9]);
    assert(i32_at(body, 40) == words[10]);
    assert(i32_at(body, 44) == words[11]);
    assert(i32_at(body, 48) == words[12]);
    assert(i32_at(body, 52) == words[13]);
    assert(i32_at(body, 56) == words[14]);
    assert(i32_at(body, 60) == words[15]);
    assert(quote_tick(body) == tick);
}

/// Reads the price whose raw value starts at byte `at`.
fn read_price(body: &[u8], at: usize, divisor: u32) -> (price: Decimal)
    requires
        at + 4 <= body@.len(),
        divisor == body_divisor(body@),
    ensures
        price == price_at(body@, at as int),
{
    Decimal { raw: read_i32_at(body, at), divisor }
}

/// The percentage change of `last` against `close`.
fn percent_change(last: i32, close: i32) -> (change: Option<Change>)
    ensures
        change == change_of(last, close),
{
    if close == 0 {
        None
    } else {
        let difference: i64 = last as i64 - close as i64;
        Some(Change { numerator: difference * 100, denominator: close })
    }
}

/// Reads the depth level that starts at byte `at`.
fn read_level(body: &[u8], at: usize, divisor: u32) -> (level: DepthLevel)
    requires
        at + 12 <= body@.len(),
        divisor == body_divisor(body@),
    ensures
        level == level_at(body@, at as int),
{
    let length = body.len();
    assert(at + 12 <= length);
    DepthLevel {
        quantity: read_i32_at(body, at),
        price: read_price(body, at + 4, divisor),
        orders: read_i16_at(body, at + 8),
    }
}

/// Reads `DEPTH_LEVELS` consecutive depth levels, the first of which is level
/// `first` of the sub-packet.
fn read_side(body: &[u8], first: usize, divisor: u32) -> (side: [DepthLevel; 5])
    requires
        body@.len() == FULL_PACKET,
        first == 0 || first == DEPTH_LEVELS,
        divisor == body_divisor(body@),
    ensures
        forall|i: int| 0 <= i < DEPTH_LEVELS ==> side[i] == level_at(body@, level_offset(first + i)),
{
    let empty = DepthLevel { quantity: 0, price: Decimal { raw: 0, divisor }, orders: 0 };
    let mut side: [DepthLevel; 5] = [empty; 5];
    let mut index: usize = 0;
    while index < DEPTH_LEVELS
        invariant
            index <= DEPTH_LEVELS,
            body@.len() == FULL_PACKET,
            first == 0 || first == DEPTH_LEVELS,
            divisor == body_divisor(body@),
            forall|i: int| 0 <= i < index ==> side[i] == level_at(body@, level_offset(first + i)),
        decreases DEPTH_LEVELS - index,
    {
        side[index] = read_level(body, 64 + 12 * (first + index), divisor);
        index = index + 1;
    }
    side
}

/// Reads the market depth of a full sub-packet.
fn read_depth(body: &[u8], divisor: u32) -> (depth: Depth)
    requires
        body@.len() == FULL_PACKET,
        divisor == body_divisor(body@),
    ensures
        depth == depth_of(body@),
{
    let buy = read_side(body, 0, divisor);
    let sell = read_side(body, DEPTH_LEVELS, divisor);
    assert(buy =~= depth_of(body@).buy);
    assert(sell =~= depth_of(body@).sell);
    Depth { buy, sell }
}

/// Decodes one sub-packet.
///
/// The layout is chosen by the length of `body` and by nothing else. A length
/// that belongs to no layout gives `None`; the caller goes on with the next
/// sub-packet.
pub fn decode_packet(body: &[u8]) -> (tick: Option<Tick>)
    ensures
        tick == tick_of(body@),
        tick is Some <==> known_length(body@.len()),
        tick matches Some(t) ==> t.tradable == (t.instrument_token & 0xFF != SEGMENT_INDICES),
        tick matches Some(t) ==> prices_over(
            t,
            if t.instrument_token & 0xFF == SEGMENT_CURRENCY {
                10_000_000
            } else {
                100
            },
        ),
{
    let length = body.len();
    if !(length == LTP_PACKET || length == INDEX_QUOTE_PACKET || length == INDEX_FULL_PACKET
        || length == QUOTE_PACKET || length == FULL_PACKET) {
        return None;
    }
    let instrument_token = read_i32_at(body, 0);
    let code = segment(instrument_token);
    let divisor = price_divisor(code);
    let last_price = read_price(body, 4, divisor);
    let base = Tick {
        tradable: is_tradable(code),
        mode: Mode::Ltp,
        instrument_token,
        last_price,
        ohlc: None,
        change: None,
        timestamp: None,
        last_quantity: None,
        average_price: None,
        volume: None,
        buy_quantity: None,
        sell_quantity: None,
        last_trade_time: None,
        oi: None,
        oi_day_high: None,
        oi_day_low: None,
        depth: None,
    };
    if length == LTP_PACKET {
        Some(base)
    } else if length == INDEX_QUOTE_PACKET || length == INDEX_FULL_PACKET {
        let high = read_price(body, 8, divisor);
        let low = read_price(body, 12, divisor);
        let open = read_price(body, 16, divisor);
        let close = read_price(body, 20, divisor);
        let full = length == INDEX_FULL_PACKET;
        Some(
            Tick {
                mode: if full {
                    Mode::Full
                } else {
                    Mode::Quote
                },
                ohlc: Some(Ohlc { open, high, low, close }),
                change: percent_change(last_price.raw, close.raw),
                timestamp: if full {
                    Some(read_price(body, 24, divisor))
                } else {
                    None
                },
                ..base
            },
        )
    } else {
        let last_quantity = read_i32_at(body, 8);
        let average_price = read_price(body, 12, divisor);
        let volume = read_i32_at(body, 16);
        let buy_quantity = read_i32_at(body, 20);
        let sell_quantity = read_i32_at(body, 24);
        let open = read_price(body, 28, divisor);
        let high = read_price(body, 32, divisor);
        let low = read_price(body, 36, divisor);
        let close = read_price(body, 40, divisor);
        let quote = Tick {
            mode: Mode::Quote,
            last_quantity: Some(last_quantity),
            average_price: Some(average_price),
            volume: Some(volume),
            buy_quantity: Some(buy_quantity),
            sell_quantity: Some(sell_quantity),
            ohlc: Some(Ohlc { open, high, low, close }),
            change: percent_change(last_price.raw, close.raw),
            ..base
        };
        if length == QUOTE_PACKET {
            Some(quote)
        } else {
            Some(
                Tick {
                    mode: Mode::Full,
                    last_trade_time: Some(read_i32_at(body, 44)),
                    oi: Some(read_i32_at(body, 48)),
                    oi_day_high: Some(read_i32_at(body, 52)),
                    oi_day_low: Some(read_i32_at(body, 56)),
                    timestamp: Some(Decimal { raw: read_i32_at(body, 60), divisor: 1 }),
                    depth: Some(read_depth(body, divisor)),
                    ..quote
                },
            )
        }
    }
}

} // verus!
