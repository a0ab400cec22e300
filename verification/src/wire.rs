//! The wire message model: fixed byte layouts read at fixed offsets.
//!
//! Every message starts with a twelve-byte header, stored without padding:
//! the kind in two bytes, the total length of the message in two bytes, and
//! a timestamp in eight. Depth and tick messages continue with eight bytes
//! that the readers here pass over or keep, two fixed-point numbers of eight
//! bytes each, and one byte of flags or side. All integers are little-endian
//! and nothing relies on alignment.

use crate::endian::{le_i16, le_i64, le_u16, read_i16, read_i64, read_u16};
use crate::error::ReadError;
use vstd::prelude::*;

verus! {

/// The length of a message header in bytes.
pub const HEADER_LEN: usize = 12;

/// The length of the fixed layout of a depth message, header included.
pub const DEPTH_LEN: usize = 37;

/// The length of the fixed layout of a tick message, header included.
pub const TICK_LEN: usize = 37;

/// The wire code of a depth message.
pub const KIND_DEPTH: i16 = 0;

/// The wire code of a tick message.
pub const KIND_TICK: i16 = 1;

/// The wire code of a symbol message.
pub const KIND_SYMBOL: i16 = 2;

/// The wire code of a candle message.
pub const KIND_CANDLE: i16 = 3;

/// The wire code of the message that closes a run of candles.
pub const KIND_CANDLE_END: i16 = 4;

/// Flag bit: the level is on the bid side.
pub const BUY: u8 = 1;

/// Flag bit: the level is on the ask side. Informational only.
pub const SELL: u8 = 2;

/// Flag bit: both sides of the book are emptied before the level applies.
pub const CLEAR: u8 = 4;

/// Flag bit: the update closes a transaction.
pub const END_OF_TX: u8 = 8;

/// The factor between a stored price or volume and its real value.
pub const SCALE: u64 = 100_000_000;

/// A fixed-point number taken apart: sign, whole part and the eight decimal
/// places, so that it can be written out exactly.
#[derive(Clone, Copy, Debug, PartialEq, Eq, Structural)]
pub struct Decimal {
    pub negative: bool,
    pub whole: u64,
    pub fraction: u64,
}

impl Decimal {
    /// The stored integer that the parts stand for.
    pub open spec fn stored(self) -> int {
        if self.negative {
            -(self.whole * SCALE + self.fraction)
        } else {
            self.whole * SCALE + self.fraction
        }
    }

    /// Takes a stored price or volume apart: the real value is the stored
    /// integer divided by 10^8.
    pub fn of(value: i64) -> (parts: Decimal)
        ensures
            parts.stored() == value,
            parts.fraction < SCALE,
            parts.negative == (value < 0),
    {
        let magnitude: u64 = if value >= 0 {
            value as u64
        } else {
            (-(value + 1)) as u64 + 1
        };
        let whole: u64 = magnitude / SCALE;
        let fraction: u64 = magnitude % SCALE;
        Decimal { negative: value < 0, whole, fraction }
    }
}

/// The kinds of message that the format names.
#[derive(Clone, Copy, Debug, PartialEq, Eq, Structural)]
pub enum MessageKind {
    Depth,
    Tick,
    Symbol,
    Candle,
    CandleEnd,
}

impl MessageKind {
    /// The kind that a wire code stands for, if the format names it.
    pub open spec fn of_code(code: i16) -> Option<MessageKind> {
        if code == KIND_DEPTH {
            Some(MessageKind::Depth)
        } else if code == KIND_TICK {
            Some(MessageKind::Tick)
        } else if code == KIND_SYMBOL {
            Some(MessageKind::Symbol)
        } else if code == KIND_CANDLE {
            Some(MessageKind::Candle)
        } else if code == KIND_CANDLE_END {
            Some(MessageKind::CandleEnd)
        } else {
            None
        }
    }

    /// The wire code of a kind.
    pub open spec fn spec_code(self) -> i16 {
        match self {
            MessageKind::Depth => KIND_DEPTH,
            MessageKind::Tick => KIND_TICK,
            MessageKind::Symbol => KIND_SYMBOL,
            MessageKind::Candle => KIND_CANDLE,
            MessageKind::CandleEnd => KIND_CANDLE_END,
        }
    }

    /// Interprets a wire code. An unknown code is no error: such a message
    /// is stepped over by its length.
    pub fn from_code(code: i16) -> (kind: Option<MessageKind>)
        ensures
            kind == Self::of_code(code),
    {
        if code == KIND_DEPTH {
            Some(MessageKind::Depth)
        } else if code == KIND_TICK {
            Some(MessageKind::Tick)
        } else if code == KIND_SYMBOL {
            Some(MessageKind::Symbol)
        } else if code == KIND_CANDLE {
            Some(MessageKind::Candle)
        } else if code == KIND_CANDLE_END {
            Some(MessageKind::CandleEnd)
        } else {
            None
        }
    }

    /// The code under which the kind is written.
    #[verifier::when_used_as_spec(spec_code)]
    pub fn code(self) -> (code: i16)
        ensures
            code == self.spec_code(),
            Self::of_code(code) == Some(self),
    {
        match self {
            MessageKind::Depth => KIND_DEPTH,
            MessageKind::Tick => KIND_TICK,
            MessageKind::Symbol => KIND_SYMBOL,
            MessageKind::Candle => KIND_CANDLE,
            MessageKind::CandleEnd => KIND_CANDLE_END,
        }
    }
}

/// A set of market flags. Bits that the format does not name are dropped
/// when the set is made, so two sets are equal when they hold the same flags.
#[derive(Clone, Copy, Debug, PartialEq, Eq, Structural)]
pub struct MarketFlag {
    bits: u8,
}

/// Whether the bit `flag`, one of the four named powers of two, is set in
/// `bits`.
pub open spec fn has_flag(bits: u8, flag: u8) -> bool {
    (bits as int / flag as int) % 2 == 1
}

impl MarketFlag {
    /// The flag bits of the set, unknown bits cleared.
    pub closed spec fn spec_bits(self) -> u8 {
        self.bits
    }

    /// The flags that a set made from the byte `bits` holds: its low four
    /// bits.
    pub open spec fn truncated(bits: u8) -> u8 {
        (bits % 16) as u8
    }

    /// Whether the set holds `BUY`.
    pub open spec fn spec_is_buy(self) -> bool {
        has_flag(self.spec_bits(), BUY)
    }

    /// Whether the set holds `SELL`.
    pub open spec fn spec_is_sell(self) -> bool {
        has_flag(self.spec_bits(), SELL)
    }

    /// Whether the set holds `CLEAR`.
    pub open spec fn spec_is_clear(self) -> bool {
        has_flag(self.spec_bits(), CLEAR)
    }

    /// Whether the set holds `END_OF_TX`.
    pub open spec fn spec_is_end_of_tx(self) -> bool {
        has_flag(self.spec_bits(), END_OF_TX)
    }

    /// Makes a set from a flags byte, dropping the bits without a name.
    pub fn from_bits_truncate(bits: u8) -> (flags: MarketFlag)
        ensures
            flags.spec_bits() == Self::truncated(bits),
            flags.spec_is_buy() == has_flag(bits, BUY),
            flags.spec_is_sell() == has_flag(bits, SELL),
            flags.spec_is_clear() == has_flag(bits, CLEAR),
            flags.spec_is_end_of_tx() == has_flag(bits, END_OF_TX),
    {
        assert(bits & 15 == bits % 16) by (bit_vector);
        MarketFlag { bits: bits & 15 }
    }

    /// The flags as a byte.
    #[verifier::when_used_as_spec(spec_bits)]
    pub fn bits(self) -> (bits: u8)
        ensures
            bits == self.spec_bits(),
    {
        self.bits
    }

    /// Whether the level is on the bid side.
    #[verifier::when_used_as_spec(spec_is_buy)]
    pub fn is_buy(self) -> (set: bool)
        ensures
            set == self.spec_is_buy(),
    {
        let bits: u8 = self.bits;
        assert((bits & 1 != 0) == (bits / 1 % 2 == 1)) by (bit_vector);
        bits & BUY != 0
    }

    /// Whether the ask side is named.
    #[verifier::when_used_as_spec(spec_is_sell)]
    pub fn is_sell(self) -> (set: bool)
        ensures
            set == self.spec_is_sell(),
    {
        let bits: u8 = self.bits;
        assert((bits & 2 != 0) == (bits / 2 % 2 == 1)) by (bit_vector);
        bits & SELL != 0
    }

    /// Whether the book is emptied first.
    #[verifier::when_used_as_spec(spec_is_clear)]
    pub fn is_clear(self) -> (set: bool)
        ensures
            set == self.spec_is_clear(),
    {
        let bits: u8 = self.bits;
        assert((bits & 4 != 0) == (bits / 4 % 2 == 1)) by (bit_vector);
        bits & CLEAR != 0
    }

    /// Whether the update closes a transaction.
    #[verifier::when_used_as_spec(spec_is_end_of_tx)]
    pub fn is_end_of_tx(self) -> (set: bool)
        ensures
            set == self.spec_is_end_of_tx(),
    {
        let bits: u8 = self.bits;
        assert((bits & 8 != 0) == (bits / 8 % 2 == 1)) by (bit_vector);
        bits & END_OF_TX != 0
    }
}

/// The header that every message starts with.
#[derive(Clone, Copy, Debug, PartialEq, Eq, Structural)]
pub struct MessageHeader {
    /// The wire code of the kind; see [`MessageKind::from_code`].
    pub kind: i16,
    /// The length of the whole message in bytes, header included. Zero marks
    /// the end of the usable data of a block.
    pub size: u16,
    /// The timestamp.
    pub time: i64,
}

/// A price-level update. Price and volume are fixed-point: the stored
/// integer is the real value times 10^8.
#[derive(Clone, Copy, Debug, PartialEq, Eq, Structural)]
pub struct DepthItem {
    pub header: MessageHeader,
    pub price: i64,
    pub volume: i64,
    /// The flags byte as stored; see [`MarketFlag::from_bits_truncate`].
    pub flags: u8,
}

/// A trade. Price and volume are fixed-point: the stored integer is the real
/// value times 10^8.
#[derive(Clone, Copy, Debug, PartialEq, Eq, Structural)]
pub struct TickItem {
    pub header: MessageHeader,
    pub id: i64,
    pub price: i64,
    pub volume: i64,
    pub side: u8,
}

/// A message with the fields of its kind read out. Kinds whose payload the
/// library does not interpret keep their header only.
#[derive(Clone, Copy, Debug, PartialEq, Eq, Structural)]
pub enum Message {
    Depth(DepthItem),
    Tick(TickItem),
    Other(MessageHeader),
}

/// The signed sixteen-bit field at offset `at` of `bytes`.
pub open spec fn field_i16(bytes: Seq<u8>, at: int) -> i16 {
    le_i16(bytes.subrange(at, at + 2)) as i16
}

/// The unsigned sixteen-bit field at offset `at` of `bytes`.
pub open spec fn field_u16(bytes: Seq<u8>, at: int) -> u16 {
    le_u16(bytes.subrange(at, at + 2)) as u16
}

/// The signed sixty-four-bit field at offset `at` of `bytes`.
pub open spec fn field_i64(bytes: Seq<u8>, at: int) -> i64 {
    le_i64(bytes.subrange(at, at + 8)) as i64
}

impl MessageHeader {
    /// The header that the first twelve bytes of `bytes` hold.
    pub open spec fn layout(bytes: Seq<u8>) -> MessageHeader {
        MessageHeader {
            kind: field_i16(bytes, 0),
            size: field_u16(bytes, 2),
            time: field_i64(bytes, 4),
        }
    }

    /// The header of a view, where the view is long enough to hold one.
    pub open spec fn parsed(bytes: Seq<u8>) -> Option<MessageHeader> {
        if bytes.len() >= HEADER_LEN {
            Some(Self::layout(bytes))
        } else {
            None
        }
    }

    /// Reads the header at the front of `view`; `None` where `view` is
    /// shorter than a header.
    pub fn parse(view: &[u8]) -> (header: Option<MessageHeader>)
        ensures
            header == Self::parsed(view@),
    {
        if view.len() < HEADER_LEN {
            return None;
        }
        let kind: i16 = read_i16(&view[0..2]);
        let size: u16 = read_u16(&view[2..4]);
        let time: i64 = read_i64(&view[4..12]);
        Some(MessageHeader { kind, size, time })
    }

    /// The kind of the message, `None` for a code that the format does not
    /// name.
    pub fn message_kind(&self) -> (kind: Option<MessageKind>)
        ensures
            kind == MessageKind::of_code(self.kind),
    {
        MessageKind::from_code(self.kind)
    }
}

impl DepthItem {
    /// The depth message that the first [`DEPTH_LEN`] bytes of `bytes` hold.
    /// The eight bytes after the header carry nothing and are passed over.
    pub open spec fn layout(bytes: Seq<u8>) -> DepthItem {
        DepthItem {
            header: MessageHeader::layout(bytes),
            price: field_i64(bytes, 20),
            volume: field_i64(bytes, 28),
            flags: bytes[36],
        }
    }

    /// The depth message of a view: the view must hold the whole layout and
    /// its header must name the kind.
    pub open spec fn parsed(bytes: Seq<u8>) -> Option<DepthItem> {
        if bytes.len() >= DEPTH_LEN && MessageHeader::layout(bytes).kind == KIND_DEPTH {
            Some(Self::layout(bytes))
        } else {
            None
        }
    }

    /// Reads a depth message from `view`; `None` where `view` is too short
    /// for the layout or is of another kind.
    pub fn parse(view: &[u8]) -> (item: Option<DepthItem>)
        ensures
            item == Self::parsed(view@),
    {
        if view.len() < DEPTH_LEN {
            return None;
        }
        match MessageHeader::parse(view) {
            Some(header) => {
                if header.kind != KIND_DEPTH {
                    return None;
                }
                let price: i64 = read_i64(&view[20..28]);
                let volume: i64 = read_i64(&view[28..36]);
                let flags: u8 = view[36];
                Some(DepthItem { header, price, volume, flags })
            },
            None => None,
        }
    }

    /// The flags of the update as a set.
    pub fn market_flags(&self) -> (flags: MarketFlag)
        ensures
            flags.spec_bits() == MarketFlag::truncated(self.flags),
            flags.spec_is_buy() == has_flag(self.flags, BUY),
            flags.spec_is_sell() == has_flag(self.flags, SELL),
            flags.spec_is_clear() == has_flag(self.flags, CLEAR),
            flags.spec_is_end_of_tx() == has_flag(self.flags, END_OF_TX),
    {
        MarketFlag::from_bits_truncate(self.flags)
    }
}

impl TickItem {
    /// The tick message that the first [`TICK_LEN`] bytes of `bytes` hold.
    pub open spec fn layout(bytes: Seq<u8>) -> TickItem {
        TickItem {
            header: MessageHeader::layout(bytes),
            id: field_i64(bytes, 12),
            price: field_i64(bytes, 20),
            volume: field_i64(bytes, 28),
            side: bytes[36],
        }
    }

    /// The tick message of a view: the view must hold the whole layout and
    /// its header must name the kind.
    pub open spec fn parsed(bytes: Seq<u8>) -> Option<TickItem> {
        if bytes.len() >= TICK_LEN && MessageHeader::layout(bytes).kind == KIND_TICK {
            Some(Self::layout(bytes))
        } else {
            None
        }
    }

    /// Reads a tick message from `view`; `None` where `view` is too short
    /// for the layout or is of another kind.
    pub fn parse(view: &[u8]) -> (item: Option<TickItem>)
        ensures
            item == Self::parsed(view@),
    {
        if view.len() < TICK_LEN {
            return None;
        }
        match MessageHeader::parse(view) {
            Some(header) => {
                if header.kind != KIND_TICK {
                    return None;
                }
                let id: i64 = read_i64(&view[12..20]);
                let price: i64 = read_i64(&view[20..28]);
                let volume: i64 = read_i64(&view[28..36]);
                let side: u8 = view[36];
                Some(TickItem { header, id, price, volume, side })
            },
            None => None,
        }
    }
}

impl Message {
    /// What a message view stands for. A view too short for a header, or a
    /// depth or tick message too short for its layout, is malformed; every
    /// other kind is kept by its header.
    pub open spec fn decoded(bytes: Seq<u8>) -> Result<Message, ReadError> {
        match MessageHeader::parsed(bytes) {
            None => Err(ReadError::Format),
            Some(header) => if header.kind == KIND_DEPTH {
                match DepthItem::parsed(bytes) {
                    Some(item) => Ok(Message::Depth(item)),
                    None => Err(ReadError::Format),
                }
            } else if header.kind == KIND_TICK {
                match TickItem::parsed(bytes) {
                    Some(item) => Ok(Message::Tick(item)),
                    None => Err(ReadError::Format),
                }
            } else {
                Ok(Message::Other(header))
            },
        }
    }

    /// Interprets a message view by the kind in its header.
    pub fn decode(view: &[u8]) -> (message: Result<Message, ReadError>)
        ensures
            message == Self::decoded(view@),
    {
        match MessageHeader::parse(view) {
            None => Err(ReadError::Format),
            Some(header) => {
                if header.kind == KIND_DEPTH {
                    match DepthItem::parse(view) {
                        Some(item) => Ok(Message::Depth(item)),
                        None => Err(ReadError::Format),
                    }
                } else if header.kind == KIND_TICK {
                    match TickItem::parse(view) {
                        Some(item) => Ok(Message::Tick(item)),
                        None => Err(ReadError::Format),
                    }
                } else {
                    Ok(Message::Other(header))
                }
            },
        }
    }

    /// The header of the message.
    pub fn header(&self) -> (header: MessageHeader)
        ensures
            header == match *self {
                Message::Depth(item) => item.header,
                Message::Tick(item) => item.header,
                Message::Other(header) => header,
            },
    {
        match self {
            Message::Depth(item) => item.header,
            Message::Tick(item) => item.header,
            Message::Other(header) => *header,
        }
    }
}

} // verus!
