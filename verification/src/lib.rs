//! Streaming decoder for market-data capture files.
//!
//! A capture file is a four-byte buffer capacity followed by length-prefixed
//! blocks. Each block is a pickled payload (stored or LZ4-compressed) that
//! decodes to a run of packed trading messages. The modules follow the data
//! downwards: bytes, block, decoded buffer, message view, typed fields,
//! aggregated book state.

pub mod error;
pub mod endian;
pub mod codec;
pub mod wire;
pub mod book;
pub mod framer;
pub mod stream;
pub mod boundary;
pub mod replay;

pub use crate::book::{BookView, Consumer, ConsumerView, DepthBook, Quote, Trades};
pub use crate::boundary::{close_reader, open_reader, read_message, status_of};
pub use crate::codec::unpickle;
pub use crate::error::ReadError;
pub use crate::framer::{block_length, Framer};
pub use crate::replay::replay;
pub use crate::stream::FastCacheReader;
pub use crate::wire::{
    Decimal, DepthItem, MarketFlag, Message, MessageHeader, MessageKind, TickItem,
};
