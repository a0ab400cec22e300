//! The order book and the trade log that a consumer rebuilds from the
//! message stream.
//!
//! Prices and volumes stay in the fixed-point integers of the wire: the
//! order of two prices is the order of their integers, and a volume is
//! positive exactly when its integer is.

use crate::error::ReadError;
use crate::wire::{has_flag, MarketFlag, Message, BUY, CLEAR};
use std::collections::BTreeMap;
use vstd::prelude::*;

verus! {

/// One side of the book as a map from price to resting volume.
pub type Side = Map<i64, i64>;

/// The two sides of a book. They are independent: a price may rest on both.
pub struct BookView {
    pub bids: Side,
    pub asks: Side,
}

/// A side after one level changed: a positive volume is written over what
/// was there, any other volume takes the price out.
pub open spec fn side_update(side: Side, price: i64, volume: i64) -> Side {
    if volume > 0 {
        side.insert(price, volume)
    } else {
        side.remove(price)
    }
}

/// Every level of the side holds a positive volume.
pub open spec fn side_wf(side: Side) -> bool {
    forall|price: i64| side.contains_key(price) ==> #[trigger] side[price] > 0
}

/// `level` is the entry of `side` with the highest price, or `None` where
/// the side is empty.
pub open spec fn is_highest(side: Side, level: Option<(i64, i64)>) -> bool {
    match level {
        Some((price, volume)) => {
            &&& side.contains_key(price)
            &&& side[price] == volume
            &&& forall|other: i64| side.contains_key(other) ==> other <= price
        },
        None => forall|other: i64| !side.contains_key(other),
    }
}

/// `level` is the entry of `side` with the lowest price, or `None` where the
/// side is empty.
pub open spec fn is_lowest(side: Side, level: Option<(i64, i64)>) -> bool {
    match level {
        Some((price, volume)) => {
            &&& side.contains_key(price)
            &&& side[price] == volume
            &&& forall|other: i64| side.contains_key(other) ==> price <= other
        },
        None => forall|other: i64| !side.contains_key(other),
    }
}

impl BookView {
    /// The book without any level.
    pub open spec fn empty() -> BookView {
        BookView { bids: Map::empty(), asks: Map::empty() }
    }

    /// The book after a depth update. `CLEAR` empties both sides first;
    /// `BUY` routes the level to the bids and its absence to the asks.
    pub open spec fn apply_depth(self, price: i64, volume: i64, flags: u8) -> BookView {
        let bids = if has_flag(flags, CLEAR) {
            Map::empty()
        } else {
            self.bids
        };
        let asks = if has_flag(flags, CLEAR) {
            Map::empty()
        } else {
            self.asks
        };
        if has_flag(flags, BUY) {
            BookView { bids: side_update(bids, price, volume), asks }
        } else {
            BookView { bids, asks: side_update(asks, price, volume) }
        }
    }

    /// No level of either side holds a volume of zero or less.
    pub open spec fn wf(self) -> bool {
        side_wf(self.bids) && side_wf(self.asks)
    }
}

/// `BTreeMap::last_key_value`: the entry with the maximum key, or `None` for
/// an empty map, as the standard library documents it. Not proved.
#[verifier::external_body]
fn last_level(side: &BTreeMap<i64, i64>) -> (level: Option<(i64, i64)>)
    ensures
        is_highest(side@, level),
{
    match side.last_key_value() {
        Some((price, volume)) => Some((*price, *volume)),
        None => None,
    }
}

/// `BTreeMap::first_key_value`: the entry with the minimum key, or `None`
/// for an empty map, as the standard library documents it. Not proved.
#[verifier::external_body]
fn first_level(side: &BTreeMap<i64, i64>) -> (level: Option<(i64, i64)>)
    ensures
        is_lowest(side@, level),
{
    match side.first_key_value() {
        Some((price, volume)) => Some((*price, *volume)),
        None => None,
    }
}

/// An order book: resting volume by price, bids and asks apart.
pub struct DepthBook {
    bids: BTreeMap<i64, i64>,
    asks: BTreeMap<i64, i64>,
}

impl View for DepthBook {
    type V = BookView;

    closed spec fn view(&self) -> BookView {
        BookView { bids: self.bids@, asks: self.asks@ }
    }
}

impl Default for DepthBook {
    fn default() -> (book: DepthBook)
        ensures
            book@ == BookView::empty(),
            book@.wf(),
    {
        DepthBook::new()
    }
}

impl DepthBook {
    /// An empty book.
    pub fn new() -> (book: DepthBook)
        ensures
            book@ == BookView::empty(),
            book@.wf(),
    {
        DepthBook { bids: BTreeMap::new(), asks: BTreeMap::new() }
    }

    /// Applies one depth update. A book without empty levels stays so.
    pub fn update(&mut self, price: i64, volume: i64, flags: u8)
        ensures
            final(self)@ == old(self)@.apply_depth(price, volume, flags),
            old(self)@.wf() ==> final(self)@.wf(),
    {
        let set = MarketFlag::from_bits_truncate(flags);
        if set.is_clear() {
            self.bids.clear();
            self.asks.clear();
        }
        if set.is_buy() {
            if volume > 0 {
                self.bids.insert(price, volume);
            } else {
                self.bids.remove(&price);
            }
        } else {
            if volume > 0 {
                self.asks.insert(price, volume);
            } else {
                self.asks.remove(&price);
            }
        }
    }

    /// The highest bid with its volume, or `None` where there is no bid.
    pub fn best_bid(&self) -> (level: Option<(i64, i64)>)
        ensures
            is_highest(self@.bids, level),
    {
        last_level(&self.bids)
    }

    /// The lowest ask with its volume, or `None` where there is no ask.
    pub fn best_ask(&self) -> (level: Option<(i64, i64)>)
        ensures
            is_lowest(self@.asks, level),
    {
        first_level(&self.asks)
    }

    /// The number of bid levels.
    pub fn bid_levels(&self) -> (count: usize)
        ensures
            count == self@.bids.len(),
    {
        self.bids.len()
    }

    /// The number of ask levels.
    pub fn ask_levels(&self) -> (count: usize)
        ensures
            count == self@.asks.len(),
    {
        self.asks.len()
    }
}

/// One trade as the log keeps it: timestamp, price, volume.
pub type Trade = (i64, i64, i64);

/// The trade tape: append-only, in order of arrival.
pub struct Trades {
    entries: Vec<Trade>,
}

impl View for Trades {
    type V = Seq<Trade>;

    closed spec fn view(&self) -> Seq<Trade> {
        self.entries@
    }
}

impl Default for Trades {
    fn default() -> (log: Trades)
        ensures
            log@ == Seq::<Trade>::empty(),
    {
        Trades::new()
    }
}

impl Trades {
    /// An empty log.
    pub fn new() -> (log: Trades)
        ensures
            log@ == Seq::<Trade>::empty(),
    {
        Trades { entries: Vec::new() }
    }

    /// Appends one trade.
    pub fn push(&mut self, time: i64, price: i64, volume: i64)
        ensures
            final(self)@ == old(self)@.push((time, price, volume)),
    {
        self.entries.push((time, price, volume));
    }

    /// The number of trades.
    pub fn len(&self) -> (count: usize)
        ensures
            count == self@.len(),
    {
        self.entries.len()
    }

    /// The trade that arrived last, or `None` for an empty log.
    pub fn last(&self) -> (trade: Option<Trade>)
        ensures
            trade == if self@.len() == 0 {
                None
            } else {
                Some(self@.last())
            },
    {
        let count: usize = self.entries.len();
        if count == 0 {
            None
        } else {
            Some(self.entries[count - 1])
        }
    }
}

/// The best ask and the best bid at the time of one depth update.
#[derive(Clone, Copy, Debug, PartialEq, Eq, Structural)]
pub struct Quote {
    pub time: i64,
    pub ask_price: i64,
    pub ask_volume: i64,
    pub bid_price: i64,
    pub bid_volume: i64,
}

/// What a consumer has gathered from the messages so far.
pub struct ConsumerView {
    pub book: BookView,
    pub trades: Seq<Trade>,
    /// Whether a tick has been seen. Until then the depth messages are taken
    /// to build the initial book, which is not yet fit to report.
    pub snapshot_ready: bool,
}

impl ConsumerView {
    /// The state before any message.
    pub open spec fn start() -> ConsumerView {
        ConsumerView { book: BookView::empty(), trades: Seq::empty(), snapshot_ready: false }
    }

    /// The state after one more message. A depth message changes the book
    /// only; a tick is logged and ends the building of the snapshot; any
    /// other message changes nothing.
    pub open spec fn apply(self, message: Message) -> ConsumerView {
        match message {
            Message::Depth(item) => ConsumerView {
                book: self.book.apply_depth(item.price, item.volume, item.flags),
                ..self
            },
            Message::Tick(item) => ConsumerView {
                trades: self.trades.push((item.header.time, item.price, item.volume)),
                snapshot_ready: true,
                ..self
            },
            Message::Other(_) => self,
        }
    }

    /// The quote that is due after `message` brought the state to `self`: a
    /// depth message on a ready snapshot with both sides present is reported
    /// with the lowest ask and the highest bid.
    pub open spec fn reports(self, message: Message, quote: Option<Quote>) -> bool {
        match quote {
            Some(q) => {
                &&& message matches Message::Depth(item) && q.time == item.header.time
                &&& self.snapshot_ready
                &&& is_lowest(self.book.asks, Some((q.ask_price, q.ask_volume)))
                &&& is_highest(self.book.bids, Some((q.bid_price, q.bid_volume)))
            },
            None => {
                ||| !(message is Depth)
                ||| !self.snapshot_ready
                ||| is_lowest(self.book.asks, None)
                ||| is_highest(self.book.bids, None)
            },
        }
    }
}

/// The reference consumer: an order book, a trade log, and the flag that
/// tells a snapshot under construction from a live book.
pub struct Consumer {
    book: DepthBook,
    trades: Trades,
    snapshot_ready: bool,
}

impl View for Consumer {
    type V = ConsumerView;

    closed spec fn view(&self) -> ConsumerView {
        ConsumerView {
            book: self.book@,
            trades: self.trades@,
            snapshot_ready: self.snapshot_ready,
        }
    }
}

impl Consumer {
    /// A consumer that has seen nothing.
    pub fn new() -> (consumer: Consumer)
        ensures
            consumer@ == ConsumerView::start(),
            consumer@.book.wf(),
    {
        Consumer { book: DepthBook::new(), trades: Trades::new(), snapshot_ready: false }
    }

    /// Takes in one message and returns the quote to report, if one is due.
    pub fn apply(&mut self, message: &Message) -> (quote: Option<Quote>)
        ensures
            final(self)@ == old(self)@.apply(*message),
            final(self)@.reports(*message, quote),
            old(self)@.book.wf() ==> final(self)@.book.wf(),
    {
        match message {
            Message::Depth(item) => {
                self.book.update(item.price, item.volume, item.flags);
                if !self.snapshot_ready {
                    return None;
                }
                match (self.book.best_ask(), self.book.best_bid()) {
                    (Some(ask), Some(bid)) => Some(
                        Quote {
                            time: item.header.time,
                            ask_price: ask.0,
                            ask_volume: ask.1,
                            bid_price: bid.0,
                            bid_volume: bid.1,
                        },
                    ),
                    _ => None,
                }
            },
            Message::Tick(item) => {
                self.trades.push(item.header.time, item.price, item.volume);
                self.snapshot_ready = true;
                None
            },
            Message::Other(_) => None,
        }
    }

    /// Decodes a message view and takes the message in. A view that does
    /// not decode changes nothing.
    pub fn consume(&mut self, view: &[u8]) -> (quote: Result<Option<Quote>, ReadError>)
        ensures
            match Message::decoded(view@) {
                Ok(message) => {
                    &&& quote matches Ok(due) && final(self)@.reports(message, due)
                    &&& final(self)@ == old(self)@.apply(message)
                },
                Err(e) => quote == Err::<Option<Quote>, ReadError>(e) && final(self)@ == old(
                    self,
                )@,
            },
            old(self)@.book.wf() ==> final(self)@.book.wf(),
    {
        match Message::decode(view) {
            Ok(message) => Ok(self.apply(&message)),
            Err(e) => Err(e),
        }
    }

    /// The order book.
    pub fn book(&self) -> (book: &DepthBook)
        ensures
            book@ == self@.book,
    {
        &self.book
    }

    /// The trade log.
    pub fn trades(&self) -> (trades: &Trades)
        ensures
            trades@ == self@.trades,
    {
        &self.trades
    }

    /// Whether the first tick has been seen.
    pub fn snapshot_ready(&self) -> (ready: bool)
        ensures
            ready == self@.snapshot_ready,
    {
        self.snapshot_ready
    }
}

} // verus!
