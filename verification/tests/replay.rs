use faststorage_native::boundary::{
    STATUS_END, STATUS_OPENED, STATUS_OPEN_FAILED, STATUS_READ_FAILED,
};
use faststorage_native::wire::{BUY, CLEAR, SELL};
use faststorage_native::{
    close_reader, open_reader, read_message, replay, status_of, Consumer, FastCacheReader,
    MessageHeader, Quote, ReadError,
};

fn header(kind: i16, size: u16, time: i64) -> Vec<u8> {
    let mut out = Vec::new();
    out.extend_from_slice(&kind.to_le_bytes());
    out.extend_from_slice(&size.to_le_bytes());
    out.extend_from_slice(&time.to_le_bytes());
    out
}

fn depth(time: i64, price: i64, volume: i64, flags: u8) -> Vec<u8> {
    let mut out = header(0, 37, time);
    out.extend_from_slice(&[0u8; 8]);
    out.extend_from_slice(&price.to_le_bytes());
    out.extend_from_slice(&volume.to_le_bytes());
    out.push(flags);
    out
}

fn tick(time: i64, id: i64, price: i64, volume: i64, side: u8) -> Vec<u8> {
    let mut out = header(1, 37, time);
    out.extend_from_slice(&id.to_le_bytes());
    out.extend_from_slice(&price.to_le_bytes());
    out.extend_from_slice(&volume.to_le_bytes());
    out.push(side);
    out
}

fn sentinel() -> Vec<u8> {
    header(0, 0, 0)
}

fn capture(capacity: i32, blocks: &[Vec<u8>]) -> Vec<u8> {
    let mut out = capacity.to_le_bytes().to_vec();
    for block in blocks {
        out.extend_from_slice(&(block.len() as i32 + 1).to_le_bytes());
        out.push(0);
        out.extend_from_slice(block);
    }
    out
}

fn concat(parts: &[Vec<u8>]) -> Vec<u8> {
    parts.iter().flatten().copied().collect()
}

fn replayed(data: Vec<u8>) -> Consumer {
    let mut reader = FastCacheReader::open(data).ok().unwrap();
    let mut consumer = Consumer::new();
    assert_eq!(replay(&mut reader, &mut consumer), Ok(()));
    assert!(reader.is_finished());
    consumer
}

const PRICE_100: i64 = 10_000_000_000;
const PRICE_99_5: i64 = 9_950_000_000;
const VOLUME_5: i64 = 500_000_000;
const VOLUME_2: i64 = 200_000_000;

#[test]
fn one_bid_in_one_block() {
    let block = concat(&[depth(1, PRICE_100, VOLUME_5, BUY), sentinel()]);
    let consumer = replayed(capture(64, &[block]));
    assert_eq!(consumer.book().best_bid(), Some((PRICE_100, VOLUME_5)));
    assert_eq!(consumer.book().best_ask(), None);
    assert_eq!(consumer.book().ask_levels(), 0);
}

#[test]
fn zero_volume_takes_the_bid_out() {
    let first = concat(&[depth(1, PRICE_100, VOLUME_5, BUY), sentinel()]);
    let second = depth(2, PRICE_100, 0, BUY);
    let consumer = replayed(capture(64, &[first, second]));
    assert_eq!(consumer.book().best_bid(), None);
    assert_eq!(consumer.book().bid_levels(), 0);
}

#[test]
fn clear_on_the_sell_side_leaves_only_the_new_ask() {
    let block = concat(&[
        depth(1, PRICE_100, VOLUME_5, BUY),
        depth(2, PRICE_99_5, VOLUME_2, BUY),
        depth(3, PRICE_100 + 1, VOLUME_2, SELL),
        depth(4, PRICE_100 + 2, VOLUME_5, CLEAR | SELL),
    ]);
    let consumer = replayed(capture(256, &[block]));
    assert_eq!(consumer.book().best_bid(), None);
    assert_eq!(consumer.book().bid_levels(), 0);
    assert_eq!(consumer.book().best_ask(), Some((PRICE_100 + 2, VOLUME_5)));
    assert_eq!(consumer.book().ask_levels(), 1);
}

#[test]
fn tick_after_two_depths_is_the_only_trade() {
    let block = concat(&[
        depth(1, PRICE_100, VOLUME_5, BUY),
        depth(2, PRICE_100 + 1, VOLUME_5, SELL),
        tick(3, 1, PRICE_99_5, VOLUME_2, 1),
    ]);
    let consumer = replayed(capture(128, &[block]));
    assert_eq!(consumer.trades().len(), 1);
    assert_eq!(consumer.trades().last(), Some((3, PRICE_99_5, VOLUME_2)));
    assert_eq!(consumer.book().best_bid(), Some((PRICE_100, VOLUME_5)));
    assert_eq!(consumer.book().best_ask(), Some((PRICE_100 + 1, VOLUME_5)));
    assert!(consumer.snapshot_ready());
}

#[test]
fn negative_length_prefix_is_a_format_error() {
    let mut data = 64i32.to_le_bytes().to_vec();
    data.extend_from_slice(&(-1i32).to_le_bytes());
    let mut reader = FastCacheReader::open(data).ok().unwrap();
    assert_eq!(reader.next_msg(), Err(ReadError::Format));
    assert!(reader.is_finished());
}

#[test]
fn handle_protocol_reports_lengths_and_the_end() {
    let block = concat(&[depth(1, PRICE_100, VOLUME_5, BUY), header(2, 12, 5)]);
    let mut handle = None;
    assert_eq!(open_reader(capture(64, &[block.clone()]), &mut handle), STATUS_OPENED);
    assert_eq!(read_message(&mut handle), 37);
    assert_eq!(handle.as_ref().unwrap().message(), &block[..37]);
    assert_eq!(read_message(&mut handle), 12);
    assert_eq!(handle.as_ref().unwrap().message(), &block[37..]);
    assert_eq!(read_message(&mut handle), STATUS_END);
    assert!(handle.as_ref().unwrap().is_finished());
    close_reader(&mut handle);
    assert!(handle.is_none());
}

#[test]
fn handle_protocol_reports_failures() {
    let mut handle = None;
    assert_eq!(read_message(&mut handle), STATUS_OPEN_FAILED);
    assert_eq!(open_reader(vec![0, 0, 0, 0], &mut handle), STATUS_OPEN_FAILED);
    assert!(handle.is_none());
    assert_eq!(open_reader(vec![1, 2], &mut handle), STATUS_OPEN_FAILED);
    assert!(handle.is_none());
    let mut data = 64i32.to_le_bytes().to_vec();
    data.extend_from_slice(&(-1i32).to_le_bytes());
    assert_eq!(open_reader(data, &mut handle), STATUS_OPENED);
    assert_eq!(read_message(&mut handle), STATUS_READ_FAILED);
    assert_eq!(read_message(&mut handle), STATUS_END);
    close_reader(&mut handle);
    close_reader(&mut handle);
    assert!(handle.is_none());
}

#[test]
fn failed_open_keeps_the_handle() {
    let mut handle = None;
    assert_eq!(open_reader(capture(64, &[]), &mut handle), STATUS_OPENED);
    assert_eq!(open_reader(vec![], &mut handle), STATUS_OPEN_FAILED);
    assert!(handle.is_some());
}

#[test]
fn statuses_are_told_apart() {
    assert_eq!(status_of(&Ok(Some(MessageHeader { kind: 0, size: 37, time: 0 }))), 37);
    assert_eq!(
        status_of(&Ok(Some(MessageHeader { kind: 0, size: 65535, time: 0 }))),
        65535
    );
    assert_eq!(status_of(&Ok(None)), 0);
    assert_eq!(status_of(&Err(ReadError::Format)), -2);
    assert_eq!(status_of(&Err(ReadError::TruncatedInput)), -2);
    assert_eq!(status_of(&Err(ReadError::Capacity)), -2);
    assert_eq!(status_of(&Err(ReadError::Decompression)), -2);
}

#[test]
fn replay_stops_at_a_message_that_does_not_decode() {
    let block = concat(&[
        depth(1, PRICE_100, VOLUME_5, BUY),
        header(1, 12, 2),
        depth(3, PRICE_100, 0, BUY),
    ]);
    let mut reader = FastCacheReader::open(capture(128, &[block])).ok().unwrap();
    let mut consumer = Consumer::new();
    assert_eq!(replay(&mut reader, &mut consumer), Err(ReadError::Format));
    assert_eq!(consumer.book().best_bid(), Some((PRICE_100, VOLUME_5)));
    assert_eq!(consumer.trades().len(), 0);
}

#[test]
fn replay_keeps_what_came_before_the_error_of_the_stream() {
    let mut data = capture(64, &[depth(1, PRICE_100, VOLUME_5, BUY)]);
    data.extend_from_slice(&[9, 0, 0]);
    let mut reader = FastCacheReader::open(data).ok().unwrap();
    let mut consumer = Consumer::new();
    assert_eq!(replay(&mut reader, &mut consumer), Err(ReadError::TruncatedInput));
    assert_eq!(consumer.book().best_bid(), Some((PRICE_100, VOLUME_5)));
}

#[test]
fn consume_decodes_and_applies() {
    let mut consumer = Consumer::new();
    assert_eq!(consumer.consume(&depth(1, PRICE_100, VOLUME_5, BUY)), Ok(None));
    assert_eq!(consumer.consume(&tick(2, 1, PRICE_99_5, VOLUME_2, 1)), Ok(None));
    assert_eq!(
        consumer.consume(&depth(3, PRICE_100 + 1, VOLUME_2, SELL)),
        Ok(Some(Quote {
            time: 3,
            ask_price: PRICE_100 + 1,
            ask_volume: VOLUME_2,
            bid_price: PRICE_100,
            bid_volume: VOLUME_5,
        }))
    );
    assert_eq!(consumer.consume(&[1, 2, 3]), Err(ReadError::Format));
    assert_eq!(consumer.trades().len(), 1);
}
