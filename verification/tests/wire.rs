use faststorage_native::wire::{BUY, CLEAR, END_OF_TX, SELL};
use faststorage_native::{
    Decimal, DepthItem, MarketFlag, Message, MessageHeader, MessageKind, ReadError, TickItem,
};

fn header(kind: i16, size: u16, time: i64) -> Vec<u8> {
    let mut out = Vec::new();
    out.extend_from_slice(&kind.to_le_bytes());
    out.extend_from_slice(&size.to_le_bytes());
    out.extend_from_slice(&time.to_le_bytes());
    out
}

fn depth(time: i64, price: i64, volume: i64, flags: u8) -> Vec<u8> {
    let mut out = header(0, 37, time);
    out.extend_from_slice(&[0xaa; 8]);
    out.extend_from_slice(&price.to_le_bytes());
    out.extend_from_slice(&volume.to_le_bytes());
    out.push(flags);
    out
}

fn tick(time: i64, id: i64, price: i64, volume: i64, side: u8) -> Vec<u8> {
    let mut out = header(1, 37, time);
    out.extend_from_slice(&id.to_le_bytes());
    out.extend_from_slice(&price.to_le_bytes());
    out.extend_from_slice(&volume.to_le_bytes());
    out.push(side);
    out
}

#[test]
fn kinds_have_their_codes() {
    assert_eq!(MessageKind::from_code(0), Some(MessageKind::Depth));
    assert_eq!(MessageKind::from_code(1), Some(MessageKind::Tick));
    assert_eq!(MessageKind::from_code(2), Some(MessageKind::Symbol));
    assert_eq!(MessageKind::from_code(3), Some(MessageKind::Candle));
    assert_eq!(MessageKind::from_code(4), Some(MessageKind::CandleEnd));
    assert_eq!(MessageKind::from_code(5), None);
    assert_eq!(MessageKind::from_code(-1), None);
}

#[test]
fn codes_round_trip() {
    for kind in [
        MessageKind::Depth,
        MessageKind::Tick,
        MessageKind::Symbol,
        MessageKind::Candle,
        MessageKind::CandleEnd,
    ] {
        assert_eq!(MessageKind::from_code(kind.code()), Some(kind));
    }
}

#[test]
fn header_fields_sit_at_their_offsets() {
    let bytes = [
        0x01, 0x00, 0x25, 0x00, 0x08, 0x07, 0x06, 0x05, 0x04, 0x03, 0x02, 0x01,
    ];
    assert_eq!(
        MessageHeader::parse(&bytes),
        Some(MessageHeader { kind: 1, size: 37, time: 0x0102030405060708 })
    );
}

#[test]
fn header_fields_keep_their_sign() {
    let bytes = header(-2, 0xfffe, -3);
    assert_eq!(
        MessageHeader::parse(&bytes),
        Some(MessageHeader { kind: -2, size: 65534, time: -3 })
    );
    let extreme = header(i16::MIN, u16::MAX, i64::MIN);
    assert_eq!(
        MessageHeader::parse(&extreme),
        Some(MessageHeader { kind: i16::MIN, size: u16::MAX, time: i64::MIN })
    );
}

#[test]
fn short_view_has_no_header() {
    assert_eq!(MessageHeader::parse(&[0u8; 11]), None);
    assert_eq!(MessageHeader::parse(&[]), None);
}

#[test]
fn header_names_its_kind() {
    let known = MessageHeader { kind: 3, size: 12, time: 0 };
    assert_eq!(known.message_kind(), Some(MessageKind::Candle));
    let unknown = MessageHeader { kind: 77, size: 12, time: 0 };
    assert_eq!(unknown.message_kind(), None);
}

#[test]
fn depth_fields_sit_at_their_offsets() {
    let bytes = depth(1_700_000_000, 10_000_000_000, 500_000_000, 1);
    assert_eq!(bytes.len(), 37);
    assert_eq!(
        DepthItem::parse(&bytes),
        Some(DepthItem {
            header: MessageHeader { kind: 0, size: 37, time: 1_700_000_000 },
            price: 10_000_000_000,
            volume: 500_000_000,
            flags: 1,
        })
    );
}

#[test]
fn depth_needs_its_whole_layout_and_its_kind() {
    let bytes = depth(1, 2, 3, 4);
    assert_eq!(DepthItem::parse(&bytes[..36]), None);
    assert_eq!(DepthItem::parse(&tick(1, 2, 3, 4, 5)), None);
}

#[test]
fn tick_fields_sit_at_their_offsets() {
    let bytes = tick(42, 1, 9_950_000_000, -200_000_000, 1);
    assert_eq!(
        TickItem::parse(&bytes),
        Some(TickItem {
            header: MessageHeader { kind: 1, size: 37, time: 42 },
            id: 1,
            price: 9_950_000_000,
            volume: -200_000_000,
            side: 1,
        })
    );
}

#[test]
fn tick_needs_its_whole_layout_and_its_kind() {
    let bytes = tick(1, 2, 3, 4, 5);
    assert_eq!(TickItem::parse(&bytes[..36]), None);
    assert_eq!(TickItem::parse(&depth(1, 2, 3, 4)), None);
}

#[test]
fn decode_goes_by_the_kind() {
    let d = depth(5, 6, 7, 2);
    assert_eq!(Message::decode(&d), Ok(Message::Depth(DepthItem::parse(&d).unwrap())));
    let t = tick(5, 6, 7, 8, 0);
    assert_eq!(Message::decode(&t), Ok(Message::Tick(TickItem::parse(&t).unwrap())));
    let other = header(2, 12, 99);
    assert_eq!(
        Message::decode(&other),
        Ok(Message::Other(MessageHeader { kind: 2, size: 12, time: 99 }))
    );
    let unknown = header(1234, 12, 99);
    assert_eq!(
        Message::decode(&unknown),
        Ok(Message::Other(MessageHeader { kind: 1234, size: 12, time: 99 }))
    );
}

#[test]
fn decode_refuses_what_is_too_short() {
    assert_eq!(Message::decode(&[0u8; 5]), Err(ReadError::Format));
    assert_eq!(Message::decode(&header(0, 12, 1)), Err(ReadError::Format));
    assert_eq!(Message::decode(&header(1, 12, 1)), Err(ReadError::Format));
}

#[test]
fn repeated_reads_of_a_view_agree() {
    let bytes = depth(11, 22, 33, 9);
    let first = Message::decode(&bytes);
    let second = Message::decode(&bytes);
    assert_eq!(first, second);
    assert_eq!(first.unwrap().header(), MessageHeader { kind: 0, size: 37, time: 11 });
}

#[test]
fn flags_are_told_apart() {
    let buy = MarketFlag::from_bits_truncate(BUY);
    assert!(buy.is_buy() && !buy.is_sell() && !buy.is_clear() && !buy.is_end_of_tx());
    let sell = MarketFlag::from_bits_truncate(SELL);
    assert!(!sell.is_buy() && sell.is_sell() && !sell.is_clear() && !sell.is_end_of_tx());
    let clear = MarketFlag::from_bits_truncate(CLEAR);
    assert!(!clear.is_buy() && !clear.is_sell() && clear.is_clear() && !clear.is_end_of_tx());
    let end = MarketFlag::from_bits_truncate(END_OF_TX);
    assert!(!end.is_buy() && !end.is_sell() && !end.is_clear() && end.is_end_of_tx());
}

#[test]
fn unknown_flag_bits_are_dropped() {
    let flags = MarketFlag::from_bits_truncate(0xf5);
    assert_eq!(flags.bits(), 5);
    assert!(flags.is_buy() && flags.is_clear());
    assert_eq!(flags, MarketFlag::from_bits_truncate(5));
}

#[test]
fn depth_item_gives_its_flags() {
    let item = DepthItem::parse(&depth(1, 2, 3, 0x1a)).unwrap();
    let flags = item.market_flags();
    assert_eq!(flags.bits(), 0x0a);
    assert!(flags.is_sell() && flags.is_end_of_tx() && !flags.is_buy());
}

#[test]
fn decimal_parts_of_a_price() {
    assert_eq!(
        Decimal::of(10_000_000_000),
        Decimal { negative: false, whole: 100, fraction: 0 }
    );
    assert_eq!(
        Decimal::of(9_950_000_001),
        Decimal { negative: false, whole: 99, fraction: 50_000_001 }
    );
    assert_eq!(Decimal::of(0), Decimal { negative: false, whole: 0, fraction: 0 });
}

#[test]
fn decimal_parts_of_a_negative_number() {
    assert_eq!(
        Decimal::of(-150_000_000),
        Decimal { negative: true, whole: 1, fraction: 50_000_000 }
    );
    assert_eq!(
        Decimal::of(i64::MIN),
        Decimal { negative: true, whole: 92_233_720_368, fraction: 54_775_808 }
    );
    assert_eq!(
        Decimal::of(i64::MAX),
        Decimal { negative: false, whole: 92_233_720_368, fraction: 54_775_807 }
    );
}
