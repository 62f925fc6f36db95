use parity_scale_codec::Encode;
use substrate_features::message_queue::page::{
    full_page, msg, page, single_page_book, vmsg, BookState, MessageOrigin, Page,
};
use substrate_features::message_queue::processor::{
    parse_weight, ProcessMessageError, SimpleTestMessageProcessor, TestMessageProcessor,
};
use substrate_features::message_queue::weight::{IntoWeight, MockedWeightInfo, Weight};

#[test]
fn origins_are_written_down() {
    assert_eq!(MessageOrigin::Here.encode(), vec![0]);
    assert_eq!(MessageOrigin::There.encode(), vec![1]);
    assert_eq!(MessageOrigin::Everywhere(0x01020304).encode(), vec![2, 4, 3, 2, 1]);
    assert_eq!(MessageOrigin::from(7), MessageOrigin::Everywhere(7));
    assert_eq!(MessageOrigin::Everywhere(9).encode(), (2u8, 9u32).encode());
}

#[test]
fn origins_are_read_back() {
    for origin in [
        MessageOrigin::Here,
        MessageOrigin::There,
        MessageOrigin::Everywhere(0),
        MessageOrigin::Everywhere(0x01020304),
        MessageOrigin::Everywhere(u32::MAX),
    ] {
        let mut bytes = origin.encode();
        let len = bytes.len();
        assert_eq!(MessageOrigin::decode(&bytes), Some((origin, len)));
        bytes.extend_from_slice(&[9, 9]);
        assert_eq!(MessageOrigin::decode(&bytes), Some((origin, len)));
    }
    assert_eq!(
        MessageOrigin::decode(&[2, 4, 3, 2, 1]),
        Some((MessageOrigin::Everywhere(0x01020304), 5))
    );
    assert_eq!(MessageOrigin::decode(&[]), None);
    assert_eq!(MessageOrigin::decode(&[2, 4, 3, 2]), None);
    assert_eq!(MessageOrigin::decode(&[3, 0, 0, 0, 0]), None);
    assert_eq!(MessageOrigin::decode(&[255]), None);
}

#[test]
fn messages_are_cut_off() {
    assert_eq!(msg::<10>("hello"), &b"hello"[..]);
    assert_eq!(msg::<5>("hello"), &b"hello"[..]);
    assert_eq!(msg::<2>("hello"), &b"he"[..]);
    assert_eq!(msg::<0>("hello"), &b""[..]);
    assert_eq!(vmsg("hello"), b"hello".to_vec());
    assert_eq!(vmsg("\u{e9}"), vec![0xc3, 0xa9]);
}

#[test]
fn a_page_with_one_message() {
    let page: Page<64> = page(b"abc", MessageOrigin::There);
    assert_eq!(page.heap, vec![4, 0, 0, 0, 0, 1, b'a', b'b', b'c']);
    assert_eq!((page.remaining, page.remaining_size), (1, 4));
    assert_eq!((page.first_index, page.first, page.last), (0, 0, 0));
}

#[test]
fn a_page_takes_what_fits() {
    let mut page: Page<20> = page(b"abc", MessageOrigin::Here);
    assert_eq!(page.heap.len(), 9);
    assert_eq!(page.try_append_message(b"1234567", &[0]), Err(()));
    assert_eq!(page.heap.len(), 9);
    assert_eq!(page.try_append_message(b"12345", &[0]), Ok(()));
    assert_eq!(page.heap.len(), 20);
    assert_eq!((page.remaining, page.remaining_size, page.last), (2, 10, 9));
    assert_eq!(page.try_append_message(b"", &[]), Err(()));
}

#[test]
fn a_full_page_has_no_room() {
    let (mut page, count) = full_page::<64>();
    assert_eq!(count, 6);
    assert_eq!(page.heap.len(), 60);
    assert_eq!(&page.heap[10..20], &[5, 0, 0, 0, 0, 2, 1, 0, 0, 0]);
    assert_eq!((page.remaining, page.remaining_size, page.last), (6, 30, 50));
    let origin = MessageOrigin::Everywhere(6).encode();
    assert_eq!(page.try_append_message(b"", &origin), Err(()));
    assert_eq!(full_page::<10>().1, 1);
    assert_eq!(full_page::<19>().1, 1);
    assert_eq!(full_page::<20>().1, 2);
}

#[test]
fn a_book_with_one_page() {
    let book = BookState { begin: 0, end: 1, count: 1, ready_neighbours: None };
    assert_eq!(single_page_book(), book);
}

#[test]
fn numbers_stand_for_weights() {
    assert_eq!(5u64.into_weight(), Weight::from_parts(5, 5));
    assert!(Weight::from_parts(1, 2).all_lte(Weight::from_parts(1, 2)));
    assert!(!Weight::from_parts(1, 3).all_lte(Weight::from_parts(9, 2)));
    assert!(!Weight::from_parts(3, 1).all_lte(Weight::from_parts(2, 9)));
}

#[test]
fn weights_of_calls_can_be_set() {
    let mut info = MockedWeightInfo::new();
    assert_eq!(info.service_page_base(), Weight::from_parts(0, 0));
    info.set_weight("service_page_base", 1.into_weight());
    info.set_weight("service_queue_base", 2.into_weight());
    info.set_weight("service_page_process_message", 3.into_weight());
    info.set_weight("bump_service_head", 4.into_weight());
    info.set_weight("service_page_item", 5.into_weight());
    info.set_weight("ready_ring_unknit", 6.into_weight());
    info.set_weight("something_else", 7.into_weight());
    assert_eq!(info.service_page_base(), 1.into_weight());
    assert_eq!(info.service_queue_base(), 2.into_weight());
    assert_eq!(info.service_page_process_message(), 3.into_weight());
    assert_eq!(info.bump_service_head(), 4.into_weight());
    assert_eq!(info.service_page_item(), 5.into_weight());
    assert_eq!(info.ready_ring_unknit(), 6.into_weight());
    info.set_weight("service_page_base", 8.into_weight());
    assert_eq!(info.service_page_base(), 8.into_weight());
    assert_eq!(info.service_queue_base(), 2.into_weight());
}

fn weigh(message: &[u8]) -> Weight {
    let limit = Weight::from_parts(u64::MAX, u64::MAX);
    let mut processor = TestMessageProcessor::new();
    match processor.process_message(message, MessageOrigin::Here, limit) {
        Ok((true, weight)) => weight,
        other => panic!("unexpected {:?}", other),
    }
}

#[test]
fn messages_tell_their_weight() {
    assert_eq!(weigh(b"weight=123"), 123.into_weight());
    assert_eq!(weigh(b"weight=007"), 7.into_weight());
    assert_eq!(weigh(b"weight=12x34"), 12.into_weight());
    assert_eq!(weigh(b"weight="), 0.into_weight());
    assert_eq!(weigh(b"weight=-5"), 0.into_weight());
    assert_eq!(weigh(b"weight"), 1.into_weight());
    assert_eq!(weigh(b"Weight=5"), 1.into_weight());
    assert_eq!(weigh(b""), 1.into_weight());
    assert_eq!(weigh(b"weight=18446744073709551615"), u64::MAX.into_weight());
    assert_eq!(parse_weight(b"weight=18446744073709551615"), Some(u64::MAX));
    assert_eq!(parse_weight(b"weight=18446744073709551616"), None);
    assert_eq!(parse_weight(b"weight=99999999999999999999"), None);
    assert_eq!(parse_weight(b"weight=00000000000000000000005"), Some(5));
}

#[test]
fn messages_are_remembered_unless_overweight() {
    let mut processor = TestMessageProcessor::new();
    let limit = Weight::from_parts(5, 4);
    let result = processor.process_message(b"weight=5", MessageOrigin::Here, limit);
    assert_eq!(result, Err(ProcessMessageError::Overweight(5.into_weight())));
    let result = processor.process_message(b"weight=4", MessageOrigin::There, limit);
    assert_eq!(result, Ok((true, 4.into_weight())));
    let result = processor.process_message(b"b", MessageOrigin::Everywhere(3), limit);
    assert_eq!(result, Ok((true, 1.into_weight())));
    assert_eq!(
        processor.messages_processed(),
        &vec![
            (b"weight=4".to_vec(), MessageOrigin::There),
            (b"b".to_vec(), MessageOrigin::Everywhere(3)),
        ]
    );
}

#[test]
fn messages_are_counted_unless_overweight() {
    let mut processor = SimpleTestMessageProcessor::new();
    let limit = Weight::from_parts(5, 5);
    let result = processor.process_message(b"weight=5", MessageOrigin::Here, limit);
    assert_eq!(result, Ok((true, 5.into_weight())));
    let result = processor.process_message(b"weight=6", MessageOrigin::Here, limit);
    assert_eq!(result, Err(ProcessMessageError::Overweight(6.into_weight())));
    let result = processor.process_message(b"other", MessageOrigin::There, limit);
    assert_eq!(result, Ok((true, 1.into_weight())));
    let limit = Weight::from_parts(1, 0);
    let result = processor.process_message(b"", MessageOrigin::Here, limit);
    assert_eq!(result, Err(ProcessMessageError::Overweight(1.into_weight())));
    assert_eq!(processor.num_messages_processed(), 2);
}
