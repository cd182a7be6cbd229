use bytes::Bytes;
use quartz::station::buffer::Buffer;
use quartz::station::codec::page::Page;
use quartz::station::streamer::Stream;

fn stamped(id: u64) -> Page {
    Page::new(&[b'p', id as u8], 1, id)
}

#[test]
fn listener_of_an_empty_buffer_gets_the_header_alone() {
    let (buffer, _first) = Buffer::new(3);
    let header = Bytes::from_static(b"header");
    let (_stream, opening) = Stream::open(&buffer, &header);
    assert_eq!(opening, vec![Bytes::from_static(b"header")]);
}

#[test]
fn listener_gets_header_then_backlog_in_order() {
    let (mut buffer, _first) = Buffer::new(3);
    for id in 1..=5u64 {
        buffer.push(stamped(id));
    }
    let header = Bytes::from_static(b"OggS-head");
    let (_stream, opening) = Stream::open(&buffer, &header);
    let expected: Vec<Bytes> = vec![
        Bytes::from_static(b"OggS-head"),
        Bytes::from_static(&[b'p', 3]),
        Bytes::from_static(&[b'p', 4]),
        Bytes::from_static(&[b'p', 5]),
    ];
    assert_eq!(opening, expected);
}

#[test]
fn listener_gets_each_later_page_once() {
    let (mut buffer, _first) = Buffer::new(2);
    buffer.push(stamped(1));
    let header = Bytes::from_static(b"h");
    let (mut stream, opening) = Stream::open(&buffer, &header);
    assert_eq!(opening.len(), 2);
    assert!(stream.next(&buffer).is_empty());
    buffer.push(stamped(2));
    assert_eq!(stream.next(&buffer), vec![Bytes::from_static(&[b'p', 2])]);
    assert!(stream.next(&buffer).is_empty());
    buffer.push(stamped(3));
    assert_eq!(stream.next(&buffer), vec![Bytes::from_static(&[b'p', 3])]);
    assert!(stream.next(&buffer).is_empty());
}

#[test]
fn listener_that_is_served_late_gets_all_pages_in_order() {
    let (mut buffer, _first) = Buffer::new(10);
    buffer.push(stamped(1));
    let header = Bytes::from_static(b"h");
    let (mut stream, _opening) = Stream::open(&buffer, &header);
    buffer.push(stamped(2));
    buffer.push(stamped(3));
    buffer.push(stamped(4));
    assert_eq!(
        stream.next(&buffer),
        vec![
            Bytes::from_static(&[b'p', 2]),
            Bytes::from_static(&[b'p', 3]),
            Bytes::from_static(&[b'p', 4]),
        ]
    );
    assert!(stream.next(&buffer).is_empty());
}

#[test]
fn listener_that_is_served_too_late_gets_what_is_still_retained() {
    let (mut buffer, _first) = Buffer::new(2);
    let header = Bytes::from_static(b"h");
    let (mut stream, _opening) = Stream::open(&buffer, &header);
    for id in 1..=5u64 {
        buffer.push(stamped(id));
    }
    // a window of two units holds two pages of a unit
    assert_eq!(
        stream.next(&buffer),
        vec![Bytes::from_static(&[b'p', 4]), Bytes::from_static(&[b'p', 5])]
    );
    assert!(stream.next(&buffer).is_empty());
}

#[test]
fn listeners_that_join_at_different_times_all_start_with_the_header() {
    let (mut buffer, _first) = Buffer::new(10);
    let header = Bytes::from_static(b"h");
    let (mut early, opening_early) = Stream::open(&buffer, &header);
    buffer.push(stamped(1));
    let (mut late, opening_late) = Stream::open(&buffer, &header);
    assert_eq!(opening_early[0], header);
    assert_eq!(opening_late[0], header);
    assert_eq!(opening_early.len(), 1);
    assert_eq!(opening_late.len(), 2);
    assert_eq!(early.next(&buffer), vec![Bytes::from_static(&[b'p', 1])]);
    assert!(late.next(&buffer).is_empty());
}
