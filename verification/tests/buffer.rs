use hydrogen::buf::Buffer;
use hydrogen::sockbuf::SocketBuffer;

#[test]
fn append_then_extract_round_trip() {
    let mut b = Buffer::new();
    b.append(b"hello");
    let out = b.extract(5);
    assert_eq!(out, b"hello".to_vec());
    assert_eq!(b.len(), 0);
}

#[test]
fn prepend_then_extract() {
    let mut buf = Buffer::new();
    let a = b"tail";
    let b = b"head";
    buf.append(a);
    buf.prepend(b);
    let out = buf.extract(a.len() + b.len());
    assert_eq!(out, b"headtail".to_vec());
    assert_eq!(buf.len(), 0);
}

#[test]
fn extract_partial_keeps_order() {
    let mut b = Buffer::new();
    b.append(&[1, 2, 3, 4, 5]);
    assert_eq!(b.extract(2), vec![1, 2]);
    assert_eq!(b.len(), 3);
    assert_eq!(b.extract(10), vec![3, 4, 5]);
    assert_eq!(b.len(), 0);
}

#[test]
fn extract_from_empty_is_empty() {
    let mut b = Buffer::new();
    assert_eq!(b.extract(16), Vec::<u8>::new());
    assert_eq!(b.len(), 0);
}

#[test]
fn append_accumulates_in_order() {
    let mut b = Buffer::new();
    b.append(b"ab");
    b.append(b"cd");
    assert_eq!(b.len(), 4);
    assert_eq!(b.extract(4), b"abcd".to_vec());
}

#[test]
fn take_all_empties() {
    let mut b = Buffer::new();
    b.append(b"xyz");
    assert_eq!(b.take_all(), b"xyz".to_vec());
    assert_eq!(b.len(), 0);
    assert_eq!(b.take_all(), Vec::<u8>::new());
}

#[test]
fn socket_buffer_push_take() {
    let mut s = SocketBuffer::new();
    s.push(b"abc");
    s.push_front(b"01");
    assert_eq!(s.len(), 5);
    assert_eq!(s.take(3), b"01a".to_vec());
    assert_eq!(s.take_all(), b"bc".to_vec());
    assert_eq!(s.len(), 0);
}
