use hbone::tracker::{ConnectionStreams, DropCounter};

#[test]
fn second_release_decrements_read_first() {
    let (mut a, mut b, mut marker) = DropCounter::new();
    let mut count: u16 = 1;
    let first = a.release(&mut marker, &mut count);
    assert!(!first);
    assert_eq!(count, 1);
    let second = b.release(&mut marker, &mut count);
    assert!(second);
    assert_eq!(count, 0);
}

#[test]
fn second_release_decrements_write_first() {
    let (mut a, mut b, mut marker) = DropCounter::new();
    let mut count: u16 = 1;
    let first = b.release(&mut marker, &mut count);
    assert!(!first);
    assert_eq!(count, 1);
    let second = a.release(&mut marker, &mut count);
    assert!(second);
    assert_eq!(count, 0);
}

#[test]
fn pairs_do_not_interfere() {
    let (mut a1, mut b1, mut m1) = DropCounter::new();
    let (mut a2, mut b2, mut m2) = DropCounter::new();
    let mut count: u16 = 2;
    assert!(!a1.release(&mut m1, &mut count));
    assert!(!a2.release(&mut m2, &mut count));
    assert_eq!(count, 2);
    assert!(b2.release(&mut m2, &mut count));
    assert_eq!(count, 1);
    assert!(b1.release(&mut m1, &mut count));
    assert_eq!(count, 0);
}

#[test]
fn counter_tracks_streams_with_a_live_half() {
    let mut conn = ConnectionStreams::new();
    assert_eq!(conn.active_count(), 0);
    let s0 = conn.open_stream();
    let s1 = conn.open_stream();
    let s2 = conn.open_stream();
    assert_eq!(conn.active_count(), 3);

    // One half released: the stream still counts.
    assert!(!conn.release_read_half(s1));
    assert_eq!(conn.active_count(), 3);

    // The second half of the same stream: now it stops counting.
    assert!(conn.release_write_half(s1));
    assert_eq!(conn.active_count(), 2);

    // The other streams, in the opposite half order.
    assert!(!conn.release_write_half(s0));
    assert_eq!(conn.active_count(), 2);
    assert!(conn.release_read_half(s0));
    assert_eq!(conn.active_count(), 1);

    assert!(!conn.release_read_half(s2));
    assert!(conn.release_write_half(s2));
    assert_eq!(conn.active_count(), 0);
}

#[test]
fn interleaved_streams_decrement_exactly_once_each() {
    let mut conn = ConnectionStreams::new();
    let s0 = conn.open_stream();
    assert!(!conn.release_read_half(s0));
    let s1 = conn.open_stream();
    assert_eq!(conn.active_count(), 2);
    assert!(conn.release_write_half(s0));
    assert_eq!(conn.active_count(), 1);
    assert!(!conn.release_write_half(s1));
    assert!(conn.release_read_half(s1));
    assert_eq!(conn.active_count(), 0);
}
