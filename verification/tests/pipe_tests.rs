use std::io::Write;

use guest_driver::pipe::{long_pipe, read_until_block};

#[test]
fn drain_on_empty_pipe_is_empty_and_does_not_wait() {
    let (rp, _wp) = long_pipe().unwrap();
    let drained = read_until_block(&rp).unwrap();
    assert!(drained.is_empty());
}

#[test]
fn drain_returns_exactly_the_buffered_bytes() {
    let (rp, mut wp) = long_pipe().unwrap();
    wp.write_all(b"[    0.000000] Linux version test").unwrap();
    let drained = read_until_block(&rp).unwrap();
    assert_eq!(drained, b"[    0.000000] Linux version test");
    // everything was consumed: a second drain sees nothing
    let again = read_until_block(&rp).unwrap();
    assert!(again.is_empty());
}

#[test]
fn drain_crosses_chunk_boundaries() {
    let (rp, mut wp) = long_pipe().unwrap();
    let data: Vec<u8> = (0..20000u32).map(|i| (i % 251) as u8).collect();
    wp.write_all(&data).unwrap();
    let drained = read_until_block(&rp).unwrap();
    assert_eq!(drained, data);
}

#[test]
fn enlarged_pipe_accepts_a_big_burst_without_blocking() {
    // the default OS capacity (64 KiB) would refuse this non-blocking
    // write; the enlarged channel takes it whole
    let (rp, mut wp) = long_pipe().unwrap();
    let data = vec![0xabu8; 512 * 1024];
    wp.write_all(&data).unwrap();
    let drained = read_until_block(&rp).unwrap();
    assert_eq!(drained.len(), data.len());
}

#[test]
fn drain_after_writer_closed_returns_remaining_bytes() {
    let (rp, mut wp) = long_pipe().unwrap();
    wp.write_all(b"final words").unwrap();
    drop(wp);
    let drained = read_until_block(&rp).unwrap();
    assert_eq!(drained, b"final words");
    let again = read_until_block(&rp).unwrap();
    assert!(again.is_empty());
}
