use std::io::{Read, Write};

use may::io::split_io::{SplitReader, SplitWriter};

#[test]
fn split_halves_keep_inner() {
    let r = SplitReader::new(5u8);
    let w = SplitWriter::new(6u8);
    assert_eq!(*r.inner(), 5);
    assert_eq!(*w.inner(), 6);
}

#[test]
fn split_halves_forward_io() {
    let mut r = SplitReader::new(&b"abc"[..]);
    let mut buf = [0u8; 8];
    assert_eq!(r.read(&mut buf).unwrap(), 3);
    assert_eq!(&buf[..3], b"abc");
    let mut w = SplitWriter::new(Vec::new());
    assert_eq!(w.write(b"xy").unwrap(), 2);
    w.flush().unwrap();
    assert_eq!(w.inner(), &b"xy".to_vec());
}
