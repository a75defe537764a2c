use rpi_kernel::loader::{Chunk, ChunkKind};
use rpi_kernel::uart::Uart;

fn feed(u: &mut Uart, bytes: &[u8]) {
    for b in bytes {
        u.receive(*b);
    }
}

#[test]
fn chunk_kind_bytes() {
    assert_eq!(ChunkKind::from_byte(b'R'), Ok(ChunkKind::RLE));
    assert_eq!(ChunkKind::from_byte(b'N'), Ok(ChunkKind::Normal));
    assert_eq!(ChunkKind::from_byte(b'X'), Err("Unknown kind"));
    assert_eq!(ChunkKind::RLE.to_byte(), b'R');
    assert_eq!(ChunkKind::Normal.to_byte(), b'N');
}

#[test]
fn chunk_header_from_uart() {
    let mut u = Uart::new();
    feed(&mut u, b"N\x04\x00\x00\x00");
    let c = Chunk::from_uart(&mut u, 1024).unwrap();
    assert_eq!(c.kind, ChunkKind::Normal);
    assert_eq!(c.data.len(), 4);
    assert!(c.data.iter().all(|b| *b == 0));
}

#[test]
fn chunk_header_rejects_unknown_kind() {
    let mut u = Uart::new();
    feed(&mut u, b"Q");
    assert!(Chunk::from_uart(&mut u, 1024).is_err());
}

#[test]
fn chunk_reads_payload() {
    let mut u = Uart::new();
    feed(&mut u, b"N\x03\x00\x00\x00");
    let mut c = Chunk::from_uart(&mut u, 1024).unwrap();
    feed(&mut u, b"abc");
    c.read_data(&mut u);
    assert_eq!(c.data.as_slice(), b"abc");
}

#[test]
fn chunk_verify_echoes_frame() {
    let mut u = Uart::new();
    let c = Chunk { kind: ChunkKind::Normal, data: b"hi".to_vec() };
    u.receive(b'G');
    assert!(c.verify_data(&mut u));
    assert_eq!(u.i.tx.as_slice(), b"N\x02\x00\x00\x00hi");

    let mut u = Uart::new();
    u.receive(b'X');
    assert!(!c.verify_data(&mut u));
}

#[test]
fn normal_chunk_copies_bytes() {
    let c = Chunk { kind: ChunkKind::Normal, data: b"abcd".to_vec() };
    let mut out = vec![0u8; 8];
    let n = c.write(&mut out, 2);
    assert_eq!(n, 4);
    assert_eq!(out.as_slice(), b"\x00\x00abcd\x00\x00");
}

#[test]
fn rle_chunk_expands_pairs() {
    let c = Chunk { kind: ChunkKind::RLE, data: vec![3, 7, 2, 9] };
    let mut out = vec![0u8; 6];
    let n = c.write(&mut out, 0);
    assert_eq!(n, 5);
    assert_eq!(out.as_slice(), &[7, 7, 7, 9, 9, 0]);
}

#[test]
fn rle_chunk_ignores_trailing_byte() {
    let c = Chunk { kind: ChunkKind::RLE, data: vec![2, 5, 9] };
    let mut out = vec![0u8; 4];
    let n = c.write(&mut out, 1);
    assert_eq!(n, 2);
    assert_eq!(out.as_slice(), &[0, 5, 5, 0]);
}

#[test]
fn rle_chunk_zero_count_pair() {
    let c = Chunk { kind: ChunkKind::RLE, data: vec![0, 5, 2, 6] };
    let mut out = vec![0u8; 2];
    let n = c.write(&mut out, 0);
    assert_eq!(n, 2);
    assert_eq!(out.as_slice(), &[6, 6]);
}

#[test]
fn uart_model_queues() {
    let mut u = Uart::new();
    u.init();
    u.write(1);
    u.write_slice(&[2, 3]);
    assert_eq!(u.i.tx.as_slice(), &[1, 2, 3]);
    u.receive(9);
    assert_eq!(u.read_blocking(), 9);
}

#[test]
fn empty_chunks_write_nothing() {
    let c = Chunk { kind: ChunkKind::RLE, data: Vec::new() };
    let mut out = vec![9u8; 2];
    assert_eq!(c.write(&mut out, 0), 0);
    assert_eq!(out.as_slice(), &[9, 9]);

    let c = Chunk { kind: ChunkKind::Normal, data: Vec::new() };
    assert_eq!(c.write(&mut out, 1), 0);
    assert_eq!(out.as_slice(), &[9, 9]);
}
