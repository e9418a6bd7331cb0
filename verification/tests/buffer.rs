use rtos::buffer::SharedBuffer;

#[test]
fn new_buffer_is_zero_filled() {
    let buffer = SharedBuffer::new();
    assert_eq!(buffer.snapshot(), vec![0u8; 8]);
}

#[test]
fn snapshot_returns_the_stored_chunk() {
    let mut buffer = SharedBuffer::new();
    buffer.store(b"ABCDE\r\n\0");
    assert_eq!(buffer.snapshot(), b"ABCDE\r\n\0".to_vec());
}

#[test]
fn snapshot_is_never_a_mix_of_two_writes() {
    // Simulated writer/reader interleaving: the writer alternates two
    // whole-buffer writes, the reader snapshots between them. Every
    // snapshot must equal exactly one writer's full write, never an
    // interleaving of the two.
    let w1: [u8; 8] = [1, 2, 3, 4, 5, 6, 7, 8];
    let w2: [u8; 8] = [9, 10, 11, 12, 13, 14, 15, 16];
    let mut buffer = SharedBuffer::new();
    for round in 0..16 {
        let write = if round % 2 == 0 { &w1 } else { &w2 };
        buffer.store(write);
        let snapshot = buffer.snapshot();
        assert!(
            snapshot == w1.to_vec() || snapshot == w2.to_vec(),
            "snapshot mixes writes: {:?}",
            snapshot
        );
        assert_eq!(snapshot, write.to_vec());
    }
}

#[test]
fn store_replaces_every_byte() {
    let mut buffer = SharedBuffer::new();
    buffer.store(&[0xAA; 8]);
    buffer.store(&[0x55; 8]);
    let snapshot = buffer.snapshot();
    assert!(snapshot.iter().all(|&b| b == 0x55));
}
