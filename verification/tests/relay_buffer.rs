use wisp2socks::relay::{RelayBuffer, RelayDirection};

#[test]
fn new_buffer_is_empty_with_full_capacity() {
    let b = RelayBuffer::new();
    assert_eq!(b.len(), 0);
    assert_eq!(b.space(), 8192);
    assert_eq!(b.contents(), Vec::<u8>::new());
}

#[test]
fn fill_appends_in_order() {
    let mut b = RelayBuffer::new();
    b.fill(b"hello");
    assert_eq!(b.contents(), b"hello".to_vec());
    b.fill(b" world");
    assert_eq!(b.contents(), b"hello world".to_vec());
    assert_eq!(b.len(), 11);
    assert_eq!(b.space(), 8192 - 11);
}

#[test]
fn partial_write_keeps_residue_in_order() {
    let mut b = RelayBuffer::new();
    b.fill(b"abcdef");
    b.ack(2);
    assert_eq!(b.contents(), b"cdef".to_vec());
    b.fill(b"gh");
    assert_eq!(b.contents(), b"cdefgh".to_vec());
    b.ack(6);
    assert_eq!(b.len(), 0);
}

#[test]
fn ack_zero_changes_nothing() {
    let mut b = RelayBuffer::new();
    b.fill(b"xyz");
    b.ack(0);
    assert_eq!(b.contents(), b"xyz".to_vec());
}

#[test]
fn fill_to_capacity_and_drain() {
    let mut b = RelayBuffer::new();
    let chunk = vec![7u8; 8192];
    b.fill(&chunk);
    assert_eq!(b.space(), 0);
    assert_eq!(b.len(), 8192);
    b.ack(8192);
    assert_eq!(b.len(), 0);
    assert_eq!(b.space(), 8192);
}

#[test]
fn randomized_short_writes_deliver_source_bytes_in_order() {
    // Reads of varying sizes interleaved with short (partial) writes: the
    // destination must end up with exactly the source bytes, in order.
    let source: Vec<u8> = (0u8..=255).cycle().take(2000).collect();
    // A fixed but irregular schedule of write sizes.
    let write_sizes = [1usize, 3, 0, 7, 2, 11, 5, 13, 4, 9];

    let mut d = RelayDirection::new();
    let mut delivered: Vec<u8> = Vec::new();
    let mut offset = 0usize;
    let mut step = 0usize;
    while offset < source.len() || d.buffer.len() > 0 {
        if offset < source.len() {
            let take = (37 + 13 * step) % 97 + 1;
            let end = (offset + take).min(source.len());
            let space = d.buffer.space();
            let end = end.min(offset + space);
            if end > offset {
                d.on_read(&source[offset..end]);
                offset = end;
            }
        }
        let pending = d.buffer.contents();
        let w = write_sizes[step % write_sizes.len()].min(pending.len());
        delivered.extend_from_slice(&pending[..w]);
        d.on_written(w);
        step += 1;
    }
    assert_eq!(delivered, source);
}
