use quack_rs::chunk_writer::{ChunkWriter, STANDARD_VECTOR_SIZE};

#[test]
fn next_row_increments() {
    let mut cw = ChunkWriter::with_capacity(3);
    assert_eq!(cw.next_row(), Some(0));
    assert_eq!(cw.next_row(), Some(1));
    assert_eq!(cw.next_row(), Some(2));
    assert_eq!(cw.next_row(), None);
    assert!(cw.is_full());
    assert_eq!(cw.row_count(), 3);
}

#[test]
fn is_full_at_zero_capacity() {
    let cw = ChunkWriter::with_capacity(0);
    assert!(cw.is_full());
}

#[test]
fn new_writer_has_standard_capacity() {
    let cw = ChunkWriter::new();
    assert_eq!(cw.capacity(), 2048);
    assert_eq!(STANDARD_VECTOR_SIZE, 2048);
    assert_eq!(cw.row_count(), 0);
    assert!(!cw.is_full());
}

#[test]
fn full_writer_stays_full_and_unchanged() {
    let mut cw = ChunkWriter::with_capacity(2);
    assert_eq!(cw.next_row(), Some(0));
    assert_eq!(cw.next_row(), Some(1));
    assert_eq!(cw.next_row(), None);
    assert_eq!(cw.next_row(), None);
    assert_eq!(cw.row_count(), 2);
    assert_eq!(cw.capacity(), 2);
}

#[test]
fn standard_writer_hands_out_every_row_once() {
    let mut cw = ChunkWriter::new();
    let mut expected = 0usize;
    while let Some(row) = cw.next_row() {
        assert_eq!(row, expected);
        expected += 1;
    }
    assert_eq!(expected, 2048);
    assert_eq!(cw.row_count(), 2048);
}

#[test]
fn size_of_row_tracker() {
    // The row bookkeeping is two counters; the chunk handle is held by the
    // caller alongside it.
    assert_eq!(
        std::mem::size_of::<ChunkWriter>(),
        std::mem::size_of::<usize>() * 2
    );
}
