use photon::chunking::{split_chunks, ChunkBuffer};

#[test]
fn no_items_give_no_chunk() {
    let chunks: Vec<Vec<u32>> = split_chunks(vec![]);
    assert!(chunks.is_empty());
}

#[test]
fn a_short_stream_is_one_chunk() {
    let chunks = split_chunks(vec![7u32, 8, 9]);
    assert_eq!(chunks, vec![vec![7, 8, 9]]);
}

#[test]
fn exactly_128_items_are_one_chunk() {
    let items: Vec<u32> = (0..128).collect();
    let chunks = split_chunks(items.clone());
    assert_eq!(chunks, vec![items]);
}

#[test]
fn the_129th_item_opens_a_second_chunk() {
    let items: Vec<u32> = (0..129).collect();
    let chunks = split_chunks(items);
    assert_eq!(chunks.len(), 2);
    assert_eq!(chunks[0], (0..128).collect::<Vec<u32>>());
    assert_eq!(chunks[1], vec![128]);
}

#[test]
fn chunks_keep_the_order_of_the_stream() {
    let items: Vec<u32> = (0..300).map(|i| i * 3).collect();
    let chunks = split_chunks(items.clone());
    assert_eq!(chunks.iter().map(|c| c.len()).collect::<Vec<usize>>(), vec![128, 128, 44]);
    assert_eq!(chunks.concat(), items);
}

#[test]
fn two_full_chunks_leave_nothing_over() {
    let items: Vec<u32> = (0..256).collect();
    let chunks = split_chunks(items);
    assert_eq!(chunks.iter().map(|c| c.len()).collect::<Vec<usize>>(), vec![128, 128]);
}

#[test]
fn buffer_hands_out_a_chunk_at_the_128th_item() {
    let mut buffer: ChunkBuffer<u32> = ChunkBuffer::new();
    for i in 0..127u32 {
        let (rest, full) = buffer.push(i);
        assert!(full.is_none());
        assert_eq!(rest.len(), i as usize + 1);
        buffer = rest;
    }
    let (buffer, full) = buffer.push(127);
    assert_eq!(full, Some((0..128).collect::<Vec<u32>>()));
    assert_eq!(buffer.len(), 0);
    assert!(buffer.finish().is_none());
}

#[test]
fn buffer_hands_out_the_rest_at_the_end() {
    let buffer: ChunkBuffer<u32> = ChunkBuffer::new();
    let (buffer, _) = buffer.push(5);
    let (buffer, _) = buffer.push(6);
    assert_eq!(buffer.finish(), Some(vec![5, 6]));
}
