use nv_audio_fx_vst::ring_buffer::FixedRingBuffer;

fn drain(rb: &mut FixedRingBuffer<f32>) -> Vec<f32> {
    let mut out = Vec::new();
    let mut one = [0.0f32];
    while rb.read_chunk(&mut one) {
        out.push(one[0]);
    }
    out
}

#[test]
fn new_buffer_is_empty() {
    let rb = FixedRingBuffer::new(8, 0.0f32);
    assert_eq!(rb.available_samples(), 0);
}

#[test]
fn push_then_read_returns_samples_in_order() {
    let mut rb = FixedRingBuffer::new(8, 0.0f32);
    rb.push_slice(&[1.0, 2.0, 3.0]);
    assert_eq!(rb.available_samples(), 3);
    let mut out = [0.0f32; 2];
    assert!(rb.read_chunk(&mut out));
    assert_eq!(out, [1.0, 2.0]);
    assert_eq!(rb.available_samples(), 1);
    assert_eq!(drain(&mut rb), vec![3.0]);
}

#[test]
fn push_drops_samples_once_full() {
    let mut rb = FixedRingBuffer::new(4, 0.0f32);
    rb.push_slice(&[1.0, 2.0, 3.0, 4.0, 5.0, 6.0]);
    assert_eq!(rb.available_samples(), 4);
    assert_eq!(drain(&mut rb), vec![1.0, 2.0, 3.0, 4.0]);
}

#[test]
fn read_chunk_refuses_when_too_few_samples() {
    let mut rb = FixedRingBuffer::new(4, 0.0f32);
    rb.push_slice(&[1.0, 2.0]);
    let mut out = [9.0f32; 3];
    assert!(!rb.read_chunk(&mut out));
    assert_eq!(out, [9.0, 9.0, 9.0]);
    assert_eq!(rb.available_samples(), 2);
    assert_eq!(drain(&mut rb), vec![1.0, 2.0]);
}

#[test]
fn empty_read_always_succeeds() {
    let mut rb = FixedRingBuffer::new(4, 0.0f32);
    let mut out: [f32; 0] = [];
    assert!(rb.read_chunk(&mut out));
    assert_eq!(rb.available_samples(), 0);
}

#[test]
fn order_is_kept_across_wrap_around() {
    let mut rb = FixedRingBuffer::new(4, 0u32);
    rb.push_slice(&[1, 2, 3]);
    let mut out = [0u32; 2];
    assert!(rb.read_chunk(&mut out));
    assert_eq!(out, [1, 2]);
    rb.push_slice(&[4, 5, 6, 7]);
    assert_eq!(rb.available_samples(), 4);
    let mut all = [0u32; 4];
    assert!(rb.read_chunk(&mut all));
    assert_eq!(all, [3, 4, 5, 6]);
}

#[test]
fn clear_empties_the_buffer() {
    let mut rb = FixedRingBuffer::new(4, 0.0f32);
    rb.push_slice(&[1.0, 2.0, 3.0]);
    rb.clear();
    assert_eq!(rb.available_samples(), 0);
    rb.push_slice(&[7.0]);
    assert_eq!(drain(&mut rb), vec![7.0]);
}

#[test]
fn zero_capacity_buffer_holds_nothing() {
    let mut rb = FixedRingBuffer::new(0, 0.0f32);
    rb.push_slice(&[1.0, 2.0]);
    assert_eq!(rb.available_samples(), 0);
    let mut out = [0.0f32; 1];
    assert!(!rb.read_chunk(&mut out));
    rb.clear();
    assert_eq!(rb.available_samples(), 0);
}

#[test]
fn fifo_when_room_law_example() {
    let mut rb = FixedRingBuffer::new(6, 0u8);
    rb.push_slice(&[1, 2]);
    rb.push_slice(&[3, 4, 5]);
    let mut out = [0u8; 5];
    assert!(rb.read_chunk(&mut out));
    assert_eq!(out, [1, 2, 3, 4, 5]);
}

#[test]
fn push_in_pieces_law_example() {
    let mut a = FixedRingBuffer::new(5, 0u8);
    a.push_slice(&[1, 2, 3]);
    a.push_slice(&[4, 5, 6, 7]);
    let mut b = FixedRingBuffer::new(5, 0u8);
    for s in [1u8, 2, 3, 4, 5, 6, 7] {
        b.push_slice(&[s]);
    }
    let mut oa = [0u8; 5];
    let mut ob = [0u8; 5];
    assert!(a.read_chunk(&mut oa));
    assert!(b.read_chunk(&mut ob));
    assert_eq!(oa, ob);
    assert_eq!(oa, [1, 2, 3, 4, 5]);
}

#[test]
fn bounded_law_example() {
    let mut rb = FixedRingBuffer::new(3, 0u8);
    for _ in 0..5 {
        rb.push_slice(&[1, 2]);
        assert!(rb.available_samples() <= 3);
    }
}

#[test]
fn push_repeated_appends_copies_until_full() {
    let mut rb = FixedRingBuffer::new(5, 0u8);
    rb.push_slice(&[1, 2]);
    rb.push_repeated(7, 2);
    assert_eq!(rb.available_samples(), 4);
    rb.push_repeated(9, 3);
    assert_eq!(rb.available_samples(), 5);
    let mut out = [0u8; 5];
    assert!(rb.read_chunk(&mut out));
    assert_eq!(out, [1, 2, 7, 7, 9]);
}

#[test]
fn count_is_accepted_minus_read_law_example() {
    let mut rb = FixedRingBuffer::new(6, 0u16);
    let mut accepted = 0usize;
    let mut read = 0usize;
    let pushes: [&[u16]; 4] = [&[1, 2, 3], &[4, 5, 6, 7, 8], &[9], &[10, 11]];
    for (step, data) in pushes.iter().enumerate() {
        let before = rb.available_samples();
        rb.push_slice(data);
        accepted += rb.available_samples() - before;
        let mut out = vec![0u16; step + 1];
        if rb.read_chunk(&mut out) {
            read += out.len();
        }
        assert_eq!(rb.available_samples(), accepted - read);
        assert!(rb.available_samples() <= 6);
    }
    assert_eq!(accepted, 10);
    assert_eq!(read, 10);
    rb.clear();
    assert_eq!(rb.available_samples(), 0);
}
