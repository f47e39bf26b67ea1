use recorder_core::preview::PreviewBuffer;

// A frame of length 50 replaces the content with exactly that frame.
#[test]
fn preview_push_small_frame() {
    let mut buf = PreviewBuffer::new();
    let frame: Vec<i64> = (0..50).map(|i| i as i64 * 1000).collect();
    buf.push(&frame);
    assert_eq!(buf.read(), frame);
}

// A frame of length 400 leaves the last 300 of its samples.
#[test]
fn preview_push_long_frame_keeps_tail() {
    let mut buf = PreviewBuffer::new();
    let frame: Vec<i64> = (0..400).map(|i| i as i64).collect();
    buf.push(&frame);
    let expected: Vec<i64> = (100..400).map(|i| i as i64).collect();
    assert_eq!(buf.read(), expected);
}

// The buffer is a snapshot of the latest frame, not a rolling history.
#[test]
fn preview_push_replaces_previous_content() {
    let mut buf = PreviewBuffer::new();
    buf.push(&vec![1, 2, 3, 4, 5]);
    buf.push(&vec![9, 8]);
    assert_eq!(buf.read(), vec![9, 8]);
}

#[test]
fn preview_push_empty_frame_clears() {
    let mut buf = PreviewBuffer::new();
    buf.push(&vec![1, 2, 3]);
    buf.push(&Vec::new());
    assert_eq!(buf.read(), Vec::<i64>::new());
}

#[test]
fn preview_exact_capacity_frame() {
    let mut buf = PreviewBuffer::new();
    let frame: Vec<i64> = (0..300).map(|i| i as i64 - 150).collect();
    buf.push(&frame);
    assert_eq!(buf.read(), frame);
}
