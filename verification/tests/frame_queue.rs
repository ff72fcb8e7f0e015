use nebula_tunes::media::frame_queue::{DecodedFrame, FrameQueue};

fn frame(timestamp: i64, frame_index: u64) -> DecodedFrame {
    DecodedFrame {
        rgba: vec![frame_index as u8; 4],
        width: 1,
        height: 1,
        timestamp,
        frame_index,
    }
}

#[test]
fn queue_keeps_the_newest_frames() {
    let mut queue = FrameQueue::new(2);
    assert!(queue.is_empty());
    assert!(queue.latest_frame().is_none());
    assert!(queue.get_frame_at_time(0).is_none());
    queue.push(frame(0, 0));
    queue.push(frame(40_000, 1));
    assert_eq!(queue.len(), 2);
    queue.push(frame(80_000, 2));
    assert_eq!(queue.len(), 2);
    assert_eq!(queue.latest_frame().unwrap().frame_index, 2);
    assert_eq!(queue.get_frame_at_time(0).unwrap().frame_index, 1);
    queue.clear();
    assert_eq!(queue.len(), 0);
    assert!(queue.is_empty());
}

#[test]
fn nearest_frame_is_picked_and_the_older_wins_a_tie() {
    let mut queue = FrameQueue::default();
    queue.push(frame(0, 0));
    queue.push(frame(40_000, 1));
    queue.push(frame(80_000, 2));
    assert_eq!(queue.get_frame_at_time(41_000).unwrap().frame_index, 1);
    assert_eq!(queue.get_frame_at_time(20_000).unwrap().frame_index, 0);
    assert_eq!(queue.get_frame_at_time(60_000).unwrap().frame_index, 1);
    assert_eq!(queue.get_frame_at_time(i64::MAX).unwrap().frame_index, 2);
    assert_eq!(queue.get_frame_at_time(i64::MIN).unwrap().frame_index, 0);
    assert_eq!(queue.get_frame_at_time(80_000).unwrap().rgba, vec![2; 4]);
}

#[test]
fn extreme_times_do_not_overflow() {
    let mut queue = FrameQueue::new(3);
    queue.push(frame(i64::MAX, 0));
    queue.push(frame(i64::MIN, 1));
    assert_eq!(queue.get_frame_at_time(-1).unwrap().frame_index, 1);
    assert_eq!(queue.get_frame_at_time(0).unwrap().frame_index, 0);
}

#[test]
fn queue_without_capacity_holds_one_frame() {
    let mut queue = FrameQueue::new(0);
    queue.push(frame(1, 1));
    queue.push(frame(2, 2));
    assert_eq!(queue.len(), 1);
    assert_eq!(queue.latest_frame().unwrap().frame_index, 2);
}
