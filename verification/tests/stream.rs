use servo_media_mpv::stream::{
    ReadOutcome, SeekAction, SeekEvent, ServoStream, BUFFER_HIGH_WATER, BUFFER_LOW_WATER,
    BUFFER_TRIM_MARGIN,
};

/// Reads up to `room` bytes and hands them back as bytes.
fn read_bytes(stream: &mut ServoStream, room: usize) -> Vec<u8> {
    let mut buf = vec![0i8; room];
    match stream.read(&mut buf) {
        ReadOutcome::Done(n) if n >= 0 => buf[..n as usize].iter().map(|&c| c as u8).collect(),
        other => panic!("nothing to read: {:?}", other),
    }
}

/// Reads and drops `count` bytes.
fn skip_bytes(stream: &mut ServoStream, count: usize) {
    let mut buf = vec![0i8; count];
    assert_eq!(stream.read(&mut buf), ReadOutcome::Done(count as i64));
}

#[test]
fn fresh_stream_makes_a_reader_wait() {
    let mut stream = ServoStream::new(true);
    let mut buf = [0i8; 4];
    assert_eq!(stream.read(&mut buf), ReadOutcome::Wait);
    assert_eq!(buf, [0, 0, 0, 0]);
    assert_eq!(stream.size(), -1);
    assert!(!stream.is_buffer_full());
    assert!(stream.is_buffer_low());
}

#[test]
fn pushed_bytes_are_read_in_order() {
    let mut stream = ServoStream::new(true);
    assert!(stream.push_data(&[1, 2, 3]));
    assert!(stream.push_data(&[4, 5]));
    assert_eq!(read_bytes(&mut stream, 2), vec![1, 2]);
    assert!(stream.push_data(&[6]));
    assert_eq!(read_bytes(&mut stream, 10), vec![3, 4, 5, 6]);
    let mut buf = [0i8; 4];
    assert_eq!(stream.read(&mut buf), ReadOutcome::Wait);
}

#[test]
fn a_read_leaves_the_rest_of_the_buffer_alone() {
    let mut stream = ServoStream::new(true);
    stream.push_data(&[7, 8]);
    let mut buf = [9i8; 4];
    assert_eq!(stream.read(&mut buf), ReadOutcome::Done(2));
    assert_eq!(buf, [7, 8, 9, 9]);
}

#[test]
fn high_bytes_become_negative_chars() {
    let mut stream = ServoStream::new(true);
    stream.push_data(&[0, 127, 128, 255]);
    let mut buf = [1i8; 4];
    assert_eq!(stream.read(&mut buf), ReadOutcome::Done(4));
    assert_eq!(buf, [0, 127, -128, -1]);
}

#[test]
fn a_read_without_room_delivers_nothing() {
    let mut stream = ServoStream::new(true);
    stream.push_data(&[1]);
    let mut none: [i8; 0] = [];
    assert_eq!(stream.read(&mut none), ReadOutcome::Done(0));
    assert_eq!(read_bytes(&mut stream, 1), vec![1]);
}

#[test]
fn the_end_shows_after_all_data() {
    let mut stream = ServoStream::new(true);
    stream.push_data(&[1]);
    stream.set_eof();
    assert_eq!(read_bytes(&mut stream, 4), vec![1]);
    let mut buf = [0i8; 4];
    assert_eq!(stream.read(&mut buf), ReadOutcome::Done(0));
}

#[test]
fn a_cancellation_shows_after_all_data_and_before_the_end() {
    let mut stream = ServoStream::new(true);
    stream.push_data(&[1]);
    stream.set_eof();
    stream.cancel();
    assert_eq!(read_bytes(&mut stream, 4), vec![1]);
    let mut buf = [0i8; 4];
    assert_eq!(stream.read(&mut buf), ReadOutcome::Done(-1));
}

#[test]
fn a_cancelled_stream_never_makes_a_reader_wait_again() {
    let mut stream = ServoStream::new(true);
    stream.cancel();
    stream.set_size(3);
    assert_eq!(stream.seek(9), SeekAction::OpenChannel(9));
    assert_eq!(stream.seek_step(9, SeekEvent::ChannelOpened), SeekAction::NotifyClient(9));
    assert_eq!(stream.seek_step(9, SeekEvent::ClientReady), SeekAction::Acknowledge(9));
    let mut buf = [0i8; 1];
    assert_eq!(stream.read(&mut buf), ReadOutcome::Done(-1));
}

#[test]
fn size_is_the_total_then_what_arrived_then_unknown() {
    let mut stream = ServoStream::new(true);
    stream.push_data(&[1, 2, 3]);
    assert_eq!(stream.size(), -1);
    stream.set_eof();
    assert_eq!(stream.size(), 3);
    stream.set_size(1000);
    assert_eq!(stream.size(), 1000);
    stream.push_data(&[4]);
    assert_eq!(stream.size(), 1000);
    stream.set_size(u64::MAX);
    assert_eq!(stream.size(), -1);
    stream.set_size(1 << 63);
    assert_eq!(stream.size(), i64::MIN);
}

#[test]
fn the_high_water_mark_is_full_and_the_low_one_is_not_low() {
    let mut stream = ServoStream::new(true);
    stream.push_data(&vec![0; BUFFER_LOW_WATER - 1]);
    assert!(stream.is_buffer_low());
    stream.push_data(&[0]);
    assert!(!stream.is_buffer_low());
    assert!(!stream.is_buffer_full());
    stream.push_data(&vec![0; BUFFER_HIGH_WATER - BUFFER_LOW_WATER - 1]);
    assert!(!stream.is_buffer_full());
    stream.push_data(&[0]);
    assert!(stream.is_buffer_full());
    assert!(!stream.is_buffer_low());
    skip_bytes(&mut stream, 1);
    assert!(!stream.is_buffer_full());
    assert_eq!(BUFFER_HIGH_WATER, 10_485_760);
    assert_eq!(BUFFER_LOW_WATER, 1_048_576);
    assert_eq!(BUFFER_TRIM_MARGIN, 20_971_520);
}

#[test]
fn history_within_the_margin_can_be_replayed() {
    let margin = BUFFER_TRIM_MARGIN as usize;
    let mut stream = ServoStream::new(true);
    let data: Vec<u8> = (0..margin + 10).map(|i| (i % 251) as u8).collect();
    stream.push_data(&data);
    skip_bytes(&mut stream, margin + 10);
    stream.push_data(&[42]);
    assert_eq!(stream.seek(10), SeekAction::Return(10));
    assert_eq!(read_bytes(&mut stream, 3), vec![10, 11, 12]);
}

#[test]
fn trimmed_history_is_fetched_through_the_client() {
    let margin = BUFFER_TRIM_MARGIN as usize;
    let mut stream = ServoStream::new(true);
    stream.push_data(&vec![5; margin + 10]);
    skip_bytes(&mut stream, margin + 10);
    assert_eq!(stream.seek(9), SeekAction::Return(9));
    assert_eq!(stream.seek((margin + 10) as i64), SeekAction::Return((margin + 10) as i64));
    stream.push_data(&[6]);
    assert_eq!(stream.seek(9), SeekAction::OpenChannel(9));
    assert_eq!(read_bytes(&mut stream, 1), vec![6]);
}

#[test]
fn a_push_keeps_what_is_unread_however_much() {
    let margin = BUFFER_TRIM_MARGIN as usize;
    let mut stream = ServoStream::new(true);
    stream.push_data(&vec![1; margin + 5]);
    stream.push_data(&[2, 3]);
    skip_bytes(&mut stream, margin + 5);
    assert_eq!(read_bytes(&mut stream, 5), vec![2, 3]);
}

#[test]
fn a_negative_seek_reports_the_position() {
    let mut stream = ServoStream::new(true);
    stream.push_data(&[1, 2, 3]);
    skip_bytes(&mut stream, 2);
    assert_eq!(stream.seek(-1), SeekAction::Return(2));
    assert_eq!(read_bytes(&mut stream, 4), vec![3]);
}

#[test]
fn a_seek_within_the_window_is_served_at_once() {
    let mut stream = ServoStream::new(true);
    stream.push_data(&[1, 2, 3]);
    assert_eq!(stream.seek(3), SeekAction::Return(3));
    let mut buf = [0i8; 1];
    assert_eq!(stream.read(&mut buf), ReadOutcome::Wait);
    assert_eq!(stream.seek(1), SeekAction::Return(1));
    assert_eq!(read_bytes(&mut stream, 4), vec![2, 3]);
}

#[test]
fn without_a_client_a_seek_is_clamped() {
    let mut stream = ServoStream::new(false);
    assert_eq!(stream.seek(100), SeekAction::Return(0));
    stream.push_data(&[1, 2]);
    assert_eq!(stream.seek(100), SeekAction::Return(2));
    let margin = BUFFER_TRIM_MARGIN as usize;
    stream.push_data(&vec![3; margin + 8]);
    skip_bytes(&mut stream, margin + 8);
    stream.push_data(&[4]);
    assert_eq!(stream.seek(3), SeekAction::Return(10));
}

#[test]
fn a_negotiated_seek_moves_the_window() {
    let mut stream = ServoStream::new(true);
    stream.push_data(&[1, 2, 3]);
    assert_eq!(stream.seek(100), SeekAction::OpenChannel(100));
    assert_eq!(stream.seek_step(100, SeekEvent::ChannelOpened), SeekAction::NotifyClient(100));
    assert!(!stream.push_data(&[4, 5]));
    assert_eq!(stream.seek_step(100, SeekEvent::ClientNotified), SeekAction::AwaitClient(100));
    assert!(!stream.push_data(&[6]));
    assert_eq!(stream.seek_step(100, SeekEvent::ClientReady), SeekAction::Acknowledge(100));
    let mut buf = [0i8; 1];
    assert_eq!(stream.read(&mut buf), ReadOutcome::Wait);
    assert!(stream.push_data(&[7, 8]));
    assert_eq!(read_bytes(&mut stream, 4), vec![7, 8]);
    stream.set_eof();
    assert_eq!(stream.size(), 102);
    assert_eq!(stream.seek(0), SeekAction::OpenChannel(0));
}

#[test]
fn a_failed_seek_changes_nothing() {
    let failures = [
        vec![SeekEvent::ChannelFailed],
        vec![SeekEvent::ChannelOpened, SeekEvent::NotifyFailed],
        vec![SeekEvent::ChannelOpened, SeekEvent::ClientNotified, SeekEvent::ClientGone],
    ];
    for events in failures {
        let mut stream = ServoStream::new(true);
        stream.push_data(&[1, 2, 3]);
        skip_bytes(&mut stream, 1);
        let mut action = stream.seek(50);
        assert_eq!(action, SeekAction::OpenChannel(50));
        for event in events {
            action = stream.seek_step(50, event);
        }
        assert_eq!(action, SeekAction::Return(1));
        assert!(stream.push_data(&[4]));
        assert_eq!(read_bytes(&mut stream, 4), vec![2, 3, 4]);
    }
}

#[test]
fn room_is_counted_in_offsets() {
    let mut stream = ServoStream::new(true);
    assert!(stream.has_room(usize::MAX));
    stream.seek_step(u64::MAX - 2, SeekEvent::ClientReady);
    assert!(stream.has_room(2));
    assert!(!stream.has_room(3));
    stream.push_data(&[1, 2]);
    assert!(!stream.has_room(1));
    stream.seek_step(0, SeekEvent::ChannelOpened);
    assert!(stream.has_room(1));
    assert_eq!(read_bytes(&mut stream, 4), vec![1, 2]);
}

#[test]
fn positions_beyond_the_signed_range_wrap() {
    let mut stream = ServoStream::new(true);
    assert_eq!(
        stream.seek_step(1 << 63, SeekEvent::ClientReady),
        SeekAction::Acknowledge(i64::MIN)
    );
    assert_eq!(stream.seek(-5), SeekAction::Return(i64::MIN));
}

#[test]
fn memory_stays_within_margin_mark_and_one_push() {
    let mut stream = ServoStream::new(true);
    let chunk = vec![1u8; 1 << 20];
    let mut pushed: i64 = 0;
    for _ in 0..60 {
        while !stream.is_buffer_full() {
            stream.push_data(&chunk);
            pushed += chunk.len() as i64;
        }
        skip_bytes(&mut stream, chunk.len());
    }
    let position = match stream.seek(-1) {
        SeekAction::Return(p) => p,
        other => panic!("unexpected {:?}", other),
    };
    stream.push_data(&[1]);
    let margin = BUFFER_TRIM_MARGIN as i64;
    assert_eq!(stream.seek(position - margin), SeekAction::Return(position - margin));
    assert_eq!(
        stream.seek(position - margin - 1),
        SeekAction::OpenChannel((position - margin - 1) as u64)
    );
    assert!(pushed - position <= BUFFER_HIGH_WATER as i64);
}

#[test]
fn the_fallback_stream_stays_empty() {
    let mut stream = ServoStream::new(false);
    stream.set_size(9);
    for offset in [0, 1, 5, i64::MAX, -1] {
        assert_eq!(stream.seek(offset), SeekAction::Return(0));
    }
    let mut buf = [0i8; 2];
    assert_eq!(stream.read(&mut buf), ReadOutcome::Wait);
    stream.set_eof();
    assert_eq!(stream.read(&mut buf), ReadOutcome::Done(0));
    assert_eq!(stream.seek(7), SeekAction::Return(0));
}

#[test]
fn a_waiting_reader_goes_on_after_each_wakeup() {
    let mut buf = [0i8; 2];
    let mut pushed = ServoStream::new(true);
    assert_eq!(pushed.read(&mut buf), ReadOutcome::Wait);
    assert!(pushed.push_data(&[3]));
    assert_eq!(pushed.read(&mut buf), ReadOutcome::Done(1));
    let mut ended = ServoStream::new(true);
    assert!(ended.set_eof());
    assert_eq!(ended.read(&mut buf), ReadOutcome::Done(0));
    let mut cancelled = ServoStream::new(true);
    assert!(cancelled.cancel());
    assert_eq!(cancelled.read(&mut buf), ReadOutcome::Done(-1));
    let mut seeking = ServoStream::new(true);
    seeking.seek_step(4, SeekEvent::ChannelOpened);
    assert!(!seeking.push_data(&[1]));
    assert_eq!(seeking.read(&mut buf), ReadOutcome::Wait);
}

#[test]
fn a_negotiation_takes_three_steps_about_one_offset() {
    let mut stream = ServoStream::new(true);
    let mut action = stream.seek(70);
    let mut steps = 0;
    loop {
        let (target, event) = match action {
            SeekAction::OpenChannel(t) => (t, SeekEvent::ChannelOpened),
            SeekAction::NotifyClient(t) => (t, SeekEvent::ClientNotified),
            SeekAction::AwaitClient(t) => (t, SeekEvent::ClientReady),
            SeekAction::Return(p) | SeekAction::Acknowledge(p) => {
                assert_eq!(p, 70);
                break;
            },
        };
        assert_eq!(target, 70);
        action = stream.seek_step(target, event);
        steps += 1;
    }
    assert_eq!(steps, 3);
}

#[test]
fn a_read_can_be_repeated_after_many_pushes_and_reads() {
    let margin = BUFFER_TRIM_MARGIN as usize;
    let mut stream = ServoStream::new(true);
    stream.push_data(&[9; 100]);
    skip_bytes(&mut stream, 100);
    stream.push_data(&[1, 2, 3]);
    assert_eq!(read_bytes(&mut stream, 3), vec![1, 2, 3]);
    let chunk = vec![4u8; 1 << 20];
    let mut read = 3;
    while read + chunk.len() <= margin {
        stream.push_data(&chunk);
        skip_bytes(&mut stream, chunk.len());
        read += chunk.len();
    }
    stream.push_data(&chunk);
    skip_bytes(&mut stream, margin - read);
    stream.push_data(&[5]);
    assert_eq!(stream.seek(100), SeekAction::Return(100));
    assert_eq!(read_bytes(&mut stream, 3), vec![1, 2, 3]);
    assert_eq!(stream.seek(99), SeekAction::OpenChannel(99));
}
