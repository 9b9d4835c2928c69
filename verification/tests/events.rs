use servo_media_mpv::events::{
    event_loop_step, handle_event, EndReason, LoopStep, Metadata, MpvEvent, PlaybackState,
    PlayerEvent, PropertyData, VideoFacts, Waited, ERROR_PAUSE_MILLIS,
};
use std::time::Duration;

fn facts(width: i64, height: i64, seekable: bool) -> VideoFacts {
    VideoFacts { width: Some(width), height: Some(height), seekable: Some(seekable) }
}

fn check_metadata(m: &Metadata, duration: Option<Duration>, size: (u32, u32), seekable: bool) {
    assert_eq!(m.duration, duration);
    assert_eq!((m.width, m.height), size);
    assert_eq!(m.is_seekable, seekable);
    assert_eq!(m.format, "");
    assert!(m.audio_tracks.is_empty());
    assert!(m.video_tracks.is_empty());
    assert!(!m.is_live);
    assert_eq!(m.title, None);
}

#[test]
fn the_end_of_a_file_is_told_by_its_reason() {
    let events = handle_event::<f64>(MpvEvent::EndFile(EndReason::Eof));
    assert_eq!(events.len(), 1);
    assert!(matches!(events[0], PlayerEvent::EndOfStream));
    let events = handle_event::<f64>(MpvEvent::EndFile(EndReason::Error));
    assert_eq!(events.len(), 1);
    match &events[0] {
        PlayerEvent::Error(text) => assert_eq!(text, "Playback error"),
        other => panic!("unexpected {:?}", other),
    }
    assert!(handle_event::<f64>(MpvEvent::EndFile(EndReason::Other)).is_empty());
}

#[test]
fn a_loaded_file_is_told_metadata_first() {
    let duration = Some(Duration::new(12, 500));
    let events = handle_event::<f64>(MpvEvent::FileLoaded { duration, facts: facts(640, 480, true) });
    assert_eq!(events.len(), 4);
    match &events[0] {
        PlayerEvent::MetadataUpdated(m) => check_metadata(m, duration, (640, 480), true),
        other => panic!("unexpected {:?}", other),
    }
    match &events[1] {
        PlayerEvent::DurationChanged(d) => assert_eq!(*d, duration),
        other => panic!("unexpected {:?}", other),
    }
    assert!(matches!(events[2], PlayerEvent::StateChanged(PlaybackState::Paused)));
    assert!(matches!(events[3], PlayerEvent::VideoFrameUpdated));
}

#[test]
fn what_mpv_cannot_tell_has_defaults() {
    let unknown = VideoFacts { width: None, height: None, seekable: None };
    let events = handle_event::<f64>(MpvEvent::FileLoaded { duration: None, facts: unknown });
    match &events[0] {
        PlayerEvent::MetadataUpdated(m) => check_metadata(m, None, (0, 0), false),
        other => panic!("unexpected {:?}", other),
    }
    assert!(matches!(events[1], PlayerEvent::DurationChanged(None)));
}

#[test]
fn dimensions_are_cut_to_32_bits() {
    for (reported, told) in [
        (0x1_0000_0005i64, 5u32),
        (-1, u32::MAX),
        (0xffff_ffff, u32::MAX),
        (i64::MIN, 0),
        (i64::MAX, u32::MAX),
    ] {
        let events = handle_event::<f64>(MpvEvent::VideoReconfig(facts(reported, 1, false)));
        match &events[0] {
            PlayerEvent::MetadataUpdated(m) => check_metadata(m, None, (told, 1), false),
            other => panic!("unexpected {:?}", other),
        }
    }
}

#[test]
fn a_new_video_configuration_is_told_without_duration() {
    let events = handle_event::<f64>(MpvEvent::VideoReconfig(facts(1, 2, true)));
    assert_eq!(events.len(), 2);
    match &events[0] {
        PlayerEvent::MetadataUpdated(m) => check_metadata(m, None, (1, 2), true),
        other => panic!("unexpected {:?}", other),
    }
    assert!(matches!(events[1], PlayerEvent::VideoFrameUpdated));
}

fn change(name: &str, change: PropertyData<f64>) -> Vec<PlayerEvent<f64>> {
    handle_event(MpvEvent::PropertyChange { name: name.to_string(), change })
}

#[test]
fn changes_of_position_and_pause_are_told() {
    match &change("time-pos", PropertyData::Double(1.5))[..] {
        [PlayerEvent::PositionChanged(p)] => assert_eq!(*p, 1.5),
        other => panic!("unexpected {:?}", other),
    }
    assert!(matches!(
        change("pause", PropertyData::Flag(true))[..],
        [PlayerEvent::StateChanged(PlaybackState::Paused)]
    ));
    assert!(matches!(
        change("pause", PropertyData::Flag(false))[..],
        [PlayerEvent::StateChanged(PlaybackState::Playing)]
    ));
}

#[test]
fn other_changes_are_not_told() {
    assert!(change("time-pos", PropertyData::Flag(true)).is_empty());
    assert!(change("time-pos", PropertyData::Other).is_empty());
    assert!(change("pause", PropertyData::Double(0.0)).is_empty());
    assert!(change("volume", PropertyData::Double(0.0)).is_empty());
    assert!(change("mute", PropertyData::Flag(true)).is_empty());
    assert!(change("", PropertyData::Other).is_empty());
}

#[test]
fn a_seek_is_told_with_its_position() {
    match &handle_event(MpvEvent::Seek { position: Some(2.25) })[..] {
        [PlayerEvent::SeekDone(p)] => assert_eq!(*p, 2.25),
        other => panic!("unexpected {:?}", other),
    }
    assert!(handle_event::<f64>(MpvEvent::Seek { position: None }).is_empty());
}

#[test]
fn starts_and_other_events_are_not_told() {
    assert!(handle_event::<f64>(MpvEvent::StartFile).is_empty());
    assert!(handle_event::<f64>(MpvEvent::Other).is_empty());
}

#[test]
fn the_event_loop_pauses_after_errors() {
    assert_eq!(ERROR_PAUSE_MILLIS, 50);
    assert!(matches!(event_loop_step::<f64>(Waited::RawError(-13)), LoopStep::Pause(50)));
    assert!(matches!(event_loop_step::<f64>(Waited::RawError(1)), LoopStep::Pause(50)));
    assert!(matches!(event_loop_step::<f64>(Waited::RawError(0)), LoopStep::Continue));
    assert!(matches!(event_loop_step::<f64>(Waited::OtherError), LoopStep::Continue));
    assert!(matches!(event_loop_step::<f64>(Waited::Nothing), LoopStep::Continue));
    match event_loop_step::<f64>(Waited::Event(MpvEvent::EndFile(EndReason::Eof))) {
        LoopStep::Notify(events) => assert!(matches!(events[..], [PlayerEvent::EndOfStream])),
        other => panic!("unexpected {:?}", other),
    }
}
