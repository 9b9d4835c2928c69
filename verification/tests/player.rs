use servo_media_mpv::player::{
    initial_settings, observed_properties, teardown_steps, MediaInstanceError, MpvCall, MpvPlayer,
    PlayerError, PlayerRequest, PlayerStep, PropertyFormat, Setting, StreamType, TeardownStep,
};
use servo_media_mpv::registry::{OpenOutcome, StreamRegistry};
use servo_media_mpv::stream::{ReadOutcome, SeekAction, ServoStream, BUFFER_HIGH_WATER};
use servo_media_streams::registry::MediaStreamId;
use servo_media_traits::ClientContextId;
use std::sync::{Arc, Mutex};

type Registry = StreamRegistry<&'static str, Mutex<ServoStream>>;

/// A player whose stream has the number 17.
fn player(stream_type: StreamType) -> MpvPlayer {
    let mut registry: Registry = StreamRegistry::new();
    for _ in 1..17 {
        registry.register("another client", Mutex::new);
    }
    let context = ClientContextId::build(1, 2);
    MpvPlayer::new(3, &context, stream_type, &mut registry, "client", Mutex::new).0
}

fn loaded_player() -> MpvPlayer {
    let mut p = player(StreamType::Seekable);
    assert!(matches!(p.load_replied::<f64>(&PlayerRequest::PushData, Ok(())), PlayerStep::Push));
    p
}

fn assert_loads(step: PlayerStep<f64>) {
    match step {
        PlayerStep::Load(MpvCall::Command1 { name, argument }) => {
            assert_eq!(name, "loadfile");
            assert_eq!(argument, "servo://17");
        },
        other => panic!("unexpected {:?}", other),
    }
}

fn assert_flag(step: PlayerStep<f64>, wanted: &str, on: bool) {
    match step {
        PlayerStep::Call(MpvCall::SetFlag { name, on: set }) => {
            assert_eq!((name, set), (wanted, on));
        },
        other => panic!("unexpected {:?}", other),
    }
}

fn assert_number(step: PlayerStep<f64>, wanted: &str, number: f64) {
    match step {
        PlayerStep::Call(MpvCall::SetNumber { name, number: set }) => {
            assert_eq!((name, set), (wanted, number));
        },
        other => panic!("unexpected {:?}", other),
    }
}

#[test]
fn a_player_knows_who_it_is() {
    let p = player(StreamType::Stream);
    assert_eq!(p.get_id(), 3);
    assert!(p.context_id() == ClientContextId::build(1, 2));
    assert_eq!(p.stream_id(), 17);
}

#[test]
fn playing_seeking_and_pushing_load_the_stream_first() {
    let p = player(StreamType::Seekable);
    assert_loads(p.request(&PlayerRequest::Play));
    assert_loads(p.request(&PlayerRequest::Seek(1.0)));
    assert_loads(p.request(&PlayerRequest::PushData));
    assert_flag(p.request(&PlayerRequest::Pause), "pause", true);
    assert_flag(p.request(&PlayerRequest::SetMute(true)), "mute", true);
    assert_number(p.request(&PlayerRequest::SetVolume(50.0)), "volume", 50.0);
    assert_number(p.request(&PlayerRequest::SetPlaybackRate(2.0)), "speed", 2.0);
    match p.request::<f64>(&PlayerRequest::Stop) {
        PlayerStep::Call(MpvCall::Command0 { name }) => assert_eq!(name, "stop"),
        other => panic!("unexpected {:?}", other),
    }
}

#[test]
fn the_stream_is_loaded_once() {
    let mut p = player(StreamType::Seekable);
    assert_loads(p.request(&PlayerRequest::Play));
    assert_flag(p.load_replied(&PlayerRequest::Play, Ok(())), "pause", false);
    assert_flag(p.request(&PlayerRequest::Play), "pause", false);
    assert_number(p.request(&PlayerRequest::Seek(4.5)), "time-pos", 4.5);
    assert!(matches!(p.request::<f64>(&PlayerRequest::PushData), PlayerStep::Push));
}

#[test]
fn a_refused_load_fails_the_request_and_is_tried_again() {
    let mut p = player(StreamType::Seekable);
    match p.load_replied::<f64>(&PlayerRequest::Play, Err("Raw(-13)".to_string())) {
        PlayerStep::Fail(e) => {
            assert_eq!(e, PlayerError::Backend("mpv loadfile failed: Raw(-13)".to_string()))
        },
        other => panic!("unexpected {:?}", other),
    }
    assert_loads(p.request(&PlayerRequest::Seek(0.0)));
    assert_number(p.load_replied(&PlayerRequest::Seek(2.0), Ok(())), "time-pos", 2.0);
    assert_flag(p.request(&PlayerRequest::Play), "pause", false);
}

#[test]
fn refused_calls_say_what_failed_and_why() {
    let cases: Vec<(PlayerRequest<f64>, &str)> = vec![
        (PlayerRequest::Play, "mpv play failed: why"),
        (PlayerRequest::Pause, "mpv pause failed: why"),
        (PlayerRequest::Stop, "mpv stop failed: why"),
        (PlayerRequest::Seek(0.0), "mpv seek failed: why"),
        (PlayerRequest::SetMute(false), "mpv set_mute failed: why"),
        (PlayerRequest::SetVolume(0.0), "mpv set_volume failed: why"),
        (PlayerRequest::SetPlaybackRate(0.0), "mpv set_playback_rate failed: why"),
    ];
    for (request, text) in cases {
        assert_eq!(request.finished(Ok(())), Ok(()));
        assert_eq!(
            request.finished(Err("why".to_string())),
            Err(PlayerError::Backend(text.to_string()))
        );
    }
}

#[test]
fn pushing_reports_a_full_stream() {
    let p = loaded_player();
    let mut stream = ServoStream::new(true);
    assert_eq!(p.push_data(&mut stream, &[1, 2, 3]), (true, Ok(())));
    let big = vec![0u8; BUFFER_HIGH_WATER - 3];
    assert_eq!(p.push_data(&mut stream, &big), (true, Err(PlayerError::EnoughData)));
    let mut buf = [0i8; 3];
    assert_eq!(stream.read(&mut buf), ReadOutcome::Done(3));
    assert_eq!(buf, [1, 2, 3]);
    assert_eq!(p.push_data(&mut stream, &[4]), (true, Ok(())));
    stream.seek(-1);
    stream.seek_step(9, servo_media_mpv::stream::SeekEvent::ChannelOpened);
    assert_eq!(p.push_data(&mut stream, &big), (false, Ok(())));
}

#[test]
fn the_size_and_the_end_go_to_the_stream() {
    let p = loaded_player();
    let mut stream = ServoStream::new(true);
    assert_eq!(p.set_input_size(&mut stream, 1234), Ok(()));
    assert_eq!(stream.size(), 1234);
    assert_eq!(p.end_of_stream(&mut stream), (true, Ok(())));
    let mut buf = [0i8; 1];
    assert_eq!(stream.read(&mut buf), ReadOutcome::Done(0));
}

#[test]
fn what_mpv_cannot_tell_is_paused_and_unmuted() {
    let p = loaded_player();
    assert!(p.paused(None));
    assert!(p.paused(Some(true)));
    assert!(!p.paused(Some(false)));
    assert!(!p.muted(None));
    assert!(p.muted(Some(true)));
    assert!(!p.muted(Some(false)));
}

#[test]
fn only_a_player_that_is_not_paused_resumes() {
    let p = loaded_player();
    assert!(p.can_resume(Some(false)));
    assert!(!p.can_resume(Some(true)));
    assert!(!p.can_resume(None));
    assert!(matches!(p.resume::<f64>(Some(false)), Some(PlayerRequest::Play)));
    assert!(p.resume::<f64>(Some(true)).is_none());
    assert!(p.resume::<f64>(None).is_none());
}

#[test]
fn instances_pause_mute_and_hide_reasons() {
    let p = loaded_player();
    assert!(matches!(p.suspend::<f64>(), PlayerRequest::Pause));
    assert!(matches!(p.mute::<f64>(true), PlayerRequest::SetMute(true)));
    assert!(matches!(p.mute::<f64>(false), PlayerRequest::SetMute(false)));
    assert_eq!(p.as_instance(Ok(())), Ok(()));
    assert_eq!(p.as_instance(Err(PlayerError::EnoughData)), Err(MediaInstanceError));
}

#[test]
fn live_streams_are_not_seekable() {
    assert_eq!(player(StreamType::Seekable).seekable(Some(0.0..9.5)), vec![0.0..9.5]);
    assert!(player(StreamType::Seekable).seekable::<f64>(None).is_empty());
    assert!(player(StreamType::Stream).seekable(Some(0.0..9.5)).is_empty());
    assert!(player(StreamType::Seekable).buffered::<f64>().is_empty());
}

#[test]
fn tracks_are_left_to_mpv_and_streams_are_refused() {
    let p = loaded_player();
    assert_eq!(p.set_seekable(true), Ok(()));
    assert_eq!(p.set_audio_track(1, true), Ok(()));
    assert_eq!(p.set_video_track(-1, false), Ok(()));
    assert_eq!(p.set_stream(&MediaStreamId::new(), true), Err(PlayerError::SetStreamFailed));
}

#[test]
fn a_player_starts_paused_at_full_volume() {
    assert_eq!(
        initial_settings(),
        vec![
            Setting::Text { name: "vo", text: "libmpv" },
            Setting::Flag { name: "keep-open", on: false },
            Setting::Flag { name: "mute", on: false },
            Setting::Number { name: "volume", number: 100 },
            Setting::Flag { name: "pause", on: true },
        ]
    );
    assert_eq!(
        observed_properties(),
        vec![("time-pos", PropertyFormat::Double), ("pause", PropertyFormat::Flag)]
    );
}

#[test]
fn the_render_thread_goes_first() {
    let rest = vec![
        TeardownStep::CancelStream,
        TeardownStep::StopPlayback,
        TeardownStep::RemoveStream,
        TeardownStep::AnnounceShutdown,
        TeardownStep::AwaitAcknowledgement,
    ];
    let mut all = vec![TeardownStep::StopRenderThread, TeardownStep::JoinRenderThread];
    all.extend(rest.clone());
    assert_eq!(teardown_steps(true, true), all);
    let mut unstarted = vec![TeardownStep::StopRenderThread];
    unstarted.extend(rest.clone());
    assert_eq!(teardown_steps(true, false), unstarted);
    assert_eq!(teardown_steps(false, false), rest);
    assert_eq!(teardown_steps(false, true), rest);
}

#[test]
fn players_load_their_own_streams() {
    let mut registry: Registry = StreamRegistry::new();
    let context = ClientContextId::build(1, 1);
    let mut made = vec![];
    for (id, client) in ["one", "gone", "other"].iter().enumerate() {
        made.push(MpvPlayer::new(
            id,
            &context,
            StreamType::Seekable,
            &mut registry,
            *client,
            Mutex::new,
        ));
    }
    let (gone, _) = made.remove(1);
    registry.remove(gone.stream_id());
    assert_ne!(made[0].0.stream_id(), made[1].0.stream_id());
    for ((p, stream), client) in made.iter().zip(["one", "other"]) {
        assert_eq!(stream.observer, Some(client));
        assert_eq!(stream.inner.lock().unwrap().seek(5), SeekAction::OpenChannel(5));
        match p.request::<f64>(&PlayerRequest::Play) {
            PlayerStep::Load(MpvCall::Command1 { argument, .. }) => {
                match registry.open(&argument) {
                    OpenOutcome::Found(opened) => assert!(Arc::ptr_eq(&opened, stream)),
                    _ => panic!("not found"),
                }
            },
            step => panic!("unexpected {:?}", step),
        }
    }
}
