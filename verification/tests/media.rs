use servo_media_mpv::media::{
    MediaStreamType, MpvAudioDecoder, MpvAudioSink, MpvMediaDeviceMonitor, MpvMediaOutput,
    MpvMediaStream, MpvSocket, MpvStreamReader, MpvWebRtcController,
};
use servo_media_streams::registry::MediaStreamId;

#[test]
fn the_sink_takes_everything() {
    let sink = MpvAudioSink;
    assert_eq!(sink.init(), Ok(()));
    assert_eq!(sink.init_stream(2), Ok(()));
    assert_eq!(sink.play(), Ok(()));
    assert!(sink.has_enough_data());
    assert_eq!(sink.push_data(), Ok(()));
    assert_eq!(sink.stop(), Ok(()));
}

#[test]
fn a_media_stream_keeps_the_name_it_was_made_with() {
    let id = MediaStreamId::new();
    let mut stream = MpvMediaStream::new(id);
    stream.set_id(MediaStreamId::new());
    assert!(*stream.id() == id);
    assert_eq!(stream.ty(), MediaStreamType::Audio);
}

#[test]
fn an_output_ignores_streams() {
    let mut output = MpvMediaOutput;
    output.add_stream(&MediaStreamId::new());
    assert_eq!(output, MpvMediaOutput);
}

#[test]
fn the_controller_accepts_everything() {
    let mut controller = MpvWebRtcController;
    assert!(controller.configure("stun.example.org").is_ok());
    assert!(controller.set_remote_description().is_ok());
    assert!(controller.set_local_description().is_ok());
    assert!(controller.add_ice_candidate().is_ok());
    assert!(controller.create_offer().is_ok());
    assert!(controller.create_answer().is_ok());
    assert!(controller.add_stream(&MediaStreamId::new()).is_ok());
    assert!(matches!(controller.create_data_channel(), Ok(0)));
    assert!(matches!(controller.create_data_channel(), Ok(0)));
    assert!(controller.send_data_channel_message(&0).is_ok());
    assert!(controller.close_data_channel(&0).is_ok());
    assert!(controller.internal_event().is_ok());
    controller.quit();
    assert_eq!(controller, MpvWebRtcController);
}

#[test]
fn no_capture_devices_are_known() {
    let devices: Option<Vec<String>> = MpvMediaDeviceMonitor.enumerate_devices();
    assert_eq!(devices, Some(vec![]));
}

#[test]
fn stateless_parts_are_all_alike() {
    assert_eq!(MpvAudioDecoder, MpvAudioDecoder);
    assert_eq!(MpvStreamReader, MpvStreamReader);
    assert_eq!(MpvSocket, MpvSocket);
}
