//! What the backend offers beyond players: audio processing, capture and peer connections.
//! mpv has none of it, so these parts accept what they are given and produce nothing.

use servo_media_audio::sink::AudioSinkError;
use servo_media_streams::registry::MediaStreamId;
use servo_media_webrtc::WebRtcError;
use vstd::prelude::*;

verus! {

/// `servo_media_streams::registry::MediaStreamId`: the name of a media stream. Its contents
/// are not looked into.
#[verifier::external_type_specification]
#[verifier::external_body]
pub struct ExMediaStreamId(MediaStreamId);

/// `servo_media_audio::sink::AudioSinkError`: why an audio sink failed.
#[verifier::external_type_specification]
#[verifier::external_body]
pub struct ExAudioSinkError(AudioSinkError);

/// `servo_media_webrtc::WebRtcError`: why a peer connection failed.
#[verifier::external_type_specification]
#[verifier::external_body]
pub struct ExWebRtcError(WebRtcError);

/// What a media stream carries.
#[derive(Debug, Clone, Copy, PartialEq, Eq, Structural)]
pub enum MediaStreamType {
    Video,
    Audio,
}

/// An audio decoder. It decodes nothing.
#[derive(Debug, Clone, Copy, PartialEq, Eq, Structural)]
pub struct MpvAudioDecoder;

/// An audio sink. It takes everything and plays nothing.
#[derive(Debug, Clone, Copy, PartialEq, Eq, Structural)]
pub struct MpvAudioSink;

impl MpvAudioSink {
    /// Accepts the sample rate and the renderer.
    pub fn init(&self) -> (r: Result<(), AudioSinkError>)
        ensures
            r is Ok,
    {
        Ok(())
    }

    /// Accepts a stream.
    pub fn init_stream(&self, _channels: u8) -> (r: Result<(), AudioSinkError>)
        ensures
            r is Ok,
    {
        Ok(())
    }

    /// Accepts the wish to play.
    pub fn play(&self) -> (r: Result<(), AudioSinkError>)
        ensures
            r is Ok,
    {
        Ok(())
    }

    /// Accepts the wish to stop.
    pub fn stop(&self) -> (r: Result<(), AudioSinkError>)
        ensures
            r is Ok,
    {
        Ok(())
    }

    /// There is always enough data.
    pub fn has_enough_data(&self) -> (r: bool)
        ensures
            r,
    {
        true
    }

    /// Accepts data.
    pub fn push_data(&self) -> (r: Result<(), AudioSinkError>)
        ensures
            r is Ok,
    {
        Ok(())
    }
}

/// A reader of audio streams. It reads nothing.
#[derive(Debug, Clone, Copy, PartialEq, Eq, Structural)]
pub struct MpvStreamReader;

/// A media stream without contents.
pub struct MpvMediaStream {
    id: MediaStreamId,
}

impl View for MpvMediaStream {
    type V = MediaStreamId;

    /// The name that the stream was made with.
    closed spec fn view(&self) -> MediaStreamId {
        self.id
    }
}

impl MpvMediaStream {
    /// A stream with a name.
    pub fn new(id: MediaStreamId) -> (r: Self)
        ensures
            r@ == id,
    {
        MpvMediaStream { id }
    }

    /// The name to forget when the stream goes away.
    pub fn id(&self) -> (r: &MediaStreamId)
        ensures
            *r == self@,
    {
        &self.id
    }

    /// Does not take on another name.
    pub fn set_id(&mut self, _id: MediaStreamId)
        ensures
            final(self)@ == old(self)@,
    {
    }

    /// What the stream carries.
    pub fn ty(&self) -> (r: MediaStreamType)
        ensures
            r == MediaStreamType::Audio,
    {
        MediaStreamType::Audio
    }
}

/// The source side of a media stream, not connected.
#[derive(Debug, Clone, Copy, PartialEq, Eq, Structural)]
pub struct MpvSocket;

/// An output of media streams. It puts out nothing.
#[derive(Debug, Clone, Copy, PartialEq, Eq, Structural)]
pub struct MpvMediaOutput;

impl MpvMediaOutput {
    /// Ignores a stream.
    pub fn add_stream(&mut self, _stream: &MediaStreamId)
        ensures
            *final(self) == *old(self),
    {
    }
}

/// The controller of a peer connection. It accepts everything and connects to nobody.
#[derive(Debug, Clone, Copy, PartialEq, Eq, Structural)]
pub struct MpvWebRtcController;

impl MpvWebRtcController {
    /// Accepts a STUN server.
    pub fn configure(&mut self, _stun_server: &str) -> (r: Result<(), WebRtcError>)
        ensures
            r is Ok,
            *final(self) == *old(self),
    {
        Ok(())
    }

    /// Accepts the other side's description.
    pub fn set_remote_description(&mut self) -> (r: Result<(), WebRtcError>)
        ensures
            r is Ok,
            *final(self) == *old(self),
    {
        Ok(())
    }

    /// Accepts this side's description.
    pub fn set_local_description(&mut self) -> (r: Result<(), WebRtcError>)
        ensures
            r is Ok,
            *final(self) == *old(self),
    {
        Ok(())
    }

    /// Accepts a candidate.
    pub fn add_ice_candidate(&mut self) -> (r: Result<(), WebRtcError>)
        ensures
            r is Ok,
            *final(self) == *old(self),
    {
        Ok(())
    }

    /// Accepts the wish for an offer, and makes none.
    pub fn create_offer(&mut self) -> (r: Result<(), WebRtcError>)
        ensures
            r is Ok,
            *final(self) == *old(self),
    {
        Ok(())
    }

    /// Accepts the wish for an answer, and makes none.
    pub fn create_answer(&mut self) -> (r: Result<(), WebRtcError>)
        ensures
            r is Ok,
            *final(self) == *old(self),
    {
        Ok(())
    }

    /// Accepts a stream.
    pub fn add_stream(&mut self, _stream: &MediaStreamId) -> (r: Result<(), WebRtcError>)
        ensures
            r is Ok,
            *final(self) == *old(self),
    {
        Ok(())
    }

    /// Accepts the wish to close a data channel.
    pub fn close_data_channel(&mut self, _channel: &usize) -> (r: Result<(), WebRtcError>)
        ensures
            r is Ok,
            *final(self) == *old(self),
    {
        Ok(())
    }

    /// Accepts a message, and sends it to nobody.
    pub fn send_data_channel_message(&mut self, _channel: &usize) -> (r: Result<(), WebRtcError>)
        ensures
            r is Ok,
            *final(self) == *old(self),
    {
        Ok(())
    }

    /// Accepts an event.
    pub fn internal_event(&mut self) -> (r: Result<(), WebRtcError>)
        ensures
            r is Ok,
            *final(self) == *old(self),
    {
        Ok(())
    }

    /// Ends: there is nothing to let go of.
    pub fn quit(&mut self)
        ensures
            *final(self) == *old(self),
    {
    }

    /// Every data channel has the number zero.
    pub fn create_data_channel(&mut self) -> (r: Result<usize, WebRtcError>)
        ensures
            r == Ok::<usize, WebRtcError>(0),
            *final(self) == *old(self),
    {
        Ok(0)
    }
}

/// The monitor of capture devices.
#[derive(Debug, Clone, Copy, PartialEq, Eq, Structural)]
pub struct MpvMediaDeviceMonitor;

impl MpvMediaDeviceMonitor {
    /// The capture devices, `D` being what is told of one: there are none, which is known.
    pub fn enumerate_devices<D>(&self) -> (r: Option<Vec<D>>)
        ensures
            r matches Some(devices) && devices@ == Seq::<D>::empty(),
    {
        Some(Vec::new())
    }
}

} // verus!
