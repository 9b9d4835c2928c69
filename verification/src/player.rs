//! A player: what its requests ask of mpv, and what the client learns of the outcome.
//!
//! `P` stands for a number that mpv receives, a time or a rate, and is handed through
//! unchanged.

use crate::address::stream_address;
use crate::registry::{RegistryOp, RegistryView, StreamRegistry};
use crate::stream::{lockable, locked, ServoStream, SharedStream};
use servo_media_streams::registry::MediaStreamId;
use servo_media_traits::ClientContextId;
use std::sync::Arc;
use vstd::prelude::*;

verus! {

/// Whether a player starts muted.
pub const DEFAULT_MUTED: bool = false;

/// Whether a player starts paused.
pub const DEFAULT_PAUSED: bool = true;

/// The volume at which a player starts, in hundredths.
pub const DEFAULT_VOLUME_PERCENT: u32 = 100;

/// How a player gets its data.
#[derive(Debug, Clone, Copy, PartialEq, Eq, Structural)]
pub enum StreamType {
    /// No seeking is supported, as in a live stream.
    Stream,
    /// The stream is seekable.
    Seekable,
}

/// Why a request failed.
#[derive(Debug, PartialEq, Eq)]
pub enum PlayerError {
    /// mpv refused; the text says what and why.
    Backend(String),
    /// The player cannot consume more data for now.
    EnoughData,
    /// Setting a stream failed.
    SetStreamFailed,
}

/// Why a request failed, as mathematics.
#[verifier::ext_equal]
pub enum PlayerErrorView {
    Backend(Seq<char>),
    EnoughData,
    SetStreamFailed,
}

impl View for PlayerError {
    type V = PlayerErrorView;

    open spec fn view(&self) -> PlayerErrorView {
        match *self {
            PlayerError::Backend(text) => PlayerErrorView::Backend(text@),
            PlayerError::EnoughData => PlayerErrorView::EnoughData,
            PlayerError::SetStreamFailed => PlayerErrorView::SetStreamFailed,
        }
    }
}

/// What came of a request, as mathematics.
pub open spec fn outcome(r: Result<(), PlayerError>) -> Result<(), PlayerErrorView> {
    match r {
        Ok(_) => Ok(()),
        Err(e) => Err(e@),
    }
}

/// A failure of an instance.
#[derive(Debug, Clone, Copy, PartialEq, Eq, Structural)]
pub struct MediaInstanceError;

/// What a client asks of a player.
#[derive(Debug)]
pub enum PlayerRequest<P> {
    Play,
    Pause,
    Stop,
    Seek(P),
    SetMute(bool),
    SetVolume(P),
    SetPlaybackRate(P),
    PushData,
}

/// A call of mpv.
#[derive(Debug)]
pub enum MpvCall<P> {
    /// A command with an argument.
    Command1 { name: &'static str, argument: String },
    /// A command without arguments.
    Command0 { name: &'static str },
    /// Setting a property to a truth value.
    SetFlag { name: &'static str, on: bool },
    /// Setting a property to a number.
    SetNumber { name: &'static str, number: P },
}

/// A call of mpv, as mathematics.
#[verifier::ext_equal]
pub enum MpvCallView<P> {
    Command { name: Seq<char>, arguments: Seq<Seq<char>> },
    SetFlag { name: Seq<char>, on: bool },
    SetNumber { name: Seq<char>, number: P },
}

impl<P> View for MpvCall<P> {
    type V = MpvCallView<P>;

    open spec fn view(&self) -> MpvCallView<P> {
        match *self {
            MpvCall::Command1 { name, argument } => MpvCallView::Command {
                name: name@,
                arguments: seq![argument@],
            },
            MpvCall::Command0 { name } => MpvCallView::Command {
                name: name@,
                arguments: Seq::empty(),
            },
            MpvCall::SetFlag { name, on } => MpvCallView::SetFlag { name: name@, on },
            MpvCall::SetNumber { name, number } => MpvCallView::SetNumber { name: name@, number },
        }
    }
}

/// What is to be done next about a request.
#[derive(Debug)]
pub enum PlayerStep<P> {
    /// Have mpv load the player's stream.
    Load(MpvCall<P>),
    /// Make the call that the request asks for.
    Call(MpvCall<P>),
    /// Push the data to the stream.
    Push,
    /// The request has failed.
    Fail(PlayerError),
}

/// What is to be done next about a request, as mathematics.
#[verifier::ext_equal]
pub enum PlayerStepView<P> {
    Load(MpvCallView<P>),
    Call(MpvCallView<P>),
    Push,
    Fail(PlayerErrorView),
}

impl<P> View for PlayerStep<P> {
    type V = PlayerStepView<P>;

    open spec fn view(&self) -> PlayerStepView<P> {
        match *self {
            PlayerStep::Load(call) => PlayerStepView::Load(call@),
            PlayerStep::Call(call) => PlayerStepView::Call(call@),
            PlayerStep::Push => PlayerStepView::Push,
            PlayerStep::Fail(e) => PlayerStepView::Fail(e@),
        }
    }
}

/// Whether a request needs the stream to be loaded.
pub open spec fn needs_load<P>(request: PlayerRequest<P>) -> bool {
    request is Play || request is Seek || request is PushData
}

/// What a request asks for once the stream is loaded, where that is needed.
pub open spec fn deed<P>(request: PlayerRequest<P>) -> PlayerStepView<P> {
    match request {
        PlayerRequest::Play => PlayerStepView::Call(
            MpvCallView::SetFlag { name: "pause"@, on: false },
        ),
        PlayerRequest::Pause => PlayerStepView::Call(
            MpvCallView::SetFlag { name: "pause"@, on: true },
        ),
        PlayerRequest::Stop => PlayerStepView::Call(
            MpvCallView::Command { name: "stop"@, arguments: Seq::empty() },
        ),
        PlayerRequest::Seek(time) => PlayerStepView::Call(
            MpvCallView::SetNumber { name: "time-pos"@, number: time },
        ),
        PlayerRequest::SetMute(muted) => PlayerStepView::Call(
            MpvCallView::SetFlag { name: "mute"@, on: muted },
        ),
        PlayerRequest::SetVolume(volume) => PlayerStepView::Call(
            MpvCallView::SetNumber { name: "volume"@, number: volume },
        ),
        PlayerRequest::SetPlaybackRate(rate) => PlayerStepView::Call(
            MpvCallView::SetNumber { name: "speed"@, number: rate },
        ),
        PlayerRequest::PushData => PlayerStepView::Push,
    }
}

/// What stands before mpv's reason when the call that a request asks for fails.
pub open spec fn complaint<P>(request: PlayerRequest<P>) -> Seq<char> {
    match request {
        PlayerRequest::Play => "mpv play failed: "@,
        PlayerRequest::Pause => "mpv pause failed: "@,
        PlayerRequest::Stop => "mpv stop failed: "@,
        PlayerRequest::Seek(_) => "mpv seek failed: "@,
        PlayerRequest::SetMute(_) => "mpv set_mute failed: "@,
        PlayerRequest::SetVolume(_) => "mpv set_volume failed: "@,
        PlayerRequest::SetPlaybackRate(_) => "mpv set_playback_rate failed: "@,
        PlayerRequest::PushData => Seq::empty(),
    }
}

/// What the client learns of a request that mpv has replied to.
pub open spec fn learned<P>(request: PlayerRequest<P>, reply: Result<(), String>) -> Result<
    (),
    PlayerErrorView,
> {
    match reply {
        Ok(_) => Ok(()),
        Err(reason) => Err(refused(complaint(request), reason@)),
    }
}

/// What an instance reports of a request that came to something.
pub open spec fn instance_outcome(r: Result<(), PlayerErrorView>) -> Result<(), MediaInstanceError> {
    match r {
        Ok(_) => Ok(()),
        Err(_) => Err(MediaInstanceError),
    }
}

/// What the client learns of a push that left the stream in some state.
pub open spec fn pushed_outcome(stream: crate::stream::StreamView) -> Result<(), PlayerErrorView> {
    if stream.is_full() {
        Err(PlayerErrorView::EnoughData)
    } else {
        Ok(())
    }
}

/// Whether what mpv tells of its property `pause`, `None` being nothing, counts as paused.
pub open spec fn counts_as_paused(told: Option<bool>) -> bool {
    match told {
        Some(paused) => paused,
        None => true,
    }
}

/// Whether what mpv tells of its property `mute`, `None` being nothing, counts as muted.
pub open spec fn counts_as_muted(told: Option<bool>) -> bool {
    match told {
        Some(muted) => muted,
        None => false,
    }
}

/// The error for a refusal of mpv.
pub open spec fn refused(complaint: Seq<char>, reason: Seq<char>) -> PlayerErrorView {
    PlayerErrorView::Backend(complaint + reason)
}

/// A player as mathematics.
pub struct PlayerView {
    pub id: usize,
    pub context_id: ClientContextId,
    /// The number of the player's stream.
    pub stream_id: u64,
    pub stream_type: StreamType,
    /// Whether mpv has loaded the stream.
    pub loaded: bool,
}

impl PlayerView {
    /// The call that loads the player's stream.
    pub open spec fn load_call<P>(self) -> MpvCallView<P> {
        MpvCallView::Command {
            name: "loadfile"@,
            arguments: seq![crate::address::address_of(self.stream_id)],
        }
    }

    /// What is to be done first about a request.
    pub open spec fn first_step<P>(self, request: PlayerRequest<P>) -> PlayerStepView<P> {
        if needs_load(request) && !self.loaded {
            PlayerStepView::Load(self.load_call())
        } else {
            deed(request)
        }
    }

    /// The player once mpv has loaded the stream, or refused to.
    pub open spec fn load_tried(self, accepted: bool) -> PlayerView {
        PlayerView { loaded: self.loaded || accepted, ..self }
    }

    /// What is to be done about a request once mpv has loaded the stream, or refused to.
    pub open spec fn second_step<P>(
        self,
        request: PlayerRequest<P>,
        reply: Result<(), String>,
    ) -> PlayerStepView<P> {
        match reply {
            Ok(_) => deed(request),
            Err(reason) => PlayerStepView::Fail(refused("mpv loadfile failed: "@, reason@)),
        }
    }
}

/// A player.
pub struct MpvPlayer {
    id: usize,
    context_id: ClientContextId,
    stream_id: u64,
    stream_type: StreamType,
    loaded: bool,
}

impl View for MpvPlayer {
    type V = PlayerView;

    closed spec fn view(&self) -> PlayerView {
        PlayerView {
            id: self.id,
            context_id: self.context_id,
            stream_id: self.stream_id,
            stream_type: self.stream_type,
            loaded: self.loaded,
        }
    }
}

/// The error for a refusal of mpv.
fn refusal(complaint: &str, reason: &str) -> (r: PlayerError)
    ensures
        r@ == refused(complaint@, reason@),
{
    let mut text: String = complaint.to_owned();
    text.append(reason);
    PlayerError::Backend(text)
}

impl<P: Copy> PlayerRequest<P> {
    /// Whether the request needs the stream to be loaded.
    fn must_load(&self) -> (r: bool)
        ensures
            r == needs_load(*self),
    {
        matches!(*self, PlayerRequest::Play | PlayerRequest::Seek(_) | PlayerRequest::PushData)
    }

    /// What the request asks for once the stream is loaded, where that is needed.
    fn act(&self) -> (r: PlayerStep<P>)
        ensures
            r@ == deed(*self),
    {
        match *self {
            PlayerRequest::Play => PlayerStep::Call(
                MpvCall::SetFlag { name: "pause", on: false },
            ),
            PlayerRequest::Pause => PlayerStep::Call(
                MpvCall::SetFlag { name: "pause", on: true },
            ),
            PlayerRequest::Stop => PlayerStep::Call(MpvCall::Command0 { name: "stop" }),
            PlayerRequest::Seek(time) => PlayerStep::Call(
                MpvCall::SetNumber { name: "time-pos", number: time },
            ),
            PlayerRequest::SetMute(muted) => PlayerStep::Call(
                MpvCall::SetFlag { name: "mute", on: muted },
            ),
            PlayerRequest::SetVolume(volume) => PlayerStep::Call(
                MpvCall::SetNumber { name: "volume", number: volume },
            ),
            PlayerRequest::SetPlaybackRate(rate) => PlayerStep::Call(
                MpvCall::SetNumber { name: "speed", number: rate },
            ),
            PlayerRequest::PushData => PlayerStep::Push,
        }
    }

    /// What the client learns of the call that the request asked for, `reply` being mpv's.
    pub fn finished(&self, reply: Result<(), String>) -> (r: Result<(), PlayerError>)
        requires
            deed(*self) is Call,
        ensures
            outcome(r) == match reply {
                Ok(_) => Ok(()),
                Err(reason) => Err(refused(complaint(*self), reason@)),
            },
            outcome(r) == learned(*self, reply),
    {
        match reply {
            Ok(_) => Ok(()),
            Err(reason) => {
                let text: &str = match *self {
                    PlayerRequest::Play => "mpv play failed: ",
                    PlayerRequest::Pause => "mpv pause failed: ",
                    PlayerRequest::Stop => "mpv stop failed: ",
                    PlayerRequest::Seek(_) => "mpv seek failed: ",
                    PlayerRequest::SetMute(_) => "mpv set_mute failed: ",
                    PlayerRequest::SetVolume(_) => "mpv set_volume failed: ",
                    PlayerRequest::SetPlaybackRate(_) => "mpv set_playback_rate failed: ",
                    PlayerRequest::PushData => "",
                };
                Err(refusal(text, reason.as_str()))
            },
        }
    }
}

impl MpvPlayer {
    /// A player with a stream of its own, which is registered for the client and which mpv has
    /// not loaded. The stream is handed back with the player.
    pub fn new<O, L, F: FnOnce(ServoStream) -> L>(
        id: usize,
        context_id: &ClientContextId,
        stream_type: StreamType,
        registry: &mut StreamRegistry<O, L>,
        observer: O,
        lock: F,
    ) -> (r: (Self, Arc<SharedStream<O, L>>))
        requires
            old(registry)@.wf(),
            old(registry)@.next_id < u64::MAX,
            lockable(lock, true),
        ensures
            r.0@ == (PlayerView {
                id,
                context_id: *context_id,
                stream_id: old(registry)@.next_id,
                stream_type,
                loaded: false,
            }),
            r.1.observer == Some(observer),
            locked(lock, true, r.1.inner),
            final(registry)@ == old(registry)@.registered(r.1),
            final(registry)@.wf(),
    {
        let (stream_id, stream) = registry.register(observer, lock);
        let player: MpvPlayer = MpvPlayer {
            id,
            context_id: *context_id,
            stream_id,
            stream_type,
            loaded: false,
        };
        (player, stream)
    }

    /// The call that loads the player's stream, where mpv has not loaded it.
    fn load_if_needed<P>(&self) -> (r: Option<MpvCall<P>>)
        ensures
            match r {
                Some(call) => !self@.loaded && call@ == self@.load_call::<P>(),
                None => self@.loaded,
            },
    {
        if self.loaded {
            return None;
        }
        let argument: String = stream_address(self.stream_id);
        assert(seq![argument@] =~= seq![crate::address::address_of(self.stream_id)]);
        Some(MpvCall::Command1 { name: "loadfile", argument })
    }

    /// What to do first about a request.
    pub fn request<P: Copy>(&self, request: &PlayerRequest<P>) -> (r: PlayerStep<P>)
        ensures
            r@ == self@.first_step(*request),
    {
        if request.must_load() {
            if let Some(call) = self.load_if_needed() {
                return PlayerStep::Load(call);
            }
        }
        request.act()
    }

    /// Takes mpv's reply to the loading of the stream, and says what to do next about the
    /// request that needed it. What mpv has refused to load is tried again at the next
    /// request that needs it.
    pub fn load_replied<P: Copy>(
        &mut self,
        request: &PlayerRequest<P>,
        reply: Result<(), String>,
    ) -> (r: PlayerStep<P>)
        ensures
            final(self)@ == old(self)@.load_tried(reply is Ok),
            r@ == old(self)@.second_step(*request, reply),
    {
        match reply {
            Ok(_) => {
                self.loaded = true;
                request.act()
            },
            Err(reason) => PlayerStep::Fail(refusal("mpv loadfile failed: ", reason.as_str())),
        }
    }

    /// The number of this instance.
    pub fn get_id(&self) -> (r: usize)
        ensures
            r == self@.id,
    {
        self.id
    }

    /// The context that this instance belongs to.
    pub fn context_id(&self) -> (r: ClientContextId)
        ensures
            r == self@.context_id,
    {
        self.context_id
    }

    /// The number of the player's stream.
    pub fn stream_id(&self) -> (r: u64)
        ensures
            r == self@.stream_id,
    {
        self.stream_id
    }

    /// Pushes data to the player's stream. The client should stop pushing where the stream is
    /// full afterwards. The first part of the result says whether waiting readers are to be
    /// woken.
    pub fn push_data(&self, stream: &mut ServoStream, data: &[u8]) -> (r: (
        bool,
        Result<(), PlayerError>,
    ))
        requires
            old(stream)@.wf(),
            !old(stream)@.seeking ==> old(stream)@.end() + data@.len() <= u64::MAX,
        ensures
            final(stream)@ == old(stream)@.pushed(data@),
            final(stream)@.wf(),
            r.0 == !old(stream)@.seeking,
            outcome(r.1) == if final(stream)@.unread().len() >= crate::stream::BUFFER_HIGH_WATER {
                Err(PlayerErrorView::EnoughData)
            } else {
                Ok(())
            },
            outcome(r.1) == pushed_outcome(final(stream)@),
    {
        let wake: bool = stream.push_data(data);
        if stream.is_buffer_full() {
            (wake, Err(PlayerError::EnoughData))
        } else {
            (wake, Ok(()))
        }
    }

    /// Tells the player's stream that no more data will come. The first part of the result says
    /// that waiting readers are to be woken.
    pub fn end_of_stream(&self, stream: &mut ServoStream) -> (r: (bool, Result<(), PlayerError>))
        ensures
            r.0,
            r.1 is Ok,
            final(stream)@ == (crate::stream::StreamView { eof: true, ..old(stream)@ }),
            final(stream)@ == old(stream)@.ended(),
    {
        let wake: bool = stream.set_eof();
        (wake, Ok(()))
    }

    /// Tells the player's stream the size of the whole resource.
    pub fn set_input_size(&self, stream: &mut ServoStream, size: u64) -> (r: Result<
        (),
        PlayerError,
    >)
        ensures
            r is Ok,
            final(stream)@ == (crate::stream::StreamView { total: Some(size), ..old(stream)@ }),
            final(stream)@ == old(stream)@.sized(size),
    {
        stream.set_size(size);
        Ok(())
    }

    /// Whether playback is paused, from what mpv tells; what it cannot tell counts as paused.
    pub fn paused(&self, told: Option<bool>) -> (r: bool)
        ensures
            r == (told != Some(false)),
            r == counts_as_paused(told),
    {
        match told {
            Some(paused) => paused,
            None => true,
        }
    }

    /// Whether there is no sound, from what mpv tells; what it cannot tell counts as sound.
    pub fn muted(&self, told: Option<bool>) -> (r: bool)
        ensures
            r == (told == Some(true)),
            r == counts_as_muted(told),
    {
        match told {
            Some(muted) => muted,
            None => false,
        }
    }

    /// Whether the player can be resumed: unless it is paused.
    pub fn can_resume(&self, paused_told: Option<bool>) -> (r: bool)
        ensures
            r == (paused_told == Some(false)),
    {
        !self.paused(paused_told)
    }

    /// What resuming asks of the player: to play where it can be resumed, else nothing.
    pub fn resume<P>(&self, paused_told: Option<bool>) -> (r: Option<PlayerRequest<P>>)
        ensures
            r == if paused_told == Some(false) {
                Some(PlayerRequest::<P>::Play)
            } else {
                None
            },
    {
        if self.can_resume(paused_told) {
            Some(PlayerRequest::Play)
        } else {
            None
        }
    }

    /// What suspending asks of the player: to pause.
    pub fn suspend<P>(&self) -> (r: PlayerRequest<P>)
        ensures
            r == PlayerRequest::<P>::Pause,
    {
        PlayerRequest::Pause
    }

    /// What muting asks of the player.
    pub fn mute<P>(&self, val: bool) -> (r: PlayerRequest<P>)
        ensures
            r == PlayerRequest::<P>::SetMute(val),
    {
        PlayerRequest::SetMute(val)
    }

    /// What an instance reports of a request: not why it failed.
    pub fn as_instance(&self, r: Result<(), PlayerError>) -> (s: Result<(), MediaInstanceError>)
        ensures
            s == match r {
                Ok(_) => Ok::<(), MediaInstanceError>(()),
                Err(_) => Err(MediaInstanceError),
            },
            s == instance_outcome(outcome(r)),
    {
        match r {
            Ok(_) => Ok(()),
            Err(_) => Err(MediaInstanceError),
        }
    }

    /// The ranges in which the client can seek. `whole` is the range of the whole media, where
    /// its duration is known and positive.
    pub fn seekable<R>(&self, whole: Option<R>) -> (r: Vec<R>)
        ensures
            r@ == match whole {
                Some(range) if self@.stream_type != StreamType::Stream => seq![range],
                _ => Seq::empty(),
            },
    {
        let mut ranges: Vec<R> = Vec::new();
        if self.stream_type == StreamType::Stream {
            return ranges;
        }
        if let Some(range) = whole {
            ranges.push(range);
        }
        ranges
    }

    /// The ranges that are buffered: none is known.
    pub fn buffered<R>(&self) -> (r: Vec<R>)
        ensures
            r@ == Seq::<R>::empty(),
    {
        Vec::new()
    }

    /// Has no effect: whether the media is seekable is found out by mpv.
    pub fn set_seekable(&self, _seekable: bool) -> (r: Result<(), PlayerError>)
        ensures
            r is Ok,
    {
        Ok(())
    }

    /// Has no effect: mpv chooses the audio track.
    pub fn set_audio_track(&self, _stream_index: i32, _enabled: bool) -> (r: Result<
        (),
        PlayerError,
    >)
        ensures
            r is Ok,
    {
        Ok(())
    }

    /// Has no effect: mpv chooses the video track.
    pub fn set_video_track(&self, _stream_index: i32, _enabled: bool) -> (r: Result<
        (),
        PlayerError,
    >)
        ensures
            r is Ok,
    {
        Ok(())
    }

    /// Fails: no media stream can be played.
    pub fn set_stream(&self, _stream: &MediaStreamId, _only_stream: bool) -> (r: Result<
        (),
        PlayerError,
    >)
        ensures
            outcome(r) == Err::<(), PlayerErrorView>(PlayerErrorView::SetStreamFailed),
    {
        Err(PlayerError::SetStreamFailed)
    }
}

/// A property that mpv is given when a player starts.
#[derive(Debug, Clone, Copy, PartialEq, Eq)]
pub enum Setting {
    Text { name: &'static str, text: &'static str },
    Flag { name: &'static str, on: bool },
    Number { name: &'static str, number: u32 },
}

/// Such a property, as mathematics.
#[verifier::ext_equal]
pub enum SettingView {
    Text { name: Seq<char>, text: Seq<char> },
    Flag { name: Seq<char>, on: bool },
    Number { name: Seq<char>, number: u32 },
}

impl View for Setting {
    type V = SettingView;

    open spec fn view(&self) -> SettingView {
        match *self {
            Setting::Text { name, text } => SettingView::Text { name: name@, text: text@ },
            Setting::Flag { name, on } => SettingView::Flag { name: name@, on },
            Setting::Number { name, number } => SettingView::Number { name: name@, number },
        }
    }
}

/// The properties that mpv is given when a player starts, in order: video goes to the render
/// loop, a file that has ended is closed, and playback starts unmuted, at full volume and
/// paused.
pub fn initial_settings() -> (r: Vec<Setting>)
    ensures
        r@.map_values(|s: Setting| s@) == seq![
            SettingView::Text { name: "vo"@, text: "libmpv"@ },
            SettingView::Flag { name: "keep-open"@, on: false },
            SettingView::Flag { name: "mute"@, on: DEFAULT_MUTED },
            SettingView::Number { name: "volume"@, number: DEFAULT_VOLUME_PERCENT },
            SettingView::Flag { name: "pause"@, on: DEFAULT_PAUSED },
        ],
{
    let r: Vec<Setting> = vec![
        Setting::Text { name: "vo", text: "libmpv" },
        Setting::Flag { name: "keep-open", on: false },
        Setting::Flag { name: "mute", on: DEFAULT_MUTED },
        Setting::Number { name: "volume", number: DEFAULT_VOLUME_PERCENT },
        Setting::Flag { name: "pause", on: DEFAULT_PAUSED },
    ];
    assert(r@.map_values(|s: Setting| s@) =~= seq![
        SettingView::Text { name: "vo"@, text: "libmpv"@ },
        SettingView::Flag { name: "keep-open"@, on: false },
        SettingView::Flag { name: "mute"@, on: DEFAULT_MUTED },
        SettingView::Number { name: "volume"@, number: DEFAULT_VOLUME_PERCENT },
        SettingView::Flag { name: "pause"@, on: DEFAULT_PAUSED },
    ]);
    r
}

/// The type of a property that is observed.
#[derive(Debug, Clone, Copy, PartialEq, Eq, Structural)]
pub enum PropertyFormat {
    Double,
    Flag,
}

/// The properties whose changes mpv reports, in order: the position and whether playback is
/// paused.
pub fn observed_properties() -> (r: Vec<(&'static str, PropertyFormat)>)
    ensures
        r@.len() == 2,
        r@[0].0@ == "time-pos"@,
        r@[0].1 == PropertyFormat::Double,
        r@[1].0@ == "pause"@,
        r@[1].1 == PropertyFormat::Flag,
{
    vec![("time-pos", PropertyFormat::Double), ("pause", PropertyFormat::Flag)]
}

/// A step on the way out of a player.
#[derive(Debug, Clone, Copy, PartialEq, Eq, Structural)]
pub enum TeardownStep {
    /// Tell the render thread to end.
    StopRenderThread,
    /// Wait until it has ended.
    JoinRenderThread,
    /// Cancel the stream and wake its readers.
    CancelStream,
    /// Have mpv stop.
    StopPlayback,
    /// Take the stream out of the registry.
    RemoveStream,
    /// Tell the backend that this instance shuts down.
    AnnounceShutdown,
    /// Wait until the backend has forgotten this instance.
    AwaitAcknowledgement,
}

/// The steps that end the render thread, where there is one.
pub open spec fn render_teardown(has_handle: bool, has_thread: bool) -> Seq<TeardownStep> {
    if has_handle && has_thread {
        seq![TeardownStep::StopRenderThread, TeardownStep::JoinRenderThread]
    } else if has_handle {
        seq![TeardownStep::StopRenderThread]
    } else {
        Seq::empty()
    }
}

/// The steps on the way out of a player, in order. The render thread goes first: mpv's render
/// context has to be freed while the GL context is still valid. `has_handle` says whether the
/// player holds a render handle, and `has_thread` whether a thread was started for it.
pub fn teardown_steps(has_handle: bool, has_thread: bool) -> (r: Vec<TeardownStep>)
    ensures
        r@ == render_teardown(has_handle, has_thread) + seq![
            TeardownStep::CancelStream,
            TeardownStep::StopPlayback,
            TeardownStep::RemoveStream,
            TeardownStep::AnnounceShutdown,
            TeardownStep::AwaitAcknowledgement,
        ],
{
    let mut steps: Vec<TeardownStep> = Vec::new();
    if has_handle {
        steps.push(TeardownStep::StopRenderThread);
        if has_thread {
            steps.push(TeardownStep::JoinRenderThread);
        }
    }
    steps.push(TeardownStep::CancelStream);
    steps.push(TeardownStep::StopPlayback);
    steps.push(TeardownStep::RemoveStream);
    steps.push(TeardownStep::AnnounceShutdown);
    steps.push(TeardownStep::AwaitAcknowledgement);
    assert(steps@ =~= render_teardown(has_handle, has_thread) + seq![
        TeardownStep::CancelStream,
        TeardownStep::StopPlayback,
        TeardownStep::RemoveStream,
        TeardownStep::AnnounceShutdown,
        TeardownStep::AwaitAcknowledgement,
    ]);
    steps
}

/// A request with mpv's replies: whether mpv accepts the loading of the stream, where it is
/// asked to.
pub ghost struct Exchange<P> {
    pub request: PlayerRequest<P>,
    pub load: Result<(), String>,
}

/// Whether an exchange asks mpv to load the stream.
pub open spec fn asks_to_load<P>(v: PlayerView, exchange: Exchange<P>) -> bool {
    v.first_step(exchange.request) is Load
}

/// The player after an exchange.
pub open spec fn after_exchange<P>(v: PlayerView, exchange: Exchange<P>) -> PlayerView {
    if asks_to_load(v, exchange) {
        v.load_tried(exchange.load is Ok)
    } else {
        v
    }
}

/// The player after a run of exchanges.
pub open spec fn after_exchanges<P>(v: PlayerView, exchanges: Seq<Exchange<P>>) -> PlayerView
    decreases exchanges.len(),
{
    if exchanges.len() == 0 {
        v
    } else {
        after_exchange(after_exchanges(v, exchanges.drop_last()), exchanges.last())
    }
}

/// How often mpv loads the stream in a run of exchanges.
pub open spec fn loads<P>(v: PlayerView, exchanges: Seq<Exchange<P>>) -> nat
    decreases exchanges.len(),
{
    if exchanges.len() == 0 {
        0
    } else if asks_to_load(after_exchanges(v, exchanges.drop_last()), exchanges.last())
        && exchanges.last().load is Ok {
        loads(v, exchanges.drop_last()) + 1
    } else {
        loads(v, exchanges.drop_last())
    }
}

/// What an exchange comes to once loading is out of the way.
pub open spec fn settled<P>(v: PlayerView, exchange: Exchange<P>) -> PlayerStepView<P> {
    if asks_to_load(v, exchange) {
        v.second_step(exchange.request, exchange.load)
    } else {
        v.first_step(exchange.request)
    }
}

/// The stream is loaded once: over every run of requests mpv loads it at most once, and not
/// again where it is loaded already; and it is loaded exactly where mpv has done so.
pub proof fn stream_is_loaded_once<P>(v: PlayerView, exchanges: Seq<Exchange<P>>)
    ensures
        after_exchanges(v, exchanges).loaded <==> v.loaded || loads(v, exchanges) == 1,
        v.loaded ==> loads(v, exchanges) == 0,
        loads(v, exchanges) <= 1,
    decreases exchanges.len(),
{
    if exchanges.len() > 0 {
        stream_is_loaded_once(v, exchanges.drop_last());
    }
}

/// Nothing that needs the stream happens without it: what a request asks for is done where
/// the stream is loaded by then or need not be, and otherwise the request fails with mpv's
/// reason.
pub proof fn deeds_need_the_stream<P>(v: PlayerView, exchange: Exchange<P>)
    ensures
        if needs_load(exchange.request) && !after_exchange(v, exchange).loaded {
            &&& exchange.load matches Err(reason)
            &&& settled(v, exchange) == PlayerStepView::<P>::Fail(
                refused("mpv loadfile failed: "@, reason@),
            )
        } else {
            settled(v, exchange) == deed(exchange.request)
        },
{
}

/// mpv reads a player's own stream: whatever other players register and remove meanwhile, the
/// address that the player has mpv load opens the stream that was registered for it, until
/// that one is removed.
pub proof fn load_opens_own_stream<O, L, P>(
    player: PlayerView,
    registry: RegistryView<O, L>,
    stream: Arc<SharedStream<O, L>>,
    ops: Seq<RegistryOp<O, L>>,
)
    requires
        registry.wf(),
        stream.observer is Some,
        registry.next_id < u64::MAX,
        registry.next_id + 1 + crate::registry::issued(registry.registered(stream), ops).len()
            <= u64::MAX,
        player.stream_id == registry.next_id,
        crate::registry::keeps(ops, player.stream_id),
    ensures
        player.load_call::<P>() matches MpvCallView::Command { name, arguments } && name
            == "loadfile"@ && arguments.len() == 1 && crate::registry::run(
            registry.registered(stream),
            ops,
        ).opened(arguments[0]) == crate::registry::OpenOutcome::Found(stream),
{
    crate::registry::address_opens_registered_stream(registry, stream, ops);
}

/// Players with streams of their own have mpv load different addresses.
pub proof fn players_load_different_streams<P>(one: PlayerView, other: PlayerView)
    requires
        one.stream_id != other.stream_id,
    ensures
        one.load_call::<P>() != other.load_call::<P>(),
{
    crate::address::addresses_are_distinct(one.stream_id, other.stream_id);
    assert(seq![crate::address::address_of(one.stream_id)][0] != seq![
        crate::address::address_of(other.stream_id),
    ][0]);
}

/// Two players of one registry have different streams: of two players that are made one after
/// the other, whatever is registered and removed between them, the numbers of their streams
/// differ, and so do the addresses that mpv loads; each address opens the player's own stream,
/// as long as that is not removed; and each of the two streams has its client, from which a
/// seek can ask for data.
pub proof fn players_have_streams_of_their_own<O, L, P>(
    registry: RegistryView<O, L>,
    one: PlayerView,
    first: Arc<SharedStream<O, L>>,
    between: Seq<RegistryOp<O, L>>,
    other: PlayerView,
    second: Arc<SharedStream<O, L>>,
)
    requires
        registry.wf(),
        crate::registry::all_observed(between),
        first.observer is Some,
        second.observer is Some,
        registry.next_id < u64::MAX,
        registry.next_id + 2 + crate::registry::issued(registry.registered(first), between).len()
            <= u64::MAX,
        one.stream_id == registry.next_id,
        other.stream_id == crate::registry::run(registry.registered(first), between).next_id,
    ensures
        ({
            let last = crate::registry::run(registry.registered(first), between).registered(second);
            &&& one.stream_id != other.stream_id
            &&& one.load_call::<P>() != other.load_call::<P>()
            &&& last.wf()
            &&& last.opened(crate::address::address_of(other.stream_id))
                == crate::registry::OpenOutcome::Found(second)
            &&& crate::registry::keeps(between, one.stream_id) ==> last.opened(
                crate::address::address_of(one.stream_id),
            ) == crate::registry::OpenOutcome::Found(first)
            &&& forall|id: u64| #[trigger]
                last.streams.contains_key(id) ==> last.streams[id].observer is Some
        }),
{
    let middle = registry.registered(first);
    crate::registry::numbers_are_never_reused(middle, between);
    crate::registry::order_is_kept(middle, between);
    players_load_different_streams::<P>(one, other);
    crate::address::address_names_stream(one.stream_id);
    crate::address::address_names_stream(other.stream_id);
    if crate::registry::keeps(between, one.stream_id) {
        crate::registry::registered_stream_stays(middle, one.stream_id, between);
    }
}

/// What mpv has been told: the properties that were set, by name, and the commands, in order.
pub ghost struct MpvState<P> {
    pub flags: Map<Seq<char>, bool>,
    pub numbers: Map<Seq<char>, P>,
    pub commands: Seq<(Seq<char>, Seq<Seq<char>>)>,
}

/// mpv after a call.
pub open spec fn after_call<P>(m: MpvState<P>, call: MpvCallView<P>) -> MpvState<P> {
    match call {
        MpvCallView::Command { name, arguments } => MpvState {
            commands: m.commands.push((name, arguments)),
            ..m
        },
        MpvCallView::SetFlag { name, on } => MpvState { flags: m.flags.insert(name, on), ..m },
        MpvCallView::SetNumber { name, number } => MpvState {
            numbers: m.numbers.insert(name, number),
            ..m
        },
    }
}

/// mpv after a step of a request.
pub open spec fn after_step<P>(m: MpvState<P>, step: PlayerStepView<P>) -> MpvState<P> {
    match step {
        PlayerStepView::Load(call) => after_call(m, call),
        PlayerStepView::Call(call) => after_call(m, call),
        PlayerStepView::Push | PlayerStepView::Fail(_) => m,
    }
}

/// mpv after what a request asks for.
pub open spec fn after_deed<P>(m: MpvState<P>, request: PlayerRequest<P>) -> MpvState<P> {
    after_step(m, deed(request))
}

/// Whether mpv was told nothing but a truth value for one property.
pub open spec fn only_flag_set<P>(
    m: MpvState<P>,
    after: MpvState<P>,
    name: Seq<char>,
    on: bool,
) -> bool {
    &&& after.flags.contains_key(name)
    &&& after.flags[name] == on
    &&& forall|other: Seq<char>|
        other != name ==> #[trigger] after.flags.contains_key(other) == m.flags.contains_key(other)
            && after.flags[other] == m.flags[other]
    &&& after.numbers == m.numbers
    &&& after.commands == m.commands
}

/// Whether mpv was told nothing but a number for one property.
pub open spec fn only_number_set<P>(
    m: MpvState<P>,
    after: MpvState<P>,
    name: Seq<char>,
    number: P,
) -> bool {
    &&& after.numbers.contains_key(name)
    &&& after.numbers[name] == number
    &&& forall|other: Seq<char>|
        other != name ==> #[trigger] after.numbers.contains_key(other) == m.numbers.contains_key(
            other,
        ) && after.numbers[other] == m.numbers[other]
    &&& after.flags == m.flags
    &&& after.commands == m.commands
}

/// A request to set mute to some value has mpv's property `mute` hold that very value, muting
/// and unmuting alike, whatever it was before, and changes nothing else.
pub proof fn muting_reaches_mpv<P>(m: MpvState<P>, muted: bool)
    ensures
        only_flag_set(m, after_deed(m, PlayerRequest::SetMute(muted)), "mute"@, muted),
        deed(PlayerRequest::<P>::SetMute(true)) != deed(PlayerRequest::<P>::SetMute(false)),
{
}

/// Playing clears mpv's property `pause` and pausing sets it, whatever it was before, and
/// neither changes anything else.
pub proof fn playing_and_pausing_reach_mpv<P>(m: MpvState<P>)
    ensures
        only_flag_set(m, after_deed(m, PlayerRequest::Play), "pause"@, false),
        only_flag_set(m, after_deed(m, PlayerRequest::Pause), "pause"@, true),
{
}

/// What a player reports is what it was asked for: with mpv telling what was set last, a player
/// is muted as the last request had it, and paused after pausing and not after playing, whatever
/// was asked in between of the other.
pub proof fn reports_follow_requests<P>(m: MpvState<P>, muted: bool)
    ensures
        ({
            let after = after_deed(m, PlayerRequest::SetMute(muted));
            let paused = after_deed(after, PlayerRequest::Pause);
            let played = after_deed(paused, PlayerRequest::Play);
            &&& counts_as_muted(after.flags.get("mute"@)) == muted
            &&& counts_as_muted(played.flags.get("mute"@)) == muted
            &&& counts_as_paused(paused.flags.get("pause"@))
            &&& !counts_as_paused(played.flags.get("pause"@))
        }),
{
    reveal_strlit("pause");
    reveal_strlit("mute");
    assert("pause"@.len() == 5 && "mute"@.len() == 4);
}

/// A position, a volume and a rate reach mpv as the properties `time-pos`, `volume` and `speed`,
/// with the very numbers that were asked for, and nothing else changes.
pub proof fn numbers_reach_mpv<P>(m: MpvState<P>, number: P)
    ensures
        only_number_set(m, after_deed(m, PlayerRequest::Seek(number)), "time-pos"@, number),
        only_number_set(m, after_deed(m, PlayerRequest::SetVolume(number)), "volume"@, number),
        only_number_set(m, after_deed(m, PlayerRequest::SetPlaybackRate(number)), "speed"@, number),
{
}

/// Stopping is one command without arguments, and pushing data tells mpv nothing.
pub proof fn stopping_and_pushing_reach_mpv<P>(m: MpvState<P>)
    ensures
        after_deed(m, PlayerRequest::Stop) == (MpvState {
            commands: m.commands.push(("stop"@, Seq::empty())),
            ..m
        }),
        after_deed(m, PlayerRequest::PushData) == m,
        deed(PlayerRequest::<P>::PushData) is Push,
{
}

/// Requests that differ come to different deeds.
pub proof fn requests_are_told_apart<P>(one: PlayerRequest<P>, other: PlayerRequest<P>)
    requires
        one != other,
    ensures
        deed(one) != deed(other),
{
    reveal_strlit("pause");
    reveal_strlit("mute");
    reveal_strlit("time-pos");
    reveal_strlit("volume");
    reveal_strlit("speed");
    reveal_strlit("stop");
    assert("pause"@.len() == 5 && "speed"@.len() == 5 && "mute"@.len() == 4 && "volume"@.len() == 6
        && "time-pos"@.len() == 8);
}

/// Loading comes first, and only where it is needed: a player whose stream is not loaded loads
/// it before it plays, seeks or takes data, and for no other request; in every other case what
/// the request asks for is done at once.
pub proof fn loading_comes_first<P>(player: PlayerView, request: PlayerRequest<P>)
    ensures
        player.first_step(request) is Load <==> !player.loaded && (request is Play
            || request is Seek || request is PushData),
        player.first_step(request) matches PlayerStepView::Load(call) ==> call
            == player.load_call::<P>(),
        !(player.first_step(request) is Load) ==> player.first_step(request) == deed(request),
{
}

/// The load is one command with one argument, the scheme followed by the digits of the number
/// of the player's stream.
pub proof fn load_names_the_stream<P>(m: MpvState<P>, player: PlayerView)
    ensures
        after_call(m, player.load_call()).commands == m.commands.push(
            (
                "loadfile"@,
                seq!["servo://"@ + crate::address::decimal(player.stream_id as nat)],
            ),
        ),
        after_call(m, player.load_call()).flags == m.flags,
        after_call(m, player.load_call()).numbers == m.numbers,
{
    crate::address::scheme_is_its_text();
}

/// An accepted load is remembered for good and the request goes on as if it had been there; a
/// refused one is not remembered, and fails the request with mpv's own reason.
pub proof fn load_replies_are_heeded<P>(
    player: PlayerView,
    request: PlayerRequest<P>,
    reason: String,
)
    ensures
        player.load_tried(true) == (PlayerView { loaded: true, ..player }),
        player.load_tried(false) == player,
        player.second_step(request, Ok(())) == player.load_tried(true).first_step(request),
        player.second_step(request, Err(reason)) == PlayerStepView::<P>::Fail(
            PlayerErrorView::Backend("mpv loadfile failed: "@ + reason@),
        ),
{
}

/// An error says what failed and then why: the text starts with the one, ends with the other
/// and holds nothing else.
pub proof fn errors_hold_complaint_and_reason(complaint: Seq<char>, reason: Seq<char>)
    ensures
        refused(complaint, reason) matches PlayerErrorView::Backend(text) && text.len()
            == complaint.len() + reason.len() && text.take(complaint.len() as int) == complaint
            && text.skip(complaint.len() as int) == reason,
{
    let text = complaint + reason;
    assert(text.take(complaint.len() as int) =~= complaint);
    assert(text.skip(complaint.len() as int) =~= reason);
}

/// What failed is said by the request and not by the value that it sets.
pub proof fn complaints_name_requests<P>(a: P, b: P, on: bool)
    ensures
        complaint(PlayerRequest::<P>::SetMute(on)) == "mpv set_mute failed: "@,
        complaint(PlayerRequest::Seek(a)) == complaint(PlayerRequest::Seek(b)),
        complaint(PlayerRequest::SetVolume(a)) == complaint(PlayerRequest::SetVolume(b)),
        complaint(PlayerRequest::SetPlaybackRate(a)) == complaint(
            PlayerRequest::SetPlaybackRate(b),
        ),
        complaint(PlayerRequest::Seek(a)) == "mpv seek failed: "@,
        complaint(PlayerRequest::SetVolume(a)) == "mpv set_volume failed: "@,
        complaint(PlayerRequest::SetPlaybackRate(a)) == "mpv set_playback_rate failed: "@,
{
}

/// The client is asked to stop pushing exactly where ten megabytes or more are unread after the
/// push, and the push succeeds exactly where less are.
pub proof fn full_streams_ask_for_a_pause(stream: crate::stream::StreamView)
    requires
        stream.start <= stream.pos <= stream.start + stream.bytes.len(),
    ensures
        pushed_outcome(stream) == Err::<(), PlayerErrorView>(PlayerErrorView::EnoughData) <==>
            stream.start + stream.bytes.len() - stream.pos >= 10 * 1024 * 1024,
        pushed_outcome(stream) is Ok <==> stream.start + stream.bytes.len() - stream.pos < 10 * 1024
            * 1024,
{
}

/// A request succeeds exactly where mpv accepts it, and whatever reason mpv gives for a refusal,
/// even none, it reaches the client behind the request's complaint.
pub proof fn replies_are_passed_on<P>(request: PlayerRequest<P>, reply: Result<(), String>)
    ensures
        learned(request, reply) is Ok <==> reply is Ok,
        reply matches Err(reason) ==> learned(request, reply) matches Err(
            PlayerErrorView::Backend(text),
        ) && text == complaint(request) + reason@,
{
}

/// An instance reports a success exactly where the request succeeded, whatever the failure.
pub proof fn instances_report_every_failure(r: Result<(), PlayerErrorView>)
    ensures
        instance_outcome(r) is Ok <==> r is Ok,
{
}

} // verus!
