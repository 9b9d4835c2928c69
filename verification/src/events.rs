//! What the client is told about mpv's events.
//!
//! `P` stands for a position in the media: a number of seconds that is handed through
//! unchanged.

use crate::render::low_bits_are_remainder;
use std::time::Duration;
use vstd::prelude::*;

verus! {

/// How long the event loop pauses after mpv reported an error, in milliseconds.
pub const ERROR_PAUSE_MILLIS: u64 = 50;

/// Whether the media plays.
#[derive(Debug, Clone, Copy, PartialEq, Eq, Structural)]
pub enum PlaybackState {
    Stopped,
    Buffering,
    Paused,
    Playing,
}

/// What is known of the media.
#[derive(Debug)]
pub struct Metadata {
    pub duration: Option<Duration>,
    pub width: u32,
    pub height: u32,
    pub format: String,
    pub is_seekable: bool,
    pub video_tracks: Vec<String>,
    pub audio_tracks: Vec<String>,
    pub is_live: bool,
    pub title: Option<String>,
}

/// Metadata as mathematics.
#[verifier::ext_equal]
pub struct MetadataView {
    pub duration: Option<Duration>,
    pub width: u32,
    pub height: u32,
    pub format: Seq<char>,
    pub is_seekable: bool,
    pub video_tracks: Seq<String>,
    pub audio_tracks: Seq<String>,
    pub is_live: bool,
    pub title: Option<String>,
}

impl View for Metadata {
    type V = MetadataView;

    open spec fn view(&self) -> MetadataView {
        MetadataView {
            duration: self.duration,
            width: self.width,
            height: self.height,
            format: self.format@,
            is_seekable: self.is_seekable,
            video_tracks: self.video_tracks@,
            audio_tracks: self.audio_tracks@,
            is_live: self.is_live,
            title: self.title,
        }
    }
}

/// What the client is told.
#[derive(Debug)]
pub enum PlayerEvent<P> {
    EndOfStream,
    Error(String),
    VideoFrameUpdated,
    MetadataUpdated(Metadata),
    DurationChanged(Option<Duration>),
    PositionChanged(P),
    SeekDone(P),
    StateChanged(PlaybackState),
}

/// What the client is told, as mathematics.
#[verifier::ext_equal]
pub enum PlayerEventView<P> {
    EndOfStream,
    Error(Seq<char>),
    VideoFrameUpdated,
    MetadataUpdated(MetadataView),
    DurationChanged(Option<Duration>),
    PositionChanged(P),
    SeekDone(P),
    StateChanged(PlaybackState),
}

impl<P> View for PlayerEvent<P> {
    type V = PlayerEventView<P>;

    open spec fn view(&self) -> PlayerEventView<P> {
        match *self {
            PlayerEvent::EndOfStream => PlayerEventView::EndOfStream,
            PlayerEvent::Error(message) => PlayerEventView::Error(message@),
            PlayerEvent::VideoFrameUpdated => PlayerEventView::VideoFrameUpdated,
            PlayerEvent::MetadataUpdated(metadata) => PlayerEventView::MetadataUpdated(metadata@),
            PlayerEvent::DurationChanged(duration) => PlayerEventView::DurationChanged(duration),
            PlayerEvent::PositionChanged(position) => PlayerEventView::PositionChanged(position),
            PlayerEvent::SeekDone(position) => PlayerEventView::SeekDone(position),
            PlayerEvent::StateChanged(state) => PlayerEventView::StateChanged(state),
        }
    }
}

/// Events as mathematics, in order.
pub open spec fn views<P>(events: Seq<PlayerEvent<P>>) -> Seq<PlayerEventView<P>> {
    events.map_values(|e: PlayerEvent<P>| e@)
}

/// Why a file ended.
#[derive(Debug, Clone, Copy, PartialEq, Eq, Structural)]
pub enum EndReason {
    /// Everything was played.
    Eof,
    /// It could not be played.
    Error,
    /// Some other reason.
    Other,
}

/// What mpv knows of the video. `None` is a property that mpv cannot tell.
#[derive(Debug, Clone, Copy, PartialEq, Eq, Structural)]
pub struct VideoFacts {
    pub width: Option<i64>,
    pub height: Option<i64>,
    pub seekable: Option<bool>,
}

/// The new value of a property that is observed.
#[derive(Debug)]
pub enum PropertyData<P> {
    Flag(bool),
    Double(P),
    /// A value of another type.
    Other,
}

/// An event of mpv, with the properties that belong to it.
#[derive(Debug)]
pub enum MpvEvent<P> {
    StartFile,
    EndFile(EndReason),
    /// A file was loaded. The duration is `None` unless it is known and positive.
    FileLoaded { duration: Option<Duration>, facts: VideoFacts },
    PropertyChange { name: String, change: PropertyData<P> },
    /// A seek is over. The position is `None` where mpv cannot tell it.
    Seek { position: Option<P> },
    VideoReconfig(VideoFacts),
    /// An event that is of no interest.
    Other,
}

/// The number that the low 32 bits of a 64-bit number spell.
pub open spec fn low_u32(n: i64) -> int {
    n as int % 0x1_0000_0000
}

/// A dimension of the video as the client is told: unknown is zero, and only the low 32
/// bits count.
pub open spec fn told_dimension(reported: Option<i64>) -> u32 {
    match reported {
        Some(n) => low_u32(n) as u32,
        None => 0,
    }
}

/// The metadata that the client is told.
pub open spec fn metadata_for(duration: Option<Duration>, facts: VideoFacts) -> MetadataView {
    MetadataView {
        duration,
        width: told_dimension(facts.width),
        height: told_dimension(facts.height),
        format: Seq::empty(),
        is_seekable: facts.seekable == Some(true),
        video_tracks: Seq::empty(),
        audio_tracks: Seq::empty(),
        is_live: false,
        title: None,
    }
}

/// What the client is told about an event of mpv, in order.
pub open spec fn told<P>(event: MpvEvent<P>) -> Seq<PlayerEventView<P>> {
    match event {
        MpvEvent::EndFile(EndReason::Eof) => seq![PlayerEventView::EndOfStream],
        MpvEvent::EndFile(EndReason::Error) => seq![PlayerEventView::Error("Playback error"@)],
        MpvEvent::FileLoaded { duration, facts } => seq![
            PlayerEventView::MetadataUpdated(metadata_for(duration, facts)),
            PlayerEventView::DurationChanged(duration),
            PlayerEventView::StateChanged(PlaybackState::Paused),
            PlayerEventView::VideoFrameUpdated,
        ],
        MpvEvent::PropertyChange { name, change: PropertyData::Double(position) } if name@
            == "time-pos"@ => seq![PlayerEventView::PositionChanged(position)],
        MpvEvent::PropertyChange { name, change: PropertyData::Flag(paused) } if name@
            == "pause"@ => seq![
            PlayerEventView::StateChanged(
                if paused {
                    PlaybackState::Paused
                } else {
                    PlaybackState::Playing
                },
            ),
        ],
        MpvEvent::Seek { position: Some(position) } => seq![PlayerEventView::SeekDone(position)],
        MpvEvent::VideoReconfig(facts) => seq![
            PlayerEventView::MetadataUpdated(metadata_for(None, facts)),
            PlayerEventView::VideoFrameUpdated,
        ],
        _ => Seq::empty(),
    }
}

/// A dimension of the video as the client is told.
fn tell_dimension(reported: Option<i64>) -> (r: u32)
    ensures
        r == told_dimension(reported),
{
    match reported {
        Some(n) => {
            proof {
                low_bits_are_remainder(n);
                assert(n as u32 == (n as u64) & 0xffff_ffff) by (bit_vector);
            }
            n as u32
        },
        None => 0,
    }
}

/// The metadata that the client is told.
fn tell_metadata(duration: Option<Duration>, facts: VideoFacts) -> (r: Metadata)
    ensures
        r@ == metadata_for(duration, facts),
{
    proof {
        reveal_strlit("");
    }
    Metadata {
        duration,
        width: tell_dimension(facts.width),
        height: tell_dimension(facts.height),
        format: String::new(),
        is_seekable: match facts.seekable {
            Some(seekable) => seekable,
            None => false,
        },
        video_tracks: Vec::new(),
        audio_tracks: Vec::new(),
        is_live: false,
        title: None,
    }
}

/// Whether a property has a name.
fn is_named(property: &String, name: &str) -> (r: bool)
    ensures
        r == (property@ == name@),
{
    *property == name.to_owned()
}

/// What to tell the client about an event of mpv, in order. Once a file is loaded, its
/// metadata comes before the state: only then can the client act on the state.
pub fn handle_event<P>(event: MpvEvent<P>) -> (r: Vec<PlayerEvent<P>>)
    ensures
        views(r@) == told(event),
{
    let r: Vec<PlayerEvent<P>> = match event {
        MpvEvent::EndFile(reason) => match reason {
            EndReason::Eof => vec![PlayerEvent::EndOfStream],
            EndReason::Error => vec![PlayerEvent::Error("Playback error".to_owned())],
            EndReason::Other => vec![],
        },
        MpvEvent::FileLoaded { duration, facts } => vec![
            PlayerEvent::MetadataUpdated(tell_metadata(duration, facts)),
            PlayerEvent::DurationChanged(duration),
            PlayerEvent::StateChanged(PlaybackState::Paused),
            PlayerEvent::VideoFrameUpdated,
        ],
        MpvEvent::PropertyChange { name, change } => match change {
            PropertyData::Double(position) => {
                if is_named(&name, "time-pos") {
                    vec![PlayerEvent::PositionChanged(position)]
                } else {
                    vec![]
                }
            },
            PropertyData::Flag(paused) => {
                if is_named(&name, "pause") {
                    let state: PlaybackState = if paused {
                        PlaybackState::Paused
                    } else {
                        PlaybackState::Playing
                    };
                    vec![PlayerEvent::StateChanged(state)]
                } else {
                    vec![]
                }
            },
            PropertyData::Other => vec![],
        },
        MpvEvent::Seek { position } => match position {
            Some(position) => vec![PlayerEvent::SeekDone(position)],
            None => vec![],
        },
        MpvEvent::VideoReconfig(facts) => vec![
            PlayerEvent::MetadataUpdated(tell_metadata(None, facts)),
            PlayerEvent::VideoFrameUpdated,
        ],
        MpvEvent::StartFile | MpvEvent::Other => vec![],
    };
    assert(views(r@) =~= told(event));
    r
}

/// What came of waiting for an event.
#[derive(Debug)]
pub enum Waited<P> {
    /// An event.
    Event(MpvEvent<P>),
    /// An error with mpv's own code.
    RawError(i32),
    /// Another error.
    OtherError,
    /// Nothing in due time.
    Nothing,
}

/// What the event loop does before it waits again.
#[derive(Debug)]
pub enum LoopStep<P> {
    /// Tell the client these, in order.
    Notify(Vec<PlayerEvent<P>>),
    /// Pause for this many milliseconds.
    Pause(u64),
    /// Nothing.
    Continue,
}

/// What the event loop does before it waits again, as mathematics.
#[verifier::ext_equal]
pub enum LoopStepView<P> {
    Notify(Seq<PlayerEventView<P>>),
    Pause(u64),
    Continue,
}

impl<P> View for LoopStep<P> {
    type V = LoopStepView<P>;

    open spec fn view(&self) -> LoopStepView<P> {
        match *self {
            LoopStep::Notify(events) => LoopStepView::Notify(views(events@)),
            LoopStep::Pause(millis) => LoopStepView::Pause(millis),
            LoopStep::Continue => LoopStepView::Continue,
        }
    }
}

/// What the event loop does about what came of waiting.
pub open spec fn step_for<P>(waited: Waited<P>) -> LoopStepView<P> {
    match waited {
        Waited::Event(event) => LoopStepView::Notify(told(event)),
        Waited::RawError(code) => if code != 0 {
            LoopStepView::Pause(ERROR_PAUSE_MILLIS)
        } else {
            LoopStepView::Continue
        },
        Waited::OtherError | Waited::Nothing => LoopStepView::Continue,
    }
}

/// What the event loop does about what came of waiting: events are told to the client, and
/// mpv's errors, save the code that means success, call for a pause.
pub fn event_loop_step<P>(waited: Waited<P>) -> (r: LoopStep<P>)
    ensures
        match waited {
            Waited::Event(event) => r matches LoopStep::Notify(events) && views(events@) == told(
                event,
            ),
            Waited::RawError(code) => r == if code != 0 {
                LoopStep::<P>::Pause(ERROR_PAUSE_MILLIS)
            } else {
                LoopStep::Continue
            },
            Waited::OtherError | Waited::Nothing => r == LoopStep::<P>::Continue,
        },
        r@ == step_for(waited),
{
    match waited {
        Waited::Event(event) => LoopStep::Notify(handle_event(event)),
        Waited::RawError(code) => {
            if code != 0 {
                LoopStep::Pause(ERROR_PAUSE_MILLIS)
            } else {
                LoopStep::Continue
            }
        },
        Waited::OtherError | Waited::Nothing => LoopStep::Continue,
    }
}

/// Once a file is loaded the client learns its state, and only after it has learnt the
/// metadata: whatever else is told, something tells the state, and metadata is told before
/// every such thing.
pub proof fn metadata_comes_before_state<P>(event: MpvEvent<P>)
    requires
        event is FileLoaded,
    ensures
        exists|i: int| 0 <= i < told(event).len() && #[trigger] told(event)[i] is StateChanged,
        forall|i: int|
            0 <= i < told(event).len() && #[trigger] told(event)[i] is StateChanged ==> exists|
                j: int,
            |
                0 <= j < i && #[trigger] told(event)[j] is MetadataUpdated,
{
    assert(told(event)[2] is StateChanged);
    assert(told(event)[0] is MetadataUpdated);
}

/// A dimension is told as it is reported, up to a multiple of 2 to the power of 32; one that is
/// not known is told as zero.
pub proof fn dimensions_are_told_as_reported(n: i64)
    ensures
        (told_dimension(Some(n)) - n) % 0x1_0000_0000 == 0,
        0 <= n <= u32::MAX ==> told_dimension(Some(n)) == n,
        told_dimension(None) == 0,
{
}

/// The metadata that is told holds what mpv knows, each fact in its own field: the duration,
/// width, height and whether the media is seekable, which it is not where mpv cannot tell. Of
/// everything else it holds nothing.
pub proof fn metadata_holds_what_is_known(duration: Option<Duration>, facts: VideoFacts)
    ensures
        ({
            let m = metadata_for(duration, facts);
            &&& m.duration == duration
            &&& m.width == told_dimension(facts.width)
            &&& m.height == told_dimension(facts.height)
            &&& facts.seekable matches Some(seekable) ==> m.is_seekable == seekable
            &&& facts.seekable is None ==> !m.is_seekable
            &&& m.format.len() == 0
            &&& m.video_tracks.len() == 0
            &&& m.audio_tracks.len() == 0
            &&& !m.is_live
            &&& m.title is None
        }),
{
}

/// The client is told the end of the stream exactly where a file was played to its end, and a
/// playback error exactly where it could not be played.
pub proof fn ends_are_told<P>(event: MpvEvent<P>, message: Seq<char>)
    ensures
        told(event).contains(PlayerEventView::EndOfStream) <==> event == MpvEvent::<P>::EndFile(
            EndReason::Eof,
        ),
        told(event).contains(PlayerEventView::Error(message)) <==> event == MpvEvent::<P>::EndFile(
            EndReason::Error,
        ) && message == "Playback error"@,
{
    told_by_index(event);
}

/// The client is told a position exactly where mpv reports it as its property `time-pos`, and
/// the end of a seek exactly where mpv has sought and knows where to.
pub proof fn positions_are_told<P>(event: MpvEvent<P>, position: P)
    ensures
        told(event).contains(PlayerEventView::PositionChanged(position)) <==> (event matches
            MpvEvent::PropertyChange { name, change } && name@ == "time-pos"@ && change
            == PropertyData::Double(position)),
        told(event).contains(PlayerEventView::SeekDone(position)) <==> event == (
        MpvEvent::Seek { position: Some(position) }),
{
    told_by_index(event);
    reveal_strlit("time-pos");
    reveal_strlit("pause");
}

/// The client is told that playback is paused exactly where mpv reports so, or has loaded a
/// file; and that it plays exactly where mpv reports that it is not paused. It is told no other
/// state.
pub proof fn states_are_told<P>(event: MpvEvent<P>, state: PlaybackState)
    ensures
        told(event).contains(PlayerEventView::StateChanged(state)) <==> {
            ||| event is FileLoaded && state == PlaybackState::Paused
            ||| event matches MpvEvent::PropertyChange { name, change } && name@ == "pause"@
                && change == PropertyData::<P>::Flag(true) && state == PlaybackState::Paused
            ||| event matches MpvEvent::PropertyChange { name, change } && name@ == "pause"@
                && change == PropertyData::<P>::Flag(false) && state == PlaybackState::Playing
        },
{
    told_by_index(event);
    reveal_strlit("time-pos");
    reveal_strlit("pause");
}

/// The client is told metadata and a new frame exactly where a file was loaded or the video
/// has a new configuration, with the duration in the first case alone; and the duration exactly
/// where a file was loaded.
pub proof fn media_is_told<P>(event: MpvEvent<P>, metadata: MetadataView, length: Option<Duration>)
    ensures
        told(event).contains(PlayerEventView::MetadataUpdated(metadata)) <==> {
            ||| event matches MpvEvent::FileLoaded { duration, facts } && metadata == metadata_for(
                duration,
                facts,
            )
            ||| event matches MpvEvent::VideoReconfig(facts) && metadata == metadata_for(
                None,
                facts,
            )
        },
        told(event).contains(PlayerEventView::VideoFrameUpdated) <==> event is FileLoaded
            || event is VideoReconfig,
        told(event).contains(PlayerEventView::DurationChanged(length)) <==> (event matches
            MpvEvent::FileLoaded { duration, .. } && duration == length),
{
    told_by_index(event);
}

/// Nothing is told twice for one event, a loaded file is told in four parts, a new configuration
/// in two, and every other event in one part at most.
pub proof fn nothing_is_told_twice<P>(event: MpvEvent<P>)
    ensures
        told(event).no_duplicates(),
        event is FileLoaded ==> told(event).len() == 4,
        event is VideoReconfig ==> told(event).len() == 2,
        !(event is FileLoaded || event is VideoReconfig) ==> told(event).len() <= 1,
{
}

/// What is told stands at some place.
proof fn told_by_index<P>(event: MpvEvent<P>)
    ensures
        told(event).len() > 0 ==> told(event).contains(told(event)[0]),
        told(event).len() > 1 ==> told(event).contains(told(event)[1]),
        told(event).len() > 2 ==> told(event).contains(told(event)[2]),
        told(event).len() > 3 ==> told(event).contains(told(event)[3]),
        told(event).len() <= 4,
{
}

/// Events and metadata are seen as they are.
pub proof fn views_show_what_is_there<P>(m: Metadata, events: Seq<PlayerEvent<P>>, i: int)
    requires
        0 <= i < events.len(),
    ensures
        m@.duration == m.duration,
        m@.width == m.width,
        m@.height == m.height,
        m@.format == m.format@,
        m@.is_seekable == m.is_seekable,
        m@.video_tracks == m.video_tracks@,
        m@.audio_tracks == m.audio_tracks@,
        m@.is_live == m.is_live,
        m@.title == m.title,
        views(events).len() == events.len(),
        views(events)[i] == events[i]@,
        events[i] matches PlayerEvent::Error(message) ==> events[i]@ == PlayerEventView::<P>::Error(
            message@,
        ),
        events[i] matches PlayerEvent::MetadataUpdated(metadata) ==> events[i]@
            == PlayerEventView::<P>::MetadataUpdated(metadata@),
        events[i] matches PlayerEvent::StateChanged(state) ==> events[i]@ == PlayerEventView::<
            P,
        >::StateChanged(state),
        events[i] matches PlayerEvent::DurationChanged(duration) ==> events[i]@
            == PlayerEventView::<P>::DurationChanged(duration),
        events[i] matches PlayerEvent::PositionChanged(position) ==> events[i]@
            == PlayerEventView::PositionChanged(position),
        events[i] matches PlayerEvent::SeekDone(position) ==> events[i]@
            == PlayerEventView::SeekDone(position),
        events[i] is EndOfStream <==> events[i]@ is EndOfStream,
        events[i] is VideoFrameUpdated <==> events[i]@ is VideoFrameUpdated,
{
}

/// The event loop pauses, for fifty milliseconds, exactly after an error with a code of mpv that
/// is not zero; it tells the client something exactly where an event came, and then what that
/// event calls for; and otherwise it waits again at once.
pub proof fn loop_pauses_after_errors<P>(waited: Waited<P>, millis: u64, n: Seq<PlayerEventView<P>>)
    ensures
        step_for(waited) == LoopStepView::<P>::Pause(millis) <==> (waited matches Waited::RawError(
            code,
        ) && code != 0 && millis == 50),
        step_for(waited) == LoopStepView::Notify(n) <==> (waited matches Waited::Event(event) && n
            == told(event)),
        step_for(waited) == LoopStepView::<P>::Continue <==> waited is OtherError
            || waited is Nothing || waited == Waited::<P>::RawError(0),
{
}

/// What is told comes in a fixed order: metadata first, the duration before the state, and a new
/// frame last.
pub proof fn news_comes_in_order<P>(event: MpvEvent<P>, i: int, j: int)
    requires
        0 <= i < told(event).len(),
        0 <= j < told(event).len(),
    ensures
        told(event)[i] is MetadataUpdated && i != j ==> i < j,
        told(event)[i] is DurationChanged && told(event)[j] is StateChanged ==> i < j,
        told(event)[i] is VideoFrameUpdated && i != j ==> j < i,
{
}

} // verus!
