//! The loop that has mpv draw its frames into memory.
//!
//! The loop creates mpv's render context, waits for commands, asks mpv whether a frame is
//! due and how large it is, keeps memory of that size and has mpv draw into it. It decides
//! what to do; the render thread does it and reports what came of it.

use crate::render::{frame_extent, frame_is_due, goes_on, is_reported, RenderCommand, SwBuffer};
use std::sync::Arc;
use vstd::prelude::*;

verus! {

/// Bytes to the pixel: blue, green, red and alpha.
pub const BYTES_PER_PIXEL: i32 = 4;

/// What a loop waits for.
#[derive(Debug, Clone, Copy, PartialEq, Eq, Structural)]
pub enum SwPhase {
    /// mpv's render context.
    Context,
    /// The next command.
    Command,
    /// mpv's word on whether a frame is due.
    Update,
    /// mpv's word on how large it is.
    Size,
    /// The end of mpv's drawing.
    Drawing,
    /// Nothing any more.
    Nothing,
}

/// What came of the last action.
#[derive(Debug, Clone, Copy, PartialEq, Eq, Structural)]
pub enum SwEvent {
    /// mpv's code for the creation of a render context: zero where there is one.
    Created(i32),
    /// A command came; `None` where no more can come.
    Command(Option<RenderCommand>),
    /// mpv reported these flags.
    Updated(u64),
    /// mpv reported these dimensions; `None` where one is not known.
    Measured { width: Option<i64>, height: Option<i64> },
    /// mpv's code for a drawing: zero where it drew.
    Drawn(i32),
}

/// What the render thread has to do.
#[derive(Debug, Clone, Copy, PartialEq, Eq, Structural)]
pub enum SwAction {
    /// End: there is nothing to free.
    Quit,
    /// Have mpv announce frames, and wait for a command.
    Listen,
    /// Wait for a command.
    AwaitCommand,
    /// Ask mpv for an update.
    PollUpdate,
    /// Ask mpv for the dimensions of the video.
    ReadDimensions,
    /// Have mpv draw a frame of this size into the pixels, with this many bytes from one
    /// row to the next.
    Draw { width: i32, height: i32, stride: i32 },
    /// Hand on the frame, announce it, and wait for a command.
    Deliver,
    /// Free mpv's render context and end.
    Stop,
}

/// The bytes of a frame of a size.
pub open spec fn frame_bytes(width: int, height: int) -> int {
    width * BYTES_PER_PIXEL * height
}

/// Bytes cut, or filled up with zeros, to a length.
pub open spec fn resized(bytes: Seq<u8>, len: nat) -> Seq<u8> {
    Seq::new(
        len,
        |i: int|
            if i < bytes.len() {
                bytes[i]
            } else {
                0u8
            },
    )
}

/// Whether the bytes of a frame, if there is one, can be counted in 32 bits.
pub open spec fn countable(size: Option<(i32, i32)>) -> bool {
    size matches Some((w, h)) ==> frame_bytes(w as int, h as int) <= i32::MAX
}

/// A loop as mathematics.
#[verifier::ext_equal]
pub struct SwView {
    /// The pixels that mpv draws into, row by row.
    pub pixels: Seq<u8>,
    /// The size for which they were laid out.
    pub width: i32,
    pub height: i32,
    /// What the loop waits for.
    pub phase: SwPhase,
    /// The bit by which mpv announces a frame.
    pub frame_flag: u64,
}

impl SwView {
    /// There is exactly as much memory as a frame of the current size takes.
    pub open spec fn wf(self) -> bool {
        &&& self.width >= 0
        &&& self.height >= 0
        &&& self.pixels.len() == frame_bytes(self.width as int, self.height as int)
    }

    /// A loop without memory that waits for mpv's render context.
    pub open spec fn fresh(frame_flag: u64) -> SwView {
        SwView {
            pixels: Seq::empty(),
            width: 0,
            height: 0,
            phase: SwPhase::Context,
            frame_flag,
        }
    }

    /// Whether an event is what the loop waits for.
    pub open spec fn awaits(self, event: SwEvent) -> bool {
        match event {
            SwEvent::Created(_) => self.phase is Context,
            SwEvent::Command(_) => self.phase is Command,
            SwEvent::Updated(_) => self.phase is Update,
            SwEvent::Measured { width, height } => {
                &&& self.phase is Size
                &&& countable(crate::render::extent(width, height))
            },
            SwEvent::Drawn(_) => self.phase is Drawing,
        }
    }

    /// The loop once it waits for something else.
    pub open spec fn waiting_for(self, phase: SwPhase) -> SwView {
        SwView { phase, ..self }
    }

    /// The loop once it is laid out for frames of a size: old bytes stay, new ones are
    /// zero.
    pub open spec fn laid_out(self, width: i32, height: i32) -> SwView {
        if width == self.width && height == self.height {
            self
        } else {
            SwView {
                pixels: resized(self.pixels, frame_bytes(width as int, height as int) as nat),
                width,
                height,
                ..self
            }
        }
    }

    /// The loop and what is to be done after an event.
    pub open spec fn stepped(self, event: SwEvent) -> (SwView, SwAction) {
        match event {
            SwEvent::Created(code) => if code == 0 {
                (self.waiting_for(SwPhase::Command), SwAction::Listen)
            } else {
                (self.waiting_for(SwPhase::Nothing), SwAction::Quit)
            },
            SwEvent::Command(command) => if command == Some(RenderCommand::Wakeup) {
                (self.waiting_for(SwPhase::Update), SwAction::PollUpdate)
            } else {
                (self.waiting_for(SwPhase::Nothing), SwAction::Stop)
            },
            SwEvent::Updated(flags) => if crate::render::due(Some(flags), self.frame_flag) {
                (self.waiting_for(SwPhase::Size), SwAction::ReadDimensions)
            } else {
                (self.waiting_for(SwPhase::Command), SwAction::AwaitCommand)
            },
            SwEvent::Measured { width, height } => match crate::render::extent(width, height) {
                Some((w, h)) => (
                    self.laid_out(w, h).waiting_for(SwPhase::Drawing),
                    SwAction::Draw { width: w, height: h, stride: (w * BYTES_PER_PIXEL) as i32 },
                ),
                None => (self.waiting_for(SwPhase::Command), SwAction::AwaitCommand),
            },
            SwEvent::Drawn(code) => if code == 0 {
                (self.waiting_for(SwPhase::Command), SwAction::Deliver)
            } else {
                (self.waiting_for(SwPhase::Command), SwAction::AwaitCommand)
            },
        }
    }
}

/// Whether a frame with the dimensions that mpv reports, if there is anything to draw, is
/// small enough for its bytes to be counted in 32 bits.
pub fn frame_is_countable(width: Option<i64>, height: Option<i64>) -> (r: bool)
    ensures
        r == countable(crate::render::extent(width, height)),
{
    match frame_extent(width, height) {
        Some((w, h)) => {
            assert(w * 4 * h <= 0x7fff_ffff * 4 * 0x7fff_ffff && w * 4 * h >= 0)
                by (nonlinear_arith)
                requires
                    0 < w <= 0x7fff_ffff,
                    0 < h <= 0x7fff_ffff,
            ;
            let bytes: i128 = w as i128 * 4 * h as i128;
            bytes <= i32::MAX as i128
        },
        None => true,
    }
}

/// The loop that has mpv draw its frames into memory.
pub struct SwRenderLoop {
    pixel_data: Vec<u8>,
    current_width: i32,
    current_height: i32,
    phase: SwPhase,
    frame_flag: u64,
}

impl View for SwRenderLoop {
    type V = SwView;

    closed spec fn view(&self) -> SwView {
        SwView {
            pixels: self.pixel_data@,
            width: self.current_width,
            height: self.current_height,
            phase: self.phase,
            frame_flag: self.frame_flag,
        }
    }
}

impl SwRenderLoop {
    /// A loop that waits for mpv's render context. `frame_flag` is the bit by which mpv
    /// announces a frame.
    pub fn new(frame_flag: u64) -> (r: Self)
        ensures
            r@ == SwView::fresh(frame_flag),
            r@.wf(),
    {
        SwRenderLoop {
            pixel_data: Vec::new(),
            current_width: 0,
            current_height: 0,
            phase: SwPhase::Context,
            frame_flag,
        }
    }

    /// How mpv is to write a pixel: blue, green, red, alpha, a byte each.
    pub fn pixel_format(&self) -> (r: &'static str)
        ensures
            r@ == "bgra"@,
    {
        "bgra"
    }

    /// Takes what came of the last action and says what to do next.
    pub fn step(&mut self, event: SwEvent) -> (r: SwAction)
        requires
            old(self)@.wf(),
            old(self)@.awaits(event),
        ensures
            (final(self)@, r) == old(self)@.stepped(event),
            final(self)@.wf(),
    {
        match event {
            SwEvent::Created(code) => {
                if code != 0 {
                    self.phase = SwPhase::Nothing;
                    return SwAction::Quit;
                }
                self.phase = SwPhase::Command;
                SwAction::Listen
            },
            SwEvent::Command(command) => {
                if goes_on(command) {
                    self.phase = SwPhase::Update;
                    SwAction::PollUpdate
                } else {
                    self.phase = SwPhase::Nothing;
                    SwAction::Stop
                }
            },
            SwEvent::Updated(flags) => {
                if frame_is_due(Some(flags), self.frame_flag) {
                    self.phase = SwPhase::Size;
                    SwAction::ReadDimensions
                } else {
                    self.phase = SwPhase::Command;
                    SwAction::AwaitCommand
                }
            },
            SwEvent::Measured { width, height } => match frame_extent(width, height) {
                Some((w, h)) => {
                    let stride: i32 = self.lay_out(w, h);
                    self.phase = SwPhase::Drawing;
                    SwAction::Draw { width: w, height: h, stride }
                },
                None => {
                    self.phase = SwPhase::Command;
                    SwAction::AwaitCommand
                },
            },
            SwEvent::Drawn(code) => {
                self.phase = SwPhase::Command;
                if code != 0 {
                    SwAction::AwaitCommand
                } else {
                    SwAction::Deliver
                }
            },
        }
    }

    /// Lays the memory out for a frame of a size. The result is the number of bytes from one
    /// row to the next.
    fn lay_out(&mut self, width: i32, height: i32) -> (stride: i32)
        requires
            old(self)@.wf(),
            width > 0,
            height > 0,
            frame_bytes(width as int, height as int) <= i32::MAX,
        ensures
            final(self)@ == old(self)@.laid_out(width, height),
            final(self)@.wf(),
            stride == width * BYTES_PER_PIXEL,
    {
        assert(width * 4 <= width * 4 * height) by (nonlinear_arith)
            requires
                width > 0,
                height > 0,
        ;
        let stride: i32 = width * BYTES_PER_PIXEL;
        if width != self.current_width || height != self.current_height {
            let size: usize = (stride * height) as usize;
            let ghost before = self.pixel_data@;
            self.pixel_data.resize(size, 0u8);
            assert(self.pixel_data@ =~= resized(before, size as nat));
            self.current_width = width;
            self.current_height = height;
        }
        stride
    }

    /// The memory that mpv draws into.
    pub fn pixels_mut(&mut self) -> (r: &mut [u8])
        ensures
            r@ == old(self)@.pixels,
            final(self)@ == (SwView { pixels: final(r)@, ..old(self)@ }),
    {
        self.pixel_data.as_mut_slice()
    }

    /// The frame to hand on: a copy of the pixels.
    pub fn frame(&self) -> (r: SwBuffer)
        ensures
            r.data@ == self@.pixels,
            r.width == self@.width,
            r.height == self@.height,
    {
        let copy: Vec<u8> = self.pixel_data.clone();
        assert(copy@ =~= self.pixel_data@);
        SwBuffer {
            data: Arc::new(copy),
            width: self.current_width,
            height: self.current_height,
        }
    }
}

/// When mpv is told to draw, there is exactly as much memory as the frame takes, row by
/// row, and the frame handed on afterwards has that size.
pub proof fn drawing_has_room(v: SwView, event: SwEvent)
    requires
        v.wf(),
        v.awaits(event),
    ensures
        v.stepped(event).1 matches SwAction::Draw { width, height, stride } ==> {
            &&& stride == width * BYTES_PER_PIXEL
            &&& v.stepped(event).0.pixels.len() == stride * height
            &&& v.stepped(event).0.width == width > 0
            &&& v.stepped(event).0.height == height > 0
        },
{
    if let SwEvent::Measured { width, height } = event {
        if let Some((w, h)) = crate::render::extent(width, height) {
            assert(0 < w * 4 <= w * 4 * h) by (nonlinear_arith)
                requires
                    w > 0,
                    h > 0,
            ;
        }
    }
}

/// The loop after a run of events.
pub open spec fn run(v: SwView, events: Seq<SwEvent>) -> SwView
    decreases events.len(),
{
    if events.len() == 0 {
        v
    } else {
        run(v, events.drop_last()).stepped(events.last()).0
    }
}

/// Whether every event of a run is what the loop waits for when it comes.
pub open spec fn awaited(v: SwView, events: Seq<SwEvent>) -> bool
    decreases events.len(),
{
    events.len() > 0 ==> {
        &&& awaited(v, events.drop_last())
        &&& run(v, events.drop_last()).awaits(events.last())
    }
}

/// How many wake-ups a run holds.
pub open spec fn wakeups(events: Seq<SwEvent>) -> nat
    decreases events.len(),
{
    if events.len() == 0 {
        0
    } else if events.last() == SwEvent::Command(Some(RenderCommand::Wakeup)) {
        wakeups(events.drop_last()) + 1
    } else {
        wakeups(events.drop_last())
    }
}

/// How many frames a run hands on.
pub open spec fn deliveries(v: SwView, events: Seq<SwEvent>) -> nat
    decreases events.len(),
{
    if events.len() == 0 {
        0
    } else if run(v, events.drop_last()).stepped(events.last()).1 is Deliver {
        deliveries(v, events.drop_last()) + 1
    } else {
        deliveries(v, events.drop_last())
    }
}

/// No frame without a wake-up: a loop that starts by waiting for its context hands on at
/// most one frame for each wake-up.
pub proof fn one_frame_per_wakeup(v: SwView, events: Seq<SwEvent>)
    requires
        v.phase is Context,
        awaited(v, events),
    ensures
        deliveries(v, events) <= wakeups(events),
        run(v, events).phase is Context ==> deliveries(v, events) == 0,
        (run(v, events).phase is Update || run(v, events).phase is Size || run(
            v,
            events,
        ).phase is Drawing) ==> deliveries(v, events) < wakeups(events),
    decreases events.len(),
{
    if events.len() > 0 {
        one_frame_per_wakeup(v, events.drop_last());
    }
}

/// How often a run frees mpv's render context.
pub open spec fn freed(v: SwView, events: Seq<SwEvent>) -> nat
    decreases events.len(),
{
    if events.len() == 0 {
        0
    } else if run(v, events.drop_last()).stepped(events.last()).1 is Stop {
        freed(v, events.drop_last()) + 1
    } else {
        freed(v, events.drop_last())
    }
}

/// How many render contexts mpv made in a run.
pub open spec fn contexts(events: Seq<SwEvent>) -> nat
    decreases events.len(),
{
    if events.len() == 0 {
        0
    } else if events.last() == SwEvent::Created(0) {
        contexts(events.drop_last()) + 1
    } else {
        contexts(events.drop_last())
    }
}

/// mpv's render context is freed once where there is one, and not at all where there is
/// none: over every run of a new loop, a loop that has ended has freed what was made, and
/// one that goes on has freed nothing and has at most one.
pub proof fn context_is_freed_once(v: SwView, events: Seq<SwEvent>)
    requires
        v.phase is Context,
        awaited(v, events),
    ensures
        run(v, events).phase is Nothing ==> freed(v, events) == contexts(events) <= 1,
        run(v, events).phase is Context ==> freed(v, events) == 0 && contexts(events) == 0,
        !(run(v, events).phase is Nothing || run(v, events).phase is Context) ==> freed(v, events)
            == 0 && contexts(events) == 1,
    decreases events.len(),
{
    if events.len() > 0 {
        context_is_freed_once(v, events.drop_last());
    }
}

/// Every pixel takes four bytes.
pub proof fn pixels_take_four_bytes(width: int, height: int)
    ensures
        frame_bytes(width, height) == 4 * (width * height),
{
    assert(width * 4 * height == 4 * (width * height)) by (nonlinear_arith);
}

/// Another length keeps the bytes that fit, at their places, and adds zeros.
pub proof fn resizing_keeps_bytes(bytes: Seq<u8>, len: nat, i: int)
    requires
        0 <= i < len,
    ensures
        resized(bytes, len).len() == len,
        i < bytes.len() ==> resized(bytes, len)[i] == bytes[i],
        i >= bytes.len() ==> resized(bytes, len)[i] == 0,
{
}

/// The way of a frame: a wake-up has mpv asked for an update, an announced frame has its size
/// asked for, and a frame of positive size is drawn in just that size, with four bytes to the
/// pixel, and handed on where mpv drew it. Pixels of a frame of the same size are not touched;
/// for another size, those that fit stay and the others are zero.
pub proof fn due_frame_is_delivered(
    v: SwView,
    flags: u64,
    width: i64,
    height: i64,
    w: i32,
    h: i32,
    code: i32,
    i: int,
)
    requires
        v.phase is Command,
        flags & v.frame_flag != 0,
        is_reported(Some(width), w),
        is_reported(Some(height), h),
        4 * (w * h) <= i32::MAX,
    ensures
        ({
            let (v1, a1) = v.stepped(SwEvent::Command(Some(RenderCommand::Wakeup)));
            let (v2, a2) = v1.stepped(SwEvent::Updated(flags));
            let measured = SwEvent::Measured { width: Some(width), height: Some(height) };
            let (v3, a3) = v2.stepped(measured);
            let (v4, a4) = v3.stepped(SwEvent::Drawn(code));
            &&& a1 == SwAction::PollUpdate && v1.phase is Update
            &&& a2 == SwAction::ReadDimensions && v2.phase is Size
            &&& v2.awaits(measured)
            &&& a3 matches SwAction::Draw { width: dw, height: dh, stride } && dw == w && dh == h
                && stride == 4 * w
            &&& v3.phase is Drawing
            &&& v3.width == w && v3.height == h
            &&& w == v.width && h == v.height ==> v3.pixels == v.pixels
            &&& !(w == v.width && h == v.height) ==> v3.pixels.len() == 4 * (w * h)
            &&& 0 <= i < v3.pixels.len() && i < v.pixels.len() ==> v3.pixels[i] == v.pixels[i]
            &&& v.pixels.len() <= i < v3.pixels.len() ==> v3.pixels[i] == 0
            &&& a4 == if code == 0 {
                SwAction::Deliver
            } else {
                SwAction::AwaitCommand
            }
            &&& v4.phase is Command
            &&& v4.pixels == v3.pixels
            &&& v4.width == w && v4.height == h
            &&& v4.frame_flag == v.frame_flag
        }),
{
    crate::render::frame_has_reported_size(width, height, w, h);
    pixels_take_four_bytes(w as int, h as int);
    assert(0 < 4 * w <= 4 * (w * h)) by (nonlinear_arith)
        requires
            w > 0,
            h > 0,
    ;
}

/// Without an announced frame, or without a positive size, nothing is drawn and nothing
/// changes: the loop waits for the next command.
pub proof fn nothing_due_changes_nothing(
    v: SwView,
    flags: u64,
    width: Option<i64>,
    height: Option<i64>,
)
    requires
        flags & v.frame_flag == 0,
        width is None || height is None || (exists|w: i32|
            w <= 0 && #[trigger] ((width->0 - w) % 0x1_0000_0000) == 0) || (exists|h: i32|
            h <= 0 && #[trigger] ((height->0 - h) % 0x1_0000_0000) == 0),
    ensures
        v.stepped(SwEvent::Updated(flags)) == (
            SwView { phase: SwPhase::Command, ..v },
            SwAction::AwaitCommand,
        ),
        v.stepped(SwEvent::Measured { width, height }) == (
            SwView { phase: SwPhase::Command, ..v },
            SwAction::AwaitCommand,
        ),
{
    if let Some(n) = width {
        crate::render::cut_numbers_keep_their_low_bits(n);
    }
    if let Some(n) = height {
        crate::render::cut_numbers_keep_their_low_bits(n);
    }
}

/// A loop listens where it got its context and quits where it did not; whatever comes instead
/// of a wake-up ends it, and an ended loop waits for nothing.
pub proof fn loop_starts_and_ends(v: SwView, code: i32, command: Option<RenderCommand>)
    requires
        command != Some(RenderCommand::Wakeup),
    ensures
        code == 0 ==> v.stepped(SwEvent::Created(code)) == (
            SwView { phase: SwPhase::Command, ..v },
            SwAction::Listen,
        ),
        code != 0 ==> v.stepped(SwEvent::Created(code)) == (
            SwView { phase: SwPhase::Nothing, ..v },
            SwAction::Quit,
        ),
        v.stepped(SwEvent::Command(command)) == (
            SwView { phase: SwPhase::Nothing, ..v },
            SwAction::Stop,
        ),
        forall|event: SwEvent| !#[trigger] v.stepped(SwEvent::Command(command)).0.awaits(event),
{
}

/// A frame can be counted exactly where its bytes, four to the pixel, fit 31 bits.
pub proof fn countable_frames_fit(w: i32, h: i32)
    ensures
        countable(Some((w, h))) <==> 4 * (w * h) <= 0x7fff_ffff,
        countable(None),
{
    pixels_take_four_bytes(w as int, h as int);
}

/// A new loop has no memory, waits for its context, and knows the bit that it was told.
pub proof fn new_loop_waits_for_its_context(frame_flag: u64)
    ensures
        SwView::fresh(frame_flag).pixels.len() == 0,
        SwView::fresh(frame_flag).width == 0,
        SwView::fresh(frame_flag).height == 0,
        SwView::fresh(frame_flag).phase is Context,
        SwView::fresh(frame_flag).frame_flag == frame_flag,
{
}

} // verus!
