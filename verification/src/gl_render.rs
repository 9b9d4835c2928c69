//! The loop that draws mpv's frames into textures.
//!
//! The loop waits for commands, asks mpv whether a frame is due and how large it is, keeps
//! a texture of that size and has mpv draw into it. It decides what to do; the render
//! thread does it and reports what came of it.

use crate::render::{frame_extent, frame_is_due, goes_on, is_reported, MpvBuffer, RenderCommand};
use vstd::prelude::*;

verus! {

/// A texture with the framebuffer through which it is drawn into. Both are names that GL
/// gave.
#[derive(Debug, Clone, Copy, PartialEq, Eq, Structural)]
pub struct GlTexture {
    pub texture: u32,
    pub framebuffer: u32,
}

/// Where a frame is drawn. Texture and framebuffer are names that GL gave.
#[derive(Debug, Clone, Copy, PartialEq, Eq, Structural)]
pub struct GlTarget {
    pub texture: u32,
    pub framebuffer: u32,
    pub width: i32,
    pub height: i32,
}

/// What a loop waits for.
#[derive(Debug, Clone, Copy, PartialEq, Eq, Structural)]
pub enum GlPhase {
    /// The next command.
    Command,
    /// mpv's word on whether a frame is due.
    Update,
    /// mpv's word on how large it is.
    Size,
    /// A texture of this size, with its framebuffer.
    Texture { width: i32, height: i32 },
    /// The end of mpv's drawing.
    Drawing(GlTarget),
    /// Nothing any more.
    Nothing,
}

/// What came of the last action.
#[derive(Debug, Clone, Copy, PartialEq, Eq, Structural)]
pub enum GlEvent {
    /// A command came; `None` where no more can come.
    Command(Option<RenderCommand>),
    /// mpv reported these flags; `None` where it failed to.
    Updated(Option<u64>),
    /// mpv reported these dimensions; `None` where one is not known.
    Measured { width: Option<i64>, height: Option<i64> },
    /// GL made this texture with this framebuffer.
    Allocated { texture: u32, framebuffer: u32 },
    /// mpv drew, or failed to.
    Drawn(bool),
}

/// What the render thread has to do.
#[derive(Debug, Clone, Copy, PartialEq, Eq, Structural)]
pub enum GlAction {
    /// Wait for a command.
    AwaitCommand,
    /// Ask mpv for an update.
    PollUpdate,
    /// Ask mpv for the dimensions of the video.
    ReadDimensions,
    /// Delete the texture that is given, if any, with its framebuffer, and make new ones
    /// of this size.
    Allocate { stale: Option<GlTexture>, width: i32, height: i32 },
    /// Have mpv draw here.
    Draw(GlTarget),
    /// Hand on this frame, announce it, and wait for a command.
    Deliver(MpvBuffer),
    /// Free mpv's render context, delete the texture that is given, if any, with its
    /// framebuffer, and end.
    Stop { leftover: Option<GlTexture> },
}

/// A loop as mathematics.
#[verifier::ext_equal]
pub struct GlView {
    /// The texture that the loop owns, with its framebuffer.
    pub pool: Option<GlTexture>,
    /// The size of that texture, or of the last one.
    pub width: i32,
    pub height: i32,
    /// What the loop waits for.
    pub phase: GlPhase,
    /// The bit by which mpv announces a frame.
    pub frame_flag: u64,
}

impl GlView {
    /// While mpv draws, it draws into the texture that the loop owns; while a texture is
    /// made, and at the end, the loop owns none.
    pub open spec fn wf(self) -> bool {
        match self.phase {
            GlPhase::Drawing(t) => {
                &&& self.pool == Some(GlTexture { texture: t.texture, framebuffer: t.framebuffer })
                &&& self.width == t.width
                &&& self.height == t.height
                &&& t.width > 0
                &&& t.height > 0
            },
            GlPhase::Texture { width, height } => {
                &&& self.pool is None
                &&& width > 0
                &&& height > 0
            },
            GlPhase::Nothing => self.pool is None,
            _ => true,
        }
    }

    /// A loop that owns nothing and waits for its first command.
    pub open spec fn fresh(frame_flag: u64) -> GlView {
        GlView { pool: None, width: 0, height: 0, phase: GlPhase::Command, frame_flag }
    }

    /// Whether an event is what the loop waits for.
    pub open spec fn awaits(self, event: GlEvent) -> bool {
        match event {
            GlEvent::Command(_) => self.phase is Command,
            GlEvent::Updated(_) => self.phase is Update,
            GlEvent::Measured { .. } => self.phase is Size,
            GlEvent::Allocated { .. } => self.phase is Texture,
            GlEvent::Drawn(_) => self.phase is Drawing,
        }
    }

    /// The loop once it waits for something else.
    pub open spec fn waiting_for(self, phase: GlPhase) -> GlView {
        GlView { phase, ..self }
    }

    /// The loop and what is to be done after an event.
    pub open spec fn stepped(self, event: GlEvent) -> (GlView, GlAction) {
        match event {
            GlEvent::Command(command) => if command == Some(RenderCommand::Wakeup) {
                (self.waiting_for(GlPhase::Update), GlAction::PollUpdate)
            } else {
                (
                    GlView { pool: None, phase: GlPhase::Nothing, ..self },
                    GlAction::Stop { leftover: self.pool },
                )
            },
            GlEvent::Updated(flags) => if crate::render::due(flags, self.frame_flag) {
                (self.waiting_for(GlPhase::Size), GlAction::ReadDimensions)
            } else {
                (self.waiting_for(GlPhase::Command), GlAction::AwaitCommand)
            },
            GlEvent::Measured { width, height } => match crate::render::extent(width, height) {
                None => (self.waiting_for(GlPhase::Command), GlAction::AwaitCommand),
                Some((w, h)) => match self.pool {
                    Some(GlTexture { texture, framebuffer }) if w == self.width && h == self.height => {
                        let target = GlTarget { texture, framebuffer, width: w, height: h };
                        (self.waiting_for(GlPhase::Drawing(target)), GlAction::Draw(target))
                    },
                    _ => (
                        GlView {
                            pool: None,
                            phase: GlPhase::Texture { width: w, height: h },
                            ..self
                        },
                        GlAction::Allocate { stale: self.pool, width: w, height: h },
                    ),
                },
            },
            GlEvent::Allocated { texture, framebuffer } => match self.phase {
                GlPhase::Texture { width, height } => {
                    let target = GlTarget { texture, framebuffer, width, height };
                    (
                        GlView {
                            pool: Some(GlTexture { texture, framebuffer }),
                            width,
                            height,
                            phase: GlPhase::Drawing(target),
                            ..self
                        },
                        GlAction::Draw(target),
                    )
                },
                _ => (self, GlAction::AwaitCommand),
            },
            GlEvent::Drawn(succeeded) => match self.phase {
                GlPhase::Drawing(t) if succeeded => (
                    self.waiting_for(GlPhase::Command),
                    GlAction::Deliver(
                        MpvBuffer { texture_id: t.texture, width: t.width, height: t.height },
                    ),
                ),
                _ => (self.waiting_for(GlPhase::Command), GlAction::AwaitCommand),
            },
        }
    }
}

/// The loop that draws mpv's frames into textures.
pub struct GlRenderLoop {
    pool: Option<GlTexture>,
    current_width: i32,
    current_height: i32,
    phase: GlPhase,
    frame_flag: u64,
}

impl View for GlRenderLoop {
    type V = GlView;

    closed spec fn view(&self) -> GlView {
        GlView {
            pool: self.pool,
            width: self.current_width,
            height: self.current_height,
            phase: self.phase,
            frame_flag: self.frame_flag,
        }
    }
}

impl GlRenderLoop {
    /// A loop that waits for its first command. `frame_flag` is the bit by which mpv
    /// announces a frame.
    pub fn new(frame_flag: u64) -> (r: Self)
        ensures
            r@ == GlView::fresh(frame_flag),
            r@.wf(),
    {
        GlRenderLoop {
            pool: None,
            current_width: 0,
            current_height: 0,
            phase: GlPhase::Command,
            frame_flag,
        }
    }

    /// Takes what came of the last action and says what to do next.
    pub fn step(&mut self, event: GlEvent) -> (r: GlAction)
        requires
            old(self)@.wf(),
            old(self)@.awaits(event),
        ensures
            (final(self)@, r) == old(self)@.stepped(event),
            final(self)@.wf(),
    {
        match event {
            GlEvent::Command(command) => {
                if goes_on(command) {
                    self.phase = GlPhase::Update;
                    return GlAction::PollUpdate;
                }
                let leftover: Option<GlTexture> = self.pool;
                self.pool = None;
                self.phase = GlPhase::Nothing;
                GlAction::Stop { leftover }
            },
            GlEvent::Updated(flags) => {
                if frame_is_due(flags, self.frame_flag) {
                    self.phase = GlPhase::Size;
                    GlAction::ReadDimensions
                } else {
                    self.phase = GlPhase::Command;
                    GlAction::AwaitCommand
                }
            },
            GlEvent::Measured { width, height } => match frame_extent(width, height) {
                Some((w, h)) => self.target_for(w, h),
                None => {
                    self.phase = GlPhase::Command;
                    GlAction::AwaitCommand
                },
            },
            GlEvent::Allocated { texture, framebuffer } => {
                if let GlPhase::Texture { width, height } = self.phase {
                    self.pool = Some(GlTexture { texture, framebuffer });
                    self.current_width = width;
                    self.current_height = height;
                    return self.draw(GlTarget { texture, framebuffer, width, height });
                }
                GlAction::AwaitCommand
            },
            GlEvent::Drawn(succeeded) => {
                let drawing: GlPhase = self.phase;
                self.phase = GlPhase::Command;
                match drawing {
                    GlPhase::Drawing(t) if succeeded => GlAction::Deliver(
                        MpvBuffer { texture_id: t.texture, width: t.width, height: t.height },
                    ),
                    _ => GlAction::AwaitCommand,
                }
            },
        }
    }

    /// Has a frame drawn.
    fn draw(&mut self, target: GlTarget) -> (r: GlAction)
        ensures
            final(self)@ == old(self)@.waiting_for(GlPhase::Drawing(target)),
            r == GlAction::Draw(target),
    {
        self.phase = GlPhase::Drawing(target);
        GlAction::Draw(target)
    }

    /// Sees to it that there is a texture of a frame's size.
    fn target_for(&mut self, width: i32, height: i32) -> (r: GlAction)
        requires
            width > 0,
            height > 0,
        ensures
            match old(self)@.pool {
                Some(GlTexture { texture, framebuffer }) if width == old(self)@.width && height == old(
                    self,
                )@.height => {
                    let target = GlTarget { texture, framebuffer, width, height };
                    &&& final(self)@ == old(self)@.waiting_for(GlPhase::Drawing(target))
                    &&& r == GlAction::Draw(target)
                },
                _ => {
                    &&& final(self)@ == (GlView {
                        pool: None,
                        phase: GlPhase::Texture { width, height },
                        ..old(self)@
                    })
                    &&& r == GlAction::Allocate { stale: old(self)@.pool, width, height }
                },
            },
    {
        if width == self.current_width && height == self.current_height {
            if let Some(GlTexture { texture, framebuffer }) = self.pool {
                return self.draw(GlTarget { texture, framebuffer, width, height });
            }
        }
        let stale: Option<GlTexture> = self.pool;
        self.pool = None;
        self.phase = GlPhase::Texture { width, height };
        GlAction::Allocate { stale, width, height }
    }
}

/// The loop after a run of events.
pub open spec fn run(v: GlView, events: Seq<GlEvent>) -> GlView
    decreases events.len(),
{
    if events.len() == 0 {
        v
    } else {
        run(v, events.drop_last()).stepped(events.last()).0
    }
}

/// Whether every event of a run is what the loop waits for when it comes.
pub open spec fn awaited(v: GlView, events: Seq<GlEvent>) -> bool
    decreases events.len(),
{
    events.len() > 0 ==> {
        &&& awaited(v, events.drop_last())
        &&& run(v, events.drop_last()).awaits(events.last())
    }
}

/// One texture with its framebuffer, or none, as a sequence.
pub open spec fn listed(entry: Option<GlTexture>) -> Seq<GlTexture> {
    match entry {
        Some(e) => seq![e],
        None => Seq::empty(),
    }
}

/// What a run makes, in order.
pub open spec fn made(events: Seq<GlEvent>) -> Seq<GlTexture>
    decreases events.len(),
{
    if events.len() == 0 {
        Seq::empty()
    } else {
        match events.last() {
            GlEvent::Allocated { texture, framebuffer } => made(events.drop_last()).push(
                GlTexture { texture, framebuffer },
            ),
            _ => made(events.drop_last()),
        }
    }
}

/// What an action deletes.
pub open spec fn deleted_by(action: GlAction) -> Seq<GlTexture> {
    match action {
        GlAction::Allocate { stale, .. } => listed(stale),
        GlAction::Stop { leftover } => listed(leftover),
        _ => Seq::empty(),
    }
}

/// What a run deletes, in order.
pub open spec fn deleted(v: GlView, events: Seq<GlEvent>) -> Seq<GlTexture>
    decreases events.len(),
{
    if events.len() == 0 {
        Seq::empty()
    } else {
        deleted(v, events.drop_last()) + deleted_by(
            run(v, events.drop_last()).stepped(events.last()).1,
        )
    }
}

/// No texture leaks and none is deleted twice: over every run, what was deleted, followed by
/// what the loop still owns, is what it owned at first, followed by what was made. A loop
/// that has ended owns nothing.
pub proof fn textures_are_deleted_once(v: GlView, events: Seq<GlEvent>)
    requires
        v.wf(),
        awaited(v, events),
    ensures
        run(v, events).wf(),
        deleted(v, events) + listed(run(v, events).pool) == listed(v.pool) + made(events),
        run(v, events).phase is Nothing ==> deleted(v, events) == listed(v.pool) + made(events),
    decreases events.len(),
{
    if events.len() > 0 {
        textures_are_deleted_once(v, events.drop_last());
    }
    assert(deleted(v, events) + listed(run(v, events).pool) =~= listed(v.pool) + made(events));
}

/// A frame that is handed on lies in a texture that the loop owns and goes on owning, and
/// has that texture's size.
pub proof fn delivered_frames_are_owned(v: GlView, event: GlEvent)
    requires
        v.wf(),
        v.awaits(event),
    ensures
        v.stepped(event).1 matches GlAction::Deliver(frame) ==> {
            &&& v.pool matches Some(owned) && owned.texture == frame.texture_id
            &&& v.stepped(event).0.pool == v.pool
            &&& frame.width == v.width > 0
            &&& frame.height == v.height > 0
        },
{
}

/// How many wake-ups a run holds.
pub open spec fn wakeups(events: Seq<GlEvent>) -> nat
    decreases events.len(),
{
    if events.len() == 0 {
        0
    } else if events.last() == GlEvent::Command(Some(RenderCommand::Wakeup)) {
        wakeups(events.drop_last()) + 1
    } else {
        wakeups(events.drop_last())
    }
}

/// How many frames a run hands on.
pub open spec fn deliveries(v: GlView, events: Seq<GlEvent>) -> nat
    decreases events.len(),
{
    if events.len() == 0 {
        0
    } else if run(v, events.drop_last()).stepped(events.last()).1 is Deliver {
        deliveries(v, events.drop_last()) + 1
    } else {
        deliveries(v, events.drop_last())
    }
}

/// No frame without a wake-up: a loop that starts by waiting for a command hands on at most
/// one frame for each wake-up.
pub proof fn one_frame_per_wakeup(v: GlView, events: Seq<GlEvent>)
    requires
        v.phase is Command,
        awaited(v, events),
    ensures
        deliveries(v, events) <= wakeups(events),
        !(run(v, events).phase is Command || run(v, events).phase is Nothing) ==> deliveries(
            v,
            events,
        ) < wakeups(events),
    decreases events.len(),
{
    if events.len() > 0 {
        one_frame_per_wakeup(v, events.drop_last());
    }
}

/// A frame of the size of the one before needs no new texture.
pub proof fn same_size_keeps_texture(v: GlView, width: Option<i64>, height: Option<i64>)
    requires
        v.pool is Some,
        crate::render::extent(width, height) == Some((v.width, v.height)),
    ensures
        v.stepped(GlEvent::Measured { width, height }).1 is Draw,
        v.stepped(GlEvent::Measured { width, height }).0.pool == v.pool,
{
}

/// The size of the texture that a run had made last.
pub open spec fn last_allocated(v: GlView, events: Seq<GlEvent>) -> Option<(i32, i32)>
    decreases events.len(),
{
    if events.len() == 0 {
        None
    } else {
        match run(v, events.drop_last()).stepped(events.last()).1 {
            GlAction::Allocate { width, height, .. } => Some((width, height)),
            _ => last_allocated(v, events.drop_last()),
        }
    }
}

/// The texture that GL made last in a run.
pub open spec fn last_made(events: Seq<GlEvent>) -> Option<GlTexture>
    decreases events.len(),
{
    if events.len() == 0 {
        None
    } else {
        match events.last() {
            GlEvent::Allocated { texture, framebuffer } => Some(GlTexture { texture, framebuffer }),
            _ => last_made(events.drop_last()),
        }
    }
}

/// The dimensions that mpv reported last in a run.
pub open spec fn last_measured(events: Seq<GlEvent>) -> Option<(Option<i64>, Option<i64>)>
    decreases events.len(),
{
    if events.len() == 0 {
        None
    } else {
        match events.last() {
            GlEvent::Measured { width, height } => Some((width, height)),
            _ => last_measured(events.drop_last()),
        }
    }
}

/// Where mpv was told to draw last in a run.
pub open spec fn last_drawn(v: GlView, events: Seq<GlEvent>) -> Option<GlTarget>
    decreases events.len(),
{
    if events.len() == 0 {
        None
    } else {
        match run(v, events.drop_last()).stepped(events.last()).1 {
            GlAction::Draw(target) => Some(target),
            _ => last_drawn(v, events.drop_last()),
        }
    }
}

/// What a new loop owns is what was made last, in the size that was asked for last; what is
/// being made has the size that was asked for last and measured last; and what is being drawn
/// goes where mpv was told last, in the size measured last.
proof fn loop_keeps_track(frame_flag: u64, events: Seq<GlEvent>)
    requires
        awaited(GlView::fresh(frame_flag), events),
    ensures
        ({
            let v = GlView::fresh(frame_flag);
            let w = run(v, events);
            &&& w.wf()
            &&& w.frame_flag == frame_flag
            &&& w.pool is Some ==> last_made(events) == w.pool && last_allocated(v, events) == Some(
                (w.width, w.height),
            )
            &&& w.phase matches GlPhase::Texture { width, height } ==> {
                &&& last_allocated(v, events) == Some((width, height))
                &&& last_measured(events) matches Some((mw, mh)) && is_reported(mw, width)
                    && is_reported(mh, height)
            }
            &&& w.phase matches GlPhase::Drawing(t) ==> {
                &&& last_drawn(v, events) == Some(t)
                &&& last_measured(events) matches Some((mw, mh)) && is_reported(mw, t.width)
                    && is_reported(mh, t.height)
            }
        }),
    decreases events.len(),
{
    if events.len() > 0 {
        loop_keeps_track(frame_flag, events.drop_last());
        if let GlEvent::Measured { width, height } = events.last() {
            if let Some(n) = width {
                crate::render::cut_numbers_keep_their_low_bits(n);
            }
            if let Some(n) = height {
                crate::render::cut_numbers_keep_their_low_bits(n);
            }
        }
    }
}

/// mpv draws only into a texture that was made for the frame: over every run of a new loop,
/// where mpv is told to draw, the texture is the one that GL made last, it was asked for with
/// just the size of the frame, and the frame has the size that mpv reported last.
pub proof fn drawing_fits_the_texture(frame_flag: u64, events: Seq<GlEvent>, event: GlEvent)
    requires
        awaited(GlView::fresh(frame_flag), events),
        run(GlView::fresh(frame_flag), events).awaits(event),
    ensures
        ({
            let v = GlView::fresh(frame_flag);
            run(v, events).stepped(event).1 matches GlAction::Draw(t) ==> {
                &&& last_allocated(v, events) == Some((t.width, t.height))
                &&& last_made(events.push(event)) == Some(
                    GlTexture { texture: t.texture, framebuffer: t.framebuffer },
                )
                &&& last_measured(events.push(event)) matches Some((mw, mh)) && is_reported(
                    mw,
                    t.width,
                ) && is_reported(mh, t.height)
            }
        }),
{
    let longer = events.push(event);
    assert(longer.drop_last() =~= events);
    loop_keeps_track(frame_flag, events);
    loop_keeps_track(frame_flag, longer);
}

/// The frame that is handed on is the one that mpv was told to draw last, in its texture and
/// its size, and only where mpv drew it.
pub proof fn delivered_frame_was_drawn(frame_flag: u64, events: Seq<GlEvent>, event: GlEvent)
    requires
        awaited(GlView::fresh(frame_flag), events),
        run(GlView::fresh(frame_flag), events).awaits(event),
    ensures
        ({
            let v = GlView::fresh(frame_flag);
            run(v, events).stepped(event).1 matches GlAction::Deliver(frame) ==> {
                &&& event == GlEvent::Drawn(true)
                &&& last_drawn(v, events) matches Some(t) && frame.texture_id == t.texture
                    && frame.width == t.width && frame.height == t.height
            }
        }),
{
    loop_keeps_track(frame_flag, events);
}

/// A frame of another size than that of the texture owned, in either dimension, larger or
/// smaller, has that texture replaced by one of its own size.
pub proof fn another_size_replaces_the_texture(
    v: GlView,
    owned: GlTexture,
    width: i64,
    height: i64,
    w: i32,
    h: i32,
)
    requires
        v.pool == Some(owned),
        is_reported(Some(width), w),
        is_reported(Some(height), h),
        w != v.width || h != v.height,
    ensures
        ({
            let (after, action) = v.stepped(
                GlEvent::Measured { width: Some(width), height: Some(height) },
            );
            &&& action == (GlAction::Allocate { stale: Some(owned), width: w, height: h })
            &&& after.pool is None
            &&& after.phase == (GlPhase::Texture { width: w, height: h })
        }),
{
    crate::render::frame_has_reported_size(width, height, w, h);
}

/// The way of a frame: a wake-up has mpv asked for an update, an announced frame has its size
/// asked for, a frame of positive size has a texture made unless the one owned has its size,
/// is drawn, and is handed on where mpv drew it. No frame that is due is passed over.
pub proof fn due_frame_is_delivered(
    v: GlView,
    flags: u64,
    width: i64,
    height: i64,
    w: i32,
    h: i32,
    made: GlTexture,
    drawn: bool,
)
    requires
        v.phase is Command,
        flags & v.frame_flag != 0,
        is_reported(Some(width), w),
        is_reported(Some(height), h),
    ensures
        ({
            let (v1, a1) = v.stepped(GlEvent::Command(Some(RenderCommand::Wakeup)));
            let (v2, a2) = v1.stepped(GlEvent::Updated(Some(flags)));
            let (v3, a3) = v2.stepped(
                GlEvent::Measured { width: Some(width), height: Some(height) },
            );
            let fits = v.pool is Some && v.width == w && v.height == h;
            let (v4, a4) = if fits {
                (v3, a3)
            } else {
                v3.stepped(
                    GlEvent::Allocated { texture: made.texture, framebuffer: made.framebuffer },
                )
            };
            let used = if fits {
                v.pool->0
            } else {
                made
            };
            let (v5, a5) = v4.stepped(GlEvent::Drawn(drawn));
            &&& a1 == GlAction::PollUpdate && v1.phase is Update
            &&& a2 == GlAction::ReadDimensions && v2.phase is Size
            &&& !fits ==> a3 == (GlAction::Allocate { stale: v.pool, width: w, height: h })
            &&& a4 == GlAction::Draw(
                GlTarget {
                    texture: used.texture,
                    framebuffer: used.framebuffer,
                    width: w,
                    height: h,
                },
            )
            &&& drawn ==> a5 == GlAction::Deliver(
                MpvBuffer { texture_id: used.texture, width: w, height: h },
            )
            &&& !drawn ==> a5 == GlAction::AwaitCommand
            &&& v5.phase is Command
            &&& v5.pool == Some(used)
            &&& v5.width == w && v5.height == h
            &&& v5.frame_flag == v.frame_flag
        }),
{
    crate::render::frame_has_reported_size(width, height, w, h);
}

/// Without an announced frame, or without a positive size, nothing is drawn and nothing
/// changes: the loop waits for the next command.
pub proof fn nothing_due_changes_nothing(
    v: GlView,
    flags: u64,
    width: Option<i64>,
    height: Option<i64>,
)
    requires
        flags & v.frame_flag == 0,
        width is None || height is None || (exists|w: i32|
            w <= 0 && #[trigger] ((width->0 - w) % 0x1_0000_0000) == 0) || (exists|h: i32|
            h <= 0 && #[trigger] ((height->0 - h) % 0x1_0000_0000) == 0),
    ensures
        v.stepped(GlEvent::Updated(Some(flags))) == (
            GlView { phase: GlPhase::Command, ..v },
            GlAction::AwaitCommand,
        ),
        v.stepped(GlEvent::Updated(None)) == (
            GlView { phase: GlPhase::Command, ..v },
            GlAction::AwaitCommand,
        ),
        v.stepped(GlEvent::Measured { width, height }) == (
            GlView { phase: GlPhase::Command, ..v },
            GlAction::AwaitCommand,
        ),
{
    if let Some(n) = width {
        crate::render::cut_numbers_keep_their_low_bits(n);
    }
    if let Some(n) = height {
        crate::render::cut_numbers_keep_their_low_bits(n);
    }
}

/// Whatever comes instead of a wake-up ends the loop, which hands out what it owns.
pub proof fn only_wakeups_go_on(v: GlView, command: Option<RenderCommand>)
    requires
        command != Some(RenderCommand::Wakeup),
    ensures
        v.stepped(GlEvent::Command(command)).1 == (GlAction::Stop { leftover: v.pool }),
        v.stepped(GlEvent::Command(command)).0.pool is None,
        v.stepped(GlEvent::Command(command)).0.phase is Nothing,
        forall|event: GlEvent| !#[trigger] v.stepped(GlEvent::Command(command)).0.awaits(event),
{
}

} // verus!
