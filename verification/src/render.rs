//! What the two render paths share: which of them a player takes, the commands that a
//! render thread obeys, when a frame is due and how large it is, and the buffers that
//! carry finished frames.

use std::sync::Arc;
use vstd::prelude::*;

verus! {

/// The display that the embedder renders to. Numbers are addresses.
#[derive(Debug, Clone, Copy, PartialEq, Eq, Structural)]
pub enum NativeDisplay {
    Egl(usize),
    X11(usize),
    Wayland(usize),
    Headless,
    Unknown,
}

/// The embedder's GL context. Numbers are addresses.
#[derive(Debug, Clone, Copy, PartialEq, Eq, Structural)]
pub enum GlContext {
    Egl(usize),
    Glx(usize),
    Unknown,
}

/// How a player renders.
#[derive(Debug, Clone, Copy, PartialEq, Eq, Structural)]
pub enum RenderPath {
    /// Into textures, on a context shared with the embedder's.
    Gl { display: usize, context: usize },
    /// Into memory.
    Software,
}

/// A command to a render thread.
#[derive(Debug, Clone, Copy, PartialEq, Eq, Structural)]
pub enum RenderCommand {
    /// mpv may have a frame.
    Wakeup,
    /// The player goes away.
    Shutdown,
}

/// A player's hold on its render thread: the channel for commands, the thread where it
/// could be started, and whether it renders into textures.
pub struct RenderHandle<C, T> {
    pub shutdown_tx: C,
    pub thread: Option<T>,
    pub is_gl: bool,
}

/// The contents of a video frame.
pub enum VideoFrameData {
    /// Pixels in memory.
    Raw(Arc<Vec<u8>>),
    /// A texture.
    Texture(u32),
}

/// A frame in a texture.
#[derive(Debug, Clone, Copy, PartialEq, Eq, Structural)]
pub struct MpvBuffer {
    pub texture_id: u32,
    pub width: i32,
    pub height: i32,
}

impl MpvBuffer {
    /// The frame's contents: its texture.
    pub fn to_vec(&self) -> (r: Option<VideoFrameData>)
        ensures
            r == Some(VideoFrameData::Texture(self.texture_id)),
    {
        Some(VideoFrameData::Texture(self.texture_id))
    }
}

/// A frame in memory, four bytes (BGRA) to the pixel.
pub struct SwBuffer {
    pub data: Arc<Vec<u8>>,
    pub width: i32,
    pub height: i32,
}

impl SwBuffer {
    /// The frame's contents: its pixels.
    pub fn to_vec(&self) -> (r: Option<VideoFrameData>)
        ensures
            r == Some(VideoFrameData::Raw(self.data)),
    {
        Some(VideoFrameData::Raw(self.data.clone()))
    }
}

/// The path that a display and a context allow: textures where both are EGL's, else memory.
pub open spec fn path_for(display: NativeDisplay, context: GlContext) -> RenderPath {
    match (display, context) {
        (NativeDisplay::Egl(d), GlContext::Egl(c)) => RenderPath::Gl { display: d, context: c },
        _ => RenderPath::Software,
    }
}

/// Chooses how a player renders.
pub fn choose_render_path(display: NativeDisplay, context: GlContext) -> (r: RenderPath)
    ensures
        r == path_for(display, context),
{
    match display {
        NativeDisplay::Egl(d) => match context {
            GlContext::Egl(c) => RenderPath::Gl { display: d, context: c },
            _ => RenderPath::Software,
        },
        _ => RenderPath::Software,
    }
}

impl RenderPath {
    /// The name of the thread that renders on this path.
    pub fn thread_name(&self) -> (r: &'static str)
        ensures
            r@ == match self {
                RenderPath::Gl { .. } => "MpvRenderGL"@,
                RenderPath::Software => "MpvRenderSw"@,
            },
    {
        match self {
            RenderPath::Gl { .. } => "MpvRenderGL",
            RenderPath::Software => "MpvRenderSw",
        }
    }

    /// The handle for a render thread on this path, `None` being one that could not be
    /// started. Only a thread that runs renders into textures.
    pub fn handle<C, T>(&self, shutdown_tx: C, thread: Option<T>) -> (r: RenderHandle<C, T>)
        ensures
            r.shutdown_tx == shutdown_tx,
            r.thread == thread,
            r.is_gl == (self is Gl && thread is Some),
    {
        let is_gl: bool = match self {
            RenderPath::Gl { .. } => thread.is_some(),
            RenderPath::Software => false,
        };
        RenderHandle { shutdown_tx, thread, is_gl }
    }
}

/// Whether a player renders into textures: it holds a render thread and that one does.
pub fn render_use_gl<C, T>(handle: &Option<RenderHandle<C, T>>) -> (r: bool)
    ensures
        r == (handle matches Some(h) && h.is_gl),
{
    match handle {
        Some(h) => h.is_gl,
        None => false,
    }
}

/// Whether a render thread goes on after what it received. `None` is a channel whose other
/// ends are gone.
pub fn goes_on(command: Option<RenderCommand>) -> (r: bool)
    ensures
        r == (command == Some(RenderCommand::Wakeup)),
{
    match command {
        Some(RenderCommand::Wakeup) => true,
        _ => false,
    }
}

/// Whether an update announces a frame: `flags` is what mpv reported, `None` where the
/// update failed, and `frame_flag` the bit that announces a frame.
pub open spec fn due(flags: Option<u64>, frame_flag: u64) -> bool {
    flags matches Some(f) && f & frame_flag != 0
}

/// Whether mpv has a frame to draw.
pub fn frame_is_due(flags: Option<u64>, frame_flag: u64) -> (r: bool)
    ensures
        r == due(flags, frame_flag),
{
    match flags {
        Some(f) => f & frame_flag != 0,
        None => false,
    }
}

/// The 32-bit number that the low bits of a 64-bit number spell, with sign.
pub open spec fn low_i32(n: i64) -> int {
    let low = n as int % 0x1_0000_0000;
    if low < 0x8000_0000 {
        low
    } else {
        low - 0x1_0000_0000
    }
}

/// The low 32 bits of a number are its remainder by 2 to the power of 32.
pub proof fn low_bits_are_remainder(n: i64)
    ensures
        (n as u64) & 0xffff_ffff == n as int % 0x1_0000_0000,
{
    let bits: u64 = n as u64;
    assert(bits & 0xffff_ffff == bits % 0x1_0000_0000) by (bit_vector);
    assert(n >= 0 ==> bits as int == n as int) by (bit_vector)
        requires
            bits == n as u64,
    ;
    assert(n < 0 ==> bits as int == n as int + 0x1_0000_0000_0000_0000) by (bit_vector)
        requires
            bits == n as u64,
    ;
}

/// Cuts a number to 32 bits, with sign.
fn to_i32(n: i64) -> (r: i32)
    ensures
        r == low_i32(n),
{
    proof {
        low_bits_are_remainder(n);
        let bits: u64 = n as u64;
        assert((n as i32) as int == if bits & 0xffff_ffff < 0x8000_0000 {
            (bits & 0xffff_ffff) as int
        } else {
            (bits & 0xffff_ffff) as int - 0x1_0000_0000
        }) by (bit_vector)
            requires
                bits == n as u64,
        ;
    }
    n as i32
}

/// A dimension as mpv reports it: unknown counts as zero, and only the low 32 bits count.
pub open spec fn dimension(reported: Option<i64>) -> int {
    match reported {
        Some(n) => low_i32(n),
        None => 0,
    }
}

/// The size of the frame to draw, where both dimensions are positive.
pub open spec fn extent(width: Option<i64>, height: Option<i64>) -> Option<(i32, i32)> {
    if dimension(width) > 0 && dimension(height) > 0 {
        Some((dimension(width) as i32, dimension(height) as i32))
    } else {
        None
    }
}

/// The size of the frame to draw from the dimensions that mpv reports; `None` where there
/// is nothing to draw.
pub fn frame_extent(width: Option<i64>, height: Option<i64>) -> (r: Option<(i32, i32)>)
    ensures
        r == extent(width, height),
{
    let w: i32 = match width {
        Some(n) => to_i32(n),
        None => 0,
    };
    let h: i32 = match height {
        Some(n) => to_i32(n),
        None => 0,
    };
    if w <= 0 || h <= 0 {
        None
    } else {
        Some((w, h))
    }
}

/// A player renders into textures exactly where display and context are both EGL's, and then on
/// those two.
pub proof fn only_egl_leads_to_textures(
    display: NativeDisplay,
    context: GlContext,
    d: usize,
    c: usize,
)
    ensures
        path_for(display, context) == (RenderPath::Gl { display: d, context: c }) <==> display
            == NativeDisplay::Egl(d) && context == GlContext::Egl(c),
        path_for(display, context) == RenderPath::Software <==> !(display is Egl && context is Egl),
{
}

/// Cutting a number to 32 bits changes it by a multiple of 2 to the power of 32, and leaves it
/// as it is where it fits.
pub proof fn cut_numbers_keep_their_low_bits(n: i64)
    ensures
        i32::MIN <= low_i32(n) <= i32::MAX,
        (low_i32(n) - n) % 0x1_0000_0000 == 0,
        i32::MIN <= n <= i32::MAX ==> low_i32(n) == n,
        dimension(Some(n)) == low_i32(n),
        dimension(None) == 0,
{
}

/// Whether a number is what is left of a reported one in 32 bits, and positive.
pub open spec fn is_reported(reported: Option<i64>, n: i32) -> bool {
    reported matches Some(r) && (r - n) % 0x1_0000_0000 == 0 && n > 0
}

/// A frame has the size that mpv reports: where both dimensions are known, each differs from
/// what is reported by a multiple of 2 to the power of 32, and both are positive.
pub proof fn frame_has_reported_size(width: i64, height: i64, w: i32, h: i32)
    requires
        (width - w) % 0x1_0000_0000 == 0,
        (height - h) % 0x1_0000_0000 == 0,
    ensures
        extent(Some(width), Some(height)) == if w > 0 && h > 0 {
            Some((w, h))
        } else {
            None
        },
{
}

/// Where a dimension is not known there is nothing to draw.
pub proof fn unknown_size_draws_nothing(known: Option<i64>)
    ensures
        extent(None, known) is None,
        extent(known, None) is None,
{
}

/// A frame is due by its own bit alone: it is where that bit is set, whatever the others are,
/// and it is not where the bit is missing or the update failed.
pub proof fn frame_is_due_by_its_bit(flags: u64, frame_flag: u64)
    requires
        frame_flag != 0,
    ensures
        due(Some(flags | frame_flag), frame_flag),
        !due(Some(flags & !frame_flag), frame_flag),
        !due(None, frame_flag),
{
    assert((flags | frame_flag) & frame_flag == frame_flag) by (bit_vector);
    assert((flags & !frame_flag) & frame_flag == 0) by (bit_vector);
}

} // verus!
