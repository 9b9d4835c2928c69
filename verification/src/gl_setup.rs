//! Getting a render thread ready to draw with GL: the steps and what a failure of each
//! means, the attributes that EGL is asked for, and the GL functions that are looked up.

use vstd::prelude::*;

verus! {

/// A step on the way to a GL render loop.
#[derive(Debug, Clone, Copy, PartialEq, Eq, Structural)]
pub enum SetupStep {
    /// Load the EGL library.
    LoadLibrary,
    /// Find EGL's functions in it.
    LoadApi,
    /// Get the embedder's display.
    GetDisplay,
    /// Initialize EGL on that display.
    InitializeDisplay,
    /// Choose a frame buffer configuration.
    ChooseConfig,
    /// Bind the OpenGL ES API.
    BindGles,
    /// Bind the OpenGL API instead.
    BindGl,
    /// Create a context that shares the embedder's objects.
    CreateContext,
    /// Create an off-screen surface.
    CreateSurface,
    /// Make context and surface current.
    MakeCurrent,
    /// Look up the GL functions.
    LoadFunctions,
    /// Create mpv's render context.
    CreateRenderContext,
    /// Have mpv announce frames.
    SetUpdateCallback,
    /// Everything is there: run the loop.
    RunLoop,
}

/// The step after one that succeeded.
pub open spec fn step_after(step: SetupStep) -> SetupStep {
    match step {
        SetupStep::LoadLibrary => SetupStep::LoadApi,
        SetupStep::LoadApi => SetupStep::GetDisplay,
        SetupStep::GetDisplay => SetupStep::InitializeDisplay,
        SetupStep::InitializeDisplay => SetupStep::ChooseConfig,
        SetupStep::ChooseConfig => SetupStep::BindGles,
        SetupStep::BindGles => SetupStep::CreateContext,
        SetupStep::BindGl => SetupStep::CreateContext,
        SetupStep::CreateContext => SetupStep::CreateSurface,
        SetupStep::CreateSurface => SetupStep::MakeCurrent,
        SetupStep::MakeCurrent => SetupStep::LoadFunctions,
        SetupStep::LoadFunctions => SetupStep::CreateRenderContext,
        SetupStep::CreateRenderContext => SetupStep::SetUpdateCallback,
        SetupStep::SetUpdateCallback => SetupStep::RunLoop,
        SetupStep::RunLoop => SetupStep::RunLoop,
    }
}

/// The step after one that failed: only OpenGL ES can be replaced, by OpenGL; any other
/// failure ends the thread.
pub open spec fn step_after_failure(step: SetupStep) -> Option<SetupStep> {
    match step {
        SetupStep::BindGles => Some(SetupStep::BindGl),
        _ => None,
    }
}

/// The step after another, by what came of it; `None` ends the thread.
pub fn next_setup_step(step: SetupStep, succeeded: bool) -> (r: Option<SetupStep>)
    ensures
        r == if succeeded {
            Some(step_after(step))
        } else {
            step_after_failure(step)
        },
{
    if !succeeded {
        return match step {
            SetupStep::BindGles => Some(SetupStep::BindGl),
            _ => None,
        };
    }
    Some(
        match step {
            SetupStep::LoadLibrary => SetupStep::LoadApi,
            SetupStep::LoadApi => SetupStep::GetDisplay,
            SetupStep::GetDisplay => SetupStep::InitializeDisplay,
            SetupStep::InitializeDisplay => SetupStep::ChooseConfig,
            SetupStep::ChooseConfig => SetupStep::BindGles,
            SetupStep::BindGles => SetupStep::CreateContext,
            SetupStep::BindGl => SetupStep::CreateContext,
            SetupStep::CreateContext => SetupStep::CreateSurface,
            SetupStep::CreateSurface => SetupStep::MakeCurrent,
            SetupStep::MakeCurrent => SetupStep::LoadFunctions,
            SetupStep::LoadFunctions => SetupStep::CreateRenderContext,
            SetupStep::CreateRenderContext => SetupStep::SetUpdateCallback,
            SetupStep::SetUpdateCallback => SetupStep::RunLoop,
            SetupStep::RunLoop => SetupStep::RunLoop,
        },
    )
}

/// How many steps a setup takes at most.
pub open spec fn setup_length() -> nat {
    13
}

/// Where a setup stands after `n` steps, `works` telling which steps succeed; `None` once
/// the thread has ended.
pub open spec fn setup_reaches(works: spec_fn(SetupStep) -> bool, n: nat) -> Option<SetupStep>
    decreases n,
{
    if n == 0 {
        Some(SetupStep::LoadLibrary)
    } else {
        match setup_reaches(works, (n - 1) as nat) {
            Some(SetupStep::RunLoop) => Some(SetupStep::RunLoop),
            Some(step) => if works(step) {
                Some(step_after(step))
            } else {
                step_after_failure(step)
            },
            None => None,
        }
    }
}

/// The render loop runs exactly where every step succeeds, of OpenGL ES and OpenGL either
/// being enough; otherwise the thread ends.
pub proof fn setup_outcome(works: spec_fn(SetupStep) -> bool)
    ensures
        setup_reaches(works, setup_length()) == if (forall|s: SetupStep|
            s != SetupStep::BindGles && s != SetupStep::BindGl && s != SetupStep::RunLoop
                ==> #[trigger] works(s)) && (works(SetupStep::BindGles) || works(
            SetupStep::BindGl,
        )) {
            Some(SetupStep::RunLoop)
        } else {
            None
        },
{
    reveal_with_fuel(setup_reaches, 14);
}

/// A step on the way out of a GL render thread.
#[derive(Debug, Clone, Copy, PartialEq, Eq, Structural)]
pub enum CleanupStep {
    /// Free mpv's render context.
    FreeRenderContext,
    /// Delete the texture that is left over.
    DeleteTexture,
    /// Make no context current any more.
    ReleaseCurrent,
    /// Destroy the off-screen surface.
    DestroySurface,
    /// Destroy the context.
    DestroyContext,
    /// Terminate EGL on the display.
    TerminateDisplay,
}

/// The steps on the way out of a thread whose loop has run, in order: mpv's render context
/// goes while the GL context that it draws with is still there.
pub fn cleanup_steps() -> (r: Vec<CleanupStep>)
    ensures
        r@ == seq![
            CleanupStep::FreeRenderContext,
            CleanupStep::DeleteTexture,
            CleanupStep::ReleaseCurrent,
            CleanupStep::DestroySurface,
            CleanupStep::DestroyContext,
            CleanupStep::TerminateDisplay,
        ],
{
    vec![
        CleanupStep::FreeRenderContext,
        CleanupStep::DeleteTexture,
        CleanupStep::ReleaseCurrent,
        CleanupStep::DestroySurface,
        CleanupStep::DestroyContext,
        CleanupStep::TerminateDisplay,
    ]
}

/// The numbers by which EGL knows what it is asked for.
#[derive(Debug, Clone, Copy, PartialEq, Eq, Structural)]
pub struct EglKeys {
    pub surface_type: i32,
    pub pbuffer_bit: i32,
    pub renderable_type: i32,
    pub opengl_es_bit: i32,
    pub red_size: i32,
    pub green_size: i32,
    pub blue_size: i32,
    pub alpha_size: i32,
    pub context_major_version: i32,
    pub context_minor_version: i32,
    pub width: i32,
    pub height: i32,
    pub none: i32,
}

/// The constants `SURFACE_TYPE`, `PBUFFER_BIT`, `RENDERABLE_TYPE`, `OPENGL_ES_BIT`,
/// `RED_SIZE`, `GREEN_SIZE`, `BLUE_SIZE`, `ALPHA_SIZE`, `CONTEXT_MAJOR_VERSION`,
/// `CONTEXT_MINOR_VERSION`, `WIDTH`, `HEIGHT` and `NONE` of `khronos_egl`. Their values,
/// those of the EGL registry, are taken on trust.
#[verifier::external_body]
fn egl_keys() -> (r: EglKeys)
    ensures
        r == (EglKeys {
            surface_type: 0x3033,
            pbuffer_bit: 0x0001,
            renderable_type: 0x3040,
            opengl_es_bit: 0x0001,
            red_size: 0x3024,
            green_size: 0x3023,
            blue_size: 0x3022,
            alpha_size: 0x3021,
            context_major_version: 0x3098,
            context_minor_version: 0x30FB,
            width: 0x3057,
            height: 0x3056,
            none: 0x3038,
        }),
{
    EglKeys {
        surface_type: khronos_egl::SURFACE_TYPE,
        pbuffer_bit: khronos_egl::PBUFFER_BIT,
        renderable_type: khronos_egl::RENDERABLE_TYPE,
        opengl_es_bit: khronos_egl::OPENGL_ES_BIT,
        red_size: khronos_egl::RED_SIZE,
        green_size: khronos_egl::GREEN_SIZE,
        blue_size: khronos_egl::BLUE_SIZE,
        alpha_size: khronos_egl::ALPHA_SIZE,
        context_major_version: khronos_egl::CONTEXT_MAJOR_VERSION,
        context_minor_version: khronos_egl::CONTEXT_MINOR_VERSION,
        width: khronos_egl::WIDTH,
        height: khronos_egl::HEIGHT,
        none: khronos_egl::NONE,
    }
}

/// The configuration asked for: off-screen surfaces, OpenGL ES, eight bits to each of red,
/// green, blue and alpha.
pub fn config_attributes() -> (r: Vec<i32>)
    ensures
        r@ == seq![
            0x3033i32, 0x0001,
            0x3040, 0x0001,
            0x3024, 8,
            0x3023, 8,
            0x3022, 8,
            0x3021, 8,
            0x3038,
        ],
{
    let keys: EglKeys = egl_keys();
    vec![
        keys.surface_type, keys.pbuffer_bit,
        keys.renderable_type, keys.opengl_es_bit,
        keys.red_size, 8,
        keys.green_size, 8,
        keys.blue_size, 8,
        keys.alpha_size, 8,
        keys.none,
    ]
}

/// The context asked for: version 2.0.
pub fn context_attributes() -> (r: Vec<i32>)
    ensures
        r@ == seq![0x3098i32, 2, 0x30FB, 0, 0x3038],
{
    let keys: EglKeys = egl_keys();
    vec![keys.context_major_version, 2, keys.context_minor_version, 0, keys.none]
}

/// The surface asked for: one pixel, since frames are drawn into textures.
pub fn surface_attributes() -> (r: Vec<i32>)
    ensures
        r@ == seq![0x3057i32, 1, 0x3056, 1, 0x3038],
{
    let keys: EglKeys = egl_keys();
    vec![keys.width, 1, keys.height, 1, keys.none]
}

/// The addresses of the GL functions that the render loop calls.
#[derive(Debug, Clone, Copy, PartialEq, Eq, Structural)]
pub struct GlFunctions {
    pub gl_gen_framebuffers: usize,
    pub gl_delete_framebuffers: usize,
    pub gl_bind_framebuffer: usize,
    pub gl_framebuffer_texture_2d: usize,
    pub gl_gen_textures: usize,
    pub gl_delete_textures: usize,
    pub gl_bind_texture: usize,
    pub gl_tex_image_2d: usize,
    pub gl_viewport: usize,
}

/// How many GL functions are looked up.
pub const GL_FUNCTION_COUNT: usize = 9;

/// The names of the GL functions, in the order in which they are looked up.
pub open spec fn gl_function_name(i: int) -> Seq<char> {
    if i == 0 {
        "glGenFramebuffers"@
    } else if i == 1 {
        "glDeleteFramebuffers"@
    } else if i == 2 {
        "glBindFramebuffer"@
    } else if i == 3 {
        "glFramebufferTexture2D"@
    } else if i == 4 {
        "glGenTextures"@
    } else if i == 5 {
        "glDeleteTextures"@
    } else if i == 6 {
        "glBindTexture"@
    } else if i == 7 {
        "glTexImage2D"@
    } else {
        "glViewport"@
    }
}

/// The functions at the addresses found for their names.
pub open spec fn gl_functions_at(found: Seq<usize>) -> GlFunctions {
    GlFunctions {
        gl_gen_framebuffers: found[0],
        gl_delete_framebuffers: found[1],
        gl_bind_framebuffer: found[2],
        gl_framebuffer_texture_2d: found[3],
        gl_gen_textures: found[4],
        gl_delete_textures: found[5],
        gl_bind_texture: found[6],
        gl_tex_image_2d: found[7],
        gl_viewport: found[8],
    }
}

/// What the lookup of GL functions came to so far.
#[derive(Debug, Clone, Copy, PartialEq, Eq)]
pub enum GlLookup {
    /// Look up the next name.
    Next(&'static str),
    /// All functions were found.
    Complete(GlFunctions),
    /// The function with this name is missing: the thread ends.
    Missing(&'static str),
}

/// What the lookup of GL functions came to so far, as mathematics.
#[verifier::ext_equal]
pub enum GlLookupView {
    Next(Seq<char>),
    Complete(GlFunctions),
    Missing(Seq<char>),
}

impl View for GlLookup {
    type V = GlLookupView;

    open spec fn view(&self) -> GlLookupView {
        match *self {
            GlLookup::Next(name) => GlLookupView::Next(name@),
            GlLookup::Complete(functions) => GlLookupView::Complete(functions),
            GlLookup::Missing(name) => GlLookupView::Missing(name@),
        }
    }
}

/// How a lookup goes on after an address was found for the last name, or was not.
pub open spec fn lookup_after(found: Seq<usize>, address: Option<usize>) -> GlLookupView {
    match address {
        None => GlLookupView::Missing(gl_function_name(found.len() as int)),
        Some(a) => if found.len() + 1 == GL_FUNCTION_COUNT {
            GlLookupView::Complete(gl_functions_at(found.push(a)))
        } else {
            GlLookupView::Next(gl_function_name(found.len() as int + 1))
        },
    }
}

/// A lookup of GL functions under way.
pub struct GlLoader {
    found: Vec<usize>,
}

impl View for GlLoader {
    type V = Seq<usize>;

    /// The addresses found so far.
    closed spec fn view(&self) -> Seq<usize> {
        self.found@
    }
}

/// The name of a GL function by its place in the order of lookups.
fn gl_name(i: usize) -> (r: &'static str)
    requires
        i < GL_FUNCTION_COUNT,
    ensures
        r@ == gl_function_name(i as int),
{
    match i {
        0 => "glGenFramebuffers",
        1 => "glDeleteFramebuffers",
        2 => "glBindFramebuffer",
        3 => "glFramebufferTexture2D",
        4 => "glGenTextures",
        5 => "glDeleteTextures",
        6 => "glBindTexture",
        7 => "glTexImage2D",
        _ => "glViewport",
    }
}

impl GlLoader {
    /// A lookup that has not started, and the first name to look up.
    pub fn new() -> (r: (GlLoader, &'static str))
        ensures
            r.0@ == Seq::<usize>::empty(),
            r.1@ == gl_function_name(0),
    {
        (GlLoader { found: Vec::new() }, gl_name(0))
    }

    /// Takes the address found for the last name, `None` where there is none, and says how
    /// the lookup goes on.
    pub fn supply(&mut self, address: Option<usize>) -> (r: GlLookup)
        requires
            old(self)@.len() < GL_FUNCTION_COUNT,
        ensures
            match address {
                None => {
                    &&& final(self)@ == old(self)@
                    &&& r matches GlLookup::Missing(name) && name@ == gl_function_name(
                        old(self)@.len() as int,
                    )
                },
                Some(a) => {
                    &&& final(self)@ == old(self)@.push(a)
                    &&& if final(self)@.len() == GL_FUNCTION_COUNT {
                        r == GlLookup::Complete(gl_functions_at(final(self)@))
                    } else {
                        r matches GlLookup::Next(name) && name@ == gl_function_name(
                            final(self)@.len() as int,
                        )
                    }
                },
            },
            r@ == lookup_after(old(self)@, address),
    {
        let asked: usize = self.found.len();
        match address {
            None => GlLookup::Missing(gl_name(asked)),
            Some(a) => {
                self.found.push(a);
                if asked + 1 < GL_FUNCTION_COUNT {
                    GlLookup::Next(gl_name(asked + 1))
                } else {
                    GlLookup::Complete(
                        GlFunctions {
                            gl_gen_framebuffers: self.found[0],
                            gl_delete_framebuffers: self.found[1],
                            gl_bind_framebuffer: self.found[2],
                            gl_framebuffer_texture_2d: self.found[3],
                            gl_gen_textures: self.found[4],
                            gl_delete_textures: self.found[5],
                            gl_bind_texture: self.found[6],
                            gl_tex_image_2d: self.found[7],
                            gl_viewport: self.found[8],
                        },
                    )
                }
            },
        }
    }
}

/// Each GL function is called at the address that was found for its own name: read in the order
/// of the lookups, the functions stand at the addresses in the order in which they were found.
pub proof fn functions_stand_where_they_were_found(found: Seq<usize>)
    requires
        found.len() == GL_FUNCTION_COUNT,
    ensures
        ({
            let f = gl_functions_at(found);
            seq![
                f.gl_gen_framebuffers,
                f.gl_delete_framebuffers,
                f.gl_bind_framebuffer,
                f.gl_framebuffer_texture_2d,
                f.gl_gen_textures,
                f.gl_delete_textures,
                f.gl_bind_texture,
                f.gl_tex_image_2d,
                f.gl_viewport,
            ] == found
        }),
{
    let f = gl_functions_at(found);
    assert(seq![
        f.gl_gen_framebuffers,
        f.gl_delete_framebuffers,
        f.gl_bind_framebuffer,
        f.gl_framebuffer_texture_2d,
        f.gl_gen_textures,
        f.gl_delete_textures,
        f.gl_bind_texture,
        f.gl_tex_image_2d,
        f.gl_viewport,
    ] =~= found);
}

/// A lookup ends early exactly where no address was found, whatever address was, and then names
/// the function that was asked for; it is complete exactly with the ninth address, and until
/// then asks for the next name.
pub proof fn lookup_ends_with_all_or_with_a_miss(found: Seq<usize>, address: Option<usize>)
    requires
        found.len() < 9,
    ensures
        lookup_after(found, address) is Missing <==> address is None,
        lookup_after(found, address) matches GlLookupView::Missing(name) ==> name
            == gl_function_name(found.len() as int),
        lookup_after(found, address) is Complete <==> address is Some && found.len() == 8,
        lookup_after(found, address) matches GlLookupView::Complete(functions) ==> functions
            == gl_functions_at(found.push(address->0)),
        lookup_after(found, address) matches GlLookupView::Next(name) ==> name == gl_function_name(
            found.len() as int + 1,
        ),
{
}

} // verus!
