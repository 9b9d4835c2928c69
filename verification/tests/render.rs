use servo_media_mpv::gl_render::{GlAction, GlEvent, GlRenderLoop, GlTarget, GlTexture};
use servo_media_mpv::gl_setup::{
    cleanup_steps, config_attributes, context_attributes, next_setup_step, surface_attributes,
    CleanupStep, GlFunctions, GlLoader, GlLookup, SetupStep,
};
use servo_media_mpv::render::{
    choose_render_path, frame_extent, frame_is_due, goes_on, render_use_gl, GlContext, MpvBuffer,
    NativeDisplay, RenderCommand, RenderHandle, RenderPath, SwBuffer, VideoFrameData,
};
use servo_media_mpv::sw_render::{frame_is_countable, SwAction, SwEvent, SwRenderLoop};
use std::sync::Arc;

#[test]
fn only_egl_renders_into_textures() {
    assert_eq!(
        choose_render_path(NativeDisplay::Egl(7), GlContext::Egl(8)),
        RenderPath::Gl { display: 7, context: 8 }
    );
    for display in [
        NativeDisplay::X11(1), NativeDisplay::Wayland(1), NativeDisplay::Headless,
        NativeDisplay::Unknown,
    ] {
        assert_eq!(choose_render_path(display, GlContext::Egl(8)), RenderPath::Software);
    }
    for context in [GlContext::Glx(1), GlContext::Unknown] {
        assert_eq!(choose_render_path(NativeDisplay::Egl(7), context), RenderPath::Software);
    }
}

#[test]
fn a_thread_that_could_not_be_started_renders_nothing() {
    let gl = RenderPath::Gl { display: 1, context: 2 };
    let sw = RenderPath::Software;
    assert_eq!(gl.thread_name(), "MpvRenderGL");
    assert_eq!(sw.thread_name(), "MpvRenderSw");
    assert!(gl.handle('c', Some(1)).is_gl);
    assert!(!gl.handle::<char, i32>('c', None).is_gl);
    assert!(!sw.handle('c', Some(1)).is_gl);
    let handle = gl.handle('c', Some(1));
    assert_eq!((handle.shutdown_tx, handle.thread), ('c', Some(1)));
    assert!(render_use_gl(&Some(handle)));
    assert!(!render_use_gl(&Some(sw.handle('c', Some(1)))));
    assert!(!render_use_gl::<char, i32>(&None));
    let given: RenderHandle<(), ()> = RenderHandle { shutdown_tx: (), thread: None, is_gl: true };
    assert!(render_use_gl(&Some(given)));
}

#[test]
fn only_a_wakeup_keeps_a_thread_going() {
    assert!(goes_on(Some(RenderCommand::Wakeup)));
    assert!(!goes_on(Some(RenderCommand::Shutdown)));
    assert!(!goes_on(None));
}

#[test]
fn a_frame_is_due_by_its_bit() {
    assert!(frame_is_due(Some(1), 1));
    assert!(frame_is_due(Some(7), 4));
    assert!(!frame_is_due(Some(2), 1));
    assert!(!frame_is_due(Some(0), 1));
    assert!(!frame_is_due(None, 1));
}

#[test]
fn frames_have_positive_32_bit_dimensions() {
    assert_eq!(frame_extent(Some(640), Some(480)), Some((640, 480)));
    assert_eq!(frame_extent(Some(0x1_0000_0002), Some(3)), Some((2, 3)));
    assert_eq!(frame_extent(Some(i32::MAX as i64), Some(1)), Some((i32::MAX, 1)));
    assert_eq!(frame_extent(Some(i32::MAX as i64 + 1), Some(1)), None);
    assert_eq!(frame_extent(Some(0), Some(1)), None);
    assert_eq!(frame_extent(Some(1), Some(-1)), None);
    assert_eq!(frame_extent(None, Some(1)), None);
    assert_eq!(frame_extent(Some(1), None), None);
    assert_eq!(frame_extent(Some(i64::MIN + 5), Some(1)), Some((5, 1)));
}

#[test]
fn buffers_hand_out_their_contents() {
    match (MpvBuffer { texture_id: 9, width: 1, height: 2 }).to_vec() {
        Some(VideoFrameData::Texture(id)) => assert_eq!(id, 9),
        _ => panic!("no texture"),
    }
    let pixels = Arc::new(vec![1u8, 2, 3, 4]);
    match (SwBuffer { data: pixels.clone(), width: 1, height: 1 }).to_vec() {
        Some(VideoFrameData::Raw(data)) => assert!(Arc::ptr_eq(&data, &pixels)),
        _ => panic!("no pixels"),
    }
}

#[test]
fn setup_goes_step_by_step() {
    let mut step = SetupStep::LoadLibrary;
    let mut seen = vec![step];
    while step != SetupStep::RunLoop {
        step = next_setup_step(step, true).unwrap();
        seen.push(step);
    }
    assert_eq!(
        seen,
        vec![
            SetupStep::LoadLibrary, SetupStep::LoadApi, SetupStep::GetDisplay,
            SetupStep::InitializeDisplay, SetupStep::ChooseConfig, SetupStep::BindGles,
            SetupStep::CreateContext, SetupStep::CreateSurface, SetupStep::MakeCurrent,
            SetupStep::LoadFunctions, SetupStep::CreateRenderContext,
            SetupStep::SetUpdateCallback, SetupStep::RunLoop,
        ]
    );
    for failed in seen {
        let replaced = if failed == SetupStep::BindGles { Some(SetupStep::BindGl) } else { None };
        assert_eq!(next_setup_step(failed, false), replaced);
    }
    assert_eq!(next_setup_step(SetupStep::BindGl, true), Some(SetupStep::CreateContext));
    assert_eq!(next_setup_step(SetupStep::BindGl, false), None);
}

#[test]
fn the_render_context_goes_before_the_gl_context() {
    assert_eq!(
        cleanup_steps(),
        vec![
            CleanupStep::FreeRenderContext, CleanupStep::DeleteTexture,
            CleanupStep::ReleaseCurrent, CleanupStep::DestroySurface,
            CleanupStep::DestroyContext, CleanupStep::TerminateDisplay,
        ]
    );
}

#[test]
fn egl_is_asked_in_its_own_numbers() {
    assert_eq!(
        config_attributes(),
        vec![
            0x3033, 1, 0x3040, 1, 0x3024, 8, 0x3023, 8, 0x3022, 8, 0x3021, 8, 0x3038,
        ]
    );
    assert_eq!(context_attributes(), vec![0x3098, 2, 0x30FB, 0, 0x3038]);
    assert_eq!(surface_attributes(), vec![0x3057, 1, 0x3056, 1, 0x3038]);
    assert_eq!(config_attributes()[0], khronos_egl::SURFACE_TYPE);
    assert_eq!(config_attributes()[12], khronos_egl::NONE);
}

#[test]
fn gl_functions_are_looked_up_in_order() {
    let (mut loader, first) = GlLoader::new();
    let mut names = vec![first];
    let mut found = None;
    for address in 101..=109 {
        match loader.supply(Some(address)) {
            GlLookup::Next(name) => names.push(name),
            GlLookup::Complete(functions) => found = Some(functions),
            GlLookup::Missing(name) => panic!("missing {}", name),
        }
    }
    assert_eq!(
        names,
        vec![
            "glGenFramebuffers", "glDeleteFramebuffers", "glBindFramebuffer",
            "glFramebufferTexture2D", "glGenTextures", "glDeleteTextures", "glBindTexture",
            "glTexImage2D", "glViewport",
        ]
    );
    assert_eq!(
        found,
        Some(GlFunctions {
            gl_gen_framebuffers: 101,
            gl_delete_framebuffers: 102,
            gl_bind_framebuffer: 103,
            gl_framebuffer_texture_2d: 104,
            gl_gen_textures: 105,
            gl_delete_textures: 106,
            gl_bind_texture: 107,
            gl_tex_image_2d: 108,
            gl_viewport: 109,
        })
    );
}

#[test]
fn a_missing_gl_function_ends_the_lookup() {
    let (mut loader, _) = GlLoader::new();
    loader.supply(Some(1));
    loader.supply(Some(2));
    assert_eq!(loader.supply(None), GlLookup::Missing("glBindFramebuffer"));
    let (mut other, _) = GlLoader::new();
    assert_eq!(other.supply(None), GlLookup::Missing("glGenFramebuffers"));
}

const WAKEUP: GlEvent = GlEvent::Command(Some(RenderCommand::Wakeup));

fn measured(width: i64, height: i64) -> GlEvent {
    GlEvent::Measured { width: Some(width), height: Some(height) }
}

/// Takes a loop that waits for a command to the point where the size is asked for.
fn to_size(gl: &mut GlRenderLoop) {
    assert_eq!(gl.step(WAKEUP), GlAction::PollUpdate);
    assert_eq!(gl.step(GlEvent::Updated(Some(1))), GlAction::ReadDimensions);
}

#[test]
fn gl_frames_of_one_size_share_a_texture() {
    let mut gl = GlRenderLoop::new(1);
    to_size(&mut gl);
    assert_eq!(
        gl.step(measured(4, 3)),
        GlAction::Allocate { stale: None, width: 4, height: 3 }
    );
    let target = GlTarget { texture: 11, framebuffer: 12, width: 4, height: 3 };
    assert_eq!(
        gl.step(GlEvent::Allocated { texture: 11, framebuffer: 12 }),
        GlAction::Draw(target)
    );
    let frame = MpvBuffer { texture_id: 11, width: 4, height: 3 };
    assert_eq!(gl.step(GlEvent::Drawn(true)), GlAction::Deliver(frame));
    to_size(&mut gl);
    assert_eq!(gl.step(measured(4, 3)), GlAction::Draw(target));
    assert_eq!(gl.step(GlEvent::Drawn(true)), GlAction::Deliver(frame));
    assert_eq!(
        gl.step(GlEvent::Command(Some(RenderCommand::Shutdown))),
        GlAction::Stop { leftover: Some(GlTexture { texture: 11, framebuffer: 12 }) }
    );
}

#[test]
fn gl_frames_of_another_size_replace_the_texture() {
    let mut gl = GlRenderLoop::new(1);
    to_size(&mut gl);
    gl.step(measured(4, 3));
    gl.step(GlEvent::Allocated { texture: 11, framebuffer: 12 });
    gl.step(GlEvent::Drawn(true));
    to_size(&mut gl);
    assert_eq!(
        gl.step(measured(4, 5)),
        GlAction::Allocate {
            stale: Some(GlTexture { texture: 11, framebuffer: 12 }),
            width: 4,
            height: 5,
        }
    );
    gl.step(GlEvent::Allocated { texture: 21, framebuffer: 22 });
    assert_eq!(gl.step(GlEvent::Drawn(false)), GlAction::AwaitCommand);
    assert_eq!(
        gl.step(GlEvent::Command(None)),
        GlAction::Stop { leftover: Some(GlTexture { texture: 21, framebuffer: 22 }) }
    );
}

#[test]
fn gl_loops_draw_only_what_is_due() {
    let mut gl = GlRenderLoop::new(1);
    gl.step(WAKEUP);
    assert_eq!(gl.step(GlEvent::Updated(None)), GlAction::AwaitCommand);
    gl.step(WAKEUP);
    assert_eq!(gl.step(GlEvent::Updated(Some(2))), GlAction::AwaitCommand);
    to_size(&mut gl);
    assert_eq!(gl.step(measured(0, 5)), GlAction::AwaitCommand);
    to_size(&mut gl);
    assert_eq!(
        gl.step(GlEvent::Measured { width: None, height: None }),
        GlAction::AwaitCommand
    );
    assert_eq!(
        gl.step(GlEvent::Command(Some(RenderCommand::Shutdown))),
        GlAction::Stop { leftover: None }
    );
}

#[test]
fn gl_wakeups_bound_frames() {
    let mut gl = GlRenderLoop::new(1);
    let mut frames = 0;
    for i in 0..10 {
        to_size(&mut gl);
        let mut action = gl.step(measured(1 + i / 3, 2));
        if let GlAction::Allocate { .. } = action {
            action = gl.step(GlEvent::Allocated { texture: i as u32, framebuffer: i as u32 });
        }
        assert!(matches!(action, GlAction::Draw(_)));
        if let GlAction::Deliver(_) = gl.step(GlEvent::Drawn(i % 2 == 0)) {
            frames += 1;
        }
    }
    assert_eq!(frames, 5);
}

fn sw_loop() -> SwRenderLoop {
    let mut sw = SwRenderLoop::new(1);
    assert_eq!(sw.step(SwEvent::Created(0)), SwAction::Listen);
    sw
}

fn sw_measured(sw: &mut SwRenderLoop, width: i64, height: i64) -> SwAction {
    let wakeup = SwEvent::Command(Some(RenderCommand::Wakeup));
    assert_eq!(sw.step(wakeup), SwAction::PollUpdate);
    assert_eq!(sw.step(SwEvent::Updated(1)), SwAction::ReadDimensions);
    sw.step(SwEvent::Measured { width: Some(width), height: Some(height) })
}

#[test]
fn without_a_context_the_software_loop_ends() {
    let mut sw = SwRenderLoop::new(1);
    assert_eq!(sw.step(SwEvent::Created(-18)), SwAction::Quit);
    assert_eq!(sw.pixel_format(), "bgra");
}

#[test]
fn software_frames_are_copies_of_the_pixels() {
    let mut sw = sw_loop();
    assert_eq!(
        sw_measured(&mut sw, 2, 3),
        SwAction::Draw { width: 2, height: 3, stride: 8 }
    );
    assert_eq!(sw.pixels_mut().len(), 24);
    assert!(sw.pixels_mut().iter().all(|&b| b == 0));
    for (i, byte) in sw.pixels_mut().iter_mut().enumerate() {
        *byte = i as u8;
    }
    assert_eq!(sw.step(SwEvent::Drawn(0)), SwAction::Deliver);
    let frame = sw.frame();
    sw.pixels_mut()[0] = 99;
    assert_eq!((frame.width, frame.height), (2, 3));
    assert_eq!(*frame.data, (0..24).collect::<Vec<u8>>());
}

#[test]
fn software_memory_follows_the_size() {
    let mut sw = sw_loop();
    sw_measured(&mut sw, 1, 2);
    sw.pixels_mut().copy_from_slice(&[1, 2, 3, 4, 5, 6, 7, 8]);
    assert_eq!(sw.step(SwEvent::Drawn(-1)), SwAction::AwaitCommand);
    sw_measured(&mut sw, 1, 2);
    assert_eq!(sw.pixels_mut().to_vec(), vec![1, 2, 3, 4, 5, 6, 7, 8]);
    sw.step(SwEvent::Drawn(0));
    sw_measured(&mut sw, 3, 1);
    assert_eq!(sw.pixels_mut().to_vec(), vec![1, 2, 3, 4, 5, 6, 7, 8, 0, 0, 0, 0]);
    sw.step(SwEvent::Drawn(0));
    sw_measured(&mut sw, 1, 1);
    assert_eq!(sw.pixels_mut().to_vec(), vec![1, 2, 3, 4]);
    sw.step(SwEvent::Drawn(0));
    assert_eq!(sw.step(SwEvent::Command(Some(RenderCommand::Shutdown))), SwAction::Stop);
}

#[test]
fn software_loops_draw_only_what_is_due() {
    let mut sw = sw_loop();
    let wakeup = SwEvent::Command(Some(RenderCommand::Wakeup));
    assert_eq!(sw.step(wakeup), SwAction::PollUpdate);
    assert_eq!(sw.step(SwEvent::Updated(2)), SwAction::AwaitCommand);
    assert_eq!(sw_measured(&mut sw, -1, 4), SwAction::AwaitCommand);
    assert_eq!(sw.step(SwEvent::Command(None)), SwAction::Stop);
}

#[test]
fn frames_beyond_32_bits_are_not_countable() {
    assert!(frame_is_countable(Some(1920), Some(1080)));
    assert!(frame_is_countable(None, Some(1080)));
    assert!(frame_is_countable(Some(-5), Some(1080)));
    assert!(frame_is_countable(Some(0x1fff_ffff), Some(1)));
    assert!(!frame_is_countable(Some(0x2000_0000), Some(1)));
    assert!(!frame_is_countable(Some(i32::MAX as i64), Some(i32::MAX as i64)));
}
