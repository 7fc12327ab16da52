use hello_triangle::config::{clamp_dimension, Extent, SetupError, SurfaceConfiguration};
use hello_triangle::pipeline::RenderPipeline;
use hello_triangle::render_loop::{ClearColor, Directive, FramePlan, Notification, RenderContext};

fn startup(width: u32, height: u32) -> RenderContext {
    let formats: Vec<u32> = vec![7, 3];
    RenderContext::initialize(Extent { width, height }, &formats, 1).unwrap()
}

#[test]
fn clamp_keeps_positive_dimensions() {
    assert_eq!(clamp_dimension(0), 1);
    assert_eq!(clamp_dimension(1), 1);
    assert_eq!(clamp_dimension(800), 800);
    assert_eq!(clamp_dimension(u32::MAX), u32::MAX);
}

#[test]
fn initialize_clamps_and_picks_first_format() {
    let formats: Vec<u32> = vec![42, 9];
    let c = SurfaceConfiguration::initialize(Extent { width: 0, height: 600 }, &formats, 5)
        .unwrap();
    assert_eq!(c.width, 1);
    assert_eq!(c.height, 600);
    assert_eq!(c.format, 42);
    assert_eq!(c.present_mode, 5);
}

#[test]
fn initialize_fails_without_formats() {
    let formats: Vec<u32> = vec![];
    let r = SurfaceConfiguration::initialize(Extent { width: 800, height: 600 }, &formats, 0);
    assert_eq!(r, Err(SetupError::NoSupportedFormat));
    let r = RenderContext::initialize(Extent { width: 800, height: 600 }, &formats, 0);
    assert!(matches!(r, Err(SetupError::NoSupportedFormat)));
}

#[test]
fn pipeline_carries_output_format() {
    let p = RenderPipeline::build(42);
    assert_eq!(p.output_format, 42);
}

#[test]
fn resize_clamps_both_dimensions() {
    let mut ctx = startup(800, 600);
    for (reported, applied) in [
        ((0u32, 0u32), (1u32, 1u32)),
        ((0, 5), (1, 5)),
        ((5, 0), (5, 1)),
        ((320, 200), (320, 200)),
    ] {
        let d = ctx.handle(Notification::Resized(Extent {
            width: reported.0,
            height: reported.1,
        }));
        assert_eq!(ctx.config.width, applied.0);
        assert_eq!(ctx.config.height, applied.1);
        match d {
            Directive::Reconfigure { config, schedule_redraw } => {
                assert_eq!(config, ctx.config);
                assert!(schedule_redraw);
            }
            other => panic!("expected a reconfigure directive, got {:?}", other),
        }
    }
}

#[test]
fn format_survives_any_resizes() {
    let mut ctx = startup(800, 600);
    let initial_format = ctx.config.format;
    let initial_mode = ctx.config.present_mode;
    for (w, h) in [(1u32, 1u32), (0, 0), (4096, 2160), (17, 0), (800, 600)] {
        ctx.handle(Notification::Resized(Extent { width: w, height: h }));
    }
    assert_eq!(ctx.config.format, initial_format);
    assert_eq!(ctx.config.present_mode, initial_mode);
    assert_eq!(ctx.pipeline.output_format, ctx.config.format);
}

#[test]
fn resize_to_current_size_changes_nothing_and_still_redraws() {
    let mut ctx = startup(800, 600);
    let before = ctx.config;
    let d = ctx.handle(Notification::Resized(Extent { width: 800, height: 600 }));
    assert_eq!(ctx.config, before);
    match d {
        Directive::Reconfigure { config, schedule_redraw } => {
            assert_eq!(config, before);
            assert!(schedule_redraw);
        }
        other => panic!("expected a reconfigure directive, got {:?}", other),
    }
}

#[test]
fn startup_at_800_by_600_then_first_frame() {
    let formats: Vec<u32> = vec![7];
    let mut ctx = RenderContext::initialize(Extent { width: 800, height: 600 }, &formats, 0)
        .unwrap();
    assert_eq!(ctx.config.width, 800);
    assert_eq!(ctx.config.height, 600);
    assert_eq!(ctx.config.format, 7);
    let d = ctx.handle(Notification::RedrawRequested);
    let expected = FramePlan {
        width: 800,
        height: 600,
        format: 7,
        clear: ClearColor { r: 0, g: 255, b: 0, a: 255 },
        first_vertex: 0,
        vertex_count: 3,
        first_instance: 0,
        instance_count: 1,
    };
    assert_eq!(d, Directive::Render { pass: expected });
    assert!(ctx.frame_live);
    ctx.frame_presented();
    assert!(!ctx.frame_live);
}

#[test]
fn zero_by_zero_resize_becomes_one_by_one() {
    let mut ctx = startup(800, 600);
    let d = ctx.handle(Notification::Resized(Extent { width: 0, height: 0 }));
    assert_eq!(ctx.config.width, 1);
    assert_eq!(ctx.config.height, 1);
    match d {
        Directive::Reconfigure { config, schedule_redraw } => {
            assert_eq!((config.width, config.height), (1, 1));
            assert!(schedule_redraw);
        }
        other => panic!("expected a reconfigure directive, got {:?}", other),
    }
}

#[test]
fn resize_then_redraw_acquires_at_new_size() {
    let mut ctx = startup(800, 600);
    ctx.handle(Notification::Resized(Extent { width: 1920, height: 1080 }));
    assert_eq!((ctx.config.width, ctx.config.height), (1920, 1080));
    let d = ctx.handle(Notification::RedrawRequested);
    match d {
        Directive::Render { pass } => {
            assert_eq!((pass.width, pass.height), (1920, 1080));
            assert_eq!(pass.format, ctx.config.format);
        }
        other => panic!("expected a render directive, got {:?}", other),
    }
    ctx.frame_presented();
}

#[test]
fn close_while_idle_terminates_cleanly() {
    let mut ctx = startup(800, 600);
    let d = ctx.handle(Notification::CloseRequested);
    assert_eq!(d, Directive::Exit);
    assert!(ctx.exited);
    assert!(!ctx.frame_live);
}

#[test]
fn other_events_are_ignored() {
    let mut ctx = startup(800, 600);
    let before = ctx;
    let d = ctx.handle(Notification::Other);
    assert_eq!(d, Directive::Ignore);
    assert_eq!(ctx, before);
}

#[test]
fn full_session_resize_draw_close() {
    let mut ctx = startup(640, 480);
    let mut frames: u32 = 0;
    let script = [
        Notification::Resized(Extent { width: 1024, height: 768 }),
        Notification::RedrawRequested,
        Notification::Other,
        Notification::Resized(Extent { width: 0, height: 768 }),
        Notification::RedrawRequested,
        Notification::CloseRequested,
    ];
    for n in script {
        if ctx.exited {
            break;
        }
        match ctx.handle(n) {
            Directive::Render { pass } => {
                assert_eq!((pass.width, pass.height), (ctx.config.width, ctx.config.height));
                frames += 1;
                ctx.frame_presented();
            }
            Directive::Reconfigure { config, schedule_redraw } => {
                assert!(config.width >= 1 && config.height >= 1);
                assert!(schedule_redraw);
            }
            Directive::Exit => assert!(ctx.exited),
            Directive::Ignore => {}
        }
        assert!(!ctx.frame_live);
    }
    assert_eq!(frames, 2);
    assert!(ctx.exited);
}
