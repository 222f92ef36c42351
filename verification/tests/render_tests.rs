use shader_smoke::compiler::ShaderCompiler;
use shader_smoke::diag::{gl_call_ok, gl_error_name};
use shader_smoke::render::{wrap_time_ms, App, Event, EventAction, Phase, Position};

#[test]
fn new_app_defaults() {
    let app = App::new();
    assert_eq!(app.phase, Phase::Created);
    assert_eq!(app.vert_shader_name, 0);
    assert_eq!(app.frag_shader_name, 0);
    assert_eq!(app.program_name, 0);
    assert_eq!(app.array_buffer_name, 0);
    assert_eq!(app.element_buffer_name, 0);
    assert_eq!(app.vertex_array_name, 0);
    assert_eq!(app.vertex_count, 4);
    assert_eq!(app.element_count, 6);
    assert_eq!(app.mouse_pos, Position { x: 0, y: 0 });
}

#[test]
fn init_gl_loads_exactly_once() {
    let mut app = App::new();
    assert!(app.init_gl());
    assert_eq!(app.phase, Phase::GlLoaded);
    assert!(!app.init_gl());
    assert_eq!(app.phase, Phase::GlLoaded);
}

#[test]
fn time_wraps_into_one_period() {
    assert_eq!(wrap_time_ms(0), 0);
    assert_eq!(wrap_time_ms(9999), 9999);
    assert_eq!(wrap_time_ms(10000), 0);
    assert_eq!(wrap_time_ms(12345), 2345);
    assert_eq!(wrap_time_ms(123456), 3456);
}

#[test]
fn cursor_move_flips_y_to_bottom_left_origin() {
    let mut app = App::new();
    let action = app.handle_event(Event::CursorMove(100, 40), 768);
    assert_eq!(action, EventAction::NoAction);
    assert_eq!(app.mouse_pos, Position { x: 100, y: 728 });
}

#[test]
fn other_events_are_ignored() {
    let mut app = App::new();
    let before = app.mouse_pos;
    let action = app.handle_event(Event::Other, 600);
    assert_eq!(action, EventAction::NoAction);
    assert_eq!(app.mouse_pos, before);
}

#[test]
fn resize_updates_viewport_and_next_resolution() {
    let mut app = App::new();
    let action = app.handle_event(Event::Resize(1024, 768), 600);
    assert_eq!(action, EventAction::SetViewport(1024, 768));
    let uniforms = app.frame_uniforms(1024, 768, 0);
    assert_eq!(uniforms.resolution_x, 1024);
    assert_eq!(uniforms.resolution_y, 768);
}

#[test]
fn frame_uniforms_take_current_state() {
    let mut app = App::new();
    app.handle_event(Event::CursorMove(10, 20), 100);
    let uniforms = app.frame_uniforms(800, 600, 12345);
    assert_eq!(uniforms.resolution_x, 800);
    assert_eq!(uniforms.resolution_y, 600);
    assert_eq!(uniforms.mouse_x, 10);
    assert_eq!(uniforms.mouse_y, 80);
    assert_eq!(uniforms.time_ms, 2345);
}

#[test]
fn successful_initialization_reaches_running() {
    let mut app = App::new();
    assert!(app.init_gl());

    let mut compiler = ShaderCompiler::new();
    let vert = compiler.create(2, "vert.glsl");
    let frag = compiler.create(3, "frag.glsl");
    assert!(compiler.check(&vec![1, 1]));
    assert!(compiler.check_program(5, 1));

    app.set_program(vert, frag, 5, 0, 1, 2);
    app.set_buffers(7, 8);
    app.set_vertex_array(9);
    app.complete_init(true);
    assert_eq!(app.phase, Phase::Initialized);
    assert!(app.u_time_location >= 0);
    assert!(app.u_resolution >= 0);

    assert!(app.start());
    assert_eq!(app.phase, Phase::Running);
    assert!(app.after_frame(true, false));
    assert_eq!(app.phase, Phase::Running);
    assert!(!app.after_frame(true, true));
    assert_eq!(app.phase, Phase::Closed);
}

#[test]
fn failed_initialization_never_starts_the_loop() {
    let mut app = App::new();
    assert!(app.init_gl());

    let mut compiler = ShaderCompiler::new();
    let vert = compiler.create(2, "vert.glsl");
    let frag = compiler.create(3, "frag.glsl");
    let compiled = compiler.check(&vec![1, 0]);
    assert!(!compiled);

    app.set_program(vert, frag, 5, 0, 1, 2);
    app.complete_init(compiled);
    assert_eq!(app.phase, Phase::Failed);
    assert!(!app.start());
    assert_eq!(app.phase, Phase::Failed);
}

#[test]
fn failed_frame_stops_the_loop() {
    let mut app = App::new();
    assert!(app.init_gl());
    app.complete_init(true);
    assert!(app.start());
    assert!(!app.after_frame(false, false));
    assert_eq!(app.phase, Phase::Failed);
}

#[test]
fn quad_geometry_is_fixed() {
    let app = App::new();
    assert_eq!(app.quad_element_data(), vec![0, 1, 2, 0, 2, 3]);
    assert_eq!(app.array_buffer_size(), 32);
    assert_eq!(app.element_buffer_size(), 24);
}

#[test]
fn gl_error_codes_are_classified() {
    assert!(gl_call_ok(0));
    assert!(!gl_call_ok(0x0500));
    assert_eq!(gl_error_name(0x0500), "GL_INVALID_ENUM");
    assert_eq!(gl_error_name(0x0501), "GL_INVALID_VALUE");
    assert_eq!(gl_error_name(0x0502), "GL_INVALID_OPERATION");
    assert_eq!(gl_error_name(0x0506), "INVALID_FRAMEBUFFER_OPERATION");
    assert_eq!(gl_error_name(0x0505), "OUT_OF_MEMORY");
    assert_eq!(gl_error_name(0x1234), "UNKNOWN");
}
