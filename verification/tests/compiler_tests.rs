use shader_smoke::compiler::{info_log_wanted, source_or_fallback, ShaderCompiler};

#[test]
fn check_all_compiled_succeeds() {
    let mut compiler = ShaderCompiler::new();
    compiler.create(7, "vert.glsl");
    compiler.create(9, "frag.glsl");
    let statuses: Vec<i32> = vec![1, 1];
    assert!(compiler.check(&statuses));
}

#[test]
fn check_single_failure_fails_sweep() {
    let mut compiler = ShaderCompiler::new();
    compiler.create(7, "vert.glsl");
    compiler.create(9, "frag.glsl");
    assert!(!compiler.check(&vec![1, 0]));
    assert!(!compiler.check(&vec![0, 1]));
    assert!(!compiler.check(&vec![0, 0]));
}

#[test]
fn check_with_nothing_pending_succeeds() {
    let compiler = ShaderCompiler::new();
    let statuses: Vec<i32> = vec![];
    assert!(compiler.check(&statuses));
}

#[test]
fn info_log_fetched_only_on_failure_with_positive_length() {
    assert!(info_log_wanted(0, 5));
    assert!(!info_log_wanted(0, 0));
    assert!(!info_log_wanted(1, 5));
    assert!(!info_log_wanted(1, 0));
}

#[test]
fn check_program_zero_handle_short_circuits() {
    let compiler = ShaderCompiler::new();
    assert!(!compiler.status_query_needed(0));
    assert!(!compiler.check_program(0, 1));
    assert!(!compiler.check_program(0, 0));
}

#[test]
fn check_program_follows_link_status() {
    let compiler = ShaderCompiler::new();
    assert!(compiler.status_query_needed(3));
    assert!(compiler.check_program(3, 1));
    assert!(!compiler.check_program(3, 0));
}

#[test]
fn create_registers_pending_shaders() {
    let mut compiler = ShaderCompiler::new();
    assert_eq!(compiler.num_pending(), 0);
    let first = compiler.create(11, "vert.glsl");
    assert_eq!(first, 11);
    assert_eq!(compiler.num_pending(), 1);
    let second = compiler.create(12, "frag.glsl");
    assert_eq!(second, 12);
    assert_eq!(compiler.num_pending(), 2);
    assert_eq!(compiler.handle_at(0), 11);
    assert_eq!(compiler.path_at(0), "vert.glsl");
    assert_eq!(compiler.handle_at(1), 12);
    assert_eq!(compiler.path_at(1), "frag.glsl");
}

#[test]
fn readable_source_is_passed_through() {
    let text = String::from("void main() {}");
    let source = source_or_fallback("vert.glsl", Some(text.clone()));
    assert_eq!(source, text);
}

#[test]
fn unreadable_source_becomes_sentinel() {
    let source = source_or_fallback("missing.glsl", None);
    assert_eq!(source, "File missing.glsl not found");
}
