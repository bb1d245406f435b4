use glwrap::{BufferRange, GlError, ShaderProgram, UniformBuffer};

fn program(id: u32, blocks: &[&str]) -> ShaderProgram {
    ShaderProgram::new(id, blocks.iter().map(|b| b.to_string()).collect())
}

#[test]
fn new_resolves_block_in_every_program() {
    let a = program(3, &["Lights", "Camera"]);
    let b = program(4, &["Camera"]);
    let ubo = UniformBuffer::new(vec![&a, &b], "Camera", 128).unwrap();
    assert_eq!(ubo.get_id(), 0);
    assert_eq!(ubo.get_name(), "Camera");
    assert_eq!(ubo.get_size(), 128);
}

#[test]
fn new_fails_on_first_program_without_block() {
    let a = program(3, &["Camera"]);
    let b = program(4, &["Lights"]);
    let c = program(5, &[]);
    let r = UniformBuffer::new(vec![&a, &b, &c], "Camera", 64);
    assert_eq!(r.err(), Some(GlError::UniformBlockNotFound(4)));
}

#[test]
fn new_with_no_programs_succeeds() {
    let ubo = UniformBuffer::new(Vec::new(), "Camera", 16).unwrap();
    assert_eq!(ubo.get_size(), 16);
}

#[test]
fn register_shader_program_checks_block_name() {
    let ubo = UniformBuffer::new(Vec::new(), "Camera", 16).unwrap();
    assert_eq!(ubo.register_shader_program(&program(1, &["Camera"])), Ok(()));
    assert_eq!(
        ubo.register_shader_program(&program(2, &["camera"])),
        Err(GlError::UniformBlockNotFound(2))
    );
    assert!(program(2, &["A", "B"]).declares_block(&"B".to_string()));
    assert!(!program(2, &["A", "B"]).declares_block(&"C".to_string()));
    assert_eq!(program(6, &[]).get_id(), 6);
}

#[test]
fn create_and_bind_ubo_give_binding_zero() {
    let mut ubo = UniformBuffer::new(Vec::new(), "Camera", 256).unwrap();
    let range = ubo.create_ubo(17);
    assert_eq!(range, BufferRange { buffer: 17, binding: 0, offset: 0, size: 256 });
    assert_eq!(ubo.get_id(), 17);
    assert_eq!(ubo.bind_ubo(), range);
}
