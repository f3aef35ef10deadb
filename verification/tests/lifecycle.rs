use regl::buffer::{
    get_base_buffer, release, release_share, Buffer, BufferTarget, BufferUsage,
};
use regl::call::GlCall;
use regl::context::Context;
use regl::framebuffer::{create_default_framebuffer, Framebuffer};
use regl::program::Program;
use regl::resource::ResourceCreationSupport;
use regl::shader::Shader;
use regl::tracker::Slot;
use regl::vertex_array::{VertexArray, VertexAttribute, VertexAttributeType};
use std::rc::Rc;

fn vertex_buffer(ctx: &mut Context, gl_id: u32) -> Buffer {
    let mut calls = Vec::new();
    Buffer::new(ctx, gl_id, BufferTarget::VertexBuffer, BufferUsage::StaticDraw, &[0u8; 8], &mut calls)
        .unwrap()
}

fn attribute(buffer: &Buffer) -> VertexAttribute<'_> {
    VertexAttribute {
        index: 0,
        size: 2,
        attribute_type: VertexAttributeType::Float,
        normalized: false,
        stride: 8,
        offset: 0,
        vertex_buffer: buffer,
    }
}

#[test]
fn a_buffer_that_nobody_shares_is_deleted_with_its_creator() {
    let mut calls = Vec::new();
    let mut ctx = Context::new(&mut calls);
    let buffer = vertex_buffer(&mut ctx, 7);
    calls.clear();
    assert!(buffer.delete(&mut calls));
    assert_eq!(calls, vec![GlCall::DeleteBuffers { buffer: 7 }]);
}

#[test]
fn a_buffer_that_a_vertex_array_uses_outlives_its_creator() {
    let mut calls = Vec::new();
    let mut ctx = Context::new(&mut calls);
    let vertices = vertex_buffer(&mut ctx, 7);
    let indices =
        Buffer::new(&mut ctx, 8, BufferTarget::IndexBuffer, BufferUsage::StaticDraw, &[0u16; 3], &mut calls)
            .unwrap();
    let vertex_array =
        VertexArray::new(&mut ctx, 21, &[attribute(&vertices)], Some(&indices), &mut calls).unwrap();
    calls.clear();
    assert!(!vertices.delete(&mut calls));
    assert!(!indices.delete(&mut calls));
    assert!(calls.is_empty());
    vertex_array.delete(&mut calls);
    assert_eq!(
        calls,
        vec![
            GlCall::DeleteVertexArrays { array: 21 },
            GlCall::DeleteBuffers { buffer: 7 },
            GlCall::DeleteBuffers { buffer: 8 },
        ]
    );
}

#[test]
fn a_vertex_array_leaves_the_buffers_that_others_still_hold() {
    let mut calls = Vec::new();
    let mut ctx = Context::new(&mut calls);
    let vertices = vertex_buffer(&mut ctx, 7);
    let vertex_array =
        VertexArray::new(&mut ctx, 21, &[attribute(&vertices)], None, &mut calls).unwrap();
    calls.clear();
    vertex_array.delete(&mut calls);
    assert_eq!(calls, vec![GlCall::DeleteVertexArrays { array: 21 }]);
    calls.clear();
    vertices.delete(&mut calls);
    assert_eq!(calls, vec![GlCall::DeleteBuffers { buffer: 7 }]);
}

#[test]
fn a_buffer_shared_by_two_vertex_arrays_goes_with_the_last() {
    let mut calls = Vec::new();
    let mut ctx = Context::new(&mut calls);
    let vertices = vertex_buffer(&mut ctx, 7);
    let a = VertexArray::new(&mut ctx, 21, &[attribute(&vertices)], None, &mut calls).unwrap();
    let b = VertexArray::new(&mut ctx, 22, &[attribute(&vertices), attribute(&vertices)], None, &mut calls)
        .unwrap();
    vertices.delete(&mut calls);
    calls.clear();
    a.delete(&mut calls);
    assert_eq!(calls, vec![GlCall::DeleteVertexArrays { array: 21 }]);
    calls.clear();
    b.delete(&mut calls);
    assert_eq!(
        calls,
        vec![GlCall::DeleteVertexArrays { array: 22 }, GlCall::DeleteBuffers { buffer: 7 }]
    );
}

#[test]
fn a_buffer_without_a_hardware_name_is_not_deleted() {
    let mut calls = Vec::new();
    let mut ctx = Context::new(&mut calls);
    let buffer = vertex_buffer(&mut ctx, 0);
    calls.clear();
    assert!(buffer.delete(&mut calls));
    assert!(calls.is_empty());
}

#[test]
fn releasing_a_share_that_is_not_the_last_deletes_nothing() {
    let mut calls = Vec::new();
    let mut ctx = Context::new(&mut calls);
    let buffer = vertex_buffer(&mut ctx, 7);
    let other = Rc::clone(get_base_buffer(&buffer));
    calls.clear();
    release(Rc::try_unwrap(other), &mut calls);
    assert!(calls.is_empty());
    let another = Rc::clone(get_base_buffer(&buffer));
    assert!(!release_share(another, &mut calls));
    assert!(calls.is_empty());
    assert!(buffer.delete(&mut calls));
    assert_eq!(calls, vec![GlCall::DeleteBuffers { buffer: 7 }]);
}

#[test]
fn the_default_framebuffer_is_not_deleted() {
    let mut calls = Vec::new();
    let mut ctx = Context::new(&mut calls);
    calls.clear();
    let window = create_default_framebuffer(&mut ctx);
    window.delete(&mut calls);
    assert!(calls.is_empty());
}

#[test]
fn a_framebuffer_of_the_hardware_is_deleted_once() {
    let mut calls = Vec::new();
    let mut ctx = Context::new(&mut calls);
    let framebuffer = Framebuffer::new(&mut ctx, 31, &mut calls).unwrap();
    calls.clear();
    framebuffer.delete(&mut calls);
    assert_eq!(calls, vec![GlCall::DeleteFramebuffers { framebuffer: 31 }]);
}

#[test]
fn a_context_deletes_nothing_of_the_hardware() {
    let mut calls = Vec::new();
    let ctx = Context::new(&mut calls);
    calls.clear();
    ctx.delete(&mut calls);
    assert!(calls.is_empty());
}

#[test]
fn a_context_can_go_before_its_buffers() {
    let mut calls = Vec::new();
    let mut ctx = Context::new(&mut calls);
    let buffer = vertex_buffer(&mut ctx, 7);
    let window = ctx.default_framebuffer();
    calls.clear();
    ctx.delete(&mut calls);
    assert!(calls.is_empty());
    buffer.delete(&mut calls);
    assert_eq!(calls, vec![GlCall::DeleteBuffers { buffer: 7 }]);
    drop(window);
}

#[test]
fn deleting_leaves_the_registry_as_it_is() {
    let mut calls = Vec::new();
    let mut ctx = Context::new(&mut calls);
    let buffer = vertex_buffer(&mut ctx, 7);
    let stale = get_base_buffer(&buffer).get_id().weak();
    buffer.delete(&mut calls);
    assert_eq!(ctx.get_shared_context().current(Slot::VertexBuffer), stale);
    let next = vertex_buffer(&mut ctx, 7);
    assert!(get_base_buffer(&next).get_id().weak() != stale);
    let mut binds = Vec::new();
    get_base_buffer(&next).bind_target(
        ctx.get_shared_context(),
        BufferTarget::UniformBuffer,
        &mut binds,
    );
    assert_eq!(binds, vec![GlCall::BindBuffer { target: gl::UNIFORM_BUFFER, buffer: 7 }]);
}

#[test]
fn a_reused_hardware_name_is_still_bound_anew() {
    let mut calls = Vec::new();
    let mut ctx = Context::new(&mut calls);
    let old = vertex_buffer(&mut ctx, 7);
    old.delete(&mut calls);
    calls.clear();
    let _new = Buffer::new(&mut ctx, 7, BufferTarget::VertexBuffer, BufferUsage::StaticDraw, &[0u8; 8], &mut calls)
        .unwrap();
    assert_eq!(calls[0], GlCall::BindBuffer { target: gl::ARRAY_BUFFER, buffer: 7 });
}

#[test]
fn programs_and_shaders_are_deleted() {
    let mut calls = Vec::new();
    let mut ctx = Context::new(&mut calls);
    let shader = Shader::new(&mut ctx, 41, 1, String::new(), &mut Vec::new()).unwrap();
    let program = Program::new(&mut ctx, 51, 1, String::new(), &mut Vec::new()).unwrap();
    calls.clear();
    shader.delete(&mut calls);
    program.delete(&mut calls);
    assert_eq!(
        calls,
        vec![GlCall::DeleteShader { shader: 41 }, GlCall::DeleteProgram { program: 51 }]
    );
}

#[test]
fn programs_and_shaders_without_a_hardware_name_are_not_deleted() {
    let mut calls = Vec::new();
    let mut ctx = Context::new(&mut calls);
    let shader = Shader::new(&mut ctx, 0, 1, String::new(), &mut Vec::new()).unwrap();
    let program = Program::new(&mut ctx, 0, 1, String::new(), &mut Vec::new()).unwrap();
    let vertex_array = VertexArray::new(&mut ctx, 0, &[], None, &mut calls).unwrap();
    calls.clear();
    shader.delete(&mut calls);
    program.delete(&mut calls);
    vertex_array.delete(&mut calls);
    assert!(calls.is_empty());
}
