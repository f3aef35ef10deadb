use regl::buffer::{get_base_buffer, Buffer, BufferTarget, BufferUsage};
use regl::call::GlCall;
use regl::context::Context;
use regl::id::WeakId;
use regl::resource::ResourceCreationSupport;
use regl::tracker::Slot;
use regl::vertex_array::{
    attribute_to_gl_type, bind_vertex_array, VertexArray, VertexAttribute, VertexAttributeType,
};

struct Scene {
    ctx: Context,
    indices: Buffer,
    first: VertexArray,
    second: VertexArray,
}

fn scene(separate_ibo_binding: bool) -> Scene {
    let mut calls = Vec::new();
    let mut ctx = Context::with_ibo_binding(separate_ibo_binding, &mut calls);
    let vertices =
        Buffer::new(&mut ctx, 11, BufferTarget::VertexBuffer, BufferUsage::StaticDraw, &[0u8; 24], &mut calls)
            .unwrap();
    let indices =
        Buffer::new(&mut ctx, 12, BufferTarget::IndexBuffer, BufferUsage::StaticDraw, &[0u16; 3], &mut calls)
            .unwrap();
    let attribute = VertexAttribute {
        index: 0,
        size: 2,
        attribute_type: VertexAttributeType::Float,
        normalized: false,
        stride: 8,
        offset: 0,
        vertex_buffer: &vertices,
    };
    let first = VertexArray::new(&mut ctx, 21, &[attribute], Some(&indices), &mut calls).unwrap();
    let second = VertexArray::new(&mut ctx, 22, &[], None, &mut calls).unwrap();
    Scene { ctx, indices, first, second }
}

#[test]
fn rebinding_restores_the_index_buffer_that_is_part_of_the_vertex_array() {
    let mut s = scene(false);
    let ibo = get_base_buffer(&s.indices).get_id().weak();
    let mut calls = Vec::new();
    bind_vertex_array(&s.first, s.ctx.get_shared_context(), &mut calls);
    assert_eq!(s.ctx.get_shared_context().current(Slot::IndexBuffer), ibo);
    assert_eq!(calls, vec![GlCall::BindVertexArray { array: 21 }]);
    calls.clear();
    bind_vertex_array(&s.second, s.ctx.get_shared_context(), &mut calls);
    assert_eq!(s.ctx.get_shared_context().current(Slot::IndexBuffer), WeakId::empty());
    assert_eq!(calls, vec![GlCall::BindVertexArray { array: 22 }]);
    calls.clear();
    bind_vertex_array(&s.first, s.ctx.get_shared_context(), &mut calls);
    assert_eq!(s.ctx.get_shared_context().current(Slot::IndexBuffer), ibo);
    assert_eq!(s.ctx.get_shared_context().current(Slot::VertexArray), s.first.get_id().weak());
    assert_eq!(calls, vec![GlCall::BindVertexArray { array: 21 }]);
}

#[test]
fn rebinding_restores_the_index_buffer_that_is_bound_separately() {
    let mut s = scene(true);
    let ibo = get_base_buffer(&s.indices).get_id().weak();
    let mut calls = Vec::new();
    bind_vertex_array(&s.first, s.ctx.get_shared_context(), &mut calls);
    assert_eq!(s.ctx.get_shared_context().current(Slot::IndexBuffer), ibo);
    calls.clear();
    bind_vertex_array(&s.second, s.ctx.get_shared_context(), &mut calls);
    assert_eq!(s.ctx.get_shared_context().current(Slot::IndexBuffer), WeakId::empty());
    assert_eq!(calls, vec![GlCall::BindVertexArray { array: 22 }]);
    calls.clear();
    bind_vertex_array(&s.first, s.ctx.get_shared_context(), &mut calls);
    assert_eq!(s.ctx.get_shared_context().current(Slot::IndexBuffer), ibo);
    assert_eq!(s.ctx.get_shared_context().current(Slot::VertexArray), s.first.get_id().weak());
    assert_eq!(
        calls,
        vec![
            GlCall::BindVertexArray { array: 21 },
            GlCall::BindBuffer { target: gl::ELEMENT_ARRAY_BUFFER, buffer: 12 },
        ]
    );
}

#[test]
fn a_separate_index_buffer_is_bound_with_every_bind_of_its_vertex_array() {
    let mut s = scene(true);
    let mut calls = Vec::new();
    bind_vertex_array(&s.first, s.ctx.get_shared_context(), &mut calls);
    calls.clear();
    bind_vertex_array(&s.first, s.ctx.get_shared_context(), &mut calls);
    assert_eq!(
        calls,
        vec![GlCall::BindBuffer { target: gl::ELEMENT_ARRAY_BUFFER, buffer: 12 }]
    );
}

#[test]
fn a_current_vertex_array_is_not_bound_again() {
    let mut s = scene(false);
    let mut calls = Vec::new();
    bind_vertex_array(&s.first, s.ctx.get_shared_context(), &mut calls);
    calls.clear();
    bind_vertex_array(&s.first, s.ctx.get_shared_context(), &mut calls);
    assert!(calls.is_empty());
}

#[test]
fn an_index_buffer_update_goes_under_the_default_vertex_array() {
    let mut s = scene(false);
    let mut calls = Vec::new();
    bind_vertex_array(&s.first, s.ctx.get_shared_context(), &mut calls);
    calls.clear();
    let result = s.indices.update_data(s.ctx.get_shared_context(), 0, &[7u16], &mut calls);
    assert_eq!(result, Ok(()));
    assert_eq!(
        calls,
        vec![
            GlCall::BindVertexArray { array: 0 },
            GlCall::BindBuffer { target: gl::ELEMENT_ARRAY_BUFFER, buffer: 12 },
            GlCall::BufferSubData { target: gl::ELEMENT_ARRAY_BUFFER, offset: 0, size: 2 },
        ]
    );
    assert_eq!(
        s.ctx.get_shared_context().current(Slot::IndexBuffer),
        get_base_buffer(&s.indices).get_id().weak()
    );
    assert!(s.ctx.get_shared_context().current(Slot::VertexArray) != s.first.get_id().weak());
}

#[test]
fn a_new_vertex_array_is_bound_and_set_up() {
    let mut calls = Vec::new();
    let mut ctx = Context::new(&mut calls);
    let positions =
        Buffer::new(&mut ctx, 11, BufferTarget::VertexBuffer, BufferUsage::StaticDraw, &[0u8; 24], &mut calls)
            .unwrap();
    let colors =
        Buffer::new(&mut ctx, 12, BufferTarget::VertexBuffer, BufferUsage::StaticDraw, &[0u8; 12], &mut calls)
            .unwrap();
    let indices =
        Buffer::new(&mut ctx, 13, BufferTarget::IndexBuffer, BufferUsage::StaticDraw, &[0u16; 3], &mut calls)
            .unwrap();
    let attributes = [
        VertexAttribute {
            index: 0,
            size: 2,
            attribute_type: VertexAttributeType::Float,
            normalized: false,
            stride: 8,
            offset: 0,
            vertex_buffer: &positions,
        },
        VertexAttribute {
            index: 1,
            size: 4,
            attribute_type: VertexAttributeType::UnsignedByte,
            normalized: true,
            stride: 4,
            offset: 16,
            vertex_buffer: &colors,
        },
        VertexAttribute {
            index: 2,
            size: 1,
            attribute_type: VertexAttributeType::Short,
            normalized: false,
            stride: 0,
            offset: 2,
            vertex_buffer: &colors,
        },
    ];
    calls.clear();
    let vertex_array = VertexArray::new(&mut ctx, 21, &attributes, Some(&indices), &mut calls).unwrap();
    assert_eq!(
        calls,
        vec![
            GlCall::BindVertexArray { array: 21 },
            GlCall::BindBuffer { target: gl::ELEMENT_ARRAY_BUFFER, buffer: 13 },
            GlCall::BindBuffer { target: gl::ARRAY_BUFFER, buffer: 11 },
            GlCall::EnableVertexAttribArray { index: 0 },
            GlCall::VertexAttribPointer {
                index: 0,
                size: 2,
                type_: gl::FLOAT,
                normalized: gl::FALSE,
                stride: 8,
                pointer: 0,
            },
            GlCall::BindBuffer { target: gl::ARRAY_BUFFER, buffer: 12 },
            GlCall::EnableVertexAttribArray { index: 1 },
            GlCall::VertexAttribPointer {
                index: 1,
                size: 4,
                type_: gl::UNSIGNED_BYTE,
                normalized: gl::TRUE,
                stride: 4,
                pointer: 16,
            },
            GlCall::EnableVertexAttribArray { index: 2 },
            GlCall::VertexAttribPointer {
                index: 2,
                size: 1,
                type_: gl::SHORT,
                normalized: gl::FALSE,
                stride: 0,
                pointer: 2,
            },
        ]
    );
    let shared = ctx.get_shared_context();
    assert_eq!(shared.current(Slot::VertexArray), vertex_array.get_id().weak());
    assert_eq!(shared.current(Slot::IndexBuffer), get_base_buffer(&indices).get_id().weak());
    assert_eq!(shared.current(Slot::VertexBuffer), get_base_buffer(&colors).get_id().weak());
}

#[test]
fn attribute_types_have_their_sizes() {
    assert_eq!(VertexAttributeType::Byte.byte_size(), 1);
    assert_eq!(VertexAttributeType::UnsignedByte.byte_size(), 1);
    assert_eq!(VertexAttributeType::Short.byte_size(), 2);
    assert_eq!(VertexAttributeType::UnsignedShort.byte_size(), 2);
    assert_eq!(VertexAttributeType::Int.byte_size(), 4);
    assert_eq!(VertexAttributeType::UnsignedInt.byte_size(), 4);
    assert_eq!(VertexAttributeType::HalfFloat.byte_size(), 2);
    assert_eq!(VertexAttributeType::Float.byte_size(), 4);
    assert_eq!(VertexAttributeType::Double.byte_size(), 8);
    assert_eq!(VertexAttributeType::Int2101010Rev.byte_size(), 4);
    assert_eq!(VertexAttributeType::UnsignedInt2101010Rev.byte_size(), 4);
}

#[test]
fn attribute_types_have_the_codes_of_the_bindings() {
    assert_eq!(attribute_to_gl_type(VertexAttributeType::Byte), gl::BYTE);
    assert_eq!(attribute_to_gl_type(VertexAttributeType::UnsignedByte), gl::UNSIGNED_BYTE);
    assert_eq!(attribute_to_gl_type(VertexAttributeType::Short), gl::SHORT);
    assert_eq!(attribute_to_gl_type(VertexAttributeType::UnsignedShort), gl::UNSIGNED_SHORT);
    assert_eq!(attribute_to_gl_type(VertexAttributeType::Int), gl::INT);
    assert_eq!(attribute_to_gl_type(VertexAttributeType::UnsignedInt), gl::UNSIGNED_INT);
    assert_eq!(attribute_to_gl_type(VertexAttributeType::HalfFloat), gl::HALF_FLOAT);
    assert_eq!(attribute_to_gl_type(VertexAttributeType::Float), gl::FLOAT);
    assert_eq!(attribute_to_gl_type(VertexAttributeType::Double), gl::DOUBLE);
    assert_eq!(attribute_to_gl_type(VertexAttributeType::Int2101010Rev), gl::INT_2_10_10_10_REV);
    assert_eq!(
        attribute_to_gl_type(VertexAttributeType::UnsignedInt2101010Rev),
        gl::UNSIGNED_INT_2_10_10_10_REV
    );
}
