use regl::buffer::{
    get_base_buffer, gl_target, gl_usage, len_in_bytes, Buffer, BufferTarget, BufferUsage,
};
use regl::call::GlCall;
use regl::context::Context;
use regl::error::ReglError;
use regl::resource::ResourceCreationSupport;
use regl::tracker::Slot;

fn context() -> Context {
    let mut calls = Vec::new();
    Context::new(&mut calls)
}

#[test]
fn update_that_ends_at_the_end_succeeds() {
    let mut ctx = context();
    let mut calls = Vec::new();
    let data = [0u8; 16];
    let buffer =
        Buffer::new(&mut ctx, 7, BufferTarget::VertexBuffer, BufferUsage::StaticDraw, &data, &mut calls)
            .unwrap();
    let patch = [1u8; 5];
    let mut update = Vec::new();
    let result = buffer.update_data(ctx.get_shared_context(), 16 - 5, &patch, &mut update);
    assert_eq!(result, Ok(()));
    assert_eq!(
        update,
        vec![GlCall::BufferSubData { target: gl::ARRAY_BUFFER, offset: 11, size: 5 }]
    );
}

#[test]
fn update_that_ends_one_byte_past_the_end_fails() {
    let mut ctx = context();
    let mut calls = Vec::new();
    let data = [0u8; 16];
    let buffer =
        Buffer::new(&mut ctx, 7, BufferTarget::VertexBuffer, BufferUsage::StaticDraw, &data, &mut calls)
            .unwrap();
    let patch = [1u8; 5];
    let mut update = Vec::new();
    let result = buffer.update_data(ctx.get_shared_context(), 16 - 5 + 1, &patch, &mut update);
    assert_eq!(result, Err(ReglError::BufferDataOutOfRange));
    assert!(update.is_empty());
}

#[test]
fn update_counts_bytes_not_elements() {
    let mut ctx = context();
    let mut calls = Vec::new();
    let data = [0u32; 4];
    let buffer =
        Buffer::new(&mut ctx, 7, BufferTarget::UniformBuffer, BufferUsage::DynamicDraw, &data, &mut calls)
            .unwrap();
    assert_eq!(
        calls,
        vec![
            GlCall::BindBuffer { target: gl::UNIFORM_BUFFER, buffer: 7 },
            GlCall::BufferData { target: gl::UNIFORM_BUFFER, size: 16, usage: gl::DYNAMIC_DRAW },
        ]
    );
    let two = [9u32, 9u32];
    let mut update = Vec::new();
    assert_eq!(buffer.update_data(ctx.get_shared_context(), 8, &two, &mut update), Ok(()));
    assert_eq!(
        update,
        vec![GlCall::BufferSubData { target: gl::UNIFORM_BUFFER, offset: 8, size: 8 }]
    );
    assert_eq!(
        buffer.update_data(ctx.get_shared_context(), 9, &two, &mut update),
        Err(ReglError::BufferDataOutOfRange)
    );
    let floats = [1.0f32, 2.0, 3.0, 4.0];
    assert_eq!(buffer.update_data(ctx.get_shared_context(), 0, &floats, &mut update), Ok(()));
    let five = [1.0f32; 5];
    assert_eq!(
        buffer.update_data(ctx.get_shared_context(), 0, &five, &mut update),
        Err(ReglError::BufferDataOutOfRange)
    );
}

#[test]
fn update_with_a_huge_offset_fails_without_overflow() {
    let mut ctx = context();
    let mut calls = Vec::new();
    let data = [0u8; 4];
    let buffer =
        Buffer::new(&mut ctx, 7, BufferTarget::VertexBuffer, BufferUsage::StaticDraw, &data, &mut calls)
            .unwrap();
    let patch = [1u8; 2];
    let mut update = Vec::new();
    assert_eq!(
        buffer.update_data(ctx.get_shared_context(), usize::MAX, &patch, &mut update),
        Err(ReglError::BufferDataOutOfRange)
    );
    assert!(update.is_empty());
}

#[test]
fn an_empty_update_fits_everywhere_up_to_the_end() {
    let mut ctx = context();
    let mut calls = Vec::new();
    let data = [0u8; 4];
    let buffer =
        Buffer::new(&mut ctx, 7, BufferTarget::VertexBuffer, BufferUsage::StaticDraw, &data, &mut calls)
            .unwrap();
    let nothing: [u8; 0] = [];
    let mut update = Vec::new();
    assert_eq!(buffer.update_data(ctx.get_shared_context(), 4, &nothing, &mut update), Ok(()));
    assert_eq!(
        buffer.update_data(ctx.get_shared_context(), 5, &nothing, &mut update),
        Err(ReglError::BufferDataOutOfRange)
    );
}

#[test]
fn a_new_buffer_is_bound_and_filled() {
    let mut ctx = context();
    let mut calls = Vec::new();
    let data = [0u8; 4];
    let buffer =
        Buffer::new(&mut ctx, 7, BufferTarget::VertexBuffer, BufferUsage::StaticDraw, &data, &mut calls)
            .unwrap();
    assert_eq!(
        calls,
        vec![
            GlCall::BindBuffer { target: gl::ARRAY_BUFFER, buffer: 7 },
            GlCall::BufferData { target: gl::ARRAY_BUFFER, size: 4, usage: gl::STATIC_DRAW },
        ]
    );
    let uid = get_base_buffer(&buffer).get_id().weak();
    assert_eq!(ctx.get_shared_context().current(Slot::VertexBuffer), uid);
}

#[test]
fn an_update_of_the_current_buffer_does_not_bind_it_again() {
    let mut ctx = context();
    let mut calls = Vec::new();
    let data = [0u8; 4];
    let a =
        Buffer::new(&mut ctx, 7, BufferTarget::VertexBuffer, BufferUsage::StaticDraw, &data, &mut calls)
            .unwrap();
    let b =
        Buffer::new(&mut ctx, 8, BufferTarget::VertexBuffer, BufferUsage::StaticDraw, &data, &mut calls)
            .unwrap();
    let patch = [1u8; 1];
    let mut update = Vec::new();
    assert_eq!(b.update_data(ctx.get_shared_context(), 0, &patch, &mut update), Ok(()));
    assert_eq!(a.update_data(ctx.get_shared_context(), 0, &patch, &mut update), Ok(()));
    assert_eq!(a.update_data(ctx.get_shared_context(), 1, &patch, &mut update), Ok(()));
    assert_eq!(
        update,
        vec![
            GlCall::BufferSubData { target: gl::ARRAY_BUFFER, offset: 0, size: 1 },
            GlCall::BindBuffer { target: gl::ARRAY_BUFFER, buffer: 7 },
            GlCall::BufferSubData { target: gl::ARRAY_BUFFER, offset: 0, size: 1 },
            GlCall::BufferSubData { target: gl::ARRAY_BUFFER, offset: 1, size: 1 },
        ]
    );
}

#[test]
fn a_refused_update_leaves_the_registry_alone() {
    let mut ctx = context();
    let mut calls = Vec::new();
    let data = [0u8; 4];
    let a =
        Buffer::new(&mut ctx, 7, BufferTarget::VertexBuffer, BufferUsage::StaticDraw, &data, &mut calls)
            .unwrap();
    let b =
        Buffer::new(&mut ctx, 8, BufferTarget::VertexBuffer, BufferUsage::StaticDraw, &data, &mut calls)
            .unwrap();
    let patch = [1u8; 9];
    let mut update = Vec::new();
    assert_eq!(
        a.update_data(ctx.get_shared_context(), 0, &patch, &mut update),
        Err(ReglError::BufferDataOutOfRange)
    );
    assert_eq!(
        ctx.get_shared_context().current(Slot::VertexBuffer),
        get_base_buffer(&b).get_id().weak()
    );
}

#[test]
fn an_index_buffer_is_filled_under_the_default_vertex_array() {
    let mut ctx = context();
    let mut calls = Vec::new();
    let indices = [0u16, 1, 2];
    let buffer =
        Buffer::new(&mut ctx, 9, BufferTarget::IndexBuffer, BufferUsage::StaticDraw, &indices, &mut calls)
            .unwrap();
    assert_eq!(
        calls,
        vec![
            GlCall::BindBuffer { target: gl::ELEMENT_ARRAY_BUFFER, buffer: 9 },
            GlCall::BufferData { target: gl::ELEMENT_ARRAY_BUFFER, size: 6, usage: gl::STATIC_DRAW },
        ]
    );
    assert_eq!(
        ctx.get_shared_context().current(Slot::IndexBuffer),
        get_base_buffer(&buffer).get_id().weak()
    );
}

#[test]
fn binding_to_a_target_goes_by_that_targets_slot() {
    let mut ctx = context();
    let mut calls = Vec::new();
    let data = [0u8; 4];
    let buffer =
        Buffer::new(&mut ctx, 7, BufferTarget::VertexBuffer, BufferUsage::StaticDraw, &data, &mut calls)
            .unwrap();
    let base = get_base_buffer(&buffer);
    let mut binds = Vec::new();
    base.bind_target(ctx.get_shared_context(), BufferTarget::VertexBuffer, &mut binds);
    assert!(binds.is_empty());
    base.bind_target(ctx.get_shared_context(), BufferTarget::UniformBuffer, &mut binds);
    base.bind_target(ctx.get_shared_context(), BufferTarget::UniformBuffer, &mut binds);
    assert_eq!(binds, vec![GlCall::BindBuffer { target: gl::UNIFORM_BUFFER, buffer: 7 }]);
    base.bind_as_indices_anyway(ctx.get_shared_context(), &mut binds);
    base.bind_as_indices_anyway(ctx.get_shared_context(), &mut binds);
    assert_eq!(
        binds,
        vec![
            GlCall::BindBuffer { target: gl::UNIFORM_BUFFER, buffer: 7 },
            GlCall::BindBuffer { target: gl::ELEMENT_ARRAY_BUFFER, buffer: 7 },
            GlCall::BindBuffer { target: gl::ELEMENT_ARRAY_BUFFER, buffer: 7 },
        ]
    );
    assert_eq!(ctx.get_shared_context().current(Slot::IndexBuffer), base.get_id().weak());
}

#[test]
fn targets_and_usages_have_the_codes_of_the_bindings() {
    assert_eq!(gl_target(BufferTarget::VertexBuffer), gl::ARRAY_BUFFER);
    assert_eq!(gl_target(BufferTarget::IndexBuffer), gl::ELEMENT_ARRAY_BUFFER);
    assert_eq!(gl_target(BufferTarget::UniformBuffer), gl::UNIFORM_BUFFER);
    assert_eq!(gl_usage(BufferUsage::StreamDraw), gl::STREAM_DRAW);
    assert_eq!(gl_usage(BufferUsage::StreamRead), gl::STREAM_READ);
    assert_eq!(gl_usage(BufferUsage::StreamCopy), gl::STREAM_COPY);
    assert_eq!(gl_usage(BufferUsage::StaticDraw), gl::STATIC_DRAW);
    assert_eq!(gl_usage(BufferUsage::StaticRead), gl::STATIC_READ);
    assert_eq!(gl_usage(BufferUsage::StaticCopy), gl::STATIC_COPY);
    assert_eq!(gl_usage(BufferUsage::DynamicDraw), gl::DYNAMIC_DRAW);
    assert_eq!(gl_usage(BufferUsage::DynamicRead), gl::DYNAMIC_READ);
    assert_eq!(gl_usage(BufferUsage::DynamicCopy), gl::DYNAMIC_COPY);
}

#[test]
fn the_length_in_bytes_is_the_count_times_the_element_size() {
    assert_eq!(len_in_bytes(&[0u8; 3]), Some(3));
    assert_eq!(len_in_bytes(&[0u16; 3]), Some(6));
    assert_eq!(len_in_bytes(&[0.0f64; 3]), Some(24));
    assert_eq!(len_in_bytes::<u32>(&[]), Some(0));
    assert_eq!(len_in_bytes(&[(); 5]), Some(0));
}
