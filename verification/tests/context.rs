use regl::buffer::{Buffer, BufferTarget, BufferUsage};
use regl::call::GlCall;
use regl::context::shared::{new_shared_context, SharedContext};
use regl::context::{gl_mode, gl_type, Context, IndexType, PrimitiveMode};
use regl::framebuffer::{DrawFramebufferTag, Framebuffer, FramebufferInternal};
use regl::buffer::{IndexBufferTag, UniformBufferTag, VertexBufferTag};
use regl::id::{GenerateId, IdGenerator, WeakId};
use regl::options::{set_option, RenderOption};
use regl::program::{Program, ProgramInternal};
use regl::resource::ResourceCreationSupport;
use regl::tracker::{BindIf, BindNone, Slot};
use regl::vertex_array::{VertexArray, VertexArraySupport};

const SLOTS: [Slot; 6] = [
    Slot::DrawFramebuffer,
    Slot::VertexArray,
    Slot::VertexBuffer,
    Slot::IndexBuffer,
    Slot::UniformBuffer,
    Slot::Program,
];

#[test]
fn a_new_registry_holds_nothing() {
    let registry = new_shared_context();
    for slot in SLOTS {
        assert_eq!(registry.current(slot), WeakId::empty());
    }
    assert!(!registry.separate_ibo_binding());
    assert!(SharedContext::new(true).separate_ibo_binding());
    assert!(!SharedContext::new(false).separate_ibo_binding());
}

#[test]
fn each_capability_binds_its_own_slot_only() {
    let mut generator = IdGenerator::new();
    let ids = [
        generator.generate_id(),
        generator.generate_id(),
        generator.generate_id(),
        generator.generate_id(),
        generator.generate_id(),
        generator.generate_id(),
    ];
    let mut registry = new_shared_context();
    assert!(BindIf::<DrawFramebufferTag>::bind_if(&mut registry, &ids[0]));
    assert!(BindIf::<VertexArray>::bind_if(&mut registry, &ids[1]));
    assert!(BindIf::<VertexBufferTag>::bind_if(&mut registry, &ids[2]));
    assert!(BindIf::<IndexBufferTag>::bind_if(&mut registry, &ids[3]));
    assert!(BindIf::<UniformBufferTag>::bind_if(&mut registry, &ids[4]));
    assert!(BindIf::<Program>::bind_if(&mut registry, &ids[5]));
    for (slot, id) in SLOTS.iter().zip(ids.iter()) {
        assert_eq!(registry.current(*slot), id.weak());
    }
    assert!(!BindIf::<DrawFramebufferTag>::bind_if(&mut registry, &ids[0]));
    assert!(!BindIf::<VertexArray>::bind_if(&mut registry, &ids[1]));
    assert!(!BindIf::<VertexBufferTag>::bind_if(&mut registry, &ids[2]));
    assert!(!BindIf::<IndexBufferTag>::bind_if(&mut registry, &ids[3]));
    assert!(!BindIf::<UniformBufferTag>::bind_if(&mut registry, &ids[4]));
    assert!(!BindIf::<Program>::bind_if(&mut registry, &ids[5]));
    BindNone::<IndexBufferTag>::bind_none(&mut registry);
    assert_eq!(registry.current(Slot::IndexBuffer), WeakId::empty());
    assert_eq!(registry.current(Slot::VertexBuffer), ids[2].weak());
    assert_eq!(registry.current(Slot::UniformBuffer), ids[4].weak());
    assert!(BindIf::<IndexBufferTag>::bind_if(&mut registry, &ids[3]));
}

#[test]
fn one_object_may_be_current_in_several_slots() {
    let mut generator = IdGenerator::new();
    let id = generator.generate_id();
    let mut registry = new_shared_context();
    assert!(BindIf::<VertexBufferTag>::bind_if(&mut registry, &id));
    assert!(BindIf::<UniformBufferTag>::bind_if(&mut registry, &id));
    assert!(!BindIf::<VertexBufferTag>::bind_if(&mut registry, &id));
}

#[test]
fn a_new_context_has_made_its_default_vertex_array_current() {
    let mut calls = Vec::new();
    let mut ctx = Context::new(&mut calls);
    assert_eq!(calls, vec![GlCall::BindVertexArray { array: 0 }]);
    let shared = ctx.get_shared_context();
    assert!(shared.current(Slot::VertexArray) != WeakId::empty());
    assert_eq!(shared.current(Slot::IndexBuffer), WeakId::empty());
    assert_eq!(shared.current(Slot::DrawFramebuffer), WeakId::empty());
    assert!(!shared.separate_ibo_binding());
    assert_eq!(
        format!("{:?}", shared.current(Slot::VertexArray)),
        format!("{:?}", {
            let mut generator = IdGenerator::new();
            let _ = generator.generate_id();
            generator.generate_id().weak()
        })
    );
}

#[test]
fn a_context_remembers_the_kind_of_hardware() {
    let mut calls = Vec::new();
    let mut ctx = Context::with_ibo_binding(true, &mut calls);
    assert!(ctx.get_shared_context().separate_ibo_binding());
    assert_eq!(calls, vec![GlCall::BindVertexArray { array: 0 }]);
}

#[test]
fn resources_of_a_context_get_distinct_identities() {
    let mut calls = Vec::new();
    let mut ctx = Context::new(&mut calls);
    let a = ctx.generate_id();
    let framebuffer = Framebuffer::new(&mut ctx, 5, &mut calls).unwrap();
    let program = Program::new(&mut ctx, 6, 1, String::new(), &mut Vec::new()).unwrap();
    let b = ctx.generate_id();
    let window = ctx.default_framebuffer();
    let all = [
        a.weak(),
        framebuffer.get_id().weak(),
        program.get_id().weak(),
        b.weak(),
        window.get_id().weak(),
        ctx.get_shared_context().current(Slot::VertexArray),
    ];
    for i in 0..all.len() {
        assert!(all[i] != WeakId::empty());
        for j in 0..all.len() {
            if i != j {
                assert!(all[i] != all[j]);
            }
        }
    }
}

#[test]
fn a_draw_binds_what_is_not_current_and_draws() {
    let mut calls = Vec::new();
    let mut ctx = Context::new(&mut calls);
    let program = Program::new(&mut ctx, 51, 1, String::new(), &mut Vec::new()).unwrap();
    let vertex_array = VertexArray::new(&mut ctx, 21, &[], None, &mut calls).unwrap();
    let window = ctx.default_framebuffer();
    calls.clear();
    ctx.draw(&program, &window, &vertex_array, PrimitiveMode::Triangles, 3, 9, &mut calls);
    assert_eq!(
        calls,
        vec![
            GlCall::UseProgram { program: 51 },
            GlCall::BindFramebuffer { target: gl::DRAW_FRAMEBUFFER, framebuffer: 0 },
            GlCall::DrawArrays { mode: gl::TRIANGLES, first: 3, count: 9 },
        ]
    );
    calls.clear();
    ctx.draw(&program, &window, &vertex_array, PrimitiveMode::Triangles, 0, 3, &mut calls);
    assert_eq!(calls, vec![GlCall::DrawArrays { mode: gl::TRIANGLES, first: 0, count: 3 }]);
    let shared = ctx.get_shared_context();
    assert_eq!(shared.current(Slot::Program), program.get_id().weak());
    assert_eq!(shared.current(Slot::DrawFramebuffer), window.get_id().weak());
    assert_eq!(shared.current(Slot::VertexArray), vertex_array.get_id().weak());
}

#[test]
fn an_indexed_draw_binds_and_draws() {
    let mut calls = Vec::new();
    let mut ctx = Context::new(&mut calls);
    let program = Program::new(&mut ctx, 51, 1, String::new(), &mut Vec::new()).unwrap();
    let indices =
        Buffer::new(&mut ctx, 12, BufferTarget::IndexBuffer, BufferUsage::StaticDraw, &[0u16; 6], &mut calls)
            .unwrap();
    let vertex_array = VertexArray::new(&mut ctx, 21, &[], Some(&indices), &mut calls).unwrap();
    let target = Framebuffer::new(&mut ctx, 31, &mut calls).unwrap();
    let window = ctx.default_framebuffer();
    calls.clear();
    ctx.draw_indexed(
        &program,
        &window,
        &vertex_array,
        PrimitiveMode::Triangles,
        IndexType::UShort,
        2,
        6,
        4,
        &mut calls,
    );
    assert_eq!(
        calls,
        vec![
            GlCall::UseProgram { program: 51 },
            GlCall::BindFramebuffer { target: gl::DRAW_FRAMEBUFFER, framebuffer: 0 },
            GlCall::DrawElementsBaseVertex {
                mode: gl::TRIANGLES,
                count: 6,
                type_: gl::UNSIGNED_SHORT,
                indices: 4,
                basevertex: 2,
            },
        ]
    );
    calls.clear();
    ctx.draw_indexed(
        &program,
        &target,
        &vertex_array,
        PrimitiveMode::Triangles,
        IndexType::UInt,
        0,
        3,
        0,
        &mut calls,
    );
    assert_eq!(
        calls,
        vec![
            GlCall::BindFramebuffer { target: gl::DRAW_FRAMEBUFFER, framebuffer: 31 },
            GlCall::DrawElementsBaseVertex {
                mode: gl::TRIANGLES,
                count: 3,
                type_: gl::UNSIGNED_INT,
                indices: 0,
                basevertex: 0,
            },
        ]
    );
}

#[test]
fn counts_beyond_the_signed_range_wrap_as_the_cast_does() {
    let mut calls = Vec::new();
    let mut ctx = Context::new(&mut calls);
    let program = Program::new(&mut ctx, 51, 1, String::new(), &mut Vec::new()).unwrap();
    let vertex_array = VertexArray::new(&mut ctx, 21, &[], None, &mut calls).unwrap();
    let window = ctx.default_framebuffer();
    calls.clear();
    ctx.draw(&program, &window, &vertex_array, PrimitiveMode::Triangles, u32::MAX, 0x8000_0000, &mut calls);
    assert_eq!(
        calls[2],
        GlCall::DrawArrays { mode: gl::TRIANGLES, first: -1, count: i32::MIN }
    );
}

#[test]
fn a_framebuffer_is_bound_at_creation_and_cleared_when_current() {
    let mut calls = Vec::new();
    let mut ctx = Context::new(&mut calls);
    calls.clear();
    let framebuffer = Framebuffer::new(&mut ctx, 31, &mut calls).unwrap();
    assert_eq!(
        calls,
        vec![GlCall::BindFramebuffer { target: gl::DRAW_FRAMEBUFFER, framebuffer: 31 }]
    );
    calls.clear();
    framebuffer.clear(ctx.get_shared_context(), &mut calls);
    assert_eq!(
        calls,
        vec![GlCall::Clear {
            mask: gl::COLOR_BUFFER_BIT | gl::DEPTH_BUFFER_BIT | gl::STENCIL_BUFFER_BIT
        }]
    );
    let window = ctx.default_framebuffer();
    calls.clear();
    window.clear(ctx.get_shared_context(), &mut calls);
    assert_eq!(
        calls,
        vec![
            GlCall::BindFramebuffer { target: gl::DRAW_FRAMEBUFFER, framebuffer: 0 },
            GlCall::Clear { mask: 0x4500 },
        ]
    );
    calls.clear();
    window.bind(ctx.get_shared_context(), &mut calls);
    assert!(calls.is_empty());
}

#[test]
fn options_turn_capabilities_on_and_off() {
    let mut calls = Vec::new();
    set_option(RenderOption::DepthTest(true), &mut calls);
    set_option(RenderOption::DepthTest(false), &mut calls);
    set_option(RenderOption::CullingEnabled(true), &mut calls);
    set_option(RenderOption::CullingEnabled(false), &mut calls);
    assert_eq!(
        calls,
        vec![
            GlCall::Enable { cap: gl::DEPTH_TEST },
            GlCall::Disable { cap: gl::DEPTH_TEST },
            GlCall::Enable { cap: gl::CULL_FACE },
            GlCall::Disable { cap: gl::CULL_FACE },
        ]
    );
    let mut setup = Vec::new();
    let ctx = Context::new(&mut setup);
    calls.clear();
    ctx.set_option(RenderOption::CullingEnabled(true), &mut calls);
    ctx.viewport(1, 2, 640, 480, &mut calls);
    assert_eq!(
        calls,
        vec![
            GlCall::Enable { cap: gl::CULL_FACE },
            GlCall::Viewport { x: 1, y: 2, width: 640, height: 480 },
        ]
    );
}

#[test]
fn modes_and_index_types_have_the_codes_of_the_bindings() {
    assert_eq!(gl_mode(PrimitiveMode::Triangles), gl::TRIANGLES);
    assert_eq!(gl_type(IndexType::UByte), gl::UNSIGNED_BYTE);
    assert_eq!(gl_type(IndexType::UShort), gl::UNSIGNED_SHORT);
    assert_eq!(gl_type(IndexType::UInt), gl::UNSIGNED_INT);
}

#[test]
fn a_program_is_bound_through_its_own_slot() {
    let mut calls = Vec::new();
    let mut ctx = Context::new(&mut calls);
    let a = Program::new(&mut ctx, 51, 1, String::new(), &mut Vec::new()).unwrap();
    let b = Program::new(&mut ctx, 52, 1, String::new(), &mut Vec::new()).unwrap();
    calls.clear();
    a.bind(ctx.get_shared_context(), &mut calls);
    a.bind(ctx.get_shared_context(), &mut calls);
    b.bind(ctx.get_shared_context(), &mut calls);
    a.bind(ctx.get_shared_context(), &mut calls);
    assert_eq!(
        calls,
        vec![
            GlCall::UseProgram { program: 51 },
            GlCall::UseProgram { program: 52 },
            GlCall::UseProgram { program: 51 },
        ]
    );
}
