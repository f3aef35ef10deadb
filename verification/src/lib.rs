//! A cache of binding state for a handle-based graphics API.
//!
//! Every object of the API has to be bound to a binding point before it is used.
//! The library remembers what each binding point holds, says which hardware calls
//! an operation needs, and leaves out the binds that would change nothing. It
//! issues no call itself: an operation appends the calls it decided on to a list,
//! in order, and the caller performs them.
//!
//! The parts, from the bottom up: `id` issues identities that are never used
//! twice; `tracker` holds the cache of one binding point and the rights through
//! which a registry of caches is used; `context::shared` is that registry;
//! `buffer`, `framebuffer`, `vertex_array`, `shader` and `program` are the
//! resources, each of which makes itself current through the registry before it
//! acts; `context` owns the registry and makes the draw calls. `call` lists the
//! hardware calls, `glenum` the codes they take. `coherence` states what the
//! registry saves and why it can be believed.

use vstd::prelude::*;

pub mod buffer;
pub mod call;
pub mod coherence;
pub mod context;
pub mod error;
pub mod framebuffer;
pub mod glenum;
pub mod id;
pub mod options;
pub mod program;
pub mod resource;
pub mod shader;
pub mod text;
pub mod tracker;
pub mod vertex_array;

pub use buffer::{Buffer, BufferTarget, BufferUsage};
pub use call::GlCall;
pub use context::{Context, PrimitiveMode};
pub use error::ReglError;
pub use framebuffer::Framebuffer;
pub use options::RenderOption;
pub use program::Program;
pub use program::{AttributeInfo, ShaderAttribute, ShaderAttributeType};
pub use program::{BlockUniform, InterfaceBlock, Uniform, UniformInfo, UniformType};
pub use shader::{Shader, ShaderSource, ShaderType};
pub use vertex_array::{VertexArray, VertexAttribute, VertexAttributeType};

verus! {

/// A name that the hardware has given to one of its objects.
pub type GlId = gl::types::GLuint;

/// What an operation that can be refused returns.
pub type ReglResult<T> = Result<T, ReglError>;

} // verus!
