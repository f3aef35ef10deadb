//! Switches of the rendering pipeline.

use vstd::prelude::*;
use gl::types::GLenum;
use crate::call::GlCall;
use crate::glenum::{CULL_FACE, DEPTH_TEST};

verus! {

/// A switch of the rendering pipeline, and whether it is to be on.
#[derive(Debug, Clone, Copy, PartialEq, Eq, Structural)]
pub enum RenderOption {
    /// The depth test.
    DepthTest(bool),
    /// The culling of faces that look away.
    CullingEnabled(bool),
}

/// The call that turns the capability `cap` on or off.
pub open spec fn capability_call(cap: GLenum, enable: bool) -> GlCall {
    if enable {
        GlCall::Enable { cap }
    } else {
        GlCall::Disable { cap }
    }
}

impl RenderOption {
    /// The call that sets the option.
    pub open spec fn call(self) -> GlCall {
        match self {
            RenderOption::DepthTest(enable) => capability_call(DEPTH_TEST, enable),
            RenderOption::CullingEnabled(enable) => capability_call(CULL_FACE, enable),
        }
    }
}

/// Sets a switch of the rendering pipeline.
pub fn set_option(option: RenderOption, calls: &mut Vec<GlCall>)
    ensures
        final(calls)@ == old(calls)@.push(option.call()),
{
    match option {
        RenderOption::DepthTest(enable) => set_capability(DEPTH_TEST, enable, calls),
        RenderOption::CullingEnabled(enable) => set_capability(CULL_FACE, enable, calls),
    }
}

fn set_capability(cap: GLenum, enable: bool, calls: &mut Vec<GlCall>)
    ensures
        final(calls)@ == old(calls)@.push(capability_call(cap, enable)),
{
    if enable {
        calls.push(GlCall::Enable { cap });
    } else {
        calls.push(GlCall::Disable { cap });
    }
}

} // verus!
