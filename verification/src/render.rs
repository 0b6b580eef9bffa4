//! What a render pass draws into.

use vstd::prelude::*;
use crate::pipeline::Operations;
use crate::texture::TextureView;

verus! {

/// Describes a render pass. `C` is the type of a clear color, `D` that of a
/// clear depth.
#[derive(Debug)]
pub struct RenderInfo<'a, C, D> {
    pub color_attachments: &'a [RenderAttachment<'a, C>],
    pub depth_attachment: Option<DepthAttachment<'a, D>>,
    pub stencil_attachment: Option<StencilAttachment<D>>,
    pub offset: (i32, i32),
    pub area: (u32, u32),
}

#[derive(Debug, Copy, Clone)]
pub struct RenderAttachment<'a, C> {
    pub view: &'a TextureView,
    pub ops: Operations<C>,
}

#[derive(Debug, Copy, Clone)]
pub struct DepthAttachment<'a, D> {
    pub view: &'a TextureView,
    pub ops: Operations<D>,
}

#[derive(Debug, Copy, Clone)]
pub struct StencilAttachment<D> {
    pub image: Option<u64>,
    pub ops: Operations<D>,
}

} // verus!
