//! The command stream recorded into a frame slot's command buffer.
//!
//! Recording is pure bookkeeping: the scheduler decides the exact sequence of
//! drawing commands for a frame, and the code that owns the device replays it
//! into the real command buffer. The one hard rule — the framebuffer is the
//! one of the acquired swapchain image, while the viewport and scissor come
//! from the swapchain extent — is pinned here.

use vstd::prelude::*;

use crate::swapchain::Extent2D;

verus! {

/// One drawing command, in the order it is recorded.
#[derive(Clone, Copy, PartialEq, Eq, Structural, Debug)]
pub enum RenderCommand {
    /// Begin the render pass on the framebuffer of the given swapchain image,
    /// clearing the whole render area of the given extent.
    BeginRenderPass { framebuffer_index: usize, render_area: Extent2D },
    /// Bind the fixed graphics pipeline.
    BindPipeline,
    /// Set the dynamic viewport to the full extent.
    SetViewport { extent: Extent2D },
    /// Set the dynamic scissor to the full extent.
    SetScissor { extent: Extent2D },
    /// Draw `vertex_count` vertices in `instance_count` instances.
    Draw { vertex_count: u32, instance_count: u32, first_vertex: u32, first_instance: u32 },
    /// End the render pass.
    EndRenderPass,
}

/// The exact command stream of one frame: one render pass over the acquired
/// image's framebuffer, the bound pipeline, the full-extent viewport and
/// scissor, and the fixed three-vertex draw.
pub open spec fn frame_commands(image_index: usize, extent: Extent2D) -> Seq<RenderCommand> {
    seq![
        RenderCommand::BeginRenderPass { framebuffer_index: image_index, render_area: extent },
        RenderCommand::BindPipeline,
        RenderCommand::SetViewport { extent },
        RenderCommand::SetScissor { extent },
        RenderCommand::Draw {
            vertex_count: 3,
            instance_count: 1,
            first_vertex: 0,
            first_instance: 0,
        },
        RenderCommand::EndRenderPass,
    ]
}

/// Records the command stream for the frame that will draw into the swapchain
/// image at `image_index`: exactly the six commands of `frame_commands`, with
/// every framebuffer reference indexed by the image, not by the frame slot.
pub fn record_command_buffer(image_index: usize, extent: Extent2D) -> (r: Vec<RenderCommand>)
    ensures
        r@ == frame_commands(image_index, extent),
{
    let mut r: Vec<RenderCommand> = Vec::new();
    r.push(RenderCommand::BeginRenderPass { framebuffer_index: image_index, render_area: extent });
    r.push(RenderCommand::BindPipeline);
    r.push(RenderCommand::SetViewport { extent });
    r.push(RenderCommand::SetScissor { extent });
    r.push(
        RenderCommand::Draw { vertex_count: 3, instance_count: 1, first_vertex: 0, first_instance: 0 },
    );
    r.push(RenderCommand::EndRenderPass);
    assert(r@ =~= frame_commands(image_index, extent));
    r
}

} // verus!
