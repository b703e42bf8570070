use vstd::prelude::*;
use crate::format::TextureFormat;
use crate::surface::{DepthAttachment, SurfaceConfiguration, SurfaceSize};

verus! {

/// `0.3` as an IEEE-754 double, the gray that every frame is cleared to.
pub const CLEAR_GRAY_BITS: u64 = 0x3FD3_3333_3333_3333;

/// `1.0` as an IEEE-754 double.
pub const OPAQUE_ALPHA_BITS: u64 = 0x3FF0_0000_0000_0000;

/// `1.0` as an IEEE-754 single, the farthest depth.
pub const FAR_DEPTH_BITS: u32 = 0x3F80_0000;

/// Vertices of the one primitive that a frame draws.
pub const TRIANGLE_VERTICES: u32 = 3;

/// A color given by the bit patterns of four IEEE-754 doubles.
#[derive(Clone, Copy, Debug, PartialEq, Eq)]
pub struct ClearColor {
    pub r: u64,
    pub g: u64,
    pub b: u64,
    pub a: u64,
}

/// The targets of a render pass and what they are cleared to before drawing.
#[derive(Clone, Copy, Debug, PartialEq, Eq)]
pub struct RenderPassDescriptor {
    /// Extent of both attachments.
    pub target_size: SurfaceSize,
    /// Format of the view onto the acquired image.
    pub color_view_format: TextureFormat,
    pub clear_color: ClearColor,
    /// Generation of the depth attachment that the pass writes.
    pub depth_generation: u64,
    pub depth_format: TextureFormat,
    /// Bit pattern of the IEEE-754 single that depth is cleared to.
    pub clear_depth: u32,
    pub clear_stencil: u32,
}

/// One step for the caller to carry out against the window or the GPU.
#[derive(Clone, Copy, Debug, PartialEq, Eq)]
pub enum Command {
    /// Compile the render pipeline from the state's pipeline description.
    CreatePipeline,
    /// Copy the state's geometry into a GPU buffer for vertex input.
    CreateVertexBuffer,
    /// Apply a configuration to the surface.
    ConfigureSurface(SurfaceConfiguration),
    /// Replace the depth texture by a new one.
    CreateDepthAttachment(DepthAttachment),
    BeginRenderPass(RenderPassDescriptor),
    SetPipeline,
    /// Bind the whole geometry buffer to a vertex input slot.
    SetVertexBuffer { slot: u32 },
    Draw { first_vertex: u32, vertex_count: u32, first_instance: u32, instance_count: u32 },
    EndRenderPass,
    /// Hand the recorded pass to the queue.
    Submit,
    /// Tell the window that presentation is imminent.
    PrePresentNotify,
    Present,
}

/// How many draw calls a command sequence holds.
pub open spec fn draw_count(commands: Seq<Command>) -> nat
    decreases commands.len(),
{
    if commands.len() == 0 {
        0
    } else {
        draw_count(commands.drop_last()) + if commands.last() is Draw {
            1nat
        } else {
            0nat
        }
    }
}

/// How many submissions to the queue a command sequence holds.
pub open spec fn submit_count(commands: Seq<Command>) -> nat
    decreases commands.len(),
{
    if commands.len() == 0 {
        0
    } else {
        submit_count(commands.drop_last()) + if commands.last() is Submit {
            1nat
        } else {
            0nat
        }
    }
}

/// How many presentations a command sequence holds.
pub open spec fn present_count(commands: Seq<Command>) -> nat
    decreases commands.len(),
{
    if commands.len() == 0 {
        0
    } else {
        present_count(commands.drop_last()) + if commands.last() is Present {
            1nat
        } else {
            0nat
        }
    }
}

/// Appending one command adds it to each count that it belongs to.
pub proof fn lemma_counts_push(commands: Seq<Command>, next: Command)
    ensures
        draw_count(commands.push(next)) == draw_count(commands) + if next is Draw {
            1nat
        } else {
            0nat
        },
        submit_count(commands.push(next)) == submit_count(commands) + if next is Submit {
            1nat
        } else {
            0nat
        },
        present_count(commands.push(next)) == present_count(commands) + if next is Present {
            1nat
        } else {
            0nat
        },
{
    assert(commands.push(next).drop_last() =~= commands);
}

} // verus!
