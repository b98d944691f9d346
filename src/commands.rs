//! One frame's recording, as the sequence of commands the graphics API receives.

use vstd::prelude::*;
use crate::targets::{FrameTargets, FRAME_COUNT, rtv_address};

verus! {

/// The two states a back buffer moves between.
#[derive(Clone, Copy, Debug, PartialEq, Eq, Structural)]
pub enum ResourceState {
    /// Owned by the display engine.
    Present,
    /// Owned by the draw.
    RenderTarget,
}

/// A color as four 8-bit unsigned-normalized channels.
#[derive(Clone, Copy, Debug, PartialEq, Eq, Structural)]
pub struct Rgba8 {
    pub r: u8,
    pub g: u8,
    pub b: u8,
    pub a: u8,
}

/// The color each frame is cleared to: (0.0, 0.2, 0.4, 1.0) in unit floats.
pub open spec fn spec_clear_color() -> Rgba8 {
    Rgba8 { r: 0, g: 51, b: 102, a: 255 }
}

/// The color each frame is cleared to; each channel divided by 255 gives the
/// float color handed to the clear.
pub fn clear_color() -> (r: Rgba8)
    ensures
        r == spec_clear_color(),
{
    Rgba8 { r: 0, g: 51, b: 102, a: 255 }
}

/// One step of a frame's recording, in the order the graphics API receives it.
#[derive(Clone, Copy, Debug, PartialEq, Eq, Structural)]
pub enum FrameCommand {
    /// Reset the command allocator.
    ResetAllocator,
    /// Reset the command list against the allocator and the pipeline state.
    ResetList,
    SetRootSignature,
    /// One viewport over the whole window.
    SetViewport { width: u32, height: u32 },
    /// One scissor rectangle over the whole window.
    SetScissorRect { width: u32, height: u32 },
    /// A transition barrier on back buffer `buffer`.
    Barrier { buffer: u32, before: ResourceState, after: ResourceState },
    /// Bind one render target, by its view's CPU handle.
    SetRenderTarget { handle: usize },
    ClearRenderTarget { handle: usize, color: Rgba8 },
    SetTriangleList,
    /// Bind the vertex buffer view at input slot `slot`.
    SetVertexBuffer { slot: u32 },
    Draw { vertex_count: u32, instance_count: u32, start_vertex: u32, start_instance: u32 },
    /// Close the command list.
    Close,
}

/// Number of commands in one frame.
pub const FRAME_LENGTH: usize = 13;

/// Command `k` of the frame that renders into back buffer `frame_index`.
pub open spec fn frame_command(t: FrameTargets, frame_index: u32, k: int) -> FrameCommand {
    let handle = rtv_address(t.heap_start, t.stride, frame_index as int) as usize;
    if k == 0 {
        FrameCommand::ResetAllocator
    } else if k == 1 {
        FrameCommand::ResetList
    } else if k == 2 {
        FrameCommand::SetRootSignature
    } else if k == 3 {
        FrameCommand::SetViewport { width: t.width, height: t.height }
    } else if k == 4 {
        FrameCommand::SetScissorRect { width: t.width, height: t.height }
    } else if k == 5 {
        FrameCommand::Barrier {
            buffer: frame_index,
            before: ResourceState::Present,
            after: ResourceState::RenderTarget,
        }
    } else if k == 6 {
        FrameCommand::SetRenderTarget { handle }
    } else if k == 7 {
        FrameCommand::ClearRenderTarget { handle, color: spec_clear_color() }
    } else if k == 8 {
        FrameCommand::SetTriangleList
    } else if k == 9 {
        FrameCommand::SetVertexBuffer { slot: 0 }
    } else if k == 10 {
        FrameCommand::Draw { vertex_count: 3, instance_count: 1, start_vertex: 0, start_instance: 0 }
    } else if k == 11 {
        FrameCommand::Barrier {
            buffer: frame_index,
            before: ResourceState::RenderTarget,
            after: ResourceState::Present,
        }
    } else {
        FrameCommand::Close
    }
}

/// The whole recording of the frame that renders into back buffer `frame_index`.
pub open spec fn frame_commands(t: FrameTargets, frame_index: u32) -> Seq<FrameCommand> {
    Seq::new(FRAME_LENGTH as nat, |k: int| frame_command(t, frame_index, k))
}

/// Records one frame into back buffer `frame_index`: reset the allocator and the
/// list, set state, move the buffer from PRESENT to RENDER_TARGET, bind and clear
/// its view, draw the triangle, move it back to PRESENT, close.
pub fn record_frame(t: &FrameTargets, frame_index: u32) -> (r: Vec<FrameCommand>)
    requires
        t.wf(),
        frame_index < FRAME_COUNT,
    ensures
        r@ == frame_commands(*t, frame_index),
{
    let handle = t.handle_for(frame_index);
    let mut r: Vec<FrameCommand> = Vec::new();
    r.push(FrameCommand::ResetAllocator);
    r.push(FrameCommand::ResetList);
    r.push(FrameCommand::SetRootSignature);
    r.push(FrameCommand::SetViewport { width: t.width, height: t.height });
    r.push(FrameCommand::SetScissorRect { width: t.width, height: t.height });
    r.push(
        FrameCommand::Barrier {
            buffer: frame_index,
            before: ResourceState::Present,
            after: ResourceState::RenderTarget,
        },
    );
    r.push(FrameCommand::SetRenderTarget { handle });
    r.push(FrameCommand::ClearRenderTarget { handle, color: clear_color() });
    r.push(FrameCommand::SetTriangleList);
    r.push(FrameCommand::SetVertexBuffer { slot: 0 });
    r.push(
        FrameCommand::Draw { vertex_count: 3, instance_count: 1, start_vertex: 0, start_instance: 0 },
    );
    r.push(
        FrameCommand::Barrier {
            buffer: frame_index,
            before: ResourceState::RenderTarget,
            after: ResourceState::Present,
        },
    );
    r.push(FrameCommand::Close);
    assert(r@ =~= frame_commands(*t, frame_index));
    r
}

/// Whether a command writes to or binds the frame's render target.
pub open spec fn uses_target(c: FrameCommand) -> bool {
    c is SetRenderTarget || c is ClearRenderTarget || c is Draw
}

/// The transition of back buffer `buffer` from `before` to `after`.
pub open spec fn transition(buffer: u32, before: ResourceState, after: ResourceState) -> FrameCommand {
    FrameCommand::Barrier { buffer, before, after }
}

/// Every recorded frame moves its back buffer from PRESENT to RENDER_TARGET exactly
/// once, before every command that binds, clears or draws to it, and back from
/// RENDER_TARGET to PRESENT exactly once, after all of them; the list is closed
/// last, and only there.
pub proof fn lemma_back_buffer_lifecycle(t: FrameTargets, frame_index: u32)
    requires
        t.wf(),
        frame_index < FRAME_COUNT,
    ensures
        ({
            let s = frame_commands(t, frame_index);
            let acquire = transition(frame_index, ResourceState::Present, ResourceState::RenderTarget);
            let release = transition(frame_index, ResourceState::RenderTarget, ResourceState::Present);
            exists|i: int, j: int|
                {
                    &&& 0 <= i < j < s.len() - 1
                    &&& #[trigger] s[i] == acquire
                    &&& #[trigger] s[j] == release
                    &&& forall|k: int| 0 <= k < s.len() && k != i ==> s[k] != acquire
                    &&& forall|k: int| 0 <= k < s.len() && k != j ==> s[k] != release
                    &&& forall|k: int| 0 <= k < s.len() && uses_target(#[trigger] s[k]) ==> i < k < j
                }
        }),
        frame_commands(t, frame_index).last() == FrameCommand::Close,
        forall|k: int|
            0 <= k < FRAME_LENGTH - 1 ==> #[trigger] frame_commands(t, frame_index)[k] != FrameCommand::Close,
{
    let s = frame_commands(t, frame_index);
    assert(s[5] == transition(frame_index, ResourceState::Present, ResourceState::RenderTarget));
    assert(s[11] == transition(frame_index, ResourceState::RenderTarget, ResourceState::Present));
}

/// The render target a frame binds and clears is the view in slot `frame_index`:
/// the heap start plus `frame_index` times the queried stride.
pub proof fn lemma_frame_uses_its_slot(t: FrameTargets, frame_index: u32)
    requires
        t.wf(),
        frame_index < FRAME_COUNT,
    ensures
        forall|k: int|
            0 <= k < FRAME_LENGTH ==> match #[trigger] frame_commands(t, frame_index)[k] {
                FrameCommand::SetRenderTarget { handle } => handle == rtv_address(
                    t.heap_start,
                    t.stride,
                    frame_index as int,
                ),
                FrameCommand::ClearRenderTarget { handle, .. } => handle == rtv_address(
                    t.heap_start,
                    t.stride,
                    frame_index as int,
                ),
                _ => true,
            },
{
    assert(t.heap_start + frame_index * t.stride <= t.heap_start + (FRAME_COUNT - 1) * t.stride)
        by (nonlinear_arith)
        requires
            frame_index < FRAME_COUNT,
    ;
}

} // verus!
