//! The swap chain, the render-target-view heap, and the address of each view.

use vstd::prelude::*;

verus! {

/// Number of back buffers in the swap chain, and of render-target-view slots.
pub const FRAME_COUNT: u32 = 2;

/// CPU address of render-target-view slot `slot` in a heap starting at `heap_start`,
/// whose slots are `stride` bytes apart.
pub open spec fn rtv_address(heap_start: usize, stride: usize, slot: int) -> int {
    heap_start + slot * stride
}

/// Whether every slot of a `FRAME_COUNT`-slot heap has an address that fits a `usize`.
pub open spec fn heap_fits(heap_start: usize, stride: usize) -> bool {
    rtv_address(heap_start, stride, FRAME_COUNT - 1) <= usize::MAX
}

/// The CPU descriptor handle of slot `slot`: the heap start plus `slot` strides.
/// The stride is the one the device reports for render-target views.
pub fn rtv_handle(heap_start: usize, stride: usize, slot: usize) -> (r: usize)
    requires
        slot < FRAME_COUNT,
        heap_fits(heap_start, stride),
    ensures
        r == rtv_address(heap_start, stride, slot as int),
{
    proof {
        assert(slot as int * stride <= (FRAME_COUNT - 1) * stride) by (nonlinear_arith)
            requires
                slot < FRAME_COUNT,
        ;
    }
    heap_start + slot * stride
}

/// Relies on array_init::array_init, which fills element `i` with what the
/// initializer returns for `i`, in order of `i`.
#[verifier::external_body]
fn slot_handles(heap_start: usize, stride: usize) -> (r: [usize; 2])
    requires
        heap_fits(heap_start, stride),
    ensures
        forall|i: int| 0 <= i < FRAME_COUNT ==> r@[i] == rtv_address(heap_start, stride, i),
{
    array_init::array_init(|i: usize| rtv_handle(heap_start, stride, i))
}

/// Pixel formats the pipeline names.
#[derive(Clone, Copy, Debug, PartialEq, Eq, Structural)]
pub enum PixelFormat {
    R8G8B8A8Unorm,
    R32G32B32Float,
    R32G32B32A32Float,
}

/// What the swap chain is created with.
#[derive(Clone, Copy, Debug, PartialEq, Eq, Structural)]
pub struct SwapChainConfig {
    pub buffer_count: u32,
    pub width: u32,
    pub height: u32,
    pub format: PixelFormat,
    /// The buffers are used as render-target output.
    pub render_target_output: bool,
    /// Flip-discard presentation model.
    pub flip_discard: bool,
    pub sample_count: u32,
    pub sample_quality: u32,
    /// Whether alt-enter may switch the window to fullscreen.
    pub alt_enter: bool,
}

/// The swap chain of a `width` by `height` client area: `FRAME_COUNT` buffers of
/// R8G8B8A8_UNORM, flip-discard, one sample, no fullscreen transitions.
pub fn swap_chain_config(width: u32, height: u32) -> (r: SwapChainConfig)
    ensures
        r == (SwapChainConfig {
            buffer_count: FRAME_COUNT,
            width,
            height,
            format: PixelFormat::R8G8B8A8Unorm,
            render_target_output: true,
            flip_discard: true,
            sample_count: 1,
            sample_quality: 0,
            alt_enter: false,
        }),
{
    SwapChainConfig {
        buffer_count: FRAME_COUNT,
        width,
        height,
        format: PixelFormat::R8G8B8A8Unorm,
        render_target_output: true,
        flip_discard: true,
        sample_count: 1,
        sample_quality: 0,
        alt_enter: false,
    }
}

/// What the render-target-view descriptor heap is created with.
#[derive(Clone, Copy, Debug, PartialEq, Eq, Structural)]
pub struct RtvHeapConfig {
    pub num_descriptors: u32,
    pub shader_visible: bool,
}

/// One descriptor per back buffer, not visible to shaders.
pub fn rtv_heap_config() -> (r: RtvHeapConfig)
    ensures
        r == (RtvHeapConfig { num_descriptors: FRAME_COUNT, shader_visible: false }),
{
    RtvHeapConfig { num_descriptors: FRAME_COUNT, shader_visible: false }
}

/// Where the back buffers' views live and how large the window is: what each
/// frame's recording needs besides the back-buffer index.
#[derive(Clone, Copy, Debug, PartialEq, Eq, Structural)]
pub struct FrameTargets {
    /// CPU handle of the first slot of the render-target-view heap.
    pub heap_start: usize,
    /// Distance between two slots, as the device reports it.
    pub stride: usize,
    pub width: u32,
    pub height: u32,
}

impl FrameTargets {
    /// Every slot's handle fits a `usize`.
    pub open spec fn wf(&self) -> bool {
        heap_fits(self.heap_start, self.stride)
    }

    /// Targets over a heap at `heap_start` with the queried `stride`, or `None`
    /// where the last slot's handle would not fit a `usize`.
    pub fn new(heap_start: usize, stride: usize, width: u32, height: u32) -> (r: Option<FrameTargets>)
        ensures
            r == (if heap_fits(heap_start, stride) {
                Some(FrameTargets { heap_start, stride, width, height })
            } else {
                None
            }),
    {
        if stride <= usize::MAX - heap_start {
            Some(FrameTargets { heap_start, stride, width, height })
        } else {
            None
        }
    }

    /// The handle of each slot, in slot order: slot `i` is `heap_start + i * stride`.
    pub fn slot_handles(&self) -> (r: [usize; 2])
        requires
            self.wf(),
        ensures
            forall|i: int| 0 <= i < FRAME_COUNT ==> r@[i] == rtv_address(self.heap_start, self.stride, i),
    {
        slot_handles(self.heap_start, self.stride)
    }

    /// The handle of the slot that describes back buffer `frame_index`.
    pub fn handle_for(&self, frame_index: u32) -> (r: usize)
        requires
            self.wf(),
            frame_index < FRAME_COUNT,
        ensures
            r == rtv_address(self.heap_start, self.stride, frame_index as int),
    {
        rtv_handle(self.heap_start, self.stride, frame_index as usize)
    }
}

} // verus!
