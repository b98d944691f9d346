use hello_triangle::commands::{clear_color, record_frame, FrameCommand, ResourceState, Rgba8};
use hello_triangle::sync::{FenceStep, FrameLoop, FramePhase, Submission};
use hello_triangle::targets::{
    rtv_handle, rtv_heap_config, swap_chain_config, FrameTargets, PixelFormat, FRAME_COUNT,
};

fn targets() -> FrameTargets {
    FrameTargets::new(0x1000, 32, 1024, 768).unwrap()
}

/// Runs one frame against a GPU that has completed up to `completed`, which
/// reports `next_index` afterwards. Returns the fence values handed to the waits.
fn run_frame(l: &mut FrameLoop, completed: &[u64], next_index: u32) -> (Submission, Vec<u64>) {
    let commands = l.begin_frame();
    assert_eq!(commands.len(), 13);
    let submission = l.submit();
    let mut waits = Vec::new();
    for &c in completed {
        match l.observe_fence(c) {
            FenceStep::Wait { value } => waits.push(value),
            FenceStep::Done => break,
        }
    }
    assert_eq!(l.phase(), FramePhase::Drained);
    l.next_back_buffer(next_index);
    (submission, waits)
}

#[test]
fn rtv_handles_step_by_queried_stride() {
    let t = FrameTargets::new(0x4000, 48, 640, 480).unwrap();
    assert_eq!(t.slot_handles(), [0x4000, 0x4000 + 48]);
    assert_eq!(t.handle_for(0), 0x4000);
    assert_eq!(t.handle_for(1), 0x4030);
    assert_eq!(rtv_handle(100, 7, 1), 107);
    let odd = FrameTargets::new(0, 33, 1, 1).unwrap();
    assert_eq!(odd.slot_handles(), [0, 33]);
}

#[test]
fn targets_refuse_handles_past_usize() {
    assert!(FrameTargets::new(usize::MAX - 10, 11, 1, 1).is_none());
    assert!(FrameTargets::new(usize::MAX - 10, 10, 1, 1).is_some());
}

#[test]
fn frame_records_barriers_around_clear_and_draw() {
    let t = targets();
    let c = record_frame(&t, 1);
    let handle = 0x1000 + 32;
    let expected = vec![
        FrameCommand::ResetAllocator,
        FrameCommand::ResetList,
        FrameCommand::SetRootSignature,
        FrameCommand::SetViewport { width: 1024, height: 768 },
        FrameCommand::SetScissorRect { width: 1024, height: 768 },
        FrameCommand::Barrier { buffer: 1, before: ResourceState::Present, after: ResourceState::RenderTarget },
        FrameCommand::SetRenderTarget { handle },
        FrameCommand::ClearRenderTarget { handle, color: Rgba8 { r: 0, g: 51, b: 102, a: 255 } },
        FrameCommand::SetTriangleList,
        FrameCommand::SetVertexBuffer { slot: 0 },
        FrameCommand::Draw { vertex_count: 3, instance_count: 1, start_vertex: 0, start_instance: 0 },
        FrameCommand::Barrier { buffer: 1, before: ResourceState::RenderTarget, after: ResourceState::Present },
        FrameCommand::Close,
    ];
    assert_eq!(c, expected);
    let c0 = record_frame(&t, 0);
    assert_eq!(c0[6], FrameCommand::SetRenderTarget { handle: 0x1000 });
}

#[test]
fn startup_hardware_path() {
    let sc = swap_chain_config(1024, 768);
    assert_eq!(sc.buffer_count, 2);
    assert_eq!(sc.format, PixelFormat::R8G8B8A8Unorm);
    assert_eq!((sc.width, sc.height), (1024, 768));
    assert_eq!((sc.sample_count, sc.sample_quality), (1, 0));
    assert!(sc.flip_discard && sc.render_target_output);
    assert_eq!(rtv_heap_config().num_descriptors, 2);
    assert!(!rtv_heap_config().shader_visible);
    let l = FrameLoop::new(targets(), 1);
    assert_eq!(l.fence_value(), 1);
    assert!(l.frame_index() < FRAME_COUNT);
    assert_eq!(l.phase(), FramePhase::Idle);
}

#[test]
fn resize_not_supported_alt_enter_disabled() {
    assert!(!swap_chain_config(1024, 768).alt_enter);
}

#[test]
fn single_frame_render() {
    let mut l = FrameLoop::new(targets(), 0);
    let (submission, waits) = run_frame(&mut l, &[0, 1], 1);
    assert_eq!(submission, Submission { sync_interval: 1, present_flags: 0, fence_value: 1 });
    assert_eq!(waits, vec![1]);
    assert!(l.completed() >= 1);
    assert_eq!(l.fence_value(), 2);
    assert_eq!(l.frame_index(), 1);
    assert_eq!(l.phase(), FramePhase::Idle);
}

#[test]
fn two_frames_ring_rotation() {
    for a in 0..2u32 {
        let mut l = FrameLoop::new(targets(), a);
        let mut seen = vec![l.frame_index()];
        let mut signaled = Vec::new();
        let (s1, _) = run_frame(&mut l, &[1], 1 - a);
        seen.push(l.frame_index());
        signaled.push(s1.fence_value);
        let (s2, waits) = run_frame(&mut l, &[1, 1, 2], a);
        seen.push(l.frame_index());
        signaled.push(s2.fence_value);
        assert_eq!(seen, vec![a, 1 - a, a]);
        assert_eq!(signaled, vec![1, 2]);
        assert_eq!(waits, vec![2, 2]);
        assert_eq!(l.fence_value(), 3);
    }
}

#[test]
fn fence_already_complete_needs_no_wait() {
    let mut l = FrameLoop::new(targets(), 0);
    l.begin_frame();
    let s = l.submit();
    assert_eq!(s.fence_value, 1);
    assert_eq!(l.phase(), FramePhase::Signaled { value: 1 });
    assert_eq!(l.observe_fence(5), FenceStep::Done);
    assert_eq!(l.completed(), 5);
}

#[test]
fn recording_follows_back_buffer_index() {
    let mut l = FrameLoop::new(targets(), 1);
    let c = l.begin_frame();
    assert_eq!(c[5], FrameCommand::Barrier { buffer: 1, before: ResourceState::Present, after: ResourceState::RenderTarget });
    l.submit();
    l.observe_fence(1);
    l.next_back_buffer(0);
    let c = l.begin_frame();
    assert_eq!(c[11], FrameCommand::Barrier { buffer: 0, before: ResourceState::RenderTarget, after: ResourceState::Present });
}

#[test]
fn clear_correctness() {
    let c = clear_color();
    assert_eq!((c.r, c.g, c.b, c.a), (0, 51, 102, 255));
    let floats = [c.r as f32 / 255.0, c.g as f32 / 255.0, c.b as f32 / 255.0, c.a as f32 / 255.0];
    assert_eq!(floats, [0.0f32, 0.2, 0.4, 1.0]);
}
