use gpu_pipeline::device::{acquire, Capabilities, PhysicalDeviceInfo, QUEUE_PRIORITY_PERCENT};
use gpu_pipeline::engine::{CompletionSignal, Gpu};
use gpu_pipeline::error::GpuError;
use gpu_pipeline::pipeline::{compute_task, copy_task, graphics_task, image_task, iota};
use gpu_pipeline::raster::{covers, Triangle, Vertex, Viewport};
use gpu_pipeline::recorder::{ComputePipeline, GraphicsPipeline, Kernel, Op, Recorder};
use gpu_pipeline::resource::{to_bytes, Color, Format, Usage};
use gpu_pipeline::run::{advance, RunEvent, RunState};

fn caps(transfer: bool, compute: bool, graphics: bool) -> Capabilities {
    Capabilities { transfer, compute, graphics }
}

fn full_device() -> Vec<PhysicalDeviceInfo> {
    vec![PhysicalDeviceInfo { families: vec![caps(true, true, true)] }]
}

fn fresh_gpu() -> Gpu {
    let ctx = acquire(&full_device(), caps(true, true, true)).unwrap();
    Gpu::new(ctx)
}

fn no_usage() -> Usage {
    Usage {
        transfer_src: false,
        transfer_dst: false,
        storage: false,
        vertex: false,
        color_attachment: false,
    }
}

#[test]
fn acquire_without_devices_fails() {
    assert_eq!(acquire(&vec![], caps(true, false, false)), Err(GpuError::NoDeviceAvailable));
}

#[test]
fn acquire_without_suitable_family_fails() {
    let devices = vec![
        PhysicalDeviceInfo { families: vec![caps(true, false, false)] },
        PhysicalDeviceInfo { families: vec![caps(true, true, false), caps(false, false, false)] },
    ];
    assert_eq!(acquire(&devices, caps(false, false, true)), Err(GpuError::NoSuitableQueueFamily));
    assert_eq!(acquire(&devices, caps(false, false, true)), Err(GpuError::NoSuitableQueueFamily));
}

#[test]
fn acquire_picks_first_fitting_device_and_family() {
    let devices = vec![
        PhysicalDeviceInfo { families: vec![caps(true, false, false)] },
        PhysicalDeviceInfo {
            families: vec![caps(true, false, false), caps(true, true, true), caps(true, true, true)],
        },
        PhysicalDeviceInfo { families: vec![caps(true, true, true)] },
    ];
    let ctx = acquire(&devices, caps(false, true, false)).unwrap();
    assert_eq!(ctx.device_index, 1);
    assert_eq!(ctx.queue_family, 1);
    assert_eq!(ctx.capabilities, caps(true, true, true));
    assert_eq!(ctx.queue_priority_percent, QUEUE_PRIORITY_PERCENT);
    let ctx = acquire(&devices, caps(true, false, false)).unwrap();
    assert_eq!((ctx.device_index, ctx.queue_family), (0, 0));
}

#[test]
fn capability_cover() {
    assert!(caps(true, true, false).supports(&caps(true, false, false)));
    assert!(!caps(true, true, false).supports(&caps(false, false, true)));
    assert!(caps(false, false, false).supports(&caps(false, false, false)));
}

#[test]
fn allocation_rejects_empty_and_oversized() {
    let mut gpu = fresh_gpu();
    assert_eq!(gpu.allocate_buffer(0, Usage::all(), true), Err(GpuError::AllocationFailed));
    assert_eq!(gpu.allocate_buffer(67108865, Usage::all(), true), Err(GpuError::AllocationFailed));
    assert_eq!(
        gpu.allocate_image(0, 16, Format::Rgba8Unorm, Usage::all()),
        Err(GpuError::AllocationFailed)
    );
    assert_eq!(
        gpu.allocate_image(65536, 65536, Format::Rgba8Unorm, Usage::all()),
        Err(GpuError::AllocationFailed)
    );
    assert_eq!(gpu.resources.len(), 0);
    assert_eq!(gpu.allocate_buffer(4, Usage::all(), true), Ok(0));
    assert_eq!(gpu.allocate_image(2, 3, Format::Rgba8Unorm, Usage::all()), Ok(1));
    assert_eq!(gpu.resources[1].words, 6);
}

#[test]
fn draw_outside_render_pass_is_rejected() {
    let mut gpu = fresh_gpu();
    let _img = gpu.allocate_image(8, 8, Format::Rgba8Unorm, Usage::all()).unwrap();
    let mut rec = Recorder::begin(0);
    let tri = Triangle {
        a: Vertex { x: -4096, y: -4096 },
        b: Vertex { x: 4096, y: -4096 },
        c: Vertex { x: 0, y: 4096 },
    };
    let pipeline = GraphicsPipeline { color: Color { r: 1, g: 2, b: 3, a: 4 } };
    let vp = Viewport { width: 8, height: 8 };
    assert_eq!(rec.draw(&gpu.resources, &pipeline, tri, vp), Err(GpuError::InvalidRecordingState));
    assert_eq!(rec.end_render_pass(), Err(GpuError::InvalidRecordingState));
    assert_eq!(rec.ops.len(), 0);
}

#[test]
fn build_with_open_render_pass_is_incomplete() {
    let mut gpu = fresh_gpu();
    let img = gpu.allocate_image(8, 8, Format::Rgba8Unorm, Usage::all()).unwrap();
    let mut rec = Recorder::begin(0);
    rec.begin_render_pass(&gpu.resources, img, Color { r: 0, g: 0, b: 255, a: 255 }).unwrap();
    assert!(matches!(rec.build(), Err(GpuError::RecordingIncomplete)));
}

#[test]
fn build_with_closed_render_pass_succeeds() {
    let mut gpu = fresh_gpu();
    let img = gpu.allocate_image(8, 8, Format::Rgba8Unorm, Usage::all()).unwrap();
    let mut rec = Recorder::begin(0);
    rec.begin_render_pass(&gpu.resources, img, Color { r: 0, g: 0, b: 255, a: 255 }).unwrap();
    assert_eq!(
        rec.copy_buffer(&gpu.resources, img, img),
        Err(GpuError::InvalidRecordingState)
    );
    rec.end_render_pass().unwrap();
    let seq = rec.build().ok().unwrap();
    assert_eq!(seq.len(), 2);
    assert_eq!(seq.ops[1], Op::EndRenderPass);
}

#[test]
fn copy_checks_usage_and_size() {
    let mut gpu = fresh_gpu();
    let a = gpu.allocate_buffer(4, Usage::all(), true).unwrap();
    let b = gpu.allocate_buffer(5, Usage::all(), true).unwrap();
    let c = gpu.allocate_buffer(4, no_usage(), true).unwrap();
    let mut rec = Recorder::begin(0);
    assert_eq!(rec.copy_buffer(&gpu.resources, a, b), Err(GpuError::InvalidRecordingState));
    assert_eq!(rec.copy_buffer(&gpu.resources, a, c), Err(GpuError::InvalidRecordingState));
    assert_eq!(rec.copy_buffer(&gpu.resources, a, 9), Err(GpuError::InvalidRecordingState));
    assert_eq!(rec.copy_buffer(&gpu.resources, a, a), Ok(()));
}

#[test]
fn dispatch_must_fit_its_buffer() {
    let mut gpu = fresh_gpu();
    let buf = gpu.allocate_buffer(128, Usage::all(), true).unwrap();
    let pipeline = ComputePipeline { kernel: Kernel::MultiplyBy(2), local_size: 64 };
    let mut rec = Recorder::begin(0);
    assert_eq!(rec.dispatch(&gpu.resources, 3, &pipeline, buf), Err(GpuError::InvalidRecordingState));
    assert_eq!(rec.dispatch(&gpu.resources, 2, &pipeline, buf), Ok(()));
}

#[test]
fn submit_to_other_family_fails() {
    let mut gpu = fresh_gpu();
    let a = gpu.allocate_buffer(4, Usage::all(), true).unwrap();
    let b = gpu.allocate_buffer(4, Usage::all(), true).unwrap();
    let mut rec = Recorder::begin(3);
    rec.copy_buffer(&gpu.resources, a, b).unwrap();
    let seq = rec.build().ok().unwrap();
    assert_eq!(gpu.submit(seq), Err(GpuError::QueueSubmitFailed));
    assert_eq!(gpu.observed.len(), 0);
}

#[test]
fn read_before_wait_is_not_synchronized() {
    let mut gpu = fresh_gpu();
    let a = gpu.allocate_buffer(3, Usage::all(), true).unwrap();
    let b = gpu.allocate_buffer(3, Usage::all(), true).unwrap();
    gpu.write(a, vec![7, 8, 9]).unwrap();
    let mut rec = Recorder::begin(0);
    rec.copy_buffer(&gpu.resources, a, b).unwrap();
    let sig = gpu.submit(rec.build().ok().unwrap()).unwrap();
    assert_eq!(sig, CompletionSignal { id: 0 });
    assert!(!gpu.is_signaled(sig));
    assert_eq!(gpu.read(b), Err(GpuError::NotSynchronized));
    assert_eq!(gpu.write(b, vec![0, 0, 0]), Err(GpuError::NotSynchronized));
    assert_eq!(gpu.wait(sig, false), Err(GpuError::TimedOut));
    assert_eq!(gpu.read(b), Err(GpuError::NotSynchronized));
    assert_eq!(gpu.wait(sig, true), Ok(()));
    assert!(gpu.is_signaled(sig));
    assert_eq!(gpu.read(b), Ok(vec![7, 8, 9]));
}

#[test]
fn copy_delivers_source_contents() {
    let mut gpu = fresh_gpu();
    let a = gpu.allocate_buffer(4, Usage::all(), true).unwrap();
    let b = gpu.allocate_buffer(4, Usage::all(), true).unwrap();
    gpu.write(a, vec![0xdeadbeef, 1, 0, 0xffffffff]).unwrap();
    gpu.write(b, vec![5, 5, 5, 5]).unwrap();
    let mut rec = Recorder::begin(0);
    rec.copy_buffer(&gpu.resources, a, b).unwrap();
    let sig = gpu.submit(rec.build().ok().unwrap()).unwrap();
    gpu.wait(sig, true).unwrap();
    let src = to_bytes(&gpu.read(a).unwrap());
    let dst = to_bytes(&gpu.read(b).unwrap());
    assert_eq!(src, dst);
    assert_eq!(&dst[..4], &[0xef, 0xbe, 0xad, 0xde]);
}

#[test]
fn dispatch_multiplies_with_wrapping() {
    let mut gpu = fresh_gpu();
    let buf = gpu.allocate_buffer(4, Usage::all(), true).unwrap();
    gpu.write(buf, vec![1, 0x8000_0000, 5, 6]).unwrap();
    let pipeline = ComputePipeline { kernel: Kernel::MultiplyBy(3), local_size: 3 };
    let mut rec = Recorder::begin(0);
    rec.dispatch(&gpu.resources, 1, &pipeline, buf).unwrap();
    let sig = gpu.submit(rec.build().ok().unwrap()).unwrap();
    gpu.wait(sig, true).unwrap();
    assert_eq!(gpu.read(buf), Ok(vec![3, 0x8000_0000, 15, 6]));
}

#[test]
fn copy_scenario_yields_iota() {
    let (src, dst) = copy_task(&full_device()).unwrap();
    let expected: Vec<u32> = (0..64).collect();
    assert_eq!(src, expected);
    assert_eq!(dst, expected);
}

#[test]
fn compute_scenario_multiplies_by_twelve() {
    let out = compute_task(&full_device()).unwrap();
    assert_eq!(out.len(), 65536);
    for (i, v) in out.iter().enumerate() {
        assert_eq!(*v, i as u32 * 12);
    }
}

#[test]
fn scenarios_fail_without_device() {
    assert_eq!(compute_task(&vec![]), Err(GpuError::NoDeviceAvailable));
    let transfer_only = vec![PhysicalDeviceInfo { families: vec![caps(true, false, false)] }];
    assert_eq!(graphics_task(&transfer_only), Err(GpuError::NoSuitableQueueFamily));
    assert!(copy_task(&transfer_only).is_ok());
}

#[test]
fn image_scenario_is_uniformly_yellow() {
    let out = image_task(&full_device()).unwrap();
    assert_eq!(out.len(), 1024 * 1024);
    let bytes = to_bytes(&out);
    assert_eq!(bytes.len(), 4 * 1024 * 1024);
    assert!(bytes.chunks(4).all(|p| p == [255, 255, 0, 255]));
}

#[test]
fn graphics_scenario_draws_red_triangle_on_blue() {
    let out = graphics_task(&full_device()).unwrap();
    let red = Color { r: 255, g: 0, b: 0, a: 255 }.pack();
    let blue = Color { r: 0, g: 0, b: 255, a: 255 }.pack();
    assert_eq!(out.len(), 1024 * 1024);
    assert_eq!(out[469 * 1024 + 512], red);
    let mut reds = 0usize;
    for (j, w) in out.iter().enumerate() {
        let (x, y) = (j % 1024, j / 1024);
        if x < 256 || x > 768 || y < 256 || y > 768 {
            assert_eq!(*w, blue);
        } else if *w == red {
            reds += 1;
        } else {
            assert_eq!(*w, blue);
        }
    }
    assert!(reds > 0);
}

#[test]
fn packing_and_bytes_are_little_endian_rgba() {
    let c = Color { r: 1, g: 2, b: 3, a: 4 };
    assert_eq!(c.pack(), 0x04030201);
    assert_eq!(to_bytes(&vec![0x04030201, 0xff]), vec![1, 2, 3, 4, 0xff, 0, 0, 0]);
    assert_eq!(iota(3), vec![0, 1, 2]);
}

#[test]
fn coverage_of_pixel_centres() {
    let tri = Triangle {
        a: Vertex { x: -4096, y: -4096 },
        b: Vertex { x: 4096, y: -4096 },
        c: Vertex { x: -4096, y: 4096 },
    };
    let vp = Viewport { width: 4, height: 4 };
    assert!(covers(&tri, &vp, 0, 0));
    assert!(covers(&tri, &vp, 1, 2));
    assert!(!covers(&tri, &vp, 3, 3));
    assert!(!covers(&tri, &vp, 2, 2));
    let flat = Triangle { a: tri.a, b: tri.a, c: tri.a };
    assert!(!covers(&flat, &vp, 0, 0));
}

#[test]
fn run_states_advance_in_order() {
    let mut s = RunState::Created;
    assert_eq!(advance(s, RunEvent::Read), Err(GpuError::NotSynchronized));
    assert_eq!(advance(s, RunEvent::Submit), Err(GpuError::InvalidRecordingState));
    for (e, n) in [
        (RunEvent::Allocate, RunState::ResourcesAllocated),
        (RunEvent::Allocate, RunState::ResourcesAllocated),
        (RunEvent::Record, RunState::Recorded),
        (RunEvent::Submit, RunState::Submitted),
    ] {
        s = advance(s, e).unwrap();
        assert_eq!(s, n);
    }
    assert_eq!(advance(s, RunEvent::Read), Err(GpuError::NotSynchronized));
    assert_eq!(advance(s, RunEvent::WaitTimedOut), Err(GpuError::TimedOut));
    s = advance(s, RunEvent::WaitCompleted).unwrap();
    assert_eq!(s, RunState::Completed);
    assert_eq!(advance(s, RunEvent::Read), Ok(RunState::Completed));
}

#[test]
fn idle_only_after_every_signal_observed() {
    let mut gpu = fresh_gpu();
    assert!(gpu.is_idle());
    let a = gpu.allocate_buffer(2, Usage::all(), true).unwrap();
    let b = gpu.allocate_buffer(2, Usage::all(), true).unwrap();
    let mut rec = Recorder::begin(0);
    rec.copy_buffer(&gpu.resources, a, b).unwrap();
    let first = gpu.submit(rec.build().ok().unwrap()).unwrap();
    let mut rec = Recorder::begin(0);
    rec.copy_buffer(&gpu.resources, b, a).unwrap();
    let second = gpu.submit(rec.build().ok().unwrap()).unwrap();
    assert_eq!(second.id, 1);
    gpu.wait(second, true).unwrap();
    assert!(!gpu.is_idle());
    gpu.wait(first, true).unwrap();
    assert!(gpu.is_idle());
}
