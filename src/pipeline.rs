use vstd::prelude::*;
use crate::device::{Capabilities, PhysicalDeviceInfo, acquire, any_device_fits};
use crate::engine::{Gpu, run_ops};
use crate::error::GpuError;
use crate::laws::{law_copy_preserves_contents, law_dispatch_multiplies};
use crate::recorder::{ComputePipeline, Kernel, Op, Recorder};
use crate::raster::{Triangle, Vertex, Viewport, covered};
use crate::recorder::GraphicsPipeline;
use crate::resource::{Color, Format, Usage, packed};

verus! {

/// Elements of each buffer in the copy task.
pub const COPY_ELEMENTS: usize = 64;

/// Elements of the buffer in the compute task.
pub const COMPUTE_ELEMENTS: usize = 65536;

/// Factor of the compute task's kernel.
pub const COMPUTE_FACTOR: u32 = 12;

/// Invocations per workgroup of the compute task's kernel.
pub const COMPUTE_LOCAL_SIZE: u32 = 64;

/// `0, 1, ..., n - 1`.
pub open spec fn iota_seq(n: nat) -> Seq<u32> {
    Seq::new(n, |i: int| i as u32)
}

pub fn iota(n: usize) -> (r: Vec<u32>)
    requires
        n <= 0x1_0000_0000,
    ensures
        r@ == iota_seq(n as nat),
{
    let mut v: Vec<u32> = Vec::new();
    let mut i: usize = 0;
    while i < n
        invariant
            i <= n,
            n <= 0x1_0000_0000,
            v@ == iota_seq(i as nat),
        decreases n - i,
    {
        v.push(i as u32);
        i = i + 1;
        assert(v@ =~= iota_seq(i as nat));
    }
    v
}

/// How a pipeline run that fails at device acquisition fails.
pub open spec fn acquisition_outcome<T>(
    devices: Seq<PhysicalDeviceInfo>,
    required: Capabilities,
    r: Result<T, GpuError>,
) -> bool {
    &&& (r == Err::<T, GpuError>(GpuError::NoDeviceAvailable)) <==> devices.len() == 0
    &&& (r == Err::<T, GpuError>(GpuError::NoSuitableQueueFamily)) <==> (devices.len() > 0
        && !any_device_fits(devices, required))
    &&& r is Err ==> (devices.len() == 0 || !any_device_fits(devices, required))
}

pub open spec fn transfer_caps() -> Capabilities {
    Capabilities { transfer: true, compute: false, graphics: false }
}

pub open spec fn compute_caps() -> Capabilities {
    Capabilities { transfer: false, compute: true, graphics: false }
}

/// Copies `0..COPY_ELEMENTS` from a host-visible source buffer into a
/// destination buffer on the device, and reads both back after completion.
pub fn copy_task(devices: &Vec<PhysicalDeviceInfo>) -> (r: Result<(Vec<u32>, Vec<u32>), GpuError>)
    ensures
        acquisition_outcome(devices@, transfer_caps(), r),
        r matches Ok((src, dst)) ==> src@ == iota_seq(COPY_ELEMENTS as nat) && dst@ == src@,
{
    let caps = Capabilities { transfer: true, compute: false, graphics: false };
    let ctx = match acquire(devices, caps) {
        Ok(c) => c,
        Err(e) => return Err(e),
    };
    let mut gpu = Gpu::new(ctx);
    let src = match gpu.allocate_buffer(COPY_ELEMENTS, Usage::all(), true) {
        Ok(h) => h,
        Err(e) => return Err(e),
    };
    let dst = match gpu.allocate_buffer(COPY_ELEMENTS, Usage::all(), true) {
        Ok(h) => h,
        Err(e) => return Err(e),
    };
    let zeros = crate::engine::zeros(COPY_ELEMENTS);
    if let Err(e) = gpu.write(src, iota(COPY_ELEMENTS)) {
        return Err(e);
    }
    if let Err(e) = gpu.write(dst, zeros) {
        return Err(e);
    }
    let ghost before = gpu.contents();
    let mut rec = Recorder::begin(ctx.queue_family);
    if let Err(e) = rec.copy_buffer(&gpu.resources, src, dst) {
        return Err(e);
    }
    let seq = match rec.build() {
        Ok(s) => s,
        Err(e) => return Err(e),
    };
    let ghost ops = seq.ops@;
    let sig = match gpu.submit(seq) {
        Ok(s) => s,
        Err(e) => return Err(e),
    };
    if let Err(e) = gpu.wait(sig, true) {
        return Err(e);
    }
    proof {
        assert(ops[0] == (Op::CopyBuffer { src, dst }));
        law_copy_preserves_contents(ops, before, gpu.resources@, 0, src, dst);
    }
    let s = match gpu.read(src) {
        Ok(v) => v,
        Err(e) => return Err(e),
    };
    let d = match gpu.read(dst) {
        Ok(v) => v,
        Err(e) => return Err(e),
    };
    proof {
        reveal_with_fuel(run_ops, 2);
    }
    Ok((s, d))
}

/// Fills a buffer with `0..COMPUTE_ELEMENTS`, multiplies every element by
/// `COMPUTE_FACTOR` in a compute dispatch, and reads the buffer back.
pub fn compute_task(devices: &Vec<PhysicalDeviceInfo>) -> (r: Result<Vec<u32>, GpuError>)
    ensures
        acquisition_outcome(devices@, compute_caps(), r),
        r matches Ok(v) ==> v@.len() == COMPUTE_ELEMENTS && forall|i: int|
            0 <= i < COMPUTE_ELEMENTS ==> #[trigger] v@[i] == i * COMPUTE_FACTOR,
{
    let caps = Capabilities { transfer: false, compute: true, graphics: false };
    let ctx = match acquire(devices, caps) {
        Ok(c) => c,
        Err(e) => return Err(e),
    };
    let mut gpu = Gpu::new(ctx);
    let buf = match gpu.allocate_buffer(COMPUTE_ELEMENTS, Usage::all(), true) {
        Ok(h) => h,
        Err(e) => return Err(e),
    };
    if let Err(e) = gpu.write(buf, iota(COMPUTE_ELEMENTS)) {
        return Err(e);
    }
    let ghost before = gpu.contents();
    let pipeline = ComputePipeline {
        kernel: Kernel::MultiplyBy(COMPUTE_FACTOR),
        local_size: COMPUTE_LOCAL_SIZE,
    };
    let mut rec = Recorder::begin(ctx.queue_family);
    let groups: u32 = (COMPUTE_ELEMENTS / COMPUTE_LOCAL_SIZE as usize) as u32;
    if let Err(e) = rec.dispatch(&gpu.resources, groups, &pipeline, buf) {
        return Err(e);
    }
    let seq = match rec.build() {
        Ok(s) => s,
        Err(e) => return Err(e),
    };
    let ghost ops = seq.ops@;
    let sig = match gpu.submit(seq) {
        Ok(s) => s,
        Err(e) => return Err(e),
    };
    if let Err(e) = gpu.wait(sig, true) {
        return Err(e);
    }
    proof {
        assert(ops[0] == (Op::Dispatch {
            buffer: buf,
            invocations: COMPUTE_ELEMENTS,
            kernel: Kernel::MultiplyBy(COMPUTE_FACTOR),
        }));
        law_dispatch_multiplies(ops, before, gpu.resources@, 0, buf, COMPUTE_ELEMENTS, COMPUTE_FACTOR);
        reveal_with_fuel(run_ops, 2);
    }
    let v = match gpu.read(buf) {
        Ok(v) => v,
        Err(e) => return Err(e),
    };
    proof {
        assert forall|i: int| 0 <= i < COMPUTE_ELEMENTS implies #[trigger] v@[i] == i * COMPUTE_FACTOR by {
            assert(before[buf as int][i] == i as u32);
            assert(0 <= i * 12 < 0x1_0000_0000);
        }
    }
    Ok(v)
}

/// Side, in pixels, of the square images of the image and graphics tasks.
pub const IMAGE_SIDE: u32 = 1024;

pub open spec fn graphics_caps() -> Capabilities {
    Capabilities { transfer: true, compute: false, graphics: true }
}

pub open spec fn yellow() -> Color {
    Color { r: 255, g: 255, b: 0, a: 255 }
}

pub open spec fn red() -> Color {
    Color { r: 255, g: 0, b: 0, a: 255 }
}

pub open spec fn blue() -> Color {
    Color { r: 0, g: 0, b: 255, a: 255 }
}

/// The triangle of the graphics task: (-0.5, -0.5), (0, 0.5), (0.5, -0.25).
pub open spec fn scene_triangle() -> Triangle {
    Triangle {
        a: Vertex { x: -2048i32, y: -2048i32 },
        b: Vertex { x: 0, y: 2048 },
        c: Vertex { x: 2048, y: -1024i32 },
    }
}

pub open spec fn scene_viewport() -> Viewport {
    Viewport { width: IMAGE_SIDE, height: IMAGE_SIDE }
}

/// The graphics task's picture: red where the triangle covers a pixel, blue elsewhere.
pub open spec fn rendered_scene() -> Seq<u32> {
    Seq::new(
        (IMAGE_SIDE * IMAGE_SIDE) as nat,
        |j: int|
            if covered(scene_triangle(), scene_viewport(), j % IMAGE_SIDE as int, j / IMAGE_SIDE as int) {
                packed(red())
            } else {
                packed(blue())
            },
    )
}

/// Clears a `IMAGE_SIDE` x `IMAGE_SIDE` image to yellow, copies it into a
/// host-visible buffer and reads the pixels back, one packed RGBA word each.
pub fn image_task(devices: &Vec<PhysicalDeviceInfo>) -> (r: Result<Vec<u32>, GpuError>)
    ensures
        acquisition_outcome(devices@, graphics_caps(), r),
        r matches Ok(v) ==> v@ == Seq::new((IMAGE_SIDE * IMAGE_SIDE) as nat, |j: int| packed(yellow())),
{
    let caps = Capabilities { transfer: true, compute: false, graphics: true };
    let ctx = match acquire(devices, caps) {
        Ok(c) => c,
        Err(e) => return Err(e),
    };
    let mut gpu = Gpu::new(ctx);
    let img = match gpu.allocate_image(IMAGE_SIDE, IMAGE_SIDE, Format::Rgba8Unorm, Usage::all()) {
        Ok(h) => h,
        Err(e) => return Err(e),
    };
    let buf = match gpu.allocate_buffer((IMAGE_SIDE * IMAGE_SIDE) as usize, Usage::all(), true) {
        Ok(h) => h,
        Err(e) => return Err(e),
    };
    let ghost before = gpu.contents();
    let mut rec = Recorder::begin(ctx.queue_family);
    let color = Color { r: 255, g: 255, b: 0, a: 255 };
    if let Err(e) = rec.clear_image(&gpu.resources, img, color) {
        return Err(e);
    }
    if let Err(e) = rec.copy_image_to_buffer(&gpu.resources, img, buf) {
        return Err(e);
    }
    let seq = match rec.build() {
        Ok(s) => s,
        Err(e) => return Err(e),
    };
    let ghost ops = seq.ops@;
    let sig = match gpu.submit(seq) {
        Ok(s) => s,
        Err(e) => return Err(e),
    };
    if let Err(e) = gpu.wait(sig, true) {
        return Err(e);
    }
    proof {
        assert(ops[0] == (Op::ClearImage { image: img, color }));
        assert(ops[1] == (Op::CopyImageToBuffer { image: img, buffer: buf }));
        assert(ops.drop_last() =~= seq![ops[0]]);
        assert(ops.drop_last().drop_last() =~= Seq::<Op>::empty());
        reveal_with_fuel(run_ops, 3);
    }
    let v = match gpu.read(buf) {
        Ok(v) => v,
        Err(e) => return Err(e),
    };
    proof {
        assert(v@ =~= Seq::new((IMAGE_SIDE * IMAGE_SIDE) as nat, |j: int| packed(yellow())));
    }
    Ok(v)
}

/// Renders the scene triangle in red over a blue clear into an image, copies
/// the image into a host-visible buffer and reads the pixels back.
pub fn graphics_task(devices: &Vec<PhysicalDeviceInfo>) -> (r: Result<Vec<u32>, GpuError>)
    ensures
        acquisition_outcome(devices@, graphics_caps(), r),
        r matches Ok(v) ==> v@ == rendered_scene(),
{
    let caps = Capabilities { transfer: true, compute: false, graphics: true };
    let ctx = match acquire(devices, caps) {
        Ok(c) => c,
        Err(e) => return Err(e),
    };
    let mut gpu = Gpu::new(ctx);
    let img = match gpu.allocate_image(IMAGE_SIDE, IMAGE_SIDE, Format::Rgba8Unorm, Usage::all()) {
        Ok(h) => h,
        Err(e) => return Err(e),
    };
    let buf = match gpu.allocate_buffer((IMAGE_SIDE * IMAGE_SIDE) as usize, Usage::all(), true) {
        Ok(h) => h,
        Err(e) => return Err(e),
    };
    let ghost before = gpu.contents();
    let clear = Color { r: 0, g: 0, b: 255, a: 255 };
    let pipeline = GraphicsPipeline { color: Color { r: 255, g: 0, b: 0, a: 255 } };
    let triangle = Triangle {
        a: Vertex { x: -2048, y: -2048 },
        b: Vertex { x: 0, y: 2048 },
        c: Vertex { x: 2048, y: -1024 },
    };
    let viewport = Viewport { width: IMAGE_SIDE, height: IMAGE_SIDE };
    let mut rec = Recorder::begin(ctx.queue_family);
    if let Err(e) = rec.begin_render_pass(&gpu.resources, img, clear) {
        return Err(e);
    }
    if let Err(e) = rec.draw(&gpu.resources, &pipeline, triangle, viewport) {
        return Err(e);
    }
    if let Err(e) = rec.end_render_pass() {
        return Err(e);
    }
    if let Err(e) = rec.copy_image_to_buffer(&gpu.resources, img, buf) {
        return Err(e);
    }
    let seq = match rec.build() {
        Ok(s) => s,
        Err(e) => return Err(e),
    };
    let ghost ops = seq.ops@;
    let sig = match gpu.submit(seq) {
        Ok(s) => s,
        Err(e) => return Err(e),
    };
    if let Err(e) = gpu.wait(sig, true) {
        return Err(e);
    }
    proof {
        let o3 = ops.drop_last();
        let o2 = o3.drop_last();
        let o1 = o2.drop_last();
        assert(o1.drop_last() =~= Seq::<Op>::empty());
        assert(o1[0] == ops[0]);
        assert(o2[1] == ops[1]);
        assert(o3[2] == ops[2]);
        reveal_with_fuel(run_ops, 5);
        assert(gpu.contents()[buf as int] =~= rendered_scene());
    }
    let v = match gpu.read(buf) {
        Ok(v) => v,
        Err(e) => return Err(e),
    };
    Ok(v)
}

} // verus!
