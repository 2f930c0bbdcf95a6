use vstd::prelude::*;
use crate::error::GpuError;
use crate::raster::{MAX_VIEWPORT, Triangle, Viewport};
use crate::resource::{Color, ResourceDesc, ResourceKind};

verus! {

/// The computation a compute pipeline runs on each element of its bound buffer.
#[derive(Clone, Copy, Debug, PartialEq, Eq, Structural)]
pub enum Kernel {
    /// `data[i] = data[i] * k`, wrapping modulo 2^32.
    MultiplyBy(u32),
}

/// A compute pipeline: its kernel and the invocations per workgroup.
#[derive(Clone, Copy, Debug, PartialEq, Eq, Structural)]
pub struct ComputePipeline {
    pub kernel: Kernel,
    pub local_size: u32,
}

/// A graphics pipeline whose fragment stage writes one constant colour.
#[derive(Clone, Copy, Debug, PartialEq, Eq, Structural)]
pub struct GraphicsPipeline {
    pub color: Color,
}

/// One recorded operation. Handles are indices of resources of one device.
#[derive(Clone, Copy, Debug, PartialEq, Eq, Structural)]
pub enum Op {
    CopyBuffer { src: usize, dst: usize },
    ClearImage { image: usize, color: Color },
    CopyImageToBuffer { image: usize, buffer: usize },
    Dispatch { buffer: usize, invocations: usize, kernel: Kernel },
    BeginRenderPass { target: usize, clear: Color },
    Draw { target: usize, width: u32, color: Color, triangle: Triangle, viewport: Viewport },
    EndRenderPass,
}

pub open spec fn image_width(d: ResourceDesc) -> u32 {
    match d.kind {
        ResourceKind::Image { width, .. } => width,
        ResourceKind::Buffer { .. } => 0,
    }
}

/// `op` is permitted on the resources `res`: handles exist, kinds and usage
/// flags allow the operation, and sizes agree.
pub open spec fn op_valid(op: Op, res: Seq<ResourceDesc>) -> bool {
    match op {
        Op::CopyBuffer { src, dst } => {
            &&& src < res.len() && dst < res.len()
            &&& res[src as int].is_buffer() && res[src as int].usage.transfer_src
            &&& res[dst as int].is_buffer() && res[dst as int].usage.transfer_dst
            &&& res[src as int].words == res[dst as int].words
        },
        Op::ClearImage { image, .. } => {
            &&& image < res.len()
            &&& res[image as int].is_image() && res[image as int].usage.transfer_dst
        },
        Op::CopyImageToBuffer { image, buffer } => {
            &&& image < res.len() && buffer < res.len()
            &&& res[image as int].is_image() && res[image as int].usage.transfer_src
            &&& res[buffer as int].is_buffer() && res[buffer as int].usage.transfer_dst
            &&& res[image as int].words == res[buffer as int].words
        },
        Op::Dispatch { buffer, invocations, .. } => {
            &&& buffer < res.len()
            &&& res[buffer as int].is_buffer() && res[buffer as int].usage.storage
            &&& invocations <= res[buffer as int].words
        },
        Op::BeginRenderPass { target, .. } => {
            &&& target < res.len()
            &&& res[target as int].is_image() && res[target as int].usage.color_attachment
        },
        Op::Draw { target, width, viewport, .. } => {
            &&& target < res.len()
            &&& res[target as int].is_image() && res[target as int].usage.color_attachment
            &&& width == image_width(res[target as int])
            &&& viewport.width <= MAX_VIEWPORT && viewport.height <= MAX_VIEWPORT
        },
        Op::EndRenderPass => true,
    }
}

pub open spec fn ops_valid(ops: Seq<Op>, res: Seq<ResourceDesc>) -> bool {
    forall|i: int| 0 <= i < ops.len() ==> op_valid(#[trigger] ops[i], res)
}

pub fn check_op(res: &Vec<ResourceDesc>, op: &Op) -> (r: bool)
    ensures
        r == op_valid(*op, res@),
{
    let n = res.len();
    match *op {
        Op::CopyBuffer { src, dst } => {
            src < n && dst < n && is_buffer(&res[src]) && res[src].usage.transfer_src
                && is_buffer(&res[dst]) && res[dst].usage.transfer_dst && res[src].words
                == res[dst].words
        },
        Op::ClearImage { image, .. } => {
            image < n && !is_buffer(&res[image]) && res[image].usage.transfer_dst
        },
        Op::CopyImageToBuffer { image, buffer } => {
            image < n && buffer < n && !is_buffer(&res[image]) && res[image].usage.transfer_src
                && is_buffer(&res[buffer]) && res[buffer].usage.transfer_dst && res[image].words
                == res[buffer].words
        },
        Op::Dispatch { buffer, invocations, .. } => {
            buffer < n && is_buffer(&res[buffer]) && res[buffer].usage.storage && invocations
                <= res[buffer].words
        },
        Op::BeginRenderPass { target, .. } => {
            target < n && !is_buffer(&res[target]) && res[target].usage.color_attachment
        },
        Op::Draw { target, width, viewport, .. } => {
            target < n && !is_buffer(&res[target]) && res[target].usage.color_attachment && width
                == width_of(&res[target]) && viewport.width <= MAX_VIEWPORT && viewport.height
                <= MAX_VIEWPORT
        },
        Op::EndRenderPass => true,
    }
}

fn is_buffer(d: &ResourceDesc) -> (r: bool)
    ensures
        r == d.is_buffer(),
        !r == d.is_image(),
{
    match d.kind {
        ResourceKind::Buffer { .. } => true,
        ResourceKind::Image { .. } => false,
    }
}

fn width_of(d: &ResourceDesc) -> (r: u32)
    ensures
        r == image_width(*d),
{
    match d.kind {
        ResourceKind::Image { width, .. } => width,
        ResourceKind::Buffer { .. } => 0,
    }
}

/// Whether a render pass is open, and on which target image.
#[derive(Clone, Copy, Debug, PartialEq, Eq, Structural)]
pub enum PassState {
    Idle,
    InPass { target: usize },
}

/// An append-only list of operations being recorded for one queue family.
pub struct Recorder {
    pub queue_family: usize,
    pub state: PassState,
    pub ops: Vec<Op>,
}

/// A finished, immutable list of operations for one queue family.
pub struct CommandSequence {
    pub queue_family: usize,
    pub ops: Vec<Op>,
}

impl CommandSequence {
    pub fn len(&self) -> (r: usize)
        ensures
            r == self.ops@.len(),
    {
        self.ops.len()
    }
}

/// `new` is `old` with `op` appended and the pass state set to `state`.
pub open spec fn appended(old: Recorder, new: Recorder, op: Op, state: PassState) -> bool {
    &&& new.queue_family == old.queue_family
    &&& new.ops@ == old.ops@.push(op)
    &&& new.state == state
}

pub open spec fn unchanged(old: Recorder, new: Recorder) -> bool {
    &&& new.queue_family == old.queue_family
    &&& new.ops@ == old.ops@
    &&& new.state == old.state
}

/// The outcome of one recording call: it either records `op`, moving to
/// `state`, exactly when `allowed`, or fails with `InvalidRecordingState` and
/// leaves the recorder as it was.
pub open spec fn recorded(
    old: Recorder,
    new: Recorder,
    r: Result<(), GpuError>,
    op: Op,
    state: PassState,
    allowed: bool,
) -> bool {
    &&& (r is Ok <==> allowed)
    &&& r is Ok ==> appended(old, new, op, state)
    &&& r is Err ==> r == Err::<(), GpuError>(GpuError::InvalidRecordingState) && unchanged(old, new)
}

pub open spec fn draw_op(
    res: Seq<ResourceDesc>,
    target: usize,
    pipeline: GraphicsPipeline,
    triangle: Triangle,
    viewport: Viewport,
) -> Op {
    Op::Draw {
        target,
        width: image_width(res[target as int]),
        color: pipeline.color,
        triangle,
        viewport,
    }
}

impl Recorder {
    pub fn begin(queue_family: usize) -> (r: Recorder)
        ensures
            r.queue_family == queue_family,
            r.state == PassState::Idle,
            r.ops@.len() == 0,
    {
        Recorder { queue_family, state: PassState::Idle, ops: Vec::new() }
    }

    fn record(&mut self, res: &Vec<ResourceDesc>, op: Op, state: PassState) -> (r: Result<
        (),
        GpuError,
    >)
        ensures
            recorded(*old(self), *final(self), r, op, state, op_valid(op, res@)),
    {
        if check_op(res, &op) {
            self.ops.push(op);
            self.state = state;
            Ok(())
        } else {
            Err(GpuError::InvalidRecordingState)
        }
    }

    pub fn copy_buffer(&mut self, res: &Vec<ResourceDesc>, src: usize, dst: usize) -> (r: Result<
        (),
        GpuError,
    >)
        ensures
            recorded(
                *old(self),
                *final(self),
                r,
                Op::CopyBuffer { src, dst },
                PassState::Idle,
                old(self).state == PassState::Idle && op_valid(Op::CopyBuffer { src, dst }, res@),
            ),
    {
        if self.state != PassState::Idle {
            return Err(GpuError::InvalidRecordingState);
        }
        self.record(res, Op::CopyBuffer { src, dst }, PassState::Idle)
    }

    pub fn clear_image(&mut self, res: &Vec<ResourceDesc>, image: usize, color: Color) -> (r:
        Result<(), GpuError>)
        ensures
            recorded(
                *old(self),
                *final(self),
                r,
                Op::ClearImage { image, color },
                PassState::Idle,
                old(self).state == PassState::Idle && op_valid(
                    Op::ClearImage { image, color },
                    res@,
                ),
            ),
    {
        if self.state != PassState::Idle {
            return Err(GpuError::InvalidRecordingState);
        }
        self.record(res, Op::ClearImage { image, color }, PassState::Idle)
    }

    pub fn copy_image_to_buffer(&mut self, res: &Vec<ResourceDesc>, image: usize, buffer: usize) -> (r:
        Result<(), GpuError>)
        ensures
            recorded(
                *old(self),
                *final(self),
                r,
                Op::CopyImageToBuffer { image, buffer },
                PassState::Idle,
                old(self).state == PassState::Idle && op_valid(
                    Op::CopyImageToBuffer { image, buffer },
                    res@,
                ),
            ),
    {
        if self.state != PassState::Idle {
            return Err(GpuError::InvalidRecordingState);
        }
        self.record(res, Op::CopyImageToBuffer { image, buffer }, PassState::Idle)
    }

    /// Records `groups` workgroups of `pipeline` over `buffer`; fails also
    /// when the invocation count does not fit the buffer.
    pub fn dispatch(
        &mut self,
        res: &Vec<ResourceDesc>,
        groups: u32,
        pipeline: &ComputePipeline,
        buffer: usize,
    ) -> (r: Result<(), GpuError>)
        ensures
            ({
                let n = groups as int * pipeline.local_size as int;
                let op = Op::Dispatch { buffer, invocations: n as usize, kernel: pipeline.kernel };
                recorded(
                    *old(self),
                    *final(self),
                    r,
                    op,
                    PassState::Idle,
                    old(self).state == PassState::Idle && n <= usize::MAX && op_valid(op, res@),
                )
            }),
    {
        if self.state != PassState::Idle {
            return Err(GpuError::InvalidRecordingState);
        }
        proof {
            let (g, l) = (groups as int, pipeline.local_size as int);
            assert(0 <= g * l <= 0xffff_ffff * 0xffff_ffff) by (nonlinear_arith)
                requires
                    0 <= g <= 0xffff_ffff,
                    0 <= l <= 0xffff_ffff,
            ;
        }
        let n: u64 = groups as u64 * pipeline.local_size as u64;
        if n > usize::MAX as u64 {
            return Err(GpuError::InvalidRecordingState);
        }
        self.record(
            res,
            Op::Dispatch { buffer, invocations: n as usize, kernel: pipeline.kernel },
            PassState::Idle,
        )
    }

    /// Opens a render pass on `target`, whose attachment is first cleared to `clear`.
    pub fn begin_render_pass(&mut self, res: &Vec<ResourceDesc>, target: usize, clear: Color) -> (r:
        Result<(), GpuError>)
        ensures
            recorded(
                *old(self),
                *final(self),
                r,
                Op::BeginRenderPass { target, clear },
                PassState::InPass { target },
                old(self).state == PassState::Idle && op_valid(
                    Op::BeginRenderPass { target, clear },
                    res@,
                ),
            ),
    {
        if self.state != PassState::Idle {
            return Err(GpuError::InvalidRecordingState);
        }
        self.record(res, Op::BeginRenderPass { target, clear }, PassState::InPass { target })
    }

    /// Draws `triangle` with `pipeline` into the open pass's target.
    pub fn draw(
        &mut self,
        res: &Vec<ResourceDesc>,
        pipeline: &GraphicsPipeline,
        triangle: Triangle,
        viewport: Viewport,
    ) -> (r: Result<(), GpuError>)
        ensures
            match old(self).state {
                PassState::Idle => r == Err::<(), GpuError>(GpuError::InvalidRecordingState)
                    && unchanged(*old(self), *final(self)),
                PassState::InPass { target } => {
                    let op = draw_op(res@, target, *pipeline, triangle, viewport);
                    recorded(
                        *old(self),
                        *final(self),
                        r,
                        op,
                        old(self).state,
                        op_valid(op, res@),
                    )
                },
            },
    {
        match self.state {
            PassState::Idle => Err(GpuError::InvalidRecordingState),
            PassState::InPass { target } => {
                if target >= res.len() {
                    return Err(GpuError::InvalidRecordingState);
                }
                let op = Op::Draw {
                    target,
                    width: width_of(&res[target]),
                    color: pipeline.color,
                    triangle,
                    viewport,
                };
                self.record(res, op, PassState::InPass { target })
            },
        }
    }

    pub fn end_render_pass(&mut self) -> (r: Result<(), GpuError>)
        ensures
            recorded(
                *old(self),
                *final(self),
                r,
                Op::EndRenderPass,
                PassState::Idle,
                old(self).state is InPass,
            ),
    {
        match self.state {
            PassState::Idle => Err(GpuError::InvalidRecordingState),
            PassState::InPass { .. } => {
                self.ops.push(Op::EndRenderPass);
                self.state = PassState::Idle;
                Ok(())
            },
        }
    }

    /// Finishes recording. Fails with `RecordingIncomplete` exactly when a
    /// render pass is still open; otherwise the sequence holds every recorded
    /// operation in order.
    pub fn build(self) -> (r: Result<CommandSequence, GpuError>)
        ensures
            r is Err <==> self.state is InPass,
            r is Err ==> r == Err::<CommandSequence, GpuError>(GpuError::RecordingIncomplete),
            r matches Ok(s) ==> s.ops@ == self.ops@ && s.queue_family == self.queue_family,
    {
        match self.state {
            PassState::InPass { .. } => Err(GpuError::RecordingIncomplete),
            PassState::Idle => Ok(CommandSequence { queue_family: self.queue_family, ops: self.ops }),
        }
    }
}

} // verus!
