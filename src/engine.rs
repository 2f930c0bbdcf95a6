use vstd::prelude::*;
use crate::device::Context;
use crate::error::GpuError;
use crate::raster::{MAX_VIEWPORT, covered, covers};
use crate::recorder::{CommandSequence, Kernel, Op, op_valid, ops_valid};
use crate::resource::{
    Color,
    Format,
    ResourceDesc,
    Usage,
    buffer_desc,
    image_desc,
    packed,
};

verus! {

/// Element `x` after the kernel ran on it.
pub open spec fn kernel_result(k: Kernel, x: u32) -> u32 {
    match k {
        Kernel::MultiplyBy(f) => ((x as int * f as int) % 0x1_0000_0000) as u32,
    }
}

/// `len` copies of the packed colour.
pub open spec fn filled(len: int, c: Color) -> Seq<u32> {
    Seq::new(len as nat, |j: int| packed(c))
}

/// What `op` leaves in the resources whose contents were `d`.
pub open spec fn apply(op: Op, d: Seq<Seq<u32>>) -> Seq<Seq<u32>> {
    match op {
        Op::CopyBuffer { src, dst } => d.update(dst as int, d[src as int]),
        Op::ClearImage { image, color } => d.update(
            image as int,
            filled(d[image as int].len() as int, color),
        ),
        Op::CopyImageToBuffer { image, buffer } => d.update(buffer as int, d[image as int]),
        Op::Dispatch { buffer, invocations, kernel } => {
            let old = d[buffer as int];
            d.update(
                buffer as int,
                Seq::new(
                    old.len(),
                    |j: int|
                        if j < invocations {
                            kernel_result(kernel, old[j])
                        } else {
                            old[j]
                        },
                ),
            )
        },
        Op::BeginRenderPass { target, clear } => d.update(
            target as int,
            filled(d[target as int].len() as int, clear),
        ),
        Op::Draw { target, width, color, triangle, viewport } => {
            let old = d[target as int];
            d.update(
                target as int,
                Seq::new(
                    old.len(),
                    |j: int|
                        if covered(triangle, viewport, j % width as int, j / width as int) {
                            packed(color)
                        } else {
                            old[j]
                        },
                ),
            )
        },
        Op::EndRenderPass => d,
    }
}

/// The contents after every operation of `ops` ran, in order, starting from `d`.
pub open spec fn run_ops(ops: Seq<Op>, d: Seq<Seq<u32>>) -> Seq<Seq<u32>>
    decreases ops.len(),
{
    if ops.len() == 0 {
        d
    } else {
        apply(ops.last(), run_ops(ops.drop_last(), d))
    }
}

/// The resource that `op` writes, if any.
pub open spec fn op_target(op: Op) -> Option<usize> {
    match op {
        Op::CopyBuffer { dst, .. } => Some(dst),
        Op::ClearImage { image, .. } => Some(image),
        Op::CopyImageToBuffer { buffer, .. } => Some(buffer),
        Op::Dispatch { buffer, .. } => Some(buffer),
        Op::BeginRenderPass { target, .. } => Some(target),
        Op::Draw { target, .. } => Some(target),
        Op::EndRenderPass => None,
    }
}

/// `op` writes resource `h`.
pub open spec fn writes_to(op: Op, h: int) -> bool {
    op_target(op) matches Some(t) && t as int == h
}

/// Some operation of `ops` writes resource `h`.
pub open spec fn writes(ops: Seq<Op>, h: int) -> bool {
    exists|k: int| 0 <= k < ops.len() && #[trigger] writes_to(ops[k], h)
}

proof fn lemma_writes_push(ops: Seq<Op>, op: Op, h: int)
    ensures
        writes(ops.push(op), h) <==> (writes(ops, h) || writes_to(op, h)),
{
    let post = ops.push(op);
    if writes(ops, h) {
        let k = choose|k: int| 0 <= k < ops.len() && #[trigger] writes_to(ops[k], h);
        assert(post[k] == ops[k]);
    }
    if writes_to(op, h) {
        assert(post[ops.len() as int] == op);
    }
    if writes(post, h) {
        let k = choose|k: int| 0 <= k < post.len() && #[trigger] writes_to(post[k], h);
        if k < ops.len() {
            assert(post[k] == ops[k]);
        }
    }
}

fn target_of(op: &Op) -> (r: Option<usize>)
    ensures
        r == op_target(*op),
{
    match *op {
        Op::CopyBuffer { dst, .. } => Some(dst),
        Op::ClearImage { image, .. } => Some(image),
        Op::CopyImageToBuffer { buffer, .. } => Some(buffer),
        Op::Dispatch { buffer, .. } => Some(buffer),
        Op::BeginRenderPass { target, .. } => Some(target),
        Op::Draw { target, .. } => Some(target),
        Op::EndRenderPass => None,
    }
}

/// A one-shot token for one submitted sequence.
#[derive(Clone, Copy, Debug, PartialEq, Eq, Structural)]
pub struct CompletionSignal {
    pub id: usize,
}

/// A device context with the resources allocated on it and the completion
/// signals of the sequences submitted to its queue.
///
/// `data[h]` is what resource `h` holds on the device; `writer[h]` is the
/// signal of the last submitted sequence that wrote it; `observed[s]` tells
/// whether the host has seen signal `s` fire.
pub struct Gpu {
    pub context: Context,
    pub resources: Vec<ResourceDesc>,
    pub data: Vec<Vec<u32>>,
    pub writer: Vec<Option<usize>>,
    pub observed: Vec<bool>,
}

impl Gpu {
    pub open spec fn wf(self) -> bool {
        &&& self.data@.len() == self.resources@.len()
        &&& self.writer@.len() == self.resources@.len()
        &&& forall|h: int|
            0 <= h < self.resources@.len() ==> {
                &&& (#[trigger] self.resources@[h]).wf()
                &&& self.data@[h]@.len() == self.resources@[h].words
            }
        &&& forall|h: int|
            0 <= h < self.writer@.len() ==> (#[trigger] self.writer@[h] matches Some(s) ==> s
                < self.observed@.len())
    }

    /// What every resource holds, by handle.
    pub open spec fn contents(self) -> Seq<Seq<u32>> {
        self.data@.map_values(|v: Vec<u32>| v@)
    }

    /// Resource `h` was last written by a sequence whose completion the host
    /// has not yet observed.
    pub open spec fn pending(self, h: int) -> bool {
        self.writer@[h] matches Some(s) && !self.observed@[s as int]
    }

    pub fn new(context: Context) -> (r: Gpu)
        ensures
            r.wf(),
            r.context == context,
            r.resources@.len() == 0,
            r.observed@.len() == 0,
    {
        Gpu {
            context,
            resources: Vec::new(),
            data: Vec::new(),
            writer: Vec::new(),
            observed: Vec::new(),
        }
    }

    fn add(&mut self, d: ResourceDesc) -> (h: usize)
        requires
            old(self).wf(),
            d.wf(),
        ensures
            final(self).wf(),
            h == old(self).resources@.len(),
            final(self).resources@ == old(self).resources@.push(d),
            final(self).contents().len() == h + 1,
            final(self).contents().take(h as int) == old(self).contents(),
            final(self).contents()[h as int].len() == d.words,
            final(self).writer@ == old(self).writer@.push(None),
            final(self).observed@ == old(self).observed@,
            final(self).context == old(self).context,
    {
        let mut v: Vec<u32> = Vec::new();
        let mut i: usize = 0;
        while i < d.words
            invariant
                i <= d.words,
                v@.len() == i,
            decreases d.words - i,
        {
            v.push(0);
            i = i + 1;
        }
        let h = self.resources.len();
        self.resources.push(d);
        self.data.push(v);
        self.writer.push(None);
        assert(self.contents().take(h as int) =~= old(self).contents());
        h
    }

    /// Allocates a buffer of `words` 32-bit elements. Its initial contents are
    /// unspecified.
    pub fn allocate_buffer(&mut self, words: usize, usage: Usage, host_visible: bool) -> (r:
        Result<usize, GpuError>)
        requires
            old(self).wf(),
        ensures
            final(self).wf(),
            r is Ok <==> 0 < words <= crate::resource::MAX_WORDS,
            r is Err ==> r == Err::<usize, GpuError>(GpuError::AllocationFailed) && *final(self)
                == *old(self),
            r matches Ok(h) ==> {
                &&& h == old(self).resources@.len()
                &&& final(self).resources@ == old(self).resources@.push(
                    ResourceDesc {
                        kind: crate::resource::ResourceKind::Buffer { host_visible },
                        usage,
                        words,
                    },
                )
                &&& final(self).contents().take(h as int) == old(self).contents()
                &&& final(self).contents()[h as int].len() == words
                &&& !final(self).pending(h as int)
                &&& final(self).observed@ == old(self).observed@
                &&& final(self).context == old(self).context
            },
    {
        match buffer_desc(words, usage, host_visible) {
            None => Err(GpuError::AllocationFailed),
            Some(d) => Ok(self.add(d)),
        }
    }

    /// Allocates a device-local `width` x `height` image. Its initial contents
    /// are unspecified.
    pub fn allocate_image(&mut self, width: u32, height: u32, format: Format, usage: Usage) -> (r:
        Result<usize, GpuError>)
        requires
            old(self).wf(),
        ensures
            final(self).wf(),
            r is Ok <==> (width > 0 && height > 0 && width * height
                <= crate::resource::MAX_WORDS),
            r is Err ==> r == Err::<usize, GpuError>(GpuError::AllocationFailed) && *final(self)
                == *old(self),
            r matches Ok(h) ==> {
                &&& h == old(self).resources@.len()
                &&& final(self).resources@ == old(self).resources@.push(
                    ResourceDesc {
                        kind: crate::resource::ResourceKind::Image { width, height, format },
                        usage,
                        words: (width * height) as usize,
                    },
                )
                &&& final(self).contents().take(h as int) == old(self).contents()
                &&& final(self).contents()[h as int].len() == width * height
                &&& !final(self).pending(h as int)
                &&& final(self).observed@ == old(self).observed@
                &&& final(self).context == old(self).context
            },
    {
        match image_desc(width, height, format, usage) {
            None => Err(GpuError::AllocationFailed),
            Some(d) => Ok(self.add(d)),
        }
    }
}

fn fill(len: usize, w: u32) -> (r: Vec<u32>)
    ensures
        r@ == Seq::new(len as nat, |j: int| w),
{
    let mut v: Vec<u32> = Vec::new();
    let mut i: usize = 0;
    while i < len
        invariant
            i <= len,
            v@ == Seq::new(i as nat, |j: int| w),
        decreases len - i,
    {
        v.push(w);
        i = i + 1;
        assert(v@ =~= Seq::new(i as nat, |j: int| w));
    }
    v
}

/// A vector of `len` zero words.
pub fn zeros(len: usize) -> (r: Vec<u32>)
    ensures
        r@ == Seq::new(len as nat, |j: int| 0u32),
{
    fill(len, 0)
}

fn copy_words(src: &Vec<u32>) -> (r: Vec<u32>)
    ensures
        r@ == src@,
{
    let mut v: Vec<u32> = Vec::new();
    let mut i: usize = 0;
    while i < src.len()
        invariant
            i <= src@.len(),
            v@ == src@.take(i as int),
        decreases src@.len() - i,
    {
        v.push(src[i]);
        i = i + 1;
        assert(v@ =~= src@.take(i as int));
    }
    assert(src@.take(src@.len() as int) =~= src@);
    v
}

fn run_kernel(src: &Vec<u32>, invocations: usize, kernel: Kernel) -> (r: Vec<u32>)
    ensures
        r@ == Seq::new(
            src@.len(),
            |j: int|
                if j < invocations {
                    kernel_result(kernel, src@[j])
                } else {
                    src@[j]
                },
        ),
{
    let ghost spec_r = Seq::new(
        src@.len(),
        |j: int|
            if j < invocations {
                kernel_result(kernel, src@[j])
            } else {
                src@[j]
            },
    );
    let mut v: Vec<u32> = Vec::new();
    let mut i: usize = 0;
    while i < src.len()
        invariant
            i <= src@.len(),
            spec_r.len() == src@.len(),
            forall|j: int| 0 <= j < spec_r.len() ==> spec_r[j] == (if j < invocations {
                kernel_result(kernel, src@[j])
            } else {
                src@[j]
            }),
            v@ == spec_r.take(i as int),
        decreases src@.len() - i,
    {
        let x = src[i];
        let y = if i < invocations {
            match kernel {
                Kernel::MultiplyBy(f) => x.wrapping_mul(f),
            }
        } else {
            x
        };
        v.push(y);
        i = i + 1;
        assert(v@ =~= spec_r.take(i as int));
    }
    assert(spec_r.take(src@.len() as int) =~= spec_r);
    v
}

fn rasterize(
    src: &Vec<u32>,
    width: u32,
    color: Color,
    triangle: &crate::raster::Triangle,
    viewport: &crate::raster::Viewport,
) -> (r: Vec<u32>)
    requires
        width > 0,
        src@.len() <= crate::resource::MAX_WORDS,
        viewport.width <= MAX_VIEWPORT,
        viewport.height <= MAX_VIEWPORT,
    ensures
        r@ == Seq::new(
            src@.len(),
            |j: int|
                if covered(*triangle, *viewport, j % width as int, j / width as int) {
                    packed(color)
                } else {
                    src@[j]
                },
        ),
{
    let ghost spec_r = Seq::new(
        src@.len(),
        |j: int|
            if covered(*triangle, *viewport, j % width as int, j / width as int) {
                packed(color)
            } else {
                src@[j]
            },
    );
    let c = color.pack();
    let mut v: Vec<u32> = Vec::new();
    let mut i: usize = 0;
    while i < src.len()
        invariant
            i <= src@.len(),
            width > 0,
            src@.len() <= crate::resource::MAX_WORDS,
            viewport.width <= MAX_VIEWPORT,
            viewport.height <= MAX_VIEWPORT,
            c == packed(color),
            spec_r.len() == src@.len(),
            forall|j: int|
                0 <= j < spec_r.len() ==> spec_r[j] == (if covered(
                    *triangle,
                    *viewport,
                    j % width as int,
                    j / width as int,
                ) {
                    packed(color)
                } else {
                    src@[j]
                }),
            v@ == spec_r.take(i as int),
        decreases src@.len() - i,
    {
        let x: u32 = (i % width as usize) as u32;
        let y: u32 = (i / width as usize) as u32;
        let w = if covers(triangle, viewport, x, y) {
            c
        } else {
            src[i]
        };
        v.push(w);
        i = i + 1;
        assert(v@ =~= spec_r.take(i as int));
    }
    assert(spec_r.take(src@.len() as int) =~= spec_r);
    v
}

impl Gpu {
    fn set_data(&mut self, h: usize, v: Vec<u32>)
        requires
            old(self).wf(),
            h < old(self).resources@.len(),
            v@.len() == old(self).contents()[h as int].len(),
        ensures
            final(self).wf(),
            final(self).contents() == old(self).contents().update(h as int, v@),
            final(self).resources@ == old(self).resources@,
            final(self).writer@ == old(self).writer@,
            final(self).observed@ == old(self).observed@,
            final(self).context == old(self).context,
    {
        let ghost v_view = v@;
        self.data.set(h, v);
        assert(self.contents() =~= old(self).contents().update(h as int, v_view));
    }

    /// Carries out one valid operation on the device contents.
    fn apply_op(&mut self, op: Op)
        requires
            old(self).wf(),
            op_valid(op, old(self).resources@),
        ensures
            final(self).wf(),
            final(self).contents() == apply(op, old(self).contents()),
            final(self).resources@ == old(self).resources@,
            final(self).writer@ == old(self).writer@,
            final(self).observed@ == old(self).observed@,
            final(self).context == old(self).context,
    {
        match op {
            Op::CopyBuffer { src, dst } => {
                let v = copy_words(&self.data[src]);
                self.set_data(dst, v);
            },
            Op::ClearImage { image, color } => {
                let v = fill(self.data[image].len(), color.pack());
                self.set_data(image, v);
            },
            Op::CopyImageToBuffer { image, buffer } => {
                let v = copy_words(&self.data[image]);
                self.set_data(buffer, v);
            },
            Op::Dispatch { buffer, invocations, kernel } => {
                let v = run_kernel(&self.data[buffer], invocations, kernel);
                self.set_data(buffer, v);
            },
            Op::BeginRenderPass { target, clear } => {
                let v = fill(self.data[target].len(), clear.pack());
                self.set_data(target, v);
            },
            Op::Draw { target, width, color, triangle, viewport } => {
                proof {
                    let d = self.resources@[target as int];
                    if let crate::resource::ResourceKind::Image { width: w, height: h, .. } = d.kind {
                        assert(w > 0) by (nonlinear_arith)
                            requires
                                d.words == w * h,
                                d.words > 0,
                        ;
                    }
                }
                let v = rasterize(&self.data[target], width, color, &triangle, &viewport);
                self.set_data(target, v);
            },
            Op::EndRenderPass => {},
        }
    }
}

impl Gpu {
    fn run(&mut self, ops: &Vec<Op>)
        requires
            old(self).wf(),
            ops_valid(ops@, old(self).resources@),
        ensures
            final(self).wf(),
            final(self).contents() == run_ops(ops@, old(self).contents()),
            final(self).resources@ == old(self).resources@,
            final(self).writer@ == old(self).writer@,
            final(self).observed@ == old(self).observed@,
            final(self).context == old(self).context,
    {
        let ghost start = self.contents();
        let mut i: usize = 0;
        assert(ops@.take(0) =~= Seq::<Op>::empty());
        while i < ops.len()
            invariant
                i <= ops@.len(),
                self.wf(),
                ops_valid(ops@, self.resources@),
                self.contents() == run_ops(ops@.take(i as int), start),
                self.resources@ == old(self).resources@,
                self.writer@ == old(self).writer@,
                self.observed@ == old(self).observed@,
                self.context == old(self).context,
            decreases ops@.len() - i,
        {
            self.apply_op(ops[i]);
            assert(ops@.take(i + 1).drop_last() =~= ops@.take(i as int));
            i = i + 1;
        }
        assert(ops@.take(ops@.len() as int) =~= ops@);
    }

    /// Tags every resource that `ops` writes with signal `s`.
    fn mark_writers(&mut self, ops: &Vec<Op>, s: usize)
        requires
            old(self).wf(),
            ops_valid(ops@, old(self).resources@),
            s < old(self).observed@.len(),
        ensures
            final(self).wf(),
            final(self).contents() == old(self).contents(),
            final(self).resources@ == old(self).resources@,
            final(self).observed@ == old(self).observed@,
            final(self).context == old(self).context,
            forall|h: int|
                0 <= h < final(self).writer@.len() ==> #[trigger] final(self).writer@[h] == if writes(
                    ops@,
                    h,
                ) {
                    Some(s)
                } else {
                    old(self).writer@[h]
                },
    {
        let mut i: usize = 0;
        while i < ops.len()
            invariant
                i <= ops@.len(),
                self.wf(),
                ops_valid(ops@, self.resources@),
                s < self.observed@.len(),
                self.contents() == old(self).contents(),
                self.resources@ == old(self).resources@,
                self.observed@ == old(self).observed@,
                self.context == old(self).context,
                self.writer@.len() == old(self).writer@.len(),
                forall|h: int|
                    0 <= h < self.writer@.len() ==> #[trigger] self.writer@[h] == if writes(
                        ops@.take(i as int),
                        h,
                    ) {
                        Some(s)
                    } else {
                        old(self).writer@[h]
                    },
            decreases ops@.len() - i,
        {
            let t = target_of(&ops[i]);
            let ghost prev = self.writer@;
            proof {
                assert(op_valid(ops@[i as int], self.resources@));
            }
            match t {
                Some(h) => {
                    self.writer.set(h, Some(s));
                },
                None => {},
            }
            proof {
                let pre = ops@.take(i as int);
                let post = ops@.take(i + 1);
                assert(post =~= pre.push(ops@[i as int]));
                assert forall|h: int| 0 <= h < self.writer@.len() implies #[trigger] self.writer@[h]
                    == if writes(post, h) {
                    Some(s)
                } else {
                    old(self).writer@[h]
                } by {
                    lemma_writes_push(pre, ops@[i as int], h);
                }
            }
            i = i + 1;
        }
        assert(ops@.take(ops@.len() as int) =~= ops@);
    }

    /// Submits `seq` to the context's queue and returns its completion
    /// signal. The device runs the operations in recorded order; their
    /// results become readable once the signal has been observed.
    /// Fails with `QueueSubmitFailed` when the sequence was recorded for
    /// another queue family or names resources this device cannot use so.
    pub fn submit(&mut self, seq: CommandSequence) -> (r: Result<CompletionSignal, GpuError>)
        requires
            old(self).wf(),
        ensures
            final(self).wf(),
            r is Ok <==> (seq.queue_family == old(self).context.queue_family && ops_valid(
                seq.ops@,
                old(self).resources@,
            )),
            r is Err ==> r == Err::<CompletionSignal, GpuError>(GpuError::QueueSubmitFailed)
                && *final(self) == *old(self),
            r matches Ok(sig) ==> {
                &&& sig.id == old(self).observed@.len()
                &&& final(self).observed@ == old(self).observed@.push(false)
                &&& final(self).contents() == run_ops(seq.ops@, old(self).contents())
                &&& final(self).resources@ == old(self).resources@
                &&& final(self).context == old(self).context
                &&& forall|h: int|
                    0 <= h < final(self).writer@.len() ==> #[trigger] final(self).writer@[h]
                        == if writes(seq.ops@, h) {
                        Some(sig.id)
                    } else {
                        old(self).writer@[h]
                    }
            },
    {
        if seq.queue_family != self.context.queue_family {
            return Err(GpuError::QueueSubmitFailed);
        }
        let mut i: usize = 0;
        while i < seq.ops.len()
            invariant
                i <= seq.ops@.len(),
                forall|k: int| 0 <= k < i ==> op_valid(#[trigger] seq.ops@[k], self.resources@),
                self.wf(),
                *self == *old(self),
            decreases seq.ops@.len() - i,
        {
            if !crate::recorder::check_op(&self.resources, &seq.ops[i]) {
                return Err(GpuError::QueueSubmitFailed);
            }
            i = i + 1;
        }
        let id = self.observed.len();
        self.observed.push(false);
        proof {
            assert forall|h: int| 0 <= h < self.writer@.len() implies (#[trigger] self.writer@[h] matches Some(s) ==> s
                < self.observed@.len()) by {}
        }
        self.run(&seq.ops);
        self.mark_writers(&seq.ops, id);
        Ok(CompletionSignal { id })
    }

    /// Every submitted sequence has been observed complete, so the context
    /// and its resources may be torn down.
    pub fn is_idle(&self) -> (r: bool)
        ensures
            r == forall|s: int| 0 <= s < self.observed@.len() ==> #[trigger] self.observed@[s],
    {
        let mut i: usize = 0;
        while i < self.observed.len()
            invariant
                i <= self.observed@.len(),
                forall|s: int| 0 <= s < i ==> #[trigger] self.observed@[s],
            decreases self.observed@.len() - i,
        {
            if !self.observed[i] {
                return false;
            }
            i = i + 1;
        }
        true
    }

    /// Whether the host has observed `signal` fire.
    pub fn is_signaled(&self, signal: CompletionSignal) -> (r: bool)
        requires
            signal.id < self.observed@.len(),
        ensures
            r == self.observed@[signal.id as int],
    {
        self.observed[signal.id]
    }

    /// Records the outcome of a blocking wait on `signal`: `completed` tells
    /// whether the device reported completion before the timeout elapsed.
    /// On completion the signal is observed, once and for good; otherwise
    /// the wait fails with `TimedOut` and nothing changes.
    pub fn wait(&mut self, signal: CompletionSignal, completed: bool) -> (r: Result<(), GpuError>)
        requires
            old(self).wf(),
            signal.id < old(self).observed@.len(),
        ensures
            final(self).wf(),
            r is Ok <==> completed,
            r is Err ==> r == Err::<(), GpuError>(GpuError::TimedOut) && *final(self) == *old(self),
            r is Ok ==> final(self).observed@ == old(self).observed@.update(signal.id as int, true),
            final(self).contents() == old(self).contents(),
            final(self).resources@ == old(self).resources@,
            final(self).writer@ == old(self).writer@,
            final(self).context == old(self).context,
    {
        if !completed {
            return Err(GpuError::TimedOut);
        }
        self.observed.set(signal.id, true);
        Ok(())
    }

    /// Reads a host-visible buffer. Fails with `NotSynchronized` exactly when
    /// the sequence that last wrote it has not been observed complete.
    pub fn read(&self, buffer: usize) -> (r: Result<Vec<u32>, GpuError>)
        requires
            self.wf(),
            buffer < self.resources@.len(),
            self.resources@[buffer as int].is_host_visible(),
        ensures
            r is Err <==> self.pending(buffer as int),
            r is Err ==> r == Err::<Vec<u32>, GpuError>(GpuError::NotSynchronized),
            r matches Ok(v) ==> v@ == self.contents()[buffer as int],
    {
        let pending = match self.writer[buffer] {
            Some(s) => !self.observed[s],
            None => false,
        };
        if pending {
            Err(GpuError::NotSynchronized)
        } else {
            Ok(copy_words(&self.data[buffer]))
        }
    }

    /// Writes a host-visible buffer from the host. Fails with
    /// `NotSynchronized` while a submitted sequence that writes it is not
    /// observed complete.
    pub fn write(&mut self, buffer: usize, words: Vec<u32>) -> (r: Result<(), GpuError>)
        requires
            old(self).wf(),
            buffer < old(self).resources@.len(),
            old(self).resources@[buffer as int].is_host_visible(),
            words@.len() == old(self).resources@[buffer as int].words,
        ensures
            final(self).wf(),
            r is Err <==> old(self).pending(buffer as int),
            r is Err ==> r == Err::<(), GpuError>(GpuError::NotSynchronized) && *final(self)
                == *old(self),
            r is Ok ==> final(self).contents() == old(self).contents().update(buffer as int, words@),
            final(self).resources@ == old(self).resources@,
            final(self).writer@ == old(self).writer@,
            final(self).observed@ == old(self).observed@,
            final(self).context == old(self).context,
    {
        let pending = match self.writer[buffer] {
            Some(s) => !self.observed[s],
            None => false,
        };
        if pending {
            return Err(GpuError::NotSynchronized);
        }
        self.set_data(buffer, words);
        Ok(())
    }
}

} // verus!
