use vstd::prelude::*;
use crate::engine::{apply, kernel_result, run_ops, writes_to};
use crate::recorder::{Kernel, Op, op_valid, ops_valid};
use crate::resource::{ResourceDesc, bytes_of};

verus! {

/// An operation that does not write `h` leaves it, and the number of
/// resources, as they were.
pub proof fn lemma_apply_frame(op: Op, d: Seq<Seq<u32>>, res: Seq<ResourceDesc>, h: int)
    requires
        op_valid(op, res),
        d.len() == res.len(),
        0 <= h < d.len(),
        !writes_to(op, h),
    ensures
        apply(op, d).len() == d.len(),
        apply(op, d)[h] == d[h],
{
}

/// Running operations keeps the number of resources.
pub proof fn lemma_run_len(ops: Seq<Op>, d: Seq<Seq<u32>>, res: Seq<ResourceDesc>)
    requires
        ops_valid(ops, res),
        d.len() == res.len(),
    ensures
        run_ops(ops, d).len() == d.len(),
    decreases ops.len(),
{
    if ops.len() > 0 {
        assert(op_valid(ops[ops.len() - 1], res));
        lemma_run_len(ops.drop_last(), d, res);
    }
}

/// A resource that no operation writes keeps its contents through a run.
pub proof fn lemma_untouched(ops: Seq<Op>, d: Seq<Seq<u32>>, res: Seq<ResourceDesc>, h: int)
    requires
        ops_valid(ops, res),
        d.len() == res.len(),
        0 <= h < d.len(),
        forall|j: int| 0 <= j < ops.len() ==> !writes_to(#[trigger] ops[j], h),
    ensures
        run_ops(ops, d)[h] == d[h],
    decreases ops.len(),
{
    if ops.len() > 0 {
        let last = ops[ops.len() - 1];
        assert(op_valid(last, res));
        assert(!writes_to(last, h));
        lemma_untouched(ops.drop_last(), d, res, h);
        lemma_run_len(ops.drop_last(), d, res);
        lemma_apply_frame(last, run_ops(ops.drop_last(), d), res, h);
    }
}

/// Copy law: when operation `k` copies `src` to `dst`, no later operation
/// writes `dst` and no operation writes `src`, then after the run `dst` holds,
/// word for word and so byte for byte, what `src` held when the sequence was
/// submitted.
pub proof fn law_copy_preserves_contents(
    ops: Seq<Op>,
    d: Seq<Seq<u32>>,
    res: Seq<ResourceDesc>,
    k: int,
    src: usize,
    dst: usize,
)
    requires
        ops_valid(ops, res),
        d.len() == res.len(),
        0 <= k < ops.len(),
        ops[k] == (Op::CopyBuffer { src, dst }),
        forall|j: int| k < j < ops.len() ==> !writes_to(#[trigger] ops[j], dst as int),
        forall|j: int| 0 <= j < ops.len() ==> !writes_to(#[trigger] ops[j], src as int),
    ensures
        run_ops(ops, d)[dst as int] == d[src as int],
        bytes_of(run_ops(ops, d)[dst as int]) == bytes_of(d[src as int]),
    decreases ops.len(),
{
    let prefix = ops.drop_last();
    let last = ops[ops.len() - 1];
    assert(op_valid(ops[k], res));
    assert(op_valid(last, res));
    lemma_run_len(prefix, d, res);
    if k == ops.len() - 1 {
        assert forall|j: int| 0 <= j < prefix.len() implies !writes_to(
            #[trigger] prefix[j],
            src as int,
        ) by {
            assert(prefix[j] == ops[j]);
        }
        lemma_untouched(prefix, d, res, src as int);
    } else {
        assert(!writes_to(last, dst as int));
        assert(prefix[k] == ops[k]);
        law_copy_preserves_contents(prefix, d, res, k, src, dst);
        lemma_apply_frame(last, run_ops(prefix, d), res, dst as int);
    }
}

/// Kernel law: when operation `p` dispatches a multiply-by-`f` kernel over the
/// first `n` elements of `buffer` and no other operation writes `buffer`, then
/// after the run element `i` of `buffer` is its submitted value times `f`
/// (modulo 2^32) for every `i < n`, and unchanged beyond.
pub proof fn law_dispatch_multiplies(
    ops: Seq<Op>,
    d: Seq<Seq<u32>>,
    res: Seq<ResourceDesc>,
    p: int,
    buffer: usize,
    n: usize,
    f: u32,
)
    requires
        ops_valid(ops, res),
        d.len() == res.len(),
        0 <= p < ops.len(),
        ops[p] == (Op::Dispatch { buffer, invocations: n, kernel: Kernel::MultiplyBy(f) }),
        forall|j: int| 0 <= j < ops.len() && j != p ==> !writes_to(#[trigger] ops[j], buffer as int),
    ensures
        run_ops(ops, d)[buffer as int].len() == d[buffer as int].len(),
        forall|i: int|
            0 <= i < d[buffer as int].len() ==> #[trigger] run_ops(ops, d)[buffer as int][i] == if i
                < n {
                ((d[buffer as int][i] as int * f as int) % 0x1_0000_0000) as u32
            } else {
                d[buffer as int][i]
            },
    decreases ops.len(),
{
    let prefix = ops.drop_last();
    let last = ops[ops.len() - 1];
    assert(op_valid(ops[p], res));
    assert(op_valid(last, res));
    lemma_run_len(prefix, d, res);
    if p == ops.len() - 1 {
        assert forall|j: int| 0 <= j < prefix.len() implies !writes_to(
            #[trigger] prefix[j],
            buffer as int,
        ) by {
            assert(prefix[j] == ops[j]);
        }
        lemma_untouched(prefix, d, res, buffer as int);
    } else {
        assert(!writes_to(last, buffer as int));
        assert(prefix[p] == ops[p]);
        assert forall|j: int| 0 <= j < prefix.len() && j != p implies !writes_to(
            #[trigger] prefix[j],
            buffer as int,
        ) by {
            assert(prefix[j] == ops[j]);
        }
        law_dispatch_multiplies(prefix, d, res, p, buffer, n, f);
        lemma_apply_frame(last, run_ops(prefix, d), res, buffer as int);
    }
}

} // verus!
