//! How often an operation waits for its stream.
//!
//! What only submits work never waits, so that submissions can overlap. The
//! softmax, row, rotation and normalization operations submit all their
//! stages first and wait exactly once, at their end. Composed attention waits
//! between its stages.

use crate::attention::{
    composed_multihead_plan, composed_multihead_stages, composed_plan, multihead_scale_causal_plan,
    scale_causal_plan, score_buffer, score_product, value_product, ComposedFamilies,
};
use crate::bf16::{
    bf16_affine_plan, bf16_scale_plan, bf16_vector_add_plan, narrow_plan, unary_plan, widen_plan,
};
use crate::bf16_attention::{
    bf16_composed_multihead_plan, bf16_composed_plan, quantized_plan, quantized_stages, wide,
    wide_heads, widening, QuantizedFamilies,
};
use crate::bf16_norms::{layer_submission_plan, norm_check, norm_plan, wide_rows, NormKind};
use crate::device::{ContextId, DeviceBuffer, Element, Probe, Scratch, Stream, F32};
use crate::elementwise::{affine_plan, scale_plan, vector_add_plan};
use crate::family::Family;
use crate::gather::{bf16_gather_plan, gather_plan, Lookup};
use crate::gemm::batched_plan;
use crate::gemv::{gemv_plan, MatrixVector};
use crate::heads::{fused_multihead_plan, fused_plan, AttentionMask, HeadKind, Heads};
use crate::int2_weight_gemv::{int2_plan, Int2Projection};
use crate::launch::Kernel;
use crate::lm_head_argmax::{argmax_plan, ArgmaxProjection, CandidateWorkspace};
use crate::mixed_weight_gemv::{mixed_plan, MixedProjection};
use crate::plan::{prefix_adds_no_wait, synchronization_waits_once, Action, PlanView, Step};
use crate::product::{product_plan, Product, ProductKind};
use crate::reduction::{
    passes_plan, reduction_plan, workspace_allocation, workspace_check, ReductionInput,
    ReductionOp, TreeWorkspace,
};
use crate::rms_norm::{fused_rms_plan, rms_dispatch_plan, rms_rows_plan, rms_submission_plan};
use crate::rope::{rope_plan, Rotation};
use crate::row_softmax::{fused_softmax_plan, softmax_dispatch_plan, softmax_rows_plan};
use crate::rows::{
    row_allocation, row_workspace_check, row_workspace_for, FusedProbes, RowKind,
    RowWorkspace, Rows,
};
use crate::scatter::{scatter_plan, Placement};
use crate::softmax::{
    own_scalars, own_tree, softmax_alone_plan, softmax_into_plan, softmax_plan,
    softmax_pooled_plan, SoftmaxOperands, SoftmaxView,
};
use crate::sparse_csc_gemv::{sparse_plan, SparseProjection};
use crate::top_k::{rounds_plan, selection_plan, Selection, SelectionWorkspace};
use crate::tree::{schedule, TreePass};
use vstd::prelude::*;

verus! {

/// Submitting elementwise work never waits.
pub proof fn elementwise_submissions_never_wait(
    kernel: Kernel,
    family: Family,
    left: DeviceBuffer,
    right: DeviceBuffer,
    output: DeviceBuffer,
    scale: F32,
    bias: F32,
)
    ensures
        vector_add_plan(family, left, right, output).never_waits(),
        scale_plan(family, left, output, scale).never_waits(),
        affine_plan(family, left, output, scale, bias).never_waits(),
        unary_plan(kernel, family, left, output).never_waits(),
        widen_plan(family, left, output).never_waits(),
        narrow_plan(family, left, output).never_waits(),
        bf16_vector_add_plan(family, left, right, output).never_waits(),
        bf16_scale_plan(family, left, output, scale).never_waits(),
        bf16_affine_plan(family, left, output, scale, bias).never_waits(),
{
}

/// Submitting products never waits.
pub proof fn product_submissions_never_wait(
    kind: ProductKind,
    family: Family,
    stream: Stream,
    p: Product,
    batches: usize,
    transposed_b: bool,
)
    ensures
        product_plan(kind, family, stream, p).never_waits(),
        batched_plan(family, stream, p, batches, transposed_b).never_waits(),
{
}

proof fn passes_never_wait(
    kind: ReductionInput,
    op: ReductionOp,
    width: u32,
    input: DeviceBuffer,
    output: DeviceBuffer,
    workspace: TreeWorkspace,
    passes: Seq<TreePass>,
)
    ensures
        passes_plan(kind, op, width, input.id, output.id, workspace, passes).never_waits(),
    decreases passes.len(),
{
    broadcast use crate::plan::group_waiting;

    if passes.len() > 0 {
        passes_never_wait(kind, op, width, input, output, workspace, passes.drop_last());
    }
}

/// Submitting the passes of a reduction never waits.
pub proof fn reduction_submissions_never_wait(
    kind: ReductionInput,
    op: ReductionOp,
    family: Family,
    stream: Stream,
    input: DeviceBuffer,
    output: DeviceBuffer,
    workspace: TreeWorkspace,
)
    ensures
        reduction_plan(kind, op, family, stream, input, output, workspace).never_waits(),
{
    broadcast use crate::plan::group_waiting;

    passes_never_wait(
        kind,
        op,
        family.width,
        input,
        output,
        workspace,
        schedule(input.len, family.width),
    );
}

/// Submitting the four stages of a softmax never waits.
pub proof fn softmax_submissions_never_wait(
    softmax: SoftmaxView,
    stream: Stream,
    o: SoftmaxOperands,
    workspace: TreeWorkspace,
)
    ensures
        softmax_plan(softmax, stream, o, workspace).never_waits(),
{
    broadcast use crate::plan::group_waiting;

    reduction_submissions_never_wait(
        ReductionInput::F32,
        ReductionOp::Max,
        softmax.reduction,
        stream,
        o.input,
        o.max_scratch,
        workspace,
    );
    reduction_submissions_never_wait(
        ReductionInput::F32,
        ReductionOp::Sum,
        softmax.reduction,
        stream,
        o.output,
        o.sum_scratch,
        workspace,
    );
}

/// Submitting row softmax or RMS normalization never waits.
pub proof fn row_submissions_never_wait(
    family: Family,
    stream: Stream,
    r: Rows,
    workspace: RowWorkspace,
    epsilon: F32,
    gamma: F32,
    probes: FusedProbes,
)
    ensures
        softmax_rows_plan(family, stream, r, workspace).never_waits(),
        fused_softmax_plan(family, stream, r, probes.fused).never_waits(),
        rms_rows_plan(family, stream, r, epsilon, gamma, workspace).never_waits(),
        fused_rms_plan(family, stream, r, epsilon, gamma, probes.fused).never_waits(),
        rms_submission_plan(family, stream, r, epsilon, gamma, probes).never_waits(),
{
    broadcast use crate::plan::group_waiting;

}

/// Submitting fused attention or a causal scaling never waits.
pub proof fn attention_submissions_never_wait(
    kind: HeadKind,
    family: Family,
    stream: Stream,
    h: Heads,
    heads: usize,
    scale: F32,
    mask: AttentionMask,
    probe: Probe,
    scores: DeviceBuffer,
    elements: usize,
)
    ensures
        fused_plan(kind, family, stream, h, scale, mask, probe).never_waits(),
        fused_multihead_plan(kind, family, stream, h, heads, scale, mask, probe).never_waits(),
        scale_causal_plan(
            family,
            stream,
            scores,
            h.output,
            h.query_rows,
            h.kv_rows,
            scale,
        ).never_waits(),
        multihead_scale_causal_plan(
            family,
            stream,
            scores,
            h.output,
            elements,
            h.query_rows,
            h.kv_rows,
            scale,
        ).never_waits(),
{
}

/// Submitting a matrix-vector product, a projection or a rotation never
/// waits.
pub proof fn projection_submissions_never_wait(
    family: Family,
    stream: Stream,
    g: MatrixVector,
    mixed: MixedProjection,
    int2: Int2Projection,
    sparse: SparseProjection,
    kernel: Kernel,
    rotation: Rotation,
)
    ensures
        gemv_plan(family, stream, g).never_waits(),
        mixed_plan(family, stream, mixed).never_waits(),
        int2_plan(family, stream, int2).never_waits(),
        sparse_plan(family, stream, sparse).never_waits(),
        rope_plan(kernel, family, stream, rotation).never_waits(),
{
}

/// Submitting a gather, a scatter or an argmax projection never waits.
pub proof fn row_move_submissions_never_wait(
    name: &'static str,
    kernel: Kernel,
    family: Family,
    stream: Stream,
    lookup: Lookup,
    placement: Placement,
    p: ArgmaxProjection,
    workspace: CandidateWorkspace,
)
    ensures
        gather_plan(family, stream, lookup).never_waits(),
        bf16_gather_plan(family, stream, lookup).never_waits(),
        scatter_plan(name, kernel, family, stream, placement).never_waits(),
        argmax_plan(family, stream, p, workspace).never_waits(),
{
}

proof fn rounds_never_wait(
    width: u32,
    s: Selection,
    workspace: SelectionWorkspace,
    passes: Seq<TreePass>,
    rounds: nat,
)
    ensures
        rounds_plan(width, s, workspace, passes, rounds).never_waits(),
    decreases rounds,
{
    broadcast use crate::plan::group_waiting;

    if rounds > 0 {
        let slot = (rounds - 1) as nat;
        rounds_never_wait(width, s, workspace, passes, slot);
        let round = crate::top_k::round_plan(width, s, workspace, slot, passes);
        assert(round.never_waits());
    }
}

/// Submitting the rounds of a selection never waits.
pub proof fn selection_submissions_never_wait(
    family: Family,
    stream: Stream,
    s: Selection,
    workspace: SelectionWorkspace,
)
    ensures
        selection_plan(family, stream, s, workspace).never_waits(),
{
    broadcast use crate::plan::group_waiting;

    rounds_never_wait(
        family.width,
        s,
        workspace,
        schedule(s.input.len, family.width),
        s.k as nat,
    );
}

/// A softmax waits exactly once, after all four stages, wherever its scratch
/// comes from; only one refused for its context before anything is allocated
/// does not wait.
pub proof fn softmax_waits_once(
    softmax: SoftmaxView,
    context: ContextId,
    stream: Stream,
    input: DeviceBuffer,
    output: DeviceBuffer,
    workspace: TreeWorkspace,
)
    ensures
        softmax_into_plan(softmax, stream, input, output, workspace).waits_once(),
        softmax.reduction.context == context ==> softmax_alone_plan(
            softmax,
            context,
            stream,
            input,
            output,
        ).waits_once(),
        softmax.reduction.context == context ==> softmax_pooled_plan(
            softmax,
            context,
            stream,
            input,
            output,
        ).waits_once(),
{
    broadcast use crate::plan::group_waiting;

    let tree = own_tree(softmax.reduction, context, input.len);
    let own = own_scalars(stream.context, input, output);
    let pooled = own_scalars(context, input, output);
    let scalars = PlanView::one(
        Action::Allocate { buffer: own.max_scratch, element: Element::F32 },
    ).followed_by(
        PlanView::one(Action::Allocate { buffer: own.sum_scratch, element: Element::F32 }),
    );
    softmax_submissions_never_wait(softmax, stream, own, workspace);
    softmax_submissions_never_wait(softmax, stream, own, tree);
    softmax_submissions_never_wait(softmax, stream, pooled, tree);
    prefix_adds_no_wait(scalars, softmax_plan(softmax, stream, own, workspace).synchronized());
    prefix_adds_no_wait(scalars, softmax_plan(softmax, stream, own, tree).synchronized());
    if softmax.reduction.context == context {
        let checked = PlanView::checked(
            workspace_check(ReductionInput::F32, softmax.reduction, context),
        );
        prefix_adds_no_wait(
            checked.followed_by(workspace_allocation(tree)),
            softmax_into_plan(softmax, stream, input, output, tree),
        );
        prefix_adds_no_wait(
            checked.followed_by(
                PlanView::one(
                    Action::AllocatePooled { buffer: tree.scratch_a, element: Element::F32 },
                ),
            ).followed_by(
                PlanView::one(
                    Action::AllocatePooled { buffer: tree.scratch_b, element: Element::F32 },
                ),
            ).followed_by(
                PlanView::one(
                    Action::AllocatePooled { buffer: pooled.max_scratch, element: Element::F32 },
                ),
            ).followed_by(
                PlanView::one(
                    Action::AllocatePooled { buffer: pooled.sum_scratch, element: Element::F32 },
                ),
            ),
            softmax_plan(softmax, stream, pooled, tree).synchronized(),
        );
    }
}

/// Row softmax and RMS normalization wait exactly once, by whichever path;
/// only a dispatch refused for the stream's context does not wait.
pub proof fn row_operations_wait_once(
    family: Family,
    stream: Stream,
    r: Rows,
    workspace: RowWorkspace,
    epsilon: F32,
    gamma: F32,
    probes: FusedProbes,
)
    ensures
        softmax_rows_plan(family, stream, r, workspace).synchronized().waits_once(),
        fused_softmax_plan(family, stream, r, probes.fused).synchronized().waits_once(),
        rms_rows_plan(family, stream, r, epsilon, gamma, workspace).synchronized().waits_once(),
        fused_rms_plan(family, stream, r, epsilon, gamma, probes.fused).synchronized().waits_once(),
        family.context == stream.context ==> softmax_dispatch_plan(
            family,
            stream,
            r,
            probes,
        ).waits_once(),
        family.context == stream.context ==> rms_dispatch_plan(
            family,
            stream,
            r,
            epsilon,
            gamma,
            probes,
        ).waits_once(),
{
    broadcast use crate::plan::group_waiting;

    row_submissions_never_wait(family, stream, r, workspace, epsilon, gamma, probes);
    if family.context == stream.context {
        let scalars = row_workspace_for(
            stream.context,
            r.rows,
            crate::device::BufferId::Scratch(crate::device::Scratch::RowScalars),
        );
        let sums = row_workspace_for(
            stream.context,
            r.rows,
            crate::device::BufferId::Scratch(crate::device::Scratch::RowSumOfSquares),
        );
        row_submissions_never_wait(family, stream, r, scalars, epsilon, gamma, probes);
        row_submissions_never_wait(family, stream, r, sums, epsilon, gamma, probes);
        prefix_adds_no_wait(
            PlanView::checked(
                row_workspace_check(RowKind::Softmax, family, stream.context),
            ).followed_by(row_allocation(scalars)),
            softmax_rows_plan(family, stream, r, scalars).synchronized(),
        );
        prefix_adds_no_wait(
            PlanView::checked(
                row_workspace_check(RowKind::RmsNorm, family, stream.context),
            ).followed_by(row_allocation(sums)),
            rms_rows_plan(family, stream, r, epsilon, gamma, sums).synchronized(),
        );
    }
}

/// Both rotations wait exactly once.
pub proof fn rotations_wait_once(kernel: Kernel, family: Family, stream: Stream, p: Rotation)
    ensures
        rope_plan(kernel, family, stream, p).synchronized().waits_once(),
{
    broadcast use crate::plan::group_waiting;

    assert(rope_plan(kernel, family, stream, p).never_waits());
}

/// An accepted packed-bf16 normalization waits exactly once.
pub proof fn norms_wait_once(
    conversions: Family,
    rms_norm: Family,
    stream: Stream,
    r: Rows,
    epsilon: F32,
    gamma: F32,
    beta: F32,
    probes: FusedProbes,
)
    requires
        norm_check(NormKind::Rms, stream, r) is Ok,
    ensures
        norm_plan(
            NormKind::Rms,
            conversions,
            stream,
            r,
            rms_submission_plan(rms_norm, stream, wide_rows(stream, r), epsilon, gamma, probes),
        ).waits_once(),
        norm_plan(
            NormKind::Layer,
            conversions,
            stream,
            r,
            layer_submission_plan(wide_rows(stream, r), epsilon, gamma, beta),
        ).waits_once(),
{
    let w = wide_rows(stream, r);
    let unused = row_workspace_for(stream.context, 0, w.input.id);
    row_submissions_never_wait(rms_norm, stream, w, unused, epsilon, gamma, probes);
    norm_waits_once(
        NormKind::Rms,
        conversions,
        stream,
        r,
        rms_submission_plan(rms_norm, stream, w, epsilon, gamma, probes),
    );
    norm_waits_once(
        NormKind::Layer,
        conversions,
        stream,
        r,
        layer_submission_plan(w, epsilon, gamma, beta),
    );
}

proof fn norm_waits_once(
    kind: NormKind,
    conversions: Family,
    stream: Stream,
    r: Rows,
    normalize: PlanView,
)
    requires
        norm_check(kind, stream, r) is Ok,
        normalize.never_waits(),
    ensures
        norm_plan(kind, conversions, stream, r, normalize).waits_once(),
{
    broadcast use crate::plan::group_waiting;

    let w = wide_rows(stream, r);
    let work = widen_plan(conversions, r.input, w.input).followed_by(normalize).followed_by(
        narrow_plan(conversions, w.output, r.output),
    );
    assert(work.never_waits());
    synchronization_waits_once(work);
    prefix_adds_no_wait(
        PlanView::checked(norm_check(kind, stream, r)).followed_by(
            PlanView::one(Action::Allocate { buffer: w.input, element: Element::F32 }),
        ).followed_by(
            PlanView::one(Action::Allocate { buffer: w.output, element: Element::F32 }),
        ),
        work.synchronized(),
    );
}

/// How many of the steps wait for the stream.
pub open spec fn waits_among(steps: Seq<Step>) -> nat
    decreases steps.len(),
{
    if steps.len() == 0 {
        0
    } else if steps.last().action.waits() {
        waits_among(steps.drop_last()) + 1
    } else {
        waits_among(steps.drop_last())
    }
}

/// How often a plan waits for its stream.
pub open spec fn waits_of(plan: PlanView) -> nat {
    waits_among(plan.steps)
}

proof fn waits_add_up(a: Seq<Step>, b: Seq<Step>)
    ensures
        waits_among(a + b) == waits_among(a) + waits_among(b),
    decreases b.len(),
{
    if b.len() == 0 {
        assert(a + b =~= a);
    } else {
        waits_add_up(a, b.drop_last());
        assert((a + b).drop_last() =~= a + b.drop_last());
        assert((a + b).last() == b.last());
    }
}

proof fn same_calls_wait_alike(a: Seq<Step>, b: Seq<Step>)
    requires
        a.len() == b.len(),
        forall|i: int| 0 <= i < a.len() ==> (#[trigger] a[i]).action == b[i].action,
    ensures
        waits_among(a) == waits_among(b),
    decreases a.len(),
{
    if a.len() > 0 {
        assert forall|i: int| 0 <= i < a.len() - 1 implies (#[trigger] a.drop_last()[i]).action
            == b.drop_last()[i].action by {
            assert(a[i].action == b[i].action);
        }
        same_calls_wait_alike(a.drop_last(), b.drop_last());
        assert(a[a.len() - 1].action == b[b.len() - 1].action);
    }
}

proof fn no_wait_is_none(steps: Seq<Step>)
    requires
        forall|i: int| 0 <= i < steps.len() ==> !(#[trigger] steps[i]).action.waits(),
    ensures
        waits_among(steps) == 0,
    decreases steps.len(),
{
    if steps.len() > 0 {
        assert forall|i: int| 0 <= i < steps.len() - 1 implies !(
        #[trigger] steps.drop_last()[i]).action.waits() by {
            assert(!steps[i].action.waits());
        }
        no_wait_is_none(steps.drop_last());
        assert(!steps[steps.len() - 1].action.waits());
    }
}

broadcast proof fn composition_waits(a: PlanView, b: PlanView)
    requires
        a.outcome is Ok,
    ensures
        #[trigger] waits_of(a.followed_by(b)) == waits_of(a) + waits_of(b),
{
    waits_add_up(a.steps, b.steps);
}

broadcast proof fn submission_waits_never(a: PlanView)
    requires
        a.never_waits(),
    ensures
        #[trigger] waits_of(a) == 0,
{
    no_wait_is_none(a.steps);
}

broadcast proof fn operation_waits_once(a: PlanView)
    requires
        a.waits_once(),
    ensures
        #[trigger] waits_of(a) == 1,
{
    let before = a.steps.drop_last();
    assert forall|i: int| 0 <= i < before.len() implies !(#[trigger] before[i]).action.waits() by {
        assert(!a.steps[i].action.waits());
    }
    no_wait_is_none(before);
}

broadcast proof fn call_waits(action: Action)
    ensures
        #[trigger] waits_of(PlanView::one(action)) == (if action.waits() {
            1nat
        } else {
            0nat
        }),
{
    let steps = PlanView::one(action).steps;
    assert(steps.drop_last() =~= Seq::<Step>::empty());
    assert(waits_among(steps.drop_last()) == 0);
}

broadcast proof fn guard_adds_no_wait(a: PlanView)
    requires
        a.outcome is Ok,
    ensures
        #[trigger] waits_of(a.guarded()) == waits_of(a),
{
    assert(a.guarded().steps =~= crate::plan::guarded_steps(a.steps));
    same_calls_wait_alike(a.guarded().steps, a.steps);
}

broadcast group group_counting {
    composition_waits,
    submission_waits_never,
    operation_waits_once,
    call_waits,
    guard_adds_no_wait,
}

/// Composed attention over one head waits after each product and after the
/// softmax, and after a scaling that masks nothing; causal scaling is only
/// submitted.
pub proof fn composed_attention_waits(
    f: ComposedFamilies,
    stream: Stream,
    h: Heads,
    scale: F32,
    mask: AttentionMask,
    probes: FusedProbes,
)
    requires
        composed_plan(f, stream, h, scale, mask, probes).outcome is Ok,
    ensures
        waits_of(composed_plan(f, stream, h, scale, mask, probes)) == (if mask
            == AttentionMask::Causal {
            3nat
        } else {
            4nat
        }),
{
    broadcast use {group_counting, crate::plan::group_waiting};

    let elements = (h.query_rows * h.kv_rows) as usize;
    let probabilities = score_buffer(stream.context, Scratch::Probabilities, elements);
    let scores = score_buffer(stream.context, Scratch::Scores, elements);
    let rows = Rows {
        input: probabilities,
        output: probabilities,
        rows: h.query_rows,
        cols: h.kv_rows,
    };
    dispatch_waits(f.softmax, stream, rows, probes);
    let scoring = product_plan(
        ProductKind::F32TransposedB,
        f.gemm,
        stream,
        score_product(h, scores),
    );
    let weighing = product_plan(ProductKind::F32, f.gemm, stream, value_product(h, probabilities));
    assert(scoring.never_waits() && weighing.never_waits());
    assert(scale_causal_plan(
        f.attention,
        stream,
        scores,
        probabilities,
        h.query_rows,
        h.kv_rows,
        scale,
    ).never_waits());
    assert(scale_plan(f.elementwise, scores, probabilities, scale).never_waits());
}

proof fn dispatch_waits(family: Family, stream: Stream, r: Rows, probes: FusedProbes)
    ensures
        softmax_dispatch_plan(family, stream, r, probes).outcome is Ok ==> waits_of(
            softmax_dispatch_plan(family, stream, r, probes),
        ) == 1,
{
    let plan = softmax_dispatch_plan(family, stream, r, probes);
    if plan.outcome is Ok {
        let workspace = row_workspace_for(
            stream.context,
            r.rows,
            crate::device::BufferId::Scratch(Scratch::RowScalars),
        );
        let zero = F32 { bits: 0 };
        row_operations_wait_once(family, stream, r, workspace, zero, zero, probes);
        operation_waits_once(plan);
    }
}

/// Composed attention over several heads waits after each of its four stages.
pub proof fn composed_multihead_attention_waits(
    f: ComposedFamilies,
    stream: Stream,
    h: Heads,
    heads: usize,
    scale: F32,
    mask: AttentionMask,
    probes: FusedProbes,
)
    requires
        composed_multihead_plan(f, stream, h, heads, scale, mask, probes).outcome is Ok,
        h.query_rows > 0,
    ensures
        waits_of(composed_multihead_plan(f, stream, h, heads, scale, mask, probes)) == 4,
{
    broadcast use {group_counting, crate::plan::group_waiting};

    let elements = (heads * h.query_rows * h.kv_rows) as usize;
    let probabilities = score_buffer(stream.context, Scratch::Probabilities, elements);
    let rows = Rows {
        input: probabilities,
        output: probabilities,
        rows: (heads * h.query_rows) as usize,
        cols: h.kv_rows,
    };
    dispatch_waits(f.softmax, stream, rows, probes);
    let scoring = batched_plan(f.gemm, stream, score_product(h, probabilities), heads, true);
    let weighing = batched_plan(f.gemm, stream, value_product(h, probabilities), heads, false);
    assert(scoring.never_waits() && weighing.never_waits());
    assert(multihead_scale_causal_plan(
        f.attention,
        stream,
        probabilities,
        probabilities,
        elements,
        h.query_rows,
        h.kv_rows,
        scale,
    ).never_waits());
    assert(scale_plan(f.elementwise, probabilities, probabilities, scale).never_waits());
    assert(waits_of(composed_multihead_stages(f, stream, h, heads, scale, mask, probes)) == 4);
}

/// Quantized composed attention waits after each of its six stages.
pub proof fn quantized_attention_waits(
    f: QuantizedFamilies,
    stream: Stream,
    h: Heads,
    scale: F32,
    mask: AttentionMask,
    probes: FusedProbes,
)
    requires
        quantized_plan(f, stream, h, scale, mask, probes).outcome is Ok,
        h.query_rows > 0,
    ensures
        waits_of(quantized_plan(f, stream, h, scale, mask, probes)) == 6,
{
    broadcast use {group_counting, crate::plan::group_waiting};

    let elements = (h.query_rows * h.kv_rows) as usize;
    let packed = wide(f.family.context, Scratch::PackedScores, elements);
    let probs = wide(f.family.context, Scratch::WideProbabilities, elements);
    let rows = Rows { input: probs, output: probs, rows: h.query_rows, cols: h.kv_rows };
    dispatch_waits(f.softmax, stream, rows, probes);
    let scoring = product_plan(
        ProductKind::Bf16TransposedB,
        f.gemm,
        stream,
        score_product(h, packed),
    );
    let weighing = product_plan(ProductKind::Bf16, f.gemm, stream, value_product(h, packed));
    assert(scoring.never_waits() && weighing.never_waits());
    assert(widen_plan(f.conversions, packed, probs).never_waits());
    assert(narrow_plan(f.conversions, probs, packed).never_waits());
    assert(scale_causal_plan(
        f.attention,
        stream,
        probs,
        probs,
        h.query_rows,
        h.kv_rows,
        scale,
    ).never_waits());
    assert(scale_plan(f.elementwise, probs, probs, scale).never_waits());
    assert(waits_of(quantized_stages(f, stream, h, scale, mask, probes)) == 6);
}

/// Composed attention over packed bf16 waits after each of its four conversions
/// and as often as the `f32` pipeline between them.
pub proof fn bf16_composed_attention_waits(
    family: Family,
    conversions: Family,
    f: ComposedFamilies,
    stream: Stream,
    h: Heads,
    heads: usize,
    scale: F32,
    mask: AttentionMask,
    probes: FusedProbes,
)
    requires
        h.query_rows > 0,
    ensures
        ({
            let w = wide_heads(family.context, h);
            let single = bf16_composed_plan(
                family,
                conversions,
                f,
                stream,
                h,
                scale,
                mask,
                probes,
            );
            let packed = bf16_composed_multihead_plan(
                family,
                conversions,
                f,
                stream,
                h,
                heads,
                scale,
                mask,
                probes,
            );
            &&& single.outcome is Ok ==> waits_of(single) == 4 + waits_of(
                composed_plan(f, stream, w, scale, mask, probes),
            )
            &&& packed.outcome is Ok ==> waits_of(packed) == 4 + waits_of(
                composed_multihead_plan(f, stream, w, heads, scale, mask, probes),
            )
        }),
{
    broadcast use {group_counting, crate::plan::group_waiting};

    let w = wide_heads(family.context, h);
    assert(widen_plan(conversions, h.queries, w.queries).never_waits());
    assert(widen_plan(conversions, h.keys, w.keys).never_waits());
    assert(widen_plan(conversions, h.values, w.values).never_waits());
    assert(narrow_plan(conversions, w.output, h.output).never_waits());
    if widening(conversions, h, w).outcome is Ok {
        assert(waits_of(widening(conversions, h, w)) == 3);
    }
}

} // verus!
