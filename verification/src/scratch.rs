//! What the operations that make scratch memory for themselves allocate.
//!
//! Only the pooled softmax takes its scratch from the stream-ordered pool.

use crate::arith::ceil_div;
use crate::attention::{
    composed_multihead_plan, composed_multihead_stages, composed_plan, multihead_scale_causal_plan,
    packed_scores_check, scale_causal_plan, score_buffer, score_product, value_product,
    ComposedFamilies,
};
use crate::bf16::{narrow_plan, widen_plan};
use crate::bf16_attention::{
    bf16_composed_multihead_plan, bf16_composed_plan, quantized_plan, quantized_stages, wide,
    wide_heads, widening, QuantizedFamilies,
};
use crate::bf16_norms::{layer_submission_plan, norm_plan, wide_rows, NormKind};
use crate::device::{BufferId, ContextId, DeviceBuffer, Element, Scratch, Stream, F32};
use crate::elementwise::{awaited, scale_plan};
use crate::family::Family;
use crate::gemm::batched_plan;
use crate::heads::{AttentionMask, Heads};
use crate::plan::{Action, PlanView, Step};
use crate::product::{product_plan, ProductKind};
use crate::reduction::{
    own_workspace, passes_plan, reduction_plan, scalar_output, scalar_plan, ReductionInput,
    ReductionOp, TreeWorkspace,
};
use crate::rms_norm::{fused_rms_plan, rms_dispatch_plan, rms_rows_plan, rms_submission_plan};
use crate::row_softmax::{fused_softmax_plan, softmax_dispatch_plan, softmax_rows_plan};
use crate::rows::{row_fits, row_workspace_for, FusedProbes, Rows};
use crate::softmax::{
    softmax_alone_plan, softmax_into_plan, softmax_plan, softmax_pooled_plan, SoftmaxOperands,
    SoftmaxView,
};
use crate::top_k::{
    mask_launch, own_buffers, own_selection_plan, round_plan, rounds_plan, selection_plan,
    selection_workspace_for, Selection, SelectionWorkspace,
};
use crate::tree::{schedule, TreePass};
use vstd::prelude::*;

verus! {

/// The scratch of a dispatched row softmax: none on the fused path, one scalar
/// per row on the staged one.
pub open spec fn row_scratch(
    family: Family,
    stream: Stream,
    rows: usize,
    cols: usize,
    role: Scratch,
    probes: FusedProbes,
) -> Seq<(DeviceBuffer, Element)> {
    if row_fits(family.width, cols, probes.available) {
        Seq::empty()
    } else {
        seq![
            (
                DeviceBuffer { id: BufferId::Scratch(role), len: rows, context: stream.context },
                Element::F32,
            ),
        ]
    }
}

/// A dispatched row operation allocates one scalar per row where it takes the
/// staged path, and nothing where it takes the fused one.
pub proof fn dispatch_scratch(
    family: Family,
    stream: Stream,
    r: Rows,
    epsilon: F32,
    gamma: F32,
    probes: FusedProbes,
)
    ensures
        softmax_dispatch_plan(family, stream, r, probes).outcome is Ok ==> softmax_dispatch_plan(
            family,
            stream,
            r,
            probes,
        ).scratch() == row_scratch(family, stream, r.rows, r.cols, Scratch::RowScalars, probes),
        rms_dispatch_plan(family, stream, r, epsilon, gamma, probes).outcome is Ok
            ==> rms_dispatch_plan(family, stream, r, epsilon, gamma, probes).scratch()
            == row_scratch(family, stream, r.rows, r.cols, Scratch::RowSumOfSquares, probes),
        softmax_dispatch_plan(family, stream, r, probes).never_pools(),
        rms_dispatch_plan(family, stream, r, epsilon, gamma, probes).never_pools(),
{
    broadcast use {crate::plan::group_allocation, crate::plan::group_pooling};

    let scalars = row_workspace_for(
        stream.context,
        r.rows,
        BufferId::Scratch(Scratch::RowScalars),
    );
    let sums = row_workspace_for(
        stream.context,
        r.rows,
        BufferId::Scratch(Scratch::RowSumOfSquares),
    );
    assert(fused_softmax_plan(family, stream, r, probes.fused).never_allocates());
    assert(softmax_rows_plan(family, stream, r, scalars).never_allocates());
    assert(fused_rms_plan(family, stream, r, epsilon, gamma, probes.fused).never_allocates());
    assert(rms_rows_plan(family, stream, r, epsilon, gamma, sums).never_allocates());
}

/// Composed attention over one head allocates two buffers the size of the
/// score matrix, and what the dispatched softmax needs.
pub proof fn composed_scratch(
    f: ComposedFamilies,
    stream: Stream,
    h: Heads,
    scale: F32,
    mask: AttentionMask,
    probes: FusedProbes,
)
    requires
        composed_plan(f, stream, h, scale, mask, probes).outcome is Ok,
    ensures
        composed_plan(f, stream, h, scale, mask, probes).scratch() == seq![
            (
                score_buffer(
                    stream.context,
                    Scratch::Probabilities,
                    (h.query_rows * h.kv_rows) as usize,
                ),
                Element::F32,
            ),
            (
                score_buffer(
                    stream.context,
                    Scratch::Scores,
                    (h.query_rows * h.kv_rows) as usize,
                ),
                Element::F32,
            ),
        ] + row_scratch(
            f.softmax,
            stream,
            h.query_rows,
            h.kv_rows,
            Scratch::RowScalars,
            probes,
        ),
        composed_plan(f, stream, h, scale, mask, probes).never_pools(),
{
    broadcast use {crate::plan::group_allocation, crate::plan::group_pooling};

    let elements = (h.query_rows * h.kv_rows) as usize;
    let probabilities = score_buffer(stream.context, Scratch::Probabilities, elements);
    let scores = score_buffer(stream.context, Scratch::Scores, elements);
    let rows = Rows {
        input: probabilities,
        output: probabilities,
        rows: h.query_rows,
        cols: h.kv_rows,
    };
    dispatch_scratch(f.softmax, stream, rows, scale, scale, probes);
    assert(product_plan(
        ProductKind::F32TransposedB,
        f.gemm,
        stream,
        score_product(h, scores),
    ).never_allocates());
    assert(product_plan(
        ProductKind::F32,
        f.gemm,
        stream,
        value_product(h, probabilities),
    ).never_allocates());
    assert(scale_causal_plan(
        f.attention,
        stream,
        scores,
        probabilities,
        h.query_rows,
        h.kv_rows,
        scale,
    ).never_allocates());
    assert(awaited(scale_plan(f.elementwise, scores, probabilities, scale)).never_allocates());
}

/// Composed attention over several heads allocates one buffer the size of the
/// packed score matrix, and what the dispatched softmax needs.
pub proof fn composed_multihead_scratch(
    f: ComposedFamilies,
    stream: Stream,
    h: Heads,
    heads: usize,
    scale: F32,
    mask: AttentionMask,
    probes: FusedProbes,
)
    requires
        composed_multihead_plan(f, stream, h, heads, scale, mask, probes).outcome is Ok,
        h.query_rows > 0,
    ensures
        composed_multihead_plan(f, stream, h, heads, scale, mask, probes).scratch() == seq![
            (
                score_buffer(
                    stream.context,
                    Scratch::Probabilities,
                    (heads * h.query_rows * h.kv_rows) as usize,
                ),
                Element::F32,
            ),
        ] + row_scratch(
            f.softmax,
            stream,
            (heads * h.query_rows) as usize,
            h.kv_rows,
            Scratch::RowScalars,
            probes,
        ),
        composed_multihead_plan(f, stream, h, heads, scale, mask, probes).never_pools(),
{
    broadcast use {crate::plan::group_allocation, crate::plan::group_pooling};

    let elements = (heads * h.query_rows * h.kv_rows) as usize;
    let probabilities = score_buffer(stream.context, Scratch::Probabilities, elements);
    let rows = Rows {
        input: probabilities,
        output: probabilities,
        rows: (heads * h.query_rows) as usize,
        cols: h.kv_rows,
    };
    dispatch_scratch(f.softmax, stream, rows, scale, scale, probes);
    assert(batched_plan(
        f.gemm,
        stream,
        score_product(h, probabilities),
        heads,
        true,
    ).never_allocates());
    assert(batched_plan(
        f.gemm,
        stream,
        value_product(h, probabilities),
        heads,
        false,
    ).never_allocates());
    assert(awaited(
        multihead_scale_causal_plan(
            f.attention,
            stream,
            probabilities,
            probabilities,
            elements,
            h.query_rows,
            h.kv_rows,
            scale,
        ),
    ).never_allocates());
    assert(awaited(
        scale_plan(f.elementwise, probabilities, probabilities, scale),
    ).never_allocates());
    assert(PlanView::checked(packed_scores_check(h, heads)).never_allocates());
    assert(composed_multihead_stages(f, stream, h, heads, scale, mask, probes).outcome is Ok);
}

proof fn widening_scratch(conversions: Family, h: Heads, w: Heads)
    requires
        widening(conversions, h, w).outcome is Ok,
    ensures
        widening(conversions, h, w).scratch() == seq![
            (w.queries, Element::F32),
            (w.keys, Element::F32),
            (w.values, Element::F32),
            (w.output, Element::F32),
        ],
        widening(conversions, h, w).never_pools(),
{
    broadcast use {crate::plan::group_allocation, crate::plan::group_pooling};

    assert(awaited(widen_plan(conversions, h.queries, w.queries)).never_allocates());
    assert(awaited(widen_plan(conversions, h.keys, w.keys)).never_allocates());
    assert(awaited(widen_plan(conversions, h.values, w.values)).never_allocates());
}

/// Composed attention over packed bf16 allocates one `f32` buffer for each
/// operand and the output, each as long as what it stands for, on top of what
/// the `f32` pipeline allocates.
pub proof fn bf16_composed_scratch(
    family: Family,
    conversions: Family,
    f: ComposedFamilies,
    stream: Stream,
    h: Heads,
    heads: usize,
    scale: F32,
    mask: AttentionMask,
    probes: FusedProbes,
)
    requires
        h.query_rows > 0,
    ensures
        ({
            let w = wide_heads(family.context, h);
            let operands = seq![
                (w.queries, Element::F32),
                (w.keys, Element::F32),
                (w.values, Element::F32),
                (w.output, Element::F32),
            ];
            let single = bf16_composed_plan(
                family,
                conversions,
                f,
                stream,
                h,
                scale,
                mask,
                probes,
            );
            let packed = bf16_composed_multihead_plan(
                family,
                conversions,
                f,
                stream,
                h,
                heads,
                scale,
                mask,
                probes,
            );
            &&& single.outcome is Ok ==> single.scratch() == operands + composed_plan(
                f,
                stream,
                w,
                scale,
                mask,
                probes,
            ).scratch()
            &&& packed.outcome is Ok ==> packed.scratch() == operands + composed_multihead_plan(
                f,
                stream,
                w,
                heads,
                scale,
                mask,
                probes,
            ).scratch()
        }),
{
    broadcast use crate::plan::group_allocation;

    let w = wide_heads(family.context, h);
    if widening(conversions, h, w).outcome is Ok {
        widening_scratch(conversions, h, w);
    }
    assert(awaited(narrow_plan(conversions, w.output, h.output)).never_allocates());
}

/// Composed attention over packed bf16 leaves the stream-ordered pool alone.
pub proof fn bf16_composed_never_pools(
    family: Family,
    conversions: Family,
    f: ComposedFamilies,
    stream: Stream,
    h: Heads,
    heads: usize,
    scale: F32,
    mask: AttentionMask,
    probes: FusedProbes,
)
    ensures
        ({
            let single = bf16_composed_plan(
                family,
                conversions,
                f,
                stream,
                h,
                scale,
                mask,
                probes,
            );
            let packed = bf16_composed_multihead_plan(
                family,
                conversions,
                f,
                stream,
                h,
                heads,
                scale,
                mask,
                probes,
            );
            &&& single.outcome is Ok ==> single.never_pools()
            &&& packed.outcome is Ok ==> packed.never_pools()
        }),
{
    broadcast use crate::plan::group_pooling;

    let w = wide_heads(family.context, h);
    let narrowing = awaited(narrow_plan(conversions, w.output, h.output));
    assert(narrowing.never_pools());
    if h.query_rows > 0 && widening(conversions, h, w).outcome is Ok {
        widening_scratch(conversions, h, w);
        let before = widening(conversions, h, w);
        let one = composed_plan(f, stream, w, scale, mask, probes);
        let many = composed_multihead_plan(f, stream, w, heads, scale, mask, probes);
        if one.outcome is Ok {
            composed_scratch(f, stream, w, scale, mask, probes);
            assert(before.followed_by(one).followed_by(narrowing).never_pools());
        }
        if many.outcome is Ok {
            composed_multihead_scratch(f, stream, w, heads, scale, mask, probes);
            assert(before.followed_by(many).followed_by(narrowing).never_pools());
        }
    }
}

/// A packed-bf16 normalization allocates an `f32` copy of its rows and one of
/// its result, on top of what the normalization allocates.
pub proof fn norm_scratch(
    kind: NormKind,
    conversions: Family,
    stream: Stream,
    r: Rows,
    normalize: PlanView,
)
    requires
        norm_plan(kind, conversions, stream, r, normalize).outcome is Ok,
    ensures
        norm_plan(kind, conversions, stream, r, normalize).scratch() == seq![
            own_floats(Scratch::WideInput, (r.rows * r.cols) as usize, stream.context),
            own_floats(Scratch::WideOutput, (r.rows * r.cols) as usize, stream.context),
        ] + normalize.scratch(),
        normalize.never_pools() ==> norm_plan(
            kind,
            conversions,
            stream,
            r,
            normalize,
        ).never_pools(),
{
    broadcast use {crate::plan::group_allocation, crate::plan::group_pooling};

    let w = wide_rows(stream, r);
    assert(widen_plan(conversions, r.input, w.input).never_allocates());
    assert(narrow_plan(conversions, w.output, r.output).never_allocates());
}

/// What a packed-bf16 normalization submits between its conversions allocates
/// one scalar per row where the root mean square is taken in stages, and
/// nothing otherwise.
pub proof fn submission_scratch(
    family: Family,
    stream: Stream,
    r: Rows,
    epsilon: F32,
    gamma: F32,
    beta: F32,
    probes: FusedProbes,
)
    ensures
        rms_submission_plan(family, stream, r, epsilon, gamma, probes).outcome is Ok
            ==> rms_submission_plan(family, stream, r, epsilon, gamma, probes).scratch()
            == row_scratch(family, stream, r.rows, r.cols, Scratch::RowSumOfSquares, probes),
        rms_submission_plan(family, stream, r, epsilon, gamma, probes).never_pools(),
        layer_submission_plan(r, epsilon, gamma, beta).never_allocates(),
{
    broadcast use {crate::plan::group_allocation, crate::plan::group_pooling};

    let sums = row_workspace_for(
        stream.context,
        r.rows,
        BufferId::Scratch(Scratch::RowSumOfSquares),
    );
    assert(fused_rms_plan(family, stream, r, epsilon, gamma, probes.fused).never_allocates());
    assert(rms_rows_plan(family, stream, r, epsilon, gamma, sums).never_allocates());
}

/// Quantized composed attention allocates one packed and one `f32` buffer the
/// size of the score matrix, and what the dispatched softmax needs.
pub proof fn quantized_scratch(
    f: QuantizedFamilies,
    stream: Stream,
    h: Heads,
    scale: F32,
    mask: AttentionMask,
    probes: FusedProbes,
)
    requires
        quantized_plan(f, stream, h, scale, mask, probes).outcome is Ok,
        h.query_rows > 0,
    ensures
        quantized_plan(f, stream, h, scale, mask, probes).scratch() == seq![
            (
                wide(
                    f.family.context,
                    Scratch::PackedScores,
                    (h.query_rows * h.kv_rows) as usize,
                ),
                Element::Bf16,
            ),
            (
                wide(
                    f.family.context,
                    Scratch::WideProbabilities,
                    (h.query_rows * h.kv_rows) as usize,
                ),
                Element::F32,
            ),
        ] + row_scratch(
            f.softmax,
            stream,
            h.query_rows,
            h.kv_rows,
            Scratch::RowScalars,
            probes,
        ),
        quantized_plan(f, stream, h, scale, mask, probes).never_pools(),
{
    broadcast use {crate::plan::group_allocation, crate::plan::group_pooling};

    let elements = (h.query_rows * h.kv_rows) as usize;
    let packed = wide(f.family.context, Scratch::PackedScores, elements);
    let probs = wide(f.family.context, Scratch::WideProbabilities, elements);
    let rows = Rows { input: probs, output: probs, rows: h.query_rows, cols: h.kv_rows };
    dispatch_scratch(f.softmax, stream, rows, scale, scale, probes);
    assert(product_plan(
        ProductKind::Bf16TransposedB,
        f.gemm,
        stream,
        score_product(h, packed),
    ).never_allocates());
    assert(product_plan(
        ProductKind::Bf16,
        f.gemm,
        stream,
        value_product(h, packed),
    ).never_allocates());
    assert(awaited(widen_plan(f.conversions, packed, probs)).never_allocates());
    assert(awaited(narrow_plan(f.conversions, probs, packed)).never_allocates());
    assert(awaited(
        scale_causal_plan(f.attention, stream, probs, probs, h.query_rows, h.kv_rows, scale),
    ).never_allocates());
    assert(awaited(scale_plan(f.elementwise, probs, probs, scale)).never_allocates());
    assert(quantized_stages(f, stream, h, scale, mask, probes).outcome is Ok);
}

proof fn passes_never_allocate(
    kind: ReductionInput,
    op: ReductionOp,
    width: u32,
    input: DeviceBuffer,
    output: DeviceBuffer,
    workspace: TreeWorkspace,
    passes: Seq<TreePass>,
)
    ensures
        passes_plan(
            kind,
            op,
            width,
            input.id,
            output.id,
            workspace,
            passes,
        ).never_allocates(),
    decreases passes.len(),
{
    broadcast use {crate::plan::group_allocation, crate::plan::group_pooling};

    if passes.len() > 0 {
        passes_never_allocate(kind, op, width, input, output, workspace, passes.drop_last());
    }
}

/// A softmax whose scratch is given allocates nothing.
pub proof fn given_scratch_is_enough(
    softmax: SoftmaxView,
    stream: Stream,
    o: SoftmaxOperands,
    workspace: TreeWorkspace,
)
    ensures
        softmax_plan(softmax, stream, o, workspace).never_allocates(),
{
    broadcast use {crate::plan::group_allocation, crate::plan::group_pooling};

    let width = softmax.reduction.width;
    let passes = schedule(o.input.len, width);
    let more = schedule(o.output.len, width);
    let kind = ReductionInput::F32;
    passes_never_allocate(kind, ReductionOp::Max, width, o.input, o.max_scratch, workspace, passes);
    passes_never_allocate(kind, ReductionOp::Sum, width, o.output, o.sum_scratch, workspace, more);
}

/// The same call, but for where its memory comes from.
pub open spec fn same_but_pooled(plain: Step, pooled: Step) -> bool {
    &&& plain.drain_on_failure == pooled.drain_on_failure
    &&& match plain.action {
        Action::Allocate { buffer, element } => pooled.action == (Action::AllocatePooled {
            buffer,
            element,
        }),
        Action::AllocatePooled { .. } => false,
        _ => pooled.action == plain.action,
    }
}

/// A softmax with pooled scratch does the same device work as one with scratch
/// of its own: the plans differ only in where each allocation comes from.
pub proof fn pooled_softmax_does_the_same_work(
    softmax: SoftmaxView,
    stream: Stream,
    input: DeviceBuffer,
    output: DeviceBuffer,
)
    ensures
        ({
            let plain = softmax_alone_plan(softmax, stream.context, stream, input, output);
            let pooled = softmax_pooled_plan(softmax, stream.context, stream, input, output);
            &&& plain.outcome == pooled.outcome
            &&& plain.steps.len() == pooled.steps.len()
            &&& forall|i: int|
                0 <= i < plain.steps.len() ==> same_but_pooled(
                    #[trigger] plain.steps[i],
                    pooled.steps[i],
                )
            &&& plain.scratch() == pooled.scratch()
        }),
{
    broadcast use {crate::plan::group_allocation, crate::plan::group_pooling};

    let plain = softmax_alone_plan(softmax, stream.context, stream, input, output);
    let pooled = softmax_pooled_plan(softmax, stream.context, stream, input, output);
    let own = crate::softmax::own_scalars(stream.context, input, output);
    let tree = crate::softmax::own_tree(softmax.reduction, stream.context, input.len);
    let work = softmax_plan(softmax, stream, own, tree).synchronized();
    given_scratch_is_enough(softmax, stream, own, tree);
    if softmax.reduction.context == stream.context {
        assert(plain.steps.skip(4) =~= work.steps);
        assert(pooled.steps.skip(4) =~= work.steps);
        assert forall|i: int| 0 <= i < plain.steps.len() implies same_but_pooled(
            #[trigger] plain.steps[i],
            pooled.steps[i],
        ) by {
            if i >= 4 {
                assert(plain.steps[i] == work.steps[i - 4]);
                assert(pooled.steps[i] == work.steps[i - 4]);
            }
        }
    }
}

/// A floating-point allocation of an operation's own.
pub open spec fn own_floats(role: Scratch, len: usize, context: ContextId) -> (
    DeviceBuffer,
    Element,
) {
    (DeviceBuffer { id: BufferId::Scratch(role), len, context }, Element::F32)
}

/// A reduction with a given workspace allocates nothing, and one to a host
/// scalar two buffers for the partials of its first pass and one element for
/// the result.
pub proof fn reduction_scratch(
    kind: ReductionInput,
    op: ReductionOp,
    family: Family,
    stream: Stream,
    input: DeviceBuffer,
    output: DeviceBuffer,
    workspace: TreeWorkspace,
)
    ensures
        reduction_plan(kind, op, family, stream, input, output, workspace).never_allocates(),
        input.context == family.context ==> scalar_plan(
            kind,
            op,
            family,
            stream,
            input,
        ).scratch() == ({
            let len = ceil_div(input.len as int, 2 * family.width as int) as usize;
            seq![
                own_floats(Scratch::ReductionA, len, family.context),
                own_floats(Scratch::ReductionB, len, family.context),
                own_floats(Scratch::ReductionOutput, 1, family.context),
            ]
        }),
        scalar_plan(kind, op, family, stream, input).never_pools(),
{
    broadcast use {crate::plan::group_allocation, crate::plan::group_pooling};

    let passes = schedule(input.len, family.width);
    passes_never_allocate(kind, op, family.width, input, output, workspace, passes);
    let own = own_workspace(family, input);
    let scalar = scalar_output(input.context);
    passes_never_allocate(kind, op, family.width, input, scalar, own, passes);
    let plan = reduction_plan(kind, op, family, stream, input, scalar, own);
    assert(plan.never_allocates());
    let len = ceil_div(input.len as int, 2 * family.width as int) as usize;
    if input.context == family.context {
        assert(scalar_plan(kind, op, family, stream, input).scratch() =~= seq![
            own_floats(Scratch::ReductionA, len, family.context),
            own_floats(Scratch::ReductionB, len, family.context),
            own_floats(Scratch::ReductionOutput, 1, family.context),
        ]);
    }
}

/// A softmax that makes its own scratch allocates one element for the maximum
/// and one for the sum and, without a workspace, two buffers for the partials
/// of a first pass.
pub proof fn softmax_scratch(
    softmax: SoftmaxView,
    context: ContextId,
    stream: Stream,
    input: DeviceBuffer,
    output: DeviceBuffer,
    workspace: TreeWorkspace,
)
    ensures
        softmax_into_plan(softmax, stream, input, output, workspace).scratch() == seq![
            own_floats(Scratch::SoftmaxMax, 1, stream.context),
            own_floats(Scratch::SoftmaxSum, 1, stream.context),
        ],
        softmax_into_plan(softmax, stream, input, output, workspace).never_pools(),
        softmax_alone_plan(softmax, context, stream, input, output).never_pools(),
        context == softmax.reduction.context ==> ({
            let len = ceil_div(input.len as int, 2 * softmax.reduction.width as int) as usize;
            &&& softmax_alone_plan(softmax, context, stream, input, output).scratch() == seq![
                own_floats(Scratch::ReductionA, len, context),
                own_floats(Scratch::ReductionB, len, context),
                own_floats(Scratch::SoftmaxMax, 1, stream.context),
                own_floats(Scratch::SoftmaxSum, 1, stream.context),
            ]
            &&& softmax_pooled_plan(softmax, context, stream, input, output).scratch() == seq![
                own_floats(Scratch::ReductionA, len, context),
                own_floats(Scratch::ReductionB, len, context),
                own_floats(Scratch::SoftmaxMax, 1, context),
                own_floats(Scratch::SoftmaxSum, 1, context),
            ]
        }),
{
    broadcast use {crate::plan::group_allocation, crate::plan::group_pooling};

    let own = crate::softmax::own_scalars(stream.context, input, output);
    let pooled = crate::softmax::own_scalars(context, input, output);
    let tree = crate::softmax::own_tree(softmax.reduction, context, input.len);
    given_scratch_is_enough(softmax, stream, own, workspace);
    given_scratch_is_enough(softmax, stream, own, tree);
    given_scratch_is_enough(softmax, stream, pooled, tree);
    let len = ceil_div(input.len as int, 2 * softmax.reduction.width as int) as usize;
    assert(softmax_into_plan(softmax, stream, input, output, workspace).scratch() =~= seq![
        own_floats(Scratch::SoftmaxMax, 1, stream.context),
        own_floats(Scratch::SoftmaxSum, 1, stream.context),
    ]);
    assert(softmax_into_plan(softmax, stream, input, output, tree).scratch() =~= seq![
        own_floats(Scratch::SoftmaxMax, 1, stream.context),
        own_floats(Scratch::SoftmaxSum, 1, stream.context),
    ]);
    if context == softmax.reduction.context {
        assert(softmax_alone_plan(softmax, context, stream, input, output).scratch() =~= seq![
            own_floats(Scratch::ReductionA, len, context),
            own_floats(Scratch::ReductionB, len, context),
            own_floats(Scratch::SoftmaxMax, 1, stream.context),
            own_floats(Scratch::SoftmaxSum, 1, stream.context),
        ]);
        assert(softmax_pooled_plan(softmax, context, stream, input, output).scratch() =~= seq![
            own_floats(Scratch::ReductionA, len, context),
            own_floats(Scratch::ReductionB, len, context),
            own_floats(Scratch::SoftmaxMax, 1, context),
            own_floats(Scratch::SoftmaxSum, 1, context),
        ]);
    }
}

proof fn rounds_never_allocate(
    width: u32,
    s: Selection,
    workspace: SelectionWorkspace,
    passes: Seq<TreePass>,
    rounds: nat,
)
    ensures
        rounds_plan(width, s, workspace, passes, rounds).never_allocates(),
    decreases rounds,
{
    broadcast use {crate::plan::group_allocation, crate::plan::group_pooling};

    if rounds > 0 {
        let slot = (rounds - 1) as nat;
        rounds_never_allocate(width, s, workspace, passes, slot);
        let round = round_plan(width, s, workspace, slot, passes);
        assert(round.never_allocates());
        assert(PlanView::one(Action::Launch(mask_launch(s, workspace, slot))).never_allocates());
    }
}

/// A selection with a given workspace allocates nothing, and one with scratch
/// of its own a copy of the input and two pairs of buffers for the winners of
/// its first pass.
pub proof fn selection_scratch(
    family: Family,
    stream: Stream,
    s: Selection,
    workspace: SelectionWorkspace,
)
    ensures
        selection_plan(family, stream, s, workspace).never_allocates(),
        s.input.context == family.context ==> own_selection_plan(
            family,
            stream,
            s,
        ).scratch() == ({
            let len = ceil_div(s.input.len as int, 2 * family.width as int) as usize;
            let indices = |role: Scratch|
                (
                    DeviceBuffer { id: BufferId::Scratch(role), len, context: family.context },
                    Element::U32,
                );
            seq![
                own_floats(Scratch::SelectionData, s.input.len, family.context),
                own_floats(Scratch::SelectionValuesA, len, family.context),
                own_floats(Scratch::SelectionValuesB, len, family.context),
                indices(Scratch::SelectionIndicesA),
                indices(Scratch::SelectionIndicesB),
            ]
        }),
        own_selection_plan(family, stream, s).never_pools(),
{
    broadcast use {crate::plan::group_allocation, crate::plan::group_pooling};

    let passes = schedule(s.input.len, family.width);
    let own = selection_workspace_for(family, s.input.context, s.input.len, own_buffers());
    rounds_never_allocate(family.width, s, workspace, passes, s.k as nat);
    rounds_never_allocate(family.width, s, own, passes, s.k as nat);
    assert(selection_plan(family, stream, s, own).never_allocates());
    if s.input.context == family.context {
        let len = ceil_div(s.input.len as int, 2 * family.width as int) as usize;
        let context = family.context;
        assert(own_selection_plan(family, stream, s).scratch() =~= seq![
            own_floats(Scratch::SelectionData, s.input.len, context),
            own_floats(Scratch::SelectionValuesA, len, context),
            own_floats(Scratch::SelectionValuesB, len, context),
            (
                DeviceBuffer { id: BufferId::Scratch(Scratch::SelectionIndicesA), len, context },
                Element::U32,
            ),
            (
                DeviceBuffer { id: BufferId::Scratch(Scratch::SelectionIndicesB), len, context },
                Element::U32,
            ),
        ]);
    }
}

} // verus!
