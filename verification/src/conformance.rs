//! Every launch hands its kernel exactly the arguments of its signature.
//!
//! A kernel reads its argument list by position, so each plan must pair every
//! kernel with the arguments that kernel declares; see
//! [`crate::launch::Kernel::accepts`].

use crate::attention::{
    composed_multihead_plan, composed_multihead_stages, composed_plan, composed_stages,
    multihead_scale_causal_plan, scale_causal_plan, score_buffer, score_product, value_product,
    ComposedFamilies,
};
use crate::bf16::{
    bf16_affine_plan, bf16_scale_plan, bf16_vector_add_plan, narrow_plan, unary_plan, widen_plan,
};
use crate::bf16_attention::{
    bf16_composed_multihead_plan, bf16_composed_plan, quantized_plan, quantized_stages,
    wide_heads, widening, QuantizedFamilies,
};
use crate::bf16_norms::{norm_plan, NormKind};
use crate::bf16_reduction::bf16_max_plan;
use crate::device::{ContextId, DeviceBuffer, Element, Probe, Scratch, Stream, F32};
use crate::elementwise::{affine_plan, awaited, scale_plan, vector_add_plan};
use crate::family::Family;
use crate::gather::{bf16_gather_plan, gather_plan, Lookup};
use crate::gemm::batched_plan;
use crate::gemv::{gemv_plan, MatrixVector};
use crate::heads::{
    causal_check, fused_multihead_plan, fused_plan, head_check, multihead_check, AttentionMask,
    HeadKind, Heads,
};
use crate::int2_weight_gemv::{int2_plan, Int2Projection};
use crate::launch::Kernel;
use crate::lm_head_argmax::{argmax_plan, ArgmaxProjection, CandidateWorkspace};
use crate::mixed_weight_gemv::{mixed_plan, MixedProjection};
use crate::plan::{
    composition_matches_kernels, guard_matches_kernels, synchronization_matches_kernels, Action,
    PlanView,
};
use crate::product::{product_plan, Product, ProductKind};
use crate::reduction::{
    passes_plan, reduction_plan, scalar_plan, ReductionInput, ReductionOp, TreeWorkspace,
};
use crate::rms_norm::{
    fused_rms_plan, rms_dispatch_plan, rms_rows_plan, rms_submission_plan,
};
use crate::rope::{rope_plan, Rotation};
use crate::row_softmax::{fused_softmax_plan, softmax_dispatch_plan, softmax_rows_plan};
use crate::rows::{FusedProbes, RowWorkspace, Rows};
use crate::scatter::{scatter_plan, Placement};
use crate::softmax::{
    softmax_alone_plan, softmax_into_plan, softmax_plan, softmax_pooled_plan, SoftmaxOperands,
    SoftmaxView,
};
use crate::sparse_csc_gemv::{sparse_plan, SparseProjection};
use crate::top_k::{own_selection_plan, rounds_plan, selection_plan, Selection, SelectionWorkspace};
use crate::tree::{schedule, TreePass};
use vstd::prelude::*;

verus! {

/// Elementwise launches match their kernels.
pub proof fn elementwise_conforms(
    family: Family,
    left: DeviceBuffer,
    right: DeviceBuffer,
    output: DeviceBuffer,
    scale: F32,
    bias: F32,
)
    ensures
        vector_add_plan(family, left, right, output).matches_kernels(),
        scale_plan(family, left, output, scale).matches_kernels(),
        affine_plan(family, left, output, scale, bias).matches_kernels(),
{
}

/// Packed-bf16 elementwise launches match their kernels.
pub proof fn bf16_elementwise_conforms(
    kernel: Kernel,
    family: Family,
    left: DeviceBuffer,
    right: DeviceBuffer,
    output: DeviceBuffer,
    scale: F32,
    bias: F32,
)
    requires
        kernel == Kernel::Bf16Relu || kernel == Kernel::Bf16Silu || kernel == Kernel::Bf16GeluTanh,
    ensures
        unary_plan(kernel, family, left, output).matches_kernels(),
        widen_plan(family, left, output).matches_kernels(),
        narrow_plan(family, left, output).matches_kernels(),
        bf16_vector_add_plan(family, left, right, output).matches_kernels(),
        bf16_scale_plan(family, left, output, scale).matches_kernels(),
        bf16_affine_plan(family, left, output, scale, bias).matches_kernels(),
{
}

/// The launches of products match their kernels.
pub proof fn products_conform(
    kind: ProductKind,
    family: Family,
    stream: Stream,
    p: Product,
    batches: usize,
    transposed_b: bool,
)
    ensures
        product_plan(kind, family, stream, p).matches_kernels(),
        batched_plan(family, stream, p, batches, transposed_b).matches_kernels(),
{
}

proof fn passes_conform(
    kind: ReductionInput,
    op: ReductionOp,
    width: u32,
    input: DeviceBuffer,
    output: DeviceBuffer,
    workspace: TreeWorkspace,
    passes: Seq<TreePass>,
)
    ensures
        passes_plan(
            kind,
            op,
            width,
            input.id,
            output.id,
            workspace,
            passes,
        ).matches_kernels(),
    decreases passes.len(),
{
    broadcast use crate::plan::group_kernel_matching;

    if passes.len() > 0 {
        passes_conform(kind, op, width, input, output, workspace, passes.drop_last());
    }
}

/// The launches of reductions match their kernels.
pub proof fn reductions_conform(
    kind: ReductionInput,
    op: ReductionOp,
    family: Family,
    stream: Stream,
    input: DeviceBuffer,
    output: DeviceBuffer,
    workspace: TreeWorkspace,
)
    ensures
        reduction_plan(kind, op, family, stream, input, output, workspace).matches_kernels(),
{
    broadcast use crate::plan::group_kernel_matching;

    passes_conform(
        kind,
        op,
        family.width,
        input,
        output,
        workspace,
        schedule(input.len, family.width),
    );
}

/// The launches of reductions to a host scalar match their kernels.
pub proof fn scalar_reductions_conform(
    kind: ReductionInput,
    op: ReductionOp,
    family: Family,
    stream: Stream,
    input: DeviceBuffer,
)
    ensures
        scalar_plan(kind, op, family, stream, input).matches_kernels(),
        bf16_max_plan(family, stream, input).matches_kernels(),
{
    broadcast use crate::plan::group_kernel_matching;

    let output = crate::reduction::scalar_output(input.context);
    let workspace = crate::reduction::own_workspace(family, input);
    reductions_conform(kind, op, family, stream, input, output, workspace);
    reductions_conform(
        ReductionInput::Bf16,
        ReductionOp::Max,
        family,
        stream,
        input,
        output,
        workspace,
    );
}

/// The launches of a softmax match their kernels.
pub proof fn softmax_conforms(
    softmax: SoftmaxView,
    stream: Stream,
    o: SoftmaxOperands,
    workspace: TreeWorkspace,
)
    ensures
        softmax_plan(softmax, stream, o, workspace).matches_kernels(),
{
    broadcast use crate::plan::group_kernel_matching;

    reductions_conform(
        ReductionInput::F32,
        ReductionOp::Max,
        softmax.reduction,
        stream,
        o.input,
        o.max_scratch,
        workspace,
    );
    reductions_conform(
        ReductionInput::F32,
        ReductionOp::Sum,
        softmax.reduction,
        stream,
        o.output,
        o.sum_scratch,
        workspace,
    );
}

/// The launches of a softmax match their kernels wherever its scratch comes
/// from.
pub proof fn softmax_with_scratch_conforms(
    softmax: SoftmaxView,
    context: ContextId,
    stream: Stream,
    input: DeviceBuffer,
    output: DeviceBuffer,
    workspace: TreeWorkspace,
)
    ensures
        softmax_into_plan(softmax, stream, input, output, workspace).matches_kernels(),
        softmax_alone_plan(softmax, context, stream, input, output).matches_kernels(),
        softmax_pooled_plan(softmax, context, stream, input, output).matches_kernels(),
{
    broadcast use crate::plan::group_kernel_matching;

    let tree = crate::softmax::own_tree(softmax.reduction, context, input.len);
    let own = crate::softmax::own_scalars(stream.context, input, output);
    let pooled = crate::softmax::own_scalars(context, input, output);
    softmax_conforms(softmax, stream, own, workspace);
    softmax_conforms(softmax, stream, own, tree);
    softmax_conforms(softmax, stream, pooled, tree);
}

/// The launches of row softmax and RMS normalization match their kernels.
pub proof fn row_operations_conform(
    family: Family,
    stream: Stream,
    r: Rows,
    workspace: RowWorkspace,
    epsilon: F32,
    gamma: F32,
    probes: FusedProbes,
)
    ensures
        softmax_rows_plan(family, stream, r, workspace).matches_kernels(),
        fused_softmax_plan(family, stream, r, probes.fused).matches_kernels(),
        softmax_dispatch_plan(family, stream, r, probes).matches_kernels(),
        rms_rows_plan(family, stream, r, epsilon, gamma, workspace).matches_kernels(),
        fused_rms_plan(family, stream, r, epsilon, gamma, probes.fused).matches_kernels(),
        rms_dispatch_plan(family, stream, r, epsilon, gamma, probes).matches_kernels(),
        rms_submission_plan(family, stream, r, epsilon, gamma, probes).matches_kernels(),
{
    broadcast use crate::plan::group_kernel_matching;

}

/// The launches of fused attention match their kernels.
pub proof fn fused_attention_conforms(
    kind: HeadKind,
    family: Family,
    stream: Stream,
    h: Heads,
    heads: usize,
    scale: F32,
    mask: AttentionMask,
    probe: Probe,
)
    ensures
        fused_plan(kind, family, stream, h, scale, mask, probe).matches_kernels(),
        fused_multihead_plan(kind, family, stream, h, heads, scale, mask, probe).matches_kernels(),
{
}

/// A pipeline of six plans conforms where each of them does.
proof fn pipeline_conforms(
    a: PlanView,
    b: PlanView,
    c: PlanView,
    d: PlanView,
    e: PlanView,
    f: PlanView,
)
    requires
        a.matches_kernels(),
        b.matches_kernels(),
        c.matches_kernels(),
        d.matches_kernels(),
        e.matches_kernels(),
        f.matches_kernels(),
    ensures
        a.followed_by(b).followed_by(c).followed_by(d).followed_by(e).followed_by(
            f,
        ).matches_kernels(),
{
    broadcast use crate::plan::group_kernel_matching;

}

/// The launches of the causal scaling match their kernels.
pub proof fn causal_scaling_conforms(
    family: Family,
    stream: Stream,
    scores: DeviceBuffer,
    output: DeviceBuffer,
    elements: usize,
    query_rows: usize,
    kv_rows: usize,
    scale: F32,
)
    ensures
        scale_causal_plan(
            family,
            stream,
            scores,
            output,
            query_rows,
            kv_rows,
            scale,
        ).matches_kernels(),
        multihead_scale_causal_plan(
            family,
            stream,
            scores,
            output,
            elements,
            query_rows,
            kv_rows,
            scale,
        ).matches_kernels(),
{
}

/// The launches of composed attention over one head match their kernels.
#[verifier::rlimit(60)]
pub proof fn composed_attention_conforms(
    f: ComposedFamilies,
    stream: Stream,
    h: Heads,
    scale: F32,
    mask: AttentionMask,
    probes: FusedProbes,
)
    ensures
        composed_plan(f, stream, h, scale, mask, probes).matches_kernels(),
{
    let elements = (h.query_rows * h.kv_rows) as usize;
    let probabilities = score_buffer(stream.context, Scratch::Probabilities, elements);
    let scores = score_buffer(stream.context, Scratch::Scores, elements);
    let rows = Rows {
        input: probabilities,
        output: probabilities,
        rows: h.query_rows,
        cols: h.kv_rows,
    };
    let unused = crate::rows::row_workspace_for(stream.context, 0, probabilities.id);
    let first = product_plan(ProductKind::F32TransposedB, f.gemm, stream, score_product(h, scores));
    let last = product_plan(ProductKind::F32, f.gemm, stream, value_product(h, probabilities));
    products_conform(
        ProductKind::F32TransposedB,
        f.gemm,
        stream,
        score_product(h, scores),
        1,
        true,
    );
    products_conform(ProductKind::F32, f.gemm, stream, value_product(h, probabilities), 1, true);
    synchronization_matches_kernels(first);
    synchronization_matches_kernels(last);
    causal_scaling_conforms(
        f.attention,
        stream,
        scores,
        probabilities,
        elements,
        h.query_rows,
        h.kv_rows,
        scale,
    );
    elementwise_conforms(f.elementwise, scores, scores, probabilities, scale, scale);
    composition_matches_kernels(
        scale_plan(f.elementwise, scores, probabilities, scale),
        PlanView::one(Action::Synchronize),
    );
    row_operations_conform(f.softmax, stream, rows, unused, scale, scale, probes);
    let checked = PlanView::checked(crate::attention::composed_check(h, mask)).followed_by(
        PlanView::one(Action::Allocate { buffer: probabilities, element: Element::F32 }),
    );
    let scaling = if mask == AttentionMask::Causal {
        scale_causal_plan(
            f.attention,
            stream,
            scores,
            probabilities,
            h.query_rows,
            h.kv_rows,
            scale,
        )
    } else {
        awaited(scale_plan(f.elementwise, scores, probabilities, scale))
    };
    pipeline_conforms(
        checked,
        PlanView::one(Action::Allocate { buffer: scores, element: Element::F32 }),
        first.synchronized(),
        scaling,
        softmax_dispatch_plan(f.softmax, stream, rows, probes),
        last.synchronized(),
    );
    guard_matches_kernels(composed_stages(f, stream, h, scale, mask, probes));
}

/// The launches of composed attention over several heads match their kernels.
#[verifier::rlimit(60)]
pub proof fn composed_multihead_attention_conforms(
    f: ComposedFamilies,
    stream: Stream,
    h: Heads,
    heads: usize,
    scale: F32,
    mask: AttentionMask,
    probes: FusedProbes,
)
    ensures
        composed_multihead_plan(f, stream, h, heads, scale, mask, probes).matches_kernels(),
{
    let elements = (heads * h.query_rows * h.kv_rows) as usize;
    let probabilities = score_buffer(stream.context, Scratch::Probabilities, elements);
    let rows = Rows {
        input: probabilities,
        output: probabilities,
        rows: (heads * h.query_rows) as usize,
        cols: h.kv_rows,
    };
    let unused = crate::rows::row_workspace_for(stream.context, 0, probabilities.id);
    let first = batched_plan(f.gemm, stream, score_product(h, probabilities), heads, true);
    let last = batched_plan(f.gemm, stream, value_product(h, probabilities), heads, false);
    products_conform(
        ProductKind::F32,
        f.gemm,
        stream,
        score_product(h, probabilities),
        heads,
        true,
    );
    products_conform(
        ProductKind::F32,
        f.gemm,
        stream,
        value_product(h, probabilities),
        heads,
        false,
    );
    synchronization_matches_kernels(first);
    synchronization_matches_kernels(last);
    let causal = multihead_scale_causal_plan(
        f.attention,
        stream,
        probabilities,
        probabilities,
        elements,
        h.query_rows,
        h.kv_rows,
        scale,
    );
    let plain = scale_plan(f.elementwise, probabilities, probabilities, scale);
    causal_scaling_conforms(
        f.attention,
        stream,
        probabilities,
        probabilities,
        elements,
        h.query_rows,
        h.kv_rows,
        scale,
    );
    elementwise_conforms(f.elementwise, probabilities, probabilities, probabilities, scale, scale);
    composition_matches_kernels(causal, PlanView::one(Action::Synchronize));
    composition_matches_kernels(plain, PlanView::one(Action::Synchronize));
    row_operations_conform(f.softmax, stream, rows, unused, scale, scale, probes);
    let scaling = if mask == AttentionMask::Causal {
        awaited(causal)
    } else {
        awaited(plain)
    };
    pipeline_conforms(
        PlanView::checked(crate::attention::packed_scores_check(h, heads)),
        PlanView::one(Action::Allocate { buffer: probabilities, element: Element::F32 }),
        first.synchronized(),
        scaling,
        softmax_dispatch_plan(f.softmax, stream, rows, probes),
        last.synchronized(),
    );
    let stages = composed_multihead_stages(f, stream, h, heads, scale, mask, probes);
    assert(stages.matches_kernels());
    let checked = PlanView::checked(
        multihead_check(HeadKind::F32, f.attention, stream, h, heads),
    ).followed_by(PlanView::checked(causal_check(h, mask)));
    composition_matches_kernels(checked, stages);
    composition_matches_kernels(checked, PlanView::done());
}

proof fn widening_conforms(conversions: Family, h: Heads, w: Heads)
    ensures
        widening(conversions, h, w).matches_kernels(),
{
    broadcast use crate::plan::group_kernel_matching;

}

/// Checks, a widening, a conforming pipeline and a narrowing conform.
proof fn sandwich_conforms(
    conversions: Family,
    h: Heads,
    w: Heads,
    checked: PlanView,
    pipeline: PlanView,
)
    requires
        checked.matches_kernels(),
        pipeline.matches_kernels(),
    ensures
        checked.followed_by(
            widening(conversions, h, w).followed_by(pipeline).followed_by(
                awaited(narrow_plan(conversions, w.output, h.output)),
            ),
        ).matches_kernels(),
        checked.followed_by(PlanView::done()).matches_kernels(),
{
    widening_conforms(conversions, h, w);
    let narrowing = narrow_plan(conversions, w.output, h.output);
    composition_matches_kernels(narrowing, PlanView::one(Action::Synchronize));
    composition_matches_kernels(widening(conversions, h, w), pipeline);
    composition_matches_kernels(
        widening(conversions, h, w).followed_by(pipeline),
        awaited(narrowing),
    );
    composition_matches_kernels(
        checked,
        widening(conversions, h, w).followed_by(pipeline).followed_by(awaited(narrowing)),
    );
    composition_matches_kernels(checked, PlanView::done());
}

/// The launches of packed-bf16 composed attention match their kernels.
pub proof fn bf16_composed_attention_conforms(
    family: Family,
    conversions: Family,
    f: ComposedFamilies,
    stream: Stream,
    h: Heads,
    heads: usize,
    scale: F32,
    mask: AttentionMask,
    probes: FusedProbes,
)
    ensures
        bf16_composed_plan(
            family,
            conversions,
            f,
            stream,
            h,
            scale,
            mask,
            probes,
        ).matches_kernels(),
        bf16_composed_multihead_plan(
            family,
            conversions,
            f,
            stream,
            h,
            heads,
            scale,
            mask,
            probes,
        ).matches_kernels(),
{
    let w = wide_heads(family.context, h);
    composed_attention_conforms(f, stream, w, scale, mask, probes);
    composed_multihead_attention_conforms(f, stream, w, heads, scale, mask, probes);
    let causal = PlanView::checked(causal_check(h, mask));
    sandwich_conforms(
        conversions,
        h,
        w,
        PlanView::checked(head_check(HeadKind::Bf16, family, stream, h)).followed_by(causal),
        composed_plan(f, stream, w, scale, mask, probes),
    );
    sandwich_conforms(
        conversions,
        h,
        w,
        PlanView::checked(multihead_check(HeadKind::Bf16, family, stream, h, heads)).followed_by(
            causal,
        ),
        composed_multihead_plan(f, stream, w, heads, scale, mask, probes),
    );
}

/// The launches of quantized composed attention match their kernels.
#[verifier::rlimit(60)]
pub proof fn quantized_attention_conforms(
    f: QuantizedFamilies,
    stream: Stream,
    h: Heads,
    scale: F32,
    mask: AttentionMask,
    probes: FusedProbes,
)
    ensures
        quantized_plan(f, stream, h, scale, mask, probes).matches_kernels(),
{
    let elements = (h.query_rows * h.kv_rows) as usize;
    let packed = crate::bf16_attention::wide(f.family.context, Scratch::PackedScores, elements);
    let probs = crate::bf16_attention::wide(f.family.context, Scratch::WideProbabilities, elements);
    let rows = Rows { input: probs, output: probs, rows: h.query_rows, cols: h.kv_rows };
    let unused = crate::rows::row_workspace_for(stream.context, 0, probs.id);
    let wait = PlanView::one(Action::Synchronize);
    let first = product_plan(
        ProductKind::Bf16TransposedB,
        f.gemm,
        stream,
        score_product(h, packed),
    );
    let last = product_plan(ProductKind::Bf16, f.gemm, stream, value_product(h, packed));
    products_conform(
        ProductKind::Bf16TransposedB,
        f.gemm,
        stream,
        score_product(h, packed),
        1,
        true,
    );
    products_conform(ProductKind::Bf16, f.gemm, stream, value_product(h, packed), 1, true);
    synchronization_matches_kernels(first);
    synchronization_matches_kernels(last);
    bf16_elementwise_conforms(
        Kernel::Bf16Relu,
        f.conversions,
        packed,
        packed,
        probs,
        scale,
        scale,
    );
    bf16_elementwise_conforms(
        Kernel::Bf16Relu,
        f.conversions,
        probs,
        probs,
        packed,
        scale,
        scale,
    );
    composition_matches_kernels(widen_plan(f.conversions, packed, probs), wait);
    composition_matches_kernels(narrow_plan(f.conversions, probs, packed), wait);
    let causal = scale_causal_plan(
        f.attention,
        stream,
        probs,
        probs,
        h.query_rows,
        h.kv_rows,
        scale,
    );
    let plain = scale_plan(f.elementwise, probs, probs, scale);
    causal_scaling_conforms(
        f.attention,
        stream,
        probs,
        probs,
        elements,
        h.query_rows,
        h.kv_rows,
        scale,
    );
    elementwise_conforms(f.elementwise, probs, probs, probs, scale, scale);
    composition_matches_kernels(causal, wait);
    composition_matches_kernels(plain, wait);
    row_operations_conform(f.softmax, stream, rows, unused, scale, scale, probes);
    let scaling = if mask == AttentionMask::Causal {
        awaited(causal)
    } else {
        awaited(plain)
    };
    let softmax = softmax_dispatch_plan(f.softmax, stream, rows, probes);
    let widened = awaited(widen_plan(f.conversions, packed, probs));
    let narrowed = awaited(narrow_plan(f.conversions, probs, packed));
    let checked = PlanView::checked(crate::bf16_attention::scores_check(h));
    let allocated = PlanView::one(Action::Allocate { buffer: packed, element: Element::Bf16 });
    let also = PlanView::one(Action::Allocate { buffer: probs, element: Element::F32 });
    pipeline_conforms(checked, allocated, also, first.synchronized(), widened, scaling);
    let half = checked.followed_by(allocated).followed_by(also).followed_by(
        first.synchronized(),
    ).followed_by(widened).followed_by(scaling);
    composition_matches_kernels(half, softmax);
    composition_matches_kernels(half.followed_by(softmax), narrowed);
    composition_matches_kernels(
        half.followed_by(softmax).followed_by(narrowed),
        last.synchronized(),
    );
    let stages = quantized_stages(f, stream, h, scale, mask, probes);
    assert(stages.matches_kernels());
    let before = PlanView::checked(head_check(HeadKind::Bf16, f.family, stream, h)).followed_by(
        PlanView::checked(causal_check(h, mask)),
    );
    composition_matches_kernels(before, stages);
    composition_matches_kernels(before, PlanView::done());
}

/// The launches of a packed-bf16 normalization match their kernels where those
/// of the normalization it wraps do.
pub proof fn norm_conforms(
    kind: NormKind,
    conversions: Family,
    stream: Stream,
    r: Rows,
    normalize: PlanView,
)
    requires
        normalize.matches_kernels(),
    ensures
        norm_plan(kind, conversions, stream, r, normalize).matches_kernels(),
{
    broadcast use crate::plan::group_kernel_matching;

}

/// The launches of matrix-vector products, projections and rotations match
/// their kernels.
pub proof fn projections_conform(
    family: Family,
    stream: Stream,
    g: MatrixVector,
    mixed: MixedProjection,
    int2: Int2Projection,
    sparse: SparseProjection,
    rotation: Rotation,
)
    ensures
        gemv_plan(family, stream, g).matches_kernels(),
        mixed_plan(family, stream, mixed).matches_kernels(),
        int2_plan(family, stream, int2).matches_kernels(),
        sparse_plan(family, stream, sparse).matches_kernels(),
        rope_plan(Kernel::RopeInterleaved, family, stream, rotation).matches_kernels(),
        rope_plan(Kernel::RopeRotateHalf, family, stream, rotation).matches_kernels(),
{
}

/// The launches of gathers and scatters match their kernels.
pub proof fn row_moves_conform(
    name: &'static str,
    family: Family,
    stream: Stream,
    lookup: Lookup,
    placement: Placement,
)
    ensures
        gather_plan(family, stream, lookup).matches_kernels(),
        bf16_gather_plan(family, stream, lookup).matches_kernels(),
        scatter_plan(name, Kernel::ScatterRows, family, stream, placement).matches_kernels(),
        scatter_plan(name, Kernel::Bf16ScatterRows, family, stream, placement).matches_kernels(),
{
}

/// The launches of an argmax projection match their kernels.
pub proof fn argmax_conforms(
    family: Family,
    stream: Stream,
    p: ArgmaxProjection,
    workspace: CandidateWorkspace,
)
    ensures
        argmax_plan(family, stream, p, workspace).matches_kernels(),
{
}

proof fn rounds_conform(
    width: u32,
    s: Selection,
    workspace: SelectionWorkspace,
    passes: Seq<TreePass>,
    rounds: nat,
)
    ensures
        rounds_plan(width, s, workspace, passes, rounds).matches_kernels(),
    decreases rounds,
{
    broadcast use crate::plan::group_kernel_matching;

    if rounds > 0 {
        let slot = (rounds - 1) as nat;
        rounds_conform(width, s, workspace, passes, slot);
        let round = crate::top_k::round_plan(width, s, workspace, slot, passes);
        assert(round.matches_kernels());
    }
}

/// The launches of a selection match their kernels.
pub proof fn selections_conform(
    family: Family,
    stream: Stream,
    s: Selection,
    workspace: SelectionWorkspace,
)
    ensures
        selection_plan(family, stream, s, workspace).matches_kernels(),
        own_selection_plan(family, stream, s).matches_kernels(),
{
    broadcast use crate::plan::group_kernel_matching;

    let passes = schedule(s.input.len, family.width);
    rounds_conform(family.width, s, workspace, passes, s.k as nat);
    let own = crate::top_k::selection_workspace_for(
        family,
        s.input.context,
        s.input.len,
        crate::top_k::own_buffers(),
    );
    rounds_conform(family.width, s, own, passes, s.k as nat);
    assert(selection_plan(family, stream, s, own).matches_kernels());
}

} // verus!
