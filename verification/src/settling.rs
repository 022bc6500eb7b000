//! Operations that wait for their stream leave nothing running.
//!
//! Such an operation only borrows its buffers, so nothing it has submitted
//! may still be running when it returns, whichever of its calls fail. For
//! those that are planned as one synchronized piece of work this is
//! [`crate::plan::synchronization_settles`]; the laws here are about those
//! that are put together from several.

use crate::attention::{
    composed_multihead_plan, composed_multihead_stages, composed_plan, composed_stages,
    multihead_scale_causal_plan, scale_causal_plan, score_buffer, value_product, ComposedFamilies,
};
use crate::bf16::{
    bf16_affine_plan, bf16_scale_plan, bf16_vector_add_plan, narrow_plan, unary_plan, widen_plan,
};
use crate::bf16_attention::{
    bf16_composed_multihead_plan, bf16_composed_plan, quantized_plan, quantized_stages,
    wide_heads, widening, QuantizedFamilies,
};
use crate::bf16_norms::{norm_plan, NormKind};
use crate::bf16_reduction::bf16_max_plan;
use crate::device::{ContextId, DeviceBuffer, Scratch, Stream, F32};
use crate::elementwise::{affine_plan, awaited, scale_plan, vector_add_plan};
use crate::family::Family;
use crate::gather::{checked_bf16_gather_plan, checked_gather_plan, Lookup};
use crate::heads::{AttentionMask, Heads};
use crate::launch::Kernel;
use crate::plan::{awaited_submission_settles, guard_settles, PlanView};
use crate::product::{product_plan, ProductKind};
use crate::reduction::{scalar_plan, ReductionInput, ReductionOp, TreeWorkspace};
use crate::rms_norm::rms_dispatch_plan;
use crate::row_softmax::softmax_dispatch_plan;
use crate::rows::{FusedProbes, Rows};
use crate::scatter::{checked_scatter_plan, Placement};
use crate::softmax::{softmax_alone_plan, softmax_into_plan, softmax_pooled_plan, SoftmaxView};
use crate::top_k::{own_selection_plan, Selection};
use vstd::prelude::*;

verus! {

/// Elementwise operations leave nothing running.
pub proof fn elementwise_settles(
    family: Family,
    left: DeviceBuffer,
    right: DeviceBuffer,
    output: DeviceBuffer,
    scale: F32,
    bias: F32,
)
    ensures
        awaited(vector_add_plan(family, left, right, output)).settles(),
        awaited(scale_plan(family, left, output, scale)).settles(),
        awaited(affine_plan(family, left, output, scale, bias)).settles(),
{
    awaited_submission_settles(vector_add_plan(family, left, right, output));
    awaited_submission_settles(scale_plan(family, left, output, scale));
    awaited_submission_settles(affine_plan(family, left, output, scale, bias));
}

/// Packed-bf16 elementwise operations leave nothing running.
pub proof fn bf16_elementwise_settles(
    kernel: Kernel,
    family: Family,
    left: DeviceBuffer,
    right: DeviceBuffer,
    output: DeviceBuffer,
    scale: F32,
    bias: F32,
)
    ensures
        awaited(unary_plan(kernel, family, left, output)).settles(),
        awaited(widen_plan(family, left, output)).settles(),
        awaited(narrow_plan(family, left, output)).settles(),
        awaited(bf16_vector_add_plan(family, left, right, output)).settles(),
        awaited(bf16_scale_plan(family, left, output, scale)).settles(),
        awaited(bf16_affine_plan(family, left, output, scale, bias)).settles(),
{
    awaited_submission_settles(unary_plan(kernel, family, left, output));
    awaited_submission_settles(widen_plan(family, left, output));
    awaited_submission_settles(narrow_plan(family, left, output));
    awaited_submission_settles(bf16_vector_add_plan(family, left, right, output));
    awaited_submission_settles(bf16_scale_plan(family, left, output, scale));
    awaited_submission_settles(bf16_affine_plan(family, left, output, scale, bias));
}

/// Reductions to a host scalar leave nothing running.
pub proof fn scalar_reduction_settles(
    kind: ReductionInput,
    op: ReductionOp,
    family: Family,
    stream: Stream,
    input: DeviceBuffer,
)
    ensures
        scalar_plan(kind, op, family, stream, input).settles(),
        bf16_max_plan(family, stream, input).settles(),
{
    broadcast use crate::plan::group_settling;

}

/// Softmax leaves nothing running, wherever its scratch comes from.
pub proof fn softmax_settles(
    softmax: SoftmaxView,
    context: ContextId,
    stream: Stream,
    input: DeviceBuffer,
    output: DeviceBuffer,
    workspace: TreeWorkspace,
)
    ensures
        softmax_into_plan(softmax, stream, input, output, workspace).settles(),
        softmax_alone_plan(softmax, context, stream, input, output).settles(),
        softmax_pooled_plan(softmax, context, stream, input, output).settles(),
{
    broadcast use crate::plan::group_settling;

}

/// Dispatched row operations leave nothing running on either path.
pub proof fn dispatch_settles(
    family: Family,
    stream: Stream,
    r: Rows,
    epsilon: F32,
    gamma: F32,
    probes: FusedProbes,
)
    ensures
        softmax_dispatch_plan(family, stream, r, probes).settles(),
        rms_dispatch_plan(family, stream, r, epsilon, gamma, probes).settles(),
{
    broadcast use crate::plan::group_settling;

}

/// A packed-bf16 normalization leaves nothing running, whatever normalization
/// it wraps.
pub proof fn norm_settles(
    kind: NormKind,
    conversions: Family,
    stream: Stream,
    r: Rows,
    normalize: PlanView,
)
    ensures
        norm_plan(kind, conversions, stream, r, normalize).settles(),
{
    broadcast use crate::plan::group_settling;

}

/// Checked gathers and scatters leave nothing running.
pub proof fn row_moves_settle(
    name: &'static str,
    kernel: Kernel,
    family: Family,
    stream: Stream,
    lookup: Lookup,
    placement: Placement,
    rows: Seq<u32>,
)
    ensures
        checked_gather_plan(family, stream, lookup, rows).settles(),
        checked_bf16_gather_plan(family, stream, lookup, rows).settles(),
        checked_scatter_plan(name, kernel, family, stream, placement, rows).settles(),
{
    broadcast use crate::plan::group_settling;

}

/// A selection with scratch of its own leaves nothing running.
pub proof fn selection_settles(family: Family, stream: Stream, s: Selection)
    ensures
        own_selection_plan(family, stream, s).settles(),
{
    broadcast use crate::plan::group_settling;

}

/// Composed attention over one head leaves nothing running.
pub proof fn composed_settles(
    f: ComposedFamilies,
    stream: Stream,
    h: Heads,
    scale: F32,
    mask: AttentionMask,
    probes: FusedProbes,
)
    ensures
        composed_plan(f, stream, h, scale, mask, probes).settles(),
{
    let elements = (h.query_rows * h.kv_rows) as usize;
    let probabilities = score_buffer(stream.context, Scratch::Probabilities, elements);
    let last = product_plan(
        ProductKind::F32,
        f.gemm,
        stream,
        value_product(h, probabilities),
    ).synchronized();
    let stages = composed_stages(f, stream, h, scale, mask, probes);
    if stages.outcome is Ok {
        assert(last.steps.last().action.waits());
        assert(stages.steps.last() == last.steps.last());
    }
    guard_settles(stages);
}

/// Composed attention over several heads leaves nothing running.
pub proof fn composed_multihead_settles(
    f: ComposedFamilies,
    stream: Stream,
    h: Heads,
    heads: usize,
    scale: F32,
    mask: AttentionMask,
    probes: FusedProbes,
)
    ensures
        composed_multihead_plan(f, stream, h, heads, scale, mask, probes).settles(),
{
    broadcast use crate::plan::group_settling;

    let elements = (heads * h.query_rows * h.kv_rows) as usize;
    let probabilities = score_buffer(stream.context, Scratch::Probabilities, elements);
    let rows = Rows {
        input: probabilities,
        output: probabilities,
        rows: (heads * h.query_rows) as usize,
        cols: h.kv_rows,
    };
    dispatch_settles(f.softmax, stream, rows, scale, scale, probes);
    awaited_submission_settles(
        multihead_scale_causal_plan(
            f.attention,
            stream,
            probabilities,
            probabilities,
            elements,
            h.query_rows,
            h.kv_rows,
            scale,
        ),
    );
    awaited_submission_settles(scale_plan(f.elementwise, probabilities, probabilities, scale));
    assert(composed_multihead_stages(f, stream, h, heads, scale, mask, probes).settles());
}

proof fn widening_settles(conversions: Family, h: Heads, w: Heads)
    ensures
        widening(conversions, h, w).settles(),
{
    broadcast use crate::plan::group_settling;

    awaited_submission_settles(widen_plan(conversions, h.queries, w.queries));
    awaited_submission_settles(widen_plan(conversions, h.keys, w.keys));
    awaited_submission_settles(widen_plan(conversions, h.values, w.values));
}

/// Composed attention over one packed-bf16 head leaves nothing running.
pub proof fn bf16_composed_settles(
    family: Family,
    conversions: Family,
    f: ComposedFamilies,
    stream: Stream,
    h: Heads,
    scale: F32,
    mask: AttentionMask,
    probes: FusedProbes,
)
    ensures
        bf16_composed_plan(family, conversions, f, stream, h, scale, mask, probes).settles(),
{
    broadcast use crate::plan::group_settling;

    let w = wide_heads(family.context, h);
    widening_settles(conversions, h, w);
    composed_settles(f, stream, w, scale, mask, probes);
    awaited_submission_settles(narrow_plan(conversions, w.output, h.output));
}

/// Composed attention over several packed-bf16 heads leaves nothing running.
pub proof fn bf16_composed_multihead_settles(
    family: Family,
    conversions: Family,
    f: ComposedFamilies,
    stream: Stream,
    h: Heads,
    heads: usize,
    scale: F32,
    mask: AttentionMask,
    probes: FusedProbes,
)
    ensures
        bf16_composed_multihead_plan(
            family,
            conversions,
            f,
            stream,
            h,
            heads,
            scale,
            mask,
            probes,
        ).settles(),
{
    broadcast use crate::plan::group_settling;

    let w = wide_heads(family.context, h);
    widening_settles(conversions, h, w);
    composed_multihead_settles(f, stream, w, heads, scale, mask, probes);
    awaited_submission_settles(narrow_plan(conversions, w.output, h.output));
}

/// Quantized composed attention leaves nothing running.
pub proof fn quantized_settles(
    f: QuantizedFamilies,
    stream: Stream,
    h: Heads,
    scale: F32,
    mask: AttentionMask,
    probes: FusedProbes,
)
    ensures
        quantized_plan(f, stream, h, scale, mask, probes).settles(),
{
    broadcast use crate::plan::group_settling;

    let elements = (h.query_rows * h.kv_rows) as usize;
    let packed = crate::bf16_attention::wide(f.family.context, Scratch::PackedScores, elements);
    let probs = crate::bf16_attention::wide(f.family.context, Scratch::WideProbabilities, elements);
    let rows = Rows { input: probs, output: probs, rows: h.query_rows, cols: h.kv_rows };
    dispatch_settles(f.softmax, stream, rows, scale, scale, probes);
    awaited_submission_settles(widen_plan(f.conversions, packed, probs));
    awaited_submission_settles(narrow_plan(f.conversions, probs, packed));
    awaited_submission_settles(
        scale_causal_plan(f.attention, stream, probs, probs, h.query_rows, h.kv_rows, scale),
    );
    awaited_submission_settles(scale_plan(f.elementwise, probs, probs, scale));
    assert(quantized_stages(f, stream, h, scale, mask, probes).settles());
}

} // verus!
