//! Every launch has blocks of the width that its family was loaded with.
//!
//! The width is the one that the driver was asked about when the family was
//! loaded; see [`crate::loading`].

use crate::attention::{multihead_scale_causal_plan, scale_causal_plan};
use crate::bf16::{bf16_affine_plan, bf16_scale_plan, bf16_vector_add_plan, unary_plan};
use crate::device::{DeviceBuffer, Probe, Stream, F32};
use crate::elementwise::{affine_plan, scale_plan, vector_add_plan};
use crate::family::Family;
use crate::gather::{bf16_gather_plan, gather_plan, Lookup};
use crate::gemm::batched_plan;
use crate::gemv::{gemv_plan, MatrixVector};
use crate::heads::{fused_multihead_plan, fused_plan, AttentionMask, HeadKind, Heads};
use crate::int2_weight_gemv::{int2_plan, Int2Projection};
use crate::launch::{Kernel, Shape};
use crate::lm_head_argmax::{argmax_plan, ArgmaxProjection, CandidateWorkspace};
use crate::mixed_weight_gemv::{mixed_plan, MixedProjection};
use crate::plan::{Action, PlanView};
use crate::product::{product_plan, Product, ProductKind};
use crate::reduction::{
    passes_plan, reduction_plan, ReductionInput, ReductionOp, TreeWorkspace,
};
use crate::rms_norm::{fused_rms_plan, rms_rows_plan};
use crate::rope::{rope_plan, Rotation};
use crate::row_softmax::{fused_softmax_plan, softmax_rows_plan};
use crate::rows::{RowWorkspace, Rows};
use crate::scatter::{scatter_plan, Placement};
use crate::softmax::{softmax_plan, SoftmaxOperands, SoftmaxView};
use crate::sparse_csc_gemv::{sparse_plan, SparseProjection};
use crate::top_k::{
    fill_launch, mask_launch, round_plan, rounds_plan, selection_plan, Selection,
    SelectionWorkspace,
};
use crate::tree::{schedule, TreePass};
use vstd::prelude::*;

verus! {

/// Whether the blocks of a launch are lines of one of two widths.
pub open spec fn lines_of(action: Action, width: u32, other: u32) -> bool {
    match action {
        Action::Launch(launch) => match launch.shape {
            Shape::Elements { block_size, .. } => block_size == width || block_size == other,
            Shape::Grid { block, .. } => {
                &&& block.x == width || block.x == other
                &&& block.y == 1
                &&& block.z == 1
            },
        },
        _ => true,
    }
}

/// Whether the blocks of a launch are square tiles of a side.
pub open spec fn tiles_of(action: Action, side: u32) -> bool {
    match action {
        Action::Launch(launch) => match launch.shape {
            Shape::Elements { .. } => false,
            Shape::Grid { block, .. } => block.x == side && block.y == side && block.z == 1,
        },
        _ => true,
    }
}

/// Every block is a line of the width.
pub open spec fn runs_lines(plan: PlanView, width: u32) -> bool {
    runs_two(plan, width, width)
}

/// Every block is a line of one of two widths.
pub open spec fn runs_two(plan: PlanView, width: u32, other: u32) -> bool {
    forall|i: int|
        0 <= i < plan.steps.len() ==> lines_of((#[trigger] plan.steps[i]).action, width, other)
}

proof fn composition_runs(a: PlanView, b: PlanView, width: u32, other: u32)
    requires
        runs_two(a, width, other),
        runs_two(b, width, other),
    ensures
        runs_two(a.followed_by(b), width, other),
{
    let whole = a.followed_by(b);
    assert forall|i: int| 0 <= i < whole.steps.len() implies lines_of(
        (#[trigger] whole.steps[i]).action,
        width,
        other,
    ) by {
        if i < a.steps.len() {
            assert(whole.steps[i] == a.steps[i]);
        } else {
            assert(whole.steps[i] == b.steps[i - a.steps.len()]);
        }
    }
}

/// Elementwise operations run in blocks of the family's width.
pub proof fn elementwise_blocks(
    kernel: Kernel,
    family: Family,
    left: DeviceBuffer,
    right: DeviceBuffer,
    output: DeviceBuffer,
    scale: F32,
    bias: F32,
)
    ensures
        runs_lines(vector_add_plan(family, left, right, output), family.width),
        runs_lines(scale_plan(family, left, output, scale), family.width),
        runs_lines(affine_plan(family, left, output, scale, bias), family.width),
        runs_lines(unary_plan(kernel, family, left, output), family.width),
        runs_lines(bf16_vector_add_plan(family, left, right, output), family.width),
        runs_lines(bf16_scale_plan(family, left, output, scale), family.width),
        runs_lines(bf16_affine_plan(family, left, output, scale, bias), family.width),
{
}

/// Products run in square blocks of the family's tile side.
pub proof fn product_blocks(
    kind: ProductKind,
    family: Family,
    stream: Stream,
    p: Product,
    batches: usize,
    transposed_b: bool,
)
    ensures
        forall|i: int|
            0 <= i < product_plan(kind, family, stream, p).steps.len() ==> tiles_of(
                (#[trigger] product_plan(kind, family, stream, p).steps[i]).action,
                family.width,
            ),
        forall|i: int|
            0 <= i < batched_plan(family, stream, p, batches, transposed_b).steps.len()
                ==> tiles_of(
                (#[trigger] batched_plan(
                    family,
                    stream,
                    p,
                    batches,
                    transposed_b,
                ).steps[i]).action,
                family.width,
            ),
{
}

/// Matrix-vector products and projections run in blocks of the family's width.
pub proof fn projection_blocks(
    family: Family,
    stream: Stream,
    dense: MatrixVector,
    mixed: MixedProjection,
    int2: Int2Projection,
    sparse: SparseProjection,
)
    ensures
        runs_lines(gemv_plan(family, stream, dense), family.width),
        runs_lines(mixed_plan(family, stream, mixed), family.width),
        runs_lines(int2_plan(family, stream, int2), family.width),
        runs_lines(sparse_plan(family, stream, sparse), family.width),
{
}

/// Rotations and row moves run in blocks of the family's width.
pub proof fn move_blocks(
    name: &'static str,
    kernel: Kernel,
    family: Family,
    stream: Stream,
    rotation: Rotation,
    lookup: Lookup,
    placement: Placement,
)
    ensures
        runs_lines(rope_plan(kernel, family, stream, rotation), family.width),
        runs_lines(gather_plan(family, stream, lookup), family.width),
        runs_lines(bf16_gather_plan(family, stream, lookup), family.width),
        runs_lines(scatter_plan(name, kernel, family, stream, placement), family.width),
{
}

/// Row operations run in blocks of the family's width.
pub proof fn row_blocks(
    family: Family,
    stream: Stream,
    r: Rows,
    workspace: RowWorkspace,
    epsilon: F32,
    gamma: F32,
    probe: Probe,
)
    ensures
        runs_lines(softmax_rows_plan(family, stream, r, workspace), family.width),
        runs_lines(fused_softmax_plan(family, stream, r, probe), family.width),
        runs_lines(rms_rows_plan(family, stream, r, epsilon, gamma, workspace), family.width),
        runs_lines(fused_rms_plan(family, stream, r, epsilon, gamma, probe), family.width),
{
}

proof fn pass_blocks(
    kind: ReductionInput,
    op: ReductionOp,
    width: u32,
    other: u32,
    input: DeviceBuffer,
    output: DeviceBuffer,
    workspace: TreeWorkspace,
    passes: Seq<TreePass>,
)
    ensures
        runs_two(
            passes_plan(kind, op, width, input.id, output.id, workspace, passes),
            width,
            other,
        ),
    decreases passes.len(),
{
    if passes.len() > 0 {
        pass_blocks(kind, op, width, other, input, output, workspace, passes.drop_last());
        composition_runs(
            passes_plan(kind, op, width, input.id, output.id, workspace, passes.drop_last()),
            crate::reduction::pass_plan(
                kind,
                op,
                width,
                input.id,
                output.id,
                workspace,
                passes.last(),
            ),
            width,
            other,
        );
    }
}

/// Reductions run in blocks of the family's width.
pub proof fn reduction_blocks(
    kind: ReductionInput,
    op: ReductionOp,
    family: Family,
    stream: Stream,
    input: DeviceBuffer,
    output: DeviceBuffer,
    workspace: TreeWorkspace,
    other: u32,
)
    ensures
        runs_lines(
            reduction_plan(kind, op, family, stream, input, output, workspace),
            family.width,
        ),
        runs_two(
            reduction_plan(kind, op, family, stream, input, output, workspace),
            family.width,
            other,
        ),
{
    let passes = schedule(input.len, family.width);
    pass_blocks(kind, op, family.width, family.width, input, output, workspace, passes);
    pass_blocks(kind, op, family.width, other, input, output, workspace, passes);
}

/// The reductions of a softmax run in blocks of the reduction's width, and its
/// other stages in blocks of its own.
pub proof fn softmax_blocks(
    softmax: SoftmaxView,
    stream: Stream,
    o: SoftmaxOperands,
    workspace: TreeWorkspace,
)
    ensures
        runs_two(
            softmax_plan(softmax, stream, o, workspace),
            softmax.reduction.width,
            softmax.family.width,
        ),
{
    let (width, other) = (softmax.reduction.width, softmax.family.width);
    let first = reduction_plan(
        ReductionInput::F32,
        ReductionOp::Max,
        softmax.reduction,
        stream,
        o.input,
        o.max_scratch,
        workspace,
    );
    let shift = crate::softmax::exp_shift_plan(
        softmax.family.width,
        o.input,
        o.output,
        o.max_scratch,
    );
    let second = reduction_plan(
        ReductionInput::F32,
        ReductionOp::Sum,
        softmax.reduction,
        stream,
        o.output,
        o.sum_scratch,
        workspace,
    );
    let divide = crate::softmax::normalize_plan(softmax.family.width, o.output, o.sum_scratch);
    reduction_blocks(
        ReductionInput::F32,
        ReductionOp::Max,
        softmax.reduction,
        stream,
        o.input,
        o.max_scratch,
        workspace,
        other,
    );
    reduction_blocks(
        ReductionInput::F32,
        ReductionOp::Sum,
        softmax.reduction,
        stream,
        o.output,
        o.sum_scratch,
        workspace,
        other,
    );
    composition_runs(first, shift, width, other);
    composition_runs(first.followed_by(shift), second, width, other);
    composition_runs(first.followed_by(shift).followed_by(second), divide, width, other);
}

/// Fused attention runs in blocks of the family's width, and the causal scaling
/// in blocks of 256.
pub proof fn attention_blocks(
    kind: HeadKind,
    family: Family,
    stream: Stream,
    h: Heads,
    heads: usize,
    scale: F32,
    mask: AttentionMask,
    probe: Probe,
    scores: DeviceBuffer,
    output: DeviceBuffer,
    elements: usize,
)
    ensures
        runs_lines(fused_plan(kind, family, stream, h, scale, mask, probe), family.width),
        runs_lines(
            fused_multihead_plan(kind, family, stream, h, heads, scale, mask, probe),
            family.width,
        ),
        runs_lines(
            scale_causal_plan(family, stream, scores, output, h.query_rows, h.kv_rows, scale),
            256,
        ),
        runs_lines(
            multihead_scale_causal_plan(
                family,
                stream,
                scores,
                output,
                elements,
                h.query_rows,
                h.kv_rows,
                scale,
            ),
            256,
        ),
{
}

proof fn round_blocks(
    width: u32,
    s: Selection,
    workspace: SelectionWorkspace,
    passes: Seq<TreePass>,
    rounds: nat,
)
    ensures
        runs_two(rounds_plan(width, s, workspace, passes, rounds), width, 1),
    decreases rounds,
{
    if rounds > 0 {
        let slot = (rounds - 1) as nat;
        round_blocks(width, s, workspace, passes, slot);
        let before = rounds_plan(width, s, workspace, passes, slot);
        let round = round_plan(width, s, workspace, slot, passes);
        let mask = PlanView::one(Action::Launch(mask_launch(s, workspace, slot)));
        composition_runs(before, round, width, 1);
        composition_runs(before.followed_by(round), mask, width, 1);
    }
}

/// Selections run in blocks of the family's width, but for the one thread that
/// masks a winner.
pub proof fn selection_blocks(
    family: Family,
    stream: Stream,
    s: Selection,
    workspace: SelectionWorkspace,
    p: ArgmaxProjection,
    candidates: CandidateWorkspace,
)
    ensures
        runs_two(selection_plan(family, stream, s, workspace), family.width, 1),
        runs_lines(argmax_plan(family, stream, p, candidates), family.width),
{
    let passes = schedule(s.input.len, family.width);
    round_blocks(family.width, s, workspace, passes, s.k as nat);
    let checked = PlanView::checked(
        crate::top_k::selection_check(family, stream, s, workspace),
    ).followed_by(PlanView::one(Action::Launch(fill_launch(family.width, s, workspace))));
    composition_runs(
        checked,
        rounds_plan(family.width, s, workspace, passes, s.k as nat),
        family.width,
        1,
    );
}

} // verus!
