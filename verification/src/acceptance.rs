//! Which requests are accepted: exactly those whose buffers have the sizes
//! that their shape asks for, live in one context, and fit the grid.
//!
//! Whatever is refused has not been submitted; see the laws of each family.

use crate::arith::{ceil_div, ceil_div_covers};
use crate::attention::{
    composed_multihead_plan, composed_plan, multihead_scale_causal_plan, scale_causal_plan,
    score_buffer, score_product, value_product, ComposedFamilies,
};
use crate::bf16::{
    bf16_affine_plan, bf16_scale_plan, bf16_vector_add_plan, narrow_plan, unary_plan, widen_plan,
};
use crate::bf16_attention::{
    bf16_composed_multihead_plan, bf16_composed_plan, quantized_plan, wide, wide_heads, widening,
    QuantizedFamilies,
};
use crate::bf16_norms::{layer_submission_plan, norm_plan, wide_rows, NormKind};
use crate::bf16_reduction::bf16_max_plan;
use crate::device::{ContextId, DeviceBuffer, Probe, Scratch, Stream, F32};
use crate::elementwise::{affine_plan, awaited, scale_plan, vector_add_plan};
use crate::family::Family;
use crate::gather::{
    bf16_gather_plan, checked_bf16_gather_plan, checked_gather_plan, gather_plan,
    index_check_decides, Lookup,
};
use crate::gemm::batched_plan;
use crate::gemv::{gemv_plan, MatrixVector};
use crate::heads::{fused_multihead_plan, fused_plan, AttentionMask, HeadKind, Heads};
use crate::int2_weight_gemv::{int2_plan, Int2Projection};
use crate::launch::Kernel;
use crate::lm_head_argmax::{argmax_plan, ArgmaxProjection, CandidateWorkspace};
use crate::mixed_weight_gemv::{mixed_plan, MixedProjection};
use crate::product::{product_plan, Product, ProductKind};
use crate::reduction::{
    own_workspace, reduction_plan, reduction_runs_or_submits_nothing, scalar_output, scalar_plan,
    ReductionInput, ReductionOp, TreeWorkspace,
};
use crate::rms_norm::{fused_rms_plan, rms_dispatch_plan, rms_rows_plan, rms_submission_plan};
use crate::rope::{rope_plan, Rotation};
use crate::row_softmax::{fused_softmax_plan, softmax_dispatch_plan, softmax_rows_plan};
use crate::rows::{FusedProbes, RowWorkspace, Rows};
use crate::scatter::{checked_scatter_plan, position_check_decides, scatter_plan, Placement};
use crate::softmax::{
    own_scalars, own_tree, softmax_alone_plan, softmax_into_plan, softmax_plan,
    softmax_pooled_plan, SoftmaxOperands, SoftmaxView,
};
use crate::sparse_csc_gemv::{sparse_plan, SparseProjection};
use crate::top_k::{
    own_buffers, own_selection_plan, selection_plan, selection_runs_or_submits_nothing,
    selection_workspace_for, Selection, SelectionWorkspace,
};
use vstd::prelude::*;

verus! {

/// Elementwise operations are accepted where the lengths agree.
pub proof fn elementwise_acceptance(
    family: Family,
    left: DeviceBuffer,
    right: DeviceBuffer,
    output: DeviceBuffer,
    scale: F32,
    bias: F32,
)
    ensures
        vector_add_plan(family, left, right, output).outcome is Ok <==> left.len == right.len
            == output.len,
        scale_plan(family, left, output, scale).outcome is Ok <==> left.len == output.len,
        affine_plan(family, left, output, scale, bias).outcome is Ok <==> left.len == output.len,
{
}

/// Packed-bf16 elementwise operations are accepted where the lengths agree.
pub proof fn bf16_elementwise_acceptance(
    kernel: Kernel,
    family: Family,
    left: DeviceBuffer,
    right: DeviceBuffer,
    output: DeviceBuffer,
    scale: F32,
    bias: F32,
)
    ensures
        unary_plan(kernel, family, left, output).outcome is Ok <==> left.len == output.len,
        widen_plan(family, left, output).outcome is Ok <==> left.len == output.len,
        narrow_plan(family, left, output).outcome is Ok <==> left.len == output.len,
        bf16_vector_add_plan(family, left, right, output).outcome is Ok <==> left.len == right.len
            == output.len,
        bf16_scale_plan(family, left, output, scale).outcome is Ok <==> left.len == output.len,
        bf16_affine_plan(family, left, output, scale, bias).outcome is Ok <==> left.len
            == output.len,
{
}

/// The tiles of an output fit the grid: at most `u32::MAX` along the rows and
/// 65535 along the columns. An empty product needs no grid.
pub open spec fn tiles_fit(side: u32, m: usize, n: usize, k: usize) -> bool {
    ||| m == 0 || n == 0 || k == 0
    ||| m <= u32::MAX * side && n <= 65_535 * side
}

/// Products are accepted where the operands have the sizes of their shapes,
/// everything lives in the family's context, and the tiles fit the grid.
pub proof fn product_acceptance(kind: ProductKind, family: Family, stream: Stream, p: Product)
    requires
        family.width > 0,
    ensures
        product_plan(kind, family, stream, p).outcome is Ok <==> {
            &&& p.matrix_a.len == p.m * p.k
            &&& p.matrix_b.len == p.k * p.n
            &&& p.output.len == p.m * p.n
            &&& stream.context == family.context
            &&& p.matrix_a.context == family.context
            &&& p.matrix_b.context == family.context
            &&& p.output.context == family.context
            &&& tiles_fit(family.width, p.m, p.n, p.k)
        },
{
    assert(p.k * p.n == p.n * p.k) by (nonlinear_arith);
    blocks_fit(p.m as int, family.width as int, u32::MAX as int);
    blocks_fit(p.n as int, family.width as int, 65_535);
}

/// A count takes at most `limit` blocks where it is at most that many widths.
proof fn blocks_fit(count: int, width: int, limit: int)
    requires
        0 <= count,
        0 < width,
        0 <= limit,
    ensures
        ceil_div(count, width) <= limit <==> count <= limit * width,
{
    ceil_div_covers(count, width);
    let blocks = ceil_div(count, width);
    if blocks <= limit {
        assert(count <= limit * width) by (nonlinear_arith)
            requires
                count <= blocks * width,
                blocks <= limit,
                0 < width,
        ;
    } else {
        assert(count > limit * width) by (nonlinear_arith)
            requires
                count > 0 ==> (blocks - 1) * width < count,
                blocks > limit,
                0 <= limit,
                0 < width,
                count <= 0 ==> blocks <= 0,
        ;
    }
}

/// Batched products are accepted where there are between one and 65535
/// batches, their rows are countable, the operands hold that many matrices of
/// their shapes, everything lives in the stream's context, and the tiles fit
/// the grid.
pub proof fn batched_acceptance(
    family: Family,
    stream: Stream,
    p: Product,
    batches: usize,
    transposed_b: bool,
)
    requires
        family.width > 0,
    ensures
        batched_plan(family, stream, p, batches, transposed_b).outcome is Ok <==> {
            &&& 1 <= batches <= 65_535
            &&& batches * p.m <= usize::MAX
            &&& batches * (if transposed_b {
                p.n
            } else {
                p.k
            }) <= usize::MAX
            &&& p.matrix_a.len == batches * p.m * p.k
            &&& p.matrix_b.len == batches * p.k * p.n
            &&& p.output.len == batches * p.m * p.n
            &&& p.matrix_a.context == stream.context
            &&& p.matrix_b.context == stream.context
            &&& p.output.context == stream.context
            &&& tiles_fit(family.width, p.m, p.n, p.k)
        },
{
    assert(batches * p.k * p.n == batches * p.n * p.k) by (nonlinear_arith);
    blocks_fit(p.m as int, family.width as int, u32::MAX as int);
    blocks_fit(p.n as int, family.width as int, 65_535);
}

/// A matrix-vector product is accepted where the operands have the sizes of
/// their shapes, everything lives in the family's context, and there are at
/// most `u32::MAX` rows or the matrix is empty.
pub proof fn gemv_acceptance(family: Family, stream: Stream, p: MatrixVector)
    ensures
        gemv_plan(family, stream, p).outcome is Ok <==> {
            &&& p.matrix.len == p.rows * p.cols
            &&& p.vector.len == p.cols
            &&& p.output.len == p.rows
            &&& stream.context == family.context
            &&& p.matrix.context == family.context
            &&& p.vector.context == family.context
            &&& p.output.context == family.context
            &&& p.rows <= u32::MAX || p.cols == 0
        },
{
}

/// Projections are accepted where the operands have the sizes of their shapes
/// and everything lives in the family's context.
pub proof fn projection_acceptance(
    family: Family,
    stream: Stream,
    mixed: MixedProjection,
    int2: Int2Projection,
    sparse: SparseProjection,
)
    ensures
        mixed_plan(family, stream, mixed).outcome is Ok <==> {
            &&& mixed.input.len == mixed.k
            &&& mixed.weight.len == mixed.k * mixed.n
            &&& mixed.output.len == mixed.n
            &&& stream.context == family.context
            &&& mixed.input.context == family.context
            &&& mixed.weight.context == family.context
            &&& mixed.output.context == family.context
        },
        int2_plan(family, stream, int2).outcome is Ok <==> {
            &&& int2.k * int2.n + 3 <= usize::MAX
            &&& int2.input.len == int2.k
            &&& int2.packed_weight.len == (int2.k * int2.n + 3) / 4
            &&& int2.scale.len == 1
            &&& int2.output.len == int2.n
            &&& stream.context == family.context
            &&& int2.input.context == family.context
            &&& int2.packed_weight.context == family.context
            &&& int2.scale.context == family.context
            &&& int2.output.context == family.context
        },
        sparse_plan(family, stream, sparse).outcome is Ok <==> {
            &&& sparse.input.len == sparse.k
            &&& sparse.column_offsets.len == sparse.n + 1
            &&& sparse.row_indices.len == sparse.values.len
            &&& sparse.k > 0 || sparse.values.len == 0
            &&& sparse.output.len == sparse.n
            &&& stream.context == family.context
            &&& sparse.input.context == family.context
            &&& sparse.column_offsets.context == family.context
            &&& sparse.row_indices.context == family.context
            &&& sparse.values.context == family.context
            &&& sparse.output.context == family.context
        },
{
}

/// A rotation is accepted where rows are even, the operands have the sizes of
/// their shapes, and everything lives in the family's context.
pub proof fn rotation_acceptance(kernel: Kernel, family: Family, stream: Stream, p: Rotation)
    ensures
        rope_plan(kernel, family, stream, p).outcome is Ok <==> {
            &&& p.cols % 2 == 0
            &&& p.input.len == p.rows * p.cols
            &&& p.output.len == p.rows * p.cols
            &&& 2 * p.cos.len == p.rows * p.cols
            &&& 2 * p.sin.len == p.rows * p.cols
            &&& stream.context == family.context
            &&& p.input.context == family.context
            &&& p.output.context == family.context
            &&& p.cos.context == family.context
            &&& p.sin.context == family.context
        },
{
    if p.cols % 2 == 0 {
        assert(2 * (p.rows * (p.cols / 2)) == p.rows * p.cols) by (nonlinear_arith)
            requires
                p.cols == 2 * (p.cols / 2),
        ;
    }
}

/// The rows of a matrix and of an operation on it.
pub open spec fn rows_suit(context: ContextId, stream: Stream, r: Rows) -> bool {
    &&& r.input.len == r.rows * r.cols
    &&& r.output.len == r.rows * r.cols
    &&& stream.context == context
    &&& r.input.context == context
    &&& r.output.context == context
}

/// One block per row fits the grid; an empty matrix needs none.
pub open spec fn rows_fit(r: Rows) -> bool {
    r.rows <= u32::MAX || r.cols == 0
}

/// A row and one partial per thread fit the dynamic shared memory.
pub open spec fn row_stays(width: u32, cols: usize, probe: Probe) -> bool {
    &&& probe is Ok
    &&& 4 * (cols + width) <= probe->Ok_0.max_dynamic_shared_memory_bytes
    &&& 4 * (cols + width) <= usize::MAX
}

/// Staged row operations are accepted where the operands suit, the workspace
/// has a scalar per row in the family's context, and the rows fit the grid.
pub proof fn staged_rows_acceptance(
    family: Family,
    stream: Stream,
    r: Rows,
    epsilon: F32,
    gamma: F32,
    workspace: RowWorkspace,
)
    ensures
        softmax_rows_plan(family, stream, r, workspace).outcome is Ok <==> {
            &&& rows_suit(family.context, stream, r)
            &&& r.rows <= workspace.max_rows
            &&& workspace.scalars.context == family.context
            &&& rows_fit(r)
        },
        rms_rows_plan(family, stream, r, epsilon, gamma, workspace).outcome is Ok <==> {
            &&& rows_suit(family.context, stream, r)
            &&& r.rows <= workspace.max_rows
            &&& workspace.scalars.context == family.context
            &&& rows_fit(r)
        },
{
}

/// Fused row operations are accepted where the operands suit, a row stays in
/// shared memory, and the rows fit the grid; an empty matrix needs neither.
pub proof fn fused_rows_acceptance(
    family: Family,
    stream: Stream,
    r: Rows,
    epsilon: F32,
    gamma: F32,
    probe: Probe,
)
    ensures
        fused_softmax_plan(family, stream, r, probe).outcome is Ok <==> {
            &&& rows_suit(family.context, stream, r)
            &&& r.rows == 0 || r.cols == 0 || row_stays(family.width, r.cols, probe) && r.rows
                <= u32::MAX
        },
        fused_rms_plan(family, stream, r, epsilon, gamma, probe).outcome is Ok <==> {
            &&& rows_suit(family.context, stream, r)
            &&& r.rows == 0 || r.cols == 0 || row_stays(family.width, r.cols, probe) && r.rows
                <= u32::MAX
        },
{
}

/// A path can be taken: the rows fit the grid and, where a row was found to
/// stay in shared memory, it still does when the path is planned.
pub open spec fn dispatch_fits(width: u32, r: Rows, probes: FusedProbes) -> bool {
    &&& rows_fit(r)
    &&& row_stays(width, r.cols, probes.available) && r.rows > 0 && r.cols > 0 ==> row_stays(
        width,
        r.cols,
        probes.fused,
    )
}

/// A dispatched row operation is accepted where the operands suit and a path
/// can be taken, whether or not a row stays in shared memory.
pub proof fn dispatched_rows_acceptance(
    family: Family,
    stream: Stream,
    r: Rows,
    epsilon: F32,
    gamma: F32,
    probes: FusedProbes,
)
    ensures
        softmax_dispatch_plan(family, stream, r, probes).outcome is Ok <==> {
            &&& rows_suit(family.context, stream, r)
            &&& dispatch_fits(family.width, r, probes)
        },
        rms_dispatch_plan(family, stream, r, epsilon, gamma, probes).outcome is Ok <==> {
            &&& rows_suit(family.context, stream, r)
            &&& dispatch_fits(family.width, r, probes)
        },
        rms_submission_plan(family, stream, r, epsilon, gamma, probes).outcome is Ok <==> {
            &&& rows_suit(family.context, stream, r)
            &&& dispatch_fits(family.width, r, probes)
        },
{
}

/// A dispatched row operation takes the single-kernel path exactly where a row
/// stays in shared memory, and scratch of one scalar per row otherwise.
pub proof fn dispatch_takes_the_fused_path_where_rows_stay(
    family: Family,
    stream: Stream,
    r: Rows,
    epsilon: F32,
    gamma: F32,
    probes: FusedProbes,
)
    requires
        rows_suit(family.context, stream, r),
    ensures
        row_stays(family.width, r.cols, probes.available) ==> {
            &&& softmax_dispatch_plan(family, stream, r, probes).never_allocates()
            &&& rms_dispatch_plan(family, stream, r, epsilon, gamma, probes).never_allocates()
            &&& rms_submission_plan(family, stream, r, epsilon, gamma, probes).never_allocates()
        },
        !row_stays(family.width, r.cols, probes.available) ==> {
            &&& !softmax_dispatch_plan(family, stream, r, probes).never_allocates()
            &&& !rms_dispatch_plan(family, stream, r, epsilon, gamma, probes).never_allocates()
            &&& !rms_submission_plan(family, stream, r, epsilon, gamma, probes).never_allocates()
        },
{
    let softmax = softmax_dispatch_plan(family, stream, r, probes);
    let rms = rms_dispatch_plan(family, stream, r, epsilon, gamma, probes);
    let submission = rms_submission_plan(family, stream, r, epsilon, gamma, probes);
    if !row_stays(family.width, r.cols, probes.available) {
        assert(softmax.steps[0].action.allocates());
        assert(rms.steps[0].action.allocates());
        assert(submission.steps[0].action.allocates());
    }
}

/// Reductions are accepted where the output holds one element, the workspace is
/// made for this width and for at least as many elements, everything lives in
/// the family's context, and the blocks of the first pass fit the grid.
pub proof fn reduction_acceptance(
    kind: ReductionInput,
    op: ReductionOp,
    family: Family,
    stream: Stream,
    input: DeviceBuffer,
    output: DeviceBuffer,
    workspace: TreeWorkspace,
)
    requires
        family.width > 0,
    ensures
        reduction_plan(kind, op, family, stream, input, output, workspace).outcome is Ok <==> {
            &&& output.len == 1
            &&& input.len <= workspace.max_elements
            &&& workspace.block_size == family.width
            &&& stream.context == family.context
            &&& input.context == family.context
            &&& output.context == family.context
            &&& workspace.scratch_a.context == family.context
            &&& input.len <= u32::MAX * (2 * family.width)
        },
{
    reduction_runs_or_submits_nothing(kind, op, family, stream, input, output, workspace);
    blocks_fit(input.len as int, 2 * family.width as int, u32::MAX as int);
}

/// Reductions to a host scalar are accepted where everything lives in the
/// family's context and the blocks fit the grid; the maximum of nothing always.
pub proof fn scalar_acceptance(
    kind: ReductionInput,
    op: ReductionOp,
    family: Family,
    stream: Stream,
    input: DeviceBuffer,
)
    requires
        family.width > 0,
    ensures
        scalar_plan(kind, op, family, stream, input).outcome is Ok <==> {
            &&& stream.context == family.context
            &&& input.context == family.context
            &&& input.len <= u32::MAX * (2 * family.width)
        },
        bf16_max_plan(family, stream, input).outcome is Ok <==> {
            ||| input.len == 0
            ||| {
                &&& stream.context == family.context
                &&& input.context == family.context
                &&& input.len <= u32::MAX * (2 * family.width)
            }
        },
{
    let workspace = own_workspace(family, input);
    let output = scalar_output(input.context);
    reduction_acceptance(kind, op, family, stream, input, output, workspace);
    reduction_acceptance(
        ReductionInput::Bf16,
        ReductionOp::Max,
        family,
        stream,
        input,
        output,
        workspace,
    );
}

/// A softmax is accepted where the lengths agree, the two scratch buffers are
/// distinct and hold one element each, and everything lives in the family's
/// context; unless it is empty, also what its two reductions need.
pub proof fn softmax_acceptance(
    softmax: SoftmaxView,
    stream: Stream,
    o: SoftmaxOperands,
    workspace: TreeWorkspace,
)
    requires
        softmax.reduction.width > 0,
    ensures
        softmax_plan(softmax, stream, o, workspace).outcome is Ok <==> {
            &&& o.input.len == o.output.len
            &&& o.max_scratch.len == 1
            &&& o.sum_scratch.len == 1
            &&& o.max_scratch.id != o.sum_scratch.id
            &&& stream.context == softmax.family.context
            &&& o.input.context == softmax.family.context
            &&& o.output.context == softmax.family.context
            &&& o.max_scratch.context == softmax.family.context
            &&& o.sum_scratch.context == softmax.family.context
            &&& o.input.len > 0 ==> {
                &&& o.input.len <= workspace.max_elements
                &&& workspace.block_size == softmax.reduction.width
                &&& softmax.reduction.context == softmax.family.context
                &&& workspace.scratch_a.context == softmax.family.context
                &&& o.input.len <= u32::MAX * (2 * softmax.reduction.width)
            }
        },
{
    reduction_acceptance(
        ReductionInput::F32,
        ReductionOp::Max,
        softmax.reduction,
        stream,
        o.input,
        o.max_scratch,
        workspace,
    );
    reduction_acceptance(
        ReductionInput::F32,
        ReductionOp::Sum,
        softmax.reduction,
        stream,
        o.output,
        o.sum_scratch,
        workspace,
    );
}

/// A softmax that makes its own scratch is accepted where the lengths agree,
/// everything lives in one context, and the blocks fit the grid.
pub proof fn own_softmax_acceptance(
    softmax: SoftmaxView,
    context: ContextId,
    stream: Stream,
    input: DeviceBuffer,
    output: DeviceBuffer,
    workspace: TreeWorkspace,
)
    requires
        softmax.reduction.width > 0,
        softmax.reduction.context == softmax.family.context,
    ensures
        softmax_into_plan(softmax, stream, input, output, workspace).outcome is Ok <==> {
            &&& input.len == output.len
            &&& stream.context == softmax.family.context
            &&& input.context == softmax.family.context
            &&& output.context == softmax.family.context
            &&& input.len > 0 ==> {
                &&& input.len <= workspace.max_elements
                &&& workspace.block_size == softmax.reduction.width
                &&& workspace.scratch_a.context == softmax.family.context
                &&& input.len <= u32::MAX * (2 * softmax.reduction.width)
            }
        },
        softmax_alone_plan(softmax, context, stream, input, output).outcome is Ok <==> {
            &&& input.len == output.len
            &&& context == softmax.family.context
            &&& stream.context == softmax.family.context
            &&& input.context == softmax.family.context
            &&& output.context == softmax.family.context
            &&& input.len <= u32::MAX * (2 * softmax.reduction.width)
        },
        softmax_pooled_plan(softmax, context, stream, input, output).outcome is Ok <==> {
            &&& input.len == output.len
            &&& context == softmax.family.context
            &&& stream.context == softmax.family.context
            &&& input.context == softmax.family.context
            &&& output.context == softmax.family.context
            &&& input.len <= u32::MAX * (2 * softmax.reduction.width)
        },
{
    let own = own_tree(softmax.reduction, context, input.len);
    let scalars = own_scalars(stream.context, input, output);
    softmax_acceptance(softmax, stream, scalars, workspace);
    softmax_acceptance(softmax, stream, scalars, own);
    softmax_acceptance(softmax, stream, own_scalars(context, input, output), own);
}

/// Gathers are accepted where table and output have the sizes of their shapes,
/// everything lives in the family's context and, where the host has read the
/// indices, every one of them is a row of the table.
pub proof fn gather_acceptance(family: Family, stream: Stream, p: Lookup, indices: Seq<u32>)
    ensures
        gather_plan(family, stream, p).outcome is Ok <==> lookup_suits(family, stream, p),
        p.indices.len * p.cols <= usize::MAX ==> (bf16_gather_plan(family, stream, p).outcome is Ok
            <==> lookup_suits(family, stream, p)),
        checked_gather_plan(family, stream, p, indices).outcome is Ok <==> {
            &&& lookup_suits(family, stream, p)
            &&& forall|i: int| 0 <= i < indices.len() ==> #[trigger] indices[i] < p.rows
        },
        p.indices.len * p.cols <= usize::MAX ==> (checked_bf16_gather_plan(
            family,
            stream,
            p,
            indices,
        ).outcome is Ok <==> {
            &&& lookup_suits(family, stream, p)
            &&& forall|i: int| 0 <= i < indices.len() ==> #[trigger] indices[i] < p.rows
        }),
{
    index_check_decides("gather", indices, p.rows, 0);
    index_check_decides("bf16 gather", indices, p.rows, 0);
}

/// The operands of a gather suit its shape.
pub open spec fn lookup_suits(family: Family, stream: Stream, p: Lookup) -> bool {
    &&& p.table.len == p.rows * p.cols
    &&& p.output.len == p.indices.len * p.cols
    &&& stream.context == family.context
    &&& p.table.context == family.context
    &&& p.indices.context == family.context
    &&& p.output.context == family.context
}

/// Scatters are accepted where source and output have the sizes of their
/// shapes, everything lives in the family's context and, where the host has
/// read the positions, they are distinct rows of the output.
pub proof fn scatter_acceptance(
    name: &'static str,
    kernel: Kernel,
    family: Family,
    stream: Stream,
    p: Placement,
    positions: Seq<u32>,
)
    ensures
        scatter_plan(name, kernel, family, stream, p).outcome is Ok <==> placement_suits(
            family,
            stream,
            p,
        ),
        checked_scatter_plan(name, kernel, family, stream, p, positions).outcome is Ok <==> {
            &&& placement_suits(family, stream, p)
            &&& forall|i: int| 0 <= i < positions.len() ==> #[trigger] positions[i] < p.output_rows
            &&& forall|i: int, j: int|
                0 <= i < j < positions.len() ==> #[trigger] positions[i] != #[trigger] positions[j]
        },
{
    position_check_decides(name, positions, p.output_rows);
}

/// The operands of a scatter suit its shape.
pub open spec fn placement_suits(family: Family, stream: Stream, p: Placement) -> bool {
    &&& p.source.len == p.positions.len * p.cols
    &&& p.output.len == p.output_rows * p.cols
    &&& stream.context == family.context
    &&& p.source.context == family.context
    &&& p.positions.context == family.context
    &&& p.output.context == family.context
}

/// Selections are accepted where between one and all elements are asked for,
/// the elements are countable in 32 bits, the outputs hold what is asked for,
/// everything lives in the family's context and, where the workspace is given,
/// it is made for this width and for at least as many elements.
pub proof fn selection_acceptance(
    family: Family,
    stream: Stream,
    s: Selection,
    workspace: SelectionWorkspace,
)
    requires
        family.width > 0,
    ensures
        selection_plan(family, stream, s, workspace).outcome is Ok <==> {
            &&& selection_suits(family, stream, s)
            &&& s.input.len <= workspace.max_elements
            &&& workspace.block_size == family.width
            &&& workspace.data.context == family.context
        },
        own_selection_plan(family, stream, s).outcome is Ok <==> selection_suits(
            family,
            stream,
            s,
        ),
{
    let own = selection_workspace_for(family, s.input.context, s.input.len, own_buffers());
    selection_runs_or_submits_nothing(family, stream, s, workspace);
    selection_runs_or_submits_nothing(family, stream, s, own);
}

/// The operands of a selection suit the number of elements asked for.
pub open spec fn selection_suits(family: Family, stream: Stream, s: Selection) -> bool {
    &&& 1 <= s.k <= s.input.len <= u32::MAX
    &&& s.values.len == s.k
    &&& s.indices.len == s.k
    &&& stream.context == family.context
    &&& s.input.context == family.context
    &&& s.values.context == family.context
    &&& s.indices.context == family.context
}

/// Argmax projections are accepted where the vocabulary is not empty and
/// countable in 32 bits, the operands have the sizes of their shapes, the
/// workspace is made for this vocabulary and width, and everything lives in the
/// family's context.
pub proof fn argmax_acceptance(
    family: Family,
    stream: Stream,
    p: ArgmaxProjection,
    workspace: CandidateWorkspace,
)
    ensures
        argmax_plan(family, stream, p, workspace).outcome is Ok <==> {
            &&& 1 <= p.vocab <= u32::MAX
            &&& p.input.len == p.k
            &&& p.weight.len == p.k * p.vocab
            &&& p.output_value.len == 1
            &&& p.output_index.len == 1
            &&& workspace.vocab == p.vocab
            &&& workspace.block_size == family.width
            &&& stream.context == family.context
            &&& p.input.context == family.context
            &&& p.weight.context == family.context
            &&& p.output_value.context == family.context
            &&& p.output_index.context == family.context
            &&& workspace.values.context == family.context
            &&& workspace.indices.context == family.context
        },
{
}

/// The operands of one head suit its shape, and keys, head and values are not
/// empty.
pub open spec fn head_suits(h: Heads) -> bool {
    &&& h.head_dim > 0
    &&& h.kv_rows > 0
    &&& h.value_dim > 0
    &&& h.queries.len == h.query_rows * h.head_dim
    &&& h.keys.len == h.kv_rows * h.head_dim
    &&& h.values.len == h.kv_rows * h.value_dim
    &&& h.output.len == h.query_rows * h.value_dim
}

/// The operands of packed heads suit their shape, and their rows are countable.
pub open spec fn packed_heads_suit(h: Heads, heads: usize) -> bool {
    &&& heads > 0
    &&& heads * h.query_rows <= usize::MAX
    &&& heads * h.kv_rows <= usize::MAX
    &&& h.queries.len == heads * h.query_rows * h.head_dim
    &&& h.keys.len == heads * h.kv_rows * h.head_dim
    &&& h.values.len == heads * h.kv_rows * h.value_dim
    &&& h.output.len == heads * h.query_rows * h.value_dim
}

/// The operands of an attention live in the stream's context.
pub open spec fn heads_gather(context: ContextId, stream: Stream, h: Heads) -> bool {
    &&& stream.context == context
    &&& h.queries.context == context
    &&& h.keys.context == context
    &&& h.values.context == context
    &&& h.output.context == context
}

/// A causal mask has as many queries as keys.
pub open spec fn mask_suits(h: Heads, mask: AttentionMask) -> bool {
    mask is Causal ==> h.query_rows == h.kv_rows
}

/// A chunk of keys and values, the scores and weights of its threads, a query
/// and an output row fit the dynamic shared memory.
pub open spec fn head_stays(width: u32, h: Heads, probe: Probe) -> bool {
    let floats = width * h.head_dim + width * h.value_dim + 2 * width + h.head_dim + h.value_dim;
    &&& probe is Ok
    &&& 4 * floats <= probe->Ok_0.max_dynamic_shared_memory_bytes
    &&& 4 * floats <= usize::MAX
}

/// Fused attention is accepted where the operands suit, everything lives in the
/// family's context, the mask suits, a head stays in shared memory, and the
/// blocks fit the grid.
pub proof fn fused_attention_acceptance(
    kind: HeadKind,
    family: Family,
    stream: Stream,
    h: Heads,
    heads: usize,
    scale: F32,
    mask: AttentionMask,
    probe: Probe,
)
    ensures
        fused_plan(kind, family, stream, h, scale, mask, probe).outcome is Ok <==> {
            &&& head_suits(h)
            &&& heads_gather(family.context, stream, h)
            &&& mask_suits(h, mask)
            &&& head_stays(family.width, h, probe)
            &&& h.query_rows <= u32::MAX
        },
        fused_multihead_plan(kind, family, stream, h, heads, scale, mask, probe).outcome is Ok
            <==> {
            &&& packed_heads_suit(h, heads)
            &&& heads_gather(family.context, stream, h)
            &&& mask_suits(h, mask)
            &&& head_stays(family.width, h, probe)
            &&& heads * h.query_rows <= u32::MAX
        },
{
    if h.query_rows == 0 {
        assert(heads * h.query_rows == 0) by (nonlinear_arith)
            requires
                h.query_rows == 0,
        ;
    }
}

/// Causal scalings are accepted where both buffers hold the scores and
/// everything lives in the family's context.
pub proof fn causal_scaling_acceptance(
    family: Family,
    stream: Stream,
    scores: DeviceBuffer,
    output: DeviceBuffer,
    elements: usize,
    query_rows: usize,
    kv_rows: usize,
    scale: F32,
)
    ensures
        scale_causal_plan(
            family,
            stream,
            scores,
            output,
            query_rows,
            kv_rows,
            scale,
        ).outcome is Ok <==> {
            &&& scores.len == query_rows * kv_rows
            &&& output.len == query_rows * kv_rows
            &&& stream.context == family.context
            &&& scores.context == family.context
            &&& output.context == family.context
        },
        multihead_scale_causal_plan(
            family,
            stream,
            scores,
            output,
            elements,
            query_rows,
            kv_rows,
            scale,
        ).outcome is Ok <==> {
            &&& scores.len == elements
            &&& output.len == elements
            &&& stream.context == family.context
            &&& scores.context == family.context
            &&& output.context == family.context
        },
{
}

/// What the stages of composed attention need beyond operands that suit: the
/// families live in the context, the scores are countable, and both products
/// and the rows of the softmax fit their grids.
pub open spec fn stages_fit(
    context: ContextId,
    attention: Family,
    gemm: Family,
    softmax: Family,
    h: Heads,
    mask: AttentionMask,
    probes: FusedProbes,
) -> bool {
    &&& h.query_rows * h.kv_rows <= usize::MAX
    &&& gemm.context == context
    &&& softmax.context == context
    &&& mask is Causal ==> attention.context == context
    &&& tiles_fit(gemm.width, h.query_rows, h.kv_rows, h.head_dim)
    &&& tiles_fit(gemm.width, h.query_rows, h.value_dim, h.kv_rows)
    &&& h.query_rows <= u32::MAX
    &&& row_stays(softmax.width, h.kv_rows, probes.available) && h.query_rows > 0 ==> row_stays(
        softmax.width,
        h.kv_rows,
        probes.fused,
    )
}

/// Composed attention is accepted where the operands suit, everything lives in
/// the stream's context, the mask suits, and the stages fit.
pub proof fn composed_acceptance(
    f: ComposedFamilies,
    stream: Stream,
    h: Heads,
    scale: F32,
    mask: AttentionMask,
    probes: FusedProbes,
)
    requires
        f.gemm.width > 0,
    ensures
        composed_plan(f, stream, h, scale, mask, probes).outcome is Ok <==> {
            &&& head_suits(h)
            &&& heads_gather(stream.context, stream, h)
            &&& mask_suits(h, mask)
            &&& stages_fit(
                stream.context,
                f.attention,
                f.gemm,
                f.softmax,
                h,
                mask,
                probes,
            )
        },
{
    let elements = (h.query_rows * h.kv_rows) as usize;
    let probabilities = score_buffer(stream.context, Scratch::Probabilities, elements);
    let scores = score_buffer(stream.context, Scratch::Scores, elements);
    let rows = Rows {
        input: probabilities,
        output: probabilities,
        rows: h.query_rows,
        cols: h.kv_rows,
    };
    product_acceptance(
        ProductKind::F32TransposedB,
        f.gemm,
        stream,
        score_product(h, scores),
    );
    product_acceptance(ProductKind::F32, f.gemm, stream, value_product(h, probabilities));
    causal_scaling_acceptance(
        f.attention,
        stream,
        scores,
        probabilities,
        elements,
        h.query_rows,
        h.kv_rows,
        scale,
    );
    dispatched_rows_acceptance(f.softmax, stream, rows, scale, scale, probes);
    assert(h.head_dim * h.kv_rows == h.kv_rows * h.head_dim) by (nonlinear_arith);
}

/// What the stages of composed attention over packed heads need beyond operands
/// that suit.
pub open spec fn packed_stages_fit(
    context: ContextId,
    gemm: Family,
    softmax: Family,
    h: Heads,
    heads: usize,
    probes: FusedProbes,
) -> bool {
    &&& heads <= 65_535
    &&& heads * h.query_rows * h.kv_rows <= usize::MAX
    &&& softmax.context == context
    &&& tiles_fit(gemm.width, h.query_rows, h.kv_rows, h.head_dim)
    &&& tiles_fit(gemm.width, h.query_rows, h.value_dim, h.kv_rows)
    &&& heads * h.query_rows <= u32::MAX || h.kv_rows == 0
    &&& row_stays(softmax.width, h.kv_rows, probes.available) && h.kv_rows > 0 ==> row_stays(
        softmax.width,
        h.kv_rows,
        probes.fused,
    )
}

/// Composed attention over packed heads is accepted where the operands suit,
/// everything lives in the family's context, the mask suits and, unless there
/// are no query rows, the stages fit.
pub proof fn packed_composed_acceptance(
    f: ComposedFamilies,
    stream: Stream,
    h: Heads,
    heads: usize,
    scale: F32,
    mask: AttentionMask,
    probes: FusedProbes,
)
    requires
        f.gemm.width > 0,
    ensures
        composed_multihead_plan(f, stream, h, heads, scale, mask, probes).outcome is Ok <==> {
            &&& packed_heads_suit(h, heads)
            &&& heads_gather(f.attention.context, stream, h)
            &&& mask_suits(h, mask)
            &&& h.query_rows == 0 || packed_stages_fit(
                stream.context,
                f.gemm,
                f.softmax,
                h,
                heads,
                probes,
            )
        },
{
    let elements = (heads * h.query_rows * h.kv_rows) as usize;
    let probabilities = score_buffer(stream.context, Scratch::Probabilities, elements);
    let rows = Rows {
        input: probabilities,
        output: probabilities,
        rows: (heads * h.query_rows) as usize,
        cols: h.kv_rows,
    };
    batched_acceptance(f.gemm, stream, score_product(h, probabilities), heads, true);
    batched_acceptance(f.gemm, stream, value_product(h, probabilities), heads, false);
    causal_scaling_acceptance(
        f.attention,
        stream,
        probabilities,
        probabilities,
        elements,
        h.query_rows,
        h.kv_rows,
        scale,
    );
    dispatched_rows_acceptance(f.softmax, stream, rows, scale, scale, probes);
    assert(heads * h.head_dim * h.kv_rows == heads * h.kv_rows * h.head_dim) by (nonlinear_arith);
    assert(heads > 0 && h.query_rows > 0 ==> heads * h.query_rows > 0) by (nonlinear_arith);
}

/// Composed attention over packed bf16 is accepted where the operands suit,
/// everything lives in the family's context, the mask suits and, unless there
/// are no query rows, the stages fit.
pub proof fn bf16_composed_acceptance(
    family: Family,
    conversions: Family,
    f: ComposedFamilies,
    stream: Stream,
    h: Heads,
    scale: F32,
    mask: AttentionMask,
    probes: FusedProbes,
)
    requires
        f.gemm.width > 0,
    ensures
        bf16_composed_plan(family, conversions, f, stream, h, scale, mask, probes).outcome is Ok
            <==> {
            &&& head_suits(h)
            &&& heads_gather(family.context, stream, h)
            &&& mask_suits(h, mask)
            &&& h.query_rows == 0 || stages_fit(
                stream.context,
                f.attention,
                f.gemm,
                f.softmax,
                h,
                mask,
                probes,
            )
        },
{
    let w = wide_heads(family.context, h);
    composed_acceptance(f, stream, w, scale, mask, probes);
    conversions_acceptance(conversions, h, w);
}

proof fn conversions_acceptance(conversions: Family, h: Heads, w: Heads)
    requires
        w.queries.len == h.queries.len,
        w.keys.len == h.keys.len,
        w.values.len == h.values.len,
        w.output.len == h.output.len,
    ensures
        widening(conversions, h, w).outcome is Ok,
        awaited(narrow_plan(conversions, w.output, h.output)).outcome is Ok,
{
}

/// Composed attention over packed-bf16 packed heads is accepted likewise.
pub proof fn bf16_packed_composed_acceptance(
    family: Family,
    conversions: Family,
    f: ComposedFamilies,
    stream: Stream,
    h: Heads,
    heads: usize,
    scale: F32,
    mask: AttentionMask,
    probes: FusedProbes,
)
    requires
        f.gemm.width > 0,
    ensures
        bf16_composed_multihead_plan(
            family,
            conversions,
            f,
            stream,
            h,
            heads,
            scale,
            mask,
            probes,
        ).outcome is Ok <==> {
            &&& packed_heads_suit(h, heads)
            &&& heads_gather(family.context, stream, h)
            &&& mask_suits(h, mask)
            &&& h.query_rows == 0 || {
                &&& f.attention.context == family.context
                &&& packed_stages_fit(stream.context, f.gemm, f.softmax, h, heads, probes)
            }
        },
{
    let w = wide_heads(family.context, h);
    packed_composed_acceptance(f, stream, w, heads, scale, mask, probes);
    conversions_acceptance(conversions, h, w);
}

/// Quantized composed attention is accepted where the operands suit, everything
/// lives in the family's context, the mask suits and, unless there are no query
/// rows, the stages fit.
pub proof fn quantized_acceptance(
    f: QuantizedFamilies,
    stream: Stream,
    h: Heads,
    scale: F32,
    mask: AttentionMask,
    probes: FusedProbes,
)
    requires
        f.gemm.width > 0,
    ensures
        quantized_plan(f, stream, h, scale, mask, probes).outcome is Ok <==> {
            &&& head_suits(h)
            &&& heads_gather(f.family.context, stream, h)
            &&& mask_suits(h, mask)
            &&& h.query_rows == 0 || stages_fit(
                stream.context,
                f.attention,
                f.gemm,
                f.softmax,
                h,
                mask,
                probes,
            )
        },
{
    let elements = (h.query_rows * h.kv_rows) as usize;
    let packed = wide(f.family.context, Scratch::PackedScores, elements);
    let probs = wide(f.family.context, Scratch::WideProbabilities, elements);
    let rows = Rows { input: probs, output: probs, rows: h.query_rows, cols: h.kv_rows };
    product_acceptance(
        ProductKind::Bf16TransposedB,
        f.gemm,
        stream,
        score_product(h, packed),
    );
    product_acceptance(ProductKind::Bf16, f.gemm, stream, value_product(h, packed));
    causal_scaling_acceptance(
        f.attention,
        stream,
        probs,
        probs,
        elements,
        h.query_rows,
        h.kv_rows,
        scale,
    );
    dispatched_rows_acceptance(f.softmax, stream, rows, scale, scale, probes);
    assert(h.head_dim * h.kv_rows == h.kv_rows * h.head_dim) by (nonlinear_arith);
}

/// Normalizations of packed bf16 are accepted where there are rows and columns,
/// the buffers hold them and live in the stream's context; those by RMS also
/// need what the `f32` normalization needs.
pub proof fn norm_acceptance(
    conversions: Family,
    family: Family,
    stream: Stream,
    r: Rows,
    epsilon: F32,
    gamma: F32,
    beta: F32,
    probes: FusedProbes,
)
    ensures
        norm_plan(
            NormKind::Rms,
            conversions,
            stream,
            r,
            rms_submission_plan(family, stream, wide_rows(stream, r), epsilon, gamma, probes),
        ).outcome is Ok <==> {
            &&& r.rows > 0
            &&& r.cols > 0
            &&& rows_suit(stream.context, stream, r)
            &&& family.context == stream.context
            &&& dispatch_fits(family.width, r, probes)
        },
        norm_plan(
            NormKind::Layer,
            conversions,
            stream,
            r,
            layer_submission_plan(wide_rows(stream, r), epsilon, gamma, beta),
        ).outcome is Ok <==> {
            &&& r.rows > 0
            &&& r.cols > 0
            &&& rows_suit(stream.context, stream, r)
        },
{
    let w = wide_rows(stream, r);
    dispatched_rows_acceptance(family, stream, w, epsilon, gamma, probes);
    let rms = rms_submission_plan(family, stream, w, epsilon, gamma, probes);
    let layer = layer_submission_plan(w, epsilon, gamma, beta);
    let widen = widen_plan(conversions, r.input, w.input);
    let narrow = narrow_plan(conversions, w.output, r.output);
    if rows_suit(stream.context, stream, r) {
        assert(widen.outcome is Ok && narrow.outcome is Ok);
        assert(widen.followed_by(layer).followed_by(narrow).outcome is Ok);
        assert(widen.followed_by(rms).followed_by(narrow).outcome is Ok <==> rms.outcome is Ok);
    }
}

} // verus!
