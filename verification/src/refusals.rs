//! What refusals say.
//!
//! A refusal names the first rule that the request breaks, in the order in which
//! the rules are tested, with the very numbers that break it.

use crate::acceptance::head_stays;
use crate::arith::{ceil_div, power_of_two};
use crate::attention::{
    composed_check, composed_multihead_plan, multihead_scale_causal_plan, scale_causal_plan,
    ComposedFamilies,
};
use crate::bf16::{bf16_affine_plan, bf16_scale_plan, bf16_vector_add_plan, unary_plan};
use crate::bf16_attention::{
    bf16_composed_multihead_plan, bf16_composed_plan, quantized_plan, QuantizedFamilies,
};
use crate::bf16_norms::{norm_check, NormKind};
use crate::device::{ContextId, DeviceBuffer, Probe, Stream, F32};
use crate::elementwise::{affine_plan, scale_plan, vector_add_plan};
use crate::error::KernelError;
use crate::family::{
    block_check, bytes_check, nonzero_check, shared_check, threads_check, Family,
};
use crate::gather::{bf16_gather_plan, gather_plan, Lookup};
use crate::gemm::batched_plan;
use crate::gemv::{gemv_plan, MatrixVector};
use crate::heads::{fused_multihead_plan, fused_plan, AttentionMask, HeadKind, Heads};
use crate::int2_weight_gemv::{int2_plan, Int2Projection};
use crate::launch::Kernel;
use crate::lm_head_argmax::{
    argmax_plan, candidate_workspace_check, ArgmaxProjection, CandidateWorkspace,
};
use crate::mixed_weight_gemv::{mixed_plan, MixedProjection};
use crate::product::{
    product_plan, side_check, tile_bytes_check, tile_threads_check, Product, ProductKind,
};
use crate::reduction::{
    reduction_plan, reduction_runs_or_submits_nothing, workspace_check, ReductionInput,
    ReductionOp, TreeWorkspace,
};
use crate::rms_norm::{fused_rms_plan, rms_rows_plan};
use crate::rope::{rope_plan, Rotation};
use crate::row_softmax::{fused_softmax_plan, softmax_rows_plan};
use crate::rows::{row_workspace_check, FusedProbes, RowKind, RowWorkspace, Rows};
use crate::scatter::{scatter_plan, Placement};
use crate::softmax::{softmax_check, SoftmaxOperands};
use crate::sparse_csc_gemv::{sparse_plan, SparseProjection};
use crate::top_k::{
    selection_plan, selection_runs_or_submits_nothing, selection_workspace_check, Selection,
    SelectionWorkspace,
};
use vstd::prelude::*;

verus! {

/// Every variant of an operation is named for what it works on.
pub proof fn refusals_name_their_operation()
    ensures
        forall|kind: ProductKind| #[trigger]
            kind.family() == (match kind {
                ProductKind::F32 => "gemm",
                ProductKind::F32TransposedB => "gemm-nt",
                ProductKind::Bf16 => "bf16 gemm",
                ProductKind::Bf16TransposedB => "bf16 gemm-nt",
            }),
        forall|kind: ProductKind| #[trigger]
            kind.row_blocks() == (if kind == ProductKind::Bf16TransposedB {
                "exceeds u32 row blocks"
            } else {
                "exceeds u32::MAX row blocks"
            }),
        forall|kind: ReductionInput| #[trigger]
            kind.family() == (if kind == ReductionInput::F32 {
                "reduction"
            } else {
                "bf16 reduction"
            }),
        forall|kind: ReductionInput| #[trigger]
            kind.grid_family() == (if kind == ReductionInput::F32 {
                "reduction"
            } else {
                "bf16"
            }),
        forall|kind: RowKind| #[trigger]
            kind.family() == (if kind == RowKind::Softmax {
                "row-softmax"
            } else {
                "rms-norm"
            }),
        forall|kind: HeadKind| #[trigger]
            kind.family() == (if kind == HeadKind::F32 {
                "attention"
            } else {
                "bf16 attention"
            }),
        forall|kind: NormKind| #[trigger]
            kind.family() == (if kind == NormKind::Rms {
                "bf16 rms norm"
            } else {
                "bf16 layer norm"
            }),
{
}

/// Elementwise refusals name the buffer whose length differs.
pub proof fn elementwise_refusals(
    family: Family,
    left: DeviceBuffer,
    right: DeviceBuffer,
    output: DeviceBuffer,
    scale: F32,
    bias: F32,
)
    ensures
        vector_add_plan(family, left, right, output).outcome matches Err(e) ==> {
            if right.len != left.len {
                e == (KernelError::Expected {
                    family: "vector_add",
                    operand: "buffer right has",
                    actual: right.len,
                    expected: left.len,
                })
            } else {
                &&& output.len != left.len
                &&& e == (KernelError::Expected {
                    family: "vector_add",
                    operand: "buffer output has",
                    actual: output.len,
                    expected: left.len,
                })
            }
        },
        scale_plan(family, left, output, scale).outcome matches Err(e) ==> {
            ||| {
                &&& output.len != left.len
                &&& e == (KernelError::Expected {
                    family: "scale",
                    operand: "buffer output has",
                    actual: output.len,
                    expected: left.len,
                })
            }
        },
        affine_plan(family, left, output, scale, bias).outcome matches Err(e) ==> {
            ||| {
                &&& output.len != left.len
                &&& e == (KernelError::Expected {
                    family: "affine",
                    operand: "buffer output has",
                    actual: output.len,
                    expected: left.len,
                })
            }
        },
{
}

/// Packed-bf16 elementwise refusals name the buffer whose length differs.
pub proof fn bf16_elementwise_refusals(
    kernel: Kernel,
    family: Family,
    left: DeviceBuffer,
    right: DeviceBuffer,
    output: DeviceBuffer,
    scale: F32,
    bias: F32,
)
    ensures
        bf16_vector_add_plan(family, left, right, output).outcome matches Err(e) ==> {
            if right.len != left.len {
                e == (KernelError::Expected {
                    family: "bf16",
                    operand: "buffer 1 has",
                    actual: right.len,
                    expected: left.len,
                })
            } else {
                &&& output.len != left.len
                &&& e == (KernelError::Expected {
                    family: "bf16",
                    operand: "buffer 2 has",
                    actual: output.len,
                    expected: left.len,
                })
            }
        },
        unary_plan(kernel, family, left, output).outcome matches Err(e) ==> {
            ||| {
                &&& output.len != left.len
                &&& e == (KernelError::Expected {
                    family: "bf16",
                    operand: "buffer 1 has",
                    actual: output.len,
                    expected: left.len,
                })
            }
        },
        bf16_scale_plan(family, left, output, scale).outcome matches Err(e) ==> {
            ||| {
                &&& output.len != left.len
                &&& e == (KernelError::Expected {
                    family: "bf16",
                    operand: "buffer 1 has",
                    actual: output.len,
                    expected: left.len,
                })
            }
        },
        bf16_affine_plan(family, left, output, scale, bias).outcome matches Err(e) ==> {
            ||| {
                &&& output.len != left.len
                &&& e == (KernelError::Expected {
                    family: "bf16",
                    operand: "buffer 1 has",
                    actual: output.len,
                    expected: left.len,
                })
            }
        },
{
}

/// A refused product breaks the rule that is named, and none that is tested
/// before it.
pub proof fn product_refusals(
    kind: ProductKind,
    family: Family,
    stream: Stream,
    p: Product,
)
    ensures
        product_plan(kind, family, stream, p).outcome matches Err(e) ==> {
            let (b_rows, b_cols) = if kind.transposed() {
                (p.n, p.k)
            } else {
                (p.k, p.n)
            };
            if p.m * p.k > usize::MAX || b_rows * b_cols > usize::MAX || p.m * p.n > usize::MAX {
                e == (KernelError::Rule {
                    family: kind.family(),
                    rule: "shape overflows usize",
                })
            } else if p.matrix_a.len != p.m * p.k {
                e == (KernelError::Shape {
                    family: kind.family(),
                    operand: "matrix_a has",
                    actual: p.matrix_a.len,
                    unit: "elements",
                    rows: p.m,
                    cols: p.k,
                    required: (p.m * p.k) as usize,
                })
            } else if p.matrix_b.len != b_rows * b_cols {
                e == (KernelError::Shape {
                    family: kind.family(),
                    operand: "matrix_b has",
                    actual: p.matrix_b.len,
                    unit: "elements",
                    rows: b_rows,
                    cols: b_cols,
                    required: (b_rows * b_cols) as usize,
                })
            } else if p.output.len != p.m * p.n {
                e == (KernelError::Shape {
                    family: kind.family(),
                    operand: "output has",
                    actual: p.output.len,
                    unit: "elements",
                    rows: p.m,
                    cols: p.n,
                    required: (p.m * p.n) as usize,
                })
            } else if stream.context != family.context || p.matrix_a.context != family.context
                || p.matrix_b.context != family.context || p.output.context != family.context {
                e == (KernelError::Rule {
                    family: kind.family(),
                    rule: "stream, buffers, and kernel must share one context",
                })
            } else if ceil_div(p.m as int, family.width as int) > u32::MAX {
                e == (KernelError::Rule {
                    family: kind.family(),
                    rule: kind.row_blocks(),
                })
            } else {
                &&& ceil_div(p.n as int, family.width as int) > 65_535
                &&& e == (KernelError::ColumnBlocks {
                    family: kind.family(),
                    blocks: ceil_div(p.n as int, family.width as int) as usize,
                    limit: 65_535,
                })
            }
        },
{
}

/// A refused batched product breaks the rule that is named, and none that is
/// tested before it.
pub proof fn batched_refusals(
    family: Family,
    stream: Stream,
    p: Product,
    batches: usize,
    transposed_b: bool,
)
    ensures
        batched_plan(family, stream, p, batches, transposed_b).outcome matches Err(e) ==> {
            let (b_rows, b_cols) = if transposed_b {
                (p.n, p.k)
            } else {
                (p.k, p.n)
            };
            let name = if transposed_b {
                "batched gemm-nt"
            } else {
                "batched gemm"
            };
            if batches == 0 {
                e == KernelError::Fixed("gemm requires at least one batch")
            } else if batches > 65_535 {
                e == (KernelError::BatchBlocks {
                    batches,
                    limit: 65_535,
                })
            } else if batches * p.m > usize::MAX || batches * p.m * p.k > usize::MAX
                || batches * b_rows > usize::MAX || batches * b_rows * b_cols > usize::MAX
                || batches * p.m * p.n > usize::MAX {
                e == KernelError::Fixed("batched gemm shape overflows usize")
            } else if p.matrix_a.len != batches * p.m * p.k {
                e == (KernelError::GroupedShape {
                    family: "batched gemm",
                    operand: "matrix_a has",
                    actual: p.matrix_a.len,
                    groups: batches,
                    unit: "batches",
                    rows: p.m,
                    cols: p.k,
                    required: (batches * p.m * p.k) as usize,
                })
            } else if p.matrix_b.len != batches * b_rows * b_cols {
                e == (KernelError::BatchedOperand {
                    actual: p.matrix_b.len,
                    batches,
                    required: (batches * b_rows * b_cols) as usize,
                })
            } else if p.output.len != batches * p.m * p.n {
                e == (KernelError::GroupedShape {
                    family: "batched gemm",
                    operand: "output has",
                    actual: p.output.len,
                    groups: batches,
                    unit: "batches",
                    rows: p.m,
                    cols: p.n,
                    required: (batches * p.m * p.n) as usize,
                })
            } else if p.matrix_a.context != stream.context
                || p.matrix_b.context != stream.context || p.output.context != stream.context {
                e == KernelError::Fixed(
                    "batched gemm stream and buffers must share one context",
                )
            } else if ceil_div(p.m as int, family.width as int) > u32::MAX {
                e == (KernelError::Rule {
                    family: name,
                    rule: "exceeds u32 row blocks",
                })
            } else {
                &&& ceil_div(p.n as int, family.width as int) > 65_535
                &&& e == (KernelError::ColumnBlocks {
                    family: name,
                    blocks: ceil_div(p.n as int, family.width as int) as usize,
                    limit: 65_535,
                })
            }
        },
{
}

/// A refused matrix-vector product breaks the rule that is named, and none that
/// is tested before it.
pub proof fn gemv_refusals(
    family: Family,
    stream: Stream,
    p: MatrixVector,
)
    ensures
        gemv_plan(family, stream, p).outcome matches Err(e) ==> {
            if p.rows * p.cols > usize::MAX {
                e == KernelError::Fixed("gemv shape overflows usize")
            } else if p.matrix.len != p.rows * p.cols {
                e == (KernelError::Shape {
                    family: "gemv",
                    operand: "matrix has",
                    actual: p.matrix.len,
                    unit: "elements",
                    rows: p.rows,
                    cols: p.cols,
                    required: (p.rows * p.cols) as usize,
                })
            } else if p.vector.len != p.cols {
                e == (KernelError::Length {
                    family: "gemv",
                    operand: "vector has",
                    actual: p.vector.len,
                    unit: "elements",
                    required: p.cols,
                })
            } else if p.output.len != p.rows {
                e == (KernelError::Length {
                    family: "gemv",
                    operand: "output has",
                    actual: p.output.len,
                    unit: "elements",
                    required: p.rows,
                })
            } else if stream.context != family.context || p.matrix.context != family.context
                || p.vector.context != family.context || p.output.context != family.context {
                e == KernelError::Fixed(
                    "gemv stream, buffers, and kernel must share one context",
                )
            } else {
                &&& p.rows > u32::MAX
                &&& e == KernelError::Fixed("gemv exceeds u32::MAX rows")
            }
        },
{
}

/// A refused projection through bf16 weights breaks the rule that is named, and
/// none that is tested before it.
pub proof fn mixed_refusals(
    family: Family,
    stream: Stream,
    p: MixedProjection,
)
    ensures
        mixed_plan(family, stream, p).outcome matches Err(e) ==> {
            if p.k * p.n > usize::MAX {
                e == KernelError::Fixed("f32-bf16 project shape overflows usize")
            } else if p.input.len != p.k {
                e == (KernelError::Length {
                    family: "f32-bf16 project",
                    operand: "input has",
                    actual: p.input.len,
                    unit: "elements",
                    required: p.k,
                })
            } else if p.weight.len != p.k * p.n {
                e == (KernelError::Shape {
                    family: "f32-bf16 project",
                    operand: "weight has",
                    actual: p.weight.len,
                    unit: "elements",
                    rows: p.k,
                    cols: p.n,
                    required: (p.k * p.n) as usize,
                })
            } else if p.output.len != p.n {
                e == (KernelError::Length {
                    family: "f32-bf16 project",
                    operand: "output has",
                    actual: p.output.len,
                    unit: "elements",
                    required: p.n,
                })
            } else {
                &&& {
                    ||| stream.context != family.context
                    ||| p.input.context != family.context
                    ||| p.weight.context != family.context
                    ||| p.output.context != family.context
                }
                &&& e == KernelError::Fixed(
                    "f32-bf16 project stream, buffers and kernel must share one context",
                )
            }
        },
{
}

/// A refused projection through two-bit weights breaks the rule that is named,
/// and none that is tested before it.
pub proof fn int2_refusals(
    family: Family,
    stream: Stream,
    p: Int2Projection,
)
    ensures
        int2_plan(family, stream, p).outcome matches Err(e) ==> {
            if p.k * p.n > usize::MAX {
                e == KernelError::Fixed("f32-int2 project shape overflows usize")
            } else if p.k * p.n + 3 > usize::MAX {
                e == KernelError::Fixed("f32-int2 packed length overflows usize")
            } else if p.input.len != p.k {
                e == (KernelError::Length {
                    family: "f32-int2 project",
                    operand: "input has",
                    actual: p.input.len,
                    unit: "elements",
                    required: p.k,
                })
            } else if p.packed_weight.len != (p.k * p.n + 3) / 4 {
                e == (KernelError::Shape {
                    family: "f32-int2 project",
                    operand: "packed weight has",
                    actual: p.packed_weight.len,
                    unit: "bytes",
                    rows: p.k,
                    cols: p.n,
                    required: ((p.k * p.n + 3) / 4) as usize,
                })
            } else if p.scale.len != 1 {
                e == (KernelError::ScaleCount {
                    actual: p.scale.len,
                })
            } else if p.output.len != p.n {
                e == (KernelError::Length {
                    family: "f32-int2 project",
                    operand: "output has",
                    actual: p.output.len,
                    unit: "elements",
                    required: p.n,
                })
            } else {
                &&& {
                    ||| stream.context != family.context
                    ||| p.input.context != family.context
                    ||| p.packed_weight.context != family.context
                    ||| p.scale.context != family.context
                    ||| p.output.context != family.context
                }
                &&& e == KernelError::Fixed(
                    "f32-int2 project stream, buffers and kernel must share one context",
                )
            }
        },
{
}

/// A refused projection through sparse columns breaks the rule that is named,
/// and none that is tested before it.
pub proof fn sparse_refusals(
    family: Family,
    stream: Stream,
    p: SparseProjection,
)
    ensures
        sparse_plan(family, stream, p).outcome matches Err(e) ==> {
            if p.input.len != p.k {
                e == (KernelError::Length {
                    family: "f32-sparse-csc project",
                    operand: "input has",
                    actual: p.input.len,
                    unit: "elements",
                    required: p.k,
                })
            } else if p.n + 1 > usize::MAX {
                e == KernelError::Fixed("f32-sparse-csc offset count overflows usize")
            } else if p.column_offsets.len != p.n + 1 {
                e == (KernelError::Length {
                    family: "f32-sparse-csc",
                    operand: "column offsets has",
                    actual: p.column_offsets.len,
                    unit: "entries",
                    required: (p.n + 1) as usize,
                })
            } else if p.row_indices.len != p.values.len {
                e == (KernelError::SparseEntries {
                    indices: p.row_indices.len,
                    values: p.values.len,
                })
            } else if p.k == 0 && p.values.len != 0 {
                e == KernelError::Fixed("f32-sparse-csc cannot retain values when K is zero")
            } else if p.output.len != p.n {
                e == (KernelError::Length {
                    family: "f32-sparse-csc project",
                    operand: "output has",
                    actual: p.output.len,
                    unit: "elements",
                    required: p.n,
                })
            } else {
                &&& {
                    ||| stream.context != family.context
                    ||| p.input.context != family.context
                    ||| p.column_offsets.context != family.context
                    ||| p.row_indices.context != family.context
                    ||| p.values.context != family.context
                    ||| p.output.context != family.context
                }
                &&& e == KernelError::Fixed(
                    "f32-sparse-csc project stream, buffers and kernel must share one context",
                )
            }
        },
{
}

/// A refused rotation breaks the rule that is named, and none that is tested
/// before it.
pub proof fn rotation_refusals(
    kernel: Kernel,
    family: Family,
    stream: Stream,
    p: Rotation,
)
    ensures
        rope_plan(kernel, family, stream, p).outcome matches Err(e) ==> {
            if p.cols % 2 != 0 {
                e == (KernelError::OddWidth {
                    cols: p.cols,
                })
            } else if p.rows * p.cols > usize::MAX {
                e == KernelError::Fixed("rope shape overflows usize")
            } else if p.input.len != p.rows * p.cols {
                e == (KernelError::Shape {
                    family: "rope",
                    operand: "input has",
                    actual: p.input.len,
                    unit: "elements",
                    rows: p.rows,
                    cols: p.cols,
                    required: (p.rows * p.cols) as usize,
                })
            } else if p.output.len != p.rows * p.cols {
                e == (KernelError::Shape {
                    family: "rope",
                    operand: "output has",
                    actual: p.output.len,
                    unit: "elements",
                    rows: p.rows,
                    cols: p.cols,
                    required: (p.rows * p.cols) as usize,
                })
            } else if p.cos.len != p.rows * (p.cols / 2) {
                e == (KernelError::Holds {
                    family: "rope",
                    operand: "cos cache",
                    actual: p.cos.len,
                    requirement: "expected",
                    expected: (p.rows * (p.cols / 2)) as usize,
                })
            } else if p.sin.len != p.rows * (p.cols / 2) {
                e == (KernelError::Holds {
                    family: "rope",
                    operand: "sin cache",
                    actual: p.sin.len,
                    requirement: "expected",
                    expected: (p.rows * (p.cols / 2)) as usize,
                })
            } else {
                &&& {
                    ||| stream.context != family.context
                    ||| p.input.context != family.context
                    ||| p.output.context != family.context
                    ||| p.cos.context != family.context
                    ||| p.sin.context != family.context
                }
                &&& e == KernelError::Fixed(
                    "rope stream, buffers, and kernels must share one context",
                )
            }
        },
{
}

/// A refused row operation breaks the rule that is named, and none that is
/// tested before it.
pub proof fn row_refusals(
    family: Family,
    stream: Stream,
    r: Rows,
    epsilon: F32,
    gamma: F32,
    workspace: RowWorkspace,
    probe: Probe,
)
    ensures
        softmax_rows_plan(family, stream, r, workspace).outcome matches Err(e) ==> {
            if r.rows * r.cols > usize::MAX {
                e == (KernelError::Rule {
                    family: "row-softmax",
                    rule: "shape overflows usize",
                })
            } else if r.input.len != r.rows * r.cols {
                e == (KernelError::Shape {
                    family: "row-softmax",
                    operand: "input has",
                    actual: r.input.len,
                    unit: "elements",
                    rows: r.rows,
                    cols: r.cols,
                    required: (r.rows * r.cols) as usize,
                })
            } else if r.output.len != r.rows * r.cols {
                e == (KernelError::Shape {
                    family: "row-softmax",
                    operand: "output has",
                    actual: r.output.len,
                    unit: "elements",
                    rows: r.rows,
                    cols: r.cols,
                    required: (r.rows * r.cols) as usize,
                })
            } else if stream.context != family.context || r.input.context != family.context
                || r.output.context != family.context {
                e == (KernelError::Rule {
                    family: "row-softmax",
                    rule: "stream, buffers, and kernels must share one context",
                })
            } else if r.rows > workspace.max_rows {
                e == (KernelError::WorkspaceCapacity {
                    family: "row-softmax",
                    operand: "has",
                    actual: r.rows,
                    unit: "rows",
                    capacity: workspace.max_rows,
                })
            } else if workspace.scalars.context != family.context {
                e == (KernelError::Rule {
                    family: "row-softmax",
                    rule: "stream, buffers, and kernels must share one context",
                })
            } else {
                &&& r.rows > u32::MAX
                &&& e == (KernelError::Rule {
                    family: "row-softmax",
                    rule: "exceeds u32::MAX rows",
                })
            }
        },
        fused_softmax_plan(family, stream, r, probe).outcome matches Err(e) ==> {
            if r.rows * r.cols > usize::MAX {
                e == (KernelError::Rule {
                    family: "row-softmax",
                    rule: "shape overflows usize",
                })
            } else if r.input.len != r.rows * r.cols {
                e == (KernelError::Shape {
                    family: "row-softmax",
                    operand: "input has",
                    actual: r.input.len,
                    unit: "elements",
                    rows: r.rows,
                    cols: r.cols,
                    required: (r.rows * r.cols) as usize,
                })
            } else if r.output.len != r.rows * r.cols {
                e == (KernelError::Shape {
                    family: "row-softmax",
                    operand: "output has",
                    actual: r.output.len,
                    unit: "elements",
                    rows: r.rows,
                    cols: r.cols,
                    required: (r.rows * r.cols) as usize,
                })
            } else if stream.context != family.context || r.input.context != family.context
                || r.output.context != family.context {
                e == (KernelError::Rule {
                    family: "row-softmax",
                    rule: "stream, buffers, and kernels must share one context",
                })
            } else if probe is Err {
                e == KernelError::Device(probe->Err_0)
            } else if 4 * r.cols + 4 * family.width > usize::MAX {
                e == (KernelError::Rule {
                    family: "fused row softmax",
                    rule: "shared size overflows",
                })
            } else if probe is Ok
                && probe->Ok_0.max_dynamic_shared_memory_bytes < 4 * r.cols + 4 * family.width {
                e == (KernelError::FusedRow {
                    path: "fused row softmax",
                    required: (4 * r.cols + 4 * family.width) as usize,
                    cols: r.cols,
                    limit: probe->Ok_0.max_dynamic_shared_memory_bytes,
                })
            } else {
                &&& r.rows > u32::MAX
                &&& e == (KernelError::Rule {
                    family: "row-softmax",
                    rule: "exceeds u32::MAX rows",
                })
            }
        },
        rms_rows_plan(family, stream, r, epsilon, gamma, workspace).outcome matches Err(e) ==> {
            if r.rows * r.cols > usize::MAX {
                e == (KernelError::Rule {
                    family: "rms-norm",
                    rule: "shape overflows usize",
                })
            } else if r.input.len != r.rows * r.cols {
                e == (KernelError::Shape {
                    family: "rms-norm",
                    operand: "input has",
                    actual: r.input.len,
                    unit: "elements",
                    rows: r.rows,
                    cols: r.cols,
                    required: (r.rows * r.cols) as usize,
                })
            } else if r.output.len != r.rows * r.cols {
                e == (KernelError::Shape {
                    family: "rms-norm",
                    operand: "output has",
                    actual: r.output.len,
                    unit: "elements",
                    rows: r.rows,
                    cols: r.cols,
                    required: (r.rows * r.cols) as usize,
                })
            } else if stream.context != family.context || r.input.context != family.context
                || r.output.context != family.context {
                e == (KernelError::Rule {
                    family: "rms-norm",
                    rule: "stream, buffers, and kernels must share one context",
                })
            } else if r.rows > workspace.max_rows {
                e == (KernelError::WorkspaceCapacity {
                    family: "rms-norm",
                    operand: "has",
                    actual: r.rows,
                    unit: "rows",
                    capacity: workspace.max_rows,
                })
            } else if workspace.scalars.context != family.context {
                e == (KernelError::Rule {
                    family: "rms-norm",
                    rule: "stream, buffers, and kernels must share one context",
                })
            } else {
                &&& r.rows > u32::MAX
                &&& e == (KernelError::Rule {
                    family: "rms-norm",
                    rule: "exceeds u32::MAX rows",
                })
            }
        },
        fused_rms_plan(family, stream, r, epsilon, gamma, probe).outcome matches Err(e) ==> {
            if r.rows * r.cols > usize::MAX {
                e == (KernelError::Rule {
                    family: "rms-norm",
                    rule: "shape overflows usize",
                })
            } else if r.input.len != r.rows * r.cols {
                e == (KernelError::Shape {
                    family: "rms-norm",
                    operand: "input has",
                    actual: r.input.len,
                    unit: "elements",
                    rows: r.rows,
                    cols: r.cols,
                    required: (r.rows * r.cols) as usize,
                })
            } else if r.output.len != r.rows * r.cols {
                e == (KernelError::Shape {
                    family: "rms-norm",
                    operand: "output has",
                    actual: r.output.len,
                    unit: "elements",
                    rows: r.rows,
                    cols: r.cols,
                    required: (r.rows * r.cols) as usize,
                })
            } else if stream.context != family.context || r.input.context != family.context
                || r.output.context != family.context {
                e == (KernelError::Rule {
                    family: "rms-norm",
                    rule: "stream, buffers, and kernels must share one context",
                })
            } else if probe is Err {
                e == KernelError::Device(probe->Err_0)
            } else if 4 * r.cols + 4 * family.width > usize::MAX {
                e == (KernelError::Rule {
                    family: "fused rms norm",
                    rule: "shared size overflows",
                })
            } else if probe is Ok
                && probe->Ok_0.max_dynamic_shared_memory_bytes < 4 * r.cols + 4 * family.width {
                e == (KernelError::FusedRow {
                    path: "fused rms norm",
                    required: (4 * r.cols + 4 * family.width) as usize,
                    cols: r.cols,
                    limit: probe->Ok_0.max_dynamic_shared_memory_bytes,
                })
            } else {
                &&& r.rows > u32::MAX
                &&& e == (KernelError::Rule {
                    family: "rms-norm",
                    rule: "exceeds u32::MAX rows",
                })
            }
        },
{
}

/// The bytes of shared memory that fused attention asks for, or none where
/// they are not countable.
pub open spec fn shared_size(width: u32, h: Heads) -> usize {
    let floats = width * h.head_dim + width * h.value_dim + width * 2 + h.head_dim + h.value_dim;
    if floats * 4 <= usize::MAX {
        (floats * 4) as usize
    } else {
        0
    }
}

/// Refused fused attention breaks the rule that is named, and none that is
/// tested before it.
pub proof fn fused_attention_refusals(
    kind: HeadKind,
    family: Family,
    stream: Stream,
    h: Heads,
    heads: usize,
    scale: F32,
    mask: AttentionMask,
    probe: Probe,
)
    ensures
        fused_plan(kind, family, stream, h, scale, mask, probe).outcome matches Err(e) ==> {
            if h.head_dim == 0 || h.kv_rows == 0 || h.value_dim == 0 {
                e == (KernelError::EmptyHead {
                    family: kind.family(),
                    head_dim: h.head_dim,
                    kv_rows: h.kv_rows,
                    value_dim: h.value_dim,
                })
            } else if h.query_rows * h.head_dim > usize::MAX
                || h.kv_rows * h.head_dim > usize::MAX || h.kv_rows * h.value_dim > usize::MAX
                || h.query_rows * h.value_dim > usize::MAX {
                e == (KernelError::Rule {
                    family: kind.family(),
                    rule: "shape overflows usize",
                })
            } else if h.queries.len != h.query_rows * h.head_dim {
                e == (KernelError::Shape {
                    family: kind.family(),
                    operand: "queries have",
                    actual: h.queries.len,
                    unit: "elements",
                    rows: h.query_rows,
                    cols: h.head_dim,
                    required: (h.query_rows * h.head_dim) as usize,
                })
            } else if h.keys.len != h.kv_rows * h.head_dim {
                e == (KernelError::Shape {
                    family: kind.family(),
                    operand: "keys have",
                    actual: h.keys.len,
                    unit: "elements",
                    rows: h.kv_rows,
                    cols: h.head_dim,
                    required: (h.kv_rows * h.head_dim) as usize,
                })
            } else if h.values.len != h.kv_rows * h.value_dim {
                e == (KernelError::Shape {
                    family: kind.family(),
                    operand: "values have",
                    actual: h.values.len,
                    unit: "elements",
                    rows: h.kv_rows,
                    cols: h.value_dim,
                    required: (h.kv_rows * h.value_dim) as usize,
                })
            } else if h.output.len != h.query_rows * h.value_dim {
                e == (KernelError::Shape {
                    family: kind.family(),
                    operand: "output has",
                    actual: h.output.len,
                    unit: "elements",
                    rows: h.query_rows,
                    cols: h.value_dim,
                    required: (h.query_rows * h.value_dim) as usize,
                })
            } else if stream.context != family.context || h.queries.context != family.context
                || h.keys.context != family.context || h.values.context != family.context
                || h.output.context != family.context {
                e == (KernelError::Rule {
                    family: kind.family(),
                    rule: "stream, buffers, and kernel must share one context",
                })
            } else if mask == AttentionMask::Causal && h.query_rows != h.kv_rows {
                e == (KernelError::CausalShape {
                    query_rows: h.query_rows,
                    kv_rows: h.kv_rows,
                })
            } else if !head_stays(family.width, h, probe) {
                e == (KernelError::FusedHead {
                    family: kind.family(),
                    required: shared_size(family.width, h),
                    head_dim: h.head_dim,
                    value_dim: h.value_dim,
                    block_size: family.width,
                })
            } else {
                &&& h.query_rows > u32::MAX
                &&& e == (KernelError::Rule {
                    family: kind.family(),
                    rule: "exceeds u32::MAX query rows",
                })
            }
        },
        fused_multihead_plan(
            kind,
            family,
            stream,
            h,
            heads,
            scale,
            mask,
            probe,
        ).outcome matches Err(e) ==> {
            if heads == 0 {
                e == (KernelError::Rule {
                    family: kind.family(),
                    rule: "requires at least one head",
                })
            } else if heads * h.query_rows > usize::MAX
                || heads * h.query_rows * h.head_dim > usize::MAX
                || heads * h.kv_rows > usize::MAX || heads * h.kv_rows * h.head_dim > usize::MAX
                || heads * h.kv_rows * h.value_dim > usize::MAX
                || heads * h.query_rows * h.value_dim > usize::MAX {
                e == (KernelError::Rule {
                    family: kind.family(),
                    rule: "shape overflows usize",
                })
            } else if h.queries.len != heads * h.query_rows * h.head_dim {
                e == (KernelError::GroupedShape {
                    family: kind.family(),
                    operand: "queries have",
                    actual: h.queries.len,
                    groups: heads,
                    unit: "heads",
                    rows: h.query_rows,
                    cols: h.head_dim,
                    required: (heads * h.query_rows * h.head_dim) as usize,
                })
            } else if h.keys.len != heads * h.kv_rows * h.head_dim {
                e == (KernelError::GroupedShape {
                    family: kind.family(),
                    operand: "keys have",
                    actual: h.keys.len,
                    groups: heads,
                    unit: "heads",
                    rows: h.kv_rows,
                    cols: h.head_dim,
                    required: (heads * h.kv_rows * h.head_dim) as usize,
                })
            } else if h.values.len != heads * h.kv_rows * h.value_dim {
                e == (KernelError::GroupedShape {
                    family: kind.family(),
                    operand: "values have",
                    actual: h.values.len,
                    groups: heads,
                    unit: "heads",
                    rows: h.kv_rows,
                    cols: h.value_dim,
                    required: (heads * h.kv_rows * h.value_dim) as usize,
                })
            } else if h.output.len != heads * h.query_rows * h.value_dim {
                e == (KernelError::GroupedShape {
                    family: kind.family(),
                    operand: "output has",
                    actual: h.output.len,
                    groups: heads,
                    unit: "heads",
                    rows: h.query_rows,
                    cols: h.value_dim,
                    required: (heads * h.query_rows * h.value_dim) as usize,
                })
            } else if stream.context != family.context || h.queries.context != family.context
                || h.keys.context != family.context || h.values.context != family.context
                || h.output.context != family.context {
                e == (KernelError::Rule {
                    family: kind.family(),
                    rule: "stream, buffers, and kernel must share one context",
                })
            } else if mask == AttentionMask::Causal && h.query_rows != h.kv_rows {
                e == (KernelError::CausalShape {
                    query_rows: h.query_rows,
                    kv_rows: h.kv_rows,
                })
            } else if !head_stays(family.width, h, probe) {
                e == (KernelError::FusedHead {
                    family: kind.family(),
                    required: shared_size(family.width, h),
                    head_dim: h.head_dim,
                    value_dim: h.value_dim,
                    block_size: family.width,
                })
            } else {
                &&& heads * h.query_rows > u32::MAX
                &&& e == (KernelError::Rule {
                    family: kind.family(),
                    rule: "exceeds u32::MAX head-by-query blocks",
                })
            }
        },
{
}

/// A refused causal scaling breaks the rule that is named, and none that is
/// tested before it.
pub proof fn causal_scaling_refusals(
    family: Family,
    stream: Stream,
    scores: DeviceBuffer,
    output: DeviceBuffer,
    elements: usize,
    query_rows: usize,
    kv_rows: usize,
    scale: F32,
)
    ensures
        scale_causal_plan(
            family,
            stream,
            scores,
            output,
            query_rows,
            kv_rows,
            scale,
        ).outcome matches Err(e) ==> {
            if query_rows * kv_rows > usize::MAX {
                e == (KernelError::Rule {
                    family: "attention",
                    rule: "shape overflows usize",
                })
            } else if scores.len != query_rows * kv_rows || output.len != query_rows * kv_rows {
                e == (KernelError::PairShape {
                    family: "attention",
                    operand: "scale-causal buffers have",
                    first: scores.len,
                    second: output.len,
                    rows: query_rows,
                    cols: kv_rows,
                    required: (query_rows * kv_rows) as usize,
                })
            } else {
                &&& {
                    ||| stream.context != family.context
                    ||| scores.context != family.context
                    ||| output.context != family.context
                }
                &&& e == KernelError::Fixed(
                    "attention scale-causal stream and buffers must share one context",
                )
            }
        },
        multihead_scale_causal_plan(
            family,
            stream,
            scores,
            output,
            elements,
            query_rows,
            kv_rows,
            scale,
        ).outcome matches Err(e) ==> {
            if scores.len != elements || output.len != elements {
                e == (KernelError::PairLength {
                    family: "attention",
                    operand: "multi-head scale-causal buffers have",
                    first: scores.len,
                    second: output.len,
                    required: elements,
                })
            } else {
                &&& {
                    ||| stream.context != family.context
                    ||| scores.context != family.context
                    ||| output.context != family.context
                }
                &&& e == KernelError::Fixed(
                    "attention multi-head scale-causal stream and buffers must share one context",
                )
            }
        },
{
}

/// A refused gather breaks the rule that is named, and none that is tested
/// before it.
pub proof fn gather_refusals(
    family: Family,
    stream: Stream,
    p: Lookup,
)
    ensures
        gather_plan(family, stream, p).outcome matches Err(e) ==> {
            if p.rows * p.cols > usize::MAX {
                e == (KernelError::Rule {
                    family: "gather",
                    rule: "shape overflows usize",
                })
            } else if p.table.len != p.rows * p.cols {
                e == (KernelError::Shape {
                    family: "gather",
                    operand: "table has",
                    actual: p.table.len,
                    unit: "elements",
                    rows: p.rows,
                    cols: p.cols,
                    required: (p.rows * p.cols) as usize,
                })
            } else if p.indices.len * p.cols > usize::MAX {
                e == (KernelError::Rule {
                    family: "gather",
                    rule: "shape overflows usize",
                })
            } else if p.output.len != (p.indices.len * p.cols) as usize {
                e == (KernelError::RowProduct {
                    family: "gather",
                    operand: "output has",
                    actual: p.output.len,
                    rows: p.indices.len,
                    unit: "indices",
                    cols: p.cols,
                    required: (p.indices.len * p.cols) as usize,
                })
            } else {
                &&& {
                    ||| stream.context != family.context
                    ||| p.table.context != family.context
                    ||| p.indices.context != family.context
                    ||| p.output.context != family.context
                }
                &&& e == (KernelError::Rule {
                    family: "gather",
                    rule: "stream, buffers, and kernel must share one context",
                })
            }
        },
        bf16_gather_plan(family, stream, p).outcome matches Err(e) ==> {
            let gathered = if p.indices.len * p.cols > usize::MAX {
                usize::MAX
            } else {
                (p.indices.len * p.cols) as usize
            };
            if stream.context != family.context || p.table.context != family.context
                || p.indices.context != family.context || p.output.context != family.context {
                e == (KernelError::Rule {
                    family: "bf16 gather",
                    rule: "stream, buffers, and kernel must share one context",
                })
            } else if p.rows * p.cols > usize::MAX {
                e == (KernelError::Rule {
                    family: "bf16 gather",
                    rule: "shape overflows usize",
                })
            } else if p.table.len != p.rows * p.cols {
                e == (KernelError::Shape {
                    family: "bf16 gather",
                    operand: "table has",
                    actual: p.table.len,
                    unit: "elements",
                    rows: p.rows,
                    cols: p.cols,
                    required: (p.rows * p.cols) as usize,
                })
            } else {
                &&& p.output.len != gathered
                &&& e == (KernelError::RowProduct {
                    family: "bf16 gather",
                    operand: "output has",
                    actual: p.output.len,
                    rows: p.indices.len,
                    unit: "indices",
                    cols: p.cols,
                    required: gathered,
                })
            }
        },
{
}

/// A refused scatter breaks the rule that is named, and none that is tested
/// before it.
pub proof fn scatter_refusals(
    name: &'static str,
    kernel: Kernel,
    family: Family,
    stream: Stream,
    p: Placement,
)
    ensures
        scatter_plan(name, kernel, family, stream, p).outcome matches Err(e) ==> {
            if stream.context != family.context || p.source.context != family.context
                || p.positions.context != family.context || p.output.context != family.context {
                e == (KernelError::Rule {
                    family: name,
                    rule: "stream, buffers, and kernel must share one context",
                })
            } else if p.positions.len * p.cols > usize::MAX {
                e == (KernelError::Rule {
                    family: name,
                    rule: "shape overflows usize",
                })
            } else if p.source.len != p.positions.len * p.cols {
                e == (KernelError::RowProduct {
                    family: name,
                    operand: "source has",
                    actual: p.source.len,
                    rows: p.positions.len,
                    unit: "positions",
                    cols: p.cols,
                    required: (p.positions.len * p.cols) as usize,
                })
            } else if p.output_rows * p.cols > usize::MAX {
                e == (KernelError::Rule {
                    family: name,
                    rule: "shape overflows usize",
                })
            } else {
                &&& p.output.len != p.output_rows * p.cols
                &&& e == (KernelError::Shape {
                    family: name,
                    operand: "output has",
                    actual: p.output.len,
                    unit: "elements",
                    rows: p.output_rows,
                    cols: p.cols,
                    required: (p.output_rows * p.cols) as usize,
                })
            }
        },
{
}

/// A refused argmax projection breaks the rule that is named, and none that is
/// tested before it.
pub proof fn argmax_refusals(
    family: Family,
    stream: Stream,
    p: ArgmaxProjection,
    workspace: CandidateWorkspace,
)
    ensures
        argmax_plan(family, stream, p, workspace).outcome matches Err(e) ==> {
            if p.vocab == 0 {
                e == KernelError::Fixed("LM-head argmax vocabulary must be non-zero")
            } else if p.vocab > u32::MAX {
                e == KernelError::Fixed("LM-head argmax vocabulary exceeds u32::MAX")
            } else if p.k * p.vocab > usize::MAX {
                e == KernelError::Fixed("LM-head argmax shape overflows usize")
            } else if p.input.len != p.k {
                e == (KernelError::Length {
                    family: "LM-head argmax",
                    operand: "input has",
                    actual: p.input.len,
                    unit: "elements",
                    required: p.k,
                })
            } else if p.weight.len != p.k * p.vocab {
                e == (KernelError::Shape {
                    family: "LM-head argmax",
                    operand: "weight has",
                    actual: p.weight.len,
                    unit: "elements",
                    rows: p.k,
                    cols: p.vocab,
                    required: (p.k * p.vocab) as usize,
                })
            } else if p.output_value.len != 1 || p.output_index.len != 1 {
                e == (KernelError::CandidateOutputs {
                    values: p.output_value.len,
                    indices: p.output_index.len,
                })
            } else if workspace.vocab != p.vocab || workspace.block_size != family.width {
                e == KernelError::Fixed(
                    "LM-head argmax workspace shape or block size does not match the operation",
                )
            } else {
                &&& {
                    ||| stream.context != family.context
                    ||| p.input.context != family.context
                    ||| p.weight.context != family.context
                    ||| p.output_value.context != family.context
                    ||| p.output_index.context != family.context
                    ||| workspace.values.context != family.context
                    ||| workspace.indices.context != family.context
                }
                &&& e == KernelError::Fixed(
                    "LM-head argmax stream, buffers, workspace and kernel must share one context",
                )
            }
        },
{
}

/// A refused selection breaks the rule that is named, and none that is tested
/// before it.
pub proof fn selection_refusals(
    family: Family,
    stream: Stream,
    s: Selection,
    workspace: SelectionWorkspace,
)
    requires
        family.width > 0,
    ensures
        selection_plan(family, stream, s, workspace).outcome matches Err(e) ==> {
            if s.k == 0 {
                e == KernelError::Fixed("top-k requires at least one element")
            } else if s.input.len < s.k {
                e == (KernelError::SelectionLength {
                    input: s.input.len,
                    k: s.k,
                })
            } else if s.input.len > u32::MAX {
                e == KernelError::Fixed("top-k input length exceeds u32::MAX")
            } else if s.values.len != s.k || s.indices.len != s.k {
                e == (KernelError::SelectionOutputs {
                    k: s.k,
                    values: s.values.len,
                    indices: s.indices.len,
                })
            } else if s.input.len > workspace.max_elements {
                e == (KernelError::WorkspaceCapacity {
                    family: "top-k",
                    operand: "input has",
                    actual: s.input.len,
                    unit: "elements",
                    capacity: workspace.max_elements,
                })
            } else if workspace.block_size != family.width {
                e == (KernelError::WorkspaceBlockSize {
                    workspace: workspace.block_size,
                    family: "top-k",
                    block_size: family.width,
                })
            } else {
                &&& {
                    ||| stream.context != family.context
                    ||| s.input.context != family.context
                    ||| s.values.context != family.context
                    ||| s.indices.context != family.context
                    ||| workspace.data.context != family.context
                }
                &&& e == (KernelError::Rule {
                    family: "top-k",
                    rule: "stream, buffers, workspace, and kernel must share one context",
                })
            }
        },
{
    selection_runs_or_submits_nothing(family, stream, s, workspace);
}

/// A refused reduction breaks the rule that is named, and none that is tested
/// before it.
pub proof fn reduction_refusals(
    kind: ReductionInput,
    op: ReductionOp,
    family: Family,
    stream: Stream,
    input: DeviceBuffer,
    output: DeviceBuffer,
    workspace: TreeWorkspace,
)
    requires
        family.width > 0,
    ensures
        reduction_plan(
            kind,
            op,
            family,
            stream,
            input,
            output,
            workspace,
        ).outcome matches Err(e) ==> {
            if output.len != 1 {
                e == (KernelError::Expected {
                    family: kind.family(),
                    operand: "output has",
                    actual: output.len,
                    expected: 1,
                })
            } else if input.len > workspace.max_elements {
                e == (KernelError::WorkspaceCapacity {
                    family: kind.family(),
                    operand: "input has",
                    actual: input.len,
                    unit: "elements",
                    capacity: workspace.max_elements,
                })
            } else if workspace.block_size != family.width {
                e == (KernelError::WorkspaceBlockSize {
                    workspace: workspace.block_size,
                    family: "reduction",
                    block_size: family.width,
                })
            } else if stream.context != family.context || input.context != family.context
                || output.context != family.context
                || workspace.scratch_a.context != family.context {
                e == (KernelError::Rule {
                    family: kind.family(),
                    rule: "stream, buffers, workspace, and kernel must share one context",
                })
            } else {
                &&& ceil_div(input.len as int, 2 * family.width as int) > u32::MAX
                &&& e == (KernelError::Rule {
                    family: kind.grid_family(),
                    rule: "grid exceeds u32::MAX blocks",
                })
            }
        },
{
    reduction_runs_or_submits_nothing(kind, op, family, stream, input, output, workspace);
}

/// A softmax whose operands are refused breaks the rule that is named, and none
/// that is tested before it.
pub proof fn softmax_refusals(
    family: Family,
    stream: Stream,
    o: SoftmaxOperands,
)
    ensures
        softmax_check(family, stream, o) matches Err(e) ==> {
            if o.input.len != o.output.len {
                e == (KernelError::SoftmaxLengths {
                    input: o.input.len,
                    output: o.output.len,
                })
            } else if o.max_scratch.len != 1 {
                e == (KernelError::Holds {
                    family: "softmax",
                    operand: "max_scratch",
                    actual: o.max_scratch.len,
                    requirement: "expected exactly",
                    expected: 1,
                })
            } else if o.sum_scratch.len != 1 {
                e == (KernelError::Holds {
                    family: "softmax",
                    operand: "sum_scratch",
                    actual: o.sum_scratch.len,
                    requirement: "expected exactly",
                    expected: 1,
                })
            } else if o.max_scratch.id == o.sum_scratch.id {
                e == KernelError::Fixed(
                    "softmax max_scratch and sum_scratch must be distinct buffers",
                )
            } else {
                &&& {
                    ||| stream.context != family.context
                    ||| o.input.context != family.context
                    ||| o.output.context != family.context
                    ||| o.max_scratch.context != family.context
                    ||| o.sum_scratch.context != family.context
                }
                &&& e == KernelError::Fixed(
                    "softmax stream, buffers, and kernels must share one context",
                )
            }
        },
{
}

/// Composed attention whose shape is refused breaks the rule that is named, and
/// none that is tested before it.
pub proof fn composed_refusals(
    h: Heads,
    mask: AttentionMask,
)
    ensures
        composed_check(h, mask) matches Err(e) ==> {
            if h.head_dim == 0 || h.kv_rows == 0 || h.value_dim == 0 {
                e == (KernelError::EmptyHead {
                    family: "attention",
                    head_dim: h.head_dim,
                    kv_rows: h.kv_rows,
                    value_dim: h.value_dim,
                })
            } else if mask == AttentionMask::Causal && h.query_rows != h.kv_rows {
                e == (KernelError::CausalShape {
                    query_rows: h.query_rows,
                    kv_rows: h.kv_rows,
                })
            } else if h.query_rows * h.kv_rows > usize::MAX
                || h.query_rows * h.head_dim > usize::MAX || h.kv_rows * h.head_dim > usize::MAX
                || h.kv_rows * h.value_dim > usize::MAX
                || h.query_rows * h.value_dim > usize::MAX {
                e == (KernelError::Rule {
                    family: "attention",
                    rule: "shape overflows usize",
                })
            } else {
                &&& {
                    ||| h.queries.len != h.query_rows * h.head_dim
                    ||| h.keys.len != h.kv_rows * h.head_dim
                    ||| h.values.len != h.kv_rows * h.value_dim
                    ||| h.output.len != h.query_rows * h.value_dim
                }
                &&& e == (KernelError::HeadShapes {
                    queries: (h.query_rows * h.head_dim) as usize,
                    keys: (h.kv_rows * h.head_dim) as usize,
                    values: (h.kv_rows * h.value_dim) as usize,
                    output: (h.query_rows * h.value_dim) as usize,
                })
            }
        },
{
}

/// Composed attention refuses what the fused kernel refuses for its shape, its
/// contexts or its mask, with the same words and before anything is submitted.
pub proof fn composed_attention_refuses_what_fused_does(
    families: QuantizedFamilies,
    f: ComposedFamilies,
    conversions: Family,
    stream: Stream,
    h: Heads,
    heads: usize,
    scale: F32,
    mask: AttentionMask,
    probe: Probe,
    probes: FusedProbes,
)
    ensures
        ({
            let fused = fused_plan(
                HeadKind::Bf16,
                families.family,
                stream,
                h,
                scale,
                mask,
                probe,
            );
            fused.outcome matches Err(e) ==> {
                ||| e is FusedHead
                ||| h.query_rows > u32::MAX
                ||| {
                    &&& quantized_plan(families, stream, h, scale, mask, probes) == fused
                    &&& bf16_composed_plan(
                        families.family,
                        conversions,
                        f,
                        stream,
                        h,
                        scale,
                        mask,
                        probes,
                    ) == fused
                    &&& fused.steps.len() == 0
                }
            }
        }),
        ({
            let fused = fused_multihead_plan(
                HeadKind::Bf16,
                families.family,
                stream,
                h,
                heads,
                scale,
                mask,
                probe,
            );
            fused.outcome matches Err(e) ==> {
                ||| e is FusedHead
                ||| heads * h.query_rows > u32::MAX
                ||| {
                    &&& bf16_composed_multihead_plan(
                        families.family,
                        conversions,
                        f,
                        stream,
                        h,
                        heads,
                        scale,
                        mask,
                        probes,
                    ) == fused
                    &&& fused.steps.len() == 0
                }
            }
        }),
        ({
            let fused = fused_multihead_plan(
                HeadKind::F32,
                f.attention,
                stream,
                h,
                heads,
                scale,
                mask,
                probe,
            );
            fused.outcome matches Err(e) ==> {
                ||| e is FusedHead
                ||| heads * h.query_rows > u32::MAX
                ||| {
                    &&& composed_multihead_plan(f, stream, h, heads, scale, mask, probes) == fused
                    &&& fused.steps.len() == 0
                }
            }
        }),
{
}

/// A refused normalization of packed bf16 breaks the rule that is named, and
/// none that is tested before it.
pub proof fn norm_refusals(
    kind: NormKind,
    stream: Stream,
    r: Rows,
)
    ensures
        norm_check(kind, stream, r) matches Err(e) ==> {
            if r.rows == 0 || r.cols == 0 {
                e == (KernelError::EmptyRows {
                    family: kind.family(),
                    rows: r.rows,
                    cols: r.cols,
                })
            } else if r.rows * r.cols > usize::MAX {
                e == KernelError::Fixed("bf16 norm shape overflows usize")
            } else if r.input.len != r.rows * r.cols || r.output.len != r.rows * r.cols {
                e == (KernelError::PairShape {
                    family: kind.family(),
                    operand: "buffers have",
                    first: r.input.len,
                    second: r.output.len,
                    rows: r.rows,
                    cols: r.cols,
                    required: (r.rows * r.cols) as usize,
                })
            } else {
                &&& {
                    ||| r.input.context != stream.context
                    ||| r.output.context != stream.context
                }
                &&& e == (KernelError::Rule {
                    family: kind.family(),
                    rule: "stream and buffers must share one context",
                })
            }
        },
{
}

/// A refused workspace breaks the rule that is named, and none that is tested
/// before it.
pub proof fn workspace_refusals(
    rows: RowKind,
    kind: ReductionInput,
    family: Family,
    context: ContextId,
    vocab: usize,
)
    ensures
        row_workspace_check(rows, family, context) matches Err(e) ==> {
            ||| {
                &&& context != family.context
                &&& e == (KernelError::Rule {
                    family: rows.family(),
                    rule: "and workspace contexts do not match",
                })
            }
        },
        workspace_check(kind, family, context) matches Err(e) ==> {
            ||| {
                &&& context != family.context
                &&& e == (KernelError::Rule {
                    family: kind.family(),
                    rule: "and workspace contexts do not match",
                })
            }
        },
        selection_workspace_check(family, context) matches Err(e) ==> {
            ||| {
                &&& context != family.context
                &&& e == (KernelError::Rule {
                    family: "top-k",
                    rule: "and workspace contexts do not match",
                })
            }
        },
        candidate_workspace_check(family, context, vocab) matches Err(e) ==> {
            if vocab == 0 {
                e == KernelError::Fixed("LM-head argmax vocabulary must be non-zero")
            } else if vocab > u32::MAX {
                e == KernelError::Fixed("LM-head argmax vocabulary exceeds u32::MAX")
            } else if context != family.context {
                e == KernelError::Fixed("LM-head argmax and workspace contexts do not match")
            } else {
                &&& vocab + (family.width - 1) > usize::MAX
                &&& e == KernelError::Fixed("LM-head argmax candidate count overflows")
            }
        },
{
}

/// A refused block width breaks the rule that is named: it is no power of two,
/// its shared memory is not countable, or it is over a limit that the driver
/// reported. A driver failure is passed on.
pub proof fn width_refusals(name: &'static str, width: u32, bytes: u32, probe: Probe)
    ensures
        block_check(name, width) matches Err(e) ==> {
            &&& !power_of_two(width as nat)
            &&& e == (KernelError::BlockSize { family: name, size: width })
        },
        nonzero_check(name, width) matches Err(e) ==> {
            &&& width == 0
            &&& e == KernelError::Fixed(name)
        },
        bytes_check(name, width, bytes) matches Err(e) ==> {
            &&& width * bytes > u32::MAX
            &&& e == KernelError::Fixed(name)
        },
        threads_check(name, width, probe) matches Err(e) ==> {
            ||| probe is Err && e == KernelError::Device(probe->Err_0)
            ||| {
                &&& probe is Ok
                &&& width > probe->Ok_0.max_threads_per_block
                &&& e == (KernelError::BlockLimit {
                    family: name,
                    size: width,
                    limit: probe->Ok_0.max_threads_per_block,
                })
            }
        },
        shared_check(name, bytes, probe) matches Err(e) ==> {
            ||| probe is Err && e == KernelError::Device(probe->Err_0)
            ||| {
                &&& probe is Ok
                &&& bytes > probe->Ok_0.max_dynamic_shared_memory_bytes
                &&& e == (KernelError::SharedMemoryLimit {
                    family: name,
                    bytes,
                    limit: probe->Ok_0.max_dynamic_shared_memory_bytes,
                })
            }
        },
{
}

/// A refused tile side breaks the rule that is named, and none that is tested
/// before it.
pub proof fn side_refusals(name: &'static str, unit: &'static str, side: u32, probe: Probe)
    ensures
        side_check(name, side) matches Err(e) ==> {
            &&& !power_of_two(side as nat)
            &&& e == (KernelError::TileSide { family: name, side })
        },
        tile_bytes_check(name, side) matches Err(e) ==> {
            &&& side * side * 8 > u32::MAX
            &&& e == KernelError::Fixed(name)
        },
        tile_threads_check(name, side, unit, probe) matches Err(e) ==> {
            ||| probe is Err && e == KernelError::Device(probe->Err_0)
            ||| {
                &&& probe is Ok
                &&& side * side > probe->Ok_0.max_threads_per_block
                &&& e == (KernelError::TileThreads {
                    family: name,
                    side,
                    threads: (side * side) as u64,
                    unit,
                    limit: probe->Ok_0.max_threads_per_block,
                })
            }
        },
{
}

} // verus!
