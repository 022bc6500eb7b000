//! Kernels, their launch shapes and their argument lists.

use crate::device::{BufferId, F32};
use vstd::prelude::*;

verus! {

/// Grid or block extents.
#[derive(Clone, Copy, Debug, PartialEq, Eq, Structural)]
pub struct Dim3 {
    pub x: u32,
    pub y: u32,
    pub z: u32,
}

/// How a kernel is spread over the device.
#[derive(Clone, Copy, Debug, PartialEq, Eq, Structural)]
pub enum Shape {
    /// An explicit grid with its dynamic shared memory in bytes.
    Grid { grid: Dim3, block: Dim3, shared_memory_bytes: u32 },
    /// One thread per element in blocks of `block_size`; the launcher picks
    /// the grid.
    Elements { count: usize, block_size: u32 },
}

/// A place inside an allocation.
#[derive(Clone, Copy, Debug, PartialEq, Eq, Structural)]
pub struct Pointer {
    pub buffer: BufferId,
    pub byte_offset: u64,
}

/// One kernel argument as it is passed.
#[derive(Clone, Copy, Debug, PartialEq, Eq, Structural)]
pub enum Argument {
    /// The address of an allocation.
    Buffer(BufferId),
    /// An address inside an allocation.
    At(Pointer),
    U32(u32),
    U64(u64),
    F32(F32),
    /// The `f32` quotient of one by this count.
    Reciprocal(u64),
}

/// The device functions.
#[derive(Clone, Copy, Debug, PartialEq, Eq, Hash, Structural)]
pub enum Kernel {
    VectorAdd,
    Scale,
    Affine,
    ReduceSum,
    ReduceMax,
    SoftmaxExpShift,
    SoftmaxNormalize,
    SoftmaxRowMax,
    SoftmaxRowExpShift,
    SoftmaxRowSum,
    SoftmaxRowNormalize,
    SoftmaxRowFused,
    RmsNormRowSumSq,
    RmsNormNormalize,
    RmsNormRowFused,
    Gemm,
    GemmNt,
    GemmBatched,
    GemmNtBatched,
    Gemv,
    RopeInterleaved,
    RopeRotateHalf,
    AttentionFused,
    AttentionFusedMultihead,
    AttentionScaleCausal,
    AttentionScaleCausalMultihead,
    Bf16VectorAdd,
    Bf16Scale,
    Bf16Affine,
    Bf16Relu,
    Bf16Silu,
    Bf16GeluTanh,
    Bf16Widen,
    Bf16Narrow,
    Bf16Gemm,
    Bf16GemmNt,
    Bf16ReduceSum,
    Bf16ReduceMax,
    Bf16AttentionFused,
    Bf16AttentionFusedMultihead,
    ProjectInt2,
    ProjectBf16,
    ProjectSparseCsc,
    GatherRows,
    Bf16GatherRows,
    ScatterRows,
    Bf16ScatterRows,
    LmHeadCandidates,
    LmHeadReduce,
    TopKFill,
    TopKMask,
    TopKArgmaxFirst,
    TopKArgmaxPair,
}

impl Kernel {
    /// The name under which the function is exported.
    pub open spec fn symbol_text(self) -> Seq<char> {
        match self {
            Kernel::VectorAdd => "nnis_vector_add_f32"@,
            Kernel::Scale => "nnis_scale_f32"@,
            Kernel::Affine => "nnis_affine_f32"@,
            Kernel::ReduceSum => "nnis_reduce_sum_f32"@,
            Kernel::ReduceMax => "nnis_reduce_max_f32"@,
            Kernel::SoftmaxExpShift => "nnis_softmax_exp_shift_f32"@,
            Kernel::SoftmaxNormalize => "nnis_softmax_normalize_f32"@,
            Kernel::SoftmaxRowMax => "nnis_softmax_row_max_f32"@,
            Kernel::SoftmaxRowExpShift => "nnis_softmax_row_exp_shift_f32"@,
            Kernel::SoftmaxRowSum => "nnis_softmax_row_sum_f32"@,
            Kernel::SoftmaxRowNormalize => "nnis_softmax_row_normalize_f32"@,
            Kernel::SoftmaxRowFused => "nnis_softmax_row_fused_f32"@,
            Kernel::RmsNormRowSumSq => "nnis_rmsnorm_row_sumsq_f32"@,
            Kernel::RmsNormNormalize => "nnis_rmsnorm_normalize_f32"@,
            Kernel::RmsNormRowFused => "nnis_rmsnorm_row_fused_f32"@,
            Kernel::Gemm => "nnis_gemm_f32"@,
            Kernel::GemmNt => "nnis_gemm_nt_f32"@,
            Kernel::GemmBatched => "nnis_gemm_batched_f32"@,
            Kernel::GemmNtBatched => "nnis_gemm_nt_batched_f32"@,
            Kernel::Gemv => "nnis_gemv_f32"@,
            Kernel::RopeInterleaved => "nnis_rope_interleaved_f32"@,
            Kernel::RopeRotateHalf => "nnis_rope_rotate_half_f32"@,
            Kernel::AttentionFused => "nnis_attention_fused_f32"@,
            Kernel::AttentionFusedMultihead => "nnis_attention_fused_multihead_f32"@,
            Kernel::AttentionScaleCausal => "nnis_attention_scale_causal_f32"@,
            Kernel::AttentionScaleCausalMultihead => "nnis_attention_scale_causal_multihead_f32"@,
            Kernel::Bf16VectorAdd => "nnis_bf16_vector_add_f32acc"@,
            Kernel::Bf16Scale => "nnis_bf16_scale_f32acc"@,
            Kernel::Bf16Affine => "nnis_bf16_affine_f32acc"@,
            Kernel::Bf16Relu => "nnis_bf16_relu_f32acc"@,
            Kernel::Bf16Silu => "nnis_bf16_silu_f32acc"@,
            Kernel::Bf16GeluTanh => "nnis_bf16_gelu_tanh_f32acc"@,
            Kernel::Bf16Widen => "nnis_bf16_widen_f32"@,
            Kernel::Bf16Narrow => "nnis_bf16_narrow_from_f32"@,
            Kernel::Bf16Gemm => "nnis_bf16_gemm_f32acc"@,
            Kernel::Bf16GemmNt => "nnis_bf16_gemm_nt_f32acc"@,
            Kernel::Bf16ReduceSum => "nnis_bf16_reduce_sum_f32"@,
            Kernel::Bf16ReduceMax => "nnis_bf16_reduce_max_f32"@,
            Kernel::Bf16AttentionFused => "nnis_attention_fused_bf16"@,
            Kernel::Bf16AttentionFusedMultihead => "nnis_attention_fused_multihead_bf16"@,
            Kernel::ProjectInt2 => "nnis_project_kn_f32_int2_weight"@,
            Kernel::ProjectBf16 => "nnis_project_kn_f32_bf16_weight"@,
            Kernel::ProjectSparseCsc => "nnis_project_kn_f32_sparse_csc"@,
            Kernel::GatherRows => "nnis_gather_rows_f32"@,
            Kernel::Bf16GatherRows => "nnis_gather_rows_bf16"@,
            Kernel::ScatterRows => "nnis_scatter_rows_f32"@,
            Kernel::Bf16ScatterRows => "nnis_scatter_rows_bf16"@,
            Kernel::LmHeadCandidates => "nnis_lm_head_argmax_candidates_f32"@,
            Kernel::LmHeadReduce => "nnis_lm_head_argmax_reduce_f32"@,
            Kernel::TopKFill => "nnis_topk_fill_f32"@,
            Kernel::TopKMask => "nnis_topk_mask_f32"@,
            Kernel::TopKArgmaxFirst => "nnis_topk_argmax_first_f32"@,
            Kernel::TopKArgmaxPair => "nnis_topk_argmax_pair_f32"@,
        }
    }

    /// Whether the arguments are those of the function's signature.
    pub open spec fn accepts(self, arguments: Arguments) -> bool {
        match self {
            Kernel::VectorAdd | Kernel::Bf16VectorAdd => arguments is Binary,
            Kernel::Scale | Kernel::Bf16Scale => arguments is Scale,
            Kernel::Affine | Kernel::Bf16Affine => arguments is Affine,
            Kernel::SoftmaxExpShift => arguments is ExpShift,
            Kernel::SoftmaxNormalize => arguments is Divide,
            Kernel::SoftmaxRowExpShift => arguments is RowExpShift,
            Kernel::SoftmaxRowNormalize => arguments is RowDivide,
            Kernel::RmsNormNormalize => arguments is RmsNormalize,
            Kernel::RmsNormRowFused => arguments is RmsFused,
            Kernel::Gemm | Kernel::GemmNt | Kernel::Bf16Gemm | Kernel::Bf16GemmNt => {
                arguments is Product
            },
            Kernel::GemmBatched | Kernel::GemmNtBatched => arguments is BatchedProduct,
            Kernel::Gemv => arguments is MatrixVector,
            Kernel::RopeInterleaved | Kernel::RopeRotateHalf => arguments is Rope,
            Kernel::AttentionFused | Kernel::Bf16AttentionFused => arguments is Attention,
            Kernel::AttentionFusedMultihead | Kernel::Bf16AttentionFusedMultihead => {
                arguments is MultiheadAttention
            },
            Kernel::AttentionScaleCausal => arguments is ScaleCausal,
            Kernel::AttentionScaleCausalMultihead => arguments is MultiheadScaleCausal,
            Kernel::ProjectBf16 => arguments is Project,
            Kernel::ProjectInt2 => arguments is ProjectInt2,
            Kernel::ProjectSparseCsc => arguments is ProjectSparseCsc,
            Kernel::GatherRows | Kernel::Bf16GatherRows | Kernel::ScatterRows
            | Kernel::Bf16ScatterRows => arguments is MoveRows,
            Kernel::LmHeadCandidates => arguments is Candidates,
            Kernel::LmHeadReduce => arguments is ReduceCandidates,
            Kernel::TopKMask => arguments is Mask,
            Kernel::TopKArgmaxFirst => arguments is ScanFirst,
            Kernel::TopKArgmaxPair => arguments is ScanPair,
            Kernel::ReduceSum
            | Kernel::ReduceMax
            | Kernel::Bf16ReduceSum
            | Kernel::Bf16ReduceMax
            | Kernel::SoftmaxRowMax
            | Kernel::SoftmaxRowSum
            | Kernel::SoftmaxRowFused
            | Kernel::RmsNormRowSumSq
            | Kernel::Bf16Relu
            | Kernel::Bf16Silu
            | Kernel::Bf16GeluTanh
            | Kernel::Bf16Widen
            | Kernel::Bf16Narrow
            | Kernel::TopKFill => arguments is Unary,
        }
    }

    /// The name under which the function is exported.
    pub fn symbol(&self) -> (name: &'static str)
        ensures
            name@ == self.symbol_text(),
    {
        match *self {
            Kernel::VectorAdd => "nnis_vector_add_f32",
            Kernel::Scale => "nnis_scale_f32",
            Kernel::Affine => "nnis_affine_f32",
            Kernel::ReduceSum => "nnis_reduce_sum_f32",
            Kernel::ReduceMax => "nnis_reduce_max_f32",
            Kernel::SoftmaxExpShift => "nnis_softmax_exp_shift_f32",
            Kernel::SoftmaxNormalize => "nnis_softmax_normalize_f32",
            Kernel::SoftmaxRowMax => "nnis_softmax_row_max_f32",
            Kernel::SoftmaxRowExpShift => "nnis_softmax_row_exp_shift_f32",
            Kernel::SoftmaxRowSum => "nnis_softmax_row_sum_f32",
            Kernel::SoftmaxRowNormalize => "nnis_softmax_row_normalize_f32",
            Kernel::SoftmaxRowFused => "nnis_softmax_row_fused_f32",
            Kernel::RmsNormRowSumSq => "nnis_rmsnorm_row_sumsq_f32",
            Kernel::RmsNormNormalize => "nnis_rmsnorm_normalize_f32",
            Kernel::RmsNormRowFused => "nnis_rmsnorm_row_fused_f32",
            Kernel::Gemm => "nnis_gemm_f32",
            Kernel::GemmNt => "nnis_gemm_nt_f32",
            Kernel::GemmBatched => "nnis_gemm_batched_f32",
            Kernel::GemmNtBatched => "nnis_gemm_nt_batched_f32",
            Kernel::Gemv => "nnis_gemv_f32",
            Kernel::RopeInterleaved => "nnis_rope_interleaved_f32",
            Kernel::RopeRotateHalf => "nnis_rope_rotate_half_f32",
            Kernel::AttentionFused => "nnis_attention_fused_f32",
            Kernel::AttentionFusedMultihead => "nnis_attention_fused_multihead_f32",
            Kernel::AttentionScaleCausal => "nnis_attention_scale_causal_f32",
            Kernel::AttentionScaleCausalMultihead => "nnis_attention_scale_causal_multihead_f32",
            Kernel::Bf16VectorAdd => "nnis_bf16_vector_add_f32acc",
            Kernel::Bf16Scale => "nnis_bf16_scale_f32acc",
            Kernel::Bf16Affine => "nnis_bf16_affine_f32acc",
            Kernel::Bf16Relu => "nnis_bf16_relu_f32acc",
            Kernel::Bf16Silu => "nnis_bf16_silu_f32acc",
            Kernel::Bf16GeluTanh => "nnis_bf16_gelu_tanh_f32acc",
            Kernel::Bf16Widen => "nnis_bf16_widen_f32",
            Kernel::Bf16Narrow => "nnis_bf16_narrow_from_f32",
            Kernel::Bf16Gemm => "nnis_bf16_gemm_f32acc",
            Kernel::Bf16GemmNt => "nnis_bf16_gemm_nt_f32acc",
            Kernel::Bf16ReduceSum => "nnis_bf16_reduce_sum_f32",
            Kernel::Bf16ReduceMax => "nnis_bf16_reduce_max_f32",
            Kernel::Bf16AttentionFused => "nnis_attention_fused_bf16",
            Kernel::Bf16AttentionFusedMultihead => "nnis_attention_fused_multihead_bf16",
            Kernel::ProjectInt2 => "nnis_project_kn_f32_int2_weight",
            Kernel::ProjectBf16 => "nnis_project_kn_f32_bf16_weight",
            Kernel::ProjectSparseCsc => "nnis_project_kn_f32_sparse_csc",
            Kernel::GatherRows => "nnis_gather_rows_f32",
            Kernel::Bf16GatherRows => "nnis_gather_rows_bf16",
            Kernel::ScatterRows => "nnis_scatter_rows_f32",
            Kernel::Bf16ScatterRows => "nnis_scatter_rows_bf16",
            Kernel::LmHeadCandidates => "nnis_lm_head_argmax_candidates_f32",
            Kernel::LmHeadReduce => "nnis_lm_head_argmax_reduce_f32",
            Kernel::TopKFill => "nnis_topk_fill_f32",
            Kernel::TopKMask => "nnis_topk_mask_f32",
            Kernel::TopKArgmaxFirst => "nnis_topk_argmax_first_f32",
            Kernel::TopKArgmaxPair => "nnis_topk_argmax_pair_f32",
        }
    }
}

/// The arguments of a launch, by the signature of the kernel.
#[derive(Clone, Copy, Debug, PartialEq, Eq, Structural)]
pub enum Arguments {
    /// One buffer read, one written.
    Unary { input: BufferId, output: BufferId, count: u64 },
    /// Two buffers read, one written.
    Binary { left: BufferId, right: BufferId, output: BufferId, count: u64 },
    Scale { input: BufferId, output: BufferId, scale: F32, count: u64 },
    Affine { input: BufferId, output: BufferId, scale: F32, bias: F32, count: u64 },
    ExpShift { input: BufferId, output: BufferId, maximum: BufferId, count: u64 },
    /// `data` is divided in place by the scalar in `total`.
    Divide { data: BufferId, total: BufferId, count: u64 },
    RowExpShift { input: BufferId, output: BufferId, row_max: BufferId, rows: u64, cols: u64 },
    /// Each row of `data` is divided in place by its total.
    RowDivide { data: BufferId, row_total: BufferId, rows: u64, cols: u64 },
    RmsNormalize {
        input: BufferId,
        output: BufferId,
        row_sumsq: BufferId,
        rows: u64,
        cols: u64,
        epsilon: F32,
        gamma: F32,
    },
    RmsFused { input: BufferId, output: BufferId, cols: u64, epsilon: F32, gamma: F32 },
    Product { matrix_a: BufferId, matrix_b: BufferId, output: BufferId, m: u64, n: u64, k: u64 },
    BatchedProduct {
        matrix_a: BufferId,
        matrix_b: BufferId,
        output: BufferId,
        batches: u32,
        m: u64,
        n: u64,
        k: u64,
    },
    MatrixVector { matrix: BufferId, vector: BufferId, output: BufferId, cols: u64 },
    Attention {
        queries: BufferId,
        keys: BufferId,
        values: BufferId,
        output: BufferId,
        query_rows: u64,
        head_dim: u64,
        kv_rows: u64,
        value_dim: u64,
        scale: F32,
        causal: u32,
    },
    MultiheadAttention {
        queries: BufferId,
        keys: BufferId,
        values: BufferId,
        output: BufferId,
        heads: u32,
        query_rows: u64,
        head_dim: u64,
        kv_rows: u64,
        value_dim: u64,
        scale: F32,
        causal: u32,
    },
    ScaleCausal { scores: BufferId, output: BufferId, query_rows: u64, kv_rows: u64, scale: F32 },
    MultiheadScaleCausal {
        scores: BufferId,
        output: BufferId,
        elements: u64,
        query_rows: u64,
        kv_rows: u64,
        scale: F32,
    },
    Rope { input: BufferId, cos: BufferId, sin: BufferId, output: BufferId, rows: u64, half: u64 },
    Project { input: BufferId, weight: BufferId, output: BufferId, k: u64, n: u64 },
    ProjectInt2 {
        input: BufferId,
        packed_weight: BufferId,
        weight_scale: BufferId,
        output: BufferId,
        k: u64,
        n: u64,
    },
    ProjectSparseCsc {
        input: BufferId,
        column_offsets: BufferId,
        row_indices: BufferId,
        values: BufferId,
        output: BufferId,
        k: u64,
        n: u64,
        nnz: u64,
    },
    /// Rows of `source` are copied to `output`, selected or placed by `index`.
    MoveRows {
        source: BufferId,
        index: BufferId,
        output: BufferId,
        rows: u64,
        cols: u64,
        count: u64,
    },
    Candidates {
        input: BufferId,
        weight: BufferId,
        values: BufferId,
        indices: BufferId,
        k: u64,
        vocab: u64,
    },
    ReduceCandidates {
        values: BufferId,
        indices: BufferId,
        output_value: BufferId,
        output_index: BufferId,
        count: u64,
    },
    ScanFirst {
        source_values: Pointer,
        output_values: Pointer,
        output_indices: Pointer,
        count: u64,
    },
    ScanPair {
        source_values: Pointer,
        source_indices: Pointer,
        output_values: Pointer,
        output_indices: Pointer,
        count: u64,
    },
    /// The element of `data` named by entry `slot` of `indices` is masked.
    Mask { data: BufferId, slot: u64, indices: BufferId },
}

impl Arguments {
    /// The argument list in the order the kernel declares its parameters.
    pub open spec fn list(self) -> Seq<Argument> {
        match self {
            Arguments::Unary { input, output, count } => seq![
                Argument::Buffer(input),
                Argument::Buffer(output),
                Argument::U64(count),
            ],
            Arguments::Binary { left, right, output, count } => seq![
                Argument::Buffer(left),
                Argument::Buffer(right),
                Argument::Buffer(output),
                Argument::U64(count),
            ],
            Arguments::Scale { input, output, scale, count } => seq![
                Argument::Buffer(input),
                Argument::Buffer(output),
                Argument::F32(scale),
                Argument::U64(count),
            ],
            Arguments::Affine { input, output, scale, bias, count } => seq![
                Argument::Buffer(input),
                Argument::Buffer(output),
                Argument::F32(scale),
                Argument::F32(bias),
                Argument::U64(count),
            ],
            Arguments::ExpShift { input, output, maximum, count } => seq![
                Argument::Buffer(input),
                Argument::Buffer(output),
                Argument::Buffer(maximum),
                Argument::U64(count),
            ],
            Arguments::Divide { data, total, count } => seq![
                Argument::Buffer(data),
                Argument::Buffer(total),
                Argument::U64(count),
            ],
            Arguments::RowExpShift { input, output, row_max, rows, cols } => seq![
                Argument::Buffer(input),
                Argument::Buffer(output),
                Argument::Buffer(row_max),
                Argument::U64(rows),
                Argument::U64(cols),
            ],
            Arguments::RowDivide { data, row_total, rows, cols } => seq![
                Argument::Buffer(data),
                Argument::Buffer(row_total),
                Argument::U64(rows),
                Argument::U64(cols),
            ],
            Arguments::RmsNormalize { input, output, row_sumsq, rows, cols, epsilon, gamma } => seq![
                Argument::Buffer(input),
                Argument::Buffer(output),
                Argument::Buffer(row_sumsq),
                Argument::U64(rows),
                Argument::U64(cols),
                Argument::Reciprocal(cols),
                Argument::F32(epsilon),
                Argument::F32(gamma),
            ],
            Arguments::RmsFused { input, output, cols, epsilon, gamma } => seq![
                Argument::Buffer(input),
                Argument::Buffer(output),
                Argument::U64(cols),
                Argument::Reciprocal(cols),
                Argument::F32(epsilon),
                Argument::F32(gamma),
            ],
            Arguments::Product { matrix_a, matrix_b, output, m, n, k } => seq![
                Argument::Buffer(matrix_a),
                Argument::Buffer(matrix_b),
                Argument::Buffer(output),
                Argument::U64(m),
                Argument::U64(n),
                Argument::U64(k),
            ],
            Arguments::BatchedProduct { matrix_a, matrix_b, output, batches, m, n, k } => seq![
                Argument::Buffer(matrix_a),
                Argument::Buffer(matrix_b),
                Argument::Buffer(output),
                Argument::U32(batches),
                Argument::U64(m),
                Argument::U64(n),
                Argument::U64(k),
            ],
            Arguments::MatrixVector { matrix, vector, output, cols } => seq![
                Argument::Buffer(matrix),
                Argument::Buffer(vector),
                Argument::Buffer(output),
                Argument::U64(cols),
            ],
            Arguments::Attention {
                queries,
                keys,
                values,
                output,
                query_rows,
                head_dim,
                kv_rows,
                value_dim,
                scale,
                causal,
            } => seq![
                Argument::Buffer(queries),
                Argument::Buffer(keys),
                Argument::Buffer(values),
                Argument::Buffer(output),
                Argument::U64(query_rows),
                Argument::U64(head_dim),
                Argument::U64(kv_rows),
                Argument::U64(value_dim),
                Argument::F32(scale),
                Argument::U32(causal),
            ],
            Arguments::MultiheadAttention {
                queries,
                keys,
                values,
                output,
                heads,
                query_rows,
                head_dim,
                kv_rows,
                value_dim,
                scale,
                causal,
            } => seq![
                Argument::Buffer(queries),
                Argument::Buffer(keys),
                Argument::Buffer(values),
                Argument::Buffer(output),
                Argument::U32(heads),
                Argument::U64(query_rows),
                Argument::U64(head_dim),
                Argument::U64(kv_rows),
                Argument::U64(value_dim),
                Argument::F32(scale),
                Argument::U32(causal),
            ],
            Arguments::ScaleCausal { scores, output, query_rows, kv_rows, scale } => seq![
                Argument::Buffer(scores),
                Argument::Buffer(output),
                Argument::U64(query_rows),
                Argument::U64(kv_rows),
                Argument::F32(scale),
            ],
            Arguments::MultiheadScaleCausal {
                scores,
                output,
                elements,
                query_rows,
                kv_rows,
                scale,
            } => seq![
                Argument::Buffer(scores),
                Argument::Buffer(output),
                Argument::U64(elements),
                Argument::U64(query_rows),
                Argument::U64(kv_rows),
                Argument::F32(scale),
            ],
            Arguments::Rope { input, cos, sin, output, rows, half } => seq![
                Argument::Buffer(input),
                Argument::Buffer(cos),
                Argument::Buffer(sin),
                Argument::Buffer(output),
                Argument::U64(rows),
                Argument::U64(half),
            ],
            Arguments::Project { input, weight, output, k, n } => seq![
                Argument::Buffer(input),
                Argument::Buffer(weight),
                Argument::Buffer(output),
                Argument::U64(k),
                Argument::U64(n),
            ],
            Arguments::ProjectInt2 { input, packed_weight, weight_scale, output, k, n } => seq![
                Argument::Buffer(input),
                Argument::Buffer(packed_weight),
                Argument::Buffer(weight_scale),
                Argument::Buffer(output),
                Argument::U64(k),
                Argument::U64(n),
            ],
            Arguments::ProjectSparseCsc {
                input,
                column_offsets,
                row_indices,
                values,
                output,
                k,
                n,
                nnz,
            } => seq![
                Argument::Buffer(input),
                Argument::Buffer(column_offsets),
                Argument::Buffer(row_indices),
                Argument::Buffer(values),
                Argument::Buffer(output),
                Argument::U64(k),
                Argument::U64(n),
                Argument::U64(nnz),
            ],
            Arguments::MoveRows { source, index, output, rows, cols, count } => seq![
                Argument::Buffer(source),
                Argument::Buffer(index),
                Argument::Buffer(output),
                Argument::U64(rows),
                Argument::U64(cols),
                Argument::U64(count),
            ],
            Arguments::Candidates { input, weight, values, indices, k, vocab } => seq![
                Argument::Buffer(input),
                Argument::Buffer(weight),
                Argument::Buffer(values),
                Argument::Buffer(indices),
                Argument::U64(k),
                Argument::U64(vocab),
            ],
            Arguments::ReduceCandidates { values, indices, output_value, output_index, count } => seq![
                Argument::Buffer(values),
                Argument::Buffer(indices),
                Argument::Buffer(output_value),
                Argument::Buffer(output_index),
                Argument::U64(count),
            ],
            Arguments::ScanFirst { source_values, output_values, output_indices, count } => seq![
                Argument::At(source_values),
                Argument::At(output_values),
                Argument::At(output_indices),
                Argument::U64(count),
            ],
            Arguments::ScanPair {
                source_values,
                source_indices,
                output_values,
                output_indices,
                count,
            } => seq![
                Argument::At(source_values),
                Argument::At(source_indices),
                Argument::At(output_values),
                Argument::At(output_indices),
                Argument::U64(count),
            ],
            Arguments::Mask { data, slot, indices } => seq![
                Argument::Buffer(data),
                Argument::U64(slot),
                Argument::Buffer(indices),
            ],
        }
    }

    /// The argument list in the order the kernel declares its parameters.
    pub fn to_list(&self) -> (list: Vec<Argument>)
        ensures
            list@ == self.list(),
    {
        match *self {
            Arguments::Unary { input, output, count } => vec![
                Argument::Buffer(input),
                Argument::Buffer(output),
                Argument::U64(count),
            ],
            Arguments::Binary { left, right, output, count } => vec![
                Argument::Buffer(left),
                Argument::Buffer(right),
                Argument::Buffer(output),
                Argument::U64(count),
            ],
            Arguments::Scale { input, output, scale, count } => vec![
                Argument::Buffer(input),
                Argument::Buffer(output),
                Argument::F32(scale),
                Argument::U64(count),
            ],
            Arguments::Affine { input, output, scale, bias, count } => vec![
                Argument::Buffer(input),
                Argument::Buffer(output),
                Argument::F32(scale),
                Argument::F32(bias),
                Argument::U64(count),
            ],
            Arguments::ExpShift { input, output, maximum, count } => vec![
                Argument::Buffer(input),
                Argument::Buffer(output),
                Argument::Buffer(maximum),
                Argument::U64(count),
            ],
            Arguments::Divide { data, total, count } => vec![
                Argument::Buffer(data),
                Argument::Buffer(total),
                Argument::U64(count),
            ],
            Arguments::RowExpShift { input, output, row_max, rows, cols } => vec![
                Argument::Buffer(input),
                Argument::Buffer(output),
                Argument::Buffer(row_max),
                Argument::U64(rows),
                Argument::U64(cols),
            ],
            Arguments::RowDivide { data, row_total, rows, cols } => vec![
                Argument::Buffer(data),
                Argument::Buffer(row_total),
                Argument::U64(rows),
                Argument::U64(cols),
            ],
            Arguments::RmsNormalize { input, output, row_sumsq, rows, cols, epsilon, gamma } => vec![
                Argument::Buffer(input),
                Argument::Buffer(output),
                Argument::Buffer(row_sumsq),
                Argument::U64(rows),
                Argument::U64(cols),
                Argument::Reciprocal(cols),
                Argument::F32(epsilon),
                Argument::F32(gamma),
            ],
            Arguments::RmsFused { input, output, cols, epsilon, gamma } => vec![
                Argument::Buffer(input),
                Argument::Buffer(output),
                Argument::U64(cols),
                Argument::Reciprocal(cols),
                Argument::F32(epsilon),
                Argument::F32(gamma),
            ],
            Arguments::Product { matrix_a, matrix_b, output, m, n, k } => vec![
                Argument::Buffer(matrix_a),
                Argument::Buffer(matrix_b),
                Argument::Buffer(output),
                Argument::U64(m),
                Argument::U64(n),
                Argument::U64(k),
            ],
            Arguments::BatchedProduct { matrix_a, matrix_b, output, batches, m, n, k } => vec![
                Argument::Buffer(matrix_a),
                Argument::Buffer(matrix_b),
                Argument::Buffer(output),
                Argument::U32(batches),
                Argument::U64(m),
                Argument::U64(n),
                Argument::U64(k),
            ],
            Arguments::MatrixVector { matrix, vector, output, cols } => vec![
                Argument::Buffer(matrix),
                Argument::Buffer(vector),
                Argument::Buffer(output),
                Argument::U64(cols),
            ],
            Arguments::Attention {
                queries,
                keys,
                values,
                output,
                query_rows,
                head_dim,
                kv_rows,
                value_dim,
                scale,
                causal,
            } => vec![
                Argument::Buffer(queries),
                Argument::Buffer(keys),
                Argument::Buffer(values),
                Argument::Buffer(output),
                Argument::U64(query_rows),
                Argument::U64(head_dim),
                Argument::U64(kv_rows),
                Argument::U64(value_dim),
                Argument::F32(scale),
                Argument::U32(causal),
            ],
            Arguments::MultiheadAttention {
                queries,
                keys,
                values,
                output,
                heads,
                query_rows,
                head_dim,
                kv_rows,
                value_dim,
                scale,
                causal,
            } => vec![
                Argument::Buffer(queries),
                Argument::Buffer(keys),
                Argument::Buffer(values),
                Argument::Buffer(output),
                Argument::U32(heads),
                Argument::U64(query_rows),
                Argument::U64(head_dim),
                Argument::U64(kv_rows),
                Argument::U64(value_dim),
                Argument::F32(scale),
                Argument::U32(causal),
            ],
            Arguments::ScaleCausal { scores, output, query_rows, kv_rows, scale } => vec![
                Argument::Buffer(scores),
                Argument::Buffer(output),
                Argument::U64(query_rows),
                Argument::U64(kv_rows),
                Argument::F32(scale),
            ],
            Arguments::MultiheadScaleCausal {
                scores,
                output,
                elements,
                query_rows,
                kv_rows,
                scale,
            } => vec![
                Argument::Buffer(scores),
                Argument::Buffer(output),
                Argument::U64(elements),
                Argument::U64(query_rows),
                Argument::U64(kv_rows),
                Argument::F32(scale),
            ],
            Arguments::Rope { input, cos, sin, output, rows, half } => vec![
                Argument::Buffer(input),
                Argument::Buffer(cos),
                Argument::Buffer(sin),
                Argument::Buffer(output),
                Argument::U64(rows),
                Argument::U64(half),
            ],
            Arguments::Project { input, weight, output, k, n } => vec![
                Argument::Buffer(input),
                Argument::Buffer(weight),
                Argument::Buffer(output),
                Argument::U64(k),
                Argument::U64(n),
            ],
            Arguments::ProjectInt2 { input, packed_weight, weight_scale, output, k, n } => vec![
                Argument::Buffer(input),
                Argument::Buffer(packed_weight),
                Argument::Buffer(weight_scale),
                Argument::Buffer(output),
                Argument::U64(k),
                Argument::U64(n),
            ],
            Arguments::ProjectSparseCsc {
                input,
                column_offsets,
                row_indices,
                values,
                output,
                k,
                n,
                nnz,
            } => vec![
                Argument::Buffer(input),
                Argument::Buffer(column_offsets),
                Argument::Buffer(row_indices),
                Argument::Buffer(values),
                Argument::Buffer(output),
                Argument::U64(k),
                Argument::U64(n),
                Argument::U64(nnz),
            ],
            Arguments::MoveRows { source, index, output, rows, cols, count } => vec![
                Argument::Buffer(source),
                Argument::Buffer(index),
                Argument::Buffer(output),
                Argument::U64(rows),
                Argument::U64(cols),
                Argument::U64(count),
            ],
            Arguments::Candidates { input, weight, values, indices, k, vocab } => vec![
                Argument::Buffer(input),
                Argument::Buffer(weight),
                Argument::Buffer(values),
                Argument::Buffer(indices),
                Argument::U64(k),
                Argument::U64(vocab),
            ],
            Arguments::ReduceCandidates { values, indices, output_value, output_index, count } => vec![
                Argument::Buffer(values),
                Argument::Buffer(indices),
                Argument::Buffer(output_value),
                Argument::Buffer(output_index),
                Argument::U64(count),
            ],
            Arguments::ScanFirst { source_values, output_values, output_indices, count } => vec![
                Argument::At(source_values),
                Argument::At(output_values),
                Argument::At(output_indices),
                Argument::U64(count),
            ],
            Arguments::ScanPair {
                source_values,
                source_indices,
                output_values,
                output_indices,
                count,
            } => vec![
                Argument::At(source_values),
                Argument::At(source_indices),
                Argument::At(output_values),
                Argument::At(output_indices),
                Argument::U64(count),
            ],
            Arguments::Mask { data, slot, indices } => vec![
                Argument::Buffer(data),
                Argument::U64(slot),
                Argument::Buffer(indices),
            ],
        }
    }
}

/// One kernel launch.
#[derive(Clone, Copy, Debug, PartialEq, Eq, Structural)]
pub struct Launch {
    pub kernel: Kernel,
    pub shape: Shape,
    pub arguments: Arguments,
}

/// A one-dimensional grid of one-dimensional blocks.
pub open spec fn line(blocks: u32, width: u32, shared_memory_bytes: u32) -> Shape {
    Shape::Grid {
        grid: Dim3 { x: blocks, y: 1, z: 1 },
        block: Dim3 { x: width, y: 1, z: 1 },
        shared_memory_bytes,
    }
}

/// A one-dimensional grid of one-dimensional blocks.
pub fn line_shape(blocks: u32, width: u32, shared_memory_bytes: u32) -> (shape: Shape)
    ensures
        shape == line(blocks, width, shared_memory_bytes),
{
    Shape::Grid {
        grid: Dim3 { x: blocks, y: 1, z: 1 },
        block: Dim3 { x: width, y: 1, z: 1 },
        shared_memory_bytes,
    }
}

} // verus!
