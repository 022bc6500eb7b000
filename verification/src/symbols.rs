//! How the names of the device functions are related.

use crate::launch::Kernel;
use vstd::prelude::*;

verus! {

/// A text with more text put in.
pub open spec fn with(text: Seq<char>, more: Seq<char>, at: int) -> Seq<char> {
    text.take(at) + more + text.skip(at)
}

/// The names of all device functions begin alike.
pub proof fn names_begin_alike(kernel: Kernel)
    ensures
        kernel.symbol_text().take(5) == "nnis_"@,
{
    reveal_strlit("nnis_");
    match kernel {
        Kernel::VectorAdd => {
            reveal_strlit("nnis_vector_add_f32");
            assert(kernel.symbol_text().take(5) =~= "nnis_"@);
        },
        Kernel::Scale => {
            reveal_strlit("nnis_scale_f32");
            assert(kernel.symbol_text().take(5) =~= "nnis_"@);
        },
        Kernel::Affine => {
            reveal_strlit("nnis_affine_f32");
            assert(kernel.symbol_text().take(5) =~= "nnis_"@);
        },
        Kernel::ReduceSum => {
            reveal_strlit("nnis_reduce_sum_f32");
            assert(kernel.symbol_text().take(5) =~= "nnis_"@);
        },
        Kernel::ReduceMax => {
            reveal_strlit("nnis_reduce_max_f32");
            assert(kernel.symbol_text().take(5) =~= "nnis_"@);
        },
        Kernel::SoftmaxExpShift => {
            reveal_strlit("nnis_softmax_exp_shift_f32");
            assert(kernel.symbol_text().take(5) =~= "nnis_"@);
        },
        Kernel::SoftmaxNormalize => {
            reveal_strlit("nnis_softmax_normalize_f32");
            assert(kernel.symbol_text().take(5) =~= "nnis_"@);
        },
        Kernel::SoftmaxRowMax => {
            reveal_strlit("nnis_softmax_row_max_f32");
            assert(kernel.symbol_text().take(5) =~= "nnis_"@);
        },
        Kernel::SoftmaxRowExpShift => {
            reveal_strlit("nnis_softmax_row_exp_shift_f32");
            assert(kernel.symbol_text().take(5) =~= "nnis_"@);
        },
        Kernel::SoftmaxRowSum => {
            reveal_strlit("nnis_softmax_row_sum_f32");
            assert(kernel.symbol_text().take(5) =~= "nnis_"@);
        },
        Kernel::SoftmaxRowNormalize => {
            reveal_strlit("nnis_softmax_row_normalize_f32");
            assert(kernel.symbol_text().take(5) =~= "nnis_"@);
        },
        Kernel::SoftmaxRowFused => {
            reveal_strlit("nnis_softmax_row_fused_f32");
            assert(kernel.symbol_text().take(5) =~= "nnis_"@);
        },
        Kernel::RmsNormRowSumSq => {
            reveal_strlit("nnis_rmsnorm_row_sumsq_f32");
            assert(kernel.symbol_text().take(5) =~= "nnis_"@);
        },
        Kernel::RmsNormNormalize => {
            reveal_strlit("nnis_rmsnorm_normalize_f32");
            assert(kernel.symbol_text().take(5) =~= "nnis_"@);
        },
        Kernel::RmsNormRowFused => {
            reveal_strlit("nnis_rmsnorm_row_fused_f32");
            assert(kernel.symbol_text().take(5) =~= "nnis_"@);
        },
        Kernel::Gemm => {
            reveal_strlit("nnis_gemm_f32");
            assert(kernel.symbol_text().take(5) =~= "nnis_"@);
        },
        Kernel::GemmNt => {
            reveal_strlit("nnis_gemm_nt_f32");
            assert(kernel.symbol_text().take(5) =~= "nnis_"@);
        },
        Kernel::GemmBatched => {
            reveal_strlit("nnis_gemm_batched_f32");
            assert(kernel.symbol_text().take(5) =~= "nnis_"@);
        },
        Kernel::GemmNtBatched => {
            reveal_strlit("nnis_gemm_nt_batched_f32");
            assert(kernel.symbol_text().take(5) =~= "nnis_"@);
        },
        Kernel::Gemv => {
            reveal_strlit("nnis_gemv_f32");
            assert(kernel.symbol_text().take(5) =~= "nnis_"@);
        },
        Kernel::RopeInterleaved => {
            reveal_strlit("nnis_rope_interleaved_f32");
            assert(kernel.symbol_text().take(5) =~= "nnis_"@);
        },
        Kernel::RopeRotateHalf => {
            reveal_strlit("nnis_rope_rotate_half_f32");
            assert(kernel.symbol_text().take(5) =~= "nnis_"@);
        },
        Kernel::AttentionFused => {
            reveal_strlit("nnis_attention_fused_f32");
            assert(kernel.symbol_text().take(5) =~= "nnis_"@);
        },
        Kernel::AttentionFusedMultihead => {
            reveal_strlit("nnis_attention_fused_multihead_f32");
            assert(kernel.symbol_text().take(5) =~= "nnis_"@);
        },
        Kernel::AttentionScaleCausal => {
            reveal_strlit("nnis_attention_scale_causal_f32");
            assert(kernel.symbol_text().take(5) =~= "nnis_"@);
        },
        Kernel::AttentionScaleCausalMultihead => {
            reveal_strlit("nnis_attention_scale_causal_multihead_f32");
            assert(kernel.symbol_text().take(5) =~= "nnis_"@);
        },
        Kernel::Bf16VectorAdd => {
            reveal_strlit("nnis_bf16_vector_add_f32acc");
            assert(kernel.symbol_text().take(5) =~= "nnis_"@);
        },
        Kernel::Bf16Scale => {
            reveal_strlit("nnis_bf16_scale_f32acc");
            assert(kernel.symbol_text().take(5) =~= "nnis_"@);
        },
        Kernel::Bf16Affine => {
            reveal_strlit("nnis_bf16_affine_f32acc");
            assert(kernel.symbol_text().take(5) =~= "nnis_"@);
        },
        Kernel::Bf16Relu => {
            reveal_strlit("nnis_bf16_relu_f32acc");
            assert(kernel.symbol_text().take(5) =~= "nnis_"@);
        },
        Kernel::Bf16Silu => {
            reveal_strlit("nnis_bf16_silu_f32acc");
            assert(kernel.symbol_text().take(5) =~= "nnis_"@);
        },
        Kernel::Bf16GeluTanh => {
            reveal_strlit("nnis_bf16_gelu_tanh_f32acc");
            assert(kernel.symbol_text().take(5) =~= "nnis_"@);
        },
        Kernel::Bf16Widen => {
            reveal_strlit("nnis_bf16_widen_f32");
            assert(kernel.symbol_text().take(5) =~= "nnis_"@);
        },
        Kernel::Bf16Narrow => {
            reveal_strlit("nnis_bf16_narrow_from_f32");
            assert(kernel.symbol_text().take(5) =~= "nnis_"@);
        },
        Kernel::Bf16Gemm => {
            reveal_strlit("nnis_bf16_gemm_f32acc");
            assert(kernel.symbol_text().take(5) =~= "nnis_"@);
        },
        Kernel::Bf16GemmNt => {
            reveal_strlit("nnis_bf16_gemm_nt_f32acc");
            assert(kernel.symbol_text().take(5) =~= "nnis_"@);
        },
        Kernel::Bf16ReduceSum => {
            reveal_strlit("nnis_bf16_reduce_sum_f32");
            assert(kernel.symbol_text().take(5) =~= "nnis_"@);
        },
        Kernel::Bf16ReduceMax => {
            reveal_strlit("nnis_bf16_reduce_max_f32");
            assert(kernel.symbol_text().take(5) =~= "nnis_"@);
        },
        Kernel::Bf16AttentionFused => {
            reveal_strlit("nnis_attention_fused_bf16");
            assert(kernel.symbol_text().take(5) =~= "nnis_"@);
        },
        Kernel::Bf16AttentionFusedMultihead => {
            reveal_strlit("nnis_attention_fused_multihead_bf16");
            assert(kernel.symbol_text().take(5) =~= "nnis_"@);
        },
        Kernel::ProjectInt2 => {
            reveal_strlit("nnis_project_kn_f32_int2_weight");
            assert(kernel.symbol_text().take(5) =~= "nnis_"@);
        },
        Kernel::ProjectBf16 => {
            reveal_strlit("nnis_project_kn_f32_bf16_weight");
            assert(kernel.symbol_text().take(5) =~= "nnis_"@);
        },
        Kernel::ProjectSparseCsc => {
            reveal_strlit("nnis_project_kn_f32_sparse_csc");
            assert(kernel.symbol_text().take(5) =~= "nnis_"@);
        },
        Kernel::GatherRows => {
            reveal_strlit("nnis_gather_rows_f32");
            assert(kernel.symbol_text().take(5) =~= "nnis_"@);
        },
        Kernel::Bf16GatherRows => {
            reveal_strlit("nnis_gather_rows_bf16");
            assert(kernel.symbol_text().take(5) =~= "nnis_"@);
        },
        Kernel::ScatterRows => {
            reveal_strlit("nnis_scatter_rows_f32");
            assert(kernel.symbol_text().take(5) =~= "nnis_"@);
        },
        Kernel::Bf16ScatterRows => {
            reveal_strlit("nnis_scatter_rows_bf16");
            assert(kernel.symbol_text().take(5) =~= "nnis_"@);
        },
        Kernel::LmHeadCandidates => {
            reveal_strlit("nnis_lm_head_argmax_candidates_f32");
            assert(kernel.symbol_text().take(5) =~= "nnis_"@);
        },
        Kernel::LmHeadReduce => {
            reveal_strlit("nnis_lm_head_argmax_reduce_f32");
            assert(kernel.symbol_text().take(5) =~= "nnis_"@);
        },
        Kernel::TopKFill => {
            reveal_strlit("nnis_topk_fill_f32");
            assert(kernel.symbol_text().take(5) =~= "nnis_"@);
        },
        Kernel::TopKMask => {
            reveal_strlit("nnis_topk_mask_f32");
            assert(kernel.symbol_text().take(5) =~= "nnis_"@);
        },
        Kernel::TopKArgmaxFirst => {
            reveal_strlit("nnis_topk_argmax_first_f32");
            assert(kernel.symbol_text().take(5) =~= "nnis_"@);
        },
        Kernel::TopKArgmaxPair => {
            reveal_strlit("nnis_topk_argmax_pair_f32");
            assert(kernel.symbol_text().take(5) =~= "nnis_"@);
        },
    }
}

/// The function over several heads is named after the one over a single head.
pub proof fn multihead_names()
    ensures
        Kernel::AttentionFusedMultihead.symbol_text()
            == with(Kernel::AttentionFused.symbol_text(), "_multihead"@, 20),
        Kernel::AttentionScaleCausalMultihead.symbol_text()
            == with(Kernel::AttentionScaleCausal.symbol_text(), "_multihead"@, 27),
        Kernel::Bf16AttentionFusedMultihead.symbol_text()
            == with(Kernel::Bf16AttentionFused.symbol_text(), "_multihead"@, 20),
{
    reveal_strlit("_multihead");
    reveal_strlit("nnis_attention_fused_multihead_f32");
    reveal_strlit("nnis_attention_fused_f32");
    reveal_strlit("nnis_attention_scale_causal_multihead_f32");
    reveal_strlit("nnis_attention_scale_causal_f32");
    reveal_strlit("nnis_attention_fused_multihead_bf16");
    reveal_strlit("nnis_attention_fused_bf16");
}

/// The batched products are named after the single ones.
pub proof fn batched_names()
    ensures
        Kernel::GemmBatched.symbol_text()
            == with(Kernel::Gemm.symbol_text(), "_batched"@, 9),
        Kernel::GemmNtBatched.symbol_text()
            == with(Kernel::GemmNt.symbol_text(), "_batched"@, 12),
{
    reveal_strlit("_batched");
    reveal_strlit("nnis_gemm_batched_f32");
    reveal_strlit("nnis_gemm_f32");
    reveal_strlit("nnis_gemm_nt_batched_f32");
    reveal_strlit("nnis_gemm_nt_f32");
}

/// The products with a transposed right factor are named after those without.
pub proof fn transposed_names()
    ensures
        Kernel::GemmNt.symbol_text()
            == with(Kernel::Gemm.symbol_text(), "_nt"@, 9),
        Kernel::GemmNtBatched.symbol_text()
            == with(Kernel::GemmBatched.symbol_text(), "_nt"@, 9),
        Kernel::Bf16GemmNt.symbol_text()
            == with(Kernel::Bf16Gemm.symbol_text(), "_nt"@, 14),
{
    reveal_strlit("_nt");
    reveal_strlit("nnis_gemm_nt_f32");
    reveal_strlit("nnis_gemm_f32");
    reveal_strlit("nnis_gemm_nt_batched_f32");
    reveal_strlit("nnis_gemm_batched_f32");
    reveal_strlit("nnis_bf16_gemm_nt_f32acc");
    reveal_strlit("nnis_bf16_gemm_f32acc");
}

/// The functions over packed bf16 that accumulate in `f32` are named after those over
/// `f32`.
pub proof fn accumulating_names()
    ensures
        Kernel::Bf16VectorAdd.symbol_text()
            == with(Kernel::VectorAdd.symbol_text(), "bf16_"@, 5) + "acc"@,
        Kernel::Bf16Scale.symbol_text()
            == with(Kernel::Scale.symbol_text(), "bf16_"@, 5) + "acc"@,
        Kernel::Bf16Affine.symbol_text()
            == with(Kernel::Affine.symbol_text(), "bf16_"@, 5) + "acc"@,
        Kernel::Bf16Gemm.symbol_text()
            == with(Kernel::Gemm.symbol_text(), "bf16_"@, 5) + "acc"@,
        Kernel::Bf16GemmNt.symbol_text()
            == with(Kernel::GemmNt.symbol_text(), "bf16_"@, 5) + "acc"@,
{
    reveal_strlit("acc");
    reveal_strlit("bf16_");
    reveal_strlit("nnis_bf16_vector_add_f32acc");
    reveal_strlit("nnis_vector_add_f32");
    reveal_strlit("nnis_bf16_scale_f32acc");
    reveal_strlit("nnis_scale_f32");
    reveal_strlit("nnis_bf16_affine_f32acc");
    reveal_strlit("nnis_affine_f32");
    reveal_strlit("nnis_bf16_gemm_f32acc");
    reveal_strlit("nnis_gemm_f32");
    reveal_strlit("nnis_bf16_gemm_nt_f32acc");
    reveal_strlit("nnis_gemm_nt_f32");
}

/// The first pass of a packed-bf16 reduction is named after the one over `f32`.
pub proof fn reduction_names()
    ensures
        Kernel::Bf16ReduceSum.symbol_text()
            == with(Kernel::ReduceSum.symbol_text(), "bf16_"@, 5),
        Kernel::Bf16ReduceMax.symbol_text()
            == with(Kernel::ReduceMax.symbol_text(), "bf16_"@, 5),
{
    reveal_strlit("bf16_");
    reveal_strlit("nnis_bf16_reduce_sum_f32");
    reveal_strlit("nnis_reduce_sum_f32");
    reveal_strlit("nnis_bf16_reduce_max_f32");
    reveal_strlit("nnis_reduce_max_f32");
}

/// Attention and the row moves over packed bf16 are named after those over `f32`.
pub proof fn packed_names()
    ensures
        Kernel::Bf16AttentionFused.symbol_text()
            == Kernel::AttentionFused.symbol_text().take(21) + "bf16"@,
        Kernel::Bf16AttentionFusedMultihead.symbol_text()
            == Kernel::AttentionFusedMultihead.symbol_text().take(31) + "bf16"@,
        Kernel::Bf16GatherRows.symbol_text()
            == Kernel::GatherRows.symbol_text().take(17) + "bf16"@,
        Kernel::Bf16ScatterRows.symbol_text()
            == Kernel::ScatterRows.symbol_text().take(18) + "bf16"@,
{
    reveal_strlit("bf16");
    reveal_strlit("nnis_attention_fused_bf16");
    reveal_strlit("nnis_attention_fused_f32");
    reveal_strlit("nnis_attention_fused_multihead_bf16");
    reveal_strlit("nnis_attention_fused_multihead_f32");
    reveal_strlit("nnis_gather_rows_bf16");
    reveal_strlit("nnis_gather_rows_f32");
    reveal_strlit("nnis_scatter_rows_bf16");
    reveal_strlit("nnis_scatter_rows_f32");
}

/// The row stages of the softmax are named after those over one row.
pub proof fn row_names()
    ensures
        Kernel::SoftmaxRowExpShift.symbol_text()
            == with(Kernel::SoftmaxExpShift.symbol_text(), "row_"@, 13),
        Kernel::SoftmaxRowNormalize.symbol_text()
            == with(Kernel::SoftmaxNormalize.symbol_text(), "row_"@, 13),
{
    reveal_strlit("row_");
    reveal_strlit("nnis_softmax_row_exp_shift_f32");
    reveal_strlit("nnis_softmax_exp_shift_f32");
    reveal_strlit("nnis_softmax_row_normalize_f32");
    reveal_strlit("nnis_softmax_normalize_f32");
}

} // verus!
