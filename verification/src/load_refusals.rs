//! Which of the things that loading tests it reports.
//!
//! The width comes first, then the shared memory that it asks for, and then the
//! functions in the order in which they are loaded.

use crate::attention::{attention_load_check, AttentionProbes};
use crate::bf16::{bf16_load_check, Bf16Probes};
use crate::bf16_attention::bf16_attention_load_check;
use crate::bf16_gemm::{bf16_gemm_load_check, Bf16GemmProbes};
use crate::bf16_reduction::{bf16_reduction_load_check, Bf16ReductionProbes};
use crate::device::Probe;
use crate::elementwise::{elementwise_load_check, ElementwiseProbes};
use crate::error::{Checked, KernelError};
use crate::gather::gather_load_check;
use crate::gemm::{gemm_load_check, GemmProbes};
use crate::gemv::gemv_load_check;
use crate::int2_weight_gemv::int2_load_check;
use crate::lm_head_argmax::{lm_head_load_check, LmHeadProbes};
use crate::loading::powers_of_two;
use crate::mixed_weight_gemv::mixed_load_check;
use crate::reduction::reduction_load_check;
use crate::rms_norm::{rms_load_check, RmsNormProbes};
use crate::rope::{rope_load_check, RopeProbes};
use crate::row_softmax::{row_softmax_load_check, RowSoftmaxProbes};
use crate::scatter::scatter_load_check;
use crate::softmax::{softmax_load_check, SoftmaxProbes};
use crate::sparse_csc_gemv::sparse_load_check;
use crate::top_k::{top_k_load_check, TopKProbes};
use vstd::arithmetic::power2::pow2;
use vstd::prelude::*;

verus! {

/// The error of a check.
pub open spec fn refusal(check: Checked) -> Option<KernelError> {
    match check {
        Ok(_) => None,
        Err(e) => Some(e),
    }
}

/// The first of the errors.
pub open spec fn first_of(errors: Seq<Option<KernelError>>) -> Option<KernelError>
    decreases errors.len(),
{
    if errors.len() == 0 {
        None
    } else if errors[0] is Some {
        errors[0]
    } else {
        first_of(errors.drop_first())
    }
}

/// A block width has to be a power of two.
pub open spec fn width_refused(name: &'static str, width: u32) -> Option<KernelError> {
    if exists|n: nat| width == #[trigger] pow2(n) {
        None
    } else {
        Some(KernelError::BlockSize { family: name, size: width })
    }
}

/// A block width has to be positive.
pub open spec fn zero_refused(message: &'static str, width: u32) -> Option<KernelError> {
    if width == 0 {
        Some(KernelError::Fixed(message))
    } else {
        None
    }
}

/// The shared memory of a block has to be countable.
pub open spec fn bytes_refused(message: &'static str, width: u32, each: u32) -> Option<
    KernelError,
> {
    if width * each > u32::MAX {
        Some(KernelError::Fixed(message))
    } else {
        None
    }
}

/// A function has to take blocks of the width.
pub open spec fn threads_refused(name: &'static str, width: u32, probe: Probe) -> Option<
    KernelError,
> {
    match probe {
        Err(failure) => Some(KernelError::Device(failure)),
        Ok(limits) => if width > limits.max_threads_per_block {
            Some(
                KernelError::BlockLimit {
                    family: name,
                    size: width,
                    limit: limits.max_threads_per_block,
                },
            )
        } else {
            None
        },
    }
}

/// A function has to take as much shared memory.
pub open spec fn memory_refused(name: &'static str, bytes: u32, probe: Probe) -> Option<
    KernelError,
> {
    match probe {
        Err(failure) => Some(KernelError::Device(failure)),
        Ok(limits) => if bytes > limits.max_dynamic_shared_memory_bytes {
            Some(
                KernelError::SharedMemoryLimit {
                    family: name,
                    bytes,
                    limit: limits.max_dynamic_shared_memory_bytes,
                },
            )
        } else {
            None
        },
    }
}

/// A tile side has to be a power of two.
pub open spec fn side_refused(name: &'static str, side: u32) -> Option<KernelError> {
    if exists|n: nat| side == #[trigger] pow2(n) {
        None
    } else {
        Some(KernelError::TileSide { family: name, side })
    }
}

/// The shared memory of two tiles has to be countable.
pub open spec fn tile_bytes_refused(message: &'static str, side: u32) -> Option<KernelError> {
    if side * side * 8 > u32::MAX {
        Some(KernelError::Fixed(message))
    } else {
        None
    }
}

/// A function has to take a thread for every element of a tile.
pub open spec fn tile_refused(
    name: &'static str,
    side: u32,
    unit: &'static str,
    probe: Probe,
) -> Option<KernelError> {
    match probe {
        Err(failure) => Some(KernelError::Device(failure)),
        Ok(limits) => if side * side > limits.max_threads_per_block {
            Some(
                KernelError::TileThreads {
                    family: name,
                    side,
                    threads: (side * side) as u64,
                    unit,
                    limit: limits.max_threads_per_block,
                },
            )
        } else {
            None
        },
    }
}

/// A function has to be there.
pub open spec fn probe_refused(probe: Probe) -> Option<KernelError> {
    match probe {
        Err(failure) => Some(KernelError::Device(failure)),
        Ok(_) => None,
    }
}

/// Causal scaling may not take wider blocks than fused attention.
pub open spec fn uniform_refused(probes: AttentionProbes) -> Option<KernelError> {
    match (probes.scale_causal, probes.fused) {
        (Err(failure), _) => Some(KernelError::Device(failure)),
        (_, Err(failure)) => Some(KernelError::Device(failure)),
        (Ok(causal), Ok(fused)) => if causal.max_threads_per_block
            > fused.max_threads_per_block {
            Some(KernelError::Fixed("attention scale-causal kernel exceeds fused thread limit"))
        } else {
            None
        },
    }
}

/// Loading reports what is refused first, in this order.
pub proof fn attention_load_refusals(width: u32, probes: AttentionProbes)
    ensures
        refusal(attention_load_check(width, probes)) == first_of(seq![
            width_refused("attention", width),
            threads_refused("attention", width, probes.fused),
            uniform_refused(probes),
        ]),
{
    reveal_with_fuel(first_of, 4);
    powers_of_two(width as nat);
}

/// Loading reports what is refused first, in this order.
pub proof fn bf16_load_refusals(width: u32, probes: Bf16Probes)
    ensures
        refusal(bf16_load_check(width, probes)) == first_of(seq![
            zero_refused("bf16 block size is zero", width),
            threads_refused("bf16 vector_add", width, probes.vector_add),
            threads_refused("bf16 scale", width, probes.scale),
            threads_refused("bf16 affine", width, probes.affine),
            threads_refused("bf16 relu", width, probes.relu),
            threads_refused("bf16 silu", width, probes.silu),
            threads_refused("bf16 gelu_tanh", width, probes.gelu_tanh),
            threads_refused("bf16 widen", width, probes.widen),
            threads_refused("bf16 narrow", width, probes.narrow),
        ]),
{
    reveal_with_fuel(first_of, 10);
}

/// Loading reports what is refused first, in this order.
pub proof fn bf16_attention_load_refusals(width: u32, fused: Probe)
    ensures
        refusal(bf16_attention_load_check(width, fused)) == first_of(seq![
            width_refused("bf16 attention", width),
            threads_refused("bf16 attention", width, fused),
        ]),
{
    reveal_with_fuel(first_of, 3);
    powers_of_two(width as nat);
}

/// Loading reports what is refused first, in this order.
pub proof fn bf16_gemm_load_refusals(side: u32, probes: Bf16GemmProbes)
    ensures
        refusal(bf16_gemm_load_check(side, probes)) == first_of(seq![
            side_refused("bf16 gemm", side),
            tile_bytes_refused("bf16 gemm shared-memory size overflows", side),
            probe_refused(probes.gemm),
            probe_refused(probes.gemm_nt),
            tile_refused("bf16 gemm", side, "threads per block", probes.gemm),
            memory_refused("bf16 gemm", (side * side * 8) as u32, probes.gemm),
            tile_refused("bf16 gemm-nt", side, "threads", probes.gemm_nt),
            memory_refused("bf16 gemm-nt", (side * side * 8) as u32, probes.gemm_nt),
        ]),
{
    reveal_with_fuel(first_of, 9);
    powers_of_two(side as nat);
}

/// Loading reports what is refused first, in this order.
pub proof fn bf16_reduction_load_refusals(width: u32, probes: Bf16ReductionProbes)
    ensures
        refusal(bf16_reduction_load_check(width, probes)) == first_of(seq![
            width_refused("bf16 reduction", width),
            bytes_refused("bf16 shared-memory size overflows", width, 4),
            threads_refused("bf16 reduction", width, probes.bf16_sum),
            memory_refused("bf16 reduction", (width * 4) as u32, probes.bf16_sum),
            threads_refused("bf16 reduction", width, probes.bf16_max),
            memory_refused("bf16 reduction", (width * 4) as u32, probes.bf16_max),
            threads_refused("bf16 reduction", width, probes.sum),
            memory_refused("bf16 reduction", (width * 4) as u32, probes.sum),
            threads_refused("bf16 reduction", width, probes.max),
            memory_refused("bf16 reduction", (width * 4) as u32, probes.max),
        ]),
{
    reveal_with_fuel(first_of, 11);
    powers_of_two(width as nat);
}

/// Loading reports what is refused first, in this order.
pub proof fn elementwise_load_refusals(width: u32, probes: ElementwiseProbes)
    ensures
        refusal(elementwise_load_check(width, probes)) == first_of(seq![
            zero_refused("elementwise block size is zero", width),
            threads_refused("vector_add", width, probes.vector_add),
            threads_refused("scale", width, probes.scale),
            threads_refused("affine", width, probes.affine),
        ]),
{
    reveal_with_fuel(first_of, 5);
}

/// Loading reports what is refused first, in this order.
pub proof fn gather_load_refusals(name: &'static str, width: u32, probe: Probe)
    ensures
        refusal(gather_load_check(name, width, probe)) == first_of(seq![
            width_refused(name, width),
            threads_refused(name, width, probe),
        ]),
{
    reveal_with_fuel(first_of, 3);
    powers_of_two(width as nat);
}

/// Loading reports what is refused first, in this order.
pub proof fn gemm_load_refusals(side: u32, probes: GemmProbes)
    ensures
        refusal(gemm_load_check(side, probes)) == first_of(seq![
            side_refused("gemm", side),
            tile_bytes_refused("gemm shared-memory size overflows", side),
            probe_refused(probes.gemm),
            probe_refused(probes.gemm_nt),
            tile_refused("gemm", side, "threads per block", probes.gemm),
            memory_refused("gemm", (side * side * 8) as u32, probes.gemm),
            memory_refused("gemm-nt", (side * side * 8) as u32, probes.gemm_nt),
            tile_refused("gemm-batched", side, "threads per block", probes.gemm_batched),
            memory_refused("gemm-batched", (side * side * 8) as u32, probes.gemm_batched),
            tile_refused("gemm-nt-batched", side, "threads per block", probes.gemm_nt_batched),
            memory_refused("gemm-nt-batched", (side * side * 8) as u32, probes.gemm_nt_batched),
        ]),
{
    reveal_with_fuel(first_of, 12);
    powers_of_two(side as nat);
}

/// Loading reports what is refused first, in this order.
pub proof fn gemv_load_refusals(width: u32, probe: Probe)
    ensures
        refusal(gemv_load_check(width, probe)) == first_of(seq![
            width_refused("gemv", width),
            bytes_refused("gemv shared-memory size overflows", width, 4),
            threads_refused("gemv", width, probe),
            memory_refused("gemv", (width * 4) as u32, probe),
        ]),
{
    reveal_with_fuel(first_of, 5);
    powers_of_two(width as nat);
}

/// Loading reports what is refused first, in this order.
pub proof fn int2_load_refusals(width: u32, probe: Probe)
    ensures
        refusal(int2_load_check(width, probe)) == first_of(seq![
            width_refused("f32-int2 project", width),
            threads_refused("f32-int2 project", width, probe),
        ]),
{
    reveal_with_fuel(first_of, 3);
    powers_of_two(width as nat);
}

/// Loading reports what is refused first, in this order.
pub proof fn lm_head_load_refusals(width: u32, probes: LmHeadProbes)
    ensures
        refusal(lm_head_load_check(width, probes)) == first_of(seq![
            width_refused("LM-head argmax", width),
            bytes_refused("LM-head argmax shared-memory size overflows", width, 8),
            threads_refused("LM-head argmax", width, probes.candidates),
            memory_refused("LM-head argmax", (width * 8) as u32, probes.candidates),
            threads_refused("LM-head argmax", width, probes.reduce),
            memory_refused("LM-head argmax", (width * 8) as u32, probes.reduce),
        ]),
{
    reveal_with_fuel(first_of, 7);
    powers_of_two(width as nat);
}

/// Loading reports what is refused first, in this order.
pub proof fn mixed_load_refusals(width: u32, probe: Probe)
    ensures
        refusal(mixed_load_check(width, probe)) == first_of(seq![
            width_refused("f32-bf16 project", width),
            threads_refused("f32-bf16 project", width, probe),
        ]),
{
    reveal_with_fuel(first_of, 3);
    powers_of_two(width as nat);
}

/// Loading reports what is refused first, in this order.
pub proof fn reduction_load_refusals(width: u32, sum: Probe)
    ensures
        refusal(reduction_load_check(width, sum)) == first_of(seq![
            width_refused("reduction", width),
            bytes_refused("reduction shared-memory size overflows", width, 4),
            threads_refused("reduction", width, sum),
            memory_refused("reduction", (width * 4) as u32, sum),
        ]),
{
    reveal_with_fuel(first_of, 5);
    powers_of_two(width as nat);
}

/// Loading reports what is refused first, in this order.
pub proof fn rms_load_refusals(width: u32, probes: RmsNormProbes)
    ensures
        refusal(rms_load_check(width, probes)) == first_of(seq![
            width_refused("rms-norm", width),
            bytes_refused("rms-norm shared memory overflows", width, 4),
            threads_refused("rms-norm row_sumsq", width, probes.row_sumsq),
            memory_refused("rms-norm row_sumsq", (width * 4) as u32, probes.row_sumsq),
            threads_refused("rms-norm normalize", width, probes.normalize),
            threads_refused("rms-norm fused", width, probes.fused),
            memory_refused("rms-norm fused", (width * 4) as u32, probes.fused),
        ]),
{
    reveal_with_fuel(first_of, 8);
    powers_of_two(width as nat);
}

/// Loading reports what is refused first, in this order.
pub proof fn rope_load_refusals(width: u32, probes: RopeProbes)
    ensures
        refusal(rope_load_check(width, probes)) == first_of(seq![
            zero_refused("rope block size is zero", width),
            threads_refused("rope interleaved", width, probes.interleaved),
            threads_refused("rope rotate_half", width, probes.rotate_half),
        ]),
{
    reveal_with_fuel(first_of, 4);
}

/// Loading reports what is refused first, in this order.
pub proof fn row_softmax_load_refusals(width: u32, probes: RowSoftmaxProbes)
    ensures
        refusal(row_softmax_load_check(width, probes)) == first_of(seq![
            width_refused("row-softmax", width),
            bytes_refused("row-softmax shared memory overflows", width, 4),
            threads_refused("row-softmax row_max", width, probes.row_max),
            memory_refused("row-softmax row_max", (width * 4) as u32, probes.row_max),
            threads_refused("row-softmax exp_shift", width, probes.exp_shift),
            threads_refused("row-softmax row_sum", width, probes.row_sum),
            memory_refused("row-softmax row_sum", (width * 4) as u32, probes.row_sum),
            threads_refused("row-softmax normalize", width, probes.normalize),
            threads_refused("row-softmax fused", width, probes.fused),
        ]),
{
    reveal_with_fuel(first_of, 10);
    powers_of_two(width as nat);
}

/// Loading reports what is refused first, in this order.
pub proof fn scatter_load_refusals(name: &'static str, width: u32, probe: Probe)
    ensures
        refusal(scatter_load_check(name, width, probe)) == first_of(seq![
            width_refused(name, width),
            threads_refused(name, width, probe),
        ]),
{
    reveal_with_fuel(first_of, 3);
    powers_of_two(width as nat);
}

/// Loading reports what is refused first, in this order.
pub proof fn softmax_load_refusals(width: u32, probes: SoftmaxProbes)
    ensures
        refusal(softmax_load_check(width, probes)) == first_of(seq![
            zero_refused("softmax block size is zero", width),
            width_refused("reduction", 256),
            bytes_refused("reduction shared-memory size overflows", 256, 4),
            threads_refused("reduction", 256, probes.reduction),
            memory_refused("reduction", 1024, probes.reduction),
            threads_refused("softmax exp_shift", width, probes.exp_shift),
            threads_refused("softmax normalize", width, probes.normalize),
        ]),
{
    reveal_with_fuel(first_of, 8);
    powers_of_two(256);
}

/// Loading reports what is refused first, in this order.
pub proof fn sparse_load_refusals(width: u32, probe: Probe)
    ensures
        refusal(sparse_load_check(width, probe)) == first_of(seq![
            width_refused("f32-sparse-csc project", width),
            threads_refused("f32-sparse-csc project", width, probe),
        ]),
{
    reveal_with_fuel(first_of, 3);
    powers_of_two(width as nat);
}

/// Loading reports what is refused first, in this order.
pub proof fn top_k_load_refusals(width: u32, probes: TopKProbes)
    ensures
        refusal(top_k_load_check(width, probes)) == first_of(seq![
            width_refused("top-k", width),
            bytes_refused("top-k shared-memory size overflows", width, 8),
            threads_refused("top-k", width, probes.fill),
            threads_refused("top-k", width, probes.mask),
            threads_refused("top-k", width, probes.argmax_first),
            threads_refused("top-k", width, probes.argmax_pair),
            memory_refused("top-k", (width * 8) as u32, probes.argmax_first_memory),
            memory_refused("top-k", (width * 8) as u32, probes.argmax_pair_memory),
        ]),
{
    reveal_with_fuel(first_of, 9);
    powers_of_two(width as nat);
}

} // verus!
