//! Which block widths a family can be loaded with, and which shapes its fused
//! kernels can hold.

use crate::arith::power_of_two;
use crate::attention::{attention_load_check, AttentionProbes};
use crate::bf16::{bf16_load_check, Bf16Probes};
use crate::bf16_attention::bf16_attention_load_check;
use crate::bf16_gemm::{bf16_gemm_load_check, bf16_gemm_side_check, Bf16GemmProbes};
use crate::bf16_reduction::{
    bf16_reduction_load_check, bf16_reduction_width_check, Bf16ReductionProbes,
};
use crate::device::Probe;
use crate::elementwise::{elementwise_load_check, ElementwiseProbes};
use crate::family::{block_check, nonzero_check};
use crate::gather::gather_load_check;
use crate::gemm::{gemm_load_check, gemm_side_check, GemmProbes};
use crate::gemv::{gemv_load_check, gemv_width_check};
use crate::heads::{fused_head_check, head_fits, HeadKind, Heads};
use crate::int2_weight_gemv::int2_load_check;
use crate::lm_head_argmax::{lm_head_load_check, lm_head_width_check, LmHeadProbes};
use crate::mixed_weight_gemv::mixed_load_check;
use crate::reduction::{reduction_load_check, reduction_width_check};
use crate::rms_norm::{rms_load_check, rms_width_check, RmsNormProbes};
use crate::rope::{rope_load_check, RopeProbes};
use crate::row_softmax::{row_softmax_load_check, row_softmax_width_check, RowSoftmaxProbes};
use crate::rows::{fused_row_check, row_fits, RowKind};
use crate::scatter::scatter_load_check;
use crate::softmax::{softmax_load_check, SoftmaxProbes};
use crate::sparse_csc_gemv::sparse_load_check;
use crate::top_k::{top_k_load_check, top_k_width_check, TopKProbes};
use vstd::arithmetic::power2::{lemma2_to64, lemma_pow2_unfold, pow2};
use vstd::prelude::*;

verus! {

/// The powers of two are the powers of two: 1, 2, 4, 8 and so on.
pub proof fn powers_of_two(n: nat)
    ensures
        power_of_two(n) <==> exists|e: nat| n == #[trigger] pow2(e),
    decreases n,
{
    lemma2_to64();
    if n <= 1 {
        if n == 1 {
            assert(pow2(0) == 1);
        } else {
            assert forall|e: nat| n != #[trigger] pow2(e) by {
                vstd::arithmetic::power2::lemma_pow2_pos(e);
            }
        }
    } else {
        powers_of_two(n / 2);
        if power_of_two(n) {
            let e = choose|e: nat| n / 2 == #[trigger] pow2(e);
            lemma_pow2_unfold(e + 1);
            assert(n == pow2(e + 1));
        }
        if exists|e: nat| n == #[trigger] pow2(e) {
            let e = choose|e: nat| n == #[trigger] pow2(e);
            assert(e > 0);
            lemma_pow2_unfold(e);
            let before = (e - 1) as nat;
            assert(n / 2 == pow2(before));
        }
    }
}

/// The driver reported a function that takes blocks of this many threads.
pub open spec fn takes(probe: Probe, threads: int) -> bool {
    probe is Ok && threads <= probe->Ok_0.max_threads_per_block
}

/// The driver reported a function that takes this much dynamic shared memory.
pub open spec fn lends(probe: Probe, bytes: int) -> bool {
    probe is Ok && bytes <= probe->Ok_0.max_dynamic_shared_memory_bytes
}

/// Elementwise families load with every width that all their functions take.
pub proof fn elementwise_loading(
    width: u32,
    probes: ElementwiseProbes,
    bf16: Bf16Probes,
    rope: RopeProbes,
)
    ensures
        elementwise_load_check(width, probes) is Ok <==> {
            &&& width > 0
            &&& takes(probes.vector_add, width as int)
            &&& takes(probes.scale, width as int)
            &&& takes(probes.affine, width as int)
        },
        bf16_load_check(width, bf16) is Ok <==> {
            &&& width > 0
            &&& takes(bf16.vector_add, width as int)
            &&& takes(bf16.scale, width as int)
            &&& takes(bf16.affine, width as int)
            &&& takes(bf16.relu, width as int)
            &&& takes(bf16.silu, width as int)
            &&& takes(bf16.gelu_tanh, width as int)
            &&& takes(bf16.widen, width as int)
            &&& takes(bf16.narrow, width as int)
        },
        rope_load_check(width, rope) is Ok <==> {
            &&& width > 0
            &&& takes(rope.interleaved, width as int)
            &&& takes(rope.rotate_half, width as int)
        },
{
}

/// Projections and row moves load with every power of two that their function
/// takes.
pub proof fn projection_loading(name: &'static str, width: u32, probe: Probe)
    ensures
        mixed_load_check(width, probe) is Ok <==> power_of_two(width as nat) && takes(
            probe,
            width as int,
        ),
        int2_load_check(width, probe) is Ok <==> power_of_two(width as nat) && takes(
            probe,
            width as int,
        ),
        sparse_load_check(width, probe) is Ok <==> power_of_two(width as nat) && takes(
            probe,
            width as int,
        ),
        gather_load_check(name, width, probe) is Ok <==> power_of_two(width as nat) && takes(
            probe,
            width as int,
        ),
        scatter_load_check(name, width, probe) is Ok <==> power_of_two(width as nat) && takes(
            probe,
            width as int,
        ),
        bf16_attention_load_check(width, probe) is Ok <==> power_of_two(width as nat) && takes(
            probe,
            width as int,
        ),
        block_check(name, width) is Ok <==> power_of_two(width as nat),
        nonzero_check(name, width) is Ok <==> width > 0,
{
}

/// A power of two whose blocks have `bytes` of shared memory per thread.
pub open spec fn width_suits(width: u32, bytes: int) -> bool {
    power_of_two(width as nat) && width * bytes <= u32::MAX
}

/// A function takes blocks of the width with `bytes` of shared memory per
/// thread.
pub open spec fn suits(probe: Probe, width: u32, bytes: int) -> bool {
    takes(probe, width as int) && lends(probe, width * bytes)
}

/// Reducing families load with every power of two that their functions take,
/// with the shared memory of a partial per thread.
pub proof fn reduction_loading(
    width: u32,
    probe: Probe,
    bf16: Bf16ReductionProbes,
    softmax: SoftmaxProbes,
)
    ensures
        reduction_width_check(width) is Ok <==> width_suits(width, 4),
        reduction_load_check(width, probe) is Ok <==> width_suits(width, 4) && suits(
            probe,
            width,
            4,
        ),
        gemv_width_check(width) is Ok <==> width_suits(width, 4),
        gemv_load_check(width, probe) is Ok <==> width_suits(width, 4) && suits(probe, width, 4),
        bf16_reduction_width_check(width) is Ok <==> width_suits(width, 4),
        bf16_reduction_load_check(width, bf16) is Ok <==> {
            &&& width_suits(width, 4)
            &&& suits(bf16.bf16_sum, width, 4)
            &&& suits(bf16.bf16_max, width, 4)
            &&& suits(bf16.sum, width, 4)
            &&& suits(bf16.max, width, 4)
        },
        softmax_load_check(width, softmax) is Ok <==> {
            &&& width > 0
            &&& suits(softmax.reduction, 256, 4)
            &&& takes(softmax.exp_shift, width as int)
            &&& takes(softmax.normalize, width as int)
        },
{
    reveal_with_fuel(power_of_two, 10);
}

/// Row families load with every power of two that their functions take, with
/// the shared memory of a partial per thread where a function reduces.
pub proof fn row_loading(width: u32, softmax: RowSoftmaxProbes, rms: RmsNormProbes)
    ensures
        row_softmax_width_check(width) is Ok <==> width_suits(width, 4),
        row_softmax_load_check(width, softmax) is Ok <==> {
            &&& width_suits(width, 4)
            &&& suits(softmax.row_max, width, 4)
            &&& takes(softmax.exp_shift, width as int)
            &&& suits(softmax.row_sum, width, 4)
            &&& takes(softmax.normalize, width as int)
            &&& takes(softmax.fused, width as int)
        },
        rms_width_check(width) is Ok <==> width_suits(width, 4),
        rms_load_check(width, rms) is Ok <==> {
            &&& width_suits(width, 4)
            &&& suits(rms.row_sumsq, width, 4)
            &&& takes(rms.normalize, width as int)
            &&& suits(rms.fused, width, 4)
        },
{
}

/// Selectors load with every power of two that their functions take, with the
/// shared memory of a value and an index per thread where a function scans.
pub proof fn selector_loading(width: u32, top_k: TopKProbes, lm_head: LmHeadProbes)
    ensures
        top_k_width_check(width) is Ok <==> width_suits(width, 8),
        top_k_load_check(width, top_k) is Ok <==> {
            &&& width_suits(width, 8)
            &&& takes(top_k.fill, width as int)
            &&& takes(top_k.mask, width as int)
            &&& takes(top_k.argmax_first, width as int)
            &&& takes(top_k.argmax_pair, width as int)
            &&& lends(top_k.argmax_first_memory, width * 8)
            &&& lends(top_k.argmax_pair_memory, width * 8)
        },
        lm_head_width_check(width) is Ok <==> width_suits(width, 8),
        lm_head_load_check(width, lm_head) is Ok <==> {
            &&& width_suits(width, 8)
            &&& suits(lm_head.candidates, width, 8)
            &&& suits(lm_head.reduce, width, 8)
        },
{
}

/// Attention loads with every power of two that both functions take alike: the
/// masking function must not take wider blocks than the fused one.
pub proof fn attention_loading(width: u32, probes: AttentionProbes)
    ensures
        attention_load_check(width, probes) is Ok <==> {
            &&& power_of_two(width as nat)
            &&& takes(probes.fused, width as int)
            &&& probes.scale_causal is Ok
            &&& probes.scale_causal->Ok_0.max_threads_per_block
                <= probes.fused->Ok_0.max_threads_per_block
        },
{
}

/// Two tiles of `side * side` floats are countable in 32 bits.
pub open spec fn side_suits(side: u32) -> bool {
    power_of_two(side as nat) && side * side * 8 <= u32::MAX
}

/// Products load with every power of two whose tiles their functions take as
/// blocks, with the shared memory of two tiles.
pub proof fn product_loading(side: u32, probes: GemmProbes, bf16: Bf16GemmProbes)
    ensures
        gemm_side_check(side) is Ok <==> side_suits(side),
        gemm_load_check(side, probes) is Ok <==> {
            &&& side_suits(side)
            &&& takes(probes.gemm, side * side)
            &&& lends(probes.gemm, side * side * 8)
            &&& lends(probes.gemm_nt, side * side * 8)
            &&& takes(probes.gemm_batched, side * side)
            &&& lends(probes.gemm_batched, side * side * 8)
            &&& takes(probes.gemm_nt_batched, side * side)
            &&& lends(probes.gemm_nt_batched, side * side * 8)
        },
        bf16_gemm_side_check(side) is Ok <==> side_suits(side),
        bf16_gemm_load_check(side, bf16) is Ok <==> {
            &&& side_suits(side)
            &&& takes(bf16.gemm, side * side)
            &&& lends(bf16.gemm, side * side * 8)
            &&& takes(bf16.gemm_nt, side * side)
            &&& lends(bf16.gemm_nt, side * side * 8)
        },
{
}

/// A row operation can be fused exactly where a row and a partial per thread
/// fit the dynamic shared memory.
pub proof fn rows_fuse(kind: RowKind, width: u32, cols: usize, probe: Probe)
    ensures
        row_fits(width, cols, probe) <==> 4 * (cols + width) <= usize::MAX && lends(
            probe,
            4 * (cols + width),
        ),
        fused_row_check(kind, width, cols, probe) is Ok <==> row_fits(width, cols, probe),
{
}

/// Attention can be fused exactly where a chunk of keys and one of values, a
/// score and a weight per thread, a query and an output row fit the dynamic
/// shared memory.
pub proof fn heads_fuse(kind: HeadKind, width: u32, h: Heads, probe: Probe)
    ensures
        ({
            let floats = width * (h.head_dim + h.value_dim + 2) + h.head_dim + h.value_dim;
            &&& head_fits(width, h.head_dim, h.value_dim, probe) <==> 4 * floats <= usize::MAX
                && lends(probe, 4 * floats)
            &&& fused_head_check(kind, width, h, probe) is Ok <==> head_fits(
                width,
                h.head_dim,
                h.value_dim,
                probe,
            )
        }),
{
    assert(width * (h.head_dim + h.value_dim + 2) == width * h.head_dim + width * h.value_dim
        + width * 2) by (nonlinear_arith);
}

} // verus!
