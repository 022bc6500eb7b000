//! The numbers that launches pass on, where no result depends on them.

use crate::device::{Probe, Stream, F32};
use crate::family::Family;
use crate::gather::{bf16_gather_plan, gather_plan, Lookup};
use crate::gemm::batched_plan;
use crate::heads::{fused_multihead_plan, fused_plan, AttentionMask, HeadKind, Heads};
use crate::launch::{Arguments, Kernel};
use crate::plan::{Action, PlanView};
use crate::product::Product;
use crate::scatter::{scatter_plan, Placement};
use vstd::prelude::*;

verus! {

/// Whether every launch of a plan passes these arguments.
pub open spec fn passes_on(plan: PlanView, arguments: Arguments) -> bool {
    forall|i: int|
        0 <= i < plan.steps.len() ==> ((#[trigger] plan.steps[i]).action matches Action::Launch(
            launch,
        ) ==> launch.arguments == arguments)
}

/// A batched product tells its kernel how many products there are and their
/// shape.
pub proof fn batched_products_pass_on_their_shape(
    family: Family,
    stream: Stream,
    p: Product,
    batches: usize,
    transposed_b: bool,
)
    requires
        batched_plan(family, stream, p, batches, transposed_b).outcome is Ok,
    ensures
        batches <= u32::MAX,
        passes_on(
            batched_plan(family, stream, p, batches, transposed_b),
            (Arguments::BatchedProduct {
                matrix_a: p.matrix_a.id,
                matrix_b: p.matrix_b.id,
                output: p.output.id,
                batches: batches as u32,
                m: p.m as u64,
                n: p.n as u64,
                k: p.k as u64,
            }),
        ),
{
}

/// Fused attention tells its kernel the shape of the heads, the scale and
/// whether later keys are masked.
pub proof fn fused_attention_passes_on_its_shape(
    kind: HeadKind,
    family: Family,
    stream: Stream,
    h: Heads,
    heads: usize,
    scale: F32,
    mask: AttentionMask,
    probe: Probe,
)
    ensures
        passes_on(
            fused_plan(kind, family, stream, h, scale, mask, probe),
            (Arguments::Attention {
                queries: h.queries.id,
                keys: h.keys.id,
                values: h.values.id,
                output: h.output.id,
                query_rows: h.query_rows as u64,
                head_dim: h.head_dim as u64,
                kv_rows: h.kv_rows as u64,
                value_dim: h.value_dim as u64,
                scale,
                causal: if mask == AttentionMask::Causal {
                    1
                } else {
                    0
                },
            }),
        ),
        fused_plan(kind, family, stream, h, scale, mask, probe).outcome is Ok && h.query_rows > 0
            ==> fused_plan(kind, family, stream, h, scale, mask, probe).steps.len() == 1,
        passes_on(
            fused_multihead_plan(kind, family, stream, h, heads, scale, mask, probe),
            (Arguments::MultiheadAttention {
                queries: h.queries.id,
                keys: h.keys.id,
                values: h.values.id,
                output: h.output.id,
                heads: heads as u32,
                query_rows: h.query_rows as u64,
                head_dim: h.head_dim as u64,
                kv_rows: h.kv_rows as u64,
                value_dim: h.value_dim as u64,
                scale,
                causal: if mask == AttentionMask::Causal {
                    1
                } else {
                    0
                },
            }),
        ),
        fused_multihead_plan(kind, family, stream, h, heads, scale, mask, probe).outcome is Ok
            && h.query_rows > 0 ==> {
            &&& heads <= u32::MAX
            &&& fused_multihead_plan(
                kind,
                family,
                stream,
                h,
                heads,
                scale,
                mask,
                probe,
            ).steps.len() == 1
        },
{
    if h.query_rows > 0 && heads * h.query_rows <= u32::MAX {
        assert(heads <= u32::MAX) by (nonlinear_arith)
            requires
                h.query_rows > 0,
                heads * h.query_rows <= u32::MAX,
        ;
    }
}

/// Row moves tell their kernel the rows of the table or the output, the width of
/// a row and how many rows move.
pub proof fn row_moves_pass_on_their_shape(
    name: &'static str,
    kernel: Kernel,
    family: Family,
    stream: Stream,
    lookup: Lookup,
    placement: Placement,
)
    ensures
        ({
            let arguments = Arguments::MoveRows {
                source: lookup.table.id,
                index: lookup.indices.id,
                output: lookup.output.id,
                rows: lookup.rows as u64,
                cols: lookup.cols as u64,
                count: lookup.indices.len as u64,
            };
            &&& passes_on(gather_plan(family, stream, lookup), arguments)
            &&& passes_on(bf16_gather_plan(family, stream, lookup), arguments)
        }),
        passes_on(
            scatter_plan(name, kernel, family, stream, placement),
            (Arguments::MoveRows {
                source: placement.source.id,
                index: placement.positions.id,
                output: placement.output.id,
                rows: placement.output_rows as u64,
                cols: placement.cols as u64,
                count: placement.positions.len as u64,
            }),
        ),
{
}

} // verus!
