//! Scaled dot-product attention over packed-bf16 heads.
//!
//! The fused kernel widens while staging and narrows once at the final store.
//! The composed paths widen every operand and run the `f32` pipeline, or keep
//! quantized scores and probabilities between the stages.

use crate::arith::{fits, power_of_two};
use crate::attention::{
    composed_in, composed_multihead_plan, composed_multihead_stages_fit_together, composed_plan,
    composed_stages_fit_together, product_grids_fit, scale_causal_plan, score_product,
    value_product, ComposedFamilies, F32Attention,
};
use crate::bf16::{narrow_plan, widen_plan, Bf16Elementwise};
use crate::bf16_gemm::Bf16Gemm;
use crate::device::{BufferId, ContextId, DeviceBuffer, Element, Probe, Scratch, Stream, F32};
use crate::elementwise::{awaited, scale_plan, F32Elementwise};
use crate::error::{Checked, KernelError};
use crate::family::{
    both, block_check, check_block, check_threads, loads, threads_check, Family,
};
use crate::gemm::F32Gemm;
use crate::heads::{
    causal_check, check_causal, check_head, check_multihead, fused_head_bytes,
    fused_multihead_plan, fused_plan, head_bytes, head_check, head_fits, is_head_fitting,
    multihead_check, plan_fused, plan_fused_multihead, AttentionMask, HeadKind, Heads,
};
use crate::plan::{Action, Plan, PlanView};
use crate::product::{product_plan, ProductKind};
use crate::row_softmax::{dispatch_serves_every_width, softmax_dispatch_plan, F32Softmax2D};
use crate::rows::{FusedProbes, Rows};
use vstd::prelude::*;

verus! {

/// The block width of [`Bf16Attention::load`].
pub const DEFAULT_BLOCK_SIZE: u32 = 64;

/// Context-bound scaled dot-product attention over packed-bf16 heads.
#[derive(Debug)]
pub struct Bf16Attention {
    family: Family,
}

impl View for Bf16Attention {
    type V = Family;

    closed spec fn view(&self) -> Family {
        self.family
    }
}

/// All checks of loading, in the order in which they decide.
pub open spec fn bf16_attention_load_check(width: u32, fused: Probe) -> Checked {
    both(block_check("bf16 attention", width), threads_check("bf16 attention", width, fused))
}

/// An allocation of a composed operation.
pub open spec fn wide(context: ContextId, role: Scratch, len: usize) -> DeviceBuffer {
    DeviceBuffer { id: BufferId::Scratch(role), len, context }
}

/// The widened counterparts of packed operands.
pub open spec fn wide_heads(context: ContextId, h: Heads) -> Heads {
    Heads {
        queries: wide(context, Scratch::WideQueries, h.queries.len),
        keys: wide(context, Scratch::WideKeys, h.keys.len),
        values: wide(context, Scratch::WideValues, h.values.len),
        output: wide(context, Scratch::WideOutput, h.output.len),
        query_rows: h.query_rows,
        head_dim: h.head_dim,
        kv_rows: h.kv_rows,
        value_dim: h.value_dim,
    }
}

/// The allocation of the widened operands, and the widening of the inputs.
pub open spec fn widening(conversions: Family, h: Heads, w: Heads) -> PlanView {
    PlanView::one(Action::Allocate { buffer: w.queries, element: Element::F32 }).followed_by(
        PlanView::one(Action::Allocate { buffer: w.keys, element: Element::F32 }),
    ).followed_by(
        PlanView::one(Action::Allocate { buffer: w.values, element: Element::F32 }),
    ).followed_by(
        PlanView::one(Action::Allocate { buffer: w.output, element: Element::F32 }),
    ).followed_by(awaited(widen_plan(conversions, h.queries, w.queries))).followed_by(
        awaited(widen_plan(conversions, h.keys, w.keys)),
    ).followed_by(awaited(widen_plan(conversions, h.values, w.values)))
}

/// Composed attention over one packed-bf16 head: the `f32` pipeline between
/// an exact widening and one narrowing.
pub open spec fn bf16_composed_plan(
    family: Family,
    conversions: Family,
    f: ComposedFamilies,
    stream: Stream,
    h: Heads,
    scale: F32,
    mask: AttentionMask,
    probes: FusedProbes,
) -> PlanView {
    let w = wide_heads(family.context, h);
    PlanView::checked(head_check(HeadKind::Bf16, family, stream, h)).followed_by(
        PlanView::checked(causal_check(h, mask)),
    ).followed_by(
        if h.query_rows == 0 {
            PlanView::done()
        } else {
            widening(conversions, h, w).followed_by(
                composed_plan(f, stream, w, scale, mask, probes),
            ).followed_by(awaited(narrow_plan(conversions, w.output, h.output)))
        },
    )
}

/// Composed attention over several packed-bf16 heads.
pub open spec fn bf16_composed_multihead_plan(
    family: Family,
    conversions: Family,
    f: ComposedFamilies,
    stream: Stream,
    h: Heads,
    heads: usize,
    scale: F32,
    mask: AttentionMask,
    probes: FusedProbes,
) -> PlanView {
    let w = wide_heads(family.context, h);
    PlanView::checked(multihead_check(HeadKind::Bf16, family, stream, h, heads)).followed_by(
        PlanView::checked(causal_check(h, mask)),
    ).followed_by(
        if h.query_rows == 0 {
            PlanView::done()
        } else {
            widening(conversions, h, w).followed_by(
                composed_multihead_plan(f, stream, w, heads, scale, mask, probes),
            ).followed_by(awaited(narrow_plan(conversions, w.output, h.output)))
        },
    )
}

/// The families that quantized composed attention runs through.
pub struct QuantizedFamilies {
    pub family: Family,
    pub conversions: Family,
    pub attention: Family,
    pub gemm: Family,
    pub elementwise: Family,
    pub softmax: Family,
}

/// The score matrix must be countable.
pub open spec fn scores_check(h: Heads) -> Checked {
    if !fits(h.query_rows * h.kv_rows) {
        Err(KernelError::Rule { family: "bf16 attention", rule: "shape overflows usize" })
    } else {
        Ok(())
    }
}

/// The stages of quantized composed attention: packed scores, widened for
/// scaling, masking and softmax, narrowed again, and multiplied by the packed
/// values.
pub open spec fn quantized_stages(
    f: QuantizedFamilies,
    stream: Stream,
    h: Heads,
    scale: F32,
    mask: AttentionMask,
    probes: FusedProbes,
) -> PlanView {
    let elements = (h.query_rows * h.kv_rows) as usize;
    let packed = wide(f.family.context, Scratch::PackedScores, elements);
    let probs = wide(f.family.context, Scratch::WideProbabilities, elements);
    PlanView::checked(scores_check(h)).followed_by(
        PlanView::one(Action::Allocate { buffer: packed, element: Element::Bf16 }),
    ).followed_by(
        PlanView::one(Action::Allocate { buffer: probs, element: Element::F32 }),
    ).followed_by(
        product_plan(
            ProductKind::Bf16TransposedB,
            f.gemm,
            stream,
            score_product(h, packed),
        ).synchronized(),
    ).followed_by(awaited(widen_plan(f.conversions, packed, probs))).followed_by(
        if mask == AttentionMask::Causal {
            awaited(
                scale_causal_plan(
                    f.attention,
                    stream,
                    probs,
                    probs,
                    h.query_rows,
                    h.kv_rows,
                    scale,
                ),
            )
        } else {
            awaited(scale_plan(f.elementwise, probs, probs, scale))
        },
    ).followed_by(
        softmax_dispatch_plan(
            f.softmax,
            stream,
            Rows { input: probs, output: probs, rows: h.query_rows, cols: h.kv_rows },
            probes,
        ),
    ).followed_by(awaited(narrow_plan(f.conversions, probs, packed))).followed_by(
        product_plan(
            ProductKind::Bf16,
            f.gemm,
            stream,
            value_product(h, packed),
        ).synchronized(),
    )
}

/// Quantized composed attention over one packed-bf16 head.
pub open spec fn quantized_plan(
    f: QuantizedFamilies,
    stream: Stream,
    h: Heads,
    scale: F32,
    mask: AttentionMask,
    probes: FusedProbes,
) -> PlanView {
    PlanView::checked(head_check(HeadKind::Bf16, f.family, stream, h)).followed_by(
        PlanView::checked(causal_check(h, mask)),
    ).followed_by(
        if h.query_rows == 0 {
            PlanView::done()
        } else {
            quantized_stages(f, stream, h, scale, mask, probes)
        },
    )
}

impl Bf16Attention {
    #[verifier::type_invariant]
    spec fn ready(self) -> bool {
        power_of_two(self.family.width as nat)
    }

    /// Checks a block width before anything is compiled.
    pub fn check_block_size(block_size: u32) -> (check: Checked)
        ensures
            check == block_check("bf16 attention", block_size),
    {
        check_block("bf16 attention", block_size)
    }

    /// Accepts the compiled functions with the default block width.
    pub fn load(context: ContextId, fused: Probe) -> (result: Result<Bf16Attention, KernelError>)
        ensures
            loads(
                result,
                bf16_attention_load_check(DEFAULT_BLOCK_SIZE, fused),
                Family { context, width: DEFAULT_BLOCK_SIZE },
            ),
    {
        Self::load_with_block_size(context, DEFAULT_BLOCK_SIZE, fused)
    }

    /// Accepts the compiled functions with an explicitly selected
    /// power-of-two width.
    pub fn load_with_block_size(
        context: ContextId,
        block_size: u32,
        fused: Probe,
    ) -> (result: Result<Bf16Attention, KernelError>)
        ensures
            loads(
                result,
                bf16_attention_load_check(block_size, fused),
                Family { context, width: block_size },
            ),
    {
        check_block("bf16 attention", block_size)?;
        check_threads("bf16 attention", block_size, fused)?;
        Ok(Bf16Attention { family: Family { context, width: block_size } })
    }

    /// Thread-block width; also the streamed key-chunk length.
    pub fn block_size(&self) -> (width: u32)
        ensures
            width == self@.width,
            power_of_two(width as nat),
    {
        proof {
            use_type_invariant(self);
        }
        self.family.width
    }

    /// Dynamic shared-memory bytes the fused path needs for these head shapes
    /// at this family's width.
    pub fn fused_shared_memory_bytes(
        &self,
        head_dim: usize,
        value_dim: usize,
    ) -> (bytes: Option<usize>)
        ensures
            bytes == (if fits(head_bytes(self@.width, head_dim, value_dim)) {
                Some(head_bytes(self@.width, head_dim, value_dim) as usize)
            } else {
                None::<usize>
            }),
    {
        fused_head_bytes(self.family.width, head_dim, value_dim)
    }

    /// Whether the fused path can run these head shapes with the function's
    /// dynamic shared-memory limit.
    pub fn fused_available(&self, head_dim: usize, value_dim: usize, fused: Probe) -> (answer: bool)
        ensures
            answer == head_fits(self@.width, head_dim, value_dim, fused),
    {
        is_head_fitting(self.family.width, head_dim, value_dim, fused)
    }

    /// Plans fused attention for one head with a wait.
    pub fn attention_fused(
        &self,
        stream: &Stream,
        queries: &DeviceBuffer,
        keys: &DeviceBuffer,
        values: &DeviceBuffer,
        output: &DeviceBuffer,
        query_rows: usize,
        head_dim: usize,
        kv_rows: usize,
        value_dim: usize,
        scale: F32,
        mask: AttentionMask,
        fused: Probe,
    ) -> (plan: Plan)
        ensures
            plan@ == fused_plan(
                HeadKind::Bf16,
                self@,
                *stream,
                Heads {
                    queries: *queries,
                    keys: *keys,
                    values: *values,
                    output: *output,
                    query_rows,
                    head_dim,
                    kv_rows,
                    value_dim,
                },
                scale,
                mask,
                fused,
            ).synchronized(),
    {
        self.enqueue_attention_fused(
            stream,
            queries,
            keys,
            values,
            output,
            query_rows,
            head_dim,
            kv_rows,
            value_dim,
            scale,
            mask,
            fused,
        ).synchronized()
    }

    /// Plans fused attention for one head without a wait.
    pub fn enqueue_attention_fused(
        &self,
        stream: &Stream,
        queries: &DeviceBuffer,
        keys: &DeviceBuffer,
        values: &DeviceBuffer,
        output: &DeviceBuffer,
        query_rows: usize,
        head_dim: usize,
        kv_rows: usize,
        value_dim: usize,
        scale: F32,
        mask: AttentionMask,
        fused: Probe,
    ) -> (plan: Plan)
        ensures
            plan@ == fused_plan(
                HeadKind::Bf16,
                self@,
                *stream,
                Heads {
                    queries: *queries,
                    keys: *keys,
                    values: *values,
                    output: *output,
                    query_rows,
                    head_dim,
                    kv_rows,
                    value_dim,
                },
                scale,
                mask,
                fused,
            ),
    {
        let h = &Heads {
            queries: *queries,
            keys: *keys,
            values: *values,
            output: *output,
            query_rows,
            head_dim,
            kv_rows,
            value_dim,
        };
        plan_fused(HeadKind::Bf16, self.family, stream, h, scale, mask, fused)
    }

    /// Plans fused attention over packed heads with a wait.
    pub fn attention_fused_multihead(
        &self,
        stream: &Stream,
        queries: &DeviceBuffer,
        keys: &DeviceBuffer,
        values: &DeviceBuffer,
        output: &DeviceBuffer,
        num_heads: usize,
        query_rows: usize,
        head_dim: usize,
        kv_rows: usize,
        value_dim: usize,
        scale: F32,
        mask: AttentionMask,
        fused: Probe,
    ) -> (plan: Plan)
        ensures
            plan@ == fused_multihead_plan(
                HeadKind::Bf16,
                self@,
                *stream,
                Heads {
                    queries: *queries,
                    keys: *keys,
                    values: *values,
                    output: *output,
                    query_rows,
                    head_dim,
                    kv_rows,
                    value_dim,
                },
                num_heads,
                scale,
                mask,
                fused,
            ).synchronized(),
    {
        self.enqueue_attention_fused_multihead(
            stream,
            queries,
            keys,
            values,
            output,
            num_heads,
            query_rows,
            head_dim,
            kv_rows,
            value_dim,
            scale,
            mask,
            fused,
        ).synchronized()
    }

    /// Plans fused attention over packed heads without a wait.
    pub fn enqueue_attention_fused_multihead(
        &self,
        stream: &Stream,
        queries: &DeviceBuffer,
        keys: &DeviceBuffer,
        values: &DeviceBuffer,
        output: &DeviceBuffer,
        num_heads: usize,
        query_rows: usize,
        head_dim: usize,
        kv_rows: usize,
        value_dim: usize,
        scale: F32,
        mask: AttentionMask,
        fused: Probe,
    ) -> (plan: Plan)
        ensures
            plan@ == fused_multihead_plan(
                HeadKind::Bf16,
                self@,
                *stream,
                Heads {
                    queries: *queries,
                    keys: *keys,
                    values: *values,
                    output: *output,
                    query_rows,
                    head_dim,
                    kv_rows,
                    value_dim,
                },
                num_heads,
                scale,
                mask,
                fused,
            ),
    {
        let h = &Heads {
            queries: *queries,
            keys: *keys,
            values: *values,
            output: *output,
            query_rows,
            head_dim,
            kv_rows,
            value_dim,
        };
        plan_fused_multihead(
            HeadKind::Bf16,
            self.family,
            stream,
            h,
            num_heads,
            scale,
            mask,
            fused,
        )
    }

    fn widened(&self, h: &Heads) -> (w: Heads)
        ensures
            w == wide_heads(self@.context, *h),
    {
        Heads {
            queries: self.scratch(Scratch::WideQueries, h.queries.len),
            keys: self.scratch(Scratch::WideKeys, h.keys.len),
            values: self.scratch(Scratch::WideValues, h.values.len),
            output: self.scratch(Scratch::WideOutput, h.output.len),
            query_rows: h.query_rows,
            head_dim: h.head_dim,
            kv_rows: h.kv_rows,
            value_dim: h.value_dim,
        }
    }

    fn scratch(&self, role: Scratch, len: usize) -> (buffer: DeviceBuffer)
        ensures
            buffer == wide(self@.context, role, len),
    {
        DeviceBuffer { id: BufferId::Scratch(role), len, context: self.family.context }
    }

    fn widen_all(
        conversions: &Bf16Elementwise,
        stream: &Stream,
        h: &Heads,
        w: &Heads,
    ) -> (plan: Plan)
        ensures
            plan@ == widening(conversions@, *h, *w),
    {
        Plan::one(Action::Allocate { buffer: w.queries, element: Element::F32 }).followed_by(
            Plan::one(Action::Allocate { buffer: w.keys, element: Element::F32 }),
        ).followed_by(
            Plan::one(Action::Allocate { buffer: w.values, element: Element::F32 }),
        ).followed_by(
            Plan::one(Action::Allocate { buffer: w.output, element: Element::F32 }),
        ).followed_by(conversions.widen(stream, &h.queries, &w.queries)).followed_by(
            conversions.widen(stream, &h.keys, &w.keys),
        ).followed_by(conversions.widen(stream, &h.values, &w.values))
    }

    /// Plans composed attention for one head: exact widening of every
    /// operand, the `f32` pipeline, and one narrowing.
    pub fn attention_composed(
        &self,
        conversions: &Bf16Elementwise,
        attention: &F32Attention,
        gemm: &F32Gemm,
        elementwise: &F32Elementwise,
        softmax_2d: &F32Softmax2D,
        stream: &Stream,
        queries: &DeviceBuffer,
        keys: &DeviceBuffer,
        values: &DeviceBuffer,
        output: &DeviceBuffer,
        query_rows: usize,
        head_dim: usize,
        kv_rows: usize,
        value_dim: usize,
        scale: F32,
        mask: AttentionMask,
        probes: &FusedProbes,
    ) -> (plan: Plan)
        ensures
            plan@ == bf16_composed_plan(
                self@,
                conversions@,
                ComposedFamilies {
                    attention: attention@,
                    gemm: gemm@,
                    elementwise: elementwise@,
                    softmax: softmax_2d@,
                },
                *stream,
                Heads {
                    queries: *queries,
                    keys: *keys,
                    values: *values,
                    output: *output,
                    query_rows,
                    head_dim,
                    kv_rows,
                    value_dim,
                },
                scale,
                mask,
                *probes,
            ),
    {
        let h = &Heads {
            queries: *queries,
            keys: *keys,
            values: *values,
            output: *output,
            query_rows,
            head_dim,
            kv_rows,
            value_dim,
        };
        match self.validate_execution(stream, h) {
            Err(error) => {
                return Plan::rejected(error);
            },
            Ok(()) => {},
        }
        match check_causal(h, mask) {
            Err(error) => {
                return Plan::rejected(error);
            },
            Ok(()) => {},
        }
        if h.query_rows == 0 {
            return Plan::done();
        }
        let w = self.widened(h);
        Self::widen_all(conversions, stream, h, &w).followed_by(
            attention.attention_composed(
                gemm,
                elementwise,
                softmax_2d,
                stream,
                &w.queries,
                &w.keys,
                &w.values,
                &w.output,
                w.query_rows,
                w.head_dim,
                w.kv_rows,
                w.value_dim,
                scale,
                mask,
                probes,
            ),
        ).followed_by(conversions.narrow(stream, &w.output, &h.output))
    }

    /// Plans composed attention with fully quantized intermediates: scores
    /// and probabilities are kept as packed bf16 between the stages.
    pub fn attention_composed_quantized(
        &self,
        conversions: &Bf16Elementwise,
        attention: &F32Attention,
        bf16_gemm: &Bf16Gemm,
        elementwise: &F32Elementwise,
        softmax_2d: &F32Softmax2D,
        stream: &Stream,
        queries: &DeviceBuffer,
        keys: &DeviceBuffer,
        values: &DeviceBuffer,
        output: &DeviceBuffer,
        query_rows: usize,
        head_dim: usize,
        kv_rows: usize,
        value_dim: usize,
        scale: F32,
        mask: AttentionMask,
        probes: &FusedProbes,
    ) -> (plan: Plan)
        ensures
            plan@ == quantized_plan(
                QuantizedFamilies {
                    family: self@,
                    conversions: conversions@,
                    attention: attention@,
                    gemm: bf16_gemm@,
                    elementwise: elementwise@,
                    softmax: softmax_2d@,
                },
                *stream,
                Heads {
                    queries: *queries,
                    keys: *keys,
                    values: *values,
                    output: *output,
                    query_rows,
                    head_dim,
                    kv_rows,
                    value_dim,
                },
                scale,
                mask,
                *probes,
            ),
    {
        let h = &Heads {
            queries: *queries,
            keys: *keys,
            values: *values,
            output: *output,
            query_rows,
            head_dim,
            kv_rows,
            value_dim,
        };
        match self.validate_execution(stream, h) {
            Err(error) => {
                return Plan::rejected(error);
            },
            Ok(()) => {},
        }
        match check_causal(h, mask) {
            Err(error) => {
                return Plan::rejected(error);
            },
            Ok(()) => {},
        }
        if h.query_rows == 0 {
            return Plan::done();
        }
        let elements: usize = match h.query_rows.checked_mul(h.kv_rows) {
            Some(elements) => elements,
            None => {
                return Plan::rejected(
                    KernelError::Rule { family: "bf16 attention", rule: "shape overflows usize" },
                );
            },
        };
        let packed = self.scratch(Scratch::PackedScores, elements);
        let probs = self.scratch(Scratch::WideProbabilities, elements);
        let scaling = match mask {
            AttentionMask::Causal => attention.enqueue_scale_causal(
                stream,
                &probs,
                &probs,
                h.query_rows,
                h.kv_rows,
                scale,
            ).awaited(),
            AttentionMask::Unmasked => elementwise.scale(stream, &probs, &probs, scale),
        };
        Plan::one(Action::Allocate { buffer: packed, element: Element::Bf16 }).followed_by(
            Plan::one(Action::Allocate { buffer: probs, element: Element::F32 }),
        ).followed_by(
            bf16_gemm.gemm_transposed_b(
                stream,
                queries,
                keys,
                &packed,
                query_rows,
                kv_rows,
                head_dim,
            ),
        ).followed_by(conversions.widen(stream, &packed, &probs)).followed_by(scaling).followed_by(
            softmax_2d.softmax_rows_dispatched(
                stream,
                &probs,
                &probs,
                query_rows,
                kv_rows,
                probes,
            ),
        ).followed_by(conversions.narrow(stream, &probs, &packed)).followed_by(
            bf16_gemm.gemm(stream, &packed, values, output, query_rows, value_dim, kv_rows),
        )
    }

    /// Plans composed attention over packed heads: exact widening of every
    /// operand, the packed `f32` pipeline, and one narrowing.
    pub fn attention_composed_multihead(
        &self,
        conversions: &Bf16Elementwise,
        attention: &F32Attention,
        gemm: &F32Gemm,
        elementwise: &F32Elementwise,
        softmax_2d: &F32Softmax2D,
        stream: &Stream,
        queries: &DeviceBuffer,
        keys: &DeviceBuffer,
        values: &DeviceBuffer,
        output: &DeviceBuffer,
        num_heads: usize,
        query_rows: usize,
        head_dim: usize,
        kv_rows: usize,
        value_dim: usize,
        scale: F32,
        mask: AttentionMask,
        probes: &FusedProbes,
    ) -> (plan: Plan)
        ensures
            plan@ == bf16_composed_multihead_plan(
                self@,
                conversions@,
                ComposedFamilies {
                    attention: attention@,
                    gemm: gemm@,
                    elementwise: elementwise@,
                    softmax: softmax_2d@,
                },
                *stream,
                Heads {
                    queries: *queries,
                    keys: *keys,
                    values: *values,
                    output: *output,
                    query_rows,
                    head_dim,
                    kv_rows,
                    value_dim,
                },
                num_heads,
                scale,
                mask,
                *probes,
            ),
    {
        let h = &Heads {
            queries: *queries,
            keys: *keys,
            values: *values,
            output: *output,
            query_rows,
            head_dim,
            kv_rows,
            value_dim,
        };
        match self.validate_multihead_execution(stream, h, num_heads) {
            Err(error) => {
                return Plan::rejected(error);
            },
            Ok(()) => {},
        }
        match check_causal(h, mask) {
            Err(error) => {
                return Plan::rejected(error);
            },
            Ok(()) => {},
        }
        if h.query_rows == 0 {
            return Plan::done();
        }
        let w = self.widened(h);
        Self::widen_all(conversions, stream, h, &w).followed_by(
            attention.attention_composed_multihead(
                gemm,
                elementwise,
                softmax_2d,
                stream,
                &w.queries,
                &w.keys,
                &w.values,
                &w.output,
                num_heads,
                w.query_rows,
                w.head_dim,
                w.kv_rows,
                w.value_dim,
                scale,
                mask,
                probes,
            ),
        ).followed_by(conversions.narrow(stream, &w.output, &h.output))
    }

    /// Checks the operands of one head.
    pub fn validate_execution(&self, stream: &Stream, h: &Heads) -> (check: Checked)
        ensures
            check == head_check(HeadKind::Bf16, self@, *stream, *h),
    {
        check_head(HeadKind::Bf16, self.family, stream, h)
    }

    /// Checks the operands of several packed heads.
    pub fn validate_multihead_execution(
        &self,
        stream: &Stream,
        h: &Heads,
        num_heads: usize,
    ) -> (check: Checked)
        ensures
            check == multihead_check(HeadKind::Bf16, self@, *stream, *h, num_heads),
    {
        check_multihead(HeadKind::Bf16, self.family, stream, h, num_heads)
    }
}

/// The stages of composed packed-bf16 attention fit together: once the
/// operands are accepted, with everything in one context and grids the device
/// can express, no stage refuses what the stage before it hands over.
pub proof fn bf16_composed_stages_fit_together(
    family: Family,
    conversions: Family,
    f: ComposedFamilies,
    stream: Stream,
    h: Heads,
    scale: F32,
    mask: AttentionMask,
    probes: FusedProbes,
)
    requires
        head_check(HeadKind::Bf16, family, stream, h) is Ok,
        causal_check(h, mask) is Ok,
        fits(h.query_rows * h.kv_rows),
        composed_in(f, stream, stream.context),
        product_grids_fit(f.gemm.width, h),
        h.query_rows <= u32::MAX,
        probes.fused == probes.available,
    ensures
        bf16_composed_plan(
            family,
            conversions,
            f,
            stream,
            h,
            scale,
            mask,
            probes,
        ).outcome is Ok,
{
    if h.query_rows > 0 {
        let w = wide_heads(family.context, h);
        composed_stages_fit_together(f, stream, w, scale, mask, probes);
        assert(widening(conversions, h, w).outcome is Ok);
    }
}

/// The stages of composed packed-bf16 attention over several heads fit
/// together likewise.
pub proof fn bf16_composed_multihead_stages_fit_together(
    family: Family,
    conversions: Family,
    f: ComposedFamilies,
    stream: Stream,
    h: Heads,
    heads: usize,
    scale: F32,
    mask: AttentionMask,
    probes: FusedProbes,
)
    requires
        multihead_check(HeadKind::Bf16, family, stream, h, heads) is Ok,
        causal_check(h, mask) is Ok,
        crate::attention::packed_scores_check(h, heads) is Ok,
        composed_in(f, stream, stream.context),
        product_grids_fit(f.gemm.width, h),
        heads <= crate::product::MAX_GRID_BLOCKS,
        heads * h.query_rows <= u32::MAX,
        probes.fused == probes.available,
    ensures
        bf16_composed_multihead_plan(
            family,
            conversions,
            f,
            stream,
            h,
            heads,
            scale,
            mask,
            probes,
        ).outcome is Ok,
{
    if h.query_rows > 0 {
        let w = wide_heads(family.context, h);
        composed_multihead_stages_fit_together(f, stream, w, heads, scale, mask, probes);
        assert(widening(conversions, h, w).outcome is Ok);
    }
}

/// The stages of quantized attention fit together likewise.
pub proof fn quantized_stages_fit_together(
    f: QuantizedFamilies,
    stream: Stream,
    h: Heads,
    scale: F32,
    mask: AttentionMask,
    probes: FusedProbes,
)
    requires
        head_check(HeadKind::Bf16, f.family, stream, h) is Ok,
        causal_check(h, mask) is Ok,
        fits(h.query_rows * h.kv_rows),
        f.attention.context == f.family.context,
        f.gemm.context == f.family.context,
        f.softmax.context == f.family.context,
        product_grids_fit(f.gemm.width, h),
        h.query_rows <= u32::MAX,
        probes.fused == probes.available,
    ensures
        quantized_plan(f, stream, h, scale, mask, probes).outcome is Ok,
{
    let elements = (h.query_rows * h.kv_rows) as usize;
    let packed = wide(f.family.context, Scratch::PackedScores, elements);
    let probs = wide(f.family.context, Scratch::WideProbabilities, elements);
    assert(product_plan(
        ProductKind::Bf16TransposedB,
        f.gemm,
        stream,
        score_product(h, packed),
    ).outcome is Ok);
    assert(product_plan(
        ProductKind::Bf16,
        f.gemm,
        stream,
        value_product(h, packed),
    ).outcome is Ok);
    dispatch_serves_every_width(
        f.softmax,
        stream,
        Rows { input: probs, output: probs, rows: h.query_rows, cols: h.kv_rows },
        probes,
    );
}

/// Composed packed-bf16 attention whose operands or mask are refused
/// allocates and submits nothing.
pub proof fn refused_bf16_composition_does_nothing(
    f: QuantizedFamilies,
    c: ComposedFamilies,
    stream: Stream,
    h: Heads,
    heads: usize,
    scale: F32,
    mask: AttentionMask,
    probes: FusedProbes,
)
    ensures
        head_check(HeadKind::Bf16, f.family, stream, h) is Err || causal_check(h, mask) is Err ==> {
            &&& quantized_plan(f, stream, h, scale, mask, probes).outcome is Err
            &&& quantized_plan(f, stream, h, scale, mask, probes).steps.len() == 0
            &&& bf16_composed_plan(
                f.family,
                f.conversions,
                c,
                stream,
                h,
                scale,
                mask,
                probes,
            ).outcome is Err
            &&& bf16_composed_plan(
                f.family,
                f.conversions,
                c,
                stream,
                h,
                scale,
                mask,
                probes,
            ).steps.len() == 0
        },
        multihead_check(HeadKind::Bf16, f.family, stream, h, heads) is Err || causal_check(
            h,
            mask,
        ) is Err ==> {
            &&& bf16_composed_multihead_plan(
                f.family,
                f.conversions,
                c,
                stream,
                h,
                heads,
                scale,
                mask,
                probes,
            ).outcome is Err
            &&& bf16_composed_multihead_plan(
                f.family,
                f.conversions,
                c,
                stream,
                h,
                heads,
                scale,
                mask,
                probes,
            ).steps.len() == 0
        },
{
}

} // verus!
