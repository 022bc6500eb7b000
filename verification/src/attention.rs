//! Scaled dot-product attention for row-major `f32` heads.
//!
//! The fused path streams key and value chunks through shared memory, one
//! block per query row. The composed path materializes the score matrix
//! through the product, scaling, row-softmax and product families.

use crate::arith::{ceil_div, fits, power_of_two, product3};
use crate::device::{BufferId, ContextId, DeviceBuffer, Element, Probe, Scratch, Stream, F32};
use crate::elementwise::{awaited, scale_plan, F32Elementwise};
use crate::error::{Checked, KernelError};
use crate::family::{
    both, block_check, check_block, check_threads, loads, threads_check, Family,
};
use crate::gemm::{batched_plan, F32Gemm};
use crate::heads::{
    causal_check, check_causal, check_head, check_multihead, check_nonempty, fused_head_bytes,
    fused_multihead_plan, fused_plan, head_bytes, head_check, head_fits, is_head_fitting,
    multihead_check, nonempty_check, plan_fused, plan_fused_multihead, AttentionMask, HeadKind,
    Heads,
};
use crate::launch::{Arguments, Kernel, Shape};
use crate::plan::{Action, Plan, PlanView};
use crate::product::{product_plan, Product, ProductKind, MAX_GRID_BLOCKS};
use crate::row_softmax::{dispatch_serves_every_width, softmax_dispatch_plan, F32Softmax2D};
use crate::rows::{FusedProbes, Rows};
use vstd::prelude::*;

verus! {

/// The block width of [`F32Attention::load`].
pub const DEFAULT_BLOCK_SIZE: u32 = 64;

/// The block width of the scale-and-mask passes.
pub const CAUSAL_BLOCK_SIZE: u32 = 256;

/// Attributes of the attention functions, as the driver reported them.
#[derive(Clone, Copy, Debug)]
pub struct AttentionProbes {
    pub fused: Probe,
    pub scale_causal: Probe,
}

/// Context-bound scaled dot-product attention.
#[derive(Debug)]
pub struct F32Attention {
    family: Family,
}

impl View for F32Attention {
    type V = Family;

    closed spec fn view(&self) -> Family {
        self.family
    }
}

/// The masking function must not take wider blocks than the fused one.
pub open spec fn uniform_limit_check(probes: AttentionProbes) -> Checked {
    match (probes.fused, probes.scale_causal) {
        (_, Err(failure)) => Err(KernelError::Device(failure)),
        (Ok(fused), Ok(causal)) => if fused.max_threads_per_block < causal.max_threads_per_block {
            Err(KernelError::Fixed("attention scale-causal kernel exceeds fused thread limit"))
        } else {
            Ok(())
        },
        (Err(failure), Ok(_)) => Err(KernelError::Device(failure)),
    }
}

/// All checks of loading, in the order in which they decide.
pub open spec fn attention_load_check(width: u32, probes: AttentionProbes) -> Checked {
    both(
        block_check("attention", width),
        both(threads_check("attention", width, probes.fused), uniform_limit_check(probes)),
    )
}

/// The first rule that the operands of a scale-and-mask pass break.
pub open spec fn scale_causal_check(
    family: Family,
    stream: Stream,
    scores: DeviceBuffer,
    output: DeviceBuffer,
    query_rows: usize,
    kv_rows: usize,
) -> Checked {
    if !fits(query_rows * kv_rows) {
        Err(KernelError::Rule { family: "attention", rule: "shape overflows usize" })
    } else if scores.len != query_rows * kv_rows || output.len != query_rows * kv_rows {
        Err(
            KernelError::PairShape {
                family: "attention",
                operand: "scale-causal buffers have",
                first: scores.len,
                second: output.len,
                rows: query_rows,
                cols: kv_rows,
                required: (query_rows * kv_rows) as usize,
            },
        )
    } else if stream.context != family.context || scores.context != family.context
        || output.context != family.context {
        Err(KernelError::Fixed("attention scale-causal stream and buffers must share one context"))
    } else {
        Ok(())
    }
}

/// Scales a score matrix and masks it above the diagonal.
pub open spec fn scale_causal_plan(
    family: Family,
    stream: Stream,
    scores: DeviceBuffer,
    output: DeviceBuffer,
    query_rows: usize,
    kv_rows: usize,
    scale: F32,
) -> PlanView {
    PlanView::checked(
        scale_causal_check(family, stream, scores, output, query_rows, kv_rows),
    ).followed_by(
        if query_rows * kv_rows == 0 {
            PlanView::done()
        } else {
            PlanView::launch(
                Kernel::AttentionScaleCausal,
                Shape::Elements {
                    count: (query_rows * kv_rows) as usize,
                    block_size: CAUSAL_BLOCK_SIZE,
                },
                Arguments::ScaleCausal {
                    scores: scores.id,
                    output: output.id,
                    query_rows: query_rows as u64,
                    kv_rows: kv_rows as u64,
                    scale,
                },
            )
        },
    )
}

/// The first rule that the operands of a packed scale-and-mask pass break.
pub open spec fn multihead_scale_causal_check(
    family: Family,
    stream: Stream,
    scores: DeviceBuffer,
    output: DeviceBuffer,
    elements: usize,
) -> Checked {
    if scores.len != elements || output.len != elements {
        Err(
            KernelError::PairLength {
                family: "attention",
                operand: "multi-head scale-causal buffers have",
                first: scores.len,
                second: output.len,
                required: elements,
            },
        )
    } else if stream.context != family.context || scores.context != family.context
        || output.context != family.context {
        Err(
            KernelError::Fixed(
                "attention multi-head scale-causal stream and buffers must share one context",
            ),
        )
    } else {
        Ok(())
    }
}

/// Scales a packed score matrix and masks it above each head's diagonal.
pub open spec fn multihead_scale_causal_plan(
    family: Family,
    stream: Stream,
    scores: DeviceBuffer,
    output: DeviceBuffer,
    elements: usize,
    query_rows: usize,
    kv_rows: usize,
    scale: F32,
) -> PlanView {
    PlanView::checked(
        multihead_scale_causal_check(family, stream, scores, output, elements),
    ).followed_by(
        if elements == 0 {
            PlanView::done()
        } else {
            PlanView::launch(
                Kernel::AttentionScaleCausalMultihead,
                Shape::Elements { count: elements, block_size: CAUSAL_BLOCK_SIZE },
                Arguments::MultiheadScaleCausal {
                    scores: scores.id,
                    output: output.id,
                    elements: elements as u64,
                    query_rows: query_rows as u64,
                    kv_rows: kv_rows as u64,
                    scale,
                },
            )
        },
    )
}

/// The families that composed attention runs through.
pub struct ComposedFamilies {
    pub attention: Family,
    pub gemm: Family,
    pub elementwise: Family,
    pub softmax: Family,
}

/// A score matrix that an operation allocates for itself.
pub open spec fn score_buffer(context: ContextId, role: Scratch, elements: usize) -> DeviceBuffer {
    DeviceBuffer { id: BufferId::Scratch(role), len: elements, context }
}

/// The first rule that the shape of composed attention breaks.
pub open spec fn composed_check(h: Heads, mask: AttentionMask) -> Checked {
    if nonempty_check(HeadKind::F32, h) is Err {
        nonempty_check(HeadKind::F32, h)
    } else if causal_check(h, mask) is Err {
        causal_check(h, mask)
    } else if !fits(h.query_rows * h.kv_rows) || !fits(h.query_rows * h.head_dim) || !fits(
        h.kv_rows * h.head_dim,
    ) || !fits(h.kv_rows * h.value_dim) || !fits(h.query_rows * h.value_dim) {
        Err(KernelError::Rule { family: "attention", rule: "shape overflows usize" })
    } else if h.queries.len != h.query_rows * h.head_dim || h.keys.len != h.kv_rows * h.head_dim
        || h.values.len != h.kv_rows * h.value_dim || h.output.len != h.query_rows * h.value_dim {
        Err(
            KernelError::HeadShapes {
                queries: (h.query_rows * h.head_dim) as usize,
                keys: (h.kv_rows * h.head_dim) as usize,
                values: (h.kv_rows * h.value_dim) as usize,
                output: (h.query_rows * h.value_dim) as usize,
            },
        )
    } else {
        Ok(())
    }
}

/// The product of queries and transposed keys.
pub open spec fn score_product(h: Heads, scores: DeviceBuffer) -> Product {
    Product {
        matrix_a: h.queries,
        matrix_b: h.keys,
        output: scores,
        m: h.query_rows,
        n: h.kv_rows,
        k: h.head_dim,
    }
}

/// The product of probabilities and values.
pub open spec fn value_product(h: Heads, probabilities: DeviceBuffer) -> Product {
    Product {
        matrix_a: probabilities,
        matrix_b: h.values,
        output: h.output,
        m: h.query_rows,
        n: h.value_dim,
        k: h.kv_rows,
    }
}

/// Composed attention over one head: scores, scaling (with masking), row
/// softmax in place, and the product with the values.
pub open spec fn composed_stages(
    f: ComposedFamilies,
    stream: Stream,
    h: Heads,
    scale: F32,
    mask: AttentionMask,
    probes: FusedProbes,
) -> PlanView {
    let elements = (h.query_rows * h.kv_rows) as usize;
    let probabilities = score_buffer(stream.context, Scratch::Probabilities, elements);
    let scores = score_buffer(stream.context, Scratch::Scores, elements);
    PlanView::checked(composed_check(h, mask)).followed_by(
        PlanView::one(Action::Allocate { buffer: probabilities, element: Element::F32 }),
    ).followed_by(
        PlanView::one(Action::Allocate { buffer: scores, element: Element::F32 }),
    ).followed_by(
        product_plan(
            ProductKind::F32TransposedB,
            f.gemm,
            stream,
            score_product(h, scores),
        ).synchronized(),
    ).followed_by(
        if mask == AttentionMask::Causal {
            scale_causal_plan(
                f.attention,
                stream,
                scores,
                probabilities,
                h.query_rows,
                h.kv_rows,
                scale,
            )
        } else {
            awaited(scale_plan(f.elementwise, scores, probabilities, scale))
        },
    ).followed_by(
        softmax_dispatch_plan(
            f.softmax,
            stream,
            Rows {
                input: probabilities,
                output: probabilities,
                rows: h.query_rows,
                cols: h.kv_rows,
            },
            probes,
        ),
    ).followed_by(
        product_plan(
            ProductKind::F32,
            f.gemm,
            stream,
            value_product(h, probabilities),
        ).synchronized(),
    )
}

/// Composed attention over one head. Its causal scaling is only waited for
/// together with the softmax, so the pipeline drains the stream where it ends
/// in between.
pub open spec fn composed_plan(
    f: ComposedFamilies,
    stream: Stream,
    h: Heads,
    scale: F32,
    mask: AttentionMask,
    probes: FusedProbes,
) -> PlanView {
    composed_stages(f, stream, h, scale, mask, probes).guarded()
}

/// The packed score matrix must be countable.
pub open spec fn packed_scores_check(h: Heads, heads: usize) -> Checked {
    if !fits(heads * h.query_rows) || !fits(heads * h.query_rows * h.kv_rows) {
        Err(KernelError::Rule { family: "attention", rule: "shape overflows usize" })
    } else {
        Ok(())
    }
}

/// The stages of composed attention over several packed heads.
pub open spec fn composed_multihead_stages(
    f: ComposedFamilies,
    stream: Stream,
    h: Heads,
    heads: usize,
    scale: F32,
    mask: AttentionMask,
    probes: FusedProbes,
) -> PlanView {
    let elements = (heads * h.query_rows * h.kv_rows) as usize;
    let probabilities = score_buffer(stream.context, Scratch::Probabilities, elements);
    PlanView::checked(packed_scores_check(h, heads)).followed_by(
        PlanView::one(Action::Allocate { buffer: probabilities, element: Element::F32 }),
    ).followed_by(
        batched_plan(f.gemm, stream, score_product(h, probabilities), heads, true).synchronized(),
    ).followed_by(
        if mask == AttentionMask::Causal {
            awaited(
                multihead_scale_causal_plan(
                    f.attention,
                    stream,
                    probabilities,
                    probabilities,
                    elements,
                    h.query_rows,
                    h.kv_rows,
                    scale,
                ),
            )
        } else {
            awaited(scale_plan(f.elementwise, probabilities, probabilities, scale))
        },
    ).followed_by(
        softmax_dispatch_plan(
            f.softmax,
            stream,
            Rows {
                input: probabilities,
                output: probabilities,
                rows: (heads * h.query_rows) as usize,
                cols: h.kv_rows,
            },
            probes,
        ),
    ).followed_by(
        batched_plan(f.gemm, stream, value_product(h, probabilities), heads, false).synchronized(),
    )
}

/// Composed attention over several packed heads; no query rows, no work.
pub open spec fn composed_multihead_plan(
    f: ComposedFamilies,
    stream: Stream,
    h: Heads,
    heads: usize,
    scale: F32,
    mask: AttentionMask,
    probes: FusedProbes,
) -> PlanView {
    PlanView::checked(
        multihead_check(HeadKind::F32, f.attention, stream, h, heads),
    ).followed_by(PlanView::checked(causal_check(h, mask))).followed_by(
        if h.query_rows == 0 {
            PlanView::done()
        } else {
            composed_multihead_stages(f, stream, h, heads, scale, mask, probes)
        },
    )
}

impl F32Attention {
    #[verifier::type_invariant]
    spec fn ready(self) -> bool {
        power_of_two(self.family.width as nat)
    }

    /// Checks a block width before anything is compiled.
    pub fn check_block_size(block_size: u32) -> (check: Checked)
        ensures
            check == block_check("attention", block_size),
    {
        check_block("attention", block_size)
    }

    /// Accepts the compiled functions with the default block width.
    pub fn load(
        context: ContextId,
        probes: &AttentionProbes,
    ) -> (result: Result<F32Attention, KernelError>)
        ensures
            loads(
                result,
                attention_load_check(DEFAULT_BLOCK_SIZE, *probes),
                Family { context, width: DEFAULT_BLOCK_SIZE },
            ),
    {
        Self::load_with_block_size(context, DEFAULT_BLOCK_SIZE, probes)
    }

    /// Accepts the compiled functions with an explicitly selected
    /// power-of-two width, which is also the key-chunk size streamed through
    /// shared memory.
    pub fn load_with_block_size(
        context: ContextId,
        block_size: u32,
        probes: &AttentionProbes,
    ) -> (result: Result<F32Attention, KernelError>)
        ensures
            loads(
                result,
                attention_load_check(block_size, *probes),
                Family { context, width: block_size },
            ),
    {
        check_block("attention", block_size)?;
        check_threads("attention", block_size, probes.fused)?;
        match (probes.fused, probes.scale_causal) {
            (_, Err(failure)) => {
                return Err(KernelError::Device(failure));
            },
            (Ok(fused), Ok(causal)) => {
                if fused.max_threads_per_block < causal.max_threads_per_block {
                    return Err(
                        KernelError::Fixed(
                            "attention scale-causal kernel exceeds fused thread limit",
                        ),
                    );
                }
            },
            (Err(failure), Ok(_)) => {
                return Err(KernelError::Device(failure));
            },
        }
        Ok(F32Attention { family: Family { context, width: block_size } })
    }

    /// Thread-block width; also the streamed key-chunk length.
    pub fn block_size(&self) -> (width: u32)
        ensures
            width == self@.width,
            power_of_two(width as nat),
    {
        proof {
            use_type_invariant(self);
        }
        self.family.width
    }

    /// Dynamic shared-memory bytes the fused path needs for these head shapes
    /// at this family's width.
    pub fn fused_shared_memory_bytes(
        &self,
        head_dim: usize,
        value_dim: usize,
    ) -> (bytes: Option<usize>)
        ensures
            bytes == (if fits(head_bytes(self@.width, head_dim, value_dim)) {
                Some(head_bytes(self@.width, head_dim, value_dim) as usize)
            } else {
                None::<usize>
            }),
    {
        fused_head_bytes(self.family.width, head_dim, value_dim)
    }

    /// Whether the fused path can run these head shapes with the function's
    /// dynamic shared-memory limit.
    pub fn fused_available(&self, head_dim: usize, value_dim: usize, fused: Probe) -> (answer: bool)
        ensures
            answer == head_fits(self@.width, head_dim, value_dim, fused),
    {
        is_head_fitting(self.family.width, head_dim, value_dim, fused)
    }

    /// Plans fused attention for one head with a wait.
    pub fn attention_fused(
        &self,
        stream: &Stream,
        queries: &DeviceBuffer,
        keys: &DeviceBuffer,
        values: &DeviceBuffer,
        output: &DeviceBuffer,
        query_rows: usize,
        head_dim: usize,
        kv_rows: usize,
        value_dim: usize,
        scale: F32,
        mask: AttentionMask,
        fused: Probe,
    ) -> (plan: Plan)
        ensures
            plan@ == fused_plan(
                HeadKind::F32,
                self@,
                *stream,
                Heads {
                    queries: *queries,
                    keys: *keys,
                    values: *values,
                    output: *output,
                    query_rows,
                    head_dim,
                    kv_rows,
                    value_dim,
                },
                scale,
                mask,
                fused,
            ).synchronized(),
    {
        self.enqueue_attention_fused(
            stream,
            queries,
            keys,
            values,
            output,
            query_rows,
            head_dim,
            kv_rows,
            value_dim,
            scale,
            mask,
            fused,
        ).synchronized()
    }

    /// Plans fused attention for one head without a wait.
    pub fn enqueue_attention_fused(
        &self,
        stream: &Stream,
        queries: &DeviceBuffer,
        keys: &DeviceBuffer,
        values: &DeviceBuffer,
        output: &DeviceBuffer,
        query_rows: usize,
        head_dim: usize,
        kv_rows: usize,
        value_dim: usize,
        scale: F32,
        mask: AttentionMask,
        fused: Probe,
    ) -> (plan: Plan)
        ensures
            plan@ == fused_plan(
                HeadKind::F32,
                self@,
                *stream,
                Heads {
                    queries: *queries,
                    keys: *keys,
                    values: *values,
                    output: *output,
                    query_rows,
                    head_dim,
                    kv_rows,
                    value_dim,
                },
                scale,
                mask,
                fused,
            ),
    {
        let h = &Heads {
            queries: *queries,
            keys: *keys,
            values: *values,
            output: *output,
            query_rows,
            head_dim,
            kv_rows,
            value_dim,
        };
        plan_fused(HeadKind::F32, self.family, stream, h, scale, mask, fused)
    }

    /// Plans fused attention over packed heads with a wait.
    pub fn attention_fused_multihead(
        &self,
        stream: &Stream,
        queries: &DeviceBuffer,
        keys: &DeviceBuffer,
        values: &DeviceBuffer,
        output: &DeviceBuffer,
        num_heads: usize,
        query_rows: usize,
        head_dim: usize,
        kv_rows: usize,
        value_dim: usize,
        scale: F32,
        mask: AttentionMask,
        fused: Probe,
    ) -> (plan: Plan)
        ensures
            plan@ == fused_multihead_plan(
                HeadKind::F32,
                self@,
                *stream,
                Heads {
                    queries: *queries,
                    keys: *keys,
                    values: *values,
                    output: *output,
                    query_rows,
                    head_dim,
                    kv_rows,
                    value_dim,
                },
                num_heads,
                scale,
                mask,
                fused,
            ).synchronized(),
    {
        self.enqueue_attention_fused_multihead(
            stream,
            queries,
            keys,
            values,
            output,
            num_heads,
            query_rows,
            head_dim,
            kv_rows,
            value_dim,
            scale,
            mask,
            fused,
        ).synchronized()
    }

    /// Plans fused attention over packed heads without a wait.
    pub fn enqueue_attention_fused_multihead(
        &self,
        stream: &Stream,
        queries: &DeviceBuffer,
        keys: &DeviceBuffer,
        values: &DeviceBuffer,
        output: &DeviceBuffer,
        num_heads: usize,
        query_rows: usize,
        head_dim: usize,
        kv_rows: usize,
        value_dim: usize,
        scale: F32,
        mask: AttentionMask,
        fused: Probe,
    ) -> (plan: Plan)
        ensures
            plan@ == fused_multihead_plan(
                HeadKind::F32,
                self@,
                *stream,
                Heads {
                    queries: *queries,
                    keys: *keys,
                    values: *values,
                    output: *output,
                    query_rows,
                    head_dim,
                    kv_rows,
                    value_dim,
                },
                num_heads,
                scale,
                mask,
                fused,
            ),
    {
        let h = &Heads {
            queries: *queries,
            keys: *keys,
            values: *values,
            output: *output,
            query_rows,
            head_dim,
            kv_rows,
            value_dim,
        };
        plan_fused_multihead(
            HeadKind::F32,
            self.family,
            stream,
            h,
            num_heads,
            scale,
            mask,
            fused,
        )
    }

    /// Plans composed attention over packed heads with waits between stages.
    pub fn attention_composed_multihead(
        &self,
        gemm: &F32Gemm,
        elementwise: &F32Elementwise,
        softmax_2d: &F32Softmax2D,
        stream: &Stream,
        queries: &DeviceBuffer,
        keys: &DeviceBuffer,
        values: &DeviceBuffer,
        output: &DeviceBuffer,
        num_heads: usize,
        query_rows: usize,
        head_dim: usize,
        kv_rows: usize,
        value_dim: usize,
        scale: F32,
        mask: AttentionMask,
        probes: &FusedProbes,
    ) -> (plan: Plan)
        ensures
            plan@ == composed_multihead_plan(
                ComposedFamilies {
                    attention: self@,
                    gemm: gemm@,
                    elementwise: elementwise@,
                    softmax: softmax_2d@,
                },
                *stream,
                Heads {
                    queries: *queries,
                    keys: *keys,
                    values: *values,
                    output: *output,
                    query_rows,
                    head_dim,
                    kv_rows,
                    value_dim,
                },
                num_heads,
                scale,
                mask,
                *probes,
            ),
    {
        let h = &Heads {
            queries: *queries,
            keys: *keys,
            values: *values,
            output: *output,
            query_rows,
            head_dim,
            kv_rows,
            value_dim,
        };
        match self.validate_multihead_execution(stream, h, num_heads) {
            Err(error) => {
                return Plan::rejected(error);
            },
            Ok(()) => {},
        }
        match check_causal(h, mask) {
            Err(error) => {
                return Plan::rejected(error);
            },
            Ok(()) => {},
        }
        if h.query_rows == 0 {
            return Plan::done();
        }
        let elements: usize = match product3(num_heads, h.query_rows, h.kv_rows) {
            Some(elements) => elements,
            None => {
                return Plan::rejected(
                    KernelError::Rule { family: "attention", rule: "shape overflows usize" },
                );
            },
        };
        let probabilities = DeviceBuffer {
            id: BufferId::Scratch(Scratch::Probabilities),
            len: elements,
            context: stream.context,
        };
        let scaling = match mask {
            AttentionMask::Causal => self.enqueue_scale_causal_multihead(
                stream,
                &probabilities,
                &probabilities,
                elements,
                h.query_rows,
                h.kv_rows,
                scale,
            ).awaited(),
            AttentionMask::Unmasked => elementwise.scale(
                stream,
                &probabilities,
                &probabilities,
                scale,
            ),
        };
        Plan::one(
            Action::Allocate { buffer: probabilities, element: Element::F32 },
        ).followed_by(
            gemm.gemm_transposed_b_batched(
                stream,
                queries,
                keys,
                &probabilities,
                num_heads,
                query_rows,
                kv_rows,
                head_dim,
            ),
        ).followed_by(scaling).followed_by(
            softmax_2d.softmax_rows_dispatched(
                stream,
                &probabilities,
                &probabilities,
                num_heads * h.query_rows,
                kv_rows,
                probes,
            ),
        ).followed_by(
            gemm.gemm_batched(
                stream,
                &probabilities,
                values,
                output,
                num_heads,
                query_rows,
                value_dim,
                kv_rows,
            ),
        )
    }

    /// Plans the scale-and-mask pass over a packed score matrix without a
    /// wait. Positions above the within-head diagonal become negative
    /// infinity; others are scaled.
    pub fn enqueue_scale_causal_multihead(
        &self,
        stream: &Stream,
        scores: &DeviceBuffer,
        output: &DeviceBuffer,
        elements: usize,
        query_rows: usize,
        kv_rows: usize,
        scale: F32,
    ) -> (plan: Plan)
        ensures
            plan@ == multihead_scale_causal_plan(
                self@,
                *stream,
                *scores,
                *output,
                elements,
                query_rows,
                kv_rows,
                scale,
            ),
    {
        if scores.len != elements || output.len != elements {
            return Plan::rejected(
                KernelError::PairLength {
                    family: "attention",
                    operand: "multi-head scale-causal buffers have",
                    first: scores.len,
                    second: output.len,
                    required: elements,
                },
            );
        }
        let context = self.family.context;
        if stream.context != context || scores.context != context || output.context != context {
            return Plan::rejected(
                KernelError::Fixed(
                    "attention multi-head scale-causal stream and buffers must share one context",
                ),
            );
        }
        if elements == 0 {
            return Plan::done();
        }
        Plan::launch(
            Kernel::AttentionScaleCausalMultihead,
            Shape::Elements { count: elements, block_size: CAUSAL_BLOCK_SIZE },
            Arguments::MultiheadScaleCausal {
                scores: scores.id,
                output: output.id,
                elements: elements as u64,
                query_rows: query_rows as u64,
                kv_rows: kv_rows as u64,
                scale,
            },
        )
    }

    /// Plans the scale-and-mask pass over a score matrix without a wait.
    /// Positions above the diagonal become negative infinity; others are
    /// scaled.
    pub fn enqueue_scale_causal(
        &self,
        stream: &Stream,
        scores: &DeviceBuffer,
        output: &DeviceBuffer,
        query_rows: usize,
        kv_rows: usize,
        scale: F32,
    ) -> (plan: Plan)
        ensures
            plan@ == scale_causal_plan(
                self@,
                *stream,
                *scores,
                *output,
                query_rows,
                kv_rows,
                scale,
            ),
    {
        let elements: usize = match query_rows.checked_mul(kv_rows) {
            Some(elements) => elements,
            None => {
                return Plan::rejected(
                    KernelError::Rule { family: "attention", rule: "shape overflows usize" },
                );
            },
        };
        if scores.len != elements || output.len != elements {
            return Plan::rejected(
                KernelError::PairShape {
                    family: "attention",
                    operand: "scale-causal buffers have",
                    first: scores.len,
                    second: output.len,
                    rows: query_rows,
                    cols: kv_rows,
                    required: elements,
                },
            );
        }
        let context = self.family.context;
        if stream.context != context || scores.context != context || output.context != context {
            return Plan::rejected(
                KernelError::Fixed(
                    "attention scale-causal stream and buffers must share one context",
                ),
            );
        }
        if elements == 0 {
            return Plan::done();
        }
        Plan::launch(
            Kernel::AttentionScaleCausal,
            Shape::Elements { count: elements, block_size: CAUSAL_BLOCK_SIZE },
            Arguments::ScaleCausal {
                scores: scores.id,
                output: output.id,
                query_rows: query_rows as u64,
                kv_rows: kv_rows as u64,
                scale,
            },
        )
    }

    /// Checks the operands of one head.
    pub fn validate_execution(&self, stream: &Stream, h: &Heads) -> (check: Checked)
        ensures
            check == head_check(HeadKind::F32, self@, *stream, *h),
    {
        check_head(HeadKind::F32, self.family, stream, h)
    }

    /// Checks the operands of several packed heads.
    pub fn validate_multihead_execution(
        &self,
        stream: &Stream,
        h: &Heads,
        num_heads: usize,
    ) -> (check: Checked)
        ensures
            check == multihead_check(HeadKind::F32, self@, *stream, *h, num_heads),
    {
        check_multihead(HeadKind::F32, self.family, stream, h, num_heads)
    }

    fn composed_elements(h: &Heads, mask: AttentionMask) -> (elements: Result<usize, KernelError>)
        ensures
            match elements {
                Ok(elements) => composed_check(*h, mask) is Ok && elements == h.query_rows
                    * h.kv_rows,
                Err(error) => composed_check(*h, mask) == Checked::Err(error),
            },
    {
        check_nonempty(HeadKind::F32, h)?;
        check_causal(h, mask)?;
        let overflow = KernelError::Rule { family: "attention", rule: "shape overflows usize" };
        let score_elements: usize = match h.query_rows.checked_mul(h.kv_rows) {
            Some(elements) => elements,
            None => {
                return Err(overflow);
            },
        };
        let queries: usize = match h.query_rows.checked_mul(h.head_dim) {
            Some(elements) => elements,
            None => {
                return Err(overflow);
            },
        };
        let keys: usize = match h.kv_rows.checked_mul(h.head_dim) {
            Some(elements) => elements,
            None => {
                return Err(overflow);
            },
        };
        let values: usize = match h.kv_rows.checked_mul(h.value_dim) {
            Some(elements) => elements,
            None => {
                return Err(overflow);
            },
        };
        let output: usize = match h.query_rows.checked_mul(h.value_dim) {
            Some(elements) => elements,
            None => {
                return Err(overflow);
            },
        };
        if h.queries.len != queries || h.keys.len != keys || h.values.len != values || h.output.len
            != output {
            return Err(KernelError::HeadShapes { queries, keys, values, output });
        }
        Ok(score_elements)
    }

    /// Plans composed attention for one head: transposed-B product for the
    /// scores, scaling, dispatched row softmax, and a product with the
    /// values. Two score-sized scratch buffers are allocated.
    pub fn attention_composed(
        &self,
        gemm: &F32Gemm,
        elementwise: &F32Elementwise,
        softmax_2d: &F32Softmax2D,
        stream: &Stream,
        queries: &DeviceBuffer,
        keys: &DeviceBuffer,
        values: &DeviceBuffer,
        output: &DeviceBuffer,
        query_rows: usize,
        head_dim: usize,
        kv_rows: usize,
        value_dim: usize,
        scale: F32,
        mask: AttentionMask,
        probes: &FusedProbes,
    ) -> (plan: Plan)
        ensures
            plan@ == composed_plan(
                ComposedFamilies {
                    attention: self@,
                    gemm: gemm@,
                    elementwise: elementwise@,
                    softmax: softmax_2d@,
                },
                *stream,
                Heads {
                    queries: *queries,
                    keys: *keys,
                    values: *values,
                    output: *output,
                    query_rows,
                    head_dim,
                    kv_rows,
                    value_dim,
                },
                scale,
                mask,
                *probes,
            ),
    {
        let h = &Heads {
            queries: *queries,
            keys: *keys,
            values: *values,
            output: *output,
            query_rows,
            head_dim,
            kv_rows,
            value_dim,
        };
        let elements: usize = match Self::composed_elements(h, mask) {
            Err(error) => {
                let refused = Plan::rejected(error);
                assert(refused@.guarded() =~= refused@);
                return refused;
            },
            Ok(elements) => elements,
        };
        let probabilities = DeviceBuffer {
            id: BufferId::Scratch(Scratch::Probabilities),
            len: elements,
            context: stream.context,
        };
        let scores = DeviceBuffer {
            id: BufferId::Scratch(Scratch::Scores),
            len: elements,
            context: stream.context,
        };
        let scaling = match mask {
            AttentionMask::Causal => self.enqueue_scale_causal(
                stream,
                &scores,
                &probabilities,
                h.query_rows,
                h.kv_rows,
                scale,
            ),
            AttentionMask::Unmasked => elementwise.scale(stream, &scores, &probabilities, scale),
        };
        Plan::one(
            Action::Allocate { buffer: probabilities, element: Element::F32 },
        ).followed_by(
            Plan::one(Action::Allocate { buffer: scores, element: Element::F32 }),
        ).followed_by(
            gemm.gemm_transposed_b(
                stream,
                queries,
                keys,
                &scores,
                query_rows,
                kv_rows,
                head_dim,
            ),
        ).followed_by(scaling).followed_by(
            softmax_2d.softmax_rows_dispatched(
                stream,
                &probabilities,
                &probabilities,
                h.query_rows,
                kv_rows,
                probes,
            ),
        ).followed_by(
            gemm.gemm(stream, &probabilities, values, output, query_rows, value_dim, kv_rows),
        ).guarded()
    }
}

/// All four families and the stream belong to one context.
pub open spec fn composed_in(f: ComposedFamilies, stream: Stream, context: ContextId) -> bool {
    &&& f.attention.context == context
    &&& f.gemm.context == context
    &&& f.elementwise.context == context
    &&& f.softmax.context == context
    &&& stream.context == context
}

/// All operands belong to one context.
pub open spec fn heads_in(h: Heads, context: ContextId) -> bool {
    &&& h.queries.context == context
    &&& h.keys.context == context
    &&& h.values.context == context
    &&& h.output.context == context
}

/// The grids of both products can be expressed.
pub open spec fn product_grids_fit(side: u32, h: Heads) -> bool {
    &&& ceil_div(h.query_rows as int, side as int) <= u32::MAX
    &&& ceil_div(h.kv_rows as int, side as int) <= MAX_GRID_BLOCKS
    &&& ceil_div(h.value_dim as int, side as int) <= MAX_GRID_BLOCKS
}

/// The stages of composed attention fit together: once its own check has
/// passed, with everything in one context and grids the device can express,
/// no stage refuses what the stage before it hands over.
pub proof fn composed_stages_fit_together(
    f: ComposedFamilies,
    stream: Stream,
    h: Heads,
    scale: F32,
    mask: AttentionMask,
    probes: FusedProbes,
)
    requires
        composed_check(h, mask) is Ok,
        composed_in(f, stream, stream.context),
        heads_in(h, stream.context),
        product_grids_fit(f.gemm.width, h),
        h.query_rows <= u32::MAX,
        probes.fused == probes.available,
    ensures
        composed_plan(f, stream, h, scale, mask, probes).outcome is Ok,
{
    let elements = (h.query_rows * h.kv_rows) as usize;
    let probabilities = score_buffer(stream.context, Scratch::Probabilities, elements);
    let scores = score_buffer(stream.context, Scratch::Scores, elements);
    assert(product_plan(
        ProductKind::F32TransposedB,
        f.gemm,
        stream,
        score_product(h, scores),
    ).outcome is Ok);
    assert(product_plan(
        ProductKind::F32,
        f.gemm,
        stream,
        value_product(h, probabilities),
    ).outcome is Ok);
    dispatch_serves_every_width(
        f.softmax,
        stream,
        Rows { input: probabilities, output: probabilities, rows: h.query_rows, cols: h.kv_rows },
        probes,
    );
}

/// The stages of packed composed attention fit together likewise.
pub proof fn composed_multihead_stages_fit_together(
    f: ComposedFamilies,
    stream: Stream,
    h: Heads,
    heads: usize,
    scale: F32,
    mask: AttentionMask,
    probes: FusedProbes,
)
    requires
        multihead_check(HeadKind::F32, f.attention, stream, h, heads) is Ok,
        causal_check(h, mask) is Ok,
        packed_scores_check(h, heads) is Ok,
        composed_in(f, stream, stream.context),
        product_grids_fit(f.gemm.width, h),
        heads <= MAX_GRID_BLOCKS,
        heads * h.query_rows <= u32::MAX,
        probes.fused == probes.available,
    ensures
        composed_multihead_plan(f, stream, h, heads, scale, mask, probes).outcome is Ok,
{
    let elements = (heads * h.query_rows * h.kv_rows) as usize;
    let probabilities = score_buffer(stream.context, Scratch::Probabilities, elements);
    assert(batched_plan(
        f.gemm,
        stream,
        score_product(h, probabilities),
        heads,
        true,
    ).outcome is Ok);
    assert(batched_plan(
        f.gemm,
        stream,
        value_product(h, probabilities),
        heads,
        false,
    ).outcome is Ok);
    dispatch_serves_every_width(
        f.softmax,
        stream,
        Rows {
            input: probabilities,
            output: probabilities,
            rows: (heads * h.query_rows) as usize,
            cols: h.kv_rows,
        },
        probes,
    );
}

/// Composed attention that its own check refuses allocates and submits
/// nothing; a causal mask over a rectangular score matrix is among what it
/// refuses.
pub proof fn refused_composition_does_nothing(
    f: ComposedFamilies,
    stream: Stream,
    h: Heads,
    heads: usize,
    scale: F32,
    mask: AttentionMask,
    probes: FusedProbes,
)
    ensures
        composed_check(h, mask) is Err ==> composed_plan(f, stream, h, scale, mask, probes)
            == PlanView::checked(composed_check(h, mask)),
        mask == AttentionMask::Causal && h.query_rows != h.kv_rows ==> composed_check(
            h,
            mask,
        ) is Err,
        mask == AttentionMask::Causal && h.query_rows != h.kv_rows ==> composed_multihead_plan(
            f,
            stream,
            h,
            heads,
            scale,
            mask,
            probes,
        ).outcome is Err,
        multihead_check(HeadKind::F32, f.attention, stream, h, heads) is Err || causal_check(
            h,
            mask,
        ) is Err ==> composed_multihead_plan(
            f,
            stream,
            h,
            heads,
            scale,
            mask,
            probes,
        ).steps.len() == 0,
{
    assert(composed_check(h, mask) is Err ==> composed_plan(
        f,
        stream,
        h,
        scale,
        mask,
        probes,
    ).steps =~= Seq::empty());
}

/// A loaded attention family's blocks fit its fused function.
pub proof fn loaded_attention_fits(width: u32, probes: AttentionProbes)
    requires
        attention_load_check(width, probes) is Ok,
    ensures
        power_of_two(width as nat),
        probes.fused matches Ok(a) && width <= a.max_threads_per_block,
{
}

} // verus!
