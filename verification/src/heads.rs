//! Scaled dot-product attention heads: the rules that the `f32` and
//! packed-bf16 families have in common.

use crate::arith::{fits, product3, to_u32};
use crate::device::{DeviceBuffer, Probe, Stream, F32};
use crate::error::{Checked, KernelError};
use crate::family::Family;
use crate::launch::{line, line_shape, Arguments, Kernel};
use crate::plan::{Action, Plan, PlanView};
use vstd::prelude::*;

verus! {

/// Attention mask selecting which key positions each query may attend to.
#[derive(Clone, Copy, Debug, PartialEq, Eq, Structural)]
pub enum AttentionMask {
    /// Every query attends to every key.
    Unmasked,
    /// Query row `i` attends only to keys `j <= i`. Requires
    /// `query_rows == kv_rows`.
    Causal,
}

/// Element type of an attention family.
#[derive(Clone, Copy, Debug, PartialEq, Eq, Structural)]
pub enum HeadKind {
    F32,
    Bf16,
}

/// The operands and the shape of attention. With several heads every buffer
/// holds `[heads][rows][dim]` contiguously.
#[derive(Clone, Copy, Debug, PartialEq, Eq, Structural)]
pub struct Heads {
    pub queries: DeviceBuffer,
    pub keys: DeviceBuffer,
    pub values: DeviceBuffer,
    pub output: DeviceBuffer,
    pub query_rows: usize,
    pub head_dim: usize,
    pub kv_rows: usize,
    pub value_dim: usize,
}

impl AttentionMask {
    /// The mask as the kernels take it.
    pub open spec fn flag(self) -> u32 {
        if self == AttentionMask::Causal {
            1
        } else {
            0
        }
    }

    /// Whether query row `row` may attend to key `key`.
    pub open spec fn admits(self, row: int, key: int) -> bool {
        self == AttentionMask::Unmasked || key <= row
    }

    /// The mask as the kernels take it.
    pub fn to_flag(self) -> (flag: u32)
        ensures
            flag == self.flag(),
    {
        match self {
            AttentionMask::Unmasked => 0,
            AttentionMask::Causal => 1,
        }
    }
}

impl HeadKind {
    /// The name of the family in its refusals.
    pub open spec fn family(self) -> &'static str {
        match self {
            HeadKind::F32 => "attention",
            HeadKind::Bf16 => "bf16 attention",
        }
    }

    /// The kernel for one head.
    pub open spec fn kernel(self) -> Kernel {
        match self {
            HeadKind::F32 => Kernel::AttentionFused,
            HeadKind::Bf16 => Kernel::Bf16AttentionFused,
        }
    }

    /// The kernel for several heads.
    pub open spec fn multihead_kernel(self) -> Kernel {
        match self {
            HeadKind::F32 => Kernel::AttentionFusedMultihead,
            HeadKind::Bf16 => Kernel::Bf16AttentionFusedMultihead,
        }
    }

    fn get_family(self) -> (family: &'static str)
        ensures
            family == self.family(),
    {
        match self {
            HeadKind::F32 => "attention",
            HeadKind::Bf16 => "bf16 attention",
        }
    }

    fn get_kernel(self) -> (kernel: Kernel)
        ensures
            kernel == self.kernel(),
    {
        match self {
            HeadKind::F32 => Kernel::AttentionFused,
            HeadKind::Bf16 => Kernel::Bf16AttentionFused,
        }
    }

    fn get_multihead_kernel(self) -> (kernel: Kernel)
        ensures
            kernel == self.multihead_kernel(),
    {
        match self {
            HeadKind::F32 => Kernel::AttentionFusedMultihead,
            HeadKind::Bf16 => Kernel::Bf16AttentionFusedMultihead,
        }
    }
}

/// Everything must live in the family's context.
pub open spec fn heads_context_check(
    kind: HeadKind,
    family: Family,
    stream: Stream,
    h: Heads,
) -> Checked {
    if stream.context != family.context || h.queries.context != family.context || h.keys.context
        != family.context || h.values.context != family.context || h.output.context
        != family.context {
        Err(
            KernelError::Rule {
                family: kind.family(),
                rule: "stream, buffers, and kernel must share one context",
            },
        )
    } else {
        Ok(())
    }
}

/// Keys, head and values must not be empty.
pub open spec fn nonempty_check(kind: HeadKind, h: Heads) -> Checked {
    if h.head_dim == 0 || h.kv_rows == 0 || h.value_dim == 0 {
        Err(
            KernelError::EmptyHead {
                family: kind.family(),
                head_dim: h.head_dim,
                kv_rows: h.kv_rows,
                value_dim: h.value_dim,
            },
        )
    } else {
        Ok(())
    }
}

/// A causal mask requires as many queries as keys.
pub open spec fn causal_check(h: Heads, mask: AttentionMask) -> Checked {
    if mask == AttentionMask::Causal && h.query_rows != h.kv_rows {
        Err(KernelError::CausalShape { query_rows: h.query_rows, kv_rows: h.kv_rows })
    } else {
        Ok(())
    }
}

/// The first rule that the operands of one head break.
pub open spec fn head_check(kind: HeadKind, family: Family, stream: Stream, h: Heads) -> Checked {
    let name = kind.family();
    if nonempty_check(kind, h) is Err {
        nonempty_check(kind, h)
    } else if !fits(h.query_rows * h.head_dim) || !fits(h.kv_rows * h.head_dim) || !fits(
        h.kv_rows * h.value_dim,
    ) || !fits(h.query_rows * h.value_dim) {
        Err(KernelError::Rule { family: name, rule: "shape overflows usize" })
    } else if h.queries.len != h.query_rows * h.head_dim {
        Err(
            KernelError::Shape {
                family: name,
                operand: "queries have",
                actual: h.queries.len,
                unit: "elements",
                rows: h.query_rows,
                cols: h.head_dim,
                required: (h.query_rows * h.head_dim) as usize,
            },
        )
    } else if h.keys.len != h.kv_rows * h.head_dim {
        Err(
            KernelError::Shape {
                family: name,
                operand: "keys have",
                actual: h.keys.len,
                unit: "elements",
                rows: h.kv_rows,
                cols: h.head_dim,
                required: (h.kv_rows * h.head_dim) as usize,
            },
        )
    } else if h.values.len != h.kv_rows * h.value_dim {
        Err(
            KernelError::Shape {
                family: name,
                operand: "values have",
                actual: h.values.len,
                unit: "elements",
                rows: h.kv_rows,
                cols: h.value_dim,
                required: (h.kv_rows * h.value_dim) as usize,
            },
        )
    } else if h.output.len != h.query_rows * h.value_dim {
        Err(
            KernelError::Shape {
                family: name,
                operand: "output has",
                actual: h.output.len,
                unit: "elements",
                rows: h.query_rows,
                cols: h.value_dim,
                required: (h.query_rows * h.value_dim) as usize,
            },
        )
    } else {
        heads_context_check(kind, family, stream, h)
    }
}

/// The first rule that the operands of several packed heads break.
pub open spec fn multihead_check(
    kind: HeadKind,
    family: Family,
    stream: Stream,
    h: Heads,
    heads: usize,
) -> Checked {
    let name = kind.family();
    if heads == 0 {
        Err(KernelError::Rule { family: name, rule: "requires at least one head" })
    } else if !fits(heads * h.query_rows) || !fits(heads * h.query_rows * h.head_dim) || !fits(
        heads * h.kv_rows,
    ) || !fits(heads * h.kv_rows * h.head_dim) || !fits(heads * h.kv_rows * h.value_dim) || !fits(
        heads * h.query_rows * h.value_dim,
    ) {
        Err(KernelError::Rule { family: name, rule: "shape overflows usize" })
    } else if h.queries.len != heads * h.query_rows * h.head_dim {
        Err(
            KernelError::GroupedShape {
                family: name,
                operand: "queries have",
                actual: h.queries.len,
                groups: heads,
                unit: "heads",
                rows: h.query_rows,
                cols: h.head_dim,
                required: (heads * h.query_rows * h.head_dim) as usize,
            },
        )
    } else if h.keys.len != heads * h.kv_rows * h.head_dim {
        Err(
            KernelError::GroupedShape {
                family: name,
                operand: "keys have",
                actual: h.keys.len,
                groups: heads,
                unit: "heads",
                rows: h.kv_rows,
                cols: h.head_dim,
                required: (heads * h.kv_rows * h.head_dim) as usize,
            },
        )
    } else if h.values.len != heads * h.kv_rows * h.value_dim {
        Err(
            KernelError::GroupedShape {
                family: name,
                operand: "values have",
                actual: h.values.len,
                groups: heads,
                unit: "heads",
                rows: h.kv_rows,
                cols: h.value_dim,
                required: (heads * h.kv_rows * h.value_dim) as usize,
            },
        )
    } else if h.output.len != heads * h.query_rows * h.value_dim {
        Err(
            KernelError::GroupedShape {
                family: name,
                operand: "output has",
                actual: h.output.len,
                groups: heads,
                unit: "heads",
                rows: h.query_rows,
                cols: h.value_dim,
                required: (heads * h.query_rows * h.value_dim) as usize,
            },
        )
    } else {
        heads_context_check(kind, family, stream, h)
    }
}

/// The dynamic shared memory of the fused kernel: one key chunk, one value
/// chunk, two floats per thread, the query row and the output row.
pub open spec fn head_bytes(width: u32, head_dim: usize, value_dim: usize) -> int {
    (width * head_dim + width * value_dim + width * 2 + head_dim + value_dim) * 4
}

/// Whether the fused kernel can hold heads of this shape.
pub open spec fn head_fits(width: u32, head_dim: usize, value_dim: usize, probe: Probe) -> bool {
    match probe {
        Ok(attributes) => fits(head_bytes(width, head_dim, value_dim)) && head_bytes(
            width,
            head_dim,
            value_dim,
        ) <= attributes.max_dynamic_shared_memory_bytes,
        Err(_) => false,
    }
}

/// Why the fused kernel cannot hold heads of this shape.
pub open spec fn fused_head_check(
    kind: HeadKind,
    width: u32,
    h: Heads,
    probe: Probe,
) -> Checked {
    if head_fits(width, h.head_dim, h.value_dim, probe) {
        Ok(())
    } else {
        Err(
            KernelError::FusedHead {
                family: kind.family(),
                required: if fits(head_bytes(width, h.head_dim, h.value_dim)) {
                    head_bytes(width, h.head_dim, h.value_dim) as usize
                } else {
                    0
                },
                head_dim: h.head_dim,
                value_dim: h.value_dim,
                block_size: width,
            },
        )
    }
}

/// Fused attention over one head: one block per query row.
pub open spec fn fused_plan(
    kind: HeadKind,
    family: Family,
    stream: Stream,
    h: Heads,
    scale: F32,
    mask: AttentionMask,
    probe: Probe,
) -> PlanView {
    PlanView::checked(head_check(kind, family, stream, h)).followed_by(
        PlanView::checked(causal_check(h, mask)),
    ).followed_by(PlanView::checked(fused_head_check(kind, family.width, h, probe))).followed_by(
        if h.query_rows == 0 {
            PlanView::done()
        } else if h.query_rows > u32::MAX {
            PlanView::rejected(
                KernelError::Rule { family: kind.family(), rule: "exceeds u32::MAX query rows" },
            )
        } else {
            PlanView::launch(
                kind.kernel(),
                line(
                    h.query_rows as u32,
                    family.width,
                    head_bytes(family.width, h.head_dim, h.value_dim) as u32,
                ),
                Arguments::Attention {
                    queries: h.queries.id,
                    keys: h.keys.id,
                    values: h.values.id,
                    output: h.output.id,
                    query_rows: h.query_rows as u64,
                    head_dim: h.head_dim as u64,
                    kv_rows: h.kv_rows as u64,
                    value_dim: h.value_dim as u64,
                    scale,
                    causal: mask.flag(),
                },
            )
        },
    )
}

/// Fused attention over several packed heads: one block per head and query
/// row.
pub open spec fn fused_multihead_plan(
    kind: HeadKind,
    family: Family,
    stream: Stream,
    h: Heads,
    heads: usize,
    scale: F32,
    mask: AttentionMask,
    probe: Probe,
) -> PlanView {
    PlanView::checked(multihead_check(kind, family, stream, h, heads)).followed_by(
        PlanView::checked(causal_check(h, mask)),
    ).followed_by(PlanView::checked(fused_head_check(kind, family.width, h, probe))).followed_by(
        if h.query_rows == 0 {
            PlanView::done()
        } else if heads * h.query_rows > u32::MAX {
            PlanView::rejected(
                KernelError::Rule {
                    family: kind.family(),
                    rule: "exceeds u32::MAX head-by-query blocks",
                },
            )
        } else {
            PlanView::launch(
                kind.multihead_kernel(),
                line(
                    (heads * h.query_rows) as u32,
                    family.width,
                    head_bytes(family.width, h.head_dim, h.value_dim) as u32,
                ),
                Arguments::MultiheadAttention {
                    queries: h.queries.id,
                    keys: h.keys.id,
                    values: h.values.id,
                    output: h.output.id,
                    heads: heads as u32,
                    query_rows: h.query_rows as u64,
                    head_dim: h.head_dim as u64,
                    kv_rows: h.kv_rows as u64,
                    value_dim: h.value_dim as u64,
                    scale,
                    causal: mask.flag(),
                },
            )
        },
    )
}

/// Checks that everything lives in the family's context.
pub fn check_heads_context(
    kind: HeadKind,
    family: Family,
    stream: &Stream,
    h: &Heads,
) -> (check: Checked)
    ensures
        check == heads_context_check(kind, family, *stream, *h),
{
    if stream.context != family.context || h.queries.context != family.context || h.keys.context
        != family.context || h.values.context != family.context || h.output.context
        != family.context {
        Err(
            KernelError::Rule {
                family: kind.get_family(),
                rule: "stream, buffers, and kernel must share one context",
            },
        )
    } else {
        Ok(())
    }
}

/// Checks that keys, head and values are not empty.
pub fn check_nonempty(kind: HeadKind, h: &Heads) -> (check: Checked)
    ensures
        check == nonempty_check(kind, *h),
{
    if h.head_dim == 0 || h.kv_rows == 0 || h.value_dim == 0 {
        Err(
            KernelError::EmptyHead {
                family: kind.get_family(),
                head_dim: h.head_dim,
                kv_rows: h.kv_rows,
                value_dim: h.value_dim,
            },
        )
    } else {
        Ok(())
    }
}

/// Checks that a causal mask has as many queries as keys.
pub fn check_causal(h: &Heads, mask: AttentionMask) -> (check: Checked)
    ensures
        check == causal_check(*h, mask),
{
    if mask == AttentionMask::Causal && h.query_rows != h.kv_rows {
        Err(KernelError::CausalShape { query_rows: h.query_rows, kv_rows: h.kv_rows })
    } else {
        Ok(())
    }
}

fn exact_shape(
    name: &'static str,
    operand: &'static str,
    actual: usize,
    rows: usize,
    cols: usize,
    required: usize,
) -> (check: Checked)
    ensures
        check == (if actual != required {
            Checked::Err(
                KernelError::Shape {
                    family: name,
                    operand,
                    actual,
                    unit: "elements",
                    rows,
                    cols,
                    required,
                },
            )
        } else {
            Checked::Ok(())
        }),
{
    if actual != required {
        Err(
            KernelError::Shape {
                family: name,
                operand,
                actual,
                unit: "elements",
                rows,
                cols,
                required,
            },
        )
    } else {
        Ok(())
    }
}

fn exact_grouped_shape(
    name: &'static str,
    operand: &'static str,
    actual: usize,
    groups: usize,
    rows: usize,
    cols: usize,
    required: usize,
) -> (check: Checked)
    ensures
        check == (if actual != required {
            Checked::Err(
                KernelError::GroupedShape {
                    family: name,
                    operand,
                    actual,
                    groups,
                    unit: "heads",
                    rows,
                    cols,
                    required,
                },
            )
        } else {
            Checked::Ok(())
        }),
{
    if actual != required {
        Err(
            KernelError::GroupedShape {
                family: name,
                operand,
                actual,
                groups,
                unit: "heads",
                rows,
                cols,
                required,
            },
        )
    } else {
        Ok(())
    }
}

/// Checks the operands of one head.
pub fn check_head(kind: HeadKind, family: Family, stream: &Stream, h: &Heads) -> (check: Checked)
    ensures
        check == head_check(kind, family, *stream, *h),
{
    let name = kind.get_family();
    check_nonempty(kind, h)?;
    let overflow = KernelError::Rule { family: name, rule: "shape overflows usize" };
    let expected_q: usize = match h.query_rows.checked_mul(h.head_dim) {
        Some(elements) => elements,
        None => {
            return Err(overflow);
        },
    };
    let expected_k: usize = match h.kv_rows.checked_mul(h.head_dim) {
        Some(elements) => elements,
        None => {
            return Err(overflow);
        },
    };
    let expected_v: usize = match h.kv_rows.checked_mul(h.value_dim) {
        Some(elements) => elements,
        None => {
            return Err(overflow);
        },
    };
    let expected_o: usize = match h.query_rows.checked_mul(h.value_dim) {
        Some(elements) => elements,
        None => {
            return Err(overflow);
        },
    };
    exact_shape(name, "queries have", h.queries.len, h.query_rows, h.head_dim, expected_q)?;
    exact_shape(name, "keys have", h.keys.len, h.kv_rows, h.head_dim, expected_k)?;
    exact_shape(name, "values have", h.values.len, h.kv_rows, h.value_dim, expected_v)?;
    exact_shape(name, "output has", h.output.len, h.query_rows, h.value_dim, expected_o)?;
    check_heads_context(kind, family, stream, h)
}

/// Checks the operands of several packed heads.
pub fn check_multihead(
    kind: HeadKind,
    family: Family,
    stream: &Stream,
    h: &Heads,
    heads: usize,
) -> (check: Checked)
    ensures
        check == multihead_check(kind, family, *stream, *h, heads),
{
    let name = kind.get_family();
    if heads == 0 {
        return Err(KernelError::Rule { family: name, rule: "requires at least one head" });
    }
    let overflow = KernelError::Rule { family: name, rule: "shape overflows usize" };
    let expected_q: usize = match product3(heads, h.query_rows, h.head_dim) {
        Some(elements) => elements,
        None => {
            return Err(overflow);
        },
    };
    let expected_k: usize = match product3(heads, h.kv_rows, h.head_dim) {
        Some(elements) => elements,
        None => {
            return Err(overflow);
        },
    };
    let expected_v: usize = match product3(heads, h.kv_rows, h.value_dim) {
        Some(elements) => elements,
        None => {
            return Err(overflow);
        },
    };
    let expected_o: usize = match product3(heads, h.query_rows, h.value_dim) {
        Some(elements) => elements,
        None => {
            return Err(overflow);
        },
    };
    exact_grouped_shape(
        name,
        "queries have",
        h.queries.len,
        heads,
        h.query_rows,
        h.head_dim,
        expected_q,
    )?;
    exact_grouped_shape(
        name,
        "keys have",
        h.keys.len,
        heads,
        h.kv_rows,
        h.head_dim,
        expected_k,
    )?;
    exact_grouped_shape(
        name,
        "values have",
        h.values.len,
        heads,
        h.kv_rows,
        h.value_dim,
        expected_v,
    )?;
    exact_grouped_shape(
        name,
        "output has",
        h.output.len,
        heads,
        h.query_rows,
        h.value_dim,
        expected_o,
    )?;
    check_heads_context(kind, family, stream, h)
}

/// The dynamic shared memory of the fused kernel, where it can be counted.
pub fn fused_head_bytes(width: u32, head_dim: usize, value_dim: usize) -> (bytes: Option<usize>)
    ensures
        bytes == (if fits(head_bytes(width, head_dim, value_dim)) {
            Some(head_bytes(width, head_dim, value_dim) as usize)
        } else {
            None::<usize>
        }),
{
    let threads: usize = width as usize;
    assert(width * head_dim >= 0) by (nonlinear_arith);
    assert(width * value_dim >= 0) by (nonlinear_arith);
    let keys: usize = threads.checked_mul(head_dim)?;
    let values: usize = threads.checked_mul(value_dim)?;
    let chunks: usize = keys.checked_add(values)?;
    let pair: usize = threads.checked_mul(2)?;
    let staged: usize = chunks.checked_add(pair)?;
    let with_query: usize = staged.checked_add(head_dim)?;
    let floats: usize = with_query.checked_add(value_dim)?;
    floats.checked_mul(4)
}

/// Whether the fused kernel can hold heads of this shape.
pub fn is_head_fitting(
    width: u32,
    head_dim: usize,
    value_dim: usize,
    probe: Probe,
) -> (answer: bool)
    ensures
        answer == head_fits(width, head_dim, value_dim, probe),
{
    match fused_head_bytes(width, head_dim, value_dim) {
        None => false,
        Some(bytes) => match probe {
            Err(_) => false,
            Ok(attributes) => bytes <= attributes.max_dynamic_shared_memory_bytes as usize,
        },
    }
}

/// The dynamic shared memory of the fused kernel, where the function allows
/// it.
pub fn check_fused_head(
    kind: HeadKind,
    width: u32,
    h: &Heads,
    probe: Probe,
) -> (bytes: Result<u32, KernelError>)
    ensures
        match bytes {
            Ok(bytes) => fused_head_check(kind, width, *h, probe) is Ok && bytes == head_bytes(
                width,
                h.head_dim,
                h.value_dim,
            ),
            Err(error) => fused_head_check(kind, width, *h, probe) == Checked::Err(error),
        },
{
    let bytes = fused_head_bytes(width, h.head_dim, h.value_dim);
    let required: usize = match bytes {
        Some(bytes) => bytes,
        None => 0,
    };
    if is_head_fitting(width, h.head_dim, h.value_dim, probe) {
        Ok(required as u32)
    } else {
        Err(
            KernelError::FusedHead {
                family: kind.get_family(),
                required,
                head_dim: h.head_dim,
                value_dim: h.value_dim,
                block_size: width,
            },
        )
    }
}

/// Plans fused attention over one head.
pub fn plan_fused(
    kind: HeadKind,
    family: Family,
    stream: &Stream,
    h: &Heads,
    scale: F32,
    mask: AttentionMask,
    probe: Probe,
) -> (plan: Plan)
    ensures
        plan@ == fused_plan(kind, family, *stream, *h, scale, mask, probe),
{
    match check_head(kind, family, stream, h) {
        Err(error) => {
            return Plan::rejected(error);
        },
        Ok(()) => {},
    }
    match check_causal(h, mask) {
        Err(error) => {
            return Plan::rejected(error);
        },
        Ok(()) => {},
    }
    let bytes: u32 = match check_fused_head(kind, family.width, h, probe) {
        Err(error) => {
            return Plan::rejected(error);
        },
        Ok(bytes) => bytes,
    };
    if h.query_rows == 0 {
        return Plan::done();
    }
    let grid: u32 = match to_u32(h.query_rows) {
        Some(blocks) => blocks,
        None => {
            return Plan::rejected(
                KernelError::Rule {
                    family: kind.get_family(),
                    rule: "exceeds u32::MAX query rows",
                },
            );
        },
    };
    Plan::launch(
        kind.get_kernel(),
        line_shape(grid, family.width, bytes),
        Arguments::Attention {
            queries: h.queries.id,
            keys: h.keys.id,
            values: h.values.id,
            output: h.output.id,
            query_rows: h.query_rows as u64,
            head_dim: h.head_dim as u64,
            kv_rows: h.kv_rows as u64,
            value_dim: h.value_dim as u64,
            scale,
            causal: mask.to_flag(),
        },
    )
}

/// Plans fused attention over several packed heads.
pub fn plan_fused_multihead(
    kind: HeadKind,
    family: Family,
    stream: &Stream,
    h: &Heads,
    heads: usize,
    scale: F32,
    mask: AttentionMask,
    probe: Probe,
) -> (plan: Plan)
    ensures
        plan@ == fused_multihead_plan(kind, family, *stream, *h, heads, scale, mask, probe),
{
    match check_multihead(kind, family, stream, h, heads) {
        Err(error) => {
            return Plan::rejected(error);
        },
        Ok(()) => {},
    }
    match check_causal(h, mask) {
        Err(error) => {
            return Plan::rejected(error);
        },
        Ok(()) => {},
    }
    let bytes: u32 = match check_fused_head(kind, family.width, h, probe) {
        Err(error) => {
            return Plan::rejected(error);
        },
        Ok(bytes) => bytes,
    };
    if h.query_rows == 0 {
        return Plan::done();
    }
    let grid: u32 = match to_u32(heads * h.query_rows) {
        Some(blocks) => blocks,
        None => {
            return Plan::rejected(
                KernelError::Rule {
                    family: kind.get_family(),
                    rule: "exceeds u32::MAX head-by-query blocks",
                },
            );
        },
    };
    assert(heads <= heads * h.query_rows) by (nonlinear_arith)
        requires
            h.query_rows >= 1,
    ;
    Plan::launch(
        kind.get_multihead_kernel(),
        line_shape(grid, family.width, bytes),
        Arguments::MultiheadAttention {
            queries: h.queries.id,
            keys: h.keys.id,
            values: h.values.id,
            output: h.output.id,
            heads: heads as u32,
            query_rows: h.query_rows as u64,
            head_dim: h.head_dim as u64,
            kv_rows: h.kv_rows as u64,
            value_dim: h.value_dim as u64,
            scale,
            causal: mask.to_flag(),
        },
    )
}

/// The head and the query row that a block of the packed launch owns.
pub open spec fn block_owner(block: int, query_rows: int) -> (int, int) {
    (block / query_rows, block % query_rows)
}

/// In the packed launch every pair of a head and a query row belongs to
/// exactly one block of the grid.
pub proof fn blocks_cover_heads_and_rows_once(
    heads: usize,
    query_rows: usize,
    head: int,
    row: int,
    block: int,
)
    requires
        0 <= head < heads,
        0 <= row < query_rows,
        0 <= block < heads * query_rows,
    ensures
        0 <= head * query_rows + row < heads * query_rows,
        block_owner(head * query_rows + row, query_rows as int) == (head, row),
        block_owner(block, query_rows as int) == (head, row) <==> block == head * query_rows + row,
        0 <= block_owner(block, query_rows as int).0 < heads,
        0 <= block_owner(block, query_rows as int).1 < query_rows,
{
    let q = query_rows as int;
    assert(head * q + row < heads * q) by (nonlinear_arith)
        requires
            head + 1 <= heads,
            0 <= row < q,
    ;
    assert(0 <= head * q) by (nonlinear_arith)
        requires
            head >= 0,
            q >= 0,
    ;
    vstd::arithmetic::div_mod::lemma_fundamental_div_mod_converse(head * q + row, q, head, row);
    vstd::arithmetic::div_mod::lemma_fundamental_div_mod(block, q);
    vstd::arithmetic::mul::lemma_mul_is_commutative(q, block / q);
    vstd::arithmetic::div_mod::lemma_div_pos_is_pos(block, q);
    vstd::arithmetic::div_mod::lemma_multiply_divide_lt(block, q, heads as int);
}

/// The heads of an accepted packed launch partition its buffers: head `head`
/// lies inside every buffer, and the next head begins where it ends.
pub proof fn heads_partition_the_buffers(
    kind: HeadKind,
    family: Family,
    stream: Stream,
    h: Heads,
    heads: usize,
    head: int,
)
    requires
        multihead_check(kind, family, stream, h, heads) is Ok,
        0 <= head < heads,
    ensures
        head * h.query_rows * h.head_dim + h.query_rows * h.head_dim <= h.queries.len,
        head * h.kv_rows * h.head_dim + h.kv_rows * h.head_dim <= h.keys.len,
        head * h.kv_rows * h.value_dim + h.kv_rows * h.value_dim <= h.values.len,
        head * h.query_rows * h.value_dim + h.query_rows * h.value_dim <= h.output.len,
        head * h.query_rows * h.head_dim + h.query_rows * h.head_dim == (head + 1) * h.query_rows
            * h.head_dim,
        head * h.kv_rows * h.head_dim + h.kv_rows * h.head_dim == (head + 1) * h.kv_rows
            * h.head_dim,
        head * h.kv_rows * h.value_dim + h.kv_rows * h.value_dim == (head + 1) * h.kv_rows
            * h.value_dim,
        head * h.query_rows * h.value_dim + h.query_rows * h.value_dim == (head + 1)
            * h.query_rows * h.value_dim,
{
    packed_part(heads as int, h.query_rows as int, h.head_dim as int, head);
    packed_part(heads as int, h.kv_rows as int, h.head_dim as int, head);
    packed_part(heads as int, h.kv_rows as int, h.value_dim as int, head);
    packed_part(heads as int, h.query_rows as int, h.value_dim as int, head);
}

proof fn packed_part(groups: int, rows: int, cols: int, group: int)
    requires
        0 <= group < groups,
        rows >= 0,
        cols >= 0,
    ensures
        group * rows * cols + rows * cols <= groups * rows * cols,
        group * rows * cols + rows * cols == (group + 1) * rows * cols,
{
    assert(group * rows * cols + rows * cols == (group + 1) * rows * cols) by (nonlinear_arith);
    assert((group + 1) * rows * cols <= groups * rows * cols) by (nonlinear_arith)
        requires
            group + 1 <= groups,
            rows >= 0,
            cols >= 0,
    ;
}

/// One packed head is launched as a single head is: the same inputs are
/// accepted, and the launch has the same grid, block and shared memory and
/// hands over the same buffers, dimensions, scale and mask.
pub proof fn one_packed_head_is_a_single_head(
    kind: HeadKind,
    family: Family,
    stream: Stream,
    h: Heads,
    scale: F32,
    mask: AttentionMask,
    probe: Probe,
)
    requires
        h.head_dim > 0,
        h.kv_rows > 0,
        h.value_dim > 0,
    ensures
        ({
            let single = fused_plan(kind, family, stream, h, scale, mask, probe);
            let packed = fused_multihead_plan(kind, family, stream, h, 1, scale, mask, probe);
            &&& single.outcome is Ok <==> packed.outcome is Ok
            &&& single.outcome is Ok && h.query_rows > 0 ==> {
                &&& single.steps[0].action matches Action::Launch(one)
                &&& packed.steps[0].action matches Action::Launch(many)
                &&& one.shape == many.shape
                &&& one.kernel == kind.kernel()
                &&& many.kernel == kind.multihead_kernel()
                &&& one.arguments matches Arguments::Attention {
                    queries,
                    keys,
                    values,
                    output,
                    query_rows,
                    head_dim,
                    kv_rows,
                    value_dim,
                    scale,
                    causal,
                }
                &&& many.arguments == (Arguments::MultiheadAttention {
                    queries,
                    keys,
                    values,
                    output,
                    heads: 1,
                    query_rows,
                    head_dim,
                    kv_rows,
                    value_dim,
                    scale,
                    causal,
                })
            }
        }),
{
    assert(1 * h.query_rows * h.head_dim == h.query_rows * h.head_dim) by (nonlinear_arith);
    assert(1 * h.kv_rows * h.head_dim == h.kv_rows * h.head_dim) by (nonlinear_arith);
    assert(1 * h.kv_rows * h.value_dim == h.kv_rows * h.value_dim) by (nonlinear_arith);
    assert(1 * h.query_rows * h.value_dim == h.query_rows * h.value_dim) by (nonlinear_arith);
}

/// The fused path is announced as available exactly where its shared-memory
/// check passes.
pub proof fn available_where_the_head_fits(kind: HeadKind, width: u32, h: Heads, probe: Probe)
    ensures
        head_fits(width, h.head_dim, h.value_dim, probe) <==> fused_head_check(
            kind,
            width,
            h,
            probe,
        ) is Ok,
{
}

/// Smaller heads fit wherever larger ones do.
pub proof fn smaller_heads_fit(
    width: u32,
    head_dim: usize,
    value_dim: usize,
    smaller_head: usize,
    smaller_value: usize,
    probe: Probe,
)
    requires
        smaller_head <= head_dim,
        smaller_value <= value_dim,
        head_fits(width, head_dim, value_dim, probe),
    ensures
        head_fits(width, smaller_head, smaller_value, probe),
{
    assert(width * smaller_head <= width * head_dim) by (nonlinear_arith)
        requires
            smaller_head <= head_dim,
    ;
    assert(width * smaller_value <= width * value_dim) by (nonlinear_arith)
        requires
            smaller_value <= value_dim,
    ;
}

/// A refused fused launch submits nothing.
pub proof fn refused_fused_attention_submits_nothing(
    kind: HeadKind,
    family: Family,
    stream: Stream,
    h: Heads,
    heads: usize,
    scale: F32,
    mask: AttentionMask,
    probe: Probe,
)
    ensures
        fused_plan(kind, family, stream, h, scale, mask, probe).outcome is Err ==> fused_plan(
            kind,
            family,
            stream,
            h,
            scale,
            mask,
            probe,
        ).steps.len() == 0,
        fused_multihead_plan(kind, family, stream, h, heads, scale, mask, probe).outcome is Err
            ==> fused_multihead_plan(
            kind,
            family,
            stream,
            h,
            heads,
            scale,
            mask,
            probe,
        ).steps.len() == 0,
{
}

/// A causal mask over a rectangular score matrix is always refused.
pub proof fn causal_needs_a_square(
    kind: HeadKind,
    family: Family,
    stream: Stream,
    h: Heads,
    heads: usize,
    scale: F32,
    probe: Probe,
)
    requires
        h.query_rows != h.kv_rows,
    ensures
        fused_plan(
            kind,
            family,
            stream,
            h,
            scale,
            AttentionMask::Causal,
            probe,
        ).outcome is Err,
        fused_multihead_plan(
            kind,
            family,
            stream,
            h,
            heads,
            scale,
            AttentionMask::Causal,
            probe,
        ).outcome is Err,
{
}

/// A causal mask over a square score matrix leaves every query at least its
/// own key, and never a later one.
pub proof fn causal_rows_see_themselves(rows: int, row: int, key: int)
    requires
        0 <= row < rows,
        0 <= key < rows,
    ensures
        AttentionMask::Causal.admits(row, row),
        AttentionMask::Causal.admits(row, key) <==> key <= row,
        AttentionMask::Unmasked.admits(row, key),
{
}

/// Fused attention allocates no device memory: nothing the size of the score
/// matrix is ever stored, and one launch does all the work.
pub proof fn fused_attention_stores_no_scores(
    kind: HeadKind,
    family: Family,
    stream: Stream,
    h: Heads,
    heads: usize,
    scale: F32,
    mask: AttentionMask,
    probe: Probe,
)
    ensures
        fused_plan(kind, family, stream, h, scale, mask, probe).never_allocates(),
        fused_plan(kind, family, stream, h, scale, mask, probe).steps.len() <= 1,
        fused_multihead_plan(kind, family, stream, h, heads, scale, mask, probe).never_allocates(),
        fused_multihead_plan(kind, family, stream, h, heads, scale, mask, probe).steps.len() <= 1,
{
}

} // verus!
