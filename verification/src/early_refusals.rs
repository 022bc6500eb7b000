//! What operations made of several parts refuse, and that they submit nothing
//! by then.
//!
//! Those that make scratch for themselves test the contexts of that scratch
//! first, and everything else after the scratch has been made.

use crate::arith::ceil_div;
use crate::attention::{composed_plan, ComposedFamilies};
use crate::bf16_norms::{norm_plan, NormKind};
use crate::device::{BufferId, ContextId, DeviceBuffer, Scratch, Stream, F32};
use crate::error::{Checked, KernelError};
use crate::family::Family;
use crate::gather::{
    bf16_gather_plan, checked_bf16_gather_plan, checked_gather_plan, gather_plan,
    index_check_decides, index_check_reports_the_first, Lookup,
};
use crate::heads::{AttentionMask, Heads};
use crate::launch::Kernel;
use crate::plan::PlanView;
use crate::reduction::{
    own_workspace, reduction_runs_or_submits_nothing, scalar_output, scalar_plan, ReductionInput,
    ReductionOp, TreeWorkspace,
};
use crate::refusals::{row_refusals, selection_refusals};
use crate::rms_norm::rms_dispatch_plan;
use crate::row_softmax::softmax_dispatch_plan;
use crate::rows::{row_workspace_for, FusedProbes, Rows};
use crate::scatter::{
    checked_scatter_plan, position_check_decides, position_check_reports_the_first, scatter_plan,
    Placement,
};
use crate::softmax::{
    own_scalars, own_tree, softmax_alone_plan, softmax_into_plan, softmax_plan,
    softmax_pooled_plan, softmax_runs_or_submits_nothing, SoftmaxOperands, SoftmaxView,
};
use crate::top_k::{
    own_buffers, own_selection_plan, selection_runs_or_submits_nothing, selection_workspace_for,
    Selection,
};
use vstd::prelude::*;

verus! {

/// No call submits work.
pub open spec fn submits_nothing(plan: PlanView) -> bool {
    forall|i: int| 0 <= i < plan.steps.len() ==> !(#[trigger] plan.steps[i]).action.submits()
}

/// A gather whose host has read an index that is no row is refused for the first
/// such index before anything is done, whatever else is wrong with it; without
/// such an index it is the gather, waited for.
pub proof fn checked_gather_tests_the_indices_first(
    family: Family,
    stream: Stream,
    p: Lookup,
    indices: Seq<u32>,
    at: int,
)
    requires
        0 <= at <= indices.len() <= usize::MAX,
        forall|i: int| 0 <= i < at ==> #[trigger] indices[i] < p.rows,
        at < indices.len() ==> indices[at] >= p.rows,
    ensures
        ({
            let (plain, packed) = (
                checked_gather_plan(family, stream, p, indices),
                checked_bf16_gather_plan(family, stream, p, indices),
            );
            let refusal = |name: &'static str|
                KernelError::OutOfRange {
                    family: name,
                    operand: "index",
                    row: indices[at],
                    place: "position",
                    at: at as usize,
                    rows: p.rows,
                };
            if at < indices.len() {
                &&& plain.outcome == Checked::Err(refusal("gather"))
                &&& plain.steps.len() == 0
                &&& packed.outcome == Checked::Err(refusal("bf16 gather"))
                &&& packed.steps.len() == 0
            } else {
                &&& plain == gather_plan(family, stream, p).synchronized()
                &&& packed == bf16_gather_plan(family, stream, p).synchronized()
            }
        }),
{
    index_check_decides("gather", indices, p.rows, 0);
    index_check_decides("bf16 gather", indices, p.rows, 0);
    if at < indices.len() {
        index_check_reports_the_first("gather", indices, p.rows, at);
        index_check_reports_the_first("bf16 gather", indices, p.rows, at);
    } else {
        let plain = gather_plan(family, stream, p).synchronized();
        let packed = bf16_gather_plan(family, stream, p).synchronized();
        assert(checked_gather_plan(family, stream, p, indices).steps =~= plain.steps);
        assert(checked_bf16_gather_plan(family, stream, p, indices).steps =~= packed.steps);
    }
}

/// A scatter whose host has read a position that is no row of the output, or one
/// twice, is refused for the first such slot before anything is done, whatever
/// else is wrong with it; without such a slot it is the scatter, waited for.
pub proof fn checked_scatter_tests_the_positions_first(
    name: &'static str,
    kernel: Kernel,
    family: Family,
    stream: Stream,
    p: Placement,
    positions: Seq<u32>,
    at: int,
)
    requires
        0 <= at <= positions.len() <= usize::MAX,
        forall|i: int| 0 <= i < at ==> #[trigger] positions[i] < p.output_rows,
        forall|i: int, j: int|
            0 <= i < j < at ==> #[trigger] positions[i] != #[trigger] positions[j],
        at < positions.len() ==> {
            ||| positions[at] >= p.output_rows
            ||| exists|i: int| 0 <= i < at && positions[i] == positions[at]
        },
    ensures
        ({
            let plan = checked_scatter_plan(name, kernel, family, stream, p, positions);
            if at < positions.len() {
                &&& plan.steps.len() == 0
                &&& plan.outcome == (if positions[at] >= p.output_rows {
                    Checked::Err(
                        KernelError::OutOfRange {
                            family: name,
                            operand: "position",
                            row: positions[at],
                            place: "slot",
                            at: at as usize,
                            rows: p.output_rows,
                        },
                    )
                } else {
                    Checked::Err(
                        KernelError::DuplicatePosition { family: name, row: positions[at] },
                    )
                })
            } else {
                plan == scatter_plan(name, kernel, family, stream, p).synchronized()
            }
        }),
{
    position_check_decides(name, positions, p.output_rows);
    if at < positions.len() {
        position_check_reports_the_first(name, positions, p.output_rows, at);
    } else {
        let plain = scatter_plan(name, kernel, family, stream, p).synchronized();
        assert(checked_scatter_plan(name, kernel, family, stream, p, positions).steps
            =~= plain.steps);
    }
}

/// A selection with scratch of its own is refused for the context of its input
/// before anything is done, and after that for what a selection with a given
/// workspace is refused for.
pub proof fn own_selection_refusals(family: Family, stream: Stream, s: Selection)
    requires
        family.width > 0,
    ensures
        own_selection_plan(family, stream, s).outcome matches Err(e) ==> {
            &&& submits_nothing(own_selection_plan(family, stream, s))
            &&& if s.input.context != family.context {
                &&& own_selection_plan(family, stream, s).steps.len() == 0
                &&& e == (KernelError::Rule {
                    family: "top-k",
                    rule: "and workspace contexts do not match",
                })
            } else if s.k == 0 {
                e == KernelError::Fixed("top-k requires at least one element")
            } else if s.input.len < s.k {
                e == (KernelError::SelectionLength { input: s.input.len, k: s.k })
            } else if s.input.len > u32::MAX {
                e == KernelError::Fixed("top-k input length exceeds u32::MAX")
            } else if s.values.len != s.k || s.indices.len != s.k {
                e == (KernelError::SelectionOutputs {
                    k: s.k,
                    values: s.values.len,
                    indices: s.indices.len,
                })
            } else {
                &&& {
                    ||| stream.context != family.context
                    ||| s.values.context != family.context
                    ||| s.indices.context != family.context
                }
                &&& e == (KernelError::Rule {
                    family: "top-k",
                    rule: "stream, buffers, workspace, and kernel must share one context",
                })
            }
        },
{
    let workspace = selection_workspace_for(family, s.input.context, s.input.len, own_buffers());
    selection_refusals(family, stream, s, workspace);
    selection_runs_or_submits_nothing(family, stream, s, workspace);
}

/// A reduction to a host scalar is refused for the context of its input before
/// anything is done, and after that for the context of the stream or the size of
/// the grid.
pub proof fn scalar_refusals(
    kind: ReductionInput,
    op: ReductionOp,
    family: Family,
    stream: Stream,
    input: DeviceBuffer,
)
    requires
        family.width > 0,
    ensures
        scalar_plan(kind, op, family, stream, input).outcome matches Err(e) ==> {
            &&& submits_nothing(scalar_plan(kind, op, family, stream, input))
            &&& if input.context != family.context {
                &&& scalar_plan(kind, op, family, stream, input).steps.len() == 0
                &&& e == (KernelError::Rule {
                    family: kind.family(),
                    rule: "and workspace contexts do not match",
                })
            } else if stream.context != family.context {
                e == (KernelError::Rule {
                    family: kind.family(),
                    rule: "stream, buffers, workspace, and kernel must share one context",
                })
            } else {
                &&& ceil_div(input.len as int, 2 * family.width as int) > u32::MAX
                &&& e == (KernelError::Rule {
                    family: kind.grid_family(),
                    rule: "grid exceeds u32::MAX blocks",
                })
            }
        },
{
    let output = scalar_output(input.context);
    let workspace = own_workspace(family, input);
    reduction_runs_or_submits_nothing(kind, op, family, stream, input, output, workspace);
}

/// What the reductions of a softmax are refused for once its operands are
/// accepted.
pub open spec fn tree_refused(
    reduction: Family,
    stream: Stream,
    elements: usize,
    workspace: TreeWorkspace,
    e: KernelError,
) -> bool {
    &&& elements > 0
    &&& if elements > workspace.max_elements {
        e == (KernelError::WorkspaceCapacity {
            family: "reduction",
            operand: "input has",
            actual: elements,
            unit: "elements",
            capacity: workspace.max_elements,
        })
    } else if workspace.block_size != reduction.width {
        e == (KernelError::WorkspaceBlockSize {
            workspace: workspace.block_size,
            family: "reduction",
            block_size: reduction.width,
        })
    } else if stream.context != reduction.context || workspace.scratch_a.context
        != reduction.context {
        e == (KernelError::Rule {
            family: "reduction",
            rule: "stream, buffers, workspace, and kernel must share one context",
        })
    } else {
        &&& ceil_div(elements as int, 2 * reduction.width as int) > u32::MAX
        &&& e == (KernelError::Rule {
            family: "reduction",
            rule: "grid exceeds u32::MAX blocks",
        })
    }
}

/// A softmax is refused for its operands first, and after that for what its
/// reductions are refused for, before anything is submitted.
pub proof fn softmax_stage_refusals(
    softmax: SoftmaxView,
    stream: Stream,
    o: SoftmaxOperands,
    workspace: TreeWorkspace,
)
    requires
        softmax.reduction.width > 0,
    ensures
        softmax_plan(softmax, stream, o, workspace).outcome matches Err(e) ==> {
            &&& softmax_plan(softmax, stream, o, workspace).steps.len() == 0
            &&& if o.input.len != o.output.len {
                e == (KernelError::SoftmaxLengths { input: o.input.len, output: o.output.len })
            } else if o.max_scratch.len != 1 {
                e == (KernelError::Holds {
                    family: "softmax",
                    operand: "max_scratch",
                    actual: o.max_scratch.len,
                    requirement: "expected exactly",
                    expected: 1,
                })
            } else if o.sum_scratch.len != 1 {
                e == (KernelError::Holds {
                    family: "softmax",
                    operand: "sum_scratch",
                    actual: o.sum_scratch.len,
                    requirement: "expected exactly",
                    expected: 1,
                })
            } else if o.max_scratch.id == o.sum_scratch.id {
                e == KernelError::Fixed(
                    "softmax max_scratch and sum_scratch must be distinct buffers",
                )
            } else if stream.context != softmax.family.context || o.input.context
                != softmax.family.context || o.output.context != softmax.family.context
                || o.max_scratch.context != softmax.family.context || o.sum_scratch.context
                != softmax.family.context {
                e == KernelError::Fixed(
                    "softmax stream, buffers, and kernels must share one context",
                )
            } else {
                tree_refused(softmax.reduction, stream, o.input.len, workspace, e)
            }
        },
{
    let kind = ReductionInput::F32;
    softmax_runs_or_submits_nothing(softmax, stream, o, workspace);
    reduction_runs_or_submits_nothing(
        kind,
        ReductionOp::Max,
        softmax.reduction,
        stream,
        o.input,
        o.max_scratch,
        workspace,
    );
    reduction_runs_or_submits_nothing(
        kind,
        ReductionOp::Sum,
        softmax.reduction,
        stream,
        o.output,
        o.sum_scratch,
        workspace,
    );
}

/// A softmax that makes its scratch is refused for the lengths, for the contexts
/// and for what its reductions are refused for, in this order, and submits
/// nothing then; one that makes its workspace too is refused for the context of
/// that before all else.
pub proof fn own_softmax_refusals(
    softmax: SoftmaxView,
    context: ContextId,
    stream: Stream,
    input: DeviceBuffer,
    output: DeviceBuffer,
    workspace: TreeWorkspace,
)
    requires
        softmax.reduction.width > 0,
    ensures
        ({
            let home = softmax.family.context;
            let mismatch = KernelError::Fixed(
                "softmax stream, buffers, and kernels must share one context",
            );
            let lengths = KernelError::SoftmaxLengths { input: input.len, output: output.len };
            let elsewhere = KernelError::Rule {
                family: "reduction",
                rule: "and workspace contexts do not match",
            };
            let grid = ceil_div(input.len as int, 2 * softmax.reduction.width as int) > u32::MAX;
            let apart = stream.context != home || input.context != home || output.context != home;
            let into = softmax_into_plan(softmax, stream, input, output, workspace);
            let alone = softmax_alone_plan(softmax, context, stream, input, output);
            let pooled = softmax_pooled_plan(softmax, context, stream, input, output);
            &&& into.outcome matches Err(e) ==> {
                &&& submits_nothing(into)
                &&& if input.len != output.len {
                    e == lengths
                } else if apart {
                    e == mismatch
                } else {
                    tree_refused(softmax.reduction, stream, input.len, workspace, e)
                }
            }
            &&& alone.outcome matches Err(e) ==> {
                &&& submits_nothing(alone)
                &&& if context != softmax.reduction.context {
                    alone.steps.len() == 0 && e == elsewhere
                } else if input.len != output.len {
                    e == lengths
                } else if apart {
                    e == mismatch
                } else if stream.context != context {
                    e == (KernelError::Rule {
                        family: "reduction",
                        rule: "stream, buffers, workspace, and kernel must share one context",
                    })
                } else {
                    grid && e == (KernelError::Rule {
                        family: "reduction",
                        rule: "grid exceeds u32::MAX blocks",
                    })
                }
            }
            &&& pooled.outcome matches Err(e) ==> {
                &&& submits_nothing(pooled)
                &&& if context != softmax.reduction.context {
                    pooled.steps.len() == 0 && e == elsewhere
                } else if input.len != output.len {
                    e == lengths
                } else if apart || context != home {
                    e == mismatch
                } else {
                    grid && e == (KernelError::Rule {
                        family: "reduction",
                        rule: "grid exceeds u32::MAX blocks",
                    })
                }
            }
        }),
{
    let own = own_scalars(stream.context, input, output);
    let shared = own_scalars(context, input, output);
    let tree = own_tree(softmax.reduction, context, input.len);
    softmax_stage_refusals(softmax, stream, own, workspace);
    softmax_stage_refusals(softmax, stream, own, tree);
    softmax_stage_refusals(softmax, stream, shared, tree);
}

/// What a row operation over `r` is refused for before its path matters.
pub open spec fn rows_refused(
    family: Family,
    stream: Stream,
    r: Rows,
    name: &'static str,
) -> Option<KernelError> {
    if r.rows * r.cols > usize::MAX {
        Some(KernelError::Rule { family: name, rule: "shape overflows usize" })
    } else if r.input.len != r.rows * r.cols {
        Some(
            KernelError::Shape {
                family: name,
                operand: "input has",
                actual: r.input.len,
                unit: "elements",
                rows: r.rows,
                cols: r.cols,
                required: (r.rows * r.cols) as usize,
            },
        )
    } else if r.output.len != r.rows * r.cols {
        Some(
            KernelError::Shape {
                family: name,
                operand: "output has",
                actual: r.output.len,
                unit: "elements",
                rows: r.rows,
                cols: r.cols,
                required: (r.rows * r.cols) as usize,
            },
        )
    } else if stream.context != family.context || r.input.context != family.context
        || r.output.context != family.context {
        Some(
            KernelError::Rule {
                family: name,
                rule: "stream, buffers, and kernels must share one context",
            },
        )
    } else {
        None
    }
}

/// A dispatched row operation submits nothing where it is refused. Where a row
/// does not stay in shared memory, it is refused for the context of the stream
/// before anything is done; after that, and otherwise at once, for the shape and
/// the contexts of its rows; and last for what its path is refused for.
pub proof fn dispatch_refusals(
    family: Family,
    stream: Stream,
    r: Rows,
    epsilon: F32,
    gamma: F32,
    probes: FusedProbes,
)
    ensures
        ({
            let bytes = 4 * r.cols + 4 * family.width;
            let stays = probes.available is Ok && bytes <= usize::MAX && bytes
                <= probes.available->Ok_0.max_dynamic_shared_memory_bytes;
            let softmax = softmax_dispatch_plan(family, stream, r, probes);
            let rms = rms_dispatch_plan(family, stream, r, epsilon, gamma, probes);
            let elsewhere = |name: &'static str|
                KernelError::Rule { family: name, rule: "and workspace contexts do not match" };
            let crowded = |name: &'static str|
                KernelError::Rule { family: name, rule: "exceeds u32::MAX rows" };
            &&& softmax.outcome matches Err(e) ==> {
                &&& submits_nothing(softmax)
                &&& if !stays && stream.context != family.context {
                    softmax.steps.len() == 0 && e == elsewhere("row-softmax")
                } else if rows_refused(family, stream, r, "row-softmax") is Some {
                    e == rows_refused(family, stream, r, "row-softmax")->0
                } else if stays && probes.fused is Err {
                    e == KernelError::Device(probes.fused->Err_0)
                } else if stays && bytes > probes.fused->Ok_0.max_dynamic_shared_memory_bytes {
                    e == (KernelError::FusedRow {
                        path: "fused row softmax",
                        required: bytes as usize,
                        cols: r.cols,
                        limit: probes.fused->Ok_0.max_dynamic_shared_memory_bytes,
                    })
                } else {
                    r.rows > u32::MAX && e == crowded("row-softmax")
                }
            }
            &&& rms.outcome matches Err(e) ==> {
                &&& submits_nothing(rms)
                &&& if !stays && stream.context != family.context {
                    rms.steps.len() == 0 && e == elsewhere("rms-norm")
                } else if rows_refused(family, stream, r, "rms-norm") is Some {
                    e == rows_refused(family, stream, r, "rms-norm")->0
                } else if stays && probes.fused is Err {
                    e == KernelError::Device(probes.fused->Err_0)
                } else if stays && bytes > probes.fused->Ok_0.max_dynamic_shared_memory_bytes {
                    e == (KernelError::FusedRow {
                        path: "fused rms norm",
                        required: bytes as usize,
                        cols: r.cols,
                        limit: probes.fused->Ok_0.max_dynamic_shared_memory_bytes,
                    })
                } else {
                    r.rows > u32::MAX && e == crowded("rms-norm")
                }
            }
        }),
{
    let scalars = row_workspace_for(
        stream.context,
        r.rows,
        BufferId::Scratch(Scratch::RowScalars),
    );
    let sums = row_workspace_for(
        stream.context,
        r.rows,
        BufferId::Scratch(Scratch::RowSumOfSquares),
    );
    row_refusals(family, stream, r, epsilon, gamma, scalars, probes.fused);
    row_refusals(family, stream, r, epsilon, gamma, sums, probes.fused);
}

/// A packed-bf16 normalization is refused for its rows before anything is done,
/// and after that only for what the normalization is refused for.
pub proof fn norm_stage_refusals(
    kind: NormKind,
    conversions: Family,
    stream: Stream,
    r: Rows,
    normalize: PlanView,
)
    ensures
        ({
            let plan = norm_plan(kind, conversions, stream, r, normalize);
            plan.outcome matches Err(e) ==> {
                if r.rows == 0 || r.cols == 0 {
                    &&& plan.steps.len() == 0
                    &&& e == (KernelError::EmptyRows {
                        family: kind.family(),
                        rows: r.rows,
                        cols: r.cols,
                    })
                } else if r.rows * r.cols > usize::MAX {
                    &&& plan.steps.len() == 0
                    &&& e == KernelError::Fixed("bf16 norm shape overflows usize")
                } else if r.input.len != r.rows * r.cols || r.output.len != r.rows * r.cols {
                    &&& plan.steps.len() == 0
                    &&& e == (KernelError::PairShape {
                        family: kind.family(),
                        operand: "buffers have",
                        first: r.input.len,
                        second: r.output.len,
                        rows: r.rows,
                        cols: r.cols,
                        required: (r.rows * r.cols) as usize,
                    })
                } else if r.input.context != stream.context || r.output.context
                    != stream.context {
                    &&& plan.steps.len() == 0
                    &&& e == (KernelError::Rule {
                        family: kind.family(),
                        rule: "stream and buffers must share one context",
                    })
                } else {
                    normalize.outcome == Checked::Err(e)
                }
            }
        }),
{
}

/// Composed attention over one head is refused for its shape before anything is
/// done: for what is empty first, for the mask after that, for what is not
/// countable, and last for the lengths of its operands.
pub proof fn composed_shape_refusals(
    f: ComposedFamilies,
    stream: Stream,
    h: Heads,
    scale: F32,
    mask: AttentionMask,
    probes: FusedProbes,
)
    ensures
        ({
            let plan = composed_plan(f, stream, h, scale, mask, probes);
            let empty = h.head_dim == 0 || h.kv_rows == 0 || h.value_dim == 0;
            let slanted = mask == AttentionMask::Causal && h.query_rows != h.kv_rows;
            let uncountable = h.query_rows * h.kv_rows > usize::MAX || h.query_rows * h.head_dim
                > usize::MAX || h.kv_rows * h.head_dim > usize::MAX || h.kv_rows * h.value_dim
                > usize::MAX || h.query_rows * h.value_dim > usize::MAX;
            let misshapen = h.queries.len != h.query_rows * h.head_dim || h.keys.len != h.kv_rows
                * h.head_dim || h.values.len != h.kv_rows * h.value_dim || h.output.len
                != h.query_rows * h.value_dim;
            (empty || slanted || uncountable || misshapen) ==> {
                &&& plan.steps.len() == 0
                &&& plan.outcome == Checked::Err(
                    if empty {
                        KernelError::EmptyHead {
                            family: "attention",
                            head_dim: h.head_dim,
                            kv_rows: h.kv_rows,
                            value_dim: h.value_dim,
                        }
                    } else if slanted {
                        KernelError::CausalShape { query_rows: h.query_rows, kv_rows: h.kv_rows }
                    } else if uncountable {
                        KernelError::Rule { family: "attention", rule: "shape overflows usize" }
                    } else {
                        KernelError::HeadShapes {
                            queries: (h.query_rows * h.head_dim) as usize,
                            keys: (h.kv_rows * h.head_dim) as usize,
                            values: (h.kv_rows * h.value_dim) as usize,
                            output: (h.query_rows * h.value_dim) as usize,
                        }
                    },
                )
            }
        }),
{
}

} // verus!
