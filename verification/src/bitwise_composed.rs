//! Composed attention: packed heads that agree with single heads, packed bf16
//! that agrees with `f32`, and rows that later rows do not reach.

use crate::arith::ceil_div;
use crate::attention::{
    composed_check, composed_multihead_plan, composed_multihead_stages, composed_plan,
    composed_stages, multihead_scale_causal_plan, packed_scores_check, scale_causal_plan,
    score_buffer, score_product, value_product, ComposedFamilies,
};
use crate::bf16::widen_plan;
use crate::bf16_attention::{
    bf16_composed_multihead_plan, bf16_composed_plan, wide_heads, widening,
};
use crate::bitwise::{
    batches_are_single_products, batches_depend_on_contents, batches_leave, form_of,
    narrow_leaves, product_depends_on_contents, product_held, product_leaves, widen_leaves,
};
use crate::bitwise_heads::{
    alike, all_finite, head_parts, heads_held, is_finite, operands_widened, rows_agree, same_shape,
};
use crate::device::{BufferId, ContextId, DeviceBuffer, Element, Probe, Scratch, Stream, F32};
use crate::elementwise::{awaited, scale_plan};
use crate::family::Family;
use crate::gemm::batched_plan;
use crate::heads::{AttentionMask, Heads};
use crate::launch::{Arguments, Kernel, Shape};
use crate::machine::{
    element_inside, element_place, holds, left_factors, narrowed, product_at, product_chain,
    product_element, right_factors, row_exponentials, row_maximum, row_of, row_of_part, row_sum,
    softmax_row, widened, Machine, Memory, NEGATIVE_INFINITY,
};
use crate::plan::{Action, PlanView};
use crate::product::{product_plan, tile_ready, ProductKind};
use crate::row_softmax::{
    fused_softmax_plan, row_reduction_plan, softmax_dispatch_plan, softmax_rows_plan,
    softmax_stages,
};
use crate::rows::{
    row_allocation, row_fits, row_workspace_check, row_workspace_for, FusedProbes, RowKind,
    RowWorkspace, Rows,
};
use vstd::arithmetic::div_mod::{lemma_fundamental_div_mod_converse, lemma_small_mod};
use vstd::prelude::*;

verus! {

/// The softmax of every row of a matrix.
pub open spec fn softmax_rows(
    machine: Machine,
    width: u32,
    input: Seq<u32>,
    cols: int,
) -> Seq<u32> {
    Seq::new(
        input.len(),
        |at: int| softmax_row(machine, row_of(input, at / cols, cols), width as nat)[at % cols],
    )
}

/// A dispatched row softmax leaves the softmax of every row, on either path
/// and in place or not, and touches nothing else but its own scratch.
pub proof fn softmax_leaves(
    machine: Machine,
    family: Family,
    stream: Stream,
    r: Rows,
    probes: FusedProbes,
    memory: Memory,
)
    requires
        softmax_dispatch_plan(family, stream, r, probes).outcome is Ok,
        holds(memory, r.input),
        holds(memory, r.output),
        r.input.id != BufferId::Scratch(Scratch::RowScalars),
        r.output.id != BufferId::Scratch(Scratch::RowScalars),
    ensures
        ({
            let after = softmax_dispatch_plan(family, stream, r, probes).leaves(machine, memory);
            &&& after[r.output.id] == softmax_rows(
                machine,
                family.width,
                memory[r.input.id],
                r.cols as int,
            )
            &&& forall|other: BufferId|
                other != r.output.id && other != BufferId::Scratch(Scratch::RowScalars)
                    ==> #[trigger] after[other] == memory[other]
        }),
{
    broadcast use crate::machine::group_execution;

    let (rows, cols) = (r.rows as int, r.cols as int);
    let input = memory[r.input.id];
    let width = family.width as nat;
    let expected = softmax_rows(machine, family.width, input, cols);
    if rows == 0 || cols == 0 {
        assert(rows * cols == 0) by (nonlinear_arith)
            requires
                rows == 0 || cols == 0,
        ;
    }
    if row_fits(family.width, r.cols, probes.available) {
        let fused = fused_softmax_plan(family, stream, r, probes.fused);
        assert forall|at: int| 0 <= at < rows * cols implies #[trigger] fused.leaves(
            machine,
            memory,
        )[r.output.id][at] == expected[at] by {
            element_place(at, rows, cols);
        }
        assert(fused.leaves(machine, memory)[r.output.id] =~= expected);
    } else {
        let scalars = BufferId::Scratch(Scratch::RowScalars);
        let workspace = row_workspace_for(stream.context, r.rows, scalars);
        let prepared = PlanView::checked(
            row_workspace_check(RowKind::Softmax, family, stream.context),
        ).followed_by(row_allocation(workspace));
        let start = prepared.leaves(machine, memory);
        assert(start[r.input.id] == input);
        assert(start[r.output.id] == memory[r.output.id]);
        assert(start[scalars].len() == r.rows);
        let staged = softmax_rows_plan(family, stream, r, workspace);
        if rows > 0 && cols > 0 {
            staged_softmax(machine, family, stream, r, workspace.scalars, start);
        } else {
            assert(staged.leaves(machine, start)[r.output.id] =~= expected);
        }
    }
}

/// A staged row softmax leaves the softmax of every row, in place or not, and
/// touches nothing else but the workspace, whatever room that has to spare.
pub proof fn staged_softmax_leaves(
    machine: Machine,
    family: Family,
    stream: Stream,
    r: Rows,
    workspace: RowWorkspace,
    memory: Memory,
)
    requires
        softmax_rows_plan(family, stream, r, workspace).outcome is Ok,
        workspace.scalars.len >= workspace.max_rows,
        holds(memory, r.input),
        holds(memory, r.output),
        holds(memory, workspace.scalars),
        r.input.id != workspace.scalars.id,
        r.output.id != workspace.scalars.id,
    ensures
        ({
            let after = softmax_rows_plan(family, stream, r, workspace).leaves(machine, memory);
            &&& after[r.output.id] == softmax_rows(
                machine,
                family.width,
                memory[r.input.id],
                r.cols as int,
            )
            &&& forall|other: BufferId|
                other != r.output.id && other != workspace.scalars.id ==> #[trigger] after[other]
                    == memory[other]
        }),
{
    broadcast use crate::machine::group_execution;

    let staged = softmax_rows_plan(family, stream, r, workspace);
    if r.rows > 0 && r.cols > 0 {
        staged_softmax(machine, family, stream, r, workspace.scalars, memory);
        assert(staged.leaves(machine, memory) == softmax_stages(
            family.width,
            r,
            workspace.scalars.id,
        ).leaves(machine, memory));
    } else {
        assert(r.rows * r.cols == 0) by (nonlinear_arith)
            requires
                r.rows == 0 || r.cols == 0,
        ;
        assert(staged.leaves(machine, memory)[r.output.id] =~= softmax_rows(
            machine,
            family.width,
            memory[r.input.id],
            r.cols as int,
        ));
    }
}

/// A fused row softmax leaves the softmax of every row, in place or not, and
/// touches nothing else.
pub proof fn fused_softmax_leaves(
    machine: Machine,
    family: Family,
    stream: Stream,
    r: Rows,
    fused: Probe,
    memory: Memory,
)
    requires
        fused_softmax_plan(family, stream, r, fused).outcome is Ok,
        holds(memory, r.input),
        holds(memory, r.output),
    ensures
        ({
            let after = fused_softmax_plan(family, stream, r, fused).leaves(machine, memory);
            &&& after[r.output.id] == softmax_rows(
                machine,
                family.width,
                memory[r.input.id],
                r.cols as int,
            )
            &&& forall|other: BufferId|
                other != r.output.id ==> #[trigger] after[other] == memory[other]
        }),
{
    broadcast use crate::machine::group_execution;

    let (rows, cols) = (r.rows as int, r.cols as int);
    let plan = fused_softmax_plan(family, stream, r, fused);
    let expected = softmax_rows(machine, family.width, memory[r.input.id], cols);
    if rows == 0 || cols == 0 {
        assert(rows * cols == 0) by (nonlinear_arith)
            requires
                rows == 0 || cols == 0,
        ;
    }
    assert forall|at: int| 0 <= at < rows * cols implies #[trigger] plan.leaves(machine, memory)[
        r.output.id
    ][at] == expected[at] by {
        element_place(at, rows, cols);
    }
    assert(plan.leaves(machine, memory)[r.output.id] =~= expected);
}

proof fn staged_softmax(
    machine: Machine,
    family: Family,
    stream: Stream,
    r: Rows,
    scalars: DeviceBuffer,
    memory: Memory,
)
    requires
        r.rows > 0,
        r.cols > 0,
        r.rows <= u32::MAX,
        r.input.len == r.rows * r.cols,
        r.output.len == r.rows * r.cols,
        holds(memory, r.input),
        holds(memory, r.output),
        memory[scalars.id].len() >= r.rows,
        r.input.id != scalars.id,
        r.output.id != scalars.id,
    ensures
        ({
            let after = softmax_stages(family.width, r, scalars.id).leaves(
                machine,
                memory,
            );
            &&& after[r.output.id] == softmax_rows(
                machine,
                family.width,
                memory[r.input.id],
                r.cols as int,
            )
            &&& forall|other: BufferId|
                other != r.output.id && other != scalars.id ==> #[trigger] after[other]
                    == memory[other]
        }),
{
    broadcast use crate::machine::group_execution;

    let (rows, cols) = (r.rows as int, r.cols as int);
    let width = family.width as nat;
    let input = memory[r.input.id];
    let maximums = row_reduction_plan(
        Kernel::SoftmaxRowMax,
        family.width,
        r.input.id,
        scalars.id,
        r.rows,
        r.cols,
    );
    let elements = Shape::Elements {
        count: (r.rows * r.cols) as usize,
        block_size: family.width,
    };
    let shift = PlanView::launch(
        Kernel::SoftmaxRowExpShift,
        elements,
        Arguments::RowExpShift {
            input: r.input.id,
            output: r.output.id,
            row_max: scalars.id,
            rows: r.rows as u64,
            cols: r.cols as u64,
        },
    );
    let sums = row_reduction_plan(
        Kernel::SoftmaxRowSum,
        family.width,
        r.output.id,
        scalars.id,
        r.rows,
        r.cols,
    );
    let normalize = PlanView::launch(
        Kernel::SoftmaxRowNormalize,
        elements,
        Arguments::RowDivide {
            data: r.output.id,
            row_total: scalars.id,
            rows: r.rows as u64,
            cols: r.cols as u64,
        },
    );
    let m1 = maximums.leaves(machine, memory);
    let m2 = shift.leaves(machine, m1);
    let m3 = sums.leaves(machine, m2);
    let m4 = normalize.leaves(machine, m3);
    assert(softmax_stages(family.width, r, scalars.id).leaves(machine, memory)
        == m4);
    assert forall|row: int| 0 <= row < rows implies #[trigger] m1[scalars.id][row] == row_maximum(
        machine,
        row_of(input, row, cols),
        width,
    ) by {}
    assert forall|at: int| 0 <= at < rows * cols implies #[trigger] m2[r.output.id][at] == (
    machine.exponential)((machine.subtract)(input[at], m1[scalars.id][at / cols])) by {
        element_place(at, rows, cols);
    }
    assert forall|row: int| 0 <= row < rows implies #[trigger] row_of(m2[r.output.id], row, cols)
        == row_exponentials(
        machine,
        row_of(input, row, cols),
        row_maximum(machine, row_of(input, row, cols), width),
    ) by {
        let (x, y) = (
            row_of(m2[r.output.id], row, cols),
            row_exponentials(
                machine,
                row_of(input, row, cols),
                row_maximum(machine, row_of(input, row, cols), width),
            ),
        );
        assert forall|j: int| 0 <= j < cols implies x[j] == y[j] by {
            element_inside(row, rows, j, cols);
            assert(m1[scalars.id][row] == row_maximum(machine, row_of(input, row, cols), width));
            assert(m2[r.output.id][row * cols + j] == (machine.exponential)(
                (machine.subtract)(
                    input[row * cols + j],
                    m1[scalars.id][(row * cols + j) / cols],
                ),
            ));
        }
        assert(x =~= y);
    }
    assert forall|row: int| 0 <= row < rows implies #[trigger] m3[scalars.id][row] == row_sum(
        machine,
        row_of(m2[r.output.id], row, cols),
        width,
    ) by {}
    let expected = softmax_rows(machine, family.width, input, cols);
    assert forall|at: int| 0 <= at < rows * cols implies #[trigger] m4[r.output.id][at]
        == expected[at] by {
        element_place(at, rows, cols);
        let row = at / cols;
        assert(m3[scalars.id][row] == row_sum(machine, row_of(m2[r.output.id], row, cols), width));
        assert(row_of(m2[r.output.id], row, cols)[at % cols] == m2[r.output.id][at]);
    }
    assert(m4[r.output.id] =~= expected);
}

/// Scores scaled and, under a causal mask, masked above each head's diagonal.
pub open spec fn scaled(
    machine: Machine,
    scores: Seq<u32>,
    query_rows: int,
    kv_rows: int,
    scale: F32,
    mask: AttentionMask,
) -> Seq<u32> {
    Seq::new(
        scores.len(),
        |at: int|
            if mask == AttentionMask::Causal && at % kv_rows > (at / kv_rows) % query_rows {
                NEGATIVE_INFINITY
            } else {
                (machine.multiply)(scores[at], scale.bits)
            },
    )
}

/// The scaling of one head.
spec fn scaling(
    f: ComposedFamilies,
    stream: Stream,
    scores: DeviceBuffer,
    output: DeviceBuffer,
    query_rows: usize,
    kv_rows: usize,
    scale: F32,
    mask: AttentionMask,
) -> PlanView {
    if mask == AttentionMask::Causal {
        scale_causal_plan(f.attention, stream, scores, output, query_rows, kv_rows, scale)
    } else {
        awaited(scale_plan(f.elementwise, scores, output, scale))
    }
}

/// The scaling of packed heads.
spec fn packed_scaling(
    f: ComposedFamilies,
    stream: Stream,
    scores: DeviceBuffer,
    query_rows: usize,
    kv_rows: usize,
    scale: F32,
    mask: AttentionMask,
) -> PlanView {
    if mask == AttentionMask::Causal {
        awaited(
            multihead_scale_causal_plan(
                f.attention,
                stream,
                scores,
                scores,
                scores.len,
                query_rows,
                kv_rows,
                scale,
            ),
        )
    } else {
        awaited(scale_plan(f.elementwise, scores, scores, scale))
    }
}

proof fn scaling_leaves(
    machine: Machine,
    f: ComposedFamilies,
    stream: Stream,
    scores: DeviceBuffer,
    output: DeviceBuffer,
    query_rows: usize,
    kv_rows: usize,
    scale: F32,
    mask: AttentionMask,
    memory: Memory,
)
    requires
        scaling(f, stream, scores, output, query_rows, kv_rows, scale, mask).outcome is Ok,
        scores.len == query_rows * kv_rows,
        output.len == scores.len,
        kv_rows > 0,
        holds(memory, scores),
        holds(memory, output),
    ensures
        ({
            let after = scaling(
                f,
                stream,
                scores,
                output,
                query_rows,
                kv_rows,
                scale,
                mask,
            ).leaves(machine, memory);
            &&& after[output.id] == scaled(
                machine,
                memory[scores.id],
                query_rows as int,
                kv_rows as int,
                scale,
                mask,
            )
            &&& forall|other: BufferId|
                other != output.id ==> #[trigger] after[other] == memory[other]
        }),
{
    broadcast use crate::machine::group_execution;

    let (rows, cols) = (query_rows as int, kv_rows as int);
    let plan = scaling(f, stream, scores, output, query_rows, kv_rows, scale, mask);
    let expected = scaled(machine, memory[scores.id], rows, cols, scale, mask);
    let after = plan.leaves(machine, memory);
    assert forall|at: int| 0 <= at < rows * cols implies #[trigger] after[output.id][at]
        == expected[at] by {
        element_place(at, rows, cols);
        lemma_fundamental_div_mod_converse(at / cols, rows, 0, at / cols);
    }
    assert(after[output.id] =~= expected);
}

proof fn packed_scaling_leaves(
    machine: Machine,
    f: ComposedFamilies,
    stream: Stream,
    scores: DeviceBuffer,
    query_rows: usize,
    kv_rows: usize,
    scale: F32,
    mask: AttentionMask,
    memory: Memory,
)
    requires
        packed_scaling(f, stream, scores, query_rows, kv_rows, scale, mask).outcome is Ok,
        holds(memory, scores),
    ensures
        ({
            let after = packed_scaling(
                f,
                stream,
                scores,
                query_rows,
                kv_rows,
                scale,
                mask,
            ).leaves(machine, memory);
            &&& after[scores.id] == scaled(
                machine,
                memory[scores.id],
                query_rows as int,
                kv_rows as int,
                scale,
                mask,
            )
            &&& forall|other: BufferId|
                other != scores.id ==> #[trigger] after[other] == memory[other]
        }),
{
    broadcast use crate::machine::group_execution;

    let plan = packed_scaling(f, stream, scores, query_rows, kv_rows, scale, mask);
    let expected = scaled(
        machine,
        memory[scores.id],
        query_rows as int,
        kv_rows as int,
        scale,
        mask,
    );
    assert(plan.leaves(machine, memory)[scores.id] =~= expected);
}

proof fn place_in_part(head: int, rows: int, cols: int, at: int)
    requires
        0 <= head,
        0 < cols,
        0 <= at < rows * cols,
    ensures
        (head * (rows * cols) + at) / cols == head * rows + at / cols,
        (head * (rows * cols) + at) % cols == at % cols,
        (head * rows + at / cols) % rows == at / cols,
        0 <= at / cols < rows,
        0 <= at % cols < cols,
        at == (at / cols) * cols + at % cols,
{
    element_place(at, rows, cols);
    let (row, column) = (at / cols, at % cols);
    assert(head * (rows * cols) + at == (head * rows + row) * cols + column) by (nonlinear_arith)
        requires
            at == row * cols + column,
    ;
    lemma_fundamental_div_mod_converse(
        head * (rows * cols) + at,
        cols,
        head * rows + row,
        column,
    );
    lemma_fundamental_div_mod_converse(head * rows + row, rows, head, row);
}

proof fn part_is_scaled(
    machine: Machine,
    scores: Seq<u32>,
    heads: int,
    head: int,
    rows: int,
    cols: int,
    scale: F32,
    mask: AttentionMask,
)
    requires
        0 <= head < heads,
        0 <= rows,
        0 < cols,
        scores.len() == heads * (rows * cols),
    ensures
        row_of(scaled(machine, scores, rows, cols, scale, mask), head, rows * cols) == scaled(
            machine,
            row_of(scores, head, rows * cols),
            rows,
            cols,
            scale,
            mask,
        ),
{
    let part = rows * cols;
    assert(0 <= part) by (nonlinear_arith)
        requires
            0 <= rows,
            0 < cols,
            part == rows * cols,
    ;
    let x = row_of(scaled(machine, scores, rows, cols, scale, mask), head, part);
    let y = scaled(machine, row_of(scores, head, part), rows, cols, scale, mask);
    assert forall|at: int| 0 <= at < part implies x[at] == y[at] by {
        element_inside(head, heads, at, part);
        place_in_part(head, rows, cols, at);
        lemma_fundamental_div_mod_converse(at / cols, rows, 0, at / cols);
    }
    assert(x =~= y);
}

proof fn part_is_softmax(
    machine: Machine,
    width: u32,
    scores: Seq<u32>,
    heads: int,
    head: int,
    rows: int,
    cols: int,
)
    requires
        0 <= head < heads,
        0 <= rows,
        0 < cols,
        scores.len() == heads * (rows * cols),
    ensures
        row_of(softmax_rows(machine, width, scores, cols), head, rows * cols) == softmax_rows(
            machine,
            width,
            row_of(scores, head, rows * cols),
            cols,
        ),
{
    let part = rows * cols;
    assert(0 <= part) by (nonlinear_arith)
        requires
            0 <= rows,
            0 < cols,
            part == rows * cols,
    ;
    let x = row_of(softmax_rows(machine, width, scores, cols), head, part);
    let y = softmax_rows(machine, width, row_of(scores, head, part), cols);
    assert forall|at: int| 0 <= at < part implies x[at] == y[at] by {
        element_inside(head, heads, at, part);
        place_in_part(head, rows, cols, at);
        row_of_part(scores, head, rows, cols, at / cols);
    }
    assert(x =~= y);
}

/// Whether a buffer is none of the scratch that composed attention makes.
pub open spec fn outside_the_pipeline(buffer: BufferId) -> bool {
    &&& buffer != BufferId::Scratch(Scratch::Probabilities)
    &&& buffer != BufferId::Scratch(Scratch::Scores)
    &&& buffer != BufferId::Scratch(Scratch::RowScalars)
}

/// The operands of a composed attention are none of its scratch, and its
/// output is an allocation of its own.
pub open spec fn pipeline_apart(h: Heads) -> bool {
    &&& outside_the_pipeline(h.queries.id)
    &&& outside_the_pipeline(h.keys.id)
    &&& outside_the_pipeline(h.values.id)
    &&& outside_the_pipeline(h.output.id)
    &&& h.output.id != h.values.id
}

/// What composed attention over one head leaves in its output, from the scores
/// on.
pub proof fn composed_leaves(
    machine: Machine,
    f: ComposedFamilies,
    stream: Stream,
    h: Heads,
    scale: F32,
    mask: AttentionMask,
    probes: FusedProbes,
    memory: Memory,
) -> (stages: (Memory, Memory))
    requires
        tile_ready(f.gemm.width),
        composed_plan(f, stream, h, scale, mask, probes).outcome is Ok,
        pipeline_apart(h),
        heads_held(memory, h),
    ensures
        ({
            let elements = (h.query_rows * h.kv_rows) as usize;
            let probabilities = score_buffer(stream.context, Scratch::Probabilities, elements);
            let scores = score_buffer(stream.context, Scratch::Scores, elements);
            let first = product_plan(
                ProductKind::F32TransposedB,
                f.gemm,
                stream,
                score_product(h, scores),
            );
            let last = product_plan(
                ProductKind::F32,
                f.gemm,
                stream,
                value_product(h, probabilities),
            );
            let (before, middle) = stages;
            &&& first.outcome is Ok
            &&& last.outcome is Ok
            &&& product_held(before, score_product(h, scores))
            &&& before[h.queries.id] == memory[h.queries.id]
            &&& before[h.keys.id] == memory[h.keys.id]
            &&& product_held(middle, value_product(h, probabilities))
            &&& middle[h.values.id] == memory[h.values.id]
            &&& forall|other: BufferId|
                other is Operand ==> #[trigger] middle[other] == memory[other]
            &&& middle[probabilities.id] == softmax_rows(
                machine,
                f.softmax.width,
                scaled(
                    machine,
                    first.synchronized().leaves(machine, before)[scores.id],
                    h.query_rows as int,
                    h.kv_rows as int,
                    scale,
                    mask,
                ),
                h.kv_rows as int,
            )
            &&& composed_plan(f, stream, h, scale, mask, probes).leaves(machine, memory)
                == last.synchronized().leaves(machine, middle)
        }),
{
    broadcast use crate::machine::group_execution;

    let elements = (h.query_rows * h.kv_rows) as usize;
    let probabilities = score_buffer(stream.context, Scratch::Probabilities, elements);
    let scores = score_buffer(stream.context, Scratch::Scores, elements);
    let rows = Rows {
        input: probabilities,
        output: probabilities,
        rows: h.query_rows,
        cols: h.kv_rows,
    };
    let prepared = PlanView::checked(composed_check(h, mask)).followed_by(
        PlanView::one(Action::Allocate { buffer: probabilities, element: Element::F32 }),
    ).followed_by(PlanView::one(Action::Allocate { buffer: scores, element: Element::F32 }));
    let first = product_plan(
        ProductKind::F32TransposedB,
        f.gemm,
        stream,
        score_product(h, scores),
    );
    let scale_plan = scaling(
        f,
        stream,
        scores,
        probabilities,
        h.query_rows,
        h.kv_rows,
        scale,
        mask,
    );
    let softmax = softmax_dispatch_plan(f.softmax, stream, rows, probes);
    let last = product_plan(ProductKind::F32, f.gemm, stream, value_product(h, probabilities));
    let stages = prepared.followed_by(first.synchronized()).followed_by(scale_plan).followed_by(
        softmax,
    ).followed_by(last.synchronized());
    assert(stages == composed_stages(f, stream, h, scale, mask, probes));
    assert(first.outcome is Ok && scale_plan.outcome is Ok && softmax.outcome is Ok
        && last.outcome is Ok);
    let before = prepared.leaves(machine, memory);
    assert(product_held(before, score_product(h, scores)));
    product_leaves(
        machine,
        ProductKind::F32TransposedB,
        f.gemm,
        stream,
        score_product(h, scores),
        before,
    );
    let scored = first.leaves(machine, before);
    scaling_leaves(
        machine,
        f,
        stream,
        scores,
        probabilities,
        h.query_rows,
        h.kv_rows,
        scale,
        mask,
        scored,
    );
    let weighed = scale_plan.leaves(machine, scored);
    softmax_leaves(machine, f.softmax, stream, rows, probes, weighed);
    let middle = softmax.leaves(machine, weighed);
    (before, middle)
}

/// What composed attention over packed heads leaves in its output, from the
/// scores on.
pub proof fn composed_heads_leave(
    machine: Machine,
    f: ComposedFamilies,
    stream: Stream,
    h: Heads,
    heads: usize,
    scale: F32,
    mask: AttentionMask,
    probes: FusedProbes,
    memory: Memory,
) -> (stages: (Memory, Memory))
    requires
        tile_ready(f.gemm.width),
        composed_multihead_plan(f, stream, h, heads, scale, mask, probes).outcome is Ok,
        h.query_rows > 0,
        pipeline_apart(h),
        heads_held(memory, h),
    ensures
        ({
            let elements = (heads * h.query_rows * h.kv_rows) as usize;
            let probabilities = score_buffer(stream.context, Scratch::Probabilities, elements);
            let first = batched_plan(
                f.gemm,
                stream,
                score_product(h, probabilities),
                heads,
                true,
            );
            let last = batched_plan(f.gemm, stream, value_product(h, probabilities), heads, false);
            let (before, middle) = stages;
            &&& first.outcome is Ok
            &&& last.outcome is Ok
            &&& elements == heads * h.query_rows * h.kv_rows
            &&& product_held(before, score_product(h, probabilities))
            &&& before[h.queries.id] == memory[h.queries.id]
            &&& before[h.keys.id] == memory[h.keys.id]
            &&& product_held(middle, value_product(h, probabilities))
            &&& middle[h.values.id] == memory[h.values.id]
            &&& forall|other: BufferId|
                other is Operand ==> #[trigger] middle[other] == memory[other]
            &&& middle[probabilities.id] == softmax_rows(
                machine,
                f.softmax.width,
                scaled(
                    machine,
                    first.synchronized().leaves(machine, before)[probabilities.id],
                    h.query_rows as int,
                    h.kv_rows as int,
                    scale,
                    mask,
                ),
                h.kv_rows as int,
            )
            &&& composed_multihead_plan(f, stream, h, heads, scale, mask, probes).leaves(
                machine,
                memory,
            ) == last.synchronized().leaves(machine, middle)
        }),
{
    broadcast use crate::machine::group_execution;

    let elements = (heads * h.query_rows * h.kv_rows) as usize;
    let probabilities = score_buffer(stream.context, Scratch::Probabilities, elements);
    let rows = Rows {
        input: probabilities,
        output: probabilities,
        rows: (heads * h.query_rows) as usize,
        cols: h.kv_rows,
    };
    let prepared = PlanView::checked(packed_scores_check(h, heads)).followed_by(
        PlanView::one(Action::Allocate { buffer: probabilities, element: Element::F32 }),
    );
    let first = batched_plan(f.gemm, stream, score_product(h, probabilities), heads, true);
    let scale_plan = packed_scaling(
        f,
        stream,
        probabilities,
        h.query_rows,
        h.kv_rows,
        scale,
        mask,
    );
    let softmax = softmax_dispatch_plan(f.softmax, stream, rows, probes);
    let last = batched_plan(f.gemm, stream, value_product(h, probabilities), heads, false);
    let stages = prepared.followed_by(first.synchronized()).followed_by(scale_plan).followed_by(
        softmax,
    ).followed_by(last.synchronized());
    assert(stages == composed_multihead_stages(f, stream, h, heads, scale, mask, probes));
    assert(stages.outcome is Ok);
    assert(first.outcome is Ok && scale_plan.outcome is Ok && softmax.outcome is Ok
        && last.outcome is Ok);
    assert(packed_scores_check(h, heads) is Ok);
    let before = prepared.leaves(machine, memory);
    assert(product_held(before, score_product(h, probabilities)));
    batches_leave(
        machine,
        f.gemm,
        stream,
        score_product(h, probabilities),
        heads,
        true,
        before,
    );
    let scored = first.leaves(machine, before);
    let n = heads as int;
    let (qr, kv) = (h.query_rows as int, h.kv_rows as int);
    assert(n * qr * kv == n * (qr * kv)) by (nonlinear_arith);
    packed_scaling_leaves(
        machine,
        f,
        stream,
        probabilities,
        h.query_rows,
        h.kv_rows,
        scale,
        mask,
        scored,
    );
    let weighed = scale_plan.leaves(machine, scored);
    softmax_leaves(machine, f.softmax, stream, rows, probes, weighed);
    let middle = softmax.leaves(machine, weighed);
    (before, middle)
}

/// Each head of a packed composed attention is, bit for bit, the composed
/// attention of the head's own parts of the operands.
#[verifier::rlimit(60)]
pub proof fn packed_composed_heads_are_single_heads(
    machine: Machine,
    f: ComposedFamilies,
    stream: Stream,
    h: Heads,
    heads: usize,
    scale: F32,
    mask: AttentionMask,
    probes: FusedProbes,
    head: int,
    one: Heads,
    memory: Memory,
    own: Memory,
)
    requires
        tile_ready(f.gemm.width),
        composed_multihead_plan(f, stream, h, heads, scale, mask, probes).outcome is Ok,
        composed_plan(f, stream, one, scale, mask, probes).outcome is Ok,
        pipeline_apart(h),
        pipeline_apart(one),
        heads_held(memory, h),
        heads_held(own, one),
        same_shape(h, one),
        0 <= head < heads,
        head_parts(memory, h, own, one, head),
    ensures
        composed_plan(f, stream, one, scale, mask, probes).leaves(machine, own)[one.output.id]
            == row_of(
            composed_multihead_plan(f, stream, h, heads, scale, mask, probes).leaves(
                machine,
                memory,
            )[h.output.id],
            head,
            h.query_rows * h.value_dim,
        ),
{
    broadcast use crate::machine::group_execution;

    let (qr, kv, n) = (h.query_rows as int, h.kv_rows as int, heads as int);
    let part = (h.query_rows * h.kv_rows) as usize;
    let whole = (heads * h.query_rows * h.kv_rows) as usize;
    let scores = score_buffer(stream.context, Scratch::Scores, part);
    let own_probabilities = score_buffer(stream.context, Scratch::Probabilities, part);
    let probabilities = score_buffer(stream.context, Scratch::Probabilities, whole);
    let (own_before, own_middle) = composed_leaves(
        machine,
        f,
        stream,
        one,
        scale,
        mask,
        probes,
        own,
    );
    if h.query_rows == 0 {
        product_leaves(
            machine,
            ProductKind::F32,
            f.gemm,
            stream,
            value_product(one, own_probabilities),
            own_middle,
        );
        assert(h.query_rows * h.value_dim == 0) by (nonlinear_arith)
            requires
                h.query_rows == 0,
        ;
        assert(composed_plan(f, stream, one, scale, mask, probes).leaves(machine, own)[
            one.output.id
        ] =~= row_of(
            composed_multihead_plan(f, stream, h, heads, scale, mask, probes).leaves(
                machine,
                memory,
            )[h.output.id],
            head,
            0,
        ));
    } else {
        let (before, middle) = composed_heads_leave(
            machine,
            f,
            stream,
            h,
            heads,
            scale,
            mask,
            probes,
            memory,
        );
        batches_are_single_products(
            machine,
            f.gemm,
            stream,
            score_product(h, probabilities),
            heads,
            true,
            head,
            score_product(one, scores),
            before,
            own_before,
        );
        batches_leave(
            machine,
            f.gemm,
            stream,
            score_product(h, probabilities),
            heads,
            true,
            before,
        );
        let packed_scores = batched_plan(
            f.gemm,
            stream,
            score_product(h, probabilities),
            heads,
            true,
        ).leaves(machine, before)[probabilities.id];
        part_is_scaled(machine, packed_scores, n, head, qr, kv, scale, mask);
        part_is_softmax(
            machine,
            f.softmax.width,
            scaled(machine, packed_scores, qr, kv, scale, mask),
            n,
            head,
            qr,
            kv,
        );
        batches_are_single_products(
            machine,
            f.gemm,
            stream,
            value_product(h, probabilities),
            heads,
            false,
            head,
            value_product(one, own_probabilities),
            middle,
            own_middle,
        );
    }
}

/// Both memories hold the same operands.
pub open spec fn same_operands(memory: Memory, h: Heads, other: Memory, g: Heads) -> bool {
    &&& memory[h.queries.id] == other[g.queries.id]
    &&& memory[h.keys.id] == other[g.keys.id]
    &&& memory[h.values.id] == other[g.values.id]
}

/// What composed attention leaves depends on what its operands hold, not on
/// where.
pub proof fn composed_depends_on_contents(
    machine: Machine,
    f: ComposedFamilies,
    stream: Stream,
    h: Heads,
    g: Heads,
    scale: F32,
    mask: AttentionMask,
    probes: FusedProbes,
    memory: Memory,
    other: Memory,
)
    requires
        tile_ready(f.gemm.width),
        composed_plan(f, stream, h, scale, mask, probes).outcome is Ok,
        composed_plan(f, stream, g, scale, mask, probes).outcome is Ok,
        pipeline_apart(h),
        pipeline_apart(g),
        heads_held(memory, h),
        heads_held(other, g),
        same_shape(h, g),
        same_operands(memory, h, other, g),
    ensures
        composed_plan(f, stream, h, scale, mask, probes).leaves(machine, memory)[h.output.id]
            == composed_plan(f, stream, g, scale, mask, probes).leaves(machine, other)[g.output.id],
{
    broadcast use crate::machine::group_execution;

    let elements = (h.query_rows * h.kv_rows) as usize;
    let scores = score_buffer(stream.context, Scratch::Scores, elements);
    let probabilities = score_buffer(stream.context, Scratch::Probabilities, elements);
    let (b1, m1) = composed_leaves(machine, f, stream, h, scale, mask, probes, memory);
    let (b2, m2) = composed_leaves(machine, f, stream, g, scale, mask, probes, other);
    product_depends_on_contents(
        machine,
        ProductKind::F32TransposedB,
        f.gemm,
        stream,
        score_product(h, scores),
        score_product(g, scores),
        b1,
        b2,
    );
    product_depends_on_contents(
        machine,
        ProductKind::F32,
        f.gemm,
        stream,
        value_product(h, probabilities),
        value_product(g, probabilities),
        m1,
        m2,
    );
}

/// The same holds of packed heads.
pub proof fn composed_heads_depend_on_contents(
    machine: Machine,
    f: ComposedFamilies,
    stream: Stream,
    h: Heads,
    g: Heads,
    heads: usize,
    scale: F32,
    mask: AttentionMask,
    probes: FusedProbes,
    memory: Memory,
    other: Memory,
)
    requires
        tile_ready(f.gemm.width),
        composed_multihead_plan(f, stream, h, heads, scale, mask, probes).outcome is Ok,
        composed_multihead_plan(f, stream, g, heads, scale, mask, probes).outcome is Ok,
        h.query_rows > 0,
        pipeline_apart(h),
        pipeline_apart(g),
        heads_held(memory, h),
        heads_held(other, g),
        same_shape(h, g),
        same_operands(memory, h, other, g),
    ensures
        composed_multihead_plan(f, stream, h, heads, scale, mask, probes).leaves(
            machine,
            memory,
        )[h.output.id] == composed_multihead_plan(
            f,
            stream,
            g,
            heads,
            scale,
            mask,
            probes,
        ).leaves(machine, other)[g.output.id],
{
    broadcast use crate::machine::group_execution;

    let elements = (heads * h.query_rows * h.kv_rows) as usize;
    let probabilities = score_buffer(stream.context, Scratch::Probabilities, elements);
    let (b1, m1) = composed_heads_leave(
        machine,
        f,
        stream,
        h,
        heads,
        scale,
        mask,
        probes,
        memory,
    );
    let (b2, m2) = composed_heads_leave(machine, f, stream, g, heads, scale, mask, probes, other);
    batches_depend_on_contents(
        machine,
        f.gemm,
        stream,
        score_product(h, probabilities),
        score_product(g, probabilities),
        heads,
        true,
        b1,
        b2,
    );
    batches_depend_on_contents(
        machine,
        f.gemm,
        stream,
        value_product(h, probabilities),
        value_product(g, probabilities),
        heads,
        false,
        m1,
        m2,
    );
}

/// Memory when the `f32` pipeline starts on widened operands.
pub proof fn widening_leaves(
    machine: Machine,
    context: ContextId,
    conversions: Family,
    h: Heads,
    memory: Memory,
)
    requires
        widening(conversions, h, wide_heads(context, h)).outcome is Ok,
        h.queries.id is Operand,
        h.keys.id is Operand,
        h.values.id is Operand,
        h.output.id is Operand,
        heads_held(memory, h),
    ensures
        ({
            let w = wide_heads(context, h);
            let after = widening(conversions, h, w).leaves(machine, memory);
            &&& heads_held(after, w)
            &&& holds(after, h.output)
            &&& after[w.queries.id] == widened(memory[h.queries.id])
            &&& after[w.keys.id] == widened(memory[h.keys.id])
            &&& after[w.values.id] == widened(memory[h.values.id])
            &&& forall|other: BufferId|
                other is Operand ==> #[trigger] after[other] == memory[other]
        }),
{
    broadcast use crate::machine::group_execution;

    let w = wide_heads(context, h);
    let prepared = PlanView::one(
        Action::Allocate { buffer: w.queries, element: Element::F32 },
    ).followed_by(
        PlanView::one(Action::Allocate { buffer: w.keys, element: Element::F32 }),
    ).followed_by(
        PlanView::one(Action::Allocate { buffer: w.values, element: Element::F32 }),
    ).followed_by(PlanView::one(Action::Allocate { buffer: w.output, element: Element::F32 }));
    let m0 = prepared.leaves(machine, memory);
    widen_leaves(machine, conversions, h.queries, w.queries, m0);
    let m1 = awaited(widen_plan(conversions, h.queries, w.queries)).leaves(machine, m0);
    widen_leaves(machine, conversions, h.keys, w.keys, m1);
    let m2 = awaited(widen_plan(conversions, h.keys, w.keys)).leaves(machine, m1);
    widen_leaves(machine, conversions, h.values, w.values, m2);
}

/// Composed attention over packed bf16 is, bit for bit, the composed attention
/// of the widened operands narrowed once.
pub proof fn bf16_composed_attention_is_narrowed(
    machine: Machine,
    family: Family,
    conversions: Family,
    f: ComposedFamilies,
    stream: Stream,
    h: Heads,
    wide: Heads,
    scale: F32,
    mask: AttentionMask,
    probes: FusedProbes,
    memory: Memory,
    other: Memory,
)
    requires
        tile_ready(f.gemm.width),
        bf16_composed_plan(
            family,
            conversions,
            f,
            stream,
            h,
            scale,
            mask,
            probes,
        ).outcome is Ok,
        composed_plan(f, stream, wide, scale, mask, probes).outcome is Ok,
        h.queries.id is Operand,
        h.keys.id is Operand,
        h.values.id is Operand,
        h.output.id is Operand,
        pipeline_apart(wide),
        heads_held(memory, h),
        heads_held(other, wide),
        same_shape(h, wide),
        operands_widened(memory, h, other, wide),
    ensures
        bf16_composed_plan(family, conversions, f, stream, h, scale, mask, probes).leaves(
            machine,
            memory,
        )[h.output.id] == narrowed(
            composed_plan(f, stream, wide, scale, mask, probes).leaves(machine, other)[
                wide.output.id
            ],
        ),
{
    broadcast use crate::machine::group_execution;

    let whole = bf16_composed_plan(family, conversions, f, stream, h, scale, mask, probes);
    let plain = composed_plan(f, stream, wide, scale, mask, probes).leaves(
        machine,
        other,
    )[wide.output.id];
    output_length(machine, f, stream, wide, scale, mask, probes, other);
    if h.query_rows == 0 {
        assert(h.query_rows * h.value_dim == 0) by (nonlinear_arith)
            requires
                h.query_rows == 0,
        ;
        assert(whole.leaves(machine, memory)[h.output.id] =~= narrowed(plain));
    } else {
        let w = wide_heads(family.context, h);
        widening_leaves(machine, family.context, conversions, h, memory);
        let start = widening(conversions, h, w).leaves(machine, memory);
        composed_depends_on_contents(
            machine,
            f,
            stream,
            w,
            wide,
            scale,
            mask,
            probes,
            start,
            other,
        );
        output_length(machine, f, stream, w, scale, mask, probes, start);
        let done = composed_plan(f, stream, w, scale, mask, probes).leaves(machine, start);
        narrow_leaves(machine, conversions, w.output, h.output, done);
    }
}

/// The same holds of packed heads.
pub proof fn bf16_composed_heads_are_narrowed(
    machine: Machine,
    family: Family,
    conversions: Family,
    f: ComposedFamilies,
    stream: Stream,
    h: Heads,
    wide: Heads,
    heads: usize,
    scale: F32,
    mask: AttentionMask,
    probes: FusedProbes,
    memory: Memory,
    other: Memory,
)
    requires
        tile_ready(f.gemm.width),
        bf16_composed_multihead_plan(
            family,
            conversions,
            f,
            stream,
            h,
            heads,
            scale,
            mask,
            probes,
        ).outcome is Ok,
        composed_multihead_plan(f, stream, wide, heads, scale, mask, probes).outcome is Ok,
        h.queries.id is Operand,
        h.keys.id is Operand,
        h.values.id is Operand,
        h.output.id is Operand,
        pipeline_apart(wide),
        heads_held(memory, h),
        heads_held(other, wide),
        same_shape(h, wide),
        operands_widened(memory, h, other, wide),
    ensures
        bf16_composed_multihead_plan(
            family,
            conversions,
            f,
            stream,
            h,
            heads,
            scale,
            mask,
            probes,
        ).leaves(machine, memory)[h.output.id] == narrowed(
            composed_multihead_plan(f, stream, wide, heads, scale, mask, probes).leaves(
                machine,
                other,
            )[wide.output.id],
        ),
{
    broadcast use crate::machine::group_execution;

    let whole = bf16_composed_multihead_plan(
        family,
        conversions,
        f,
        stream,
        h,
        heads,
        scale,
        mask,
        probes,
    );
    let plain = composed_multihead_plan(f, stream, wide, heads, scale, mask, probes).leaves(
        machine,
        other,
    )[wide.output.id];
    if h.query_rows == 0 {
        let n = heads as int;
        assert(n * h.query_rows * h.value_dim == 0) by (nonlinear_arith)
            requires
                h.query_rows == 0,
        ;
        assert(whole.leaves(machine, memory)[h.output.id] =~= narrowed(plain));
    } else {
        let w = wide_heads(family.context, h);
        widening_leaves(machine, family.context, conversions, h, memory);
        let start = widening(conversions, h, w).leaves(machine, memory);
        composed_heads_depend_on_contents(
            machine,
            f,
            stream,
            w,
            wide,
            heads,
            scale,
            mask,
            probes,
            start,
            other,
        );
        packed_output_length(machine, f, stream, w, heads, scale, mask, probes, start);
        let done = composed_multihead_plan(f, stream, w, heads, scale, mask, probes).leaves(
            machine,
            start,
        );
        narrow_leaves(machine, conversions, w.output, h.output, done);
    }
}

proof fn output_length(
    machine: Machine,
    f: ComposedFamilies,
    stream: Stream,
    h: Heads,
    scale: F32,
    mask: AttentionMask,
    probes: FusedProbes,
    memory: Memory,
)
    requires
        tile_ready(f.gemm.width),
        composed_plan(f, stream, h, scale, mask, probes).outcome is Ok,
        pipeline_apart(h),
        heads_held(memory, h),
    ensures
        holds(composed_plan(f, stream, h, scale, mask, probes).leaves(machine, memory), h.output),
        forall|other: BufferId|
            other is Operand && other != h.output.id ==> #[trigger] composed_plan(
                f,
                stream,
                h,
                scale,
                mask,
                probes,
            ).leaves(machine, memory)[other] == memory[other],
{
    broadcast use crate::machine::group_execution;

    let elements = (h.query_rows * h.kv_rows) as usize;
    let probabilities = score_buffer(stream.context, Scratch::Probabilities, elements);
    let (_, middle) = composed_leaves(machine, f, stream, h, scale, mask, probes, memory);
    product_leaves(
        machine,
        ProductKind::F32,
        f.gemm,
        stream,
        value_product(h, probabilities),
        middle,
    );
}

proof fn packed_output_length(
    machine: Machine,
    f: ComposedFamilies,
    stream: Stream,
    h: Heads,
    heads: usize,
    scale: F32,
    mask: AttentionMask,
    probes: FusedProbes,
    memory: Memory,
)
    requires
        tile_ready(f.gemm.width),
        composed_multihead_plan(f, stream, h, heads, scale, mask, probes).outcome is Ok,
        h.query_rows > 0,
        pipeline_apart(h),
        heads_held(memory, h),
    ensures
        holds(
            composed_multihead_plan(f, stream, h, heads, scale, mask, probes).leaves(
                machine,
                memory,
            ),
            h.output,
        ),
        forall|other: BufferId|
            other is Operand && other != h.output.id ==> #[trigger] composed_multihead_plan(
                f,
                stream,
                h,
                heads,
                scale,
                mask,
                probes,
            ).leaves(machine, memory)[other] == memory[other],
{
    broadcast use crate::machine::group_execution;

    let elements = (heads * h.query_rows * h.kv_rows) as usize;
    let probabilities = score_buffer(stream.context, Scratch::Probabilities, elements);
    let (_, middle) = composed_heads_leave(
        machine,
        f,
        stream,
        h,
        heads,
        scale,
        mask,
        probes,
        memory,
    );
    batches_leave(
        machine,
        f.gemm,
        stream,
        value_product(h, probabilities),
        heads,
        false,
        middle,
    );
    let n = heads as int;
    let (rows, cols) = (h.query_rows as int, h.value_dim as int);
    assert(n * rows * cols == n * (rows * cols)) by (nonlinear_arith);
}

/// What `f32` arithmetic has to do with the sign of a zero and with the weight
/// that a softmax gives a masked key: neither changes a result but in the sign
/// of a zero.
pub open spec fn weighs_exactly(machine: Machine) -> bool {
    &&& forall|w: u32, v: u32, a: u32, b: u32|
        alike(a, b) ==> alike(
            #[trigger] (machine.fused)(w, v, a),
            #[trigger] (machine.fused)(w, v, b),
        )
    &&& forall|m: u32, t: u32, u: u32, v: u32, a: u32|
        is_finite(u) && is_finite(v) ==> alike(
            #[trigger] (machine.fused)(masked_weight(machine, m, t), u, a),
            #[trigger] (machine.fused)(masked_weight(machine, m, t), v, a),
        )
}

/// The weight of a masked key, from the maximum of its row and the total.
pub open spec fn masked_weight(machine: Machine, maximum: u32, total: u32) -> u32 {
    (machine.divide)(
        (machine.exponential)((machine.subtract)(NEGATIVE_INFINITY, maximum)),
        total,
    )
}

/// A chain over weights does not depend on what masked weights are weighing.
proof fn masked_chain_is_alike(
    machine: Machine,
    weights: Seq<u32>,
    values: Seq<u32>,
    other: Seq<u32>,
    visible: int,
    maximum: u32,
    total: u32,
    count: nat,
)
    requires
        weighs_exactly(machine),
        values.len() == weights.len(),
        other.len() == weights.len(),
        forall|e: int|
            0 <= e < weights.len() && e < visible ==> #[trigger] values[e] == other[e],
        forall|e: int|
            0 <= e < weights.len() && e >= visible ==> #[trigger] weights[e] == masked_weight(
                machine,
                maximum,
                total,
            ),
        all_finite(values),
        all_finite(other),
    ensures
        alike(
            product_chain(machine, weights, values, count),
            product_chain(machine, weights, other, count),
        ),
    decreases count,
{
    if count > 0 {
        let at = (count - 1) as nat;
        masked_chain_is_alike(machine, weights, values, other, visible, maximum, total, at);
        let x = product_chain(machine, weights, values, at);
        let y = product_chain(machine, weights, other, at);
        if at < weights.len() {
            let (w, u, v) = (weights[at as int], values[at as int], other[at as int]);
            if at < visible {
                assert(u == v);
                assert(alike((machine.fused)(w, u, x), (machine.fused)(w, u, y)));
            } else {
                assert(w == masked_weight(machine, maximum, total));
                assert(is_finite(u) && is_finite(v));
                assert(alike((machine.fused)(w, u, x), (machine.fused)(w, v, x)));
                assert(alike((machine.fused)(w, v, x), (machine.fused)(w, v, y)));
            }
        } else {
            assert(alike((machine.fused)(0u32, 0u32, x), (machine.fused)(0u32, 0u32, y)));
        }
    }
}

/// The scaled scores of a row up to `last` are the same, and masked past the
/// diagonal.
proof fn masked_scores_agree(
    machine: Machine,
    side: int,
    queries: Seq<u32>,
    other_queries: Seq<u32>,
    keys: Seq<u32>,
    other_keys: Seq<u32>,
    scores: Seq<u32>,
    other_scores: Seq<u32>,
    h: Heads,
    scale: F32,
    last: int,
    row: int,
)
    requires
        0 <= row <= last < h.query_rows,
        scores.len() == h.query_rows * h.kv_rows,
        other_scores.len() == h.query_rows * h.kv_rows,
        rows_agree(queries, other_queries, last + 1, h.head_dim as int),
        rows_agree(keys, other_keys, last + 1, h.head_dim as int),
        forall|r: int, c: int|
            #![trigger scores[r * h.kv_rows + c]]
            0 <= r < h.query_rows && 0 <= c < h.kv_rows ==> scores[r * h.kv_rows + c] == product_at(
                machine,
                form_of(ProductKind::F32TransposedB),
                side,
                queries,
                keys,
                0,
                h.query_rows as int,
                h.kv_rows as int,
                h.head_dim as int,
                r,
                c,
            ),
        forall|r: int, c: int|
            #![trigger other_scores[r * h.kv_rows + c]]
            0 <= r < h.query_rows && 0 <= c < h.kv_rows ==> other_scores[r * h.kv_rows + c]
                == product_at(
                machine,
                form_of(ProductKind::F32TransposedB),
                side,
                other_queries,
                other_keys,
                0,
                h.query_rows as int,
                h.kv_rows as int,
                h.head_dim as int,
                r,
                c,
            ),
    ensures
        ({
            let (rows, cols) = (h.query_rows as int, h.kv_rows as int);
            let one = scaled(machine, scores, rows, cols, scale, AttentionMask::Causal);
            let two = scaled(machine, other_scores, rows, cols, scale, AttentionMask::Causal);
            &&& row_of(one, row, cols) == row_of(two, row, cols)
            &&& forall|c: int|
                row < c < cols ==> #[trigger] row_of(one, row, cols)[c] == NEGATIVE_INFINITY
        }),
{
    let (rows, cols, depth) = (h.query_rows as int, h.kv_rows as int, h.head_dim as int);
    let form = form_of(ProductKind::F32TransposedB);
    let one = scaled(machine, scores, rows, cols, scale, AttentionMask::Causal);
    let two = scaled(machine, other_scores, rows, cols, scale, AttentionMask::Causal);
    let (x, y) = (row_of(one, row, cols), row_of(two, row, cols));
    assert forall|c: int| 0 <= c < cols implies #[trigger] x[c] == y[c] && (c > row ==> x[c]
        == NEGATIVE_INFINITY) by {
        element_inside(row, rows, c, cols);
        lemma_small_mod(row as nat, rows as nat);
        if c <= row {
            let left = left_factors(form, queries, 0, rows, depth, row);
            let other_left = left_factors(form, other_queries, 0, rows, depth, row);
            let right = right_factors(form, keys, 0, cols, depth, c);
            let other_right = right_factors(form, other_keys, 0, cols, depth, c);
            assert forall|e: int|
                #![trigger left[e]]
                #![trigger right[e]]
                0 <= e < depth implies left[e] == other_left[e] && right[e] == other_right[e] by {
                element_inside(row, last + 1, e, depth);
                element_inside(c, last + 1, e, depth);
            }
            assert(left =~= other_left);
            assert(right =~= other_right);
            assert(scores[row * h.kv_rows + c] == other_scores[row * h.kv_rows + c]);
        }
    }
    assert(x =~= y);
}

/// Under a causal mask a row of composed attention does not depend on later
/// rows: where two runs have the same queries, keys and values up to row
/// `last`, and finite values throughout, rows up to `last` of their outputs are
/// equal but for the sign of a zero.
pub proof fn composed_causal_rows_ignore_later_rows(
    machine: Machine,
    f: ComposedFamilies,
    stream: Stream,
    h: Heads,
    scale: F32,
    probes: FusedProbes,
    first: Memory,
    second: Memory,
    last: int,
)
    requires
        weighs_exactly(machine),
        tile_ready(f.gemm.width),
        composed_plan(f, stream, h, scale, AttentionMask::Causal, probes).outcome is Ok,
        pipeline_apart(h),
        heads_held(first, h),
        heads_held(second, h),
        0 <= last < h.query_rows,
        rows_agree(first[h.queries.id], second[h.queries.id], last + 1, h.head_dim as int),
        rows_agree(first[h.keys.id], second[h.keys.id], last + 1, h.head_dim as int),
        rows_agree(first[h.values.id], second[h.values.id], last + 1, h.value_dim as int),
        all_finite(first[h.values.id]),
        all_finite(second[h.values.id]),
    ensures
        ({
            let plan = composed_plan(f, stream, h, scale, AttentionMask::Causal, probes);
            forall|at: int|
                0 <= at < (last + 1) * h.value_dim ==> alike(
                    #[trigger] plan.leaves(machine, first)[h.output.id][at],
                    plan.leaves(machine, second)[h.output.id][at],
                )
        }),
{
    broadcast use crate::machine::group_execution;

    let mask = AttentionMask::Causal;
    let plan = composed_plan(f, stream, h, scale, mask, probes);
    let side = f.gemm.width as int;
    let (rows, keys, cols) = (h.query_rows as int, h.kv_rows as int, h.value_dim as int);
    let elements = (h.query_rows * h.kv_rows) as usize;
    let scores = score_buffer(stream.context, Scratch::Scores, elements);
    let probabilities = score_buffer(stream.context, Scratch::Probabilities, elements);
    let (b1, m1) = composed_leaves(machine, f, stream, h, scale, mask, probes, first);
    let (b2, m2) = composed_leaves(machine, f, stream, h, scale, mask, probes, second);
    let scoring = score_product(h, scores);
    let weighing = value_product(h, probabilities);
    product_leaves(machine, ProductKind::F32TransposedB, f.gemm, stream, scoring, b1);
    product_leaves(machine, ProductKind::F32TransposedB, f.gemm, stream, scoring, b2);
    product_leaves(machine, ProductKind::F32, f.gemm, stream, weighing, m1);
    product_leaves(machine, ProductKind::F32, f.gemm, stream, weighing, m2);
    let scored = product_plan(ProductKind::F32TransposedB, f.gemm, stream, scoring);
    let s1 = scored.leaves(machine, b1)[scores.id];
    let s2 = scored.leaves(machine, b2)[scores.id];
    let (v1, v2) = (first[h.values.id], second[h.values.id]);
    assert forall|at: int| 0 <= at < (last + 1) * h.value_dim implies alike(
        #[trigger] plan.leaves(machine, first)[h.output.id][at],
        plan.leaves(machine, second)[h.output.id][at],
    ) by {
        if cols == 0 {
            assert((last + 1) * cols == 0) by (nonlinear_arith)
                requires
                    cols == 0,
            ;
        }
        element_place(at, last + 1, cols);
        let (row, col) = (at / cols, at % cols);
        masked_scores_agree(
            machine,
            side,
            first[h.queries.id],
            second[h.queries.id],
            first[h.keys.id],
            second[h.keys.id],
            s1,
            s2,
            h,
            scale,
            last,
            row,
        );
        let scaled_row = row_of(scaled(machine, s1, rows, keys, scale, mask), row, keys);
        let width = f.softmax.width as nat;
        let maximum = row_maximum(machine, scaled_row, width);
        let total = row_sum(machine, row_exponentials(machine, scaled_row, maximum), width);
        let form = form_of(ProductKind::F32);
        let weights = left_factors(form, m1[probabilities.id], 0, rows, keys, row);
        assert forall|e: int| 0 <= e < keys implies #[trigger] weights[e] == softmax_row(
            machine,
            scaled_row,
            width,
        )[e] && weights[e] == left_factors(form, m2[probabilities.id], 0, rows, keys, row)[e] by {
            element_inside(row, rows, e, keys);
        }
        assert(weights =~= left_factors(form, m2[probabilities.id], 0, rows, keys, row));
        let one = right_factors(form, v1, 0, cols, keys, col);
        let two = right_factors(form, v2, 0, cols, keys, col);
        assert(v1.len() == keys * cols && v2.len() == keys * cols);
        assert forall|e: int|
            #![trigger one[e]]
            #![trigger two[e]]
            0 <= e < keys implies is_finite(one[e]) && is_finite(two[e]) && (e <= row ==> one[e]
            == two[e]) by {
            element_inside(e, keys, col, cols);
            assert(one[e] == v1[e * cols + col]);
            assert(two[e] == v2[e * cols + col]);
            if e <= row {
                element_inside(e, last + 1, col, cols);
            }
        }
        masked_chain_is_alike(
            machine,
            weights,
            one,
            two,
            row + 1,
            maximum,
            total,
            (ceil_div(keys, side) * side) as nat,
        );
        assert(plan.leaves(machine, first)[h.output.id][row * h.value_dim + col] == product_element(
            machine,
            side,
            weights,
            one,
        ));
        assert(plan.leaves(machine, second)[h.output.id][row * h.value_dim + col]
            == product_element(machine, side, weights, two));
    }
}

} // verus!
