//! What reusable workspaces are good for.
//!
//! A workspace made for some capacity has exactly the room that an operation of
//! that capacity needs, and serves every smaller one.

use crate::acceptance::{
    reduction_acceptance, rows_fit, rows_suit, selection_acceptance, selection_suits,
    staged_rows_acceptance,
};
use crate::arith::ceil_div_covers;
use crate::bitwise_composed::{softmax_rows, staged_softmax_leaves};
use crate::bitwise_rows::{rms_rows, staged_rms_leaves};
use crate::device::{BufferId, ContextId, DeviceBuffer, Element, Stream, F32};
use crate::family::Family;
use crate::lm_head_argmax::{
    candidate_allocation, candidate_workspace_check, candidate_workspace_for,
};
use crate::machine::{holds, Machine, Memory};
use crate::reduction::{
    reduction_plan, workspace_allocation, workspace_check, workspace_for, ReductionInput,
    ReductionOp,
};
use crate::rms_norm::rms_rows_plan;
use crate::row_softmax::softmax_rows_plan;
use crate::rows::{row_allocation, row_workspace_check, row_workspace_for, RowKind, Rows};
use crate::top_k::{
    selection_allocation, selection_plan, selection_workspace_check, selection_workspace_for,
    Selection, SelectionBuffers,
};
use crate::tree_results::{elements_of, reduced, reduction_leaves};
use vstd::prelude::*;

verus! {

/// Workspaces are made for the family's own context; one for candidates also
/// needs a vocabulary that is not empty and whose tokens are countable.
pub proof fn workspaces_are_made_in_the_context(
    rows: RowKind,
    kind: ReductionInput,
    family: Family,
    context: ContextId,
    vocab: usize,
)
    ensures
        row_workspace_check(rows, family, context) is Ok <==> context == family.context,
        workspace_check(kind, family, context) is Ok <==> context == family.context,
        selection_workspace_check(family, context) is Ok <==> context == family.context,
        candidate_workspace_check(family, context, vocab) is Ok <==> {
            &&& 1 <= vocab <= u32::MAX
            &&& context == family.context
            &&& vocab + (family.width - 1) <= usize::MAX
        },
{
}

/// A workspace made for `max_rows` rows and allocated serves every matrix of at
/// most that many: the operation is accepted and leaves what it should.
pub proof fn row_workspace_serves(
    machine: Machine,
    family: Family,
    stream: Stream,
    r: Rows,
    epsilon: F32,
    gamma: F32,
    max_rows: usize,
    scalars: BufferId,
    memory: Memory,
)
    requires
        rows_suit(family.context, stream, r),
        rows_fit(r),
        r.rows <= max_rows,
        r.input.id != scalars,
        r.output.id != scalars,
        holds(memory, r.input),
        holds(memory, r.output),
    ensures
        ({
            let workspace = row_workspace_for(family.context, max_rows, scalars);
            let ready = row_allocation(workspace).leaves(machine, memory);
            let softmax = softmax_rows_plan(family, stream, r, workspace);
            let rms = rms_rows_plan(family, stream, r, epsilon, gamma, workspace);
            &&& workspace.max_rows == max_rows
            &&& workspace.scalars == DeviceBuffer {
                id: scalars,
                len: max_rows,
                context: family.context,
            }
            &&& row_allocation(workspace).scratch() == seq![(workspace.scalars, Element::F32)]
            &&& softmax.outcome is Ok
            &&& softmax.leaves(machine, ready)[r.output.id] == softmax_rows(
                machine,
                family.width,
                memory[r.input.id],
                r.cols as int,
            )
            &&& rms.outcome is Ok
            &&& rms.leaves(machine, ready)[r.output.id] == rms_rows(
                machine,
                family.width,
                memory[r.input.id],
                r.cols,
                epsilon,
                gamma,
            )
        }),
{
    broadcast use {crate::machine::group_execution, crate::plan::group_allocation};

    let workspace = row_workspace_for(family.context, max_rows, scalars);
    let ready = row_allocation(workspace).leaves(machine, memory);
    staged_rows_acceptance(family, stream, r, epsilon, gamma, workspace);
    staged_softmax_leaves(machine, family, stream, r, workspace, ready);
    staged_rms_leaves(machine, family, stream, r, epsilon, gamma, workspace, ready);
}

/// A workspace made for `max_elements` and allocated serves every reduction of
/// at most that many: it is accepted and leaves what it should. Its buffers
/// hold the partials of a first pass and no more.
pub proof fn tree_workspace_serves(
    machine: Machine,
    kind: ReductionInput,
    op: ReductionOp,
    family: Family,
    stream: Stream,
    input: DeviceBuffer,
    output: DeviceBuffer,
    max_elements: usize,
    a: BufferId,
    b: BufferId,
    memory: Memory,
)
    requires
        family.width > 0,
        output.len == 1,
        stream.context == family.context,
        input.context == family.context,
        output.context == family.context,
        input.len <= max_elements,
        input.len <= u32::MAX * (2 * family.width),
        input.len > 0 || op is Sum,
        input.id != output.id,
        input.id != a,
        input.id != b,
        output.id != a,
        output.id != b,
        a != b,
        holds(memory, input),
        holds(memory, output),
    ensures
        ({
            let workspace = workspace_for(family, family.context, max_elements, a, b);
            let ready = workspace_allocation(workspace).leaves(machine, memory);
            let plan = reduction_plan(kind, op, family, stream, input, output, workspace);
            &&& plan.outcome is Ok
            &&& plan.leaves(machine, ready)[output.id] == seq![
                reduced(machine, op, family.width, elements_of(kind, memory[input.id])),
            ]
            &&& workspace.scratch_a.len == workspace.scratch_b.len
            &&& max_elements <= workspace.scratch_a.len * (2 * family.width)
            &&& max_elements > 0 ==> (workspace.scratch_a.len - 1) * (2 * family.width)
                < max_elements
            &&& max_elements == 0 ==> workspace.scratch_a.len == 0
            &&& workspace_allocation(workspace).scratch() == seq![
                (workspace.scratch_a, Element::F32),
                (workspace.scratch_b, Element::F32),
            ]
        }),
{
    broadcast use {crate::machine::group_execution, crate::plan::group_allocation};

    let workspace = workspace_for(family, family.context, max_elements, a, b);
    let ready = workspace_allocation(workspace).leaves(machine, memory);
    ceil_div_covers(max_elements as int, 2 * family.width as int);
    assert(workspace.sized());
    reduction_acceptance(kind, op, family, stream, input, output, workspace);
    reduction_leaves(machine, kind, op, family, stream, input, output, workspace, ready);
    assert(workspace_allocation(workspace).scratch() =~= seq![
        (workspace.scratch_a, Element::F32),
        (workspace.scratch_b, Element::F32),
    ]);
}

/// A workspace made for `max_elements` serves every selection from at most that
/// many: it is accepted, and the allocated buffers have the room it takes.
pub proof fn selection_workspace_serves(
    machine: Machine,
    family: Family,
    stream: Stream,
    s: Selection,
    max_elements: usize,
    buffers: SelectionBuffers,
    memory: Memory,
)
    requires
        family.width > 0,
        selection_suits(family, stream, s),
        s.input.len <= max_elements,
        buffers.data != buffers.values_a,
        buffers.data != buffers.values_b,
        buffers.data != buffers.indices_a,
        buffers.data != buffers.indices_b,
        buffers.values_a != buffers.values_b,
        buffers.values_a != buffers.indices_a,
        buffers.values_a != buffers.indices_b,
        buffers.values_b != buffers.indices_a,
        buffers.values_b != buffers.indices_b,
        buffers.indices_a != buffers.indices_b,
    ensures
        ({
            let w = selection_workspace_for(family, family.context, max_elements, buffers);
            let ready = selection_allocation(w).leaves(machine, memory);
            &&& selection_plan(family, stream, s, w).outcome is Ok
            &&& w.sized()
            &&& w.data.len == max_elements
            &&& max_elements <= w.values_a.len * (2 * family.width)
            &&& max_elements > 0 ==> (w.values_a.len - 1) * (2 * family.width) < max_elements
            &&& w.values_b.len == w.values_a.len
            &&& w.indices_a.len == w.values_a.len
            &&& w.indices_b.len == w.values_a.len
            &&& w.data.id == buffers.data
            &&& w.values_a.id == buffers.values_a
            &&& w.values_b.id == buffers.values_b
            &&& w.indices_a.id == buffers.indices_a
            &&& w.indices_b.id == buffers.indices_b
            &&& holds(ready, w.data)
            &&& holds(ready, w.values_a)
            &&& holds(ready, w.values_b)
            &&& holds(ready, w.indices_a)
            &&& holds(ready, w.indices_b)
            &&& selection_allocation(w).scratch() == seq![
                (w.data, Element::F32),
                (w.values_a, Element::F32),
                (w.values_b, Element::F32),
                (w.indices_a, Element::U32),
                (w.indices_b, Element::U32),
            ]
        }),
{
    broadcast use {crate::machine::group_execution, crate::plan::group_allocation};

    let w = selection_workspace_for(family, family.context, max_elements, buffers);
    ceil_div_covers(max_elements as int, 2 * family.width as int);
    selection_acceptance(family, stream, s, w);
    assert(selection_allocation(w).scratch() =~= seq![
        (w.data, Element::F32),
        (w.values_a, Element::F32),
        (w.values_b, Element::F32),
        (w.indices_a, Element::U32),
        (w.indices_b, Element::U32),
    ]);
}

/// Candidate storage made for a vocabulary has one candidate per block of
/// tokens, and the allocated buffers have that room.
pub proof fn candidate_workspace_serves(
    machine: Machine,
    family: Family,
    vocab: usize,
    values: BufferId,
    indices: BufferId,
    memory: Memory,
)
    requires
        family.width > 0,
        1 <= vocab <= u32::MAX,
        values != indices,
    ensures
        ({
            let w = candidate_workspace_for(family, family.context, vocab, values, indices);
            let ready = candidate_allocation(w).leaves(machine, memory);
            &&& w.sized()
            &&& w.vocab == vocab
            &&& w.block_size == family.width
            &&& w.values.id == values
            &&& w.indices.id == indices
            &&& w.values.context == family.context
            &&& w.indices.context == family.context
            &&& w.values.len == w.indices.len
            &&& (w.values.len - 1) * family.width < vocab <= w.values.len * family.width
            &&& holds(ready, w.values)
            &&& holds(ready, w.indices)
            &&& candidate_allocation(w).scratch() == seq![
                (w.values, Element::F32),
                (w.indices, Element::U32),
            ]
        }),
{
    broadcast use {crate::machine::group_execution, crate::plan::group_allocation};

    let w = candidate_workspace_for(family, family.context, vocab, values, indices);
    ceil_div_covers(vocab as int, family.width as int);
    assert(candidate_allocation(w).scratch() =~= seq![
        (w.values, Element::F32),
        (w.indices, Element::U32),
    ]);
}

} // verus!
