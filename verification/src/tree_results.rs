//! What tree reductions leave, and a softmax built of them.
//!
//! The value is a function of the contents and the block width alone: neither
//! the allocations nor what they held before have a part in it.

use crate::arith::{ceil_div_covers, ceil_div_monotone, ceil_div_shrinks};
use crate::bf16_reduction::bf16_max_plan;
use crate::device::{BufferId, ContextId, DeviceBuffer, Element, Scratch, Stream};
use crate::family::Family;
use crate::machine::{
    block_fold, holds, lane_value, partial, widened, Machine, Memory, NEGATIVE_INFINITY,
};
use crate::plan::{Action, PlanView};
use crate::reduction::{
    own_workspace, pass_plan, passes_plan, place_buffer, reduction_plan, scalar_output,
    scalar_plan, workspace_allocation, ReductionInput, ReductionOp, TreeWorkspace,
};
use crate::softmax::{
    exp_shift_plan, normalize_plan, own_scalars, own_tree, softmax_alone_plan, softmax_into_plan,
    softmax_plan, softmax_pooled_plan, SoftmaxOperands, SoftmaxView,
};
use crate::tree::{partials, reduces, schedule, schedule_reduces_to_one, Place, TreePass};
use vstd::prelude::*;

verus! {

/// What a reduction combines two elements with.
pub open spec fn combination(machine: Machine, op: ReductionOp) -> spec_fn(u32, u32) -> u32 {
    match op {
        ReductionOp::Sum => machine.add,
        ReductionOp::Max => machine.maximum,
    }
}

/// What a lane without an element holds.
pub open spec fn neutral(op: ReductionOp) -> u32 {
    match op {
        ReductionOp::Sum => 0,
        ReductionOp::Max => NEGATIVE_INFINITY,
    }
}

/// The partial that one block leaves of `data`.
pub open spec fn block_partial(
    machine: Machine,
    op: ReductionOp,
    width: u32,
    data: Seq<u32>,
    block: int,
) -> u32 {
    partial(combination(machine, op), neutral(op), width as nat, data, data.len() as int, block)
}

/// The partials that one pass leaves of `data`.
pub open spec fn pass_partials(
    machine: Machine,
    op: ReductionOp,
    width: u32,
    data: Seq<u32>,
) -> Seq<u32> {
    Seq::new(
        partials(data.len() as int, width as int) as nat,
        |block: int| block_partial(machine, op, width, data, block),
    )
}

/// The value that a tree reduction makes of `data`: the only partial of a pass,
/// or the reduction of its partials where there are several.
pub open spec fn reduced(machine: Machine, op: ReductionOp, width: u32, data: Seq<u32>) -> u32
    decreases data.len(),
{
    if data.len() == 0 {
        neutral(op)
    } else if width == 0 || partials(data.len() as int, width as int) <= 1 {
        block_partial(machine, op, width, data, 0)
    } else {
        proof {
            ceil_div_shrinks(data.len() as int, 2 * width as int);
            ceil_div_covers(1, 2 * width as int);
        }
        reduced(machine, op, width, pass_partials(machine, op, width, data))
    }
}

/// The elements of a reduction's input.
pub open spec fn elements_of(kind: ReductionInput, contents: Seq<u32>) -> Seq<u32> {
    match kind {
        ReductionInput::F32 => contents,
        ReductionInput::Bf16 => widened(contents),
    }
}

/// The buffers of a reduction are allocations of their own.
pub open spec fn tree_apart(
    input: BufferId,
    output: BufferId,
    workspace: TreeWorkspace,
) -> bool {
    &&& input != output
    &&& input != workspace.scratch_a.id
    &&& input != workspace.scratch_b.id
    &&& output != workspace.scratch_a.id
    &&& output != workspace.scratch_b.id
    &&& workspace.scratch_a.id != workspace.scratch_b.id
}

/// What a pass reads.
spec fn source_of(
    kind: ReductionInput,
    memory: Memory,
    input: BufferId,
    output: BufferId,
    workspace: TreeWorkspace,
    pass: TreePass,
) -> Seq<u32> {
    let contents = memory[place_buffer(pass.source, input, output, workspace)];
    (if pass.source == Place::Input {
        elements_of(kind, contents)
    } else {
        contents
    }).take(pass.elements as int)
}

/// A block reads no further than the number of elements.
proof fn partial_reads_elements(
    machine: Machine,
    op: ReductionOp,
    width: u32,
    data: Seq<u32>,
    elements: int,
    block: int,
)
    requires
        0 <= elements <= data.len(),
        0 <= block,
    ensures
        partial(combination(machine, op), neutral(op), width as nat, data, elements, block)
            == block_partial(machine, op, width, data.take(elements), block),
{
    let combine = combination(machine, op);
    let w = width as nat;
    let taken = data.take(elements);
    let start = block * (2 * w);
    assert(0 <= start) by (nonlinear_arith)
        requires
            0 <= block,
            start == block * (2 * w),
    ;
    let one = Seq::new(
        w,
        |lane: int|
            lane_value(
                combine,
                neutral(op),
                data,
                elements,
                block * (2 * w) + lane,
                block * (2 * w) + lane + w,
            ),
    );
    let two = Seq::new(
        w,
        |lane: int|
            lane_value(
                combine,
                neutral(op),
                taken,
                taken.len() as int,
                block * (2 * w) + lane,
                block * (2 * w) + lane + w,
            ),
    );
    assert(one =~= two);
    assert(block_fold(combine, one) == block_fold(combine, two));
}

/// The passes carry the value of the reduction from place to place and end
/// with it in the output.
proof fn passes_reduce(
    machine: Machine,
    kind: ReductionInput,
    op: ReductionOp,
    width: u32,
    input: DeviceBuffer,
    output: DeviceBuffer,
    workspace: TreeWorkspace,
    passes: Seq<TreePass>,
    count: nat,
    memory: Memory,
)
    requires
        0 < width,
        reduces(passes, input.len, width, Place::Input),
        count <= passes.len(),
        passes_plan(
            kind,
            op,
            width,
            input.id,
            output.id,
            workspace,
            passes.take(count as int),
        ).outcome is Ok,
        tree_apart(input.id, output.id, workspace),
        holds(memory, input),
        memory[output.id].len() == 1,
        memory[workspace.scratch_a.id].len() >= partials(input.len as int, width as int),
        memory[workspace.scratch_b.id].len() >= partials(input.len as int, width as int),
    ensures
        ({
            let after = passes_plan(
                kind,
                op,
                width,
                input.id,
                output.id,
                workspace,
                passes.take(count as int),
            ).leaves(machine, memory);
            let value = reduced(machine, op, width, elements_of(kind, memory[input.id]));
            &&& count < passes.len() ==> reduced(
                machine,
                op,
                width,
                source_of(kind, after, input.id, output.id, workspace, passes[count as int]),
            ) == value
            &&& count < passes.len() ==> after[place_buffer(
                passes[count as int].source,
                input.id,
                output.id,
                workspace,
            )].len() >= passes[count as int].elements
            &&& count == passes.len() ==> after[output.id] == seq![value]
            &&& after[output.id].len() == 1
            &&& after[workspace.scratch_a.id].len() == memory[workspace.scratch_a.id].len()
            &&& after[workspace.scratch_b.id].len() == memory[workspace.scratch_b.id].len()
            &&& forall|other: BufferId|
                other != output.id && other != workspace.scratch_a.id && other
                    != workspace.scratch_b.id ==> #[trigger] after[other] == memory[other]
        }),
    decreases count,
{
    broadcast use crate::machine::group_execution;

    if count == 0 {
        assert(passes.take(0) =~= Seq::empty());
        assert(source_of(kind, memory, input.id, output.id, workspace, passes[0])
            =~= elements_of(kind, memory[input.id]));
    } else {
        let last = (count - 1) as nat;
        let pass = passes[last as int];
        assert(passes.take(count as int).drop_last() =~= passes.take(last as int));
        assert(passes.take(count as int).last() == pass);
        passes_reduce(
            machine,
            kind,
            op,
            width,
            input,
            output,
            workspace,
            passes,
            last,
            memory,
        );
        let before = passes_plan(
            kind,
            op,
            width,
            input.id,
            output.id,
            workspace,
            passes.take(last as int),
        ).leaves(machine, memory);
        let step = pass_plan(kind, op, width, input.id, output.id, workspace, pass);
        let after = step.leaves(machine, before);
        let data = source_of(kind, before, input.id, output.id, workspace, pass);
        let source = before[place_buffer(pass.source, input.id, output.id, workspace)];
        let full = if pass.source == Place::Input {
            elements_of(kind, source)
        } else {
            source
        };
        let destination = place_buffer(pass.destination, input.id, output.id, workspace);
        assert(pass.output_elements <= partials(input.len as int, width as int));
        assert(pass.output_elements == partials(data.len() as int, width as int));
        assert forall|block: int| 0 <= block < pass.output_elements implies #[trigger] after[
            destination
        ][block] == block_partial(machine, op, width, data, block) by {
            partial_reads_elements(machine, op, width, full, pass.elements as int, block);
        }
        if count < passes.len() {
            let next = passes[count as int];
            assert(source_of(kind, after, input.id, output.id, workspace, next)
                =~= pass_partials(machine, op, width, data));
        } else {
            assert(after[output.id] =~= seq![block_partial(machine, op, width, data, 0)]);
        }
    }
}

/// An accepted reduction leaves in its output the value of the reduction, and
/// touches nothing else but its scratch. The maximum of nothing leaves memory
/// as it was.
pub proof fn reduction_leaves(
    machine: Machine,
    kind: ReductionInput,
    op: ReductionOp,
    family: Family,
    stream: Stream,
    input: DeviceBuffer,
    output: DeviceBuffer,
    workspace: TreeWorkspace,
    memory: Memory,
)
    requires
        family.width > 0,
        workspace.sized(),
        reduction_plan(kind, op, family, stream, input, output, workspace).outcome is Ok,
        tree_apart(input.id, output.id, workspace),
        holds(memory, input),
        holds(memory, output),
        holds(memory, workspace.scratch_a),
        holds(memory, workspace.scratch_b),
    ensures
        ({
            let after = reduction_plan(
                kind,
                op,
                family,
                stream,
                input,
                output,
                workspace,
            ).leaves(machine, memory);
            &&& input.len > 0 || op is Sum ==> after[output.id] == seq![
                reduced(machine, op, family.width, elements_of(kind, memory[input.id])),
            ]
            &&& input.len == 0 && op is Max ==> after == memory
            &&& after[workspace.scratch_a.id].len() == workspace.scratch_a.len
            &&& after[workspace.scratch_b.id].len() == workspace.scratch_b.len
            &&& forall|other: BufferId|
                other != output.id && other != workspace.scratch_a.id && other
                    != workspace.scratch_b.id ==> #[trigger] after[other] == memory[other]
        }),
{
    broadcast use crate::machine::group_execution;

    let after = reduction_plan(kind, op, family, stream, input, output, workspace).leaves(
        machine,
        memory,
    );
    if input.len == 0 {
        if op is Sum {
            assert(after[output.id] =~= seq![0u32]);
        }
    } else {
        let passes = schedule(input.len, family.width);
        schedule_reduces_to_one(input.len, family.width);
        ceil_div_monotone(
            input.len as int,
            workspace.max_elements as int,
            2 * family.width as int,
        );
        assert(passes.take(passes.len() as int) =~= passes);
        passes_reduce(
            machine,
            kind,
            op,
            family.width,
            input,
            output,
            workspace,
            passes,
            passes.len(),
            memory,
        );
    }
}

/// A reduction to a scalar with scratch of its own leaves the value of the
/// reduction in the one-element allocation that is read back, and every operand
/// as it was.
pub proof fn scalar_reduction_leaves(
    machine: Machine,
    kind: ReductionInput,
    op: ReductionOp,
    family: Family,
    stream: Stream,
    input: DeviceBuffer,
    memory: Memory,
)
    requires
        family.width > 0,
        input.len > 0 || op is Sum,
        scalar_plan(kind, op, family, stream, input).outcome is Ok,
        input.id is Operand,
        holds(memory, input),
    ensures
        scalar_plan(kind, op, family, stream, input).leaves(machine, memory)[scalar_output(
            input.context,
        ).id] == seq![reduced(machine, op, family.width, elements_of(kind, memory[input.id]))],
        scalar_output(input.context).id == BufferId::Scratch(Scratch::ReductionOutput),
        forall|other: BufferId|
            other is Operand ==> #[trigger] scalar_plan(kind, op, family, stream, input).leaves(
                machine,
                memory,
            )[other] == memory[other],
{
    broadcast use crate::machine::group_execution;

    let workspace = own_workspace(family, input);
    let output = scalar_output(input.context);
    let prepared = workspace_allocation(workspace).followed_by(
        PlanView::one(Action::Allocate { buffer: output, element: Element::F32 }),
    );
    let ready = prepared.leaves(machine, memory);
    ceil_div_covers(input.len as int, 2 * family.width as int);
    assert(workspace.sized());
    reduction_leaves(machine, kind, op, family, stream, input, output, workspace, ready);
    assert(scalar_plan(kind, op, family, stream, input).leaves(machine, memory) == reduction_plan(
        kind,
        op,
        family,
        stream,
        input,
        output,
        workspace,
    ).leaves(machine, ready));
}

/// The maximum of packed bf16 is read back where it is left, and takes no device
/// work where there is nothing to take the maximum of.
pub proof fn packed_maximum_leaves(
    machine: Machine,
    family: Family,
    stream: Stream,
    input: DeviceBuffer,
    memory: Memory,
)
    requires
        family.width > 0,
        bf16_max_plan(family, stream, input).outcome is Ok,
        input.id is Operand,
        holds(memory, input),
    ensures
        input.len > 0 ==> bf16_max_plan(family, stream, input).leaves(machine, memory)[
            BufferId::Scratch(Scratch::ReductionOutput)
        ] == seq![
            reduced(machine, ReductionOp::Max, family.width, widened(memory[input.id])),
        ],
        input.len == 0 ==> bf16_max_plan(family, stream, input).steps.len() == 0,
{
    if input.len > 0 {
        scalar_reduction_leaves(
            machine,
            ReductionInput::Bf16,
            ReductionOp::Max,
            family,
            stream,
            input,
            memory,
        );
    }
}

/// The exponentials of `data`, shifted by its maximum.
pub open spec fn shifted_exponentials(machine: Machine, width: u32, data: Seq<u32>) -> Seq<u32> {
    let maximum = reduced(machine, ReductionOp::Max, width, data);
    Seq::new(
        data.len(),
        |at: int| (machine.exponential)((machine.subtract)(data[at], maximum)),
    )
}

/// The softmax of `data`: its shifted exponentials over their sum.
pub open spec fn softmax_of(machine: Machine, width: u32, data: Seq<u32>) -> Seq<u32> {
    let exponentials = shifted_exponentials(machine, width, data);
    let total = reduced(machine, ReductionOp::Sum, width, exponentials);
    Seq::new(data.len(), |at: int| (machine.divide)(exponentials[at], total))
}

/// The scratch of a softmax is apart from its operands; these may be one
/// allocation.
pub open spec fn softmax_apart(o: SoftmaxOperands, workspace: TreeWorkspace) -> bool {
    &&& tree_apart(o.input.id, o.max_scratch.id, workspace)
    &&& tree_apart(o.output.id, o.sum_scratch.id, workspace)
    &&& o.output.id != o.max_scratch.id
}

/// An accepted softmax leaves the softmax of its input in its output, in place
/// or not, and touches nothing else but its scratch.
pub proof fn vector_softmax_leaves(
    machine: Machine,
    softmax: SoftmaxView,
    stream: Stream,
    o: SoftmaxOperands,
    workspace: TreeWorkspace,
    memory: Memory,
)
    requires
        softmax.reduction.width > 0,
        workspace.sized(),
        softmax_plan(softmax, stream, o, workspace).outcome is Ok,
        softmax_apart(o, workspace),
        holds(memory, o.input),
        holds(memory, o.output),
        holds(memory, o.max_scratch),
        holds(memory, o.sum_scratch),
        holds(memory, workspace.scratch_a),
        holds(memory, workspace.scratch_b),
    ensures
        ({
            let after = softmax_plan(softmax, stream, o, workspace).synchronized().leaves(
                machine,
                memory,
            );
            &&& after[o.output.id] == softmax_of(
                machine,
                softmax.reduction.width,
                memory[o.input.id],
            )
            &&& forall|other: BufferId|
                other != o.output.id && other != o.max_scratch.id && other != o.sum_scratch.id
                    && other != workspace.scratch_a.id && other != workspace.scratch_b.id
                    ==> #[trigger] after[other] == memory[other]
        }),
{
    broadcast use crate::machine::group_execution;

    let width = softmax.reduction.width;
    let data = memory[o.input.id];
    let after = softmax_plan(softmax, stream, o, workspace).leaves(machine, memory);
    if o.input.len == 0 {
        assert(after[o.output.id] =~= softmax_of(machine, width, data));
    } else {
        let maximum = reduction_plan(
            ReductionInput::F32,
            ReductionOp::Max,
            softmax.reduction,
            stream,
            o.input,
            o.max_scratch,
            workspace,
        );
        let shift = exp_shift_plan(softmax.family.width, o.input, o.output, o.max_scratch);
        let total = reduction_plan(
            ReductionInput::F32,
            ReductionOp::Sum,
            softmax.reduction,
            stream,
            o.output,
            o.sum_scratch,
            workspace,
        );
        let divide = normalize_plan(softmax.family.width, o.output, o.sum_scratch);
        let first = maximum.leaves(machine, memory);
        let second = shift.leaves(machine, first);
        let third = total.leaves(machine, second);
        reduction_leaves(
            machine,
            ReductionInput::F32,
            ReductionOp::Max,
            softmax.reduction,
            stream,
            o.input,
            o.max_scratch,
            workspace,
            memory,
        );
        assert(second[o.output.id] =~= shifted_exponentials(machine, width, data));
        reduction_leaves(
            machine,
            ReductionInput::F32,
            ReductionOp::Sum,
            softmax.reduction,
            stream,
            o.output,
            o.sum_scratch,
            workspace,
            second,
        );
        assert(after == divide.leaves(machine, third));
        assert(after[o.output.id] =~= softmax_of(machine, width, data));
    }
}

/// What a softmax of one buffer into another is to leave: the softmax of what
/// the input held, and nothing else of the operands changed.
pub open spec fn leaves_the_softmax(
    plan: PlanView,
    machine: Machine,
    width: u32,
    input: DeviceBuffer,
    output: DeviceBuffer,
    memory: Memory,
) -> bool {
    let after = plan.leaves(machine, memory);
    &&& after[output.id] == softmax_of(machine, width, memory[input.id])
    &&& forall|other: BufferId|
        other is Operand && other != output.id ==> #[trigger] after[other] == memory[other]
}

/// A softmax with scalar scratch of its own and a given workspace leaves the
/// softmax of its input, for every length, in place or not.
pub proof fn softmax_into_leaves(
    machine: Machine,
    softmax: SoftmaxView,
    stream: Stream,
    input: DeviceBuffer,
    output: DeviceBuffer,
    workspace: TreeWorkspace,
    memory: Memory,
)
    requires
        softmax.reduction.width > 0,
        workspace.sized(),
        softmax_into_plan(softmax, stream, input, output, workspace).outcome is Ok,
        input.id is Operand,
        output.id is Operand,
        workspace.scratch_a.id != workspace.scratch_b.id,
        workspace.scratch_a.id != input.id,
        workspace.scratch_b.id != input.id,
        workspace.scratch_a.id != output.id,
        workspace.scratch_b.id != output.id,
        workspace.scratch_a.id != BufferId::Scratch(Scratch::SoftmaxMax),
        workspace.scratch_b.id != BufferId::Scratch(Scratch::SoftmaxMax),
        workspace.scratch_a.id != BufferId::Scratch(Scratch::SoftmaxSum),
        workspace.scratch_b.id != BufferId::Scratch(Scratch::SoftmaxSum),
        holds(memory, input),
        holds(memory, output),
        holds(memory, workspace.scratch_a),
        holds(memory, workspace.scratch_b),
    ensures
        ({
            let plan = softmax_into_plan(softmax, stream, input, output, workspace);
            let after = plan.leaves(machine, memory);
            &&& after[output.id] == softmax_of(
                machine,
                softmax.reduction.width,
                memory[input.id],
            )
            &&& forall|other: BufferId|
                other is Operand && other != output.id && other != workspace.scratch_a.id && other
                    != workspace.scratch_b.id ==> #[trigger] after[other] == memory[other]
        }),
{
    broadcast use crate::machine::group_execution;

    let o = SoftmaxOperands {
        input,
        output,
        max_scratch: DeviceBuffer {
            id: BufferId::Scratch(Scratch::SoftmaxMax),
            len: 1,
            context: stream.context,
        },
        sum_scratch: DeviceBuffer {
            id: BufferId::Scratch(Scratch::SoftmaxSum),
            len: 1,
            context: stream.context,
        },
    };
    assert(o == own_scalars(stream.context, input, output));
    let prepared = PlanView::one(
        Action::Allocate { buffer: o.max_scratch, element: Element::F32 },
    ).followed_by(
        PlanView::one(Action::Allocate { buffer: o.sum_scratch, element: Element::F32 }),
    );
    let ready = prepared.leaves(machine, memory);
    vector_softmax_leaves(machine, softmax, stream, o, workspace, ready);
    assert(softmax_into_plan(softmax, stream, input, output, workspace).leaves(machine, memory)
        == softmax_plan(softmax, stream, o, workspace).synchronized().leaves(machine, ready));
}

/// A softmax with all scratch of its own, allocated or taken from a pool,
/// leaves the softmax of its input, for every length, in place or not.
pub proof fn own_softmax_leaves(
    machine: Machine,
    softmax: SoftmaxView,
    context: ContextId,
    stream: Stream,
    input: DeviceBuffer,
    output: DeviceBuffer,
    memory: Memory,
)
    requires
        softmax.reduction.width > 0,
        input.id is Operand,
        output.id is Operand,
        holds(memory, input),
        holds(memory, output),
    ensures
        softmax_alone_plan(softmax, context, stream, input, output).outcome is Ok
            ==> leaves_the_softmax(
            softmax_alone_plan(softmax, context, stream, input, output),
            machine,
            softmax.reduction.width,
            input,
            output,
            memory,
        ),
        softmax_pooled_plan(softmax, context, stream, input, output).outcome is Ok
            ==> leaves_the_softmax(
            softmax_pooled_plan(softmax, context, stream, input, output),
            machine,
            softmax.reduction.width,
            input,
            output,
            memory,
        ),
{
    broadcast use crate::machine::group_execution;

    let workspace = own_tree(softmax.reduction, context, input.len);
    ceil_div_covers(input.len as int, 2 * softmax.reduction.width as int);
    assert(workspace.sized());
    let alone = softmax_alone_plan(softmax, context, stream, input, output);
    if alone.outcome is Ok {
        let ready = workspace_allocation(workspace).leaves(machine, memory);
        softmax_into_leaves(machine, softmax, stream, input, output, workspace, ready);
        assert(alone.leaves(machine, memory) == softmax_into_plan(
            softmax,
            stream,
            input,
            output,
            workspace,
        ).leaves(machine, ready));
    }
    let pooled = softmax_pooled_plan(softmax, context, stream, input, output);
    if pooled.outcome is Ok {
        let o = own_scalars(context, input, output);
        let prepared = PlanView::one(
            Action::AllocatePooled { buffer: workspace.scratch_a, element: Element::F32 },
        ).followed_by(
            PlanView::one(
                Action::AllocatePooled { buffer: workspace.scratch_b, element: Element::F32 },
            ),
        ).followed_by(
            PlanView::one(
                Action::AllocatePooled { buffer: o.max_scratch, element: Element::F32 },
            ),
        ).followed_by(
            PlanView::one(
                Action::AllocatePooled { buffer: o.sum_scratch, element: Element::F32 },
            ),
        );
        let ready = prepared.leaves(machine, memory);
        assert(o.input == input && o.output == output);
        vector_softmax_leaves(machine, softmax, stream, o, workspace, ready);
        assert(pooled.leaves(machine, memory) == softmax_plan(
            softmax,
            stream,
            o,
            workspace,
        ).synchronized().leaves(machine, ready));
    }
}

} // verus!
