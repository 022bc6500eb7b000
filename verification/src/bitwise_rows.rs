//! Normalizations and reductions of packed bf16 that agree with those of
//! `f32`.

use crate::arith::ceil_div_covers;
use crate::bf16::{narrow_plan, widen_plan};
use crate::bf16_norms::{layer_submission_plan, norm_check, norm_plan, wide_rows, NormKind};
use crate::bitwise::{narrow_leaves, widen_leaves};
use crate::device::{BufferId, DeviceBuffer, Element, Probe, Scratch, Stream, F32};
use crate::family::Family;
use crate::machine::{
    element_place, holds, narrowed, rms_element, row_of, row_squares, widened, Machine, Memory,
};
use crate::plan::{Action, PlanView};
use crate::reduction::{
    own_workspace, pass_plan, passes_plan, place_buffer, reduction_plan, scalar_output,
    scalar_plan, workspace_allocation, ReductionInput, ReductionOp, TreeWorkspace,
};
use crate::rms_norm::{fused_rms_plan, rms_dispatch_plan, rms_rows_plan, rms_submission_plan};
use crate::rows::{
    row_allocation, row_fits, row_workspace_check, row_workspace_for, FusedProbes, RowKind,
    RowWorkspace, Rows,
};
use crate::tree::{schedule, schedule_reduces_to_one, Place, TreePass};
use crate::tree_results::tree_apart;
use vstd::prelude::*;

verus! {

/// The RMS normalization of every row of a matrix.
pub open spec fn rms_rows(
    machine: Machine,
    width: u32,
    input: Seq<u32>,
    cols: usize,
    epsilon: F32,
    gamma: F32,
) -> Seq<u32> {
    Seq::new(
        input.len(),
        |at: int|
            rms_element(
                machine,
                input[at],
                row_squares(machine, row_of(input, at / cols as int, cols as int), width as nat),
                cols as u64,
                epsilon,
                gamma,
            ),
    )
}

/// A dispatched RMS normalization leaves every row normalized, on either path,
/// and touches nothing else but its own scratch.
pub proof fn rms_leaves(
    machine: Machine,
    family: Family,
    stream: Stream,
    r: Rows,
    epsilon: F32,
    gamma: F32,
    probes: FusedProbes,
    memory: Memory,
)
    requires
        rms_submission_plan(family, stream, r, epsilon, gamma, probes).outcome is Ok,
        holds(memory, r.input),
        holds(memory, r.output),
        r.input.id != BufferId::Scratch(Scratch::RowSumOfSquares),
        r.output.id != BufferId::Scratch(Scratch::RowSumOfSquares),
    ensures
        ({
            let after = rms_submission_plan(family, stream, r, epsilon, gamma, probes).leaves(
                machine,
                memory,
            );
            &&& after[r.output.id] == rms_rows(
                machine,
                family.width,
                memory[r.input.id],
                r.cols,
                epsilon,
                gamma,
            )
            &&& forall|other: BufferId|
                other != r.output.id && other != BufferId::Scratch(Scratch::RowSumOfSquares)
                    ==> #[trigger] after[other] == memory[other]
        }),
        rms_dispatch_plan(family, stream, r, epsilon, gamma, probes).outcome is Ok,
        rms_dispatch_plan(family, stream, r, epsilon, gamma, probes).leaves(machine, memory)
            == rms_submission_plan(family, stream, r, epsilon, gamma, probes).leaves(
            machine,
            memory,
        ),
{
    broadcast use crate::machine::group_execution;

    let plan = rms_submission_plan(family, stream, r, epsilon, gamma, probes);
    let after = plan.leaves(machine, memory);
    let (rows, cols) = (r.rows as int, r.cols as int);
    let input = memory[r.input.id];
    let expected = rms_rows(machine, family.width, input, r.cols, epsilon, gamma);
    if rows == 0 || cols == 0 {
        assert(rows * cols == 0) by (nonlinear_arith)
            requires
                rows == 0 || cols == 0,
        ;
    }
    assert forall|at: int| 0 <= at < rows * cols implies 0 <= #[trigger] (at / cols) < rows by {
        if cols == 0 {
            assert(rows * cols == 0) by (nonlinear_arith)
                requires
                    cols == 0,
            ;
        }
        element_place(at, rows, cols);
    }
    if row_fits(family.width, r.cols, probes.available) {
        let fused = fused_rms_plan(family, stream, r, epsilon, gamma, probes.fused);
        assert(fused.leaves(machine, memory)[r.output.id] =~= expected);
    } else {
        let workspace = row_workspace_for(
            stream.context,
            r.rows,
            BufferId::Scratch(Scratch::RowSumOfSquares),
        );
        let prepared = PlanView::checked(
            row_workspace_check(RowKind::RmsNorm, family, stream.context),
        ).followed_by(row_allocation(workspace));
        let middle = prepared.leaves(machine, memory);
        assert(middle[r.input.id] == input);
        assert(middle[r.output.id] == memory[r.output.id]);
        assert(middle[workspace.scalars.id].len() == r.rows);
        let staged = rms_rows_plan(family, stream, r, epsilon, gamma, workspace);
        assert(after == staged.leaves(machine, middle));
        assert(staged.leaves(machine, middle)[r.output.id] =~= expected);
    }
}

/// A staged RMS normalization leaves every row normalized, in place or not, and
/// touches nothing else but the workspace, whatever room that has to spare.
pub proof fn staged_rms_leaves(
    machine: Machine,
    family: Family,
    stream: Stream,
    r: Rows,
    epsilon: F32,
    gamma: F32,
    workspace: RowWorkspace,
    memory: Memory,
)
    requires
        rms_rows_plan(family, stream, r, epsilon, gamma, workspace).outcome is Ok,
        workspace.scalars.len >= workspace.max_rows,
        holds(memory, r.input),
        holds(memory, r.output),
        holds(memory, workspace.scalars),
        r.input.id != workspace.scalars.id,
        r.output.id != workspace.scalars.id,
    ensures
        ({
            let after = rms_rows_plan(family, stream, r, epsilon, gamma, workspace).leaves(
                machine,
                memory,
            );
            &&& after[r.output.id] == rms_rows(
                machine,
                family.width,
                memory[r.input.id],
                r.cols,
                epsilon,
                gamma,
            )
            &&& forall|other: BufferId|
                other != r.output.id && other != workspace.scalars.id ==> #[trigger] after[other]
                    == memory[other]
        }),
{
    broadcast use crate::machine::group_execution;

    let (rows, cols) = (r.rows as int, r.cols as int);
    let plan = rms_rows_plan(family, stream, r, epsilon, gamma, workspace);
    let expected = rms_rows(machine, family.width, memory[r.input.id], r.cols, epsilon, gamma);
    if rows == 0 || cols == 0 {
        assert(rows * cols == 0) by (nonlinear_arith)
            requires
                rows == 0 || cols == 0,
        ;
    }
    assert forall|at: int| 0 <= at < rows * cols implies 0 <= #[trigger] (at / cols) < rows by {
        element_place(at, rows, cols);
    }
    assert(plan.leaves(machine, memory)[r.output.id] =~= expected);
}

/// A fused RMS normalization leaves every row normalized, in place or not, and
/// touches nothing else.
pub proof fn fused_rms_leaves(
    machine: Machine,
    family: Family,
    stream: Stream,
    r: Rows,
    epsilon: F32,
    gamma: F32,
    fused: Probe,
    memory: Memory,
)
    requires
        fused_rms_plan(family, stream, r, epsilon, gamma, fused).outcome is Ok,
        holds(memory, r.input),
        holds(memory, r.output),
    ensures
        ({
            let after = fused_rms_plan(family, stream, r, epsilon, gamma, fused).leaves(
                machine,
                memory,
            );
            &&& after[r.output.id] == rms_rows(
                machine,
                family.width,
                memory[r.input.id],
                r.cols,
                epsilon,
                gamma,
            )
            &&& forall|other: BufferId|
                other != r.output.id ==> #[trigger] after[other] == memory[other]
        }),
{
    broadcast use crate::machine::group_execution;

    let (rows, cols) = (r.rows as int, r.cols as int);
    let plan = fused_rms_plan(family, stream, r, epsilon, gamma, fused);
    let expected = rms_rows(machine, family.width, memory[r.input.id], r.cols, epsilon, gamma);
    if rows == 0 || cols == 0 {
        assert(rows * cols == 0) by (nonlinear_arith)
            requires
                rows == 0 || cols == 0,
        ;
    }
    assert forall|at: int| 0 <= at < rows * cols implies 0 <= #[trigger] (at / cols) < rows by {
        element_place(at, rows, cols);
    }
    assert(plan.leaves(machine, memory)[r.output.id] =~= expected);
}

/// A packed-bf16 RMS normalization is, bit for bit, the dispatched `f32`
/// normalization of the widened input narrowed once, and leaves its input as
/// it was.
pub proof fn bf16_rms_norm_is_narrowed(
    machine: Machine,
    conversions: Family,
    rms_norm: Family,
    stream: Stream,
    r: Rows,
    wide: Rows,
    epsilon: F32,
    gamma: F32,
    probes: FusedProbes,
    memory: Memory,
    other: Memory,
)
    requires
        norm_plan(
            NormKind::Rms,
            conversions,
            stream,
            r,
            rms_submission_plan(rms_norm, stream, wide_rows(stream, r), epsilon, gamma, probes),
        ).outcome is Ok,
        rms_dispatch_plan(rms_norm, stream, wide, epsilon, gamma, probes).outcome is Ok,
        wide.rows == r.rows,
        wide.cols == r.cols,
        r.input.id is Operand,
        r.output.id is Operand,
        r.input.id != r.output.id,
        wide.input.id is Operand,
        wide.output.id is Operand,
        holds(memory, r.input),
        holds(memory, r.output),
        holds(other, wide.input),
        holds(other, wide.output),
        other[wide.input.id] == widened(memory[r.input.id]),
    ensures
        ({
            let after = norm_plan(
                NormKind::Rms,
                conversions,
                stream,
                r,
                rms_submission_plan(
                    rms_norm,
                    stream,
                    wide_rows(stream, r),
                    epsilon,
                    gamma,
                    probes,
                ),
            ).leaves(machine, memory);
            &&& after[r.output.id] == narrowed(
                rms_dispatch_plan(rms_norm, stream, wide, epsilon, gamma, probes).leaves(
                    machine,
                    other,
                )[wide.output.id],
            )
            &&& after[r.input.id] == memory[r.input.id]
        }),
{
    let w = wide_rows(stream, r);
    let normalize = rms_submission_plan(rms_norm, stream, w, epsilon, gamma, probes);
    let middle = norm_before(machine, NormKind::Rms, conversions, stream, r, normalize, memory);
    rms_leaves(machine, rms_norm, stream, w, epsilon, gamma, probes, middle);
    norm_after(machine, NormKind::Rms, conversions, stream, r, normalize, memory, middle);
    let submitted = rms_submission_plan(rms_norm, stream, wide, epsilon, gamma, probes);
    assert(submitted.outcome is Ok);
    rms_leaves(machine, rms_norm, stream, wide, epsilon, gamma, probes, other);
}

/// A packed-bf16 layer normalization is, bit for bit, the layer normalization
/// of the widened input narrowed once, and leaves its input as it was.
pub proof fn bf16_layer_norm_is_narrowed(
    machine: Machine,
    conversions: Family,
    stream: Stream,
    r: Rows,
    epsilon: F32,
    gamma: F32,
    beta: F32,
    memory: Memory,
)
    requires
        norm_plan(
            NormKind::Layer,
            conversions,
            stream,
            r,
            layer_submission_plan(wide_rows(stream, r), epsilon, gamma, beta),
        ).outcome is Ok,
        r.input.id is Operand,
        r.output.id is Operand,
        r.input.id != r.output.id,
        holds(memory, r.input),
        holds(memory, r.output),
    ensures
        ({
            let after = norm_plan(
                NormKind::Layer,
                conversions,
                stream,
                r,
                layer_submission_plan(wide_rows(stream, r), epsilon, gamma, beta),
            ).leaves(machine, memory);
            let normalized = (machine.layer_normalize)(
                widened(memory[r.input.id]),
                r.rows,
                r.cols,
                epsilon,
                gamma,
                beta,
            );
            &&& after[r.output.id] == narrowed(
                Seq::new(r.output.len as nat, |at: int| normalized[at]),
            )
            &&& after[r.input.id] == memory[r.input.id]
        }),
{
    broadcast use crate::machine::group_execution;

    let w = wide_rows(stream, r);
    let normalize = layer_submission_plan(w, epsilon, gamma, beta);
    let middle = norm_before(machine, NormKind::Layer, conversions, stream, r, normalize, memory);
    let normalized = (machine.layer_normalize)(
        widened(memory[r.input.id]),
        r.rows,
        r.cols,
        epsilon,
        gamma,
        beta,
    );
    assert(normalize.leaves(machine, middle)[w.output.id] =~= Seq::new(
        r.output.len as nat,
        |at: int| normalized[at],
    ));
    norm_after(machine, NormKind::Layer, conversions, stream, r, normalize, memory, middle);
}

/// A packed-bf16 normalization leaves the normalization of every widened row,
/// narrowed once, in place or not, and touches no other operand.
pub proof fn packed_norms_leave(
    machine: Machine,
    conversions: Family,
    rms_norm: Family,
    stream: Stream,
    r: Rows,
    epsilon: F32,
    gamma: F32,
    beta: F32,
    probes: FusedProbes,
    memory: Memory,
)
    requires
        r.input.id is Operand,
        r.output.id is Operand,
        holds(memory, r.input),
        holds(memory, r.output),
    ensures
        ({
            let plan = norm_plan(
                NormKind::Rms,
                conversions,
                stream,
                r,
                rms_submission_plan(
                    rms_norm,
                    stream,
                    wide_rows(stream, r),
                    epsilon,
                    gamma,
                    probes,
                ),
            );
            plan.outcome is Ok ==> {
                &&& plan.leaves(machine, memory)[r.output.id] == narrowed(
                    rms_rows(
                        machine,
                        rms_norm.width,
                        widened(memory[r.input.id]),
                        r.cols,
                        epsilon,
                        gamma,
                    ),
                )
                &&& forall|other: BufferId|
                    other is Operand && other != r.output.id ==> #[trigger] plan.leaves(
                        machine,
                        memory,
                    )[other] == memory[other]
            }
        }),
        ({
            let plan = norm_plan(
                NormKind::Layer,
                conversions,
                stream,
                r,
                layer_submission_plan(wide_rows(stream, r), epsilon, gamma, beta),
            );
            let normalized = (machine.layer_normalize)(
                widened(memory[r.input.id]),
                r.rows,
                r.cols,
                epsilon,
                gamma,
                beta,
            );
            plan.outcome is Ok ==> {
                &&& plan.leaves(machine, memory)[r.output.id] == narrowed(
                    Seq::new(r.output.len as nat, |at: int| normalized[at]),
                )
                &&& forall|other: BufferId|
                    other is Operand && other != r.output.id ==> #[trigger] plan.leaves(
                        machine,
                        memory,
                    )[other] == memory[other]
            }
        }),
{
    broadcast use crate::machine::group_execution;

    let w = wide_rows(stream, r);
    let rms = rms_submission_plan(rms_norm, stream, w, epsilon, gamma, probes);
    if norm_plan(NormKind::Rms, conversions, stream, r, rms).outcome is Ok {
        let middle = norm_before(machine, NormKind::Rms, conversions, stream, r, rms, memory);
        rms_leaves(machine, rms_norm, stream, w, epsilon, gamma, probes, middle);
        narrow_leaves(machine, conversions, w.output, r.output, rms.leaves(machine, middle));
    }
    let layer = layer_submission_plan(w, epsilon, gamma, beta);
    if norm_plan(NormKind::Layer, conversions, stream, r, layer).outcome is Ok {
        let middle = norm_before(machine, NormKind::Layer, conversions, stream, r, layer, memory);
        let normalized = (machine.layer_normalize)(
            widened(memory[r.input.id]),
            r.rows,
            r.cols,
            epsilon,
            gamma,
            beta,
        );
        assert(layer.leaves(machine, middle)[w.output.id] =~= Seq::new(
            r.output.len as nat,
            |at: int| normalized[at],
        ));
        narrow_leaves(machine, conversions, w.output, r.output, layer.leaves(machine, middle));
    }
}

/// Memory when the widened input is normalized.
proof fn norm_before(
    machine: Machine,
    kind: NormKind,
    conversions: Family,
    stream: Stream,
    r: Rows,
    normalize: PlanView,
    memory: Memory,
) -> (middle: Memory)
    requires
        norm_plan(kind, conversions, stream, r, normalize).outcome is Ok,
        r.input.id is Operand,
        r.output.id is Operand,
        holds(memory, r.input),
        holds(memory, r.output),
    ensures
        middle[wide_rows(stream, r).input.id] == widened(memory[r.input.id]),
        holds(middle, wide_rows(stream, r).input),
        holds(middle, wide_rows(stream, r).output),
        middle[r.input.id] == memory[r.input.id],
        middle[r.output.id] == memory[r.output.id],
        forall|other: BufferId| other is Operand ==> #[trigger] middle[other] == memory[other],
        normalize.outcome is Ok,
        narrow_plan(conversions, wide_rows(stream, r).output, r.output).outcome is Ok,
        norm_plan(kind, conversions, stream, r, normalize).leaves(machine, memory) == narrow_plan(
            conversions,
            wide_rows(stream, r).output,
            r.output,
        ).leaves(machine, normalize.leaves(machine, middle)),
{
    broadcast use crate::machine::group_execution;

    let w = wide_rows(stream, r);
    let prepared = PlanView::checked(norm_check(kind, stream, r)).followed_by(
        PlanView::one(Action::Allocate { buffer: w.input, element: Element::F32 }),
    ).followed_by(PlanView::one(Action::Allocate { buffer: w.output, element: Element::F32 }));
    let start = prepared.leaves(machine, memory);
    widen_leaves(machine, conversions, r.input, w.input, start);
    widen_plan(conversions, r.input, w.input).leaves(machine, start)
}

/// Memory after the normalized rows are narrowed.
proof fn norm_after(
    machine: Machine,
    kind: NormKind,
    conversions: Family,
    stream: Stream,
    r: Rows,
    normalize: PlanView,
    memory: Memory,
    middle: Memory,
)
    requires
        narrow_plan(conversions, wide_rows(stream, r).output, r.output).outcome is Ok,
        norm_plan(kind, conversions, stream, r, normalize).leaves(machine, memory) == narrow_plan(
            conversions,
            wide_rows(stream, r).output,
            r.output,
        ).leaves(machine, normalize.leaves(machine, middle)),
        r.output.id is Operand,
        r.input.id != r.output.id,
        holds(normalize.leaves(machine, middle), wide_rows(stream, r).output),
        holds(normalize.leaves(machine, middle), r.output),
        normalize.leaves(machine, middle)[r.input.id] == memory[r.input.id],
    ensures
        norm_plan(kind, conversions, stream, r, normalize).leaves(machine, memory)[r.output.id]
            == narrowed(normalize.leaves(machine, middle)[wide_rows(stream, r).output.id]),
        norm_plan(kind, conversions, stream, r, normalize).leaves(machine, memory)[r.input.id]
            == memory[r.input.id],
{
    let w = wide_rows(stream, r);
    narrow_leaves(machine, conversions, w.output, r.output, normalize.leaves(machine, middle));
}

/// Two runs of a reduction agree: on the scratch and on the output, and on the
/// input, which the one has packed and the other widened.
spec fn reductions_agree(
    packed: Memory,
    input: BufferId,
    wide: Memory,
    wide_input: BufferId,
    output: BufferId,
    workspace: TreeWorkspace,
) -> bool {
    &&& wide[wide_input] == widened(packed[input])
    &&& wide[output] == packed[output]
    &&& wide[workspace.scratch_a.id] == packed[workspace.scratch_a.id]
    &&& wide[workspace.scratch_b.id] == packed[workspace.scratch_b.id]
}

/// The scratch and the output of a reduction have room for what passes write.
spec fn tree_room(memory: Memory, output: BufferId, workspace: TreeWorkspace, most: int) -> bool {
    &&& memory[output].len() >= 1
    &&& memory[workspace.scratch_a.id].len() >= most
    &&& memory[workspace.scratch_b.id].len() >= most
}

proof fn passes_agree(
    machine: Machine,
    op: ReductionOp,
    width: u32,
    input: BufferId,
    wide_input: BufferId,
    output: BufferId,
    workspace: TreeWorkspace,
    passes: Seq<TreePass>,
    most: int,
    packed: Memory,
    wide: Memory,
)
    requires
        reductions_agree(packed, input, wide, wide_input, output, workspace),
        tree_room(packed, output, workspace, most),
        tree_apart(input, output, workspace),
        tree_apart(wide_input, output, workspace),
        forall|i: int|
            0 <= i < passes.len() ==> (#[trigger] passes[i]).source != passes[i].destination
                && passes[i].destination != Place::Input && passes[i].output_elements <= most && (
            passes[i].destination == Place::Output ==> passes[i].output_elements <= 1),
        passes_plan(
            ReductionInput::Bf16,
            op,
            width,
            input,
            output,
            workspace,
            passes,
        ).outcome is Ok,
        passes_plan(
            ReductionInput::F32,
            op,
            width,
            wide_input,
            output,
            workspace,
            passes,
        ).outcome is Ok,
    ensures
        tree_room(
            passes_plan(
                ReductionInput::Bf16,
                op,
                width,
                input,
                output,
                workspace,
                passes,
            ).leaves(machine, packed),
            output,
            workspace,
            most,
        ),
        reductions_agree(
            passes_plan(
                ReductionInput::Bf16,
                op,
                width,
                input,
                output,
                workspace,
                passes,
            ).leaves(machine, packed),
            input,
            passes_plan(
                ReductionInput::F32,
                op,
                width,
                wide_input,
                output,
                workspace,
                passes,
            ).leaves(machine, wide),
            wide_input,
            output,
            workspace,
        ),
    decreases passes.len(),
{
    broadcast use crate::machine::group_execution;

    if passes.len() > 0 {
        let rest = passes.drop_last();
        let pass = passes.last();
        assert forall|i: int| 0 <= i < rest.len() implies (#[trigger] rest[i]).source
            != rest[i].destination && rest[i].destination != Place::Input
            && rest[i].output_elements <= most && (rest[i].destination == Place::Output
            ==> rest[i].output_elements <= 1) by {
            assert(rest[i] == passes[i]);
        }
        assert(pass == passes[passes.len() - 1]);
        passes_agree(
            machine,
            op,
            width,
            input,
            wide_input,
            output,
            workspace,
            rest,
            most,
            packed,
            wide,
        );
        let p = passes_plan(
            ReductionInput::Bf16,
            op,
            width,
            input,
            output,
            workspace,
            rest,
        ).leaves(machine, packed);
        let w = passes_plan(
            ReductionInput::F32,
            op,
            width,
            wide_input,
            output,
            workspace,
            rest,
        ).leaves(machine, wide);
        let one = pass_plan(ReductionInput::Bf16, op, width, input, output, workspace, pass);
        let two = pass_plan(ReductionInput::F32, op, width, wide_input, output, workspace, pass);
        let destination = place_buffer(pass.destination, input, output, workspace);
        assert(destination == place_buffer(pass.destination, wide_input, output, workspace));
        assert(one.leaves(machine, p)[destination] =~= two.leaves(machine, w)[destination]);
    }
}

/// A reduction of packed bf16 to a host scalar leaves, bit for bit, the scalar
/// that the `f32` reduction of the widened input leaves.
pub proof fn bf16_reduction_is_the_wide_one(
    machine: Machine,
    op: ReductionOp,
    family: Family,
    wide_family: Family,
    stream: Stream,
    input: DeviceBuffer,
    wide_input: DeviceBuffer,
    memory: Memory,
    other: Memory,
)
    requires
        family.width == wide_family.width,
        family.width > 0,
        scalar_plan(ReductionInput::Bf16, op, family, stream, input).outcome is Ok,
        scalar_plan(ReductionInput::F32, op, wide_family, stream, wide_input).outcome is Ok,
        wide_input.len == input.len,
        input.id is Operand,
        wide_input.id is Operand,
        other[wide_input.id] == widened(memory[input.id]),
    ensures
        scalar_plan(ReductionInput::Bf16, op, family, stream, input).leaves(
            machine,
            memory,
        )[scalar_output(input.context).id] == scalar_plan(
            ReductionInput::F32,
            op,
            wide_family,
            stream,
            wide_input,
        ).leaves(machine, other)[scalar_output(input.context).id],
{
    broadcast use crate::machine::group_execution;

    let workspace = own_workspace(family, input);
    let output = scalar_output(input.context);
    assert(workspace == own_workspace(wide_family, wide_input));
    assert(output == scalar_output(wide_input.context));
    let prepared = workspace_allocation(workspace).followed_by(
        PlanView::one(Action::Allocate { buffer: output, element: Element::F32 }),
    );
    let packed = prepared.leaves(machine, memory);
    let wide = prepared.leaves(machine, other);
    let one = reduction_plan(
        ReductionInput::Bf16,
        op,
        family,
        stream,
        input,
        output,
        workspace,
    );
    let two = reduction_plan(
        ReductionInput::F32,
        op,
        wide_family,
        stream,
        wide_input,
        output,
        workspace,
    );
    assert(scalar_plan(ReductionInput::Bf16, op, family, stream, input).leaves(machine, memory)
        == one.leaves(machine, packed));
    assert(scalar_plan(ReductionInput::F32, op, wide_family, stream, wide_input).leaves(
        machine,
        other,
    ) == two.leaves(machine, wide));
    assert(reductions_agree(packed, input.id, wide, wide_input.id, output.id, workspace));
    if input.len > 0 {
        schedule_reduces_to_one(input.len, family.width);
        ceil_div_covers(input.len as int, 2 * family.width as int);
        passes_agree(
            machine,
            op,
            family.width,
            input.id,
            wide_input.id,
            output.id,
            workspace,
            schedule(input.len, family.width),
            workspace.scratch_a.len as int,
            packed,
            wide,
        );
    }
}

} // verus!
