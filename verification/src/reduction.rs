//! Multi-pass reductions: the rules that the `f32` and packed-bf16 trees have
//! in common, and the `f32` family.

use crate::arith::{ceil_div_covers, power_of_two, to_u32};
use crate::device::{BufferId, ContextId, DeviceBuffer, Element, Probe, Scratch, Stream, F32};
use crate::error::{Checked, KernelError};
use crate::family::{
    both, block_check, bytes_check, check_block, check_limits, limits_check, loads, shared_bytes,
    Family,
};
use crate::launch::{line, line_shape, Arguments, Kernel, Launch};
use crate::plan::{bare, Action, Plan, PlanView};
use crate::tree::{
    partial_count, partials, schedule, schedule_fits_the_scratch, schedule_reduces_to_one,
    tree_passes, Place, TreePass,
};
use vstd::prelude::*;

verus! {

/// The block width of [`F32Reduction::load`].
pub const DEFAULT_BLOCK_SIZE: u32 = 256;

/// What a reduction combines elements with.
#[derive(Clone, Copy, Debug, PartialEq, Eq, Structural)]
pub enum ReductionOp {
    Sum,
    Max,
}

/// What a reduction reads.
#[derive(Clone, Copy, Debug, PartialEq, Eq, Structural)]
pub enum ReductionInput {
    F32,
    /// Packed bf16, widened by the first pass.
    Bf16,
}

/// The scratch of a tree reduction over at most `max_elements`.
#[derive(Clone, Copy, Debug, PartialEq, Eq, Structural)]
pub struct TreeWorkspace {
    pub max_elements: usize,
    pub block_size: u32,
    pub scratch_a: DeviceBuffer,
    pub scratch_b: DeviceBuffer,
}

impl TreeWorkspace {
    /// Both scratch buffers hold the partials of the first pass over
    /// `max_elements`, and live in one context.
    pub open spec fn sized(self) -> bool {
        &&& self.block_size > 0
        &&& self.scratch_a.len == partials(self.max_elements as int, self.block_size as int)
        &&& self.scratch_b.len == partials(self.max_elements as int, self.block_size as int)
        &&& self.scratch_a.context == self.scratch_b.context
    }
}

/// Where an operation that yields one number leaves it.
#[derive(Clone, Copy, Debug, PartialEq, Eq, Structural)]
pub enum Scalar {
    /// Known without any device work.
    Constant(F32),
    /// The only element of this allocation, once the plan has been carried
    /// out.
    ElementOf(BufferId),
}

/// A plan that yields one number.
#[derive(Debug)]
pub struct ScalarPlan {
    pub plan: Plan,
    pub scalar: Scalar,
}

impl ReductionInput {
    /// The name of the reduction in its refusals.
    pub open spec fn family(self) -> &'static str {
        match self {
            ReductionInput::F32 => "reduction",
            ReductionInput::Bf16 => "bf16 reduction",
        }
    }

    /// The name under which a grid that is too large is refused.
    pub open spec fn grid_family(self) -> &'static str {
        match self {
            ReductionInput::F32 => "reduction",
            ReductionInput::Bf16 => "bf16",
        }
    }

    fn get_family(self) -> (family: &'static str)
        ensures
            family == self.family(),
    {
        match self {
            ReductionInput::F32 => "reduction",
            ReductionInput::Bf16 => "bf16 reduction",
        }
    }

    fn get_grid_family(self) -> (family: &'static str)
        ensures
            family == self.grid_family(),
    {
        match self {
            ReductionInput::F32 => "reduction",
            ReductionInput::Bf16 => "bf16",
        }
    }
}

/// A block width that a reduction may be loaded with.
pub open spec fn reduction_ready(width: u32) -> bool {
    &&& power_of_two(width as nat)
    &&& width * 4 <= u32::MAX
}

/// Only the pass that reads a bf16 input widens.
pub open spec fn pass_kernel(input: ReductionInput, op: ReductionOp, source: Place) -> Kernel {
    match (input, op) {
        (ReductionInput::Bf16, ReductionOp::Sum) if source == Place::Input => Kernel::Bf16ReduceSum,
        (ReductionInput::Bf16, ReductionOp::Max) if source == Place::Input => Kernel::Bf16ReduceMax,
        (_, ReductionOp::Sum) => Kernel::ReduceSum,
        (_, ReductionOp::Max) => Kernel::ReduceMax,
    }
}

/// The allocation at a place of the schedule.
pub open spec fn place_buffer(
    place: Place,
    input: BufferId,
    output: BufferId,
    workspace: TreeWorkspace,
) -> BufferId {
    match place {
        Place::Input => input,
        Place::ScratchA => workspace.scratch_a.id,
        Place::ScratchB => workspace.scratch_b.id,
        Place::Output => output,
    }
}

/// The launch of one pass: one block per partial.
pub open spec fn pass_launch(
    kind: ReductionInput,
    op: ReductionOp,
    width: u32,
    input: BufferId,
    output: BufferId,
    workspace: TreeWorkspace,
    pass: TreePass,
) -> Launch {
    Launch {
        kernel: pass_kernel(kind, op, pass.source),
        shape: line(pass.output_elements as u32, width, (width * 4) as u32),
        arguments: Arguments::Unary {
            input: place_buffer(pass.source, input, output, workspace),
            output: place_buffer(pass.destination, input, output, workspace),
            count: pass.elements as u64,
        },
    }
}

/// The grid must be able to express one block per partial.
pub open spec fn grid_check(kind: ReductionInput, blocks: int) -> Checked {
    if blocks > u32::MAX {
        Err(KernelError::Rule { family: kind.grid_family(), rule: "grid exceeds u32::MAX blocks" })
    } else {
        Ok(())
    }
}

/// One pass.
pub open spec fn pass_plan(
    kind: ReductionInput,
    op: ReductionOp,
    width: u32,
    input: BufferId,
    output: BufferId,
    workspace: TreeWorkspace,
    pass: TreePass,
) -> PlanView {
    PlanView::checked(grid_check(kind, pass.output_elements as int)).followed_by(
        PlanView::one(
            Action::Launch(pass_launch(kind, op, width, input, output, workspace, pass)),
        ),
    )
}

/// The passes in order.
pub open spec fn passes_plan(
    kind: ReductionInput,
    op: ReductionOp,
    width: u32,
    input: BufferId,
    output: BufferId,
    workspace: TreeWorkspace,
    passes: Seq<TreePass>,
) -> PlanView
    decreases passes.len(),
{
    if passes.len() == 0 {
        PlanView::done()
    } else {
        passes_plan(kind, op, width, input, output, workspace, passes.drop_last()).followed_by(
            pass_plan(kind, op, width, input, output, workspace, passes.last()),
        )
    }
}

/// The first rule that the operands of a reduction break.
pub open spec fn reduction_check(
    kind: ReductionInput,
    family: Family,
    stream: Stream,
    input: DeviceBuffer,
    output: DeviceBuffer,
    workspace: TreeWorkspace,
) -> Checked {
    let name = kind.family();
    if output.len != 1 {
        Err(
            KernelError::Expected {
                family: name,
                operand: "output has",
                actual: output.len,
                expected: 1,
            },
        )
    } else if input.len > workspace.max_elements {
        Err(
            KernelError::WorkspaceCapacity {
                family: name,
                operand: "input has",
                actual: input.len,
                unit: "elements",
                capacity: workspace.max_elements,
            },
        )
    } else if workspace.block_size != family.width {
        Err(
            KernelError::WorkspaceBlockSize {
                workspace: workspace.block_size,
                family: "reduction",
                block_size: family.width,
            },
        )
    } else if stream.context != family.context || input.context != family.context
        || output.context != family.context || workspace.scratch_a.context != family.context {
        Err(
            KernelError::Rule {
                family: name,
                rule: "stream, buffers, workspace, and kernel must share one context",
            },
        )
    } else {
        Ok(())
    }
}

/// What a reduction does: the tree where there is anything to reduce. The sum
/// of nothing is zero; the maximum of nothing leaves the output untouched.
pub open spec fn reduction_plan(
    kind: ReductionInput,
    op: ReductionOp,
    family: Family,
    stream: Stream,
    input: DeviceBuffer,
    output: DeviceBuffer,
    workspace: TreeWorkspace,
) -> PlanView {
    PlanView::checked(
        reduction_check(kind, family, stream, input, output, workspace),
    ).followed_by(
        if input.len == 0 {
            match op {
                ReductionOp::Sum => PlanView::one(Action::Zero(output.id)),
                ReductionOp::Max => PlanView::done(),
            }
        } else {
            passes_plan(
                kind,
                op,
                family.width,
                input.id,
                output.id,
                workspace,
                schedule(input.len, family.width),
            )
        },
    )
}

/// The contexts that a workspace is made for must be the family's.
pub open spec fn workspace_check(
    kind: ReductionInput,
    family: Family,
    context: ContextId,
) -> Checked {
    if context != family.context {
        Err(
            KernelError::Rule {
                family: kind.family(),
                rule: "and workspace contexts do not match",
            },
        )
    } else {
        Ok(())
    }
}

/// The workspace for inputs of at most `max_elements`.
pub open spec fn workspace_for(
    family: Family,
    context: ContextId,
    max_elements: usize,
    scratch_a: BufferId,
    scratch_b: BufferId,
) -> TreeWorkspace {
    let len = partials(max_elements as int, family.width as int) as usize;
    TreeWorkspace {
        max_elements,
        block_size: family.width,
        scratch_a: DeviceBuffer { id: scratch_a, len, context },
        scratch_b: DeviceBuffer { id: scratch_b, len, context },
    }
}

/// The allocations of a workspace.
pub open spec fn workspace_allocation(workspace: TreeWorkspace) -> PlanView {
    PlanView::one(
        Action::Allocate { buffer: workspace.scratch_a, element: Element::F32 },
    ).followed_by(
        PlanView::one(Action::Allocate { buffer: workspace.scratch_b, element: Element::F32 }),
    )
}

/// The one-element allocation that receives a scalar result.
pub open spec fn scalar_output(context: ContextId) -> DeviceBuffer {
    DeviceBuffer { id: BufferId::Scratch(Scratch::ReductionOutput), len: 1, context }
}

/// The workspace that a reduction to a scalar makes for itself.
pub open spec fn own_workspace(family: Family, input: DeviceBuffer) -> TreeWorkspace {
    workspace_for(
        family,
        input.context,
        input.len,
        BufferId::Scratch(Scratch::ReductionA),
        BufferId::Scratch(Scratch::ReductionB),
    )
}

/// A reduction to a scalar with scratch of its own.
pub open spec fn scalar_plan(
    kind: ReductionInput,
    op: ReductionOp,
    family: Family,
    stream: Stream,
    input: DeviceBuffer,
) -> PlanView {
    PlanView::checked(workspace_check(kind, family, input.context)).followed_by(
        workspace_allocation(own_workspace(family, input)),
    ).followed_by(
        PlanView::one(
            Action::Allocate { buffer: scalar_output(input.context), element: Element::F32 },
        ),
    ).followed_by(
        reduction_plan(
            kind,
            op,
            family,
            stream,
            input,
            scalar_output(input.context),
            own_workspace(family, input),
        ).synchronized(),
    )
}

fn get_pass_kernel(kind: ReductionInput, op: ReductionOp, source: Place) -> (kernel: Kernel)
    ensures
        kernel == pass_kernel(kind, op, source),
{
    let widens = kind == ReductionInput::Bf16 && source == Place::Input;
    match op {
        ReductionOp::Sum => if widens {
            Kernel::Bf16ReduceSum
        } else {
            Kernel::ReduceSum
        },
        ReductionOp::Max => if widens {
            Kernel::Bf16ReduceMax
        } else {
            Kernel::ReduceMax
        },
    }
}

fn get_place_buffer(
    place: Place,
    input: BufferId,
    output: BufferId,
    workspace: &TreeWorkspace,
) -> (buffer: BufferId)
    ensures
        buffer == place_buffer(place, input, output, *workspace),
{
    match place {
        Place::Input => input,
        Place::ScratchA => workspace.scratch_a.id,
        Place::ScratchB => workspace.scratch_b.id,
        Place::Output => output,
    }
}

/// Plans one pass.
pub fn plan_pass(
    kind: ReductionInput,
    op: ReductionOp,
    width: u32,
    input: BufferId,
    output: BufferId,
    workspace: &TreeWorkspace,
    pass: TreePass,
) -> (plan: Plan)
    requires
        reduction_ready(width),
    ensures
        plan@ == pass_plan(kind, op, width, input, output, *workspace, pass),
{
    let grid: u32 = match to_u32(pass.output_elements) {
        Some(blocks) => blocks,
        None => {
            return Plan::rejected(
                KernelError::Rule {
                    family: kind.get_grid_family(),
                    rule: "grid exceeds u32::MAX blocks",
                },
            );
        },
    };
    Plan::launch(
        get_pass_kernel(kind, op, pass.source),
        line_shape(grid, width, width * 4),
        Arguments::Unary {
            input: get_place_buffer(pass.source, input, output, workspace),
            output: get_place_buffer(pass.destination, input, output, workspace),
            count: pass.elements as u64,
        },
    )
}

/// Checks the operands of a reduction.
pub fn check_reduction(
    kind: ReductionInput,
    family: Family,
    stream: &Stream,
    input: &DeviceBuffer,
    output: &DeviceBuffer,
    workspace: &TreeWorkspace,
) -> (check: Checked)
    ensures
        check == reduction_check(kind, family, *stream, *input, *output, *workspace),
{
    let name = kind.get_family();
    if output.len != 1 {
        return Err(
            KernelError::Expected {
                family: name,
                operand: "output has",
                actual: output.len,
                expected: 1,
            },
        );
    }
    if input.len > workspace.max_elements {
        return Err(
            KernelError::WorkspaceCapacity {
                family: name,
                operand: "input has",
                actual: input.len,
                unit: "elements",
                capacity: workspace.max_elements,
            },
        );
    }
    if workspace.block_size != family.width {
        return Err(
            KernelError::WorkspaceBlockSize {
                workspace: workspace.block_size,
                family: "reduction",
                block_size: family.width,
            },
        );
    }
    if stream.context != family.context || input.context != family.context || output.context
        != family.context || workspace.scratch_a.context != family.context {
        return Err(
            KernelError::Rule {
                family: name,
                rule: "stream, buffers, workspace, and kernel must share one context",
            },
        );
    }
    Ok(())
}

/// Plans every pass of a reduction.
pub fn plan_reduction(
    kind: ReductionInput,
    op: ReductionOp,
    family: Family,
    stream: &Stream,
    input: &DeviceBuffer,
    output: &DeviceBuffer,
    workspace: &TreeWorkspace,
) -> (plan: Plan)
    requires
        reduction_ready(family.width),
    ensures
        plan@ == reduction_plan(kind, op, family, *stream, *input, *output, *workspace),
{
    let check = check_reduction(kind, family, stream, input, output, workspace);
    let work = if input.len == 0 {
        match op {
            ReductionOp::Sum => Plan::one(Action::Zero(output.id)),
            ReductionOp::Max => Plan::done(),
        }
    } else {
        let passes = tree_passes(input.len, family.width);
        let mut plan = Plan::done();
        let count: usize = passes.len();
        for i in 0..count
            invariant
                count == passes@.len(),
                reduction_ready(family.width),
                plan@ == passes_plan(
                    kind,
                    op,
                    family.width,
                    input.id,
                    output.id,
                    *workspace,
                    passes@.take(i as int),
                ),
        {
            let pass = plan_pass(
                kind,
                op,
                family.width,
                input.id,
                output.id,
                workspace,
                passes[i],
            );
            plan = plan.followed_by(pass);
            assert(passes@.take(i + 1).drop_last() =~= passes@.take(i as int));
            assert(passes@.take(i + 1).last() == passes@[i as int]);
        }
        assert(passes@.take(count as int) =~= passes@);
        plan
    };
    Plan::checked(check).followed_by(work)
}

/// Describes the workspace for inputs of at most `max_elements`, to be
/// allocated under the given identities.
pub fn describe_workspace(
    kind: ReductionInput,
    family: Family,
    context: ContextId,
    max_elements: usize,
    scratch_a: BufferId,
    scratch_b: BufferId,
) -> (workspace: Result<TreeWorkspace, KernelError>)
    requires
        reduction_ready(family.width),
    ensures
        match workspace {
            Ok(workspace) => workspace_check(kind, family, context) is Ok && workspace
                == workspace_for(family, context, max_elements, scratch_a, scratch_b)
                && workspace.sized(),
            Err(error) => workspace_check(kind, family, context) == Checked::Err(error),
        },
{
    if context != family.context {
        return Err(
            KernelError::Rule {
                family: kind.get_family(),
                rule: "and workspace contexts do not match",
            },
        );
    }
    let len: usize = partial_count(max_elements, family.width)?;
    proof {
        ceil_div_covers(max_elements as int, 2 * family.width as int);
    }
    Ok(
        TreeWorkspace {
            max_elements,
            block_size: family.width,
            scratch_a: DeviceBuffer { id: scratch_a, len, context },
            scratch_b: DeviceBuffer { id: scratch_b, len, context },
        },
    )
}

/// Plans the allocations of a workspace.
pub fn plan_workspace(workspace: &TreeWorkspace) -> (plan: Plan)
    ensures
        plan@ == workspace_allocation(*workspace),
{
    Plan::one(
        Action::Allocate { buffer: workspace.scratch_a, element: Element::F32 },
    ).followed_by(
        Plan::one(Action::Allocate { buffer: workspace.scratch_b, element: Element::F32 }),
    )
}

/// Plans a reduction to a scalar with scratch of its own.
pub fn plan_scalar(
    kind: ReductionInput,
    op: ReductionOp,
    family: Family,
    stream: &Stream,
    input: &DeviceBuffer,
) -> (result: ScalarPlan)
    requires
        reduction_ready(family.width),
    ensures
        result.plan@ == scalar_plan(kind, op, family, *stream, *input),
        result.scalar == Scalar::ElementOf(BufferId::Scratch(Scratch::ReductionOutput)),
{
    let scalar = Scalar::ElementOf(BufferId::Scratch(Scratch::ReductionOutput));
    match describe_workspace(
        kind,
        family,
        input.context,
        input.len,
        BufferId::Scratch(Scratch::ReductionA),
        BufferId::Scratch(Scratch::ReductionB),
    ) {
        Err(error) => ScalarPlan { plan: Plan::rejected(error), scalar },
        Ok(workspace) => {
            let output = DeviceBuffer {
                id: BufferId::Scratch(Scratch::ReductionOutput),
                len: 1,
                context: input.context,
            };
            let plan = plan_workspace(&workspace).followed_by(
                Plan::one(Action::Allocate { buffer: output, element: Element::F32 }),
            ).followed_by(
                plan_reduction(
                    kind,
                    op,
                    family,
                    stream,
                    input,
                    &output,
                    &workspace,
                ).synchronized(),
            );
            ScalarPlan { plan, scalar }
        },
    }
}

/// Reusable scratch storage for an [`F32Reduction`].
///
/// A workspace is context- and block-size-specific. It may be reused for any
/// input no larger than `max_elements`, but not by overlapping asynchronous
/// operations.
#[derive(Debug)]
pub struct F32ReductionWorkspace {
    workspace: TreeWorkspace,
}

impl View for F32ReductionWorkspace {
    type V = TreeWorkspace;

    closed spec fn view(&self) -> TreeWorkspace {
        self.workspace
    }
}

impl F32ReductionWorkspace {
    #[verifier::type_invariant]
    spec fn sized(self) -> bool {
        self.workspace.sized()
    }

    /// The largest input the workspace serves.
    pub fn max_elements(&self) -> (elements: usize)
        ensures
            elements == self@.max_elements,
    {
        self.workspace.max_elements
    }

    /// The length of either scratch buffer.
    pub fn scratch_capacity(&self) -> (elements: usize)
        ensures
            elements == self@.scratch_a.len,
            elements == self@.scratch_b.len,
            elements == partials(self@.max_elements as int, self@.block_size as int),
    {
        proof {
            use_type_invariant(self);
        }
        self.workspace.scratch_a.len
    }

    /// Plans the allocation of the scratch buffers.
    pub fn allocation(&self) -> (plan: Plan)
        ensures
            plan@ == workspace_allocation(self@),
    {
        plan_workspace(&self.workspace)
    }

    /// The two scratch buffers.
    pub fn scratch(&self) -> (buffers: (DeviceBuffer, DeviceBuffer))
        ensures
            buffers == (self@.scratch_a, self@.scratch_b),
    {
        (self.workspace.scratch_a, self.workspace.scratch_b)
    }
}

/// Context-bound, multi-pass `f32` reductions.
#[derive(Debug)]
pub struct F32Reduction {
    family: Family,
}

impl View for F32Reduction {
    type V = Family;

    closed spec fn view(&self) -> Family {
        self.family
    }
}

/// The checks on a block width that need no device.
pub open spec fn reduction_width_check(width: u32) -> Checked {
    both(
        block_check("reduction", width),
        bytes_check("reduction shared-memory size overflows", width, 4),
    )
}

/// All checks of loading, in the order in which they decide.
pub open spec fn reduction_load_check(width: u32, sum: Probe) -> Checked {
    both(reduction_width_check(width), limits_check("reduction", width, (width * 4) as u32, sum))
}

impl F32Reduction {
    #[verifier::type_invariant]
    pub(crate) closed spec fn ready(self) -> bool {
        reduction_ready(self.family.width)
    }

    /// Checks a block width before anything is compiled.
    pub fn check_block_size(block_size: u32) -> (check: Checked)
        ensures
            check == reduction_width_check(block_size),
    {
        check_block("reduction", block_size)?;
        shared_bytes("reduction shared-memory size overflows", block_size, 4)?;
        Ok(())
    }

    /// Accepts the compiled functions with the default block width.
    pub fn load(context: ContextId, sum: Probe) -> (result: Result<F32Reduction, KernelError>)
        ensures
            loads(
                result,
                reduction_load_check(DEFAULT_BLOCK_SIZE, sum),
                Family { context, width: DEFAULT_BLOCK_SIZE },
            ),
    {
        Self::load_with_block_size(context, DEFAULT_BLOCK_SIZE, sum)
    }

    /// Accepts the compiled functions with an explicit power-of-two width.
    pub fn load_with_block_size(
        context: ContextId,
        block_size: u32,
        sum: Probe,
    ) -> (result: Result<F32Reduction, KernelError>)
        ensures
            loads(
                result,
                reduction_load_check(block_size, sum),
                Family { context, width: block_size },
            ),
    {
        check_block("reduction", block_size)?;
        let bytes: u32 = shared_bytes("reduction shared-memory size overflows", block_size, 4)?;
        check_limits("reduction", block_size, bytes, sum)?;
        Ok(F32Reduction { family: Family { context, width: block_size } })
    }

    /// Thread-block width of every pass.
    pub fn block_size(&self) -> (width: u32)
        ensures
            width == self@.width,
            power_of_two(width as nat),
    {
        proof {
            use_type_invariant(self);
        }
        self.family.width
    }

    /// The context the functions belong to.
    pub fn context(&self) -> (context: ContextId)
        ensures
            context == self@.context,
    {
        self.family.context
    }

    /// Describes scratch storage reusable for inputs up to `max_elements`, to
    /// be allocated under the given identities.
    pub fn workspace(
        &self,
        context: ContextId,
        max_elements: usize,
        scratch_a: BufferId,
        scratch_b: BufferId,
    ) -> (workspace: Result<F32ReductionWorkspace, KernelError>)
        ensures
            match workspace {
                Ok(workspace) => workspace_check(ReductionInput::F32, self@, context) is Ok
                    && workspace@ == workspace_for(
                    self@,
                    context,
                    max_elements,
                    scratch_a,
                    scratch_b,
                ),
                Err(error) => workspace_check(ReductionInput::F32, self@, context) == Checked::Err(
                    error,
                ),
            },
    {
        proof {
            use_type_invariant(self);
        }
        let workspace = describe_workspace(
            ReductionInput::F32,
            self.family,
            context,
            max_elements,
            scratch_a,
            scratch_b,
        )?;
        Ok(F32ReductionWorkspace { workspace })
    }

    /// Plans the sum of an input as a host scalar.
    pub fn sum(&self, stream: &Stream, input: &DeviceBuffer) -> (result: ScalarPlan)
        ensures
            result.plan@ == scalar_plan(
                ReductionInput::F32,
                ReductionOp::Sum,
                self@,
                *stream,
                *input,
            ),
            result.scalar == Scalar::ElementOf(BufferId::Scratch(Scratch::ReductionOutput)),
    {
        proof {
            use_type_invariant(self);
        }
        plan_scalar(ReductionInput::F32, ReductionOp::Sum, self.family, stream, input)
    }

    /// Plans the sum into a one-element buffer with a wait for completion.
    pub fn sum_into(
        &self,
        stream: &Stream,
        input: &DeviceBuffer,
        output: &DeviceBuffer,
        workspace: &F32ReductionWorkspace,
    ) -> (plan: Plan)
        ensures
            plan@ == reduction_plan(
                ReductionInput::F32,
                ReductionOp::Sum,
                self@,
                *stream,
                *input,
                *output,
                workspace@,
            ).synchronized(),
    {
        self.enqueue_sum(stream, input, output, workspace).synchronized()
    }

    /// Plans every pass of the sum without a wait. For an empty input the
    /// output is zeroed.
    pub fn enqueue_sum(
        &self,
        stream: &Stream,
        input: &DeviceBuffer,
        output: &DeviceBuffer,
        workspace: &F32ReductionWorkspace,
    ) -> (plan: Plan)
        ensures
            plan@ == reduction_plan(
                ReductionInput::F32,
                ReductionOp::Sum,
                self@,
                *stream,
                *input,
                *output,
                workspace@,
            ),
    {
        proof {
            use_type_invariant(self);
        }
        plan_reduction(
            ReductionInput::F32,
            ReductionOp::Sum,
            self.family,
            stream,
            input,
            output,
            &workspace.workspace,
        )
    }

    /// Plans every pass of the maximum without a wait. For an empty input
    /// nothing is planned.
    pub fn enqueue_max(
        &self,
        stream: &Stream,
        input: &DeviceBuffer,
        output: &DeviceBuffer,
        workspace: &F32ReductionWorkspace,
    ) -> (plan: Plan)
        ensures
            plan@ == reduction_plan(
                ReductionInput::F32,
                ReductionOp::Max,
                self@,
                *stream,
                *input,
                *output,
                workspace@,
            ),
    {
        proof {
            use_type_invariant(self);
        }
        plan_reduction(
            ReductionInput::F32,
            ReductionOp::Max,
            self.family,
            stream,
            input,
            output,
            &workspace.workspace,
        )
    }
}

/// How a reduction ends: with the first rule that its operands break, then
/// with the limit on its first and largest grid.
pub open spec fn reduction_outcome(
    kind: ReductionInput,
    family: Family,
    stream: Stream,
    input: DeviceBuffer,
    output: DeviceBuffer,
    workspace: TreeWorkspace,
) -> Checked {
    both(
        reduction_check(kind, family, stream, input, output, workspace),
        grid_check(kind, partials(input.len as int, family.width as int)),
    )
}

proof fn passes_run(
    kind: ReductionInput,
    op: ReductionOp,
    width: u32,
    input: BufferId,
    output: BufferId,
    workspace: TreeWorkspace,
    passes: Seq<TreePass>,
)
    requires
        forall|i: int|
            0 <= i < passes.len() ==> (#[trigger] passes[i]).output_elements <= u32::MAX,
    ensures
        passes_plan(kind, op, width, input, output, workspace, passes).outcome == Checked::Ok(()),
        passes_plan(kind, op, width, input, output, workspace, passes).steps.len() == passes.len(),
        forall|i: int|
            0 <= i < passes.len() ==> #[trigger] passes_plan(
                kind,
                op,
                width,
                input,
                output,
                workspace,
                passes,
            ).steps[i] == bare(
                Action::Launch(pass_launch(kind, op, width, input, output, workspace, passes[i])),
            ),
    decreases passes.len(),
{
    if passes.len() > 0 {
        passes_run(kind, op, width, input, output, workspace, passes.drop_last());
    }
}

proof fn passes_refused(
    kind: ReductionInput,
    op: ReductionOp,
    width: u32,
    input: BufferId,
    output: BufferId,
    workspace: TreeWorkspace,
    passes: Seq<TreePass>,
)
    requires
        passes.len() > 0,
        passes[0].output_elements > u32::MAX,
    ensures
        passes_plan(kind, op, width, input, output, workspace, passes).steps.len() == 0,
        passes_plan(kind, op, width, input, output, workspace, passes).outcome == grid_check(
            kind,
            passes[0].output_elements as int,
        ),
    decreases passes.len(),
{
    if passes.len() > 1 {
        passes_refused(kind, op, width, input, output, workspace, passes.drop_last());
    } else {
        reveal_with_fuel(passes_plan, 2);
        assert(passes.last() == passes[0]);
    }
}

/// A reduction submits nothing where it is refused. Where it is not, it ends
/// well and launches exactly the passes of the schedule, in order.
pub proof fn reduction_runs_or_submits_nothing(
    kind: ReductionInput,
    op: ReductionOp,
    family: Family,
    stream: Stream,
    input: DeviceBuffer,
    output: DeviceBuffer,
    workspace: TreeWorkspace,
)
    requires
        family.width > 0,
    ensures
        reduction_plan(kind, op, family, stream, input, output, workspace).outcome
            == reduction_outcome(kind, family, stream, input, output, workspace),
        reduction_outcome(kind, family, stream, input, output, workspace) is Err ==> reduction_plan(
            kind,
            op,
            family,
            stream,
            input,
            output,
            workspace,
        ).steps.len() == 0,
        reduction_outcome(kind, family, stream, input, output, workspace) is Ok && input.len > 0
            ==> {
            let passes = schedule(input.len, family.width);
            let steps = reduction_plan(
                kind,
                op,
                family,
                stream,
                input,
                output,
                workspace,
            ).steps;
            &&& steps.len() == passes.len()
            &&& forall|i: int|
                0 <= i < passes.len() ==> #[trigger] steps[i] == bare(
                    Action::Launch(
                        pass_launch(
                            kind,
                            op,
                            family.width,
                            input.id,
                            output.id,
                            workspace,
                            passes[i],
                        ),
                    ),
                )
        },
{
    if input.len > 0 {
        let passes = schedule(input.len, family.width);
        schedule_reduces_to_one(input.len, family.width);
        if passes[0].output_elements > u32::MAX {
            passes_refused(kind, op, family.width, input.id, output.id, workspace, passes);
        } else {
            passes_run(kind, op, family.width, input.id, output.id, workspace, passes);
        }
    }
    if let Ok(unit) = reduction_check(kind, family, stream, input, output, workspace) {
        assert(unit == ());
    }
}

/// Reducing packed bf16 takes the same passes as reducing the widened `f32`
/// copy: the grids are the same, the first pass differs only in what it reads
/// and in widening it, and every later pass is the same launch.
pub proof fn bf16_tree_is_the_f32_tree(
    op: ReductionOp,
    family: Family,
    stream: Stream,
    packed: DeviceBuffer,
    widened: DeviceBuffer,
    output: DeviceBuffer,
    workspace: TreeWorkspace,
)
    requires
        family.width > 0,
        packed.len == widened.len,
        packed.context == widened.context,
    ensures
        ({
            let narrow = reduction_plan(
                ReductionInput::Bf16,
                op,
                family,
                stream,
                packed,
                output,
                workspace,
            );
            let wide = reduction_plan(
                ReductionInput::F32,
                op,
                family,
                stream,
                widened,
                output,
                workspace,
            );
            &&& narrow.outcome is Ok <==> wide.outcome is Ok
            &&& narrow.steps.len() == wide.steps.len()
            &&& forall|i: int|
                0 < i < wide.steps.len() ==> #[trigger] narrow.steps[i] == wide.steps[i]
            &&& narrow.outcome is Ok && packed.len > 0 ==> {
                &&& narrow.steps[0].action->Launch_0.shape == wide.steps[0].action->Launch_0.shape
                &&& narrow.steps[0].action->Launch_0.arguments->Unary_output
                    == wide.steps[0].action->Launch_0.arguments->Unary_output
                &&& narrow.steps[0].action->Launch_0.arguments->Unary_count
                    == wide.steps[0].action->Launch_0.arguments->Unary_count
            }
        }),
{
    reduction_runs_or_submits_nothing(
        ReductionInput::Bf16,
        op,
        family,
        stream,
        packed,
        output,
        workspace,
    );
    reduction_runs_or_submits_nothing(
        ReductionInput::F32,
        op,
        family,
        stream,
        widened,
        output,
        workspace,
    );
    if packed.len > 0 {
        let passes = schedule(packed.len, family.width);
        schedule_reduces_to_one(packed.len, family.width);
        assert forall|i: int| 0 < i < passes.len() implies (#[trigger] passes[i]).source
            != Place::Input by {
            let before = passes[i - 1];
            assert(crate::tree::hands_over(before, passes[i]));
            assert(crate::tree::pass_ok(before, family.width));
        }
    }
}

/// A workspace may be reused for any smaller input: what it accepts at its
/// capacity it accepts below it, and the partials of every pass fit.
pub proof fn workspace_serves_smaller_inputs(
    kind: ReductionInput,
    family: Family,
    stream: Stream,
    input: DeviceBuffer,
    smaller: DeviceBuffer,
    output: DeviceBuffer,
    workspace: TreeWorkspace,
    pass: int,
)
    requires
        workspace.sized(),
        reduction_check(kind, family, stream, input, output, workspace) is Ok,
        smaller.len <= input.len,
        smaller.context == input.context,
        0 <= pass < schedule(smaller.len, family.width).len(),
    ensures
        reduction_check(kind, family, stream, smaller, output, workspace) is Ok,
        schedule(smaller.len, family.width)[pass].output_elements <= workspace.scratch_a.len,
        schedule(smaller.len, family.width)[pass].output_elements <= workspace.scratch_b.len,
{
    schedule_fits_the_scratch(smaller.len, workspace.max_elements, family.width);
}

} // verus!
