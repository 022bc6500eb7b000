//! Multi-pass reductions over packed `bf16` inputs.
//!
//! The first tree pass widens while reducing, later passes are the plain
//! `f32` tree kernels.

use crate::arith::power_of_two;
use crate::device::{BufferId, ContextId, DeviceBuffer, Probe, Scratch, Stream, F32};
use crate::error::{Checked, KernelError};
use crate::family::{
    both, block_check, bytes_check, check_block, check_limits, limits_check, loads, shared_bytes,
    Family,
};
use crate::plan::{Plan, PlanView};
use crate::reduction::{
    describe_workspace, plan_reduction, plan_scalar, plan_workspace, reduction_plan,
    reduction_ready, scalar_plan, workspace_allocation, workspace_check, workspace_for,
    ReductionInput, ReductionOp, Scalar, ScalarPlan, TreeWorkspace,
};
use crate::tree::partials;
use vstd::prelude::*;

verus! {

/// The block width of [`Bf16Reduction::load`].
pub const DEFAULT_BLOCK_SIZE: u32 = 256;

/// The bit pattern of negative infinity, the maximum of nothing.
pub const NEGATIVE_INFINITY_BITS: u32 = 0xFF80_0000;

/// Attributes of the four reduction functions, as the driver reported them.
#[derive(Clone, Copy, Debug)]
pub struct Bf16ReductionProbes {
    pub bf16_sum: Probe,
    pub bf16_max: Probe,
    pub sum: Probe,
    pub max: Probe,
}

/// Reusable scratch storage for a [`Bf16Reduction`] tree.
#[derive(Debug)]
pub struct Bf16ReductionWorkspace {
    workspace: TreeWorkspace,
}

impl View for Bf16ReductionWorkspace {
    type V = TreeWorkspace;

    closed spec fn view(&self) -> TreeWorkspace {
        self.workspace
    }
}

impl Bf16ReductionWorkspace {
    #[verifier::type_invariant]
    spec fn sized(self) -> bool {
        self.workspace.sized()
    }

    /// The largest input the workspace serves.
    pub fn max_elements(&self) -> (elements: usize)
        ensures
            elements == self@.max_elements,
    {
        self.workspace.max_elements
    }

    /// The length of either scratch buffer.
    pub fn scratch_capacity(&self) -> (elements: usize)
        ensures
            elements == self@.scratch_a.len,
            elements == self@.scratch_b.len,
            elements == partials(self@.max_elements as int, self@.block_size as int),
    {
        proof {
            use_type_invariant(self);
        }
        self.workspace.scratch_a.len
    }

    /// Plans the allocation of the scratch buffers.
    pub fn allocation(&self) -> (plan: Plan)
        ensures
            plan@ == workspace_allocation(self@),
    {
        plan_workspace(&self.workspace)
    }
}

/// Context-bound, multi-pass sum and max reductions over packed `bf16`.
#[derive(Debug)]
pub struct Bf16Reduction {
    family: Family,
}

impl View for Bf16Reduction {
    type V = Family;

    closed spec fn view(&self) -> Family {
        self.family
    }
}

/// The checks on a block width that need no device.
pub open spec fn bf16_reduction_width_check(width: u32) -> Checked {
    both(
        block_check("bf16 reduction", width),
        bytes_check("bf16 shared-memory size overflows", width, 4),
    )
}

/// All checks of loading, in the order in which they decide.
pub open spec fn bf16_reduction_load_check(width: u32, probes: Bf16ReductionProbes) -> Checked {
    let bytes = (width * 4) as u32;
    both(
        bf16_reduction_width_check(width),
        both(
            limits_check("bf16 reduction", width, bytes, probes.bf16_sum),
            both(
                limits_check("bf16 reduction", width, bytes, probes.bf16_max),
                both(
                    limits_check("bf16 reduction", width, bytes, probes.sum),
                    limits_check("bf16 reduction", width, bytes, probes.max),
                ),
            ),
        ),
    )
}

/// The maximum as a host scalar: nothing is done for an empty input.
pub open spec fn bf16_max_plan(family: Family, stream: Stream, input: DeviceBuffer) -> PlanView {
    if input.len == 0 {
        PlanView::done()
    } else {
        scalar_plan(ReductionInput::Bf16, ReductionOp::Max, family, stream, input)
    }
}

impl Bf16Reduction {
    #[verifier::type_invariant]
    spec fn ready(self) -> bool {
        reduction_ready(self.family.width)
    }

    /// Checks a block width before anything is compiled.
    pub fn check_block_size(block_size: u32) -> (check: Checked)
        ensures
            check == bf16_reduction_width_check(block_size),
    {
        check_block("bf16 reduction", block_size)?;
        shared_bytes("bf16 shared-memory size overflows", block_size, 4)?;
        Ok(())
    }

    /// Accepts the compiled functions with the default block width.
    pub fn load(
        context: ContextId,
        probes: &Bf16ReductionProbes,
    ) -> (result: Result<Bf16Reduction, KernelError>)
        ensures
            loads(
                result,
                bf16_reduction_load_check(DEFAULT_BLOCK_SIZE, *probes),
                Family { context, width: DEFAULT_BLOCK_SIZE },
            ),
    {
        Self::load_with_block_size(context, DEFAULT_BLOCK_SIZE, probes)
    }

    /// Accepts the compiled functions with an explicit power-of-two width.
    pub fn load_with_block_size(
        context: ContextId,
        block_size: u32,
        probes: &Bf16ReductionProbes,
    ) -> (result: Result<Bf16Reduction, KernelError>)
        ensures
            loads(
                result,
                bf16_reduction_load_check(block_size, *probes),
                Family { context, width: block_size },
            ),
    {
        check_block("bf16 reduction", block_size)?;
        let bytes: u32 = shared_bytes("bf16 shared-memory size overflows", block_size, 4)?;
        check_limits("bf16 reduction", block_size, bytes, probes.bf16_sum)?;
        check_limits("bf16 reduction", block_size, bytes, probes.bf16_max)?;
        check_limits("bf16 reduction", block_size, bytes, probes.sum)?;
        check_limits("bf16 reduction", block_size, bytes, probes.max)?;
        Ok(Bf16Reduction { family: Family { context, width: block_size } })
    }

    /// Thread-block width of every pass.
    pub fn block_size(&self) -> (width: u32)
        ensures
            width == self@.width,
            power_of_two(width as nat),
    {
        proof {
            use_type_invariant(self);
        }
        self.family.width
    }

    /// Describes scratch storage reusable for inputs up to `max_elements`, to
    /// be allocated under the given identities.
    pub fn workspace(
        &self,
        context: ContextId,
        max_elements: usize,
        scratch_a: BufferId,
        scratch_b: BufferId,
    ) -> (workspace: Result<Bf16ReductionWorkspace, KernelError>)
        ensures
            match workspace {
                Ok(workspace) => workspace_check(ReductionInput::Bf16, self@, context) is Ok
                    && workspace@ == workspace_for(
                    self@,
                    context,
                    max_elements,
                    scratch_a,
                    scratch_b,
                ),
                Err(error) => workspace_check(ReductionInput::Bf16, self@, context)
                    == Checked::Err(error),
            },
    {
        proof {
            use_type_invariant(self);
        }
        let workspace = describe_workspace(
            ReductionInput::Bf16,
            self.family,
            context,
            max_elements,
            scratch_a,
            scratch_b,
        )?;
        Ok(Bf16ReductionWorkspace { workspace })
    }

    /// Plans the sum of an input as a host scalar. An empty input yields zero.
    pub fn sum(&self, stream: &Stream, input: &DeviceBuffer) -> (result: ScalarPlan)
        ensures
            result.plan@ == scalar_plan(
                ReductionInput::Bf16,
                ReductionOp::Sum,
                self@,
                *stream,
                *input,
            ),
            result.scalar == Scalar::ElementOf(BufferId::Scratch(Scratch::ReductionOutput)),
    {
        proof {
            use_type_invariant(self);
        }
        plan_scalar(ReductionInput::Bf16, ReductionOp::Sum, self.family, stream, input)
    }

    /// Plans the maximum of an input as a host scalar. An empty input yields
    /// negative infinity without any device work.
    pub fn max(&self, stream: &Stream, input: &DeviceBuffer) -> (result: ScalarPlan)
        ensures
            result.plan@ == bf16_max_plan(self@, *stream, *input),
            input.len == 0 ==> result.scalar == Scalar::Constant(
                F32 { bits: NEGATIVE_INFINITY_BITS },
            ),
            input.len > 0 ==> result.scalar == Scalar::ElementOf(
                BufferId::Scratch(Scratch::ReductionOutput),
            ),
    {
        proof {
            use_type_invariant(self);
        }
        if input.len == 0 {
            return ScalarPlan {
                plan: Plan::done(),
                scalar: Scalar::Constant(F32 { bits: NEGATIVE_INFINITY_BITS }),
            };
        }
        plan_scalar(ReductionInput::Bf16, ReductionOp::Max, self.family, stream, input)
    }

    /// Plans every pass of the sum without a wait. For an empty input the
    /// output is zeroed.
    pub fn enqueue_sum(
        &self,
        stream: &Stream,
        input: &DeviceBuffer,
        output: &DeviceBuffer,
        workspace: &Bf16ReductionWorkspace,
    ) -> (plan: Plan)
        ensures
            plan@ == reduction_plan(
                ReductionInput::Bf16,
                ReductionOp::Sum,
                self@,
                *stream,
                *input,
                *output,
                workspace@,
            ),
    {
        self.enqueue_tree(ReductionOp::Sum, stream, input, output, workspace)
    }

    /// Plans every pass of the maximum without a wait. For an empty input
    /// nothing is planned and the output stays untouched.
    pub fn enqueue_max(
        &self,
        stream: &Stream,
        input: &DeviceBuffer,
        output: &DeviceBuffer,
        workspace: &Bf16ReductionWorkspace,
    ) -> (plan: Plan)
        ensures
            plan@ == reduction_plan(
                ReductionInput::Bf16,
                ReductionOp::Max,
                self@,
                *stream,
                *input,
                *output,
                workspace@,
            ),
    {
        self.enqueue_tree(ReductionOp::Max, stream, input, output, workspace)
    }

    fn enqueue_tree(
        &self,
        op: ReductionOp,
        stream: &Stream,
        input: &DeviceBuffer,
        output: &DeviceBuffer,
        workspace: &Bf16ReductionWorkspace,
    ) -> (plan: Plan)
        ensures
            plan@ == reduction_plan(
                ReductionInput::Bf16,
                op,
                self@,
                *stream,
                *input,
                *output,
                workspace@,
            ),
    {
        proof {
            use_type_invariant(self);
        }
        plan_reduction(
            ReductionInput::Bf16,
            op,
            self.family,
            stream,
            input,
            output,
            &workspace.workspace,
        )
    }
}

} // verus!
