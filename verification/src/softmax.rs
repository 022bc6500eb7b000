//! Numerically stable `f32` softmax built from native multi-pass stages.
//!
//! The pipeline runs on one stream without host roundtrips: the maximum of
//! the input, the shifted exponentials, their sum, and the division by it.

use crate::device::{BufferId, ContextId, DeviceBuffer, Element, Probe, Scratch, Stream};
use crate::error::{Checked, KernelError};
use crate::family::{both, check_nonzero, check_threads, nonzero_check, threads_check, Family};
use crate::launch::{Arguments, Kernel, Shape};
use crate::plan::{Action, Plan, PlanView};
use crate::reduction::{
    reduction_load_check, reduction_plan, reduction_runs_or_submits_nothing,
    workspace_allocation, workspace_check,
    workspace_for, F32Reduction, F32ReductionWorkspace, ReductionInput, ReductionOp, TreeWorkspace,
};
use crate::tree::schedule;
use vstd::prelude::*;

verus! {

/// The block width of [`F32Softmax::load`].
pub const DEFAULT_BLOCK_SIZE: u32 = 256;

/// Attributes of the softmax and reduction functions, as the driver reported
/// them.
#[derive(Clone, Copy, Debug)]
pub struct SoftmaxProbes {
    pub reduction: Probe,
    pub exp_shift: Probe,
    pub normalize: Probe,
}

/// A loaded softmax: its own family and that of its reductions.
pub struct SoftmaxView {
    pub family: Family,
    pub reduction: Family,
}

/// The operands of a softmax with its two scalar scratch buffers.
#[derive(Clone, Copy, Debug, PartialEq, Eq, Structural)]
pub struct SoftmaxOperands {
    pub input: DeviceBuffer,
    pub output: DeviceBuffer,
    pub max_scratch: DeviceBuffer,
    pub sum_scratch: DeviceBuffer,
}

/// Context-bound numerically stable `f32` softmax.
#[derive(Debug)]
pub struct F32Softmax {
    reduction: F32Reduction,
    family: Family,
}

impl View for F32Softmax {
    type V = SoftmaxView;

    closed spec fn view(&self) -> SoftmaxView {
        SoftmaxView { family: self.family, reduction: self.reduction@ }
    }
}

/// All checks of loading, in the order in which they decide.
pub open spec fn softmax_load_check(width: u32, probes: SoftmaxProbes) -> Checked {
    both(
        nonzero_check("softmax block size is zero", width),
        both(
            reduction_load_check(crate::reduction::DEFAULT_BLOCK_SIZE, probes.reduction),
            both(
                threads_check("softmax exp_shift", width, probes.exp_shift),
                threads_check("softmax normalize", width, probes.normalize),
            ),
        ),
    )
}

/// The first rule that the operands break.
pub open spec fn softmax_check(family: Family, stream: Stream, o: SoftmaxOperands) -> Checked {
    if o.input.len != o.output.len {
        Err(KernelError::SoftmaxLengths { input: o.input.len, output: o.output.len })
    } else if o.max_scratch.len != 1 {
        Err(
            KernelError::Holds {
                family: "softmax",
                operand: "max_scratch",
                actual: o.max_scratch.len,
                requirement: "expected exactly",
                expected: 1,
            },
        )
    } else if o.sum_scratch.len != 1 {
        Err(
            KernelError::Holds {
                family: "softmax",
                operand: "sum_scratch",
                actual: o.sum_scratch.len,
                requirement: "expected exactly",
                expected: 1,
            },
        )
    } else if o.max_scratch.id == o.sum_scratch.id {
        Err(KernelError::Fixed("softmax max_scratch and sum_scratch must be distinct buffers"))
    } else if stream.context != family.context || o.input.context != family.context
        || o.output.context != family.context || o.max_scratch.context != family.context
        || o.sum_scratch.context != family.context {
        Err(KernelError::Fixed("softmax stream, buffers, and kernels must share one context"))
    } else {
        Ok(())
    }
}

/// The shifted exponentials of `input`.
pub open spec fn exp_shift_plan(
    width: u32,
    input: DeviceBuffer,
    output: DeviceBuffer,
    maximum: DeviceBuffer,
) -> PlanView {
    PlanView::launch(
        Kernel::SoftmaxExpShift,
        Shape::Elements { count: input.len, block_size: width },
        Arguments::ExpShift {
            input: input.id,
            output: output.id,
            maximum: maximum.id,
            count: input.len as u64,
        },
    )
}

/// The division of `data` by its total, in place.
pub open spec fn normalize_plan(width: u32, data: DeviceBuffer, total: DeviceBuffer) -> PlanView {
    PlanView::launch(
        Kernel::SoftmaxNormalize,
        Shape::Elements { count: data.len, block_size: width },
        Arguments::Divide { data: data.id, total: total.id, count: data.len as u64 },
    )
}

/// What a softmax does: nothing where the input is empty, otherwise the four
/// stages in order.
pub open spec fn softmax_plan(
    softmax: SoftmaxView,
    stream: Stream,
    o: SoftmaxOperands,
    workspace: TreeWorkspace,
) -> PlanView {
    PlanView::checked(softmax_check(softmax.family, stream, o)).followed_by(
        if o.input.len == 0 {
            PlanView::done()
        } else {
            reduction_plan(
                ReductionInput::F32,
                ReductionOp::Max,
                softmax.reduction,
                stream,
                o.input,
                o.max_scratch,
                workspace,
            ).followed_by(
                exp_shift_plan(softmax.family.width, o.input, o.output, o.max_scratch),
            ).followed_by(
                reduction_plan(
                    ReductionInput::F32,
                    ReductionOp::Sum,
                    softmax.reduction,
                    stream,
                    o.output,
                    o.sum_scratch,
                    workspace,
                ),
            ).followed_by(normalize_plan(softmax.family.width, o.output, o.sum_scratch))
        },
    )
}

/// The scalar scratch that a softmax makes for itself.
pub open spec fn scalar_scratch(context: ContextId, role: Scratch) -> DeviceBuffer {
    DeviceBuffer { id: BufferId::Scratch(role), len: 1, context }
}

/// The operands of a softmax with scalar scratch of its own.
pub open spec fn own_scalars(
    context: ContextId,
    input: DeviceBuffer,
    output: DeviceBuffer,
) -> SoftmaxOperands {
    SoftmaxOperands {
        input,
        output,
        max_scratch: scalar_scratch(context, Scratch::SoftmaxMax),
        sum_scratch: scalar_scratch(context, Scratch::SoftmaxSum),
    }
}

/// A softmax with scalar scratch of its own and a given workspace.
pub open spec fn softmax_into_plan(
    softmax: SoftmaxView,
    stream: Stream,
    input: DeviceBuffer,
    output: DeviceBuffer,
    workspace: TreeWorkspace,
) -> PlanView {
    let o = own_scalars(stream.context, input, output);
    PlanView::one(
        Action::Allocate { buffer: o.max_scratch, element: Element::F32 },
    ).followed_by(
        PlanView::one(Action::Allocate { buffer: o.sum_scratch, element: Element::F32 }),
    ).followed_by(softmax_plan(softmax, stream, o, workspace).synchronized())
}

/// The workspace that a softmax makes for itself.
pub open spec fn own_tree(reduction: Family, context: ContextId, elements: usize) -> TreeWorkspace {
    workspace_for(
        reduction,
        context,
        elements,
        BufferId::Scratch(Scratch::ReductionA),
        BufferId::Scratch(Scratch::ReductionB),
    )
}

/// A softmax with all scratch of its own.
pub open spec fn softmax_alone_plan(
    softmax: SoftmaxView,
    context: ContextId,
    stream: Stream,
    input: DeviceBuffer,
    output: DeviceBuffer,
) -> PlanView {
    let workspace = own_tree(softmax.reduction, context, input.len);
    PlanView::checked(
        workspace_check(ReductionInput::F32, softmax.reduction, context),
    ).followed_by(workspace_allocation(workspace)).followed_by(
        softmax_into_plan(softmax, stream, input, output, workspace),
    )
}

/// A softmax with all scratch taken from a stream-ordered pool.
pub open spec fn softmax_pooled_plan(
    softmax: SoftmaxView,
    pool: ContextId,
    stream: Stream,
    input: DeviceBuffer,
    output: DeviceBuffer,
) -> PlanView {
    let workspace = own_tree(softmax.reduction, pool, input.len);
    let o = own_scalars(pool, input, output);
    PlanView::checked(workspace_check(ReductionInput::F32, softmax.reduction, pool)).followed_by(
        PlanView::one(
            Action::AllocatePooled { buffer: workspace.scratch_a, element: Element::F32 },
        ),
    ).followed_by(
        PlanView::one(
            Action::AllocatePooled { buffer: workspace.scratch_b, element: Element::F32 },
        ),
    ).followed_by(
        PlanView::one(Action::AllocatePooled { buffer: o.max_scratch, element: Element::F32 }),
    ).followed_by(
        PlanView::one(Action::AllocatePooled { buffer: o.sum_scratch, element: Element::F32 }),
    ).followed_by(softmax_plan(softmax, stream, o, workspace).synchronized())
}

impl F32Softmax {
    #[verifier::type_invariant]
    spec fn ready(self) -> bool {
        self.family.width > 0
    }

    /// Checks a block width before anything is compiled.
    pub fn check_block_size(block_size: u32) -> (check: Checked)
        ensures
            check == nonzero_check("softmax block size is zero", block_size),
    {
        check_nonzero("softmax block size is zero", block_size)
    }

    /// Accepts the compiled functions with the default block width.
    pub fn load(
        context: ContextId,
        probes: &SoftmaxProbes,
    ) -> (result: Result<F32Softmax, KernelError>)
        ensures
            match result {
                Ok(softmax) => softmax_load_check(DEFAULT_BLOCK_SIZE, *probes) is Ok && softmax@ == (
                SoftmaxView {
                    family: Family { context, width: DEFAULT_BLOCK_SIZE },
                    reduction: Family { context, width: crate::reduction::DEFAULT_BLOCK_SIZE },
                }),
                Err(error) => softmax_load_check(DEFAULT_BLOCK_SIZE, *probes) == Checked::Err(
                    error,
                ),
            },
    {
        Self::load_with_block_size(context, DEFAULT_BLOCK_SIZE, probes)
    }

    /// Accepts the compiled functions with an explicitly selected width for
    /// the elementwise stages.
    pub fn load_with_block_size(
        context: ContextId,
        block_size: u32,
        probes: &SoftmaxProbes,
    ) -> (result: Result<F32Softmax, KernelError>)
        ensures
            match result {
                Ok(softmax) => softmax_load_check(block_size, *probes) is Ok && softmax@ == (
                SoftmaxView {
                    family: Family { context, width: block_size },
                    reduction: Family { context, width: crate::reduction::DEFAULT_BLOCK_SIZE },
                }),
                Err(error) => softmax_load_check(block_size, *probes) == Checked::Err(error),
            },
    {
        check_nonzero("softmax block size is zero", block_size)?;
        let reduction = F32Reduction::load(context, probes.reduction)?;
        check_threads("softmax exp_shift", block_size, probes.exp_shift)?;
        check_threads("softmax normalize", block_size, probes.normalize)?;
        Ok(F32Softmax { reduction, family: Family { context, width: block_size } })
    }

    /// Thread-block width used by the elementwise stages.
    pub fn block_size(&self) -> (width: u32)
        ensures
            width == self@.family.width,
            width > 0,
    {
        proof {
            use_type_invariant(self);
        }
        self.family.width
    }

    /// The reductions shared by the softmax pipeline.
    pub fn reduction(&self) -> (reduction: &F32Reduction)
        ensures
            reduction@ == self@.reduction,
    {
        &self.reduction
    }

    /// Plans the softmax of `input` into `output` with scratch of its own and
    /// a wait. An empty input leaves an empty output untouched.
    pub fn softmax(
        &self,
        context: ContextId,
        stream: &Stream,
        input: &DeviceBuffer,
        output: &DeviceBuffer,
    ) -> (plan: Plan)
        ensures
            plan@ == softmax_alone_plan(self@, context, *stream, *input, *output),
    {
        match self.reduction.workspace(
            context,
            input.len,
            BufferId::Scratch(Scratch::ReductionA),
            BufferId::Scratch(Scratch::ReductionB),
        ) {
            Err(error) => Plan::rejected(error),
            Ok(workspace) => workspace.allocation().followed_by(
                self.softmax_into(stream, input, output, &workspace),
            ),
        }
    }

    /// Plans the softmax with a given reduction workspace and a wait.
    pub fn softmax_into(
        &self,
        stream: &Stream,
        input: &DeviceBuffer,
        output: &DeviceBuffer,
        workspace: &F32ReductionWorkspace,
    ) -> (plan: Plan)
        ensures
            plan@ == softmax_into_plan(self@, *stream, *input, *output, workspace@),
    {
        let o = Self::with_own_scalars(stream.context, input, output);
        Plan::one(
            Action::Allocate { buffer: o.max_scratch, element: Element::F32 },
        ).followed_by(
            Plan::one(Action::Allocate { buffer: o.sum_scratch, element: Element::F32 }),
        ).followed_by(
            self.enqueue_softmax(
                stream,
                input,
                output,
                &o.max_scratch,
                &o.sum_scratch,
                workspace,
            ).synchronized(),
        )
    }

    /// Plans the softmax with every scratch allocation taken from a
    /// stream-ordered pool of the given context, and a wait.
    pub fn softmax_pooled(
        &self,
        stream: &Stream,
        input: &DeviceBuffer,
        output: &DeviceBuffer,
        pool: ContextId,
    ) -> (plan: Plan)
        ensures
            plan@ == softmax_pooled_plan(self@, pool, *stream, *input, *output),
    {
        match self.reduction.workspace(
            pool,
            input.len,
            BufferId::Scratch(Scratch::ReductionA),
            BufferId::Scratch(Scratch::ReductionB),
        ) {
            Err(error) => Plan::rejected(error),
            Ok(workspace) => {
                let (scratch_a, scratch_b) = workspace.scratch();
                let o = Self::with_own_scalars(pool, input, output);
                Plan::one(
                    Action::AllocatePooled { buffer: scratch_a, element: Element::F32 },
                ).followed_by(
                    Plan::one(Action::AllocatePooled { buffer: scratch_b, element: Element::F32 }),
                ).followed_by(
                    Plan::one(
                        Action::AllocatePooled { buffer: o.max_scratch, element: Element::F32 },
                    ),
                ).followed_by(
                    Plan::one(
                        Action::AllocatePooled { buffer: o.sum_scratch, element: Element::F32 },
                    ),
                ).followed_by(
                    self.enqueue_softmax_pooled(
                        stream,
                        input,
                        output,
                        &o.max_scratch,
                        &o.sum_scratch,
                        &workspace,
                    ).synchronized(),
                )
            },
        }
    }

    fn with_own_scalars(
        context: ContextId,
        input: &DeviceBuffer,
        output: &DeviceBuffer,
    ) -> (o: SoftmaxOperands)
        ensures
            o == own_scalars(context, *input, *output),
    {
        SoftmaxOperands {
            input: *input,
            output: *output,
            max_scratch: DeviceBuffer {
                id: BufferId::Scratch(Scratch::SoftmaxMax),
                len: 1,
                context,
            },
            sum_scratch: DeviceBuffer {
                id: BufferId::Scratch(Scratch::SoftmaxSum),
                len: 1,
                context,
            },
        }
    }

    /// Plans the four stages over pooled scratch without a wait.
    pub fn enqueue_softmax_pooled(
        &self,
        stream: &Stream,
        input: &DeviceBuffer,
        output: &DeviceBuffer,
        max_scratch: &DeviceBuffer,
        sum_scratch: &DeviceBuffer,
        workspace: &F32ReductionWorkspace,
    ) -> (plan: Plan)
        ensures
            plan@ == softmax_plan(
                self@,
                *stream,
                SoftmaxOperands {
                    input: *input,
                    output: *output,
                    max_scratch: *max_scratch,
                    sum_scratch: *sum_scratch,
                },
                workspace@,
            ),
    {
        self.enqueue_softmax(stream, input, output, max_scratch, sum_scratch, workspace)
    }

    /// Plans the four stages without a wait. `max_scratch` and `sum_scratch`
    /// are distinct one-element buffers that receive the intermediate
    /// scalars.
    pub fn enqueue_softmax(
        &self,
        stream: &Stream,
        input: &DeviceBuffer,
        output: &DeviceBuffer,
        max_scratch: &DeviceBuffer,
        sum_scratch: &DeviceBuffer,
        workspace: &F32ReductionWorkspace,
    ) -> (plan: Plan)
        ensures
            plan@ == softmax_plan(
                self@,
                *stream,
                SoftmaxOperands {
                    input: *input,
                    output: *output,
                    max_scratch: *max_scratch,
                    sum_scratch: *sum_scratch,
                },
                workspace@,
            ),
    {
        let o = &SoftmaxOperands {
            input: *input,
            output: *output,
            max_scratch: *max_scratch,
            sum_scratch: *sum_scratch,
        };
        let check = self.validate_execution(stream, o);
        let work = if o.input.len == 0 {
            Plan::done()
        } else {
            self.reduction.enqueue_max(stream, &o.input, &o.max_scratch, workspace).followed_by(
                self.enqueue_exp_shift(&o.input, &o.output, &o.max_scratch),
            ).followed_by(
                self.reduction.enqueue_sum(stream, &o.output, &o.sum_scratch, workspace),
            ).followed_by(self.enqueue_normalize(&o.output, &o.sum_scratch))
        };
        Plan::checked(check).followed_by(work)
    }

    /// Checks the operands.
    pub fn validate_execution(&self, stream: &Stream, o: &SoftmaxOperands) -> (check: Checked)
        ensures
            check == softmax_check(self@.family, *stream, *o),
    {
        if o.input.len != o.output.len {
            return Err(KernelError::SoftmaxLengths { input: o.input.len, output: o.output.len });
        }
        if o.max_scratch.len != 1 {
            return Err(
                KernelError::Holds {
                    family: "softmax",
                    operand: "max_scratch",
                    actual: o.max_scratch.len,
                    requirement: "expected exactly",
                    expected: 1,
                },
            );
        }
        if o.sum_scratch.len != 1 {
            return Err(
                KernelError::Holds {
                    family: "softmax",
                    operand: "sum_scratch",
                    actual: o.sum_scratch.len,
                    requirement: "expected exactly",
                    expected: 1,
                },
            );
        }
        if o.max_scratch.id == o.sum_scratch.id {
            return Err(
                KernelError::Fixed("softmax max_scratch and sum_scratch must be distinct buffers"),
            );
        }
        let context = self.family.context;
        if stream.context != context || o.input.context != context || o.output.context != context
            || o.max_scratch.context != context || o.sum_scratch.context != context {
            return Err(
                KernelError::Fixed("softmax stream, buffers, and kernels must share one context"),
            );
        }
        Ok(())
    }

    fn enqueue_exp_shift(
        &self,
        input: &DeviceBuffer,
        output: &DeviceBuffer,
        maximum: &DeviceBuffer,
    ) -> (plan: Plan)
        ensures
            plan@ == exp_shift_plan(self@.family.width, *input, *output, *maximum),
    {
        Plan::launch(
            Kernel::SoftmaxExpShift,
            Shape::Elements { count: input.len, block_size: self.family.width },
            Arguments::ExpShift {
                input: input.id,
                output: output.id,
                maximum: maximum.id,
                count: input.len as u64,
            },
        )
    }

    fn enqueue_normalize(&self, data: &DeviceBuffer, total: &DeviceBuffer) -> (plan: Plan)
        ensures
            plan@ == normalize_plan(self@.family.width, *data, *total),
    {
        Plan::launch(
            Kernel::SoftmaxNormalize,
            Shape::Elements { count: data.len, block_size: self.family.width },
            Arguments::Divide { data: data.id, total: total.id, count: data.len as u64 },
        )
    }
}

/// A softmax submits nothing where it is refused. Where it is not and there is
/// something to do, it runs the maximum, the exponentials, the sum and the
/// division in this order, each over the whole length.
pub proof fn softmax_runs_or_submits_nothing(
    softmax: SoftmaxView,
    stream: Stream,
    o: SoftmaxOperands,
    workspace: TreeWorkspace,
)
    requires
        softmax.reduction.width > 0,
    ensures
        softmax_plan(softmax, stream, o, workspace).outcome is Err ==> softmax_plan(
            softmax,
            stream,
            o,
            workspace,
        ).steps.len() == 0,
        softmax_plan(softmax, stream, o, workspace).outcome is Ok && o.input.len > 0 ==> {
            let passes = schedule(o.input.len, softmax.reduction.width).len() as int;
            let steps = softmax_plan(softmax, stream, o, workspace).steps;
            &&& steps.len() == 2 * passes + 2
            &&& steps.take(passes) == reduction_plan(
                ReductionInput::F32,
                ReductionOp::Max,
                softmax.reduction,
                stream,
                o.input,
                o.max_scratch,
                workspace,
            ).steps
            &&& steps[passes] == exp_shift_plan(
                softmax.family.width,
                o.input,
                o.output,
                o.max_scratch,
            ).steps[0]
            &&& steps.subrange(passes + 1, 2 * passes + 1) == reduction_plan(
                ReductionInput::F32,
                ReductionOp::Sum,
                softmax.reduction,
                stream,
                o.output,
                o.sum_scratch,
                workspace,
            ).steps
            &&& steps.last() == normalize_plan(
                softmax.family.width,
                o.output,
                o.sum_scratch,
            ).steps[0]
        },
{
    reduction_runs_or_submits_nothing(
        ReductionInput::F32,
        ReductionOp::Max,
        softmax.reduction,
        stream,
        o.input,
        o.max_scratch,
        workspace,
    );
    reduction_runs_or_submits_nothing(
        ReductionInput::F32,
        ReductionOp::Sum,
        softmax.reduction,
        stream,
        o.output,
        o.sum_scratch,
        workspace,
    );
    if softmax_plan(softmax, stream, o, workspace).outcome is Ok && o.input.len > 0 {
        let passes = schedule(o.input.len, softmax.reduction.width).len() as int;
        let steps = softmax_plan(softmax, stream, o, workspace).steps;
        assert(steps.take(passes) =~= reduction_plan(
            ReductionInput::F32,
            ReductionOp::Max,
            softmax.reduction,
            stream,
            o.input,
            o.max_scratch,
            workspace,
        ).steps);
        assert(steps.subrange(passes + 1, 2 * passes + 1) =~= reduction_plan(
            ReductionInput::F32,
            ReductionOp::Sum,
            softmax.reduction,
            stream,
            o.output,
            o.sum_scratch,
            workspace,
        ).steps);
    }
}

} // verus!
