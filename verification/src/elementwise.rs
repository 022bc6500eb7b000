//! Elementwise `f32` primitives.

use crate::device::{ContextId, DeviceBuffer, DeviceFailure, Probe, Stream, F32};
use crate::error::{Checked, KernelError};
use crate::family::{
    both, check_nonzero, check_threads, loads, nonzero_check, threads_check, Family,
};
use crate::launch::{Arguments, Kernel, Shape};
use crate::plan::{Action, Plan, PlanView};
use vstd::prelude::*;

verus! {

/// The block width of [`F32Elementwise::load`].
pub const DEFAULT_BLOCK_SIZE: u32 = 256;

/// Attributes of the elementwise functions, as the driver reported them.
#[derive(Clone, Copy, Debug)]
pub struct ElementwiseProbes {
    pub vector_add: Probe,
    pub scale: Probe,
    pub affine: Probe,
}

/// The driver's occupancy recommendations for each kernel in
/// [`F32Elementwise`].
#[derive(Clone, Copy, Debug, PartialEq, Eq)]
pub struct F32ElementwiseOccupancy<T> {
    pub vector_add: T,
    pub scale: T,
    pub affine: T,
}

/// Active blocks per multiprocessor for a kernel set's configured width.
#[derive(Clone, Copy, Debug, PartialEq, Eq, Structural)]
pub struct F32ElementwiseActiveBlocks {
    pub vector_add: u32,
    pub scale: u32,
    pub affine: u32,
}

/// Context-bound `f32` elementwise kernels.
#[derive(Debug)]
pub struct F32Elementwise {
    family: Family,
}

impl View for F32Elementwise {
    type V = Family;

    closed spec fn view(&self) -> Family {
        self.family
    }
}

/// All checks of loading, in the order in which they decide.
pub open spec fn elementwise_load_check(width: u32, probes: ElementwiseProbes) -> Checked {
    both(
        nonzero_check("elementwise block size is zero", width),
        both(
            threads_check("vector_add", width, probes.vector_add),
            both(
                threads_check("scale", width, probes.scale),
                threads_check("affine", width, probes.affine),
            ),
        ),
    )
}

/// A buffer must be as long as the first buffer of its operation.
pub open spec fn length_check(
    operation: &'static str,
    operand: &'static str,
    actual: usize,
    expected: usize,
) -> Checked {
    if actual != expected {
        Err(KernelError::Expected { family: operation, operand, actual, expected })
    } else {
        Ok(())
    }
}

/// Adds two buffers; equal lengths are required, and an empty output needs no
/// launch.
pub open spec fn vector_add_plan(
    family: Family,
    left: DeviceBuffer,
    right: DeviceBuffer,
    output: DeviceBuffer,
) -> PlanView {
    PlanView::checked(
        both(
            length_check("vector_add", "buffer right has", right.len, left.len),
            length_check("vector_add", "buffer output has", output.len, left.len),
        ),
    ).followed_by(
        if output.len == 0 {
            PlanView::done()
        } else {
            PlanView::launch(
                Kernel::VectorAdd,
                Shape::Elements { count: output.len, block_size: family.width },
                Arguments::Binary {
                    left: left.id,
                    right: right.id,
                    output: output.id,
                    count: output.len as u64,
                },
            )
        },
    )
}

/// Multiplies a buffer by a scalar.
pub open spec fn scale_plan(
    family: Family,
    input: DeviceBuffer,
    output: DeviceBuffer,
    scale: F32,
) -> PlanView {
    PlanView::checked(length_check("scale", "buffer output has", output.len, input.len)).followed_by(
        if output.len == 0 {
            PlanView::done()
        } else {
            PlanView::launch(
                Kernel::Scale,
                Shape::Elements { count: output.len, block_size: family.width },
                Arguments::Scale {
                    input: input.id,
                    output: output.id,
                    scale,
                    count: output.len as u64,
                },
            )
        },
    )
}

/// Multiplies a buffer by a scalar and adds another.
pub open spec fn affine_plan(
    family: Family,
    input: DeviceBuffer,
    output: DeviceBuffer,
    scale: F32,
    bias: F32,
) -> PlanView {
    PlanView::checked(
        length_check("affine", "buffer output has", output.len, input.len),
    ).followed_by(
        if output.len == 0 {
            PlanView::done()
        } else {
            PlanView::launch(
                Kernel::Affine,
                Shape::Elements { count: output.len, block_size: family.width },
                Arguments::Affine {
                    input: input.id,
                    output: output.id,
                    scale,
                    bias,
                    count: output.len as u64,
                },
            )
        },
    )
}

/// A plan and a wait that is reached only where the plan ends well.
pub open spec fn awaited(plan: PlanView) -> PlanView {
    plan.followed_by(PlanView::one(Action::Synchronize))
}

/// Checks the length of a buffer.
pub fn check_length(
    operation: &'static str,
    operand: &'static str,
    actual: usize,
    expected: usize,
) -> (check: Checked)
    ensures
        check == length_check(operation, operand, actual, expected),
{
    if actual != expected {
        Err(KernelError::Expected { family: operation, operand, actual, expected })
    } else {
        Ok(())
    }
}

/// The first failure among three device answers, or all three.
pub open spec fn three<T>(
    first: Result<T, DeviceFailure>,
    second: Result<T, DeviceFailure>,
    third: Result<T, DeviceFailure>,
) -> Result<(T, T, T), KernelError> {
    match (first, second, third) {
        (Err(failure), _, _) => Err(KernelError::Device(failure)),
        (Ok(_), Err(failure), _) => Err(KernelError::Device(failure)),
        (Ok(_), Ok(_), Err(failure)) => Err(KernelError::Device(failure)),
        (Ok(a), Ok(b), Ok(c)) => Ok((a, b, c)),
    }
}

fn all_three<T>(
    first: Result<T, DeviceFailure>,
    second: Result<T, DeviceFailure>,
    third: Result<T, DeviceFailure>,
) -> (all: Result<(T, T, T), KernelError>)
    ensures
        all == three(first, second, third),
{
    match first {
        Err(failure) => Err(KernelError::Device(failure)),
        Ok(a) => match second {
            Err(failure) => Err(KernelError::Device(failure)),
            Ok(b) => match third {
                Err(failure) => Err(KernelError::Device(failure)),
                Ok(c) => Ok((a, b, c)),
            },
        },
    }
}

impl F32Elementwise {
    #[verifier::type_invariant]
    spec fn ready(self) -> bool {
        self.family.width > 0
    }

    /// Checks a block width before anything is compiled.
    pub fn check_block_size(block_size: u32) -> (check: Checked)
        ensures
            check == nonzero_check("elementwise block size is zero", block_size),
    {
        check_nonzero("elementwise block size is zero", block_size)
    }

    /// Accepts the compiled functions with the default block width.
    pub fn load(
        context: ContextId,
        probes: &ElementwiseProbes,
    ) -> (result: Result<F32Elementwise, KernelError>)
        ensures
            loads(
                result,
                elementwise_load_check(DEFAULT_BLOCK_SIZE, *probes),
                Family { context, width: DEFAULT_BLOCK_SIZE },
            ),
    {
        Self::load_with_block_size(context, DEFAULT_BLOCK_SIZE, probes)
    }

    /// Accepts the compiled functions with one explicitly selected width,
    /// which is checked against every function's limit.
    pub fn load_with_block_size(
        context: ContextId,
        block_size: u32,
        probes: &ElementwiseProbes,
    ) -> (result: Result<F32Elementwise, KernelError>)
        ensures
            loads(
                result,
                elementwise_load_check(block_size, *probes),
                Family { context, width: block_size },
            ),
    {
        check_nonzero("elementwise block size is zero", block_size)?;
        check_threads("vector_add", block_size, probes.vector_add)?;
        check_threads("scale", block_size, probes.scale)?;
        check_threads("affine", block_size, probes.affine)?;
        Ok(F32Elementwise { family: Family { context, width: block_size } })
    }

    /// Thread-block width used by this kernel family.
    pub fn block_size(&self) -> (width: u32)
        ensures
            width == self@.width,
            width > 0,
    {
        proof {
            use_type_invariant(self);
        }
        self.family.width
    }

    /// Gathers the driver's occupancy recommendation for every operation.
    pub fn occupancy<T>(
        &self,
        vector_add: Result<T, DeviceFailure>,
        scale: Result<T, DeviceFailure>,
        affine: Result<T, DeviceFailure>,
    ) -> (occupancy: Result<F32ElementwiseOccupancy<T>, KernelError>)
        ensures
            match occupancy {
                Ok(all) => three(vector_add, scale, affine) == Result::<
                    (T, T, T),
                    KernelError,
                >::Ok((all.vector_add, all.scale, all.affine)),
                Err(error) => three(vector_add, scale, affine) == Result::<
                    (T, T, T),
                    KernelError,
                >::Err(error),
            },
    {
        let (vector_add, scale, affine) = all_three(vector_add, scale, affine)?;
        Ok(F32ElementwiseOccupancy { vector_add, scale, affine })
    }

    /// Gathers the resource-limited active blocks per multiprocessor at the
    /// configured block width.
    pub fn active_blocks_per_multiprocessor(
        &self,
        vector_add: Result<u32, DeviceFailure>,
        scale: Result<u32, DeviceFailure>,
        affine: Result<u32, DeviceFailure>,
    ) -> (blocks: Result<F32ElementwiseActiveBlocks, KernelError>)
        ensures
            match blocks {
                Ok(all) => three(vector_add, scale, affine) == Result::<
                    (u32, u32, u32),
                    KernelError,
                >::Ok((all.vector_add, all.scale, all.affine)),
                Err(error) => three(vector_add, scale, affine) == Result::<
                    (u32, u32, u32),
                    KernelError,
                >::Err(error),
            },
    {
        let (vector_add, scale, affine) = all_three(vector_add, scale, affine)?;
        Ok(F32ElementwiseActiveBlocks { vector_add, scale, affine })
    }

    /// Plans the addition of two equal-length buffers with a wait.
    pub fn vector_add(
        &self,
        stream: &Stream,
        left: &DeviceBuffer,
        right: &DeviceBuffer,
        output: &DeviceBuffer,
    ) -> (plan: Plan)
        ensures
            plan@ == awaited(vector_add_plan(self@, *left, *right, *output)),
    {
        self.enqueue_vector_add(stream, left, right, output).awaited()
    }

    /// Plans the multiplication of each element by `scale` with a wait.
    pub fn scale(
        &self,
        stream: &Stream,
        input: &DeviceBuffer,
        output: &DeviceBuffer,
        scale: F32,
    ) -> (plan: Plan)
        ensures
            plan@ == awaited(scale_plan(self@, *input, *output, scale)),
    {
        self.enqueue_scale(stream, input, output, scale).awaited()
    }

    /// Plans `output = input * scale + bias` with a wait.
    pub fn affine(
        &self,
        stream: &Stream,
        input: &DeviceBuffer,
        output: &DeviceBuffer,
        scale: F32,
        bias: F32,
    ) -> (plan: Plan)
        ensures
            plan@ == awaited(affine_plan(self@, *input, *output, scale, bias)),
    {
        self.enqueue_affine(stream, input, output, scale, bias).awaited()
    }

    /// Plans the addition without a wait.
    pub fn enqueue_vector_add(
        &self,
        _stream: &Stream,
        left: &DeviceBuffer,
        right: &DeviceBuffer,
        output: &DeviceBuffer,
    ) -> (plan: Plan)
        ensures
            plan@ == vector_add_plan(self@, *left, *right, *output),
    {
        let right_check = check_length("vector_add", "buffer right has", right.len, left.len);
        let output_check = check_length("vector_add", "buffer output has", output.len, left.len);
        let check = match right_check {
            Err(_) => right_check,
            Ok(()) => output_check,
        };
        let work = if output.len == 0 {
            Plan::done()
        } else {
            Plan::launch(
                Kernel::VectorAdd,
                Shape::Elements { count: output.len, block_size: self.family.width },
                Arguments::Binary {
                    left: left.id,
                    right: right.id,
                    output: output.id,
                    count: output.len as u64,
                },
            )
        };
        Plan::checked(check).followed_by(work)
    }

    /// Plans the scaling without a wait.
    pub fn enqueue_scale(
        &self,
        _stream: &Stream,
        input: &DeviceBuffer,
        output: &DeviceBuffer,
        scale: F32,
    ) -> (plan: Plan)
        ensures
            plan@ == scale_plan(self@, *input, *output, scale),
    {
        let check = check_length("scale", "buffer output has", output.len, input.len);
        let work = if output.len == 0 {
            Plan::done()
        } else {
            Plan::launch(
                Kernel::Scale,
                Shape::Elements { count: output.len, block_size: self.family.width },
                Arguments::Scale {
                    input: input.id,
                    output: output.id,
                    scale,
                    count: output.len as u64,
                },
            )
        };
        Plan::checked(check).followed_by(work)
    }

    /// Plans the affine transformation without a wait.
    pub fn enqueue_affine(
        &self,
        _stream: &Stream,
        input: &DeviceBuffer,
        output: &DeviceBuffer,
        scale: F32,
        bias: F32,
    ) -> (plan: Plan)
        ensures
            plan@ == affine_plan(self@, *input, *output, scale, bias),
    {
        let check = check_length("affine", "buffer output has", output.len, input.len);
        let work = if output.len == 0 {
            Plan::done()
        } else {
            Plan::launch(
                Kernel::Affine,
                Shape::Elements { count: output.len, block_size: self.family.width },
                Arguments::Affine {
                    input: input.id,
                    output: output.id,
                    scale,
                    bias,
                    count: output.len as u64,
                },
            )
        };
        Plan::checked(check).followed_by(work)
    }
}

/// Three device answers are handed on where all three came, each in its place;
/// otherwise the first failure among them is.
pub proof fn answers_keep_their_places<T>(
    first: Result<T, DeviceFailure>,
    second: Result<T, DeviceFailure>,
    third: Result<T, DeviceFailure>,
)
    ensures
        three(first, second, third) is Ok <==> first is Ok && second is Ok && third is Ok,
        three(first, second, third) matches Ok(all) ==> {
            &&& first == Result::<T, DeviceFailure>::Ok(all.0)
            &&& second == Result::<T, DeviceFailure>::Ok(all.1)
            &&& third == Result::<T, DeviceFailure>::Ok(all.2)
        },
        three(first, second, third) matches Err(e) ==> e == KernelError::Device(
            if first is Err {
                first->Err_0
            } else if second is Err {
                second->Err_0
            } else {
                third->Err_0
            },
        ),
{
}

} // verus!
