//! Batch-one projection with `f32` activations and packed-bf16 weights.

use crate::arith::{fits, power_of_two};
use crate::device::{ContextId, DeviceBuffer, Probe, Stream};
use crate::error::{Checked, KernelError};
use crate::family::{
    both, block_check, check_block, check_threads, loads, threads_check, Family,
};
use crate::gemv::{check_exact_length, exact_length};
use crate::launch::{Arguments, Kernel, Shape};
use crate::plan::{Action, Plan, PlanView};
use vstd::prelude::*;

verus! {

/// The block width of [`F32Bf16Gemv::load`].
pub const DEFAULT_BLOCK_SIZE: u32 = 64;

/// Context-bound `[1,K] x [K,N] -> [1,N]` projection with packed-bf16 weights.
#[derive(Debug)]
pub struct F32Bf16Gemv {
    family: Family,
}

impl View for F32Bf16Gemv {
    type V = Family;

    closed spec fn view(&self) -> Family {
        self.family
    }
}

/// The operands and the shape of a projection with packed-bf16 weights.
#[derive(Clone, Copy, Debug, PartialEq, Eq, Structural)]
pub struct MixedProjection {
    pub input: DeviceBuffer,
    pub weight: DeviceBuffer,
    pub output: DeviceBuffer,
    pub k: usize,
    pub n: usize,
}

/// All checks of loading, in the order in which they decide.
pub open spec fn mixed_load_check(width: u32, probe: Probe) -> Checked {
    both(
        block_check("f32-bf16 project", width),
        threads_check("f32-bf16 project", width, probe),
    )
}

/// The first rule that the operands break.
pub open spec fn mixed_check(family: Family, stream: Stream, p: MixedProjection) -> Checked {
    if !fits(p.k * p.n) {
        Err(KernelError::Fixed("f32-bf16 project shape overflows usize"))
    } else if p.input.len != p.k {
        exact_length("f32-bf16 project", "input has", p.input.len, p.k)
    } else if p.weight.len != p.k * p.n {
        Err(
            KernelError::Shape {
                family: "f32-bf16 project",
                operand: "weight has",
                actual: p.weight.len,
                unit: "elements",
                rows: p.k,
                cols: p.n,
                required: (p.k * p.n) as usize,
            },
        )
    } else if p.output.len != p.n {
        exact_length("f32-bf16 project", "output has", p.output.len, p.n)
    } else if stream.context != family.context
        || p.input.context != family.context
        || p.weight.context != family.context
        || p.output.context != family.context {
        Err(
            KernelError::Fixed(
                "f32-bf16 project stream, buffers and kernel must share one context",
            ),
        )
    } else {
        Ok(())
    }
}

/// What a projection does: nothing without outputs, zeroing without
/// inputs, one thread per output otherwise.
pub open spec fn mixed_plan(family: Family, stream: Stream, p: MixedProjection) -> PlanView {
    PlanView::checked(mixed_check(family, stream, p)).followed_by(
        if p.n == 0 {
            PlanView::done()
        } else if p.k == 0 {
            PlanView::one(Action::Zero(p.output.id))
        } else {
            PlanView::launch(
                Kernel::ProjectBf16,
                Shape::Elements { count: p.n, block_size: family.width },
                Arguments::Project {
                    input: p.input.id,
                    weight: p.weight.id,
                    output: p.output.id,
                    k: p.k as u64,
                    n: p.n as u64,
                },
            )
        },
    )
}

impl F32Bf16Gemv {
    #[verifier::type_invariant]
    spec fn ready(self) -> bool {
        power_of_two(self.family.width as nat)
    }

    /// Checks a block width before anything is compiled.
    pub fn check_block_size(block_size: u32) -> (check: Checked)
        ensures
            check == block_check("f32-bf16 project", block_size),
    {
        check_block("f32-bf16 project", block_size)
    }

    /// Accepts the compiled function with the default block width.
    pub fn load(context: ContextId, probe: Probe) -> (result: Result<F32Bf16Gemv, KernelError>)
        ensures
            loads(
                result,
                mixed_load_check(DEFAULT_BLOCK_SIZE, probe),
                Family { context, width: DEFAULT_BLOCK_SIZE },
            ),
    {
        Self::load_with_block_size(context, DEFAULT_BLOCK_SIZE, probe)
    }

    /// Accepts the compiled function with an explicit non-zero power-of-two
    /// width.
    pub fn load_with_block_size(
        context: ContextId,
        block_size: u32,
        probe: Probe,
    ) -> (result: Result<F32Bf16Gemv, KernelError>)
        ensures
            loads(
                result,
                mixed_load_check(block_size, probe),
                Family { context, width: block_size },
            ),
    {
        check_block("f32-bf16 project", block_size)?;
        check_threads("f32-bf16 project", block_size, probe)?;
        Ok(F32Bf16Gemv { family: Family { context, width: block_size } })
    }

    /// Thread-block width of the projection.
    pub fn block_size(&self) -> (width: u32)
        ensures
            width == self@.width,
            power_of_two(width as nat),
    {
        proof {
            use_type_invariant(self);
        }
        self.family.width
    }

    /// Plans one projection with a wait for completion.
    pub fn project_kn(
        &self,
        stream: &Stream,
        input: &DeviceBuffer,
        weight: &DeviceBuffer,
        output: &DeviceBuffer,
        k: usize,
        n: usize,
    ) -> (plan: Plan)
        ensures
            plan@ == mixed_plan(
                self@,
                *stream,
                MixedProjection { input: *input, weight: *weight, output: *output, k, n },
            ).synchronized(),
    {
        self.enqueue_project_kn(stream, input, weight, output, k, n).synchronized()
    }

    /// Plans one projection without a wait.
    pub fn enqueue_project_kn(
        &self,
        stream: &Stream,
        input: &DeviceBuffer,
        weight: &DeviceBuffer,
        output: &DeviceBuffer,
        k: usize,
        n: usize,
    ) -> (plan: Plan)
        ensures
            plan@ == mixed_plan(
                self@,
                *stream,
                MixedProjection { input: *input, weight: *weight, output: *output, k, n },
            ),
    {
        let p = &MixedProjection { input: *input, weight: *weight, output: *output, k, n };
        let check = self.validate_execution(stream, p);
        let work = if p.n == 0 {
            Plan::done()
        } else if p.k == 0 {
            Plan::one(Action::Zero(p.output.id))
        } else {
            Plan::launch(
                Kernel::ProjectBf16,
                Shape::Elements { count: p.n, block_size: self.family.width },
                Arguments::Project {
                    input: p.input.id,
                    weight: p.weight.id,
                    output: p.output.id,
                    k: p.k as u64,
                    n: p.n as u64,
                },
            )
        };
        Plan::checked(check).followed_by(work)
    }

    /// Checks the operands.
    pub fn validate_execution(&self, stream: &Stream, p: &MixedProjection) -> (check: Checked)
        ensures
            check == mixed_check(self@, *stream, *p),
    {
        let expected: usize = match p.k.checked_mul(p.n) {
            Some(elements) => elements,
            None => {
                return Err(KernelError::Fixed("f32-bf16 project shape overflows usize"));
            },
        };
        check_exact_length("f32-bf16 project", "input has", p.input.len, p.k)?;
        if p.weight.len != expected {
            return Err(
                KernelError::Shape {
                    family: "f32-bf16 project",
                    operand: "weight has",
                    actual: p.weight.len,
                    unit: "elements",
                    rows: p.k,
                    cols: p.n,
                    required: expected,
                },
            );
        }
        check_exact_length("f32-bf16 project", "output has", p.output.len, p.n)?;
        let context = self.family.context;
        if stream.context != context
            || p.input.context != context
            || p.weight.context != context
            || p.output.context != context {
            return Err(
                KernelError::Fixed(
                    "f32-bf16 project stream, buffers and kernel must share one context",
                ),
            );
        }
        Ok(())
    }
}

/// A refused projection submits nothing.
pub proof fn refused_mixed_submits_nothing(family: Family, stream: Stream, p: MixedProjection)
    ensures
        mixed_plan(family, stream, p).outcome is Err ==> mixed_plan(
            family,
            stream,
            p,
        ).steps.len() == 0,
{
}

} // verus!
