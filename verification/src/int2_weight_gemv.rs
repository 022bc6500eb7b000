//! Batch-one projection with `f32` activations and packed ternary INT2
//! weights, four 2-bit codes per byte.

use crate::arith::{fits, power_of_two};
use crate::device::{ContextId, DeviceBuffer, Probe, Stream};
use crate::error::{Checked, KernelError};
use crate::family::{
    both, block_check, check_block, check_threads, loads, threads_check, Family,
};
use crate::gemv::{check_exact_length, exact_length};
use crate::launch::{Arguments, Kernel, Shape};
use crate::plan::{Action, Plan, PlanView};
use vstd::prelude::*;

verus! {

/// The block width of [`F32Int2Gemv::load`].
pub const DEFAULT_BLOCK_SIZE: u32 = 64;

/// Context-bound `[1,K] x [K,N] -> [1,N]` projection with packed INT2 weights.
#[derive(Debug)]
pub struct F32Int2Gemv {
    family: Family,
}

impl View for F32Int2Gemv {
    type V = Family;

    closed spec fn view(&self) -> Family {
        self.family
    }
}

/// The operands and the shape of a projection with packed INT2 weights.
#[derive(Clone, Copy, Debug, PartialEq, Eq, Structural)]
pub struct Int2Projection {
    pub input: DeviceBuffer,
    pub packed_weight: DeviceBuffer,
    pub scale: DeviceBuffer,
    pub output: DeviceBuffer,
    pub k: usize,
    pub n: usize,
}

/// All checks of loading, in the order in which they decide.
pub open spec fn int2_load_check(width: u32, probe: Probe) -> Checked {
    both(
        block_check("f32-int2 project", width),
        threads_check("f32-int2 project", width, probe),
    )
}

/// The bytes that `k * n` two-bit codes take.
pub open spec fn packed_length(k: usize, n: usize) -> int {
    (k * n + 3) / 4
}

/// The first rule that the operands break.
pub open spec fn int2_check(family: Family, stream: Stream, p: Int2Projection) -> Checked {
    if !fits(p.k * p.n) {
        Err(KernelError::Fixed("f32-int2 project shape overflows usize"))
    } else if !fits(p.k * p.n + 3) {
        Err(KernelError::Fixed("f32-int2 packed length overflows usize"))
    } else if p.input.len != p.k {
        exact_length("f32-int2 project", "input has", p.input.len, p.k)
    } else if p.packed_weight.len != packed_length(p.k, p.n) {
        Err(
            KernelError::Shape {
                family: "f32-int2 project",
                operand: "packed weight has",
                actual: p.packed_weight.len,
                unit: "bytes",
                rows: p.k,
                cols: p.n,
                required: packed_length(p.k, p.n) as usize,
            },
        )
    } else if p.scale.len != 1 {
        Err(KernelError::ScaleCount { actual: p.scale.len })
    } else if p.output.len != p.n {
        exact_length("f32-int2 project", "output has", p.output.len, p.n)
    } else if stream.context != family.context
        || p.input.context != family.context
        || p.packed_weight.context != family.context
        || p.scale.context != family.context
        || p.output.context != family.context {
        Err(
            KernelError::Fixed(
                "f32-int2 project stream, buffers and kernel must share one context",
            ),
        )
    } else {
        Ok(())
    }
}

/// What a projection does: nothing without outputs, zeroing without
/// inputs, one thread per output otherwise.
pub open spec fn int2_plan(family: Family, stream: Stream, p: Int2Projection) -> PlanView {
    PlanView::checked(int2_check(family, stream, p)).followed_by(
        if p.n == 0 {
            PlanView::done()
        } else if p.k == 0 {
            PlanView::one(Action::Zero(p.output.id))
        } else {
            PlanView::launch(
                Kernel::ProjectInt2,
                Shape::Elements { count: p.n, block_size: family.width },
                Arguments::ProjectInt2 {
                    input: p.input.id,
                    packed_weight: p.packed_weight.id,
                    weight_scale: p.scale.id,
                    output: p.output.id,
                    k: p.k as u64,
                    n: p.n as u64,
                },
            )
        },
    )
}

impl F32Int2Gemv {
    #[verifier::type_invariant]
    spec fn ready(self) -> bool {
        power_of_two(self.family.width as nat)
    }

    /// Checks a block width before anything is compiled.
    pub fn check_block_size(block_size: u32) -> (check: Checked)
        ensures
            check == block_check("f32-int2 project", block_size),
    {
        check_block("f32-int2 project", block_size)
    }

    /// Accepts the compiled function with the default block width.
    pub fn load(context: ContextId, probe: Probe) -> (result: Result<F32Int2Gemv, KernelError>)
        ensures
            loads(
                result,
                int2_load_check(DEFAULT_BLOCK_SIZE, probe),
                Family { context, width: DEFAULT_BLOCK_SIZE },
            ),
    {
        Self::load_with_block_size(context, DEFAULT_BLOCK_SIZE, probe)
    }

    /// Accepts the compiled function with an explicit non-zero power-of-two
    /// width.
    pub fn load_with_block_size(
        context: ContextId,
        block_size: u32,
        probe: Probe,
    ) -> (result: Result<F32Int2Gemv, KernelError>)
        ensures
            loads(
                result,
                int2_load_check(block_size, probe),
                Family { context, width: block_size },
            ),
    {
        check_block("f32-int2 project", block_size)?;
        check_threads("f32-int2 project", block_size, probe)?;
        Ok(F32Int2Gemv { family: Family { context, width: block_size } })
    }

    /// Thread-block width of the projection.
    pub fn block_size(&self) -> (width: u32)
        ensures
            width == self@.width,
            power_of_two(width as nat),
    {
        proof {
            use_type_invariant(self);
        }
        self.family.width
    }

    /// Plans one projection with a wait for completion.
    pub fn project_kn(
        &self,
        stream: &Stream,
        input: &DeviceBuffer,
        packed_weight: &DeviceBuffer,
        scale: &DeviceBuffer,
        output: &DeviceBuffer,
        k: usize,
        n: usize,
    ) -> (plan: Plan)
        ensures
            plan@ == int2_plan(
                self@,
                *stream,
                Int2Projection {
                    input: *input,
                    packed_weight: *packed_weight,
                    scale: *scale,
                    output: *output,
                    k,
                    n,
                },
            ).synchronized(),
    {
        self.enqueue_project_kn(stream, input, packed_weight, scale, output, k, n).synchronized()
    }

    /// Plans one projection without a wait.
    pub fn enqueue_project_kn(
        &self,
        stream: &Stream,
        input: &DeviceBuffer,
        packed_weight: &DeviceBuffer,
        scale: &DeviceBuffer,
        output: &DeviceBuffer,
        k: usize,
        n: usize,
    ) -> (plan: Plan)
        ensures
            plan@ == int2_plan(
                self@,
                *stream,
                Int2Projection {
                    input: *input,
                    packed_weight: *packed_weight,
                    scale: *scale,
                    output: *output,
                    k,
                    n,
                },
            ),
    {
        let p = &Int2Projection {
            input: *input,
            packed_weight: *packed_weight,
            scale: *scale,
            output: *output,
            k,
            n,
        };
        let check = self.validate_execution(stream, p);
        let work = if p.n == 0 {
            Plan::done()
        } else if p.k == 0 {
            Plan::one(Action::Zero(p.output.id))
        } else {
            Plan::launch(
                Kernel::ProjectInt2,
                Shape::Elements { count: p.n, block_size: self.family.width },
                Arguments::ProjectInt2 {
                    input: p.input.id,
                    packed_weight: p.packed_weight.id,
                    weight_scale: p.scale.id,
                    output: p.output.id,
                    k: p.k as u64,
                    n: p.n as u64,
                },
            )
        };
        Plan::checked(check).followed_by(work)
    }

    /// Checks the operands.
    pub fn validate_execution(&self, stream: &Stream, p: &Int2Projection) -> (check: Checked)
        ensures
            check == int2_check(self@, *stream, *p),
    {
        let weights: usize = match p.k.checked_mul(p.n) {
            Some(elements) => elements,
            None => {
                return Err(KernelError::Fixed("f32-int2 project shape overflows usize"));
            },
        };
        let padded: usize = match weights.checked_add(3) {
            Some(elements) => elements,
            None => {
                return Err(KernelError::Fixed("f32-int2 packed length overflows usize"));
            },
        };
        let expected: usize = padded / 4;
        check_exact_length("f32-int2 project", "input has", p.input.len, p.k)?;
        if p.packed_weight.len != expected {
            return Err(
                KernelError::Shape {
                    family: "f32-int2 project",
                    operand: "packed weight has",
                    actual: p.packed_weight.len,
                    unit: "bytes",
                    rows: p.k,
                    cols: p.n,
                    required: expected,
                },
            );
        }
        if p.scale.len != 1 {
            return Err(KernelError::ScaleCount { actual: p.scale.len });
        }
        check_exact_length("f32-int2 project", "output has", p.output.len, p.n)?;
        let context = self.family.context;
        if stream.context != context
            || p.input.context != context
            || p.packed_weight.context != context
            || p.scale.context != context
            || p.output.context != context {
            return Err(
                KernelError::Fixed(
                    "f32-int2 project stream, buffers and kernel must share one context",
                ),
            );
        }
        Ok(())
    }
}

/// A refused projection submits nothing.
pub proof fn refused_int2_submits_nothing(family: Family, stream: Stream, p: Int2Projection)
    ensures
        int2_plan(family, stream, p).outcome is Err ==> int2_plan(
            family,
            stream,
            p,
        ).steps.len() == 0,
{
}

/// Four codes are packed per byte, so the code of every weight of an accepted
/// projection lies in a byte of the packed buffer.
pub proof fn packed_codes_lie_inside(
    family: Family,
    stream: Stream,
    p: Int2Projection,
    row: int,
    col: int,
)
    requires
        int2_check(family, stream, p) is Ok,
        0 <= row < p.k,
        0 <= col < p.n,
    ensures
        0 <= (row * p.n + col) / 4 < p.packed_weight.len,
{
    let n = p.n as int;
    assert(0 <= row * n + col < p.k * n) by (nonlinear_arith)
        requires
            0 <= row,
            row + 1 <= p.k,
            0 <= col < n,
    ;
}

} // verus!
