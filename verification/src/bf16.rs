//! `bfloat16` storage with `f32` compute.
//!
//! Every kernel widens its 16-bit inputs to `f32`, computes in full precision
//! and narrows back with round-to-nearest-even.

use crate::device::{ContextId, DeviceBuffer, Probe, Stream, F32};
use crate::elementwise::{awaited, check_length, length_check};
use crate::error::{Checked, KernelError};
use crate::family::{
    both, check_nonzero, check_threads, loads, nonzero_check, threads_check, Family,
};
use crate::launch::{Arguments, Kernel, Shape};
use crate::plan::{Plan, PlanView};
use vstd::prelude::*;

verus! {

/// The block width of [`Bf16Elementwise::load`].
pub const DEFAULT_BLOCK_SIZE: u32 = 256;

/// Attributes of the bf16 functions, as the driver reported them.
#[derive(Clone, Copy, Debug)]
pub struct Bf16Probes {
    pub vector_add: Probe,
    pub scale: Probe,
    pub affine: Probe,
    pub relu: Probe,
    pub silu: Probe,
    pub gelu_tanh: Probe,
    pub widen: Probe,
    pub narrow: Probe,
}

/// Context-bound bf16-storage/f32-compute elementwise kernels.
#[derive(Debug)]
pub struct Bf16Elementwise {
    family: Family,
}

impl View for Bf16Elementwise {
    type V = Family;

    closed spec fn view(&self) -> Family {
        self.family
    }
}

/// All checks of loading, in the order in which they decide.
pub open spec fn bf16_load_check(width: u32, probes: Bf16Probes) -> Checked {
    both(
        nonzero_check("bf16 block size is zero", width),
        both(
            threads_check("bf16 vector_add", width, probes.vector_add),
            both(
                threads_check("bf16 scale", width, probes.scale),
                both(
                    threads_check("bf16 affine", width, probes.affine),
                    both(
                        threads_check("bf16 relu", width, probes.relu),
                        both(
                            threads_check("bf16 silu", width, probes.silu),
                            both(
                                threads_check("bf16 gelu_tanh", width, probes.gelu_tanh),
                                both(
                                    threads_check("bf16 widen", width, probes.widen),
                                    threads_check("bf16 narrow", width, probes.narrow),
                                ),
                            ),
                        ),
                    ),
                ),
            ),
        ),
    )
}

/// Maps each element of `input` into `output`; equal lengths are required,
/// and an empty input needs no launch.
pub open spec fn unary_plan(
    kernel: Kernel,
    family: Family,
    input: DeviceBuffer,
    output: DeviceBuffer,
) -> PlanView {
    PlanView::checked(length_check("bf16", "buffer 1 has", output.len, input.len)).followed_by(
        if input.len == 0 {
            PlanView::done()
        } else {
            PlanView::launch(
                kernel,
                Shape::Elements { count: input.len, block_size: family.width },
                Arguments::Unary {
                    input: input.id,
                    output: output.id,
                    count: input.len as u64,
                },
            )
        },
    )
}

/// Widens packed bf16 to `f32`.
pub open spec fn widen_plan(family: Family, input: DeviceBuffer, output: DeviceBuffer) -> PlanView {
    unary_plan(Kernel::Bf16Widen, family, input, output)
}

/// Narrows `f32` to packed bf16.
pub open spec fn narrow_plan(family: Family, input: DeviceBuffer, output: DeviceBuffer) -> PlanView {
    unary_plan(Kernel::Bf16Narrow, family, input, output)
}

/// Adds two packed-bf16 buffers.
pub open spec fn bf16_vector_add_plan(
    family: Family,
    left: DeviceBuffer,
    right: DeviceBuffer,
    output: DeviceBuffer,
) -> PlanView {
    PlanView::checked(
        both(
            length_check("bf16", "buffer 1 has", right.len, left.len),
            length_check("bf16", "buffer 2 has", output.len, left.len),
        ),
    ).followed_by(
        if output.len == 0 {
            PlanView::done()
        } else {
            PlanView::launch(
                Kernel::Bf16VectorAdd,
                Shape::Elements { count: output.len, block_size: family.width },
                Arguments::Binary {
                    left: left.id,
                    right: right.id,
                    output: output.id,
                    count: output.len as u64,
                },
            )
        },
    )
}

/// Multiplies a packed-bf16 buffer by a scalar.
pub open spec fn bf16_scale_plan(
    family: Family,
    input: DeviceBuffer,
    output: DeviceBuffer,
    scale: F32,
) -> PlanView {
    PlanView::checked(length_check("bf16", "buffer 1 has", output.len, input.len)).followed_by(
        if output.len == 0 {
            PlanView::done()
        } else {
            PlanView::launch(
                Kernel::Bf16Scale,
                Shape::Elements { count: input.len, block_size: family.width },
                Arguments::Scale {
                    input: input.id,
                    output: output.id,
                    scale,
                    count: input.len as u64,
                },
            )
        },
    )
}

/// Multiplies a packed-bf16 buffer by a scalar and adds another.
pub open spec fn bf16_affine_plan(
    family: Family,
    input: DeviceBuffer,
    output: DeviceBuffer,
    scale: F32,
    bias: F32,
) -> PlanView {
    PlanView::checked(length_check("bf16", "buffer 1 has", output.len, input.len)).followed_by(
        if output.len == 0 {
            PlanView::done()
        } else {
            PlanView::launch(
                Kernel::Bf16Affine,
                Shape::Elements { count: input.len, block_size: family.width },
                Arguments::Affine {
                    input: input.id,
                    output: output.id,
                    scale,
                    bias,
                    count: input.len as u64,
                },
            )
        },
    )
}

impl Bf16Elementwise {
    #[verifier::type_invariant]
    spec fn ready(self) -> bool {
        self.family.width > 0
    }

    /// Checks a block width before anything is compiled.
    pub fn check_block_size(block_size: u32) -> (check: Checked)
        ensures
            check == nonzero_check("bf16 block size is zero", block_size),
    {
        check_nonzero("bf16 block size is zero", block_size)
    }

    /// Accepts the compiled functions with the default block width.
    pub fn load(
        context: ContextId,
        probes: &Bf16Probes,
    ) -> (result: Result<Bf16Elementwise, KernelError>)
        ensures
            loads(
                result,
                bf16_load_check(DEFAULT_BLOCK_SIZE, *probes),
                Family { context, width: DEFAULT_BLOCK_SIZE },
            ),
    {
        Self::load_with_block_size(context, DEFAULT_BLOCK_SIZE, probes)
    }

    /// Accepts the compiled functions with an explicitly selected width.
    pub fn load_with_block_size(
        context: ContextId,
        block_size: u32,
        probes: &Bf16Probes,
    ) -> (result: Result<Bf16Elementwise, KernelError>)
        ensures
            loads(
                result,
                bf16_load_check(block_size, *probes),
                Family { context, width: block_size },
            ),
    {
        check_nonzero("bf16 block size is zero", block_size)?;
        check_threads("bf16 vector_add", block_size, probes.vector_add)?;
        check_threads("bf16 scale", block_size, probes.scale)?;
        check_threads("bf16 affine", block_size, probes.affine)?;
        check_threads("bf16 relu", block_size, probes.relu)?;
        check_threads("bf16 silu", block_size, probes.silu)?;
        check_threads("bf16 gelu_tanh", block_size, probes.gelu_tanh)?;
        check_threads("bf16 widen", block_size, probes.widen)?;
        check_threads("bf16 narrow", block_size, probes.narrow)?;
        Ok(Bf16Elementwise { family: Family { context, width: block_size } })
    }

    /// Thread-block width used by this kernel family.
    pub fn block_size(&self) -> (width: u32)
        ensures
            width == self@.width,
            width > 0,
    {
        proof {
            use_type_invariant(self);
        }
        self.family.width
    }

    /// Plans the exact widening of packed bf16 to `f32` with a wait.
    pub fn widen(
        &self,
        stream: &Stream,
        input: &DeviceBuffer,
        output: &DeviceBuffer,
    ) -> (plan: Plan)
        ensures
            plan@ == awaited(widen_plan(self@, *input, *output)),
    {
        self.enqueue_widen(stream, input, output).awaited()
    }

    /// Plans the exact widening of packed bf16 to `f32` without a wait.
    pub fn enqueue_widen(
        &self,
        _stream: &Stream,
        input: &DeviceBuffer,
        output: &DeviceBuffer,
    ) -> (plan: Plan)
        ensures
            plan@ == widen_plan(self@, *input, *output),
    {
        self.plan_unary(Kernel::Bf16Widen, input, output)
    }

    /// Plans the narrowing of `f32` to packed bf16 with a wait.
    pub fn narrow(
        &self,
        stream: &Stream,
        input: &DeviceBuffer,
        output: &DeviceBuffer,
    ) -> (plan: Plan)
        ensures
            plan@ == awaited(narrow_plan(self@, *input, *output)),
    {
        self.enqueue_narrow(stream, input, output).awaited()
    }

    /// Plans the narrowing of `f32` to packed bf16 without a wait.
    pub fn enqueue_narrow(
        &self,
        _stream: &Stream,
        input: &DeviceBuffer,
        output: &DeviceBuffer,
    ) -> (plan: Plan)
        ensures
            plan@ == narrow_plan(self@, *input, *output),
    {
        self.plan_unary(Kernel::Bf16Narrow, input, output)
    }

    /// Plans rectified linear units with a wait.
    pub fn relu(&self, stream: &Stream, input: &DeviceBuffer, output: &DeviceBuffer) -> (plan: Plan)
        ensures
            plan@ == awaited(unary_plan(Kernel::Bf16Relu, self@, *input, *output)),
    {
        self.enqueue_relu(stream, input, output).awaited()
    }

    /// Plans rectified linear units without a wait.
    pub fn enqueue_relu(
        &self,
        _stream: &Stream,
        input: &DeviceBuffer,
        output: &DeviceBuffer,
    ) -> (plan: Plan)
        ensures
            plan@ == unary_plan(Kernel::Bf16Relu, self@, *input, *output),
    {
        self.plan_unary(Kernel::Bf16Relu, input, output)
    }

    /// Plans SiLU with a wait.
    pub fn silu(&self, stream: &Stream, input: &DeviceBuffer, output: &DeviceBuffer) -> (plan: Plan)
        ensures
            plan@ == awaited(unary_plan(Kernel::Bf16Silu, self@, *input, *output)),
    {
        self.enqueue_silu(stream, input, output).awaited()
    }

    /// Plans SiLU without a wait.
    pub fn enqueue_silu(
        &self,
        _stream: &Stream,
        input: &DeviceBuffer,
        output: &DeviceBuffer,
    ) -> (plan: Plan)
        ensures
            plan@ == unary_plan(Kernel::Bf16Silu, self@, *input, *output),
    {
        self.plan_unary(Kernel::Bf16Silu, input, output)
    }

    /// Plans tanh-approximated GELU with a wait.
    pub fn gelu_tanh(
        &self,
        stream: &Stream,
        input: &DeviceBuffer,
        output: &DeviceBuffer,
    ) -> (plan: Plan)
        ensures
            plan@ == awaited(unary_plan(Kernel::Bf16GeluTanh, self@, *input, *output)),
    {
        self.enqueue_gelu_tanh(stream, input, output).awaited()
    }

    /// Plans tanh-approximated GELU without a wait.
    pub fn enqueue_gelu_tanh(
        &self,
        _stream: &Stream,
        input: &DeviceBuffer,
        output: &DeviceBuffer,
    ) -> (plan: Plan)
        ensures
            plan@ == unary_plan(Kernel::Bf16GeluTanh, self@, *input, *output),
    {
        self.plan_unary(Kernel::Bf16GeluTanh, input, output)
    }

    fn plan_unary(
        &self,
        kernel: Kernel,
        input: &DeviceBuffer,
        output: &DeviceBuffer,
    ) -> (plan: Plan)
        ensures
            plan@ == unary_plan(kernel, self@, *input, *output),
    {
        let check = check_length("bf16", "buffer 1 has", output.len, input.len);
        let work = if input.len == 0 {
            Plan::done()
        } else {
            Plan::launch(
                kernel,
                Shape::Elements { count: input.len, block_size: self.family.width },
                Arguments::Unary {
                    input: input.id,
                    output: output.id,
                    count: input.len as u64,
                },
            )
        };
        Plan::checked(check).followed_by(work)
    }

    /// Plans the addition of two equal-length packed-bf16 buffers with a wait.
    pub fn vector_add(
        &self,
        stream: &Stream,
        left: &DeviceBuffer,
        right: &DeviceBuffer,
        output: &DeviceBuffer,
    ) -> (plan: Plan)
        ensures
            plan@ == awaited(bf16_vector_add_plan(self@, *left, *right, *output)),
    {
        self.enqueue_vector_add(stream, left, right, output).awaited()
    }

    /// Plans the addition without a wait.
    pub fn enqueue_vector_add(
        &self,
        _stream: &Stream,
        left: &DeviceBuffer,
        right: &DeviceBuffer,
        output: &DeviceBuffer,
    ) -> (plan: Plan)
        ensures
            plan@ == bf16_vector_add_plan(self@, *left, *right, *output),
    {
        let right_check = check_length("bf16", "buffer 1 has", right.len, left.len);
        let output_check = check_length("bf16", "buffer 2 has", output.len, left.len);
        let check = match right_check {
            Err(_) => right_check,
            Ok(()) => output_check,
        };
        let work = if output.len == 0 {
            Plan::done()
        } else {
            Plan::launch(
                Kernel::Bf16VectorAdd,
                Shape::Elements { count: output.len, block_size: self.family.width },
                Arguments::Binary {
                    left: left.id,
                    right: right.id,
                    output: output.id,
                    count: output.len as u64,
                },
            )
        };
        Plan::checked(check).followed_by(work)
    }

    /// Plans the multiplication of each element by `scale` with a wait.
    pub fn scale(
        &self,
        stream: &Stream,
        input: &DeviceBuffer,
        output: &DeviceBuffer,
        scale: F32,
    ) -> (plan: Plan)
        ensures
            plan@ == awaited(bf16_scale_plan(self@, *input, *output, scale)),
    {
        self.enqueue_scale(stream, input, output, scale).awaited()
    }

    /// Plans the scaling without a wait.
    pub fn enqueue_scale(
        &self,
        _stream: &Stream,
        input: &DeviceBuffer,
        output: &DeviceBuffer,
        scale: F32,
    ) -> (plan: Plan)
        ensures
            plan@ == bf16_scale_plan(self@, *input, *output, scale),
    {
        let check = check_length("bf16", "buffer 1 has", output.len, input.len);
        let work = if output.len == 0 {
            Plan::done()
        } else {
            Plan::launch(
                Kernel::Bf16Scale,
                Shape::Elements { count: input.len, block_size: self.family.width },
                Arguments::Scale {
                    input: input.id,
                    output: output.id,
                    scale,
                    count: input.len as u64,
                },
            )
        };
        Plan::checked(check).followed_by(work)
    }

    /// Plans `output = input * scale + bias` on widened values with a wait.
    pub fn affine(
        &self,
        stream: &Stream,
        input: &DeviceBuffer,
        output: &DeviceBuffer,
        scale: F32,
        bias: F32,
    ) -> (plan: Plan)
        ensures
            plan@ == awaited(bf16_affine_plan(self@, *input, *output, scale, bias)),
    {
        self.enqueue_affine(stream, input, output, scale, bias).awaited()
    }

    /// Plans the affine transformation without a wait.
    pub fn enqueue_affine(
        &self,
        _stream: &Stream,
        input: &DeviceBuffer,
        output: &DeviceBuffer,
        scale: F32,
        bias: F32,
    ) -> (plan: Plan)
        ensures
            plan@ == bf16_affine_plan(self@, *input, *output, scale, bias),
    {
        let check = check_length("bf16", "buffer 1 has", output.len, input.len);
        let work = if output.len == 0 {
            Plan::done()
        } else {
            Plan::launch(
                Kernel::Bf16Affine,
                Shape::Elements { count: input.len, block_size: self.family.width },
                Arguments::Affine {
                    input: input.id,
                    output: output.id,
                    scale,
                    bias,
                    count: input.len as u64,
                },
            )
        };
        Plan::checked(check).followed_by(work)
    }
}

} // verus!
