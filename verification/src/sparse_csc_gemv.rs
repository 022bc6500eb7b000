//! Batch-one projection with `f32` activations and sparse CSC `f32` weights.
//!
//! Each output column owns one contiguous slice of retained weights described
//! by `column_offsets[col]..column_offsets[col + 1]`.

use crate::arith::{fits, power_of_two};
use crate::device::{ContextId, DeviceBuffer, Probe, Stream};
use crate::error::{Checked, KernelError};
use crate::family::{
    both, block_check, check_block, check_threads, loads, threads_check, Family,
};
use crate::gemv::{check_exact_length, exact_length};
use crate::launch::{Arguments, Kernel, Shape};
use crate::plan::{Action, Plan, PlanView};
use vstd::prelude::*;

verus! {

/// The block width of [`F32SparseCscGemv::load`].
pub const DEFAULT_BLOCK_SIZE: u32 = 64;

/// Context-bound sparse CSC `[1,K] x [K,N] -> [1,N]` projection.
#[derive(Debug)]
pub struct F32SparseCscGemv {
    family: Family,
}

impl View for F32SparseCscGemv {
    type V = Family;

    closed spec fn view(&self) -> Family {
        self.family
    }
}

/// The operands and the shape of a sparse CSC projection.
#[derive(Clone, Copy, Debug, PartialEq, Eq, Structural)]
pub struct SparseProjection {
    pub input: DeviceBuffer,
    pub column_offsets: DeviceBuffer,
    pub row_indices: DeviceBuffer,
    pub values: DeviceBuffer,
    pub output: DeviceBuffer,
    pub k: usize,
    pub n: usize,
}

/// All checks of loading, in the order in which they decide.
pub open spec fn sparse_load_check(width: u32, probe: Probe) -> Checked {
    both(
        block_check("f32-sparse-csc project", width),
        threads_check("f32-sparse-csc project", width, probe),
    )
}

/// The first rule that the operands break.
pub open spec fn sparse_check(family: Family, stream: Stream, p: SparseProjection) -> Checked {
    if p.input.len != p.k {
        exact_length("f32-sparse-csc project", "input has", p.input.len, p.k)
    } else if !fits(p.n + 1) {
        Err(KernelError::Fixed("f32-sparse-csc offset count overflows usize"))
    } else if p.column_offsets.len != p.n + 1 {
        Err(
            KernelError::Length {
                family: "f32-sparse-csc",
                operand: "column offsets has",
                actual: p.column_offsets.len,
                unit: "entries",
                required: (p.n + 1) as usize,
            },
        )
    } else if p.row_indices.len != p.values.len {
        Err(KernelError::SparseEntries { indices: p.row_indices.len, values: p.values.len })
    } else if p.k == 0 && p.values.len != 0 {
        Err(KernelError::Fixed("f32-sparse-csc cannot retain values when K is zero"))
    } else if p.output.len != p.n {
        exact_length("f32-sparse-csc project", "output has", p.output.len, p.n)
    } else if stream.context != family.context
        || p.input.context != family.context
        || p.column_offsets.context != family.context
        || p.row_indices.context != family.context
        || p.values.context != family.context
        || p.output.context != family.context {
        Err(
            KernelError::Fixed(
                "f32-sparse-csc project stream, buffers and kernel must share one context",
            ),
        )
    } else {
        Ok(())
    }
}

/// What a projection does: nothing without outputs, zeroing without
/// retained values, one thread per output otherwise.
pub open spec fn sparse_plan(family: Family, stream: Stream, p: SparseProjection) -> PlanView {
    PlanView::checked(sparse_check(family, stream, p)).followed_by(
        if p.n == 0 {
            PlanView::done()
        } else if p.values.len == 0 {
            PlanView::one(Action::Zero(p.output.id))
        } else {
            PlanView::launch(
                Kernel::ProjectSparseCsc,
                Shape::Elements { count: p.n, block_size: family.width },
                Arguments::ProjectSparseCsc {
                    input: p.input.id,
                    column_offsets: p.column_offsets.id,
                    row_indices: p.row_indices.id,
                    values: p.values.id,
                    output: p.output.id,
                    k: p.k as u64,
                    n: p.n as u64,
                    nnz: p.values.len as u64,
                },
            )
        },
    )
}

impl F32SparseCscGemv {
    #[verifier::type_invariant]
    spec fn ready(self) -> bool {
        power_of_two(self.family.width as nat)
    }

    /// Checks a block width before anything is compiled.
    pub fn check_block_size(block_size: u32) -> (check: Checked)
        ensures
            check == block_check("f32-sparse-csc project", block_size),
    {
        check_block("f32-sparse-csc project", block_size)
    }

    /// Accepts the compiled function with the default block width.
    pub fn load(context: ContextId, probe: Probe) -> (result: Result<F32SparseCscGemv, KernelError>)
        ensures
            loads(
                result,
                sparse_load_check(DEFAULT_BLOCK_SIZE, probe),
                Family { context, width: DEFAULT_BLOCK_SIZE },
            ),
    {
        Self::load_with_block_size(context, DEFAULT_BLOCK_SIZE, probe)
    }

    /// Accepts the compiled function with an explicit non-zero power-of-two
    /// width.
    pub fn load_with_block_size(
        context: ContextId,
        block_size: u32,
        probe: Probe,
    ) -> (result: Result<F32SparseCscGemv, KernelError>)
        ensures
            loads(
                result,
                sparse_load_check(block_size, probe),
                Family { context, width: block_size },
            ),
    {
        check_block("f32-sparse-csc project", block_size)?;
        check_threads("f32-sparse-csc project", block_size, probe)?;
        Ok(F32SparseCscGemv { family: Family { context, width: block_size } })
    }

    /// Thread-block width of the projection.
    pub fn block_size(&self) -> (width: u32)
        ensures
            width == self@.width,
            power_of_two(width as nat),
    {
        proof {
            use_type_invariant(self);
        }
        self.family.width
    }

    /// Plans one projection with a wait for completion.
    pub fn project_kn(
        &self,
        stream: &Stream,
        input: &DeviceBuffer,
        column_offsets: &DeviceBuffer,
        row_indices: &DeviceBuffer,
        values: &DeviceBuffer,
        output: &DeviceBuffer,
        k: usize,
        n: usize,
    ) -> (plan: Plan)
        ensures
            plan@ == sparse_plan(
                self@,
                *stream,
                SparseProjection {
                    input: *input,
                    column_offsets: *column_offsets,
                    row_indices: *row_indices,
                    values: *values,
                    output: *output,
                    k,
                    n,
                },
            ).synchronized(),
    {
        self.enqueue_project_kn(
            stream,
            input,
            column_offsets,
            row_indices,
            values,
            output,
            k,
            n,
        ).synchronized()
    }

    /// Plans one projection without a wait.
    pub fn enqueue_project_kn(
        &self,
        stream: &Stream,
        input: &DeviceBuffer,
        column_offsets: &DeviceBuffer,
        row_indices: &DeviceBuffer,
        values: &DeviceBuffer,
        output: &DeviceBuffer,
        k: usize,
        n: usize,
    ) -> (plan: Plan)
        ensures
            plan@ == sparse_plan(
                self@,
                *stream,
                SparseProjection {
                    input: *input,
                    column_offsets: *column_offsets,
                    row_indices: *row_indices,
                    values: *values,
                    output: *output,
                    k,
                    n,
                },
            ),
    {
        let p = &SparseProjection {
            input: *input,
            column_offsets: *column_offsets,
            row_indices: *row_indices,
            values: *values,
            output: *output,
            k,
            n,
        };
        let check = self.validate_execution(stream, p);
        let work = if p.n == 0 {
            Plan::done()
        } else if p.values.len == 0 {
            Plan::one(Action::Zero(p.output.id))
        } else {
            Plan::launch(
                Kernel::ProjectSparseCsc,
                Shape::Elements { count: p.n, block_size: self.family.width },
                Arguments::ProjectSparseCsc {
                    input: p.input.id,
                    column_offsets: p.column_offsets.id,
                    row_indices: p.row_indices.id,
                    values: p.values.id,
                    output: p.output.id,
                    k: p.k as u64,
                    n: p.n as u64,
                    nnz: p.values.len as u64,
                },
            )
        };
        Plan::checked(check).followed_by(work)
    }

    /// Checks the operands.
    pub fn validate_execution(&self, stream: &Stream, p: &SparseProjection) -> (check: Checked)
        ensures
            check == sparse_check(self@, *stream, *p),
    {
        check_exact_length("f32-sparse-csc project", "input has", p.input.len, p.k)?;
        let expected: usize = match p.n.checked_add(1) {
            Some(entries) => entries,
            None => {
                return Err(KernelError::Fixed("f32-sparse-csc offset count overflows usize"));
            },
        };
        if p.column_offsets.len != expected {
            return Err(
                KernelError::Length {
                    family: "f32-sparse-csc",
                    operand: "column offsets has",
                    actual: p.column_offsets.len,
                    unit: "entries",
                    required: expected,
                },
            );
        }
        if p.row_indices.len != p.values.len {
            return Err(
                KernelError::SparseEntries { indices: p.row_indices.len, values: p.values.len },
            );
        }
        if p.k == 0 && p.values.len != 0 {
            return Err(KernelError::Fixed("f32-sparse-csc cannot retain values when K is zero"));
        }
        check_exact_length("f32-sparse-csc project", "output has", p.output.len, p.n)?;
        let context = self.family.context;
        if stream.context != context
            || p.input.context != context
            || p.column_offsets.context != context
            || p.row_indices.context != context
            || p.values.context != context
            || p.output.context != context {
            return Err(
                KernelError::Fixed(
                    "f32-sparse-csc project stream, buffers and kernel must share one context",
                ),
            );
        }
        Ok(())
    }
}

/// A refused projection submits nothing.
pub proof fn refused_sparse_submits_nothing(family: Family, stream: Stream, p: SparseProjection)
    ensures
        sparse_plan(family, stream, p).outcome is Err ==> sparse_plan(
            family,
            stream,
            p,
        ).steps.len() == 0,
{
}

/// A projection that launches has an input to read for every retained value:
/// values are never retained over an empty input.
pub proof fn retained_values_have_inputs(family: Family, stream: Stream, p: SparseProjection)
    requires
        sparse_check(family, stream, p) is Ok,
        p.values.len > 0,
    ensures
        p.k > 0,
        p.input.len > 0,
        p.row_indices.len == p.values.len,
        p.column_offsets.len == p.n + 1,
{
}

} // verus!
