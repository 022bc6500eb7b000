//! Rotary position embeddings for row-major `[rows, cols]` tensors with even
//! `cols`, with per-row angle caches of shape `[rows, cols / 2]`.
//!
//! Two pairing conventions: adjacent pairs `(x[2j], x[2j+1])`, and half pairs
//! `(x[j], x[j+half])`.

use crate::arith::fits;
use crate::device::{ContextId, DeviceBuffer, Probe, Stream};
use crate::error::{Checked, KernelError};
use crate::family::{
    both, check_nonzero, check_threads, loads, nonzero_check, threads_check, Family,
};
use crate::launch::{Arguments, Kernel, Shape};
use crate::plan::{Plan, PlanView};
use vstd::prelude::*;

verus! {

/// The block width of [`F32Rope::load`].
pub const DEFAULT_BLOCK_SIZE: u32 = 256;

/// Attributes of the rotation functions, as the driver reported them.
#[derive(Clone, Copy, Debug)]
pub struct RopeProbes {
    pub interleaved: Probe,
    pub rotate_half: Probe,
}

/// Context-bound rotary position embedding kernels.
#[derive(Debug)]
pub struct F32Rope {
    family: Family,
}

impl View for F32Rope {
    type V = Family;

    closed spec fn view(&self) -> Family {
        self.family
    }
}

/// The operands and the shape of a rotation.
#[derive(Clone, Copy, Debug, PartialEq, Eq, Structural)]
pub struct Rotation {
    pub input: DeviceBuffer,
    pub cos: DeviceBuffer,
    pub sin: DeviceBuffer,
    pub output: DeviceBuffer,
    pub rows: usize,
    pub cols: usize,
}

/// All checks of loading, in the order in which they decide.
pub open spec fn rope_load_check(width: u32, probes: RopeProbes) -> Checked {
    both(
        nonzero_check("rope block size is zero", width),
        both(
            threads_check("rope interleaved", width, probes.interleaved),
            threads_check("rope rotate_half", width, probes.rotate_half),
        ),
    )
}

/// The entries of either angle cache.
pub open spec fn cache_length(rows: usize, cols: usize) -> int {
    rows * (cols / 2)
}

/// The first rule that the operands break.
pub open spec fn rope_check(family: Family, stream: Stream, p: Rotation) -> Checked {
    if p.cols % 2 != 0 {
        Err(KernelError::OddWidth { cols: p.cols })
    } else if !fits(p.rows * p.cols) {
        Err(KernelError::Fixed("rope shape overflows usize"))
    } else if p.input.len != p.rows * p.cols {
        Err(
            KernelError::Shape {
                family: "rope",
                operand: "input has",
                actual: p.input.len,
                unit: "elements",
                rows: p.rows,
                cols: p.cols,
                required: (p.rows * p.cols) as usize,
            },
        )
    } else if p.output.len != p.rows * p.cols {
        Err(
            KernelError::Shape {
                family: "rope",
                operand: "output has",
                actual: p.output.len,
                unit: "elements",
                rows: p.rows,
                cols: p.cols,
                required: (p.rows * p.cols) as usize,
            },
        )
    } else if p.cos.len != cache_length(p.rows, p.cols) {
        Err(
            KernelError::Holds {
                family: "rope",
                operand: "cos cache",
                actual: p.cos.len,
                requirement: "expected",
                expected: cache_length(p.rows, p.cols) as usize,
            },
        )
    } else if p.sin.len != cache_length(p.rows, p.cols) {
        Err(
            KernelError::Holds {
                family: "rope",
                operand: "sin cache",
                actual: p.sin.len,
                requirement: "expected",
                expected: cache_length(p.rows, p.cols) as usize,
            },
        )
    } else if stream.context != family.context || p.input.context != family.context
        || p.output.context != family.context || p.cos.context != family.context || p.sin.context
        != family.context {
        Err(KernelError::Fixed("rope stream, buffers, and kernels must share one context"))
    } else {
        Ok(())
    }
}

/// What a rotation does: one thread per pair, nothing for an empty tensor.
pub open spec fn rope_plan(
    kernel: Kernel,
    family: Family,
    stream: Stream,
    p: Rotation,
) -> PlanView {
    PlanView::checked(rope_check(family, stream, p)).followed_by(
        if p.rows == 0 || p.cols == 0 {
            PlanView::done()
        } else {
            PlanView::launch(
                kernel,
                Shape::Elements {
                    count: cache_length(p.rows, p.cols) as usize,
                    block_size: family.width,
                },
                Arguments::Rope {
                    input: p.input.id,
                    cos: p.cos.id,
                    sin: p.sin.id,
                    output: p.output.id,
                    rows: p.rows as u64,
                    half: (p.cols / 2) as u64,
                },
            )
        },
    )
}

proof fn cache_fits(rows: usize, cols: usize)
    requires
        fits(rows * cols),
    ensures
        0 <= cache_length(rows, cols) <= rows * cols,
{
    assert(rows * (cols / 2) <= rows * cols) by (nonlinear_arith)
        requires
            cols / 2 <= cols,
            rows >= 0,
    ;
    assert(0 <= rows * (cols / 2)) by (nonlinear_arith);
}

impl F32Rope {
    #[verifier::type_invariant]
    spec fn ready(self) -> bool {
        self.family.width > 0
    }

    /// Checks a block width before anything is compiled.
    pub fn check_block_size(block_size: u32) -> (check: Checked)
        ensures
            check == nonzero_check("rope block size is zero", block_size),
    {
        check_nonzero("rope block size is zero", block_size)
    }

    /// Accepts the compiled functions with the default block width.
    pub fn load(context: ContextId, probes: &RopeProbes) -> (result: Result<F32Rope, KernelError>)
        ensures
            loads(
                result,
                rope_load_check(DEFAULT_BLOCK_SIZE, *probes),
                Family { context, width: DEFAULT_BLOCK_SIZE },
            ),
    {
        Self::load_with_block_size(context, DEFAULT_BLOCK_SIZE, probes)
    }

    /// Accepts the compiled functions with an explicitly selected width.
    pub fn load_with_block_size(
        context: ContextId,
        block_size: u32,
        probes: &RopeProbes,
    ) -> (result: Result<F32Rope, KernelError>)
        ensures
            loads(
                result,
                rope_load_check(block_size, *probes),
                Family { context, width: block_size },
            ),
    {
        check_nonzero("rope block size is zero", block_size)?;
        check_threads("rope interleaved", block_size, probes.interleaved)?;
        check_threads("rope rotate_half", block_size, probes.rotate_half)?;
        Ok(F32Rope { family: Family { context, width: block_size } })
    }

    /// Thread-block width of both rotations.
    pub fn block_size(&self) -> (width: u32)
        ensures
            width == self@.width,
            width > 0,
    {
        proof {
            use_type_invariant(self);
        }
        self.family.width
    }

    /// Plans the adjacent-pair rotation with a wait.
    pub fn apply_interleaved(
        &self,
        stream: &Stream,
        input: &DeviceBuffer,
        cos: &DeviceBuffer,
        sin: &DeviceBuffer,
        output: &DeviceBuffer,
        rows: usize,
        cols: usize,
    ) -> (plan: Plan)
        ensures
            plan@ == rope_plan(
                Kernel::RopeInterleaved,
                self@,
                *stream,
                Rotation { input: *input, cos: *cos, sin: *sin, output: *output, rows, cols },
            ).synchronized(),
    {
        self.enqueue_interleaved(stream, input, cos, sin, output, rows, cols).synchronized()
    }

    /// Plans the half-split rotation with a wait.
    pub fn apply_rotate_half(
        &self,
        stream: &Stream,
        input: &DeviceBuffer,
        cos: &DeviceBuffer,
        sin: &DeviceBuffer,
        output: &DeviceBuffer,
        rows: usize,
        cols: usize,
    ) -> (plan: Plan)
        ensures
            plan@ == rope_plan(
                Kernel::RopeRotateHalf,
                self@,
                *stream,
                Rotation { input: *input, cos: *cos, sin: *sin, output: *output, rows, cols },
            ).synchronized(),
    {
        self.enqueue_rotate_half(stream, input, cos, sin, output, rows, cols).synchronized()
    }

    /// Plans the adjacent-pair rotation without a wait.
    pub fn enqueue_interleaved(
        &self,
        stream: &Stream,
        input: &DeviceBuffer,
        cos: &DeviceBuffer,
        sin: &DeviceBuffer,
        output: &DeviceBuffer,
        rows: usize,
        cols: usize,
    ) -> (plan: Plan)
        ensures
            plan@ == rope_plan(
                Kernel::RopeInterleaved,
                self@,
                *stream,
                Rotation { input: *input, cos: *cos, sin: *sin, output: *output, rows, cols },
            ),
    {
        let p = &Rotation { input: *input, cos: *cos, sin: *sin, output: *output, rows, cols };
        self.enqueue_rotation(Kernel::RopeInterleaved, stream, p)
    }

    /// Plans the half-split rotation without a wait.
    pub fn enqueue_rotate_half(
        &self,
        stream: &Stream,
        input: &DeviceBuffer,
        cos: &DeviceBuffer,
        sin: &DeviceBuffer,
        output: &DeviceBuffer,
        rows: usize,
        cols: usize,
    ) -> (plan: Plan)
        ensures
            plan@ == rope_plan(
                Kernel::RopeRotateHalf,
                self@,
                *stream,
                Rotation { input: *input, cos: *cos, sin: *sin, output: *output, rows, cols },
            ),
    {
        let p = &Rotation { input: *input, cos: *cos, sin: *sin, output: *output, rows, cols };
        self.enqueue_rotation(Kernel::RopeRotateHalf, stream, p)
    }

    fn enqueue_rotation(&self, kernel: Kernel, stream: &Stream, p: &Rotation) -> (plan: Plan)
        ensures
            plan@ == rope_plan(kernel, self@, *stream, *p),
    {
        match self.validate(stream, p) {
            Err(error) => {
                return Plan::rejected(error);
            },
            Ok(()) => {},
        }
        if p.rows == 0 || p.cols == 0 {
            return Plan::done();
        }
        proof {
            cache_fits(p.rows, p.cols);
        }
        Plan::launch(
            kernel,
            Shape::Elements { count: p.rows * (p.cols / 2), block_size: self.family.width },
            Arguments::Rope {
                input: p.input.id,
                cos: p.cos.id,
                sin: p.sin.id,
                output: p.output.id,
                rows: p.rows as u64,
                half: (p.cols / 2) as u64,
            },
        )
    }

    /// Checks the operands.
    pub fn validate(&self, stream: &Stream, p: &Rotation) -> (check: Checked)
        ensures
            check == rope_check(self@, *stream, *p),
    {
        if p.cols % 2 != 0 {
            return Err(KernelError::OddWidth { cols: p.cols });
        }
        let count: usize = match p.rows.checked_mul(p.cols) {
            Some(count) => count,
            None => {
                return Err(KernelError::Fixed("rope shape overflows usize"));
            },
        };
        proof {
            cache_fits(p.rows, p.cols);
        }
        let cache: usize = p.rows * (p.cols / 2);
        if p.input.len != count {
            return Err(
                KernelError::Shape {
                    family: "rope",
                    operand: "input has",
                    actual: p.input.len,
                    unit: "elements",
                    rows: p.rows,
                    cols: p.cols,
                    required: count,
                },
            );
        }
        if p.output.len != count {
            return Err(
                KernelError::Shape {
                    family: "rope",
                    operand: "output has",
                    actual: p.output.len,
                    unit: "elements",
                    rows: p.rows,
                    cols: p.cols,
                    required: count,
                },
            );
        }
        if p.cos.len != cache {
            return Err(
                KernelError::Holds {
                    family: "rope",
                    operand: "cos cache",
                    actual: p.cos.len,
                    requirement: "expected",
                    expected: cache,
                },
            );
        }
        if p.sin.len != cache {
            return Err(
                KernelError::Holds {
                    family: "rope",
                    operand: "sin cache",
                    actual: p.sin.len,
                    requirement: "expected",
                    expected: cache,
                },
            );
        }
        let context = self.family.context;
        if stream.context != context || p.input.context != context || p.output.context != context
            || p.cos.context != context || p.sin.context != context {
            return Err(
                KernelError::Fixed("rope stream, buffers, and kernels must share one context"),
            );
        }
        Ok(())
    }
}

/// The columns of adjacent pair `pair`.
pub open spec fn interleaved_pair(pair: int) -> (int, int) {
    (2 * pair, 2 * pair + 1)
}

/// The columns of half-split pair `pair`.
pub open spec fn half_pair(half: int, pair: int) -> (int, int) {
    (pair, pair + half)
}

/// Either convention pairs every column of an even-width row with exactly one
/// other: column `col` belongs to one pair and to no second one.
pub proof fn pairs_partition_the_row(half: int, col: int, pair: int)
    requires
        half > 0,
        0 <= col < 2 * half,
        0 <= pair < half,
    ensures
        0 <= col / 2 < half,
        interleaved_pair(col / 2).0 == col || interleaved_pair(col / 2).1 == col,
        interleaved_pair(pair).0 == col || interleaved_pair(pair).1 == col ==> pair == col / 2,
        0 <= col % half < half,
        half_pair(half, col % half).0 == col || half_pair(half, col % half).1 == col,
        half_pair(half, pair).0 == col || half_pair(half, pair).1 == col ==> pair == col % half,
{
    if col < half {
        vstd::arithmetic::div_mod::lemma_small_mod(col as nat, half as nat);
    } else {
        vstd::arithmetic::div_mod::lemma_fundamental_div_mod_converse(col, half, 1, col - half);
    }
}

/// Each thread of an accepted rotation has its own pair of a row and its own
/// cache entry, all inside the buffers.
pub proof fn rotation_stays_inside(
    family: Family,
    stream: Stream,
    p: Rotation,
    row: int,
    pair: int,
)
    requires
        rope_check(family, stream, p) is Ok,
        0 <= row < p.rows,
        0 <= pair < p.cols / 2,
    ensures
        0 <= row * (p.cols / 2) + pair < p.cos.len,
        0 <= row * (p.cols / 2) + pair < p.sin.len,
        0 <= row * p.cols + interleaved_pair(pair).1 < p.input.len,
        0 <= row * p.cols + half_pair((p.cols / 2) as int, pair).1 < p.output.len,
{
    let half = (p.cols / 2) as int;
    let cols = p.cols as int;
    assert(0 <= row * half + pair < p.rows * half) by (nonlinear_arith)
        requires
            0 <= row,
            row + 1 <= p.rows,
            0 <= pair < half,
    ;
    assert(0 <= row * cols && row * cols + cols <= p.rows * cols) by (nonlinear_arith)
        requires
            0 <= row,
            row + 1 <= p.rows,
            cols >= 0,
    ;
}

/// A refused rotation submits nothing.
pub proof fn refused_rotation_submits_nothing(
    kernel: Kernel,
    family: Family,
    stream: Stream,
    p: Rotation,
)
    ensures
        rope_plan(kernel, family, stream, p).outcome is Err ==> rope_plan(
            kernel,
            family,
            stream,
            p,
        ).steps.len() == 0,
{
}

} // verus!
