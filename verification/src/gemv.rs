//! Matrix-vector product `y = A * x` for row-major `f32` matrices: one thread
//! block computes one output element.

use crate::arith::{fits, power_of_two, to_u32};
use crate::device::{ContextId, DeviceBuffer, Probe, Stream};
use crate::error::{Checked, KernelError};
use crate::family::{
    both, block_check, bytes_check, check_block, check_limits, limits_check, loads, shared_bytes,
    Family,
};
use crate::launch::{line, line_shape, Arguments, Kernel};
use crate::plan::{Action, Plan, PlanView};
use vstd::prelude::*;

verus! {

/// The block width of [`F32Gemv::load`].
pub const DEFAULT_BLOCK_SIZE: u32 = 256;

/// Context-bound `f32` matrix-vector product.
#[derive(Debug)]
pub struct F32Gemv {
    family: Family,
}

impl View for F32Gemv {
    type V = Family;

    closed spec fn view(&self) -> Family {
        self.family
    }
}

/// The operands and the shape of a matrix-vector product.
#[derive(Clone, Copy, Debug, PartialEq, Eq, Structural)]
pub struct MatrixVector {
    pub matrix: DeviceBuffer,
    pub vector: DeviceBuffer,
    pub output: DeviceBuffer,
    pub rows: usize,
    pub cols: usize,
}

/// The checks on a block width that need no device.
pub open spec fn gemv_width_check(width: u32) -> Checked {
    both(
        block_check("gemv", width),
        bytes_check("gemv shared-memory size overflows", width, 4),
    )
}

/// All checks of loading, in the order in which they decide.
pub open spec fn gemv_load_check(width: u32, probe: Probe) -> Checked {
    both(gemv_width_check(width), limits_check("gemv", width, (width * 4) as u32, probe))
}

/// A buffer must have the length the shape requires.
pub open spec fn exact_length(
    family: &'static str,
    operand: &'static str,
    actual: usize,
    required: usize,
) -> Checked {
    if actual != required {
        Err(KernelError::Length { family, operand, actual, unit: "elements", required })
    } else {
        Ok(())
    }
}

/// The first rule that the operands break.
pub open spec fn gemv_check(family: Family, stream: Stream, p: MatrixVector) -> Checked {
    if !fits(p.rows * p.cols) {
        Err(KernelError::Fixed("gemv shape overflows usize"))
    } else if p.matrix.len != p.rows * p.cols {
        Err(
            KernelError::Shape {
                family: "gemv",
                operand: "matrix has",
                actual: p.matrix.len,
                unit: "elements",
                rows: p.rows,
                cols: p.cols,
                required: (p.rows * p.cols) as usize,
            },
        )
    } else if p.vector.len != p.cols {
        exact_length("gemv", "vector has", p.vector.len, p.cols)
    } else if p.output.len != p.rows {
        exact_length("gemv", "output has", p.output.len, p.rows)
    } else if stream.context != family.context || p.matrix.context != family.context
        || p.vector.context != family.context || p.output.context != family.context {
        Err(KernelError::Fixed("gemv stream, buffers, and kernel must share one context"))
    } else {
        Ok(())
    }
}

/// What a matrix-vector product does: zeroing where the matrix is empty, one
/// block per row otherwise.
pub open spec fn gemv_plan(family: Family, stream: Stream, p: MatrixVector) -> PlanView {
    PlanView::checked(gemv_check(family, stream, p)).followed_by(
        if p.rows == 0 || p.cols == 0 {
            PlanView::one(Action::Zero(p.output.id))
        } else if p.rows > u32::MAX {
            PlanView::rejected(KernelError::Fixed("gemv exceeds u32::MAX rows"))
        } else {
            PlanView::launch(
                Kernel::Gemv,
                line(p.rows as u32, family.width, (family.width * 4) as u32),
                Arguments::MatrixVector {
                    matrix: p.matrix.id,
                    vector: p.vector.id,
                    output: p.output.id,
                    cols: p.cols as u64,
                },
            )
        },
    )
}

/// Checks the length of a buffer.
pub fn check_exact_length(
    family: &'static str,
    operand: &'static str,
    actual: usize,
    required: usize,
) -> (check: Checked)
    ensures
        check == exact_length(family, operand, actual, required),
{
    if actual != required {
        Err(KernelError::Length { family, operand, actual, unit: "elements", required })
    } else {
        Ok(())
    }
}

impl F32Gemv {
    #[verifier::type_invariant]
    spec fn ready(self) -> bool {
        &&& power_of_two(self.family.width as nat)
        &&& self.family.width * 4 <= u32::MAX
    }

    /// Checks a block width before anything is compiled.
    pub fn check_block_size(block_size: u32) -> (check: Checked)
        ensures
            check == gemv_width_check(block_size),
    {
        check_block("gemv", block_size)?;
        shared_bytes("gemv shared-memory size overflows", block_size, 4)?;
        Ok(())
    }

    /// Accepts the compiled function with the default block width.
    pub fn load(context: ContextId, probe: Probe) -> (result: Result<F32Gemv, KernelError>)
        ensures
            loads(
                result,
                gemv_load_check(DEFAULT_BLOCK_SIZE, probe),
                Family { context, width: DEFAULT_BLOCK_SIZE },
            ),
    {
        Self::load_with_block_size(context, DEFAULT_BLOCK_SIZE, probe)
    }

    /// Accepts the compiled function with an explicitly selected
    /// power-of-two width.
    pub fn load_with_block_size(
        context: ContextId,
        block_size: u32,
        probe: Probe,
    ) -> (result: Result<F32Gemv, KernelError>)
        ensures
            loads(
                result,
                gemv_load_check(block_size, probe),
                Family { context, width: block_size },
            ),
    {
        check_block("gemv", block_size)?;
        let bytes: u32 = shared_bytes("gemv shared-memory size overflows", block_size, 4)?;
        check_limits("gemv", block_size, bytes, probe)?;
        Ok(F32Gemv { family: Family { context, width: block_size } })
    }

    /// Thread-block width used along each row.
    pub fn block_size(&self) -> (width: u32)
        ensures
            width == self@.width,
            power_of_two(width as nat),
    {
        proof {
            use_type_invariant(self);
        }
        self.family.width
    }

    /// Plans `output = matrix * vector` with a wait for completion. `matrix`
    /// holds `rows * cols` row-major elements, `vector` holds `cols`, and
    /// `output` receives `rows`.
    pub fn gemv(
        &self,
        stream: &Stream,
        matrix: &DeviceBuffer,
        vector: &DeviceBuffer,
        output: &DeviceBuffer,
        rows: usize,
        cols: usize,
    ) -> (plan: Plan)
        ensures
            plan@ == gemv_plan(
                self@,
                *stream,
                MatrixVector { matrix: *matrix, vector: *vector, output: *output, rows, cols },
            ).synchronized(),
    {
        self.enqueue_gemv(stream, matrix, vector, output, rows, cols).synchronized()
    }

    /// Plans the product without a wait.
    pub fn enqueue_gemv(
        &self,
        stream: &Stream,
        matrix: &DeviceBuffer,
        vector: &DeviceBuffer,
        output: &DeviceBuffer,
        rows: usize,
        cols: usize,
    ) -> (plan: Plan)
        ensures
            plan@ == gemv_plan(
                self@,
                *stream,
                MatrixVector { matrix: *matrix, vector: *vector, output: *output, rows, cols },
            ),
    {
        let p = &MatrixVector { matrix: *matrix, vector: *vector, output: *output, rows, cols };
        proof {
            use_type_invariant(self);
        }
        match self.validate_execution(stream, p) {
            Err(error) => {
                return Plan::rejected(error);
            },
            Ok(()) => {},
        }
        if p.rows == 0 || p.cols == 0 {
            return Plan::one(Action::Zero(p.output.id));
        }
        match to_u32(p.rows) {
            None => Plan::rejected(KernelError::Fixed("gemv exceeds u32::MAX rows")),
            Some(grid) => Plan::launch(
                Kernel::Gemv,
                line_shape(grid, self.family.width, self.family.width * 4),
                Arguments::MatrixVector {
                    matrix: p.matrix.id,
                    vector: p.vector.id,
                    output: p.output.id,
                    cols: p.cols as u64,
                },
            ),
        }
    }

    /// Checks the operands.
    pub fn validate_execution(&self, stream: &Stream, p: &MatrixVector) -> (check: Checked)
        ensures
            check == gemv_check(self@, *stream, *p),
    {
        let expected: usize = match p.rows.checked_mul(p.cols) {
            Some(elements) => elements,
            None => {
                return Err(KernelError::Fixed("gemv shape overflows usize"));
            },
        };
        if p.matrix.len != expected {
            return Err(
                KernelError::Shape {
                    family: "gemv",
                    operand: "matrix has",
                    actual: p.matrix.len,
                    unit: "elements",
                    rows: p.rows,
                    cols: p.cols,
                    required: expected,
                },
            );
        }
        check_exact_length("gemv", "vector has", p.vector.len, p.cols)?;
        check_exact_length("gemv", "output has", p.output.len, p.rows)?;
        let context = self.family.context;
        if stream.context != context || p.matrix.context != context || p.vector.context != context
            || p.output.context != context {
            return Err(
                KernelError::Fixed("gemv stream, buffers, and kernel must share one context"),
            );
        }
        Ok(())
    }
}

/// A refused matrix-vector product submits nothing.
pub proof fn refused_gemv_submits_nothing(family: Family, stream: Stream, p: MatrixVector)
    ensures
        gemv_plan(family, stream, p).outcome is Err ==> gemv_plan(
            family,
            stream,
            p,
        ).steps.len() == 0,
{
}

/// Every row of an accepted product lies inside the matrix.
pub proof fn gemv_rows_lie_inside(family: Family, stream: Stream, p: MatrixVector, row: int)
    requires
        gemv_check(family, stream, p) is Ok,
        0 <= row < p.rows,
    ensures
        0 <= row * p.cols,
        row * p.cols + p.cols <= p.matrix.len,
{
    let cols = p.cols as int;
    assert(row * cols + cols <= p.rows * cols) by (nonlinear_arith)
        requires
            row + 1 <= p.rows,
            cols >= 0,
    ;
    assert(0 <= row * cols) by (nonlinear_arith)
        requires
            row >= 0,
            cols >= 0,
    ;
}

} // verus!
