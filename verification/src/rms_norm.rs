//! Row-batched `f32` RMS normalization for row-major matrices.
//!
//! Each row is transformed as
//! `output = input * rsqrt(mean(input^2) + epsilon) * gamma`. The staged path
//! reduces each row's sum of squares and then scales; the fused path owns one
//! row per block.

use crate::arith::power_of_two;
use crate::device::{BufferId, ContextId, DeviceBuffer, Probe, Scratch, Stream, F32};
use crate::error::{Checked, KernelError};
use crate::family::{
    both, block_check, bytes_check, check_block, check_limits, check_threads, limits_check, loads,
    shared_bytes, threads_check, Family,
};
use crate::launch::{line, line_shape, Arguments, Kernel, Shape};
use crate::plan::{Plan, PlanView};
use crate::rows::{
    check_fused_row, check_rows, check_rows_workspace, describe_row_workspace, fused_row_bytes,
    fused_row_check, is_row_fitting, plan_row_workspace, row_allocation, row_fits, row_grid,
    row_grid_check, row_workspace_check, row_workspace_for, rows_check, rows_ready,
    rows_workspace_check, FusedProbes, RowKind, RowWorkspace, Rows,
};
use vstd::prelude::*;

verus! {

/// The block width of [`F32RmsNorm::load`].
pub const DEFAULT_BLOCK_SIZE: u32 = 256;

/// Attributes of the RMS-norm functions, as the driver reported them.
#[derive(Clone, Copy, Debug)]
pub struct RmsNormProbes {
    pub row_sumsq: Probe,
    pub normalize: Probe,
    pub fused: Probe,
}

/// Reusable per-row sum-of-squares storage for [`F32RmsNorm`].
#[derive(Debug)]
pub struct F32RmsNormWorkspace {
    workspace: RowWorkspace,
}

impl View for F32RmsNormWorkspace {
    type V = RowWorkspace;

    closed spec fn view(&self) -> RowWorkspace {
        self.workspace
    }
}

impl F32RmsNormWorkspace {
    #[verifier::type_invariant]
    spec fn sized(self) -> bool {
        self.workspace.scalars.len == self.workspace.max_rows
    }

    /// The largest row count the workspace serves.
    pub fn max_rows(&self) -> (rows: usize)
        ensures
            rows == self@.max_rows,
            rows == self@.scalars.len,
    {
        proof {
            use_type_invariant(self);
        }
        self.workspace.max_rows
    }

    /// Plans the allocation of the per-row sums.
    pub fn allocation(&self) -> (plan: Plan)
        ensures
            plan@ == row_allocation(self@),
    {
        plan_row_workspace(&self.workspace)
    }
}

/// Context-bound row-batched `f32` RMS normalization.
#[derive(Debug)]
pub struct F32RmsNorm {
    family: Family,
}

impl View for F32RmsNorm {
    type V = Family;

    closed spec fn view(&self) -> Family {
        self.family
    }
}

/// The checks on a block width that need no device.
pub open spec fn rms_width_check(width: u32) -> Checked {
    both(
        block_check("rms-norm", width),
        bytes_check("rms-norm shared memory overflows", width, 4),
    )
}

/// All checks of loading, in the order in which they decide.
pub open spec fn rms_load_check(width: u32, probes: RmsNormProbes) -> Checked {
    let bytes = (width * 4) as u32;
    both(
        rms_width_check(width),
        both(
            limits_check("rms-norm row_sumsq", width, bytes, probes.row_sumsq),
            both(
                threads_check("rms-norm normalize", width, probes.normalize),
                limits_check("rms-norm fused", width, bytes, probes.fused),
            ),
        ),
    )
}

/// The two stages of the staged path.
pub open spec fn rms_stages(
    width: u32,
    r: Rows,
    epsilon: F32,
    gamma: F32,
    sums: BufferId,
) -> PlanView {
    PlanView::checked(row_grid_check(RowKind::RmsNorm, r.rows)).followed_by(
        PlanView::launch(
            Kernel::RmsNormRowSumSq,
            line(r.rows as u32, width, (width * 4) as u32),
            Arguments::Unary { input: r.input.id, output: sums, count: r.cols as u64 },
        ),
    ).followed_by(
        PlanView::launch(
            Kernel::RmsNormNormalize,
            Shape::Elements { count: (r.rows * r.cols) as usize, block_size: width },
            Arguments::RmsNormalize {
                input: r.input.id,
                output: r.output.id,
                row_sumsq: sums,
                rows: r.rows as u64,
                cols: r.cols as u64,
                epsilon,
                gamma,
            },
        ),
    )
}

/// The staged normalization; an empty matrix needs no launch.
pub open spec fn rms_rows_plan(
    family: Family,
    stream: Stream,
    r: Rows,
    epsilon: F32,
    gamma: F32,
    workspace: RowWorkspace,
) -> PlanView {
    PlanView::checked(
        rows_workspace_check(RowKind::RmsNorm, family, stream, r, workspace),
    ).followed_by(
        if r.rows == 0 || r.cols == 0 {
            PlanView::done()
        } else {
            rms_stages(family.width, r, epsilon, gamma, workspace.scalars.id)
        },
    )
}

/// The single-kernel normalization; an empty matrix needs no launch.
pub open spec fn fused_rms_plan(
    family: Family,
    stream: Stream,
    r: Rows,
    epsilon: F32,
    gamma: F32,
    fused: Probe,
) -> PlanView {
    PlanView::checked(rows_check(RowKind::RmsNorm, family, stream, r)).followed_by(
        if r.rows == 0 || r.cols == 0 {
            PlanView::done()
        } else {
            PlanView::checked(
                both(
                    fused_row_check(RowKind::RmsNorm, family.width, r.cols, fused),
                    row_grid_check(RowKind::RmsNorm, r.rows),
                ),
            ).followed_by(
                PlanView::launch(
                    Kernel::RmsNormRowFused,
                    line(
                        r.rows as u32,
                        family.width,
                        fused_row_bytes(family.width, r.cols) as u32,
                    ),
                    Arguments::RmsFused {
                        input: r.input.id,
                        output: r.output.id,
                        cols: r.cols as u64,
                        epsilon,
                        gamma,
                    },
                ),
            )
        },
    )
}

/// The normalization by the best available path: the fused kernel where the
/// row fits dynamic shared memory, otherwise the staged pipeline with scratch
/// of its own. Either waits for completion.
pub open spec fn rms_dispatch_plan(
    family: Family,
    stream: Stream,
    r: Rows,
    epsilon: F32,
    gamma: F32,
    probes: FusedProbes,
) -> PlanView {
    if row_fits(family.width, r.cols, probes.available) {
        fused_rms_plan(family, stream, r, epsilon, gamma, probes.fused).synchronized()
    } else {
        let workspace = row_workspace_for(
            stream.context,
            r.rows,
            BufferId::Scratch(Scratch::RowSumOfSquares),
        );
        PlanView::checked(
            row_workspace_check(RowKind::RmsNorm, family, stream.context),
        ).followed_by(row_allocation(workspace)).followed_by(
            rms_rows_plan(family, stream, r, epsilon, gamma, workspace).synchronized(),
        )
    }
}

/// What [`rms_dispatch_plan`] submits, without the wait.
pub open spec fn rms_submission_plan(
    family: Family,
    stream: Stream,
    r: Rows,
    epsilon: F32,
    gamma: F32,
    probes: FusedProbes,
) -> PlanView {
    if row_fits(family.width, r.cols, probes.available) {
        fused_rms_plan(family, stream, r, epsilon, gamma, probes.fused)
    } else {
        let workspace = row_workspace_for(
            stream.context,
            r.rows,
            BufferId::Scratch(Scratch::RowSumOfSquares),
        );
        PlanView::checked(
            row_workspace_check(RowKind::RmsNorm, family, stream.context),
        ).followed_by(row_allocation(workspace)).followed_by(
            rms_rows_plan(family, stream, r, epsilon, gamma, workspace),
        )
    }
}

impl F32RmsNorm {
    #[verifier::type_invariant]
    spec fn ready(self) -> bool {
        rows_ready(self.family.width)
    }

    /// Checks a block width before anything is compiled.
    pub fn check_block_size(block_size: u32) -> (check: Checked)
        ensures
            check == rms_width_check(block_size),
    {
        check_block("rms-norm", block_size)?;
        shared_bytes("rms-norm shared memory overflows", block_size, 4)?;
        Ok(())
    }

    /// Accepts the compiled functions with the default block width.
    pub fn load(
        context: ContextId,
        probes: &RmsNormProbes,
    ) -> (result: Result<F32RmsNorm, KernelError>)
        ensures
            loads(
                result,
                rms_load_check(DEFAULT_BLOCK_SIZE, *probes),
                Family { context, width: DEFAULT_BLOCK_SIZE },
            ),
    {
        Self::load_with_block_size(context, DEFAULT_BLOCK_SIZE, probes)
    }

    /// Accepts the compiled functions with an explicitly selected width.
    pub fn load_with_block_size(
        context: ContextId,
        block_size: u32,
        probes: &RmsNormProbes,
    ) -> (result: Result<F32RmsNorm, KernelError>)
        ensures
            loads(
                result,
                rms_load_check(block_size, *probes),
                Family { context, width: block_size },
            ),
    {
        check_block("rms-norm", block_size)?;
        let bytes: u32 = shared_bytes("rms-norm shared memory overflows", block_size, 4)?;
        check_limits("rms-norm row_sumsq", block_size, bytes, probes.row_sumsq)?;
        check_threads("rms-norm normalize", block_size, probes.normalize)?;
        check_limits("rms-norm fused", block_size, bytes, probes.fused)?;
        Ok(F32RmsNorm { family: Family { context, width: block_size } })
    }

    /// Thread-block width of every stage.
    pub fn block_size(&self) -> (width: u32)
        ensures
            width == self@.width,
            power_of_two(width as nat),
    {
        proof {
            use_type_invariant(self);
        }
        self.family.width
    }

    /// Whether the fused path can hold a row of `cols` floats with its
    /// reduction partials.
    pub fn fused_available(&self, cols: usize, fused: Probe) -> (answer: bool)
        ensures
            answer == row_fits(self@.width, cols, fused),
    {
        is_row_fitting(RowKind::RmsNorm, self.family.width, cols, fused)
    }

    /// Describes per-row storage reusable up to `max_rows`, to be allocated
    /// under the given identity.
    pub fn workspace(
        &self,
        context: ContextId,
        max_rows: usize,
        sums: BufferId,
    ) -> (workspace: Result<F32RmsNormWorkspace, KernelError>)
        ensures
            match workspace {
                Ok(workspace) => row_workspace_check(RowKind::RmsNorm, self@, context) is Ok
                    && workspace@ == row_workspace_for(context, max_rows, sums),
                Err(error) => row_workspace_check(RowKind::RmsNorm, self@, context)
                    == Checked::Err(error),
            },
    {
        let workspace = describe_row_workspace(
            RowKind::RmsNorm,
            self.family,
            context,
            max_rows,
            sums,
        )?;
        Ok(F32RmsNormWorkspace { workspace })
    }

    /// Plans the normalization by the best available path with a wait.
    pub fn normalize_rows_dispatched(
        &self,
        stream: &Stream,
        input: &DeviceBuffer,
        output: &DeviceBuffer,
        rows: usize,
        cols: usize,
        epsilon: F32,
        gamma: F32,
        probes: &FusedProbes,
    ) -> (plan: Plan)
        ensures
            plan@ == rms_dispatch_plan(
                self@,
                *stream,
                Rows { input: *input, output: *output, rows, cols },
                epsilon,
                gamma,
                *probes,
            ),
    {
        if self.fused_available(cols, probes.available) {
            return self.fused_normalize_rows(
                stream,
                input,
                output,
                rows,
                cols,
                epsilon,
                gamma,
                probes.fused,
            );
        }
        match self.workspace(stream.context, rows, BufferId::Scratch(Scratch::RowSumOfSquares)) {
            Err(error) => Plan::rejected(error),
            Ok(workspace) => workspace.allocation().followed_by(
                self.normalize_rows(stream, input, output, rows, cols, epsilon, gamma, &workspace),
            ),
        }
    }

    /// Plans the normalization by the best available path without a wait.
    pub fn enqueue_rows_dispatched(
        &self,
        stream: &Stream,
        input: &DeviceBuffer,
        output: &DeviceBuffer,
        rows: usize,
        cols: usize,
        epsilon: F32,
        gamma: F32,
        probes: &FusedProbes,
    ) -> (plan: Plan)
        ensures
            plan@ == rms_submission_plan(
                self@,
                *stream,
                Rows { input: *input, output: *output, rows, cols },
                epsilon,
                gamma,
                *probes,
            ),
    {
        if self.fused_available(cols, probes.available) {
            return self.enqueue_fused_rows(
                stream,
                input,
                output,
                rows,
                cols,
                epsilon,
                gamma,
                probes.fused,
            );
        }
        match self.workspace(stream.context, rows, BufferId::Scratch(Scratch::RowSumOfSquares)) {
            Err(error) => Plan::rejected(error),
            Ok(workspace) => workspace.allocation().followed_by(
                self.enqueue_normalize_rows(
                    stream,
                    input,
                    output,
                    rows,
                    cols,
                    epsilon,
                    gamma,
                    &workspace,
                ),
            ),
        }
    }

    /// Plans the staged normalization with a wait.
    pub fn normalize_rows(
        &self,
        stream: &Stream,
        input: &DeviceBuffer,
        output: &DeviceBuffer,
        rows: usize,
        cols: usize,
        epsilon: F32,
        gamma: F32,
        workspace: &F32RmsNormWorkspace,
    ) -> (plan: Plan)
        ensures
            plan@ == rms_rows_plan(
                self@,
                *stream,
                Rows { input: *input, output: *output, rows, cols },
                epsilon,
                gamma,
                workspace@,
            ).synchronized(),
    {
        self.enqueue_normalize_rows(
            stream,
            input,
            output,
            rows,
            cols,
            epsilon,
            gamma,
            workspace,
        ).synchronized()
    }

    /// Plans the single-kernel normalization with a wait. The row must fit in
    /// dynamic shared memory together with the reduction partials:
    /// `(cols + block_size) * 4` bytes.
    pub fn fused_normalize_rows(
        &self,
        stream: &Stream,
        input: &DeviceBuffer,
        output: &DeviceBuffer,
        rows: usize,
        cols: usize,
        epsilon: F32,
        gamma: F32,
        fused: Probe,
    ) -> (plan: Plan)
        ensures
            plan@ == fused_rms_plan(
                self@,
                *stream,
                Rows { input: *input, output: *output, rows, cols },
                epsilon,
                gamma,
                fused,
            ).synchronized(),
    {
        self.enqueue_fused_rows(
            stream,
            input,
            output,
            rows,
            cols,
            epsilon,
            gamma,
            fused,
        ).synchronized()
    }

    /// Plans the staged normalization without a wait.
    pub fn enqueue_normalize_rows(
        &self,
        stream: &Stream,
        input: &DeviceBuffer,
        output: &DeviceBuffer,
        rows: usize,
        cols: usize,
        epsilon: F32,
        gamma: F32,
        workspace: &F32RmsNormWorkspace,
    ) -> (plan: Plan)
        ensures
            plan@ == rms_rows_plan(
                self@,
                *stream,
                Rows { input: *input, output: *output, rows, cols },
                epsilon,
                gamma,
                workspace@,
            ),
    {
        let r = &Rows { input: *input, output: *output, rows, cols };
        proof {
            use_type_invariant(self);
        }
        match self.validate_execution(stream, r, workspace) {
            Err(error) => {
                return Plan::rejected(error);
            },
            Ok(()) => {},
        }
        if r.rows == 0 || r.cols == 0 {
            return Plan::done();
        }
        let sums = workspace.workspace.scalars.id;
        let reduction = match row_grid(RowKind::RmsNorm, r.rows) {
            Err(error) => Plan::rejected(error),
            Ok(grid) => Plan::launch(
                Kernel::RmsNormRowSumSq,
                line_shape(grid, self.family.width, self.family.width * 4),
                Arguments::Unary { input: r.input.id, output: sums, count: r.cols as u64 },
            ),
        };
        let work = reduction.followed_by(
            Plan::launch(
                Kernel::RmsNormNormalize,
                Shape::Elements { count: r.rows * r.cols, block_size: self.family.width },
                Arguments::RmsNormalize {
                    input: r.input.id,
                    output: r.output.id,
                    row_sumsq: sums,
                    rows: r.rows as u64,
                    cols: r.cols as u64,
                    epsilon,
                    gamma,
                },
            ),
        );
        work
    }

    /// Plans the single-kernel normalization without a wait.
    pub fn enqueue_fused_rows(
        &self,
        stream: &Stream,
        input: &DeviceBuffer,
        output: &DeviceBuffer,
        rows: usize,
        cols: usize,
        epsilon: F32,
        gamma: F32,
        fused: Probe,
    ) -> (plan: Plan)
        ensures
            plan@ == fused_rms_plan(
                self@,
                *stream,
                Rows { input: *input, output: *output, rows, cols },
                epsilon,
                gamma,
                fused,
            ),
    {
        let r = &Rows { input: *input, output: *output, rows, cols };
        match self.validate_shapes(stream, r) {
            Err(error) => {
                return Plan::rejected(error);
            },
            Ok(()) => {},
        }
        if r.rows == 0 || r.cols == 0 {
            return Plan::done();
        }
        let bytes: u32 = match check_fused_row(RowKind::RmsNorm, self.family.width, r.cols, fused) {
            Err(error) => {
                return Plan::rejected(error);
            },
            Ok(bytes) => bytes,
        };
        let work = match row_grid(RowKind::RmsNorm, r.rows) {
            Err(error) => Plan::rejected(error),
            Ok(grid) => Plan::launch(
                Kernel::RmsNormRowFused,
                line_shape(grid, self.family.width, bytes),
                Arguments::RmsFused {
                    input: r.input.id,
                    output: r.output.id,
                    cols: r.cols as u64,
                    epsilon,
                    gamma,
                },
            ),
        };
        work
    }

    /// Checks the operands.
    pub fn validate_shapes(&self, stream: &Stream, r: &Rows) -> (check: Checked)
        ensures
            check == rows_check(RowKind::RmsNorm, self@, *stream, *r),
    {
        check_rows(RowKind::RmsNorm, self.family, stream, r)
    }

    /// Checks the operands and the workspace.
    pub fn validate_execution(
        &self,
        stream: &Stream,
        r: &Rows,
        workspace: &F32RmsNormWorkspace,
    ) -> (check: Checked)
        ensures
            check == rows_workspace_check(RowKind::RmsNorm, self@, *stream, *r, workspace@),
    {
        check_rows_workspace(RowKind::RmsNorm, self.family, stream, r, &workspace.workspace)
    }
}

/// A refused normalization submits nothing, on either path.
pub proof fn refused_normalization_submits_nothing(
    family: Family,
    stream: Stream,
    r: Rows,
    epsilon: F32,
    gamma: F32,
    workspace: RowWorkspace,
    fused: Probe,
)
    ensures
        rms_rows_plan(family, stream, r, epsilon, gamma, workspace).outcome is Err
            ==> rms_rows_plan(family, stream, r, epsilon, gamma, workspace).steps.len() == 0,
        fused_rms_plan(family, stream, r, epsilon, gamma, fused).outcome is Err ==> fused_rms_plan(
            family,
            stream,
            r,
            epsilon,
            gamma,
            fused,
        ).steps.len() == 0,
{
}

/// Dispatch never refuses a row for its width: where the operands are in
/// order and the attributes are reported alike both times, either path is
/// accepted.
pub proof fn dispatch_normalizes_every_width(
    family: Family,
    stream: Stream,
    r: Rows,
    epsilon: F32,
    gamma: F32,
    probes: FusedProbes,
)
    requires
        rows_check(RowKind::RmsNorm, family, stream, r) is Ok,
        r.rows <= u32::MAX,
        probes.fused == probes.available,
    ensures
        rms_dispatch_plan(family, stream, r, epsilon, gamma, probes).outcome is Ok,
        rms_submission_plan(family, stream, r, epsilon, gamma, probes).outcome is Ok,
{
}

} // verus!
