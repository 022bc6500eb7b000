//! Row-batched numerically stable `f32` softmax for row-major matrices.
//!
//! The staged path launches, on one stream and without host roundtrips: each
//! row's maximum, the shifted exponentials, each row's sum, and the division
//! by it. The fused path owns one row per block.

use crate::arith::power_of_two;
use crate::device::{BufferId, ContextId, DeviceBuffer, Probe, Scratch, Stream};
use crate::error::{Checked, KernelError};
use crate::family::{
    both, block_check, bytes_check, check_block, check_limits, check_threads, limits_check, loads,
    shared_bytes, threads_check, Family,
};
use crate::launch::{line, line_shape, Arguments, Kernel, Shape};
use crate::plan::{Plan, PlanView};
use crate::rows::{
    check_fused_row, check_rows, check_rows_workspace, describe_row_workspace, fused_row_bytes,
    fused_row_check, is_row_fitting, plan_row_workspace, row_allocation, row_fits, row_grid,
    row_grid_check, row_workspace_check, row_workspace_for, rows_check, rows_ready,
    rows_workspace_check, FusedProbes, RowKind, RowWorkspace, Rows,
};
use vstd::prelude::*;

verus! {

/// The block width of [`F32Softmax2D::load`].
pub const DEFAULT_BLOCK_SIZE: u32 = 256;

/// Attributes of the row-softmax functions, as the driver reported them.
#[derive(Clone, Copy, Debug)]
pub struct RowSoftmaxProbes {
    pub row_max: Probe,
    pub exp_shift: Probe,
    pub row_sum: Probe,
    pub normalize: Probe,
    pub fused: Probe,
}

/// Reusable per-row scalar storage for [`F32Softmax2D`].
#[derive(Debug)]
pub struct F32Softmax2DWorkspace {
    workspace: RowWorkspace,
}

impl View for F32Softmax2DWorkspace {
    type V = RowWorkspace;

    closed spec fn view(&self) -> RowWorkspace {
        self.workspace
    }
}

impl F32Softmax2DWorkspace {
    #[verifier::type_invariant]
    spec fn sized(self) -> bool {
        self.workspace.scalars.len == self.workspace.max_rows
    }

    /// The largest row count the workspace serves.
    pub fn max_rows(&self) -> (rows: usize)
        ensures
            rows == self@.max_rows,
            rows == self@.scalars.len,
    {
        proof {
            use_type_invariant(self);
        }
        self.workspace.max_rows
    }

    /// Plans the allocation of the per-row scalars.
    pub fn allocation(&self) -> (plan: Plan)
        ensures
            plan@ == row_allocation(self@),
    {
        plan_row_workspace(&self.workspace)
    }
}

/// Context-bound row-batched stable `f32` softmax.
#[derive(Debug)]
pub struct F32Softmax2D {
    family: Family,
}

impl View for F32Softmax2D {
    type V = Family;

    closed spec fn view(&self) -> Family {
        self.family
    }
}

/// The checks on a block width that need no device.
pub open spec fn row_softmax_width_check(width: u32) -> Checked {
    both(
        block_check("row-softmax", width),
        bytes_check("row-softmax shared memory overflows", width, 4),
    )
}

/// All checks of loading, in the order in which they decide.
pub open spec fn row_softmax_load_check(width: u32, probes: RowSoftmaxProbes) -> Checked {
    let bytes = (width * 4) as u32;
    both(
        row_softmax_width_check(width),
        both(
            limits_check("row-softmax row_max", width, bytes, probes.row_max),
            both(
                threads_check("row-softmax exp_shift", width, probes.exp_shift),
                both(
                    limits_check("row-softmax row_sum", width, bytes, probes.row_sum),
                    both(
                        threads_check("row-softmax normalize", width, probes.normalize),
                        threads_check("row-softmax fused", width, probes.fused),
                    ),
                ),
            ),
        ),
    )
}

/// One block reduces each row of `source` into its scalar.
pub open spec fn row_reduction_plan(
    kernel: Kernel,
    width: u32,
    source: BufferId,
    scalars: BufferId,
    rows: usize,
    cols: usize,
) -> PlanView {
    PlanView::checked(row_grid_check(RowKind::Softmax, rows)).followed_by(
        PlanView::launch(
            kernel,
            line(rows as u32, width, (width * 4) as u32),
            Arguments::Unary { input: source, output: scalars, count: cols as u64 },
        ),
    )
}

/// The four stages of the staged path.
pub open spec fn softmax_stages(width: u32, r: Rows, scalars: BufferId) -> PlanView {
    let elements = Shape::Elements { count: (r.rows * r.cols) as usize, block_size: width };
    row_reduction_plan(
        Kernel::SoftmaxRowMax,
        width,
        r.input.id,
        scalars,
        r.rows,
        r.cols,
    ).followed_by(
        PlanView::launch(
            Kernel::SoftmaxRowExpShift,
            elements,
            Arguments::RowExpShift {
                input: r.input.id,
                output: r.output.id,
                row_max: scalars,
                rows: r.rows as u64,
                cols: r.cols as u64,
            },
        ),
    ).followed_by(
        row_reduction_plan(Kernel::SoftmaxRowSum, width, r.output.id, scalars, r.rows, r.cols),
    ).followed_by(
        PlanView::launch(
            Kernel::SoftmaxRowNormalize,
            elements,
            Arguments::RowDivide {
                data: r.output.id,
                row_total: scalars,
                rows: r.rows as u64,
                cols: r.cols as u64,
            },
        ),
    )
}

/// The staged row softmax; an empty matrix needs no launch.
pub open spec fn softmax_rows_plan(
    family: Family,
    stream: Stream,
    r: Rows,
    workspace: RowWorkspace,
) -> PlanView {
    PlanView::checked(
        rows_workspace_check(RowKind::Softmax, family, stream, r, workspace),
    ).followed_by(
        if r.rows == 0 || r.cols == 0 {
            PlanView::done()
        } else {
            softmax_stages(family.width, r, workspace.scalars.id)
        },
    )
}

/// The single-kernel row softmax; an empty matrix needs no launch.
pub open spec fn fused_softmax_plan(
    family: Family,
    stream: Stream,
    r: Rows,
    fused: Probe,
) -> PlanView {
    PlanView::checked(rows_check(RowKind::Softmax, family, stream, r)).followed_by(
        if r.rows == 0 || r.cols == 0 {
            PlanView::done()
        } else {
            PlanView::checked(
                both(
                    fused_row_check(RowKind::Softmax, family.width, r.cols, fused),
                    row_grid_check(RowKind::Softmax, r.rows),
                ),
            ).followed_by(
                PlanView::launch(
                    Kernel::SoftmaxRowFused,
                    line(
                        r.rows as u32,
                        family.width,
                        fused_row_bytes(family.width, r.cols) as u32,
                    ),
                    Arguments::Unary {
                        input: r.input.id,
                        output: r.output.id,
                        count: r.cols as u64,
                    },
                ),
            )
        },
    )
}

/// The row softmax by the best available path: the fused kernel where the row
/// fits dynamic shared memory, otherwise the staged pipeline with scratch of
/// its own. Either waits for completion.
pub open spec fn softmax_dispatch_plan(
    family: Family,
    stream: Stream,
    r: Rows,
    probes: FusedProbes,
) -> PlanView {
    if row_fits(family.width, r.cols, probes.available) {
        fused_softmax_plan(family, stream, r, probes.fused).synchronized()
    } else {
        let workspace = row_workspace_for(
            stream.context,
            r.rows,
            BufferId::Scratch(Scratch::RowScalars),
        );
        PlanView::checked(
            row_workspace_check(RowKind::Softmax, family, stream.context),
        ).followed_by(row_allocation(workspace)).followed_by(
            softmax_rows_plan(family, stream, r, workspace).synchronized(),
        )
    }
}

impl F32Softmax2D {
    #[verifier::type_invariant]
    spec fn ready(self) -> bool {
        rows_ready(self.family.width)
    }

    /// Checks a block width before anything is compiled.
    pub fn check_block_size(block_size: u32) -> (check: Checked)
        ensures
            check == row_softmax_width_check(block_size),
    {
        check_block("row-softmax", block_size)?;
        shared_bytes("row-softmax shared memory overflows", block_size, 4)?;
        Ok(())
    }

    /// Accepts the compiled functions with the default block width.
    pub fn load(
        context: ContextId,
        probes: &RowSoftmaxProbes,
    ) -> (result: Result<F32Softmax2D, KernelError>)
        ensures
            loads(
                result,
                row_softmax_load_check(DEFAULT_BLOCK_SIZE, *probes),
                Family { context, width: DEFAULT_BLOCK_SIZE },
            ),
    {
        Self::load_with_block_size(context, DEFAULT_BLOCK_SIZE, probes)
    }

    /// Accepts the compiled functions with an explicitly selected width.
    pub fn load_with_block_size(
        context: ContextId,
        block_size: u32,
        probes: &RowSoftmaxProbes,
    ) -> (result: Result<F32Softmax2D, KernelError>)
        ensures
            loads(
                result,
                row_softmax_load_check(block_size, *probes),
                Family { context, width: block_size },
            ),
    {
        check_block("row-softmax", block_size)?;
        let bytes: u32 = shared_bytes("row-softmax shared memory overflows", block_size, 4)?;
        check_limits("row-softmax row_max", block_size, bytes, probes.row_max)?;
        check_threads("row-softmax exp_shift", block_size, probes.exp_shift)?;
        check_limits("row-softmax row_sum", block_size, bytes, probes.row_sum)?;
        check_threads("row-softmax normalize", block_size, probes.normalize)?;
        check_threads("row-softmax fused", block_size, probes.fused)?;
        Ok(F32Softmax2D { family: Family { context, width: block_size } })
    }

    /// Thread-block width of every stage.
    pub fn block_size(&self) -> (width: u32)
        ensures
            width == self@.width,
            power_of_two(width as nat),
    {
        proof {
            use_type_invariant(self);
        }
        self.family.width
    }

    /// Describes per-row scalar storage reusable up to `max_rows`, to be
    /// allocated under the given identity.
    pub fn workspace(
        &self,
        context: ContextId,
        max_rows: usize,
        scalars: BufferId,
    ) -> (workspace: Result<F32Softmax2DWorkspace, KernelError>)
        ensures
            match workspace {
                Ok(workspace) => row_workspace_check(RowKind::Softmax, self@, context) is Ok
                    && workspace@ == row_workspace_for(context, max_rows, scalars),
                Err(error) => row_workspace_check(RowKind::Softmax, self@, context)
                    == Checked::Err(error),
            },
    {
        let workspace = describe_row_workspace(
            RowKind::Softmax,
            self.family,
            context,
            max_rows,
            scalars,
        )?;
        Ok(F32Softmax2DWorkspace { workspace })
    }

    /// Whether the fused path can hold a row of `cols` floats with its
    /// reduction partials.
    pub fn fused_available(&self, cols: usize, fused: Probe) -> (answer: bool)
        ensures
            answer == row_fits(self@.width, cols, fused),
    {
        is_row_fitting(RowKind::Softmax, self.family.width, cols, fused)
    }

    /// Plans each row's softmax by the best available path with a wait.
    pub fn softmax_rows_dispatched(
        &self,
        stream: &Stream,
        input: &DeviceBuffer,
        output: &DeviceBuffer,
        rows: usize,
        cols: usize,
        probes: &FusedProbes,
    ) -> (plan: Plan)
        ensures
            plan@ == softmax_dispatch_plan(
                self@,
                *stream,
                Rows { input: *input, output: *output, rows, cols },
                *probes,
            ),
    {
        let r = &Rows { input: *input, output: *output, rows, cols };
        if self.fused_available(r.cols, probes.available) {
            return self.fused_softmax_rows(stream, input, output, rows, cols, probes.fused);
        }
        match self.workspace(stream.context, r.rows, BufferId::Scratch(Scratch::RowScalars)) {
            Err(error) => Plan::rejected(error),
            Ok(workspace) => workspace.allocation().followed_by(
                self.softmax_rows(stream, input, output, rows, cols, &workspace),
            ),
        }
    }

    /// Plans each row's softmax through the staged path with a wait.
    pub fn softmax_rows(
        &self,
        stream: &Stream,
        input: &DeviceBuffer,
        output: &DeviceBuffer,
        rows: usize,
        cols: usize,
        workspace: &F32Softmax2DWorkspace,
    ) -> (plan: Plan)
        ensures
            plan@ == softmax_rows_plan(
                self@,
                *stream,
                Rows { input: *input, output: *output, rows, cols },
                workspace@,
            ).synchronized(),
    {
        self.enqueue_softmax_rows(stream, input, output, rows, cols, workspace).synchronized()
    }

    /// Plans each row's softmax with the single-kernel path and a wait. The
    /// row must fit in dynamic shared memory together with the reduction
    /// partials: `(cols + block_size) * 4` bytes.
    pub fn fused_softmax_rows(
        &self,
        stream: &Stream,
        input: &DeviceBuffer,
        output: &DeviceBuffer,
        rows: usize,
        cols: usize,
        fused: Probe,
    ) -> (plan: Plan)
        ensures
            plan@ == fused_softmax_plan(
                self@,
                *stream,
                Rows { input: *input, output: *output, rows, cols },
                fused,
            ).synchronized(),
    {
        self.enqueue_fused_rows(stream, input, output, rows, cols, fused).synchronized()
    }

    /// Plans the staged path without a wait.
    pub fn enqueue_softmax_rows(
        &self,
        stream: &Stream,
        input: &DeviceBuffer,
        output: &DeviceBuffer,
        rows: usize,
        cols: usize,
        workspace: &F32Softmax2DWorkspace,
    ) -> (plan: Plan)
        ensures
            plan@ == softmax_rows_plan(
                self@,
                *stream,
                Rows { input: *input, output: *output, rows, cols },
                workspace@,
            ),
    {
        let r = &Rows { input: *input, output: *output, rows, cols };
        proof {
            use_type_invariant(self);
        }
        match self.validate_execution(stream, r, workspace) {
            Err(error) => {
                return Plan::rejected(error);
            },
            Ok(()) => {},
        }
        let work = if r.rows == 0 || r.cols == 0 {
            Plan::done()
        } else {
            let scalars = workspace.workspace.scalars.id;
            let elements = Shape::Elements {
                count: r.rows * r.cols,
                block_size: self.family.width,
            };
            self.launch_row_reduction(
                Kernel::SoftmaxRowMax,
                r.input.id,
                scalars,
                r.rows,
                r.cols,
            ).followed_by(
                Plan::launch(
                    Kernel::SoftmaxRowExpShift,
                    elements,
                    Arguments::RowExpShift {
                        input: r.input.id,
                        output: r.output.id,
                        row_max: scalars,
                        rows: r.rows as u64,
                        cols: r.cols as u64,
                    },
                ),
            ).followed_by(
                self.launch_row_reduction(
                    Kernel::SoftmaxRowSum,
                    r.output.id,
                    scalars,
                    r.rows,
                    r.cols,
                ),
            ).followed_by(
                Plan::launch(
                    Kernel::SoftmaxRowNormalize,
                    elements,
                    Arguments::RowDivide {
                        data: r.output.id,
                        row_total: scalars,
                        rows: r.rows as u64,
                        cols: r.cols as u64,
                    },
                ),
            )
        };
        work
    }

    fn launch_row_reduction(
        &self,
        kernel: Kernel,
        source: BufferId,
        scalars: BufferId,
        rows: usize,
        cols: usize,
    ) -> (plan: Plan)
        ensures
            plan@ == row_reduction_plan(kernel, self@.width, source, scalars, rows, cols),
    {
        proof {
            use_type_invariant(self);
        }
        match row_grid(RowKind::Softmax, rows) {
            Err(error) => Plan::rejected(error),
            Ok(grid) => Plan::launch(
                kernel,
                line_shape(grid, self.family.width, self.family.width * 4),
                Arguments::Unary { input: source, output: scalars, count: cols as u64 },
            ),
        }
    }

    /// Plans the single-kernel path without a wait.
    pub fn enqueue_fused_rows(
        &self,
        stream: &Stream,
        input: &DeviceBuffer,
        output: &DeviceBuffer,
        rows: usize,
        cols: usize,
        fused: Probe,
    ) -> (plan: Plan)
        ensures
            plan@ == fused_softmax_plan(
                self@,
                *stream,
                Rows { input: *input, output: *output, rows, cols },
                fused,
            ),
    {
        let r = &Rows { input: *input, output: *output, rows, cols };
        match self.validate_shapes(stream, r) {
            Err(error) => {
                return Plan::rejected(error);
            },
            Ok(()) => {},
        }
        if r.rows == 0 || r.cols == 0 {
            return Plan::done();
        }
        let bytes: u32 = match check_fused_row(RowKind::Softmax, self.family.width, r.cols, fused) {
            Err(error) => {
                return Plan::rejected(error);
            },
            Ok(bytes) => bytes,
        };
        let work = match row_grid(RowKind::Softmax, r.rows) {
            Err(error) => Plan::rejected(error),
            Ok(grid) => Plan::launch(
                Kernel::SoftmaxRowFused,
                line_shape(grid, self.family.width, bytes),
                Arguments::Unary {
                    input: r.input.id,
                    output: r.output.id,
                    count: r.cols as u64,
                },
            ),
        };
        work
    }

    /// Checks the operands.
    pub fn validate_shapes(&self, stream: &Stream, r: &Rows) -> (check: Checked)
        ensures
            check == rows_check(RowKind::Softmax, self@, *stream, *r),
    {
        check_rows(RowKind::Softmax, self.family, stream, r)
    }

    /// Checks the operands and the workspace.
    pub fn validate_execution(
        &self,
        stream: &Stream,
        r: &Rows,
        workspace: &F32Softmax2DWorkspace,
    ) -> (check: Checked)
        ensures
            check == rows_workspace_check(RowKind::Softmax, self@, *stream, *r, workspace@),
    {
        check_rows_workspace(RowKind::Softmax, self.family, stream, r, &workspace.workspace)
    }
}

/// An accepted staged softmax of a non-empty matrix runs its four stages in
/// order: row maxima of the input, shifted exponentials into the output, row
/// sums of the output, and the division of the output by them.
pub proof fn staged_softmax_runs_four_stages(
    family: Family,
    stream: Stream,
    r: Rows,
    workspace: RowWorkspace,
)
    requires
        rows_workspace_check(RowKind::Softmax, family, stream, r, workspace) is Ok,
        0 < r.rows <= u32::MAX,
        r.cols > 0,
    ensures
        softmax_rows_plan(family, stream, r, workspace).outcome is Ok,
        softmax_rows_plan(family, stream, r, workspace).steps.len() == 4,
        forall|i: int|
            0 <= i < 4 ==> {
                &&& (#[trigger] softmax_rows_plan(
                    family,
                    stream,
                    r,
                    workspace,
                ).steps[i]).action matches crate::plan::Action::Launch(launch)
                &&& launch.kernel == (if i == 0 {
                    Kernel::SoftmaxRowMax
                } else if i == 1 {
                    Kernel::SoftmaxRowExpShift
                } else if i == 2 {
                    Kernel::SoftmaxRowSum
                } else {
                    Kernel::SoftmaxRowNormalize
                })
            },
{
}

/// A refused row softmax submits nothing, on either path.
pub proof fn refused_row_softmax_submits_nothing(
    family: Family,
    stream: Stream,
    r: Rows,
    workspace: RowWorkspace,
    fused: Probe,
)
    ensures
        softmax_rows_plan(family, stream, r, workspace).outcome is Err ==> softmax_rows_plan(
            family,
            stream,
            r,
            workspace,
        ).steps.len() == 0,
        fused_softmax_plan(family, stream, r, fused).outcome is Err ==> fused_softmax_plan(
            family,
            stream,
            r,
            fused,
        ).steps.len() == 0,
{
}

/// Dispatch never refuses a row for its width: where the operands are in
/// order and the attributes are reported alike both times, either path is
/// accepted.
pub proof fn dispatch_serves_every_width(
    family: Family,
    stream: Stream,
    r: Rows,
    probes: FusedProbes,
)
    requires
        rows_check(RowKind::Softmax, family, stream, r) is Ok,
        r.rows <= u32::MAX,
        probes.fused == probes.available,
    ensures
        softmax_dispatch_plan(family, stream, r, probes).outcome is Ok,
{
}

} // verus!
