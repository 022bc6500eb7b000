//! Row-batched operations on row-major matrices: the rules that the row
//! softmax and the RMS normalization have in common.

use crate::arith::{fits, power_of_two};
use crate::device::{BufferId, ContextId, DeviceBuffer, Element, Probe, Stream};
use crate::error::{Checked, KernelError};
use crate::family::Family;
use crate::plan::{Action, Plan, PlanView};
use vstd::prelude::*;

verus! {

/// The row-batched operations.
#[derive(Clone, Copy, Debug, PartialEq, Eq, Structural)]
pub enum RowKind {
    Softmax,
    RmsNorm,
}

/// Attributes of the fused function: as reported when the path is chosen, and
/// as reported again when the fused path is planned.
#[derive(Clone, Copy, Debug)]
pub struct FusedProbes {
    pub available: Probe,
    pub fused: Probe,
}

/// Reusable storage for one scalar per row.
#[derive(Clone, Copy, Debug, PartialEq, Eq, Structural)]
pub struct RowWorkspace {
    pub max_rows: usize,
    pub scalars: DeviceBuffer,
}

/// The operands of a row-batched operation.
#[derive(Clone, Copy, Debug, PartialEq, Eq, Structural)]
pub struct Rows {
    pub input: DeviceBuffer,
    pub output: DeviceBuffer,
    pub rows: usize,
    pub cols: usize,
}

impl RowKind {
    /// The name of the operation in its refusals.
    pub open spec fn family(self) -> &'static str {
        match self {
            RowKind::Softmax => "row-softmax",
            RowKind::RmsNorm => "rms-norm",
        }
    }

    /// The name of the single-kernel path in its refusals.
    pub open spec fn fused_path(self) -> &'static str {
        match self {
            RowKind::Softmax => "fused row softmax",
            RowKind::RmsNorm => "fused rms norm",
        }
    }

    fn get_family(self) -> (family: &'static str)
        ensures
            family == self.family(),
    {
        match self {
            RowKind::Softmax => "row-softmax",
            RowKind::RmsNorm => "rms-norm",
        }
    }

    fn get_fused_path(self) -> (path: &'static str)
        ensures
            path == self.fused_path(),
    {
        match self {
            RowKind::Softmax => "fused row softmax",
            RowKind::RmsNorm => "fused rms norm",
        }
    }
}

/// A block width that a row-batched family may be loaded with.
pub open spec fn rows_ready(width: u32) -> bool {
    &&& power_of_two(width as nat)
    &&& width * 4 <= u32::MAX
}

/// The first rule that the operands break.
pub open spec fn rows_check(kind: RowKind, family: Family, stream: Stream, r: Rows) -> Checked {
    if !fits(r.rows * r.cols) {
        Err(KernelError::Rule { family: kind.family(), rule: "shape overflows usize" })
    } else if r.input.len != r.rows * r.cols {
        Err(
            KernelError::Shape {
                family: kind.family(),
                operand: "input has",
                actual: r.input.len,
                unit: "elements",
                rows: r.rows,
                cols: r.cols,
                required: (r.rows * r.cols) as usize,
            },
        )
    } else if r.output.len != r.rows * r.cols {
        Err(
            KernelError::Shape {
                family: kind.family(),
                operand: "output has",
                actual: r.output.len,
                unit: "elements",
                rows: r.rows,
                cols: r.cols,
                required: (r.rows * r.cols) as usize,
            },
        )
    } else if stream.context != family.context || r.input.context != family.context
        || r.output.context != family.context {
        Err(
            KernelError::Rule {
                family: kind.family(),
                rule: "stream, buffers, and kernels must share one context",
            },
        )
    } else {
        Ok(())
    }
}

/// The first rule that the operands or the workspace break.
pub open spec fn rows_workspace_check(
    kind: RowKind,
    family: Family,
    stream: Stream,
    r: Rows,
    workspace: RowWorkspace,
) -> Checked {
    if rows_check(kind, family, stream, r) is Err {
        rows_check(kind, family, stream, r)
    } else if r.rows > workspace.max_rows {
        Err(
            KernelError::WorkspaceCapacity {
                family: kind.family(),
                operand: "has",
                actual: r.rows,
                unit: "rows",
                capacity: workspace.max_rows,
            },
        )
    } else if workspace.scalars.context != family.context {
        Err(
            KernelError::Rule {
                family: kind.family(),
                rule: "stream, buffers, and kernels must share one context",
            },
        )
    } else {
        Ok(())
    }
}

/// One block per row must be expressible as a grid.
pub open spec fn row_grid_check(kind: RowKind, rows: usize) -> Checked {
    if rows > u32::MAX {
        Err(KernelError::Rule { family: kind.family(), rule: "exceeds u32::MAX rows" })
    } else {
        Ok(())
    }
}

/// The dynamic shared memory of the single-kernel path: the row and the
/// reduction partials, four bytes each.
pub open spec fn fused_row_bytes(width: u32, cols: usize) -> int {
    4 * cols + 4 * width
}

/// Whether the single-kernel path can hold a row.
pub open spec fn row_fits(width: u32, cols: usize, probe: Probe) -> bool {
    match probe {
        Ok(attributes) => fits(fused_row_bytes(width, cols)) && fused_row_bytes(width, cols)
            <= attributes.max_dynamic_shared_memory_bytes,
        Err(_) => false,
    }
}

/// Why the single-kernel path cannot hold a row.
pub open spec fn fused_row_check(kind: RowKind, width: u32, cols: usize, probe: Probe) -> Checked {
    match probe {
        Err(failure) => Err(KernelError::Device(failure)),
        Ok(attributes) => if !fits(fused_row_bytes(width, cols)) {
            Err(KernelError::Rule { family: kind.fused_path(), rule: "shared size overflows" })
        } else if fused_row_bytes(width, cols) > attributes.max_dynamic_shared_memory_bytes {
            Err(
                KernelError::FusedRow {
                    path: kind.fused_path(),
                    required: fused_row_bytes(width, cols) as usize,
                    cols,
                    limit: attributes.max_dynamic_shared_memory_bytes,
                },
            )
        } else {
            Ok(())
        },
    }
}

/// A workspace must be made for the family's context.
pub open spec fn row_workspace_check(kind: RowKind, family: Family, context: ContextId) -> Checked {
    if context != family.context {
        Err(
            KernelError::Rule {
                family: kind.family(),
                rule: "and workspace contexts do not match",
            },
        )
    } else {
        Ok(())
    }
}

/// The workspace for at most `max_rows` rows.
pub open spec fn row_workspace_for(
    context: ContextId,
    max_rows: usize,
    scalars: BufferId,
) -> RowWorkspace {
    RowWorkspace { max_rows, scalars: DeviceBuffer { id: scalars, len: max_rows, context } }
}

/// The allocation of a workspace.
pub open spec fn row_allocation(workspace: RowWorkspace) -> PlanView {
    PlanView::one(Action::Allocate { buffer: workspace.scalars, element: Element::F32 })
}

/// Checks the operands.
pub fn check_rows(kind: RowKind, family: Family, stream: &Stream, r: &Rows) -> (check: Checked)
    ensures
        check == rows_check(kind, family, *stream, *r),
{
    let count: usize = match r.rows.checked_mul(r.cols) {
        Some(count) => count,
        None => {
            return Err(
                KernelError::Rule { family: kind.get_family(), rule: "shape overflows usize" },
            );
        },
    };
    if r.input.len != count {
        return Err(
            KernelError::Shape {
                family: kind.get_family(),
                operand: "input has",
                actual: r.input.len,
                unit: "elements",
                rows: r.rows,
                cols: r.cols,
                required: count,
            },
        );
    }
    if r.output.len != count {
        return Err(
            KernelError::Shape {
                family: kind.get_family(),
                operand: "output has",
                actual: r.output.len,
                unit: "elements",
                rows: r.rows,
                cols: r.cols,
                required: count,
            },
        );
    }
    if stream.context != family.context || r.input.context != family.context || r.output.context
        != family.context {
        return Err(
            KernelError::Rule {
                family: kind.get_family(),
                rule: "stream, buffers, and kernels must share one context",
            },
        );
    }
    Ok(())
}

/// Checks the operands and the workspace.
pub fn check_rows_workspace(
    kind: RowKind,
    family: Family,
    stream: &Stream,
    r: &Rows,
    workspace: &RowWorkspace,
) -> (check: Checked)
    ensures
        check == rows_workspace_check(kind, family, *stream, *r, *workspace),
{
    check_rows(kind, family, stream, r)?;
    if r.rows > workspace.max_rows {
        return Err(
            KernelError::WorkspaceCapacity {
                family: kind.get_family(),
                operand: "has",
                actual: r.rows,
                unit: "rows",
                capacity: workspace.max_rows,
            },
        );
    }
    if workspace.scalars.context != family.context {
        return Err(
            KernelError::Rule {
                family: kind.get_family(),
                rule: "stream, buffers, and kernels must share one context",
            },
        );
    }
    Ok(())
}

/// The number of blocks of a grid with one block per row.
pub fn row_grid(kind: RowKind, rows: usize) -> (blocks: Result<u32, KernelError>)
    ensures
        match blocks {
            Ok(blocks) => row_grid_check(kind, rows) is Ok && blocks == rows,
            Err(error) => row_grid_check(kind, rows) == Checked::Err(error),
        },
{
    match crate::arith::to_u32(rows) {
        Some(blocks) => Ok(blocks),
        None => Err(
            KernelError::Rule { family: kind.get_family(), rule: "exceeds u32::MAX rows" },
        ),
    }
}

/// The dynamic shared memory of the single-kernel path, where it can be
/// counted.
pub fn fused_shared_memory(
    kind: RowKind,
    width: u32,
    cols: usize,
) -> (bytes: Result<usize, KernelError>)
    ensures
        fits(fused_row_bytes(width, cols)) ==> bytes == Result::<usize, KernelError>::Ok(
            fused_row_bytes(width, cols) as usize,
        ),
        !fits(fused_row_bytes(width, cols)) ==> bytes == Result::<usize, KernelError>::Err(
            KernelError::Rule { family: kind.fused_path(), rule: "shared size overflows" },
        ),
{
    let overflow = KernelError::Rule {
        family: kind.get_fused_path(),
        rule: "shared size overflows",
    };
    match cols.checked_mul(4) {
        None => Err(overflow),
        Some(values) => match (width as usize).checked_mul(4) {
            None => Err(overflow),
            Some(partials) => match values.checked_add(partials) {
                None => Err(overflow),
                Some(bytes) => Ok(bytes),
            },
        },
    }
}

/// Whether the single-kernel path can hold a row.
pub fn is_row_fitting(kind: RowKind, width: u32, cols: usize, probe: Probe) -> (answer: bool)
    ensures
        answer == row_fits(width, cols, probe),
{
    match probe {
        Err(_) => false,
        Ok(attributes) => match fused_shared_memory(kind, width, cols) {
            Err(_) => false,
            Ok(bytes) => bytes <= attributes.max_dynamic_shared_memory_bytes as usize,
        },
    }
}

/// The dynamic shared memory of the single-kernel path, where the function
/// allows it.
pub fn check_fused_row(
    kind: RowKind,
    width: u32,
    cols: usize,
    probe: Probe,
) -> (bytes: Result<u32, KernelError>)
    ensures
        match bytes {
            Ok(bytes) => fused_row_check(kind, width, cols, probe) is Ok && bytes
                == fused_row_bytes(width, cols),
            Err(error) => fused_row_check(kind, width, cols, probe) == Checked::Err(error),
        },
{
    match probe {
        Err(failure) => Err(KernelError::Device(failure)),
        Ok(attributes) => {
            let bytes: usize = fused_shared_memory(kind, width, cols)?;
            if bytes > attributes.max_dynamic_shared_memory_bytes as usize {
                return Err(
                    KernelError::FusedRow {
                        path: kind.get_fused_path(),
                        required: bytes,
                        cols,
                        limit: attributes.max_dynamic_shared_memory_bytes,
                    },
                );
            }
            Ok(bytes as u32)
        },
    }
}

/// Describes the workspace for at most `max_rows` rows.
pub fn describe_row_workspace(
    kind: RowKind,
    family: Family,
    context: ContextId,
    max_rows: usize,
    scalars: BufferId,
) -> (workspace: Result<RowWorkspace, KernelError>)
    ensures
        match workspace {
            Ok(workspace) => row_workspace_check(kind, family, context) is Ok && workspace
                == row_workspace_for(context, max_rows, scalars),
            Err(error) => row_workspace_check(kind, family, context) == Checked::Err(error),
        },
{
    if context != family.context {
        return Err(
            KernelError::Rule {
                family: kind.get_family(),
                rule: "and workspace contexts do not match",
            },
        );
    }
    Ok(RowWorkspace { max_rows, scalars: DeviceBuffer { id: scalars, len: max_rows, context } })
}

/// Plans the allocation of a workspace.
pub fn plan_row_workspace(workspace: &RowWorkspace) -> (plan: Plan)
    ensures
        plan@ == row_allocation(*workspace),
{
    Plan::one(Action::Allocate { buffer: workspace.scalars, element: Element::F32 })
}

/// The single-kernel path is announced as available exactly where its
/// shared-memory check passes.
pub proof fn available_where_the_check_passes(kind: RowKind, width: u32, cols: usize, probe: Probe)
    ensures
        row_fits(width, cols, probe) <==> fused_row_check(kind, width, cols, probe) is Ok,
{
}

/// A row that fits keeps fitting when it gets shorter.
pub proof fn shorter_rows_fit(width: u32, fewer: usize, cols: usize, probe: Probe)
    requires
        fewer <= cols,
        row_fits(width, cols, probe),
    ensures
        row_fits(width, fewer, probe),
{
}

/// A workspace made for `max_rows` in the family's context serves every
/// operation on at most that many rows that is otherwise in order.
pub proof fn workspace_serves_fewer_rows(
    kind: RowKind,
    family: Family,
    stream: Stream,
    r: Rows,
    max_rows: usize,
    scalars: BufferId,
)
    requires
        rows_check(kind, family, stream, r) is Ok,
        r.rows <= max_rows,
    ensures
        rows_workspace_check(
            kind,
            family,
            stream,
            r,
            row_workspace_for(family.context, max_rows, scalars),
        ) is Ok,
{
}

} // verus!
