//! Row scattering: write source rows to destination positions,
//! `output[positions[i] * cols + j] = source[i * cols + j]`.
//!
//! The checked operations validate every position on the host before anything
//! is submitted and reject duplicates, whose writes would race.

use crate::arith::{fits, power_of_two};
use crate::device::{ContextId, DeviceBuffer, Probe, Stream};
use crate::error::{Checked, KernelError};
use crate::family::{
    both, block_check, check_block, check_threads, loads, threads_check, Family,
};
use crate::gather::{saturating, saturating_product};
use crate::launch::{Arguments, Kernel, Shape};
use crate::plan::{Plan, PlanView};
use std::collections::HashSet;
use vstd::prelude::*;

verus! {

broadcast use vstd::std_specs::hash::group_hash_axioms;

/// The block width of [`F32Scatter::load`] and [`Bf16Scatter::load`].
pub const DEFAULT_BLOCK_SIZE: u32 = 256;

/// The operands and the shape of a scatter: one row of `source` per position
/// goes to that row of `output`, which has `output_rows`.
#[derive(Clone, Copy, Debug, PartialEq, Eq, Structural)]
pub struct Placement {
    pub source: DeviceBuffer,
    pub positions: DeviceBuffer,
    pub output: DeviceBuffer,
    pub output_rows: usize,
    pub cols: usize,
}

/// All checks of loading, in the order in which they decide.
pub open spec fn scatter_load_check(name: &'static str, width: u32, probe: Probe) -> Checked {
    both(block_check(name, width), threads_check(name, width, probe))
}

/// Whether the position in slot `at` occurs in an earlier slot.
pub open spec fn seen_before(positions: Seq<u32>, at: int) -> bool {
    exists|i: int| 0 <= i < at && #[trigger] positions[i] == positions[at]
}

/// The first of the positions from slot `from` on that is not a row of the
/// output, or that an earlier slot already writes.
pub open spec fn position_check(
    name: &'static str,
    positions: Seq<u32>,
    rows: usize,
    from: int,
) -> Checked
    decreases positions.len() - from,
{
    if from < 0 || from >= positions.len() {
        Ok(())
    } else if positions[from] >= rows {
        Err(
            KernelError::OutOfRange {
                family: name,
                operand: "position",
                row: positions[from],
                place: "slot",
                at: from as usize,
                rows,
            },
        )
    } else if seen_before(positions, from) {
        Err(KernelError::DuplicatePosition { family: name, row: positions[from] })
    } else {
        position_check(name, positions, rows, from + 1)
    }
}

/// The first rule that the operands break.
pub open spec fn scatter_check(
    name: &'static str,
    family: Family,
    stream: Stream,
    p: Placement,
) -> Checked {
    if stream.context != family.context || p.source.context != family.context
        || p.positions.context != family.context || p.output.context != family.context {
        Err(
            KernelError::Rule {
                family: name,
                rule: "stream, buffers, and kernel must share one context",
            },
        )
    } else if !fits(p.positions.len * p.cols) {
        Err(KernelError::Rule { family: name, rule: "shape overflows usize" })
    } else if p.source.len != p.positions.len * p.cols {
        Err(
            KernelError::RowProduct {
                family: name,
                operand: "source has",
                actual: p.source.len,
                rows: p.positions.len,
                unit: "positions",
                cols: p.cols,
                required: (p.positions.len * p.cols) as usize,
            },
        )
    } else if !fits(p.output_rows * p.cols) {
        Err(KernelError::Rule { family: name, rule: "shape overflows usize" })
    } else if p.output.len != p.output_rows * p.cols {
        Err(
            KernelError::Shape {
                family: name,
                operand: "output has",
                actual: p.output.len,
                unit: "elements",
                rows: p.output_rows,
                cols: p.cols,
                required: (p.output_rows * p.cols) as usize,
            },
        )
    } else {
        Ok(())
    }
}

/// What a scatter does once its positions are known to be distinct rows.
pub open spec fn scatter_plan(
    name: &'static str,
    kernel: Kernel,
    family: Family,
    stream: Stream,
    p: Placement,
) -> PlanView {
    PlanView::checked(scatter_check(name, family, stream, p)).followed_by(
        if p.positions.len == 0 {
            PlanView::done()
        } else {
            PlanView::launch(
                kernel,
                Shape::Elements {
                    count: saturating(p.positions.len, p.cols),
                    block_size: family.width,
                },
                Arguments::MoveRows {
                    source: p.source.id,
                    index: p.positions.id,
                    output: p.output.id,
                    rows: p.output_rows as u64,
                    cols: p.cols as u64,
                    count: p.positions.len as u64,
                },
            )
        },
    )
}

/// A scatter of rows whose positions the host has read, with a wait.
pub open spec fn checked_scatter_plan(
    name: &'static str,
    kernel: Kernel,
    family: Family,
    stream: Stream,
    p: Placement,
    positions: Seq<u32>,
) -> PlanView {
    PlanView::checked(position_check(name, positions, p.output_rows, 0)).followed_by(
        scatter_plan(name, kernel, family, stream, p).synchronized(),
    )
}

/// Checks that every position is a row of the output and occurs once.
pub fn check_positions(name: &'static str, positions: &[u32], rows: usize) -> (check: Checked)
    ensures
        check == position_check(name, positions@, rows, 0),
{
    let count: usize = positions.len();
    let mut seen: HashSet<u32> = HashSet::with_capacity(count);
    for slot in 0..count
        invariant
            count == positions@.len(),
            forall|row: u32|
                #[trigger] seen@.contains(row) <==> exists|i: int|
                    0 <= i < slot && #[trigger] positions@[i] == row,
            position_check(name, positions@, rows, 0) == position_check(
                name,
                positions@,
                rows,
                slot as int,
            ),
    {
        let row: u32 = positions[slot];
        if row as usize >= rows {
            return Err(
                KernelError::OutOfRange {
                    family: name,
                    operand: "position",
                    row,
                    place: "slot",
                    at: slot,
                    rows,
                },
            );
        }
        let ghost before = seen@;
        let fresh = seen.insert(row);
        assert(before.contains(row) <==> seen_before(positions@, slot as int));
        if !fresh {
            return Err(KernelError::DuplicatePosition { family: name, row });
        }
        assert forall|other: u32| #[trigger] seen@.contains(other) implies exists|i: int|
            0 <= i < slot + 1 && #[trigger] positions@[i] == other by {
            if other == row {
                assert(positions@[slot as int] == other);
            } else {
                assert(before.contains(other));
            }
        }
        assert forall|other: u32|
            (exists|i: int|
                0 <= i < slot + 1 && #[trigger] positions@[i] == other) implies #[trigger] seen@.contains(
            other,
        ) by {
            let i = choose|i: int| 0 <= i < slot + 1 && #[trigger] positions@[i] == other;
            if i < slot {
                assert(before.contains(other));
            }
        }
    }
    Ok(())
}

/// Checks the operands.
pub fn check_scatter(
    name: &'static str,
    family: Family,
    stream: &Stream,
    p: &Placement,
) -> (check: Checked)
    ensures
        check == scatter_check(name, family, *stream, *p),
{
    if stream.context != family.context || p.source.context != family.context
        || p.positions.context != family.context || p.output.context != family.context {
        return Err(
            KernelError::Rule {
                family: name,
                rule: "stream, buffers, and kernel must share one context",
            },
        );
    }
    let expected_source: usize = match p.positions.len.checked_mul(p.cols) {
        Some(elements) => elements,
        None => {
            return Err(KernelError::Rule { family: name, rule: "shape overflows usize" });
        },
    };
    if p.source.len != expected_source {
        return Err(
            KernelError::RowProduct {
                family: name,
                operand: "source has",
                actual: p.source.len,
                rows: p.positions.len,
                unit: "positions",
                cols: p.cols,
                required: expected_source,
            },
        );
    }
    let expected_output: usize = match p.output_rows.checked_mul(p.cols) {
        Some(elements) => elements,
        None => {
            return Err(KernelError::Rule { family: name, rule: "shape overflows usize" });
        },
    };
    if p.output.len != expected_output {
        return Err(
            KernelError::Shape {
                family: name,
                operand: "output has",
                actual: p.output.len,
                unit: "elements",
                rows: p.output_rows,
                cols: p.cols,
                required: expected_output,
            },
        );
    }
    Ok(())
}

/// Plans a scatter.
pub fn plan_scatter(
    name: &'static str,
    kernel: Kernel,
    family: Family,
    stream: &Stream,
    p: &Placement,
) -> (plan: Plan)
    ensures
        plan@ == scatter_plan(name, kernel, family, *stream, *p),
{
    let check = check_scatter(name, family, stream, p);
    let work = if p.positions.len == 0 {
        Plan::done()
    } else {
        Plan::launch(
            kernel,
            Shape::Elements {
                count: saturating_product(p.positions.len, p.cols),
                block_size: family.width,
            },
            Arguments::MoveRows {
                source: p.source.id,
                index: p.positions.id,
                output: p.output.id,
                rows: p.output_rows as u64,
                cols: p.cols as u64,
                count: p.positions.len as u64,
            },
        )
    };
    Plan::checked(check).followed_by(work)
}

/// Context-bound row scatter over `f32` rows.
#[derive(Debug)]
pub struct F32Scatter {
    family: Family,
}

impl View for F32Scatter {
    type V = Family;

    closed spec fn view(&self) -> Family {
        self.family
    }
}

impl F32Scatter {
    #[verifier::type_invariant]
    spec fn ready(self) -> bool {
        power_of_two(self.family.width as nat)
    }

    /// Checks a block width before anything is compiled.
    pub fn check_block_size(block_size: u32) -> (check: Checked)
        ensures
            check == block_check("scatter", block_size),
    {
        check_block("scatter", block_size)
    }

    /// Accepts the compiled function with the default block width.
    pub fn load(context: ContextId, probe: Probe) -> (result: Result<F32Scatter, KernelError>)
        ensures
            loads(
                result,
                scatter_load_check("scatter", DEFAULT_BLOCK_SIZE, probe),
                Family { context, width: DEFAULT_BLOCK_SIZE },
            ),
    {
        Self::load_with_block_size(context, DEFAULT_BLOCK_SIZE, probe)
    }

    /// Accepts the compiled function with an explicit power-of-two width.
    pub fn load_with_block_size(
        context: ContextId,
        block_size: u32,
        probe: Probe,
    ) -> (result: Result<F32Scatter, KernelError>)
        ensures
            loads(
                result,
                scatter_load_check("scatter", block_size, probe),
                Family { context, width: block_size },
            ),
    {
        check_block("scatter", block_size)?;
        check_threads("scatter", block_size, probe)?;
        Ok(F32Scatter { family: Family { context, width: block_size } })
    }

    /// Thread-block width of the copy.
    pub fn block_size(&self) -> (width: u32)
        ensures
            width == self@.width,
            power_of_two(width as nat),
    {
        proof {
            use_type_invariant(self);
        }
        self.family.width
    }

    /// Plans the copy of the source rows to their positions with a wait.
    /// `position_host` holds what the position buffer holds; every position
    /// must be a row of the output, and none may occur twice.
    pub fn scatter(
        &self,
        stream: &Stream,
        source: &DeviceBuffer,
        positions: &DeviceBuffer,
        output: &DeviceBuffer,
        output_rows: usize,
        cols: usize,
        position_host: &[u32],
    ) -> (plan: Plan)
        ensures
            plan@ == checked_scatter_plan(
                "scatter",
                Kernel::ScatterRows,
                self@,
                *stream,
                Placement {
                    source: *source,
                    positions: *positions,
                    output: *output,
                    output_rows,
                    cols,
                },
                position_host@,
            ),
    {
        let p = &Placement {
            source: *source,
            positions: *positions,
            output: *output,
            output_rows,
            cols,
        };
        let check = check_positions("scatter", position_host, p.output_rows);
        Plan::checked(check).followed_by(
            self.enqueue_scatter(
                stream,
                source,
                positions,
                output,
                output_rows,
                cols,
            ).synchronized(),
        )
    }

    /// Plans the copy without a wait and without looking at the positions.
    pub fn enqueue_scatter(
        &self,
        stream: &Stream,
        source: &DeviceBuffer,
        positions: &DeviceBuffer,
        output: &DeviceBuffer,
        output_rows: usize,
        cols: usize,
    ) -> (plan: Plan)
        ensures
            plan@ == scatter_plan(
                "scatter",
                Kernel::ScatterRows,
                self@,
                *stream,
                Placement {
                    source: *source,
                    positions: *positions,
                    output: *output,
                    output_rows,
                    cols,
                },
            ),
    {
        let p = &Placement {
            source: *source,
            positions: *positions,
            output: *output,
            output_rows,
            cols,
        };
        plan_scatter("scatter", Kernel::ScatterRows, self.family, stream, p)
    }
}

/// Context-bound row scatter over packed-bf16 rows.
#[derive(Debug)]
pub struct Bf16Scatter {
    family: Family,
}

impl View for Bf16Scatter {
    type V = Family;

    closed spec fn view(&self) -> Family {
        self.family
    }
}

impl Bf16Scatter {
    #[verifier::type_invariant]
    spec fn ready(self) -> bool {
        power_of_two(self.family.width as nat)
    }

    /// Checks a block width before anything is compiled.
    pub fn check_block_size(block_size: u32) -> (check: Checked)
        ensures
            check == block_check("bf16 scatter", block_size),
    {
        check_block("bf16 scatter", block_size)
    }

    /// Accepts the compiled function with the default block width.
    pub fn load(context: ContextId, probe: Probe) -> (result: Result<Bf16Scatter, KernelError>)
        ensures
            loads(
                result,
                scatter_load_check("bf16 scatter", DEFAULT_BLOCK_SIZE, probe),
                Family { context, width: DEFAULT_BLOCK_SIZE },
            ),
    {
        Self::load_with_block_size(context, DEFAULT_BLOCK_SIZE, probe)
    }

    /// Accepts the compiled function with an explicit power-of-two width.
    pub fn load_with_block_size(
        context: ContextId,
        block_size: u32,
        probe: Probe,
    ) -> (result: Result<Bf16Scatter, KernelError>)
        ensures
            loads(
                result,
                scatter_load_check("bf16 scatter", block_size, probe),
                Family { context, width: block_size },
            ),
    {
        check_block("bf16 scatter", block_size)?;
        check_threads("bf16 scatter", block_size, probe)?;
        Ok(Bf16Scatter { family: Family { context, width: block_size } })
    }

    /// Thread-block width of the copy.
    pub fn block_size(&self) -> (width: u32)
        ensures
            width == self@.width,
            power_of_two(width as nat),
    {
        proof {
            use_type_invariant(self);
        }
        self.family.width
    }

    /// Plans the copy of the source rows to their positions with a wait.
    /// `position_host` holds what the position buffer holds; every position
    /// must be a row of the output, and none may occur twice.
    pub fn scatter(
        &self,
        stream: &Stream,
        source: &DeviceBuffer,
        positions: &DeviceBuffer,
        output: &DeviceBuffer,
        output_rows: usize,
        cols: usize,
        position_host: &[u32],
    ) -> (plan: Plan)
        ensures
            plan@ == checked_scatter_plan(
                "bf16 scatter",
                Kernel::Bf16ScatterRows,
                self@,
                *stream,
                Placement {
                    source: *source,
                    positions: *positions,
                    output: *output,
                    output_rows,
                    cols,
                },
                position_host@,
            ),
    {
        let p = &Placement {
            source: *source,
            positions: *positions,
            output: *output,
            output_rows,
            cols,
        };
        let check = check_positions("bf16 scatter", position_host, p.output_rows);
        Plan::checked(check).followed_by(
            self.enqueue_scatter(
                stream,
                source,
                positions,
                output,
                output_rows,
                cols,
            ).synchronized(),
        )
    }

    /// Plans the copy without a wait and without looking at the positions.
    pub fn enqueue_scatter(
        &self,
        stream: &Stream,
        source: &DeviceBuffer,
        positions: &DeviceBuffer,
        output: &DeviceBuffer,
        output_rows: usize,
        cols: usize,
    ) -> (plan: Plan)
        ensures
            plan@ == scatter_plan(
                "bf16 scatter",
                Kernel::Bf16ScatterRows,
                self@,
                *stream,
                Placement {
                    source: *source,
                    positions: *positions,
                    output: *output,
                    output_rows,
                    cols,
                },
            ),
    {
        let p = &Placement {
            source: *source,
            positions: *positions,
            output: *output,
            output_rows,
            cols,
        };
        plan_scatter("bf16 scatter", Kernel::Bf16ScatterRows, self.family, stream, p)
    }
}

/// The position check passes exactly where every position is a row of the
/// output and no two slots name the same one.
pub proof fn position_check_decides(name: &'static str, positions: Seq<u32>, rows: usize)
    ensures
        position_check(name, positions, rows, 0) is Ok <==> {
            &&& forall|i: int| 0 <= i < positions.len() ==> #[trigger] positions[i] < rows
            &&& forall|i: int, j: int|
                0 <= i < j < positions.len() ==> #[trigger] positions[i] != #[trigger] positions[j]
        },
{
    decides_from(name, positions, rows, 0);
    if forall|i: int, j: int|
        0 <= i < j < positions.len() ==> #[trigger] positions[i] != #[trigger] positions[j] {
        assert forall|at: int| 0 <= at < positions.len() implies !#[trigger] seen_before(
            positions,
            at,
        ) by {}
    }
    if position_check(name, positions, rows, 0) is Ok {
        assert forall|i: int, j: int| 0 <= i < j < positions.len() implies #[trigger] positions[i]
            != #[trigger] positions[j] by {
            assert(!seen_before(positions, j));
        }
    }
}

proof fn decides_from(name: &'static str, positions: Seq<u32>, rows: usize, from: int)
    requires
        0 <= from,
    ensures
        position_check(name, positions, rows, from) is Ok <==> {
            &&& forall|i: int| from <= i < positions.len() ==> #[trigger] positions[i] < rows
            &&& forall|at: int|
                from <= at < positions.len() ==> !#[trigger] seen_before(positions, at)
        },
    decreases positions.len() - from,
{
    if from < positions.len() {
        decides_from(name, positions, rows, from + 1);
        assert(position_check(name, positions, rows, from) is Ok ==> !seen_before(positions, from));
    }
}

/// The position check reports the first slot whose position is not a row of the
/// output or is named by an earlier slot.
pub proof fn position_check_reports_the_first(
    name: &'static str,
    positions: Seq<u32>,
    rows: usize,
    at: int,
)
    requires
        0 <= at < positions.len() <= usize::MAX,
        positions[at] >= rows || exists|i: int| 0 <= i < at && positions[i] == positions[at],
        forall|i: int| 0 <= i < at ==> #[trigger] positions[i] < rows,
        forall|i: int, j: int|
            0 <= i < j < at ==> #[trigger] positions[i] != #[trigger] positions[j],
    ensures
        position_check(name, positions, rows, 0) == (if positions[at] >= rows {
            Checked::Err(
                KernelError::OutOfRange {
                    family: name,
                    operand: "position",
                    row: positions[at],
                    place: "slot",
                    at: at as usize,
                    rows,
                },
            )
        } else {
            Checked::Err(KernelError::DuplicatePosition { family: name, row: positions[at] })
        }),
{
    reports_from(name, positions, rows, 0, at);
}

proof fn reports_from(name: &'static str, positions: Seq<u32>, rows: usize, from: int, at: int)
    requires
        0 <= from <= at < positions.len(),
        forall|i: int| 0 <= i < at ==> #[trigger] positions[i] < rows,
        forall|i: int, j: int|
            0 <= i < j < at ==> #[trigger] positions[i] != #[trigger] positions[j],
    ensures
        position_check(name, positions, rows, from) == position_check(name, positions, rows, at),
    decreases at - from,
{
    if from < at {
        assert(positions[from] < rows);
        assert(!seen_before(positions, from));
        reports_from(name, positions, rows, from + 1, at);
    }
}

/// The writes of a scatter that the position check accepts never race: two
/// different slots and columns write two different elements of the output,
/// all inside it.
pub proof fn accepted_scatter_never_races(
    name: &'static str,
    family: Family,
    stream: Stream,
    p: Placement,
    positions: Seq<u32>,
    i: int,
    j: int,
    other_i: int,
    other_j: int,
)
    requires
        scatter_check(name, family, stream, p) is Ok,
        positions.len() == p.positions.len,
        position_check(name, positions, p.output_rows, 0) is Ok,
        0 <= i < positions.len(),
        0 <= other_i < positions.len(),
        0 <= j < p.cols,
        0 <= other_j < p.cols,
    ensures
        0 <= positions[i] * p.cols + j < p.output.len,
        0 <= i * p.cols + j < p.source.len,
        positions[i] * p.cols + j == positions[other_i] * p.cols + other_j ==> i == other_i && j
            == other_j,
{
    position_check_decides(name, positions, p.output_rows);
    let cols = p.cols as int;
    let row = positions[i] as int;
    let other = positions[other_i] as int;
    assert(0 <= row * cols + j < p.output_rows * cols) by (nonlinear_arith)
        requires
            0 <= row,
            row + 1 <= p.output_rows,
            0 <= j < cols,
    ;
    assert(0 <= i * cols + j < p.positions.len * cols) by (nonlinear_arith)
        requires
            0 <= i,
            i + 1 <= p.positions.len,
            0 <= j < cols,
    ;
    if row * cols + j == other * cols + other_j {
        assert(row == other) by (nonlinear_arith)
            requires
                row * cols + j == other * cols + other_j,
                0 <= j < cols,
                0 <= other_j < cols,
        ;
        if i < other_i {
            assert(positions[i] != positions[other_i]);
        }
        if other_i < i {
            assert(positions[other_i] != positions[i]);
        }
    }
}

/// A refused scatter submits nothing.
pub proof fn refused_scatter_submits_nothing(
    name: &'static str,
    kernel: Kernel,
    family: Family,
    stream: Stream,
    p: Placement,
)
    ensures
        scatter_plan(name, kernel, family, stream, p).outcome is Err ==> scatter_plan(
            name,
            kernel,
            family,
            stream,
            p,
        ).steps.len() == 0,
{
}

} // verus!
