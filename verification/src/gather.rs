//! Row gathering for embedding lookups over row-major tables:
//! `output[i * cols + j] = table[indices[i] * cols + j]`.
//!
//! The checked operations validate every index on the host before anything is
//! submitted; the enqueue variants leave that to their callers.

use crate::arith::{fits, power_of_two};
use crate::device::{ContextId, DeviceBuffer, Probe, Stream};
use crate::error::{Checked, KernelError};
use crate::family::{
    both, block_check, check_block, check_threads, loads, threads_check, Family,
};
use crate::launch::{Arguments, Kernel, Shape};
use crate::plan::{Plan, PlanView};
use vstd::prelude::*;

verus! {

/// The block width of [`F32Gather::load`] and [`Bf16Gather::load`].
pub const DEFAULT_BLOCK_SIZE: u32 = 256;

/// The operands and the shape of a gather: `rows * cols` elements of `table`,
/// of which the rows named by `indices` go to `output`.
#[derive(Clone, Copy, Debug, PartialEq, Eq, Structural)]
pub struct Lookup {
    pub table: DeviceBuffer,
    pub indices: DeviceBuffer,
    pub output: DeviceBuffer,
    pub rows: usize,
    pub cols: usize,
}

/// Context-bound row gather over an `f32` embedding table.
#[derive(Debug)]
pub struct F32Gather {
    family: Family,
}

impl View for F32Gather {
    type V = Family;

    closed spec fn view(&self) -> Family {
        self.family
    }
}

/// Context-bound row gather over a packed-bf16 embedding table.
#[derive(Debug)]
pub struct Bf16Gather {
    family: Family,
}

impl View for Bf16Gather {
    type V = Family;

    closed spec fn view(&self) -> Family {
        self.family
    }
}

/// All checks of loading, in the order in which they decide.
pub open spec fn gather_load_check(name: &'static str, width: u32, probe: Probe) -> Checked {
    both(block_check(name, width), threads_check(name, width, probe))
}

/// The first of the indices from position `from` on that is not a row.
pub open spec fn index_check(
    name: &'static str,
    indices: Seq<u32>,
    rows: usize,
    from: int,
) -> Checked
    decreases indices.len() - from,
{
    if from < 0 || from >= indices.len() {
        Ok(())
    } else if indices[from] >= rows {
        Err(
            KernelError::OutOfRange {
                family: name,
                operand: "index",
                row: indices[from],
                place: "position",
                at: from as usize,
                rows,
            },
        )
    } else {
        index_check(name, indices, rows, from + 1)
    }
}

/// The table must have the size its shape requires.
pub open spec fn table_check(name: &'static str, p: Lookup) -> Checked {
    if !fits(p.rows * p.cols) {
        Err(KernelError::Rule { family: name, rule: "shape overflows usize" })
    } else if p.table.len != p.rows * p.cols {
        Err(
            KernelError::Shape {
                family: name,
                operand: "table has",
                actual: p.table.len,
                unit: "elements",
                rows: p.rows,
                cols: p.cols,
                required: (p.rows * p.cols) as usize,
            },
        )
    } else {
        Ok(())
    }
}

/// The output must hold one row per index.
pub open spec fn gathered_check(name: &'static str, p: Lookup, required: usize) -> Checked {
    if p.output.len != required {
        Err(
            KernelError::RowProduct {
                family: name,
                operand: "output has",
                actual: p.output.len,
                rows: p.indices.len,
                unit: "indices",
                cols: p.cols,
                required,
            },
        )
    } else {
        Ok(())
    }
}

/// `a * b`, or the largest count where that is more.
pub open spec fn saturating(a: usize, b: usize) -> usize {
    if fits(a * b) {
        (a * b) as usize
    } else {
        usize::MAX
    }
}

/// The first rule that the operands of an `f32` gather break.
pub open spec fn gather_check(family: Family, stream: Stream, p: Lookup) -> Checked {
    if table_check("gather", p) is Err {
        table_check("gather", p)
    } else if !fits(p.indices.len * p.cols) {
        Err(KernelError::Rule { family: "gather", rule: "shape overflows usize" })
    } else if gathered_check("gather", p, (p.indices.len * p.cols) as usize) is Err {
        gathered_check("gather", p, (p.indices.len * p.cols) as usize)
    } else if stream.context != family.context || p.table.context != family.context
        || p.indices.context != family.context || p.output.context != family.context {
        Err(
            KernelError::Rule {
                family: "gather",
                rule: "stream, buffers, and kernel must share one context",
            },
        )
    } else {
        Ok(())
    }
}

/// The first rule that the operands of a packed-bf16 gather break.
pub open spec fn bf16_gather_check(family: Family, stream: Stream, p: Lookup) -> Checked {
    if stream.context != family.context || p.table.context != family.context || p.indices.context
        != family.context || p.output.context != family.context {
        Err(
            KernelError::Rule {
                family: "bf16 gather",
                rule: "stream, buffers, and kernel must share one context",
            },
        )
    } else if table_check("bf16 gather", p) is Err {
        table_check("bf16 gather", p)
    } else {
        gathered_check("bf16 gather", p, saturating(p.indices.len, p.cols))
    }
}

/// The launch that moves the rows; nothing for no indices.
pub open spec fn lookup_launch(kernel: Kernel, width: u32, p: Lookup) -> PlanView {
    if p.indices.len == 0 {
        PlanView::done()
    } else {
        PlanView::launch(
            kernel,
            Shape::Elements { count: saturating(p.indices.len, p.cols), block_size: width },
            Arguments::MoveRows {
                source: p.table.id,
                index: p.indices.id,
                output: p.output.id,
                rows: p.rows as u64,
                cols: p.cols as u64,
                count: p.indices.len as u64,
            },
        )
    }
}

/// What an `f32` gather does once its indices are known to be rows.
pub open spec fn gather_plan(family: Family, stream: Stream, p: Lookup) -> PlanView {
    PlanView::checked(gather_check(family, stream, p)).followed_by(
        lookup_launch(Kernel::GatherRows, family.width, p),
    )
}

/// What a packed-bf16 gather does once its indices are known to be rows.
pub open spec fn bf16_gather_plan(family: Family, stream: Stream, p: Lookup) -> PlanView {
    PlanView::checked(bf16_gather_check(family, stream, p)).followed_by(
        lookup_launch(Kernel::Bf16GatherRows, family.width, p),
    )
}

/// An `f32` gather of rows whose indices the host has read, with a wait.
pub open spec fn checked_gather_plan(
    family: Family,
    stream: Stream,
    p: Lookup,
    indices: Seq<u32>,
) -> PlanView {
    PlanView::checked(index_check("gather", indices, p.rows, 0)).followed_by(
        gather_plan(family, stream, p).synchronized(),
    )
}

/// A packed-bf16 gather of rows whose indices the host has read, with a wait.
pub open spec fn checked_bf16_gather_plan(
    family: Family,
    stream: Stream,
    p: Lookup,
    indices: Seq<u32>,
) -> PlanView {
    PlanView::checked(index_check("bf16 gather", indices, p.rows, 0)).followed_by(
        bf16_gather_plan(family, stream, p).synchronized(),
    )
}

/// Checks that every index is a row.
pub fn check_indices(name: &'static str, indices: &[u32], rows: usize) -> (check: Checked)
    ensures
        check == index_check(name, indices@, rows, 0),
{
    let count: usize = indices.len();
    for position in 0..count
        invariant
            count == indices@.len(),
            index_check(name, indices@, rows, 0) == index_check(
                name,
                indices@,
                rows,
                position as int,
            ),
    {
        let index: u32 = indices[position];
        if index as usize >= rows {
            return Err(
                KernelError::OutOfRange {
                    family: name,
                    operand: "index",
                    row: index,
                    place: "position",
                    at: position,
                    rows,
                },
            );
        }
    }
    Ok(())
}

fn check_table(name: &'static str, p: &Lookup) -> (check: Checked)
    ensures
        check == table_check(name, *p),
{
    let expected: usize = match p.rows.checked_mul(p.cols) {
        Some(elements) => elements,
        None => {
            return Err(KernelError::Rule { family: name, rule: "shape overflows usize" });
        },
    };
    if p.table.len != expected {
        return Err(
            KernelError::Shape {
                family: name,
                operand: "table has",
                actual: p.table.len,
                unit: "elements",
                rows: p.rows,
                cols: p.cols,
                required: expected,
            },
        );
    }
    Ok(())
}

fn check_gathered(name: &'static str, p: &Lookup, required: usize) -> (check: Checked)
    ensures
        check == gathered_check(name, *p, required),
{
    if p.output.len != required {
        return Err(
            KernelError::RowProduct {
                family: name,
                operand: "output has",
                actual: p.output.len,
                rows: p.indices.len,
                unit: "indices",
                cols: p.cols,
                required,
            },
        );
    }
    Ok(())
}

/// `a * b`, or the largest count where that is more.
pub fn saturating_product(a: usize, b: usize) -> (product: usize)
    ensures
        product == saturating(a, b),
{
    match a.checked_mul(b) {
        Some(product) => product,
        None => usize::MAX,
    }
}

fn launch_lookup(kernel: Kernel, width: u32, p: &Lookup) -> (plan: Plan)
    ensures
        plan@ == lookup_launch(kernel, width, *p),
{
    if p.indices.len == 0 {
        return Plan::done();
    }
    Plan::launch(
        kernel,
        Shape::Elements { count: saturating_product(p.indices.len, p.cols), block_size: width },
        Arguments::MoveRows {
            source: p.table.id,
            index: p.indices.id,
            output: p.output.id,
            rows: p.rows as u64,
            cols: p.cols as u64,
            count: p.indices.len as u64,
        },
    )
}

impl F32Gather {
    #[verifier::type_invariant]
    spec fn ready(self) -> bool {
        power_of_two(self.family.width as nat)
    }

    /// Checks a block width before anything is compiled.
    pub fn check_block_size(block_size: u32) -> (check: Checked)
        ensures
            check == block_check("gather", block_size),
    {
        check_block("gather", block_size)
    }

    /// Accepts the compiled function with the default block width.
    pub fn load(context: ContextId, probe: Probe) -> (result: Result<F32Gather, KernelError>)
        ensures
            loads(
                result,
                gather_load_check("gather", DEFAULT_BLOCK_SIZE, probe),
                Family { context, width: DEFAULT_BLOCK_SIZE },
            ),
    {
        Self::load_with_block_size(context, DEFAULT_BLOCK_SIZE, probe)
    }

    /// Accepts the compiled function with an explicit power-of-two width.
    pub fn load_with_block_size(
        context: ContextId,
        block_size: u32,
        probe: Probe,
    ) -> (result: Result<F32Gather, KernelError>)
        ensures
            loads(
                result,
                gather_load_check("gather", block_size, probe),
                Family { context, width: block_size },
            ),
    {
        check_block("gather", block_size)?;
        check_threads("gather", block_size, probe)?;
        Ok(F32Gather { family: Family { context, width: block_size } })
    }

    /// Thread-block width of the copy.
    pub fn block_size(&self) -> (width: u32)
        ensures
            width == self@.width,
            power_of_two(width as nat),
    {
        proof {
            use_type_invariant(self);
        }
        self.family.width
    }

    /// Plans the copy of the selected rows with a wait. `index_host` holds
    /// what the index buffer holds; every index must be smaller than `rows`.
    pub fn gather(
        &self,
        stream: &Stream,
        table: &DeviceBuffer,
        indices: &DeviceBuffer,
        output: &DeviceBuffer,
        rows: usize,
        cols: usize,
        index_host: &[u32],
    ) -> (plan: Plan)
        ensures
            plan@ == checked_gather_plan(
                self@,
                *stream,
                Lookup { table: *table, indices: *indices, output: *output, rows, cols },
                index_host@,
            ),
    {
        let p = &Lookup { table: *table, indices: *indices, output: *output, rows, cols };
        let check = check_indices("gather", index_host, p.rows);
        Plan::checked(check).followed_by(
            self.enqueue_gather(stream, table, indices, output, rows, cols).synchronized(),
        )
    }

    /// Plans the copy without a wait and without looking at the indices.
    pub fn enqueue_gather(
        &self,
        stream: &Stream,
        table: &DeviceBuffer,
        indices: &DeviceBuffer,
        output: &DeviceBuffer,
        rows: usize,
        cols: usize,
    ) -> (plan: Plan)
        ensures
            plan@ == gather_plan(
                self@,
                *stream,
                Lookup { table: *table, indices: *indices, output: *output, rows, cols },
            ),
    {
        let p = &Lookup { table: *table, indices: *indices, output: *output, rows, cols };
        let check = self.validate_common(stream, p);
        Plan::checked(check).followed_by(
            launch_lookup(Kernel::GatherRows, self.family.width, p),
        )
    }

    /// Checks the operands.
    pub fn validate_common(&self, stream: &Stream, p: &Lookup) -> (check: Checked)
        ensures
            check == gather_check(self@, *stream, *p),
    {
        check_table("gather", p)?;
        let expected: usize = match p.indices.len.checked_mul(p.cols) {
            Some(elements) => elements,
            None => {
                return Err(KernelError::Rule { family: "gather", rule: "shape overflows usize" });
            },
        };
        check_gathered("gather", p, expected)?;
        let context = self.family.context;
        if stream.context != context || p.table.context != context || p.indices.context != context
            || p.output.context != context {
            return Err(
                KernelError::Rule {
                    family: "gather",
                    rule: "stream, buffers, and kernel must share one context",
                },
            );
        }
        Ok(())
    }
}

impl Bf16Gather {
    #[verifier::type_invariant]
    spec fn ready(self) -> bool {
        power_of_two(self.family.width as nat)
    }

    /// Checks a block width before anything is compiled.
    pub fn check_block_size(block_size: u32) -> (check: Checked)
        ensures
            check == block_check("bf16 gather", block_size),
    {
        check_block("bf16 gather", block_size)
    }

    /// Accepts the compiled function with the default block width.
    pub fn load(context: ContextId, probe: Probe) -> (result: Result<Bf16Gather, KernelError>)
        ensures
            loads(
                result,
                gather_load_check("bf16 gather", DEFAULT_BLOCK_SIZE, probe),
                Family { context, width: DEFAULT_BLOCK_SIZE },
            ),
    {
        Self::load_with_block_size(context, DEFAULT_BLOCK_SIZE, probe)
    }

    /// Accepts the compiled function with an explicit power-of-two width.
    pub fn load_with_block_size(
        context: ContextId,
        block_size: u32,
        probe: Probe,
    ) -> (result: Result<Bf16Gather, KernelError>)
        ensures
            loads(
                result,
                gather_load_check("bf16 gather", block_size, probe),
                Family { context, width: block_size },
            ),
    {
        check_block("bf16 gather", block_size)?;
        check_threads("bf16 gather", block_size, probe)?;
        Ok(Bf16Gather { family: Family { context, width: block_size } })
    }

    /// Thread-block width of the copy.
    pub fn block_size(&self) -> (width: u32)
        ensures
            width == self@.width,
            power_of_two(width as nat),
    {
        proof {
            use_type_invariant(self);
        }
        self.family.width
    }

    /// Plans the copy of the selected rows with a wait; see
    /// [`F32Gather::gather`].
    pub fn gather(
        &self,
        stream: &Stream,
        table: &DeviceBuffer,
        indices: &DeviceBuffer,
        output: &DeviceBuffer,
        rows: usize,
        cols: usize,
        index_host: &[u32],
    ) -> (plan: Plan)
        ensures
            plan@ == checked_bf16_gather_plan(
                self@,
                *stream,
                Lookup { table: *table, indices: *indices, output: *output, rows, cols },
                index_host@,
            ),
    {
        let p = &Lookup { table: *table, indices: *indices, output: *output, rows, cols };
        let check = check_indices("bf16 gather", index_host, p.rows);
        Plan::checked(check).followed_by(
            self.enqueue_gather(stream, table, indices, output, rows, cols).synchronized(),
        )
    }

    /// Plans the copy without a wait and without looking at the indices.
    pub fn enqueue_gather(
        &self,
        stream: &Stream,
        table: &DeviceBuffer,
        indices: &DeviceBuffer,
        output: &DeviceBuffer,
        rows: usize,
        cols: usize,
    ) -> (plan: Plan)
        ensures
            plan@ == bf16_gather_plan(
                self@,
                *stream,
                Lookup { table: *table, indices: *indices, output: *output, rows, cols },
            ),
    {
        let p = &Lookup { table: *table, indices: *indices, output: *output, rows, cols };
        let context = self.family.context;
        if stream.context != context || p.table.context != context || p.indices.context != context
            || p.output.context != context {
            return Plan::rejected(
                KernelError::Rule {
                    family: "bf16 gather",
                    rule: "stream, buffers, and kernel must share one context",
                },
            );
        }
        match check_table("bf16 gather", p) {
            Err(error) => {
                return Plan::rejected(error);
            },
            Ok(()) => {},
        }
        let check = check_gathered("bf16 gather", p, saturating_product(p.indices.len, p.cols));
        Plan::checked(check).followed_by(
            launch_lookup(Kernel::Bf16GatherRows, self.family.width, p),
        )
    }
}

/// The index check passes exactly where every index is a row.
pub proof fn index_check_decides(name: &'static str, indices: Seq<u32>, rows: usize, from: int)
    requires
        0 <= from,
    ensures
        index_check(name, indices, rows, from) is Ok <==> forall|i: int|
            from <= i < indices.len() ==> #[trigger] indices[i] < rows,
    decreases indices.len() - from,
{
    if from < indices.len() {
        index_check_decides(name, indices, rows, from + 1);
    }
}

/// The index check reports the first index that is not a row.
pub proof fn index_check_reports_the_first(
    name: &'static str,
    indices: Seq<u32>,
    rows: usize,
    at: int,
)
    requires
        0 <= at < indices.len() <= usize::MAX,
        indices[at] >= rows,
        forall|i: int| 0 <= i < at ==> #[trigger] indices[i] < rows,
    ensures
        index_check(name, indices, rows, 0) == Checked::Err(
            KernelError::OutOfRange {
                family: name,
                operand: "index",
                row: indices[at],
                place: "position",
                at: at as usize,
                rows,
            },
        ),
{
    first_from(name, indices, rows, 0, at);
}

proof fn first_from(name: &'static str, indices: Seq<u32>, rows: usize, from: int, at: int)
    requires
        0 <= from <= at < indices.len(),
        indices[at] >= rows,
        forall|i: int| 0 <= i < at ==> #[trigger] indices[i] < rows,
    ensures
        index_check(name, indices, rows, from) == index_check(name, indices, rows, at),
    decreases at - from,
{
    if from < at {
        assert(indices[from] < rows);
        first_from(name, indices, rows, from + 1, at);
    }
}

/// An accepted gather reads only inside its table and writes only inside its
/// output.
pub proof fn gather_stays_inside(
    name: &'static str,
    family: Family,
    stream: Stream,
    p: Lookup,
    indices: Seq<u32>,
    i: int,
    j: int,
)
    requires
        gather_check(family, stream, p) is Ok || bf16_gather_check(family, stream, p) is Ok,
        fits(p.indices.len * p.cols),
        indices.len() == p.indices.len,
        index_check(name, indices, p.rows, 0) is Ok,
        0 <= i < indices.len(),
        0 <= j < p.cols,
    ensures
        0 <= indices[i] * p.cols + j < p.table.len,
        0 <= i * p.cols + j < p.output.len,
{
    index_check_decides(name, indices, p.rows, 0);
    assert(indices[i] < p.rows);
    let cols = p.cols as int;
    let row = indices[i] as int;
    assert(0 <= row * cols + j < p.rows * cols) by (nonlinear_arith)
        requires
            0 <= row,
            row + 1 <= p.rows,
            0 <= j < cols,
    ;
    assert(0 <= i * cols + j < p.indices.len * cols) by (nonlinear_arith)
        requires
            0 <= i,
            i + 1 <= p.indices.len,
            0 <= j < cols,
    ;
}

/// A refused gather submits nothing.
pub proof fn refused_gather_submits_nothing(family: Family, stream: Stream, p: Lookup)
    ensures
        gather_plan(family, stream, p).outcome is Err ==> gather_plan(
            family,
            stream,
            p,
        ).steps.len() == 0,
        bf16_gather_plan(family, stream, p).outcome is Err ==> bf16_gather_plan(
            family,
            stream,
            p,
        ).steps.len() == 0,
{
}

} // verus!
