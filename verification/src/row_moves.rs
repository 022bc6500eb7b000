//! What gathers and scatters do to device memory.
//!
//! The plans of the two families say which kernel is launched, with which
//! arguments and on how many threads. Here a thread of either kernel has an
//! effect: it copies one element. From that follow the contents that a plan
//! leaves behind, in whatever order the device runs the threads.

use crate::arith::fits;
use crate::device::{BufferId, DeviceBuffer, Stream};
use crate::family::Family;
use crate::gather::{
    bf16_gather_plan, checked_bf16_gather_plan, checked_gather_plan, gather_plan,
    index_check_decides, lookup_launch, Lookup,
};
use crate::launch::{Arguments, Kernel, Launch, Shape};
use crate::machine::{element_place, holds, Memory};
use crate::plan::{Action, PlanView};
use crate::scatter::{
    accepted_scatter_never_races, checked_scatter_plan, position_check, position_check_decides,
    scatter_check, scatter_plan, Placement,
};
use vstd::arithmetic::div_mod::lemma_fundamental_div_mod_converse;
use vstd::prelude::*;

verus! {

/// Whether the kernel gathers rows.
pub open spec fn gathers(kernel: Kernel) -> bool {
    kernel == Kernel::GatherRows || kernel == Kernel::Bf16GatherRows
}

/// Whether the kernel scatters rows.
pub open spec fn scatters(kernel: Kernel) -> bool {
    kernel == Kernel::ScatterRows || kernel == Kernel::Bf16ScatterRows
}

/// What one thread of a row move does. It copies the element of its number:
/// from its row of the table when it gathers, to its row of the output when it
/// scatters. Threads beyond the last element do nothing.
pub open spec fn thread_effect(launch: Launch, memory: Memory, thread: nat) -> Memory {
    match launch.arguments {
        Arguments::MoveRows { source, index, output, rows: _, cols, count } => {
            let row = memory[index][thread as int / cols as int];
            let there = row * cols + thread as int % cols as int;
            if thread >= count * cols {
                memory
            } else if gathers(launch.kernel) {
                memory.insert(
                    output,
                    memory[output].update(thread as int, memory[source][there]),
                )
            } else {
                memory.insert(
                    output,
                    memory[output].update(there, memory[source][thread as int]),
                )
            }
        },
        _ => memory,
    }
}

/// What the threads do, taken in this order.
pub open spec fn run_threads(launch: Launch, memory: Memory, order: Seq<nat>) -> Memory
    decreases order.len(),
{
    if order.len() == 0 {
        memory
    } else {
        thread_effect(launch, run_threads(launch, memory, order.drop_last()), order.last())
    }
}

/// Every element of an elementwise launch has a thread.
pub open spec fn covers(shape: Shape, order: Seq<nat>) -> bool {
    shape matches Shape::Elements { count, .. } ==> forall|thread: nat|
        thread < count ==> #[trigger] order.contains(thread)
}

/// Whether a call that succeeds may turn the one memory into the other. Of
/// other calls than row moves and waits nothing is said.
pub open spec fn leads_to(action: Action, before: Memory, after: Memory) -> bool {
    match action {
        Action::Launch(launch) => gathers(launch.kernel) || scatters(launch.kernel)
            ==> exists|order: Seq<nat>|
            covers(launch.shape, order) && after == #[trigger] run_threads(launch, before, order),
        Action::Synchronize => after == before,
        Action::Drain => after == before,
        _ => true,
    }
}

/// Carrying out the plan, with no call failing, takes memory through these
/// contents.
pub open spec fn carried_out(plan: PlanView, trace: Seq<Memory>) -> bool {
    &&& trace.len() == plan.steps.len() + 1
    &&& forall|n: int|
        0 <= n < plan.steps.len() ==> leads_to(
            (#[trigger] plan.steps[n]).action,
            trace[n],
            trace[n + 1],
        )
}

/// The contents of a gathered output: row `i` of it is row
/// `indices[i]` of the table, bit pattern by bit pattern.
pub open spec fn gathered<T>(table: Seq<T>, indices: Seq<u32>, cols: nat) -> Seq<T> {
    Seq::new(
        indices.len() * cols,
        |at: int| table[indices[at / cols as int] * cols + at % cols as int],
    )
}

/// The contents of a scattered output: row `positions[i]` of it is row `i` of
/// the source, and the other rows are what they were.
pub open spec fn scattered<T>(
    output: Seq<T>,
    source: Seq<T>,
    positions: Seq<u32>,
    cols: nat,
    result: Seq<T>,
) -> bool {
    &&& result.len() == output.len()
    &&& forall|i: int, j: int|
        #![trigger source[i * cols + j]]
        0 <= i < positions.len() && 0 <= j < cols ==> result[positions[i] * cols + j]
            == source[i * cols + j]
    &&& forall|row: int, j: int|
        #![trigger output[row * cols + j]]
        0 <= row && 0 <= j < cols && row * cols + j < output.len() && (forall|i: int|
            0 <= i < positions.len() ==> #[trigger] positions[i] != row) ==> result[row * cols + j]
            == output[row * cols + j]
}

/// Rows gathered at the positions they were scattered to are the source.
proof fn rows_come_back<T>(
    output: Seq<T>,
    source: Seq<T>,
    positions: Seq<u32>,
    cols: nat,
    result: Seq<T>,
)
    requires
        source.len() == positions.len() * cols,
        scattered(output, source, positions, cols, result),
    ensures
        gathered(result, positions, cols) == source,
{
    let back = gathered(result, positions, cols);
    if cols == 0 {
        assert(positions.len() * cols == 0) by (nonlinear_arith)
            requires
                cols == 0,
        ;
    }
    assert forall|at: int| 0 <= at < source.len() implies back[at] == source[at] by {
        let i = at / cols as int;
        let j = at % cols as int;
        element_place(at, positions.len() as int, cols as int);
        assert(source[i * cols + j] == result[positions[i] * cols + j]);
    }
    assert(back =~= source);
}

/// The element of the output that a thread of a scatter writes.
spec fn target(positions: Seq<u32>, cols: int, thread: int) -> int {
    positions[thread / cols] * cols + thread % cols
}

/// Every thread of a scatter writes an element of its own, inside the output.
spec fn disjoint(positions: Seq<u32>, cols: int, elements: int, room: int) -> bool {
    &&& forall|t: int| 0 <= t < elements ==> 0 <= #[trigger] target(positions, cols, t) < room
    &&& forall|t: int, u: int|
        0 <= t < elements && 0 <= u < elements && #[trigger] target(positions, cols, t)
            == #[trigger] target(positions, cols, u) ==> t == u
}

proof fn accepted_positions_are_disjoint(
    name: &'static str,
    family: Family,
    stream: Stream,
    p: Placement,
    positions: Seq<u32>,
)
    requires
        scatter_check(name, family, stream, p) is Ok,
        positions.len() == p.positions.len,
        position_check(name, positions, p.output_rows, 0) is Ok,
    ensures
        disjoint(positions, p.cols as int, p.positions.len * p.cols, p.output.len as int),
{
    let cols = p.cols as int;
    let elements = p.positions.len * p.cols;
    if cols == 0 {
        assert(elements == 0) by (nonlinear_arith)
            requires
                cols == 0,
                elements == p.positions.len * cols,
        ;
    } else {
        assert forall|t: int| 0 <= t < elements implies 0 <= #[trigger] target(positions, cols, t)
            < p.output.len by {
            element_place(t, positions.len() as int, cols);
            accepted_scatter_never_races(
                name,
                family,
                stream,
                p,
                positions,
                t / cols,
                t % cols,
                t / cols,
                t % cols,
            );
        }
        assert forall|t: int, u: int|
            0 <= t < elements && 0 <= u < elements && #[trigger] target(positions, cols, t)
                == #[trigger] target(positions, cols, u) implies t == u by {
            element_place(t, positions.len() as int, cols);
            element_place(u, positions.len() as int, cols);
            accepted_scatter_never_races(
                name,
                family,
                stream,
                p,
                positions,
                t / cols,
                t % cols,
                u / cols,
                u % cols,
            );
        }
    }
}

/// After some of the threads of a scatter have run, what they write is
/// written, and nothing else has changed.
proof fn scattering_threads(
    launch: Launch,
    before: Memory,
    order: Seq<nat>,
    source: BufferId,
    index: BufferId,
    output: BufferId,
    rows: u64,
    cols: u64,
    count: u64,
)
    requires
        scatters(launch.kernel),
        launch.arguments == (Arguments::MoveRows { source, index, output, rows, cols, count }),
        output != source,
        output != index,
        disjoint(
            before[index],
            cols as int,
            count * cols,
            before[output].len() as int,
        ),
    ensures
        ({
            let after = run_threads(launch, before, order);
            &&& forall|other: BufferId| other != output ==> #[trigger] after[other] == before[other]
            &&& after[output].len() == before[output].len()
            &&& forall|t: nat|
                #![trigger order.contains(t)]
                order.contains(t) && t < count * cols ==> after[output][target(
                    before[index],
                    cols as int,
                    t as int,
                )] == before[source][t as int]
            &&& forall|at: int|
                #![trigger after[output][at]]
                0 <= at < before[output].len() && (forall|t: nat|
                    order.contains(t) && t < count * cols ==> #[trigger] target(
                        before[index],
                        cols as int,
                        t as int,
                    ) != at) ==> after[output][at] == before[output][at]
        }),
    decreases order.len(),
{
    let positions = before[index];
    let elements = count * cols;
    if order.len() > 0 {
        let rest = order.drop_last();
        let last = order.last();
        scattering_threads(launch, before, rest, source, index, output, rows, cols, count);
        let middle = run_threads(launch, before, rest);
        let after = run_threads(launch, before, order);
        assert forall|t: nat| #[trigger] order.contains(t) implies rest.contains(t) || t
            == last by {
            let n = choose|n: int| 0 <= n < order.len() && order[n] == t;
            if n < rest.len() {
                assert(rest[n] == t);
            }
        }
        assert forall|t: nat| #[trigger] rest.contains(t) implies order.contains(t) by {
            let n = choose|n: int| 0 <= n < rest.len() && rest[n] == t;
            assert(order[n] == t);
        }
        assert(order.contains(last)) by {
            assert(order[order.len() - 1] == last);
        }
        if last < elements {
            let there = target(positions, cols as int, last as int);
            assert(after[output] == middle[output].update(there, before[source][last as int]));
        }
        assert forall|t: nat|
            #![trigger order.contains(t)]
            order.contains(t) && t < elements implies after[output][target(
            positions,
            cols as int,
            t as int,
        )] == before[source][t as int] by {
            if t != last {
                assert(rest.contains(t));
            }
        }
        assert forall|at: int|
            #![trigger after[output][at]]
            0 <= at < before[output].len() && (forall|t: nat|
                order.contains(t) && t < elements ==> #[trigger] target(
                    positions,
                    cols as int,
                    t as int,
                ) != at) implies after[output][at] == before[output][at] by {
            assert(middle[output][at] == before[output][at]);
            if last < elements {
                assert(target(positions, cols as int, last as int) != at);
            }
        }
    }
}

/// After some of the threads of a gather have run, what they write is written,
/// and nothing else has changed.
proof fn gathering_threads(
    launch: Launch,
    before: Memory,
    order: Seq<nat>,
    source: BufferId,
    index: BufferId,
    output: BufferId,
    rows: u64,
    cols: u64,
    count: u64,
)
    requires
        gathers(launch.kernel),
        launch.arguments == (Arguments::MoveRows { source, index, output, rows, cols, count }),
        output != source,
        output != index,
        before[output].len() == count * cols,
    ensures
        ({
            let after = run_threads(launch, before, order);
            &&& forall|other: BufferId| other != output ==> #[trigger] after[other] == before[other]
            &&& after[output].len() == before[output].len()
            &&& forall|t: nat|
                #![trigger order.contains(t)]
                order.contains(t) && t < count * cols ==> after[output][t as int]
                    == before[source][target(before[index], cols as int, t as int)]
        }),
    decreases order.len(),
{
    if order.len() > 0 {
        let rest = order.drop_last();
        let last = order.last();
        gathering_threads(launch, before, rest, source, index, output, rows, cols, count);
        let after = run_threads(launch, before, order);
        assert forall|t: nat|
            #![trigger order.contains(t)]
            order.contains(t) && t < count * cols implies after[output][t as int]
            == before[source][target(before[index], cols as int, t as int)] by {
            let n = choose|n: int| 0 <= n < order.len() && order[n] == t;
            if n < rest.len() {
                assert(rest[n] == t);
                assert(rest.contains(t));
            }
        }
    }
}

/// An accepted scatter leaves row `i` of the source in row `positions[i]` of
/// the output, every other row of the output as it was, and every other
/// allocation untouched, in whatever order its threads run.
pub proof fn scatter_places_the_rows(
    name: &'static str,
    kernel: Kernel,
    family: Family,
    stream: Stream,
    p: Placement,
    trace: Seq<Memory>,
)
    requires
        scatters(kernel),
        holds(trace[0], p.source),
        holds(trace[0], p.positions),
        holds(trace[0], p.output),
        p.output.id != p.source.id,
        p.output.id != p.positions.id,
        checked_scatter_plan(
            name,
            kernel,
            family,
            stream,
            p,
            trace[0][p.positions.id],
        ).outcome is Ok,
        carried_out(
            checked_scatter_plan(name, kernel, family, stream, p, trace[0][p.positions.id]),
            trace,
        ),
    ensures
        scattered(
            trace[0][p.output.id],
            trace[0][p.source.id],
            trace[0][p.positions.id],
            p.cols as nat,
            trace.last()[p.output.id],
        ),
        forall|other: BufferId|
            other != p.output.id ==> #[trigger] trace.last()[other] == trace[0][other],
{
    let before = trace[0];
    let positions = before[p.positions.id];
    let cols = p.cols as int;
    let plan = checked_scatter_plan(name, kernel, family, stream, p, positions);
    let submitted = scatter_plan(name, kernel, family, stream, p);
    assert(plan.steps =~= submitted.synchronized().steps);
    if p.positions.len == 0 {
        assert(plan.steps[0].action == Action::Synchronize);
        assert(trace.last() == trace[1]);
        assert(p.positions.len * p.cols == 0) by (nonlinear_arith)
            requires
                p.positions.len == 0,
        ;
    } else {
        let launch = submitted.steps[0].action->Launch_0;
        assert(plan.steps[0].action == Action::Launch(launch));
        assert(plan.steps[1].action == Action::Synchronize);
        assert(trace.last() == trace[2]);
        assert(leads_to(plan.steps[0].action, trace[0], trace[1]));
        assert(leads_to(plan.steps[1].action, trace[1], trace[2]));
        let order = choose|order: Seq<nat>|
            covers(launch.shape, order) && trace[1] == #[trigger] run_threads(
                launch,
                before,
                order,
            );
        accepted_positions_are_disjoint(name, family, stream, p, positions);
        scattering_threads(
            launch,
            before,
            order,
            p.source.id,
            p.positions.id,
            p.output.id,
            p.output_rows as u64,
            p.cols as u64,
            p.positions.len as u64,
        );
        let result = trace[1][p.output.id];
        let output = before[p.output.id];
        let source = before[p.source.id];
        assert forall|i: int, j: int|
            #![trigger source[i * cols + j]]
            0 <= i < positions.len() && 0 <= j < cols implies result[positions[i] * cols + j]
            == source[i * cols + j] by {
            let t = i * cols + j;
            assert(0 <= t < p.positions.len * cols) by (nonlinear_arith)
                requires
                    0 <= i < p.positions.len,
                    0 <= j < cols,
                    t == i * cols + j,
            ;
            lemma_fundamental_div_mod_converse(t, cols, i, j);
            assert(order.contains(t as nat));
        }
        assert forall|row: int, j: int|
            #![trigger output[row * cols + j]]
            0 <= row && 0 <= j < cols && row * cols + j < output.len() && (forall|i: int|
                0 <= i < positions.len() ==> #[trigger] positions[i]
                    != row) implies result[row * cols + j] == output[row * cols + j] by {
            let at = row * cols + j;
            assert(0 <= at) by (nonlinear_arith)
                requires
                    0 <= row,
                    0 <= j < cols,
                    at == row * cols + j,
            ;
            assert forall|t: nat|
                order.contains(t) && t < p.positions.len * p.cols implies #[trigger] target(
                positions,
                cols,
                t as int,
            ) != at by {
                element_place(t as int, positions.len() as int, cols);
                let other = positions[t as int / cols] as int;
                let k = t as int % cols;
                if other * cols + k == row * cols + j {
                    assert(other == row) by (nonlinear_arith)
                        requires
                            other * cols + k == row * cols + j,
                            0 <= j < cols,
                            0 <= k < cols,
                    ;
                }
            }
        }
    }
}

proof fn lookup_collects_the_rows(
    kernel: Kernel,
    width: u32,
    p: Lookup,
    plan: PlanView,
    trace: Seq<Memory>,
)
    requires
        gathers(kernel),
        holds(trace[0], p.indices),
        holds(trace[0], p.output),
        p.output.id != p.table.id,
        p.output.id != p.indices.id,
        p.output.len == p.indices.len * p.cols,
        plan.steps == lookup_launch(kernel, width, p).synchronized().steps,
        carried_out(plan, trace),
    ensures
        trace.last()[p.output.id] == gathered(
            trace[0][p.table.id],
            trace[0][p.indices.id],
            p.cols as nat,
        ),
        forall|other: BufferId|
            other != p.output.id ==> #[trigger] trace.last()[other] == trace[0][other],
{
    let before = trace[0];
    let indices = before[p.indices.id];
    let cols = p.cols as int;
    let submitted = lookup_launch(kernel, width, p);
    if p.indices.len == 0 {
        assert(plan.steps[0].action == Action::Synchronize);
        assert(trace.last() == trace[1]);
        assert(p.indices.len * p.cols == 0) by (nonlinear_arith)
            requires
                p.indices.len == 0,
        ;
    } else {
        let launch = submitted.steps[0].action->Launch_0;
        assert(plan.steps[0].action == Action::Launch(launch));
        assert(plan.steps[1].action == Action::Synchronize);
        assert(trace.last() == trace[2]);
        assert(leads_to(plan.steps[0].action, trace[0], trace[1]));
        assert(leads_to(plan.steps[1].action, trace[1], trace[2]));
        let order = choose|order: Seq<nat>|
            covers(launch.shape, order) && trace[1] == #[trigger] run_threads(
                launch,
                before,
                order,
            );
        gathering_threads(
            launch,
            before,
            order,
            p.table.id,
            p.indices.id,
            p.output.id,
            p.rows as u64,
            p.cols as u64,
            p.indices.len as u64,
        );
        let result = trace[1][p.output.id];
        assert forall|at: int| 0 <= at < result.len() implies result[at] == gathered(
            before[p.table.id],
            indices,
            p.cols as nat,
        )[at] by {
            assert(order.contains(at as nat));
        }
    }
    assert(trace.last()[p.output.id] =~= gathered(
        before[p.table.id],
        indices,
        p.cols as nat,
    ));
}

/// An accepted `f32` gather leaves row `indices[i]` of the table in row `i` of
/// the output and every other allocation untouched, in whatever order its
/// threads run.
pub proof fn gather_collects_the_rows(
    family: Family,
    stream: Stream,
    p: Lookup,
    trace: Seq<Memory>,
)
    requires
        holds(trace[0], p.indices),
        holds(trace[0], p.output),
        p.output.id != p.table.id,
        p.output.id != p.indices.id,
        checked_gather_plan(family, stream, p, trace[0][p.indices.id]).outcome is Ok,
        carried_out(checked_gather_plan(family, stream, p, trace[0][p.indices.id]), trace),
    ensures
        trace.last()[p.output.id] == gathered(
            trace[0][p.table.id],
            trace[0][p.indices.id],
            p.cols as nat,
        ),
        forall|other: BufferId|
            other != p.output.id ==> #[trigger] trace.last()[other] == trace[0][other],
{
    let plan = checked_gather_plan(family, stream, p, trace[0][p.indices.id]);
    let launch = lookup_launch(Kernel::GatherRows, family.width, p);
    assert(gather_plan(family, stream, p).steps =~= launch.steps);
    assert(plan.steps =~= launch.synchronized().steps);
    lookup_collects_the_rows(Kernel::GatherRows, family.width, p, plan, trace);
}

/// An accepted packed-bf16 gather does likewise, where its output can be
/// indexed.
pub proof fn bf16_gather_collects_the_rows(
    family: Family,
    stream: Stream,
    p: Lookup,
    trace: Seq<Memory>,
)
    requires
        fits(p.indices.len * p.cols),
        holds(trace[0], p.indices),
        holds(trace[0], p.output),
        p.output.id != p.table.id,
        p.output.id != p.indices.id,
        checked_bf16_gather_plan(family, stream, p, trace[0][p.indices.id]).outcome is Ok,
        carried_out(checked_bf16_gather_plan(family, stream, p, trace[0][p.indices.id]), trace),
    ensures
        trace.last()[p.output.id] == gathered(
            trace[0][p.table.id],
            trace[0][p.indices.id],
            p.cols as nat,
        ),
        forall|other: BufferId|
            other != p.output.id ==> #[trigger] trace.last()[other] == trace[0][other],
{
    let plan = checked_bf16_gather_plan(family, stream, p, trace[0][p.indices.id]);
    let launch = lookup_launch(Kernel::Bf16GatherRows, family.width, p);
    assert(bf16_gather_plan(family, stream, p).steps =~= launch.steps);
    assert(plan.steps =~= launch.synchronized().steps);
    lookup_collects_the_rows(Kernel::Bf16GatherRows, family.width, p, plan, trace);
}

/// Reading rows back from where a scatter put them.
pub open spec fn read_back(p: Placement, output: DeviceBuffer) -> Lookup {
    Lookup {
        table: p.output,
        indices: p.positions,
        output,
        rows: p.output_rows,
        cols: p.cols,
    }
}

/// A gather at the same positions undoes an accepted scatter: it is accepted,
/// and leaves in its output, bit for bit, what the source held.
pub proof fn gather_undoes_scatter(
    scatter: Family,
    gather: Family,
    stream: Stream,
    p: Placement,
    output: DeviceBuffer,
    scattering: Seq<Memory>,
    gathering: Seq<Memory>,
)
    requires
        holds(scattering[0], p.source),
        holds(scattering[0], p.positions),
        holds(scattering[0], p.output),
        holds(scattering[0], output),
        p.output.id != p.source.id,
        p.output.id != p.positions.id,
        output.id != p.output.id,
        output.id != p.positions.id,
        output.len == p.positions.len * p.cols,
        output.context == scatter.context,
        gather.context == scatter.context,
        checked_scatter_plan(
            "scatter",
            Kernel::ScatterRows,
            scatter,
            stream,
            p,
            scattering[0][p.positions.id],
        ).outcome is Ok,
        carried_out(
            checked_scatter_plan(
                "scatter",
                Kernel::ScatterRows,
                scatter,
                stream,
                p,
                scattering[0][p.positions.id],
            ),
            scattering,
        ),
        gathering[0] == scattering.last(),
        carried_out(
            checked_gather_plan(
                gather,
                stream,
                read_back(p, output),
                gathering[0][p.positions.id],
            ),
            gathering,
        ),
    ensures
        checked_gather_plan(
            gather,
            stream,
            read_back(p, output),
            gathering[0][p.positions.id],
        ).outcome is Ok,
        gathering.last()[output.id] == scattering[0][p.source.id],
{
    let positions = scattering[0][p.positions.id];
    scatter_places_the_rows("scatter", Kernel::ScatterRows, scatter, stream, p, scattering);
    assert(gathering[0][p.positions.id] == positions);
    assert(gathering[0][output.id] == scattering[0][output.id]);
    position_check_decides("scatter", positions, p.output_rows);
    index_check_decides("gather", positions, p.output_rows, 0);
    gather_collects_the_rows(gather, stream, read_back(p, output), gathering);
    rows_come_back(
        scattering[0][p.output.id],
        scattering[0][p.source.id],
        positions,
        p.cols as nat,
        gathering[0][p.output.id],
    );
}

/// The same holds of packed-bf16 rows.
pub proof fn bf16_gather_undoes_scatter(
    scatter: Family,
    gather: Family,
    stream: Stream,
    p: Placement,
    output: DeviceBuffer,
    scattering: Seq<Memory>,
    gathering: Seq<Memory>,
)
    requires
        holds(scattering[0], p.source),
        holds(scattering[0], p.positions),
        holds(scattering[0], p.output),
        holds(scattering[0], output),
        p.output.id != p.source.id,
        p.output.id != p.positions.id,
        output.id != p.output.id,
        output.id != p.positions.id,
        output.len == p.positions.len * p.cols,
        output.context == scatter.context,
        gather.context == scatter.context,
        checked_scatter_plan(
            "bf16 scatter",
            Kernel::Bf16ScatterRows,
            scatter,
            stream,
            p,
            scattering[0][p.positions.id],
        ).outcome is Ok,
        carried_out(
            checked_scatter_plan(
                "bf16 scatter",
                Kernel::Bf16ScatterRows,
                scatter,
                stream,
                p,
                scattering[0][p.positions.id],
            ),
            scattering,
        ),
        gathering[0] == scattering.last(),
        carried_out(
            checked_bf16_gather_plan(
                gather,
                stream,
                read_back(p, output),
                gathering[0][p.positions.id],
            ),
            gathering,
        ),
    ensures
        checked_bf16_gather_plan(
            gather,
            stream,
            read_back(p, output),
            gathering[0][p.positions.id],
        ).outcome is Ok,
        gathering.last()[output.id] == scattering[0][p.source.id],
{
    let positions = scattering[0][p.positions.id];
    scatter_places_the_rows(
        "bf16 scatter",
        Kernel::Bf16ScatterRows,
        scatter,
        stream,
        p,
        scattering,
    );
    assert(gathering[0][p.positions.id] == positions);
    assert(gathering[0][output.id] == scattering[0][output.id]);
    position_check_decides("bf16 scatter", positions, p.output_rows);
    index_check_decides("bf16 gather", positions, p.output_rows, 0);
    bf16_gather_collects_the_rows(gather, stream, read_back(p, output), gathering);
    rows_come_back(
        scattering[0][p.output.id],
        scattering[0][p.source.id],
        positions,
        p.cols as nat,
        gathering[0][p.output.id],
    );
}

} // verus!
