//! What a selection leaves: the largest elements in order, or the token with
//! the largest score.
//!
//! The kernels of a selection compare and copy, which can be stated on bit
//! patterns whatever the rest of the [`Machine`] does.

use crate::arith::{ceil_div, ceil_div_covers, power_of_two};
use crate::device::Stream;
use crate::family::Family;
use crate::launch::{line, Arguments, Kernel};
use crate::lm_head_argmax::{argmax_plan, ArgmaxProjection, CandidateWorkspace};
use crate::machine::{
    better, better_token, effect, folded, holds, is_nan, lane_winner, nothing_found, offset, rank,
    strided_winner, token_found, token_score, token_winner, winner, Found, Machine, Memory,
    NEGATIVE_INFINITY,
};
use crate::plan::{Action, PlanView};
use crate::top_k::{
    fill_launch, indices_at, mask_launch, own_buffers, own_selection_plan, round_plan, rounds_plan,
    scan_launch, selection_allocation, selection_plan, selection_workspace_check,
    selection_workspace_for, top_k_ready, values_at, Selection, SelectionWorkspace,
};
use crate::tree::{
    hands_over, partials, pass_ok, reduces, schedule, schedule_fits_the_scratch,
    schedule_reduces_to_one, Place, TreePass,
};
use vstd::arithmetic::div_mod::{lemma_div_pos_is_pos, lemma_fundamental_div_mod};
use vstd::arithmetic::mul::lemma_mul_is_commutative;
use vstd::prelude::*;

verus! {

/// Every element is a number above negative infinity.
pub open spec fn selectable(input: Seq<u32>) -> bool {
    forall|at: int|
        0 <= at < input.len() ==> !is_nan(#[trigger] input[at]) && input[at] != NEGATIVE_INFINITY
}

/// Whether element `a` comes before element `b`: it is larger, or equal and
/// at a lower index.
pub open spec fn beats(input: Seq<u32>, a: int, b: int) -> bool {
    rank(input[a]) > rank(input[b]) || rank(input[a]) == rank(input[b]) && a < b
}

/// The values and indices of the first `count` elements in order: each index
/// is of the input, each value is the input at its index, no index occurs
/// twice, and every element that is not chosen before comes after.
pub open spec fn chosen(
    input: Seq<u32>,
    values: Seq<u32>,
    indices: Seq<u32>,
    count: int,
) -> bool {
    &&& forall|j: int|
        0 <= j < count ==> (#[trigger] indices[j]) < input.len() && values[j]
            == input[indices[j] as int]
    &&& forall|i: int, j: int|
        0 <= i < j < count ==> #[trigger] indices[i] != #[trigger] indices[j]
    &&& forall|j: int, at: int|
        #![trigger indices[j], input[at]]
        0 <= j < count && 0 <= at < input.len() && (forall|i: int|
            0 <= i <= j ==> #[trigger] indices[i] != at) ==> beats(input, indices[j] as int, at)
}

/// The buffers of a selection are allocations of their own.
pub open spec fn selection_apart(s: Selection, w: SelectionWorkspace) -> bool {
    let ids = seq![
        s.input.id,
        s.values.id,
        s.indices.id,
        w.data.id,
        w.values_a.id,
        w.values_b.id,
        w.indices_a.id,
        w.indices_b.id,
    ];
    forall|i: int, j: int| 0 <= i < j < ids.len() ==> #[trigger] ids[i] != #[trigger] ids[j]
}

/// Memory has the buffers of a selection.
pub open spec fn selection_held(memory: Memory, s: Selection, w: SelectionWorkspace) -> bool {
    &&& holds(memory, s.input)
    &&& holds(memory, s.values)
    &&& holds(memory, s.indices)
    &&& holds(memory, w.data)
    &&& holds(memory, w.values_a)
    &&& holds(memory, w.values_b)
    &&& holds(memory, w.indices_a)
    &&& holds(memory, w.indices_b)
}

/// No candidate is preferred to the one that is held.
spec fn unbeaten(held: Found, candidate: Found) -> bool {
    rank(held.value) > rank(candidate.value) || rank(held.value) == rank(candidate.value)
        && held.index <= candidate.index
}

/// What a lane may hold: a number, and negative infinity where nothing was
/// found.
spec fn settled(found: Found) -> bool {
    !is_nan(found.value) && (found.index == u32::MAX ==> found.value == NEGATIVE_INFINITY)
}

/// The combination picks the better of any two that lanes may hold.
spec fn picks(combine: spec_fn(Found, Found) -> Found) -> bool {
    forall|held: Found, candidate: Found|
        settled(held) && settled(candidate) ==> #[trigger] combine(held, candidate) == better(
            held,
            candidate,
        )
}

spec fn all_settled(lanes: Seq<Found>) -> bool {
    forall|i: int| 0 <= i < lanes.len() ==> settled(#[trigger] lanes[i])
}

/// A fold of lanes gives one of them that no other is preferred to.
proof fn fold_selects(
    combine: spec_fn(Found, Found) -> Found,
    lanes: Seq<Found>,
    stride: nat,
) -> (at: int)
    requires
        picks(combine),
        all_settled(lanes),
        power_of_two(lanes.len()),
        stride == lanes.len() / 2,
    ensures
        0 <= at < lanes.len(),
        folded(combine, lanes, stride) == lanes[at],
        forall|i: int| 0 <= i < lanes.len() ==> unbeaten(lanes[at], #[trigger] lanes[i]),
    decreases stride,
{
    if stride == 0 {
        assert(lanes.len() == 1);
        0
    } else {
        assert(lanes.len() == 2 * stride);
        let next = Seq::new(stride, |lane: int| combine(lanes[lane], lanes[lane + stride]));
        assert forall|i: int| 0 <= i < next.len() implies settled(#[trigger] next[i]) && next[i]
            == better(lanes[i], lanes[i + stride]) by {
            assert(settled(lanes[i]));
            assert(settled(lanes[i + stride]));
        }
        let inner = fold_selects(combine, next, stride / 2);
        let at = if next[inner] == lanes[inner] {
            inner
        } else {
            inner + stride
        };
        assert(next[inner] == lanes[at]);
        assert(folded(combine, lanes, stride) == folded(combine, next, stride / 2));
        assert forall|i: int| 0 <= i < lanes.len() implies unbeaten(
            lanes[at],
            #[trigger] lanes[i],
        ) by {
            let half = if i < stride {
                i
            } else {
                i - stride
            };
            assert(unbeaten(next[inner], next[half]));
            assert(settled(lanes[half]) && settled(lanes[half + stride]));
            assert(unbeaten(next[half], lanes[half]));
            assert(unbeaten(next[half], lanes[half + stride]));
        }
        at
    }
}

proof fn ranks_are_bounded(bits: u32)
    requires
        !is_nan(bits),
    ensures
        rank(bits) >= rank(NEGATIVE_INFINITY),
        rank(bits) == rank(NEGATIVE_INFINITY) ==> bits == NEGATIVE_INFINITY,
        !is_nan(NEGATIVE_INFINITY),
{
    assert(bits >= 0x8000_0000 && !(bits & 0x7FFF_FFFF > 0x7F80_0000) ==> bits <= 0xFF80_0000)
        by (bit_vector);
    assert(!(0xFF80_0000u32 & 0x7FFF_FFFF > 0x7F80_0000)) by (bit_vector);
}

/// Entries that a scan may read: numbers with indices below the last.
spec fn sound(entries: Seq<Found>) -> bool {
    forall|i: int|
        0 <= i < entries.len() ==> !is_nan((#[trigger] entries[i]).value) && entries[i].index
            < u32::MAX
}

/// The winner of a block is an entry of its span that no other entry of the
/// span is preferred to.
proof fn winner_wins(width: nat, entries: Seq<Found>, block: int) -> (at: int)
    requires
        power_of_two(width),
        sound(entries),
        0 <= block,
        block * (2 * width) < entries.len(),
    ensures
        block * (2 * width) <= at < (block + 1) * (2 * width),
        at < entries.len(),
        winner(width, entries, entries.len() as int, block) == entries[at],
        forall|i: int|
            block * (2 * width) <= i < (block + 1) * (2 * width) && i < entries.len() ==> unbeaten(
                entries[at],
                #[trigger] entries[i],
            ),
{
    let count = entries.len() as int;
    let start = block * (2 * width);
    assert(0 <= start) by (nonlinear_arith)
        requires
            0 <= block,
            start == block * (2 * width),
            width >= 0,
    ;
    assert((block + 1) * (2 * width) == start + 2 * width) by (nonlinear_arith)
        requires
            start == block * (2 * width),
    ;
    let lanes = Seq::new(width, |lane: int| lane_winner(entries, count, start + lane, width));
    assert(!is_nan(NEGATIVE_INFINITY)) by {
        assert(!(0xFF80_0000u32 & 0x7FFF_FFFF > 0x7F80_0000)) by (bit_vector);
    }
    assert forall|i: int| 0 <= i < lanes.len() implies settled(#[trigger] lanes[i]) by {
        if start + i < count {
            assert(!is_nan(entries[start + i].value));
        }
        if start + i + width < count {
            assert(!is_nan(entries[start + i + width].value));
        }
    }
    let combine = |held: Found, candidate: Found| better(held, candidate);
    let lane = fold_selects(combine, lanes, width / 2);
    let best = lanes[lane];
    assert(winner(width, entries, count, block) == best) by {
        assert(lanes =~= Seq::new(
            width,
            |lane: int| lane_winner(entries, count, block * (2 * width) + lane, width),
        ));
    }
    assert forall|i: int| start <= i < start + 2 * width && i < count implies unbeaten(
        best,
        #[trigger] entries[i],
    ) by {
        let half = if i < start + width {
            i - start
        } else {
            i - start - width
        };
        assert(unbeaten(best, lanes[half]));
        assert(!is_nan(entries[i].value));
        ranks_are_bounded(entries[i].value);
        if start + half < count {
            assert(!is_nan(entries[start + half].value));
        }
        assert(unbeaten(lanes[half], entries[i]));
    }
    assert(unbeaten(best, entries[start]));
    assert(entries[start].index < u32::MAX);
    ranks_are_bounded(entries[start].value);
    assert(best != nothing_found());
    if start + lane < count && best == entries[start + lane] {
        start + lane
    } else {
        start + lane + width
    }
}

/// The entry is the first in order of the elements from `low` up to `high`.
spec fn best_in(data: Seq<u32>, low: int, high: int, found: Found) -> bool {
    &&& low <= found.index < high
    &&& found.value == data[found.index as int]
    &&& forall|at: int|
        low <= at < high && at != found.index ==> beats(data, found.index as int, at)
}

/// Where the span of an entry ends.
spec fn span_end(elements: int, span: int, entry: int) -> int {
    if (entry + 1) * span < elements {
        (entry + 1) * span
    } else {
        elements
    }
}

/// Entries that each are the best of a span of `span` elements.
spec fn level(data: Seq<u32>, elements: int, span: int, entries: Seq<Found>) -> bool {
    &&& 0 < span
    &&& 0 < entries.len()
    &&& (entries.len() - 1) * span < elements
    &&& elements <= entries.len() * span
    &&& forall|j: int|
        0 <= j < entries.len() ==> best_in(
            data,
            j * span,
            span_end(elements, span, j),
            #[trigger] entries[j],
        )
}

/// Elements that may be scanned: numbers, counted in 32 bits.
spec fn scannable(data: Seq<u32>, elements: int) -> bool {
    &&& 0 < elements <= data.len()
    &&& elements <= u32::MAX
    &&& forall|at: int| 0 <= at < elements ==> !is_nan(#[trigger] data[at])
}

proof fn level_is_sound(data: Seq<u32>, elements: int, span: int, entries: Seq<Found>)
    requires
        scannable(data, elements),
        level(data, elements, span, entries),
    ensures
        sound(entries),
{
    assert forall|i: int| 0 <= i < entries.len() implies !is_nan((#[trigger] entries[i]).value)
        && entries[i].index < u32::MAX by {
        assert(best_in(data, i * span, span_end(elements, span, i), entries[i]));
        assert(0 <= i * span) by (nonlinear_arith)
            requires
                0 <= i,
                0 < span,
        ;
        assert(!is_nan(data[entries[i].index as int]));
    }
}

/// The winners of a level's blocks are a level of wider spans.
proof fn winners_are_a_level(
    data: Seq<u32>,
    elements: int,
    span: int,
    entries: Seq<Found>,
    width: nat,
    winners: Seq<Found>,
)
    requires
        scannable(data, elements),
        level(data, elements, span, entries),
        power_of_two(width),
        winners.len() == ceil_div(entries.len() as int, 2 * width as int),
        forall|b: int|
            0 <= b < winners.len() ==> #[trigger] winners[b] == winner(
                width,
                entries,
                entries.len() as int,
                b,
            ),
    ensures
        level(data, elements, 2 * width * span, winners),
{
    let count = entries.len() as int;
    let group = 2 * width as int;
    let wide = 2 * width * span;
    level_is_sound(data, elements, span, entries);
    ceil_div_covers(count, group);
    let blocks = winners.len() as int;
    assert(0 < wide) by (nonlinear_arith)
        requires
            0 < width,
            0 < span,
            wide == 2 * width * span,
    ;
    assert((blocks - 1) * wide < elements) by (nonlinear_arith)
        requires
            (blocks - 1) * group < count,
            (count - 1) * span < elements,
            wide == group * span,
            0 < span,
    ;
    assert(elements <= blocks * wide) by (nonlinear_arith)
        requires
            count <= blocks * group,
            elements <= count * span,
            wide == group * span,
            0 < span,
    ;
    assert forall|b: int| 0 <= b < blocks implies best_in(
        data,
        b * wide,
        span_end(elements, wide, b),
        #[trigger] winners[b],
    ) by {
        assert(b * group < count) by (nonlinear_arith)
            requires
                b <= blocks - 1,
                (blocks - 1) * group < count,
                0 < group,
        ;
        let at = winner_wins(width, entries, b);
        let found = entries[at];
        assert(winners[b] == found);
        let end = span_end(elements, wide, b);
        assert(best_in(data, at * span, span_end(elements, span, at), found));
        assert(b * wide <= at * span && (at + 1) * span <= (b + 1) * wide) by (nonlinear_arith)
            requires
                b * group <= at,
                at + 1 <= (b + 1) * group,
                wide == group * span,
                0 < span,
        ;
        assert forall|other: int| b * wide <= other < end && other != found.index implies beats(
            data,
            found.index as int,
            other,
        ) by {
            let j = other / span;
            assert(0 <= b * wide) by (nonlinear_arith)
                requires
                    0 <= b,
                    0 < wide,
            ;
            lemma_fundamental_div_mod(other, span);
            lemma_div_pos_is_pos(other, span);
            lemma_mul_is_commutative(span, j);
            assert((j + 1) * span == j * span + span) by (nonlinear_arith);
            assert(b * group <= j) by (nonlinear_arith)
                requires
                    b * wide <= other,
                    other < (j + 1) * span,
                    wide == group * span,
                    0 < span,
            ;
            assert(j < (b + 1) * group) by (nonlinear_arith)
                requires
                    other < (b + 1) * wide,
                    j * span <= other,
                    wide == group * span,
                    0 < span,
            ;
            assert(j < count) by (nonlinear_arith)
                requires
                    j * span <= other,
                    other < elements,
                    elements <= count * span,
                    0 < span,
            ;
            let held = entries[j];
            assert(best_in(data, j * span, span_end(elements, span, j), held));
            assert(unbeaten(found, held));
            assert(other < span_end(elements, span, j));
            if other != held.index {
                assert(beats(data, held.index as int, other));
            }
        }
    }
}

/// What a pass reads.
spec fn entries_at(
    memory: Memory,
    place: Place,
    s: Selection,
    w: SelectionWorkspace,
    slot: nat,
    count: nat,
) -> Seq<Found> {
    let values = memory[values_at(place, s, w, slot).buffer];
    let indices = memory[indices_at(place, s, w, slot).buffer];
    let start = offset(values_at(place, s, w, slot));
    Seq::new(
        count,
        |at: int|
            Found {
                value: values[start + at],
                index: if place == Place::Input {
                    at as u32
                } else {
                    indices[start + at]
                },
            },
    )
}

/// The span of an entry after so many passes.
spec fn span_after(width: nat, passes: nat) -> int
    decreases passes,
{
    if passes == 0 {
        1
    } else {
        2 * width * span_after(width, (passes - 1) as nat)
    }
}

/// A round touches its scratch and the slot of its winner only.
spec fn round_keeps(
    before: Memory,
    after: Memory,
    s: Selection,
    w: SelectionWorkspace,
    slot: nat,
) -> bool {
    &&& selection_held(after, s, w)
    &&& after[s.input.id] == before[s.input.id]
    &&& after[w.data.id] == before[w.data.id]
    &&& forall|at: int|
        0 <= at < s.k && at != slot ==> #[trigger] after[s.values.id][at]
            == before[s.values.id][at]
    &&& forall|at: int|
        0 <= at < s.k && at != slot ==> #[trigger] after[s.indices.id][at]
            == before[s.indices.id][at]
}

proof fn ids_apart(s: Selection, w: SelectionWorkspace)
    requires
        selection_apart(s, w),
    ensures
        s.input.id != s.values.id,
        s.input.id != s.indices.id,
        s.input.id != w.data.id,
        s.input.id != w.values_a.id,
        s.input.id != w.values_b.id,
        s.input.id != w.indices_a.id,
        s.input.id != w.indices_b.id,
        s.values.id != s.indices.id,
        s.values.id != w.data.id,
        s.values.id != w.values_a.id,
        s.values.id != w.values_b.id,
        s.values.id != w.indices_a.id,
        s.values.id != w.indices_b.id,
        s.indices.id != w.data.id,
        s.indices.id != w.values_a.id,
        s.indices.id != w.values_b.id,
        s.indices.id != w.indices_a.id,
        s.indices.id != w.indices_b.id,
        w.data.id != w.values_a.id,
        w.data.id != w.values_b.id,
        w.data.id != w.indices_a.id,
        w.data.id != w.indices_b.id,
        w.values_a.id != w.values_b.id,
        w.values_a.id != w.indices_a.id,
        w.values_a.id != w.indices_b.id,
        w.values_b.id != w.indices_a.id,
        w.values_b.id != w.indices_b.id,
        w.indices_a.id != w.indices_b.id,
{
    let ids = seq![
        s.input.id,
        s.values.id,
        s.indices.id,
        w.data.id,
        w.values_a.id,
        w.values_b.id,
        w.indices_a.id,
        w.indices_b.id,
    ];
    assert(ids[0] == s.input.id && ids[1] == s.values.id && ids[2] == s.indices.id && ids[3]
        == w.data.id && ids[4] == w.values_a.id && ids[5] == w.values_b.id && ids[6]
        == w.indices_a.id && ids[7] == w.indices_b.id);
}

/// Scratch that holds the partials of every pass.
spec fn roomy(s: Selection, w: SelectionWorkspace, width: u32) -> bool {
    &&& w.values_a.len == partials(w.max_elements as int, width as int)
    &&& w.values_b.len == w.values_a.len
    &&& w.indices_a.len == w.values_a.len
    &&& w.indices_b.len == w.values_a.len
    &&& w.data.len == w.max_elements
    &&& s.input.len <= w.max_elements
    &&& s.values.len == s.k
    &&& s.indices.len == s.k
}

proof fn pass_moves_up(
    machine: Machine,
    width: u32,
    s: Selection,
    w: SelectionWorkspace,
    slot: nat,
    pass: TreePass,
    span: int,
    data: Seq<u32>,
    memory: Memory,
)
    requires
        top_k_ready(width),
        selection_apart(s, w),
        selection_held(memory, s, w),
        roomy(s, w, width),
        slot < s.k <= s.input.len <= u32::MAX,
        pass_ok(pass, width),
        pass.output_elements <= partials(w.max_elements as int, width as int),
        pass.elements <= s.input.len,
        scannable(data, s.input.len as int),
        memory[w.data.id] == data,
        level(
            data,
            s.input.len as int,
            span,
            entries_at(memory, pass.source, s, w, slot, pass.elements as nat),
        ),
    ensures
        ({
            let after = effect(
                machine,
                Action::Launch(scan_launch(width, s, w, slot, pass)),
                memory,
            );
            &&& round_keeps(memory, after, s, w, slot)
            &&& level(
                data,
                s.input.len as int,
                2 * width * span,
                entries_at(after, pass.destination, s, w, slot, pass.output_elements as nat),
            )
        }),
{
    ids_apart(s, w);
    let launch = scan_launch(width, s, w, slot, pass);
    let after = effect(machine, Action::Launch(launch), memory);
    let entries = entries_at(memory, pass.source, s, w, slot, pass.elements as nat);
    let count = pass.output_elements as nat;
    assert(offset(values_at(Place::Output, s, w, slot)) == slot);
    assert(offset(indices_at(Place::Output, s, w, slot)) == slot);
    ceil_div_covers(pass.elements as int, 2 * width as int);
    let winners = Seq::new(
        count,
        |block: int| winner(width as nat, entries, entries.len() as int, block),
    );
    winners_are_a_level(data, s.input.len as int, span, entries, width as nat, winners);
    let source = memory[values_at(pass.source, s, w, slot).buffer];
    if pass.source == Place::Input {
        assert(entries =~= Seq::new(
            pass.elements as nat,
            |at: int| Found { value: source[0 + at], index: at as u32 },
        ));
    } else {
        let found = memory[indices_at(pass.source, s, w, slot).buffer];
        assert(entries =~= Seq::new(
            pass.elements as nat,
            |at: int| Found { value: source[0 + at], index: found[0 + at] },
        ));
    }
    assert(entries_at(after, pass.destination, s, w, slot, count) =~= winners);
}

proof fn round_climbs(
    machine: Machine,
    width: u32,
    s: Selection,
    w: SelectionWorkspace,
    slot: nat,
    passes: Seq<TreePass>,
    n: nat,
    data: Seq<u32>,
    memory: Memory,
)
    requires
        top_k_ready(width),
        selection_apart(s, w),
        selection_held(memory, s, w),
        roomy(s, w, width),
        slot < s.k <= s.input.len <= u32::MAX,
        reduces(passes, s.input.len, width, Place::Input),
        forall|i: int|
            0 <= i < passes.len() ==> (#[trigger] passes[i]).output_elements <= partials(
                w.max_elements as int,
                width as int,
            ),
        n <= passes.len(),
        scannable(data, s.input.len as int),
        memory[w.data.id] == data,
    ensures
        ({
            let after = round_plan(width, s, w, slot, passes.take(n as int)).leaves(
                machine,
                memory,
            );
            &&& round_keeps(memory, after, s, w, slot)
            &&& n < passes.len() ==> passes[n as int].elements <= s.input.len && level(
                data,
                s.input.len as int,
                span_after(width as nat, n),
                entries_at(
                    after,
                    passes[n as int].source,
                    s,
                    w,
                    slot,
                    passes[n as int].elements as nat,
                ),
            )
            &&& n == passes.len() ==> level(
                data,
                s.input.len as int,
                span_after(width as nat, n),
                entries_at(after, Place::Output, s, w, slot, 1),
            )
        }),
    decreases n,
{
    let elements = s.input.len as int;
    if n == 0 {
        let after = round_plan(width, s, w, slot, passes.take(0)).leaves(machine, memory);
        assert(round_plan(width, s, w, slot, passes.take(0)).steps.len() == 0);
        assert(after == memory);
        let entries = entries_at(memory, Place::Input, s, w, slot, s.input.len as nat);
        assert forall|j: int| 0 <= j < entries.len() implies best_in(
            data,
            j * 1,
            span_end(elements, 1, j),
            #[trigger] entries[j],
        ) by {}
        assert(level(data, elements, 1, entries));
    } else {
        let last = (n - 1) as nat;
        round_climbs(machine, width, s, w, slot, passes, last, data, memory);
        let middle = round_plan(width, s, w, slot, passes.take(last as int)).leaves(
            machine,
            memory,
        );
        let pass = passes[last as int];
        assert(pass_ok(pass, width));
        pass_moves_up(
            machine,
            width,
            s,
            w,
            slot,
            pass,
            span_after(width as nat, last),
            data,
            middle,
        );
        let steps = round_plan(width, s, w, slot, passes.take(n as int)).steps;
        assert(steps.drop_last() =~= round_plan(
            width,
            s,
            w,
            slot,
            passes.take(last as int),
        ).steps);
        assert(steps.last().action == Action::Launch(scan_launch(width, s, w, slot, pass)));
        if n < passes.len() {
            assert(hands_over(passes[last as int], passes[n as int]));
        } else {
            assert(pass == passes.last());
        }
    }
}

/// A round puts the first element in order of what is left in its slot.
proof fn round_selects(
    machine: Machine,
    width: u32,
    s: Selection,
    w: SelectionWorkspace,
    slot: nat,
    data: Seq<u32>,
    memory: Memory,
)
    requires
        top_k_ready(width),
        selection_apart(s, w),
        selection_held(memory, s, w),
        roomy(s, w, width),
        slot < s.k <= s.input.len <= u32::MAX,
        scannable(data, s.input.len as int),
        memory[w.data.id] == data,
    ensures
        ({
            let after = round_plan(
                width,
                s,
                w,
                slot,
                schedule(s.input.len, width),
            ).leaves(machine, memory);
            let found = Found {
                value: after[s.values.id][slot as int],
                index: after[s.indices.id][slot as int],
            };
            &&& round_keeps(memory, after, s, w, slot)
            &&& best_in(data, 0, s.input.len as int, found)
        }),
{
    let passes = schedule(s.input.len, width);
    let count = passes.len();
    schedule_reduces_to_one(s.input.len, width);
    schedule_fits_the_scratch(s.input.len, w.max_elements, width);
    round_climbs(machine, width, s, w, slot, passes, count, data, memory);
    assert(passes.take(count as int) =~= passes);
    let after = round_plan(width, s, w, slot, passes).leaves(machine, memory);
    let entries = entries_at(after, Place::Output, s, w, slot, 1);
    assert(offset(values_at(Place::Output, s, w, slot)) == slot);
    let span = span_after(width as nat, count);
    assert(best_in(data, 0 * span, span_end(s.input.len as int, span, 0), entries[0]));
}

/// The elements without those that were chosen.
spec fn masked(input: Seq<u32>, data: Seq<u32>, indices: Seq<u32>, count: int) -> bool {
    forall|at: int|
        0 <= at < input.len() ==> #[trigger] data[at] == (if is_chosen(indices, count, at) {
            NEGATIVE_INFINITY
        } else {
            input[at]
        })
}

spec fn is_chosen(indices: Seq<u32>, count: int, at: int) -> bool {
    exists|j: int| 0 <= j < count && #[trigger] indices[j] == at
}

/// Fewer elements are chosen than there are, so one is left.
proof fn one_is_left(input: Seq<u32>, indices: Seq<u32>, count: nat) -> (at: int)
    requires
        count < input.len(),
        count <= indices.len(),
    ensures
        0 <= at < input.len(),
        !is_chosen(indices, count as int, at),
{
    let taken = indices.take(count as int).map_values(|index: u32| index as int);
    if forall|at: int| 0 <= at < input.len() ==> #[trigger] taken.contains(at) {
        let all = vstd::set_lib::set_int_range(0, input.len() as int);
        vstd::set_lib::lemma_int_range(0, input.len() as int);
        taken.lemma_cardinality_of_set();
        vstd::seq_lib::seq_to_set_is_finite(taken);
        assert(all.subset_of(taken.to_set())) by {
            assert forall|at: int| #[trigger] all.contains(at) implies taken.to_set().contains(
                at,
            ) by {
                assert(taken.contains(at));
            }
        }
        vstd::set_lib::lemma_len_subset(all, taken.to_set());
    }
    let at = choose|at: int| 0 <= at < input.len() && !#[trigger] taken.contains(at);
    assert forall|j: int| 0 <= j < count implies #[trigger] indices[j] != at by {
        assert(taken[j] == indices[j]);
    }
    at
}

/// What the first rounds leave.
spec fn selected_so_far(
    before: Memory,
    after: Memory,
    s: Selection,
    w: SelectionWorkspace,
    rounds: nat,
) -> bool {
    &&& selection_held(after, s, w)
    &&& after[s.input.id] == before[s.input.id]
    &&& chosen(before[s.input.id], after[s.values.id], after[s.indices.id], rounds as int)
    &&& rounds < s.k ==> masked(
        before[s.input.id],
        after[w.data.id],
        after[s.indices.id],
        rounds as int,
    )
}

proof fn chosen_grows(
    input: Seq<u32>,
    data: Seq<u32>,
    values: Seq<u32>,
    indices: Seq<u32>,
    slot: nat,
    new_values: Seq<u32>,
    new_indices: Seq<u32>,
    found: Found,
)
    requires
        selectable(input),
        slot < input.len() <= data.len(),
        slot < indices.len(),
        chosen(input, values, indices, slot as int),
        masked(input, data, indices, slot as int),
        forall|j: int| 0 <= j < slot ==> #[trigger] new_indices[j] == indices[j],
        forall|j: int| 0 <= j < slot ==> #[trigger] new_values[j] == values[j],
        new_values[slot as int] == found.value,
        new_indices[slot as int] == found.index,
        best_in(data, 0, input.len() as int, found),
    ensures
        chosen(input, new_values, new_indices, slot as int + 1),
{
    let left = one_is_left(input, indices, slot);
    let best = found.index as int;
    assert(!is_nan(input[left]) && input[left] != NEGATIVE_INFINITY);
    ranks_are_bounded(input[left]);
    assert(data[left] == input[left]);
    assert(best == left || beats(data, best, left));
    assert(data[best] == (if is_chosen(indices, slot as int, best) {
        NEGATIVE_INFINITY
    } else {
        input[best]
    }));
    assert(!is_chosen(indices, slot as int, best));
    assert forall|j: int| 0 <= j < slot + 1 implies (#[trigger] new_indices[j]) < input.len()
        && new_values[j] == input[new_indices[j] as int] by {
        if j < slot {
            assert(new_indices[j] == indices[j]);
            assert(new_values[j] == values[j]);
        }
    }
    assert forall|i: int, j: int| 0 <= i < j < slot + 1 implies #[trigger] new_indices[i]
        != #[trigger] new_indices[j] by {
        assert(new_indices[i] == indices[i]);
        if j < slot {
            assert(new_indices[j] == indices[j]);
        }
    }
    assert forall|j: int, at: int|
        #![trigger new_indices[j], input[at]]
        0 <= j < slot + 1 && 0 <= at < input.len() && (forall|i: int|
            0 <= i <= j ==> #[trigger] new_indices[i] != at) implies beats(
        input,
        new_indices[j] as int,
        at,
    ) by {
        if j < slot {
            assert forall|i: int| 0 <= i <= j implies #[trigger] indices[i] != at by {
                assert(new_indices[i] == indices[i]);
            }
            assert(new_indices[j] == indices[j]);
            assert(beats(input, indices[j] as int, at));
        } else {
            assert forall|i: int| 0 <= i < slot implies #[trigger] indices[i] != at by {
                assert(new_indices[i] == indices[i]);
            }
            assert(!is_chosen(indices, slot as int, at));
            assert(data[at] == input[at]);
            assert(at != best);
            assert(beats(data, best, at));
        }
    }
}

/// Masking the element of the last slot masks all chosen elements.
proof fn mask_extends(
    input: Seq<u32>,
    data: Seq<u32>,
    masked: Seq<u32>,
    indices: Seq<u32>,
    new_indices: Seq<u32>,
    slot: nat,
)
    requires
        forall|i: int| 0 <= i < slot ==> #[trigger] new_indices[i] == indices[i],
        forall|at: int|
            0 <= at < input.len() ==> #[trigger] data[at] == (if is_chosen(
                indices,
                slot as int,
                at,
            ) {
                NEGATIVE_INFINITY
            } else {
                input[at]
            }),
        forall|at: int|
            0 <= at < input.len() ==> #[trigger] masked[at] == (if at == new_indices[slot as int] {
                NEGATIVE_INFINITY
            } else {
                data[at]
            }),
    ensures
        forall|at: int|
            0 <= at < input.len() ==> #[trigger] masked[at] == (if is_chosen(
                new_indices,
                slot as int + 1,
                at,
            ) {
                NEGATIVE_INFINITY
            } else {
                input[at]
            }),
{
    assert forall|at: int| 0 <= at < input.len() implies #[trigger] masked[at] == (if is_chosen(
        new_indices,
        slot as int + 1,
        at,
    ) {
        NEGATIVE_INFINITY
    } else {
        input[at]
    }) by {
        assert(data[at] == (if is_chosen(indices, slot as int, at) {
            NEGATIVE_INFINITY
        } else {
            input[at]
        }));
        if at != new_indices[slot as int] {
            if is_chosen(new_indices, slot as int + 1, at) {
                let j = choose|j: int| 0 <= j < slot + 1 && #[trigger] new_indices[j] == at;
                assert(indices[j] == at);
            }
            if is_chosen(indices, slot as int, at) {
                let j = choose|j: int| 0 <= j < slot && #[trigger] indices[j] == at;
                assert(new_indices[j] == at);
            }
        }
    }
}

proof fn rounds_select(
    machine: Machine,
    width: u32,
    s: Selection,
    w: SelectionWorkspace,
    rounds: nat,
    memory: Memory,
)
    requires
        top_k_ready(width),
        selection_apart(s, w),
        selection_held(memory, s, w),
        roomy(s, w, width),
        rounds <= s.k <= s.input.len <= u32::MAX,
        0 < s.k,
        selectable(memory[s.input.id]),
        forall|at: int|
            0 <= at < s.input.len ==> #[trigger] memory[w.data.id][at] == memory[s.input.id][at],
    ensures
        selected_so_far(
            memory,
            rounds_plan(
                width,
                s,
                w,
                schedule(s.input.len, width),
                rounds,
            ).leaves(machine, memory),
            s,
            w,
            rounds,
        ),
    decreases rounds,
{
    broadcast use crate::machine::group_execution;

    let passes = schedule(s.input.len, width);
    let input = memory[s.input.id];
    if rounds > 0 {
        let slot = (rounds - 1) as nat;
        rounds_select(machine, width, s, w, slot, memory);
        let filled = rounds_plan(width, s, w, passes, slot).leaves(machine, memory);
        let data = filled[w.data.id];
        rounds_succeed(width, s, w, passes, slot);
        assert forall|at: int| 0 <= at < s.input.len implies !is_nan(#[trigger] data[at]) by {
            assert(!is_nan(input[at]));
            ranks_are_bounded(input[at]);
        }
        round_selects(machine, width, s, w, slot, data, filled);
        let round = round_plan(width, s, w, slot, passes).leaves(machine, filled);
        let found = Found {
            value: round[s.values.id][slot as int],
            index: round[s.indices.id][slot as int],
        };
        chosen_grows(
            input,
            data,
            filled[s.values.id],
            filled[s.indices.id],
            slot,
            round[s.values.id],
            round[s.indices.id],
            found,
        );
        if rounds < s.k {
            ids_apart(s, w);
            let mask = PlanView::one(Action::Launch(mask_launch(s, w, slot)));
            let after = mask.leaves(machine, round);
            assert(after == rounds_plan(width, s, w, passes, rounds).leaves(machine, memory));
            assert(after[s.indices.id] == round[s.indices.id]);
            mask_extends(
                input,
                data,
                after[w.data.id],
                filled[s.indices.id],
                round[s.indices.id],
                slot,
            );
        }
    }
}

proof fn rounds_succeed(
    width: u32,
    s: Selection,
    w: SelectionWorkspace,
    passes: Seq<TreePass>,
    rounds: nat,
)
    ensures
        rounds_plan(width, s, w, passes, rounds).outcome is Ok,
    decreases rounds,
{
    if rounds > 0 {
        rounds_succeed(width, s, w, passes, (rounds - 1) as nat);
    }
}

/// An accepted selection leaves the `k` largest elements in descending order,
/// the lower index first among equals, each with the index it was found at,
/// and its input as it was.
pub proof fn selection_is_the_largest(
    machine: Machine,
    family: Family,
    stream: Stream,
    s: Selection,
    w: SelectionWorkspace,
    memory: Memory,
)
    requires
        top_k_ready(family.width),
        w.sized(),
        selection_plan(family, stream, s, w).outcome is Ok,
        selection_apart(s, w),
        selection_held(memory, s, w),
        selectable(memory[s.input.id]),
    ensures
        ({
            let after = selection_plan(family, stream, s, w).synchronized().leaves(
                machine,
                memory,
            );
            &&& after[s.values.id].len() == s.k
            &&& after[s.indices.id].len() == s.k
            &&& chosen(
                memory[s.input.id],
                after[s.values.id],
                after[s.indices.id],
                s.k as int,
            )
            &&& after[s.input.id] == memory[s.input.id]
        }),
{
    broadcast use crate::machine::group_execution;

    ids_apart(s, w);
    let width = family.width;
    let fill = PlanView::one(Action::Launch(fill_launch(width, s, w)));
    let filled = fill.leaves(machine, memory);
    ceil_div_covers(s.input.len as int, width as int);
    assert forall|at: int| 0 <= at < s.input.len implies #[trigger] filled[w.data.id][at]
        == filled[s.input.id][at] by {}
    assert(selection_held(filled, s, w));
    rounds_select(machine, width, s, w, s.k as nat, filled);
}

/// A selection that makes its own scratch leaves the same.
pub proof fn own_selection_is_the_largest(
    machine: Machine,
    family: Family,
    stream: Stream,
    s: Selection,
    memory: Memory,
)
    requires
        top_k_ready(family.width),
        own_selection_plan(family, stream, s).outcome is Ok,
        s.input.id is Operand,
        s.values.id is Operand,
        s.indices.id is Operand,
        s.input.id != s.values.id,
        s.input.id != s.indices.id,
        s.values.id != s.indices.id,
        holds(memory, s.input),
        holds(memory, s.values),
        holds(memory, s.indices),
        selectable(memory[s.input.id]),
    ensures
        ({
            let after = own_selection_plan(family, stream, s).leaves(machine, memory);
            &&& after[s.values.id].len() == s.k
            &&& after[s.indices.id].len() == s.k
            &&& chosen(
                memory[s.input.id],
                after[s.values.id],
                after[s.indices.id],
                s.k as int,
            )
            &&& after[s.input.id] == memory[s.input.id]
        }),
{
    broadcast use crate::machine::group_execution;

    let own = selection_workspace_for(family, s.input.context, s.input.len, own_buffers());
    ceil_div_covers(s.input.len as int, 2 * family.width as int);
    let prepared = PlanView::checked(
        selection_workspace_check(family, s.input.context),
    ).followed_by(selection_allocation(own));
    let start = prepared.leaves(machine, memory);
    assert(start[s.input.id] == memory[s.input.id]);
    assert(selection_held(start, s, own));
    selection_is_the_largest(machine, family, stream, s, own, start);
}

/// The values that a selection leaves descend, and no element that it leaves
/// out is larger than the last of them.
pub proof fn chosen_values_descend(
    input: Seq<u32>,
    values: Seq<u32>,
    indices: Seq<u32>,
    count: int,
    i: int,
    j: int,
    at: int,
)
    requires
        chosen(input, values, indices, count),
        0 <= i < j < count,
        0 <= at < input.len(),
        forall|n: int| 0 <= n < count ==> #[trigger] indices[n] != at,
    ensures
        rank(values[i]) >= rank(values[j]),
        rank(values[i]) == rank(values[j]) ==> indices[i] < indices[j],
        rank(values[j]) >= rank(input[at]),
        rank(values[j]) == rank(input[at]) ==> indices[j] < at,
{
    let other = indices[j] as int;
    assert(values[j] == input[other]);
    assert forall|n: int| 0 <= n <= i implies #[trigger] indices[n] != other by {
        assert(indices[n] != indices[j]);
    }
    assert(beats(input, indices[i] as int, other));
    assert(beats(input, indices[j] as int, at));
}

/// The scores of all tokens.
pub open spec fn token_scores(
    machine: Machine,
    input: Seq<u32>,
    weight: Seq<u32>,
    k: int,
    vocab: int,
) -> Seq<u32> {
    Seq::new(
        vocab as nat,
        |token: int| token_score(machine, input, weight, k, vocab, token),
    )
}

spec fn better_token_fn() -> spec_fn(Found, Found) -> Found {
    |held: Found, candidate: Found| better_token(held, candidate)
}

proof fn better_token_picks()
    ensures
        picks(better_token_fn()),
{
    let combine = better_token_fn();
    assert forall|held: Found, candidate: Found|
        settled(held) && settled(candidate) implies #[trigger] combine(held, candidate) == better(
        held,
        candidate,
    ) by {
        ranks_are_bounded(held.value);
    }
}

/// The candidate of a block is the first in order of the block's tokens.
proof fn candidate_wins(
    width: nat,
    scores: Seq<u32>,
    block: int,
    lanes: Seq<Found>,
)
    requires
        power_of_two(width),
        scannable(scores, scores.len() as int),
        0 <= block,
        block * width < scores.len(),
        lanes.len() == width,
        forall|lane: int|
            0 <= lane < width ==> #[trigger] lanes[lane] == (if block * width + lane
                < scores.len() {
                Found {
                    value: scores[block * width + lane],
                    index: (block * width + lane) as u32,
                }
            } else {
                nothing_found()
            }),
    ensures
        best_in(
            scores,
            block * width,
            span_end(scores.len() as int, width as int, block),
            token_winner(lanes),
        ),
{
    better_token_picks();
    let start = block * width;
    assert(0 <= start) by (nonlinear_arith)
        requires
            0 <= block,
            width >= 0,
            start == block * width,
    ;
    assert((block + 1) * width == start + width) by (nonlinear_arith)
        requires
            start == block * width,
    ;
    assert(!is_nan(NEGATIVE_INFINITY)) by {
        assert(!(0xFF80_0000u32 & 0x7FFF_FFFF > 0x7F80_0000)) by (bit_vector);
    }
    assert forall|i: int| 0 <= i < lanes.len() implies settled(#[trigger] lanes[i]) by {}
    let lane = fold_selects(better_token_fn(), lanes, width / 2);
    let best = lanes[lane];
    assert(unbeaten(best, lanes[0]));
    ranks_are_bounded(scores[start]);
    assert(start + lane < scores.len());
    let end = span_end(scores.len() as int, width as int, block);
    assert forall|at: int| start <= at < end && at != best.index implies beats(
        scores,
        best.index as int,
        at,
    ) by {
        assert(unbeaten(best, lanes[at - start]));
    }
}

/// The winner of a lane is an entry of the lane that no other is preferred to,
/// or nothing where the lane has none.
proof fn lane_selects(
    entries: Seq<Found>,
    width: nat,
    lane: nat,
    count: nat,
)
    requires
        sound(entries),
        lane < width,
    ensures
        ({
            let held = strided_winner(entries, width, lane, count);
            &&& settled(held)
            &&& held == nothing_found() || exists|at: int|
                0 <= at < entries.len() && held == #[trigger] entries[at]
            &&& forall|i: int|
                0 <= i < count && lane + i * width < entries.len() ==> unbeaten(
                    held,
                    #[trigger] entries[lane + i * width],
                )
        }),
    decreases count,
{
    assert(!is_nan(NEGATIVE_INFINITY)) by {
        assert(!(0xFF80_0000u32 & 0x7FFF_FFFF > 0x7F80_0000)) by (bit_vector);
    }
    if count > 0 {
        let before = strided_winner(entries, width, lane, (count - 1) as nat);
        lane_selects(entries, width, lane, (count - 1) as nat);
        better_token_picks();
        let last = lane + (count - 1) * width;
        assert(0 <= last) by (nonlinear_arith)
            requires
                last == lane + (count - 1) * width,
                count >= 1,
                width >= 0,
                lane >= 0,
        ;
        let combine = better_token_fn();
        if last < entries.len() {
            let entry = entries[last];
            assert(!is_nan(entry.value) && entry.index < u32::MAX);
            assert(settled(entry));
            assert(combine(before, entry) == better(before, entry));
        }
        let held = strided_winner(entries, width, lane, count);
        assert forall|i: int| 0 <= i < count && lane + i * width < entries.len() implies unbeaten(
            held,
            #[trigger] entries[lane + i * width],
        ) by {
            if i < count - 1 {
                assert(unbeaten(before, entries[lane + i * width]));
            }
        }
    }
}

/// The reduction of the candidates finds the first in order of all.
proof fn reduction_wins(
    width: nat,
    scores: Seq<u32>,
    entries: Seq<Found>,
    lanes: Seq<Found>,
)
    requires
        power_of_two(width),
        scannable(scores, scores.len() as int),
        level(scores, scores.len() as int, width as int, entries),
        lanes.len() == width,
        forall|lane: int|
            0 <= lane < width ==> #[trigger] lanes[lane] == strided_winner(
                entries,
                width,
                lane as nat,
                entries.len(),
            ),
    ensures
        best_in(scores, 0, scores.len() as int, token_winner(lanes)),
{
    let count = entries.len() as int;
    let span = width as int;
    let elements = scores.len() as int;
    level_is_sound(scores, elements, span, entries);
    better_token_picks();
    assert forall|i: int| 0 <= i < lanes.len() implies settled(#[trigger] lanes[i]) by {
        lane_selects(entries, width, i as nat, entries.len());
    }
    let lane = fold_selects(better_token_fn(), lanes, width / 2);
    let best = lanes[lane];
    assert forall|j: int| 0 <= j < count implies unbeaten(best, #[trigger] entries[j]) by {
        lemma_fundamental_div_mod(j, span);
        lemma_div_pos_is_pos(j, span);
        lemma_mul_is_commutative(span, j / span);
        let own = j % span;
        let i = j / span;
        assert(i <= j) by (nonlinear_arith)
            requires
                j == i * span + own,
                0 <= own,
                0 < span,
                0 <= i,
        ;
        lane_selects(entries, width, own as nat, entries.len());
        assert(own + i * width == j);
        assert(unbeaten(lanes[own], entries[own + i * width]));
        assert(unbeaten(best, lanes[own]));
    }
    lane_selects(entries, width, lane as nat, entries.len());
    assert(unbeaten(best, entries[0]));
    ranks_are_bounded(entries[0].value);
    assert(best != nothing_found());
    let winner = choose|at: int| 0 <= at < entries.len() && best == #[trigger] entries[at];
    assert(best_in(scores, winner * span, span_end(elements, span, winner), best));
    assert(0 <= winner * span) by (nonlinear_arith)
        requires
            0 <= winner,
            0 < span,
    ;
    assert forall|at: int| 0 <= at < elements && at != best.index implies beats(
        scores,
        best.index as int,
        at,
    ) by {
        let j = at / span;
        lemma_fundamental_div_mod(at, span);
        lemma_div_pos_is_pos(at, span);
        lemma_mul_is_commutative(span, j);
        assert((j + 1) * span == j * span + span) by (nonlinear_arith);
        assert(j < count) by (nonlinear_arith)
            requires
                j * span <= at,
                at < elements,
                elements <= count * span,
                0 < span,
        ;
        let held = entries[j];
        assert(best_in(scores, j * span, span_end(elements, span, j), held));
        assert(unbeaten(best, held));
        if at != held.index {
            assert(beats(scores, held.index as int, at));
        }
    }
}

/// The buffers of an argmax projection are allocations of their own.
pub open spec fn argmax_apart(p: ArgmaxProjection, w: CandidateWorkspace) -> bool {
    &&& w.values.id != w.indices.id
    &&& w.values.id != p.input.id
    &&& w.values.id != p.weight.id
    &&& w.indices.id != p.input.id
    &&& w.indices.id != p.weight.id
    &&& p.output_value.id != p.output_index.id
    &&& p.output_value.id != w.values.id
    &&& p.output_value.id != w.indices.id
    &&& p.output_index.id != w.values.id
    &&& p.output_index.id != w.indices.id
}

/// An accepted argmax projection leaves the token with the largest score, the
/// lower token among equals, and its score.
pub proof fn argmax_is_the_largest(
    machine: Machine,
    family: Family,
    stream: Stream,
    p: ArgmaxProjection,
    w: CandidateWorkspace,
    memory: Memory,
)
    requires
        power_of_two(family.width as nat),
        w.sized(),
        argmax_plan(family, stream, p, w).outcome is Ok,
        argmax_apart(p, w),
        holds(memory, w.values),
        holds(memory, w.indices),
        holds(memory, p.output_value),
        holds(memory, p.output_index),
        forall|token: int|
            0 <= token < p.vocab ==> !is_nan(
                #[trigger] token_scores(
                    machine,
                    memory[p.input.id],
                    memory[p.weight.id],
                    p.k as int,
                    p.vocab as int,
                )[token],
            ),
    ensures
        ({
            let scores = token_scores(
                machine,
                memory[p.input.id],
                memory[p.weight.id],
                p.k as int,
                p.vocab as int,
            );
            let after = argmax_plan(family, stream, p, w).synchronized().leaves(machine, memory);
            let index = after[p.output_index.id][0] as int;
            &&& 0 <= index < p.vocab
            &&& after[p.output_value.id][0] == scores[index]
            &&& forall|token: int|
                0 <= token < p.vocab && token != index ==> #[trigger] beats(scores, index, token)
        }),
{
    broadcast use crate::machine::group_execution;

    let width = family.width as nat;
    let (k, vocab) = (p.k as int, p.vocab as int);
    let scores = token_scores(machine, memory[p.input.id], memory[p.weight.id], k, vocab);
    let bytes = (family.width * 8) as u32;
    let first = PlanView::launch(
        Kernel::LmHeadCandidates,
        line(w.values.len as u32, family.width, bytes),
        Arguments::Candidates {
            input: p.input.id,
            weight: p.weight.id,
            values: w.values.id,
            indices: w.indices.id,
            k: p.k as u64,
            vocab: p.vocab as u64,
        },
    );
    let second = PlanView::launch(
        Kernel::LmHeadReduce,
        line(1, family.width, bytes),
        Arguments::ReduceCandidates {
            values: w.values.id,
            indices: w.indices.id,
            output_value: p.output_value.id,
            output_index: p.output_index.id,
            count: w.values.len as u64,
        },
    );
    let middle = first.leaves(machine, memory);
    let after = second.leaves(machine, middle);
    assert(argmax_plan(family, stream, p, w).leaves(machine, memory) == after);
    ceil_div_covers(vocab, width as int);
    let count = w.values.len as nat;
    let entries = Seq::new(
        count,
        |at: int| Found { value: middle[w.values.id][at], index: middle[w.indices.id][at] },
    );
    assert forall|block: int| 0 <= block < count implies best_in(
        scores,
        block * width,
        span_end(vocab, width as int, block),
        #[trigger] entries[block],
    ) by {
        assert(block * width < vocab) by (nonlinear_arith)
            requires
                block <= count - 1,
                (count - 1) * width < vocab,
                width >= 0,
        ;
        let lanes = Seq::new(
            width,
            |lane: int|
                token_found(
                    machine,
                    memory[p.input.id],
                    memory[p.weight.id],
                    k,
                    vocab,
                    block * width + lane,
                ),
        );
        assert(0 <= block * width) by (nonlinear_arith)
            requires
                0 <= block,
                width >= 0,
        ;
        candidate_wins(width, scores, block, lanes);
        assert(entries[block] == token_winner(lanes));
    }
    assert(level(scores, vocab, width as int, entries));
    let lanes = Seq::new(
        width,
        |lane: int| strided_winner(entries, width, lane as nat, entries.len()),
    );
    reduction_wins(width, scores, entries, lanes);
}

} // verus!
