//! Fused attention whose results agree.

use crate::arith::ceil_div;
use crate::device::{BufferId, Probe, Stream, F32};
use crate::family::Family;
use crate::heads::{fused_multihead_plan, fused_plan, AttentionMask, HeadKind, Heads};
use crate::machine::{
    accumulated, attended, attention_row, chunk_column, chunk_scores, element_inside,
    element_place, holds, narrow, narrowed, row_of, row_of_part, row_operands, widened, HeadDims,
    Machine, Memory, RowOperands, NEGATIVE_INFINITY,
};
use vstd::arithmetic::div_mod::lemma_fundamental_div_mod_converse;
use vstd::prelude::*;

verus! {

/// The output of an attention is an allocation of its own.
pub open spec fn heads_apart(h: Heads) -> bool {
    &&& h.output.id != h.queries.id
    &&& h.output.id != h.keys.id
    &&& h.output.id != h.values.id
}

/// Memory has the operands of an attention.
pub open spec fn heads_held(memory: Memory, h: Heads) -> bool {
    &&& holds(memory, h.queries)
    &&& holds(memory, h.keys)
    &&& holds(memory, h.values)
    &&& holds(memory, h.output)
}

/// The dimensions of one head.
pub open spec fn dims_of(h: Heads) -> HeadDims {
    HeadDims {
        query_rows: h.query_rows as int,
        head_dim: h.head_dim as int,
        kv_rows: h.kv_rows as int,
        value_dim: h.value_dim as int,
    }
}

/// Both attentions have one shape.
pub open spec fn same_shape(a: Heads, b: Heads) -> bool {
    &&& a.query_rows == b.query_rows
    &&& a.head_dim == b.head_dim
    &&& a.kv_rows == b.kv_rows
    &&& a.value_dim == b.value_dim
}

/// The element that fused attention gives one query row of one head.
pub open spec fn attended_element(
    machine: Machine,
    kind: HeadKind,
    width: u32,
    h: Heads,
    scale: F32,
    mask: AttentionMask,
    memory: Memory,
    head: int,
    row: int,
    column: int,
) -> u32 {
    let o = row_operands(
        kind == HeadKind::Bf16,
        memory[h.queries.id],
        memory[h.keys.id],
        memory[h.values.id],
        dims_of(h),
        scale,
        mask == AttentionMask::Causal,
        head,
        row,
    );
    let value = attention_row(machine, o, width as nat, h.value_dim as nat)[column];
    if kind == HeadKind::Bf16 {
        narrow(value)
    } else {
        value
    }
}

/// Fused attention leaves one attended row for each query and touches nothing
/// else.
pub proof fn fused_leaves(
    machine: Machine,
    kind: HeadKind,
    family: Family,
    stream: Stream,
    h: Heads,
    scale: F32,
    mask: AttentionMask,
    probe: Probe,
    memory: Memory,
)
    requires
        fused_plan(kind, family, stream, h, scale, mask, probe).outcome is Ok,
        heads_apart(h),
        heads_held(memory, h),
        h.kv_rows <= u32::MAX,
    ensures
        ({
            let after = fused_plan(kind, family, stream, h, scale, mask, probe).leaves(
                machine,
                memory,
            );
            &&& after[h.output.id].len() == h.query_rows * h.value_dim
            &&& forall|row: int, column: int|
                #![trigger after[h.output.id][row * h.value_dim + column]]
                0 <= row < h.query_rows && 0 <= column < h.value_dim ==> after[h.output.id][row
                    * h.value_dim + column] == attended_element(
                    machine,
                    kind,
                    family.width,
                    h,
                    scale,
                    mask,
                    memory,
                    0,
                    row,
                    column,
                )
            &&& forall|other: BufferId|
                other != h.output.id ==> #[trigger] after[other] == memory[other]
        }),
{
    broadcast use crate::machine::group_execution;

    let (rows, cols) = (h.query_rows as int, h.value_dim as int);
    let after = fused_plan(kind, family, stream, h, scale, mask, probe).leaves(machine, memory);
    assert forall|row: int, column: int|
        #![trigger after[h.output.id][row * h.value_dim + column]]
        0 <= row < rows && 0 <= column < cols implies after[h.output.id][row * h.value_dim + column]
        == attended_element(
        machine,
        kind,
        family.width,
        h,
        scale,
        mask,
        memory,
        0,
        row,
        column,
    ) by {
        element_inside(row, rows, column, cols);
        lemma_fundamental_div_mod_converse(row, rows, 0, row);
    }
}

/// Fused attention over packed heads leaves one attended row for each query of
/// each head and touches nothing else.
pub proof fn fused_heads_leave(
    machine: Machine,
    kind: HeadKind,
    family: Family,
    stream: Stream,
    h: Heads,
    heads: usize,
    scale: F32,
    mask: AttentionMask,
    probe: Probe,
    memory: Memory,
)
    requires
        fused_multihead_plan(kind, family, stream, h, heads, scale, mask, probe).outcome is Ok,
        heads_apart(h),
        heads_held(memory, h),
        h.kv_rows <= u32::MAX,
    ensures
        ({
            let after = fused_multihead_plan(
                kind,
                family,
                stream,
                h,
                heads,
                scale,
                mask,
                probe,
            ).leaves(machine, memory);
            &&& after[h.output.id].len() == heads * (h.query_rows * h.value_dim)
            &&& forall|head: int, row: int, column: int|
                #![trigger after[h.output.id][head * (h.query_rows * h.value_dim) + (row
                    * h.value_dim + column)]]
                0 <= head < heads && 0 <= row < h.query_rows && 0 <= column < h.value_dim
                    ==> after[h.output.id][head * (h.query_rows * h.value_dim) + (row * h.value_dim
                    + column)] == attended_element(
                    machine,
                    kind,
                    family.width,
                    h,
                    scale,
                    mask,
                    memory,
                    head,
                    row,
                    column,
                )
            &&& forall|other: BufferId|
                other != h.output.id ==> #[trigger] after[other] == memory[other]
        }),
{
    broadcast use crate::machine::group_execution;

    let (rows, cols) = (h.query_rows as int, h.value_dim as int);
    let count = heads as int;
    let after = fused_multihead_plan(kind, family, stream, h, heads, scale, mask, probe).leaves(
        machine,
        memory,
    );
    assert(count * rows * cols == count * (rows * cols)) by (nonlinear_arith);
    assert forall|head: int, row: int, column: int|
        #![trigger after[h.output.id][head * (h.query_rows * h.value_dim) + (row * h.value_dim
            + column)]]
        0 <= head < count && 0 <= row < rows && 0 <= column < cols implies after[h.output.id][head
        * (h.query_rows * h.value_dim) + (row * h.value_dim + column)] == attended_element(
        machine,
        kind,
        family.width,
        h,
        scale,
        mask,
        memory,
        head,
        row,
        column,
    ) by {
        element_inside(head, count, row, rows);
        let block = head * rows + row;
        assert(count * rows * cols == (count * rows) * cols);
        element_inside(block, count * rows, column, cols);
        assert(head * (rows * cols) + (row * cols + column) == block * cols + column)
            by (nonlinear_arith)
            requires
                block == head * rows + row,
        ;
    }
}

/// The part of each operand that belongs to one head.
pub open spec fn head_parts(memory: Memory, h: Heads, own: Memory, one: Heads, head: int) -> bool {
    &&& own[one.queries.id] == row_of(memory[h.queries.id], head, h.query_rows * h.head_dim)
    &&& own[one.keys.id] == row_of(memory[h.keys.id], head, h.kv_rows * h.head_dim)
    &&& own[one.values.id] == row_of(memory[h.values.id], head, h.kv_rows * h.value_dim)
}

proof fn widened_part(matrix: Seq<u32>, head: int, count: int, heads: int)
    requires
        0 <= head < heads,
        0 <= count,
        matrix.len() == heads * count,
    ensures
        widened(row_of(matrix, head, count)) == row_of(widened(matrix), head, count),
{
    assert forall|j: int| 0 <= j < count implies widened(row_of(matrix, head, count))[j] == row_of(
        widened(matrix),
        head,
        count,
    )[j] by {
        element_inside(head, heads, j, count);
    }
    assert(widened(row_of(matrix, head, count)) =~= row_of(widened(matrix), head, count));
}

proof fn parts_have_the_operands(
    packed: bool,
    q: Seq<u32>,
    k: Seq<u32>,
    v: Seq<u32>,
    d: HeadDims,
    scale: F32,
    causal: bool,
    heads: int,
    head: int,
    row: int,
)
    requires
        0 <= d.query_rows,
        0 <= d.head_dim,
        0 <= d.kv_rows,
        0 <= d.value_dim,
        0 <= head < heads,
        0 <= row < d.query_rows,
        q.len() == heads * (d.query_rows * d.head_dim),
        k.len() == heads * (d.kv_rows * d.head_dim),
        v.len() == heads * (d.kv_rows * d.value_dim),
    ensures
        row_operands(
            packed,
            row_of(q, head, d.query_rows * d.head_dim),
            row_of(k, head, d.kv_rows * d.head_dim),
            row_of(v, head, d.kv_rows * d.value_dim),
            d,
            scale,
            causal,
            0,
            row,
        ) == row_operands(packed, q, k, v, d, scale, causal, head, row),
{
    assert(0 <= d.query_rows * d.head_dim && 0 <= d.kv_rows * d.head_dim && 0 <= d.kv_rows
        * d.value_dim) by (nonlinear_arith)
        requires
            0 <= d.query_rows,
            0 <= d.head_dim,
            0 <= d.kv_rows,
            0 <= d.value_dim,
    ;
    widened_part(q, head, d.query_rows * d.head_dim, heads);
    widened_part(k, head, d.kv_rows * d.head_dim, heads);
    widened_part(v, head, d.kv_rows * d.value_dim, heads);
    let (wq, wk, wv) = if packed {
        (widened(q), widened(k), widened(v))
    } else {
        (q, k, v)
    };
    row_of_part(wq, head, d.query_rows, d.head_dim, row);
    let one = row_operands(
        packed,
        row_of(q, head, d.query_rows * d.head_dim),
        row_of(k, head, d.kv_rows * d.head_dim),
        row_of(v, head, d.kv_rows * d.value_dim),
        d,
        scale,
        causal,
        0,
        row,
    );
    let many = row_operands(packed, q, k, v, d, scale, causal, head, row);
    assert forall|key: int| 0 <= key < d.kv_rows implies one.keys[key] == many.keys[key]
        && one.values[key] == many.values[key] by {
        row_of_part(wk, head, d.kv_rows, d.head_dim, key);
        row_of_part(wv, head, d.kv_rows, d.value_dim, key);
    }
    assert(one.keys =~= many.keys);
    assert(one.values =~= many.values);
}

/// Each head of a packed fused attention is, bit for bit, the fused attention
/// of the head's own parts of the operands.
pub proof fn packed_heads_are_single_heads(
    machine: Machine,
    kind: HeadKind,
    family: Family,
    stream: Stream,
    h: Heads,
    heads: usize,
    scale: F32,
    mask: AttentionMask,
    probe: Probe,
    head: int,
    one: Heads,
    memory: Memory,
    own: Memory,
)
    requires
        fused_multihead_plan(kind, family, stream, h, heads, scale, mask, probe).outcome is Ok,
        fused_plan(kind, family, stream, one, scale, mask, probe).outcome is Ok,
        heads_apart(h),
        heads_apart(one),
        heads_held(memory, h),
        heads_held(own, one),
        same_shape(h, one),
        h.kv_rows <= u32::MAX,
        0 <= head < heads,
        head_parts(memory, h, own, one, head),
    ensures
        fused_plan(kind, family, stream, one, scale, mask, probe).synchronized().leaves(
            machine,
            own,
        )[one.output.id] == row_of(
            fused_multihead_plan(
                kind,
                family,
                stream,
                h,
                heads,
                scale,
                mask,
                probe,
            ).synchronized().leaves(machine, memory)[h.output.id],
            head,
            h.query_rows * h.value_dim,
        ),
{
    broadcast use crate::machine::group_execution;

    let (rows, cols) = (h.query_rows as int, h.value_dim as int);
    let d = dims_of(h);
    fused_leaves(machine, kind, family, stream, one, scale, mask, probe, own);
    fused_heads_leave(machine, kind, family, stream, h, heads, scale, mask, probe, memory);
    let single = fused_plan(kind, family, stream, one, scale, mask, probe).leaves(
        machine,
        own,
    )[one.output.id];
    let packed = fused_multihead_plan(kind, family, stream, h, heads, scale, mask, probe).leaves(
        machine,
        memory,
    )[h.output.id];
    assert forall|at: int| 0 <= at < single.len() implies single[at] == row_of(
        packed,
        head,
        rows * cols,
    )[at] by {
        element_place(at, rows, cols);
        let (row, column) = (at / cols, at % cols);
        assert(single[row * cols + column] == single[at]);
        assert(packed[head * (rows * cols) + (row * cols + column)] == row_of(
            packed,
            head,
            rows * cols,
        )[at]);
        let n = heads as int;
        assert(n * d.query_rows * d.head_dim == n * (d.query_rows * d.head_dim))
            by (nonlinear_arith);
        assert(n * d.kv_rows * d.head_dim == n * (d.kv_rows * d.head_dim)) by (nonlinear_arith);
        assert(n * d.kv_rows * d.value_dim == n * (d.kv_rows * d.value_dim)) by (nonlinear_arith);
        parts_have_the_operands(
            kind == HeadKind::Bf16,
            memory[h.queries.id],
            memory[h.keys.id],
            memory[h.values.id],
            d,
            scale,
            mask == AttentionMask::Causal,
            n,
            head,
            row,
        );
    }
    assert(single =~= row_of(packed, head, rows * cols));
}

/// The operands of the one are those of the other, widened.
pub open spec fn operands_widened(memory: Memory, h: Heads, other: Memory, wide: Heads) -> bool {
    &&& other[wide.queries.id] == widened(memory[h.queries.id])
    &&& other[wide.keys.id] == widened(memory[h.keys.id])
    &&& other[wide.values.id] == widened(memory[h.values.id])
}

/// Fused attention over packed bf16 is, bit for bit, the fused attention of
/// the widened operands narrowed once.
pub proof fn bf16_attention_is_narrowed(
    machine: Machine,
    family: Family,
    wide_family: Family,
    stream: Stream,
    h: Heads,
    wide: Heads,
    scale: F32,
    mask: AttentionMask,
    probe: Probe,
    wide_probe: Probe,
    memory: Memory,
    other: Memory,
)
    requires
        family.width == wide_family.width,
        fused_plan(HeadKind::Bf16, family, stream, h, scale, mask, probe).outcome is Ok,
        fused_plan(
            HeadKind::F32,
            wide_family,
            stream,
            wide,
            scale,
            mask,
            wide_probe,
        ).outcome is Ok,
        heads_apart(h),
        heads_apart(wide),
        heads_held(memory, h),
        heads_held(other, wide),
        same_shape(h, wide),
        h.kv_rows <= u32::MAX,
        operands_widened(memory, h, other, wide),
    ensures
        fused_plan(
            HeadKind::Bf16,
            family,
            stream,
            h,
            scale,
            mask,
            probe,
        ).synchronized().leaves(machine, memory)[h.output.id] == narrowed(
            fused_plan(
                HeadKind::F32,
                wide_family,
                stream,
                wide,
                scale,
                mask,
                wide_probe,
            ).synchronized().leaves(machine, other)[wide.output.id],
        ),
{
    broadcast use crate::machine::group_execution;

    let (rows, cols) = (h.query_rows as int, h.value_dim as int);
    fused_leaves(machine, HeadKind::Bf16, family, stream, h, scale, mask, probe, memory);
    fused_leaves(
        machine,
        HeadKind::F32,
        wide_family,
        stream,
        wide,
        scale,
        mask,
        wide_probe,
        other,
    );
    let packed = fused_plan(HeadKind::Bf16, family, stream, h, scale, mask, probe).leaves(
        machine,
        memory,
    )[h.output.id];
    let plain = fused_plan(
        HeadKind::F32,
        wide_family,
        stream,
        wide,
        scale,
        mask,
        wide_probe,
    ).leaves(machine, other)[wide.output.id];
    assert forall|at: int| 0 <= at < packed.len() implies packed[at] == narrowed(plain)[at] by {
        element_place(at, rows, cols);
        let (row, column) = (at / cols, at % cols);
        assert(packed[row * cols + column] == packed[at]);
        assert(plain[row * cols + column] == plain[at]);
    }
    assert(packed =~= narrowed(plain));
}

/// The same holds of packed heads.
pub proof fn bf16_packed_heads_are_narrowed(
    machine: Machine,
    family: Family,
    wide_family: Family,
    stream: Stream,
    h: Heads,
    wide: Heads,
    heads: usize,
    scale: F32,
    mask: AttentionMask,
    probe: Probe,
    wide_probe: Probe,
    memory: Memory,
    other: Memory,
)
    requires
        family.width == wide_family.width,
        fused_multihead_plan(
            HeadKind::Bf16,
            family,
            stream,
            h,
            heads,
            scale,
            mask,
            probe,
        ).outcome is Ok,
        fused_multihead_plan(
            HeadKind::F32,
            wide_family,
            stream,
            wide,
            heads,
            scale,
            mask,
            wide_probe,
        ).outcome is Ok,
        heads_apart(h),
        heads_apart(wide),
        heads_held(memory, h),
        heads_held(other, wide),
        same_shape(h, wide),
        h.kv_rows <= u32::MAX,
        operands_widened(memory, h, other, wide),
    ensures
        fused_multihead_plan(
            HeadKind::Bf16,
            family,
            stream,
            h,
            heads,
            scale,
            mask,
            probe,
        ).synchronized().leaves(machine, memory)[h.output.id] == narrowed(
            fused_multihead_plan(
                HeadKind::F32,
                wide_family,
                stream,
                wide,
                heads,
                scale,
                mask,
                wide_probe,
            ).synchronized().leaves(machine, other)[wide.output.id],
        ),
{
    broadcast use crate::machine::group_execution;

    let (rows, cols) = (h.query_rows as int, h.value_dim as int);
    fused_heads_leave(
        machine,
        HeadKind::Bf16,
        family,
        stream,
        h,
        heads,
        scale,
        mask,
        probe,
        memory,
    );
    fused_heads_leave(
        machine,
        HeadKind::F32,
        wide_family,
        stream,
        wide,
        heads,
        scale,
        mask,
        wide_probe,
        other,
    );
    let packed = fused_multihead_plan(
        HeadKind::Bf16,
        family,
        stream,
        h,
        heads,
        scale,
        mask,
        probe,
    ).leaves(machine, memory)[h.output.id];
    let plain = fused_multihead_plan(
        HeadKind::F32,
        wide_family,
        stream,
        wide,
        heads,
        scale,
        mask,
        wide_probe,
    ).leaves(machine, other)[wide.output.id];
    assert forall|at: int| 0 <= at < packed.len() implies packed[at] == narrowed(plain)[at] by {
        let part = rows * cols;
        if part <= 0 {
            assert(heads * part <= 0) by (nonlinear_arith)
                requires
                    part <= 0,
            ;
        }
        element_place(at, heads as int, part);
        if cols <= 0 {
            assert(part <= 0) by (nonlinear_arith)
                requires
                    cols <= 0,
                    0 <= rows,
                    part == rows * cols,
            ;
        }
        element_place(at % part, rows, cols);
        let head = at / part;
        let (row, column) = ((at % part) / cols, (at % part) % cols);
        assert(packed[head * (rows * cols) + (row * cols + column)] == packed[at]);
        assert(plain[head * (rows * cols) + (row * cols + column)] == plain[at]);
    }
    assert(packed =~= narrowed(plain));
}

/// Whether a bit pattern is a zero of either sign.
pub open spec fn is_zero(bits: u32) -> bool {
    bits & 0x7FFF_FFFF == 0
}

/// Whether a bit pattern is neither an infinity nor a NaN.
pub open spec fn is_finite(bits: u32) -> bool {
    bits & 0x7FFF_FFFF < 0x7F80_0000
}

/// Equal but for the sign of a zero.
pub open spec fn alike(a: u32, b: u32) -> bool {
    a == b || is_zero(a) && is_zero(b)
}

/// What `f32` arithmetic has to do with the sign of a zero and with the weight
/// of a masked key: neither changes a result but in the sign of a zero.
pub open spec fn masks_exactly(machine: Machine) -> bool {
    &&& forall|w: u32, v: u32, a: u32, b: u32|
        alike(a, b) ==> alike(
            #[trigger] (machine.multiply_add)(w, v, a),
            #[trigger] (machine.multiply_add)(w, v, b),
        )
    &&& forall|a: u32, b: u32, r: u32|
        alike(a, b) ==> alike(
            #[trigger] (machine.multiply)(a, r),
            #[trigger] (machine.multiply)(b, r),
        )
    &&& forall|a: u32, b: u32, r: u32|
        alike(a, b) ==> alike(#[trigger] (machine.divide)(a, r), #[trigger] (machine.divide)(b, r))
    &&& forall|m: u32, u: u32, v: u32, a: u32|
        is_finite(u) && is_finite(v) ==> alike(
            #[trigger] (machine.multiply_add)(
                (machine.exponential)((machine.subtract)(NEGATIVE_INFINITY, m)),
                u,
                a,
            ),
            #[trigger] (machine.multiply_add)(
                (machine.exponential)((machine.subtract)(NEGATIVE_INFINITY, m)),
                v,
                a,
            ),
        )
}

/// Operands of one row that agree on the keys that are not masked, and whose
/// values are finite.
spec fn visibly_equal(a: RowOperands, b: RowOperands) -> bool {
    &&& a.query == b.query
    &&& a.scale == b.scale
    &&& a.limit == b.limit
    &&& a.keys.len() == b.keys.len()
    &&& a.values.len() == a.keys.len()
    &&& b.values.len() == b.keys.len()
    &&& forall|key: int|
        0 <= key < a.keys.len() && key < a.limit ==> #[trigger] a.keys[key] == b.keys[key]
    &&& forall|key: int|
        0 <= key < a.keys.len() && key < a.limit ==> #[trigger] a.values[key] == b.values[key]
}

spec fn finite_values(o: RowOperands, value_dim: nat) -> bool {
    forall|key: int, column: int|
        0 <= key < o.values.len() && 0 <= column < value_dim ==> is_finite(
            #[trigger] o.values[key][column],
        )
}

proof fn accumulation_is_alike(
    machine: Machine,
    a: RowOperands,
    b: RowOperands,
    width: nat,
    value_dim: nat,
    base: int,
    column: int,
    scores: Seq<u32>,
    maximum: u32,
    weights: Seq<u32>,
    start: u32,
    other: u32,
    count: nat,
)
    requires
        masks_exactly(machine),
        visibly_equal(a, b),
        finite_values(a, value_dim),
        finite_values(b, value_dim),
        0 <= base,
        0 <= column < value_dim,
        count <= width,
        scores == chunk_scores(machine, a, width, base),
        weights == Seq::new(
            width,
            |lane: int| (machine.exponential)((machine.subtract)(scores[lane], maximum)),
        ),
        alike(start, other),
    ensures
        alike(
            accumulated(machine, weights, chunk_column(a, width, base, column), start, count),
            accumulated(machine, weights, chunk_column(b, width, base, column), other, count),
        ),
    decreases count,
{
    if count > 0 {
        let lane = count - 1;
        let key = base + lane;
        let (va, vb) = (
            chunk_column(a, width, base, column)[lane],
            chunk_column(b, width, base, column)[lane],
        );
        accumulation_is_alike(
            machine,
            a,
            b,
            width,
            value_dim,
            base,
            column,
            scores,
            maximum,
            weights,
            start,
            other,
            lane as nat,
        );
        let x = accumulated(
            machine,
            weights,
            chunk_column(a, width, base, column),
            start,
            lane as nat,
        );
        let y = accumulated(
            machine,
            weights,
            chunk_column(b, width, base, column),
            other,
            lane as nat,
        );
        let w = weights[lane];
        assert(alike((machine.multiply_add)(w, vb, x), (machine.multiply_add)(w, vb, y)));
        if key < a.limit {
            if key < a.keys.len() {
                assert(a.values[key] == b.values[key]);
            }
            assert(va == vb);
        } else {
            assert(scores[lane] == NEGATIVE_INFINITY);
            assert(is_finite(0)) by {
                assert(0u32 & 0x7FFF_FFFF == 0) by (bit_vector);
            }
            assert(is_finite(va) && is_finite(vb));
            assert(alike((machine.multiply_add)(w, va, x), (machine.multiply_add)(w, vb, x)));
        }
    }
}

proof fn attending_is_alike(
    machine: Machine,
    a: RowOperands,
    b: RowOperands,
    width: nat,
    value_dim: nat,
    chunks: nat,
)
    requires
        masks_exactly(machine),
        visibly_equal(a, b),
        finite_values(a, value_dim),
        finite_values(b, value_dim),
    ensures
        ({
            let x = attended(machine, a, width, value_dim, chunks);
            let y = attended(machine, b, width, value_dim, chunks);
            &&& x.maximum == y.maximum
            &&& x.sum == y.sum
            &&& forall|column: int|
                0 <= column < value_dim ==> alike(
                    #[trigger] x.values[column],
                    y.values[column],
                )
        }),
    decreases chunks,
{
    if chunks > 0 {
        attending_is_alike(machine, a, b, width, value_dim, (chunks - 1) as nat);
        let x = attended(machine, a, width, value_dim, (chunks - 1) as nat);
        let y = attended(machine, b, width, value_dim, (chunks - 1) as nat);
        let base = (chunks - 1) * width;
        assert(0 <= base) by (nonlinear_arith)
            requires
                base == (chunks - 1) * width,
                chunks >= 1,
                width >= 0,
        ;
        let scores = chunk_scores(machine, a, width, base);
        assert(scores =~= chunk_scores(machine, b, width, base));
        let maximum = attended(machine, a, width, value_dim, chunks).maximum;
        let rescale = (machine.exponential)((machine.subtract)(x.maximum, maximum));
        let weights = Seq::new(
            width,
            |lane: int| (machine.exponential)((machine.subtract)(scores[lane], maximum)),
        );
        assert forall|column: int| 0 <= column < value_dim implies alike(
            #[trigger] attended(machine, a, width, value_dim, chunks).values[column],
            attended(machine, b, width, value_dim, chunks).values[column],
        ) by {
            assert(alike(x.values[column], y.values[column]));
            assert(alike(
                (machine.multiply)(x.values[column], rescale),
                (machine.multiply)(y.values[column], rescale),
            ));
            accumulation_is_alike(
                machine,
                a,
                b,
                width,
                value_dim,
                base,
                column,
                scores,
                maximum,
                weights,
                (machine.multiply)(x.values[column], rescale),
                (machine.multiply)(y.values[column], rescale),
                width,
            );
        }
    }
}

/// The first `rows` rows of two matrices agree.
pub open spec fn rows_agree(a: Seq<u32>, b: Seq<u32>, rows: int, cols: int) -> bool {
    forall|at: int| 0 <= at < rows * cols ==> #[trigger] a[at] == b[at]
}

/// All elements are finite.
pub open spec fn all_finite(bits: Seq<u32>) -> bool {
    forall|i: int| 0 <= i < bits.len() ==> is_finite(#[trigger] bits[i])
}

/// Under a causal mask a row of fused attention does not depend on later rows:
/// where two runs have the same queries, keys and values up to row `last`, and
/// finite values throughout, rows up to `last` of their outputs are equal but
/// for the sign of a zero.
pub proof fn causal_rows_ignore_later_rows(
    machine: Machine,
    family: Family,
    stream: Stream,
    h: Heads,
    scale: F32,
    probe: Probe,
    first: Memory,
    second: Memory,
    last: int,
)
    requires
        masks_exactly(machine),
        fused_plan(
            HeadKind::F32,
            family,
            stream,
            h,
            scale,
            AttentionMask::Causal,
            probe,
        ).outcome is Ok,
        heads_apart(h),
        heads_held(first, h),
        heads_held(second, h),
        h.kv_rows <= u32::MAX,
        0 <= last < h.query_rows,
        rows_agree(first[h.queries.id], second[h.queries.id], last + 1, h.head_dim as int),
        rows_agree(first[h.keys.id], second[h.keys.id], last + 1, h.head_dim as int),
        rows_agree(first[h.values.id], second[h.values.id], last + 1, h.value_dim as int),
        all_finite(first[h.values.id]),
        all_finite(second[h.values.id]),
    ensures
        ({
            let plan = fused_plan(
                HeadKind::F32,
                family,
                stream,
                h,
                scale,
                AttentionMask::Causal,
                probe,
            ).synchronized();
            forall|at: int|
                0 <= at < (last + 1) * h.value_dim ==> alike(
                    #[trigger] plan.leaves(machine, first)[h.output.id][at],
                    plan.leaves(machine, second)[h.output.id][at],
                )
        }),
{
    broadcast use crate::machine::group_execution;

    let mask = AttentionMask::Causal;
    let d = dims_of(h);
    let cols = d.value_dim;
    let submitted = fused_plan(HeadKind::F32, family, stream, h, scale, mask, probe);
    fused_leaves(machine, HeadKind::F32, family, stream, h, scale, mask, probe, first);
    fused_leaves(machine, HeadKind::F32, family, stream, h, scale, mask, probe, second);
    let x = submitted.leaves(machine, first)[h.output.id];
    let y = submitted.leaves(machine, second)[h.output.id];
    assert forall|at: int| 0 <= at < (last + 1) * cols implies alike(
        #[trigger] submitted.synchronized().leaves(machine, first)[h.output.id][at],
        submitted.synchronized().leaves(machine, second)[h.output.id][at],
    ) by {
        element_place(at, last + 1, cols);
        let (row, column) = (at / cols, at % cols);
        assert(x[row * cols + column] == x[at]);
        assert(y[row * cols + column] == y[at]);
        let a = row_operands(
            false,
            first[h.queries.id],
            first[h.keys.id],
            first[h.values.id],
            d,
            scale,
            true,
            0,
            row,
        );
        let b = row_operands(
            false,
            second[h.queries.id],
            second[h.keys.id],
            second[h.values.id],
            d,
            scale,
            true,
            0,
            row,
        );
        agreeing_rows(first[h.queries.id], second[h.queries.id], last + 1, d.head_dim, row);
        assert(a.query =~= b.query);
        assert forall|key: int|
            0 <= key < a.keys.len() && key < a.limit implies #[trigger] a.keys[key]
            == b.keys[key] by {
            agreeing_rows(first[h.keys.id], second[h.keys.id], last + 1, d.head_dim, key);
        }
        assert forall|key: int|
            0 <= key < a.keys.len() && key < a.limit implies #[trigger] a.values[key]
            == b.values[key] by {
            agreeing_rows(first[h.values.id], second[h.values.id], last + 1, d.value_dim, key);
        }
        assert forall|key: int, c: int|
            0 <= key < a.values.len() && 0 <= c < cols implies is_finite(
            #[trigger] a.values[key][c],
        ) by {
            element_inside(key, d.kv_rows, c, cols);
        }
        assert forall|key: int, c: int|
            0 <= key < b.values.len() && 0 <= c < cols implies is_finite(
            #[trigger] b.values[key][c],
        ) by {
            element_inside(key, d.kv_rows, c, cols);
        }
        let width = family.width as nat;
        let chunks = ceil_div(a.keys.len() as int, width as int) as nat;
        attending_is_alike(machine, a, b, width, cols as nat, chunks);
        let (sa, sb) = (
            attended(machine, a, width, cols as nat, chunks),
            attended(machine, b, width, cols as nat, chunks),
        );
        assert(alike(sa.values[column], sb.values[column]));
        assert(alike(
            (machine.divide)(sa.values[column], sa.sum),
            (machine.divide)(sb.values[column], sa.sum),
        ));
    }
}

proof fn agreeing_rows(a: Seq<u32>, b: Seq<u32>, rows: int, cols: int, row: int)
    requires
        rows_agree(a, b, rows, cols),
        0 <= row < rows,
        0 <= cols,
    ensures
        row_of(a, row, cols) == row_of(b, row, cols),
        row_of(a, 0 * rows + row, cols) == row_of(b, 0 * rows + row, cols),
{
    assert forall|j: int| 0 <= j < cols implies row_of(a, row, cols)[j] == row_of(
        b,
        row,
        cols,
    )[j] by {
        element_inside(row, rows, j, cols);
        assert(a[row * cols + j] == b[row * cols + j]);
    }
    assert(row_of(a, row, cols) =~= row_of(b, row, cols));
}

} // verus!
