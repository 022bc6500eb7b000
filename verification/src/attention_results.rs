//! What products and composed attention leave, element by element.

use crate::arith::ceil_div;
use crate::attention::{
    composed_multihead_plan, composed_plan, multihead_scale_causal_plan, scale_causal_plan,
    score_buffer, score_product, value_product, ComposedFamilies,
};
use crate::bf16::{narrow_plan, widen_plan};
use crate::bf16_attention::{
    bf16_composed_multihead_plan, bf16_composed_plan, quantized_plan, quantized_stages, wide,
    wide_heads, widening, QuantizedFamilies,
};
use crate::bitwise::{
    batch_kind, batches_leave, form_of, narrow_leaves, product_apart, product_held,
    product_leaves, widen_leaves,
};
use crate::bitwise_composed::{
    composed_heads_leave, composed_leaves, masked_weight, pipeline_apart, scaled, softmax_leaves,
    softmax_rows, widening_leaves,
};
use crate::bitwise_heads::{
    alike, all_finite, heads_held, is_finite, is_zero, rows_agree,
};
use crate::device::{BufferId, DeviceBuffer, Element, Scratch, Stream, F32};
use crate::elementwise::{awaited, scale_plan};
use crate::family::Family;
use crate::gemm::batched_plan;
use crate::heads::{AttentionMask, Heads};
use crate::machine::{
    column_of, element_inside, element_place, holds, left_factors, narrow, narrowed,
    product_chain, product_element, right_factors, row_exponentials, row_maximum, row_of, row_sum,
    softmax_row, widen, widened, Machine, Memory, ProductForm, NEGATIVE_INFINITY,
};
use crate::plan::{Action, PlanView};
use crate::product::{product_plan, tile_ready, Product, ProductKind};
use crate::row_softmax::softmax_dispatch_plan;
use crate::rows::{FusedProbes, Rows};
use vstd::arithmetic::div_mod::lemma_fundamental_div_mod_converse;
use vstd::prelude::*;

verus! {

/// The factors of a product are a row of the one matrix and a column of the
/// other, or a row where that one is stored transposed.
proof fn factors_are_rows(
    form: ProductForm,
    a: Seq<u32>,
    b: Seq<u32>,
    batch: int,
    m: int,
    n: int,
    k: int,
    row: int,
    col: int,
)
    ensures
        left_factors(form, a, batch, m, k, row) == (if form.packed {
            widened(row_of(a, batch * m + row, k))
        } else {
            row_of(a, batch * m + row, k)
        }),
        form.transposed ==> right_factors(form, b, batch, n, k, col) == (if form.packed {
            widened(row_of(b, batch * n + col, k))
        } else {
            row_of(b, batch * n + col, k)
        }),
        !form.transposed ==> right_factors(form, b, batch, n, k, col) == (if form.packed {
            widened(part_column(b, batch, k, n, col))
        } else {
            part_column(b, batch, k, n, col)
        }),
{
    assert(forall|e: int| #[trigger]
        (batch * (m * k) + (row * k + e)) == (batch * m + row) * k + e) by (nonlinear_arith);
    assert(forall|e: int| #[trigger]
        (batch * (n * k) + (col * k + e)) == (batch * n + col) * k + e) by (nonlinear_arith);
    assert(forall|e: int| #[trigger]
        (batch * (k * n) + (e * n + col)) == (batch * k + e) * n + col) by (nonlinear_arith);
    let left = if form.packed {
        widened(row_of(a, batch * m + row, k))
    } else {
        row_of(a, batch * m + row, k)
    };
    assert forall|e: int| 0 <= e < k implies #[trigger] left_factors(form, a, batch, m, k, row)[e]
        == left[e] by {
        assert(batch * (m * k) + (row * k + e) == (batch * m + row) * k + e);
    }
    assert(left_factors(form, a, batch, m, k, row) =~= left);
    let right = if form.transposed {
        row_of(b, batch * n + col, k)
    } else {
        part_column(b, batch, k, n, col)
    };
    let read = if form.packed {
        widened(right)
    } else {
        right
    };
    assert forall|e: int| 0 <= e < k implies #[trigger] right_factors(form, b, batch, n, k, col)[e]
        == read[e] by {
        assert(batch * (n * k) + (col * k + e) == (batch * n + col) * k + e);
        assert(batch * (k * n) + (e * n + col) == (batch * k + e) * n + col);
    }
    assert(right_factors(form, b, batch, n, k, col) =~= read);
}

/// A column of the matrix that follows `part` matrices of the same shape.
pub open spec fn part_column(matrix: Seq<u32>, part: int, rows: int, cols: int, col: int) -> Seq<
    u32,
> {
    Seq::new(rows as nat, |e: int| matrix[(part * rows + e) * cols + col])
}

/// What a product is to leave at a row and a column, from what its operands
/// hold.
pub open spec fn product_of(
    machine: Machine,
    kind: ProductKind,
    side: int,
    a: Seq<u32>,
    b: Seq<u32>,
    p: Product,
    row: int,
    col: int,
) -> u32 {
    let left = row_of(a, row, p.k as int);
    let column = column_of(b, p.k as int, p.n as int, col);
    let stored = row_of(b, col, p.k as int);
    match kind {
        ProductKind::F32 => product_element(machine, side, left, column),
        ProductKind::F32TransposedB => product_element(machine, side, left, stored),
        ProductKind::Bf16 => narrow(
            product_element(machine, side, widened(left), widened(column)),
        ),
        ProductKind::Bf16TransposedB => narrow(
            product_element(machine, side, widened(left), widened(stored)),
        ),
    }
}

/// An accepted product leaves in each element the chain of the row of the
/// first operand and the column of the second, or the row where that one is
/// transposed; packed operands are widened first and the result narrowed once.
/// It touches nothing else.
pub proof fn products_are_chains(
    machine: Machine,
    kind: ProductKind,
    family: Family,
    stream: Stream,
    p: Product,
    memory: Memory,
)
    requires
        tile_ready(family.width),
        product_plan(kind, family, stream, p).outcome is Ok,
        product_apart(p),
        product_held(memory, p),
    ensures
        ({
            let after = product_plan(kind, family, stream, p).leaves(machine, memory);
            &&& after[p.output.id].len() == p.m * p.n
            &&& forall|row: int, col: int|
                #![trigger after[p.output.id][row * p.n + col]]
                0 <= row < p.m && 0 <= col < p.n ==> after[p.output.id][row * p.n + col]
                    == product_of(
                    machine,
                    kind,
                    family.width as int,
                    memory[p.matrix_a.id],
                    memory[p.matrix_b.id],
                    p,
                    row,
                    col,
                )
            &&& forall|other: BufferId|
                other != p.output.id ==> #[trigger] after[other] == memory[other]
        }),
{
    product_leaves(machine, kind, family, stream, p, memory);
    let after = product_plan(kind, family, stream, p).leaves(machine, memory);
    let (a, b) = (memory[p.matrix_a.id], memory[p.matrix_b.id]);
    let (m, n, k) = (p.m as int, p.n as int, p.k as int);
    assert forall|row: int, col: int|
        #![trigger after[p.output.id][row * p.n + col]]
        0 <= row < p.m && 0 <= col < p.n implies after[p.output.id][row * p.n + col] == product_of(
        machine,
        kind,
        family.width as int,
        a,
        b,
        p,
        row,
        col,
    ) by {
        factors_are_rows(form_of(kind), a, b, 0, m, n, k, row, col);
        assert(part_column(b, 0, k, n, col) =~= column_of(b, k, n, col));
    }
}

/// An accepted batched product leaves, for each batch, the chains of the rows
/// and columns of that batch's operands.
pub proof fn batched_products_are_chains(
    machine: Machine,
    family: Family,
    stream: Stream,
    p: Product,
    batches: usize,
    transposed_b: bool,
    memory: Memory,
)
    requires
        tile_ready(family.width),
        batched_plan(family, stream, p, batches, transposed_b).outcome is Ok,
        product_apart(p),
        product_held(memory, p),
    ensures
        ({
            let after = batched_plan(family, stream, p, batches, transposed_b).leaves(
                machine,
                memory,
            );
            &&& after[p.output.id].len() == batches * (p.m * p.n)
            &&& forall|batch: int, row: int, col: int|
                #![trigger after[p.output.id][batch * (p.m * p.n) + (row * p.n + col)]]
                0 <= batch < batches && 0 <= row < p.m && 0 <= col < p.n
                    ==> after[p.output.id][batch * (p.m * p.n) + (row * p.n + col)]
                    == product_element(
                    machine,
                    family.width as int,
                    row_of(memory[p.matrix_a.id], batch * p.m + row, p.k as int),
                    if transposed_b {
                        row_of(memory[p.matrix_b.id], batch * p.n + col, p.k as int)
                    } else {
                        part_column(memory[p.matrix_b.id], batch, p.k as int, p.n as int, col)
                    },
                )
            &&& forall|other: BufferId|
                other != p.output.id ==> #[trigger] after[other] == memory[other]
        }),
{
    batches_leave(machine, family, stream, p, batches, transposed_b, memory);
    let after = batched_plan(family, stream, p, batches, transposed_b).leaves(machine, memory);
    let (a, b) = (memory[p.matrix_a.id], memory[p.matrix_b.id]);
    let (m, n, k) = (p.m as int, p.n as int, p.k as int);
    assert forall|batch: int, row: int, col: int|
        #![trigger after[p.output.id][batch * (p.m * p.n) + (row * p.n + col)]]
        0 <= batch < batches && 0 <= row < p.m && 0 <= col < p.n
            implies after[p.output.id][batch * (p.m * p.n) + (row * p.n + col)] == product_element(
        machine,
        family.width as int,
        row_of(a, batch * p.m + row, k),
        if transposed_b {
            row_of(b, batch * p.n + col, k)
        } else {
            part_column(b, batch, k, n, col)
        },
    ) by {
        factors_are_rows(form_of(batch_kind(transposed_b)), a, b, batch, m, n, k, row, col);
    }
}

/// An accepted causal scaling leaves every score scaled up to the diagonal and
/// negative infinity past it, in place or not, and touches nothing else.
pub proof fn causal_scaling_leaves(
    machine: Machine,
    family: Family,
    stream: Stream,
    scores: DeviceBuffer,
    output: DeviceBuffer,
    query_rows: usize,
    kv_rows: usize,
    scale: F32,
    memory: Memory,
)
    requires
        scale_causal_plan(
            family,
            stream,
            scores,
            output,
            query_rows,
            kv_rows,
            scale,
        ).outcome is Ok,
        holds(memory, scores),
        holds(memory, output),
    ensures
        ({
            let after = scale_causal_plan(
                family,
                stream,
                scores,
                output,
                query_rows,
                kv_rows,
                scale,
            ).leaves(machine, memory);
            &&& after[output.id].len() == query_rows * kv_rows
            &&& forall|row: int, key: int|
                #![trigger after[output.id][row * kv_rows + key]]
                0 <= row < query_rows && 0 <= key < kv_rows ==> after[output.id][row * kv_rows
                    + key] == (if key > row {
                    NEGATIVE_INFINITY
                } else {
                    (machine.multiply)(memory[scores.id][row * kv_rows + key], scale.bits)
                })
            &&& forall|other: BufferId|
                other != output.id ==> #[trigger] after[other] == memory[other]
        }),
{
    broadcast use crate::machine::group_execution;

    let after = scale_causal_plan(
        family,
        stream,
        scores,
        output,
        query_rows,
        kv_rows,
        scale,
    ).leaves(machine, memory);
    assert forall|row: int, key: int|
        #![trigger after[output.id][row * kv_rows + key]]
        0 <= row < query_rows && 0 <= key < kv_rows implies after[output.id][row * kv_rows + key]
        == (if key > row {
        NEGATIVE_INFINITY
    } else {
        (machine.multiply)(memory[scores.id][row * kv_rows + key], scale.bits)
    }) by {
        element_inside(row, query_rows as int, key, kv_rows as int);
    }
}

/// An accepted causal scaling of packed heads does likewise for each head.
pub proof fn packed_causal_scaling_leaves(
    machine: Machine,
    family: Family,
    stream: Stream,
    scores: DeviceBuffer,
    output: DeviceBuffer,
    heads: int,
    query_rows: usize,
    kv_rows: usize,
    scale: F32,
    memory: Memory,
)
    requires
        0 <= heads,
        multihead_scale_causal_plan(
            family,
            stream,
            scores,
            output,
            scores.len,
            query_rows,
            kv_rows,
            scale,
        ).outcome is Ok,
        scores.len == heads * query_rows * kv_rows,
        holds(memory, scores),
        holds(memory, output),
    ensures
        ({
            let after = multihead_scale_causal_plan(
                family,
                stream,
                scores,
                output,
                scores.len,
                query_rows,
                kv_rows,
                scale,
            ).leaves(machine, memory);
            &&& after[output.id].len() == scores.len
            &&& forall|head: int, row: int, key: int|
                #![trigger after[output.id][(head * query_rows + row) * kv_rows + key]]
                0 <= head < heads && 0 <= row < query_rows && 0 <= key < kv_rows
                    ==> after[output.id][(head * query_rows + row) * kv_rows + key] == (if key
                    > row {
                    NEGATIVE_INFINITY
                } else {
                    (machine.multiply)(
                        memory[scores.id][(head * query_rows + row) * kv_rows + key],
                        scale.bits,
                    )
                })
            &&& forall|other: BufferId|
                other != output.id ==> #[trigger] after[other] == memory[other]
        }),
{
    broadcast use crate::machine::group_execution;

    let after = multihead_scale_causal_plan(
        family,
        stream,
        scores,
        output,
        scores.len,
        query_rows,
        kv_rows,
        scale,
    ).leaves(machine, memory);
    assert forall|head: int, row: int, key: int|
        #![trigger after[output.id][(head * query_rows + row) * kv_rows + key]]
        0 <= head < heads && 0 <= row < query_rows && 0 <= key < kv_rows
            implies after[output.id][(head * query_rows + row) * kv_rows + key] == (if key > row {
        NEGATIVE_INFINITY
    } else {
        (machine.multiply)(
            memory[scores.id][(head * query_rows + row) * kv_rows + key],
            scale.bits,
        )
    }) by {
        element_inside(head, heads, row, query_rows as int);
        element_inside(head * query_rows + row, heads * query_rows, key, kv_rows as int);
    }
}

/// How many keys a query row attends to.
pub open spec fn visible(mask: AttentionMask, row: int, kv_rows: int) -> int {
    match mask {
        AttentionMask::Causal => row + 1,
        AttentionMask::Unmasked => kv_rows,
    }
}

/// The scaled scores of a query against the keys from row `first` on: negative
/// infinity from the key `limit` on.
pub open spec fn scores_of(
    machine: Machine,
    side: int,
    query: Seq<u32>,
    keys: Seq<u32>,
    first: int,
    count: int,
    scale: F32,
    limit: int,
) -> Seq<u32> {
    Seq::new(
        count as nat,
        |key: int|
            if key < limit {
                (machine.multiply)(
                    product_element(
                        machine,
                        side,
                        query,
                        row_of(keys, first + key, query.len() as int),
                    ),
                    scale.bits,
                )
            } else {
                NEGATIVE_INFINITY
            },
    )
}

/// What composed attention is to leave at a row and a column of a head: the
/// values of the column weighted by the softmax of the row's scores.
pub open spec fn attention_of(
    machine: Machine,
    side: int,
    width: u32,
    queries: Seq<u32>,
    keys: Seq<u32>,
    values: Seq<u32>,
    h: Heads,
    head: int,
    scale: F32,
    mask: AttentionMask,
    row: int,
    col: int,
) -> u32 {
    let (kv, dim) = (h.kv_rows as int, h.head_dim as int);
    let scores = scores_of(
        machine,
        side,
        row_of(queries, head * h.query_rows + row, dim),
        keys,
        head * kv,
        kv,
        scale,
        visible(mask, row, kv),
    );
    product_element(
        machine,
        side,
        softmax_row(machine, scores, width as nat),
        part_column(values, head, kv, h.value_dim as int, col),
    )
}

/// One row of scaled scores, from the scores.
proof fn scaled_row_is(
    machine: Machine,
    side: int,
    queries: Seq<u32>,
    keys: Seq<u32>,
    scores: Seq<u32>,
    h: Heads,
    heads: int,
    head: int,
    scale: F32,
    mask: AttentionMask,
    row: int,
)
    requires
        0 <= head < heads,
        0 <= row < h.query_rows,
        scores.len() == heads * (h.query_rows * h.kv_rows),
        forall|key: int|
            0 <= key < h.kv_rows ==> #[trigger] row_of(
                scores,
                head * h.query_rows + row,
                h.kv_rows as int,
            )[key] == product_element(
                machine,
                side,
                row_of(queries, head * h.query_rows + row, h.head_dim as int),
                row_of(keys, head * h.kv_rows + key, h.head_dim as int),
            ),
    ensures
        row_of(
            scaled(machine, scores, h.query_rows as int, h.kv_rows as int, scale, mask),
            head * h.query_rows + row,
            h.kv_rows as int,
        ) == scores_of(
            machine,
            side,
            row_of(queries, head * h.query_rows + row, h.head_dim as int),
            keys,
            head * h.kv_rows,
            h.kv_rows as int,
            scale,
            visible(mask, row, h.kv_rows as int),
        ),
{
    let (rows, cols) = (h.query_rows as int, h.kv_rows as int);
    let all = scaled(machine, scores, rows, cols, scale, mask);
    let place = head * rows + row;
    let one = row_of(all, place, cols);
    let plain = row_of(scores, place, cols);
    let two = scores_of(
        machine,
        side,
        row_of(queries, place, h.head_dim as int),
        keys,
        head * h.kv_rows,
        cols,
        scale,
        visible(mask, row, cols),
    );
    element_inside(head, heads, row, rows);
    assert forall|key: int| 0 <= key < cols implies #[trigger] one[key] == two[key] by {
        element_inside(place, heads * rows, key, cols);
        assert((heads * rows) * cols == heads * (rows * cols)) by (nonlinear_arith);
        assert(plain[key] == scores[place * cols + key]);
    }
    assert(one =~= two);
}

/// Accepted composed attention leaves in each row the values weighted by the
/// softmax of the row's scaled scores, keys after the row masked where the mask
/// is causal and none where it is not. It touches no other operand.
pub proof fn composed_attention_leaves(
    machine: Machine,
    f: ComposedFamilies,
    stream: Stream,
    h: Heads,
    scale: F32,
    mask: AttentionMask,
    probes: FusedProbes,
    memory: Memory,
)
    requires
        tile_ready(f.gemm.width),
        composed_plan(f, stream, h, scale, mask, probes).outcome is Ok,
        pipeline_apart(h),
        heads_held(memory, h),
    ensures
        ({
            let after = composed_plan(f, stream, h, scale, mask, probes).leaves(machine, memory);
            &&& after[h.output.id].len() == h.query_rows * h.value_dim
            &&& forall|row: int, col: int|
                #![trigger after[h.output.id][row * h.value_dim + col]]
                0 <= row < h.query_rows && 0 <= col < h.value_dim ==> after[h.output.id][row
                    * h.value_dim + col] == attention_of(
                    machine,
                    f.gemm.width as int,
                    f.softmax.width,
                    memory[h.queries.id],
                    memory[h.keys.id],
                    memory[h.values.id],
                    h,
                    0,
                    scale,
                    mask,
                    row,
                    col,
                )
            &&& forall|other: BufferId|
                other is Operand && other != h.output.id ==> #[trigger] after[other]
                    == memory[other]
        }),
{
    broadcast use crate::machine::group_execution;

    let plan = composed_plan(f, stream, h, scale, mask, probes);
    let after = plan.leaves(machine, memory);
    let side = f.gemm.width as int;
    let (rows, keys, cols) = (h.query_rows as int, h.kv_rows as int, h.value_dim as int);
    let elements = (h.query_rows * h.kv_rows) as usize;
    let scores = score_buffer(stream.context, Scratch::Scores, elements);
    let probabilities = score_buffer(stream.context, Scratch::Probabilities, elements);
    let (before, middle) = composed_leaves(machine, f, stream, h, scale, mask, probes, memory);
    let scoring = score_product(h, scores);
    let weighing = value_product(h, probabilities);
    products_are_chains(machine, ProductKind::F32TransposedB, f.gemm, stream, scoring, before);
    products_are_chains(machine, ProductKind::F32, f.gemm, stream, weighing, middle);
    let scored = product_plan(ProductKind::F32TransposedB, f.gemm, stream, scoring).leaves(
        machine,
        before,
    )[scores.id];
    let (q, k, v) = (memory[h.queries.id], memory[h.keys.id], memory[h.values.id]);
    assert forall|row: int, col: int|
        #![trigger after[h.output.id][row * h.value_dim + col]]
        0 <= row < h.query_rows && 0 <= col < h.value_dim implies after[h.output.id][row
        * h.value_dim + col] == attention_of(
        machine,
        side,
        f.softmax.width,
        q,
        k,
        v,
        h,
        0,
        scale,
        mask,
        row,
        col,
    ) by {
        assert forall|key: int| 0 <= key < keys implies #[trigger] row_of(scored, row, keys)[key]
            == product_element(
            machine,
            side,
            row_of(q, row, h.head_dim as int),
            row_of(k, key, h.head_dim as int),
        ) by {
            assert(scored[row * h.kv_rows + key] == row_of(scored, row, keys)[key]);
        }
        scaled_row_is(machine, side, q, k, scored, h, 1, 0, scale, mask, row);
        probability_row(
            machine,
            f.softmax.width,
            scaled(machine, scored, rows, keys, scale, mask),
            rows,
            keys,
            row,
        );
        assert(part_column(v, 0, keys, cols, col) =~= column_of(v, keys, cols, col));
    }
}

/// One row of a row softmax.
proof fn probability_row(
    machine: Machine,
    width: u32,
    scores: Seq<u32>,
    rows: int,
    cols: int,
    row: int,
)
    requires
        0 <= row < rows,
        0 <= cols,
        scores.len() == rows * cols,
    ensures
        row_of(softmax_rows(machine, width, scores, cols), row, cols) == softmax_row(
            machine,
            row_of(scores, row, cols),
            width as nat,
        ),
{
    let one = row_of(softmax_rows(machine, width, scores, cols), row, cols);
    let two = softmax_row(machine, row_of(scores, row, cols), width as nat);
    assert forall|c: int| 0 <= c < cols implies #[trigger] one[c] == two[c] by {
        element_inside(row, rows, c, cols);
    }
    assert(one =~= two);
}

/// Accepted composed attention over packed heads does likewise for each head.
pub proof fn packed_composed_attention_leaves(
    machine: Machine,
    f: ComposedFamilies,
    stream: Stream,
    h: Heads,
    heads: usize,
    scale: F32,
    mask: AttentionMask,
    probes: FusedProbes,
    memory: Memory,
)
    requires
        tile_ready(f.gemm.width),
        composed_multihead_plan(f, stream, h, heads, scale, mask, probes).outcome is Ok,
        pipeline_apart(h),
        heads_held(memory, h),
    ensures
        ({
            let after = composed_multihead_plan(f, stream, h, heads, scale, mask, probes).leaves(
                machine,
                memory,
            );
            &&& after[h.output.id].len() == heads * h.query_rows * h.value_dim
            &&& forall|head: int, row: int, col: int|
                #![trigger after[h.output.id][head * (h.query_rows * h.value_dim) + (row
                    * h.value_dim + col)]]
                0 <= head < heads && 0 <= row < h.query_rows && 0 <= col < h.value_dim
                    ==> after[h.output.id][head * (h.query_rows * h.value_dim) + (row
                    * h.value_dim + col)] == attention_of(
                    machine,
                    f.gemm.width as int,
                    f.softmax.width,
                    memory[h.queries.id],
                    memory[h.keys.id],
                    memory[h.values.id],
                    h,
                    head,
                    scale,
                    mask,
                    row,
                    col,
                )
            &&& forall|other: BufferId|
                other is Operand && other != h.output.id ==> #[trigger] after[other]
                    == memory[other]
        }),
{
    broadcast use crate::machine::group_execution;

    let plan = composed_multihead_plan(f, stream, h, heads, scale, mask, probes);
    let after = plan.leaves(machine, memory);
    if h.query_rows > 0 {
        let side = f.gemm.width as int;
        let (rows, keys, cols) = (h.query_rows as int, h.kv_rows as int, h.value_dim as int);
        let elements = (heads * h.query_rows * h.kv_rows) as usize;
        let probabilities = score_buffer(stream.context, Scratch::Probabilities, elements);
        let (before, middle) = composed_heads_leave(
            machine,
            f,
            stream,
            h,
            heads,
            scale,
            mask,
            probes,
            memory,
        );
        let scoring = score_product(h, probabilities);
        let weighing = value_product(h, probabilities);
        batched_products_are_chains(machine, f.gemm, stream, scoring, heads, true, before);
        batched_products_are_chains(machine, f.gemm, stream, weighing, heads, false, middle);
        let scored = batched_plan(f.gemm, stream, scoring, heads, true).leaves(machine, before)[
            probabilities.id
        ];
        let (q, k, v) = (memory[h.queries.id], memory[h.keys.id], memory[h.values.id]);
        assert(heads * rows * keys == heads * (rows * keys)) by (nonlinear_arith);
        assert(heads * rows * cols == heads * (rows * cols)) by (nonlinear_arith);
        assert forall|head: int, row: int, col: int|
            #![trigger after[h.output.id][head * (h.query_rows * h.value_dim) + (row
                * h.value_dim + col)]]
            0 <= head < heads && 0 <= row < h.query_rows && 0 <= col < h.value_dim
                implies after[h.output.id][head * (h.query_rows * h.value_dim) + (row
            * h.value_dim + col)] == attention_of(
            machine,
            side,
            f.softmax.width,
            q,
            k,
            v,
            h,
            head,
            scale,
            mask,
            row,
            col,
        ) by {
            let place = head * rows + row;
            element_inside(head, heads as int, row, rows);
            assert forall|key: int|
                0 <= key < keys implies #[trigger] row_of(scored, place, keys)[key]
                == product_element(
                machine,
                side,
                row_of(q, place, h.head_dim as int),
                row_of(k, head * h.kv_rows + key, h.head_dim as int),
            ) by {
                assert(place * keys + key == head * (rows * keys) + (row * keys + key))
                    by (nonlinear_arith)
                    requires
                        place == head * rows + row,
                ;
                assert(scored[head * (h.query_rows * h.kv_rows) + (row * h.kv_rows + key)]
                    == row_of(scored, place, keys)[key]);
            }
            scaled_row_is(machine, side, q, k, scored, h, heads as int, head, scale, mask, row);
            probability_row(
                machine,
                f.softmax.width,
                scaled(machine, scored, rows, keys, scale, mask),
                heads * rows,
                keys,
                place,
            );
        }
    } else {
        assert(heads * h.query_rows * h.value_dim == 0) by (nonlinear_arith)
            requires
                h.query_rows == 0,
        ;
    }
}

/// The scaled scores of a packed query against packed keys: each score is
/// narrowed before it is scaled, and negative infinity from the key `limit` on.
pub open spec fn quantized_scores_of(
    machine: Machine,
    side: int,
    query: Seq<u32>,
    keys: Seq<u32>,
    count: int,
    scale: F32,
    limit: int,
) -> Seq<u32> {
    Seq::new(
        count as nat,
        |key: int|
            if key < limit {
                (machine.multiply)(
                    widen(
                        narrow(
                            product_element(
                                machine,
                                side,
                                widened(query),
                                widened(row_of(keys, key, query.len() as int)),
                            ),
                        ),
                    ),
                    scale.bits,
                )
            } else {
                NEGATIVE_INFINITY
            },
    )
}

/// What quantized composed attention is to leave at a row and a column: the
/// packed values of the column weighted by the narrowed softmax of the row's
/// scores, narrowed once.
pub open spec fn quantized_attention_of(
    machine: Machine,
    side: int,
    width: u32,
    queries: Seq<u32>,
    keys: Seq<u32>,
    values: Seq<u32>,
    h: Heads,
    scale: F32,
    mask: AttentionMask,
    row: int,
    col: int,
) -> u32 {
    let kv = h.kv_rows as int;
    let scores = quantized_scores_of(
        machine,
        side,
        row_of(queries, row, h.head_dim as int),
        keys,
        kv,
        scale,
        visible(mask, row, kv),
    );
    narrow(
        product_element(
            machine,
            side,
            widened(narrowed(softmax_row(machine, scores, width as nat))),
            widened(column_of(values, kv, h.value_dim as int, col)),
        ),
    )
}

/// The operands of a quantized attention are none of its scratch, and its
/// output is an allocation of its own.
pub open spec fn quantized_apart(h: Heads) -> bool {
    &&& h.queries.id is Operand
    &&& h.keys.id is Operand
    &&& h.values.id is Operand
    &&& h.output.id is Operand
    &&& h.output.id != h.values.id
}

/// The scaling of the widened scores.
proof fn quantized_scaling_leaves(
    machine: Machine,
    f: QuantizedFamilies,
    stream: Stream,
    probs: DeviceBuffer,
    h: Heads,
    scale: F32,
    mask: AttentionMask,
    scaling: PlanView,
    memory: Memory,
)
    requires
        scaling == (match mask {
            AttentionMask::Causal => awaited(
                scale_causal_plan(
                    f.attention,
                    stream,
                    probs,
                    probs,
                    h.query_rows,
                    h.kv_rows,
                    scale,
                ),
            ),
            AttentionMask::Unmasked => awaited(scale_plan(f.elementwise, probs, probs, scale)),
        }),
        scaling.outcome is Ok,
        probs.len == h.query_rows * h.kv_rows,
        h.kv_rows > 0,
        holds(memory, probs),
    ensures
        scaling.leaves(machine, memory)[probs.id] == scaled(
            machine,
            memory[probs.id],
            h.query_rows as int,
            h.kv_rows as int,
            scale,
            mask,
        ),
        forall|other: BufferId|
            other != probs.id ==> #[trigger] scaling.leaves(machine, memory)[other]
                == memory[other],
{
    broadcast use crate::machine::group_execution;

    let (rows, cols) = (h.query_rows as int, h.kv_rows as int);
    let expected = scaled(machine, memory[probs.id], rows, cols, scale, mask);
    let after = scaling.leaves(machine, memory);
    assert forall|at: int| 0 <= at < rows * cols implies #[trigger] after[probs.id][at]
        == expected[at] by {
        element_place(at, rows, cols);
        lemma_fundamental_div_mod_converse(at / cols, rows, 0, at / cols);
    }
    assert(after[probs.id] =~= expected);
}

/// What quantized composed attention leaves in its output, from the packed
/// scores on.
proof fn quantized_stages_leave(
    machine: Machine,
    f: QuantizedFamilies,
    stream: Stream,
    h: Heads,
    scale: F32,
    mask: AttentionMask,
    probes: FusedProbes,
    memory: Memory,
) -> (stages: (Memory, Memory))
    requires
        tile_ready(f.gemm.width),
        quantized_plan(f, stream, h, scale, mask, probes).outcome is Ok,
        h.query_rows > 0,
        quantized_apart(h),
        heads_held(memory, h),
    ensures
        ({
            let elements = (h.query_rows * h.kv_rows) as usize;
            let packed = wide(f.family.context, Scratch::PackedScores, elements);
            let first = product_plan(
                ProductKind::Bf16TransposedB,
                f.gemm,
                stream,
                score_product(h, packed),
            );
            let last = product_plan(ProductKind::Bf16, f.gemm, stream, value_product(h, packed));
            let (before, middle) = stages;
            &&& h.kv_rows > 0
            &&& first.outcome is Ok
            &&& last.outcome is Ok
            &&& product_held(before, score_product(h, packed))
            &&& before[h.queries.id] == memory[h.queries.id]
            &&& before[h.keys.id] == memory[h.keys.id]
            &&& product_held(middle, value_product(h, packed))
            &&& forall|other: BufferId|
                other is Operand ==> #[trigger] middle[other] == memory[other]
            &&& middle[packed.id] == narrowed(
                softmax_rows(
                    machine,
                    f.softmax.width,
                    scaled(
                        machine,
                        widened(first.leaves(machine, before)[packed.id]),
                        h.query_rows as int,
                        h.kv_rows as int,
                        scale,
                        mask,
                    ),
                    h.kv_rows as int,
                ),
            )
            &&& quantized_plan(f, stream, h, scale, mask, probes).leaves(machine, memory)
                == last.leaves(machine, middle)
        }),
{
    broadcast use crate::machine::group_execution;

    let elements = (h.query_rows * h.kv_rows) as usize;
    let packed = wide(f.family.context, Scratch::PackedScores, elements);
    let probs = wide(f.family.context, Scratch::WideProbabilities, elements);
    let rows = Rows { input: probs, output: probs, rows: h.query_rows, cols: h.kv_rows };
    let prepared = PlanView::one(
        Action::Allocate { buffer: packed, element: Element::Bf16 },
    ).followed_by(PlanView::one(Action::Allocate { buffer: probs, element: Element::F32 }));
    let first = product_plan(
        ProductKind::Bf16TransposedB,
        f.gemm,
        stream,
        score_product(h, packed),
    );
    let widening = awaited(widen_plan(f.conversions, packed, probs));
    let scaling = match mask {
        AttentionMask::Causal => awaited(
            scale_causal_plan(
                f.attention,
                stream,
                probs,
                probs,
                h.query_rows,
                h.kv_rows,
                scale,
            ),
        ),
        AttentionMask::Unmasked => awaited(scale_plan(f.elementwise, probs, probs, scale)),
    };
    let softmax = softmax_dispatch_plan(f.softmax, stream, rows, probes);
    let narrowing = awaited(narrow_plan(f.conversions, probs, packed));
    let last = product_plan(ProductKind::Bf16, f.gemm, stream, value_product(h, packed));
    let stages = prepared.followed_by(first.synchronized()).followed_by(widening).followed_by(
        scaling,
    ).followed_by(softmax).followed_by(narrowing).followed_by(last.synchronized());
    let staged = quantized_stages(f, stream, h, scale, mask, probes);
    assert(staged.outcome is Ok);
    assert(staged.steps =~= stages.steps);
    assert(first.outcome is Ok && widening.outcome is Ok && scaling.outcome is Ok
        && softmax.outcome is Ok && narrowing.outcome is Ok && last.outcome is Ok);
    let before = prepared.leaves(machine, memory);
    assert(product_held(before, score_product(h, packed)));
    product_leaves(
        machine,
        ProductKind::Bf16TransposedB,
        f.gemm,
        stream,
        score_product(h, packed),
        before,
    );
    let scored = first.leaves(machine, before);
    widen_leaves(machine, f.conversions, packed, probs, scored);
    let wide_scores = widening.leaves(machine, scored);
    quantized_scaling_leaves(machine, f, stream, probs, h, scale, mask, scaling, wide_scores);
    let weighed = scaling.leaves(machine, wide_scores);
    softmax_leaves(machine, f.softmax, stream, rows, probes, weighed);
    let likely = softmax.leaves(machine, weighed);
    narrow_leaves(machine, f.conversions, probs, packed, likely);
    let middle = narrowing.leaves(machine, likely);
    assert(stages.leaves(machine, memory) == last.leaves(machine, middle));
    (before, middle)
}

/// Accepted quantized composed attention leaves in each row the packed values
/// weighted by the narrowed softmax of the row's scaled scores, keys after the
/// row masked where the mask is causal and none where it is not. It touches no
/// other operand.
pub proof fn quantized_attention_leaves(
    machine: Machine,
    f: QuantizedFamilies,
    stream: Stream,
    h: Heads,
    scale: F32,
    mask: AttentionMask,
    probes: FusedProbes,
    memory: Memory,
)
    requires
        tile_ready(f.gemm.width),
        quantized_plan(f, stream, h, scale, mask, probes).outcome is Ok,
        quantized_apart(h),
        heads_held(memory, h),
    ensures
        ({
            let after = quantized_plan(f, stream, h, scale, mask, probes).leaves(machine, memory);
            &&& after[h.output.id].len() == h.query_rows * h.value_dim
            &&& forall|row: int, col: int|
                #![trigger after[h.output.id][row * h.value_dim + col]]
                0 <= row < h.query_rows && 0 <= col < h.value_dim ==> after[h.output.id][row
                    * h.value_dim + col] == quantized_attention_of(
                    machine,
                    f.gemm.width as int,
                    f.softmax.width,
                    memory[h.queries.id],
                    memory[h.keys.id],
                    memory[h.values.id],
                    h,
                    scale,
                    mask,
                    row,
                    col,
                )
            &&& forall|other: BufferId|
                other is Operand && other != h.output.id ==> #[trigger] after[other]
                    == memory[other]
        }),
{
    broadcast use crate::machine::group_execution;

    let plan = quantized_plan(f, stream, h, scale, mask, probes);
    let after = plan.leaves(machine, memory);
    if h.query_rows > 0 {
        let side = f.gemm.width as int;
        let (rows, keys, cols) = (h.query_rows as int, h.kv_rows as int, h.value_dim as int);
        let elements = (h.query_rows * h.kv_rows) as usize;
        let packed = wide(f.family.context, Scratch::PackedScores, elements);
        let (before, middle) = quantized_stages_leave(
            machine,
            f,
            stream,
            h,
            scale,
            mask,
            probes,
            memory,
        );
        let scoring = score_product(h, packed);
        let weighing = value_product(h, packed);
        products_are_chains(machine, ProductKind::Bf16TransposedB, f.gemm, stream, scoring, before);
        products_are_chains(machine, ProductKind::Bf16, f.gemm, stream, weighing, middle);
        let scored = product_plan(ProductKind::Bf16TransposedB, f.gemm, stream, scoring).leaves(
            machine,
            before,
        )[packed.id];
        let (q, k, v) = (memory[h.queries.id], memory[h.keys.id], memory[h.values.id]);
        let all = scaled(machine, widened(scored), rows, keys, scale, mask);
        assert forall|row: int, col: int|
            #![trigger after[h.output.id][row * h.value_dim + col]]
            0 <= row < h.query_rows && 0 <= col < h.value_dim implies after[h.output.id][row
            * h.value_dim + col] == quantized_attention_of(
            machine,
            side,
            f.softmax.width,
            q,
            k,
            v,
            h,
            scale,
            mask,
            row,
            col,
        ) by {
            let scores = quantized_scores_of(
                machine,
                side,
                row_of(q, row, h.head_dim as int),
                k,
                keys,
                scale,
                visible(mask, row, keys),
            );
            let one = row_of(all, row, keys);
            assert forall|key: int| 0 <= key < keys implies #[trigger] one[key] == scores[key] by {
                element_inside(row, rows, key, keys);
                lemma_fundamental_div_mod_converse(row, rows, 0, row);
                assert(scored[row * h.kv_rows + key] == product_of(
                    machine,
                    ProductKind::Bf16TransposedB,
                    side,
                    q,
                    k,
                    scoring,
                    row,
                    key,
                ));
            }
            assert(one =~= scores);
            probability_row(machine, f.softmax.width, all, rows, keys, row);
            let weights = softmax_row(machine, scores, f.softmax.width as nat);
            let soft = softmax_rows(machine, f.softmax.width, all, keys);
            assert forall|key: int| 0 <= key < keys implies #[trigger] row_of(
                middle[packed.id],
                row,
                keys,
            )[key] == narrowed(weights)[key] by {
                element_inside(row, rows, key, keys);
                assert(row_of(soft, row, keys)[key] == soft[row * keys + key]);
            }
            assert(row_of(middle[packed.id], row, keys) =~= narrowed(weights));
        }
    } else {
        assert(h.query_rows * h.value_dim == 0) by (nonlinear_arith)
            requires
                h.query_rows == 0,
        ;
    }
}

/// What `f32` arithmetic has to do with the sign of a zero and with the
/// narrowed weight of a masked key: neither changes a result but in the sign of
/// a zero.
pub open spec fn weighs_narrowly(machine: Machine) -> bool {
    &&& forall|w: u32, v: u32, a: u32, b: u32|
        alike(a, b) ==> alike(
            #[trigger] (machine.fused)(w, v, a),
            #[trigger] (machine.fused)(w, v, b),
        )
    &&& forall|m: u32, t: u32, u: u32, v: u32, a: u32|
        is_finite(u) && is_finite(v) ==> alike(
            #[trigger] (machine.fused)(widen(narrow(masked_weight(machine, m, t))), u, a),
            #[trigger] (machine.fused)(widen(narrow(masked_weight(machine, m, t))), v, a),
        )
}

proof fn narrow_chain_is_alike(
    machine: Machine,
    weights: Seq<u32>,
    values: Seq<u32>,
    other: Seq<u32>,
    limit: int,
    maximum: u32,
    total: u32,
    count: nat,
)
    requires
        weighs_narrowly(machine),
        values.len() == weights.len(),
        other.len() == weights.len(),
        forall|e: int| 0 <= e < weights.len() && e < limit ==> #[trigger] values[e] == other[e],
        forall|e: int|
            0 <= e < weights.len() && e >= limit ==> #[trigger] weights[e] == widen(
                narrow(masked_weight(machine, maximum, total)),
            ),
        all_finite(values),
        all_finite(other),
    ensures
        alike(
            product_chain(machine, weights, values, count),
            product_chain(machine, weights, other, count),
        ),
    decreases count,
{
    if count > 0 {
        let at = (count - 1) as nat;
        narrow_chain_is_alike(machine, weights, values, other, limit, maximum, total, at);
        let x = product_chain(machine, weights, values, at);
        let y = product_chain(machine, weights, other, at);
        if at < weights.len() {
            let (w, u, v) = (weights[at as int], values[at as int], other[at as int]);
            if at < limit {
                assert(u == v);
                assert(alike((machine.fused)(w, u, x), (machine.fused)(w, u, y)));
            } else {
                assert(w == widen(narrow(masked_weight(machine, maximum, total))));
                assert(is_finite(u) && is_finite(v));
                assert(alike((machine.fused)(w, u, x), (machine.fused)(w, v, x)));
                assert(alike((machine.fused)(w, v, x), (machine.fused)(w, v, y)));
            }
        } else {
            assert(alike((machine.fused)(0u32, 0u32, x), (machine.fused)(0u32, 0u32, y)));
        }
    }
}

/// Under a causal mask a row of quantized attention does not depend on later
/// rows: where two runs have the same query row, the same keys and values up to
/// it, and finite values throughout, that row of their outputs is equal but for
/// the sign of a zero.
pub proof fn quantized_causal_rows_ignore_later_rows(
    machine: Machine,
    f: QuantizedFamilies,
    stream: Stream,
    h: Heads,
    scale: F32,
    probes: FusedProbes,
    first: Memory,
    second: Memory,
    row: int,
)
    requires
        weighs_narrowly(machine),
        tile_ready(f.gemm.width),
        quantized_plan(f, stream, h, scale, AttentionMask::Causal, probes).outcome is Ok,
        quantized_apart(h),
        heads_held(first, h),
        heads_held(second, h),
        0 <= row < h.query_rows,
        row_of(first[h.queries.id], row, h.head_dim as int) == row_of(
            second[h.queries.id],
            row,
            h.head_dim as int,
        ),
        rows_agree(first[h.keys.id], second[h.keys.id], row + 1, h.head_dim as int),
        rows_agree(first[h.values.id], second[h.values.id], row + 1, h.value_dim as int),
        all_finite(widened(first[h.values.id])),
        all_finite(widened(second[h.values.id])),
    ensures
        ({
            let plan = quantized_plan(f, stream, h, scale, AttentionMask::Causal, probes);
            forall|col: int|
                0 <= col < h.value_dim ==> alike(
                    widen(
                        #[trigger] plan.leaves(machine, first)[h.output.id][row * h.value_dim
                            + col],
                    ),
                    widen(plan.leaves(machine, second)[h.output.id][row * h.value_dim + col]),
                )
        }),
{
    let mask = AttentionMask::Causal;
    let plan = quantized_plan(f, stream, h, scale, mask, probes);
    quantized_attention_leaves(machine, f, stream, h, scale, mask, probes, first);
    quantized_attention_leaves(machine, f, stream, h, scale, mask, probes, second);
    let side = f.gemm.width as int;
    let width = f.softmax.width as nat;
    let (rows, keys, cols) = (h.query_rows as int, h.kv_rows as int, h.value_dim as int);
    let dim = h.head_dim as int;
    let query = row_of(first[h.queries.id], row, dim);
    let (k1, k2) = (first[h.keys.id], second[h.keys.id]);
    let (v1, v2) = (first[h.values.id], second[h.values.id]);
    let scores = quantized_scores_of(machine, side, query, k1, keys, scale, row + 1);
    let other = quantized_scores_of(machine, side, query, k2, keys, scale, row + 1);
    assert forall|key: int| 0 <= key < keys implies #[trigger] scores[key] == other[key] by {
        if key < row + 1 {
            let (x, y) = (row_of(k1, key, dim), row_of(k2, key, dim));
            assert forall|e: int| 0 <= e < dim implies #[trigger] x[e] == y[e] by {
                element_inside(key, row + 1, e, dim);
            }
            assert(x =~= y);
        }
    }
    assert(scores =~= other);
    let maximum = row_maximum(machine, scores, width);
    let total = row_sum(machine, row_exponentials(machine, scores, maximum), width);
    let weights = widened(narrowed(softmax_row(machine, scores, width)));
    assert forall|col: int| 0 <= col < h.value_dim implies alike(
        widen(#[trigger] plan.leaves(machine, first)[h.output.id][row * h.value_dim + col]),
        widen(plan.leaves(machine, second)[h.output.id][row * h.value_dim + col]),
    ) by {
        let (x, y) = (
            widened(column_of(v1, keys, cols, col)),
            widened(column_of(v2, keys, cols, col)),
        );
        assert(v1.len() == keys * cols && v2.len() == keys * cols);
        assert forall|e: int|
            #![trigger x[e]]
            #![trigger y[e]]
            0 <= e < keys implies is_finite(x[e]) && is_finite(y[e]) && (e <= row ==> x[e]
            == y[e]) by {
            element_inside(e, keys, col, cols);
            assert(x[e] == widened(v1)[e * cols + col]);
            assert(y[e] == widened(v2)[e * cols + col]);
            if e <= row {
                element_inside(e, row + 1, col, cols);
                assert(v1[e * cols + col] == v2[e * cols + col]);
            }
        }
        let count = (ceil_div(keys, side) * side) as nat;
        narrow_chain_is_alike(machine, weights, x, y, row + 1, maximum, total, count);
        narrow_keeps_alike(
            product_chain(machine, weights, x, count),
            product_chain(machine, weights, y, count),
        );
    }
}

/// Values equal but for the sign of a zero are so after narrowing.
proof fn narrow_keeps_alike(a: u32, b: u32)
    requires
        alike(a, b),
    ensures
        alike(widen(narrow(a)), widen(narrow(b))),
{
    if a != b {
        zero_stays_zero(a);
        zero_stays_zero(b);
    }
}

proof fn zero_stays_zero(bits: u32)
    requires
        is_zero(bits),
    ensures
        is_zero(widen(narrow(bits))),
{
    assert(bits == 0 || bits == 0x8000_0000u32) by (bit_vector)
        requires
            bits & 0x7FFF_FFFF == 0,
    ;
    assert(0u32 & 0x7FFF_FFFF == 0 && 0u32 >> 16 == 0 && 0u32 & 1 == 0 && 0x7FFFu32 >> 16 == 0
        && 0u32 << 16 == 0) by (bit_vector);
    assert(0x8000_0000u32 & 0x7FFF_FFFF == 0 && 0x8000_0000u32 >> 16 == 0x8000 && 0x8000u32 & 1
        == 0 && 0x8000_7FFFu32 >> 16 == 0x8000 && 0x8000u32 << 16 == 0x8000_0000u32)
        by (bit_vector);
}

/// Composed attention over packed bf16 leaves, element by element, the attention
/// of the widened queries, keys and values, narrowed once, and keeps every other
/// operand.
pub proof fn bf16_composed_attention_leaves(
    machine: Machine,
    family: Family,
    conversions: Family,
    f: ComposedFamilies,
    stream: Stream,
    h: Heads,
    scale: F32,
    mask: AttentionMask,
    probes: FusedProbes,
    memory: Memory,
)
    requires
        tile_ready(f.gemm.width),
        bf16_composed_plan(
            family,
            conversions,
            f,
            stream,
            h,
            scale,
            mask,
            probes,
        ).outcome is Ok,
        h.queries.id is Operand,
        h.keys.id is Operand,
        h.values.id is Operand,
        h.output.id is Operand,
        heads_held(memory, h),
    ensures
        ({
            let after = bf16_composed_plan(
                family,
                conversions,
                f,
                stream,
                h,
                scale,
                mask,
                probes,
            ).leaves(machine, memory);
            &&& after[h.output.id].len() == h.query_rows * h.value_dim
            &&& forall|row: int, col: int|
                #![trigger after[h.output.id][row * h.value_dim + col]]
                0 <= row < h.query_rows && 0 <= col < h.value_dim ==> after[h.output.id][row
                    * h.value_dim + col] == narrow(
                    attention_of(
                        machine,
                        f.gemm.width as int,
                        f.softmax.width,
                        widened(memory[h.queries.id]),
                        widened(memory[h.keys.id]),
                        widened(memory[h.values.id]),
                        h,
                        0,
                        scale,
                        mask,
                        row,
                        col,
                    ),
                )
            &&& forall|other: BufferId|
                other is Operand && other != h.output.id ==> #[trigger] after[other]
                    == memory[other]
        }),
{
    broadcast use crate::machine::group_execution;

    let plan = bf16_composed_plan(family, conversions, f, stream, h, scale, mask, probes);
    let after = plan.leaves(machine, memory);
    if h.query_rows == 0 {
        assert(h.query_rows * h.value_dim == 0) by (nonlinear_arith)
            requires
                h.query_rows == 0,
        ;
    } else {
        let w = wide_heads(family.context, h);
        widening_leaves(machine, family.context, conversions, h, memory);
        let start = widening(conversions, h, w).leaves(machine, memory);
        composed_attention_leaves(machine, f, stream, w, scale, mask, probes, start);
        let done = composed_plan(f, stream, w, scale, mask, probes).leaves(machine, start);
        narrow_leaves(machine, conversions, w.output, h.output, done);
        assert forall|row: int, col: int|
            #![trigger after[h.output.id][row * h.value_dim + col]]
            0 <= row < h.query_rows && 0 <= col < h.value_dim implies after[h.output.id][row
            * h.value_dim + col] == narrow(
            attention_of(
                machine,
                f.gemm.width as int,
                f.softmax.width,
                widened(memory[h.queries.id]),
                widened(memory[h.keys.id]),
                widened(memory[h.values.id]),
                h,
                0,
                scale,
                mask,
                row,
                col,
            ),
        ) by {
            element_inside(row, h.query_rows as int, col, h.value_dim as int);
            assert(after[h.output.id] == narrowed(done[w.output.id]));
            assert(done[w.output.id][row * w.value_dim + col] == attention_of(
                machine,
                f.gemm.width as int,
                f.softmax.width,
                start[w.queries.id],
                start[w.keys.id],
                start[w.values.id],
                w,
                0,
                scale,
                mask,
                row,
                col,
            ));
        }
    }
}

/// The same holds of every one of several packed heads.
pub proof fn packed_bf16_composed_attention_leaves(
    machine: Machine,
    family: Family,
    conversions: Family,
    f: ComposedFamilies,
    stream: Stream,
    h: Heads,
    heads: usize,
    scale: F32,
    mask: AttentionMask,
    probes: FusedProbes,
    memory: Memory,
)
    requires
        tile_ready(f.gemm.width),
        bf16_composed_multihead_plan(
            family,
            conversions,
            f,
            stream,
            h,
            heads,
            scale,
            mask,
            probes,
        ).outcome is Ok,
        h.queries.id is Operand,
        h.keys.id is Operand,
        h.values.id is Operand,
        h.output.id is Operand,
        heads_held(memory, h),
    ensures
        ({
            let after = bf16_composed_multihead_plan(
                family,
                conversions,
                f,
                stream,
                h,
                heads,
                scale,
                mask,
                probes,
            ).leaves(machine, memory);
            &&& after[h.output.id].len() == heads * h.query_rows * h.value_dim
            &&& forall|head: int, row: int, col: int|
                #![trigger after[h.output.id][head * (h.query_rows * h.value_dim) + (row
                    * h.value_dim + col)]]
                0 <= head < heads && 0 <= row < h.query_rows && 0 <= col < h.value_dim
                    ==> after[h.output.id][head * (h.query_rows * h.value_dim) + (row
                    * h.value_dim + col)] == narrow(
                    attention_of(
                        machine,
                        f.gemm.width as int,
                        f.softmax.width,
                        widened(memory[h.queries.id]),
                        widened(memory[h.keys.id]),
                        widened(memory[h.values.id]),
                        h,
                        head,
                        scale,
                        mask,
                        row,
                        col,
                    ),
                )
            &&& forall|other: BufferId|
                other is Operand && other != h.output.id ==> #[trigger] after[other]
                    == memory[other]
        }),
{
    broadcast use crate::machine::group_execution;

    let plan = bf16_composed_multihead_plan(
        family,
        conversions,
        f,
        stream,
        h,
        heads,
        scale,
        mask,
        probes,
    );
    let after = plan.leaves(machine, memory);
    let count = heads as int;
    if h.query_rows == 0 {
        assert(count * h.query_rows * h.value_dim == 0) by (nonlinear_arith)
            requires
                h.query_rows == 0,
        ;
    } else {
        let w = wide_heads(family.context, h);
        widening_leaves(machine, family.context, conversions, h, memory);
        let start = widening(conversions, h, w).leaves(machine, memory);
        packed_composed_attention_leaves(machine, f, stream, w, heads, scale, mask, probes, start);
        let done = composed_multihead_plan(f, stream, w, heads, scale, mask, probes).leaves(
            machine,
            start,
        );
        narrow_leaves(machine, conversions, w.output, h.output, done);
        let block = h.query_rows * h.value_dim;
        assert(count * block == count * h.query_rows * h.value_dim) by (nonlinear_arith)
            requires
                block == h.query_rows * h.value_dim,
        ;
        assert forall|head: int, row: int, col: int|
            #![trigger after[h.output.id][head * (h.query_rows * h.value_dim) + (row
                * h.value_dim + col)]]
            0 <= head < heads && 0 <= row < h.query_rows && 0 <= col < h.value_dim
                implies after[h.output.id][head * (h.query_rows * h.value_dim) + (row
            * h.value_dim + col)] == narrow(
            attention_of(
                machine,
                f.gemm.width as int,
                f.softmax.width,
                widened(memory[h.queries.id]),
                widened(memory[h.keys.id]),
                widened(memory[h.values.id]),
                h,
                head,
                scale,
                mask,
                row,
                col,
            ),
        ) by {
            element_inside(row, h.query_rows as int, col, h.value_dim as int);
            element_inside(head, count, row * h.value_dim + col, block);
            assert(after[h.output.id] == narrowed(done[w.output.id]));
            assert(done[w.output.id][head * (w.query_rows * w.value_dim) + (row * w.value_dim
                + col)] == attention_of(
                machine,
                f.gemm.width as int,
                f.softmax.width,
                start[w.queries.id],
                start[w.keys.id],
                start[w.values.id],
                w,
                head,
                scale,
                mask,
                row,
                col,
            ));
        }
    }
}

} // verus!
