//! Operations whose results agree bit for bit.
//!
//! Each law carries out two operations on any [`Machine`], with no call
//! failing, and compares what they leave in memory.

use crate::arith::{ceil_div, ceil_div_covers};
use crate::bf16::{narrow_plan, widen_plan};
use crate::device::{BufferId, DeviceBuffer, Stream};
use crate::elementwise::awaited;
use crate::family::Family;
use crate::gemm::batched_plan;
use crate::launch::Dim3;
use crate::machine::{
    element_place, holds, left_factors, narrow, narrowed, product_at, product_form, product_result,
    right_factors, row_of, widen, widened, Machine, Memory, ProductForm,
};
use crate::product::{product_plan, tile_ready, Product, ProductKind};
use vstd::arithmetic::div_mod::{
    lemma_div_is_ordered, lemma_div_pos_is_pos, lemma_fundamental_div_mod_converse,
};
use vstd::prelude::*;

verus! {

/// Whether all elements are packed bf16.
pub open spec fn packed_bits(bits: Seq<u32>) -> bool {
    forall|i: int| 0 <= i < bits.len() ==> #[trigger] bits[i] < 0x1_0000
}

/// Whether a packed bf16 bit pattern is a NaN.
pub open spec fn is_packed_nan(bits: u32) -> bool {
    bits & 0x7FFF > 0x7F80
}

/// Narrowing what was widened gives the same bits back, and makes a NaN quiet.
pub proof fn narrow_undoes_widen(bits: u32)
    requires
        bits < 0x1_0000,
    ensures
        widen(bits) == bits * 0x1_0000,
        narrow(widen(bits)) == (if is_packed_nan(bits) {
            bits | 0x0040
        } else {
            bits
        }),
{
    assert((bits << 16) == bits * 0x1_0000) by (bit_vector)
        requires
            bits < 0x1_0000,
    ;
    let wide = bits << 16;
    assert((wide & 0x7FFF_FFFF > 0x7F80_0000) == (bits & 0x7FFF > 0x7F80)) by (bit_vector)
        requires
            bits < 0x1_0000,
            wide == bits << 16,
    ;
    assert((wide | 0x0040_0000) >> 16 == bits | 0x0040) by (bit_vector)
        requires
            bits < 0x1_0000,
            wide == bits << 16,
    ;
    if !is_packed_nan(bits) {
        assert(((wide + 0x7FFF + ((wide >> 16) & 1)) as u32) >> 16 == bits) by (bit_vector)
            requires
                bits < 0x1_0000,
                wide == bits << 16,
                bits & 0x7FFF <= 0x7F80,
        ;
    }
}

/// Narrowing gives packed bf16.
pub proof fn narrow_is_packed(bits: u32)
    ensures
        narrow(bits) < 0x1_0000,
{
    assert((bits | 0x0040_0000) >> 16 < 0x1_0000) by (bit_vector);
    let rounded = (bits + 0x7FFF + ((bits >> 16) & 1)) as u32;
    assert(rounded >> 16 < 0x1_0000) by (bit_vector);
}

proof fn narrow_of_zero()
    ensures
        narrow(0) == 0,
        widen(0) == 0,
{
    assert(0u32 & 0x7FFF_FFFF == 0) by (bit_vector);
    assert(((0u32 + 0x7FFF + ((0u32 >> 16) & 1)) as u32) >> 16 == 0) by (bit_vector);
    assert(0u32 << 16 == 0) by (bit_vector);
}

/// A widening leaves every element widened and touches nothing else.
pub proof fn widen_leaves(
    machine: Machine,
    family: Family,
    input: DeviceBuffer,
    output: DeviceBuffer,
    memory: Memory,
)
    requires
        widen_plan(family, input, output).outcome is Ok,
        holds(memory, input),
        holds(memory, output),
        input.id != output.id,
    ensures
        widen_plan(family, input, output).leaves(machine, memory)[output.id] == widened(
            memory[input.id],
        ),
        forall|other: BufferId|
            other != output.id ==> #[trigger] widen_plan(family, input, output).leaves(
                machine,
                memory,
            )[other] == memory[other],
        awaited(widen_plan(family, input, output)).leaves(machine, memory) == widen_plan(
            family,
            input,
            output,
        ).leaves(machine, memory),
{
    broadcast use crate::machine::group_execution;

    assert(widen_plan(family, input, output).leaves(machine, memory)[output.id] =~= widened(
        memory[input.id],
    ));
}

/// A narrowing leaves every element narrowed and touches nothing else.
pub proof fn narrow_leaves(
    machine: Machine,
    family: Family,
    input: DeviceBuffer,
    output: DeviceBuffer,
    memory: Memory,
)
    requires
        narrow_plan(family, input, output).outcome is Ok,
        holds(memory, input),
        holds(memory, output),
        input.id != output.id,
    ensures
        narrow_plan(family, input, output).leaves(machine, memory)[output.id] == narrowed(
            memory[input.id],
        ),
        forall|other: BufferId|
            other != output.id ==> #[trigger] narrow_plan(family, input, output).leaves(
                machine,
                memory,
            )[other] == memory[other],
        awaited(narrow_plan(family, input, output)).leaves(machine, memory) == narrow_plan(
            family,
            input,
            output,
        ).leaves(machine, memory),
{
    broadcast use crate::machine::group_execution;

    assert(narrow_plan(family, input, output).leaves(machine, memory)[output.id] =~= narrowed(
        memory[input.id],
    ));
}

/// Narrowing a widened buffer is accepted and gives the same bits, with bit
/// `0x0040` set where they are a NaN.
pub proof fn narrowing_undoes_widening(
    machine: Machine,
    family: Family,
    input: DeviceBuffer,
    wide: DeviceBuffer,
    output: DeviceBuffer,
    memory: Memory,
)
    requires
        widen_plan(family, input, wide).outcome is Ok,
        output.len == wide.len,
        holds(memory, input),
        holds(memory, wide),
        holds(memory, output),
        packed_bits(memory[input.id]),
        input.id != wide.id,
        output.id != wide.id,
    ensures
        awaited(narrow_plan(family, wide, output)).outcome is Ok,
        ({
            let between = awaited(widen_plan(family, input, wide)).leaves(machine, memory);
            let after = awaited(narrow_plan(family, wide, output)).leaves(machine, between);
            &&& after[output.id].len() == input.len
            &&& forall|i: int|
                0 <= i < input.len ==> #[trigger] after[output.id][i] == (if is_packed_nan(
                    memory[input.id][i],
                ) {
                    memory[input.id][i] | 0x0040
                } else {
                    memory[input.id][i]
                })
        }),
{
    widen_leaves(machine, family, input, wide, memory);
    let between = awaited(widen_plan(family, input, wide)).leaves(machine, memory);
    assert(between[output.id] == memory[output.id]);
    narrow_leaves(machine, family, wide, output, between);
    let after = awaited(narrow_plan(family, wide, output)).leaves(machine, between);
    assert forall|i: int| 0 <= i < input.len implies #[trigger] after[output.id][i] == (
    if is_packed_nan(memory[input.id][i]) {
        memory[input.id][i] | 0x0040
    } else {
        memory[input.id][i]
    }) by {
        narrow_undoes_widen(memory[input.id][i]);
    }
}

/// How a product of this kind reads and writes.
pub open spec fn form_of(kind: ProductKind) -> ProductForm {
    product_form(kind.kernel())->0
}

/// The kind of product that a batched one has for each batch.
pub open spec fn batch_kind(transposed_b: bool) -> ProductKind {
    if transposed_b {
        ProductKind::F32TransposedB
    } else {
        ProductKind::F32
    }
}

/// The output of a product is an allocation of its own.
pub open spec fn product_apart(p: Product) -> bool {
    &&& p.output.id != p.matrix_a.id
    &&& p.output.id != p.matrix_b.id
}

/// Memory has the operands of a product.
pub open spec fn product_held(memory: Memory, p: Product) -> bool {
    &&& holds(memory, p.matrix_a)
    &&& holds(memory, p.matrix_b)
    &&& holds(memory, p.output)
}

proof fn place_splits(batch: int, row: int, col: int, m: int, n: int)
    requires
        0 <= batch,
        0 <= row < m,
        0 <= col < n,
    ensures
        0 <= row * n + col < m * n,
        (batch * (m * n) + (row * n + col)) / (m * n) == batch,
        (batch * (m * n) + (row * n + col)) % (m * n) == row * n + col,
        (row * n + col) / n == row,
        (row * n + col) % n == col,
{
    let inner = row * n + col;
    assert(0 <= inner < m * n) by (nonlinear_arith)
        requires
            0 <= row < m,
            0 <= col < n,
            inner == row * n + col,
    ;
    lemma_fundamental_div_mod_converse(batch * (m * n) + inner, m * n, batch, inner);
    lemma_fundamental_div_mod_converse(inner, n, row, col);
}

/// Blocks of `side` reach every row and column.
proof fn tile_reaches(extent: int, side: int, at: int)
    requires
        0 < side,
        0 <= at < extent,
    ensures
        0 <= at / side < ceil_div(extent, side),
{
    lemma_div_pos_is_pos(at, side);
    lemma_div_is_ordered(at, extent - 1, side);
}

proof fn result_element(
    machine: Machine,
    form: ProductForm,
    grid: Dim3,
    side: int,
    a: Seq<u32>,
    b: Seq<u32>,
    m: int,
    n: int,
    k: int,
    before: Seq<u32>,
    batch: int,
    row: int,
    col: int,
)
    requires
        0 < side,
        grid.x == ceil_div(m, side),
        grid.y == ceil_div(n, side),
        0 <= batch < grid.z,
        0 <= row < m,
        0 <= col < n,
        batch * (m * n) + (row * n + col) < before.len(),
    ensures
        product_result(machine, form, grid, side, a, b, m, n, k, before)[batch * (m * n) + (row * n
            + col)] == product_at(machine, form, side, a, b, batch, m, n, k, row, col),
{
    place_splits(batch, row, col, m, n);
    tile_reaches(m, side, row);
    tile_reaches(n, side, col);
    assert(0 <= batch * (m * n)) by (nonlinear_arith)
        requires
            0 <= batch,
            0 <= m,
            0 <= n,
    ;
}

proof fn empty_product_element(
    machine: Machine,
    form: ProductForm,
    side: int,
    a: Seq<u32>,
    b: Seq<u32>,
    batch: int,
    m: int,
    n: int,
    row: int,
    col: int,
)
    requires
        0 < side,
    ensures
        product_at(machine, form, side, a, b, batch, m, n, 0, row, col) == 0,
{
    narrow_of_zero();
    ceil_div_covers(0, side);
    let blocks = ceil_div(0, side);
    assert(blocks * side == 0) by (nonlinear_arith)
        requires
            blocks == 0,
    ;
}

/// A product leaves the same chain of fused products in each element of its
/// output and touches nothing else.
pub proof fn product_leaves(
    machine: Machine,
    kind: ProductKind,
    family: Family,
    stream: Stream,
    p: Product,
    memory: Memory,
)
    requires
        tile_ready(family.width),
        product_plan(kind, family, stream, p).outcome is Ok,
        product_apart(p),
        product_held(memory, p),
    ensures
        ({
            let after = product_plan(kind, family, stream, p).leaves(machine, memory);
            &&& after[p.output.id].len() == p.m * p.n
            &&& forall|row: int, col: int|
                #![trigger after[p.output.id][row * p.n + col]]
                0 <= row < p.m && 0 <= col < p.n ==> after[p.output.id][row * p.n + col]
                    == product_at(
                    machine,
                    form_of(kind),
                    family.width as int,
                    memory[p.matrix_a.id],
                    memory[p.matrix_b.id],
                    0,
                    p.m as int,
                    p.n as int,
                    p.k as int,
                    row,
                    col,
                )
            &&& forall|other: BufferId|
                other != p.output.id ==> #[trigger] after[other] == memory[other]
        }),
{
    broadcast use crate::machine::group_execution;

    let (m, n, k) = (p.m as int, p.n as int, p.k as int);
    let side = family.width as int;
    let (a, b) = (memory[p.matrix_a.id], memory[p.matrix_b.id]);
    let after = product_plan(kind, family, stream, p).leaves(machine, memory);
    assert forall|row: int, col: int|
        #![trigger after[p.output.id][row * p.n + col]]
        0 <= row < m && 0 <= col < n implies after[p.output.id][row * p.n + col] == product_at(
        machine,
        form_of(kind),
        side,
        a,
        b,
        0,
        m,
        n,
        k,
        row,
        col,
    ) by {
        place_splits(0, row, col, m, n);
        ceil_div_covers(m, side);
        ceil_div_covers(n, side);
        if k == 0 {
            empty_product_element(machine, form_of(kind), side, a, b, 0, m, n, row, col);
        } else {
            let grid = Dim3 { x: ceil_div(m, side) as u32, y: ceil_div(n, side) as u32, z: 1 };
            result_element(
                machine,
                form_of(kind),
                grid,
                side,
                a,
                b,
                m,
                n,
                k,
                memory[p.output.id],
                0,
                row,
                col,
            );
        }
    }
}

/// A batched product leaves in each batch of its output what the factors of
/// that batch give, and touches nothing else.
pub proof fn batches_leave(
    machine: Machine,
    family: Family,
    stream: Stream,
    p: Product,
    batches: usize,
    transposed_b: bool,
    memory: Memory,
)
    requires
        tile_ready(family.width),
        batched_plan(family, stream, p, batches, transposed_b).outcome is Ok,
        product_apart(p),
        product_held(memory, p),
    ensures
        ({
            let after = batched_plan(family, stream, p, batches, transposed_b).leaves(
                machine,
                memory,
            );
            &&& after[p.output.id].len() == batches * (p.m * p.n)
            &&& forall|batch: int, row: int, col: int|
                #![trigger after[p.output.id][batch * (p.m * p.n) + (row * p.n + col)]]
                0 <= batch < batches && 0 <= row < p.m && 0 <= col < p.n
                    ==> after[p.output.id][batch * (p.m * p.n) + (row * p.n + col)] == product_at(
                    machine,
                    form_of(batch_kind(transposed_b)),
                    family.width as int,
                    memory[p.matrix_a.id],
                    memory[p.matrix_b.id],
                    batch,
                    p.m as int,
                    p.n as int,
                    p.k as int,
                    row,
                    col,
                )
            &&& forall|other: BufferId|
                other != p.output.id ==> #[trigger] after[other] == memory[other]
        }),
{
    broadcast use crate::machine::group_execution;

    let (m, n, k) = (p.m as int, p.n as int, p.k as int);
    let side = family.width as int;
    let (a, b) = (memory[p.matrix_a.id], memory[p.matrix_b.id]);
    let form = form_of(batch_kind(transposed_b));
    let after = batched_plan(family, stream, p, batches, transposed_b).leaves(machine, memory);
    assert(batches * m * n == batches * (m * n)) by (nonlinear_arith);
    assert forall|batch: int, row: int, col: int|
        #![trigger after[p.output.id][batch * (p.m * p.n) + (row * p.n + col)]]
        0 <= batch < batches && 0 <= row < m && 0 <= col < n implies after[p.output.id][batch * (
    p.m * p.n) + (row * p.n + col)] == product_at(
        machine,
        form,
        side,
        a,
        b,
        batch,
        m,
        n,
        k,
        row,
        col,
    ) by {
        place_splits(batch, row, col, m, n);
        ceil_div_covers(m, side);
        ceil_div_covers(n, side);
        let inner = row * n + col;
        assert(0 <= batch * (m * n) + inner < batches * (m * n)) by (nonlinear_arith)
            requires
                0 <= batch < batches,
                0 <= inner < m * n,
        ;
        if k == 0 {
            empty_product_element(machine, form, side, a, b, batch, m, n, row, col);
        } else {
            let grid = Dim3 {
                x: ceil_div(m, side) as u32,
                y: ceil_div(n, side) as u32,
                z: batches as u32,
            };
            result_element(
                machine,
                form,
                grid,
                side,
                a,
                b,
                m,
                n,
                k,
                memory[p.output.id],
                batch,
                row,
                col,
            );
        }
    }
}

/// What a product leaves depends on what its operands hold, not on where.
pub proof fn product_depends_on_contents(
    machine: Machine,
    kind: ProductKind,
    family: Family,
    stream: Stream,
    p: Product,
    q: Product,
    memory: Memory,
    other: Memory,
)
    requires
        tile_ready(family.width),
        product_plan(kind, family, stream, p).outcome is Ok,
        product_plan(kind, family, stream, q).outcome is Ok,
        product_apart(p),
        product_apart(q),
        product_held(memory, p),
        product_held(other, q),
        p.m == q.m,
        p.n == q.n,
        p.k == q.k,
        memory[p.matrix_a.id] == other[q.matrix_a.id],
        memory[p.matrix_b.id] == other[q.matrix_b.id],
    ensures
        product_plan(kind, family, stream, p).leaves(machine, memory)[p.output.id]
            == product_plan(kind, family, stream, q).leaves(machine, other)[q.output.id],
{
    let (m, n) = (p.m as int, p.n as int);
    product_leaves(machine, kind, family, stream, p, memory);
    product_leaves(machine, kind, family, stream, q, other);
    let one = product_plan(kind, family, stream, p).leaves(machine, memory)[p.output.id];
    let two = product_plan(kind, family, stream, q).leaves(machine, other)[q.output.id];
    assert forall|at: int| 0 <= at < one.len() implies one[at] == two[at] by {
        if n == 0 {
            assert(m * n == 0) by (nonlinear_arith)
                requires
                    n == 0,
            ;
        }
        element_place(at, m, n);
        let (row, col) = (at / n, at % n);
        assert(one[row * n + col] == one[at]);
        assert(two[row * n + col] == two[at]);
    }
    assert(one =~= two);
}

/// The same holds of batched products.
pub proof fn batches_depend_on_contents(
    machine: Machine,
    family: Family,
    stream: Stream,
    p: Product,
    q: Product,
    batches: usize,
    transposed_b: bool,
    memory: Memory,
    other: Memory,
)
    requires
        tile_ready(family.width),
        batched_plan(family, stream, p, batches, transposed_b).outcome is Ok,
        batched_plan(family, stream, q, batches, transposed_b).outcome is Ok,
        product_apart(p),
        product_apart(q),
        product_held(memory, p),
        product_held(other, q),
        p.m == q.m,
        p.n == q.n,
        p.k == q.k,
        memory[p.matrix_a.id] == other[q.matrix_a.id],
        memory[p.matrix_b.id] == other[q.matrix_b.id],
    ensures
        batched_plan(family, stream, p, batches, transposed_b).leaves(machine, memory)[p.output.id]
            == batched_plan(family, stream, q, batches, transposed_b).leaves(
            machine,
            other,
        )[q.output.id],
{
    let (m, n) = (p.m as int, p.n as int);
    batches_leave(machine, family, stream, p, batches, transposed_b, memory);
    batches_leave(machine, family, stream, q, batches, transposed_b, other);
    let one = batched_plan(family, stream, p, batches, transposed_b).leaves(
        machine,
        memory,
    )[p.output.id];
    let two = batched_plan(family, stream, q, batches, transposed_b).leaves(
        machine,
        other,
    )[q.output.id];
    assert forall|at: int| 0 <= at < one.len() implies one[at] == two[at] by {
        let part = m * n;
        assert(0 <= part) by (nonlinear_arith)
            requires
                0 <= m,
                0 <= n,
                part == m * n,
        ;
        if part == 0 {
            assert(batches * part == 0) by (nonlinear_arith)
                requires
                    part == 0,
            ;
        }
        if n == 0 {
            assert(part == 0) by (nonlinear_arith)
                requires
                    n == 0,
                    part == m * n,
            ;
        }
        element_place(at, batches as int, part);
        element_place(at % part, m, n);
        let batch = at / part;
        let (row, col) = ((at % part) / n, (at % part) % n);
        assert(one[batch * (m * n) + (row * n + col)] == one[at]);
        assert(two[batch * (m * n) + (row * n + col)] == two[at]);
    }
    assert(one =~= two);
}

/// Each batch of a batched product is, bit for bit, the single product of the
/// batch's own parts of the operands.
pub proof fn batches_are_single_products(
    machine: Machine,
    family: Family,
    stream: Stream,
    packed: Product,
    batches: usize,
    transposed_b: bool,
    batch: int,
    single: Product,
    memory: Memory,
    own: Memory,
)
    requires
        tile_ready(family.width),
        batched_plan(family, stream, packed, batches, transposed_b).outcome is Ok,
        product_plan(batch_kind(transposed_b), family, stream, single).outcome is Ok,
        product_apart(packed),
        product_apart(single),
        product_held(memory, packed),
        product_held(own, single),
        single.m == packed.m,
        single.n == packed.n,
        single.k == packed.k,
        0 <= batch < batches,
        own[single.matrix_a.id] == row_of(
            memory[packed.matrix_a.id],
            batch,
            packed.m * packed.k,
        ),
        own[single.matrix_b.id] == row_of(
            memory[packed.matrix_b.id],
            batch,
            packed.k * packed.n,
        ),
    ensures
        product_plan(batch_kind(transposed_b), family, stream, single).synchronized().leaves(
            machine,
            own,
        )[single.output.id] == row_of(
            batched_plan(family, stream, packed, batches, transposed_b).synchronized().leaves(
                machine,
                memory,
            )[packed.output.id],
            batch,
            packed.m * packed.n,
        ),
{
    broadcast use crate::machine::group_execution;

    let kind = batch_kind(transposed_b);
    let (m, n, k) = (packed.m as int, packed.n as int, packed.k as int);
    let one = product_plan(kind, family, stream, single).leaves(machine, own)[single.output.id];
    let many = batched_plan(family, stream, packed, batches, transposed_b).leaves(
        machine,
        memory,
    )[packed.output.id];
    product_leaves(machine, kind, family, stream, single, own);
    batches_leave(machine, family, stream, packed, batches, transposed_b, memory);
    assert forall|at: int| 0 <= at < one.len() implies one[at] == row_of(
        many,
        batch,
        m * n,
    )[at] by {
        if n > 0 {
            element_place(at, m, n);
        } else {
            assert(m * n == 0) by (nonlinear_arith)
                requires
                    n == 0,
            ;
        }
        let (row, col) = (at / n, at % n);
        assert(one[row * n + col] == one[at]);
        assert(many[batch * (m * n) + (row * n + col)] == row_of(many, batch, m * n)[at]);
        batch_factors(
            form_of(kind),
            memory[packed.matrix_a.id],
            memory[packed.matrix_b.id],
            own[single.matrix_a.id],
            own[single.matrix_b.id],
            batch,
            m,
            n,
            k,
            row,
            col,
        );
    }
    assert(one =~= row_of(many, batch, m * n));
}

proof fn batch_factors(
    form: ProductForm,
    a: Seq<u32>,
    b: Seq<u32>,
    own_a: Seq<u32>,
    own_b: Seq<u32>,
    batch: int,
    m: int,
    n: int,
    k: int,
    row: int,
    col: int,
)
    requires
        own_a == row_of(a, batch, m * k),
        own_b == row_of(b, batch, k * n),
        0 <= k,
        0 <= row < m,
        0 <= col < n,
    ensures
        left_factors(form, own_a, 0, m, k, row) == left_factors(form, a, batch, m, k, row),
        right_factors(form, own_b, 0, n, k, col) == right_factors(form, b, batch, n, k, col),
{
    assert(n * k == k * n) by (nonlinear_arith);
    factor_places(m, n, k, row, col);
    assert(left_factors(form, own_a, 0, m, k, row) =~= left_factors(form, a, batch, m, k, row));
    assert(right_factors(form, own_b, 0, n, k, col) =~= right_factors(form, b, batch, n, k, col));
}

/// The product with a right operand stored `(n, k)` is, bit for bit, the
/// product with its transpose stored `(k, n)`.
pub proof fn transposed_product_agrees(
    machine: Machine,
    family: Family,
    stream: Stream,
    plain: Product,
    transposed: Product,
    memory: Memory,
    other: Memory,
)
    requires
        tile_ready(family.width),
        product_plan(ProductKind::F32, family, stream, plain).outcome is Ok,
        product_plan(ProductKind::F32TransposedB, family, stream, transposed).outcome is Ok,
        product_apart(plain),
        product_apart(transposed),
        product_held(memory, plain),
        product_held(other, transposed),
        plain.m == transposed.m,
        plain.n == transposed.n,
        plain.k == transposed.k,
        memory[plain.matrix_a.id] == other[transposed.matrix_a.id],
        forall|e: int, col: int|
            #![trigger memory[plain.matrix_b.id][e * plain.n + col]]
            0 <= e < plain.k && 0 <= col < plain.n ==> memory[plain.matrix_b.id][e * plain.n + col]
                == other[transposed.matrix_b.id][col * plain.k + e],
    ensures
        product_plan(ProductKind::F32, family, stream, plain).synchronized().leaves(
            machine,
            memory,
        )[plain.output.id] == product_plan(
            ProductKind::F32TransposedB,
            family,
            stream,
            transposed,
        ).synchronized().leaves(machine, other)[transposed.output.id],
{
    broadcast use crate::machine::group_execution;

    let (m, n, k) = (plain.m as int, plain.n as int, plain.k as int);
    product_leaves(machine, ProductKind::F32, family, stream, plain, memory);
    product_leaves(machine, ProductKind::F32TransposedB, family, stream, transposed, other);
    let one = product_plan(ProductKind::F32, family, stream, plain).leaves(
        machine,
        memory,
    )[plain.output.id];
    let two = product_plan(ProductKind::F32TransposedB, family, stream, transposed).leaves(
        machine,
        other,
    )[transposed.output.id];
    let (f1, f2) = (form_of(ProductKind::F32), form_of(ProductKind::F32TransposedB));
    assert forall|at: int| 0 <= at < one.len() implies one[at] == two[at] by {
        if n > 0 {
            element_place(at, m, n);
        } else {
            assert(m * n == 0) by (nonlinear_arith)
                requires
                    n == 0,
            ;
        }
        let (row, col) = (at / n, at % n);
        assert(one[row * n + col] == one[at]);
        assert(two[row * n + col] == two[at]);
        let (a, b, bt) = (
            memory[plain.matrix_a.id],
            memory[plain.matrix_b.id],
            other[transposed.matrix_b.id],
        );
        assert(left_factors(f1, a, 0, m, k, row) =~= left_factors(f2, a, 0, m, k, row));
        assert forall|e: int| 0 <= e < k implies right_factors(f1, b, 0, n, k, col)[e]
            == right_factors(f2, bt, 0, n, k, col)[e] by {
            assert(b[e * n + col] == bt[col * k + e]);
        }
        assert(right_factors(f1, b, 0, n, k, col) =~= right_factors(f2, bt, 0, n, k, col));
    }
    assert(one =~= two);
}

/// The product of packed bf16 operands is, bit for bit, the `f32` product of
/// the widened operands narrowed once.
pub proof fn bf16_product_is_narrowed(
    machine: Machine,
    transposed_b: bool,
    packed_family: Family,
    wide_family: Family,
    stream: Stream,
    packed: Product,
    wide: Product,
    memory: Memory,
    other: Memory,
)
    requires
        tile_ready(packed_family.width),
        wide_family.width == packed_family.width,
        product_plan(packed_kind(transposed_b), packed_family, stream, packed).outcome is Ok,
        product_plan(batch_kind(transposed_b), wide_family, stream, wide).outcome is Ok,
        product_apart(packed),
        product_apart(wide),
        product_held(memory, packed),
        product_held(other, wide),
        packed.m == wide.m,
        packed.n == wide.n,
        packed.k == wide.k,
        other[wide.matrix_a.id] == widened(memory[packed.matrix_a.id]),
        other[wide.matrix_b.id] == widened(memory[packed.matrix_b.id]),
    ensures
        product_plan(
            packed_kind(transposed_b),
            packed_family,
            stream,
            packed,
        ).synchronized().leaves(machine, memory)[packed.output.id] == narrowed(
            product_plan(
                batch_kind(transposed_b),
                wide_family,
                stream,
                wide,
            ).synchronized().leaves(machine, other)[wide.output.id],
        ),
{
    broadcast use crate::machine::group_execution;

    let (m, n, k) = (packed.m as int, packed.n as int, packed.k as int);
    let (kind, wide_kind) = (packed_kind(transposed_b), batch_kind(transposed_b));
    product_leaves(machine, kind, packed_family, stream, packed, memory);
    product_leaves(machine, wide_kind, wide_family, stream, wide, other);
    let one = product_plan(kind, packed_family, stream, packed).leaves(
        machine,
        memory,
    )[packed.output.id];
    let two = product_plan(wide_kind, wide_family, stream, wide).leaves(
        machine,
        other,
    )[wide.output.id];
    let (f1, f2) = (form_of(kind), form_of(wide_kind));
    let (a, b) = (memory[packed.matrix_a.id], memory[packed.matrix_b.id]);
    let (wa, wb) = (other[wide.matrix_a.id], other[wide.matrix_b.id]);
    assert forall|at: int| 0 <= at < one.len() implies one[at] == narrowed(two)[at] by {
        if n > 0 {
            element_place(at, m, n);
        } else {
            assert(m * n == 0) by (nonlinear_arith)
                requires
                    n == 0,
            ;
        }
        let (row, col) = (at / n, at % n);
        assert(one[row * n + col] == one[at]);
        assert(two[row * n + col] == two[at]);
        factor_places(m, n, k, row, col);
        assert(n * k == k * n) by (nonlinear_arith);
        assert(left_factors(f1, a, 0, m, k, row) =~= left_factors(f2, wa, 0, m, k, row));
        assert(right_factors(f1, b, 0, n, k, col) =~= right_factors(f2, wb, 0, n, k, col));
    }
    assert(one =~= narrowed(two));
}

/// The factors of an element lie inside the operands.
proof fn factor_places(m: int, n: int, k: int, row: int, col: int)
    requires
        0 <= row < m,
        0 <= col < n,
    ensures
        forall|e: int| 0 <= e < k ==> 0 <= #[trigger] (row * k + e) < m * k,
        forall|e: int| 0 <= e < k ==> 0 <= #[trigger] (col * k + e) < k * n,
        forall|e: int| 0 <= e < k ==> 0 <= #[trigger] (e * n + col) < k * n,
{
    assert forall|e: int| 0 <= e < k implies 0 <= #[trigger] (row * k + e) < m * k by {
        assert(0 <= row * k + e < m * k) by (nonlinear_arith)
            requires
                0 <= row < m,
                0 <= e < k,
        ;
    }
    assert forall|e: int| 0 <= e < k implies 0 <= #[trigger] (col * k + e) < k * n by {
        assert(0 <= col * k + e < k * n) by (nonlinear_arith)
            requires
                0 <= col < n,
                0 <= e < k,
        ;
    }
    assert forall|e: int| 0 <= e < k implies 0 <= #[trigger] (e * n + col) < k * n by {
        assert(0 <= e * n + col < k * n) by (nonlinear_arith)
            requires
                0 <= col < n,
                0 <= e < k,
        ;
    }
}

/// The packed-bf16 kind of product.
pub open spec fn packed_kind(transposed_b: bool) -> ProductKind {
    if transposed_b {
        ProductKind::Bf16TransposedB
    } else {
        ProductKind::Bf16
    }
}

} // verus!
