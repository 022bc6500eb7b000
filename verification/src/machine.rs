//! What the kernels do to device memory.
//!
//! A plan says which kernels are launched, on which grids and with which
//! arguments. Here each of the kernels that the laws speak of has an effect on
//! the bit patterns that memory holds. Arithmetic on `f32` bit patterns is
//! whatever the [`Machine`] makes of it; a law that is stated for every machine
//! rests on no property of it.

use crate::arith::ceil_div;
use crate::device::{BufferId, DeviceBuffer, Element, F32};
use crate::launch::{Arguments, Dim3, Kernel, Launch, Pointer, Shape};
use crate::plan::{drained, Action, PlanView, Step};
use vstd::arithmetic::div_mod::{
    lemma_div_pos_is_pos, lemma_fundamental_div_mod, lemma_fundamental_div_mod_converse,
    lemma_multiply_divide_lt,
};
use vstd::arithmetic::mul::lemma_mul_is_commutative;
use vstd::prelude::*;

verus! {

/// Device memory: the bit patterns that each allocation holds. Packed bf16
/// elements are patterns below `0x1_0000`; an element of eight bytes is two
/// patterns, the lower one first.
pub type Memory = Map<BufferId, Seq<u32>>;

/// Memory has an allocation of the buffer's length.
pub open spec fn holds(memory: Memory, buffer: DeviceBuffer) -> bool {
    memory[buffer.id].len() == buffer.len
}

/// The bit pattern of negative infinity.
pub const NEGATIVE_INFINITY: u32 = 0xFF80_0000;

/// A device: its `f32` arithmetic on bit patterns, and what is not modelled of
/// it otherwise.
pub struct Machine {
    pub add: spec_fn(u32, u32) -> u32,
    pub subtract: spec_fn(u32, u32) -> u32,
    pub multiply: spec_fn(u32, u32) -> u32,
    pub divide: spec_fn(u32, u32) -> u32,
    pub maximum: spec_fn(u32, u32) -> u32,
    /// The product of the first two and the third, rounded once.
    pub fused: spec_fn(u32, u32, u32) -> u32,
    /// The product of the first two and the third, contracted or not.
    pub multiply_add: spec_fn(u32, u32, u32) -> u32,
    /// The difference of two products, contracted or not.
    pub products_difference: spec_fn(u32, u32, u32, u32) -> u32,
    /// The sum of two products, contracted or not.
    pub products_sum: spec_fn(u32, u32, u32, u32) -> u32,
    pub exponential: spec_fn(u32) -> u32,
    pub silu: spec_fn(u32) -> u32,
    pub gelu_tanh: spec_fn(u32) -> u32,
    pub inverse_root: spec_fn(u32) -> u32,
    /// The quotient of one by a count.
    pub reciprocal: spec_fn(u64) -> u32,
    /// A layer normalization of rows: what it makes of the input, the number
    /// of rows and columns, the epsilon, the gain and the bias.
    pub layer_normalize: spec_fn(Seq<u32>, usize, usize, F32, F32, F32) -> Seq<u32>,
    /// What freshly allocated memory holds.
    pub fresh: spec_fn(DeviceBuffer, Element) -> Seq<u32>,
    /// What a launch does to memory that is not modelled here, or whose
    /// threads read what others of them write.
    pub other: spec_fn(Launch, Memory) -> Memory,
}

/// The `f32` bit pattern with the same value as a bf16 bit pattern.
pub open spec fn widen(bits: u32) -> u32 {
    bits << 16
}

/// The bf16 bit pattern nearest to an `f32` bit pattern, ties to even; a NaN
/// is made quiet.
pub open spec fn narrow(bits: u32) -> u32 {
    if bits & 0x7FFF_FFFF > 0x7F80_0000 {
        (bits | 0x0040_0000) >> 16
    } else {
        ((bits + 0x7FFF + ((bits >> 16) & 1)) as u32) >> 16
    }
}

/// All elements widened.
pub open spec fn widened(packed: Seq<u32>) -> Seq<u32> {
    Seq::new(packed.len(), |i: int| widen(packed[i]))
}

/// All elements narrowed.
pub open spec fn narrowed(wide: Seq<u32>) -> Seq<u32> {
    Seq::new(wide.len(), |i: int| narrow(wide[i]))
}

/// One row of a row-major matrix.
pub open spec fn row_of(matrix: Seq<u32>, row: int, cols: int) -> Seq<u32> {
    Seq::new(cols as nat, |j: int| matrix[row * cols + j])
}

/// Whether an elementwise launch has a thread for the element.
pub open spec fn reached(shape: Shape, at: int) -> bool {
    match shape {
        Shape::Elements { count, .. } => at < count,
        Shape::Grid { grid, block, .. } => at < grid.x * block.x,
    }
}

/// The pairwise reduction of a block in shared memory: `stride` lanes take in
/// `stride` more, then half as many, until one value is left.
pub open spec fn folded<T>(combine: spec_fn(T, T) -> T, lanes: Seq<T>, stride: nat) -> T
    decreases stride,
{
    if stride == 0 {
        lanes[0]
    } else {
        folded(
            combine,
            Seq::new(stride, |lane: int| combine(lanes[lane], lanes[lane + stride])),
            stride / 2,
        )
    }
}

/// A block's reduction of one value per lane.
pub open spec fn block_fold<T>(combine: spec_fn(T, T) -> T, lanes: Seq<T>) -> T {
    folded(combine, lanes, lanes.len() / 2)
}

/// The chain of fused products of the first `count` pairs, in order, from
/// zero; beyond the operands both factors are zero.
pub open spec fn product_chain(machine: Machine, left: Seq<u32>, right: Seq<u32>, count: nat) -> u32
    decreases count,
{
    if count == 0 {
        0
    } else {
        let at = count - 1;
        let (a, b) = if at < left.len() {
            (left[at], right[at])
        } else {
            (0u32, 0u32)
        };
        (machine.fused)(a, b, product_chain(machine, left, right, at as nat))
    }
}

/// One element of a tiled product: the chain over whole tiles.
pub open spec fn product_element(
    machine: Machine,
    side: int,
    left: Seq<u32>,
    right: Seq<u32>,
) -> u32 {
    product_chain(
        machine,
        left,
        right,
        (ceil_div(left.len() as int, side) * side) as nat,
    )
}

/// How a product reads and writes its operands.
pub struct ProductForm {
    /// The right operand is stored `(n, k)`.
    pub transposed: bool,
    /// Operands and output are packed bf16.
    pub packed: bool,
}

/// How the product kernels read and write, and whether there are batches.
pub open spec fn product_form(kernel: Kernel) -> Option<ProductForm> {
    match kernel {
        Kernel::Gemm | Kernel::GemmBatched => Some(
            ProductForm { transposed: false, packed: false },
        ),
        Kernel::GemmNt | Kernel::GemmNtBatched => Some(
            ProductForm { transposed: true, packed: false },
        ),
        Kernel::Bf16Gemm => Some(ProductForm { transposed: false, packed: true }),
        Kernel::Bf16GemmNt => Some(ProductForm { transposed: true, packed: true }),
        _ => None,
    }
}

/// The left factors of one output element.
pub open spec fn left_factors(
    form: ProductForm,
    matrix: Seq<u32>,
    batch: int,
    m: int,
    k: int,
    row: int,
) -> Seq<u32> {
    Seq::new(
        k as nat,
        |e: int|
            {
                let bits = matrix[batch * (m * k) + (row * k + e)];
                if form.packed {
                    widen(bits)
                } else {
                    bits
                }
            },
    )
}

/// The right factors of one output element.
pub open spec fn right_factors(
    form: ProductForm,
    matrix: Seq<u32>,
    batch: int,
    n: int,
    k: int,
    col: int,
) -> Seq<u32> {
    Seq::new(
        k as nat,
        |e: int|
            {
                let bits = if form.transposed {
                    matrix[batch * (n * k) + (col * k + e)]
                } else {
                    matrix[batch * (k * n) + (e * n + col)]
                };
                if form.packed {
                    widen(bits)
                } else {
                    bits
                }
            },
    )
}

/// What a product leaves in one element of its output.
pub open spec fn product_at(
    machine: Machine,
    form: ProductForm,
    side: int,
    a: Seq<u32>,
    b: Seq<u32>,
    batch: int,
    m: int,
    n: int,
    k: int,
    row: int,
    col: int,
) -> u32 {
    let value = product_element(
        machine,
        side,
        left_factors(form, a, batch, m, k, row),
        right_factors(form, b, batch, n, k, col),
    );
    if form.packed {
        narrow(value)
    } else {
        value
    }
}

/// What a product leaves in its output: every element that a block of the grid
/// holds.
pub open spec fn product_result(
    machine: Machine,
    form: ProductForm,
    grid: Dim3,
    side: int,
    a: Seq<u32>,
    b: Seq<u32>,
    m: int,
    n: int,
    k: int,
    before: Seq<u32>,
) -> Seq<u32> {
    Seq::new(
        before.len(),
        |at: int|
            {
                let batch = at / (m * n);
                let row = (at % (m * n)) / n;
                let col = (at % (m * n)) % n;
                if batch < grid.z && row / side < grid.x && col / side < grid.y {
                    product_at(machine, form, side, a, b, batch, m, n, k, row, col)
                } else {
                    before[at]
                }
            },
    )
}

/// One attended row as the block goes over the keys: the running maximum and
/// sum, and the accumulated values.
pub struct Attended {
    pub maximum: u32,
    pub sum: u32,
    pub values: Seq<u32>,
}

/// The operands of one attended row.
pub struct RowOperands {
    pub query: Seq<u32>,
    pub keys: Seq<Seq<u32>>,
    pub values: Seq<Seq<u32>>,
    pub scale: u32,
    /// Keys from here on are masked.
    pub limit: int,
}

/// The score of a key: masked keys and those that are not there are negative
/// infinity.
pub open spec fn score(machine: Machine, o: RowOperands, key: int) -> u32 {
    if key < o.keys.len() && key < o.limit {
        (machine.multiply)(
            product_chain(machine, o.query, o.keys[key], o.query.len()),
            o.scale,
        )
    } else {
        NEGATIVE_INFINITY
    }
}

/// One accumulated value after the first `count` keys of a chunk.
pub open spec fn accumulated(
    machine: Machine,
    weights: Seq<u32>,
    column: Seq<u32>,
    start: u32,
    count: nat,
) -> u32
    decreases count,
{
    if count == 0 {
        start
    } else {
        (machine.multiply_add)(
            weights[count - 1],
            column[count - 1],
            accumulated(machine, weights, column, start, (count - 1) as nat),
        )
    }
}

/// The scores of a chunk of keys.
pub open spec fn chunk_scores(
    machine: Machine,
    o: RowOperands,
    width: nat,
    base: int,
) -> Seq<u32> {
    Seq::new(width, |lane: int| score(machine, o, base + lane))
}

/// One column of a chunk of values, zero beyond the last key.
pub open spec fn chunk_column(o: RowOperands, width: nat, base: int, column: int) -> Seq<u32> {
    Seq::new(
        width,
        |lane: int|
            if base + lane < o.values.len() {
                o.values[base + lane][column]
            } else {
                0
            },
    )
}

/// The state after the first `chunks` chunks of keys.
pub open spec fn attended(
    machine: Machine,
    o: RowOperands,
    width: nat,
    value_dim: nat,
    chunks: nat,
) -> Attended
    decreases chunks,
{
    if chunks == 0 {
        Attended {
            maximum: NEGATIVE_INFINITY,
            sum: 0,
            values: Seq::new(value_dim, |column: int| 0u32),
        }
    } else {
        let before = attended(machine, o, width, value_dim, (chunks - 1) as nat);
        let base = (chunks - 1) * width;
        let scores = chunk_scores(machine, o, width, base);
        let maximum = (machine.maximum)(before.maximum, block_fold(machine.maximum, scores));
        let rescale = (machine.exponential)((machine.subtract)(before.maximum, maximum));
        let weights = Seq::new(
            width,
            |lane: int| (machine.exponential)((machine.subtract)(scores[lane], maximum)),
        );
        Attended {
            maximum,
            sum: (machine.multiply_add)(before.sum, rescale, block_fold(machine.add, weights)),
            values: Seq::new(
                value_dim,
                |column: int|
                    accumulated(
                        machine,
                        weights,
                        chunk_column(o, width, base, column),
                        (machine.multiply)(before.values[column], rescale),
                        width,
                    ),
            ),
        }
    }
}

/// The fused attention of one query row.
pub open spec fn attention_row(
    machine: Machine,
    o: RowOperands,
    width: nat,
    value_dim: nat,
) -> Seq<u32> {
    let chunks = ceil_div(o.keys.len() as int, width as int) as nat;
    let last = attended(machine, o, width, value_dim, chunks);
    Seq::new(value_dim, |column: int| (machine.divide)(last.values[column], last.sum))
}

/// The dimensions of an attention launch.
pub struct HeadDims {
    pub query_rows: int,
    pub head_dim: int,
    pub kv_rows: int,
    pub value_dim: int,
}

/// The operands of one query row of one head, read from packed heads.
pub open spec fn row_operands(
    packed: bool,
    queries: Seq<u32>,
    keys: Seq<u32>,
    values: Seq<u32>,
    d: HeadDims,
    scale: F32,
    causal: bool,
    head: int,
    row: int,
) -> RowOperands {
    let q = if packed {
        widened(queries)
    } else {
        queries
    };
    let k = if packed {
        widened(keys)
    } else {
        keys
    };
    let v = if packed {
        widened(values)
    } else {
        values
    };
    RowOperands {
        query: row_of(q, head * d.query_rows + row, d.head_dim),
        keys: Seq::new(
            d.kv_rows as nat,
            |key: int| row_of(k, head * d.kv_rows + key, d.head_dim),
        ),
        values: Seq::new(
            d.kv_rows as nat,
            |key: int| row_of(v, head * d.kv_rows + key, d.value_dim),
        ),
        scale: scale.bits,
        limit: if causal {
            row + 1
        } else {
            d.kv_rows
        },
    }
}

/// What a fused attention leaves in its output: one row for each block.
pub open spec fn attention_result(
    machine: Machine,
    packed: bool,
    blocks: int,
    width: nat,
    queries: Seq<u32>,
    keys: Seq<u32>,
    values: Seq<u32>,
    d: HeadDims,
    scale: F32,
    causal: bool,
    before: Seq<u32>,
) -> Seq<u32> {
    Seq::new(
        before.len(),
        |at: int|
            {
                let block = at / d.value_dim;
                let o = row_operands(
                    packed,
                    queries,
                    keys,
                    values,
                    d,
                    scale,
                    causal,
                    block / d.query_rows,
                    block % d.query_rows,
                );
                let value = attention_row(machine, o, width, d.value_dim as nat)[at % d.value_dim];
                if block >= blocks {
                    before[at]
                } else if packed {
                    narrow(value)
                } else {
                    value
                }
            },
    )
}

/// What one lane makes of the two elements that a reduction pass hands it.
pub open spec fn lane_value(
    combine: spec_fn(u32, u32) -> u32,
    identity: u32,
    input: Seq<u32>,
    elements: int,
    first: int,
    second: int,
) -> u32 {
    let value = if first < elements {
        input[first]
    } else {
        identity
    };
    if second < elements {
        combine(value, input[second])
    } else {
        value
    }
}

/// The partial that one block of a reduction pass leaves.
pub open spec fn partial(
    combine: spec_fn(u32, u32) -> u32,
    identity: u32,
    width: nat,
    input: Seq<u32>,
    elements: int,
    block: int,
) -> u32 {
    block_fold(
        combine,
        Seq::new(
            width,
            |lane: int|
                lane_value(
                    combine,
                    identity,
                    input,
                    elements,
                    block * (2 * width) + lane,
                    block * (2 * width) + lane + width,
                ),
        ),
    )
}

/// What a lane makes of its elements of a row: those `width` apart, in order.
pub open spec fn strided(
    take: spec_fn(u32, u32) -> u32,
    identity: u32,
    row: Seq<u32>,
    width: nat,
    lane: nat,
    count: nat,
) -> u32
    decreases count,
{
    if count == 0 {
        identity
    } else {
        let at = lane + (count - 1) * width;
        let before = strided(take, identity, row, width, lane, (count - 1) as nat);
        if at < row.len() {
            take(before, row[at])
        } else {
            before
        }
    }
}

/// The reduction of a row by one block.
pub open spec fn row_fold(
    take: spec_fn(u32, u32) -> u32,
    combine: spec_fn(u32, u32) -> u32,
    identity: u32,
    row: Seq<u32>,
    width: nat,
) -> u32 {
    block_fold(
        combine,
        Seq::new(
            width,
            |lane: int| strided(take, identity, row, width, lane as nat, row.len()),
        ),
    )
}

/// The largest element of a row.
pub open spec fn row_maximum(machine: Machine, row: Seq<u32>, width: nat) -> u32 {
    row_fold(machine.maximum, machine.maximum, NEGATIVE_INFINITY, row, width)
}

/// The sum of a row.
pub open spec fn row_sum(machine: Machine, row: Seq<u32>, width: nat) -> u32 {
    row_fold(machine.add, machine.add, 0, row, width)
}

/// The sum of the squares of a row.
pub open spec fn row_squares(machine: Machine, row: Seq<u32>, width: nat) -> u32 {
    row_fold(
        |sum: u32, value: u32| (machine.multiply_add)(value, value, sum),
        machine.add,
        0,
        row,
        width,
    )
}

/// A row shifted by its maximum and exponentiated.
pub open spec fn row_exponentials(machine: Machine, row: Seq<u32>, maximum: u32) -> Seq<u32> {
    Seq::new(
        row.len(),
        |j: int| (machine.exponential)((machine.subtract)(row[j], maximum)),
    )
}

/// The softmax of a row.
pub open spec fn softmax_row(machine: Machine, row: Seq<u32>, width: nat) -> Seq<u32> {
    let exponentials = row_exponentials(machine, row, row_maximum(machine, row, width));
    Seq::new(
        row.len(),
        |j: int| (machine.divide)(exponentials[j], row_sum(machine, exponentials, width)),
    )
}

/// The RMS normalization of one element of a row, from the sum of squares.
pub open spec fn rms_element(
    machine: Machine,
    value: u32,
    squares: u32,
    cols: u64,
    epsilon: F32,
    gamma: F32,
) -> u32 {
    let scale = (machine.inverse_root)(
        (machine.multiply_add)(squares, (machine.reciprocal)(cols), epsilon.bits),
    );
    (machine.multiply)((machine.multiply)(value, scale), gamma.bits)
}

/// Whether a bit pattern is a NaN.
pub open spec fn is_nan(bits: u32) -> bool {
    bits & 0x7FFF_FFFF > 0x7F80_0000
}

/// The place of a bit pattern that is no NaN in the order of the values.
pub open spec fn rank(bits: u32) -> int {
    if bits >= 0x8000_0000 {
        0x8000_0000 - bits
    } else {
        bits as int
    }
}

/// A value and where it was found.
pub struct Found {
    pub value: u32,
    pub index: u32,
}

/// Whether a scan prefers the candidate: the larger value, and the lower index
/// where the values are equal. A NaN is never preferred, nor anything to it.
pub open spec fn preferred(candidate: Found, held: Found) -> bool {
    &&& !is_nan(candidate.value)
    &&& !is_nan(held.value)
    &&& rank(candidate.value) > rank(held.value) || rank(candidate.value) == rank(held.value)
        && candidate.index < held.index
}

/// The better of what is held and a candidate.
pub open spec fn better(held: Found, candidate: Found) -> Found {
    if preferred(candidate, held) {
        candidate
    } else {
        held
    }
}

/// What a lane holds that has been handed nothing.
pub open spec fn nothing_found() -> Found {
    Found { value: NEGATIVE_INFINITY, index: u32::MAX }
}

/// The winner that one block of a scan leaves.
pub open spec fn winner(
    width: nat,
    entries: Seq<Found>,
    elements: int,
    block: int,
) -> Found {
    block_fold(
        |held: Found, candidate: Found| better(held, candidate),
        Seq::new(
            width,
            |lane: int| lane_winner(entries, elements, block * (2 * width) + lane, width),
        ),
    )
}

/// What one lane makes of the two entries that a scan hands it.
pub open spec fn lane_winner(
    entries: Seq<Found>,
    elements: int,
    first: int,
    width: nat,
) -> Found {
    let held = if first < elements {
        entries[first]
    } else {
        nothing_found()
    };
    if first + width < elements {
        better(held, entries[first + width])
    } else {
        held
    }
}

/// The better of what is held and a candidate that was found anywhere.
pub open spec fn better_token(held: Found, candidate: Found) -> Found {
    if candidate.index != u32::MAX && preferred(candidate, held) {
        candidate
    } else {
        held
    }
}

/// The winner among the lanes of a block.
pub open spec fn token_winner(lanes: Seq<Found>) -> Found {
    block_fold(|held: Found, candidate: Found| better_token(held, candidate), lanes)
}

/// The winner among the entries of a lane: those `width` apart, in order.
pub open spec fn strided_winner(entries: Seq<Found>, width: nat, lane: nat, count: nat) -> Found
    decreases count,
{
    if count == 0 {
        nothing_found()
    } else {
        let at = lane + (count - 1) * width;
        let before = strided_winner(entries, width, lane, (count - 1) as nat);
        if at < entries.len() {
            better_token(before, entries[at])
        } else {
            before
        }
    }
}

/// One column of a row-major matrix.
pub open spec fn column_of(matrix: Seq<u32>, rows: int, cols: int, column: int) -> Seq<u32> {
    Seq::new(rows as nat, |row: int| matrix[row * cols + column])
}

/// The score of a token: the chain of the input and the token's column.
pub open spec fn token_score(
    machine: Machine,
    input: Seq<u32>,
    weight: Seq<u32>,
    k: int,
    vocab: int,
    token: int,
) -> u32 {
    product_chain(machine, input, column_of(weight, k, vocab, token), k as nat)
}

/// What a lane holds of its token.
pub open spec fn token_found(
    machine: Machine,
    input: Seq<u32>,
    weight: Seq<u32>,
    k: int,
    vocab: int,
    token: int,
) -> Found {
    if token < vocab {
        Found { value: token_score(machine, input, weight, k, vocab, token), index: token as u32 }
    } else {
        nothing_found()
    }
}

/// What a lane makes of its products of a row and a vector: those `width`
/// apart, in order.
pub open spec fn strided_products(
    machine: Machine,
    row: Seq<u32>,
    vector: Seq<u32>,
    width: nat,
    lane: nat,
    count: nat,
) -> u32
    decreases count,
{
    if count == 0 {
        0
    } else {
        let at = lane + (count - 1) * width;
        let before = strided_products(machine, row, vector, width, lane, (count - 1) as nat);
        if at < row.len() {
            (machine.fused)(row[at], vector[at], before)
        } else {
            before
        }
    }
}

/// The product of a row and a vector by one block.
pub open spec fn dot_row(machine: Machine, row: Seq<u32>, vector: Seq<u32>, width: nat) -> u32 {
    block_fold(
        machine.add,
        Seq::new(
            width,
            |lane: int|
                strided_products(machine, row, vector, width, lane as nat, row.len()),
        ),
    )
}

/// The bit pattern of the ternary weight that a two-bit code stands for: one,
/// minus one, or zero.
pub open spec fn ternary(code: u32) -> u32 {
    if code == 1 {
        0x3F80_0000
    } else if code == 2 {
        0xBF80_0000
    } else {
        0
    }
}

/// One column of a matrix of two-bit codes, four to a byte.
pub open spec fn ternary_column(
    machine: Machine,
    packed: Seq<u32>,
    scale: u32,
    k: int,
    n: int,
    column: int,
) -> Seq<u32> {
    Seq::new(
        k as nat,
        |row: int|
            {
                let flat = row * n + column;
                let code = (packed[flat / 4] >> ((2 * (flat % 4)) as u32)) & 3;
                (machine.multiply)(ternary(code), scale)
            },
    )
}

/// An element of eight bytes.
pub open spec fn long_at(patterns: Seq<u32>, at: int) -> int {
    patterns[2 * at] + 0x1_0000_0000 * patterns[2 * at + 1]
}

/// The chain of fused products over retained weights in stored order, starting
/// from zero.
pub open spec fn retained_chain(
    machine: Machine,
    input: Seq<u32>,
    row_indices: Seq<u32>,
    values: Seq<u32>,
    begin: int,
    count: nat,
) -> u32
    decreases count,
{
    if count == 0 {
        0
    } else {
        let at = begin + count - 1;
        (machine.fused)(
            input[row_indices[at] as int],
            values[at],
            retained_chain(machine, input, row_indices, values, begin, (count - 1) as nat),
        )
    }
}

/// The bit pattern that stands in for a column with malformed entries.
pub const MALFORMED: u32 = 0x7FFF_FFFF;

/// One column of a sparse projection.
pub open spec fn sparse_column(
    machine: Machine,
    input: Seq<u32>,
    column_offsets: Seq<u32>,
    row_indices: Seq<u32>,
    values: Seq<u32>,
    k: int,
    retained: int,
    column: int,
) -> u32 {
    let begin = long_at(column_offsets, column);
    let end = long_at(column_offsets, column + 1);
    if begin > end || end > retained {
        MALFORMED
    } else if exists|at: int| begin <= at < end && #[trigger] row_indices[at] >= k {
        MALFORMED
    } else {
        retained_chain(machine, input, row_indices, values, begin, (end - begin) as nat)
    }
}

/// The pair that an element belongs to, and where the pair's two elements are:
/// adjacent, or half a row apart.
pub open spec fn rotation_pair(kernel: Kernel, half: int, at: int) -> (int, int, int) {
    let row = at / (2 * half);
    let column = at % (2 * half);
    let base = row * (2 * half);
    if kernel == Kernel::RopeInterleaved {
        (row * half + column / 2, base + 2 * (column / 2), base + 2 * (column / 2) + 1)
    } else {
        (row * half + column % half, base + column % half, base + half + column % half)
    }
}

/// One rotated element.
pub open spec fn rotated(
    machine: Machine,
    kernel: Kernel,
    half: int,
    input: Seq<u32>,
    cos: Seq<u32>,
    sin: Seq<u32>,
    at: int,
) -> u32 {
    let (pair, first, second) = rotation_pair(kernel, half, at);
    if at == first {
        (machine.products_difference)(input[first], cos[pair], input[second], sin[pair])
    } else {
        (machine.products_sum)(input[second], cos[pair], input[first], sin[pair])
    }
}

/// The first element that a pointer to four-byte elements addresses.
pub open spec fn offset(place: Pointer) -> int {
    place.byte_offset as int / 4
}

/// Memory with the elements of one allocation replaced from `start` on.
pub open spec fn written(
    memory: Memory,
    buffer: BufferId,
    start: int,
    values: Seq<u32>,
) -> Memory {
    memory.insert(
        buffer,
        Seq::new(
            memory[buffer].len(),
            |at: int|
                if start <= at < start + values.len() {
                    values[at - start]
                } else {
                    memory[buffer][at]
                },
        ),
    )
}

/// Memory with every element of one allocation replaced that `write` has.
pub open spec fn mapped(
    memory: Memory,
    buffer: BufferId,
    write: spec_fn(int) -> bool,
    value: spec_fn(int) -> u32,
) -> Memory {
    memory.insert(
        buffer,
        Seq::new(
            memory[buffer].len(),
            |at: int|
                if write(at) {
                    value(at)
                } else {
                    memory[buffer][at]
                },
        ),
    )
}

/// The number of lanes of a block.
pub open spec fn lanes(shape: Shape) -> nat {
    match shape {
        Shape::Grid { block, .. } => block.x as nat,
        Shape::Elements { block_size, .. } => block_size as nat,
    }
}

/// The number of blocks along a line.
pub open spec fn blocks(shape: Shape) -> int {
    match shape {
        Shape::Grid { grid, .. } => grid.x as int,
        Shape::Elements { .. } => 0,
    }
}

/// A kernel that writes one element for each of its input.
pub open spec fn unary_effect(
    machine: Machine,
    launch: Launch,
    memory: Memory,
    input: BufferId,
    output: BufferId,
    count: u64,
) -> Memory {
    let source = memory[input];
    let width = lanes(launch.shape);
    let cols = count as int;
    match launch.kernel {
        Kernel::Bf16Widen => mapped(
            memory,
            output,
            |at: int| at < count && reached(launch.shape, at),
            |at: int| widen(source[at]),
        ),
        Kernel::Bf16Narrow => mapped(
            memory,
            output,
            |at: int| at < count && reached(launch.shape, at),
            |at: int| narrow(source[at]),
        ),
        Kernel::TopKFill => mapped(
            memory,
            output,
            |at: int| at < count && reached(launch.shape, at),
            |at: int| source[at],
        ),
        Kernel::Bf16Relu => mapped(
            memory,
            output,
            |at: int| at < count && reached(launch.shape, at),
            |at: int| narrow((machine.maximum)(widen(source[at]), 0)),
        ),
        Kernel::Bf16Silu => mapped(
            memory,
            output,
            |at: int| at < count && reached(launch.shape, at),
            |at: int| narrow((machine.silu)(widen(source[at]))),
        ),
        Kernel::Bf16GeluTanh => mapped(
            memory,
            output,
            |at: int| at < count && reached(launch.shape, at),
            |at: int| narrow((machine.gelu_tanh)(widen(source[at]))),
        ),
        Kernel::ReduceSum => mapped(
            memory,
            output,
            |at: int| at < blocks(launch.shape),
            |at: int| partial(machine.add, 0, width, source, cols, at),
        ),
        Kernel::Bf16ReduceSum => mapped(
            memory,
            output,
            |at: int| at < blocks(launch.shape),
            |at: int| partial(machine.add, 0, width, widened(source), cols, at),
        ),
        Kernel::ReduceMax => mapped(
            memory,
            output,
            |at: int| at < blocks(launch.shape),
            |at: int|
                partial(
                    machine.maximum,
                    NEGATIVE_INFINITY,
                    width,
                    source,
                    cols,
                    at,
                ),
        ),
        Kernel::Bf16ReduceMax => mapped(
            memory,
            output,
            |at: int| at < blocks(launch.shape),
            |at: int|
                partial(
                    machine.maximum,
                    NEGATIVE_INFINITY,
                    width,
                    widened(source),
                    cols,
                    at,
                ),
        ),
        Kernel::SoftmaxRowMax => mapped(
            memory,
            output,
            |at: int| at < blocks(launch.shape),
            |at: int| row_maximum(machine, row_of(source, at, cols), width),
        ),
        Kernel::SoftmaxRowSum => mapped(
            memory,
            output,
            |at: int| at < blocks(launch.shape),
            |at: int| row_sum(machine, row_of(source, at, cols), width),
        ),
        Kernel::RmsNormRowSumSq => mapped(
            memory,
            output,
            |at: int| at < blocks(launch.shape),
            |at: int| row_squares(machine, row_of(source, at, cols), width),
        ),
        Kernel::SoftmaxRowFused => mapped(
            memory,
            output,
            |at: int| at / cols < blocks(launch.shape),
            |at: int| softmax_row(machine, row_of(source, at / cols, cols), width)[at % cols],
        ),
        _ => (machine.other)(launch, memory),
    }
}

/// Whether the blocks of a kernel with one input read only what they
/// themselves write, so that it may work in place.
pub open spec fn works_in_place(kernel: Kernel) -> bool {
    kernel == Kernel::SoftmaxRowFused || kernel == Kernel::Bf16Relu || kernel == Kernel::Bf16Silu
        || kernel == Kernel::Bf16GeluTanh
}

/// What a launch does to memory.
pub open spec fn launch_effect(machine: Machine, launch: Launch, memory: Memory) -> Memory {
    let kernel = launch.kernel;
    let shape = launch.shape;
    match launch.arguments {
        Arguments::Unary { input, output, count } => if input == output && !works_in_place(kernel) {
            (machine.other)(launch, memory)
        } else {
            unary_effect(machine, launch, memory, input, output, count)
        },
        Arguments::Binary { left, right, output, count } => match kernel {
            Kernel::VectorAdd => mapped(
                memory,
                output,
                |at: int| at < count && reached(shape, at),
                |at: int| (machine.add)(memory[left][at], memory[right][at]),
            ),
            Kernel::Bf16VectorAdd => mapped(
                memory,
                output,
                |at: int| at < count && reached(shape, at),
                |at: int| narrow((machine.add)(widen(memory[left][at]), widen(memory[right][at]))),
            ),
            _ => (machine.other)(launch, memory),
        },
        Arguments::Scale { input, output, scale, count } => match kernel {
            Kernel::Scale => mapped(
                memory,
                output,
                |at: int| at < count && reached(shape, at),
                |at: int| (machine.multiply)(memory[input][at], scale.bits),
            ),
            Kernel::Bf16Scale => mapped(
                memory,
                output,
                |at: int| at < count && reached(shape, at),
                |at: int| narrow((machine.multiply)(widen(memory[input][at]), scale.bits)),
            ),
            _ => (machine.other)(launch, memory),
        },
        Arguments::Affine { input, output, scale, bias, count } => match kernel {
            Kernel::Affine => mapped(
                memory,
                output,
                |at: int| at < count && reached(shape, at),
                |at: int| (machine.fused)(memory[input][at], scale.bits, bias.bits),
            ),
            Kernel::Bf16Affine => mapped(
                memory,
                output,
                |at: int| at < count && reached(shape, at),
                |at: int| narrow((machine.fused)(widen(memory[input][at]), scale.bits, bias.bits)),
            ),
            _ => (machine.other)(launch, memory),
        },
        Arguments::ExpShift { input, output, maximum, count } => if kernel
            == Kernel::SoftmaxExpShift && maximum != output {
            mapped(
                memory,
                output,
                |at: int| at < count && reached(shape, at),
                |at: int|
                    (machine.exponential)(
                        (machine.subtract)(memory[input][at], memory[maximum][0]),
                    ),
            )
        } else {
            (machine.other)(launch, memory)
        },
        Arguments::Divide { data, total, count } => if kernel == Kernel::SoftmaxNormalize && total
            != data {
            mapped(
                memory,
                data,
                |at: int| at < count && reached(shape, at),
                |at: int| (machine.divide)(memory[data][at], memory[total][0]),
            )
        } else {
            (machine.other)(launch, memory)
        },
        Arguments::MatrixVector { matrix, vector, output, cols } => if kernel == Kernel::Gemv
            && output != matrix && output != vector {
            mapped(
                memory,
                output,
                |at: int| at < blocks(shape),
                |at: int|
                    dot_row(
                        machine,
                        row_of(memory[matrix], at, cols as int),
                        memory[vector],
                        lanes(shape),
                    ),
            )
        } else {
            (machine.other)(launch, memory)
        },
        Arguments::Project { input, weight, output, k, n } => if kernel == Kernel::ProjectBf16
            && output != input && output != weight {
            mapped(
                memory,
                output,
                |at: int| at < n && reached(shape, at),
                |at: int|
                    product_chain(
                        machine,
                        memory[input],
                        column_of(widened(memory[weight]), k as int, n as int, at),
                        k as nat,
                    ),
            )
        } else {
            (machine.other)(launch, memory)
        },
        Arguments::ProjectInt2 { input, packed_weight, weight_scale, output, k, n } => if kernel
            == Kernel::ProjectInt2 && output != input && output != packed_weight && output
            != weight_scale {
            mapped(
                memory,
                output,
                |at: int| at < n && reached(shape, at),
                |at: int|
                    product_chain(
                        machine,
                        memory[input],
                        ternary_column(
                            machine,
                            memory[packed_weight],
                            memory[weight_scale][0],
                            k as int,
                            n as int,
                            at,
                        ),
                        k as nat,
                    ),
            )
        } else {
            (machine.other)(launch, memory)
        },
        Arguments::ProjectSparseCsc {
            input,
            column_offsets,
            row_indices,
            values,
            output,
            k,
            n,
            nnz,
        } => if kernel == Kernel::ProjectSparseCsc && output != input && output != column_offsets
            && output != row_indices && output != values {
            mapped(
                memory,
                output,
                |at: int| at < n && reached(shape, at),
                |at: int|
                    sparse_column(
                        machine,
                        memory[input],
                        memory[column_offsets],
                        memory[row_indices],
                        memory[values],
                        k as int,
                        nnz as int,
                        at,
                    ),
            )
        } else {
            (machine.other)(launch, memory)
        },
        Arguments::Rope { input, cos, sin, output, rows, half } => if (kernel
            == Kernel::RopeInterleaved || kernel == Kernel::RopeRotateHalf) && output != cos
            && output != sin {
            mapped(
                memory,
                output,
                |at: int|
                    at < rows * (2 * half) && reached(
                        shape,
                        rotation_pair(kernel, half as int, at).0,
                    ),
                |at: int|
                    rotated(
                        machine,
                        kernel,
                        half as int,
                        memory[input],
                        memory[cos],
                        memory[sin],
                        at,
                    ),
            )
        } else {
            (machine.other)(launch, memory)
        },
        Arguments::Candidates { input, weight, values, indices, k, vocab } => if kernel
            == Kernel::LmHeadCandidates && values != indices && values != input && values != weight
            && indices != input && indices != weight {
            let winners = Seq::new(
                blocks(shape) as nat,
                |block: int|
                    token_winner(
                        Seq::new(
                            lanes(shape),
                            |lane: int|
                                token_found(
                                    machine,
                                    memory[input],
                                    memory[weight],
                                    k as int,
                                    vocab as int,
                                    block * lanes(shape) + lane,
                                ),
                        ),
                    ),
            );
            written(
                written(memory, values, 0, winners.map_values(|found: Found| found.value)),
                indices,
                0,
                winners.map_values(|found: Found| found.index),
            )
        } else {
            (machine.other)(launch, memory)
        },
        Arguments::ReduceCandidates {
            values,
            indices,
            output_value,
            output_index,
            count,
        } => if kernel == Kernel::LmHeadReduce && output_value != output_index
            && output_value != values && output_value != indices && output_index != values
            && output_index != indices {
            let entries = Seq::new(
                count as nat,
                |at: int| Found { value: memory[values][at], index: memory[indices][at] },
            );
            let best = token_winner(
                Seq::new(
                    lanes(shape),
                    |lane: int| strided_winner(entries, lanes(shape), lane as nat, entries.len()),
                ),
            );
            written(
                written(memory, output_value, 0, seq![best.value]),
                output_index,
                0,
                seq![best.index],
            )
        } else {
            (machine.other)(launch, memory)
        },
        Arguments::ScaleCausal { scores, output, query_rows, kv_rows, scale } => if kernel
            == Kernel::AttentionScaleCausal {
            mapped(
                memory,
                output,
                |at: int| at < query_rows * kv_rows && reached(shape, at),
                |at: int|
                    if at % (kv_rows as int) > at / (kv_rows as int) {
                        NEGATIVE_INFINITY
                    } else {
                        (machine.multiply)(memory[scores][at], scale.bits)
                    },
            )
        } else {
            (machine.other)(launch, memory)
        },
        Arguments::MultiheadScaleCausal {
            scores,
            output,
            elements,
            query_rows,
            kv_rows,
            scale,
        } => if kernel == Kernel::AttentionScaleCausalMultihead {
            mapped(
                memory,
                output,
                |at: int| at < elements && reached(shape, at),
                |at: int|
                    if at % (kv_rows as int) > (at / (kv_rows as int)) % (query_rows as int) {
                        NEGATIVE_INFINITY
                    } else {
                        (machine.multiply)(memory[scores][at], scale.bits)
                    },
            )
        } else {
            (machine.other)(launch, memory)
        },
        Arguments::RowExpShift { input, output, row_max, rows, cols } => if kernel
            == Kernel::SoftmaxRowExpShift && row_max != output {
            mapped(
                memory,
                output,
                |at: int| at < rows * cols && reached(shape, at),
                |at: int|
                    (machine.exponential)(
                        (machine.subtract)(memory[input][at], memory[row_max][at / (cols as int)]),
                    ),
            )
        } else {
            (machine.other)(launch, memory)
        },
        Arguments::RowDivide { data, row_total, rows, cols } => if kernel
            == Kernel::SoftmaxRowNormalize && row_total != data {
            mapped(
                memory,
                data,
                |at: int| at < rows * cols && reached(shape, at),
                |at: int|
                    (machine.divide)(memory[data][at], memory[row_total][at / (cols as int)]),
            )
        } else {
            (machine.other)(launch, memory)
        },
        Arguments::RmsNormalize {
            input,
            output,
            row_sumsq,
            rows,
            cols,
            epsilon,
            gamma,
        } => if kernel == Kernel::RmsNormNormalize && row_sumsq != output {
            mapped(
                memory,
                output,
                |at: int| at < rows * cols && reached(shape, at),
                |at: int|
                    rms_element(
                        machine,
                        memory[input][at],
                        memory[row_sumsq][at / (cols as int)],
                        cols,
                        epsilon,
                        gamma,
                    ),
            )
        } else {
            (machine.other)(launch, memory)
        },
        Arguments::RmsFused { input, output, cols, epsilon, gamma } => if kernel
            == Kernel::RmsNormRowFused {
            mapped(
                memory,
                output,
                |at: int| at / (cols as int) < blocks(shape),
                |at: int|
                    rms_element(
                        machine,
                        memory[input][at],
                        row_squares(
                            machine,
                            row_of(memory[input], at / (cols as int), cols as int),
                            lanes(shape),
                        ),
                        cols,
                        epsilon,
                        gamma,
                    ),
            )
        } else {
            (machine.other)(launch, memory)
        },
        Arguments::Product { matrix_a, matrix_b, output, m, n, k } => product_effect(
            machine,
            launch,
            memory,
            matrix_a,
            matrix_b,
            output,
            m as int,
            n as int,
            k as int,
        ),
        Arguments::BatchedProduct {
            matrix_a,
            matrix_b,
            output,
            batches: _,
            m,
            n,
            k,
        } => product_effect(
            machine,
            launch,
            memory,
            matrix_a,
            matrix_b,
            output,
            m as int,
            n as int,
            k as int,
        ),
        Arguments::Attention {
            queries,
            keys,
            values,
            output,
            query_rows,
            head_dim,
            kv_rows,
            value_dim,
            scale,
            causal,
        } => attention_effect(
            machine,
            launch,
            memory,
            queries,
            keys,
            values,
            output,
            HeadDims {
                query_rows: query_rows as int,
                head_dim: head_dim as int,
                kv_rows: kv_rows as int,
                value_dim: value_dim as int,
            },
            scale,
            causal != 0,
        ),
        Arguments::MultiheadAttention {
            queries,
            keys,
            values,
            output,
            heads: _,
            query_rows,
            head_dim,
            kv_rows,
            value_dim,
            scale,
            causal,
        } => attention_effect(
            machine,
            launch,
            memory,
            queries,
            keys,
            values,
            output,
            HeadDims {
                query_rows: query_rows as int,
                head_dim: head_dim as int,
                kv_rows: kv_rows as int,
                value_dim: value_dim as int,
            },
            scale,
            causal != 0,
        ),
        Arguments::ScanFirst { source_values, output_values, output_indices, count } => if kernel
            == Kernel::TopKArgmaxFirst {
            let source = memory[source_values.buffer];
            let start = offset(source_values);
            scan_effect(
                machine,
                launch,
                memory,
                Seq::new(
                    count as nat,
                    |at: int| Found { value: source[start + at], index: at as u32 },
                ),
                source_values.buffer,
                source_values.buffer,
                output_values,
                output_indices,
            )
        } else {
            (machine.other)(launch, memory)
        },
        Arguments::ScanPair {
            source_values,
            source_indices,
            output_values,
            output_indices,
            count,
        } => if kernel == Kernel::TopKArgmaxPair {
            let values = memory[source_values.buffer];
            let indices = memory[source_indices.buffer];
            scan_effect(
                machine,
                launch,
                memory,
                Seq::new(
                    count as nat,
                    |at: int|
                        Found {
                            value: values[offset(source_values) + at],
                            index: indices[offset(source_indices) + at],
                        },
                ),
                source_values.buffer,
                source_indices.buffer,
                output_values,
                output_indices,
            )
        } else {
            (machine.other)(launch, memory)
        },
        Arguments::Mask { data, slot, indices } => if kernel == Kernel::TopKMask {
            written(
                memory,
                data,
                memory[indices][slot as int] as int,
                seq![NEGATIVE_INFINITY],
            )
        } else {
            (machine.other)(launch, memory)
        },
        _ => (machine.other)(launch, memory),
    }
}

/// What a tiled product does to memory.
pub open spec fn product_effect(
    machine: Machine,
    launch: Launch,
    memory: Memory,
    matrix_a: BufferId,
    matrix_b: BufferId,
    output: BufferId,
    m: int,
    n: int,
    k: int,
) -> Memory {
    match (product_form(launch.kernel), launch.shape) {
        (Some(form), Shape::Grid { grid, block, .. }) => if output == matrix_a || output
            == matrix_b {
            (machine.other)(launch, memory)
        } else {
            memory.insert(
                output,
                product_result(
                    machine,
                    form,
                    grid,
                    block.x as int,
                    memory[matrix_a],
                    memory[matrix_b],
                    m,
                    n,
                    k,
                    memory[output],
                ),
            )
        },
        _ => (machine.other)(launch, memory),
    }
}

/// Whether an attention kernel works on packed bf16.
pub open spec fn attention_packed(kernel: Kernel) -> Option<bool> {
    match kernel {
        Kernel::AttentionFused | Kernel::AttentionFusedMultihead => Some(false),
        Kernel::Bf16AttentionFused | Kernel::Bf16AttentionFusedMultihead => Some(true),
        _ => None,
    }
}

/// What a fused attention does to memory. The kernels count keys in 32 bits.
pub open spec fn attention_effect(
    machine: Machine,
    launch: Launch,
    memory: Memory,
    queries: BufferId,
    keys: BufferId,
    values: BufferId,
    output: BufferId,
    d: HeadDims,
    scale: F32,
    causal: bool,
) -> Memory {
    match attention_packed(launch.kernel) {
        Some(packed) => if output == queries || output == keys || output == values || d.kv_rows
            > u32::MAX {
            (machine.other)(launch, memory)
        } else {
            memory.insert(
                output,
                attention_result(
                    machine,
                    packed,
                    blocks(launch.shape),
                    lanes(launch.shape),
                    memory[queries],
                    memory[keys],
                    memory[values],
                    d,
                    scale,
                    causal,
                    memory[output],
                ),
            )
        },
        None => (machine.other)(launch, memory),
    }
}

/// What a scan does to memory: one winner for each block.
pub open spec fn scan_effect(
    machine: Machine,
    launch: Launch,
    memory: Memory,
    entries: Seq<Found>,
    source_values: BufferId,
    source_indices: BufferId,
    output_values: Pointer,
    output_indices: Pointer,
) -> Memory {
    let (values, indices) = (output_values.buffer, output_indices.buffer);
    let winners = Seq::new(
        blocks(launch.shape) as nat,
        |block: int| winner(lanes(launch.shape), entries, entries.len() as int, block),
    );
    if values == indices || values == source_values || values == source_indices || indices
        == source_values || indices == source_indices {
        (machine.other)(launch, memory)
    } else {
        written(
            written(
                memory,
                values,
                offset(output_values),
                winners.map_values(|found: Found| found.value),
            ),
            indices,
            offset(output_indices),
            winners.map_values(|found: Found| found.index),
        )
    }
}

/// The dynamic shared memory that a block of the launch lays out, in bytes: one
/// value or one value and index per lane, two tiles, or a row and its lanes.
pub open spec fn shared_layout(launch: Launch) -> int {
    let lanes = lanes(launch.shape) as int;
    match launch.kernel {
        Kernel::ReduceSum
        | Kernel::ReduceMax
        | Kernel::Bf16ReduceSum
        | Kernel::Bf16ReduceMax
        | Kernel::SoftmaxRowMax
        | Kernel::SoftmaxRowSum
        | Kernel::RmsNormRowSumSq
        | Kernel::Gemv => lanes * 4,
        Kernel::TopKArgmaxFirst
        | Kernel::TopKArgmaxPair
        | Kernel::LmHeadCandidates
        | Kernel::LmHeadReduce => lanes * 8,
        Kernel::Gemm
        | Kernel::GemmNt
        | Kernel::GemmBatched
        | Kernel::GemmNtBatched
        | Kernel::Bf16Gemm
        | Kernel::Bf16GemmNt => lanes * lanes * 8,
        _ => match launch.arguments {
            Arguments::Unary { count, .. } => if launch.kernel == Kernel::SoftmaxRowFused {
                4 * count + 4 * lanes
            } else {
                0
            },
            Arguments::RmsFused { cols, .. } => 4 * cols + 4 * lanes,
            Arguments::Attention { head_dim, value_dim, .. } => head_layout(
                lanes,
                head_dim as int,
                value_dim as int,
            ),
            Arguments::MultiheadAttention { head_dim, value_dim, .. } => head_layout(
                lanes,
                head_dim as int,
                value_dim as int,
            ),
            _ => 0,
        },
    }
}

/// The bytes of a chunk of keys and one of values, of a score and a weight per
/// lane, and of a query and an output row.
pub open spec fn head_layout(lanes: int, head_dim: int, value_dim: int) -> int {
    (lanes * head_dim + lanes * value_dim + lanes * 2 + head_dim + value_dim) * 4
}

/// Whether the launch is laid out as its kernel expects: blocks are lines, or
/// square tiles for products, and have the shared memory that they use.
pub open spec fn laid_out(launch: Launch) -> bool {
    match launch.shape {
        Shape::Elements { .. } => shared_layout(launch) == 0,
        Shape::Grid { grid, block, shared_memory_bytes } => {
            &&& shared_memory_bytes == shared_layout(launch) as u32
            &&& block.z == 1
            &&& if product_form(launch.kernel) is Some {
                block.y == block.x
            } else {
                block.y == 1 && grid.y == 1 && grid.z == 1
            }
        },
    }
}

/// The number of elements of an allocation.
pub open spec fn room(memory: Memory, buffer: BufferId) -> int {
    memory[buffer].len() as int
}

/// Whether all that the threads of a launch write lies inside the allocations.
pub open spec fn writes_inside(launch: Launch, memory: Memory) -> bool {
    let blocks = blocks(launch.shape);
    match launch.arguments {
        Arguments::Unary { output, count, .. } => match launch.kernel {
            Kernel::ReduceSum
            | Kernel::ReduceMax
            | Kernel::Bf16ReduceSum
            | Kernel::Bf16ReduceMax
            | Kernel::SoftmaxRowMax
            | Kernel::SoftmaxRowSum
            | Kernel::RmsNormRowSumSq => blocks <= room(memory, output),
            Kernel::SoftmaxRowFused => blocks * count <= room(memory, output),
            _ => count <= room(memory, output),
        },
        Arguments::Binary { output, count, .. } => count <= room(memory, output),
        Arguments::Scale { output, count, .. } => count <= room(memory, output),
        Arguments::Affine { output, count, .. } => count <= room(memory, output),
        Arguments::ExpShift { output, count, .. } => count <= room(memory, output),
        Arguments::Divide { data, count, .. } => count <= room(memory, data),
        Arguments::RowExpShift { output, rows, cols, .. } => rows * cols <= room(memory, output),
        Arguments::RowDivide { data, rows, cols, .. } => rows * cols <= room(memory, data),
        Arguments::RmsNormalize { output, rows, cols, .. } => rows * cols <= room(memory, output),
        Arguments::RmsFused { output, cols, .. } => blocks * cols <= room(memory, output),
        Arguments::Product { output, m, n, .. } => m * n <= room(memory, output),
        Arguments::BatchedProduct { output, m, n, .. } => match launch.shape {
            Shape::Grid { grid, .. } => grid.z * (m * n) <= room(memory, output),
            Shape::Elements { .. } => false,
        },
        Arguments::MatrixVector { output, .. } => blocks <= room(memory, output),
        Arguments::Attention { output, value_dim, .. } => blocks * value_dim <= room(
            memory,
            output,
        ),
        Arguments::MultiheadAttention { output, value_dim, .. } => blocks * value_dim <= room(
            memory,
            output,
        ),
        Arguments::ScaleCausal { output, query_rows, kv_rows, .. } => query_rows * kv_rows
            <= room(memory, output),
        Arguments::MultiheadScaleCausal { output, elements, .. } => elements <= room(
            memory,
            output,
        ),
        Arguments::Rope { output, rows, half, .. } => rows * (2 * half) <= room(memory, output),
        Arguments::Project { output, n, .. } => n <= room(memory, output),
        Arguments::ProjectInt2 { output, n, .. } => n <= room(memory, output),
        Arguments::ProjectSparseCsc { output, n, .. } => n <= room(memory, output),
        Arguments::MoveRows { .. } => true,
        Arguments::Candidates { values, indices, .. } => blocks <= room(memory, values) && blocks
            <= room(memory, indices),
        Arguments::ReduceCandidates { output_value, output_index, .. } => 1 <= room(
            memory,
            output_value,
        ) && 1 <= room(memory, output_index),
        Arguments::ScanFirst { output_values, output_indices, .. } => {
            &&& offset(output_values) + blocks <= room(memory, output_values.buffer)
            &&& offset(output_indices) + blocks <= room(memory, output_indices.buffer)
        },
        Arguments::ScanPair { output_values, output_indices, .. } => {
            &&& offset(output_values) + blocks <= room(memory, output_values.buffer)
            &&& offset(output_indices) + blocks <= room(memory, output_indices.buffer)
        },
        Arguments::Mask { data, slot, indices } => memory[indices][slot as int] < room(
            memory,
            data,
        ),
    }
}

/// What a call that succeeds does to memory.
pub open spec fn effect(machine: Machine, action: Action, memory: Memory) -> Memory {
    match action {
        Action::Launch(launch) => if laid_out(launch) && writes_inside(launch, memory) {
            launch_effect(machine, launch, memory)
        } else {
            (machine.other)(launch, memory)
        },
        Action::Zero(buffer) => memory.insert(
            buffer,
            Seq::new(memory[buffer].len(), |at: int| 0u32),
        ),
        Action::Allocate { buffer, element } => memory.insert(
            buffer.id,
            allocation(machine, buffer, element),
        ),
        Action::AllocatePooled { buffer, element } => memory.insert(
            buffer.id,
            allocation(machine, buffer, element),
        ),
        Action::LayerNormalize { input, output, rows, cols, epsilon, gamma, beta } => mapped(
            memory,
            output.id,
            |at: int| true,
            |at: int|
                (machine.layer_normalize)(
                    memory[input.id],
                    rows,
                    cols,
                    epsilon,
                    gamma,
                    beta,
                )[at],
        ),
        Action::Synchronize => memory,
        Action::Drain => memory,
    }
}

/// What a new allocation holds.
pub open spec fn allocation(
    machine: Machine,
    buffer: DeviceBuffer,
    element: Element,
) -> Seq<u32> {
    let bits = (machine.fresh)(buffer, element);
    Seq::new(buffer.len as nat, |at: int| bits[at])
}

/// What the calls do to memory, made in order with none failing.
pub open spec fn executed(machine: Machine, steps: Seq<Step>, memory: Memory) -> Memory
    decreases steps.len(),
{
    if steps.len() == 0 {
        memory
    } else {
        effect(machine, steps.last().action, executed(machine, steps.drop_last(), memory))
    }
}

impl PlanView {
    /// What carrying the plan out leaves in memory, with no call failing.
    pub open spec fn leaves(self, machine: Machine, memory: Memory) -> Memory {
        executed(machine, self.steps, memory)
    }
}

proof fn executed_extends(machine: Machine, steps: Seq<Step>, more: Seq<Step>, memory: Memory)
    ensures
        executed(machine, steps + more, memory) == executed(
            machine,
            more,
            executed(machine, steps, memory),
        ),
    decreases more.len(),
{
    if more.len() == 0 {
        assert(steps + more =~= steps);
    } else {
        executed_extends(machine, steps, more.drop_last(), memory);
        assert((steps + more).drop_last() =~= steps + more.drop_last());
        assert((steps + more).last() == more.last());
    }
}

proof fn executed_of_same_calls(machine: Machine, a: Seq<Step>, b: Seq<Step>, memory: Memory)
    requires
        a.len() == b.len(),
        forall|n: int| 0 <= n < a.len() ==> (#[trigger] a[n]).action == b[n].action,
    ensures
        executed(machine, a, memory) == executed(machine, b, memory),
    decreases a.len(),
{
    if a.len() > 0 {
        assert forall|n: int| 0 <= n < a.drop_last().len() implies (
        #[trigger] a.drop_last()[n]).action == b.drop_last()[n].action by {
            assert(a[n].action == b[n].action);
        }
        executed_of_same_calls(machine, a.drop_last(), b.drop_last(), memory);
        assert(a[a.len() - 1].action == b[b.len() - 1].action);
    }
}

/// A plan and the next one leave what the next one leaves after the first.
pub broadcast proof fn composition_leaves(
    a: PlanView,
    b: PlanView,
    machine: Machine,
    memory: Memory,
)
    ensures
        #[trigger] a.followed_by(b).leaves(machine, memory) == (if a.outcome is Err {
            a.leaves(machine, memory)
        } else {
            b.leaves(machine, a.leaves(machine, memory))
        }),
{
    executed_extends(machine, a.steps, b.steps, memory);
}

/// Waiting changes nothing in memory.
pub broadcast proof fn synchronization_leaves(a: PlanView, machine: Machine, memory: Memory)
    ensures
        #[trigger] a.synchronized().leaves(machine, memory) == a.leaves(machine, memory),
{
    let whole = a.synchronized().steps;
    let drains = a.steps.map_values(|step: Step| drained(step));
    assert(whole.drop_last() =~= drains);
    executed_of_same_calls(machine, drains, a.steps, memory);
}

/// The guard changes nothing in memory.
pub broadcast proof fn guard_leaves(a: PlanView, machine: Machine, memory: Memory)
    ensures
        #[trigger] a.guarded().leaves(machine, memory) == a.leaves(machine, memory),
{
    let whole = a.guarded().steps;
    let body = whole.take(a.steps.len() as int);
    executed_of_same_calls(machine, body, a.steps, memory);
    if whole.len() > a.steps.len() {
        assert(whole.drop_last() =~= body);
    } else {
        assert(whole =~= body);
    }
}

/// What a single call leaves.
pub broadcast proof fn call_leaves(action: Action, machine: Machine, memory: Memory)
    ensures
        #[trigger] PlanView::one(action).leaves(machine, memory) == effect(machine, action, memory),
{
    let steps = PlanView::one(action).steps;
    reveal_with_fuel(executed, 2);
    assert(steps.drop_last() =~= Seq::<Step>::empty());
}

/// A plan without calls leaves memory as it is.
pub broadcast proof fn idle_plan_leaves(a: PlanView, machine: Machine, memory: Memory)
    requires
        a.steps.len() == 0,
    ensures
        #[trigger] a.leaves(machine, memory) == memory,
{
}

pub broadcast group group_execution {
    composition_leaves,
    synchronization_leaves,
    guard_leaves,
    call_leaves,
    idle_plan_leaves,
}

/// The row and the column of an element of a row-major matrix.
pub proof fn element_place(at: int, rows: int, cols: int)
    requires
        0 <= at < rows * cols,
        0 < cols,
    ensures
        0 <= at / cols < rows,
        0 <= at % cols < cols,
        at == (at / cols) * cols + at % cols,
{
    lemma_fundamental_div_mod(at, cols);
    lemma_div_pos_is_pos(at, cols);
    lemma_mul_is_commutative(rows, cols);
    lemma_multiply_divide_lt(at, cols, rows);
    lemma_mul_is_commutative(cols, at / cols);
}

/// The element at a row and a column of a row-major matrix.
pub proof fn element_inside(row: int, rows: int, column: int, cols: int)
    requires
        0 <= row < rows,
        0 <= column < cols,
    ensures
        0 <= row * cols + column < rows * cols,
        (row * cols + column) / cols == row,
        (row * cols + column) % cols == column,
{
    assert(0 <= row * cols + column < rows * cols) by (nonlinear_arith)
        requires
            0 <= row < rows,
            0 <= column < cols,
    ;
    lemma_fundamental_div_mod_converse(row * cols + column, cols, row, column);
}

/// A row of one of several matrices packed one after the other.
pub proof fn row_of_part(matrices: Seq<u32>, part: int, rows: int, cols: int, row: int)
    requires
        0 <= row < rows,
        0 <= cols,
    ensures
        row_of(row_of(matrices, part, rows * cols), row, cols) == row_of(
            matrices,
            part * rows + row,
            cols,
        ),
{
    let own = row_of(matrices, part, rows * cols);
    assert forall|j: int| 0 <= j < cols implies row_of(own, row, cols)[j] == row_of(
        matrices,
        part * rows + row,
        cols,
    )[j] by {
        element_inside(row, rows, j, cols);
        assert(part * (rows * cols) + (row * cols + j) == (part * rows + row) * cols + j)
            by (nonlinear_arith);
    }
    assert(row_of(own, row, cols) =~= row_of(matrices, part * rows + row, cols));
}

} // verus!
