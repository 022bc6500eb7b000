//! Tiled matrix products: the rules that the `f32` and packed-bf16 families,
//! plain or with a transposed right operand, have in common.

use crate::arith::{ceil_div, ceil_div_covers, ceil_div_usize, fits, power_of_two, to_u32};
use crate::device::{DeviceBuffer, Probe, Stream};
use crate::error::{Checked, KernelError};
use crate::family::Family;
use crate::launch::{Arguments, Dim3, Kernel, Shape};
use crate::plan::{Action, Plan, PlanView};
use vstd::prelude::*;

verus! {

/// The device limits the y and z extents of a grid to this many blocks.
pub const MAX_GRID_BLOCKS: u32 = 65_535;

/// The products of one matrix by another.
#[derive(Clone, Copy, Debug, PartialEq, Eq, Structural)]
pub enum ProductKind {
    F32,
    F32TransposedB,
    Bf16,
    Bf16TransposedB,
}

impl ProductKind {
    /// Whether the right operand is stored `(n, k)` instead of `(k, n)`.
    pub open spec fn transposed(self) -> bool {
        self == ProductKind::F32TransposedB || self == ProductKind::Bf16TransposedB
    }

    /// The kernel of the product.
    pub open spec fn kernel(self) -> Kernel {
        match self {
            ProductKind::F32 => Kernel::Gemm,
            ProductKind::F32TransposedB => Kernel::GemmNt,
            ProductKind::Bf16 => Kernel::Bf16Gemm,
            ProductKind::Bf16TransposedB => Kernel::Bf16GemmNt,
        }
    }

    /// The name of the product in its refusals.
    pub open spec fn family(self) -> &'static str {
        match self {
            ProductKind::F32 => "gemm",
            ProductKind::F32TransposedB => "gemm-nt",
            ProductKind::Bf16 => "bf16 gemm",
            ProductKind::Bf16TransposedB => "bf16 gemm-nt",
        }
    }

    /// The words that refuse more row blocks than a grid can hold.
    pub open spec fn row_blocks(self) -> &'static str {
        match self {
            ProductKind::Bf16TransposedB => "exceeds u32 row blocks",
            _ => "exceeds u32::MAX row blocks",
        }
    }

    fn get_family(self) -> (family: &'static str)
        ensures
            family == self.family(),
    {
        match self {
            ProductKind::F32 => "gemm",
            ProductKind::F32TransposedB => "gemm-nt",
            ProductKind::Bf16 => "bf16 gemm",
            ProductKind::Bf16TransposedB => "bf16 gemm-nt",
        }
    }

    fn get_row_blocks(self) -> (rule: &'static str)
        ensures
            rule == self.row_blocks(),
    {
        match self {
            ProductKind::Bf16TransposedB => "exceeds u32 row blocks",
            _ => "exceeds u32::MAX row blocks",
        }
    }

    fn get_kernel(self) -> (kernel: Kernel)
        ensures
            kernel == self.kernel(),
    {
        match self {
            ProductKind::F32 => Kernel::Gemm,
            ProductKind::F32TransposedB => Kernel::GemmNt,
            ProductKind::Bf16 => Kernel::Bf16Gemm,
            ProductKind::Bf16TransposedB => Kernel::Bf16GemmNt,
        }
    }

    fn is_transposed(self) -> (answer: bool)
        ensures
            answer == self.transposed(),
    {
        match self {
            ProductKind::F32 => false,
            ProductKind::F32TransposedB => true,
            ProductKind::Bf16 => false,
            ProductKind::Bf16TransposedB => true,
        }
    }
}

/// The operands and the shape of a product `output = matrix_a * matrix_b`.
#[derive(Clone, Copy, Debug, PartialEq, Eq, Structural)]
pub struct Product {
    pub matrix_a: DeviceBuffer,
    pub matrix_b: DeviceBuffer,
    pub output: DeviceBuffer,
    pub m: usize,
    pub n: usize,
    pub k: usize,
}

/// A tile side that a product family may be loaded with.
pub open spec fn tile_ready(side: u32) -> bool {
    &&& power_of_two(side as nat)
    &&& side * side * 8 <= u32::MAX
}

/// The tile side must be a power of two.
pub open spec fn side_check(family: &'static str, side: u32) -> Checked {
    if power_of_two(side as nat) {
        Ok(())
    } else {
        Err(KernelError::TileSide { family, side })
    }
}

/// Two tiles of `side * side` floats must be expressible in 32 bits.
pub open spec fn tile_bytes_check(message: &'static str, side: u32) -> Checked {
    if side * side * 8 <= u32::MAX {
        Ok(())
    } else {
        Err(KernelError::Fixed(message))
    }
}

/// A block of `side * side` threads must be within the function's limit.
pub open spec fn tile_threads_check(
    family: &'static str,
    side: u32,
    unit: &'static str,
    probe: Probe,
) -> Checked {
    match probe {
        Err(failure) => Err(KernelError::Device(failure)),
        Ok(attributes) => if side * side > attributes.max_threads_per_block {
            Err(
                KernelError::TileThreads {
                    family,
                    side,
                    threads: (side * side) as u64,
                    unit,
                    limit: attributes.max_threads_per_block,
                },
            )
        } else {
            Ok(())
        },
    }
}

/// The first rule that the operands of a product break: the sizes must be
/// countable, each operand must have the size its shape requires, and
/// everything must live in the family's context.
pub open spec fn product_check(
    kind: ProductKind,
    family: Family,
    stream: Stream,
    p: Product,
) -> Checked {
    let name = kind.family();
    let (b_rows, b_cols) = if kind.transposed() {
        (p.n, p.k)
    } else {
        (p.k, p.n)
    };
    if !fits(p.m * p.k) || !fits(b_rows * b_cols) || !fits(p.m * p.n) {
        Err(KernelError::Rule { family: name, rule: "shape overflows usize" })
    } else if p.matrix_a.len != p.m * p.k {
        Err(
            KernelError::Shape {
                family: name,
                operand: "matrix_a has",
                actual: p.matrix_a.len,
                unit: "elements",
                rows: p.m,
                cols: p.k,
                required: (p.m * p.k) as usize,
            },
        )
    } else if p.matrix_b.len != b_rows * b_cols {
        Err(
            KernelError::Shape {
                family: name,
                operand: "matrix_b has",
                actual: p.matrix_b.len,
                unit: "elements",
                rows: b_rows,
                cols: b_cols,
                required: (b_rows * b_cols) as usize,
            },
        )
    } else if p.output.len != p.m * p.n {
        Err(
            KernelError::Shape {
                family: name,
                operand: "output has",
                actual: p.output.len,
                unit: "elements",
                rows: p.m,
                cols: p.n,
                required: (p.m * p.n) as usize,
            },
        )
    } else if stream.context != family.context || p.matrix_a.context != family.context
        || p.matrix_b.context != family.context || p.output.context != family.context {
        Err(KernelError::Rule {
                family: name,
                rule: "stream, buffers, and kernel must share one context",
            })
    } else {
        Ok(())
    }
}

/// The shape of a tiled product: one block of `side * side` threads per
/// output tile, the rows along x and the columns along y, and `layers`
/// independent products along z.
pub open spec fn tile_shape(side: u32, m: usize, n: usize, layers: u32) -> Shape {
    Shape::Grid {
        grid: Dim3 {
            x: ceil_div(m as int, side as int) as u32,
            y: ceil_div(n as int, side as int) as u32,
            z: layers,
        },
        block: Dim3 { x: side, y: side, z: 1 },
        shared_memory_bytes: (side * side * 8) as u32,
    }
}

/// The tiled launch of a product, where the grid can express it.
pub open spec fn tile_plan(
    row_blocks: &'static str,
    family: &'static str,
    kernel: Kernel,
    side: u32,
    m: usize,
    n: usize,
    layers: u32,
    arguments: Arguments,
) -> PlanView {
    if ceil_div(m as int, side as int) > u32::MAX {
        PlanView::rejected(KernelError::Rule { family, rule: row_blocks })
    } else if ceil_div(n as int, side as int) > MAX_GRID_BLOCKS {
        PlanView::rejected(
            KernelError::ColumnBlocks {
                family,
                blocks: ceil_div(n as int, side as int) as usize,
                limit: MAX_GRID_BLOCKS,
            },
        )
    } else {
        PlanView::launch(kernel, tile_shape(side, m, n, layers), arguments)
    }
}

/// What a product does: nothing where the output is empty, zeroing where the
/// inner dimension is empty, one tiled launch otherwise.
pub open spec fn product_plan(
    kind: ProductKind,
    family: Family,
    stream: Stream,
    p: Product,
) -> PlanView {
    PlanView::checked(product_check(kind, family, stream, p)).followed_by(
        if p.m == 0 || p.n == 0 {
            PlanView::done()
        } else if p.k == 0 {
            PlanView::one(Action::Zero(p.output.id))
        } else {
            tile_plan(
                kind.row_blocks(),
                kind.family(),
                kind.kernel(),
                family.width,
                p.m,
                p.n,
                1,
                Arguments::Product {
                    matrix_a: p.matrix_a.id,
                    matrix_b: p.matrix_b.id,
                    output: p.output.id,
                    m: p.m as u64,
                    n: p.n as u64,
                    k: p.k as u64,
                },
            )
        },
    )
}

/// Checks that the tile side is a power of two.
pub fn check_side(family: &'static str, side: u32) -> (check: Checked)
    ensures
        check == side_check(family, side),
{
    if crate::arith::is_power_of_two(side) {
        Ok(())
    } else {
        Err(KernelError::TileSide { family, side })
    }
}

/// The shared memory of two tiles of `side * side` floats.
pub fn tile_bytes(message: &'static str, side: u32) -> (bytes: Result<u32, KernelError>)
    ensures
        tile_bytes_check(message, side) is Ok ==> bytes == Result::<u32, KernelError>::Ok(
            (side * side * 8) as u32,
        ),
        tile_bytes_check(message, side) is Err ==> bytes == Result::<u32, KernelError>::Err(
            KernelError::Fixed(message),
        ),
{
    match side.checked_mul(side) {
        None => Err(KernelError::Fixed(message)),
        Some(threads) => match threads.checked_mul(2) {
            None => Err(KernelError::Fixed(message)),
            Some(floats) => match floats.checked_mul(4) {
                None => Err(KernelError::Fixed(message)),
                Some(bytes) => Ok(bytes),
            },
        },
    }
}

/// Checks a block of `side * side` threads against the function's limit.
pub fn check_tile_threads(
    family: &'static str,
    side: u32,
    unit: &'static str,
    probe: Probe,
) -> (check: Checked)
    ensures
        check == tile_threads_check(family, side, unit, probe),
{
    match probe {
        Err(failure) => Err(KernelError::Device(failure)),
        Ok(attributes) => {
            assert(side * side <= u64::MAX) by (nonlinear_arith)
                requires
                    side <= u32::MAX,
            ;
            let threads: u64 = (side as u64) * (side as u64);
            if threads > attributes.max_threads_per_block as u64 {
                Err(
                    KernelError::TileThreads {
                        family,
                        side,
                        threads,
                        unit,
                        limit: attributes.max_threads_per_block,
                    },
                )
            } else {
                Ok(())
            }
        },
    }
}

/// Checks the operands of a product.
pub fn check_product(
    kind: ProductKind,
    family: Family,
    stream: &Stream,
    p: &Product,
) -> (check: Checked)
    ensures
        check == product_check(kind, family, *stream, *p),
{
    let name = kind.get_family();
    let (b_rows, b_cols): (usize, usize) = if kind.is_transposed() {
        (p.n, p.k)
    } else {
        (p.k, p.n)
    };
    let expected_a: usize = match p.m.checked_mul(p.k) {
        Some(elements) => elements,
        None => {
            return Err(KernelError::Rule { family: name, rule: "shape overflows usize" });
        },
    };
    let expected_b: usize = match b_rows.checked_mul(b_cols) {
        Some(elements) => elements,
        None => {
            return Err(KernelError::Rule { family: name, rule: "shape overflows usize" });
        },
    };
    let expected_output: usize = match p.m.checked_mul(p.n) {
        Some(elements) => elements,
        None => {
            return Err(KernelError::Rule { family: name, rule: "shape overflows usize" });
        },
    };
    if p.matrix_a.len != expected_a {
        return Err(
            KernelError::Shape {
                family: name,
                operand: "matrix_a has",
                actual: p.matrix_a.len,
                unit: "elements",
                rows: p.m,
                cols: p.k,
                required: expected_a,
            },
        );
    }
    if p.matrix_b.len != expected_b {
        return Err(
            KernelError::Shape {
                family: name,
                operand: "matrix_b has",
                actual: p.matrix_b.len,
                unit: "elements",
                rows: b_rows,
                cols: b_cols,
                required: expected_b,
            },
        );
    }
    if p.output.len != expected_output {
        return Err(
            KernelError::Shape {
                family: name,
                operand: "output has",
                actual: p.output.len,
                unit: "elements",
                rows: p.m,
                cols: p.n,
                required: expected_output,
            },
        );
    }
    if stream.context != family.context || p.matrix_a.context != family.context
        || p.matrix_b.context != family.context || p.output.context != family.context {
        return Err(KernelError::Rule {
                family: name,
                rule: "stream, buffers, and kernel must share one context",
            });
    }
    Ok(())
}

/// Plans the tiled launch of a product.
pub fn plan_tiles(
    row_blocks: &'static str,
    family: &'static str,
    kernel: Kernel,
    side: u32,
    m: usize,
    n: usize,
    layers: u32,
    arguments: Arguments,
) -> (plan: Plan)
    requires
        tile_ready(side),
    ensures
        plan@ == tile_plan(row_blocks, family, kernel, side, m, n, layers, arguments),
{
    let rows: usize = ceil_div_usize(m, side as usize);
    let cols: usize = ceil_div_usize(n, side as usize);
    let grid_x: u32 = match to_u32(rows) {
        Some(blocks) => blocks,
        None => {
            return Plan::rejected(KernelError::Rule { family, rule: row_blocks });
        },
    };
    if cols > MAX_GRID_BLOCKS as usize {
        return Plan::rejected(
            KernelError::ColumnBlocks { family, blocks: cols, limit: MAX_GRID_BLOCKS },
        );
    }
    assert(side * side <= u32::MAX) by (nonlinear_arith)
        requires
            side * side * 8 <= u32::MAX,
    ;
    let shape = Shape::Grid {
        grid: Dim3 { x: grid_x, y: cols as u32, z: layers },
        block: Dim3 { x: side, y: side, z: 1 },
        shared_memory_bytes: side * side * 8,
    };
    Plan::launch(kernel, shape, arguments)
}

/// Plans a product.
pub fn plan_product(kind: ProductKind, family: Family, stream: &Stream, p: &Product) -> (plan: Plan)
    requires
        tile_ready(family.width),
    ensures
        plan@ == product_plan(kind, family, *stream, *p),
{
    let check = check_product(kind, family, stream, p);
    let work = if p.m == 0 || p.n == 0 {
        Plan::done()
    } else if p.k == 0 {
        Plan::one(Action::Zero(p.output.id))
    } else {
        plan_tiles(
            kind.get_row_blocks(),
            kind.get_family(),
            kind.get_kernel(),
            family.width,
            p.m,
            p.n,
            1,
            Arguments::Product {
                matrix_a: p.matrix_a.id,
                matrix_b: p.matrix_b.id,
                output: p.output.id,
                m: p.m as u64,
                n: p.n as u64,
                k: p.k as u64,
            },
        )
    };
    Plan::checked(check).followed_by(work)
}

/// The output element that a thread of a tiled product writes: the block's
/// place in the grid gives the tile, the thread's place in the block the
/// element of the tile.
pub open spec fn tile_element(side: u32, block_x: int, block_y: int, tx: int, ty: int) -> (int, int) {
    (block_x * side + ty, block_y * side + tx)
}

/// Every output element of a tiled launch belongs to a thread of the grid,
/// and to one thread only.
pub proof fn tiles_cover_the_output_once(
    side: u32,
    m: usize,
    n: usize,
    layers: u32,
    row: int,
    col: int,
)
    requires
        tile_ready(side),
        ceil_div(m as int, side as int) <= u32::MAX,
        ceil_div(n as int, side as int) <= MAX_GRID_BLOCKS,
        0 <= row < m,
        0 <= col < n,
    ensures
        tile_shape(side, m, n, layers) matches Shape::Grid { grid, block, .. } && {
            &&& 0 <= row / side as int <= grid.x - 1
            &&& 0 <= col / side as int <= grid.y - 1
            &&& tile_element(
                side,
                row / side as int,
                col / side as int,
                col % side as int,
                row % side as int,
            ) == (row, col)
            &&& forall|bx: int, by: int, tx: int, ty: int|
                0 <= tx < block.x && 0 <= ty < block.y && #[trigger] tile_element(
                    side,
                    bx,
                    by,
                    tx,
                    ty,
                ) == (row, col) ==> bx == row / side as int && by == col / side as int && tx == col
                    % side as int && ty == row % side as int
        },
{
    let s = side as int;
    ceil_div_covers(m as int, s);
    ceil_div_covers(n as int, s);
    vstd::arithmetic::div_mod::lemma_fundamental_div_mod(row, s);
    vstd::arithmetic::div_mod::lemma_fundamental_div_mod(col, s);
    vstd::arithmetic::div_mod::lemma_div_is_ordered(row, m as int - 1, s);
    vstd::arithmetic::div_mod::lemma_div_is_ordered(col, n as int - 1, s);
    vstd::arithmetic::div_mod::lemma_div_pos_is_pos(row, s);
    vstd::arithmetic::div_mod::lemma_div_pos_is_pos(col, s);
    vstd::arithmetic::mul::lemma_mul_is_commutative(s, row / s);
    vstd::arithmetic::mul::lemma_mul_is_commutative(s, col / s);
    assert forall|bx: int, by: int, tx: int, ty: int|
        0 <= tx < side && 0 <= ty < side && #[trigger] tile_element(side, bx, by, tx, ty) == (
        row,
        col,
    ) implies bx == row / s && by == col / s && tx == col % s && ty == row % s by {
        vstd::arithmetic::div_mod::lemma_fundamental_div_mod_converse(row, s, bx, ty);
        vstd::arithmetic::div_mod::lemma_fundamental_div_mod_converse(col, s, by, tx);
    }
}

/// A refused product submits nothing.
pub proof fn refused_product_submits_nothing(
    kind: ProductKind,
    family: Family,
    stream: Stream,
    p: Product,
)
    ensures
        product_plan(kind, family, stream, p).outcome is Err ==> product_plan(
            kind,
            family,
            stream,
            p,
        ).steps.len() == 0,
{
}

/// A product whose operands, stream and kernels are not all of one context is
/// refused, whatever its shape.
pub proof fn product_needs_one_context(
    kind: ProductKind,
    family: Family,
    stream: Stream,
    p: Product,
)
    requires
        stream.context != family.context || p.matrix_a.context != family.context
            || p.matrix_b.context != family.context || p.output.context != family.context,
    ensures
        product_plan(kind, family, stream, p).outcome is Err,
        product_plan(kind, family, stream, p).steps.len() == 0,
{
}

/// An accepted product with an empty inner dimension zeroes its output and
/// launches nothing; one with an empty output does nothing.
pub proof fn empty_products(kind: ProductKind, family: Family, stream: Stream, p: Product)
    requires
        product_check(kind, family, stream, p) is Ok,
        p.k == 0 || p.m == 0 || p.n == 0,
    ensures
        p.m == 0 || p.n == 0 ==> product_plan(kind, family, stream, p) == PlanView::done(),
        p.m > 0 && p.n > 0 ==> product_plan(kind, family, stream, p) == PlanView::one(
            Action::Zero(p.output.id),
        ),
{
    assert(product_plan(kind, family, stream, p).steps =~= if p.m == 0 || p.n == 0 {
        PlanView::done().steps
    } else {
        PlanView::one(Action::Zero(p.output.id)).steps
    });
}

} // verus!
