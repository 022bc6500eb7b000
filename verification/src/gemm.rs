//! Tiled matrix-matrix product `C = A * B` for row-major `f32` matrices.
//!
//! One thread block computes one `tile x tile` output tile with both operand
//! tiles staged in dynamic shared memory.

use crate::arith::{fits, power_of_two, product3};
use crate::device::{ContextId, DeviceBuffer, Probe, Stream};
use crate::error::{Checked, KernelError};
use crate::family::{both, check_probe, check_shared, loads, probe_check, shared_check, Family};
use crate::launch::{Arguments, Kernel};
use crate::plan::{Action, Plan, PlanView};
use crate::product::{
    check_product, check_side, check_tile_threads, plan_product, plan_tiles, tile_bytes,
    Product, ProductKind, MAX_GRID_BLOCKS,
};
use vstd::prelude::*;

verus! {

use crate::product::{
    product_check, product_plan, side_check, tile_bytes_check, tile_plan, tile_ready, tile_shape,
    tile_threads_check,
};

/// The tile side of [`F32Gemm::load`].
pub const DEFAULT_TILE_SIDE: u32 = 16;

/// Attributes of the four product functions, as the driver reported them.
#[derive(Clone, Copy, Debug)]
pub struct GemmProbes {
    pub gemm: Probe,
    pub gemm_nt: Probe,
    pub gemm_batched: Probe,
    pub gemm_nt_batched: Probe,
}

/// Context-bound tiled `f32` matrix-matrix product.
#[derive(Debug)]
pub struct F32Gemm {
    family: Family,
}

impl View for F32Gemm {
    type V = Family;

    closed spec fn view(&self) -> Family {
        self.family
    }
}

/// The checks on a tile side that need no device.
pub open spec fn gemm_side_check(side: u32) -> Checked {
    both(side_check("gemm", side), tile_bytes_check("gemm shared-memory size overflows", side))
}

/// All checks of loading, in the order in which they decide.
pub open spec fn gemm_load_check(side: u32, probes: GemmProbes) -> Checked {
    let bytes = (side * side * 8) as u32;
    both(
        gemm_side_check(side),
        both(
            probe_check(probes.gemm),
            both(
                probe_check(probes.gemm_nt),
                both(
                    tile_threads_check("gemm", side, "threads per block", probes.gemm),
                    both(
                        shared_check("gemm", bytes, probes.gemm),
                        both(
                            shared_check("gemm-nt", bytes, probes.gemm_nt),
                            both(
                                both(
                                    tile_threads_check(
                                        "gemm-batched",
                                        side,
                                        "threads per block",
                                        probes.gemm_batched,
                                    ),
                                    shared_check("gemm-batched", bytes, probes.gemm_batched),
                                ),
                                both(
                                    tile_threads_check(
                                        "gemm-nt-batched",
                                        side,
                                        "threads per block",
                                        probes.gemm_nt_batched,
                                    ),
                                    shared_check("gemm-nt-batched", bytes, probes.gemm_nt_batched),
                                ),
                            ),
                        ),
                    ),
                ),
            ),
        ),
    )
}

/// The first rule that the operands of a batched product break. Each of the
/// `batches` products has its operands contiguous in the packed buffers.
pub open spec fn batched_check(
    stream: Stream,
    p: Product,
    batches: usize,
    transposed_b: bool,
) -> Checked {
    let (b_rows, b_cols) = if transposed_b {
        (p.n, p.k)
    } else {
        (p.k, p.n)
    };
    if batches == 0 {
        Err(KernelError::Fixed("gemm requires at least one batch"))
    } else if batches > MAX_GRID_BLOCKS {
        Err(KernelError::BatchBlocks { batches, limit: MAX_GRID_BLOCKS })
    } else if !fits(batches * p.m) || !fits(batches * p.m * p.k) || !fits(batches * b_rows)
        || !fits(batches * b_rows * b_cols) || !fits(batches * p.m * p.n) {
        Err(KernelError::Fixed("batched gemm shape overflows usize"))
    } else if p.matrix_a.len != batches * p.m * p.k {
        Err(
            KernelError::GroupedShape {
                family: "batched gemm",
                operand: "matrix_a has",
                actual: p.matrix_a.len,
                groups: batches,
                unit: "batches",
                rows: p.m,
                cols: p.k,
                required: (batches * p.m * p.k) as usize,
            },
        )
    } else if p.matrix_b.len != batches * b_rows * b_cols {
        Err(
            KernelError::BatchedOperand {
                actual: p.matrix_b.len,
                batches,
                required: (batches * b_rows * b_cols) as usize,
            },
        )
    } else if p.output.len != batches * p.m * p.n {
        Err(
            KernelError::GroupedShape {
                family: "batched gemm",
                operand: "output has",
                actual: p.output.len,
                groups: batches,
                unit: "batches",
                rows: p.m,
                cols: p.n,
                required: (batches * p.m * p.n) as usize,
            },
        )
    } else if p.matrix_a.context != stream.context || p.matrix_b.context != stream.context
        || p.output.context != stream.context {
        Err(KernelError::Fixed("batched gemm stream and buffers must share one context"))
    } else {
        Ok(())
    }
}

/// What a batched product does: as a single product does, with one layer of
/// the grid per batch.
pub open spec fn batched_plan(
    family: Family,
    stream: Stream,
    p: Product,
    batches: usize,
    transposed_b: bool,
) -> PlanView {
    PlanView::checked(batched_check(stream, p, batches, transposed_b)).followed_by(
        if p.m == 0 || p.n == 0 {
            PlanView::done()
        } else if p.k == 0 {
            PlanView::one(Action::Zero(p.output.id))
        } else {
            tile_plan(
                "exceeds u32 row blocks",
                if transposed_b {
                    "batched gemm-nt"
                } else {
                    "batched gemm"
                },
                if transposed_b {
                    Kernel::GemmNtBatched
                } else {
                    Kernel::GemmBatched
                },
                family.width,
                p.m,
                p.n,
                batches as u32,
                Arguments::BatchedProduct {
                    matrix_a: p.matrix_a.id,
                    matrix_b: p.matrix_b.id,
                    output: p.output.id,
                    batches: batches as u32,
                    m: p.m as u64,
                    n: p.n as u64,
                    k: p.k as u64,
                },
            )
        },
    )
}

impl F32Gemm {
    #[verifier::type_invariant]
    spec fn ready(self) -> bool {
        tile_ready(self.family.width)
    }

    /// Checks a tile side before anything is compiled.
    pub fn check_tile_side(tile_side: u32) -> (check: Checked)
        ensures
            check == gemm_side_check(tile_side),
    {
        check_side("gemm", tile_side)?;
        Self::shared_memory_bytes(tile_side)?;
        Ok(())
    }

    /// Accepts the compiled functions with the default tile side.
    pub fn load(context: ContextId, probes: &GemmProbes) -> (result: Result<F32Gemm, KernelError>)
        ensures
            loads(
                result,
                gemm_load_check(DEFAULT_TILE_SIDE, *probes),
                Family { context, width: DEFAULT_TILE_SIDE },
            ),
    {
        Self::load_with_tile_side(context, DEFAULT_TILE_SIDE, probes)
    }

    /// Accepts the compiled functions with an explicitly selected
    /// power-of-two tile side.
    ///
    /// One block computes a `tile_side x tile_side` output tile with the same
    /// block shape, so the total thread count is `tile_side^2`.
    pub fn load_with_tile_side(
        context: ContextId,
        tile_side: u32,
        probes: &GemmProbes,
    ) -> (result: Result<F32Gemm, KernelError>)
        ensures
            loads(
                result,
                gemm_load_check(tile_side, *probes),
                Family { context, width: tile_side },
            ),
    {
        check_side("gemm", tile_side)?;
        let bytes: u32 = Self::shared_memory_bytes(tile_side)?;
        check_probe(probes.gemm)?;
        check_probe(probes.gemm_nt)?;
        check_tile_threads("gemm", tile_side, "threads per block", probes.gemm)?;
        check_shared("gemm", bytes, probes.gemm)?;
        check_shared("gemm-nt", bytes, probes.gemm_nt)?;
        check_tile_threads("gemm-batched", tile_side, "threads per block", probes.gemm_batched)?;
        check_shared("gemm-batched", bytes, probes.gemm_batched)?;
        check_tile_threads(
            "gemm-nt-batched",
            tile_side,
            "threads per block",
            probes.gemm_nt_batched,
        )?;
        check_shared("gemm-nt-batched", bytes, probes.gemm_nt_batched)?;
        Ok(F32Gemm { family: Family { context, width: tile_side } })
    }

    /// Block and tile side used along both matrix dimensions.
    pub fn tile_side(&self) -> (side: u32)
        ensures
            side == self@.width,
            power_of_two(side as nat),
    {
        proof {
            use_type_invariant(self);
        }
        self.family.width
    }

    /// Plans `output = matrix_a * matrix_b` with a wait for completion.
    ///
    /// Shapes: `matrix_a` holds `m * k` row-major elements, `matrix_b` holds
    /// `k * n`, and `output` receives `m * n`. An empty inner dimension zeroes
    /// the output; zero rows or columns leave nothing to write.
    pub fn gemm(
        &self,
        stream: &Stream,
        matrix_a: &DeviceBuffer,
        matrix_b: &DeviceBuffer,
        output: &DeviceBuffer,
        m: usize,
        n: usize,
        k: usize,
    ) -> (plan: Plan)
        ensures
            plan@ == product_plan(
                ProductKind::F32,
                self@,
                *stream,
                Product { matrix_a: *matrix_a, matrix_b: *matrix_b, output: *output, m, n, k },
            ).synchronized(),
    {
        self.enqueue_gemm(stream, matrix_a, matrix_b, output, m, n, k).synchronized()
    }

    /// Plans `output = matrix_a * matrix_b_transposed` with a wait for
    /// completion; `matrix_b` holds `n * k` row-major elements.
    pub fn gemm_transposed_b(
        &self,
        stream: &Stream,
        matrix_a: &DeviceBuffer,
        matrix_b: &DeviceBuffer,
        output: &DeviceBuffer,
        m: usize,
        n: usize,
        k: usize,
    ) -> (plan: Plan)
        ensures
            plan@ == product_plan(
                ProductKind::F32TransposedB,
                self@,
                *stream,
                Product { matrix_a: *matrix_a, matrix_b: *matrix_b, output: *output, m, n, k },
            ).synchronized(),
    {
        self.enqueue_gemm_transposed_b(stream, matrix_a, matrix_b, output, m, n, k).synchronized()
    }

    /// Plans one product per packed batch with a wait for completion. One
    /// launch covers every batch.
    pub fn gemm_batched(
        &self,
        stream: &Stream,
        matrix_a: &DeviceBuffer,
        matrix_b: &DeviceBuffer,
        output: &DeviceBuffer,
        batches: usize,
        m: usize,
        n: usize,
        k: usize,
    ) -> (plan: Plan)
        ensures
            plan@ == batched_plan(
                self@,
                *stream,
                Product { matrix_a: *matrix_a, matrix_b: *matrix_b, output: *output, m, n, k },
                batches,
                false,
            ).synchronized(),
    {
        self.enqueue_gemm_batched(
            stream,
            matrix_a,
            matrix_b,
            output,
            batches,
            m,
            n,
            k,
        ).synchronized()
    }

    /// Plans one transposed-B product per packed batch with a wait for
    /// completion.
    pub fn gemm_transposed_b_batched(
        &self,
        stream: &Stream,
        matrix_a: &DeviceBuffer,
        matrix_b: &DeviceBuffer,
        output: &DeviceBuffer,
        batches: usize,
        m: usize,
        n: usize,
        k: usize,
    ) -> (plan: Plan)
        ensures
            plan@ == batched_plan(
                self@,
                *stream,
                Product { matrix_a: *matrix_a, matrix_b: *matrix_b, output: *output, m, n, k },
                batches,
                true,
            ).synchronized(),
    {
        self.enqueue_gemm_transposed_b_batched(
            stream,
            matrix_a,
            matrix_b,
            output,
            batches,
            m,
            n,
            k,
        ).synchronized()
    }

    /// Plans the product without a wait.
    pub fn enqueue_gemm(
        &self,
        stream: &Stream,
        matrix_a: &DeviceBuffer,
        matrix_b: &DeviceBuffer,
        output: &DeviceBuffer,
        m: usize,
        n: usize,
        k: usize,
    ) -> (plan: Plan)
        ensures
            plan@ == product_plan(
                ProductKind::F32,
                self@,
                *stream,
                Product { matrix_a: *matrix_a, matrix_b: *matrix_b, output: *output, m, n, k },
            ),
    {
        let p = &Product { matrix_a: *matrix_a, matrix_b: *matrix_b, output: *output, m, n, k };
        proof {
            use_type_invariant(self);
        }
        plan_product(ProductKind::F32, self.family, stream, p)
    }

    /// Plans the transposed-B product without a wait.
    pub fn enqueue_gemm_transposed_b(
        &self,
        stream: &Stream,
        matrix_a: &DeviceBuffer,
        matrix_b: &DeviceBuffer,
        output: &DeviceBuffer,
        m: usize,
        n: usize,
        k: usize,
    ) -> (plan: Plan)
        ensures
            plan@ == product_plan(
                ProductKind::F32TransposedB,
                self@,
                *stream,
                Product { matrix_a: *matrix_a, matrix_b: *matrix_b, output: *output, m, n, k },
            ),
    {
        let p = &Product { matrix_a: *matrix_a, matrix_b: *matrix_b, output: *output, m, n, k };
        proof {
            use_type_invariant(self);
        }
        plan_product(ProductKind::F32TransposedB, self.family, stream, p)
    }

    /// Plans the batched product without a wait.
    pub fn enqueue_gemm_batched(
        &self,
        stream: &Stream,
        matrix_a: &DeviceBuffer,
        matrix_b: &DeviceBuffer,
        output: &DeviceBuffer,
        batches: usize,
        m: usize,
        n: usize,
        k: usize,
    ) -> (plan: Plan)
        ensures
            plan@ == batched_plan(
                self@,
                *stream,
                Product { matrix_a: *matrix_a, matrix_b: *matrix_b, output: *output, m, n, k },
                batches,
                false,
            ),
    {
        let p = &Product { matrix_a: *matrix_a, matrix_b: *matrix_b, output: *output, m, n, k };
        self.enqueue_batches(stream, p, batches, false)
    }

    /// Plans the batched transposed-B product without a wait.
    pub fn enqueue_gemm_transposed_b_batched(
        &self,
        stream: &Stream,
        matrix_a: &DeviceBuffer,
        matrix_b: &DeviceBuffer,
        output: &DeviceBuffer,
        batches: usize,
        m: usize,
        n: usize,
        k: usize,
    ) -> (plan: Plan)
        ensures
            plan@ == batched_plan(
                self@,
                *stream,
                Product { matrix_a: *matrix_a, matrix_b: *matrix_b, output: *output, m, n, k },
                batches,
                true,
            ),
    {
        let p = &Product { matrix_a: *matrix_a, matrix_b: *matrix_b, output: *output, m, n, k };
        self.enqueue_batches(stream, p, batches, true)
    }

    fn enqueue_batches(
        &self,
        stream: &Stream,
        p: &Product,
        batches: usize,
        transposed_b: bool,
    ) -> (plan: Plan)
        ensures
            plan@ == batched_plan(self@, *stream, *p, batches, transposed_b),
    {
        proof {
            use_type_invariant(self);
        }
        let layers: u32 = match Self::validate_batched_execution(stream, p, batches, transposed_b) {
            Err(error) => {
                return Plan::rejected(error);
            },
            Ok(layers) => layers,
        };
        let work = if p.m == 0 || p.n == 0 {
            Plan::done()
        } else if p.k == 0 {
            Plan::one(Action::Zero(p.output.id))
        } else {
            plan_tiles(
                "exceeds u32 row blocks",
                if transposed_b {
                    "batched gemm-nt"
                } else {
                    "batched gemm"
                },
                if transposed_b {
                    Kernel::GemmNtBatched
                } else {
                    Kernel::GemmBatched
                },
                self.family.width,
                p.m,
                p.n,
                layers,
                Arguments::BatchedProduct {
                    matrix_a: p.matrix_a.id,
                    matrix_b: p.matrix_b.id,
                    output: p.output.id,
                    batches: layers,
                    m: p.m as u64,
                    n: p.n as u64,
                    k: p.k as u64,
                },
            )
        };
        work
    }

    /// Checks the operands of a product.
    pub fn validate_execution(&self, stream: &Stream, p: &Product) -> (check: Checked)
        ensures
            check == product_check(ProductKind::F32, self@, *stream, *p),
    {
        check_product(ProductKind::F32, self.family, stream, p)
    }

    /// Checks the operands of a transposed-B product.
    pub fn validate_execution_nt(&self, stream: &Stream, p: &Product) -> (check: Checked)
        ensures
            check == product_check(ProductKind::F32TransposedB, self@, *stream, *p),
    {
        check_product(ProductKind::F32TransposedB, self.family, stream, p)
    }

    /// Checks the operands of a batched product and returns the number of
    /// grid layers. `transposed_b` selects whether each `matrix_b` batch is
    /// stored `(n, k)` or `(k, n)`.
    pub fn validate_batched_execution(
        stream: &Stream,
        p: &Product,
        batches: usize,
        transposed_b: bool,
    ) -> (layers: Result<u32, KernelError>)
        ensures
            match layers {
                Ok(layers) => batched_check(*stream, *p, batches, transposed_b) is Ok && layers
                    == batches,
                Err(error) => batched_check(*stream, *p, batches, transposed_b) == Checked::Err(
                    error,
                ),
            },
    {
        if batches == 0 {
            return Err(KernelError::Fixed("gemm requires at least one batch"));
        }
        if batches > MAX_GRID_BLOCKS as usize {
            return Err(KernelError::BatchBlocks { batches, limit: MAX_GRID_BLOCKS });
        }
        let (b_rows, b_cols): (usize, usize) = if transposed_b {
            (p.n, p.k)
        } else {
            (p.k, p.n)
        };
        let overflow = KernelError::Fixed("batched gemm shape overflows usize");
        let expected_a: usize = match product3(batches, p.m, p.k) {
            Some(elements) => elements,
            None => {
                return Err(overflow);
            },
        };
        let expected_b: usize = match product3(batches, b_rows, b_cols) {
            Some(elements) => elements,
            None => {
                return Err(overflow);
            },
        };
        let expected_output: usize = match product3(batches, p.m, p.n) {
            Some(elements) => elements,
            None => {
                return Err(overflow);
            },
        };
        if p.matrix_a.len != expected_a {
            return Err(
                KernelError::GroupedShape {
                    family: "batched gemm",
                    operand: "matrix_a has",
                    actual: p.matrix_a.len,
                    groups: batches,
                    unit: "batches",
                    rows: p.m,
                    cols: p.k,
                    required: expected_a,
                },
            );
        }
        if p.matrix_b.len != expected_b {
            return Err(
                KernelError::BatchedOperand {
                    actual: p.matrix_b.len,
                    batches,
                    required: expected_b,
                },
            );
        }
        if p.output.len != expected_output {
            return Err(
                KernelError::GroupedShape {
                    family: "batched gemm",
                    operand: "output has",
                    actual: p.output.len,
                    groups: batches,
                    unit: "batches",
                    rows: p.m,
                    cols: p.n,
                    required: expected_output,
                },
            );
        }
        if p.matrix_a.context != stream.context || p.matrix_b.context != stream.context
            || p.output.context != stream.context {
            return Err(
                KernelError::Fixed("batched gemm stream and buffers must share one context"),
            );
        }
        Ok(batches as u32)
    }

    fn shared_memory_bytes(tile_side: u32) -> (bytes: Result<u32, KernelError>)
        ensures
            tile_bytes_check("gemm shared-memory size overflows", tile_side) is Ok ==> bytes
                == Result::<u32, KernelError>::Ok((tile_side * tile_side * 8) as u32),
            tile_bytes_check("gemm shared-memory size overflows", tile_side) is Err ==> bytes
                == Result::<u32, KernelError>::Err(
                KernelError::Fixed("gemm shared-memory size overflows"),
            ),
    {
        tile_bytes("gemm shared-memory size overflows", tile_side)
    }
}

/// The operands of one batch of a packed product: `index` whole products lie
/// before it in every buffer.
pub open spec fn batch_offsets(p: Product, index: int) -> (int, int, int) {
    (index * p.m * p.k, index * p.k * p.n, index * p.m * p.n)
}

/// The batches of an accepted product partition its packed buffers: each
/// batch lies inside all three, and two batches overlap in none.
pub proof fn batches_partition_the_buffers(
    stream: Stream,
    p: Product,
    batches: usize,
    transposed_b: bool,
    first: int,
    second: int,
)
    requires
        batched_check(stream, p, batches, transposed_b) is Ok,
        0 <= first < second < batches,
    ensures
        batch_offsets(p, first).0 + p.m * p.k <= batch_offsets(p, second).0,
        batch_offsets(p, first).1 + p.k * p.n <= batch_offsets(p, second).1,
        batch_offsets(p, first).2 + p.m * p.n <= batch_offsets(p, second).2,
        batch_offsets(p, second).0 + p.m * p.k <= p.matrix_a.len,
        batch_offsets(p, second).1 + p.k * p.n <= p.matrix_b.len,
        batch_offsets(p, second).2 + p.m * p.n <= p.output.len,
{
    let (m, n, k) = (p.m as int, p.n as int, p.k as int);
    let b = batches as int;
    assert(first * m * k + m * k <= second * m * k) by (nonlinear_arith)
        requires
            first + 1 <= second,
            m >= 0,
            k >= 0,
    ;
    assert(first * k * n + k * n <= second * k * n) by (nonlinear_arith)
        requires
            first + 1 <= second,
            n >= 0,
            k >= 0,
    ;
    assert(first * m * n + m * n <= second * m * n) by (nonlinear_arith)
        requires
            first + 1 <= second,
            m >= 0,
            n >= 0,
    ;
    assert(second * m * k + m * k <= b * m * k) by (nonlinear_arith)
        requires
            second + 1 <= b,
            m >= 0,
            k >= 0,
    ;
    assert(second * k * n + k * n <= b * k * n) by (nonlinear_arith)
        requires
            second + 1 <= b,
            n >= 0,
            k >= 0,
    ;
    assert(second * m * n + m * n <= b * m * n) by (nonlinear_arith)
        requires
            second + 1 <= b,
            m >= 0,
            n >= 0,
    ;
    assert(b * k * n == b * n * k) by (nonlinear_arith);
}

/// A batched product is launched as the single product is: where both are
/// accepted and launch, they launch the same grid of tiles with the same
/// blocks and shared memory, once per batch, over the same dimensions.
pub proof fn batches_follow_the_single_product(
    family: Family,
    stream: Stream,
    single: Product,
    packed: Product,
    batches: usize,
    transposed_b: bool,
)
    requires
        tile_ready(family.width),
        single.m == packed.m,
        single.n == packed.n,
        single.k == packed.k,
        single.m > 0,
        single.n > 0,
        single.k > 0,
        product_check(
            if transposed_b {
                ProductKind::F32TransposedB
            } else {
                ProductKind::F32
            },
            family,
            stream,
            single,
        ) is Ok,
        batched_check(stream, packed, batches, transposed_b) is Ok,
    ensures
        ({
            let kind = if transposed_b {
                ProductKind::F32TransposedB
            } else {
                ProductKind::F32
            };
            let one = product_plan(kind, family, stream, single);
            let many = batched_plan(family, stream, packed, batches, transposed_b);
            &&& one.outcome is Ok <==> many.outcome is Ok
            &&& one.outcome is Ok ==> {
                &&& one.steps.len() == 1
                &&& many.steps.len() == 1
                &&& one.steps[0].action matches Action::Launch(l1)
                &&& l1.shape == tile_shape(
                    family.width,
                    single.m,
                    single.n,
                    1,
                )
                &&& many.steps[0].action matches Action::Launch(l2)
                &&& l2.shape == tile_shape(
                    family.width,
                    single.m,
                    single.n,
                    batches as u32,
                )
                &&& l1.arguments == (Arguments::Product {
                    matrix_a: single.matrix_a.id,
                    matrix_b: single.matrix_b.id,
                    output: single.output.id,
                    m: single.m as u64,
                    n: single.n as u64,
                    k: single.k as u64,
                })
                &&& l2.arguments == (Arguments::BatchedProduct {
                    matrix_a: packed.matrix_a.id,
                    matrix_b: packed.matrix_b.id,
                    output: packed.output.id,
                    batches: batches as u32,
                    m: single.m as u64,
                    n: single.n as u64,
                    k: single.k as u64,
                })
            }
        }),
{
}

/// A refused batched product submits nothing.
pub proof fn refused_batches_submit_nothing(
    family: Family,
    stream: Stream,
    p: Product,
    batches: usize,
    transposed_b: bool,
)
    ensures
        batched_plan(family, stream, p, batches, transposed_b).outcome is Err ==> batched_plan(
            family,
            stream,
            p,
            batches,
            transposed_b,
        ).steps.len() == 0,
{
}

/// A loaded family's block fits every function it was loaded with.
pub proof fn loaded_tiles_fit(side: u32, probes: GemmProbes)
    requires
        gemm_load_check(side, probes) is Ok,
    ensures
        tile_ready(side),
        probes.gemm matches Ok(a) && side * side <= a.max_threads_per_block && side * side * 8
            <= a.max_dynamic_shared_memory_bytes,
        probes.gemm_nt matches Ok(a) && side * side * 8 <= a.max_dynamic_shared_memory_bytes,
        probes.gemm_batched matches Ok(a) && side * side <= a.max_threads_per_block && side * side
            * 8 <= a.max_dynamic_shared_memory_bytes,
        probes.gemm_nt_batched matches Ok(a) && side * side <= a.max_threads_per_block && side
            * side * 8 <= a.max_dynamic_shared_memory_bytes,
{
}

} // verus!
