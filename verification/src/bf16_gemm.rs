//! Tiled matrix-matrix product over packed-bf16 operands with `f32`
//! accumulation.

use crate::arith::power_of_two;
use crate::device::{ContextId, DeviceBuffer, Probe, Stream};
use crate::error::{Checked, KernelError};
use crate::family::{both, check_probe, check_shared, loads, probe_check, shared_check, Family};
use crate::plan::Plan;
use crate::product::{
    check_product, check_side, check_tile_threads, plan_product, tile_bytes, Product, ProductKind,
};
use vstd::prelude::*;

verus! {

use crate::product::{
    product_check, product_plan, side_check, tile_bytes_check, tile_ready, tile_threads_check,
};

/// The tile side of [`Bf16Gemm::load`].
pub const DEFAULT_TILE_SIDE: u32 = 16;

/// Attributes of the two product functions, as the driver reported them.
#[derive(Clone, Copy, Debug)]
pub struct Bf16GemmProbes {
    pub gemm: Probe,
    pub gemm_nt: Probe,
}

/// Context-bound tiled packed-bf16 matrix-matrix product with `f32` compute.
#[derive(Debug)]
pub struct Bf16Gemm {
    family: Family,
}

impl View for Bf16Gemm {
    type V = Family;

    closed spec fn view(&self) -> Family {
        self.family
    }
}

/// The checks on a tile side that need no device.
pub open spec fn bf16_gemm_side_check(side: u32) -> Checked {
    both(
        side_check("bf16 gemm", side),
        tile_bytes_check("bf16 gemm shared-memory size overflows", side),
    )
}

/// All checks of loading, in the order in which they decide.
pub open spec fn bf16_gemm_load_check(side: u32, probes: Bf16GemmProbes) -> Checked {
    let bytes = (side * side * 8) as u32;
    both(
        bf16_gemm_side_check(side),
        both(
            probe_check(probes.gemm),
            both(
                probe_check(probes.gemm_nt),
                both(
                    tile_threads_check("bf16 gemm", side, "threads per block", probes.gemm),
                    both(
                        shared_check("bf16 gemm", bytes, probes.gemm),
                        both(
                            tile_threads_check("bf16 gemm-nt", side, "threads", probes.gemm_nt),
                            shared_check("bf16 gemm-nt", bytes, probes.gemm_nt),
                        ),
                    ),
                ),
            ),
        ),
    )
}

impl Bf16Gemm {
    #[verifier::type_invariant]
    spec fn ready(self) -> bool {
        tile_ready(self.family.width)
    }

    /// Checks a tile side before anything is compiled.
    pub fn check_tile_side(tile_side: u32) -> (check: Checked)
        ensures
            check == bf16_gemm_side_check(tile_side),
    {
        check_side("bf16 gemm", tile_side)?;
        tile_bytes("bf16 gemm shared-memory size overflows", tile_side)?;
        Ok(())
    }

    /// Accepts the compiled functions with the default tile side.
    pub fn load(
        context: ContextId,
        probes: &Bf16GemmProbes,
    ) -> (result: Result<Bf16Gemm, KernelError>)
        ensures
            loads(
                result,
                bf16_gemm_load_check(DEFAULT_TILE_SIDE, *probes),
                Family { context, width: DEFAULT_TILE_SIDE },
            ),
    {
        Self::load_with_tile_side(context, DEFAULT_TILE_SIDE, probes)
    }

    /// Accepts the compiled functions with an explicitly selected
    /// power-of-two tile side.
    pub fn load_with_tile_side(
        context: ContextId,
        tile_side: u32,
        probes: &Bf16GemmProbes,
    ) -> (result: Result<Bf16Gemm, KernelError>)
        ensures
            loads(
                result,
                bf16_gemm_load_check(tile_side, *probes),
                Family { context, width: tile_side },
            ),
    {
        check_side("bf16 gemm", tile_side)?;
        let bytes: u32 = tile_bytes("bf16 gemm shared-memory size overflows", tile_side)?;
        check_probe(probes.gemm)?;
        check_probe(probes.gemm_nt)?;
        check_tile_threads("bf16 gemm", tile_side, "threads per block", probes.gemm)?;
        check_shared("bf16 gemm", bytes, probes.gemm)?;
        check_tile_threads("bf16 gemm-nt", tile_side, "threads", probes.gemm_nt)?;
        check_shared("bf16 gemm-nt", bytes, probes.gemm_nt)?;
        Ok(Bf16Gemm { family: Family { context, width: tile_side } })
    }

    /// Block and tile side used along both matrix dimensions.
    pub fn tile_side(&self) -> (side: u32)
        ensures
            side == self@.width,
            power_of_two(side as nat),
    {
        proof {
            use_type_invariant(self);
        }
        self.family.width
    }

    /// Plans `output = matrix_a * matrix_b` with a wait for completion.
    pub fn gemm(
        &self,
        stream: &Stream,
        matrix_a: &DeviceBuffer,
        matrix_b: &DeviceBuffer,
        output: &DeviceBuffer,
        m: usize,
        n: usize,
        k: usize,
    ) -> (plan: Plan)
        ensures
            plan@ == product_plan(
                ProductKind::Bf16,
                self@,
                *stream,
                Product { matrix_a: *matrix_a, matrix_b: *matrix_b, output: *output, m, n, k },
            ).synchronized(),
    {
        self.enqueue_gemm(stream, matrix_a, matrix_b, output, m, n, k).synchronized()
    }

    /// Plans `output = matrix_a * matrix_b_transposed` with a wait for
    /// completion; `matrix_b` holds `n * k` row-major elements.
    pub fn gemm_transposed_b(
        &self,
        stream: &Stream,
        matrix_a: &DeviceBuffer,
        matrix_b: &DeviceBuffer,
        output: &DeviceBuffer,
        m: usize,
        n: usize,
        k: usize,
    ) -> (plan: Plan)
        ensures
            plan@ == product_plan(
                ProductKind::Bf16TransposedB,
                self@,
                *stream,
                Product { matrix_a: *matrix_a, matrix_b: *matrix_b, output: *output, m, n, k },
            ).synchronized(),
    {
        self.enqueue_gemm_transposed_b(stream, matrix_a, matrix_b, output, m, n, k).synchronized()
    }

    /// Plans the product without a wait.
    pub fn enqueue_gemm(
        &self,
        stream: &Stream,
        matrix_a: &DeviceBuffer,
        matrix_b: &DeviceBuffer,
        output: &DeviceBuffer,
        m: usize,
        n: usize,
        k: usize,
    ) -> (plan: Plan)
        ensures
            plan@ == product_plan(
                ProductKind::Bf16,
                self@,
                *stream,
                Product { matrix_a: *matrix_a, matrix_b: *matrix_b, output: *output, m, n, k },
            ),
    {
        let p = &Product { matrix_a: *matrix_a, matrix_b: *matrix_b, output: *output, m, n, k };
        proof {
            use_type_invariant(self);
        }
        plan_product(ProductKind::Bf16, self.family, stream, p)
    }

    /// Plans the transposed-B product without a wait.
    pub fn enqueue_gemm_transposed_b(
        &self,
        stream: &Stream,
        matrix_a: &DeviceBuffer,
        matrix_b: &DeviceBuffer,
        output: &DeviceBuffer,
        m: usize,
        n: usize,
        k: usize,
    ) -> (plan: Plan)
        ensures
            plan@ == product_plan(
                ProductKind::Bf16TransposedB,
                self@,
                *stream,
                Product { matrix_a: *matrix_a, matrix_b: *matrix_b, output: *output, m, n, k },
            ),
    {
        let p = &Product { matrix_a: *matrix_a, matrix_b: *matrix_b, output: *output, m, n, k };
        proof {
            use_type_invariant(self);
        }
        plan_product(ProductKind::Bf16TransposedB, self.family, stream, p)
    }

    /// Checks the operands of a product.
    pub fn validate_execution(&self, stream: &Stream, p: &Product) -> (check: Checked)
        ensures
            check == product_check(ProductKind::Bf16, self@, *stream, *p),
    {
        check_product(ProductKind::Bf16, self.family, stream, p)
    }

    /// Checks the operands of a transposed-B product.
    pub fn validate_execution_nt(&self, stream: &Stream, p: &Product) -> (check: Checked)
        ensures
            check == product_check(ProductKind::Bf16TransposedB, self@, *stream, *p),
    {
        check_product(ProductKind::Bf16TransposedB, self.family, stream, p)
    }
}

} // verus!
