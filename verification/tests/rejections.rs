//! Requests that are refused before any kernel is launched.

use nnis_kernels::{
    bf16_layer_normalize_rows_dispatched, bf16_rms_normalize_rows_dispatched, Action,
    AttentionMask, AttentionProbes, Bf16Attention, Bf16Elementwise, Bf16Gather, Bf16Gemm,
    Bf16GemmProbes, Bf16Probes, BufferId, ContextId, DeviceBuffer, ElementwiseProbes,
    F32Attention, F32Elementwise, F32Gather, F32Gemm, F32Gemv, F32Int2Gemv, F32LmHeadArgmax,
    F32Reduction, F32RmsNorm, F32Rope, F32Scatter, F32Softmax, F32Softmax2D, F32SparseCscGemv,
    F32TopK, FusedProbes, GemmProbes, Heads, Int2Projection, KernelAttributes, LmHeadProbes,
    Lookup, MatrixVector, Placement, Plan, Probe, Product, RmsNormProbes, RopeProbes, Rotation,
    RowSoftmaxProbes, Rows, Selection, SelectionBuffers, SoftmaxProbes, SparseProjection,
    Stream, TopKProbes, F32,
};

const CONTEXT: ContextId = ContextId { id: 1 };
const STREAM: Stream = Stream { context: CONTEXT };
const ATTRIBUTES: KernelAttributes =
    KernelAttributes { max_threads_per_block: 1024, max_dynamic_shared_memory_bytes: 49_152 };
const PROBE: Probe = Ok(ATTRIBUTES);
const FUSED: FusedProbes = FusedProbes { available: PROBE, fused: PROBE };
const EPSILON: f32 = 1.0e-6;
const GAMMA: f32 = 1.0;

fn scalar(value: f32) -> F32 {
    F32 { bits: value.to_bits() }
}

fn buffer(number: u64, len: usize) -> DeviceBuffer {
    DeviceBuffer::operand(CONTEXT, number, len)
}

/// The message of a plan that is refused; it must not launch anything.
fn refusal(plan: &Plan) -> String {
    for step in &plan.steps {
        assert!(!matches!(step.action, Action::Launch(_)), "{plan:?}");
    }
    match plan.outcome {
        Ok(()) => panic!("accepted: {plan:?}"),
        Err(error) => error.message(),
    }
}

fn is_accepted(plan: &Plan) -> bool {
    plan.outcome.is_ok()
}

fn gemm() -> F32Gemm {
    F32Gemm::load(CONTEXT, &gemm_probes()).unwrap()
}

fn gemm_probes() -> GemmProbes {
    GemmProbes { gemm: PROBE, gemm_nt: PROBE, gemm_batched: PROBE, gemm_nt_batched: PROBE }
}

fn bf16_gemm() -> Bf16Gemm {
    Bf16Gemm::load(CONTEXT, &bf16_gemm_probes()).unwrap()
}

fn bf16_gemm_probes() -> Bf16GemmProbes {
    Bf16GemmProbes { gemm: PROBE, gemm_nt: PROBE }
}

fn elementwise_probes() -> ElementwiseProbes {
    ElementwiseProbes { vector_add: PROBE, scale: PROBE, affine: PROBE }
}

fn elementwise() -> F32Elementwise {
    F32Elementwise::load(CONTEXT, &elementwise_probes()).unwrap()
}

fn softmax_2d_probes() -> RowSoftmaxProbes {
    RowSoftmaxProbes {
        row_max: PROBE,
        exp_shift: PROBE,
        row_sum: PROBE,
        normalize: PROBE,
        fused: PROBE,
    }
}

fn softmax_2d() -> F32Softmax2D {
    F32Softmax2D::load(CONTEXT, &softmax_2d_probes()).unwrap()
}

fn rms_norm_probes() -> RmsNormProbes {
    RmsNormProbes { row_sumsq: PROBE, normalize: PROBE, fused: PROBE }
}

fn rms_norm() -> F32RmsNorm {
    F32RmsNorm::load(CONTEXT, &rms_norm_probes()).unwrap()
}

fn bf16_probes() -> Bf16Probes {
    Bf16Probes {
        vector_add: PROBE,
        scale: PROBE,
        affine: PROBE,
        relu: PROBE,
        silu: PROBE,
        gelu_tanh: PROBE,
        widen: PROBE,
        narrow: PROBE,
    }
}

fn conversions() -> Bf16Elementwise {
    Bf16Elementwise::load(CONTEXT, &bf16_probes()).unwrap()
}

fn attention() -> F32Attention {
    F32Attention::load(CONTEXT, &AttentionProbes { fused: PROBE, scale_causal: PROBE }).unwrap()
}

fn bf16_attention() -> Bf16Attention {
    Bf16Attention::load(CONTEXT, PROBE).unwrap()
}

fn top_k_probes() -> TopKProbes {
    TopKProbes {
        fill: PROBE,
        mask: PROBE,
        argmax_first: PROBE,
        argmax_pair: PROBE,
        argmax_first_memory: PROBE,
        argmax_pair_memory: PROBE,
    }
}

fn product(
    matrix_a: DeviceBuffer,
    matrix_b: DeviceBuffer,
    output: DeviceBuffer,
    m: usize,
    n: usize,
    k: usize,
) -> Product {
    Product { matrix_a, matrix_b, output, m, n, k }
}

/// Attention operands with the given lengths and the shape
/// `(query_rows, head_dim, kv_rows, value_dim)`.
fn heads(lengths: [usize; 4], shape: (usize, usize, usize, usize)) -> Heads {
    Heads {
        queries: buffer(1, lengths[0]),
        keys: buffer(2, lengths[1]),
        values: buffer(3, lengths[2]),
        output: buffer(4, lengths[3]),
        query_rows: shape.0,
        head_dim: shape.1,
        kv_rows: shape.2,
        value_dim: shape.3,
    }
}

#[test]
fn attention_rejects_invalid_shapes_and_oversized_heads_before_launch() {
    let attention = attention();

    // Zero-length key dimension is outside the contract.
    let h = heads([8, 0, 0, 8], (1, 8, 0, 8));
    let error = refusal(&attention.attention_fused(
        &STREAM,
        &h.queries,
        &h.keys,
        &h.values,
        &h.output,
        h.query_rows,
        h.head_dim,
        h.kv_rows,
        h.value_dim,
        scalar(0.25),
        AttentionMask::Unmasked,
        PROBE,
    ));
    assert!(error.contains("non-empty"), "{error}");

    // Short key buffer: 2 x 64 needs 128.
    let h = heads([64, 63, 256, 8], (1, 64, 2, 8));
    let error = refusal(&attention.attention_fused(
        &STREAM,
        &h.queries,
        &h.keys,
        &h.values,
        &h.output,
        h.query_rows,
        h.head_dim,
        h.kv_rows,
        h.value_dim,
        scalar(0.125),
        AttentionMask::Unmasked,
        PROBE,
    ));
    assert!(error.contains("requires 128"), "{error}");

    // Head shapes beyond the dynamic shared-memory limit are rejected.
    assert!(!attention.fused_available(4096, 4096, PROBE));
    let h = heads([4096, 32_768, 64, 8], (1, 4096, 8, 8));
    let error = refusal(&attention.attention_fused(
        &STREAM,
        &h.queries,
        &h.keys,
        &h.values,
        &h.output,
        h.query_rows,
        h.head_dim,
        h.kv_rows,
        h.value_dim,
        scalar(0.03125),
        AttentionMask::Unmasked,
        PROBE,
    ));
    assert!(error.contains("shared-memory"), "{error}");
}

#[test]
fn attention_rejects_causal_on_rectangular_scores_before_launch() {
    let attention = attention();
    let h = heads([2 * 8, 5 * 8, 5 * 4, 2 * 4], (2, 8, 5, 4));
    let error = refusal(&attention.attention_fused(
        &STREAM,
        &h.queries,
        &h.keys,
        &h.values,
        &h.output,
        h.query_rows,
        h.head_dim,
        h.kv_rows,
        h.value_dim,
        scalar(0.25),
        AttentionMask::Causal,
        PROBE,
    ));
    assert!(error.contains("query_rows == kv_rows"), "{error}");

    let error = refusal(&attention.attention_composed(
        &gemm(),
        &elementwise(),
        &softmax_2d(),
        &STREAM,
        &h.queries,
        &h.keys,
        &h.values,
        &h.output,
        h.query_rows,
        h.head_dim,
        h.kv_rows,
        h.value_dim,
        scalar(0.25),
        AttentionMask::Causal,
        &FUSED,
    ));
    assert!(error.contains("query_rows == kv_rows"), "{error}");
}

#[test]
fn attention_multihead_rejects_invalid_shapes_before_launch() {
    let attention = attention();

    // Zero heads is outside the contract.
    let h = heads([8, 8, 8, 8], (1, 8, 1, 8));
    let error = refusal(&attention.attention_fused_multihead(
        &STREAM,
        &h.queries,
        &h.keys,
        &h.values,
        &h.output,
        0,
        h.query_rows,
        h.head_dim,
        h.kv_rows,
        h.value_dim,
        scalar(0.25),
        AttentionMask::Unmasked,
        PROBE,
    ));
    assert!(error.contains("at least one head"), "{error}");

    // Short key buffer under the packed multi-head contract.
    let error = refusal(&attention.attention_fused_multihead(
        &STREAM,
        &h.queries,
        &h.keys,
        &h.values,
        &h.output,
        2,
        h.query_rows,
        h.head_dim,
        h.kv_rows,
        h.value_dim,
        scalar(0.25),
        AttentionMask::Unmasked,
        PROBE,
    ));
    assert!(error.contains("2 heads"), "{error}");

    // Rectangular causal scores remain rejected.
    let h = heads([2 * 2 * 8, 2 * 5 * 8, 2 * 5 * 4, 2 * 2 * 4], (2, 8, 5, 4));
    let error = refusal(&attention.attention_fused_multihead(
        &STREAM,
        &h.queries,
        &h.keys,
        &h.values,
        &h.output,
        2,
        h.query_rows,
        h.head_dim,
        h.kv_rows,
        h.value_dim,
        scalar(0.25),
        AttentionMask::Causal,
        PROBE,
    ));
    assert!(error.contains("query_rows == kv_rows"), "{error}");

    assert!(!attention.fused_available(4096, 4096, PROBE));
}

#[test]
fn bf16_rejects_length_mismatches_before_launch() {
    let bf16 = conversions();
    assert!(Bf16Elementwise::load_with_block_size(CONTEXT, 0, &bf16_probes()).is_err());
    assert!(Bf16Elementwise::check_block_size(0).is_err());
    let short = buffer(1, 3);
    let long = buffer(2, 4);
    let error = refusal(&bf16.vector_add(&STREAM, &short, &long, &short));
    assert!(error.contains("expected 3"), "{error}");
}

#[test]
fn bf16_attention_rejects_invalid_shapes_and_oversized_heads_before_launch() {
    assert!(Bf16Attention::load_with_block_size(CONTEXT, 0, PROBE).is_err());
    assert!(Bf16Attention::load_with_block_size(CONTEXT, 96, PROBE).is_err());
    let bf16_attention = bf16_attention();

    // Zero-length key dimension is outside the contract.
    let h = heads([8, 0, 0, 8], (1, 8, 0, 8));
    let error = refusal(&bf16_attention.attention_fused(
        &STREAM,
        &h.queries,
        &h.keys,
        &h.values,
        &h.output,
        h.query_rows,
        h.head_dim,
        h.kv_rows,
        h.value_dim,
        scalar(0.25),
        AttentionMask::Unmasked,
        PROBE,
    ));
    assert!(error.contains("non-empty"), "{error}");

    // Short key buffer.
    let h = heads([64, 63, 256, 8], (1, 64, 2, 8));
    let error = refusal(&bf16_attention.attention_fused(
        &STREAM,
        &h.queries,
        &h.keys,
        &h.values,
        &h.output,
        h.query_rows,
        h.head_dim,
        h.kv_rows,
        h.value_dim,
        scalar(0.125),
        AttentionMask::Unmasked,
        PROBE,
    ));
    assert!(error.contains("requires 128"), "{error}");

    // Head shapes beyond the dynamic shared-memory limit are rejected.
    assert!(!bf16_attention.fused_available(4096, 4096, PROBE));
    let h = heads([4096, 32_768, 64, 8], (1, 4096, 8, 8));
    let error = refusal(&bf16_attention.attention_fused(
        &STREAM,
        &h.queries,
        &h.keys,
        &h.values,
        &h.output,
        h.query_rows,
        h.head_dim,
        h.kv_rows,
        h.value_dim,
        scalar(0.03125),
        AttentionMask::Unmasked,
        PROBE,
    ));
    assert!(error.contains("shared-memory"), "{error}");

    // Causal masking requires square score shapes on both paths.
    let h = heads([2 * 8, 5 * 8, 5 * 4, 2 * 4], (2, 8, 5, 4));
    let error = refusal(&bf16_attention.attention_fused(
        &STREAM,
        &h.queries,
        &h.keys,
        &h.values,
        &h.output,
        h.query_rows,
        h.head_dim,
        h.kv_rows,
        h.value_dim,
        scalar(0.25),
        AttentionMask::Causal,
        PROBE,
    ));
    assert!(error.contains("query_rows == kv_rows"), "{error}");
    let error = refusal(&bf16_attention.attention_composed(
        &conversions(),
        &attention(),
        &gemm(),
        &elementwise(),
        &softmax_2d(),
        &STREAM,
        &h.queries,
        &h.keys,
        &h.values,
        &h.output,
        h.query_rows,
        h.head_dim,
        h.kv_rows,
        h.value_dim,
        scalar(0.25),
        AttentionMask::Causal,
        &FUSED,
    ));
    assert!(error.contains("query_rows == kv_rows"), "{error}");
}

#[test]
fn bf16_attention_multihead_rejects_invalid_shapes_before_launch() {
    let attention = bf16_attention();

    // Zero heads is outside the contract.
    let h = heads([8, 8, 8, 8], (1, 8, 1, 8));
    let error = refusal(&attention.attention_fused_multihead(
        &STREAM,
        &h.queries,
        &h.keys,
        &h.values,
        &h.output,
        0,
        h.query_rows,
        h.head_dim,
        h.kv_rows,
        h.value_dim,
        scalar(0.25),
        AttentionMask::Unmasked,
        PROBE,
    ));
    assert!(error.contains("at least one head"), "{error}");

    // Short key buffer under the packed multi-head contract.
    let error = refusal(&attention.attention_fused_multihead(
        &STREAM,
        &h.queries,
        &h.keys,
        &h.values,
        &h.output,
        2,
        h.query_rows,
        h.head_dim,
        h.kv_rows,
        h.value_dim,
        scalar(0.25),
        AttentionMask::Unmasked,
        PROBE,
    ));
    assert!(error.contains("2 heads"), "{error}");

    // Rectangular causal scores remain rejected.
    let h = heads([2 * 2 * 8, 2 * 5 * 8, 2 * 5 * 4, 2 * 2 * 4], (2, 8, 5, 4));
    let error = refusal(&attention.attention_fused_multihead(
        &STREAM,
        &h.queries,
        &h.keys,
        &h.values,
        &h.output,
        2,
        h.query_rows,
        h.head_dim,
        h.kv_rows,
        h.value_dim,
        scalar(0.25),
        AttentionMask::Causal,
        PROBE,
    ));
    assert!(error.contains("query_rows == kv_rows"), "{error}");

    assert!(!attention.fused_available(4096, 4096, PROBE));
}

#[test]
fn bf16_gemm_rejects_invalid_shapes_and_tiles_before_launch() {
    assert!(Bf16Gemm::load_with_tile_side(CONTEXT, 0, &bf16_gemm_probes()).is_err());
    assert!(Bf16Gemm::load_with_tile_side(CONTEXT, 24, &bf16_gemm_probes()).is_err());
    assert!(Bf16Gemm::load_with_tile_side(CONTEXT, 64, &bf16_gemm_probes()).is_err());

    let gemm = bf16_gemm();
    let p = product(buffer(1, 12), buffer(2, 11), buffer(3, 9), 3, 3, 4);
    let error = refusal(&gemm.gemm(&STREAM, &p.matrix_a, &p.matrix_b, &p.output, p.m, p.n, p.k));
    assert!(error.contains("requires 12"), "{error}");

    let p = product(buffer(1, 12), buffer(2, 12), buffer(3, 10), 3, 3, 4);
    let error = refusal(&gemm.gemm(&STREAM, &p.matrix_a, &p.matrix_b, &p.output, p.m, p.n, p.k));
    assert!(error.contains("shape (3, 3) requires 9"), "{error}");
}

#[test]
fn bf16_gemm_transposed_b_rejects_invalid_shapes_before_launch() {
    let gemm = bf16_gemm();
    let p = product(buffer(1, 12), buffer(2, 11), buffer(3, 9), 3, 3, 4);
    let error = refusal(&gemm.gemm_transposed_b(
        &STREAM,
        &p.matrix_a,
        &p.matrix_b,
        &p.output,
        p.m,
        p.n,
        p.k,
    ));
    assert!(error.contains("shape (3, 4) requires 12"), "{error}");

    let p = product(buffer(1, 12), buffer(2, 12), buffer(3, 10), 3, 3, 4);
    let error = refusal(&gemm.gemm_transposed_b(
        &STREAM,
        &p.matrix_a,
        &p.matrix_b,
        &p.output,
        p.m,
        p.n,
        p.k,
    ));
    assert!(error.contains("shape (3, 3) requires 9"), "{error}");
}

#[test]
fn bf16_norms_reject_invalid_shapes_and_contexts_before_launch() {
    let conversions = conversions();
    let rms_norm = rms_norm();

    // Zero columns is outside the contract.
    let r = Rows { input: buffer(1, 0), output: buffer(2, 0), rows: 1, cols: 0 };
    let error = refusal(&bf16_rms_normalize_rows_dispatched(
        &conversions,
        &rms_norm,
        &STREAM,
        &r.input,
        &r.output,
        r.rows,
        r.cols,
        scalar(EPSILON),
        scalar(GAMMA),
        &FUSED,
    ));
    assert!(error.contains("non-empty"), "{error}");

    // Short output rejected with the required size in the message.
    let r = Rows { input: buffer(1, 17), output: buffer(2, 16), rows: 1, cols: 17 };
    let error = refusal(&bf16_rms_normalize_rows_dispatched(
        &conversions,
        &rms_norm,
        &STREAM,
        &r.input,
        &r.output,
        r.rows,
        r.cols,
        scalar(EPSILON),
        scalar(GAMMA),
        &FUSED,
    ));
    assert!(error.contains("requires 17"), "{error}");

    // Buffers from a foreign context are rejected before any launch.
    let other = ContextId { id: 2 };
    let error = refusal(&bf16_layer_normalize_rows_dispatched(
        &conversions,
        &STREAM,
        &DeviceBuffer::operand(other, 1, 17),
        &DeviceBuffer::operand(other, 2, 17),
        1,
        17,
        scalar(EPSILON),
        scalar(GAMMA),
        scalar(0.0),
    ));
    assert!(error.contains("share one context"), "{error}");
}

#[test]
fn gather_rejects_out_of_range_indices_before_launch_on_gpu() {
    let f32_gather = F32Gather::load(CONTEXT, PROBE).unwrap();
    let bf16_gather = Bf16Gather::load(CONTEXT, PROBE).unwrap();
    let p = Lookup {
        table: buffer(1, 4 * 8),
        indices: buffer(2, 3),
        output: buffer(3, 3 * 8),
        rows: 4,
        cols: 8,
    };
    let error = refusal(&f32_gather.gather(
        &STREAM,
        &p.table,
        &p.indices,
        &p.output,
        p.rows,
        p.cols,
        &[0, 2, 9],
    ));
    assert!(error.contains("index 9"), "{error}");
    let error = refusal(&bf16_gather.gather(
        &STREAM,
        &p.table,
        &p.indices,
        &p.output,
        p.rows,
        p.cols,
        &[0, 2, 9],
    ));
    assert!(error.contains("index 9"), "{error}");

    // Wrong table size is rejected before any launch.
    let p = Lookup {
        table: buffer(1, 31),
        indices: buffer(2, 2),
        output: buffer(3, 3 * 8),
        rows: 4,
        cols: 8,
    };
    let error = refusal(&f32_gather.gather(
        &STREAM,
        &p.table,
        &p.indices,
        &p.output,
        p.rows,
        p.cols,
        &[1, 3],
    ));
    assert!(error.contains("requires 32"), "{error}");
}

#[test]
fn gemm_rejects_invalid_shapes_and_tiles_before_launch() {
    assert!(F32Gemm::load_with_tile_side(CONTEXT, 0, &gemm_probes()).is_err());
    assert!(F32Gemm::load_with_tile_side(CONTEXT, 24, &gemm_probes()).is_err());
    assert!(F32Gemm::load_with_tile_side(CONTEXT, 64, &gemm_probes()).is_err());

    let gemm = gemm();
    let p = product(buffer(1, 12), buffer(2, 11), buffer(3, 9), 3, 3, 4);
    let error = refusal(&gemm.gemm(&STREAM, &p.matrix_a, &p.matrix_b, &p.output, p.m, p.n, p.k));
    assert!(error.contains("requires 12"), "{error}");

    let p = product(buffer(1, 12), buffer(2, 12), buffer(3, 10), 3, 3, 4);
    let error = refusal(&gemm.gemm(&STREAM, &p.matrix_a, &p.matrix_b, &p.output, p.m, p.n, p.k));
    assert!(error.contains("shape (3, 3) requires 9"), "{error}");
}

#[test]
fn gemm_transposed_b_rejects_invalid_shapes_before_launch() {
    let gemm = gemm();
    let p = product(buffer(1, 12), buffer(2, 11), buffer(3, 9), 3, 3, 4);
    let error = refusal(&gemm.gemm_transposed_b(
        &STREAM,
        &p.matrix_a,
        &p.matrix_b,
        &p.output,
        p.m,
        p.n,
        p.k,
    ));
    assert!(error.contains("shape (3, 4) requires 12"), "{error}");

    let p = product(buffer(1, 12), buffer(2, 12), buffer(3, 10), 3, 3, 4);
    let error = refusal(&gemm.gemm_transposed_b(
        &STREAM,
        &p.matrix_a,
        &p.matrix_b,
        &p.output,
        p.m,
        p.n,
        p.k,
    ));
    assert!(error.contains("shape (3, 3) requires 9"), "{error}");
}

#[test]
fn gemm_batched_rejects_invalid_batches_and_shapes_before_launch() {
    let gemm = gemm();

    // Zero batches is outside the contract.
    let one = product(buffer(1, 1), buffer(1, 1), buffer(1, 1), 1, 1, 1);
    let error = refusal(&gemm.gemm_batched(
        &STREAM,
        &one.matrix_a,
        &one.matrix_b,
        &one.output,
        0,
        one.m,
        one.n,
        one.k,
    ));
    assert!(error.contains("at least one batch"), "{error}");

    // The gridDim.z limit is enforced before launch.
    let big = product(buffer(1, 65_536), buffer(1, 65_536), buffer(2, 65_536), 1, 1, 1);
    let error = refusal(&gemm.gemm_batched(
        &STREAM,
        &big.matrix_a,
        &big.matrix_b,
        &big.output,
        65_536,
        big.m,
        big.n,
        big.k,
    ));
    assert!(error.contains("gridDim.z limit"), "{error}");

    // Short packed operand rejected with the batch count in the message.
    let p = product(
        buffer(1, 2 * 2 * 3 - 1),
        buffer(2, 2 * 3 * 4),
        buffer(3, 2 * 2 * 4),
        2,
        4,
        3,
    );
    let error = refusal(&gemm.gemm_batched(
        &STREAM,
        &p.matrix_a,
        &p.matrix_b,
        &p.output,
        2,
        p.m,
        p.n,
        p.k,
    ));
    assert!(error.contains("2 batches of shape (2, 3)"), "{error}");
}

#[test]
fn gemv_rejects_invalid_shapes_before_launch() {
    assert!(F32Gemv::load_with_block_size(CONTEXT, 0, PROBE).is_err());
    assert!(F32Gemv::load_with_block_size(CONTEXT, 192, PROBE).is_err());
    let gemv = F32Gemv::load(CONTEXT, PROBE).unwrap();
    let p = MatrixVector {
        matrix: buffer(1, 12),
        vector: buffer(2, 3),
        output: buffer(3, 3),
        rows: 3,
        cols: 4,
    };
    let error = refusal(&gemv.gemv(&STREAM, &p.matrix, &p.vector, &p.output, p.rows, p.cols));
    assert!(error.contains("requires 4"), "{error}");

    let p = MatrixVector { vector: buffer(2, 4), output: buffer(3, 4), ..p };
    let error = refusal(&gemv.gemv(&STREAM, &p.matrix, &p.vector, &p.output, p.rows, p.cols));
    assert!(error.contains("shape requires 3"), "{error}");
}

#[test]
fn int2_projection_rejects_shape_contract_violations_before_launch() {
    assert!(F32Int2Gemv::load_with_block_size(CONTEXT, 0, PROBE).is_err());
    assert!(F32Int2Gemv::load_with_block_size(CONTEXT, 48, PROBE).is_err());

    let kernel = F32Int2Gemv::load(CONTEXT, PROBE).unwrap();
    let p = Int2Projection {
        input: buffer(1, 4),
        packed_weight: buffer(2, 3),
        scale: buffer(3, 1),
        output: buffer(4, 3),
        k: 4,
        n: 4,
    };
    let error = refusal(&kernel.project_kn(
        &STREAM,
        &p.input,
        &p.packed_weight,
        &p.scale,
        &p.output,
        p.k,
        p.n,
    ));
    assert!(error.contains("requires 4"), "{error}");

    let p = Int2Projection { packed_weight: buffer(2, 4), scale: buffer(3, 2), ..p };
    let error = refusal(&kernel.project_kn(
        &STREAM,
        &p.input,
        &p.packed_weight,
        &p.scale,
        &p.output,
        p.k,
        p.n,
    ));
    assert!(error.contains("exactly one"), "{error}");
}

#[test]
fn elementwise_rejects_length_mismatches_before_launch() {
    assert!(F32Elementwise::load_with_block_size(CONTEXT, 0, &elementwise_probes()).is_err());
    assert!(F32Elementwise::load_with_block_size(
        CONTEXT,
        ATTRIBUTES.max_threads_per_block + 1,
        &elementwise_probes(),
    )
    .is_err());
    let kernels = elementwise();
    let error = refusal(&kernels.vector_add(&STREAM, &buffer(1, 3), &buffer(2, 4), &buffer(3, 3)));
    assert!(error.contains("right has 4 elements"), "{error}");
}

#[test]
fn rejects_non_power_of_two_block_size_before_cuda_work() {
    let probes = LmHeadProbes { candidates: PROBE, reduce: PROBE };
    assert!(F32LmHeadArgmax::load_with_block_size(CONTEXT, 96, &probes).is_err());
    assert!(F32LmHeadArgmax::check_block_size(96).is_err());
}

#[test]
fn reduction_rejects_invalid_shapes_and_workspace() {
    assert!(F32Reduction::load_with_block_size(CONTEXT, 0, PROBE).is_err());
    assert!(F32Reduction::load_with_block_size(CONTEXT, 192, PROBE).is_err());
    let reduction = F32Reduction::load(CONTEXT, PROBE).unwrap();
    let input = buffer(1, 4);
    let output = buffer(2, 1);
    let a = BufferId::Operand(10);
    let b = BufferId::Operand(11);
    let short_workspace = reduction.workspace(CONTEXT, 3, a, b).unwrap();
    refusal(&reduction.sum_into(&STREAM, &input, &output, &short_workspace));

    let workspace = reduction.workspace(CONTEXT, input.len, a, b).unwrap();
    let wrong_output = buffer(2, 2);
    refusal(&reduction.sum_into(&STREAM, &input, &wrong_output, &workspace));
    assert!(is_accepted(&reduction.sum_into(&STREAM, &input, &output, &workspace)));
}

#[test]
fn fused_rms_norm_rejects_oversized_rows() {
    let rms_norm = rms_norm();
    // (cols + block_size) * 4 bytes must fit the function's dynamic
    // shared-memory limit; 20,000 columns cannot.
    let cols = 20_000_usize;
    let rows = 2_usize;
    let r = Rows { input: buffer(1, rows * cols), output: buffer(2, rows * cols), rows, cols };
    let error = refusal(&rms_norm.fused_normalize_rows(
        &STREAM,
        &r.input,
        &r.output,
        r.rows,
        r.cols,
        scalar(EPSILON),
        scalar(GAMMA),
        PROBE,
    ));
    assert!(error.contains("shared-memory"), "{error}");
}

#[test]
fn rms_norm_rejects_invalid_shapes_before_launch() {
    assert!(F32RmsNorm::load_with_block_size(CONTEXT, 0, &rms_norm_probes()).is_err());
    assert!(F32RmsNorm::load_with_block_size(CONTEXT, 300, &rms_norm_probes()).is_err());
    let rms_norm = rms_norm();
    let workspace = rms_norm.workspace(CONTEXT, 3, BufferId::Operand(9)).unwrap();
    let r = Rows { input: buffer(1, 16), output: buffer(2, 10), rows: 3, cols: 4 };
    let error = refusal(&rms_norm.normalize_rows(
        &STREAM,
        &r.input,
        &r.output,
        r.rows,
        r.cols,
        scalar(EPSILON),
        scalar(GAMMA),
        &workspace,
    ));
    assert!(error.contains("requires 12"), "{error}");

    let r = Rows { input: buffer(1, 16), output: buffer(2, 16), rows: 4, cols: 4 };
    let error = refusal(&rms_norm.normalize_rows(
        &STREAM,
        &r.input,
        &r.output,
        r.rows,
        r.cols,
        scalar(EPSILON),
        scalar(GAMMA),
        &workspace,
    ));
    assert!(error.contains("workspace capacity is 3"), "{error}");
}

#[test]
fn rope_rejects_invalid_shapes_before_launch() {
    let probes = RopeProbes { interleaved: PROBE, rotate_half: PROBE };
    assert!(F32Rope::load_with_block_size(CONTEXT, 0, &probes).is_err());
    let rope = F32Rope::load(CONTEXT, &probes).unwrap();

    // Odd width rejected outright.
    let p = Rotation {
        input: buffer(1, 12),
        cos: buffer(2, 6),
        sin: buffer(2, 6),
        output: buffer(3, 12),
        rows: 2,
        cols: 3,
    };
    let error = refusal(&rope.apply_interleaved(
        &STREAM,
        &p.input,
        &p.cos,
        &p.sin,
        &p.output,
        p.rows,
        p.cols,
    ));
    assert!(error.contains("must be even"), "{error}");

    // Short cache rejected before launch.
    let p = Rotation { cos: buffer(4, 5), cols: 6, ..p };
    let error = refusal(&rope.apply_rotate_half(
        &STREAM,
        &p.input,
        &p.cos,
        &p.sin,
        &p.output,
        p.rows,
        p.cols,
    ));
    assert!(error.contains("holds 5"), "{error}");
}

#[test]
fn fused_row_softmax_rejects_oversized_rows() {
    let softmax = softmax_2d();
    // (cols + block_size) * 4 bytes must fit the function's dynamic
    // shared-memory limit; 20,000 columns cannot.
    let cols = 20_000_usize;
    let rows = 2_usize;
    let r = Rows { input: buffer(1, rows * cols), output: buffer(2, rows * cols), rows, cols };
    let error = refusal(&softmax.fused_softmax_rows(
        &STREAM,
        &r.input,
        &r.output,
        r.rows,
        r.cols,
        PROBE,
    ));
    assert!(error.contains("shared-memory"), "{error}");
}

#[test]
fn row_softmax_rejects_invalid_shapes_before_launch() {
    assert!(F32Softmax2D::load_with_block_size(CONTEXT, 0, &softmax_2d_probes()).is_err());
    assert!(F32Softmax2D::load_with_block_size(CONTEXT, 300, &softmax_2d_probes()).is_err());
    let softmax = softmax_2d();
    let workspace = softmax.workspace(CONTEXT, 3, BufferId::Operand(9)).unwrap();
    let r = Rows { input: buffer(1, 16), output: buffer(2, 10), rows: 3, cols: 4 };
    let error = refusal(&softmax.softmax_rows(
        &STREAM,
        &r.input,
        &r.output,
        r.rows,
        r.cols,
        &workspace,
    ));
    assert!(error.contains("requires 12"), "{error}");

    let r = Rows { input: buffer(1, 16), output: buffer(2, 16), rows: 4, cols: 4 };
    let error = refusal(&softmax.softmax_rows(
        &STREAM,
        &r.input,
        &r.output,
        r.rows,
        r.cols,
        &workspace,
    ));
    assert!(error.contains("workspace capacity is 3"), "{error}");
}

#[test]
fn scatter_rejects_out_of_range_and_duplicate_positions_on_gpu() {
    let scatter = F32Scatter::load(CONTEXT, PROBE).unwrap();
    let p = Placement {
        source: buffer(1, 3 * 8),
        positions: buffer(2, 3),
        output: buffer(3, 4 * 8),
        output_rows: 4,
        cols: 8,
    };
    let error = refusal(&scatter.scatter(
        &STREAM,
        &p.source,
        &p.positions,
        &p.output,
        p.output_rows,
        p.cols,
        &[0, 2, 9],
    ));
    assert!(error.contains("out of range"), "{error}");

    let error = refusal(&scatter.scatter(
        &STREAM,
        &p.source,
        &p.positions,
        &p.output,
        p.output_rows,
        p.cols,
        &[1, 3, 1],
    ));
    assert!(error.contains("duplicate"), "{error}");

    // Wrong source size is rejected before any launch.
    let p = Placement { source: buffer(1, 15), positions: buffer(2, 2), ..p };
    let error = refusal(&scatter.scatter(
        &STREAM,
        &p.source,
        &p.positions,
        &p.output,
        p.output_rows,
        p.cols,
        &[0, 2],
    ));
    assert!(error.contains("requires 16"), "{error}");
}

#[test]
fn softmax_rejects_invalid_shapes_before_launch() {
    let probes = SoftmaxProbes { reduction: PROBE, exp_shift: PROBE, normalize: PROBE };
    assert!(F32Softmax::load_with_block_size(CONTEXT, 0, &probes).is_err());
    let softmax = F32Softmax::load(CONTEXT, &probes).unwrap();
    let short = buffer(1, 3);
    let long = buffer(2, 4);
    let error = refusal(&softmax.softmax(CONTEXT, &STREAM, &short, &long));
    assert!(error.contains("but output has 4"), "{error}");

    let a = BufferId::Operand(10);
    let b = BufferId::Operand(11);
    let workspace = softmax.reduction().workspace(CONTEXT, 4, a, b).unwrap();
    let undersized = softmax.reduction().workspace(CONTEXT, 2, a, b).unwrap();
    let output = buffer(3, 4);
    let input = buffer(4, 4);
    assert!(is_accepted(&softmax.softmax_into(&STREAM, &input, &output, &workspace)));
    refusal(&softmax.softmax_into(&STREAM, &input, &output, &undersized));
}

#[test]
fn sparse_csc_projection_rejects_shape_contract_violations_before_launch() {
    assert!(F32SparseCscGemv::load_with_block_size(CONTEXT, 0, PROBE).is_err());
    assert!(F32SparseCscGemv::load_with_block_size(CONTEXT, 48, PROBE).is_err());

    let kernel = F32SparseCscGemv::load(CONTEXT, PROBE).unwrap();
    let p = SparseProjection {
        input: buffer(1, 4),
        column_offsets: buffer(2, 4),
        row_indices: buffer(3, 2),
        values: buffer(4, 3),
        output: buffer(5, 3),
        k: 4,
        n: 3,
    };
    let error = refusal(&kernel.project_kn(
        &STREAM,
        &p.input,
        &p.column_offsets,
        &p.row_indices,
        &p.values,
        &p.output,
        p.k,
        p.n,
    ));
    assert!(error.contains("row indices"), "{error}");

    let p = SparseProjection { row_indices: buffer(3, 3), column_offsets: buffer(2, 3), ..p };
    let error = refusal(&kernel.project_kn(
        &STREAM,
        &p.input,
        &p.column_offsets,
        &p.row_indices,
        &p.values,
        &p.output,
        p.k,
        p.n,
    ));
    assert!(error.contains("requires 4"), "{error}");
}

#[test]
fn top_k_rejects_invalid_executions_on_gpu() {
    let top_k = F32TopK::load(CONTEXT, &top_k_probes()).unwrap();
    let buffers = SelectionBuffers {
        data: BufferId::Operand(10),
        values_a: BufferId::Operand(11),
        values_b: BufferId::Operand(12),
        indices_a: BufferId::Operand(13),
        indices_b: BufferId::Operand(14),
    };
    let workspace = top_k.workspace(CONTEXT, 8, &buffers).unwrap();
    let s = Selection { input: buffer(1, 8), values: buffer(2, 4), indices: buffer(3, 4), k: 4 };
    assert!(is_accepted(&top_k.enqueue_top_k(
        &STREAM,
        &s.input,
        &s.values,
        &s.indices,
        s.k,
        &workspace,
    )));

    refusal(&top_k.enqueue_top_k(&STREAM, &s.input, &s.values, &s.indices, 0, &workspace));
    refusal(&top_k.enqueue_top_k(&STREAM, &s.input, &s.values, &s.indices, 9, &workspace));
    let short = Selection { values: buffer(2, 3), ..s };
    refusal(&top_k.enqueue_top_k(
        &STREAM,
        &short.input,
        &short.values,
        &short.indices,
        short.k,
        &workspace,
    ));
    let small_workspace = top_k.workspace(CONTEXT, 4, &buffers).unwrap();
    refusal(&top_k.enqueue_top_k(&STREAM, &s.input, &s.values, &s.indices, s.k, &small_workspace));
    let narrow = F32TopK::load_with_block_size(CONTEXT, 128, &top_k_probes()).unwrap();
    refusal(&narrow.enqueue_top_k(&STREAM, &s.input, &s.values, &s.indices, s.k, &workspace));
}
