//! The exact message of every refusal.

use nnis_kernels::{
    bf16_layer_normalize_rows_dispatched, bf16_rms_normalize_rows_dispatched, AttentionMask,
    AttentionProbes, Bf16Attention, Bf16Elementwise, Bf16Gather, Bf16Gemm, Bf16GemmProbes,
    Bf16Probes, Bf16Reduction, Bf16ReductionProbes, Bf16Scatter, BufferId, ContextId,
    DeviceBuffer, DeviceFailure, ElementwiseProbes, F32Attention, F32Bf16Gemv, F32Elementwise,
    F32Gather, F32Gemm, F32Gemv, F32Int2Gemv, F32LmHeadArgmax, F32Reduction, F32RmsNorm,
    F32Rope, F32Scatter, F32Softmax, F32Softmax2D, F32SparseCscGemv, F32TopK, FusedProbes,
    GemmProbes, KernelAttributes, KernelError, LmHeadProbes, Plan, Probe, RmsNormProbes,
    RopeProbes, RowSoftmaxProbes, SelectionBuffers, SoftmaxProbes, Stream, TopKProbes, F32,
};

const CONTEXT: ContextId = ContextId { id: 1 };
const OTHER: ContextId = ContextId { id: 2 };
const STREAM: Stream = Stream { context: CONTEXT };
const PROBE: Probe = probe(1024, 65_536);
const FUSED: FusedProbes = FusedProbes { available: PROBE, fused: PROBE };
const ONE: F32 = F32 { bits: 0x3F80_0000 };
const HUGE: usize = usize::MAX / 2 + 1;

const fn probe(threads: u32, bytes: u32) -> Probe {
    Ok(KernelAttributes { max_threads_per_block: threads, max_dynamic_shared_memory_bytes: bytes })
}

fn failed(number: u64) -> Probe {
    Err(DeviceFailure { number })
}

fn buffer(number: u64, len: usize) -> DeviceBuffer {
    DeviceBuffer::operand(CONTEXT, number, len)
}

fn foreign(number: u64, len: usize) -> DeviceBuffer {
    DeviceBuffer::operand(OTHER, number, len)
}

fn refused(plan: Plan) -> String {
    plan.outcome.unwrap_err().message()
}

fn unloaded<T>(result: Result<T, KernelError>) -> String {
    match result {
        Ok(_) => panic!("loaded"),
        Err(error) => error.message(),
    }
}

fn id(number: u64) -> BufferId {
    BufferId::Operand(number)
}

#[test]
fn device_failures_are_reported_by_number() {
    assert_eq!(
        KernelError::Device(DeviceFailure { number: 7_041_209_358_060 }).message(),
        "device failure 7041209358060"
    );
    assert_eq!(unloaded(F32Gemv::load(CONTEXT, failed(0))), "device failure 0");
}

#[test]
fn elementwise_messages() {
    let probes = ElementwiseProbes { vector_add: PROBE, scale: PROBE, affine: PROBE };
    assert_eq!(
        unloaded(F32Elementwise::load_with_block_size(CONTEXT, 0, &probes)),
        "elementwise block size is zero"
    );
    assert_eq!(
        F32Elementwise::check_block_size(0).unwrap_err().message(),
        "elementwise block size is zero"
    );
    assert_eq!(F32Elementwise::check_block_size(3), Ok(()));
    assert_eq!(
        unloaded(F32Elementwise::load_with_block_size(CONTEXT, 1025, &probes)),
        "vector_add block size 1025 exceeds function limit 1024"
    );
    let narrow = ElementwiseProbes { scale: probe(128, 0), ..probes };
    assert_eq!(
        unloaded(F32Elementwise::load(CONTEXT, &narrow)),
        "scale block size 256 exceeds function limit 128"
    );
    let narrow = ElementwiseProbes { affine: probe(255, 0), ..probes };
    assert_eq!(
        unloaded(F32Elementwise::load(CONTEXT, &narrow)),
        "affine block size 256 exceeds function limit 255"
    );

    let kernels = F32Elementwise::load(CONTEXT, &probes).unwrap();
    let (three, four) = (buffer(1, 3), buffer(2, 4));
    assert_eq!(
        refused(kernels.vector_add(&STREAM, &three, &three, &four)),
        "vector_add buffer output has 4 elements; expected 3"
    );
    assert_eq!(
        refused(kernels.vector_add(&STREAM, &three, &four, &four)),
        "vector_add buffer right has 4 elements; expected 3"
    );
    assert_eq!(
        refused(kernels.scale(&STREAM, &four, &three, ONE)),
        "scale buffer output has 3 elements; expected 4"
    );
    assert_eq!(
        refused(kernels.affine(&STREAM, &four, &three, ONE, ONE)),
        "affine buffer output has 3 elements; expected 4"
    );
}

#[test]
fn bf16_elementwise_messages() {
    let probes = Bf16Probes {
        vector_add: PROBE,
        scale: PROBE,
        affine: PROBE,
        relu: PROBE,
        silu: PROBE,
        gelu_tanh: PROBE,
        widen: PROBE,
        narrow: PROBE,
    };
    assert_eq!(
        unloaded(Bf16Elementwise::load_with_block_size(CONTEXT, 0, &probes)),
        "bf16 block size is zero"
    );
    let limited = probe(64, 0);
    for (probes, message) in [
        (Bf16Probes { vector_add: limited, ..probes }, "vector_add"),
        (Bf16Probes { scale: limited, ..probes }, "scale"),
        (Bf16Probes { affine: limited, ..probes }, "affine"),
        (Bf16Probes { relu: limited, ..probes }, "relu"),
        (Bf16Probes { silu: limited, ..probes }, "silu"),
        (Bf16Probes { gelu_tanh: limited, ..probes }, "gelu_tanh"),
        (Bf16Probes { widen: limited, ..probes }, "widen"),
        (Bf16Probes { narrow: limited, ..probes }, "narrow"),
    ] {
        assert_eq!(
            unloaded(Bf16Elementwise::load(CONTEXT, &probes)),
            format!("bf16 {message} block size 256 exceeds function limit 64")
        );
    }
    let kernels = Bf16Elementwise::load(CONTEXT, &probes).unwrap();
    let (three, four) = (buffer(1, 3), buffer(2, 4));
    assert_eq!(
        refused(kernels.widen(&STREAM, &three, &four)),
        "bf16 buffer 1 has 4 elements; expected 3"
    );
    assert_eq!(
        refused(kernels.vector_add(&STREAM, &three, &three, &four)),
        "bf16 buffer 2 has 4 elements; expected 3"
    );
}

#[test]
fn product_messages() {
    let probes =
        GemmProbes { gemm: PROBE, gemm_nt: PROBE, gemm_batched: PROBE, gemm_nt_batched: PROBE };
    assert_eq!(
        unloaded(F32Gemm::load_with_tile_side(CONTEXT, 24, &probes)),
        "gemm tile side 24 is not a non-zero power of two"
    );
    assert_eq!(
        unloaded(F32Gemm::load_with_tile_side(CONTEXT, 64, &probes)),
        "gemm tile side 64 implies 4096 threads per block; function limit is 1024"
    );
    assert_eq!(
        unloaded(F32Gemm::load_with_tile_side(CONTEXT, 1 << 31, &probes)),
        "gemm shared-memory size overflows"
    );
    let tight = probe(1024, 2047);
    assert_eq!(
        unloaded(F32Gemm::load(CONTEXT, &GemmProbes { gemm: tight, ..probes })),
        "gemm requires 2048 shared-memory bytes; function limit is 2047"
    );
    assert_eq!(
        unloaded(F32Gemm::load(CONTEXT, &GemmProbes { gemm_nt: tight, ..probes })),
        "gemm-nt requires 2048 shared-memory bytes; function limit is 2047"
    );
    let few = probe(255, 65_536);
    assert_eq!(
        unloaded(F32Gemm::load(CONTEXT, &GemmProbes { gemm_batched: few, ..probes })),
        "gemm-batched tile side 16 implies 256 threads per block; function limit is 255"
    );
    assert_eq!(
        unloaded(F32Gemm::load(CONTEXT, &GemmProbes { gemm_nt_batched: tight, ..probes })),
        "gemm-nt-batched requires 2048 shared-memory bytes; function limit is 2047"
    );

    let gemm = F32Gemm::load(CONTEXT, &probes).unwrap();
    let (a, b, c) = (buffer(1, 6), buffer(2, 12), buffer(3, 8));
    assert_eq!(
        refused(gemm.gemm(&STREAM, &buffer(1, 5), &b, &c, 2, 4, 3)),
        "gemm matrix_a has 5 elements; shape (2, 3) requires 6"
    );
    assert_eq!(
        refused(gemm.gemm(&STREAM, &a, &buffer(2, 11), &c, 2, 4, 3)),
        "gemm matrix_b has 11 elements; shape (3, 4) requires 12"
    );
    assert_eq!(
        refused(gemm.gemm_transposed_b(&STREAM, &a, &buffer(2, 11), &c, 2, 4, 3)),
        "gemm-nt matrix_b has 11 elements; shape (4, 3) requires 12"
    );
    assert_eq!(
        refused(gemm.gemm(&STREAM, &a, &b, &buffer(3, 9), 2, 4, 3)),
        "gemm output has 9 elements; shape (2, 4) requires 8"
    );
    assert_eq!(
        refused(gemm.gemm(&STREAM, &a, &foreign(2, 12), &c, 2, 4, 3)),
        "gemm stream, buffers, and kernel must share one context"
    );
    assert_eq!(
        refused(gemm.gemm_transposed_b(&Stream { context: OTHER }, &a, &b, &c, 2, 4, 3)),
        "gemm-nt stream, buffers, and kernel must share one context"
    );
    assert_eq!(
        refused(gemm.gemm(&STREAM, &a, &b, &c, HUGE, 4, 2)),
        "gemm shape overflows usize"
    );
    assert_eq!(
        refused(gemm.gemm_transposed_b(&STREAM, &a, &b, &c, 2, HUGE, 2)),
        "gemm-nt shape overflows usize"
    );

    let wide = 65_535 * 16 + 1;
    assert_eq!(
        refused(gemm.gemm(&STREAM, &buffer(1, 1), &buffer(2, wide), &buffer(3, wide), 1, wide, 1)),
        "gemm requires 65536 column blocks; gridDim.y limit is 65535"
    );
    let tall = ((1 << 32) - 1) * 16 + 1;
    assert_eq!(
        refused(gemm.gemm_transposed_b(
            &STREAM,
            &buffer(1, tall),
            &buffer(2, 1),
            &buffer(3, tall),
            tall,
            1,
            1,
        )),
        "gemm-nt exceeds u32::MAX row blocks"
    );
}

#[test]
fn batched_product_messages() {
    let probes =
        GemmProbes { gemm: PROBE, gemm_nt: PROBE, gemm_batched: PROBE, gemm_nt_batched: PROBE };
    let gemm = F32Gemm::load(CONTEXT, &probes).unwrap();
    let (a, b, c) = (buffer(1, 12), buffer(2, 24), buffer(3, 16));
    assert_eq!(
        refused(gemm.gemm_batched(&STREAM, &a, &b, &c, 0, 2, 4, 3)),
        "gemm requires at least one batch"
    );
    assert_eq!(
        refused(gemm.gemm_transposed_b_batched(&STREAM, &a, &b, &c, 65_536, 2, 4, 3)),
        "batched gemm requires 65536 batch blocks; gridDim.z limit is 65535"
    );
    assert_eq!(
        refused(gemm.gemm_batched(&STREAM, &buffer(1, 11), &b, &c, 2, 2, 4, 3)),
        "batched gemm matrix_a has 11 elements; 2 batches of shape (2, 3) requires 12"
    );
    assert_eq!(
        refused(gemm.gemm_batched(&STREAM, &a, &buffer(2, 23), &c, 2, 2, 4, 3)),
        "batched gemm matrix_b has 23 elements; 2 batches require 24"
    );
    assert_eq!(
        refused(gemm.gemm_transposed_b_batched(&STREAM, &a, &b, &buffer(3, 15), 2, 2, 4, 3)),
        "batched gemm output has 15 elements; 2 batches of shape (2, 4) requires 16"
    );
    assert_eq!(
        refused(gemm.gemm_batched(&STREAM, &foreign(1, 12), &b, &c, 2, 2, 4, 3)),
        "batched gemm stream and buffers must share one context"
    );
    assert_eq!(
        refused(gemm.gemm_batched(&STREAM, &a, &b, &c, 2, HUGE, 4, 3)),
        "batched gemm shape overflows usize"
    );
    let wide = 65_535 * 16 + 1;
    assert_eq!(
        refused(gemm.gemm_batched(
            &STREAM,
            &buffer(1, 1),
            &buffer(2, wide),
            &buffer(3, wide),
            1,
            1,
            wide,
            1,
        )),
        "batched gemm requires 65536 column blocks; gridDim.y limit is 65535"
    );
    let tall = ((1 << 32) - 1) * 16 + 1;
    let (a, b, c) = (buffer(1, tall), buffer(2, 1), buffer(3, tall));
    assert_eq!(
        refused(gemm.gemm_batched(&STREAM, &a, &b, &c, 1, tall, 1, 1)),
        "batched gemm exceeds u32 row blocks"
    );
    assert_eq!(
        refused(gemm.gemm_transposed_b_batched(&STREAM, &a, &b, &c, 1, tall, 1, 1)),
        "batched gemm-nt exceeds u32 row blocks"
    );
}

#[test]
fn bf16_product_messages() {
    let probes = Bf16GemmProbes { gemm: PROBE, gemm_nt: PROBE };
    assert_eq!(
        unloaded(Bf16Gemm::load_with_tile_side(CONTEXT, 24, &probes)),
        "bf16 gemm tile side 24 is not a non-zero power of two"
    );
    assert_eq!(
        unloaded(Bf16Gemm::load_with_tile_side(CONTEXT, 64, &probes)),
        "bf16 gemm tile side 64 implies 4096 threads per block; function limit is 1024"
    );
    let tight = probe(1024, 2047);
    assert_eq!(
        unloaded(Bf16Gemm::load(CONTEXT, &Bf16GemmProbes { gemm_nt: tight, ..probes })),
        "bf16 gemm-nt requires 2048 shared-memory bytes; function limit is 2047"
    );
    let few = probe(255, 65_536);
    assert_eq!(
        unloaded(Bf16Gemm::load(CONTEXT, &Bf16GemmProbes { gemm_nt: few, ..probes })),
        "bf16 gemm-nt tile side 16 implies 256 threads; function limit is 255"
    );
    let gemm = Bf16Gemm::load(CONTEXT, &probes).unwrap();
    let (a, b, c) = (buffer(1, 6), buffer(2, 12), buffer(3, 8));
    assert_eq!(
        refused(gemm.gemm(&STREAM, &a, &buffer(2, 11), &c, 2, 4, 3)),
        "bf16 gemm matrix_b has 11 elements; shape (3, 4) requires 12"
    );
    assert_eq!(
        refused(gemm.gemm_transposed_b(&STREAM, &a, &b, &foreign(3, 8), 2, 4, 3)),
        "bf16 gemm-nt stream, buffers, and kernel must share one context"
    );
    let tall = ((1 << 32) - 1) * 16 + 1;
    let (a, b, c) = (buffer(1, tall), buffer(2, 1), buffer(3, tall));
    assert_eq!(
        refused(gemm.gemm_transposed_b(&STREAM, &a, &b, &c, tall, 1, 1)),
        "bf16 gemm-nt exceeds u32 row blocks"
    );
    assert_eq!(
        refused(gemm.gemm(&STREAM, &a, &b, &c, tall, 1, 1)),
        "bf16 gemm exceeds u32::MAX row blocks"
    );
}

#[test]
fn matrix_vector_messages() {
    assert_eq!(
        unloaded(F32Gemv::load_with_block_size(CONTEXT, 192, PROBE)),
        "gemv block size 192 is not a non-zero power of two"
    );
    assert_eq!(
        unloaded(F32Gemv::load_with_block_size(CONTEXT, 1 << 30, PROBE)),
        "gemv shared-memory size overflows"
    );
    assert_eq!(
        unloaded(F32Gemv::load_with_block_size(CONTEXT, 2048, PROBE)),
        "gemv block size 2048 exceeds function limit 1024"
    );
    assert_eq!(
        unloaded(F32Gemv::load(CONTEXT, probe(1024, 1023))),
        "gemv requires 1024 shared-memory bytes; function limit is 1023"
    );
    let gemv = F32Gemv::load(CONTEXT, PROBE).unwrap();
    assert_eq!(
        refused(gemv.gemv(&STREAM, &buffer(1, 11), &buffer(2, 4), &buffer(3, 3), 3, 4)),
        "gemv matrix has 11 elements; shape (3, 4) requires 12"
    );
    assert_eq!(
        refused(gemv.gemv(&STREAM, &buffer(1, 12), &buffer(2, 5), &buffer(3, 3), 3, 4)),
        "gemv vector has 5 elements; shape requires 4"
    );
    assert_eq!(
        refused(gemv.gemv(&STREAM, &buffer(1, 12), &buffer(2, 4), &buffer(3, 4), 3, 4)),
        "gemv output has 4 elements; shape requires 3"
    );
    assert_eq!(
        refused(gemv.gemv(&STREAM, &buffer(1, 12), &foreign(2, 4), &buffer(3, 3), 3, 4)),
        "gemv stream, buffers, and kernel must share one context"
    );
    assert_eq!(
        refused(gemv.gemv(&STREAM, &buffer(1, 12), &buffer(2, 4), &buffer(3, 3), HUGE, 2)),
        "gemv shape overflows usize"
    );
    let rows = 1 << 32;
    assert_eq!(
        refused(gemv.gemv(&STREAM, &buffer(1, rows), &buffer(2, 1), &buffer(3, rows), rows, 1)),
        "gemv exceeds u32::MAX rows"
    );
}

#[test]
fn reduction_messages() {
    assert_eq!(
        unloaded(F32Reduction::load_with_block_size(CONTEXT, 192, PROBE)),
        "reduction block size 192 is not a non-zero power of two"
    );
    assert_eq!(
        unloaded(F32Reduction::load_with_block_size(CONTEXT, 1 << 30, PROBE)),
        "reduction shared-memory size overflows"
    );
    assert_eq!(
        unloaded(F32Reduction::load_with_block_size(CONTEXT, 2048, PROBE)),
        "reduction block size 2048 exceeds function limit 1024"
    );
    assert_eq!(
        unloaded(F32Reduction::load(CONTEXT, probe(1024, 1023))),
        "reduction requires 1024 shared-memory bytes; function limit is 1023"
    );
    let reduction = F32Reduction::load(CONTEXT, PROBE).unwrap();
    assert_eq!(
        unloaded(reduction.workspace(OTHER, 8, id(8), id(9))),
        "reduction and workspace contexts do not match"
    );
    let workspace = reduction.workspace(CONTEXT, 8, id(8), id(9)).unwrap();
    let (input, output) = (buffer(1, 8), buffer(2, 1));
    assert_eq!(
        refused(reduction.sum_into(&STREAM, &input, &buffer(2, 2), &workspace)),
        "reduction output has 2 elements; expected 1"
    );
    assert_eq!(
        refused(reduction.sum_into(&STREAM, &buffer(1, 9), &output, &workspace)),
        "reduction input has 9 elements; workspace capacity is 8"
    );
    let narrow = F32Reduction::load_with_block_size(CONTEXT, 128, PROBE).unwrap();
    assert_eq!(
        refused(narrow.sum_into(&STREAM, &input, &output, &workspace)),
        "workspace block size 256 does not match reduction block size 128"
    );
    assert_eq!(
        refused(reduction.sum_into(&STREAM, &foreign(1, 8), &output, &workspace)),
        "reduction stream, buffers, workspace, and kernel must share one context"
    );
    let many = ((1 << 32) - 1) * 512 + 1;
    let workspace = reduction.workspace(CONTEXT, many, id(8), id(9)).unwrap();
    assert_eq!(
        refused(reduction.enqueue_sum(&STREAM, &buffer(1, many), &output, &workspace)),
        "reduction grid exceeds u32::MAX blocks"
    );
}

#[test]
fn bf16_reduction_messages() {
    let probes =
        Bf16ReductionProbes { bf16_sum: PROBE, bf16_max: PROBE, sum: PROBE, max: PROBE };
    assert_eq!(
        unloaded(Bf16Reduction::load_with_block_size(CONTEXT, 12, &probes)),
        "bf16 reduction block size 12 is not a non-zero power of two"
    );
    assert_eq!(
        unloaded(Bf16Reduction::load_with_block_size(CONTEXT, 1 << 30, &probes)),
        "bf16 shared-memory size overflows"
    );
    for narrow in [
        Bf16ReductionProbes { bf16_sum: probe(128, 65_536), ..probes },
        Bf16ReductionProbes { bf16_max: probe(128, 65_536), ..probes },
        Bf16ReductionProbes { sum: probe(128, 65_536), ..probes },
        Bf16ReductionProbes { max: probe(128, 65_536), ..probes },
    ] {
        assert_eq!(
            unloaded(Bf16Reduction::load(CONTEXT, &narrow)),
            "bf16 reduction block size 256 exceeds function limit 128"
        );
    }
    assert_eq!(
        unloaded(Bf16Reduction::load(
            CONTEXT,
            &Bf16ReductionProbes { max: probe(1024, 1000), ..probes },
        )),
        "bf16 reduction requires 1024 shared-memory bytes; function limit is 1000"
    );
    let reduction = Bf16Reduction::load(CONTEXT, &probes).unwrap();
    assert_eq!(
        unloaded(reduction.workspace(OTHER, 8, id(8), id(9))),
        "bf16 reduction and workspace contexts do not match"
    );
    let workspace = reduction.workspace(CONTEXT, 8, id(8), id(9)).unwrap();
    let (input, output) = (buffer(1, 8), buffer(2, 1));
    assert_eq!(
        refused(reduction.enqueue_sum(&STREAM, &input, &buffer(2, 0), &workspace)),
        "bf16 reduction output has 0 elements; expected 1"
    );
    assert_eq!(
        refused(reduction.enqueue_max(&STREAM, &buffer(1, 9), &output, &workspace)),
        "bf16 reduction input has 9 elements; workspace capacity is 8"
    );
    let narrow = Bf16Reduction::load_with_block_size(CONTEXT, 128, &probes).unwrap();
    assert_eq!(
        refused(narrow.enqueue_sum(&STREAM, &input, &output, &workspace)),
        "workspace block size 256 does not match reduction block size 128"
    );
    assert_eq!(
        refused(reduction.enqueue_max(&STREAM, &input, &foreign(2, 1), &workspace)),
        "bf16 reduction stream, buffers, workspace, and kernel must share one context"
    );
    let many = ((1 << 32) - 1) * 512 + 1;
    assert_eq!(
        refused(reduction.max(&STREAM, &buffer(1, many)).plan),
        "bf16 grid exceeds u32::MAX blocks"
    );
}

#[test]
fn softmax_messages() {
    let probes = SoftmaxProbes { reduction: PROBE, exp_shift: PROBE, normalize: PROBE };
    assert_eq!(
        unloaded(F32Softmax::load_with_block_size(CONTEXT, 0, &probes)),
        "softmax block size is zero"
    );
    let limited = probe(128, 65_536);
    assert_eq!(
        unloaded(F32Softmax::load(CONTEXT, &SoftmaxProbes { exp_shift: limited, ..probes })),
        "softmax exp_shift block size 256 exceeds function limit 128"
    );
    assert_eq!(
        unloaded(F32Softmax::load(CONTEXT, &SoftmaxProbes { normalize: limited, ..probes })),
        "softmax normalize block size 256 exceeds function limit 128"
    );
    let softmax = F32Softmax::load(CONTEXT, &probes).unwrap();
    let workspace = softmax.reduction().workspace(CONTEXT, 4, id(8), id(9)).unwrap();
    let (input, output) = (buffer(1, 4), buffer(2, 4));
    let (maximum, total) = (buffer(3, 1), buffer(4, 1));
    assert_eq!(
        refused(softmax.softmax(CONTEXT, &STREAM, &input, &buffer(2, 5))),
        "softmax input has 4 elements but output has 5"
    );
    assert_eq!(
        refused(softmax.enqueue_softmax(
            &STREAM,
            &input,
            &output,
            &buffer(3, 2),
            &total,
            &workspace,
        )),
        "softmax max_scratch holds 2 elements; expected exactly 1"
    );
    assert_eq!(
        refused(softmax.enqueue_softmax(
            &STREAM,
            &input,
            &output,
            &maximum,
            &buffer(4, 0),
            &workspace,
        )),
        "softmax sum_scratch holds 0 elements; expected exactly 1"
    );
    assert_eq!(
        refused(softmax.enqueue_softmax(
            &STREAM,
            &input,
            &output,
            &maximum,
            &maximum,
            &workspace,
        )),
        "softmax max_scratch and sum_scratch must be distinct buffers"
    );
    assert_eq!(
        refused(softmax.softmax_into(&STREAM, &foreign(1, 4), &output, &workspace)),
        "softmax stream, buffers, and kernels must share one context"
    );
}

#[test]
fn row_softmax_messages() {
    let probes = RowSoftmaxProbes {
        row_max: PROBE,
        exp_shift: PROBE,
        row_sum: PROBE,
        normalize: PROBE,
        fused: PROBE,
    };
    assert_eq!(
        unloaded(F32Softmax2D::load_with_block_size(CONTEXT, 300, &probes)),
        "row-softmax block size 300 is not a non-zero power of two"
    );
    assert_eq!(
        unloaded(F32Softmax2D::load_with_block_size(CONTEXT, 1 << 30, &probes)),
        "row-softmax shared memory overflows"
    );
    let limited = probe(128, 65_536);
    for (probes, name) in [
        (RowSoftmaxProbes { row_max: limited, ..probes }, "row_max"),
        (RowSoftmaxProbes { exp_shift: limited, ..probes }, "exp_shift"),
        (RowSoftmaxProbes { row_sum: limited, ..probes }, "row_sum"),
        (RowSoftmaxProbes { normalize: limited, ..probes }, "normalize"),
        (RowSoftmaxProbes { fused: limited, ..probes }, "fused"),
    ] {
        assert_eq!(
            unloaded(F32Softmax2D::load(CONTEXT, &probes)),
            format!("row-softmax {name} block size 256 exceeds function limit 128")
        );
    }
    let tight = RowSoftmaxProbes { row_sum: probe(1024, 1000), ..probes };
    assert_eq!(
        unloaded(F32Softmax2D::load(CONTEXT, &tight)),
        "row-softmax row_sum requires 1024 shared-memory bytes; function limit is 1000"
    );
    let softmax = F32Softmax2D::load(CONTEXT, &probes).unwrap();
    assert_eq!(
        unloaded(softmax.workspace(OTHER, 2, id(9))),
        "row-softmax and workspace contexts do not match"
    );
    let workspace = softmax.workspace(CONTEXT, 2, id(9)).unwrap();
    let (input, output) = (buffer(1, 8), buffer(2, 8));
    assert_eq!(
        refused(softmax.softmax_rows(&STREAM, &buffer(1, 7), &output, 2, 4, &workspace)),
        "row-softmax input has 7 elements; shape (2, 4) requires 8"
    );
    assert_eq!(
        refused(softmax.softmax_rows(&STREAM, &input, &buffer(2, 9), 2, 4, &workspace)),
        "row-softmax output has 9 elements; shape (2, 4) requires 8"
    );
    assert_eq!(
        refused(softmax.softmax_rows(&STREAM, &input, &output, 4, 2, &workspace)),
        "row-softmax has 4 rows; workspace capacity is 2"
    );
    assert_eq!(
        refused(softmax.softmax_rows(&STREAM, &foreign(1, 8), &output, 2, 4, &workspace)),
        "row-softmax stream, buffers, and kernels must share one context"
    );
    assert_eq!(
        refused(softmax.softmax_rows(&STREAM, &input, &output, HUGE, 2, &workspace)),
        "row-softmax shape overflows usize"
    );
    let cols = 20_000;
    assert_eq!(
        refused(softmax.fused_softmax_rows(
            &STREAM,
            &buffer(1, cols),
            &buffer(2, cols),
            1,
            cols,
            PROBE,
        )),
        "fused row softmax needs 81024 shared-memory bytes for 20000 columns; \
         function limit is 65536"
    );
    assert_eq!(
        refused(softmax.fused_softmax_rows(
            &STREAM,
            &buffer(1, HUGE),
            &buffer(2, HUGE),
            1,
            HUGE,
            PROBE,
        )),
        "fused row softmax shared size overflows"
    );
    let rows = 1 << 32;
    let workspace = softmax.workspace(CONTEXT, rows, id(9)).unwrap();
    assert_eq!(
        refused(softmax.softmax_rows(
            &STREAM,
            &buffer(1, rows),
            &buffer(2, rows),
            rows,
            1,
            &workspace,
        )),
        "row-softmax exceeds u32::MAX rows"
    );
}

#[test]
fn rms_norm_messages() {
    let probes = RmsNormProbes { row_sumsq: PROBE, normalize: PROBE, fused: PROBE };
    assert_eq!(
        unloaded(F32RmsNorm::load_with_block_size(CONTEXT, 300, &probes)),
        "rms-norm block size 300 is not a non-zero power of two"
    );
    assert_eq!(
        unloaded(F32RmsNorm::load_with_block_size(CONTEXT, 1 << 30, &probes)),
        "rms-norm shared memory overflows"
    );
    let limited = probe(128, 65_536);
    for (probes, name) in [
        (RmsNormProbes { row_sumsq: limited, ..probes }, "row_sumsq"),
        (RmsNormProbes { normalize: limited, ..probes }, "normalize"),
        (RmsNormProbes { fused: limited, ..probes }, "fused"),
    ] {
        assert_eq!(
            unloaded(F32RmsNorm::load(CONTEXT, &probes)),
            format!("rms-norm {name} block size 256 exceeds function limit 128")
        );
    }
    let tight = RmsNormProbes { row_sumsq: probe(1024, 1000), ..probes };
    assert_eq!(
        unloaded(F32RmsNorm::load(CONTEXT, &tight)),
        "rms-norm row_sumsq requires 1024 shared-memory bytes; function limit is 1000"
    );
    let norm = F32RmsNorm::load(CONTEXT, &probes).unwrap();
    assert_eq!(
        unloaded(norm.workspace(OTHER, 2, id(9))),
        "rms-norm and workspace contexts do not match"
    );
    let workspace = norm.workspace(CONTEXT, 2, id(9)).unwrap();
    let (input, output) = (buffer(1, 8), buffer(2, 8));
    assert_eq!(
        refused(norm.normalize_rows(&STREAM, &buffer(1, 7), &output, 2, 4, ONE, ONE, &workspace)),
        "rms-norm input has 7 elements; shape (2, 4) requires 8"
    );
    assert_eq!(
        refused(norm.normalize_rows(&STREAM, &input, &buffer(2, 9), 2, 4, ONE, ONE, &workspace)),
        "rms-norm output has 9 elements; shape (2, 4) requires 8"
    );
    assert_eq!(
        refused(norm.normalize_rows(&STREAM, &input, &output, 4, 2, ONE, ONE, &workspace)),
        "rms-norm has 4 rows; workspace capacity is 2"
    );
    assert_eq!(
        refused(norm.normalize_rows(&STREAM, &input, &foreign(2, 8), 2, 4, ONE, ONE, &workspace)),
        "rms-norm stream, buffers, and kernels must share one context"
    );
    assert_eq!(
        refused(norm.normalize_rows(&STREAM, &input, &output, HUGE, 2, ONE, ONE, &workspace)),
        "rms-norm shape overflows usize"
    );
    let cols = 20_000;
    let (wide_input, wide_output) = (buffer(1, cols), buffer(2, cols));
    assert_eq!(
        refused(norm.fused_normalize_rows(
            &STREAM,
            &wide_input,
            &wide_output,
            1,
            cols,
            ONE,
            ONE,
            PROBE,
        )),
        "fused rms norm needs 81024 shared-memory bytes for 20000 columns; \
         function limit is 65536"
    );
    assert_eq!(
        refused(norm.fused_normalize_rows(
            &STREAM,
            &wide_input,
            &wide_output,
            1,
            cols,
            ONE,
            ONE,
            failed(3),
        )),
        "device failure 3"
    );
    let rows = 1 << 32;
    let workspace = norm.workspace(CONTEXT, rows, id(9)).unwrap();
    let (long_input, long_output) = (buffer(1, rows), buffer(2, rows));
    assert_eq!(
        refused(norm.normalize_rows(
            &STREAM,
            &long_input,
            &long_output,
            rows,
            1,
            ONE,
            ONE,
            &workspace,
        )),
        "rms-norm exceeds u32::MAX rows"
    );
}

#[test]
fn bf16_norm_messages() {
    let probes = Bf16Probes {
        vector_add: PROBE,
        scale: PROBE,
        affine: PROBE,
        relu: PROBE,
        silu: PROBE,
        gelu_tanh: PROBE,
        widen: PROBE,
        narrow: PROBE,
    };
    let conversions = Bf16Elementwise::load(CONTEXT, &probes).unwrap();
    let probes = RmsNormProbes { row_sumsq: PROBE, normalize: PROBE, fused: PROBE };
    let norm = F32RmsNorm::load(CONTEXT, &probes).unwrap();
    assert_eq!(
        refused(bf16_rms_normalize_rows_dispatched(
            &conversions,
            &norm,
            &STREAM,
            &buffer(1, 0),
            &buffer(2, 0),
            0,
            4,
            ONE,
            ONE,
            &FUSED,
        )),
        "bf16 rms norm requires non-empty rows and columns; got rows=0, cols=4"
    );
    let layer = |input: DeviceBuffer, output: DeviceBuffer, rows: usize| {
        refused(bf16_layer_normalize_rows_dispatched(
            &conversions,
            &STREAM,
            &input,
            &output,
            rows,
            4,
            ONE,
            ONE,
            ONE,
        ))
    };
    assert_eq!(
        layer(buffer(1, 8), buffer(2, 7), 2),
        "bf16 layer norm buffers have 8/7 elements; shape (2, 4) requires 8"
    );
    assert_eq!(
        layer(buffer(1, 8), buffer(2, 8), 0),
        "bf16 layer norm requires non-empty rows and columns; got rows=0, cols=4"
    );
    assert_eq!(layer(buffer(1, 8), buffer(2, 8), HUGE), "bf16 norm shape overflows usize");
    assert_eq!(
        layer(buffer(1, 8), foreign(2, 8), 2),
        "bf16 layer norm stream and buffers must share one context"
    );
}

#[test]
fn rope_messages() {
    let probes = RopeProbes { interleaved: PROBE, rotate_half: PROBE };
    assert_eq!(
        unloaded(F32Rope::load_with_block_size(CONTEXT, 0, &probes)),
        "rope block size is zero"
    );
    let narrow = RopeProbes { interleaved: probe(128, 0), ..probes };
    assert_eq!(
        unloaded(F32Rope::load(CONTEXT, &narrow)),
        "rope interleaved block size 256 exceeds function limit 128"
    );
    let narrow = RopeProbes { rotate_half: probe(128, 0), ..probes };
    assert_eq!(
        unloaded(F32Rope::load(CONTEXT, &narrow)),
        "rope rotate_half block size 256 exceeds function limit 128"
    );
    let rope = F32Rope::load(CONTEXT, &probes).unwrap();
    let (input, cos, sin, output) = (buffer(1, 12), buffer(2, 6), buffer(3, 6), buffer(4, 12));
    assert_eq!(
        refused(rope.apply_interleaved(&STREAM, &input, &cos, &sin, &output, 4, 3)),
        "rope width must be even; got 3"
    );
    assert_eq!(
        refused(rope.apply_interleaved(&STREAM, &buffer(1, 11), &cos, &sin, &output, 2, 6)),
        "rope input has 11 elements; shape (2, 6) requires 12"
    );
    assert_eq!(
        refused(rope.apply_rotate_half(&STREAM, &input, &cos, &sin, &buffer(4, 13), 2, 6)),
        "rope output has 13 elements; shape (2, 6) requires 12"
    );
    assert_eq!(
        refused(rope.apply_interleaved(&STREAM, &input, &buffer(2, 5), &sin, &output, 2, 6)),
        "rope cos cache holds 5 elements; expected 6"
    );
    assert_eq!(
        refused(rope.apply_interleaved(&STREAM, &input, &cos, &buffer(3, 7), &output, 2, 6)),
        "rope sin cache holds 7 elements; expected 6"
    );
    assert_eq!(
        refused(rope.apply_interleaved(&STREAM, &input, &foreign(2, 6), &sin, &output, 2, 6)),
        "rope stream, buffers, and kernels must share one context"
    );
    assert_eq!(
        refused(rope.apply_interleaved(&STREAM, &input, &cos, &sin, &output, HUGE, 2)),
        "rope shape overflows usize"
    );
}

#[test]
fn attention_messages() {
    let probes = AttentionProbes { fused: PROBE, scale_causal: PROBE };
    assert_eq!(
        unloaded(F32Attention::load_with_block_size(CONTEXT, 96, &probes)),
        "attention block size 96 is not a non-zero power of two"
    );
    assert_eq!(
        unloaded(F32Attention::load_with_block_size(CONTEXT, 2048, &probes)),
        "attention block size 2048 exceeds function limit 1024"
    );
    let narrow = AttentionProbes { fused: probe(1023, 65_536), ..probes };
    assert_eq!(
        unloaded(F32Attention::load(CONTEXT, &narrow)),
        "attention scale-causal kernel exceeds fused thread limit"
    );
    let attention = F32Attention::load(CONTEXT, &probes).unwrap();
    let fused = |lengths: [usize; 4], shape: [usize; 4], mask: AttentionMask| {
        refused(attention.attention_fused(
            &STREAM,
            &buffer(1, lengths[0]),
            &buffer(2, lengths[1]),
            &buffer(3, lengths[2]),
            &buffer(4, lengths[3]),
            shape[0],
            shape[1],
            shape[2],
            shape[3],
            ONE,
            mask,
            PROBE,
        ))
    };
    let plain = AttentionMask::Unmasked;
    assert_eq!(
        fused([2, 2, 2, 2], [1, 0, 3, 5], plain),
        "attention requires non-empty keys/head/value dimensions; \
         got head_dim=0, kv_rows=3, value_dim=5"
    );
    // Two queries of width three, four keys, values of width five.
    assert_eq!(
        fused([7, 12, 20, 10], [2, 3, 4, 5], plain),
        "attention queries have 7 elements; shape (2, 3) requires 6"
    );
    assert_eq!(
        fused([6, 13, 20, 10], [2, 3, 4, 5], plain),
        "attention keys have 13 elements; shape (4, 3) requires 12"
    );
    assert_eq!(
        fused([6, 12, 21, 10], [2, 3, 4, 5], plain),
        "attention values have 21 elements; shape (4, 5) requires 20"
    );
    assert_eq!(
        fused([6, 12, 20, 11], [2, 3, 4, 5], plain),
        "attention output has 11 elements; shape (2, 5) requires 10"
    );
    assert_eq!(fused([6, 12, 20, 10], [HUGE, 3, 4, 5], plain), "attention shape overflows usize");
    assert_eq!(
        fused([6, 12, 20, 10], [2, 3, 4, 5], AttentionMask::Causal),
        "causal attention requires query_rows == kv_rows; got 2 vs 4"
    );
    assert_eq!(
        fused([40_000, 40_000, 8, 8], [1, 40_000, 1, 8], plain),
        "attention fused path needs 10402592 shared-memory bytes for head (40000, 8) at block 64"
    );
    let rows = 1 << 32;
    assert_eq!(
        fused([rows, 1, 1, rows], [rows, 1, 1, 1], plain),
        "attention exceeds u32::MAX query rows"
    );
    assert_eq!(
        refused(attention.attention_fused(
            &STREAM,
            &foreign(1, 1),
            &buffer(2, 1),
            &buffer(3, 1),
            &buffer(4, 1),
            1,
            1,
            1,
            1,
            ONE,
            plain,
            PROBE,
        )),
        "attention stream, buffers, and kernel must share one context"
    );

    let scores = buffer(5, 6);
    assert_eq!(
        refused(attention.enqueue_scale_causal(&STREAM, &scores, &buffer(6, 5), 2, 3, ONE)),
        "attention scale-causal buffers have 6/5 elements; shape (2, 3) requires 6"
    );
    assert_eq!(
        refused(attention.enqueue_scale_causal(&STREAM, &scores, &foreign(6, 6), 2, 3, ONE)),
        "attention scale-causal stream and buffers must share one context"
    );
    assert_eq!(
        refused(attention.enqueue_scale_causal_multihead(
            &STREAM,
            &scores,
            &buffer(6, 5),
            6,
            1,
            3,
            ONE,
        )),
        "attention multi-head scale-causal buffers have 6/5 elements; requires 6"
    );
    assert_eq!(
        refused(attention.enqueue_scale_causal_multihead(
            &STREAM,
            &foreign(5, 6),
            &buffer(6, 6),
            6,
            1,
            3,
            ONE,
        )),
        "attention multi-head scale-causal stream and buffers must share one context"
    );
}

#[test]
fn multihead_attention_messages() {
    let probes = AttentionProbes { fused: PROBE, scale_causal: PROBE };
    let attention = F32Attention::load(CONTEXT, &probes).unwrap();
    let fused = |lengths: [usize; 4], heads: usize, rows: usize| {
        refused(attention.attention_fused_multihead(
            &STREAM,
            &buffer(1, lengths[0]),
            &buffer(2, lengths[1]),
            &buffer(3, lengths[2]),
            &buffer(4, lengths[3]),
            heads,
            rows,
            3,
            4,
            5,
            ONE,
            AttentionMask::Unmasked,
            PROBE,
        ))
    };
    assert_eq!(fused([12, 24, 40, 20], 0, 2), "attention requires at least one head");
    assert_eq!(
        fused([11, 24, 40, 20], 2, 2),
        "attention queries have 11 elements; 2 heads of shape (2, 3) requires 12"
    );
    assert_eq!(
        fused([12, 25, 40, 20], 2, 2),
        "attention keys have 25 elements; 2 heads of shape (4, 3) requires 24"
    );
    assert_eq!(
        fused([12, 24, 41, 20], 2, 2),
        "attention values have 41 elements; 2 heads of shape (4, 5) requires 40"
    );
    assert_eq!(
        fused([12, 24, 40, 21], 2, 2),
        "attention output has 21 elements; 2 heads of shape (2, 5) requires 20"
    );
    assert_eq!(fused([12, 24, 40, 20], HUGE, 2), "attention shape overflows usize");
    let rows = 1 << 31;
    assert_eq!(
        fused([2 * rows * 3, 24, 40, 2 * rows * 5], 2, rows),
        "attention exceeds u32::MAX head-by-query blocks"
    );
}

#[test]
fn composed_attention_messages() {
    let attention =
        F32Attention::load(CONTEXT, &AttentionProbes { fused: PROBE, scale_causal: PROBE })
            .unwrap();
    let gemm = F32Gemm::load(
        CONTEXT,
        &GemmProbes { gemm: PROBE, gemm_nt: PROBE, gemm_batched: PROBE, gemm_nt_batched: PROBE },
    )
    .unwrap();
    let elementwise = F32Elementwise::load(
        CONTEXT,
        &ElementwiseProbes { vector_add: PROBE, scale: PROBE, affine: PROBE },
    )
    .unwrap();
    let softmax = F32Softmax2D::load(
        CONTEXT,
        &RowSoftmaxProbes {
            row_max: PROBE,
            exp_shift: PROBE,
            row_sum: PROBE,
            normalize: PROBE,
            fused: PROBE,
        },
    )
    .unwrap();
    let composed = |query_len: usize, mask: AttentionMask| {
        refused(attention.attention_composed(
            &gemm,
            &elementwise,
            &softmax,
            &STREAM,
            &buffer(1, query_len),
            &buffer(2, 12),
            &buffer(3, 20),
            &buffer(4, 10),
            2,
            3,
            4,
            5,
            ONE,
            mask,
            &FUSED,
        ))
    };
    assert_eq!(
        composed(7, AttentionMask::Unmasked),
        "attention shapes require queries=6, keys=12, values=20, output=10"
    );
    assert_eq!(
        composed(6, AttentionMask::Causal),
        "causal attention requires query_rows == kv_rows; got 2 vs 4"
    );
}

#[test]
fn bf16_attention_messages() {
    assert_eq!(
        unloaded(Bf16Attention::load_with_block_size(CONTEXT, 96, PROBE)),
        "bf16 attention block size 96 is not a non-zero power of two"
    );
    assert_eq!(
        unloaded(Bf16Attention::load_with_block_size(CONTEXT, 2048, PROBE)),
        "bf16 attention block size 2048 exceeds function limit 1024"
    );
    let attention = Bf16Attention::load(CONTEXT, PROBE).unwrap();
    let fused = |query: DeviceBuffer, heads: Option<usize>, rows: usize, out: usize| {
        let (keys, values, output) = (buffer(2, 12), buffer(3, 20), buffer(4, out));
        let mask = AttentionMask::Unmasked;
        refused(match heads {
            None => attention.attention_fused(
                &STREAM, &query, &keys, &values, &output, rows, 3, 4, 5, ONE, mask, PROBE,
            ),
            Some(heads) => attention.attention_fused_multihead(
                &STREAM, &query, &keys, &values, &output, heads, rows, 3, 4, 5, ONE, mask, PROBE,
            ),
        })
    };
    assert_eq!(
        fused(buffer(1, 7), None, 2, 10),
        "bf16 attention queries have 7 elements; shape (2, 3) requires 6"
    );
    assert_eq!(
        fused(foreign(1, 6), None, 2, 10),
        "bf16 attention stream, buffers, and kernel must share one context"
    );
    assert_eq!(fused(buffer(1, 6), Some(0), 2, 10), "bf16 attention requires at least one head");
    assert_eq!(
        fused(buffer(1, 7), Some(1), 2, 10),
        "bf16 attention queries have 7 elements; 1 heads of shape (2, 3) requires 6"
    );
    assert_eq!(fused(buffer(1, 6), None, HUGE, 10), "bf16 attention shape overflows usize");
    let rows = 1 << 32;
    assert_eq!(
        fused(buffer(1, rows * 3), None, rows, rows * 5),
        "bf16 attention exceeds u32::MAX query rows"
    );
    assert_eq!(
        fused(buffer(1, rows * 3), Some(1), rows, rows * 5),
        "bf16 attention exceeds u32::MAX head-by-query blocks"
    );
}

#[test]
fn projection_messages() {
    assert_eq!(
        unloaded(F32Bf16Gemv::load_with_block_size(CONTEXT, 48, PROBE)),
        "f32-bf16 project block size 48 is not a non-zero power of two"
    );
    assert_eq!(
        unloaded(F32Bf16Gemv::load_with_block_size(CONTEXT, 2048, PROBE)),
        "f32-bf16 project block size 2048 exceeds function limit 1024"
    );
    let mixed = F32Bf16Gemv::load(CONTEXT, PROBE).unwrap();
    assert_eq!(
        refused(mixed.project_kn(&STREAM, &buffer(1, 3), &buffer(2, 8), &buffer(3, 2), 4, 2)),
        "f32-bf16 project input has 3 elements; shape requires 4"
    );
    assert_eq!(
        refused(mixed.project_kn(&STREAM, &buffer(1, 4), &buffer(2, 7), &buffer(3, 2), 4, 2)),
        "f32-bf16 project weight has 7 elements; shape (4, 2) requires 8"
    );
    assert_eq!(
        refused(mixed.project_kn(&STREAM, &buffer(1, 4), &buffer(2, 8), &buffer(3, 3), 4, 2)),
        "f32-bf16 project output has 3 elements; shape requires 2"
    );
    assert_eq!(
        refused(mixed.project_kn(&STREAM, &buffer(1, 4), &foreign(2, 8), &buffer(3, 2), 4, 2)),
        "f32-bf16 project stream, buffers and kernel must share one context"
    );
    assert_eq!(
        refused(mixed.project_kn(&STREAM, &buffer(1, 4), &buffer(2, 8), &buffer(3, 2), HUGE, 2)),
        "f32-bf16 project shape overflows usize"
    );

    let int2 = F32Int2Gemv::load(CONTEXT, PROBE).unwrap();
    let (input, packed, scale, output) = (buffer(1, 4), buffer(2, 3), buffer(3, 1), buffer(4, 3));
    assert_eq!(
        unloaded(F32Int2Gemv::load_with_block_size(CONTEXT, 48, PROBE)),
        "f32-int2 project block size 48 is not a non-zero power of two"
    );
    assert_eq!(
        refused(int2.project_kn(&STREAM, &buffer(1, 5), &packed, &scale, &output, 4, 3)),
        "f32-int2 project input has 5 elements; shape requires 4"
    );
    assert_eq!(
        refused(int2.project_kn(&STREAM, &input, &buffer(2, 4), &scale, &output, 4, 3)),
        "f32-int2 project packed weight has 4 bytes; shape (4, 3) requires 3"
    );
    assert_eq!(
        refused(int2.project_kn(&STREAM, &input, &packed, &buffer(3, 0), &output, 4, 3)),
        "f32-int2 project scale buffer has 0 values; exactly one is required"
    );
    assert_eq!(
        refused(int2.project_kn(&STREAM, &input, &packed, &scale, &buffer(4, 4), 4, 3)),
        "f32-int2 project output has 4 elements; shape requires 3"
    );
    assert_eq!(
        refused(int2.project_kn(&STREAM, &input, &packed, &foreign(3, 1), &output, 4, 3)),
        "f32-int2 project stream, buffers and kernel must share one context"
    );
    assert_eq!(
        refused(int2.project_kn(&STREAM, &input, &packed, &scale, &output, HUGE, 2)),
        "f32-int2 project shape overflows usize"
    );
    assert_eq!(
        refused(int2.project_kn(&STREAM, &input, &packed, &scale, &output, usize::MAX, 1)),
        "f32-int2 packed length overflows usize"
    );

    let sparse = F32SparseCscGemv::load(CONTEXT, PROBE).unwrap();
    let (offsets, rows, values) = (buffer(2, 4), buffer(3, 5), buffer(4, 5));
    assert_eq!(
        unloaded(F32SparseCscGemv::load_with_block_size(CONTEXT, 48, PROBE)),
        "f32-sparse-csc project block size 48 is not a non-zero power of two"
    );
    assert_eq!(
        refused(sparse.project_kn(&STREAM, &buffer(1, 5), &offsets, &rows, &values, &output, 4, 3)),
        "f32-sparse-csc project input has 5 elements; shape requires 4"
    );
    assert_eq!(
        refused(sparse.project_kn(&STREAM, &input, &buffer(2, 3), &rows, &values, &output, 4, 3)),
        "f32-sparse-csc column offsets has 3 entries; shape requires 4"
    );
    assert_eq!(
        refused(sparse.project_kn(&STREAM, &input, &offsets, &buffer(3, 2), &values, &output, 4, 3)),
        "f32-sparse-csc row indices has 2 entries; values has 5"
    );
    assert_eq!(
        refused(sparse.project_kn(&STREAM, &buffer(1, 0), &offsets, &rows, &values, &output, 0, 3)),
        "f32-sparse-csc cannot retain values when K is zero"
    );
    assert_eq!(
        refused(sparse.project_kn(&STREAM, &input, &offsets, &rows, &values, &buffer(5, 2), 4, 3)),
        "f32-sparse-csc project output has 2 elements; shape requires 3"
    );
    assert_eq!(
        refused(sparse.project_kn(
            &STREAM,
            &input,
            &offsets,
            &foreign(3, 5),
            &values,
            &output,
            4,
            3,
        )),
        "f32-sparse-csc project stream, buffers and kernel must share one context"
    );
    assert_eq!(
        refused(sparse.project_kn(
            &STREAM,
            &input,
            &offsets,
            &rows,
            &values,
            &output,
            4,
            usize::MAX,
        )),
        "f32-sparse-csc offset count overflows usize"
    );
}

#[test]
fn row_move_messages() {
    assert_eq!(
        unloaded(F32Gather::load_with_block_size(CONTEXT, 48, PROBE)),
        "gather block size 48 is not a non-zero power of two"
    );
    assert_eq!(
        unloaded(Bf16Gather::load_with_block_size(CONTEXT, 2048, PROBE)),
        "bf16 gather block size 2048 exceeds function limit 1024"
    );
    let gather = F32Gather::load(CONTEXT, PROBE).unwrap();
    let bf16 = Bf16Gather::load(CONTEXT, PROBE).unwrap();
    let (table, indices, output) = (buffer(1, 12), buffer(2, 2), buffer(3, 6));
    assert_eq!(
        refused(gather.gather(&STREAM, &table, &indices, &output, 4, 3, &[3, 4])),
        "gather index 4 at position 1 is out of range for 4 rows"
    );
    assert_eq!(
        refused(bf16.gather(&STREAM, &table, &indices, &output, 4, 3, &[7, 4])),
        "bf16 gather index 7 at position 0 is out of range for 4 rows"
    );
    assert_eq!(
        refused(bf16.gather(&STREAM, &buffer(1, 11), &indices, &output, 4, 3, &[0, 1])),
        "bf16 gather table has 11 elements; shape (4, 3) requires 12"
    );
    assert_eq!(
        refused(bf16.gather(&STREAM, &table, &indices, &buffer(3, 7), 4, 3, &[0, 1])),
        "bf16 gather output has 7 elements; 2 indices x 3 columns requires 6"
    );
    assert_eq!(
        refused(bf16.gather(&STREAM, &table, &foreign(2, 2), &output, 4, 3, &[0, 1])),
        "bf16 gather stream, buffers, and kernel must share one context"
    );
    assert_eq!(
        refused(gather.gather(&STREAM, &foreign(1, 12), &indices, &output, 4, 3, &[0, 1])),
        "gather stream, buffers, and kernel must share one context"
    );
    assert_eq!(
        refused(gather.gather(&STREAM, &table, &indices, &foreign(3, 6), 4, 3, &[0, 1])),
        "gather stream, buffers, and kernel must share one context"
    );

    assert_eq!(
        unloaded(F32Scatter::load_with_block_size(CONTEXT, 48, PROBE)),
        "scatter block size 48 is not a non-zero power of two"
    );
    let scatter = F32Scatter::load(CONTEXT, PROBE).unwrap();
    let bf16 = Bf16Scatter::load(CONTEXT, PROBE).unwrap();
    let (source, positions, output) = (buffer(1, 6), buffer(2, 2), buffer(3, 12));
    assert_eq!(
        refused(scatter.scatter(&STREAM, &source, &positions, &output, 4, 3, &[0, 4])),
        "scatter position 4 at slot 1 is out of range for 4 rows"
    );
    assert_eq!(
        refused(bf16.scatter(&STREAM, &source, &positions, &output, 4, 3, &[3, 3])),
        "bf16 scatter duplicate position 3 would race"
    );
    assert_eq!(
        refused(scatter.scatter(&STREAM, &buffer(1, 5), &positions, &output, 4, 3, &[0, 1])),
        "scatter source has 5 elements; 2 positions x 3 columns requires 6"
    );
    assert_eq!(
        refused(bf16.scatter(&STREAM, &source, &positions, &buffer(3, 11), 4, 3, &[0, 1])),
        "bf16 scatter output has 11 elements; shape (4, 3) requires 12"
    );
    assert_eq!(
        refused(scatter.scatter(&STREAM, &foreign(1, 6), &positions, &output, 4, 3, &[0, 1])),
        "scatter stream, buffers, and kernel must share one context"
    );
}

#[test]
fn argmax_messages() {
    let probes = LmHeadProbes { candidates: PROBE, reduce: PROBE };
    assert_eq!(
        unloaded(F32LmHeadArgmax::load_with_block_size(CONTEXT, 96, &probes)),
        "LM-head argmax block size 96 is not a non-zero power of two"
    );
    assert_eq!(
        unloaded(F32LmHeadArgmax::load_with_block_size(CONTEXT, 1 << 30, &probes)),
        "LM-head argmax shared-memory size overflows"
    );
    let narrow = LmHeadProbes { reduce: probe(32, 65_536), ..probes };
    assert_eq!(
        unloaded(F32LmHeadArgmax::load(CONTEXT, &narrow)),
        "LM-head argmax block size 64 exceeds function limit 32"
    );
    let tight = LmHeadProbes { candidates: probe(1024, 511), ..probes };
    assert_eq!(
        unloaded(F32LmHeadArgmax::load(CONTEXT, &tight)),
        "LM-head argmax requires 512 shared-memory bytes; function limit is 511"
    );
    let argmax = F32LmHeadArgmax::load(CONTEXT, &probes).unwrap();
    assert_eq!(
        unloaded(argmax.workspace(CONTEXT, 0, id(8), id(9))),
        "LM-head argmax vocabulary must be non-zero"
    );
    assert_eq!(
        unloaded(argmax.workspace(CONTEXT, 1 << 32, id(8), id(9))),
        "LM-head argmax vocabulary exceeds u32::MAX"
    );
    assert_eq!(
        unloaded(argmax.workspace(OTHER, 100, id(8), id(9))),
        "LM-head argmax and workspace contexts do not match"
    );
    let workspace = argmax.workspace(CONTEXT, 100, id(8), id(9)).unwrap();
    let (input, weight, value, index) =
        (buffer(1, 3), buffer(2, 300), buffer(3, 1), buffer(4, 1));
    let plan = |input: &DeviceBuffer, weight: &DeviceBuffer, value: &DeviceBuffer, vocab: usize| {
        refused(argmax.argmax_kn(&STREAM, input, weight, value, &index, 3, vocab, &workspace))
    };
    assert_eq!(
        plan(&input, &weight, &value, 0),
        "LM-head argmax vocabulary must be non-zero"
    );
    assert_eq!(
        plan(&input, &weight, &value, 1 << 32),
        "LM-head argmax vocabulary exceeds u32::MAX"
    );
    assert_eq!(
        plan(&buffer(1, 4), &weight, &value, 100),
        "LM-head argmax input has 4 elements; shape requires 3"
    );
    assert_eq!(
        plan(&input, &buffer(2, 299), &value, 100),
        "LM-head argmax weight has 299 elements; shape (3, 100) requires 300"
    );
    assert_eq!(
        plan(&input, &weight, &buffer(3, 2), 100),
        "LM-head argmax outputs must each hold one element; got 2 values and 1 indices"
    );
    assert_eq!(
        plan(&input, &buffer(2, 303), &value, 101),
        "LM-head argmax workspace shape or block size does not match the operation"
    );
    assert_eq!(
        plan(&foreign(1, 3), &weight, &value, 100),
        "LM-head argmax stream, buffers, workspace and kernel must share one context"
    );
    assert_eq!(
        refused(argmax.argmax_kn(&STREAM, &input, &weight, &value, &index, HUGE, 100, &workspace)),
        "LM-head argmax shape overflows usize"
    );
}

#[test]
fn selection_messages() {
    let probes = TopKProbes {
        fill: PROBE,
        mask: PROBE,
        argmax_first: PROBE,
        argmax_pair: PROBE,
        argmax_first_memory: PROBE,
        argmax_pair_memory: PROBE,
    };
    assert_eq!(
        unloaded(F32TopK::load_with_block_size(CONTEXT, 96, &probes)),
        "top-k block size 96 is not a non-zero power of two"
    );
    assert_eq!(
        unloaded(F32TopK::load_with_block_size(CONTEXT, 1 << 30, &probes)),
        "top-k shared-memory size overflows"
    );
    let narrow = TopKProbes { mask: probe(128, 65_536), ..probes };
    assert_eq!(
        unloaded(F32TopK::load(CONTEXT, &narrow)),
        "top-k block size 256 exceeds function limit 128"
    );
    let tight = TopKProbes { argmax_pair_memory: probe(1024, 2000), ..probes };
    assert_eq!(
        unloaded(F32TopK::load(CONTEXT, &tight)),
        "top-k requires 2048 shared-memory bytes; function limit is 2000"
    );
    let top_k = F32TopK::load(CONTEXT, &probes).unwrap();
    let buffers = SelectionBuffers {
        data: id(10),
        values_a: id(11),
        values_b: id(12),
        indices_a: id(13),
        indices_b: id(14),
    };
    assert_eq!(
        unloaded(top_k.workspace(OTHER, 8, &buffers)),
        "top-k and workspace contexts do not match"
    );
    let workspace = top_k.workspace(CONTEXT, 8, &buffers).unwrap();
    let (input, values, indices) = (buffer(1, 8), buffer(2, 3), buffer(3, 3));
    assert_eq!(
        refused(top_k.enqueue_top_k(&STREAM, &input, &values, &indices, 0, &workspace)),
        "top-k requires at least one element"
    );
    assert_eq!(
        refused(top_k.enqueue_top_k(&STREAM, &input, &values, &indices, 9, &workspace)),
        "top-k input has 8 elements; selecting 9 exceeds the input length"
    );
    assert_eq!(
        refused(top_k.enqueue_top_k(&STREAM, &input, &values, &buffer(3, 4), 3, &workspace)),
        "top-k outputs must hold exactly 3 elements; got 3 values and 4 indices"
    );
    assert_eq!(
        refused(top_k.enqueue_top_k(&STREAM, &buffer(1, 9), &values, &indices, 3, &workspace)),
        "top-k input has 9 elements; workspace capacity is 8"
    );
    assert_eq!(
        refused(top_k.enqueue_top_k(&STREAM, &buffer(1, 1 << 32), &values, &indices, 3, &workspace)),
        "top-k input length exceeds u32::MAX"
    );
    let narrow = F32TopK::load_with_block_size(CONTEXT, 128, &probes).unwrap();
    assert_eq!(
        refused(narrow.enqueue_top_k(&STREAM, &input, &values, &indices, 3, &workspace)),
        "workspace block size 256 does not match top-k block size 128"
    );
    assert_eq!(
        refused(top_k.enqueue_top_k(&STREAM, &foreign(1, 8), &values, &indices, 3, &workspace)),
        "top-k stream, buffers, workspace, and kernel must share one context"
    );
}
