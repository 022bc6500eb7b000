//! Exact plans: launch geometry, argument lists, schedules and waits.

use nnis_kernels::tree::{partial_count, tree_passes, Place, TreePass};
use nnis_kernels::{
    bf16_layer_normalize_rows_dispatched, bf16_rms_normalize_rows_dispatched, Action, Argument,
    Arguments, AttentionMask, AttentionProbes, Bf16Attention, Bf16Elementwise, Bf16Gemm,
    Bf16GemmProbes, Bf16Probes, Bf16Reduction, Bf16ReductionProbes, BufferId, ContextId,
    DeviceBuffer, DeviceFailure, Dim3, Element, ElementwiseProbes, F32Attention, F32Bf16Gemv,
    F32Elementwise, F32Gather, F32Gemm, F32Gemv, F32Int2Gemv, F32LmHeadArgmax, F32Reduction,
    F32RmsNorm, F32Rope, F32Scatter, F32Softmax, F32Softmax2D, F32SparseCscGemv, F32TopK,
    FusedProbes, GemmProbes, Kernel, KernelAttributes, KernelError, Launch, LmHeadProbes, Plan,
    Pointer, Probe, RmsNormProbes, RopeProbes, RowSoftmaxProbes, Scalar, Scratch,
    SelectionBuffers, Shape, SoftmaxProbes, Step, Stream, TopKProbes, F32,
};

const CONTEXT: ContextId = ContextId { id: 1 };
const OTHER: ContextId = ContextId { id: 2 };
const STREAM: Stream = Stream { context: CONTEXT };
const PROBE: Probe =
    Ok(KernelAttributes { max_threads_per_block: 1024, max_dynamic_shared_memory_bytes: 65_536 });
const FUSED: FusedProbes = FusedProbes { available: PROBE, fused: PROBE };
const FAILED: Probe = Err(DeviceFailure { number: 5 });
const HALF: F32 = F32 { bits: 0x3F00_0000 };
const ONE: F32 = F32 { bits: 0x3F80_0000 };

fn id(number: u64) -> BufferId {
    BufferId::Operand(number)
}

fn scratch(role: Scratch) -> BufferId {
    BufferId::Scratch(role)
}

fn buffer(number: u64, len: usize) -> DeviceBuffer {
    DeviceBuffer::operand(CONTEXT, number, len)
}

fn own(role: Scratch, len: usize) -> DeviceBuffer {
    DeviceBuffer { id: scratch(role), len, context: CONTEXT }
}

fn grid(grid: [u32; 3], block: [u32; 3], shared_memory_bytes: u32) -> Shape {
    Shape::Grid {
        grid: Dim3 { x: grid[0], y: grid[1], z: grid[2] },
        block: Dim3 { x: block[0], y: block[1], z: block[2] },
        shared_memory_bytes,
    }
}

fn line(blocks: u32, width: u32, shared_memory_bytes: u32) -> Shape {
    grid([blocks, 1, 1], [width, 1, 1], shared_memory_bytes)
}

fn elements(count: usize, block_size: u32) -> Shape {
    Shape::Elements { count, block_size }
}

fn launch(kernel: Kernel, shape: Shape, arguments: Arguments) -> Action {
    Action::Launch(Launch { kernel, shape, arguments })
}

fn unary(input: BufferId, output: BufferId, count: u64) -> Arguments {
    Arguments::Unary { input, output, count }
}

fn allocate(buffer: DeviceBuffer) -> Action {
    Action::Allocate { buffer, element: Element::F32 }
}

/// The calls of an accepted plan.
fn actions(plan: &Plan) -> Vec<Action> {
    assert_eq!(plan.outcome, Ok(()));
    plan.steps.iter().map(|step| step.action).collect()
}

/// A synchronized plan: every call but the last drains on failure, and the
/// last waits.
fn assert_synchronized(plan: &Plan, calls: &[Action]) {
    let mut steps: Vec<Step> =
        calls.iter().map(|&action| Step { action, drain_on_failure: true }).collect();
    steps.push(Step { action: Action::Synchronize, drain_on_failure: false });
    assert_eq!(plan.steps, steps);
    assert_eq!(plan.outcome, Ok(()));
}

fn assert_bare(plan: &Plan, calls: &[Action]) {
    let steps: Vec<Step> =
        calls.iter().map(|&action| Step { action, drain_on_failure: false }).collect();
    assert_eq!(plan.steps, steps);
    assert_eq!(plan.outcome, Ok(()));
}

/// Every call refers to memory of the caller or to scratch that an earlier
/// call allocated.
fn assert_grounded(plan: &Plan) {
    let mut allocated: Vec<BufferId> = Vec::new();
    for call in actions(plan) {
        let used: Vec<BufferId> = match call {
            Action::Launch(launch) => launch
                .arguments
                .to_list()
                .iter()
                .filter_map(|argument| match argument {
                    Argument::Buffer(buffer) => Some(*buffer),
                    Argument::At(pointer) => Some(pointer.buffer),
                    _ => None,
                })
                .collect(),
            Action::Zero(buffer) => vec![buffer],
            Action::LayerNormalize { input, output, .. } => vec![input.id, output.id],
            Action::Allocate { buffer, .. } | Action::AllocatePooled { buffer, .. } => {
                allocated.push(buffer.id);
                vec![]
            }
            Action::Synchronize | Action::Drain => vec![],
        };
        for buffer in used {
            assert!(matches!(buffer, BufferId::Operand(_)) || allocated.contains(&buffer));
        }
    }
}

fn gemm() -> F32Gemm {
    F32Gemm::load(
        CONTEXT,
        &GemmProbes { gemm: PROBE, gemm_nt: PROBE, gemm_batched: PROBE, gemm_nt_batched: PROBE },
    )
    .unwrap()
}

fn elementwise() -> F32Elementwise {
    F32Elementwise::load(
        CONTEXT,
        &ElementwiseProbes { vector_add: PROBE, scale: PROBE, affine: PROBE },
    )
    .unwrap()
}

fn conversions() -> Bf16Elementwise {
    Bf16Elementwise::load(
        CONTEXT,
        &Bf16Probes {
            vector_add: PROBE,
            scale: PROBE,
            affine: PROBE,
            relu: PROBE,
            silu: PROBE,
            gelu_tanh: PROBE,
            widen: PROBE,
            narrow: PROBE,
        },
    )
    .unwrap()
}

fn softmax_2d() -> F32Softmax2D {
    F32Softmax2D::load(
        CONTEXT,
        &RowSoftmaxProbes {
            row_max: PROBE,
            exp_shift: PROBE,
            row_sum: PROBE,
            normalize: PROBE,
            fused: PROBE,
        },
    )
    .unwrap()
}

fn rms_norm() -> F32RmsNorm {
    F32RmsNorm::load(CONTEXT, &RmsNormProbes { row_sumsq: PROBE, normalize: PROBE, fused: PROBE })
        .unwrap()
}

fn attention() -> F32Attention {
    F32Attention::load(CONTEXT, &AttentionProbes { fused: PROBE, scale_causal: PROBE }).unwrap()
}

fn top_k(block_size: u32) -> F32TopK {
    F32TopK::load_with_block_size(
        CONTEXT,
        block_size,
        &TopKProbes {
            fill: PROBE,
            mask: PROBE,
            argmax_first: PROBE,
            argmax_pair: PROBE,
            argmax_first_memory: PROBE,
            argmax_pair_memory: PROBE,
        },
    )
    .unwrap()
}

#[test]
fn elementwise_plans() {
    let kernels = elementwise();
    assert_eq!(kernels.block_size(), 256);
    let (a, b, c) = (buffer(1, 1000), buffer(2, 1000), buffer(3, 1000));
    let add = launch(
        Kernel::VectorAdd,
        elements(1000, 256),
        Arguments::Binary { left: id(1), right: id(2), output: id(3), count: 1000 },
    );
    assert_bare(&kernels.enqueue_vector_add(&STREAM, &a, &b, &c), &[add]);
    assert_bare(&kernels.vector_add(&STREAM, &a, &b, &c), &[add, Action::Synchronize]);
    let scale = launch(
        Kernel::Scale,
        elements(1000, 256),
        Arguments::Scale { input: id(1), output: id(3), scale: HALF, count: 1000 },
    );
    assert_bare(&kernels.scale(&STREAM, &a, &c, HALF), &[scale, Action::Synchronize]);
    let affine = launch(
        Kernel::Affine,
        elements(1000, 256),
        Arguments::Affine { input: id(1), output: id(3), scale: HALF, bias: ONE, count: 1000 },
    );
    assert_bare(&kernels.affine(&STREAM, &a, &c, HALF, ONE), &[affine, Action::Synchronize]);

    // Nothing is launched over empty buffers, and a refused operation does
    // not even wait.
    let empty = buffer(4, 0);
    assert_bare(&kernels.enqueue_scale(&STREAM, &empty, &empty, ONE), &[]);
    assert_bare(&kernels.scale(&STREAM, &empty, &empty, ONE), &[Action::Synchronize]);
    assert!(kernels.scale(&STREAM, &a, &empty, ONE).steps.is_empty());

    let failure = DeviceFailure { number: 9 };
    let blocks = kernels.active_blocks_per_multiprocessor(Ok(4), Ok(5), Ok(6)).unwrap();
    assert_eq!((blocks.vector_add, blocks.scale, blocks.affine), (4, 5, 6));
    assert_eq!(
        kernels.active_blocks_per_multiprocessor(Ok(4), Err(failure), Ok(6)),
        Err(KernelError::Device(failure))
    );
    let occupancy = kernels.occupancy(Ok("add"), Ok("scale"), Ok("affine")).unwrap();
    assert_eq!(
        (occupancy.vector_add, occupancy.scale, occupancy.affine),
        ("add", "scale", "affine")
    );
    assert_eq!(
        kernels.occupancy(Ok(1), Ok(2), Err(failure)),
        Err(KernelError::Device(failure))
    );
}

#[test]
fn bf16_elementwise_plans() {
    let kernels = conversions();
    let (a, b, c) = (buffer(1, 10), buffer(2, 10), buffer(3, 10));
    for (plan, kernel) in [
        (kernels.widen(&STREAM, &a, &c), Kernel::Bf16Widen),
        (kernels.narrow(&STREAM, &a, &c), Kernel::Bf16Narrow),
        (kernels.relu(&STREAM, &a, &c), Kernel::Bf16Relu),
        (kernels.silu(&STREAM, &a, &c), Kernel::Bf16Silu),
        (kernels.gelu_tanh(&STREAM, &a, &c), Kernel::Bf16GeluTanh),
    ] {
        let call = launch(kernel, elements(10, 256), unary(id(1), id(3), 10));
        assert_bare(&plan, &[call, Action::Synchronize]);
    }
    assert_bare(
        &kernels.enqueue_vector_add(&STREAM, &a, &b, &c),
        &[launch(
            Kernel::Bf16VectorAdd,
            elements(10, 256),
            Arguments::Binary { left: id(1), right: id(2), output: id(3), count: 10 },
        )],
    );
    assert_bare(
        &kernels.enqueue_scale(&STREAM, &a, &c, HALF),
        &[launch(
            Kernel::Bf16Scale,
            elements(10, 256),
            Arguments::Scale { input: id(1), output: id(3), scale: HALF, count: 10 },
        )],
    );
    assert_bare(
        &kernels.enqueue_affine(&STREAM, &a, &c, HALF, ONE),
        &[launch(
            Kernel::Bf16Affine,
            elements(10, 256),
            Arguments::Affine { input: id(1), output: id(3), scale: HALF, bias: ONE, count: 10 },
        )],
    );
}

#[test]
fn product_plans_tile_the_output() {
    let gemm = gemm();
    assert_eq!(gemm.tile_side(), 16);
    // A 33 x 17 output takes 3 x 2 tiles of side 16.
    let (m, n, k) = (33, 17, 5);
    let (a, b, c) = (buffer(1, m * k), buffer(2, k * n), buffer(3, m * n));
    let arguments =
        Arguments::Product { matrix_a: id(1), matrix_b: id(2), output: id(3), m: 33, n: 17, k: 5 };
    let shape = grid([3, 2, 1], [16, 16, 1], 2048);
    assert_synchronized(
        &gemm.gemm(&STREAM, &a, &b, &c, m, n, k),
        &[launch(Kernel::Gemm, shape, arguments)],
    );
    assert_synchronized(
        &gemm.gemm_transposed_b(&STREAM, &a, &b, &c, m, n, k),
        &[launch(Kernel::GemmNt, shape, arguments)],
    );
    assert_bare(
        &gemm.enqueue_gemm(&STREAM, &a, &b, &c, m, n, k),
        &[launch(Kernel::Gemm, shape, arguments)],
    );

    let (a, b, c) = (buffer(1, 7 * m * k), buffer(2, 7 * k * n), buffer(3, 7 * m * n));
    let arguments = Arguments::BatchedProduct {
        matrix_a: id(1),
        matrix_b: id(2),
        output: id(3),
        batches: 7,
        m: 33,
        n: 17,
        k: 5,
    };
    let shape = grid([3, 2, 7], [16, 16, 1], 2048);
    assert_synchronized(
        &gemm.gemm_batched(&STREAM, &a, &b, &c, 7, m, n, k),
        &[launch(Kernel::GemmBatched, shape, arguments)],
    );
    assert_synchronized(
        &gemm.gemm_transposed_b_batched(&STREAM, &a, &b, &c, 7, m, n, k),
        &[launch(Kernel::GemmNtBatched, shape, arguments)],
    );

    let probes = Bf16GemmProbes { gemm: PROBE, gemm_nt: PROBE };
    let bf16 = Bf16Gemm::load_with_tile_side(CONTEXT, 8, &probes).unwrap();
    let (a, b, c) = (buffer(1, m * k), buffer(2, k * n), buffer(3, m * n));
    let arguments =
        Arguments::Product { matrix_a: id(1), matrix_b: id(2), output: id(3), m: 33, n: 17, k: 5 };
    let shape = grid([5, 3, 1], [8, 8, 1], 512);
    assert_synchronized(
        &bf16.gemm(&STREAM, &a, &b, &c, m, n, k),
        &[launch(Kernel::Bf16Gemm, shape, arguments)],
    );
    assert_synchronized(
        &bf16.gemm_transposed_b(&STREAM, &a, &b, &c, m, n, k),
        &[launch(Kernel::Bf16GemmNt, shape, arguments)],
    );
}

#[test]
fn empty_products_zero_or_leave_the_output() {
    let gemm = gemm();
    let empty = buffer(1, 0);
    let output = buffer(3, 6);
    assert_synchronized(
        &gemm.gemm(&STREAM, &empty, &empty, &output, 2, 3, 0),
        &[Action::Zero(id(3))],
    );
    assert_synchronized(
        &gemm.gemm_batched(&STREAM, &empty, &empty, &output, 1, 2, 3, 0),
        &[Action::Zero(id(3))],
    );
    assert_synchronized(&gemm.gemm(&STREAM, &empty, &buffer(2, 15), &empty, 0, 3, 5), &[]);
    assert_synchronized(&gemm.gemm(&STREAM, &buffer(2, 10), &empty, &empty, 2, 0, 5), &[]);
    assert_bare(&gemm.enqueue_gemm(&STREAM, &buffer(2, 10), &empty, &empty, 2, 0, 5), &[]);
}

#[test]
fn a_refused_operation_still_drains_the_stream() {
    let gemm = gemm();
    let (a, b, c) = (buffer(1, 6), buffer(2, 12), buffer(3, 9));
    let plan = gemm.gemm(&STREAM, &a, &b, &c, 2, 4, 3);
    assert_eq!(plan.steps, [Step { action: Action::Drain, drain_on_failure: false }]);
    assert!(plan.outcome.is_err());
    let plan = gemm.enqueue_gemm(&STREAM, &a, &b, &c, 2, 4, 3);
    assert!(plan.steps.is_empty());
    assert!(plan.outcome.is_err());
}

#[test]
fn plans_compose_until_one_is_refused() {
    let refusal = KernelError::Fixed("no");
    let first = || Plan::one(Action::Zero(id(1)));
    let second = || Plan::one(Action::Synchronize);
    assert_eq!(
        actions(&first().followed_by(second()).followed_by(first())),
        actions(&first().followed_by(second().followed_by(first())))
    );
    assert_eq!(actions(&Plan::done().followed_by(first())), actions(&first()));
    assert_eq!(actions(&first().followed_by(Plan::done())), actions(&first()));
    let plan = first().followed_by(Plan::rejected(refusal)).followed_by(second());
    assert_eq!(plan.steps.len(), 1);
    assert_eq!(plan.outcome, Err(refusal));

    // Synchronizing a plan refused halfway drains what it submitted and
    // reports the refusal.
    let plan = plan.synchronized();
    assert_eq!(
        plan.steps,
        [
            Step { action: Action::Zero(id(1)), drain_on_failure: true },
            Step { action: Action::Drain, drain_on_failure: false },
        ]
    );
    assert_eq!(plan.outcome, Err(refusal));
}

#[test]
fn tree_schedules() {
    let pass = |elements, output_elements, source, destination| TreePass {
        elements,
        output_elements,
        source,
        destination,
    };
    assert_eq!(
        tree_passes(1_000_003, 256),
        [
            pass(1_000_003, 1954, Place::Input, Place::ScratchA),
            pass(1954, 4, Place::ScratchA, Place::ScratchB),
            pass(4, 1, Place::ScratchB, Place::Output),
        ]
    );
    // Two elements per thread: a block of one thread halves its input.
    assert_eq!(
        tree_passes(9, 1),
        [
            pass(9, 5, Place::Input, Place::ScratchA),
            pass(5, 3, Place::ScratchA, Place::ScratchB),
            pass(3, 2, Place::ScratchB, Place::ScratchA),
            pass(2, 1, Place::ScratchA, Place::Output),
        ]
    );
    assert_eq!(tree_passes(512, 256), [pass(512, 1, Place::Input, Place::Output)]);
    assert_eq!(tree_passes(1, 256), [pass(1, 1, Place::Input, Place::Output)]);
    assert_eq!(partial_count(0, 256), Ok(0));
    assert_eq!(partial_count(513, 256), Ok(2));
}

#[test]
fn reduction_plans_follow_the_tree() {
    let reduction = F32Reduction::load(CONTEXT, PROBE).unwrap();
    let n = 1_000_003;
    let workspace = reduction.workspace(CONTEXT, n, id(8), id(9)).unwrap();
    assert_eq!((workspace.max_elements(), workspace.scratch_capacity()), (n, 1954));
    assert_bare(
        &workspace.allocation(),
        &[allocate(buffer(8, 1954)), allocate(buffer(9, 1954))],
    );
    let sum = |blocks, from, to, count| {
        launch(Kernel::ReduceSum, line(blocks, 256, 1024), unary(from, to, count))
    };
    let calls = [
        sum(1954, id(1), id(8), 1_000_003),
        sum(4, id(8), id(9), 1954),
        sum(1, id(9), id(2), 4),
    ];
    let (input, output) = (buffer(1, n), buffer(2, 1));
    assert_bare(&reduction.enqueue_sum(&STREAM, &input, &output, &workspace), &calls);
    assert_synchronized(&reduction.sum_into(&STREAM, &input, &output, &workspace), &calls);
    // A larger workspace serves a smaller input.
    assert_bare(
        &reduction.enqueue_max(&STREAM, &buffer(1, 512), &output, &workspace),
        &[launch(Kernel::ReduceMax, line(1, 256, 1024), unary(id(1), id(2), 512))],
    );
    // The sum of nothing is zero.
    assert_synchronized(
        &reduction.sum_into(&STREAM, &buffer(1, 0), &output, &workspace),
        &[Action::Zero(id(2))],
    );

    let plan = reduction.sum(&STREAM, &buffer(1, 600));
    assert_eq!(plan.scalar, Scalar::ElementOf(scratch(Scratch::ReductionOutput)));
    assert_eq!(
        actions(&plan.plan),
        [
            allocate(own(Scratch::ReductionA, 2)),
            allocate(own(Scratch::ReductionB, 2)),
            allocate(own(Scratch::ReductionOutput, 1)),
            sum(2, id(1), scratch(Scratch::ReductionA), 600),
            sum(1, scratch(Scratch::ReductionA), scratch(Scratch::ReductionOutput), 2),
            Action::Synchronize,
        ]
    );
    let drains: Vec<bool> = plan.plan.steps.iter().map(|step| step.drain_on_failure).collect();
    assert_eq!(drains, [false, false, false, true, true, false]);
}

#[test]
fn bf16_reductions_widen_in_the_first_pass_only() {
    let probes =
        Bf16ReductionProbes { bf16_sum: PROBE, bf16_max: PROBE, sum: PROBE, max: PROBE };
    let reduction = Bf16Reduction::load(CONTEXT, &probes).unwrap();
    let workspace = reduction.workspace(CONTEXT, 2000, id(8), id(9)).unwrap();
    assert_eq!((workspace.max_elements(), workspace.scratch_capacity()), (2000, 4));
    let (input, output) = (buffer(1, 2000), buffer(2, 1));
    assert_bare(
        &reduction.enqueue_sum(&STREAM, &input, &output, &workspace),
        &[
            launch(Kernel::Bf16ReduceSum, line(4, 256, 1024), unary(id(1), id(8), 2000)),
            launch(Kernel::ReduceSum, line(1, 256, 1024), unary(id(8), id(2), 4)),
        ],
    );
    assert_bare(
        &reduction.enqueue_max(&STREAM, &input, &output, &workspace),
        &[
            launch(Kernel::Bf16ReduceMax, line(4, 256, 1024), unary(id(1), id(8), 2000)),
            launch(Kernel::ReduceMax, line(1, 256, 1024), unary(id(8), id(2), 4)),
        ],
    );
    // Nothing is submitted for the maximum of nothing, whose value is the
    // identity of the maximum.
    assert_bare(&reduction.enqueue_max(&STREAM, &buffer(1, 0), &output, &workspace), &[]);
    let plan = reduction.max(&STREAM, &buffer(1, 0));
    assert_bare(&plan.plan, &[]);
    assert_eq!(plan.scalar, Scalar::Constant(F32 { bits: f32::NEG_INFINITY.to_bits() }));
    let plan = reduction.sum(&STREAM, &buffer(1, 0));
    assert_eq!(plan.scalar, Scalar::ElementOf(scratch(Scratch::ReductionOutput)));
    assert!(actions(&plan.plan).contains(&Action::Zero(scratch(Scratch::ReductionOutput))));
}

#[test]
fn softmax_plans_run_four_stages() {
    let probes = SoftmaxProbes { reduction: PROBE, exp_shift: PROBE, normalize: PROBE };
    let softmax = F32Softmax::load_with_block_size(CONTEXT, 128, &probes).unwrap();
    assert_eq!((softmax.block_size(), softmax.reduction().block_size()), (128, 256));
    let (input, output) = (buffer(1, 100), buffer(2, 100));
    let stages = |maximum: BufferId, total: BufferId| {
        [
            launch(Kernel::ReduceMax, line(1, 256, 1024), unary(id(1), maximum, 100)),
            launch(
                Kernel::SoftmaxExpShift,
                elements(100, 128),
                Arguments::ExpShift { input: id(1), output: id(2), maximum, count: 100 },
            ),
            launch(Kernel::ReduceSum, line(1, 256, 1024), unary(id(2), total, 100)),
            launch(
                Kernel::SoftmaxNormalize,
                elements(100, 128),
                Arguments::Divide { data: id(2), total, count: 100 },
            ),
        ]
    };
    let workspace = softmax.reduction().workspace(CONTEXT, 100, id(8), id(9)).unwrap();
    let (maximum, total) = (buffer(3, 1), buffer(4, 1));
    let plan =
        softmax.enqueue_softmax(&STREAM, &input, &output, &maximum, &total, &workspace);
    assert_bare(&plan, &stages(id(3), id(4)));
    let plan =
        softmax.enqueue_softmax_pooled(&STREAM, &input, &output, &maximum, &total, &workspace);
    assert_bare(&plan, &stages(id(3), id(4)));

    let scalars = [
        allocate(own(Scratch::SoftmaxMax, 1)),
        allocate(own(Scratch::SoftmaxSum, 1)),
    ];
    let own_stages = stages(scratch(Scratch::SoftmaxMax), scratch(Scratch::SoftmaxSum));
    let mut calls = scalars.to_vec();
    calls.extend(own_stages);
    calls.push(Action::Synchronize);
    assert_eq!(actions(&softmax.softmax_into(&STREAM, &input, &output, &workspace)), calls);

    let mut alone =
        vec![allocate(own(Scratch::ReductionA, 1)), allocate(own(Scratch::ReductionB, 1))];
    alone.extend(calls);
    assert_eq!(actions(&softmax.softmax(CONTEXT, &STREAM, &input, &output)), alone);
    let pooled: Vec<Action> = alone
        .iter()
        .map(|&action| match action {
            Action::Allocate { buffer, element } => Action::AllocatePooled { buffer, element },
            other => other,
        })
        .collect();
    assert_eq!(actions(&softmax.softmax_pooled(&STREAM, &input, &output, CONTEXT)), pooled);

    // Nothing is launched over an empty input.
    let empty = buffer(5, 0);
    assert_bare(
        &softmax.enqueue_softmax(&STREAM, &empty, &empty, &maximum, &total, &workspace),
        &[],
    );
    // A workspace for a foreign context is refused before any allocation.
    assert!(softmax.softmax(OTHER, &STREAM, &input, &output).steps.is_empty());
}

#[test]
fn row_softmax_plans() {
    let softmax = softmax_2d();
    let (input, output) = (buffer(1, 12), buffer(2, 12));
    let workspace = softmax.workspace(CONTEXT, 5, id(9)).unwrap();
    assert_eq!(workspace.max_rows(), 5);
    assert_bare(&workspace.allocation(), &[allocate(buffer(9, 5))]);
    let staged = |scalars: BufferId| {
        [
            launch(Kernel::SoftmaxRowMax, line(3, 256, 1024), unary(id(1), scalars, 4)),
            launch(
                Kernel::SoftmaxRowExpShift,
                elements(12, 256),
                Arguments::RowExpShift {
                    input: id(1),
                    output: id(2),
                    row_max: scalars,
                    rows: 3,
                    cols: 4,
                },
            ),
            launch(Kernel::SoftmaxRowSum, line(3, 256, 1024), unary(id(2), scalars, 4)),
            launch(
                Kernel::SoftmaxRowNormalize,
                elements(12, 256),
                Arguments::RowDivide { data: id(2), row_total: scalars, rows: 3, cols: 4 },
            ),
        ]
    };
    assert_synchronized(
        &softmax.softmax_rows(&STREAM, &input, &output, 3, 4, &workspace),
        &staged(id(9)),
    );
    // (4 + 256) * 4 bytes of shared memory.
    let fused = launch(Kernel::SoftmaxRowFused, line(3, 256, 1040), unary(id(1), id(2), 4));
    assert_synchronized(
        &softmax.fused_softmax_rows(&STREAM, &input, &output, 3, 4, PROBE),
        &[fused],
    );

    // The dispatch takes the fused path where the row fits.
    assert!(softmax.fused_available(16_128, PROBE));
    assert!(!softmax.fused_available(16_129, PROBE));
    assert!(!softmax.fused_available(4, FAILED));
    assert_synchronized(
        &softmax.softmax_rows_dispatched(&STREAM, &input, &output, 3, 4, &FUSED),
        &[fused],
    );
    let unknown = FusedProbes { available: FAILED, fused: PROBE };
    let scalars = scratch(Scratch::RowScalars);
    let mut calls = vec![allocate(own(Scratch::RowScalars, 3))];
    calls.extend(staged(scalars));
    calls.push(Action::Synchronize);
    assert_eq!(
        actions(&softmax.softmax_rows_dispatched(&STREAM, &input, &output, 3, 4, &unknown)),
        calls
    );

    let empty = buffer(3, 0);
    assert_synchronized(&softmax.softmax_rows(&STREAM, &empty, &empty, 0, 4, &workspace), &[]);
    assert_synchronized(
        &softmax.fused_softmax_rows(&STREAM, &empty, &empty, 3, 0, FAILED),
        &[],
    );
}

#[test]
fn rms_norm_plans() {
    let norm = rms_norm();
    let (input, output) = (buffer(1, 12), buffer(2, 12));
    let workspace = norm.workspace(CONTEXT, 3, id(9)).unwrap();
    assert_eq!(workspace.max_rows(), 3);
    let staged = |sums: BufferId| {
        [
            launch(Kernel::RmsNormRowSumSq, line(3, 256, 1024), unary(id(1), sums, 4)),
            launch(
                Kernel::RmsNormNormalize,
                elements(12, 256),
                Arguments::RmsNormalize {
                    input: id(1),
                    output: id(2),
                    row_sumsq: sums,
                    rows: 3,
                    cols: 4,
                    epsilon: HALF,
                    gamma: ONE,
                },
            ),
        ]
    };
    assert_synchronized(
        &norm.normalize_rows(&STREAM, &input, &output, 3, 4, HALF, ONE, &workspace),
        &staged(id(9)),
    );
    let fused = launch(
        Kernel::RmsNormRowFused,
        line(3, 256, 1040),
        Arguments::RmsFused {
            input: id(1),
            output: id(2),
            cols: 4,
            epsilon: HALF,
            gamma: ONE,
        },
    );
    assert_synchronized(
        &norm.normalize_rows_dispatched(&STREAM, &input, &output, 3, 4, HALF, ONE, &FUSED),
        &[fused],
    );
    assert_bare(
        &norm.enqueue_rows_dispatched(&STREAM, &input, &output, 3, 4, HALF, ONE, &FUSED),
        &[fused],
    );
    let unknown = FusedProbes { available: FAILED, fused: PROBE };
    let mut calls = vec![allocate(own(Scratch::RowSumOfSquares, 3))];
    calls.extend(staged(scratch(Scratch::RowSumOfSquares)));
    assert_bare(
        &norm.enqueue_rows_dispatched(&STREAM, &input, &output, 3, 4, HALF, ONE, &unknown),
        &calls,
    );
    calls.push(Action::Synchronize);
    assert_eq!(
        actions(&norm.normalize_rows_dispatched(
            &STREAM, &input, &output, 3, 4, HALF, ONE, &unknown,
        )),
        calls
    );

    // The attributes may change between the two questions.
    let withdrawn = FusedProbes { available: PROBE, fused: FAILED };
    let plan =
        norm.normalize_rows_dispatched(&STREAM, &input, &output, 3, 4, HALF, ONE, &withdrawn);
    assert_eq!(plan.outcome, Err(KernelError::Device(DeviceFailure { number: 5 })));
}

#[test]
fn bf16_norms_wait_once_at_the_end() {
    let (input, output) = (buffer(1, 12), buffer(2, 12));
    let (wide_input, wide_output) =
        (scratch(Scratch::WideInput), scratch(Scratch::WideOutput));
    let plan = bf16_rms_normalize_rows_dispatched(
        &conversions(),
        &rms_norm(),
        &STREAM,
        &input,
        &output,
        3,
        4,
        HALF,
        ONE,
        &FUSED,
    );
    let fused = launch(
        Kernel::RmsNormRowFused,
        line(3, 256, 1040),
        Arguments::RmsFused {
            input: wide_input,
            output: wide_output,
            cols: 4,
            epsilon: HALF,
            gamma: ONE,
        },
    );
    let widen = launch(Kernel::Bf16Widen, elements(12, 256), unary(id(1), wide_input, 12));
    let narrow = launch(Kernel::Bf16Narrow, elements(12, 256), unary(wide_output, id(2), 12));
    let allocations =
        [allocate(own(Scratch::WideInput, 12)), allocate(own(Scratch::WideOutput, 12))];
    assert_eq!(
        actions(&plan),
        [allocations[0], allocations[1], widen, fused, narrow, Action::Synchronize]
    );
    let drains: Vec<bool> = plan.steps.iter().map(|step| step.drain_on_failure).collect();
    assert_eq!(drains, [false, false, true, true, true, false]);

    let plan = bf16_layer_normalize_rows_dispatched(
        &conversions(),
        &STREAM,
        &input,
        &output,
        3,
        4,
        HALF,
        ONE,
        HALF,
    );
    assert_eq!(
        actions(&plan),
        [
            allocations[0],
            allocations[1],
            widen,
            Action::LayerNormalize {
                input: own(Scratch::WideInput, 12),
                output: own(Scratch::WideOutput, 12),
                rows: 3,
                cols: 4,
                epsilon: HALF,
                gamma: ONE,
                beta: HALF,
            },
            narrow,
            Action::Synchronize,
        ]
    );
}

#[test]
fn fused_attention_plans() {
    let attention = attention();
    assert_eq!(attention.block_size(), 64);
    // 64 * (3 + 5) + 2 * 64 + 3 + 5 words.
    assert_eq!(attention.fused_shared_memory_bytes(3, 5), Some(2592));
    assert_eq!(attention.fused_shared_memory_bytes(usize::MAX, 5), None);
    let (q, k, v, o) = (buffer(1, 6), buffer(2, 12), buffer(3, 20), buffer(4, 10));
    let plan = attention.attention_fused(
        &STREAM,
        &q,
        &k,
        &v,
        &o,
        2,
        3,
        4,
        5,
        HALF,
        AttentionMask::Unmasked,
        PROBE,
    );
    let call = |kernel, causal| {
        launch(
            kernel,
            line(2, 64, 2592),
            Arguments::Attention {
                queries: id(1),
                keys: id(2),
                values: id(3),
                output: id(4),
                query_rows: 2,
                head_dim: 3,
                kv_rows: 4,
                value_dim: 5,
                scale: HALF,
                causal,
            },
        )
    };
    assert_synchronized(&plan, &[call(Kernel::AttentionFused, 0)]);
    let bf16 = Bf16Attention::load(CONTEXT, PROBE).unwrap();
    let plan = bf16.attention_fused(
        &STREAM,
        &q,
        &k,
        &v,
        &o,
        2,
        3,
        4,
        5,
        HALF,
        AttentionMask::Unmasked,
        PROBE,
    );
    assert_synchronized(&plan, &[call(Kernel::Bf16AttentionFused, 0)]);

    // Three causal heads of two rows take six blocks.
    let (q, k, v, o) = (buffer(1, 18), buffer(2, 18), buffer(3, 30), buffer(4, 30));
    let plan = attention.attention_fused_multihead(
        &STREAM,
        &q,
        &k,
        &v,
        &o,
        3,
        2,
        3,
        2,
        5,
        HALF,
        AttentionMask::Causal,
        PROBE,
    );
    assert_synchronized(
        &plan,
        &[launch(
            Kernel::AttentionFusedMultihead,
            line(6, 64, 2592),
            Arguments::MultiheadAttention {
                queries: id(1),
                keys: id(2),
                values: id(3),
                output: id(4),
                heads: 3,
                query_rows: 2,
                head_dim: 3,
                kv_rows: 2,
                value_dim: 5,
                scale: HALF,
                causal: 1,
            },
        )],
    );

    // No query rows leave nothing to do.
    let empty = buffer(5, 0);
    let plan = attention.attention_fused(
        &STREAM,
        &empty,
        &k,
        &v,
        &empty,
        0,
        3,
        6,
        5,
        HALF,
        AttentionMask::Unmasked,
        PROBE,
    );
    assert_synchronized(&plan, &[]);
}

#[test]
fn composed_attention_plans() {
    let attention = attention();
    let (q, k, v, o) = (buffer(1, 8), buffer(2, 8), buffer(3, 12), buffer(4, 12));
    let compose = |mask: AttentionMask| {
        attention.attention_composed(
            &gemm(),
            &elementwise(),
            &softmax_2d(),
            &STREAM,
            &q,
            &k,
            &v,
            &o,
            4,
            2,
            4,
            3,
            HALF,
            mask,
            &FUSED,
        )
    };
    let (scores, probabilities) = (scratch(Scratch::Scores), scratch(Scratch::Probabilities));
    let score = launch(
        Kernel::GemmNt,
        grid([1, 1, 1], [16, 16, 1], 2048),
        Arguments::Product {
            matrix_a: id(1),
            matrix_b: id(2),
            output: scores,
            m: 4,
            n: 4,
            k: 2,
        },
    );
    let softmax = launch(
        Kernel::SoftmaxRowFused,
        line(4, 256, 1040),
        unary(probabilities, probabilities, 4),
    );
    let value = launch(
        Kernel::Gemm,
        grid([1, 1, 1], [16, 16, 1], 2048),
        Arguments::Product {
            matrix_a: probabilities,
            matrix_b: id(3),
            output: id(4),
            m: 4,
            n: 3,
            k: 4,
        },
    );
    let scaled = launch(
        Kernel::Scale,
        elements(16, 256),
        Arguments::Scale { input: scores, output: probabilities, scale: HALF, count: 16 },
    );
    let causal = launch(
        Kernel::AttentionScaleCausal,
        elements(16, 256),
        Arguments::ScaleCausal {
            scores,
            output: probabilities,
            query_rows: 4,
            kv_rows: 4,
            scale: HALF,
        },
    );
    let before = [
        allocate(own(Scratch::Probabilities, 16)),
        allocate(own(Scratch::Scores, 16)),
        score,
        Action::Synchronize,
    ];
    let after = [softmax, Action::Synchronize, value, Action::Synchronize];

    let mut calls = before.to_vec();
    calls.extend([scaled, Action::Synchronize]);
    calls.extend(after);
    assert_eq!(actions(&compose(AttentionMask::Unmasked)), calls);

    // The causal scaling is waited for together with the softmax.
    let mut calls = before.to_vec();
    calls.push(causal);
    calls.extend(after);
    assert_eq!(actions(&compose(AttentionMask::Causal)), calls);
}

#[test]
fn composed_attention_never_ends_while_the_scaling_runs() {
    let (q, k, v, o) = (buffer(1, 8), buffer(2, 8), buffer(3, 12), buffer(4, 12));
    let small = Ok(KernelAttributes {
        max_threads_per_block: 1024,
        max_dynamic_shared_memory_bytes: 1039,
    });
    let staged = FusedProbes { available: small, fused: small };
    let compose = |softmax: &F32Softmax2D, mask: AttentionMask| {
        attention().attention_composed(
            &gemm(),
            &elementwise(),
            softmax,
            &STREAM,
            &q,
            &k,
            &v,
            &o,
            4,
            2,
            4,
            3,
            HALF,
            mask,
            &staged,
        )
    };
    let drains = |plan: &Plan| -> Vec<bool> {
        plan.steps.iter().map(|step| step.drain_on_failure).collect()
    };

    // Scratch, scores and their wait; the scaling, which starts with nothing
    // running; the row scalars, allocated while it runs; the four stages and
    // their wait; the values and their wait.
    let plan = compose(&softmax_2d(), AttentionMask::Causal);
    let calls = actions(&plan);
    assert!(matches!(calls[4], Action::Launch(scaling)
        if scaling.kernel == Kernel::AttentionScaleCausal));
    assert_eq!(calls[5], allocate(own(Scratch::RowScalars, 4)));
    assert_eq!(
        drains(&plan),
        [false, false, true, false, false, true, true, true, true, true, false, true, false]
    );
    // The plain scaling has its own wait, so the row scalars need no drain.
    let plan = compose(&softmax_2d(), AttentionMask::Unmasked);
    let calls = actions(&plan);
    assert_eq!(calls[5], Action::Synchronize);
    assert_eq!(calls[6], allocate(own(Scratch::RowScalars, 4)));
    assert!(!plan.steps[6].drain_on_failure);

    // A softmax of another context is refused while the scaling runs.
    let foreign = F32Softmax2D::load(
        OTHER,
        &RowSoftmaxProbes {
            row_max: PROBE,
            exp_shift: PROBE,
            row_sum: PROBE,
            normalize: PROBE,
            fused: PROBE,
        },
    )
    .unwrap();
    let plan = compose(&foreign, AttentionMask::Causal);
    assert!(plan.outcome.is_err());
    assert_eq!(plan.steps.len(), 6);
    assert!(matches!(plan.steps[4].action, Action::Launch(_)));
    assert_eq!(plan.steps[5], Step { action: Action::Drain, drain_on_failure: false });
    let plan = compose(&foreign, AttentionMask::Unmasked);
    assert!(plan.outcome.is_err());
    assert_eq!(plan.steps.last().unwrap().action, Action::Synchronize);
}

#[test]
fn guarded_plans_drain_what_is_running() {
    let zero = Plan::one(Action::Zero(id(1)));
    let error = KernelError::Fixed("refused");
    let plan = zero.followed_by(Plan::one(allocate(buffer(2, 1)))).guarded();
    let step = |action: Action, drain_on_failure: bool| Step { action, drain_on_failure };
    assert_eq!(
        plan.steps,
        [step(Action::Zero(id(1)), false), step(allocate(buffer(2, 1)), true)]
    );
    assert_eq!(plan.outcome, Ok(()));
    let plan = Plan::one(Action::Zero(id(1))).followed_by(Plan::rejected(error)).guarded();
    assert_eq!(plan.steps, [step(Action::Zero(id(1)), false), step(Action::Drain, false)]);
    assert_eq!(plan.outcome, Err(error));
    let plan = Plan::one(Action::Zero(id(1))).awaited().followed_by(Plan::rejected(error));
    assert_eq!(
        plan.guarded().steps,
        [step(Action::Zero(id(1)), false), step(Action::Synchronize, false)]
    );
    assert!(Plan::rejected(error).guarded().steps.is_empty());
}

#[test]
fn composed_multihead_attention_plan() {
    let (q, k, v, o) = (buffer(1, 16), buffer(2, 16), buffer(3, 24), buffer(4, 24));
    let plan = attention().attention_composed_multihead(
        &gemm(),
        &elementwise(),
        &softmax_2d(),
        &STREAM,
        &q,
        &k,
        &v,
        &o,
        2,
        4,
        2,
        4,
        3,
        HALF,
        AttentionMask::Causal,
        &FUSED,
    );
    let probabilities = scratch(Scratch::Probabilities);
    let shape = grid([1, 1, 2], [16, 16, 1], 2048);
    assert_eq!(
        actions(&plan),
        [
            allocate(own(Scratch::Probabilities, 32)),
            launch(
                Kernel::GemmNtBatched,
                shape,
                Arguments::BatchedProduct {
                    matrix_a: id(1),
                    matrix_b: id(2),
                    output: probabilities,
                    batches: 2,
                    m: 4,
                    n: 4,
                    k: 2,
                },
            ),
            Action::Synchronize,
            launch(
                Kernel::AttentionScaleCausalMultihead,
                elements(32, 256),
                Arguments::MultiheadScaleCausal {
                    scores: probabilities,
                    output: probabilities,
                    elements: 32,
                    query_rows: 4,
                    kv_rows: 4,
                    scale: HALF,
                },
            ),
            Action::Synchronize,
            launch(
                Kernel::SoftmaxRowFused,
                line(8, 256, 1040),
                unary(probabilities, probabilities, 4),
            ),
            Action::Synchronize,
            launch(
                Kernel::GemmBatched,
                shape,
                Arguments::BatchedProduct {
                    matrix_a: probabilities,
                    matrix_b: id(3),
                    output: id(4),
                    batches: 2,
                    m: 4,
                    n: 3,
                    k: 4,
                },
            ),
            Action::Synchronize,
        ]
    );
}

#[test]
fn bf16_composed_attention_plans() {
    let attention = Bf16Attention::load(CONTEXT, PROBE).unwrap();
    let (q, k, v, o) = (buffer(1, 8), buffer(2, 8), buffer(3, 12), buffer(4, 12));
    let plan = attention.attention_composed(
        &conversions(),
        &self::attention(),
        &gemm(),
        &elementwise(),
        &softmax_2d(),
        &STREAM,
        &q,
        &k,
        &v,
        &o,
        4,
        2,
        4,
        3,
        HALF,
        AttentionMask::Unmasked,
        &FUSED,
    );
    let widen = |number: u64, role: Scratch, count: usize| {
        launch(
            Kernel::Bf16Widen,
            elements(count, 256),
            unary(id(number), scratch(role), count as u64),
        )
    };
    let mut calls = vec![
        allocate(own(Scratch::WideQueries, 8)),
        allocate(own(Scratch::WideKeys, 8)),
        allocate(own(Scratch::WideValues, 12)),
        allocate(own(Scratch::WideOutput, 12)),
        widen(1, Scratch::WideQueries, 8),
        Action::Synchronize,
        widen(2, Scratch::WideKeys, 8),
        Action::Synchronize,
        widen(3, Scratch::WideValues, 12),
        Action::Synchronize,
    ];
    // Then the `f32` pipeline runs on the widened operands.
    calls.extend(actions(&self::attention().attention_composed(
        &gemm(),
        &elementwise(),
        &softmax_2d(),
        &STREAM,
        &own(Scratch::WideQueries, 8),
        &own(Scratch::WideKeys, 8),
        &own(Scratch::WideValues, 12),
        &own(Scratch::WideOutput, 12),
        4,
        2,
        4,
        3,
        HALF,
        AttentionMask::Unmasked,
        &FUSED,
    )));
    calls.extend([
        launch(
            Kernel::Bf16Narrow,
            elements(12, 256),
            unary(scratch(Scratch::WideOutput), id(4), 12),
        ),
        Action::Synchronize,
    ]);
    assert_eq!(actions(&plan), calls);
    assert_grounded(&plan);
}

#[test]
fn quantized_attention_plans_round_the_scores() {
    let attention = Bf16Attention::load(CONTEXT, PROBE).unwrap();
    let bf16_gemm =
        Bf16Gemm::load(CONTEXT, &Bf16GemmProbes { gemm: PROBE, gemm_nt: PROBE }).unwrap();
    let (q, k, v, o) = (buffer(1, 8), buffer(2, 8), buffer(3, 12), buffer(4, 12));
    let plan = attention.attention_composed_quantized(
        &conversions(),
        &self::attention(),
        &bf16_gemm,
        &elementwise(),
        &softmax_2d(),
        &STREAM,
        &q,
        &k,
        &v,
        &o,
        4,
        2,
        4,
        3,
        HALF,
        AttentionMask::Causal,
        &FUSED,
    );
    let (packed, wide) = (scratch(Scratch::PackedScores), scratch(Scratch::WideProbabilities));
    let tile = grid([1, 1, 1], [16, 16, 1], 2048);
    assert_eq!(
        actions(&plan),
        [
            Action::Allocate { buffer: own(Scratch::PackedScores, 16), element: Element::Bf16 },
            allocate(own(Scratch::WideProbabilities, 16)),
            launch(
                Kernel::Bf16GemmNt,
                tile,
                Arguments::Product {
                    matrix_a: id(1),
                    matrix_b: id(2),
                    output: packed,
                    m: 4,
                    n: 4,
                    k: 2,
                },
            ),
            Action::Synchronize,
            launch(Kernel::Bf16Widen, elements(16, 256), unary(packed, wide, 16)),
            Action::Synchronize,
            launch(
                Kernel::AttentionScaleCausal,
                elements(16, 256),
                Arguments::ScaleCausal {
                    scores: wide,
                    output: wide,
                    query_rows: 4,
                    kv_rows: 4,
                    scale: HALF,
                },
            ),
            Action::Synchronize,
            launch(Kernel::SoftmaxRowFused, line(4, 256, 1040), unary(wide, wide, 4)),
            Action::Synchronize,
            launch(Kernel::Bf16Narrow, elements(16, 256), unary(wide, packed, 16)),
            Action::Synchronize,
            launch(
                Kernel::Bf16Gemm,
                tile,
                Arguments::Product {
                    matrix_a: packed,
                    matrix_b: id(3),
                    output: id(4),
                    m: 4,
                    n: 3,
                    k: 4,
                },
            ),
            Action::Synchronize,
        ]
    );
    assert_grounded(&plan);
}

#[test]
fn scratch_is_allocated_before_it_is_used() {
    let (input, output) = (buffer(1, 12), buffer(2, 12));
    // A row of four elements does not fit beside a block of 256, so the staged
    // path is taken.
    let small = Ok(KernelAttributes {
        max_threads_per_block: 1024,
        max_dynamic_shared_memory_bytes: 1039,
    });
    let staged = FusedProbes { available: small, fused: small };
    for (probes, expected) in [(FUSED, 0), (staged, 1)] {
        let plan = softmax_2d().softmax_rows_dispatched(&STREAM, &input, &output, 3, 4, &probes);
        assert_grounded(&plan);
        let allocations =
            actions(&plan).iter().filter(|call| matches!(call, Action::Allocate { .. })).count();
        assert_eq!(allocations, expected);
        assert_grounded(&bf16_rms_normalize_rows_dispatched(
            &conversions(),
            &rms_norm(),
            &STREAM,
            &input,
            &output,
            3,
            4,
            HALF,
            ONE,
            &probes,
        ));
    }
    assert_grounded(&top_k(4).top_k(&STREAM, &buffer(1, 100), &buffer(2, 3), &buffer(3, 3), 3));
}

#[test]
fn matrix_vector_and_projection_plans() {
    let gemv = F32Gemv::load(CONTEXT, PROBE).unwrap();
    assert_synchronized(
        &gemv.gemv(&STREAM, &buffer(1, 12), &buffer(2, 4), &buffer(3, 3), 3, 4),
        &[launch(
            Kernel::Gemv,
            line(3, 256, 1024),
            Arguments::MatrixVector { matrix: id(1), vector: id(2), output: id(3), cols: 4 },
        )],
    );
    assert_synchronized(
        &gemv.gemv(&STREAM, &buffer(1, 0), &buffer(2, 0), &buffer(3, 3), 3, 0),
        &[Action::Zero(id(3))],
    );
    assert_synchronized(
        &gemv.gemv(&STREAM, &buffer(1, 0), &buffer(2, 4), &buffer(3, 0), 0, 4),
        &[Action::Zero(id(3))],
    );

    let mixed = F32Bf16Gemv::load(CONTEXT, PROBE).unwrap();
    assert_eq!(mixed.block_size(), 64);
    assert_synchronized(
        &mixed.project_kn(&STREAM, &buffer(1, 4), &buffer(2, 400), &buffer(3, 100), 4, 100),
        &[launch(
            Kernel::ProjectBf16,
            elements(100, 64),
            Arguments::Project { input: id(1), weight: id(2), output: id(3), k: 4, n: 100 },
        )],
    );
    let int2 = F32Int2Gemv::load(CONTEXT, PROBE).unwrap();
    // Ten two-bit codes take three bytes.
    assert_synchronized(
        &int2.project_kn(
            &STREAM,
            &buffer(1, 5),
            &buffer(2, 3),
            &buffer(3, 1),
            &buffer(4, 2),
            5,
            2,
        ),
        &[launch(
            Kernel::ProjectInt2,
            elements(2, 64),
            Arguments::ProjectInt2 {
                input: id(1),
                packed_weight: id(2),
                weight_scale: id(3),
                output: id(4),
                k: 5,
                n: 2,
            },
        )],
    );
    let sparse = F32SparseCscGemv::load(CONTEXT, PROBE).unwrap();
    assert_synchronized(
        &sparse.project_kn(
            &STREAM,
            &buffer(1, 5),
            &buffer(2, 4),
            &buffer(3, 7),
            &buffer(4, 7),
            &buffer(5, 3),
            5,
            3,
        ),
        &[launch(
            Kernel::ProjectSparseCsc,
            elements(3, 64),
            Arguments::ProjectSparseCsc {
                input: id(1),
                column_offsets: id(2),
                row_indices: id(3),
                values: id(4),
                output: id(5),
                k: 5,
                n: 3,
                nnz: 7,
            },
        )],
    );
}

#[test]
fn rotation_plans() {
    let probes = RopeProbes { interleaved: PROBE, rotate_half: PROBE };
    let rope = F32Rope::load(CONTEXT, &probes).unwrap();
    let (input, cos, sin, output) = (buffer(1, 12), buffer(2, 6), buffer(3, 6), buffer(4, 12));
    let arguments = Arguments::Rope {
        input: id(1),
        cos: id(2),
        sin: id(3),
        output: id(4),
        rows: 2,
        half: 3,
    };
    assert_synchronized(
        &rope.apply_interleaved(&STREAM, &input, &cos, &sin, &output, 2, 6),
        &[launch(Kernel::RopeInterleaved, elements(6, 256), arguments)],
    );
    assert_synchronized(
        &rope.apply_rotate_half(&STREAM, &input, &cos, &sin, &output, 2, 6),
        &[launch(Kernel::RopeRotateHalf, elements(6, 256), arguments)],
    );
}

#[test]
fn row_move_plans() {
    let gather = F32Gather::load(CONTEXT, PROBE).unwrap();
    let plan =
        gather.gather(&STREAM, &buffer(1, 12), &buffer(2, 2), &buffer(3, 6), 4, 3, &[3, 0]);
    let moved = |kernel, source, index, output| {
        launch(
            kernel,
            elements(6, 256),
            Arguments::MoveRows { source, index, output, rows: 4, cols: 3, count: 2 },
        )
    };
    assert_synchronized(&plan, &[moved(Kernel::GatherRows, id(1), id(2), id(3))]);

    let scatter = F32Scatter::load(CONTEXT, PROBE).unwrap();
    let plan =
        scatter.scatter(&STREAM, &buffer(1, 6), &buffer(2, 2), &buffer(3, 12), 4, 3, &[3, 0]);
    assert_synchronized(&plan, &[moved(Kernel::ScatterRows, id(1), id(2), id(3))]);

    // An index that is out of range is refused before anything else, so the
    // stream is not even drained.
    let plan =
        gather.gather(&STREAM, &buffer(1, 12), &buffer(2, 2), &buffer(3, 6), 4, 3, &[3, 4]);
    assert!(plan.outcome.is_err());
    assert!(plan.steps.is_empty());

    // Nothing is moved without an index.
    let empty = buffer(5, 0);
    assert_synchronized(
        &gather.gather(&STREAM, &buffer(1, 12), &empty, &empty, 4, 3, &[]),
        &[],
    );
    assert_synchronized(
        &scatter.scatter(&STREAM, &empty, &empty, &buffer(3, 12), 4, 3, &[]),
        &[],
    );
}

#[test]
fn argmax_plans_reduce_one_candidate_per_block() {
    let probes = LmHeadProbes { candidates: PROBE, reduce: PROBE };
    let argmax = F32LmHeadArgmax::load(CONTEXT, &probes).unwrap();
    let workspace = argmax.workspace(CONTEXT, 130, id(8), id(9)).unwrap();
    assert_eq!((workspace.vocab(), workspace.candidate_count()), (130, 3));
    assert_bare(
        &workspace.allocation(),
        &[
            allocate(buffer(8, 3)),
            Action::Allocate { buffer: buffer(9, 3), element: Element::U32 },
        ],
    );
    let plan = argmax.argmax_kn(
        &STREAM,
        &buffer(1, 2),
        &buffer(2, 260),
        &buffer(3, 1),
        &buffer(4, 1),
        2,
        130,
        &workspace,
    );
    assert_synchronized(
        &plan,
        &[
            launch(
                Kernel::LmHeadCandidates,
                line(3, 64, 512),
                Arguments::Candidates {
                    input: id(1),
                    weight: id(2),
                    values: id(8),
                    indices: id(9),
                    k: 2,
                    vocab: 130,
                },
            ),
            launch(
                Kernel::LmHeadReduce,
                line(1, 64, 512),
                Arguments::ReduceCandidates {
                    values: id(8),
                    indices: id(9),
                    output_value: id(3),
                    output_index: id(4),
                    count: 3,
                },
            ),
        ],
    );
}

#[test]
fn selection_plans_run_one_round_per_winner() {
    let top_k = top_k(2);
    let buffers = SelectionBuffers {
        data: id(10),
        values_a: id(11),
        values_b: id(12),
        indices_a: id(13),
        indices_b: id(14),
    };
    let workspace = top_k.workspace(CONTEXT, 10, &buffers).unwrap();
    assert_eq!(workspace.max_elements(), 10);
    let indices = |number, len| Action::Allocate {
        buffer: buffer(number, len),
        element: Element::U32,
    };
    assert_bare(
        &workspace.allocation(),
        &[
            allocate(buffer(10, 10)),
            allocate(buffer(11, 3)),
            allocate(buffer(12, 3)),
            indices(13, 3),
            indices(14, 3),
        ],
    );
    // Ten scores in blocks of two threads: three partials, then one.
    let plan = top_k.enqueue_top_k(
        &STREAM,
        &buffer(1, 10),
        &buffer(2, 2),
        &buffer(3, 2),
        2,
        &workspace,
    );
    let at = |number, byte_offset| Pointer { buffer: id(number), byte_offset };
    let first = launch(
        Kernel::TopKArgmaxFirst,
        line(3, 2, 16),
        Arguments::ScanFirst {
            source_values: at(10, 0),
            output_values: at(11, 0),
            output_indices: at(13, 0),
            count: 10,
        },
    );
    let winner = |byte_offset| {
        launch(
            Kernel::TopKArgmaxPair,
            line(1, 2, 16),
            Arguments::ScanPair {
                source_values: at(11, 0),
                source_indices: at(13, 0),
                output_values: at(2, byte_offset),
                output_indices: at(3, byte_offset),
                count: 3,
            },
        )
    };
    assert_bare(
        &plan,
        &[
            launch(Kernel::TopKFill, line(5, 2, 0), unary(id(1), id(10), 10)),
            first,
            winner(0),
            launch(
                Kernel::TopKMask,
                line(1, 1, 0),
                Arguments::Mask { data: id(10), slot: 0, indices: id(3) },
            ),
            first,
            winner(4),
        ],
    );

    // Where one pass is enough, the winner is written directly.
    let plan = top_k.enqueue_top_k(
        &STREAM,
        &buffer(1, 3),
        &buffer(2, 1),
        &buffer(3, 1),
        1,
        &workspace,
    );
    assert_bare(
        &plan,
        &[
            launch(Kernel::TopKFill, line(2, 2, 0), unary(id(1), id(10), 3)),
            launch(
                Kernel::TopKArgmaxFirst,
                line(1, 2, 16),
                Arguments::ScanFirst {
                    source_values: at(10, 0),
                    output_values: at(2, 0),
                    output_indices: at(3, 0),
                    count: 3,
                },
            ),
        ],
    );
}

#[test]
fn argument_lists_follow_the_signatures() {
    let buffers = |numbers: &[u64]| -> Vec<Argument> {
        numbers.iter().map(|&number| Argument::Buffer(id(number))).collect()
    };
    let list = |numbers: &[u64], rest: &[Argument]| {
        let mut list = buffers(numbers);
        list.extend(rest);
        list
    };
    let n = Argument::U64;
    assert_eq!(unary(id(1), id(2), 3).to_list(), list(&[1, 2], &[n(3)]));
    assert_eq!(
        Arguments::Binary { left: id(1), right: id(2), output: id(3), count: 4 }.to_list(),
        list(&[1, 2, 3], &[n(4)])
    );
    assert_eq!(
        Arguments::Scale { input: id(1), output: id(2), scale: HALF, count: 3 }.to_list(),
        list(&[1, 2], &[Argument::F32(HALF), n(3)])
    );
    assert_eq!(
        Arguments::Affine { input: id(1), output: id(2), scale: HALF, bias: ONE, count: 3 }
            .to_list(),
        list(&[1, 2], &[Argument::F32(HALF), Argument::F32(ONE), n(3)])
    );
    assert_eq!(
        Arguments::ExpShift { input: id(1), output: id(2), maximum: id(3), count: 4 }.to_list(),
        list(&[1, 2, 3], &[n(4)])
    );
    assert_eq!(
        Arguments::Divide { data: id(1), total: id(2), count: 3 }.to_list(),
        list(&[1, 2], &[n(3)])
    );
    assert_eq!(
        Arguments::RowExpShift { input: id(1), output: id(2), row_max: id(3), rows: 4, cols: 5 }
            .to_list(),
        list(&[1, 2, 3], &[n(4), n(5)])
    );
    assert_eq!(
        Arguments::RowDivide { data: id(1), row_total: id(2), rows: 3, cols: 4 }.to_list(),
        list(&[1, 2], &[n(3), n(4)])
    );
    assert_eq!(
        Arguments::RmsNormalize {
            input: id(1),
            output: id(2),
            row_sumsq: id(3),
            rows: 4,
            cols: 5,
            epsilon: HALF,
            gamma: ONE,
        }
        .to_list(),
        list(
            &[1, 2, 3],
            &[n(4), n(5), Argument::Reciprocal(5), Argument::F32(HALF), Argument::F32(ONE)],
        )
    );
    assert_eq!(
        Arguments::RmsFused { input: id(1), output: id(2), cols: 3, epsilon: HALF, gamma: ONE }
            .to_list(),
        list(
            &[1, 2],
            &[n(3), Argument::Reciprocal(3), Argument::F32(HALF), Argument::F32(ONE)],
        )
    );
    assert_eq!(
        Arguments::Product { matrix_a: id(1), matrix_b: id(2), output: id(3), m: 4, n: 5, k: 6 }
            .to_list(),
        list(&[1, 2, 3], &[n(4), n(5), n(6)])
    );
    assert_eq!(
        Arguments::BatchedProduct {
            matrix_a: id(1),
            matrix_b: id(2),
            output: id(3),
            batches: 4,
            m: 5,
            n: 6,
            k: 7,
        }
        .to_list(),
        list(&[1, 2, 3], &[Argument::U32(4), n(5), n(6), n(7)])
    );
    assert_eq!(
        Arguments::MatrixVector { matrix: id(1), vector: id(2), output: id(3), cols: 4 }.to_list(),
        list(&[1, 2, 3], &[n(4)])
    );
    assert_eq!(
        Arguments::Attention {
            queries: id(1),
            keys: id(2),
            values: id(3),
            output: id(4),
            query_rows: 5,
            head_dim: 6,
            kv_rows: 7,
            value_dim: 8,
            scale: HALF,
            causal: 1,
        }
        .to_list(),
        list(
            &[1, 2, 3, 4],
            &[n(5), n(6), n(7), n(8), Argument::F32(HALF), Argument::U32(1)],
        )
    );
    assert_eq!(
        Arguments::MultiheadAttention {
            queries: id(1),
            keys: id(2),
            values: id(3),
            output: id(4),
            heads: 9,
            query_rows: 5,
            head_dim: 6,
            kv_rows: 7,
            value_dim: 8,
            scale: HALF,
            causal: 0,
        }
        .to_list(),
        list(
            &[1, 2, 3, 4],
            &[
                Argument::U32(9),
                n(5),
                n(6),
                n(7),
                n(8),
                Argument::F32(HALF),
                Argument::U32(0),
            ],
        )
    );
    assert_eq!(
        Arguments::ScaleCausal {
            scores: id(1),
            output: id(2),
            query_rows: 3,
            kv_rows: 4,
            scale: ONE,
        }
        .to_list(),
        list(&[1, 2], &[n(3), n(4), Argument::F32(ONE)])
    );
    assert_eq!(
        Arguments::MultiheadScaleCausal {
            scores: id(1),
            output: id(2),
            elements: 3,
            query_rows: 4,
            kv_rows: 5,
            scale: ONE,
        }
        .to_list(),
        list(&[1, 2], &[n(3), n(4), n(5), Argument::F32(ONE)])
    );
    assert_eq!(
        Arguments::Rope {
            input: id(1),
            cos: id(2),
            sin: id(3),
            output: id(4),
            rows: 5,
            half: 6,
        }
        .to_list(),
        list(&[1, 2, 3, 4], &[n(5), n(6)])
    );
    assert_eq!(
        Arguments::Project { input: id(1), weight: id(2), output: id(3), k: 4, n: 5 }.to_list(),
        list(&[1, 2, 3], &[n(4), n(5)])
    );
    assert_eq!(
        Arguments::ProjectInt2 {
            input: id(1),
            packed_weight: id(2),
            weight_scale: id(3),
            output: id(4),
            k: 5,
            n: 6,
        }
        .to_list(),
        list(&[1, 2, 3, 4], &[n(5), n(6)])
    );
    assert_eq!(
        Arguments::ProjectSparseCsc {
            input: id(1),
            column_offsets: id(2),
            row_indices: id(3),
            values: id(4),
            output: id(5),
            k: 6,
            n: 7,
            nnz: 8,
        }
        .to_list(),
        list(&[1, 2, 3, 4, 5], &[n(6), n(7), n(8)])
    );
    assert_eq!(
        Arguments::MoveRows {
            source: id(1),
            index: id(2),
            output: id(3),
            rows: 4,
            cols: 5,
            count: 6,
        }
        .to_list(),
        list(&[1, 2, 3], &[n(4), n(5), n(6)])
    );
    assert_eq!(
        Arguments::Candidates {
            input: id(1),
            weight: id(2),
            values: id(3),
            indices: id(4),
            k: 5,
            vocab: 6,
        }
        .to_list(),
        list(&[1, 2, 3, 4], &[n(5), n(6)])
    );
    assert_eq!(
        Arguments::ReduceCandidates {
            values: id(1),
            indices: id(2),
            output_value: id(3),
            output_index: id(4),
            count: 5,
        }
        .to_list(),
        list(&[1, 2, 3, 4], &[n(5)])
    );
    let at = |number| Pointer { buffer: id(number), byte_offset: number * 4 };
    assert_eq!(
        Arguments::ScanFirst {
            source_values: at(1),
            output_values: at(2),
            output_indices: at(3),
            count: 4,
        }
        .to_list(),
        [Argument::At(at(1)), Argument::At(at(2)), Argument::At(at(3)), n(4)]
    );
    assert_eq!(
        Arguments::ScanPair {
            source_values: at(1),
            source_indices: at(2),
            output_values: at(3),
            output_indices: at(4),
            count: 5,
        }
        .to_list(),
        [
            Argument::At(at(1)),
            Argument::At(at(2)),
            Argument::At(at(3)),
            Argument::At(at(4)),
            n(5),
        ]
    );
    assert_eq!(
        Arguments::Mask { data: id(1), slot: 2, indices: id(3) }.to_list(),
        [Argument::Buffer(id(1)), n(2), Argument::Buffer(id(3))]
    );
}

#[test]
fn kernels_are_exported_under_these_names() {
    for (kernel, name) in [
        (Kernel::VectorAdd, "nnis_vector_add_f32"),
        (Kernel::Scale, "nnis_scale_f32"),
        (Kernel::Affine, "nnis_affine_f32"),
        (Kernel::ReduceSum, "nnis_reduce_sum_f32"),
        (Kernel::ReduceMax, "nnis_reduce_max_f32"),
        (Kernel::SoftmaxExpShift, "nnis_softmax_exp_shift_f32"),
        (Kernel::SoftmaxNormalize, "nnis_softmax_normalize_f32"),
        (Kernel::SoftmaxRowMax, "nnis_softmax_row_max_f32"),
        (Kernel::SoftmaxRowExpShift, "nnis_softmax_row_exp_shift_f32"),
        (Kernel::SoftmaxRowSum, "nnis_softmax_row_sum_f32"),
        (Kernel::SoftmaxRowNormalize, "nnis_softmax_row_normalize_f32"),
        (Kernel::SoftmaxRowFused, "nnis_softmax_row_fused_f32"),
        (Kernel::RmsNormRowSumSq, "nnis_rmsnorm_row_sumsq_f32"),
        (Kernel::RmsNormNormalize, "nnis_rmsnorm_normalize_f32"),
        (Kernel::RmsNormRowFused, "nnis_rmsnorm_row_fused_f32"),
        (Kernel::Gemm, "nnis_gemm_f32"),
        (Kernel::GemmNt, "nnis_gemm_nt_f32"),
        (Kernel::GemmBatched, "nnis_gemm_batched_f32"),
        (Kernel::GemmNtBatched, "nnis_gemm_nt_batched_f32"),
        (Kernel::Gemv, "nnis_gemv_f32"),
        (Kernel::RopeInterleaved, "nnis_rope_interleaved_f32"),
        (Kernel::RopeRotateHalf, "nnis_rope_rotate_half_f32"),
        (Kernel::AttentionFused, "nnis_attention_fused_f32"),
        (Kernel::AttentionFusedMultihead, "nnis_attention_fused_multihead_f32"),
        (Kernel::AttentionScaleCausal, "nnis_attention_scale_causal_f32"),
        (Kernel::AttentionScaleCausalMultihead, "nnis_attention_scale_causal_multihead_f32"),
        (Kernel::Bf16VectorAdd, "nnis_bf16_vector_add_f32acc"),
        (Kernel::Bf16Scale, "nnis_bf16_scale_f32acc"),
        (Kernel::Bf16Affine, "nnis_bf16_affine_f32acc"),
        (Kernel::Bf16Relu, "nnis_bf16_relu_f32acc"),
        (Kernel::Bf16Silu, "nnis_bf16_silu_f32acc"),
        (Kernel::Bf16GeluTanh, "nnis_bf16_gelu_tanh_f32acc"),
        (Kernel::Bf16Widen, "nnis_bf16_widen_f32"),
        (Kernel::Bf16Narrow, "nnis_bf16_narrow_from_f32"),
        (Kernel::Bf16Gemm, "nnis_bf16_gemm_f32acc"),
        (Kernel::Bf16GemmNt, "nnis_bf16_gemm_nt_f32acc"),
        (Kernel::Bf16ReduceSum, "nnis_bf16_reduce_sum_f32"),
        (Kernel::Bf16ReduceMax, "nnis_bf16_reduce_max_f32"),
        (Kernel::Bf16AttentionFused, "nnis_attention_fused_bf16"),
        (Kernel::Bf16AttentionFusedMultihead, "nnis_attention_fused_multihead_bf16"),
        (Kernel::ProjectInt2, "nnis_project_kn_f32_int2_weight"),
        (Kernel::ProjectBf16, "nnis_project_kn_f32_bf16_weight"),
        (Kernel::ProjectSparseCsc, "nnis_project_kn_f32_sparse_csc"),
        (Kernel::GatherRows, "nnis_gather_rows_f32"),
        (Kernel::Bf16GatherRows, "nnis_gather_rows_bf16"),
        (Kernel::ScatterRows, "nnis_scatter_rows_f32"),
        (Kernel::Bf16ScatterRows, "nnis_scatter_rows_bf16"),
        (Kernel::LmHeadCandidates, "nnis_lm_head_argmax_candidates_f32"),
        (Kernel::LmHeadReduce, "nnis_lm_head_argmax_reduce_f32"),
        (Kernel::TopKFill, "nnis_topk_fill_f32"),
        (Kernel::TopKMask, "nnis_topk_mask_f32"),
        (Kernel::TopKArgmaxFirst, "nnis_topk_argmax_first_f32"),
        (Kernel::TopKArgmaxPair, "nnis_topk_argmax_pair_f32"),
    ] {
        assert_eq!(kernel.symbol(), name);
    }
}

#[test]
fn loading_reports_the_first_failure() {
    let failed = |number| -> Probe { Err(DeviceFailure { number }) };
    let probes = GemmProbes {
        gemm: PROBE,
        gemm_nt: failed(1),
        gemm_batched: failed(2),
        gemm_nt_batched: failed(3),
    };
    assert_eq!(
        F32Gemm::load(CONTEXT, &probes).unwrap_err(),
        KernelError::Device(DeviceFailure { number: 1 })
    );
    // A width that is refused outright is refused whatever the driver says.
    let probes = GemmProbes { gemm: failed(0), ..probes };
    assert_eq!(
        F32Gemm::load_with_tile_side(CONTEXT, 0, &probes).unwrap_err(),
        KernelError::TileSide { family: "gemm", side: 0 }
    );
    let probes = RowSoftmaxProbes {
        row_max: PROBE,
        exp_shift: PROBE,
        row_sum: failed(4),
        normalize: failed(5),
        fused: PROBE,
    };
    assert_eq!(
        F32Softmax2D::load(CONTEXT, &probes).unwrap_err(),
        KernelError::Device(DeviceFailure { number: 4 })
    );
    assert!(F32Reduction::load(CONTEXT, failed(6)).is_err());
}
