//! Plans carried out on a host model of the device.
//!
//! The model keeps every allocation in host memory and runs each kernel as
//! its device source does, block by block, from the launch's symbol, geometry
//! and argument list. Allocations that a plan makes start out poisoned.

use nnis_kernels::{
    bf16_layer_normalize_rows_dispatched, bf16_rms_normalize_rows_dispatched, Action,
    ArgmaxProjection, Argument, AttentionMask, AttentionProbes, Bf16Attention, Bf16Elementwise,
    Bf16Gather, Bf16Gemm, Bf16GemmProbes, Bf16Probes, Bf16Reduction, Bf16ReductionProbes,
    Bf16Scatter, BufferId, ContextId, DeviceBuffer, Element, ElementwiseProbes, F32Attention,
    F32Bf16Gemv, F32Elementwise, F32Gather, F32Gemm, F32Gemv, F32Int2Gemv, F32LmHeadArgmax,
    F32Reduction, F32RmsNorm, F32Rope, F32Scatter, F32Softmax, F32Softmax2D, F32SparseCscGemv,
    F32TopK, FusedProbes, GemmProbes, Heads, Int2Projection, KernelAttributes, KernelError,
    Launch, LmHeadProbes, Lookup, Placement, Plan, Probe, Product, RmsNormProbes, RopeProbes,
    Rotation, RowSoftmaxProbes, Rows, Scalar, ScalarPlan, Selection, SelectionBuffers, Shape,
    SoftmaxProbes, SparseProjection, Stream, TopKProbes, F32,
};

const CONTEXT: ContextId = ContextId { id: 1 };
const STREAM: Stream = Stream { context: CONTEXT };
const ATTRIBUTES: KernelAttributes =
    KernelAttributes { max_threads_per_block: 1024, max_dynamic_shared_memory_bytes: 65_536 };
const PROBE: Probe = Ok(ATTRIBUTES);
const FUSED: FusedProbes = FusedProbes { available: PROBE, fused: PROBE };

fn scalar(value: f32) -> F32 {
    F32 { bits: value.to_bits() }
}

fn bf16_bits_to_f32(bits: u16) -> f32 {
    f32::from_bits(u32::from(bits) << 16)
}

fn f32_to_bf16_rne(value: f32) -> u16 {
    let bits = value.to_bits();
    if bits & 0x7FFF_FFFF > 0x7F80_0000 {
        return ((bits | 0x0040_0000) >> 16) as u16;
    }
    let lsb = (bits >> 16) & 1;
    (bits.wrapping_add(0x7FFF + lsb) >> 16) as u16
}

fn to_bits(values: &[f32]) -> Vec<u16> {
    values.iter().copied().map(f32_to_bf16_rne).collect()
}

fn widened(bits: &[u16]) -> Vec<f32> {
    bits.iter().copied().map(bf16_bits_to_f32).collect()
}

#[derive(Clone)]
enum Memory {
    F32(Vec<f32>),
    U16(Vec<u16>),
    U32(Vec<u32>),
    U64(Vec<u64>),
    U8(Vec<u8>),
}

/// The geometry of a launch.
struct Geometry {
    grid: [usize; 3],
    block: [usize; 3],
    shared: usize,
}

impl Geometry {
    fn threads(&self) -> usize {
        self.grid[0] * self.block[0]
    }
}

/// The arguments of a launch by position.
struct Args {
    list: Vec<Argument>,
}

impl Args {
    fn buffer(&self, index: usize) -> BufferId {
        match self.list[index] {
            Argument::Buffer(id) => id,
            other => panic!("argument {index} is {other:?}"),
        }
    }

    /// An allocation and an offset into it in elements of four bytes.
    fn at(&self, index: usize) -> (BufferId, usize) {
        match self.list[index] {
            Argument::At(pointer) => (pointer.buffer, pointer.byte_offset as usize / 4),
            other => panic!("argument {index} is {other:?}"),
        }
    }

    fn size(&self, index: usize) -> usize {
        match self.list[index] {
            Argument::U64(value) => value as usize,
            other => panic!("argument {index} is {other:?}"),
        }
    }

    fn word(&self, index: usize) -> u32 {
        match self.list[index] {
            Argument::U32(value) => value,
            other => panic!("argument {index} is {other:?}"),
        }
    }

    fn float(&self, index: usize) -> f32 {
        match self.list[index] {
            Argument::F32(value) => f32::from_bits(value.bits),
            Argument::Reciprocal(count) => 1.0 / count as f32,
            other => panic!("argument {index} is {other:?}"),
        }
    }
}

/// Folds lane partials as a block does in shared memory.
fn fold(partials: &mut [f32], combine: fn(f32, f32) -> f32) -> f32 {
    let mut stride = partials.len() / 2;
    while stride > 0 {
        for lane in 0..stride {
            partials[lane] = combine(partials[lane], partials[lane + stride]);
        }
        stride /= 2;
    }
    partials[0]
}

fn add(left: f32, right: f32) -> f32 {
    left + right
}

/// Whether a candidate beats an incumbent: a larger value, or an equal one at
/// a lower index.
fn beats(candidate: (f32, u32), incumbent: (f32, u32)) -> bool {
    candidate.0 > incumbent.0 || (candidate.0 == incumbent.0 && candidate.1 < incumbent.1)
}

fn fold_pairs(partials: &mut [(f32, u32)]) -> (f32, u32) {
    let mut stride = partials.len() / 2;
    while stride > 0 {
        for lane in 0..stride {
            let candidate = partials[lane + stride];
            if candidate.1 != u32::MAX && beats(candidate, partials[lane]) {
                partials[lane] = candidate;
            }
        }
        stride /= 2;
    }
    partials[0]
}

/// One block of fused attention over a head.
#[allow(clippy::too_many_arguments)]
fn attend(
    queries: &[f32],
    keys: &[f32],
    values: &[f32],
    row: usize,
    head_dim: usize,
    kv_rows: usize,
    value_dim: usize,
    scale: f32,
    causal: bool,
    threads: usize,
) -> Vec<f32> {
    let mut acc = vec![0.0_f32; value_dim];
    let mut running_max = f32::NEG_INFINITY;
    let mut running_sum = 0.0_f32;
    let mut base = 0;
    while base < kv_rows {
        let mut scores = vec![f32::NEG_INFINITY; threads];
        for (lane, score) in scores.iter_mut().enumerate() {
            let key = base + lane;
            if key < kv_rows && (!causal || key <= row) {
                let dot = (0..head_dim).fold(0.0_f32, |value, e| {
                    queries[row * head_dim + e].mul_add(keys[key * head_dim + e], value)
                });
                *score = dot * scale;
            }
        }
        let new_max = running_max.max(fold(&mut scores.clone(), f32::max));
        let rescale = (running_max - new_max).exp();
        let weights: Vec<f32> = scores.iter().map(|&score| (score - new_max).exp()).collect();
        running_sum = running_sum * rescale + fold(&mut weights.clone(), add);
        running_max = new_max;
        for (column, total) in acc.iter_mut().enumerate() {
            *total *= rescale;
            for (lane, weight) in weights.iter().enumerate() {
                let key = base + lane;
                let value = if key < kv_rows { values[key * value_dim + column] } else { 0.0 };
                *total += weight * value;
            }
        }
        base += threads;
    }
    acc.iter().map(|total| total / running_sum).collect()
}

/// One product of a tiled multiplication, one block per tile.
fn multiply(
    a: &[f32],
    b: &[f32],
    geometry: &Geometry,
    (m, n, k): (usize, usize, usize),
    transposed: bool,
) -> Vec<Option<f32>> {
    let tile = geometry.block[0];
    assert_eq!(geometry.block[1], tile);
    assert!(geometry.shared >= 2 * tile * tile * 4);
    let depth = k.div_ceil(tile) * tile;
    let mut output = vec![None; m * n];
    for block_x in 0..geometry.grid[0] {
        for block_y in 0..geometry.grid[1] {
            for ty in 0..tile {
                for tx in 0..tile {
                    let row = block_x * tile + ty;
                    let col = block_y * tile + tx;
                    if row >= m || col >= n {
                        continue;
                    }
                    let value = (0..depth).fold(0.0_f32, |value, d| {
                        if d >= k {
                            return 0.0_f32.mul_add(0.0, value);
                        }
                        let right = if transposed { b[col * k + d] } else { b[d * n + col] };
                        a[row * k + d].mul_add(right, value)
                    });
                    assert!(output[row * n + col].is_none(), "written twice");
                    output[row * n + col] = Some(value);
                }
            }
        }
    }
    output
}

/// A device whose memory is on the host.
struct Device {
    next: u64,
    memory: Vec<(BufferId, Memory)>,
    launches: usize,
}

impl Device {
    fn new() -> Device {
        Device { next: 0, memory: Vec::new(), launches: 0 }
    }

    fn store(&mut self, memory: Memory, len: usize) -> DeviceBuffer {
        self.next += 1;
        let buffer = DeviceBuffer::operand(CONTEXT, self.next, len);
        self.put(buffer.id, memory);
        buffer
    }

    fn put(&mut self, id: BufferId, memory: Memory) {
        self.memory.retain(|(other, _)| *other != id);
        self.memory.push((id, memory));
    }

    fn fetch(&self, id: BufferId) -> &Memory {
        match self.memory.iter().find(|(other, _)| *other == id) {
            Some((_, memory)) => memory,
            None => panic!("{id:?} is not allocated"),
        }
    }

    fn upload(&mut self, values: &[f32]) -> DeviceBuffer {
        self.store(Memory::F32(values.to_vec()), values.len())
    }

    fn upload_bits(&mut self, values: &[u16]) -> DeviceBuffer {
        self.store(Memory::U16(values.to_vec()), values.len())
    }

    fn upload_words(&mut self, values: &[u32]) -> DeviceBuffer {
        self.store(Memory::U32(values.to_vec()), values.len())
    }

    /// An allocation of `len` poisoned floats.
    fn floats(&mut self, len: usize) -> DeviceBuffer {
        self.upload(&vec![f32::NAN; len])
    }

    /// An allocation of `len` poisoned bf16 patterns.
    fn halves(&mut self, len: usize) -> DeviceBuffer {
        self.upload_bits(&vec![0xFFFF; len])
    }

    fn words(&mut self, len: usize) -> DeviceBuffer {
        self.upload_words(&vec![u32::MAX; len])
    }

    fn f32s(&self, id: BufferId) -> Vec<f32> {
        match self.fetch(id) {
            Memory::F32(values) => values.clone(),
            _ => panic!("{id:?} does not hold floats"),
        }
    }

    /// The bit patterns of floats.
    fn bits(&self, id: BufferId) -> Vec<u32> {
        self.f32s(id).into_iter().map(f32::to_bits).collect()
    }

    fn u16s(&self, id: BufferId) -> Vec<u16> {
        match self.fetch(id) {
            Memory::U16(values) => values.clone(),
            _ => panic!("{id:?} does not hold bf16 patterns"),
        }
    }

    fn u32s(&self, id: BufferId) -> Vec<u32> {
        match self.fetch(id) {
            Memory::U32(values) => values.clone(),
            _ => panic!("{id:?} does not hold words"),
        }
    }

    fn u64s(&self, id: BufferId) -> Vec<u64> {
        match self.fetch(id) {
            Memory::U64(values) => values.clone(),
            _ => panic!("{id:?} does not hold long words"),
        }
    }

    fn bytes(&self, id: BufferId) -> Vec<u8> {
        match self.fetch(id) {
            Memory::U8(values) => values.clone(),
            _ => panic!("{id:?} does not hold bytes"),
        }
    }

    fn wide(&self, id: BufferId) -> Vec<f32> {
        match self.fetch(id) {
            Memory::F32(values) => values.clone(),
            Memory::U16(values) => widened(values),
            _ => panic!("{id:?} holds no numbers"),
        }
    }

    /// Carries out a plan.
    fn run(&mut self, plan: &Plan) -> Result<(), KernelError> {
        for step in &plan.steps {
            match step.action {
                Action::Launch(launch) => self.launch(&launch),
                Action::Zero(id) => {
                    let zeroed = match self.fetch(id).clone() {
                        Memory::F32(values) => Memory::F32(vec![0.0; values.len()]),
                        Memory::U16(values) => Memory::U16(vec![0; values.len()]),
                        _ => panic!("{id:?} is zeroed"),
                    };
                    self.put(id, zeroed);
                }
                Action::Allocate { buffer, element } | Action::AllocatePooled { buffer, element } => {
                    let memory = match element {
                        Element::F32 => Memory::F32(vec![f32::NAN; buffer.len]),
                        Element::Bf16 => Memory::U16(vec![0xFFFF; buffer.len]),
                        Element::U32 => Memory::U32(vec![u32::MAX; buffer.len]),
                    };
                    self.put(buffer.id, memory);
                }
                Action::LayerNormalize { input, output, rows, cols, epsilon, gamma, beta } => {
                    let values = self.f32s(input.id);
                    assert_eq!((values.len(), output.len), (rows * cols, rows * cols));
                    let [epsilon, gamma, beta] =
                        [epsilon, gamma, beta].map(|value| f32::from_bits(value.bits));
                    let mut normalized = Vec::with_capacity(values.len());
                    for row in values.chunks(cols) {
                        let mean = row.iter().sum::<f32>() / cols as f32;
                        let variance =
                            row.iter().map(|x| (x - mean) * (x - mean)).sum::<f32>() / cols as f32;
                        let scale = gamma / (variance + epsilon).sqrt();
                        normalized.extend(row.iter().map(|x| (x - mean) * scale + beta));
                    }
                    self.put(output.id, Memory::F32(normalized));
                }
                Action::Synchronize | Action::Drain => {}
            }
        }
        plan.outcome
    }

    /// Carries out a plan that yields a number.
    fn run_scalar(&mut self, result: &ScalarPlan) -> f32 {
        self.run(&result.plan).unwrap();
        match result.scalar {
            Scalar::Constant(value) => f32::from_bits(value.bits),
            Scalar::ElementOf(id) => self.f32s(id)[0],
        }
    }

    fn map_f32(&mut self, g: &Geometry, output: BufferId, count: usize, f: impl Fn(usize) -> f32) {
        let mut values = self.f32s(output);
        for index in 0..g.threads() {
            if index < count {
                values[index] = f(index);
            }
        }
        self.put(output, Memory::F32(values));
    }

    fn map_u16(&mut self, g: &Geometry, output: BufferId, count: usize, f: impl Fn(usize) -> u16) {
        let mut values = self.u16s(output);
        for index in 0..g.threads() {
            if index < count {
                values[index] = f(index);
            }
        }
        self.put(output, Memory::U16(values));
    }

    /// One value per block, from the lanes of that block.
    fn per_block(
        &mut self,
        g: &Geometry,
        output: BufferId,
        identity: f32,
        combine: fn(f32, f32) -> f32,
        lane_value: impl Fn(usize, usize, f32) -> f32,
    ) {
        assert!(g.shared >= g.block[0] * 4);
        let mut values = self.f32s(output);
        for block in 0..g.grid[0] {
            let mut partials: Vec<f32> =
                (0..g.block[0]).map(|lane| lane_value(block, lane, identity)).collect();
            values[block] = fold(&mut partials, combine);
        }
        self.put(output, Memory::F32(values));
    }

    fn reduce(&mut self, g: &Geometry, args: &Args, identity: f32, combine: fn(f32, f32) -> f32) {
        let input = self.wide(args.buffer(0));
        let count = args.size(2);
        let width = g.block[0];
        self.per_block(g, args.buffer(1), identity, combine, |block, lane, start| {
            let first = block * width * 2 + lane;
            let second = first + width;
            let mut value = start;
            if first < count {
                value = input[first];
            }
            if second < count {
                value = combine(value, input[second]);
            }
            value
        });
    }

    fn scan(
        &mut self,
        g: &Geometry,
        input: &[(f32, u32)],
        values: (BufferId, usize),
        indices: (BufferId, usize),
        count: usize,
    ) {
        let width = g.block[0];
        assert!(g.shared >= width * 8);
        let mut out_values = self.f32s(values.0);
        let mut out_indices = self.u32s(indices.0);
        for block in 0..g.grid[0] {
            let mut partials = vec![(f32::NEG_INFINITY, u32::MAX); width];
            for (lane, partial) in partials.iter_mut().enumerate() {
                let first = block * width * 2 + lane;
                let second = first + width;
                if first < count {
                    *partial = input[first];
                }
                if second < count && beats(input[second], *partial) {
                    *partial = input[second];
                }
            }
            let winner = fold_pairs(&mut partials);
            out_values[values.1 + block] = winner.0;
            out_indices[indices.1 + block] = winner.1;
        }
        self.put(values.0, Memory::F32(out_values));
        self.put(indices.0, Memory::U32(out_indices));
    }

    fn rows_fused(
        &mut self,
        g: &Geometry,
        args: &Args,
        cols: usize,
        row_value: impl Fn(&[f32]) -> Vec<f32>,
    ) {
        assert!(g.shared >= (cols + g.block[0]) * 4);
        let input = self.f32s(args.buffer(0));
        let mut output = self.f32s(args.buffer(1));
        for row in 0..g.grid[0] {
            let range = row * cols..(row + 1) * cols;
            let values = row_value(&input[range.clone()]);
            output[range].copy_from_slice(&values);
        }
        self.put(args.buffer(1), Memory::F32(output));
    }

    fn attention(&mut self, g: &Geometry, args: &Args, multihead: bool) {
        let shift = usize::from(multihead);
        let heads = if multihead { args.word(4) as usize } else { 1 };
        let query_rows = args.size(4 + shift);
        let head_dim = args.size(5 + shift);
        let kv_rows = args.size(6 + shift);
        let value_dim = args.size(7 + shift);
        let scale = args.float(8 + shift);
        let causal = args.word(9 + shift) != 0;
        let threads = g.block[0];
        let floats =
            head_dim + threads * head_dim + threads * value_dim + 2 * threads + value_dim;
        assert!(g.shared >= floats * 4);
        let queries = self.wide(args.buffer(0));
        let keys = self.wide(args.buffer(1));
        let values = self.wide(args.buffer(2));
        let mut output = self.wide(args.buffer(3));
        assert_eq!(g.grid[0], heads * query_rows);
        for block in 0..g.grid[0] {
            let row = block % query_rows;
            let head = block / query_rows;
            let result = attend(
                &queries[head * query_rows * head_dim..],
                &keys[head * kv_rows * head_dim..],
                &values[head * kv_rows * value_dim..],
                row,
                head_dim,
                kv_rows,
                value_dim,
                scale,
                causal,
                threads,
            );
            let start = (head * query_rows + row) * value_dim;
            output[start..start + value_dim].copy_from_slice(&result);
        }
        let memory = match self.fetch(args.buffer(3)) {
            Memory::U16(_) => Memory::U16(to_bits(&output)),
            _ => Memory::F32(output),
        };
        self.put(args.buffer(3), memory);
    }

    fn product(&mut self, g: &Geometry, args: &Args, batched: bool, transposed: bool) {
        let shift = usize::from(batched);
        let batches = if batched { args.word(3) as usize } else { 1 };
        let (m, n, k) = (args.size(3 + shift), args.size(4 + shift), args.size(5 + shift));
        assert_eq!(g.grid[2], batches);
        let a = self.wide(args.buffer(0));
        let b = self.wide(args.buffer(1));
        let mut output = self.wide(args.buffer(2));
        for batch in 0..batches {
            let tile = multiply(&a[batch * m * k..], &b[batch * k * n..], g, (m, n, k), transposed);
            for (index, value) in tile.into_iter().enumerate() {
                if let Some(value) = value {
                    output[batch * m * n + index] = value;
                }
            }
        }
        let memory = match self.fetch(args.buffer(2)) {
            Memory::U16(_) => Memory::U16(to_bits(&output)),
            _ => Memory::F32(output),
        };
        self.put(args.buffer(2), memory);
    }

    fn launch(&mut self, launch: &Launch) {
        let g = match launch.shape {
            Shape::Grid { grid, block, shared_memory_bytes } => Geometry {
                grid: [grid.x as usize, grid.y as usize, grid.z as usize],
                block: [block.x as usize, block.y as usize, block.z as usize],
                shared: shared_memory_bytes as usize,
            },
            Shape::Elements { count, block_size } => Geometry {
                grid: [count.div_ceil(block_size as usize), 1, 1],
                block: [block_size as usize, 1, 1],
                shared: 0,
            },
        };
        assert!(g.grid.iter().all(|&extent| extent > 0), "{launch:?}");
        assert!(g.block.iter().product::<usize>() <= ATTRIBUTES.max_threads_per_block as usize);
        assert!(g.shared <= ATTRIBUTES.max_dynamic_shared_memory_bytes as usize);
        self.launches += 1;
        let args = Args { list: launch.arguments.to_list() };
        let lanes = g.block[0];
        match launch.kernel.symbol() {
            "nnis_vector_add_f32" => {
                let left = self.f32s(args.buffer(0));
                let right = self.f32s(args.buffer(1));
                self.map_f32(&g, args.buffer(2), args.size(3), |i| left[i] + right[i]);
            }
            "nnis_scale_f32" => {
                let input = self.f32s(args.buffer(0));
                let scale = args.float(2);
                self.map_f32(&g, args.buffer(1), args.size(3), |i| input[i] * scale);
            }
            "nnis_affine_f32" => {
                let input = self.f32s(args.buffer(0));
                let (scale, bias) = (args.float(2), args.float(3));
                self.map_f32(&g, args.buffer(1), args.size(4), |i| input[i].mul_add(scale, bias));
            }
            "nnis_bf16_vector_add_f32acc" => {
                let left = self.wide(args.buffer(0));
                let right = self.wide(args.buffer(1));
                self.map_u16(&g, args.buffer(2), args.size(3), |i| {
                    f32_to_bf16_rne(left[i] + right[i])
                });
            }
            "nnis_bf16_scale_f32acc" => {
                let input = self.wide(args.buffer(0));
                let scale = args.float(2);
                self.map_u16(&g, args.buffer(1), args.size(3), |i| {
                    f32_to_bf16_rne(input[i] * scale)
                });
            }
            "nnis_bf16_affine_f32acc" => {
                let input = self.wide(args.buffer(0));
                let (scale, bias) = (args.float(2), args.float(3));
                self.map_u16(&g, args.buffer(1), args.size(4), |i| {
                    f32_to_bf16_rne(input[i].mul_add(scale, bias))
                });
            }
            "nnis_bf16_relu_f32acc" => {
                let input = self.wide(args.buffer(0));
                self.map_u16(&g, args.buffer(1), args.size(2), |i| {
                    f32_to_bf16_rne(input[i].max(0.0))
                });
            }
            "nnis_bf16_silu_f32acc" => {
                let input = self.wide(args.buffer(0));
                self.map_u16(&g, args.buffer(1), args.size(2), |i| {
                    f32_to_bf16_rne(input[i] / (1.0 + (-input[i]).exp()))
                });
            }
            "nnis_bf16_gelu_tanh_f32acc" => {
                let input = self.wide(args.buffer(0));
                self.map_u16(&g, args.buffer(1), args.size(2), |i| {
                    let x = input[i];
                    let inner = 0.797_884_6_f32 * (x + 0.044_715 * x * x * x);
                    f32_to_bf16_rne(0.5 * x * (1.0 + inner.tanh()))
                });
            }
            "nnis_bf16_widen_f32" => {
                let input = self.wide(args.buffer(0));
                self.map_f32(&g, args.buffer(1), args.size(2), |i| input[i]);
            }
            "nnis_bf16_narrow_from_f32" => {
                let input = self.f32s(args.buffer(0));
                self.map_u16(&g, args.buffer(1), args.size(2), |i| f32_to_bf16_rne(input[i]));
            }
            "nnis_reduce_sum_f32" => self.reduce(&g, &args, 0.0, add),
            "nnis_reduce_max_f32" => self.reduce(&g, &args, f32::NEG_INFINITY, f32::max),
            "nnis_bf16_reduce_sum_f32" => {
                assert!(matches!(self.fetch(args.buffer(0)), Memory::U16(_)));
                self.reduce(&g, &args, 0.0, add);
            }
            "nnis_bf16_reduce_max_f32" => {
                assert!(matches!(self.fetch(args.buffer(0)), Memory::U16(_)));
                self.reduce(&g, &args, f32::NEG_INFINITY, f32::max);
            }
            "nnis_softmax_exp_shift_f32" => {
                let input = self.f32s(args.buffer(0));
                let maximum = self.f32s(args.buffer(2))[0];
                self.map_f32(&g, args.buffer(1), args.size(3), |i| (input[i] - maximum).exp());
            }
            "nnis_softmax_normalize_f32" => {
                let data = self.f32s(args.buffer(0));
                let total = self.f32s(args.buffer(1))[0];
                self.map_f32(&g, args.buffer(0), args.size(2), |i| data[i] / total);
            }
            "nnis_softmax_row_max_f32" => {
                let input = self.f32s(args.buffer(0));
                let cols = args.size(2);
                self.per_block(
                    &g,
                    args.buffer(1),
                    f32::NEG_INFINITY,
                    f32::max,
                    |row, lane, start| {
                        (lane..cols)
                            .step_by(lanes)
                            .fold(start, |value, i| value.max(input[row * cols + i]))
                    },
                );
            }
            "nnis_softmax_row_exp_shift_f32" => {
                let input = self.f32s(args.buffer(0));
                let row_max = self.f32s(args.buffer(2));
                let (rows, cols) = (args.size(3), args.size(4));
                self.map_f32(&g, args.buffer(1), rows * cols, |i| {
                    (input[i] - row_max[i / cols]).exp()
                });
            }
            "nnis_softmax_row_sum_f32" => {
                let input = self.f32s(args.buffer(0));
                let cols = args.size(2);
                self.per_block(&g, args.buffer(1), 0.0, add, |row, lane, start| {
                    (lane..cols)
                        .step_by(lanes)
                        .fold(start, |value, i| value + input[row * cols + i])
                });
            }
            "nnis_softmax_row_normalize_f32" => {
                let data = self.f32s(args.buffer(0));
                let total = self.f32s(args.buffer(1));
                let (rows, cols) = (args.size(2), args.size(3));
                self.map_f32(&g, args.buffer(0), rows * cols, |i| data[i] / total[i / cols]);
            }
            "nnis_softmax_row_fused_f32" => {
                let cols = args.size(2);
                self.rows_fused(&g, &args, cols, |row| {
                    let mut partials: Vec<f32> = (0..lanes)
                        .map(|lane| {
                            row.iter()
                                .skip(lane)
                                .step_by(lanes)
                                .fold(f32::NEG_INFINITY, |value, &x| value.max(x))
                        })
                        .collect();
                    let maximum = fold(&mut partials, f32::max);
                    let exponentials: Vec<f32> =
                        row.iter().map(|&x| (x - maximum).exp()).collect();
                    let mut partials: Vec<f32> = (0..lanes)
                        .map(|lane| exponentials.iter().skip(lane).step_by(lanes).sum())
                        .collect();
                    let total = fold(&mut partials, add);
                    exponentials.iter().map(|&x| x / total).collect()
                });
            }
            "nnis_rmsnorm_row_sumsq_f32" => {
                let input = self.f32s(args.buffer(0));
                let cols = args.size(2);
                self.per_block(&g, args.buffer(1), 0.0, add, |row, lane, start| {
                    (lane..cols).step_by(lanes).fold(start, |value, i| {
                        value + input[row * cols + i] * input[row * cols + i]
                    })
                });
            }
            "nnis_rmsnorm_normalize_f32" => {
                let input = self.f32s(args.buffer(0));
                let sums = self.f32s(args.buffer(2));
                let (rows, cols) = (args.size(3), args.size(4));
                let (inverse, epsilon, gamma) = (args.float(5), args.float(6), args.float(7));
                self.map_f32(&g, args.buffer(1), rows * cols, |i| {
                    let scale = 1.0 / (sums[i / cols] * inverse + epsilon).sqrt();
                    (input[i] * scale) * gamma
                });
            }
            "nnis_rmsnorm_row_fused_f32" => {
                let cols = args.size(2);
                let (inverse, epsilon, gamma) = (args.float(3), args.float(4), args.float(5));
                self.rows_fused(&g, &args, cols, |row| {
                    let mut partials: Vec<f32> = (0..lanes)
                        .map(|lane| {
                            row.iter().skip(lane).step_by(lanes).fold(0.0, |value, &x| value + x * x)
                        })
                        .collect();
                    let scale = 1.0 / (fold(&mut partials, add) * inverse + epsilon).sqrt();
                    row.iter().map(|&x| (x * scale) * gamma).collect()
                });
            }
            "nnis_gemm_f32" | "nnis_bf16_gemm_f32acc" => self.product(&g, &args, false, false),
            "nnis_gemm_nt_f32" | "nnis_bf16_gemm_nt_f32acc" => {
                self.product(&g, &args, false, true)
            }
            "nnis_gemm_batched_f32" => self.product(&g, &args, true, false),
            "nnis_gemm_nt_batched_f32" => self.product(&g, &args, true, true),
            "nnis_gemv_f32" => {
                let matrix = self.f32s(args.buffer(0));
                let vector = self.f32s(args.buffer(1));
                let cols = args.size(3);
                self.per_block(&g, args.buffer(2), 0.0, add, |row, lane, start| {
                    (lane..cols)
                        .step_by(lanes)
                        .fold(start, |value, i| matrix[row * cols + i].mul_add(vector[i], value))
                });
            }
            "nnis_rope_interleaved_f32" | "nnis_rope_rotate_half_f32" => {
                let input = self.f32s(args.buffer(0));
                let cos = self.f32s(args.buffer(1));
                let sin = self.f32s(args.buffer(2));
                let mut output = self.f32s(args.buffer(3));
                let (rows, half) = (args.size(4), args.size(5));
                let halves = launch.kernel.symbol() == "nnis_rope_rotate_half_f32";
                for index in 0..g.threads() {
                    if index < rows * half {
                        let (row, j) = (index / half, index % half);
                        let base = row * half * 2;
                        let (first, second) = if halves {
                            (base + j, base + half + j)
                        } else {
                            (base + 2 * j, base + 2 * j + 1)
                        };
                        let (c, s) = (cos[index], sin[index]);
                        output[first] = input[first] * c - input[second] * s;
                        output[second] = input[second] * c + input[first] * s;
                    }
                }
                self.put(args.buffer(3), Memory::F32(output));
            }
            "nnis_attention_fused_f32" | "nnis_attention_fused_bf16" => {
                self.attention(&g, &args, false)
            }
            "nnis_attention_fused_multihead_f32" | "nnis_attention_fused_multihead_bf16" => {
                self.attention(&g, &args, true)
            }
            "nnis_attention_scale_causal_f32" => {
                let scores = self.f32s(args.buffer(0));
                let (query_rows, kv_rows) = (args.size(2), args.size(3));
                let scale = args.float(4);
                self.map_f32(&g, args.buffer(1), query_rows * kv_rows, |i| {
                    if i % kv_rows > i / kv_rows { f32::NEG_INFINITY } else { scores[i] * scale }
                });
            }
            "nnis_attention_scale_causal_multihead_f32" => {
                let scores = self.f32s(args.buffer(0));
                let (count, query_rows, kv_rows) = (args.size(2), args.size(3), args.size(4));
                let scale = args.float(5);
                self.map_f32(&g, args.buffer(1), count, |i| {
                    if i % kv_rows > (i / kv_rows) % query_rows {
                        f32::NEG_INFINITY
                    } else {
                        scores[i] * scale
                    }
                });
            }
            "nnis_project_kn_f32_bf16_weight" => {
                let input = self.f32s(args.buffer(0));
                let weight = widened(&self.u16s(args.buffer(1)));
                let (k, n) = (args.size(3), args.size(4));
                self.map_f32(&g, args.buffer(2), n, |col| {
                    (0..k).fold(0.0, |value, row| input[row].mul_add(weight[row * n + col], value))
                });
            }
            "nnis_project_kn_f32_int2_weight" => {
                let input = self.f32s(args.buffer(0));
                let packed = self.bytes(args.buffer(1));
                let scale = self.f32s(args.buffer(2))[0];
                let (k, n) = (args.size(4), args.size(5));
                self.map_f32(&g, args.buffer(3), n, |col| {
                    (0..k).fold(0.0, |value, row| {
                        let flat = row * n + col;
                        let code = (packed[flat >> 2] >> ((flat & 3) * 2)) & 3;
                        let ternary = [0.0_f32, 1.0, -1.0, 0.0][code as usize];
                        input[row].mul_add(ternary * scale, value)
                    })
                });
            }
            "nnis_project_kn_f32_sparse_csc" => {
                let input = self.f32s(args.buffer(0));
                let offsets = self.u64s(args.buffer(1));
                let rows = self.u32s(args.buffer(2));
                let values = self.f32s(args.buffer(3));
                let (k, n, nnz) = (args.size(5), args.size(6), args.size(7));
                self.map_f32(&g, args.buffer(4), n, |col| {
                    let (begin, end) = (offsets[col] as usize, offsets[col + 1] as usize);
                    if begin > end || end > nnz {
                        return f32::from_bits(0x7FFF_FFFF);
                    }
                    let mut value = 0.0_f32;
                    for index in begin..end {
                        let row = rows[index] as usize;
                        if row >= k {
                            return f32::from_bits(0x7FFF_FFFF);
                        }
                        value = input[row].mul_add(values[index], value);
                    }
                    value
                });
            }
            "nnis_gather_rows_f32" => {
                let table = self.f32s(args.buffer(0));
                let indices = self.u32s(args.buffer(1));
                let (cols, count) = (args.size(4), args.size(5));
                self.map_f32(&g, args.buffer(2), count * cols, |i| {
                    table[indices[i / cols] as usize * cols + i % cols]
                });
            }
            "nnis_gather_rows_bf16" => {
                let table = self.u16s(args.buffer(0));
                let indices = self.u32s(args.buffer(1));
                let (cols, count) = (args.size(4), args.size(5));
                self.map_u16(&g, args.buffer(2), count * cols, |i| {
                    table[indices[i / cols] as usize * cols + i % cols]
                });
            }
            "nnis_scatter_rows_f32" => {
                let source = self.f32s(args.buffer(0));
                let positions = self.u32s(args.buffer(1));
                let mut output = self.f32s(args.buffer(2));
                let (cols, count) = (args.size(4), args.size(5));
                for i in 0..g.threads().min(count * cols) {
                    output[positions[i / cols] as usize * cols + i % cols] = source[i];
                }
                self.put(args.buffer(2), Memory::F32(output));
            }
            "nnis_scatter_rows_bf16" => {
                let source = self.u16s(args.buffer(0));
                let positions = self.u32s(args.buffer(1));
                let mut output = self.u16s(args.buffer(2));
                let (cols, count) = (args.size(4), args.size(5));
                for i in 0..g.threads().min(count * cols) {
                    output[positions[i / cols] as usize * cols + i % cols] = source[i];
                }
                self.put(args.buffer(2), Memory::U16(output));
            }
            "nnis_lm_head_argmax_candidates_f32" => {
                assert!(g.shared >= lanes * 8);
                let input = self.f32s(args.buffer(0));
                let weight = self.f32s(args.buffer(1));
                let mut values = self.f32s(args.buffer(2));
                let mut indices = self.u32s(args.buffer(3));
                let (k, vocab) = (args.size(4), args.size(5));
                for block in 0..g.grid[0] {
                    let mut partials: Vec<(f32, u32)> = (0..lanes)
                        .map(|lane| {
                            let token = block * lanes + lane;
                            if token >= vocab {
                                return (f32::NEG_INFINITY, u32::MAX);
                            }
                            let value = (0..k).fold(0.0_f32, |value, row| {
                                input[row].mul_add(weight[row * vocab + token], value)
                            });
                            (value, token as u32)
                        })
                        .collect();
                    (values[block], indices[block]) = fold_pairs(&mut partials);
                }
                self.put(args.buffer(2), Memory::F32(values));
                self.put(args.buffer(3), Memory::U32(indices));
            }
            "nnis_lm_head_argmax_reduce_f32" => {
                assert!(g.shared >= lanes * 8 && g.grid[0] == 1);
                let values = self.f32s(args.buffer(0));
                let indices = self.u32s(args.buffer(1));
                let count = args.size(4);
                let mut partials = vec![(f32::NEG_INFINITY, u32::MAX); lanes];
                for i in 0..count {
                    let candidate = (values[i], indices[i]);
                    if candidate.1 != u32::MAX && beats(candidate, partials[i % lanes]) {
                        partials[i % lanes] = candidate;
                    }
                }
                let winner = fold_pairs(&mut partials);
                self.put(args.buffer(2), Memory::F32(vec![winner.0]));
                self.put(args.buffer(3), Memory::U32(vec![winner.1]));
            }
            "nnis_topk_fill_f32" => {
                let input = self.f32s(args.buffer(0));
                self.map_f32(&g, args.buffer(1), args.size(2), |i| input[i]);
            }
            "nnis_topk_mask_f32" => {
                let mut data = self.f32s(args.buffer(0));
                let indices = self.u32s(args.buffer(2));
                data[indices[args.size(1)] as usize] = f32::NEG_INFINITY;
                self.put(args.buffer(0), Memory::F32(data));
            }
            "nnis_topk_argmax_first_f32" => {
                let (source, offset) = args.at(0);
                let input: Vec<(f32, u32)> = self.f32s(source)[offset..]
                    .iter()
                    .enumerate()
                    .map(|(index, &value)| (value, index as u32))
                    .collect();
                self.scan(&g, &input, args.at(1), args.at(2), args.size(3));
            }
            "nnis_topk_argmax_pair_f32" => {
                let values = self.f32s(args.at(0).0);
                let indices = self.u32s(args.at(1).0);
                let input: Vec<(f32, u32)> = values[args.at(0).1..]
                    .iter()
                    .copied()
                    .zip(indices[args.at(1).1..].iter().copied())
                    .collect();
                self.scan(&g, &input, args.at(2), args.at(3), args.size(4));
            }
            other => panic!("no kernel is called {other}"),
        }
    }
}

fn elementwise() -> F32Elementwise {
    let probes = ElementwiseProbes { vector_add: PROBE, scale: PROBE, affine: PROBE };
    F32Elementwise::load(CONTEXT, &probes).unwrap()
}

fn conversions() -> Bf16Elementwise {
    let probes = Bf16Probes {
        vector_add: PROBE,
        scale: PROBE,
        affine: PROBE,
        relu: PROBE,
        silu: PROBE,
        gelu_tanh: PROBE,
        widen: PROBE,
        narrow: PROBE,
    };
    Bf16Elementwise::load(CONTEXT, &probes).unwrap()
}

fn gemm() -> F32Gemm {
    let probes =
        GemmProbes { gemm: PROBE, gemm_nt: PROBE, gemm_batched: PROBE, gemm_nt_batched: PROBE };
    F32Gemm::load(CONTEXT, &probes).unwrap()
}

fn bf16_gemm() -> Bf16Gemm {
    Bf16Gemm::load(CONTEXT, &Bf16GemmProbes { gemm: PROBE, gemm_nt: PROBE }).unwrap()
}

fn softmax_2d() -> F32Softmax2D {
    let probes = RowSoftmaxProbes {
        row_max: PROBE,
        exp_shift: PROBE,
        row_sum: PROBE,
        normalize: PROBE,
        fused: PROBE,
    };
    F32Softmax2D::load(CONTEXT, &probes).unwrap()
}

fn softmax() -> F32Softmax {
    let probes = SoftmaxProbes { reduction: PROBE, exp_shift: PROBE, normalize: PROBE };
    F32Softmax::load(CONTEXT, &probes).unwrap()
}

fn rms_norm() -> F32RmsNorm {
    let probes = RmsNormProbes { row_sumsq: PROBE, normalize: PROBE, fused: PROBE };
    F32RmsNorm::load(CONTEXT, &probes).unwrap()
}

fn attention() -> F32Attention {
    F32Attention::load(CONTEXT, &AttentionProbes { fused: PROBE, scale_causal: PROBE }).unwrap()
}

fn bf16_attention() -> Bf16Attention {
    Bf16Attention::load(CONTEXT, PROBE).unwrap()
}

fn bf16_reduction() -> Bf16Reduction {
    let probes = Bf16ReductionProbes { bf16_sum: PROBE, bf16_max: PROBE, sum: PROBE, max: PROBE };
    Bf16Reduction::load(CONTEXT, &probes).unwrap()
}

fn top_k() -> F32TopK {
    let probes = TopKProbes {
        fill: PROBE,
        mask: PROBE,
        argmax_first: PROBE,
        argmax_pair: PROBE,
        argmax_first_memory: PROBE,
        argmax_pair_memory: PROBE,
    };
    F32TopK::load(CONTEXT, &probes).unwrap()
}

#[test]
fn elementwise_kernels_match_cpu_oracles_on_gpu() {
    const TEST_SIZES: &[usize] = &[0, 1, 31, 32, 255, 256, 257, 1_025, 4_097];
    let assert_close = |actual: &[f32], expected: &[f32], operation: &str| {
        assert_eq!(actual.len(), expected.len());
        for (index, (&actual, &expected)) in actual.iter().zip(expected).enumerate() {
            let tolerance = 2.0e-6_f32.max(expected.abs() * 2.0e-6);
            assert!(
                (actual - expected).abs() <= tolerance,
                "{operation} mismatch at {index}: {actual} != {expected}"
            );
        }
    };
    let kernels = elementwise();
    let occupancy = kernels.occupancy(Ok((256, 4)), Ok((512, 2)), Ok((128, 8))).unwrap();
    assert_eq!(occupancy.vector_add, (256, 4));
    assert_eq!(occupancy.scale, (512, 2));
    assert_eq!(occupancy.affine, (128, 8));
    let active_blocks = kernels.active_blocks_per_multiprocessor(Ok(6), Ok(5), Ok(4)).unwrap();
    assert_eq!(active_blocks.vector_add, 6);
    assert_eq!(active_blocks.scale, 5);
    assert_eq!(active_blocks.affine, 4);
    let mut device = Device::new();

    for &size in TEST_SIZES {
        let left_host =
            (0..size).map(|index| (index as f32 - 37.0) * 0.03125).collect::<Vec<_>>();
        let right_host =
            (0..size).map(|index| (index as f32 % 19.0) * -0.125 + 0.75).collect::<Vec<_>>();
        let left = device.upload(&left_host);
        let right = device.upload(&right_host);
        let output = device.floats(size);

        device.run(&kernels.vector_add(&STREAM, &left, &right, &output)).unwrap();
        let expected = left_host
            .iter()
            .zip(&right_host)
            .map(|(&left, &right)| left + right)
            .collect::<Vec<_>>();
        assert_close(&device.f32s(output.id), &expected, "vector_add");

        let scale = -0.625_f32;
        device.run(&kernels.scale(&STREAM, &left, &output, scalar(scale))).unwrap();
        let expected = left_host.iter().map(|&value| value * scale).collect::<Vec<_>>();
        assert_close(&device.f32s(output.id), &expected, "scale");

        let bias = 1.75_f32;
        device.run(&kernels.affine(&STREAM, &left, &output, scalar(scale), scalar(bias))).unwrap();
        let expected =
            left_host.iter().map(|&value| value.mul_add(scale, bias)).collect::<Vec<_>>();
        assert_close(&device.f32s(output.id), &expected, "affine");
    }
}

#[test]
fn bf16_kernels_match_host_oracles_bit_exact_on_gpu() {
    const TEST_SIZES: &[usize] = &[1, 31, 255, 256, 4_097];
    let bf16 = conversions();
    let mut device = Device::new();

    for &size in TEST_SIZES {
        let left_bf16: Vec<u16> = (0..size)
            .map(|i| ((i % 61) as f32 - 30.0) * 0.125)
            .map(f32_to_bf16_rne)
            .collect();
        let right_bf16: Vec<u16> = (0..size)
            .map(|i| ((i % 23) as f32 - 11.0) * 0.25)
            .map(f32_to_bf16_rne)
            .collect();
        let left = device.upload_bits(&left_bf16);
        let right = device.upload_bits(&right_bf16);
        let output = device.halves(size);

        // Widening is exact.
        let wide = device.floats(size);
        device.run(&bf16.widen(&STREAM, &left, &wide)).unwrap();
        for (index, value) in device.f32s(wide.id).iter().enumerate() {
            assert_eq!(*value, bf16_bits_to_f32(left_bf16[index]), "widen at {index}");
        }

        // Narrowing matches RNE.
        device.run(&bf16.narrow(&STREAM, &wide, &output)).unwrap();
        assert_eq!(device.u16s(output.id), left_bf16);

        // Vector add: identical f32 arithmetic then identical rounding.
        device.run(&bf16.vector_add(&STREAM, &left, &right, &output)).unwrap();
        let actual = device.u16s(output.id);
        for index in 0..size {
            let expected_sum =
                bf16_bits_to_f32(left_bf16[index]) + bf16_bits_to_f32(right_bf16[index]);
            assert_eq!(actual[index], f32_to_bf16_rne(expected_sum), "add at {index}");
        }

        // Scale: single multiply, no contraction possible.
        let scale = -1.375_f32;
        device.run(&bf16.scale(&STREAM, &left, &output, scalar(scale))).unwrap();
        let actual = device.u16s(output.id);
        for index in 0..size {
            let expected_product = bf16_bits_to_f32(left_bf16[index]) * scale;
            assert_eq!(actual[index], f32_to_bf16_rne(expected_product), "scale at {index}");
        }

        // Affine: explicit FMA on both sides.
        let bias = 0.875_f32;
        device.run(&bf16.affine(&STREAM, &left, &output, scalar(scale), scalar(bias))).unwrap();
        let actual = device.u16s(output.id);
        for index in 0..size {
            let expected_value = bf16_bits_to_f32(left_bf16[index]).mul_add(scale, bias);
            assert_eq!(actual[index], f32_to_bf16_rne(expected_value), "affine at {index}");
        }
    }
}

#[test]
fn bf16_activations_match_host_oracles_on_gpu() {
    const TEST_SIZES: &[usize] = &[1, 63, 256, 1_025];
    let kernels = conversions();
    let mut device = Device::new();

    for &size in TEST_SIZES {
        let input_bits: Vec<u16> = (0..size)
            .map(|index| (index as f32 - size as f32 / 2.0) * 0.25)
            .map(f32_to_bf16_rne)
            .collect();
        let input = device.upload_bits(&input_bits);

        // ReLU: widen -> fmax(0) -> narrow is deterministic bit math.
        let output = device.halves(size);
        device.run(&kernels.relu(&STREAM, &input, &output)).unwrap();
        let actual = device.u16s(output.id);
        for index in 0..size {
            let expected = f32_to_bf16_rne(bf16_bits_to_f32(input_bits[index]).max(0.0));
            assert_eq!(actual[index], expected, "bf16 relu mismatch at {index} size {size}");
        }

        // SiLU: transcendental, f64 tolerance oracle over widened values.
        let output = device.halves(size);
        device.run(&kernels.silu(&STREAM, &input, &output)).unwrap();
        let actual = device.u16s(output.id);
        for index in 0..size {
            let x = f64::from(bf16_bits_to_f32(input_bits[index]));
            let expected_f32 = (x / (1.0 + (-x).exp())) as f32;
            assert!(
                (f64::from(bf16_bits_to_f32(actual[index])) - f64::from(expected_f32)).abs()
                    <= 1.0e-2_f64.max(f64::from(expected_f32.abs()) * 1.0e-2),
                "bf16 silu mismatch at {index} size {size}"
            );
        }

        // GELU (tanh approximation): same tolerance policy.
        let output = device.halves(size);
        device.run(&kernels.gelu_tanh(&STREAM, &input, &output)).unwrap();
        let actual = device.u16s(output.id);
        for index in 0..size {
            let x = f64::from(bf16_bits_to_f32(input_bits[index]));
            let inner = 0.7978845608028654_f64 * (x + 0.044_715_f64 * x * x * x);
            let expected_f32 = (0.5 * x * (1.0 + inner.tanh())) as f32;
            assert!(
                (f64::from(bf16_bits_to_f32(actual[index])) - f64::from(expected_f32)).abs()
                    <= 1.0e-2_f64.max(f64::from(expected_f32.abs()) * 1.0e-2),
                "bf16 gelu mismatch at {index} size {size}"
            );
        }
    }
}

const REDUCTION_SIZES: &[usize] = &[
    0, 1, 2, 3, 31, 32, 255, 256, 257, 511, 512, 513, 1_023, 1_024, 1_025, 131_071, 1_000_003,
];

fn reference_tree_sum(input: &[f32], block_size: usize) -> f32 {
    if input.is_empty() {
        return 0.0;
    }
    let mut current = input.to_vec();
    loop {
        let output_elements = current.len().div_ceil(block_size * 2);
        let mut output = vec![0.0_f32; output_elements];
        for (block, result) in output.iter_mut().enumerate() {
            let mut shared = vec![0.0_f32; block_size];
            let base = block * block_size * 2;
            for (lane, value) in shared.iter_mut().enumerate() {
                if let Some(first) = current.get(base + lane) {
                    *value = *first;
                }
                if let Some(second) = current.get(base + block_size + lane) {
                    *value += *second;
                }
            }
            let mut stride = block_size / 2;
            while stride > 0 {
                for lane in 0..stride {
                    shared[lane] += shared[lane + stride];
                }
                stride /= 2;
            }
            *result = shared[0];
        }
        if output.len() == 1 {
            return output[0];
        }
        current = output;
    }
}

fn forward_error_bound(input: &[f32]) -> f32 {
    if input.is_empty() {
        return 0.0;
    }
    let depth = (usize::BITS - (input.len() - 1).leading_zeros()) as f64 + 1.0;
    let epsilon = f32::EPSILON as f64;
    let gamma = depth * epsilon / (1.0 - depth * epsilon);
    let magnitude = input.iter().map(|value| f64::from(value.abs())).sum::<f64>();
    (gamma * magnitude).max(f64::from(f32::EPSILON)) as f32
}

#[test]
fn sum_matches_ordered_cpu_oracle_on_gpu() {
    let reduction = F32Reduction::load(CONTEXT, PROBE).unwrap();
    let maximum = *REDUCTION_SIZES.iter().max().unwrap();
    let workspace = reduction
        .workspace(CONTEXT, maximum, BufferId::Operand(901), BufferId::Operand(902))
        .unwrap();
    let mut device = Device::new();
    device.run(&workspace.allocation()).unwrap();
    let output = device.floats(1);

    for &size in REDUCTION_SIZES {
        let host = (0..size)
            .map(|index| {
                let numerator = (index * 37 % 1_009) as f32 - 504.0;
                numerator / 127.0
            })
            .collect::<Vec<_>>();
        let input = device.upload(&host);
        device.run(&reduction.sum_into(&STREAM, &input, &output, &workspace)).unwrap();
        let actual = device.f32s(output.id)[0];
        let ordered = reference_tree_sum(&host, reduction.block_size() as usize);
        assert_eq!(
            actual.to_bits(),
            ordered.to_bits(),
            "ordered sum mismatch for {size} elements: {actual} != {ordered}"
        );

        let high_precision = host.iter().map(|&value| f64::from(value)).sum::<f64>();
        let error = (f64::from(actual) - high_precision).abs();
        let tolerance = f64::from(forward_error_bound(&host));
        assert!(
            error <= tolerance,
            "sum error for {size} elements is {error}, tolerance is {tolerance}"
        );
    }

    let singleton = device.upload(&[3.25_f32]);
    assert_eq!(device.run_scalar(&reduction.sum(&STREAM, &singleton)), 3.25);
}

fn packed_values(size: usize) -> Vec<f32> {
    (0..size)
        .map(|index| {
            let numerator = (index * 37 % 1_009) as f32 - 504.0;
            numerator / 64.0
        })
        .collect()
}

#[test]
fn bf16_sum_matches_ordered_cpu_oracle_on_gpu() {
    let reduction = bf16_reduction();
    let mut device = Device::new();
    for &size in REDUCTION_SIZES {
        let bits = to_bits(&packed_values(size));
        let input = device.upload_bits(&bits);
        let actual = device.run_scalar(&reduction.sum(&STREAM, &input));

        // Bit-exact against the same-order f32 tree over widened inputs.
        let wide = widened(&bits);
        let ordered = reference_tree_sum(&wide, reduction.block_size() as usize);
        assert_eq!(
            actual.to_bits(),
            ordered.to_bits(),
            "ordered bf16 sum mismatch for {size} elements"
        );

        // High-precision bound on the accumulated rounding error.
        let exact: f64 = wide.iter().map(|&value| f64::from(value)).sum();
        let depth = (usize::BITS - (size.max(1) - 1).leading_zeros()) as f64 + 1.0;
        let gamma = depth * f32::EPSILON as f64 / (1.0 - depth * f32::EPSILON as f64);
        let magnitude: f64 = wide.iter().map(|&value| f64::from(value).abs()).sum();
        let error = (f64::from(actual) - exact).abs();
        assert!(
            size == 0 || error <= (gamma * magnitude).max(f64::from(f32::EPSILON)),
            "bf16 sum error for {size} elements is {error}"
        );
    }
}

#[test]
fn bf16_max_matches_cpu_oracle_on_gpu() {
    let reduction = bf16_reduction();
    let mut device = Device::new();
    for &size in REDUCTION_SIZES {
        let host = packed_values(size);
        let input = device.upload_bits(&to_bits(&host));
        let actual = device.run_scalar(&reduction.max(&STREAM, &input));
        if size == 0 {
            assert_eq!(actual.to_bits(), f32::NEG_INFINITY.to_bits());
            continue;
        }
        let expected = host
            .iter()
            .map(|&value| bf16_bits_to_f32(f32_to_bf16_rne(value)))
            .fold(f32::NEG_INFINITY, f32::max);
        assert_eq!(
            actual.to_bits(),
            expected.to_bits(),
            "bf16 max mismatch for {size} elements"
        );
    }
}

const SOFTMAX_SIZES: &[usize] = &[0, 1, 31, 32, 255, 256, 257, 1_025, 4_097];

fn softmax_values(size: usize) -> Vec<f32> {
    (0..size)
        .map(|index| {
            let spread = ((index % 17) as f32 - 8.0) * 37.5;
            let ripple = ((index * 7 % 101) as f32 - 50.0) * 0.25;
            spread + ripple
        })
        .collect()
}

fn reference_softmax(input: &[f32]) -> Vec<f64> {
    let maximum =
        input.iter().copied().fold(f64::NEG_INFINITY, |acc, value| acc.max(f64::from(value)));
    let exponentials: Vec<f64> =
        input.iter().map(|&value| (f64::from(value) - maximum).exp()).collect();
    let total: f64 = exponentials.iter().sum();
    exponentials.into_iter().map(|value| value / total).collect()
}

fn assert_softmax(actual: &[f32], expected: &[f64], label: &str) {
    assert_eq!(actual.len(), expected.len());
    for (index, (&actual, &expected)) in actual.iter().zip(expected).enumerate() {
        let tolerance = 1.0e-6_f32.max((expected.abs() as f32) * 1.0e-5);
        assert!(
            (actual - expected as f32).abs() <= tolerance,
            "{label} mismatch at {index}: actual={actual}, expected={expected}"
        );
    }
}

#[test]
fn softmax_matches_high_precision_oracle_on_gpu() {
    let softmax = softmax();
    let maximum = *SOFTMAX_SIZES.iter().max().unwrap();
    let workspace = softmax
        .reduction()
        .workspace(CONTEXT, maximum, BufferId::Operand(901), BufferId::Operand(902))
        .unwrap();
    let mut device = Device::new();
    device.run(&workspace.allocation()).unwrap();

    for &size in SOFTMAX_SIZES {
        let host = softmax_values(size);
        let input = device.upload(&host);
        let output = device.floats(size);
        device.run(&softmax.softmax_into(&STREAM, &input, &output, &workspace)).unwrap();
        let actual = device.f32s(output.id);
        assert_softmax(&actual, &reference_softmax(&host), "softmax");
        if size == 0 {
            continue;
        }
        let probability_sum: f32 = actual.iter().sum();
        let sum_tolerance = 2.0e-4_f32.max(f32::EPSILON * size as f32);
        assert!(
            (probability_sum - 1.0).abs() <= sum_tolerance,
            "probabilities sum to {probability_sum} for {size} elements"
        );
    }

    // A single element always yields exactly 1.0.
    let input = device.upload(&[-123.5_f32]);
    let output = device.floats(1);
    device.run(&softmax.softmax(CONTEXT, &STREAM, &input, &output)).unwrap();
    assert_eq!(device.f32s(output.id)[0], 1.0);

    // Constant inputs yield a uniform distribution.
    let input = device.upload(&[9.75_f32; 100]);
    let output = device.floats(100);
    device.run(&softmax.softmax(CONTEXT, &STREAM, &input, &output)).unwrap();
    for (index, value) in device.f32s(output.id).iter().enumerate() {
        assert!((value - 0.01).abs() <= 1.0e-6, "uniform mismatch at {index}: {value}");
    }
}

#[test]
fn pooled_softmax_matches_oracle_across_sizes_on_gpu() {
    let softmax = softmax();
    let mut device = Device::new();
    for &size in SOFTMAX_SIZES {
        let host = softmax_values(size);
        let input = device.upload(&host);
        let output = device.floats(size);
        device.run(&softmax.softmax_pooled(&STREAM, &input, &output, CONTEXT)).unwrap();
        assert_softmax(&device.f32s(output.id), &reference_softmax(&host), "pooled");
    }

    // Singleton through the pooled path must be exactly 1.0.
    let input = device.upload(&[7.5_f32]);
    let output = device.floats(1);
    device.run(&softmax.softmax_pooled(&STREAM, &input, &output, CONTEXT)).unwrap();
    let value = device.f32s(output.id)[0];
    assert!((value - 1.0).abs() <= 1.0e-7, "singleton: {value}");

    // Undersized pooled workspace is rejected before any launch.
    let input = device.upload(&softmax_values(64));
    let output = device.floats(64);
    let workspace = softmax
        .reduction()
        .workspace(CONTEXT, 8, BufferId::Operand(901), BufferId::Operand(902))
        .unwrap();
    let max_scratch = device.floats(1);
    let sum_scratch = device.floats(1);
    let launches = device.launches;
    let error = device
        .run(&softmax.enqueue_softmax_pooled(
            &STREAM,
            &input,
            &output,
            &max_scratch,
            &sum_scratch,
            &workspace,
        ))
        .unwrap_err()
        .message();
    assert!(error.contains("capacity is 8"), "{error}");
    assert_eq!(device.launches, launches);
}

const ROW_SHAPES: &[(usize, usize)] = &[
    (1, 1),
    (1, 7),
    (2, 31),
    (3, 32),
    (5, 255),
    (4, 256),
    (7, 257),
    (13, 1_025),
    (17, 4_097),
];

fn row_softmax_values(rows: usize, cols: usize) -> Vec<f32> {
    (0..rows * cols)
        .map(|index| {
            let spread = ((index % 23) as f32 - 11.0) * 29.5;
            let ripple = ((index * 11 % 127) as f32 - 63.0) * 0.125;
            spread + ripple
        })
        .collect()
}

fn reference_softmax_rows(input: &[f32], cols: usize) -> Vec<f64> {
    input.chunks(cols).flat_map(reference_softmax).collect()
}

#[test]
fn row_softmax_matches_high_precision_oracle_on_gpu() {
    let softmax = softmax_2d();
    let max_rows = ROW_SHAPES.iter().map(|&(rows, _)| rows).max().unwrap();
    let workspace = softmax.workspace(CONTEXT, max_rows, BufferId::Operand(901)).unwrap();
    let mut device = Device::new();
    device.run(&workspace.allocation()).unwrap();

    for &(rows, cols) in ROW_SHAPES {
        let host = row_softmax_values(rows, cols);
        let input = device.upload(&host);
        let output = device.floats(rows * cols);
        let r = Rows { input, output, rows, cols };
        device.run(&softmax.softmax_rows(
            &STREAM,
            &r.input,
            &r.output,
            r.rows,
            r.cols,
            &workspace,
        )).unwrap();
        assert_softmax(
            &device.f32s(output.id),
            &reference_softmax_rows(&host, cols),
            &format!("row softmax ({rows}, {cols})"),
        );
    }

    // Every row of a constant matrix is uniform.
    let (rows, cols) = (6_usize, 129_usize);
    let input = device.upload(&vec![3.5_f32; rows * cols]);
    let output = device.floats(rows * cols);
    let small_workspace = softmax.workspace(CONTEXT, rows, BufferId::Operand(902)).unwrap();
    device.run(&small_workspace.allocation()).unwrap();
    let r = Rows { input, output, rows, cols };
    device.run(&softmax.softmax_rows(
        &STREAM,
        &r.input,
        &r.output,
        r.rows,
        r.cols,
        &small_workspace,
    )).unwrap();
    for (index, value) in device.f32s(output.id).iter().enumerate() {
        let expected = 1.0 / cols as f32;
        assert!(
            (value - expected).abs() <= 1.0e-6,
            "uniform mismatch at {index}: {value} != {expected}"
        );
    }
}

#[test]
fn fused_row_softmax_matches_high_precision_oracle_on_gpu() {
    let softmax = softmax_2d();
    let mut device = Device::new();
    for &(rows, cols) in ROW_SHAPES {
        let host = row_softmax_values(rows, cols);
        let input = device.upload(&host);
        let output = device.floats(rows * cols);
        let r = Rows { input, output, rows, cols };
        device.run(&softmax.fused_softmax_rows(
            &STREAM,
            &r.input,
            &r.output,
            r.rows,
            r.cols,
            PROBE,
        )).unwrap();
        assert_softmax(
            &device.f32s(output.id),
            &reference_softmax_rows(&host, cols),
            &format!("fused row softmax ({rows}, {cols})"),
        );
    }
}

const EPSILON: f32 = 1.0e-6;
const GAMMA: f32 = 1.625;

fn rms_values(rows: usize, cols: usize) -> Vec<f32> {
    (0..rows * cols)
        .map(|index| {
            let drift = ((index % 17) as f32 - 8.0) * 11.25;
            let ripple = ((index * 7 % 89) as f32 - 44.0) * 0.0625;
            drift + ripple
        })
        .collect()
}

fn reference_rms(input: &[f32], cols: usize) -> Vec<f64> {
    input
        .chunks(cols)
        .flat_map(|slice| {
            let mean_square: f64 = slice
                .iter()
                .map(|&value| f64::from(value) * f64::from(value))
                .sum::<f64>()
                / slice.len() as f64;
            let scale = (mean_square + f64::from(EPSILON)).sqrt().recip();
            slice.iter().map(move |&value| f64::from(value) * scale * f64::from(GAMMA))
        })
        .collect()
}

fn assert_rms(actual: &[f32], expected: &[f64], label: &str) {
    assert_eq!(actual.len(), expected.len());
    for (index, (&actual, &expected)) in actual.iter().zip(expected).enumerate() {
        let tolerance = 2.0e-6_f32.max((expected.abs() as f32) * 1.0e-5);
        assert!(
            (actual - expected as f32).abs() <= tolerance,
            "{label} mismatch at {index}: {actual} != {expected}, tolerance={tolerance}"
        );
    }
}

#[test]
fn rms_norm_matches_high_precision_oracle_on_gpu() {
    let rms_norm = rms_norm();
    let max_rows = ROW_SHAPES.iter().map(|&(rows, _)| rows).max().unwrap();
    let workspace = rms_norm.workspace(CONTEXT, max_rows, BufferId::Operand(901)).unwrap();
    let mut device = Device::new();
    device.run(&workspace.allocation()).unwrap();

    for &(rows, cols) in ROW_SHAPES {
        let host = rms_values(rows, cols);
        let input = device.upload(&host);
        let output = device.floats(rows * cols);
        let r = Rows { input, output, rows, cols };
        device
            .run(&rms_norm.normalize_rows(
                &STREAM,
                &r.input,
                &r.output,
                r.rows,
                r.cols,
                scalar(EPSILON),
                scalar(GAMMA),
                &workspace,
            ))
            .unwrap();
        assert_rms(
            &device.f32s(output.id),
            &reference_rms(&host, cols),
            &format!("staged ({rows}, {cols})"),
        );
    }

    // A constant row c normalizes to c/RMS(c) = sign(c):
    // out = c * gamma / sqrt(c^2 + eps) ~= gamma.
    let (rows, cols) = (4_usize, 129_usize);
    let input = device.upload(&vec![3.5_f32; rows * cols]);
    let output = device.floats(rows * cols);
    let small = rms_norm.workspace(CONTEXT, rows, BufferId::Operand(902)).unwrap();
    device.run(&small.allocation()).unwrap();
    let r = Rows { input, output, rows, cols };
    device
        .run(&rms_norm.normalize_rows(
            &STREAM,
            &r.input,
            &r.output,
            r.rows,
            r.cols,
            scalar(EPSILON),
            scalar(GAMMA),
            &small,
        ))
        .unwrap();
    let expected = 3.5_f32 / (3.5_f32 * 3.5_f32 + EPSILON).sqrt() * GAMMA;
    for (index, value) in device.f32s(output.id).iter().enumerate() {
        assert!(
            (value - expected).abs() <= 1.0e-4,
            "constant-row mismatch at {index}: {value} != {expected}"
        );
    }
}

#[test]
fn fused_rms_norm_matches_high_precision_oracle_on_gpu() {
    let rms_norm = rms_norm();
    let mut device = Device::new();
    for &(rows, cols) in ROW_SHAPES {
        let host = rms_values(rows, cols);
        let input = device.upload(&host);
        let output = device.floats(rows * cols);
        let r = Rows { input, output, rows, cols };
        device
            .run(&rms_norm.fused_normalize_rows(
                &STREAM,
                &r.input,
                &r.output,
                r.rows,
                r.cols,
                scalar(EPSILON),
                scalar(GAMMA),
                PROBE,
            ))
            .unwrap();
        assert_rms(
            &device.f32s(output.id),
            &reference_rms(&host, cols),
            &format!("fused ({rows}, {cols})"),
        );
    }
}

#[test]
fn dispatched_path_matches_oracle_and_selects_fused_when_possible() {
    let rms_norm = rms_norm();
    assert!(rms_norm.fused_available(2_048, PROBE));
    // A row that cannot fit shared memory must still normalize correctly
    // through the staged fallback.
    assert!(!rms_norm.fused_available(20_000, PROBE));
    let mut device = Device::new();

    for &(rows, cols, fused_expected) in &[
        (5_usize, 2_048_usize, true),
        (3_usize, 257_usize, true),
        (2_usize, 20_000_usize, false),
    ] {
        let host = rms_values(rows, cols);
        let input = device.upload(&host);
        let output = device.floats(rows * cols);
        let r = Rows { input, output, rows, cols };
        let launches = device.launches;
        device
            .run(&rms_norm.normalize_rows_dispatched(
                &STREAM,
                &r.input,
                &r.output,
                r.rows,
                r.cols,
                scalar(EPSILON),
                scalar(GAMMA),
                &FUSED,
            ))
            .unwrap();
        assert_rms(
            &device.f32s(output.id),
            &reference_rms(&host, cols),
            &format!("dispatched ({rows}, {cols})"),
        );
        assert_eq!(fused_expected, rms_norm.fused_available(cols, PROBE));
        assert_eq!(device.launches - launches, if fused_expected { 1 } else { 2 });
    }
}

#[test]
fn gather_rows_match_table_contents_on_gpu() {
    const CASES: &[(usize, usize, usize)] =
        &[(1, 1, 1), (4, 8, 4), (16, 1, 7), (33, 65, 129), (256, 32, 300)];
    let f32_gather = F32Gather::load(CONTEXT, PROBE).unwrap();
    let bf16_gather = Bf16Gather::load(CONTEXT, PROBE).unwrap();
    let mut device = Device::new();

    for &(rows, cols, count) in CASES {
        let table_host: Vec<f32> =
            (0..rows * cols).map(|index| ((index * 13 % 97) as f32 - 48.0) * 0.0625).collect();
        // Deterministic duplicates and unsorted orders.
        let indices_host: Vec<u32> =
            (0..count).map(|index| ((index * 17 + index / 3) % rows) as u32).collect();
        let indices = device.upload_words(&indices_host);

        // f32: bit-exact copy of stored values.
        let table = device.upload(&table_host);
        let output = device.floats(count * cols);
        let p = Lookup { table, indices, output, rows, cols };
        device.run(&f32_gather.gather(
            &STREAM,
            &p.table,
            &p.indices,
            &p.output,
            p.rows,
            p.cols,
            &indices_host,
        )).unwrap();
        let actual = device.f32s(output.id);

        // Packed bf16: bit patterns copied verbatim.
        let bits = to_bits(&table_host);
        let table = device.upload_bits(&bits);
        let output = device.halves(count * cols);
        let p = Lookup { table, indices, output, rows, cols };
        device.run(&bf16_gather.gather(
            &STREAM,
            &p.table,
            &p.indices,
            &p.output,
            p.rows,
            p.cols,
            &indices_host,
        )).unwrap();
        let actual_bits = device.u16s(output.id);

        for position in 0..count {
            let row = indices_host[position] as usize;
            for col in 0..cols {
                assert_eq!(
                    actual[position * cols + col].to_bits(),
                    table_host[row * cols + col].to_bits(),
                    "f32 mismatch at ({position}, {col}) shape ({rows}, {cols}, {count})"
                );
                assert_eq!(
                    actual_bits[position * cols + col],
                    bits[row * cols + col],
                    "bf16 mismatch at ({position}, {col}) shape ({rows}, {cols}, {count})"
                );
            }
        }
    }
}

#[test]
fn scatter_writes_selected_rows_and_leaves_others_untouched_on_gpu() {
    const CASES: &[(usize, usize, usize)] = &[(4, 8, 4), (16, 1, 7), (33, 65, 16)];
    let f32_scatter = F32Scatter::load(CONTEXT, PROBE).unwrap();
    let bf16_scatter = Bf16Scatter::load(CONTEXT, PROBE).unwrap();
    let mut device = Device::new();

    for &(rows, cols, count) in CASES {
        assert!(count <= rows);
        let source_host: Vec<f32> =
            (0..count * cols).map(|i| ((i * 13 % 97) as f32 - 48.0) * 0.0625).collect();
        // Descending order: unique by construction and exercises
        // non-monotonic write patterns.
        let positions_host: Vec<u32> = (0..count).map(|i| (rows - 1 - i) as u32).collect();
        let positions = device.upload_words(&positions_host);

        // Outputs hold a sentinel distinct from any payload.
        let output = device.floats(rows * cols);
        let source = device.upload(&source_host);
        let p = Placement { source, positions, output, output_rows: rows, cols };
        device.run(&f32_scatter.scatter(
            &STREAM,
            &p.source,
            &p.positions,
            &p.output,
            p.output_rows,
            p.cols,
            &positions_host,
        )).unwrap();
        let actual = device.f32s(output.id);

        let source_bits = to_bits(&source_host);
        let output = device.upload_bits(&vec![0xAAAA_u16; rows * cols]);
        let source = device.upload_bits(&source_bits);
        let p = Placement { source, positions, output, output_rows: rows, cols };
        device.run(&bf16_scatter.scatter(
            &STREAM,
            &p.source,
            &p.positions,
            &p.output,
            p.output_rows,
            p.cols,
            &positions_host,
        )).unwrap();
        let actual_bits = device.u16s(output.id);

        for row in 0..rows {
            let slot = positions_host.iter().position(|&p| p as usize == row);
            for col in 0..cols {
                let at = row * cols + col;
                match slot {
                    Some(slot) => {
                        assert_eq!(
                            actual[at].to_bits(),
                            source_host[slot * cols + col].to_bits(),
                            "f32 scattered mismatch ({row},{col}) case {rows}x{cols}x{count}"
                        );
                        assert_eq!(
                            actual_bits[at],
                            source_bits[slot * cols + col],
                            "bf16 scattered mismatch ({row},{col})"
                        );
                    }
                    None => {
                        assert!(actual[at].is_nan(), "untouched row {row} was modified");
                        assert_eq!(actual_bits[at], 0xAAAA, "untouched bf16 row {row} was modified");
                    }
                }
            }
        }
    }
}

/// Gathering at the positions of a scatter reads the source back.
#[test]
fn gather_reads_back_what_scatter_wrote() {
    let scatter = F32Scatter::load(CONTEXT, PROBE).unwrap();
    let gather = F32Gather::load(CONTEXT, PROBE).unwrap();
    let mut device = Device::new();
    let source_host: Vec<f32> = (0..6 * 5).map(|i| i as f32 * 0.5 - 3.0).collect();
    let positions_host = [9_u32, 0, 4, 7, 2, 1];
    let positions = device.upload_words(&positions_host);
    let source = device.upload(&source_host);
    let output = device.floats(10 * 5);
    let p = Placement { source, positions, output, output_rows: 10, cols: 5 };
    device.run(&scatter.scatter(
        &STREAM,
        &p.source,
        &p.positions,
        &p.output,
        p.output_rows,
        p.cols,
        &positions_host,
    )).unwrap();
    let back = device.floats(6 * 5);
    let p = Lookup { table: output, indices: positions, output: back, rows: 10, cols: 5 };
    device.run(&gather.gather(
        &STREAM,
        &p.table,
        &p.indices,
        &p.output,
        p.rows,
        p.cols,
        &positions_host,
    )).unwrap();
    assert_eq!(device.f32s(back.id), source_host);
}

/// The same round trip over packed bf16.
#[test]
fn bf16_gather_reads_back_what_scatter_wrote() {
    let scatter = Bf16Scatter::load(CONTEXT, PROBE).unwrap();
    let gather = Bf16Gather::load(CONTEXT, PROBE).unwrap();
    let mut device = Device::new();
    let source_host: Vec<u16> = (0..4_u16 * 3).map(|i| i.wrapping_mul(0x1357) ^ 0x8001).collect();
    let positions_host = [5_u32, 0, 3, 1];
    let positions = device.upload_words(&positions_host);
    let source = device.upload_bits(&source_host);
    let output = device.upload_bits(&[0xAAAA_u16; 6 * 3]);
    device
        .run(&scatter.scatter(&STREAM, &source, &positions, &output, 6, 3, &positions_host))
        .unwrap();
    let back = device.upload_bits(&[0xAAAA_u16; 4 * 3]);
    device
        .run(&gather.gather(&STREAM, &output, &positions, &back, 6, 3, &positions_host))
        .unwrap();
    assert_eq!(device.u16s(back.id), source_host);
}

const PRODUCT_SHAPES: &[(usize, usize, usize)] = &[
    (1, 1, 1),
    (2, 3, 4),
    (7, 31, 5),
    (16, 16, 16),
    (17, 17, 17),
    (32, 48, 64),
    (33, 65, 127),
    (128, 96, 129),
];

fn host_matrix_a(m: usize, k: usize) -> Vec<f32> {
    (0..m * k)
        .map(|index| (((index * 13 % 97) as f32 - 48.0) * 0.0625) + ((index % 5) as f32 - 2.0))
        .collect()
}

fn host_matrix_b(k: usize, n: usize) -> Vec<f32> {
    (0..k * n).map(|index| ((index * 29 % 61) as f32 - 30.0) * 0.125).collect()
}

/// Per-batch variants with distinct seeds so cross-batch mixing cannot pass
/// silently.
fn host_batch_a(batch: usize, m: usize, k: usize) -> Vec<f32> {
    (0..m * k)
        .map(|index| {
            (((index * 13 % 97) as f32 - 48.0) * 0.0625) + (((index + batch * 37) % 5) as f32 - 2.0)
        })
        .collect()
}

fn host_batch_b(batch: usize, rows: usize, cols: usize) -> Vec<f32> {
    (0..rows * cols)
        .map(|index| ((index * 29 % 61) as f32 - 30.0) * (0.125 + batch as f32 * 0.03125))
        .collect()
}

#[test]
fn gemm_matches_ordered_cpu_oracle_on_gpu() {
    let gemm = gemm();
    let mut device = Device::new();
    for &(m, n, k) in PRODUCT_SHAPES {
        let a_host = host_matrix_a(m, k);
        let b_host = host_matrix_b(k, n);
        let matrix_a = device.upload(&a_host);
        let matrix_b = device.upload(&b_host);
        let output = device.floats(m * n);
        device.run(&gemm.gemm(&STREAM, &matrix_a, &matrix_b, &output, m, n, k)).unwrap();
        let actual = device.f32s(output.id);
        for row in 0..m {
            for col in 0..n {
                let expected = (0..k).fold(0.0_f32, |value, depth| {
                    a_host[row * k + depth].mul_add(b_host[depth * n + col], value)
                });
                let actual = actual[row * n + col];
                assert_eq!(
                    actual.to_bits(),
                    expected.to_bits(),
                    "ordered gemm mismatch at ({row}, {col}) shape ({m}, {n}, {k}): \
                     {actual} != {expected}"
                );
                // Independent f64 check inside an explicit tolerance.
                let high_precision: f64 = (0..k)
                    .map(|depth| {
                        f64::from(a_host[row * k + depth]) * f64::from(b_host[depth * n + col])
                    })
                    .sum();
                assert!(
                    (f64::from(actual) - high_precision).abs()
                        <= 1.0e-3_f64.max(high_precision.abs() * 1.0e-5),
                    "gemm f64 mismatch at ({row}, {col}): {actual} vs {high_precision}"
                );
            }
        }
    }
}

#[test]
fn gemm_zero_inner_dimension_zeroes_output_on_gpu() {
    let gemm = gemm();
    let mut device = Device::new();
    // Shapes (m=2, k=0) and (k=0, n=3): both operand buffers are empty.
    let matrix_a = device.floats(0);
    let matrix_b = device.floats(0);
    let output = device.upload(&[1.5_f32; 6]);
    let p = Product { matrix_a, matrix_b, output, m: 2, n: 3, k: 0 };
    device.run(&gemm.gemm(&STREAM, &p.matrix_a, &p.matrix_b, &p.output, p.m, p.n, p.k)).unwrap();
    assert!(device.f32s(output.id).iter().all(|&value| value == 0.0));
}

#[test]
fn gemm_transposed_b_matches_ordered_cpu_oracle_on_gpu() {
    let gemm = gemm();
    let mut device = Device::new();
    for &(m, n, k) in PRODUCT_SHAPES {
        let a_host = host_matrix_a(m, k);
        // B stored row-major as (n x k).
        let b_host = host_matrix_a(n, k);
        let matrix_a = device.upload(&a_host);
        let matrix_b = device.upload(&b_host);
        let output = device.floats(m * n);
        let p = Product { matrix_a, matrix_b, output, m, n, k };
        device.run(&gemm.gemm_transposed_b(
            &STREAM,
            &p.matrix_a,
            &p.matrix_b,
            &p.output,
            p.m,
            p.n,
            p.k,
        )).unwrap();
        let actual = device.f32s(output.id);
        for row in 0..m {
            for col in 0..n {
                let expected = (0..k).fold(0.0_f32, |value, depth| {
                    a_host[row * k + depth].mul_add(b_host[col * k + depth], value)
                });
                assert_eq!(
                    actual[row * n + col].to_bits(),
                    expected.to_bits(),
                    "ordered gemm-nt mismatch at ({row}, {col}) shape ({m}, {n}, {k})"
                );
            }
        }
    }
}

#[test]
fn gemm_batched_bit_matches_per_batch_on_gpu() {
    const BATCHED_SHAPES: &[(usize, usize, usize, usize)] =
        &[(1, 1, 1, 1), (2, 3, 4, 5), (3, 17, 31, 33), (2, 32, 48, 65)];
    let gemm = gemm();
    let mut device = Device::new();

    for &(batches, m, n, k) in BATCHED_SHAPES {
        let mut a_host = Vec::new();
        let mut b_host = Vec::new();
        let mut bt_host = Vec::new();
        for batch in 0..batches {
            a_host.extend(host_batch_a(batch, m, k));
            b_host.extend(host_batch_b(batch, k, n));
            bt_host.extend(host_batch_b(batch + 11, n, k));
        }
        let matrix_a = device.upload(&a_host);
        let matrix_b = device.upload(&b_host);
        let matrix_bt = device.upload(&bt_host);
        let output = device.floats(batches * m * n);
        let output_nt = device.floats(batches * m * n);
        let p = Product { matrix_a, matrix_b, output, m, n, k };
        device.run(&gemm.gemm_batched(
            &STREAM,
            &p.matrix_a,
            &p.matrix_b,
            &p.output,
            batches,
            p.m,
            p.n,
            p.k,
        )).unwrap();
        let p = Product { matrix_a, matrix_b: matrix_bt, output: output_nt, m, n, k };
        device.run(&gemm.gemm_transposed_b_batched(
            &STREAM,
            &p.matrix_a,
            &p.matrix_b,
            &p.output,
            batches,
            p.m,
            p.n,
            p.k,
        )).unwrap();
        let actual = device.f32s(output.id);
        let actual_nt = device.f32s(output_nt.id);

        for batch in 0..batches {
            // Per-batch reference through the single kernels.
            let head_a = device.upload(&host_batch_a(batch, m, k));
            let head_b = device.upload(&host_batch_b(batch, k, n));
            let head_bt = device.upload(&host_batch_b(batch + 11, n, k));
            let head_out = device.floats(m * n);
            let p = Product { matrix_a: head_a, matrix_b: head_b, output: head_out, m, n, k };
            device.run(&gemm.gemm(
                &STREAM,
                &p.matrix_a,
                &p.matrix_b,
                &p.output,
                p.m,
                p.n,
                p.k,
            )).unwrap();
            let head_actual = device.f32s(head_out.id);
            let head_out = device.floats(m * n);
            let p = Product { matrix_a: head_a, matrix_b: head_bt, output: head_out, m, n, k };
            device.run(&gemm.gemm_transposed_b(
                &STREAM,
                &p.matrix_a,
                &p.matrix_b,
                &p.output,
                p.m,
                p.n,
                p.k,
            )).unwrap();
            let head_actual_nt = device.f32s(head_out.id);

            let start = batch * m * n;
            for index in 0..m * n {
                assert_eq!(
                    actual[start + index].to_bits(),
                    head_actual[index].to_bits(),
                    "batched plain {batches}b mismatch at batch {batch} element {index} \
                     shape ({m},{n},{k})"
                );
                assert_eq!(
                    actual_nt[start + index].to_bits(),
                    head_actual_nt[index].to_bits(),
                    "batched nt {batches}b mismatch at batch {batch} element {index} \
                     shape ({m},{n},{k})"
                );
            }
        }
    }
}

#[test]
fn bf16_gemm_matches_ordered_cpu_oracle_on_gpu() {
    let gemm = bf16_gemm();
    let mut device = Device::new();
    for &(m, n, k) in PRODUCT_SHAPES {
        let a_bits = to_bits(&host_matrix_a(m, k));
        let b_bits = to_bits(&host_matrix_b(k, n));
        let matrix_a = device.upload_bits(&a_bits);
        let matrix_b = device.upload_bits(&b_bits);
        let output = device.halves(m * n);
        device.run(&gemm.gemm(&STREAM, &matrix_a, &matrix_b, &output, m, n, k)).unwrap();
        let actual = device.u16s(output.id);
        for row in 0..m {
            for col in 0..n {
                let expected = (0..k).fold(0.0_f32, |value, depth| {
                    bf16_bits_to_f32(a_bits[row * k + depth])
                        .mul_add(bf16_bits_to_f32(b_bits[depth * n + col]), value)
                });
                assert_eq!(
                    actual[row * n + col],
                    f32_to_bf16_rne(expected),
                    "ordered bf16 gemm mismatch at ({row}, {col}) shape ({m}, {n}, {k})"
                );
            }
        }
    }
}

#[test]
fn bf16_gemm_zero_inner_dimension_zeroes_output_on_gpu() {
    let gemm = bf16_gemm();
    let mut device = Device::new();
    // Shapes (m=2, k=0) and (k=0, n=3): both operand buffers are empty.
    let matrix_a = device.halves(0);
    let matrix_b = device.halves(0);
    let output = device.upload_bits(&[0x3F80_u16; 6]);
    let p = Product { matrix_a, matrix_b, output, m: 2, n: 3, k: 0 };
    device.run(&gemm.gemm(&STREAM, &p.matrix_a, &p.matrix_b, &p.output, p.m, p.n, p.k)).unwrap();
    assert!(device.u16s(output.id).iter().all(|&value| value == 0));
}

#[test]
fn bf16_gemm_transposed_b_matches_ordered_cpu_oracle_on_gpu() {
    let gemm = bf16_gemm();
    let mut device = Device::new();
    for &(m, n, k) in PRODUCT_SHAPES {
        let a_bits = to_bits(&host_matrix_a(m, k));
        // B stored row-major as (n x k).
        let b_bits = to_bits(&host_matrix_a(n, k));
        let matrix_a = device.upload_bits(&a_bits);
        let matrix_b = device.upload_bits(&b_bits);
        let output = device.halves(m * n);
        let p = Product { matrix_a, matrix_b, output, m, n, k };
        device.run(&gemm.gemm_transposed_b(
            &STREAM,
            &p.matrix_a,
            &p.matrix_b,
            &p.output,
            p.m,
            p.n,
            p.k,
        )).unwrap();
        let actual = device.u16s(output.id);
        for row in 0..m {
            for col in 0..n {
                let expected = (0..k).fold(0.0_f32, |value, depth| {
                    bf16_bits_to_f32(a_bits[row * k + depth])
                        .mul_add(bf16_bits_to_f32(b_bits[col * k + depth]), value)
                });
                assert_eq!(
                    actual[row * n + col],
                    f32_to_bf16_rne(expected),
                    "ordered bf16 gemm-nt mismatch at ({row}, {col}) shape ({m}, {n}, {k})"
                );
            }
        }
    }
}

#[test]
fn gemv_matches_ordered_cpu_oracle_on_gpu() {
    const SHAPES: &[(usize, usize)] = &[
        (1, 1),
        (1, 7),
        (3, 31),
        (4, 32),
        (5, 255),
        (6, 256),
        (7, 257),
        (13, 1_023),
        (9, 1_024),
        (11, 1_025),
    ];
    let gemv = F32Gemv::load(CONTEXT, PROBE).unwrap();
    let block_size = gemv.block_size() as usize;
    let mut device = Device::new();
    for &(rows, cols) in SHAPES {
        let matrix_host = host_matrix_a(rows, cols);
        let vector_host = host_matrix_b(1, cols);
        let matrix = device.upload(&matrix_host);
        let vector = device.upload(&vector_host);
        let output = device.floats(rows);
        device.run(&gemv.gemv(&STREAM, &matrix, &vector, &output, rows, cols)).unwrap();
        let actual = device.f32s(output.id);
        for (index, row_data) in matrix_host.chunks(cols).enumerate() {
            let mut partials: Vec<f32> = (0..block_size)
                .map(|lane| {
                    row_data
                        .iter()
                        .skip(lane)
                        .step_by(block_size)
                        .zip(vector_host.iter().skip(lane).step_by(block_size))
                        .fold(0.0_f32, |value, (&m, &v)| m.mul_add(v, value))
                })
                .collect();
            let mut stride = block_size / 2;
            while stride > 0 {
                for lane in 0..stride {
                    partials[lane] += partials[lane + stride];
                }
                stride /= 2;
            }
            assert_eq!(
                actual[index].to_bits(),
                partials[0].to_bits(),
                "ordered gemv mismatch at row {index} shape ({rows}, {cols})"
            );
            let high_precision: f64 = row_data
                .iter()
                .zip(&vector_host)
                .map(|(&m, &v)| f64::from(m) * f64::from(v))
                .sum();
            assert!(
                (f64::from(actual[index]) - high_precision).abs()
                    <= 1.0e-3_f64.max(high_precision.abs() * 1.0e-5),
                "gemv f64 mismatch at row {index}: {actual:?} vs {high_precision}"
            );
        }
    }
}

fn ordered_projection(input: &[f32], weight: &[f32], k: usize, n: usize) -> Vec<f32> {
    (0..n)
        .map(|col| {
            (0..k).fold(0.0_f32, |value, row| input[row].mul_add(weight[row * n + col], value))
        })
        .collect()
}

#[test]
fn mixed_project_matches_f32_project_for_exact_bf16_weights() {
    let k = 17usize;
    let n = 23usize;
    let input_host =
        (0..k).map(|index| ((index * 11 % 29) as f32 - 14.0) * 0.0625).collect::<Vec<_>>();
    let weight_f32 =
        (0..k * n).map(|index| ((index * 17 % 41) as f32 - 20.0) * 0.125).collect::<Vec<_>>();
    let weight_bf16 = weight_f32
        .iter()
        .map(|value| {
            let bits = value.to_bits();
            assert_eq!(bits & 0xffff, 0);
            (bits >> 16) as u16
        })
        .collect::<Vec<_>>();
    let candidate = F32Bf16Gemv::load_with_block_size(CONTEXT, 64, PROBE).unwrap();
    let mut device = Device::new();
    let input = device.upload(&input_host);
    let weight = device.upload_bits(&weight_bf16);
    let output = device.floats(n);
    device
        .run(&candidate.project_kn(&STREAM, &input, &weight, &output, k, n))
        .unwrap();
    let actual = device.f32s(output.id);
    let expected = ordered_projection(&input_host, &weight_f32, k, n);
    assert_eq!(actual.len(), expected.len());
    for (index, (&actual, &expected)) in actual.iter().zip(&expected).enumerate() {
        assert_eq!(
            actual.to_bits(),
            expected.to_bits(),
            "mismatch at output {index}: actual={actual}, expected={expected}"
        );
    }
}

#[test]
fn int2_projection_matches_quantized_ordered_cpu_oracle_on_gpu() {
    let k = 17_usize;
    let n = 23_usize;
    let input_host =
        (0..k).map(|index| ((index * 11 % 29) as f32 - 14.0) * 0.0625).collect::<Vec<_>>();
    let weight_host = (0..k * n)
        .map(|index| (((index * 17 % 101) as f32 - 50.0) * 0.03125) + 0.013)
        .collect::<Vec<_>>();
    let max_abs = weight_host.iter().copied().map(f32::abs).fold(0.0_f32, f32::max);
    let scale_host = if max_abs == 0.0 { 1.0 } else { max_abs };
    let threshold = scale_host * 0.5;
    let mut packed_host = vec![0_u8; weight_host.len().div_ceil(4)];
    let mut reconstructed = Vec::new();
    for (index, value) in weight_host.iter().copied().enumerate() {
        let (code, ternary) = if value >= threshold {
            (1_u8, 1.0_f32)
        } else if value <= -threshold {
            (2_u8, -1.0_f32)
        } else {
            (0_u8, 0.0_f32)
        };
        packed_host[index / 4] |= code << ((index % 4) * 2);
        reconstructed.push(ternary * scale_host);
    }
    let expected = ordered_projection(&input_host, &reconstructed, k, n);

    let kernel = F32Int2Gemv::load_with_block_size(CONTEXT, 64, PROBE).unwrap();
    let mut device = Device::new();
    let input = device.upload(&input_host);
    let packed_len = packed_host.len();
    let packed_weight = device.store(Memory::U8(packed_host), packed_len);
    let scale = device.upload(&[scale_host]);
    let output = device.floats(n);
    let p = Int2Projection { input, packed_weight, scale, output, k, n };
    device.run(&kernel.project_kn(
        &STREAM,
        &p.input,
        &p.packed_weight,
        &p.scale,
        &p.output,
        p.k,
        p.n,
    )).unwrap();
    let actual = device.f32s(output.id);
    assert_eq!(actual.len(), expected.len());
    for (index, (&actual, &expected)) in actual.iter().zip(&expected).enumerate() {
        assert_eq!(
            actual.to_bits(),
            expected.to_bits(),
            "INT2 ordered projection mismatch at output {index}"
        );
    }
}

#[test]
fn sparse_csc_projection_matches_ordered_cpu_oracle_on_gpu() {
    let k = 5_usize;
    let n = 4_usize;
    let input_host = [0.5_f32, -1.0, 2.0, 0.25, -0.75];
    let offsets_host = [0_u64, 2, 3, 5, 7];
    let rows_host = [0_u32, 3, 1, 0, 4, 2, 3];
    let values_host = [2.0_f32, -1.0, 0.5, -0.25, 4.0, 1.5, -2.0];
    let expected: Vec<f32> = (0..n)
        .map(|col| {
            (offsets_host[col] as usize..offsets_host[col + 1] as usize).fold(0.0_f32, |acc, i| {
                input_host[rows_host[i] as usize].mul_add(values_host[i], acc)
            })
        })
        .collect();

    let kernel = F32SparseCscGemv::load_with_block_size(CONTEXT, 64, PROBE).unwrap();
    let mut device = Device::new();
    let input = device.upload(&input_host);
    let column_offsets = device.store(Memory::U64(offsets_host.to_vec()), offsets_host.len());
    let row_indices = device.upload_words(&rows_host);
    let values = device.upload(&values_host);
    let output = device.floats(n);
    let p = SparseProjection { input, column_offsets, row_indices, values, output, k, n };
    device.run(&kernel.project_kn(
        &STREAM,
        &p.input,
        &p.column_offsets,
        &p.row_indices,
        &p.values,
        &p.output,
        p.k,
        p.n,
    )).unwrap();
    let actual = device.f32s(output.id);
    assert_eq!(actual.len(), expected.len());
    for (index, (&actual, &expected)) in actual.iter().zip(&expected).enumerate() {
        assert_eq!(
            actual.to_bits(),
            expected.to_bits(),
            "sparse CSC ordered projection mismatch at output {index}"
        );
    }
}

#[test]
fn rope_matches_oracle_for_both_conventions_on_gpu() {
    const SHAPES: &[(usize, usize)] =
        &[(1, 2), (1, 8), (3, 32), (5, 96), (7, 128), (13, 256), (9, 1_024)];
    let host_values = |rows: usize, cols: usize| -> Vec<f32> {
        (0..rows * cols).map(|i| ((i % 53) as f32 - 26.0) * 0.1875).collect()
    };
    let rope =
        F32Rope::load(CONTEXT, &RopeProbes { interleaved: PROBE, rotate_half: PROBE }).unwrap();
    let mut device = Device::new();

    for &(rows, cols) in SHAPES {
        let half = cols / 2;
        let host = host_values(rows, cols);
        // Deterministic pseudo-angles covering several periods.
        let cos_host: Vec<f32> =
            (0..rows * half).map(|i| ((i % 37) as f32 * 0.17).cos()).collect();
        let sin_host: Vec<f32> =
            (0..rows * half).map(|i| ((i % 37) as f32 * 0.17).sin()).collect();
        let input = device.upload(&host);
        let cos = device.upload(&cos_host);
        let sin = device.upload(&sin_host);

        for rotate_half in [false, true] {
            let output = device.floats(rows * cols);
            let p = Rotation { input, cos, sin, output, rows, cols };
            let plan = if rotate_half {
                rope.apply_rotate_half(&STREAM, &p.input, &p.cos, &p.sin, &p.output, p.rows, p.cols)
            } else {
                rope.apply_interleaved(&STREAM, &p.input, &p.cos, &p.sin, &p.output, p.rows, p.cols)
            };
            device.run(&plan).unwrap();
            let actual = device.f32s(output.id);
            for row in 0..rows {
                for j in 0..half {
                    let (first, second) = if rotate_half {
                        (row * cols + j, row * cols + half + j)
                    } else {
                        (row * cols + 2 * j, row * cols + 2 * j + 1)
                    };
                    let (e, o) = (f64::from(host[first]), f64::from(host[second]));
                    let at = row * half + j;
                    let (c, s) = (f64::from(cos_host[at]), f64::from(sin_host[at]));
                    for (index, expected) in [(first, e * c - o * s), (second, o * c + e * s)] {
                        let tolerance = 2.0e-6_f32.max((expected.abs() as f32) * 2.0e-6);
                        assert!(
                            (actual[index] - expected as f32).abs() <= tolerance,
                            "({rows}, {cols}) mismatch at {index}: {} != {expected}",
                            actual[index]
                        );
                    }
                }
            }
        }
    }

    // Identity caches leave every convention's output equal to input.
    let (rows, cols) = (4_usize, 16_usize);
    let host = host_values(rows, cols);
    let input = device.upload(&host);
    let cos = device.upload(&vec![1.0_f32; rows * cols / 2]);
    let sin = device.upload(&vec![0.0_f32; rows * cols / 2]);
    let output = device.floats(rows * cols);
    let p = Rotation { input, cos, sin, output, rows, cols };
    device.run(&rope.apply_interleaved(
        &STREAM,
        &p.input,
        &p.cos,
        &p.sin,
        &p.output,
        p.rows,
        p.cols,
    )).unwrap();
    assert_eq!(device.f32s(output.id), host);
    let output = device.floats(rows * cols);
    let p = Rotation { output, ..p };
    device.run(&rope.apply_rotate_half(
        &STREAM,
        &p.input,
        &p.cos,
        &p.sin,
        &p.output,
        p.rows,
        p.cols,
    )).unwrap();
    assert_eq!(device.f32s(output.id), host);
}

#[test]
fn fused_winner_matches_ordered_cpu_oracle_on_gpu() {
    let probes = LmHeadProbes { candidates: PROBE, reduce: PROBE };
    let kernel = F32LmHeadArgmax::load_with_block_size(CONTEXT, 64, &probes).unwrap();
    let k = 7usize;
    let vocab = 131usize;
    let input_host: Vec<f32> = (0..k).map(|i| ((i * 13 % 17) as f32 - 8.0) * 0.125).collect();
    let weight_host: Vec<f32> =
        (0..k * vocab).map(|i| ((i * 19 % 29) as f32 - 14.0) * 0.03125).collect();
    let mut expected = (f32::NEG_INFINITY, u32::MAX);
    for (token, value) in
        ordered_projection(&input_host, &weight_host, k, vocab).into_iter().enumerate()
    {
        if beats((value, token as u32), expected) {
            expected = (value, token as u32);
        }
    }
    let mut device = Device::new();
    let input = device.upload(&input_host);
    let weight = device.upload(&weight_host);
    let output_value = device.floats(1);
    let output_index = device.words(1);
    let workspace = kernel
        .workspace(CONTEXT, vocab, BufferId::Operand(901), BufferId::Operand(902))
        .unwrap();
    assert_eq!(workspace.vocab(), vocab);
    assert_eq!(workspace.candidate_count(), 3);
    device.run(&workspace.allocation()).unwrap();
    let p = ArgmaxProjection { input, weight, output_value, output_index, k, vocab };
    device.run(&kernel.argmax_kn(
        &STREAM,
        &p.input,
        &p.weight,
        &p.output_value,
        &p.output_index,
        p.k,
        p.vocab,
        &workspace,
    )).unwrap();
    assert_eq!(device.u32s(output_index.id)[0], expected.1);
    assert_eq!(device.f32s(output_value.id)[0].to_bits(), expected.0.to_bits());
}

/// Larger value wins, ties break toward the lower index, winners are masked.
fn reference_top_k(data: &[f32], k: usize) -> (Vec<f32>, Vec<u32>) {
    let mut scratch = data.to_vec();
    let mut values = Vec::with_capacity(k);
    let mut indices = Vec::with_capacity(k);
    for _ in 0..k {
        let mut best = 0usize;
        for candidate in 1..scratch.len() {
            let value = scratch[candidate];
            let incumbent = scratch[best];
            if value > incumbent || (value == incumbent && candidate < best) {
                best = candidate;
            }
        }
        values.push(scratch[best]);
        indices.push(best as u32);
        scratch[best] = f32::NEG_INFINITY;
    }
    (values, indices)
}

#[test]
fn top_k_matches_cpu_oracle_on_gpu() {
    const TEST_PAIRS: &[(usize, usize)] = &[
        (1, 1),
        (2, 1),
        (2, 2),
        (3, 3),
        (31, 5),
        (256, 9),
        (257, 40),
        (1_024, 17),
        (131_071, 64),
    ];
    let top_k = top_k();
    let buffers = SelectionBuffers {
        data: BufferId::Operand(901),
        values_a: BufferId::Operand(902),
        values_b: BufferId::Operand(903),
        indices_a: BufferId::Operand(904),
        indices_b: BufferId::Operand(905),
    };
    let mut device = Device::new();
    for &(elements, k) in TEST_PAIRS {
        let host: Vec<f32> =
            (0..elements).map(|index| ((index * 37 % 1_009) as f32 - 504.0) / 64.0).collect();
        let input = device.upload(&host);
        let values = device.floats(k);
        let indices = device.words(k);
        let workspace = top_k.workspace(CONTEXT, elements, &buffers).unwrap();
        device.run(&workspace.allocation()).unwrap();
        let s = Selection { input, values, indices, k };
        device.run(&top_k.enqueue_top_k(
            &STREAM,
            &s.input,
            &s.values,
            &s.indices,
            s.k,
            &workspace,
        )).unwrap();

        let (expected_values, expected_indices) = reference_top_k(&host, k);
        assert_eq!(
            device.u32s(indices.id),
            expected_indices,
            "indices mismatch at {elements} elements, k={k}"
        );
        for (actual, expected) in device.f32s(values.id).iter().zip(expected_values.iter()) {
            assert_eq!(
                actual.to_bits(),
                expected.to_bits(),
                "value bits mismatch at {elements} elements, k={k}"
            );
        }
        // The input itself is left as it was.
        assert_eq!(device.f32s(input.id), host);
    }
}

#[test]
fn top_k_breaks_ties_toward_lower_indices_on_gpu() {
    let top_k = top_k();
    let mut device = Device::new();
    let elements = 512;
    let k = 16;
    let input = device.upload(&vec![7.0_f32; elements]);
    let values = device.floats(k);
    let indices = device.words(k);
    device.run(&top_k.top_k(&STREAM, &input, &values, &indices, k)).unwrap();
    let expected_indices: Vec<u32> = (0..k as u32).collect();
    assert_eq!(device.u32s(indices.id), expected_indices);
    for value in device.f32s(values.id) {
        assert_eq!(value.to_bits(), 7.0_f32.to_bits());
    }
}

const NORM_SHAPES: &[(usize, usize)] = &[(1, 1), (3, 17), (17, 64), (2, 16_384)];

fn norm_values(len: usize) -> Vec<f32> {
    (0..len)
        .map(|index| (((index * 13 % 97) as f32 - 48.0) * 0.0625) + ((index % 5) as f32 - 2.0))
        .collect()
}

/// Tolerance carries the output bf16 quantization term (half-ulp below 2^-8
/// relative) over the f32 statistic chain error.
fn norm_tolerance(expected: f64) -> f64 {
    5.0e-3_f64.max(expected.abs() * 8.0e-3)
}

/// Asserts that the packed output equals the narrowed `f32` reference bit for
/// bit and tracks the `f64` statistics of the widened input.
fn assert_norm_bit_exact_and_close(
    actual_bits: &[u16],
    f32_reference: &[f32],
    wide_input: &[f32],
    cols: usize,
    beta: Option<f64>,
    context: &str,
) {
    let (epsilon, gamma) = (f64::from(1.0e-6_f32), 1.25_f64);
    assert_eq!(actual_bits.len(), f32_reference.len());
    for (row, values) in wide_input.chunks(cols).enumerate() {
        let mut mean = 0.0_f64;
        if beta.is_some() {
            let total: f64 = values.iter().map(|&value| f64::from(value)).sum();
            mean = total / cols as f64;
        }
        let mut variance = 0.0_f64;
        for &value in values {
            let value = f64::from(value) - mean;
            variance += value * value;
        }
        let denominator = (variance / cols as f64 + epsilon).sqrt();
        for (col, &value) in values.iter().enumerate() {
            let index = row * cols + col;
            assert_eq!(
                actual_bits[index],
                f32_to_bf16_rne(f32_reference[index]),
                "{context} bit mismatch at {index}"
            );
            let normalized =
                (f64::from(value) - mean) / denominator * gamma + beta.unwrap_or(0.0);
            let actual = f64::from(bf16_bits_to_f32(actual_bits[index]));
            let tolerance = norm_tolerance(normalized);
            assert!(
                (actual - normalized).abs() <= tolerance,
                "{context} mismatch at ({row}, {col}): {actual} vs {normalized}, \
                 tolerance {tolerance}"
            );
        }
    }
}

#[test]
fn bf16_norms_bit_match_f32_family_and_f64_oracle_on_gpu() {
    let conversions = conversions();
    let rms_norm = rms_norm();
    let mut device = Device::new();
    let epsilon = scalar(1.0e-6);
    let gamma = scalar(1.25);
    let beta = scalar(-0.5);

    for &(rows, cols) in NORM_SHAPES {
        // cols=16384 exceeds the fused shared-memory budget at the default
        // block width, exercising the staged fallback too.
        let bits = to_bits(&norm_values(rows * cols));
        let input = device.upload_bits(&bits);
        let wide_host = widened(&bits);
        let wide_input = device.upload(&wide_host);
        let rms_output = device.halves(rows * cols);
        let layer_output = device.halves(rows * cols);
        let f32_rms_output = device.floats(rows * cols);
        let f32_layer_output = device.floats(rows * cols);

        device
            .run(&bf16_rms_normalize_rows_dispatched(
                &conversions,
                &rms_norm,
                &STREAM,
                &input,
                &rms_output,
                rows,
                cols,
                epsilon,
                gamma,
                &FUSED,
            ))
            .unwrap();
        device
            .run(&rms_norm.normalize_rows_dispatched(
                &STREAM,
                &wide_input,
                &f32_rms_output,
                rows,
                cols,
                epsilon,
                gamma,
                &FUSED,
            ))
            .unwrap();

        device
            .run(&bf16_layer_normalize_rows_dispatched(
                &conversions,
                &STREAM,
                &input,
                &layer_output,
                rows,
                cols,
                epsilon,
                gamma,
                beta,
            ))
            .unwrap();
        device
            .run(&Plan::one(Action::LayerNormalize {
                input: wide_input,
                output: f32_layer_output,
                rows,
                cols,
                epsilon,
                gamma,
                beta,
            }))
            .unwrap();

        assert_norm_bit_exact_and_close(
            &device.u16s(rms_output.id),
            &device.f32s(f32_rms_output.id),
            &wide_host,
            cols,
            None,
            &format!("bf16 rms ({rows},{cols})"),
        );
        assert_norm_bit_exact_and_close(
            &device.u16s(layer_output.id),
            &device.f32s(f32_layer_output.id),
            &wide_host,
            cols,
            Some(-0.5),
            &format!("bf16 layer ({rows},{cols})"),
        );
    }
}

/// `(query_rows, head_dim, kv_rows, value_dim)`.
type HeadShape = (usize, usize, usize, usize);

const HEAD_SHAPES: &[HeadShape] = &[
    (1, 16, 3, 16),
    (2, 64, 64, 64),
    (5, 64, 200, 64),
    (17, 32, 70, 96),
    (33, 48, 129, 48),
];

const CAUSAL_SHAPES: &[(usize, usize)] = &[(1, 16), (7, 64), (33, 48), (70, 32)];

const MULTIHEAD_SHAPES: &[(usize, HeadShape)] = &[
    (1, (1, 16, 3, 16)),
    (2, (5, 64, 200, 64)),
    (3, (17, 32, 70, 96)),
    (4, (33, 48, 129, 48)),
];

/// Per-head host data with distinct seeds so cross-head mixing cannot pass
/// silently.
fn multihead_values(head: usize, len: usize) -> Vec<f32> {
    (0..len)
        .map(|index| {
            (((index * 13 % 97) as f32 - 48.0) * 0.0625)
                + (((index + head * 11) % 5) as f32 - 2.0)
        })
        .collect()
}

/// Queries, keys and values on the host.
struct HeadData {
    queries: Vec<f32>,
    keys: Vec<f32>,
    values: Vec<f32>,
}

impl HeadData {
    fn single((query_rows, head_dim, kv_rows, value_dim): HeadShape) -> HeadData {
        HeadData {
            queries: host_matrix_a(query_rows, head_dim),
            keys: host_matrix_a(kv_rows, head_dim),
            values: host_matrix_a(kv_rows, value_dim),
        }
    }

    fn seeded(head: usize, (query_rows, head_dim, kv_rows, value_dim): HeadShape) -> HeadData {
        HeadData {
            queries: multihead_values(head, query_rows * head_dim),
            keys: multihead_values(head + 97, kv_rows * head_dim),
            values: multihead_values(head + 193, kv_rows * value_dim),
        }
    }

    /// Heads packed as `[heads][rows][dim]`.
    fn packed(heads: usize, shape: HeadShape) -> HeadData {
        let mut data = HeadData { queries: Vec::new(), keys: Vec::new(), values: Vec::new() };
        for head in 0..heads {
            let one = HeadData::seeded(head, shape);
            data.queries.extend(one.queries);
            data.keys.extend(one.keys);
            data.values.extend(one.values);
        }
        data
    }

    /// The data after a round trip through bf16.
    fn rounded(&self) -> HeadData {
        HeadData {
            queries: widened(&to_bits(&self.queries)),
            keys: widened(&to_bits(&self.keys)),
            values: widened(&to_bits(&self.values)),
        }
    }

    fn upload(&self, device: &mut Device, heads: usize, shape: HeadShape) -> Heads {
        Heads {
            queries: device.upload(&self.queries),
            keys: device.upload(&self.keys),
            values: device.upload(&self.values),
            output: device.floats(heads * shape.0 * shape.3),
            query_rows: shape.0,
            head_dim: shape.1,
            kv_rows: shape.2,
            value_dim: shape.3,
        }
    }

    fn upload_bits(&self, device: &mut Device, heads: usize, shape: HeadShape) -> Heads {
        Heads {
            queries: device.upload_bits(&to_bits(&self.queries)),
            keys: device.upload_bits(&to_bits(&self.keys)),
            values: device.upload_bits(&to_bits(&self.values)),
            output: device.halves(heads * shape.0 * shape.3),
            query_rows: shape.0,
            head_dim: shape.1,
            kv_rows: shape.2,
            value_dim: shape.3,
        }
    }
}

fn head_scale(shape: HeadShape) -> f32 {
    1.0_f32 / (shape.1 as f32).sqrt()
}

/// Attention in `f64`; the softmax uses one shared maximum per query row.
fn reference_attention(data: &HeadData, shape: HeadShape, causal: bool) -> Vec<f32> {
    let (query_rows, head_dim, kv_rows, value_dim) = shape;
    let scale = f64::from(head_scale(shape));
    let mut output = vec![0.0_f32; query_rows * value_dim];
    for row in 0..query_rows {
        let mut scores = vec![0.0_f64; kv_rows];
        for key in 0..kv_rows {
            if causal && key > row {
                break;
            }
            let score: f64 = (0..head_dim)
                .map(|e| {
                    f64::from(data.queries[row * head_dim + e])
                        * f64::from(data.keys[key * head_dim + e])
                })
                .sum();
            scores[key] = score * scale;
        }
        let max_score = scores.iter().copied().fold(f64::NEG_INFINITY, f64::max);
        let weights: Vec<f64> = scores.iter().map(|&s| (s - max_score).exp()).collect();
        let total: f64 = weights.iter().sum();
        for col in 0..value_dim {
            let value: f64 = (0..kv_rows)
                .map(|key| weights[key] * f64::from(data.values[key * value_dim + col]))
                .sum();
            output[row * value_dim + col] = (value / total) as f32;
        }
    }
    output
}

fn assert_attention(actual: &[f32], expected: &[f32], label: &str) {
    assert_eq!(actual.len(), expected.len());
    for index in 0..actual.len() {
        let difference = (f64::from(actual[index]) - f64::from(expected[index])).abs();
        let tolerance = 1.0e-4_f64.max(f64::from(expected[index].abs()) * 2.0e-4);
        assert!(
            difference <= tolerance,
            "{label} mismatch at {index}: {} vs {}, tolerance {tolerance}",
            actual[index],
            expected[index]
        );
    }
}

/// Packed results equal the `f32` family's results after one narrowing and
/// track the `f64` reference within the quantization of the output.
fn assert_bits_and_close(actual: &[u16], wide: &[f32], expected: &[f32], label: &str) {
    assert_eq!(actual, to_bits(wide), "{label}");
    assert_eq!(actual.len(), expected.len());
    for index in 0..actual.len() {
        let value = f64::from(bf16_bits_to_f32(actual[index]));
        let oracle = f64::from(expected[index]);
        let tolerance = 5.0e-3_f64.max(oracle.abs() * 8.0e-3);
        assert!(
            (value - oracle).abs() <= tolerance,
            "{label} mismatch at {index}: {value} vs {oracle}, tolerance {tolerance}"
        );
    }
}

fn fused(device: &mut Device, h: &Heads, shape: HeadShape, mask: AttentionMask) -> Vec<f32> {
    let plan =
        attention().attention_fused(
            &STREAM,
            &h.queries,
            &h.keys,
            &h.values,
            &h.output,
            h.query_rows,
            h.head_dim,
            h.kv_rows,
            h.value_dim,
            scalar(head_scale(shape)),
            mask,
            PROBE,
        );
    device.run(&plan).unwrap();
    device.f32s(h.output.id)
}

fn composed(device: &mut Device, h: &Heads, shape: HeadShape, mask: AttentionMask) -> Vec<f32> {
    let plan = attention().attention_composed(
        &gemm(),
        &elementwise(),
        &softmax_2d(),
        &STREAM,
        &h.queries,
        &h.keys,
        &h.values,
        &h.output,
        h.query_rows,
        h.head_dim,
        h.kv_rows,
        h.value_dim,
        scalar(head_scale(shape)),
        mask,
        &FUSED,
    );
    device.run(&plan).unwrap();
    device.f32s(h.output.id)
}

fn bf16_fused(device: &mut Device, h: &Heads, shape: HeadShape, mask: AttentionMask) -> Vec<u16> {
    let plan =
        bf16_attention().attention_fused(
            &STREAM,
            &h.queries,
            &h.keys,
            &h.values,
            &h.output,
            h.query_rows,
            h.head_dim,
            h.kv_rows,
            h.value_dim,
            scalar(head_scale(shape)),
            mask,
            PROBE,
        );
    device.run(&plan).unwrap();
    device.u16s(h.output.id)
}

fn bf16_composed(
    device: &mut Device,
    h: &Heads,
    shape: HeadShape,
    mask: AttentionMask,
) -> Vec<u16> {
    let plan = bf16_attention().attention_composed(
        &conversions(),
        &attention(),
        &gemm(),
        &elementwise(),
        &softmax_2d(),
        &STREAM,
        &h.queries,
        &h.keys,
        &h.values,
        &h.output,
        h.query_rows,
        h.head_dim,
        h.kv_rows,
        h.value_dim,
        scalar(head_scale(shape)),
        mask,
        &FUSED,
    );
    device.run(&plan).unwrap();
    device.u16s(h.output.id)
}

fn quantized(device: &mut Device, h: &Heads, shape: HeadShape, mask: AttentionMask) -> Vec<u16> {
    let plan = bf16_attention().attention_composed_quantized(
        &conversions(),
        &attention(),
        &bf16_gemm(),
        &elementwise(),
        &softmax_2d(),
        &STREAM,
        &h.queries,
        &h.keys,
        &h.values,
        &h.output,
        h.query_rows,
        h.head_dim,
        h.kv_rows,
        h.value_dim,
        scalar(head_scale(shape)),
        mask,
        &FUSED,
    );
    device.run(&plan).unwrap();
    device.u16s(h.output.id)
}

#[test]
fn attention_fused_matches_f64_oracle_on_gpu() {
    let mut device = Device::new();
    for &shape in HEAD_SHAPES {
        let data = HeadData::single(shape);
        let h = data.upload(&mut device, 1, shape);
        let actual = fused(&mut device, &h, shape, AttentionMask::Unmasked);
        let expected = reference_attention(&data, shape, false);
        assert_attention(&actual, &expected, &format!("fused {shape:?}"));
    }
}

#[test]
fn attention_composed_matches_f64_oracle_on_gpu() {
    let mut device = Device::new();
    for &shape in HEAD_SHAPES {
        let data = HeadData::single(shape);
        let h = data.upload(&mut device, 1, shape);
        let actual = composed(&mut device, &h, shape, AttentionMask::Unmasked);
        let expected = reference_attention(&data, shape, false);
        assert_attention(&actual, &expected, &format!("composed {shape:?}"));
    }
}

#[test]
fn attention_causal_matches_f64_oracle_on_gpu() {
    let mut device = Device::new();
    for &(rows, head_dim) in CAUSAL_SHAPES {
        let shape = (rows, head_dim, rows, head_dim);
        let data = HeadData::single(shape);
        let expected = reference_attention(&data, shape, true);
        let h = data.upload(&mut device, 1, shape);
        let actual = fused(&mut device, &h, shape, AttentionMask::Causal);
        assert_attention(&actual, &expected, &format!("causal fused ({rows},{head_dim})"));
        let h = data.upload(&mut device, 1, shape);
        let actual = composed(&mut device, &h, shape, AttentionMask::Causal);
        assert_attention(&actual, &expected, &format!("causal composed ({rows},{head_dim})"));
    }
}

/// Every head of packed fused attention is the single head bit for bit.
fn check_fused_heads(heads: usize, shape: HeadShape, mask: AttentionMask) {
    let mut device = Device::new();
    let h = HeadData::packed(heads, shape).upload(&mut device, heads, shape);
    let scale = scalar(head_scale(shape));
    let plan = attention().attention_fused_multihead(
        &STREAM,
        &h.queries,
        &h.keys,
        &h.values,
        &h.output,
        heads,
        h.query_rows,
        h.head_dim,
        h.kv_rows,
        h.value_dim,
        scale,
        mask,
        PROBE,
    );
    device.run(&plan).unwrap();
    let packed = device.f32s(h.output.id);
    let size = shape.0 * shape.3;
    for head in 0..heads {
        let one = HeadData::seeded(head, shape).upload(&mut device, 1, shape);
        let single = fused(&mut device, &one, shape, mask);
        for index in 0..size {
            assert_eq!(
                packed[head * size + index].to_bits(),
                single[index].to_bits(),
                "multihead {heads}h bit mismatch at head {head} element {index} shape {shape:?}"
            );
        }
    }
}

#[test]
fn attention_multihead_bit_matches_per_head_fused_on_gpu() {
    for &(heads, shape) in MULTIHEAD_SHAPES {
        check_fused_heads(heads, shape, AttentionMask::Unmasked);
    }
}

#[test]
fn attention_multihead_causal_bit_matches_per_head_on_gpu() {
    for &(heads, rows, head_dim) in &[(2, 7, 64), (3, 33, 48), (4, 70, 32)] {
        check_fused_heads(heads, (rows, head_dim, rows, head_dim), AttentionMask::Causal);
    }
}

/// Every head of packed composed attention is the single head bit for bit.
fn check_composed_heads(heads: usize, shape: HeadShape, mask: AttentionMask) {
    let mut device = Device::new();
    let h = HeadData::packed(heads, shape).upload(&mut device, heads, shape);
    let plan = attention().attention_composed_multihead(
        &gemm(),
        &elementwise(),
        &softmax_2d(),
        &STREAM,
        &h.queries,
        &h.keys,
        &h.values,
        &h.output,
        heads,
        h.query_rows,
        h.head_dim,
        h.kv_rows,
        h.value_dim,
        scalar(head_scale(shape)),
        mask,
        &FUSED,
    );
    device.run(&plan).unwrap();
    let packed = device.f32s(h.output.id);
    let size = shape.0 * shape.3;
    for head in 0..heads {
        let one = HeadData::seeded(head, shape).upload(&mut device, 1, shape);
        let single = composed(&mut device, &one, shape, mask);
        for index in 0..size {
            assert_eq!(
                packed[head * size + index].to_bits(),
                single[index].to_bits(),
                "composed multihead {heads}h bit mismatch at head {head} element {index} \
                 shape {shape:?}"
            );
        }
    }
}

#[test]
fn attention_composed_multihead_bit_matches_per_head_on_gpu() {
    for &(heads, shape) in MULTIHEAD_SHAPES {
        check_composed_heads(heads, shape, AttentionMask::Unmasked);
    }
    // Causal square shapes: same bit-exact contract.
    for &(heads, rows, head_dim) in &[(2, 7, 64), (3, 33, 48)] {
        check_composed_heads(heads, (rows, head_dim, rows, head_dim), AttentionMask::Causal);
    }
}

#[test]
fn bf16_attention_fused_bit_matches_f32_family_and_f64_oracle_on_gpu() {
    let mut device = Device::new();
    for &shape in HEAD_SHAPES {
        let data = HeadData::single(shape);
        let h = data.upload_bits(&mut device, 1, shape);
        let actual = bf16_fused(&mut device, &h, shape, AttentionMask::Unmasked);
        // The f32 family consumes exactly-widened copies of the same bits.
        let rounded = data.rounded();
        let h = rounded.upload(&mut device, 1, shape);
        let wide = fused(&mut device, &h, shape, AttentionMask::Unmasked);
        let expected = reference_attention(&rounded, shape, false);
        assert_bits_and_close(&actual, &wide, &expected, &format!("fused {shape:?}"));
    }
}

#[test]
fn bf16_attention_composed_bit_matches_f32_family_and_f64_oracle_on_gpu() {
    let mut device = Device::new();
    for &shape in HEAD_SHAPES {
        let data = HeadData::single(shape);
        let h = data.upload_bits(&mut device, 1, shape);
        let actual = bf16_composed(&mut device, &h, shape, AttentionMask::Unmasked);
        let rounded = data.rounded();
        let h = rounded.upload(&mut device, 1, shape);
        let wide = composed(&mut device, &h, shape, AttentionMask::Unmasked);
        let expected = reference_attention(&rounded, shape, false);
        assert_bits_and_close(&actual, &wide, &expected, &format!("composed {shape:?}"));
    }
}

#[test]
fn bf16_attention_causal_matches_f32_family_and_f64_oracle_on_gpu() {
    let mut device = Device::new();
    for &(rows, head_dim) in CAUSAL_SHAPES {
        let shape = (rows, head_dim, rows, head_dim);
        let data = HeadData::single(shape);
        let rounded = data.rounded();
        let expected = reference_attention(&rounded, shape, true);

        let h = data.upload_bits(&mut device, 1, shape);
        let actual = bf16_fused(&mut device, &h, shape, AttentionMask::Causal);
        let h = rounded.upload(&mut device, 1, shape);
        let wide = fused(&mut device, &h, shape, AttentionMask::Causal);
        let label = format!("causal fused ({rows},{head_dim})");
        assert_bits_and_close(&actual, &wide, &expected, &label);

        let h = data.upload_bits(&mut device, 1, shape);
        let actual = bf16_composed(&mut device, &h, shape, AttentionMask::Causal);
        let h = rounded.upload(&mut device, 1, shape);
        let wide = composed(&mut device, &h, shape, AttentionMask::Causal);
        let label = format!("causal composed ({rows},{head_dim})");
        assert_bits_and_close(&actual, &wide, &expected, &label);
    }
}

/// Scores from one multiply-add chain narrowed to bf16, probabilities
/// narrowed to bf16, and one final narrowing of the weighted values.
fn quantized_reference(data: &HeadData, shape: HeadShape, causal: bool) -> Vec<u16> {
    let (query_rows, head_dim, kv_rows, value_dim) = shape;
    let scale = f64::from(head_scale(shape));
    let mut output = vec![0_u16; query_rows * value_dim];
    for row in 0..query_rows {
        let scores: Vec<f64> = (0..kv_rows)
            .map(|key| {
                // Masked positions must contribute exactly zero weight.
                if causal && key > row {
                    return f64::NEG_INFINITY;
                }
                let logit = (0..head_dim).fold(0.0_f32, |value, depth| {
                    data.queries[row * head_dim + depth]
                        .mul_add(data.keys[key * head_dim + depth], value)
                });
                f64::from(bf16_bits_to_f32(f32_to_bf16_rne(logit))) * scale
            })
            .collect();
        let max_score = scores.iter().copied().fold(f64::NEG_INFINITY, f64::max);
        let weights: Vec<f64> = scores.iter().map(|&s| (s - max_score).exp()).collect();
        let total: f64 = weights.iter().sum();
        let packed: Vec<f64> = weights
            .iter()
            .map(|&weight| f64::from(bf16_bits_to_f32(f32_to_bf16_rne((weight / total) as f32))))
            .collect();
        for col in 0..value_dim {
            let value: f64 = (0..kv_rows)
                .map(|key| packed[key] * f64::from(data.values[key * value_dim + col]))
                .sum();
            output[row * value_dim + col] = f32_to_bf16_rne(value as f32);
        }
    }
    output
}

fn assert_quantized(actual: &[u16], expected: &[u16], label: &str) {
    assert_eq!(actual.len(), expected.len());
    for index in 0..actual.len() {
        let value = f64::from(bf16_bits_to_f32(actual[index]));
        let oracle = f64::from(bf16_bits_to_f32(expected[index]));
        let tolerance = 5.0e-3_f64.max(oracle.abs() * 8.0e-3);
        assert!(
            (value - oracle).abs() <= tolerance,
            "{label} mismatch at {index}: {value} vs {oracle}, tolerance {tolerance}"
        );
    }
}

#[test]
fn bf16_attention_composed_quantized_matches_quantized_oracle_on_gpu() {
    let mut device = Device::new();
    for &shape in HEAD_SHAPES {
        let data = HeadData::single(shape);
        let h = data.upload_bits(&mut device, 1, shape);
        let actual = quantized(&mut device, &h, shape, AttentionMask::Unmasked);
        let expected = quantized_reference(&data.rounded(), shape, false);
        assert_quantized(&actual, &expected, &format!("quantized {shape:?}"));
    }
}

#[test]
fn bf16_attention_composed_quantized_causal_and_rejections() {
    let mut device = Device::new();
    for &(rows, head_dim) in &[(7_usize, 64_usize), (33, 48)] {
        let shape = (rows, head_dim, rows, head_dim);
        let data = HeadData::single(shape);
        let h = data.upload_bits(&mut device, 1, shape);
        let actual = quantized(&mut device, &h, shape, AttentionMask::Causal);
        let expected = quantized_reference(&data.rounded(), shape, true);
        assert_quantized(&actual, &expected, &format!("quantized causal ({rows},{head_dim})"));
    }

    let refuse = |device: &mut Device, h: &Heads, mask: AttentionMask| -> String {
        let launches = device.launches;
        let plan = bf16_attention().attention_composed_quantized(
            &conversions(),
            &attention(),
            &bf16_gemm(),
            &elementwise(),
            &softmax_2d(),
            &STREAM,
            &h.queries,
            &h.keys,
            &h.values,
            &h.output,
            h.query_rows,
            h.head_dim,
            h.kv_rows,
            h.value_dim,
            scalar(0.25),
            mask,
            &FUSED,
        );
        let message = device.run(&plan).unwrap_err().message();
        assert_eq!(device.launches, launches);
        message
    };
    // Rectangular causal shapes stay rejected before launch.
    let h = Heads {
        queries: device.halves(2 * 8),
        keys: device.halves(5 * 8),
        values: device.halves(5 * 4),
        output: device.halves(2 * 4),
        query_rows: 2,
        head_dim: 8,
        kv_rows: 5,
        value_dim: 4,
    };
    let error = refuse(&mut device, &h, AttentionMask::Causal);
    assert!(error.contains("query_rows == kv_rows"), "{error}");

    // Short packed buffers stay rejected before launch.
    let h = Heads { keys: device.halves(39), ..h };
    let error = refuse(&mut device, &h, AttentionMask::Unmasked);
    assert!(error.contains("requires 40"), "{error}");
}

/// Every head of packed bf16 fused attention is the single head.
fn check_bf16_fused_heads(heads: usize, shape: HeadShape, mask: AttentionMask) {
    let mut device = Device::new();
    let h = HeadData::packed(heads, shape).upload_bits(&mut device, heads, shape);
    let scale = scalar(head_scale(shape));
    let plan = bf16_attention().attention_fused_multihead(
        &STREAM,
        &h.queries,
        &h.keys,
        &h.values,
        &h.output,
        heads,
        h.query_rows,
        h.head_dim,
        h.kv_rows,
        h.value_dim,
        scale,
        mask,
        PROBE,
    );
    device.run(&plan).unwrap();
    let packed = device.u16s(h.output.id);
    let size = shape.0 * shape.3;
    for head in 0..heads {
        let one = HeadData::seeded(head, shape).upload_bits(&mut device, 1, shape);
        let single = bf16_fused(&mut device, &one, shape, mask);
        assert_eq!(packed[head * size..(head + 1) * size], single[..], "head {head} of {heads}");
    }
}

#[test]
fn bf16_attention_multihead_bit_matches_per_head_fused_on_gpu() {
    for &(heads, shape) in MULTIHEAD_SHAPES {
        check_bf16_fused_heads(heads, shape, AttentionMask::Unmasked);
    }
}

#[test]
fn bf16_attention_multihead_causal_bit_matches_per_head_on_gpu() {
    for &(heads, rows, head_dim) in &[(2, 7, 64), (3, 33, 48), (4, 70, 32)] {
        check_bf16_fused_heads(heads, (rows, head_dim, rows, head_dim), AttentionMask::Causal);
    }
}

/// Every head of packed bf16 composed attention is the single head.
fn check_bf16_composed_heads(heads: usize, shape: HeadShape, mask: AttentionMask) {
    let mut device = Device::new();
    let h = HeadData::packed(heads, shape).upload_bits(&mut device, heads, shape);
    let plan = bf16_attention().attention_composed_multihead(
        &conversions(),
        &attention(),
        &gemm(),
        &elementwise(),
        &softmax_2d(),
        &STREAM,
        &h.queries,
        &h.keys,
        &h.values,
        &h.output,
        heads,
        h.query_rows,
        h.head_dim,
        h.kv_rows,
        h.value_dim,
        scalar(head_scale(shape)),
        mask,
        &FUSED,
    );
    device.run(&plan).unwrap();
    let packed = device.u16s(h.output.id);
    let size = shape.0 * shape.3;
    for head in 0..heads {
        let one = HeadData::seeded(head, shape).upload_bits(&mut device, 1, shape);
        let single = bf16_composed(&mut device, &one, shape, mask);
        assert_eq!(packed[head * size..(head + 1) * size], single[..], "head {head} of {heads}");
    }
}

#[test]
fn bf16_attention_composed_multihead_bit_matches_per_head_on_gpu() {
    for &(heads, shape) in MULTIHEAD_SHAPES {
        check_bf16_composed_heads(heads, shape, AttentionMask::Unmasked);
    }
    // Causal square shapes: same bit-exact contract.
    for &(heads, rows, head_dim) in &[(2, 7, 64), (3, 33, 48)] {
        check_bf16_composed_heads(heads, (rows, head_dim, rows, head_dim), AttentionMask::Causal);
    }
}

#[test]
fn narrowing_undoes_widening_of_every_pattern() {
    let bf16 = conversions();
    let mut device = Device::new();
    let patterns: Vec<u16> = (0..=u16::MAX).collect();
    let packed = device.upload_bits(&patterns);
    let wide = device.floats(patterns.len());
    let back = device.halves(patterns.len());
    device.run(&bf16.widen(&STREAM, &packed, &wide)).unwrap();
    device.run(&bf16.narrow(&STREAM, &wide, &back)).unwrap();
    for (pattern, actual) in patterns.iter().zip(device.u16s(back.id)) {
        let expected = if pattern & 0x7FFF > 0x7F80 { pattern | 0x0040 } else { *pattern };
        assert_eq!(actual, expected, "{pattern:#06x}");
    }
}

#[test]
fn product_with_the_transpose_bit_matches_transposed_b() {
    let gemm = gemm();
    let mut device = Device::new();
    for &(m, n, k) in PRODUCT_SHAPES {
        let stored = host_matrix_a(n, k);
        let mut transpose = vec![0.0_f32; k * n];
        for row in 0..n {
            for col in 0..k {
                transpose[col * n + row] = stored[row * k + col];
            }
        }
        let a = device.upload(&host_matrix_a(m, k));
        let b = device.upload(&stored);
        let b_transpose = device.upload(&transpose);
        let one = device.floats(m * n);
        let two = device.floats(m * n);
        device.run(&gemm.gemm_transposed_b(&STREAM, &a, &b, &one, m, n, k)).unwrap();
        device.run(&gemm.gemm(&STREAM, &a, &b_transpose, &two, m, n, k)).unwrap();
        assert_eq!(device.bits(one.id), device.bits(two.id), "({m}, {n}, {k})");
    }
}

#[test]
fn bf16_product_is_the_wide_product_narrowed_once() {
    let mut device = Device::new();
    for &(m, n, k) in PRODUCT_SHAPES {
        let a_bits = to_bits(&host_matrix_a(m, k));
        let b_bits = to_bits(&host_matrix_b(k, n));
        let a = device.upload_bits(&a_bits);
        let b = device.upload_bits(&b_bits);
        let output = device.halves(m * n);
        device.run(&bf16_gemm().gemm(&STREAM, &a, &b, &output, m, n, k)).unwrap();
        let wide_a = device.upload(&widened(&a_bits));
        let wide_b = device.upload(&widened(&b_bits));
        let wide = device.floats(m * n);
        device.run(&gemm().gemm(&STREAM, &wide_a, &wide_b, &wide, m, n, k)).unwrap();
        assert_eq!(device.u16s(output.id), to_bits(&device.f32s(wide.id)), "({m}, {n}, {k})");
    }
}

#[test]
fn bf16_sum_is_the_sum_of_the_widened_input() {
    let packed = bf16_reduction();
    let wide =
        F32Reduction::load_with_block_size(CONTEXT, packed.block_size(), PROBE).unwrap();
    let mut device = Device::new();
    for size in [0, 1, 255, 513, 1_025, 131_071] {
        let bits = to_bits(&packed_values(size));
        let input = device.upload_bits(&bits);
        let wide_input = device.upload(&widened(&bits));
        let one = device.run_scalar(&packed.sum(&STREAM, &input));
        let two = device.run_scalar(&wide.sum(&STREAM, &wide_input));
        assert_eq!(one.to_bits(), two.to_bits(), "{size} elements");
    }
}

#[test]
fn sum_depends_on_the_contents_alone() {
    let reduction = F32Reduction::load(CONTEXT, PROBE).unwrap();
    let workspace = reduction
        .workspace(CONTEXT, 300_000, BufferId::Operand(901), BufferId::Operand(902))
        .unwrap();
    let mut device = Device::new();
    device.run(&workspace.allocation()).unwrap();
    let host = packed_values(131_071);
    let input = device.upload(&host);
    let copy = device.upload(&host);
    let output = device.floats(1);
    device.run(&reduction.sum_into(&STREAM, &input, &output, &workspace)).unwrap();
    let alone = device.run_scalar(&reduction.sum(&STREAM, &copy));
    assert_eq!(device.f32s(output.id)[0].to_bits(), alone.to_bits());
    assert_eq!(device.f32s(input.id), host);
}

#[test]
fn softmax_in_place_bit_matches_softmax_into_another_buffer() {
    let softmax = softmax();
    let mut device = Device::new();
    for &size in SOFTMAX_SIZES {
        let host = softmax_values(size);
        let input = device.upload(&host);
        let output = device.floats(size);
        let data = device.upload(&host);
        device.run(&softmax.softmax(CONTEXT, &STREAM, &input, &output)).unwrap();
        device.run(&softmax.softmax(CONTEXT, &STREAM, &data, &data)).unwrap();
        assert_eq!(device.bits(output.id), device.bits(data.id), "{size} elements");
        assert_eq!(device.f32s(input.id), host);
    }
}

#[test]
fn causal_rows_ignore_later_keys_and_values() {
    let shape = (7, 16, 7, 5);
    let data = HeadData::single(shape);
    let mut device = Device::new();
    let h = data.upload(&mut device, 1, shape);
    let before = fused(&mut device, &h, shape, AttentionMask::Causal);
    let composed_before = composed(&mut device, &h, shape, AttentionMask::Causal);
    for row in 0..shape.0 {
        let mut other = HeadData::single(shape);
        for value in &mut other.keys[(row + 1) * shape.1..] {
            *value = 3.5 - *value;
        }
        for value in &mut other.values[(row + 1) * shape.3..] {
            *value = -2.0 * *value + 1.0;
        }
        let h = other.upload(&mut device, 1, shape);
        let after = fused(&mut device, &h, shape, AttentionMask::Causal);
        let kept = (row + 1) * shape.3;
        assert_eq!(before[..kept], after[..kept], "rows up to {row}");
        let after = composed(&mut device, &h, shape, AttentionMask::Causal);
        assert_eq!(composed_before[..kept], after[..kept], "composed rows up to {row}");
    }
}

#[test]
fn argmax_breaks_ties_toward_lower_tokens() {
    let probes = LmHeadProbes { candidates: PROBE, reduce: PROBE };
    let kernel = F32LmHeadArgmax::load_with_block_size(CONTEXT, 64, &probes).unwrap();
    let mut weight_host = vec![-1.0_f32; 200];
    for token in [70, 71, 130, 199] {
        weight_host[token] = 2.5;
    }
    let mut device = Device::new();
    let input = device.upload(&[2.0]);
    let weight = device.upload(&weight_host);
    let output_value = device.floats(1);
    let output_index = device.words(1);
    let workspace = kernel
        .workspace(CONTEXT, 200, BufferId::Operand(901), BufferId::Operand(902))
        .unwrap();
    device.run(&workspace.allocation()).unwrap();
    device.run(&kernel.argmax_kn(
        &STREAM,
        &input,
        &weight,
        &output_value,
        &output_index,
        1,
        200,
        &workspace,
    )).unwrap();
    assert_eq!(device.u32s(output_index.id), vec![70]);
    assert_eq!(device.f32s(output_value.id), vec![5.0]);
}

#[test]
fn malformed_sparse_columns_are_not_numbers() {
    let kernel = F32SparseCscGemv::load_with_block_size(CONTEXT, 64, PROBE).unwrap();
    let mut device = Device::new();
    let input = device.upload(&[0.5, -1.0]);
    // The second column runs backwards, the third past the retained entries,
    // the fourth backwards, and the fifth has a row that the input lacks.
    let offsets = [0_u64, 2, 1, 9, 2, 3];
    let column_offsets = device.store(Memory::U64(offsets.to_vec()), offsets.len());
    let row_indices = device.upload_words(&[0, 1, 2]);
    let values = device.upload(&[4.0, 3.0, 1.0]);
    let output = device.floats(5);
    device.run(&kernel.project_kn(
        &STREAM,
        &input,
        &column_offsets,
        &row_indices,
        &values,
        &output,
        2,
        5,
    )).unwrap();
    let malformed = 0x7FFF_FFFF;
    assert_eq!(
        device.bits(output.id),
        vec![(-1.0_f32).to_bits(), malformed, malformed, malformed, malformed]
    );

    let none = device.floats(0);
    let no_rows = device.words(0);
    device.run(&kernel.project_kn(
        &STREAM,
        &input,
        &column_offsets,
        &no_rows,
        &none,
        &output,
        2,
        5,
    )).unwrap();
    assert_eq!(device.bits(output.id), vec![0; 5]);
}
