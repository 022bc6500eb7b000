//! Every reason for which an operation is refused, with its message.

use crate::device::DeviceFailure;
use crate::text::Message;
use vstd::prelude::*;

verus! {

/// Why an operation was refused.
#[derive(Clone, Copy, Debug, PartialEq, Eq)]
pub enum KernelError {
    /// A rule without measurements.
    Fixed(&'static str),
    /// A rule of one family, without measurements.
    Rule { family: &'static str, rule: &'static str },
    /// The device failed; the caller holds the failure under this number.
    Device(DeviceFailure),
    BlockSize { family: &'static str, size: u32 },
    TileSide { family: &'static str, side: u32 },
    BlockLimit { family: &'static str, size: u32, limit: u32 },
    TileThreads { family: &'static str, side: u32, threads: u64, unit: &'static str, limit: u32 },
    SharedMemoryLimit { family: &'static str, bytes: u32, limit: u32 },
    Shape {
        family: &'static str,
        operand: &'static str,
        actual: usize,
        unit: &'static str,
        rows: usize,
        cols: usize,
        required: usize,
    },
    GroupedShape {
        family: &'static str,
        operand: &'static str,
        actual: usize,
        groups: usize,
        unit: &'static str,
        rows: usize,
        cols: usize,
        required: usize,
    },
    BatchedOperand { actual: usize, batches: usize, required: usize },
    PairShape {
        family: &'static str,
        operand: &'static str,
        first: usize,
        second: usize,
        rows: usize,
        cols: usize,
        required: usize,
    },
    PairLength {
        family: &'static str,
        operand: &'static str,
        first: usize,
        second: usize,
        required: usize,
    },
    Length {
        family: &'static str,
        operand: &'static str,
        actual: usize,
        unit: &'static str,
        required: usize,
    },
    Expected { family: &'static str, operand: &'static str, actual: usize, expected: usize },
    Holds {
        family: &'static str,
        operand: &'static str,
        actual: usize,
        requirement: &'static str,
        expected: usize,
    },
    RowProduct {
        family: &'static str,
        operand: &'static str,
        actual: usize,
        rows: usize,
        unit: &'static str,
        cols: usize,
        required: usize,
    },
    WorkspaceCapacity {
        family: &'static str,
        operand: &'static str,
        actual: usize,
        unit: &'static str,
        capacity: usize,
    },
    WorkspaceBlockSize { workspace: u32, family: &'static str, block_size: u32 },
    SoftmaxLengths { input: usize, output: usize },
    FusedRow { path: &'static str, required: usize, cols: usize, limit: u32 },
    FusedHead {
        family: &'static str,
        required: usize,
        head_dim: usize,
        value_dim: usize,
        block_size: u32,
    },
    CausalShape { query_rows: usize, kv_rows: usize },
    EmptyHead { family: &'static str, head_dim: usize, kv_rows: usize, value_dim: usize },
    HeadShapes { queries: usize, keys: usize, values: usize, output: usize },
    EmptyRows { family: &'static str, rows: usize, cols: usize },
    ColumnBlocks { family: &'static str, blocks: usize, limit: u32 },
    BatchBlocks { batches: usize, limit: u32 },
    OutOfRange {
        family: &'static str,
        operand: &'static str,
        row: u32,
        place: &'static str,
        at: usize,
        rows: usize,
    },
    DuplicatePosition { family: &'static str, row: u32 },
    CandidateOutputs { values: usize, indices: usize },
    SelectionLength { input: usize, k: usize },
    SelectionOutputs { k: usize, values: usize, indices: usize },
    OddWidth { cols: usize },
    ScaleCount { actual: usize },
    SparseEntries { indices: usize, values: usize },
}

impl KernelError {
    /// The message that describes the refusal.
    pub open spec fn text(self) -> Seq<char> {
        match self {
            KernelError::Fixed(text) => {
                text@
            },
            KernelError::Rule { family, rule } => {
                family@
                    + " "@
                    + rule@
            },
            KernelError::Device(failure) => {
                "device failure "@
                    + crate::text::decimal(failure.number as nat)
            },
            KernelError::BlockSize { family, size } => {
                family@
                    + " block size "@
                    + crate::text::decimal(size as nat)
                    + " is not a non-zero power of two"@
            },
            KernelError::TileSide { family, side } => {
                family@
                    + " tile side "@
                    + crate::text::decimal(side as nat)
                    + " is not a non-zero power of two"@
            },
            KernelError::BlockLimit { family, size, limit } => {
                family@
                    + " block size "@
                    + crate::text::decimal(size as nat)
                    + " exceeds function limit "@
                    + crate::text::decimal(limit as nat)
            },
            KernelError::TileThreads { family, side, threads, unit, limit } => {
                family@
                    + " tile side "@
                    + crate::text::decimal(side as nat)
                    + " implies "@
                    + crate::text::decimal(threads as nat)
                    + " "@
                    + unit@
                    + "; function limit is "@
                    + crate::text::decimal(limit as nat)
            },
            KernelError::SharedMemoryLimit { family, bytes, limit } => {
                family@
                    + " requires "@
                    + crate::text::decimal(bytes as nat)
                    + " shared-memory bytes; function limit is "@
                    + crate::text::decimal(limit as nat)
            },
            KernelError::Shape { family, operand, actual, unit, rows, cols, required } => {
                family@
                    + " "@
                    + operand@
                    + " "@
                    + crate::text::decimal(actual as nat)
                    + " "@
                    + unit@
                    + "; shape ("@
                    + crate::text::decimal(rows as nat)
                    + ", "@
                    + crate::text::decimal(cols as nat)
                    + ") requires "@
                    + crate::text::decimal(required as nat)
            },
            KernelError::GroupedShape { family, operand, actual, groups, unit, rows, cols, required } => {
                family@
                    + " "@
                    + operand@
                    + " "@
                    + crate::text::decimal(actual as nat)
                    + " elements; "@
                    + crate::text::decimal(groups as nat)
                    + " "@
                    + unit@
                    + " of shape ("@
                    + crate::text::decimal(rows as nat)
                    + ", "@
                    + crate::text::decimal(cols as nat)
                    + ") requires "@
                    + crate::text::decimal(required as nat)
            },
            KernelError::BatchedOperand { actual, batches, required } => {
                "batched gemm matrix_b has "@
                    + crate::text::decimal(actual as nat)
                    + " elements; "@
                    + crate::text::decimal(batches as nat)
                    + " batches require "@
                    + crate::text::decimal(required as nat)
            },
            KernelError::PairShape { family, operand, first, second, rows, cols, required } => {
                family@
                    + " "@
                    + operand@
                    + " "@
                    + crate::text::decimal(first as nat)
                    + "/"@
                    + crate::text::decimal(second as nat)
                    + " elements; shape ("@
                    + crate::text::decimal(rows as nat)
                    + ", "@
                    + crate::text::decimal(cols as nat)
                    + ") requires "@
                    + crate::text::decimal(required as nat)
            },
            KernelError::PairLength { family, operand, first, second, required } => {
                family@
                    + " "@
                    + operand@
                    + " "@
                    + crate::text::decimal(first as nat)
                    + "/"@
                    + crate::text::decimal(second as nat)
                    + " elements; requires "@
                    + crate::text::decimal(required as nat)
            },
            KernelError::Length { family, operand, actual, unit, required } => {
                family@
                    + " "@
                    + operand@
                    + " "@
                    + crate::text::decimal(actual as nat)
                    + " "@
                    + unit@
                    + "; shape requires "@
                    + crate::text::decimal(required as nat)
            },
            KernelError::Expected { family, operand, actual, expected } => {
                family@
                    + " "@
                    + operand@
                    + " "@
                    + crate::text::decimal(actual as nat)
                    + " elements; expected "@
                    + crate::text::decimal(expected as nat)
            },
            KernelError::Holds { family, operand, actual, requirement, expected } => {
                family@
                    + " "@
                    + operand@
                    + " holds "@
                    + crate::text::decimal(actual as nat)
                    + " elements; "@
                    + requirement@
                    + " "@
                    + crate::text::decimal(expected as nat)
            },
            KernelError::RowProduct { family, operand, actual, rows, unit, cols, required } => {
                family@
                    + " "@
                    + operand@
                    + " "@
                    + crate::text::decimal(actual as nat)
                    + " elements; "@
                    + crate::text::decimal(rows as nat)
                    + " "@
                    + unit@
                    + " x "@
                    + crate::text::decimal(cols as nat)
                    + " columns requires "@
                    + crate::text::decimal(required as nat)
            },
            KernelError::WorkspaceCapacity { family, operand, actual, unit, capacity } => {
                family@
                    + " "@
                    + operand@
                    + " "@
                    + crate::text::decimal(actual as nat)
                    + " "@
                    + unit@
                    + "; workspace capacity is "@
                    + crate::text::decimal(capacity as nat)
            },
            KernelError::WorkspaceBlockSize { workspace, family, block_size } => {
                "workspace block size "@
                    + crate::text::decimal(workspace as nat)
                    + " does not match "@
                    + family@
                    + " block size "@
                    + crate::text::decimal(block_size as nat)
            },
            KernelError::SoftmaxLengths { input, output } => {
                "softmax input has "@
                    + crate::text::decimal(input as nat)
                    + " elements but output has "@
                    + crate::text::decimal(output as nat)
            },
            KernelError::FusedRow { path, required, cols, limit } => {
                path@
                    + " needs "@
                    + crate::text::decimal(required as nat)
                    + " shared-memory bytes for "@
                    + crate::text::decimal(cols as nat)
                    + " columns; function limit is "@
                    + crate::text::decimal(limit as nat)
            },
            KernelError::FusedHead { family, required, head_dim, value_dim, block_size } => {
                family@
                    + " fused path needs "@
                    + crate::text::decimal(required as nat)
                    + " shared-memory bytes for head ("@
                    + crate::text::decimal(head_dim as nat)
                    + ", "@
                    + crate::text::decimal(value_dim as nat)
                    + ") at block "@
                    + crate::text::decimal(block_size as nat)
            },
            KernelError::CausalShape { query_rows, kv_rows } => {
                "causal attention requires query_rows == kv_rows; got "@
                    + crate::text::decimal(query_rows as nat)
                    + " vs "@
                    + crate::text::decimal(kv_rows as nat)
            },
            KernelError::EmptyHead { family, head_dim, kv_rows, value_dim } => {
                family@
                    + " requires non-empty keys/head/value dimensions; got head_dim="@
                    + crate::text::decimal(head_dim as nat)
                    + ", kv_rows="@
                    + crate::text::decimal(kv_rows as nat)
                    + ", value_dim="@
                    + crate::text::decimal(value_dim as nat)
            },
            KernelError::HeadShapes { queries, keys, values, output } => {
                "attention shapes require queries="@
                    + crate::text::decimal(queries as nat)
                    + ", keys="@
                    + crate::text::decimal(keys as nat)
                    + ", values="@
                    + crate::text::decimal(values as nat)
                    + ", output="@
                    + crate::text::decimal(output as nat)
            },
            KernelError::EmptyRows { family, rows, cols } => {
                family@
                    + " requires non-empty rows and columns; got rows="@
                    + crate::text::decimal(rows as nat)
                    + ", cols="@
                    + crate::text::decimal(cols as nat)
            },
            KernelError::ColumnBlocks { family, blocks, limit } => {
                family@
                    + " requires "@
                    + crate::text::decimal(blocks as nat)
                    + " column blocks; gridDim.y limit is "@
                    + crate::text::decimal(limit as nat)
            },
            KernelError::BatchBlocks { batches, limit } => {
                "batched gemm requires "@
                    + crate::text::decimal(batches as nat)
                    + " batch blocks; gridDim.z limit is "@
                    + crate::text::decimal(limit as nat)
            },
            KernelError::OutOfRange { family, operand, row, place, at, rows } => {
                family@
                    + " "@
                    + operand@
                    + " "@
                    + crate::text::decimal(row as nat)
                    + " at "@
                    + place@
                    + " "@
                    + crate::text::decimal(at as nat)
                    + " is out of range for "@
                    + crate::text::decimal(rows as nat)
                    + " rows"@
            },
            KernelError::DuplicatePosition { family, row } => {
                family@
                    + " duplicate position "@
                    + crate::text::decimal(row as nat)
                    + " would race"@
            },
            KernelError::CandidateOutputs { values, indices } => {
                "LM-head argmax outputs must each hold one element; got "@
                    + crate::text::decimal(values as nat)
                    + " values and "@
                    + crate::text::decimal(indices as nat)
                    + " indices"@
            },
            KernelError::SelectionLength { input, k } => {
                "top-k input has "@
                    + crate::text::decimal(input as nat)
                    + " elements; selecting "@
                    + crate::text::decimal(k as nat)
                    + " exceeds the input length"@
            },
            KernelError::SelectionOutputs { k, values, indices } => {
                "top-k outputs must hold exactly "@
                    + crate::text::decimal(k as nat)
                    + " elements; got "@
                    + crate::text::decimal(values as nat)
                    + " values and "@
                    + crate::text::decimal(indices as nat)
                    + " indices"@
            },
            KernelError::OddWidth { cols } => {
                "rope width must be even; got "@
                    + crate::text::decimal(cols as nat)
            },
            KernelError::ScaleCount { actual } => {
                "f32-int2 project scale buffer has "@
                    + crate::text::decimal(actual as nat)
                    + " values; exactly one is required"@
            },
            KernelError::SparseEntries { indices, values } => {
                "f32-sparse-csc row indices has "@
                    + crate::text::decimal(indices as nat)
                    + " entries; values has "@
                    + crate::text::decimal(values as nat)
            },
        }
    }

    /// Renders the message.
    pub fn message(&self) -> (message: String)
        ensures
            message@ == self.text(),
    {
        match *self {
            KernelError::Fixed(text) => {
                Message::new(text)
                    .finish()
            },
            KernelError::Rule { family, rule } => {
                Message::new(family)
                    .text(" ")
                    .text(rule)
                    .finish()
            },
            KernelError::Device(failure) => {
                Message::new("device failure ")
                    .number(failure.number)
                    .finish()
            },
            KernelError::BlockSize { family, size } => {
                Message::new(family)
                    .text(" block size ")
                    .number(size as u64)
                    .text(" is not a non-zero power of two")
                    .finish()
            },
            KernelError::TileSide { family, side } => {
                Message::new(family)
                    .text(" tile side ")
                    .number(side as u64)
                    .text(" is not a non-zero power of two")
                    .finish()
            },
            KernelError::BlockLimit { family, size, limit } => {
                Message::new(family)
                    .text(" block size ")
                    .number(size as u64)
                    .text(" exceeds function limit ")
                    .number(limit as u64)
                    .finish()
            },
            KernelError::TileThreads { family, side, threads, unit, limit } => {
                Message::new(family)
                    .text(" tile side ")
                    .number(side as u64)
                    .text(" implies ")
                    .number(threads)
                    .text(" ")
                    .text(unit)
                    .text("; function limit is ")
                    .number(limit as u64)
                    .finish()
            },
            KernelError::SharedMemoryLimit { family, bytes, limit } => {
                Message::new(family)
                    .text(" requires ")
                    .number(bytes as u64)
                    .text(" shared-memory bytes; function limit is ")
                    .number(limit as u64)
                    .finish()
            },
            KernelError::Shape { family, operand, actual, unit, rows, cols, required } => {
                Message::new(family)
                    .text(" ")
                    .text(operand)
                    .text(" ")
                    .count(actual)
                    .text(" ")
                    .text(unit)
                    .text("; shape (")
                    .count(rows)
                    .text(", ")
                    .count(cols)
                    .text(") requires ")
                    .count(required)
                    .finish()
            },
            KernelError::GroupedShape { family, operand, actual, groups, unit, rows, cols, required } => {
                Message::new(family)
                    .text(" ")
                    .text(operand)
                    .text(" ")
                    .count(actual)
                    .text(" elements; ")
                    .count(groups)
                    .text(" ")
                    .text(unit)
                    .text(" of shape (")
                    .count(rows)
                    .text(", ")
                    .count(cols)
                    .text(") requires ")
                    .count(required)
                    .finish()
            },
            KernelError::BatchedOperand { actual, batches, required } => {
                Message::new("batched gemm matrix_b has ")
                    .count(actual)
                    .text(" elements; ")
                    .count(batches)
                    .text(" batches require ")
                    .count(required)
                    .finish()
            },
            KernelError::PairShape { family, operand, first, second, rows, cols, required } => {
                Message::new(family)
                    .text(" ")
                    .text(operand)
                    .text(" ")
                    .count(first)
                    .text("/")
                    .count(second)
                    .text(" elements; shape (")
                    .count(rows)
                    .text(", ")
                    .count(cols)
                    .text(") requires ")
                    .count(required)
                    .finish()
            },
            KernelError::PairLength { family, operand, first, second, required } => {
                Message::new(family)
                    .text(" ")
                    .text(operand)
                    .text(" ")
                    .count(first)
                    .text("/")
                    .count(second)
                    .text(" elements; requires ")
                    .count(required)
                    .finish()
            },
            KernelError::Length { family, operand, actual, unit, required } => {
                Message::new(family)
                    .text(" ")
                    .text(operand)
                    .text(" ")
                    .count(actual)
                    .text(" ")
                    .text(unit)
                    .text("; shape requires ")
                    .count(required)
                    .finish()
            },
            KernelError::Expected { family, operand, actual, expected } => {
                Message::new(family)
                    .text(" ")
                    .text(operand)
                    .text(" ")
                    .count(actual)
                    .text(" elements; expected ")
                    .count(expected)
                    .finish()
            },
            KernelError::Holds { family, operand, actual, requirement, expected } => {
                Message::new(family)
                    .text(" ")
                    .text(operand)
                    .text(" holds ")
                    .count(actual)
                    .text(" elements; ")
                    .text(requirement)
                    .text(" ")
                    .count(expected)
                    .finish()
            },
            KernelError::RowProduct { family, operand, actual, rows, unit, cols, required } => {
                Message::new(family)
                    .text(" ")
                    .text(operand)
                    .text(" ")
                    .count(actual)
                    .text(" elements; ")
                    .count(rows)
                    .text(" ")
                    .text(unit)
                    .text(" x ")
                    .count(cols)
                    .text(" columns requires ")
                    .count(required)
                    .finish()
            },
            KernelError::WorkspaceCapacity { family, operand, actual, unit, capacity } => {
                Message::new(family)
                    .text(" ")
                    .text(operand)
                    .text(" ")
                    .count(actual)
                    .text(" ")
                    .text(unit)
                    .text("; workspace capacity is ")
                    .count(capacity)
                    .finish()
            },
            KernelError::WorkspaceBlockSize { workspace, family, block_size } => {
                Message::new("workspace block size ")
                    .number(workspace as u64)
                    .text(" does not match ")
                    .text(family)
                    .text(" block size ")
                    .number(block_size as u64)
                    .finish()
            },
            KernelError::SoftmaxLengths { input, output } => {
                Message::new("softmax input has ")
                    .count(input)
                    .text(" elements but output has ")
                    .count(output)
                    .finish()
            },
            KernelError::FusedRow { path, required, cols, limit } => {
                Message::new(path)
                    .text(" needs ")
                    .count(required)
                    .text(" shared-memory bytes for ")
                    .count(cols)
                    .text(" columns; function limit is ")
                    .number(limit as u64)
                    .finish()
            },
            KernelError::FusedHead { family, required, head_dim, value_dim, block_size } => {
                Message::new(family)
                    .text(" fused path needs ")
                    .count(required)
                    .text(" shared-memory bytes for head (")
                    .count(head_dim)
                    .text(", ")
                    .count(value_dim)
                    .text(") at block ")
                    .number(block_size as u64)
                    .finish()
            },
            KernelError::CausalShape { query_rows, kv_rows } => {
                Message::new("causal attention requires query_rows == kv_rows; got ")
                    .count(query_rows)
                    .text(" vs ")
                    .count(kv_rows)
                    .finish()
            },
            KernelError::EmptyHead { family, head_dim, kv_rows, value_dim } => {
                Message::new(family)
                    .text(" requires non-empty keys/head/value dimensions; got head_dim=")
                    .count(head_dim)
                    .text(", kv_rows=")
                    .count(kv_rows)
                    .text(", value_dim=")
                    .count(value_dim)
                    .finish()
            },
            KernelError::HeadShapes { queries, keys, values, output } => {
                Message::new("attention shapes require queries=")
                    .count(queries)
                    .text(", keys=")
                    .count(keys)
                    .text(", values=")
                    .count(values)
                    .text(", output=")
                    .count(output)
                    .finish()
            },
            KernelError::EmptyRows { family, rows, cols } => {
                Message::new(family)
                    .text(" requires non-empty rows and columns; got rows=")
                    .count(rows)
                    .text(", cols=")
                    .count(cols)
                    .finish()
            },
            KernelError::ColumnBlocks { family, blocks, limit } => {
                Message::new(family)
                    .text(" requires ")
                    .count(blocks)
                    .text(" column blocks; gridDim.y limit is ")
                    .number(limit as u64)
                    .finish()
            },
            KernelError::BatchBlocks { batches, limit } => {
                Message::new("batched gemm requires ")
                    .count(batches)
                    .text(" batch blocks; gridDim.z limit is ")
                    .number(limit as u64)
                    .finish()
            },
            KernelError::OutOfRange { family, operand, row, place, at, rows } => {
                Message::new(family)
                    .text(" ")
                    .text(operand)
                    .text(" ")
                    .number(row as u64)
                    .text(" at ")
                    .text(place)
                    .text(" ")
                    .count(at)
                    .text(" is out of range for ")
                    .count(rows)
                    .text(" rows")
                    .finish()
            },
            KernelError::DuplicatePosition { family, row } => {
                Message::new(family)
                    .text(" duplicate position ")
                    .number(row as u64)
                    .text(" would race")
                    .finish()
            },
            KernelError::CandidateOutputs { values, indices } => {
                Message::new("LM-head argmax outputs must each hold one element; got ")
                    .count(values)
                    .text(" values and ")
                    .count(indices)
                    .text(" indices")
                    .finish()
            },
            KernelError::SelectionLength { input, k } => {
                Message::new("top-k input has ")
                    .count(input)
                    .text(" elements; selecting ")
                    .count(k)
                    .text(" exceeds the input length")
                    .finish()
            },
            KernelError::SelectionOutputs { k, values, indices } => {
                Message::new("top-k outputs must hold exactly ")
                    .count(k)
                    .text(" elements; got ")
                    .count(values)
                    .text(" values and ")
                    .count(indices)
                    .text(" indices")
                    .finish()
            },
            KernelError::OddWidth { cols } => {
                Message::new("rope width must be even; got ")
                    .count(cols)
                    .finish()
            },
            KernelError::ScaleCount { actual } => {
                Message::new("f32-int2 project scale buffer has ")
                    .count(actual)
                    .text(" values; exactly one is required")
                    .finish()
            },
            KernelError::SparseEntries { indices, values } => {
                Message::new("f32-sparse-csc row indices has ")
                    .count(indices)
                    .text(" entries; values has ")
                    .count(values)
                    .finish()
            },
        }
    }
}

/// The outcome of a check.
pub type Checked = Result<(), KernelError>;

} // verus!
