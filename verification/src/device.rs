//! Plain-value descriptions of device objects.

use vstd::prelude::*;

verus! {

/// Identity of a device context: two objects share a context exactly when
/// their identities are equal.
#[derive(Clone, Copy, Debug, PartialEq, Eq, Structural)]
pub struct ContextId {
    pub id: u64,
}

/// A stream, known by the context it orders work on.
#[derive(Clone, Copy, Debug, PartialEq, Eq, Structural)]
pub struct Stream {
    pub context: ContextId,
}

/// An `f32` scalar by its IEEE-754 bit pattern. Scalars are only handed on to
/// kernels.
#[derive(Clone, Copy, Debug, PartialEq, Eq, Structural)]
pub struct F32 {
    pub bits: u32,
}

/// Element types of device storage.
#[derive(Clone, Copy, Debug, PartialEq, Eq, Structural)]
pub enum Element {
    F32,
    Bf16,
    U32,
}

/// Allocations that an operation makes for itself, named by their role.
#[derive(Clone, Copy, Debug, PartialEq, Eq, Hash, Structural)]
pub enum Scratch {
    Scores,
    Probabilities,
    PackedScores,
    WideProbabilities,
    WideQueries,
    WideKeys,
    WideValues,
    WideInput,
    WideOutput,
    RowScalars,
    RowSumOfSquares,
    ReductionA,
    ReductionB,
    ReductionOutput,
    SoftmaxMax,
    SoftmaxSum,
    SelectionData,
    SelectionValuesA,
    SelectionValuesB,
    SelectionIndicesA,
    SelectionIndicesB,
}

/// Identity of a device allocation.
#[derive(Clone, Copy, Debug, PartialEq, Eq, Structural)]
pub enum BufferId {
    /// An allocation of the caller, under a number the caller picked.
    Operand(u64),
    /// An allocation of the operation itself.
    Scratch(Scratch),
}

/// A device allocation: its identity, its length in elements and its context.
#[derive(Clone, Copy, Debug, PartialEq, Eq, Structural)]
pub struct DeviceBuffer {
    pub id: BufferId,
    pub len: usize,
    pub context: ContextId,
}

/// What the driver reports of a compiled function.
#[derive(Clone, Copy, Debug, PartialEq, Eq, Structural)]
pub struct KernelAttributes {
    pub max_threads_per_block: u32,
    pub max_dynamic_shared_memory_bytes: u32,
}

/// A failure reported by the device or its runtime, under a number by which
/// the caller finds it again.
#[derive(Clone, Copy, Debug, PartialEq, Eq, Structural)]
pub struct DeviceFailure {
    pub number: u64,
}

/// The outcome of asking the driver for a function's attributes.
pub type Probe = Result<KernelAttributes, DeviceFailure>;

impl DeviceBuffer {
    /// Describes an allocation of the caller.
    pub fn operand(context: ContextId, number: u64, len: usize) -> (buffer: DeviceBuffer)
        ensures
            buffer == (DeviceBuffer { id: BufferId::Operand(number), len, context }),
    {
        DeviceBuffer { id: BufferId::Operand(number), len, context }
    }
}

} // verus!
