//! What elementwise operations, matrix-vector products, projections and
//! rotations leave in memory.

use crate::bf16::{bf16_affine_plan, bf16_scale_plan, bf16_vector_add_plan, unary_plan};
use crate::device::{BufferId, DeviceBuffer, Stream, F32};
use crate::elementwise::{affine_plan, awaited, scale_plan, vector_add_plan};
use crate::family::Family;
use crate::gemv::{gemv_plan, MatrixVector};
use crate::int2_weight_gemv::{int2_plan, Int2Projection};
use crate::launch::Kernel;
use crate::machine::{
    column_of, dot_row, element_place, holds, is_nan, long_at, narrow, product_chain,
    retained_chain, rotated, rotation_pair, row_of, sparse_column, ternary_column, widen, widened,
    Machine, Memory, MALFORMED,
};
use crate::mixed_weight_gemv::{mixed_plan, MixedProjection};
use crate::plan::PlanView;
use crate::rope::{rope_plan, Rotation};
use crate::sparse_csc_gemv::{sparse_plan, SparseProjection};
use vstd::prelude::*;

verus! {

/// The plan leaves these contents in one allocation and touches nothing else.
pub open spec fn leaves_only(
    plan: PlanView,
    machine: Machine,
    memory: Memory,
    output: BufferId,
    contents: Seq<u32>,
) -> bool {
    &&& plan.leaves(machine, memory)[output] == contents
    &&& forall|other: BufferId|
        other != output ==> #[trigger] plan.leaves(machine, memory)[other] == memory[other]
}

/// An addition leaves the sums, in place or not.
pub proof fn vector_add_leaves(
    machine: Machine,
    family: Family,
    left: DeviceBuffer,
    right: DeviceBuffer,
    output: DeviceBuffer,
    memory: Memory,
)
    requires
        vector_add_plan(family, left, right, output).outcome is Ok,
        holds(memory, left),
        holds(memory, right),
        holds(memory, output),
    ensures
        leaves_only(
            awaited(vector_add_plan(family, left, right, output)),
            machine,
            memory,
            output.id,
            Seq::new(
                output.len as nat,
                |at: int| (machine.add)(memory[left.id][at], memory[right.id][at]),
            ),
        ),
{
    broadcast use crate::machine::group_execution;

    assert(awaited(vector_add_plan(family, left, right, output)).leaves(machine, memory)[
        output.id
    ] =~= Seq::new(
        output.len as nat,
        |at: int| (machine.add)(memory[left.id][at], memory[right.id][at]),
    ));
}

/// A scaling leaves the products, in place or not.
pub proof fn scale_leaves(
    machine: Machine,
    family: Family,
    input: DeviceBuffer,
    output: DeviceBuffer,
    scale: F32,
    memory: Memory,
)
    requires
        scale_plan(family, input, output, scale).outcome is Ok,
        holds(memory, input),
        holds(memory, output),
    ensures
        leaves_only(
            awaited(scale_plan(family, input, output, scale)),
            machine,
            memory,
            output.id,
            Seq::new(
                output.len as nat,
                |at: int| (machine.multiply)(memory[input.id][at], scale.bits),
            ),
        ),
{
    broadcast use crate::machine::group_execution;

    assert(awaited(scale_plan(family, input, output, scale)).leaves(machine, memory)[output.id]
        =~= Seq::new(
        output.len as nat,
        |at: int| (machine.multiply)(memory[input.id][at], scale.bits),
    ));
}

/// An affine transformation leaves one fused product and sum for each element,
/// in place or not.
pub proof fn affine_leaves(
    machine: Machine,
    family: Family,
    input: DeviceBuffer,
    output: DeviceBuffer,
    scale: F32,
    bias: F32,
    memory: Memory,
)
    requires
        affine_plan(family, input, output, scale, bias).outcome is Ok,
        holds(memory, input),
        holds(memory, output),
    ensures
        leaves_only(
            awaited(affine_plan(family, input, output, scale, bias)),
            machine,
            memory,
            output.id,
            Seq::new(
                output.len as nat,
                |at: int| (machine.fused)(memory[input.id][at], scale.bits, bias.bits),
            ),
        ),
{
    broadcast use crate::machine::group_execution;

    assert(awaited(affine_plan(family, input, output, scale, bias)).leaves(machine, memory)[
        output.id
    ] =~= Seq::new(
        output.len as nat,
        |at: int| (machine.fused)(memory[input.id][at], scale.bits, bias.bits),
    ));
}

/// A packed-bf16 addition widens, adds in `f32` and narrows once.
pub proof fn bf16_vector_add_leaves(
    machine: Machine,
    family: Family,
    left: DeviceBuffer,
    right: DeviceBuffer,
    output: DeviceBuffer,
    memory: Memory,
)
    requires
        bf16_vector_add_plan(family, left, right, output).outcome is Ok,
        holds(memory, left),
        holds(memory, right),
        holds(memory, output),
    ensures
        leaves_only(
            awaited(bf16_vector_add_plan(family, left, right, output)),
            machine,
            memory,
            output.id,
            Seq::new(
                output.len as nat,
                |at: int|
                    narrow(
                        (machine.add)(widen(memory[left.id][at]), widen(memory[right.id][at])),
                    ),
            ),
        ),
{
    broadcast use crate::machine::group_execution;

    assert(awaited(bf16_vector_add_plan(family, left, right, output)).leaves(machine, memory)[
        output.id
    ] =~= Seq::new(
        output.len as nat,
        |at: int|
            narrow((machine.add)(widen(memory[left.id][at]), widen(memory[right.id][at]))),
    ));
}

/// Packed-bf16 scaling and affine transformation widen, compute in `f32` and
/// narrow once.
pub proof fn bf16_linear_leaves(
    machine: Machine,
    family: Family,
    input: DeviceBuffer,
    output: DeviceBuffer,
    scale: F32,
    bias: F32,
    memory: Memory,
)
    requires
        output.len == input.len,
        holds(memory, input),
        holds(memory, output),
    ensures
        bf16_scale_plan(family, input, output, scale).outcome is Ok,
        bf16_affine_plan(family, input, output, scale, bias).outcome is Ok,
        leaves_only(
            awaited(bf16_scale_plan(family, input, output, scale)),
            machine,
            memory,
            output.id,
            Seq::new(
                output.len as nat,
                |at: int| narrow((machine.multiply)(widen(memory[input.id][at]), scale.bits)),
            ),
        ),
        leaves_only(
            awaited(bf16_affine_plan(family, input, output, scale, bias)),
            machine,
            memory,
            output.id,
            Seq::new(
                output.len as nat,
                |at: int|
                    narrow((machine.fused)(widen(memory[input.id][at]), scale.bits, bias.bits)),
            ),
        ),
{
    broadcast use crate::machine::group_execution;

    assert(awaited(bf16_scale_plan(family, input, output, scale)).leaves(machine, memory)[
        output.id
    ] =~= Seq::new(
        output.len as nat,
        |at: int| narrow((machine.multiply)(widen(memory[input.id][at]), scale.bits)),
    ));
    assert(awaited(bf16_affine_plan(family, input, output, scale, bias)).leaves(machine, memory)[
        output.id
    ] =~= Seq::new(
        output.len as nat,
        |at: int| narrow((machine.fused)(widen(memory[input.id][at]), scale.bits, bias.bits)),
    ));
}

/// Packed-bf16 activations widen, activate in `f32` and narrow once.
pub proof fn bf16_activations_leave(
    machine: Machine,
    family: Family,
    input: DeviceBuffer,
    output: DeviceBuffer,
    memory: Memory,
)
    requires
        output.len == input.len,
        holds(memory, input),
        holds(memory, output),
    ensures
        leaves_only(
            awaited(unary_plan(Kernel::Bf16Relu, family, input, output)),
            machine,
            memory,
            output.id,
            Seq::new(
                output.len as nat,
                |at: int| narrow((machine.maximum)(widen(memory[input.id][at]), 0)),
            ),
        ),
        leaves_only(
            awaited(unary_plan(Kernel::Bf16Silu, family, input, output)),
            machine,
            memory,
            output.id,
            Seq::new(
                output.len as nat,
                |at: int| narrow((machine.silu)(widen(memory[input.id][at]))),
            ),
        ),
        leaves_only(
            awaited(unary_plan(Kernel::Bf16GeluTanh, family, input, output)),
            machine,
            memory,
            output.id,
            Seq::new(
                output.len as nat,
                |at: int| narrow((machine.gelu_tanh)(widen(memory[input.id][at]))),
            ),
        ),
{
    broadcast use crate::machine::group_execution;

    assert(awaited(unary_plan(Kernel::Bf16Relu, family, input, output)).leaves(machine, memory)[
        output.id
    ] =~= Seq::new(
        output.len as nat,
        |at: int| narrow((machine.maximum)(widen(memory[input.id][at]), 0)),
    ));
    assert(awaited(unary_plan(Kernel::Bf16Silu, family, input, output)).leaves(machine, memory)[
        output.id
    ] =~= Seq::new(
        output.len as nat,
        |at: int| narrow((machine.silu)(widen(memory[input.id][at]))),
    ));
    assert(awaited(unary_plan(Kernel::Bf16GeluTanh, family, input, output)).leaves(
        machine,
        memory,
    )[output.id] =~= Seq::new(
        output.len as nat,
        |at: int| narrow((machine.gelu_tanh)(widen(memory[input.id][at]))),
    ));
}

/// A matrix-vector product leaves the product of each row, and zeros where the
/// rows are empty.
pub proof fn gemv_leaves(
    machine: Machine,
    family: Family,
    stream: Stream,
    p: MatrixVector,
    memory: Memory,
)
    requires
        gemv_plan(family, stream, p).outcome is Ok,
        p.output.id != p.matrix.id,
        p.output.id != p.vector.id,
        holds(memory, p.matrix),
        holds(memory, p.vector),
        holds(memory, p.output),
    ensures
        leaves_only(
            gemv_plan(family, stream, p).synchronized(),
            machine,
            memory,
            p.output.id,
            Seq::new(
                p.rows as nat,
                |row: int|
                    if p.cols == 0 {
                        0
                    } else {
                        dot_row(
                            machine,
                            row_of(memory[p.matrix.id], row, p.cols as int),
                            memory[p.vector.id],
                            family.width as nat,
                        )
                    },
            ),
        ),
{
    broadcast use crate::machine::group_execution;

    assert(gemv_plan(family, stream, p).leaves(machine, memory)[p.output.id] =~= Seq::new(
        p.rows as nat,
        |row: int|
            if p.cols == 0 {
                0
            } else {
                dot_row(
                    machine,
                    row_of(memory[p.matrix.id], row, p.cols as int),
                    memory[p.vector.id],
                    family.width as nat,
                )
            },
    ));
}

/// A projection through packed-bf16 weights leaves, in each column, the chain
/// of fused products of the input and the widened weights, in order.
pub proof fn mixed_projection_leaves(
    machine: Machine,
    family: Family,
    stream: Stream,
    p: MixedProjection,
    memory: Memory,
)
    requires
        mixed_plan(family, stream, p).outcome is Ok,
        p.output.id != p.input.id,
        p.output.id != p.weight.id,
        holds(memory, p.input),
        holds(memory, p.weight),
        holds(memory, p.output),
    ensures
        leaves_only(
            mixed_plan(family, stream, p).synchronized(),
            machine,
            memory,
            p.output.id,
            Seq::new(
                p.n as nat,
                |column: int|
                    product_chain(
                        machine,
                        memory[p.input.id],
                        column_of(
                            widened(memory[p.weight.id]),
                            p.k as int,
                            p.n as int,
                            column,
                        ),
                        p.k as nat,
                    ),
            ),
        ),
{
    broadcast use crate::machine::group_execution;

    assert(mixed_plan(family, stream, p).leaves(machine, memory)[p.output.id] =~= Seq::new(
        p.n as nat,
        |column: int|
            product_chain(
                machine,
                memory[p.input.id],
                column_of(widened(memory[p.weight.id]), p.k as int, p.n as int, column),
                p.k as nat,
            ),
    ));
}

/// A projection through ternary weights leaves, in each column, the chain of
/// fused products of the input and the scaled weights, in order.
pub proof fn int2_projection_leaves(
    machine: Machine,
    family: Family,
    stream: Stream,
    p: Int2Projection,
    memory: Memory,
)
    requires
        int2_plan(family, stream, p).outcome is Ok,
        p.output.id != p.input.id,
        p.output.id != p.packed_weight.id,
        p.output.id != p.scale.id,
        holds(memory, p.input),
        holds(memory, p.packed_weight),
        holds(memory, p.scale),
        holds(memory, p.output),
    ensures
        leaves_only(
            int2_plan(family, stream, p).synchronized(),
            machine,
            memory,
            p.output.id,
            Seq::new(
                p.n as nat,
                |column: int|
                    product_chain(
                        machine,
                        memory[p.input.id],
                        ternary_column(
                            machine,
                            memory[p.packed_weight.id],
                            memory[p.scale.id][0],
                            p.k as int,
                            p.n as int,
                            column,
                        ),
                        p.k as nat,
                    ),
            ),
        ),
{
    broadcast use crate::machine::group_execution;

    assert(int2_plan(family, stream, p).leaves(machine, memory)[p.output.id] =~= Seq::new(
        p.n as nat,
        |column: int|
            product_chain(
                machine,
                memory[p.input.id],
                ternary_column(
                    machine,
                    memory[p.packed_weight.id],
                    memory[p.scale.id][0],
                    p.k as int,
                    p.n as int,
                    column,
                ),
                p.k as nat,
            ),
    ));
}

/// The column offsets of a sparse projection are in order, none past the
/// retained entries, and every retained entry has a row of the input.
pub open spec fn canonical(memory: Memory, p: SparseProjection) -> bool {
    let offsets = memory[p.column_offsets.id];
    &&& forall|column: int|
        0 <= column < p.n ==> #[trigger] long_at(offsets, column) <= long_at(offsets, column + 1)
            <= p.values.len
    &&& forall|at: int|
        0 <= at < p.values.len ==> #[trigger] memory[p.row_indices.id][at] < p.k
}

/// A projection through sparse columns leaves, in each column, the chain of
/// fused products of the input and the retained weights in stored order. A
/// column with malformed entries is left as not a number.
pub proof fn sparse_projection_leaves(
    machine: Machine,
    family: Family,
    stream: Stream,
    p: SparseProjection,
    memory: Memory,
)
    requires
        sparse_plan(family, stream, p).outcome is Ok,
        p.values.len > 0,
        p.output.id != p.input.id,
        p.output.id != p.column_offsets.id,
        p.output.id != p.row_indices.id,
        p.output.id != p.values.id,
        holds(memory, p.output),
    ensures
        leaves_only(
            sparse_plan(family, stream, p).synchronized(),
            machine,
            memory,
            p.output.id,
            Seq::new(
                p.n as nat,
                |column: int|
                    sparse_column(
                        machine,
                        memory[p.input.id],
                        memory[p.column_offsets.id],
                        memory[p.row_indices.id],
                        memory[p.values.id],
                        p.k as int,
                        p.values.len as int,
                        column,
                    ),
            ),
        ),
        is_nan(MALFORMED),
        canonical(memory, p) ==> forall|column: int|
            0 <= column < p.n ==> #[trigger] sparse_plan(family, stream, p).synchronized().leaves(
                machine,
                memory,
            )[p.output.id][column] == retained_chain(
                machine,
                memory[p.input.id],
                memory[p.row_indices.id],
                memory[p.values.id],
                long_at(memory[p.column_offsets.id], column),
                (long_at(memory[p.column_offsets.id], column + 1) - long_at(
                    memory[p.column_offsets.id],
                    column,
                )) as nat,
            ),
{
    broadcast use crate::machine::group_execution;

    assert(0x7FFF_FFFFu32 & 0x7FFF_FFFF > 0x7F80_0000) by (bit_vector);
    let after = sparse_plan(family, stream, p).leaves(machine, memory)[p.output.id];
    assert(after =~= Seq::new(
        p.n as nat,
        |column: int|
            sparse_column(
                machine,
                memory[p.input.id],
                memory[p.column_offsets.id],
                memory[p.row_indices.id],
                memory[p.values.id],
                p.k as int,
                p.values.len as int,
                column,
            ),
    ));
    if canonical(memory, p) {
        let offsets = memory[p.column_offsets.id];
        assert forall|column: int| 0 <= column < p.n implies #[trigger] after[column]
            == retained_chain(
            machine,
            memory[p.input.id],
            memory[p.row_indices.id],
            memory[p.values.id],
            long_at(offsets, column),
            (long_at(offsets, column + 1) - long_at(offsets, column)) as nat,
        ) by {
            assert(0 <= long_at(offsets, column) <= long_at(offsets, column + 1));
        }
    }
}

/// A projection through sparse columns without retained weights leaves zeros.
pub proof fn empty_sparse_projection_leaves(
    machine: Machine,
    family: Family,
    stream: Stream,
    p: SparseProjection,
    memory: Memory,
)
    requires
        sparse_plan(family, stream, p).outcome is Ok,
        p.values.len == 0,
        holds(memory, p.output),
    ensures
        leaves_only(
            sparse_plan(family, stream, p).synchronized(),
            machine,
            memory,
            p.output.id,
            Seq::new(p.n as nat, |column: int| 0u32),
        ),
{
    broadcast use crate::machine::group_execution;

    assert(sparse_plan(family, stream, p).leaves(machine, memory)[p.output.id] =~= Seq::new(
        p.n as nat,
        |column: int| 0u32,
    ));
}

/// A rotation leaves every pair turned by its angle, adjacent elements or
/// those half a row apart, in place or not.
pub proof fn rotation_leaves(
    machine: Machine,
    kernel: Kernel,
    family: Family,
    stream: Stream,
    p: Rotation,
    memory: Memory,
)
    requires
        kernel == Kernel::RopeInterleaved || kernel == Kernel::RopeRotateHalf,
        rope_plan(kernel, family, stream, p).outcome is Ok,
        p.output.id != p.cos.id,
        p.output.id != p.sin.id,
        holds(memory, p.input),
        holds(memory, p.output),
    ensures
        leaves_only(
            rope_plan(kernel, family, stream, p).synchronized(),
            machine,
            memory,
            p.output.id,
            Seq::new(
                (p.rows * p.cols) as nat,
                |at: int|
                    rotated(
                        machine,
                        kernel,
                        p.cols as int / 2,
                        memory[p.input.id],
                        memory[p.cos.id],
                        memory[p.sin.id],
                        at,
                    ),
            ),
        ),
{
    broadcast use crate::machine::group_execution;

    let (rows, cols, half) = (p.rows as int, p.cols as int, p.cols as int / 2);
    let expected = Seq::new(
        (p.rows * p.cols) as nat,
        |at: int|
            rotated(
                machine,
                kernel,
                half,
                memory[p.input.id],
                memory[p.cos.id],
                memory[p.sin.id],
                at,
            ),
    );
    let plan = rope_plan(kernel, family, stream, p);
    if rows == 0 || cols == 0 {
        assert(rows * cols == 0) by (nonlinear_arith)
            requires
                rows == 0 || cols == 0,
        ;
    }
    assert(cols == 2 * half);
    assert forall|at: int| 0 <= at < rows * cols implies #[trigger] plan.leaves(machine, memory)[
        p.output.id
    ][at] == expected[at] by {
        element_place(at, rows, cols);
        let (row, column) = (at / cols, at % cols);
        let inner = if kernel == Kernel::RopeInterleaved {
            column / 2
        } else {
            column % half
        };
        assert(0 <= inner < half);
        assert(row * half + inner < rows * half) by (nonlinear_arith)
            requires
                0 <= row < rows,
                0 <= inner < half,
        ;
        assert(rotation_pair(kernel, half, at).0 == row * half + inner);
    }
    assert(plan.leaves(machine, memory)[p.output.id] =~= expected);
}

} // verus!
