//! What a kernel reads of its argument list.
//!
//! A kernel reads its parameters by position. Here each signature is written
//! down from the kernel's side, and the lists are shown to be read back as the
//! arguments that they were made of.

use crate::launch::{Argument, Arguments};
use vstd::prelude::*;

verus! {

/// What a kernel with the signature of `like` reads of a list.
pub open spec fn read_back(like: Arguments, list: Seq<Argument>) -> Arguments {
    match like {
        Arguments::Unary { .. } => Arguments::Unary {
            input: list[0]->Buffer_0,
            output: list[1]->Buffer_0,
            count: list[2]->U64_0,
        },
        Arguments::Binary { .. } => Arguments::Binary {
            left: list[0]->Buffer_0,
            right: list[1]->Buffer_0,
            output: list[2]->Buffer_0,
            count: list[3]->U64_0,
        },
        Arguments::Scale { .. } => Arguments::Scale {
            input: list[0]->Buffer_0,
            output: list[1]->Buffer_0,
            scale: list[2]->F32_0,
            count: list[3]->U64_0,
        },
        Arguments::Affine { .. } => Arguments::Affine {
            input: list[0]->Buffer_0,
            output: list[1]->Buffer_0,
            scale: list[2]->F32_0,
            bias: list[3]->F32_0,
            count: list[4]->U64_0,
        },
        Arguments::ExpShift { .. } => Arguments::ExpShift {
            input: list[0]->Buffer_0,
            output: list[1]->Buffer_0,
            maximum: list[2]->Buffer_0,
            count: list[3]->U64_0,
        },
        Arguments::Divide { .. } => Arguments::Divide {
            data: list[0]->Buffer_0,
            total: list[1]->Buffer_0,
            count: list[2]->U64_0,
        },
        Arguments::RowExpShift { .. } => Arguments::RowExpShift {
            input: list[0]->Buffer_0,
            output: list[1]->Buffer_0,
            row_max: list[2]->Buffer_0,
            rows: list[3]->U64_0,
            cols: list[4]->U64_0,
        },
        Arguments::RowDivide { .. } => Arguments::RowDivide {
            data: list[0]->Buffer_0,
            row_total: list[1]->Buffer_0,
            rows: list[2]->U64_0,
            cols: list[3]->U64_0,
        },
        Arguments::RmsNormalize { .. } => Arguments::RmsNormalize {
            input: list[0]->Buffer_0,
            output: list[1]->Buffer_0,
            row_sumsq: list[2]->Buffer_0,
            rows: list[3]->U64_0,
            cols: list[4]->U64_0,
            epsilon: list[6]->F32_0,
            gamma: list[7]->F32_0,
        },
        Arguments::RmsFused { .. } => Arguments::RmsFused {
            input: list[0]->Buffer_0,
            output: list[1]->Buffer_0,
            cols: list[2]->U64_0,
            epsilon: list[4]->F32_0,
            gamma: list[5]->F32_0,
        },
        Arguments::Product { .. } => Arguments::Product {
            matrix_a: list[0]->Buffer_0,
            matrix_b: list[1]->Buffer_0,
            output: list[2]->Buffer_0,
            m: list[3]->U64_0,
            n: list[4]->U64_0,
            k: list[5]->U64_0,
        },
        Arguments::BatchedProduct { .. } => Arguments::BatchedProduct {
            matrix_a: list[0]->Buffer_0,
            matrix_b: list[1]->Buffer_0,
            output: list[2]->Buffer_0,
            batches: list[3]->U32_0,
            m: list[4]->U64_0,
            n: list[5]->U64_0,
            k: list[6]->U64_0,
        },
        Arguments::MatrixVector { .. } => Arguments::MatrixVector {
            matrix: list[0]->Buffer_0,
            vector: list[1]->Buffer_0,
            output: list[2]->Buffer_0,
            cols: list[3]->U64_0,
        },
        Arguments::Attention { .. } => Arguments::Attention {
            queries: list[0]->Buffer_0,
            keys: list[1]->Buffer_0,
            values: list[2]->Buffer_0,
            output: list[3]->Buffer_0,
            query_rows: list[4]->U64_0,
            head_dim: list[5]->U64_0,
            kv_rows: list[6]->U64_0,
            value_dim: list[7]->U64_0,
            scale: list[8]->F32_0,
            causal: list[9]->U32_0,
        },
        Arguments::MultiheadAttention { .. } => Arguments::MultiheadAttention {
            queries: list[0]->Buffer_0,
            keys: list[1]->Buffer_0,
            values: list[2]->Buffer_0,
            output: list[3]->Buffer_0,
            heads: list[4]->U32_0,
            query_rows: list[5]->U64_0,
            head_dim: list[6]->U64_0,
            kv_rows: list[7]->U64_0,
            value_dim: list[8]->U64_0,
            scale: list[9]->F32_0,
            causal: list[10]->U32_0,
        },
        Arguments::ScaleCausal { .. } => Arguments::ScaleCausal {
            scores: list[0]->Buffer_0,
            output: list[1]->Buffer_0,
            query_rows: list[2]->U64_0,
            kv_rows: list[3]->U64_0,
            scale: list[4]->F32_0,
        },
        Arguments::MultiheadScaleCausal { .. } => Arguments::MultiheadScaleCausal {
            scores: list[0]->Buffer_0,
            output: list[1]->Buffer_0,
            elements: list[2]->U64_0,
            query_rows: list[3]->U64_0,
            kv_rows: list[4]->U64_0,
            scale: list[5]->F32_0,
        },
        Arguments::Rope { .. } => Arguments::Rope {
            input: list[0]->Buffer_0,
            cos: list[1]->Buffer_0,
            sin: list[2]->Buffer_0,
            output: list[3]->Buffer_0,
            rows: list[4]->U64_0,
            half: list[5]->U64_0,
        },
        Arguments::Project { .. } => Arguments::Project {
            input: list[0]->Buffer_0,
            weight: list[1]->Buffer_0,
            output: list[2]->Buffer_0,
            k: list[3]->U64_0,
            n: list[4]->U64_0,
        },
        Arguments::ProjectInt2 { .. } => Arguments::ProjectInt2 {
            input: list[0]->Buffer_0,
            packed_weight: list[1]->Buffer_0,
            weight_scale: list[2]->Buffer_0,
            output: list[3]->Buffer_0,
            k: list[4]->U64_0,
            n: list[5]->U64_0,
        },
        Arguments::ProjectSparseCsc { .. } => Arguments::ProjectSparseCsc {
            input: list[0]->Buffer_0,
            column_offsets: list[1]->Buffer_0,
            row_indices: list[2]->Buffer_0,
            values: list[3]->Buffer_0,
            output: list[4]->Buffer_0,
            k: list[5]->U64_0,
            n: list[6]->U64_0,
            nnz: list[7]->U64_0,
        },
        Arguments::MoveRows { .. } => Arguments::MoveRows {
            source: list[0]->Buffer_0,
            index: list[1]->Buffer_0,
            output: list[2]->Buffer_0,
            rows: list[3]->U64_0,
            cols: list[4]->U64_0,
            count: list[5]->U64_0,
        },
        Arguments::Candidates { .. } => Arguments::Candidates {
            input: list[0]->Buffer_0,
            weight: list[1]->Buffer_0,
            values: list[2]->Buffer_0,
            indices: list[3]->Buffer_0,
            k: list[4]->U64_0,
            vocab: list[5]->U64_0,
        },
        Arguments::ReduceCandidates { .. } => Arguments::ReduceCandidates {
            values: list[0]->Buffer_0,
            indices: list[1]->Buffer_0,
            output_value: list[2]->Buffer_0,
            output_index: list[3]->Buffer_0,
            count: list[4]->U64_0,
        },
        Arguments::ScanFirst { .. } => Arguments::ScanFirst {
            source_values: list[0]->At_0,
            output_values: list[1]->At_0,
            output_indices: list[2]->At_0,
            count: list[3]->U64_0,
        },
        Arguments::ScanPair { .. } => Arguments::ScanPair {
            source_values: list[0]->At_0,
            source_indices: list[1]->At_0,
            output_values: list[2]->At_0,
            output_indices: list[3]->At_0,
            count: list[4]->U64_0,
        },
        Arguments::Mask { .. } => Arguments::Mask {
            data: list[0]->Buffer_0,
            slot: list[1]->U64_0,
            indices: list[2]->Buffer_0,
        },
    }
}

/// How many parameters a kernel with the signature of `like` declares.
pub open spec fn arity(like: Arguments) -> nat {
    match like {
        Arguments::Unary { .. }
        | Arguments::Divide { .. }
        | Arguments::Mask { .. } => 3,
        Arguments::Binary { .. }
        | Arguments::Scale { .. }
        | Arguments::ExpShift { .. }
        | Arguments::RowDivide { .. }
        | Arguments::MatrixVector { .. }
        | Arguments::ScanFirst { .. } => 4,
        Arguments::Affine { .. }
        | Arguments::RowExpShift { .. }
        | Arguments::ScaleCausal { .. }
        | Arguments::Project { .. }
        | Arguments::ReduceCandidates { .. }
        | Arguments::ScanPair { .. } => 5,
        Arguments::RmsFused { .. }
        | Arguments::Product { .. }
        | Arguments::MultiheadScaleCausal { .. }
        | Arguments::Rope { .. }
        | Arguments::ProjectInt2 { .. }
        | Arguments::MoveRows { .. }
        | Arguments::Candidates { .. } => 6,
        Arguments::BatchedProduct { .. } => 7,
        Arguments::RmsNormalize { .. }
        | Arguments::ProjectSparseCsc { .. } => 8,
        Arguments::Attention { .. } => 10,
        Arguments::MultiheadAttention { .. } => 11,
    }
}

/// A kernel reads back the arguments that its list was made of, and the list
/// is as long as its signature. Where a mean is taken, the reciprocal of the
/// number of columns is passed beside it.
pub proof fn lists_are_read_back(arguments: Arguments)
    ensures
        read_back(arguments, arguments.list()) == arguments,
        arguments.list().len() == arity(arguments),
        arguments matches Arguments::RmsNormalize { cols, .. } ==> arguments.list()[5]
            == Argument::Reciprocal(cols),
        arguments matches Arguments::RmsFused { cols, .. } ==> arguments.list()[3]
            == Argument::Reciprocal(cols),
{
}

} // verus!
