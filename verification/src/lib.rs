//! Launch planning for inference kernels: validation, launch geometry and
//! multi-pass scheduling, as verified functions on plain values.

pub mod acceptance;
pub mod arith;
pub mod attention;
pub mod attention_results;
pub mod bf16;
pub mod bf16_attention;
pub mod bf16_gemm;
pub mod bf16_norms;
pub mod bf16_reduction;
pub mod bitwise;
pub mod bitwise_composed;
pub mod bitwise_heads;
pub mod bitwise_rows;
pub mod block_widths;
pub mod conformance;
pub mod device;
pub mod early_refusals;
pub mod elementwise;
pub mod error;
pub mod extents;
pub mod family;
pub mod gather;
pub mod gemm;
pub mod gemv;
pub mod grounding;
pub mod heads;
pub mod int2_weight_gemv;
pub mod launch;
pub mod lm_head_argmax;
pub mod load_refusals;
pub mod loading;
pub mod machine;
pub mod mixed_weight_gemv;
pub mod plan;
pub mod product;
pub mod reduction;
pub mod refusals;
pub mod results;
pub mod rms_norm;
pub mod rope;
pub mod row_moves;
pub mod row_softmax;
pub mod rows;
pub mod scatter;
pub mod scratch;
pub mod selection;
pub mod settling;
pub mod signatures;
pub mod softmax;
pub mod sparse_csc_gemv;
pub mod symbols;
pub mod text;
pub mod top_k;
pub mod tree;
pub mod tree_results;
pub mod waiting;
pub mod wording;
pub mod workspaces;

pub use attention::{AttentionProbes, F32Attention};
pub use bf16::{Bf16Elementwise, Bf16Probes};
pub use bf16_attention::Bf16Attention;
pub use bf16_gemm::{Bf16Gemm, Bf16GemmProbes};
pub use bf16_norms::{
    bf16_layer_normalize_rows_dispatched, bf16_rms_normalize_rows_dispatched, NormKind,
};
pub use bf16_reduction::{Bf16Reduction, Bf16ReductionProbes, Bf16ReductionWorkspace};
pub use device::{
    BufferId, ContextId, DeviceBuffer, DeviceFailure, Element, F32, KernelAttributes, Probe,
    Scratch, Stream,
};
pub use elementwise::{
    ElementwiseProbes, F32Elementwise, F32ElementwiseActiveBlocks, F32ElementwiseOccupancy,
};
pub use error::{Checked, KernelError};
pub use gather::{Bf16Gather, F32Gather, Lookup};
pub use gemm::{F32Gemm, GemmProbes};
pub use gemv::{F32Gemv, MatrixVector};
pub use heads::{AttentionMask, HeadKind, Heads};
pub use int2_weight_gemv::{F32Int2Gemv, Int2Projection};
pub use launch::{Argument, Arguments, Dim3, Kernel, Launch, Pointer, Shape};
pub use lm_head_argmax::{
    ArgmaxProjection, CandidateWorkspace, F32LmHeadArgmax, F32LmHeadArgmaxWorkspace, LmHeadProbes,
};
pub use mixed_weight_gemv::{F32Bf16Gemv, MixedProjection};
pub use plan::{Action, Plan, PlanView, Step};
pub use product::{Product, ProductKind};
pub use reduction::{F32Reduction, F32ReductionWorkspace, Scalar, ScalarPlan, TreeWorkspace};
pub use rms_norm::{F32RmsNorm, F32RmsNormWorkspace, RmsNormProbes};
pub use rope::{F32Rope, RopeProbes, Rotation};
pub use row_softmax::{F32Softmax2D, F32Softmax2DWorkspace, RowSoftmaxProbes};
pub use rows::{FusedProbes, RowWorkspace, Rows};
pub use scatter::{Bf16Scatter, F32Scatter, Placement};
pub use softmax::{F32Softmax, SoftmaxOperands, SoftmaxProbes};
pub use sparse_csc_gemv::{F32SparseCscGemv, SparseProjection};
pub use top_k::{
    F32TopK, F32TopKWorkspace, Selection, SelectionBuffers, SelectionWorkspace, TopKProbes,
};
