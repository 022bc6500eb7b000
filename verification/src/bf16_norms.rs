//! Packed-bf16 row normalization through the `f32` families: exact widening
//! of the packed input, one dispatched `f32` normalization, and one narrowing
//! of the output, with a single wait at the end.

use crate::arith::fits;
use crate::bf16::{narrow_plan, widen_plan, Bf16Elementwise};
use crate::device::{BufferId, DeviceBuffer, Element, Scratch, Stream, F32};
use crate::error::{Checked, KernelError};
use crate::family::Family;
use crate::plan::{Action, Plan, PlanView};
use crate::rms_norm::{dispatch_normalizes_every_width, rms_submission_plan, F32RmsNorm};
use crate::rows::{FusedProbes, Rows};
use vstd::prelude::*;

verus! {

/// The row normalizations.
#[derive(Clone, Copy, Debug, PartialEq, Eq, Structural)]
pub enum NormKind {
    Rms,
    Layer,
}

impl NormKind {
    /// The name of the normalization in its refusals.
    pub open spec fn family(self) -> &'static str {
        match self {
            NormKind::Rms => "bf16 rms norm",
            NormKind::Layer => "bf16 layer norm",
        }
    }

    fn get_family(self) -> (family: &'static str)
        ensures
            family == self.family(),
    {
        match self {
            NormKind::Rms => "bf16 rms norm",
            NormKind::Layer => "bf16 layer norm",
        }
    }
}

/// The first rule that the operands break.
pub open spec fn norm_check(kind: NormKind, stream: Stream, r: Rows) -> Checked {
    if r.rows == 0 || r.cols == 0 {
        Err(KernelError::EmptyRows { family: kind.family(), rows: r.rows, cols: r.cols })
    } else if !fits(r.rows * r.cols) {
        Err(KernelError::Fixed("bf16 norm shape overflows usize"))
    } else if r.input.len != r.rows * r.cols || r.output.len != r.rows * r.cols {
        Err(
            KernelError::PairShape {
                family: kind.family(),
                operand: "buffers have",
                first: r.input.len,
                second: r.output.len,
                rows: r.rows,
                cols: r.cols,
                required: (r.rows * r.cols) as usize,
            },
        )
    } else if r.input.context != stream.context || r.output.context != stream.context {
        Err(
            KernelError::Rule {
                family: kind.family(),
                rule: "stream and buffers must share one context",
            },
        )
    } else {
        Ok(())
    }
}

/// The widened counterparts of packed operands.
pub open spec fn wide_rows(stream: Stream, r: Rows) -> Rows {
    let len = (r.rows * r.cols) as usize;
    Rows {
        input: DeviceBuffer {
            id: BufferId::Scratch(Scratch::WideInput),
            len,
            context: stream.context,
        },
        output: DeviceBuffer {
            id: BufferId::Scratch(Scratch::WideOutput),
            len,
            context: stream.context,
        },
        rows: r.rows,
        cols: r.cols,
    }
}

/// A normalization of the widened rows between an exact widening and one
/// narrowing, waited for once.
pub open spec fn norm_plan(
    kind: NormKind,
    conversions: Family,
    stream: Stream,
    r: Rows,
    normalize: PlanView,
) -> PlanView {
    let w = wide_rows(stream, r);
    PlanView::checked(norm_check(kind, stream, r)).followed_by(
        PlanView::one(Action::Allocate { buffer: w.input, element: Element::F32 }),
    ).followed_by(
        PlanView::one(Action::Allocate { buffer: w.output, element: Element::F32 }),
    ).followed_by(
        widen_plan(conversions, r.input, w.input).followed_by(normalize).followed_by(
            narrow_plan(conversions, w.output, r.output),
        ).synchronized(),
    )
}

/// The submission of an `f32` layer normalization.
pub open spec fn layer_submission_plan(r: Rows, epsilon: F32, gamma: F32, beta: F32) -> PlanView {
    PlanView::one(
        Action::LayerNormalize {
            input: r.input,
            output: r.output,
            rows: r.rows,
            cols: r.cols,
            epsilon,
            gamma,
            beta,
        },
    )
}

/// Checks the operands.
pub fn validate(kind: NormKind, stream: &Stream, r: &Rows) -> (check: Checked)
    ensures
        check == norm_check(kind, *stream, *r),
{
    if r.rows == 0 || r.cols == 0 {
        return Err(
            KernelError::EmptyRows { family: kind.get_family(), rows: r.rows, cols: r.cols },
        );
    }
    let expected: usize = match r.rows.checked_mul(r.cols) {
        Some(elements) => elements,
        None => {
            return Err(KernelError::Fixed("bf16 norm shape overflows usize"));
        },
    };
    if r.input.len != expected || r.output.len != expected {
        return Err(
            KernelError::PairShape {
                family: kind.get_family(),
                operand: "buffers have",
                first: r.input.len,
                second: r.output.len,
                rows: r.rows,
                cols: r.cols,
                required: expected,
            },
        );
    }
    if r.input.context != stream.context || r.output.context != stream.context {
        return Err(
            KernelError::Rule {
                family: kind.get_family(),
                rule: "stream and buffers must share one context",
            },
        );
    }
    Ok(())
}

/// The widened rows that a normalization of `r` works on, where `r` is
/// accepted.
fn widened_rows(kind: NormKind, stream: &Stream, r: &Rows) -> (wide: Result<Rows, KernelError>)
    ensures
        match wide {
            Ok(wide) => norm_check(kind, *stream, *r) is Ok && wide == wide_rows(*stream, *r),
            Err(error) => norm_check(kind, *stream, *r) == Checked::Err(error),
        },
{
    validate(kind, stream, r)?;
    let len: usize = r.rows * r.cols;
    Ok(
        Rows {
            input: DeviceBuffer {
                id: BufferId::Scratch(Scratch::WideInput),
                len,
                context: stream.context,
            },
            output: DeviceBuffer {
                id: BufferId::Scratch(Scratch::WideOutput),
                len,
                context: stream.context,
            },
            rows: r.rows,
            cols: r.cols,
        },
    )
}

fn plan_norm(
    conversions: &Bf16Elementwise,
    stream: &Stream,
    r: &Rows,
    w: &Rows,
    normalize: Plan,
) -> (plan: Plan)
    ensures
        plan@ == PlanView::one(
            Action::Allocate { buffer: w.input, element: Element::F32 },
        ).followed_by(
            PlanView::one(Action::Allocate { buffer: w.output, element: Element::F32 }),
        ).followed_by(
            widen_plan(conversions@, r.input, w.input).followed_by(normalize@).followed_by(
                narrow_plan(conversions@, w.output, r.output),
            ).synchronized(),
        ),
{
    Plan::one(Action::Allocate { buffer: w.input, element: Element::F32 }).followed_by(
        Plan::one(Action::Allocate { buffer: w.output, element: Element::F32 }),
    ).followed_by(
        conversions.enqueue_widen(stream, &r.input, &w.input).followed_by(normalize).followed_by(
            conversions.enqueue_narrow(stream, &w.output, &r.output),
        ).synchronized(),
    )
}

/// Plans the RMS normalization of packed-bf16 rows with one wait.
pub fn bf16_rms_normalize_rows_dispatched(
    conversions: &Bf16Elementwise,
    rms_norm: &F32RmsNorm,
    stream: &Stream,
    input: &DeviceBuffer,
    output: &DeviceBuffer,
    rows: usize,
    cols: usize,
    epsilon: F32,
    gamma: F32,
    probes: &FusedProbes,
) -> (plan: Plan)
    ensures
        plan@ == norm_plan(
            NormKind::Rms,
            conversions@,
            *stream,
            Rows { input: *input, output: *output, rows, cols },
            rms_submission_plan(
                rms_norm@,
                *stream,
                wide_rows(*stream, Rows { input: *input, output: *output, rows, cols }),
                epsilon,
                gamma,
                *probes,
            ),
        ),
{
    let r = &Rows { input: *input, output: *output, rows, cols };
    match widened_rows(NormKind::Rms, stream, r) {
        Err(error) => Plan::rejected(error),
        Ok(w) => {
            let normalize = rms_norm.enqueue_rows_dispatched(
                stream,
                &w.input,
                &w.output,
                w.rows,
                w.cols,
                epsilon,
                gamma,
                probes,
            );
            plan_norm(conversions, stream, r, &w, normalize)
        },
    }
}

/// Plans the layer normalization of packed-bf16 rows with one wait. The `f32`
/// layer normalization itself is not one of this library's kernels: the plan
/// says which rows it is run on, and with what.
pub fn bf16_layer_normalize_rows_dispatched(
    conversions: &Bf16Elementwise,
    stream: &Stream,
    input: &DeviceBuffer,
    output: &DeviceBuffer,
    rows: usize,
    cols: usize,
    epsilon: F32,
    gamma: F32,
    beta: F32,
) -> (plan: Plan)
    ensures
        plan@ == norm_plan(
            NormKind::Layer,
            conversions@,
            *stream,
            Rows { input: *input, output: *output, rows, cols },
            layer_submission_plan(
                wide_rows(*stream, Rows { input: *input, output: *output, rows, cols }),
                epsilon,
                gamma,
                beta,
            ),
        ),
{
    let r = &Rows { input: *input, output: *output, rows, cols };
    match widened_rows(NormKind::Layer, stream, r) {
        Err(error) => Plan::rejected(error),
        Ok(w) => {
            let normalize = Plan::one(
                Action::LayerNormalize {
                    input: w.input,
                    output: w.output,
                    rows,
                    cols,
                    epsilon,
                    gamma,
                    beta,
                },
            );
            plan_norm(conversions, stream, r, &w, normalize)
        },
    }
}

/// A refused packed-bf16 normalization allocates and submits nothing.
pub proof fn refused_norm_does_nothing(
    kind: NormKind,
    conversions: Family,
    stream: Stream,
    r: Rows,
    normalize: PlanView,
)
    requires
        norm_check(kind, stream, r) is Err,
    ensures
        norm_plan(kind, conversions, stream, r, normalize).outcome is Err,
        norm_plan(kind, conversions, stream, r, normalize).steps.len() == 0,
{
}

/// The stages of both normalizations fit together: once the operands are
/// accepted, with the RMS family in the stream's context, no stage refuses
/// what the stage before it hands over.
pub proof fn norm_stages_fit_together(
    conversions: Family,
    rms_norm: Family,
    stream: Stream,
    r: Rows,
    epsilon: F32,
    gamma: F32,
    beta: F32,
    probes: FusedProbes,
)
    requires
        norm_check(NormKind::Rms, stream, r) is Ok,
        rms_norm.context == stream.context,
        r.rows <= u32::MAX,
        probes.fused == probes.available,
    ensures
        norm_plan(
            NormKind::Rms,
            conversions,
            stream,
            r,
            rms_submission_plan(rms_norm, stream, wide_rows(stream, r), epsilon, gamma, probes),
        ).outcome is Ok,
        norm_plan(
            NormKind::Layer,
            conversions,
            stream,
            r,
            layer_submission_plan(wide_rows(stream, r), epsilon, gamma, beta),
        ).outcome is Ok,
{
    dispatch_normalizes_every_width(
        rms_norm,
        stream,
        wide_rows(stream, r),
        epsilon,
        gamma,
        probes,
    );
}

} // verus!
