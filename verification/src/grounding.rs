//! Every call refers to memory that is there.
//!
//! A plan names memory of the caller and scratch that it allocates itself. An
//! operation given memory of the caller only never refers to scratch that it
//! has not allocated before.

use crate::attention::{
    composed_check, composed_multihead_plan, composed_multihead_stages, composed_plan,
    composed_stages, multihead_scale_causal_plan, packed_scores_check, scale_causal_plan,
    score_buffer, score_product, value_product, ComposedFamilies,
};
use crate::bf16::{narrow_plan, widen_plan};
use crate::bf16_attention::{
    bf16_composed_multihead_plan, bf16_composed_plan, quantized_plan, quantized_stages,
    scores_check, wide, wide_heads, widening, QuantizedFamilies,
};
use crate::bf16_norms::{layer_submission_plan, norm_check, norm_plan, wide_rows, NormKind};
use crate::bf16_reduction::bf16_max_plan;
use crate::device::{BufferId, ContextId, DeviceBuffer, Element, Scratch, Stream, F32};
use crate::elementwise::{awaited, scale_plan};
use crate::error::Checked;
use crate::family::Family;
use crate::gemm::batched_plan;
use crate::heads::{causal_check, head_check, multihead_check, AttentionMask, HeadKind, Heads};
use crate::launch::Argument;
use crate::plan::{Action, PlanView, Step};
use crate::product::{product_plan, ProductKind};
use crate::reduction::{
    own_workspace, passes_plan, reduction_plan, scalar_output, scalar_plan, workspace_allocation,
    workspace_check, ReductionInput, ReductionOp, TreeWorkspace,
};
use crate::rms_norm::{fused_rms_plan, rms_dispatch_plan, rms_rows_plan, rms_submission_plan};
use crate::row_softmax::{fused_softmax_plan, softmax_dispatch_plan, softmax_rows_plan};
use crate::rows::{
    row_allocation, row_workspace_check, row_workspace_for, FusedProbes, RowKind, Rows,
};
use crate::softmax::{
    own_scalars, own_tree, softmax_alone_plan, softmax_into_plan, softmax_plan,
    softmax_pooled_plan, SoftmaxOperands, SoftmaxView,
};
use crate::top_k::{
    own_buffers, own_selection_plan, round_plan, rounds_plan, selection_allocation, selection_plan,
    selection_workspace_check, selection_workspace_for, Selection, SelectionWorkspace,
};
use crate::tree::{schedule, TreePass};
use vstd::prelude::*;

verus! {

/// Whether a buffer is there: memory of the caller, or scratch among `have`.
pub open spec fn at_hand(buffer: BufferId, have: Set<BufferId>) -> bool {
    buffer is Operand || have.contains(buffer)
}

/// Whether an argument refers only to memory that is there.
pub open spec fn argument_grounded(argument: Argument, have: Set<BufferId>) -> bool {
    match argument {
        Argument::Buffer(buffer) => at_hand(buffer, have),
        Argument::At(place) => at_hand(place.buffer, have),
        _ => true,
    }
}

/// Whether a call refers only to memory that is there.
pub open spec fn action_grounded(action: Action, have: Set<BufferId>) -> bool {
    match action {
        Action::Launch(launch) => {
            forall|i: int|
                0 <= i < launch.arguments.list().len() ==> argument_grounded(
                    #[trigger] launch.arguments.list()[i],
                    have,
                )
        },
        Action::Zero(buffer) => at_hand(buffer, have),
        Action::LayerNormalize { input, output, .. } => {
            at_hand(input.id, have) && at_hand(output.id, have)
        },
        _ => true,
    }
}

/// The scratch that the steps allocate.
pub open spec fn provided(steps: Seq<Step>) -> Set<BufferId>
    decreases steps.len(),
{
    if steps.len() == 0 {
        Set::empty()
    } else {
        let before = provided(steps.drop_last());
        match steps.last().action {
            Action::Allocate { buffer, .. } => before.insert(buffer.id),
            Action::AllocatePooled { buffer, .. } => before.insert(buffer.id),
            _ => before,
        }
    }
}

impl PlanView {
    /// The scratch that the plan allocates.
    pub open spec fn provides(self) -> Set<BufferId> {
        provided(self.steps)
    }

    /// Every call refers only to memory of the caller, to scratch among
    /// `have`, and to scratch that a call before it has allocated.
    pub open spec fn grounded(self, have: Set<BufferId>) -> bool {
        forall|n: int|
            0 <= n < self.steps.len() ==> action_grounded(
                (#[trigger] self.steps[n]).action,
                have.union(provided(self.steps.take(n))),
            )
    }

    /// Every call refers only to memory of the caller and to scratch among
    /// `have`.
    pub open spec fn stays_within(self, have: Set<BufferId>) -> bool {
        forall|n: int|
            0 <= n < self.steps.len() ==> action_grounded((#[trigger] self.steps[n]).action, have)
    }
}

proof fn grounded_grows(action: Action, have: Set<BufferId>, more: Set<BufferId>)
    requires
        action_grounded(action, have),
        have.subset_of(more),
    ensures
        action_grounded(action, more),
{
    if let Action::Launch(launch) = action {
        assert forall|i: int| 0 <= i < launch.arguments.list().len() implies argument_grounded(
            #[trigger] launch.arguments.list()[i],
            more,
        ) by {
            assert(argument_grounded(launch.arguments.list()[i], have));
        }
    }
}

proof fn provided_extends(steps: Seq<Step>, more: Seq<Step>)
    ensures
        provided(steps + more) == provided(steps).union(provided(more)),
    decreases more.len(),
{
    if more.len() == 0 {
        assert(steps + more =~= steps);
        assert(provided(steps).union(provided(more)) =~= provided(steps));
    } else {
        provided_extends(steps, more.drop_last());
        assert((steps + more).drop_last() =~= steps + more.drop_last());
        assert((steps + more).last() == more.last());
        assert(provided(steps + more) =~= provided(steps).union(provided(more)));
    }
}

proof fn provided_of_same_calls(a: Seq<Step>, b: Seq<Step>)
    requires
        a.len() == b.len(),
        forall|n: int| 0 <= n < a.len() ==> (#[trigger] a[n]).action == b[n].action,
    ensures
        provided(a) == provided(b),
    decreases a.len(),
{
    if a.len() > 0 {
        assert forall|n: int| 0 <= n < a.drop_last().len() implies (
        #[trigger] a.drop_last()[n]).action == b.drop_last()[n].action by {
            assert(a[n].action == b[n].action);
        }
        provided_of_same_calls(a.drop_last(), b.drop_last());
        assert(a[a.len() - 1].action == b[b.len() - 1].action);
    }
}

/// A composition provides what its parts provide.
broadcast proof fn composition_provides(a: PlanView, b: PlanView)
    ensures
        #[trigger] a.followed_by(b).provides() == (if a.outcome is Err {
            a.provides()
        } else {
            a.provides().union(b.provides())
        }),
{
    provided_extends(a.steps, b.steps);
}

broadcast proof fn call_provides(action: Action)
    ensures
        #[trigger] PlanView::one(action).provides() == (match action {
            Action::Allocate { buffer, .. } => Set::empty().insert(buffer.id),
            Action::AllocatePooled { buffer, .. } => Set::empty().insert(buffer.id),
            _ => Set::empty(),
        }),
{
    reveal_with_fuel(provided, 2);
    assert(PlanView::one(action).steps.drop_last() =~= Seq::<Step>::empty());
}

/// What stays within what is at hand is grounded.
proof fn confined_is_grounded(a: PlanView, have: Set<BufferId>)
    requires
        a.stays_within(have),
    ensures
        a.grounded(have),
{
    assert forall|n: int| 0 <= n < a.steps.len() implies action_grounded(
        (#[trigger] a.steps[n]).action,
        have.union(provided(a.steps.take(n))),
    ) by {
        grounded_grows(a.steps[n].action, have, have.union(provided(a.steps.take(n))));
    }
}

/// A plan is grounded after another whose scratch it may use.
proof fn composition_is_grounded(a: PlanView, b: PlanView, have: Set<BufferId>)
    requires
        a.grounded(have),
        a.outcome is Ok ==> b.grounded(have.union(a.provides())),
    ensures
        a.followed_by(b).grounded(have),
{
    if a.outcome is Ok {
        let whole = a.followed_by(b);
        let count = a.steps.len() as int;
        assert forall|n: int| 0 <= n < whole.steps.len() implies action_grounded(
            (#[trigger] whole.steps[n]).action,
            have.union(provided(whole.steps.take(n))),
        ) by {
            if n < count {
                assert(whole.steps[n] == a.steps[n]);
                assert(whole.steps.take(n) =~= a.steps.take(n));
            } else {
                assert(whole.steps[n] == b.steps[n - count]);
                assert(whole.steps.take(n) =~= a.steps + b.steps.take(n - count));
                provided_extends(a.steps, b.steps.take(n - count));
                assert(have.union(a.provides()).union(provided(b.steps.take(n - count)))
                    =~= have.union(provided(whole.steps.take(n))));
            }
        }
    }
}

broadcast proof fn composition_stays_within(a: PlanView, b: PlanView, have: Set<BufferId>)
    requires
        a.stays_within(have),
        b.stays_within(have),
    ensures
        #[trigger] a.followed_by(b).stays_within(have),
{
    let whole = a.followed_by(b);
    assert forall|n: int| 0 <= n < whole.steps.len() implies action_grounded(
        (#[trigger] whole.steps[n]).action,
        have,
    ) by {
        if n < a.steps.len() {
            assert(whole.steps[n] == a.steps[n]);
        } else {
            assert(whole.steps[n] == b.steps[n - a.steps.len()]);
        }
    }
}

broadcast proof fn synchronization_stays_within(a: PlanView, have: Set<BufferId>)
    requires
        a.stays_within(have),
    ensures
        #[trigger] a.synchronized().stays_within(have),
{
    let whole = a.synchronized();
    assert forall|n: int| 0 <= n < whole.steps.len() implies action_grounded(
        (#[trigger] whole.steps[n]).action,
        have,
    ) by {
        if n < a.steps.len() {
            assert(whole.steps[n].action == a.steps[n].action);
        }
    }
}

proof fn grounding_grows(a: PlanView, have: Set<BufferId>, more: Set<BufferId>)
    requires
        a.grounded(have),
        have.subset_of(more),
    ensures
        a.grounded(more),
{
    assert forall|n: int| 0 <= n < a.steps.len() implies action_grounded(
        (#[trigger] a.steps[n]).action,
        more.union(provided(a.steps.take(n))),
    ) by {
        let before = provided(a.steps.take(n));
        grounded_grows(a.steps[n].action, have.union(before), more.union(before));
    }
}

/// A plan may be followed by one that needs no more than `at`, where the first
/// leaves at least that behind.
proof fn extends_grounded(a: PlanView, b: PlanView, have: Set<BufferId>, at: Set<BufferId>)
    requires
        a.grounded(have),
        a.outcome is Ok ==> at.subset_of(have.union(a.provides())),
        b.grounded(at),
    ensures
        a.followed_by(b).grounded(have),
        a.followed_by(b).outcome is Ok ==> at.subset_of(
            have.union(a.followed_by(b).provides()),
        ),
{
    composition_provides(a, b);
    if a.outcome is Ok {
        grounding_grows(b, at, have.union(a.provides()));
    }
    composition_is_grounded(a, b, have);
}

proof fn synchronization_is_grounded(a: PlanView, have: Set<BufferId>)
    requires
        a.grounded(have),
    ensures
        a.synchronized().grounded(have),
{
    let whole = a.synchronized();
    assert forall|n: int| 0 <= n < whole.steps.len() implies action_grounded(
        (#[trigger] whole.steps[n]).action,
        have.union(provided(whole.steps.take(n))),
    ) by {
        if n < a.steps.len() {
            assert(whole.steps[n].action == a.steps[n].action);
            provided_of_same_calls(whole.steps.take(n), a.steps.take(n));
        }
    }
}

proof fn guard_is_grounded(a: PlanView, have: Set<BufferId>)
    requires
        a.grounded(have),
    ensures
        a.guarded().grounded(have),
{
    let whole = a.guarded();
    assert forall|n: int| 0 <= n < whole.steps.len() implies action_grounded(
        (#[trigger] whole.steps[n]).action,
        have.union(provided(whole.steps.take(n))),
    ) by {
        if n < a.steps.len() {
            assert(whole.steps[n].action == a.steps[n].action);
            provided_of_same_calls(whole.steps.take(n), a.steps.take(n));
        }
    }
}

broadcast group group_grounding {
    composition_stays_within,
    synchronization_stays_within,
    composition_provides,
    call_provides,
}

proof fn passes_stay_within(
    kind: ReductionInput,
    op: ReductionOp,
    width: u32,
    input: BufferId,
    output: BufferId,
    workspace: TreeWorkspace,
    passes: Seq<TreePass>,
    have: Set<BufferId>,
)
    requires
        at_hand(input, have),
        at_hand(output, have),
        at_hand(workspace.scratch_a.id, have),
        at_hand(workspace.scratch_b.id, have),
    ensures
        passes_plan(kind, op, width, input, output, workspace, passes).stays_within(have),
    decreases passes.len(),
{
    broadcast use group_grounding;

    if passes.len() > 0 {
        passes_stay_within(kind, op, width, input, output, workspace, passes.drop_last(), have);
    }
}

proof fn reduction_stays_within(
    kind: ReductionInput,
    op: ReductionOp,
    family: Family,
    stream: Stream,
    input: DeviceBuffer,
    output: DeviceBuffer,
    workspace: TreeWorkspace,
    have: Set<BufferId>,
)
    requires
        at_hand(input.id, have),
        at_hand(output.id, have),
        at_hand(workspace.scratch_a.id, have),
        at_hand(workspace.scratch_b.id, have),
    ensures
        reduction_plan(kind, op, family, stream, input, output, workspace).stays_within(have),
{
    broadcast use group_grounding;

    passes_stay_within(
        kind,
        op,
        family.width,
        input.id,
        output.id,
        workspace,
        schedule(input.len, family.width),
        have,
    );
}

proof fn softmax_stays_within(
    softmax: SoftmaxView,
    stream: Stream,
    o: SoftmaxOperands,
    workspace: TreeWorkspace,
    have: Set<BufferId>,
)
    requires
        at_hand(o.input.id, have),
        at_hand(o.output.id, have),
        at_hand(o.max_scratch.id, have),
        at_hand(o.sum_scratch.id, have),
        at_hand(workspace.scratch_a.id, have),
        at_hand(workspace.scratch_b.id, have),
    ensures
        softmax_plan(softmax, stream, o, workspace).stays_within(have),
{
    broadcast use group_grounding;

    reduction_stays_within(
        ReductionInput::F32,
        ReductionOp::Max,
        softmax.reduction,
        stream,
        o.input,
        o.max_scratch,
        workspace,
        have,
    );
    reduction_stays_within(
        ReductionInput::F32,
        ReductionOp::Sum,
        softmax.reduction,
        stream,
        o.output,
        o.sum_scratch,
        workspace,
        have,
    );
}

/// Reductions to a host scalar refer only to memory that is there.
pub proof fn scalar_reductions_are_grounded(
    kind: ReductionInput,
    op: ReductionOp,
    family: Family,
    stream: Stream,
    input: DeviceBuffer,
)
    requires
        input.id is Operand,
    ensures
        scalar_plan(kind, op, family, stream, input).grounded(Set::empty()),
        bf16_max_plan(family, stream, input).grounded(Set::empty()),
{
    scalar_reduction_is_grounded(kind, op, family, stream, input);
    scalar_reduction_is_grounded(
        ReductionInput::Bf16,
        ReductionOp::Max,
        family,
        stream,
        input,
    );
}

proof fn scalar_reduction_is_grounded(
    kind: ReductionInput,
    op: ReductionOp,
    family: Family,
    stream: Stream,
    input: DeviceBuffer,
)
    requires
        input.id is Operand,
    ensures
        scalar_plan(kind, op, family, stream, input).grounded(Set::empty()),
{
    broadcast use group_grounding;

    let none = Set::<BufferId>::empty();
    let workspace = own_workspace(family, input);
    let output = scalar_output(input.context);
    let at = set![workspace.scratch_a.id, workspace.scratch_b.id, output.id];
    let prepared = PlanView::checked(workspace_check(kind, family, input.context)).followed_by(
        workspace_allocation(workspace),
    ).followed_by(PlanView::one(Action::Allocate { buffer: output, element: Element::F32 }));
    assert(prepared.stays_within(none));
    confined_is_grounded(prepared, none);
    let work = reduction_plan(kind, op, family, stream, input, output, workspace);
    reduction_stays_within(kind, op, family, stream, input, output, workspace, at);
    confined_is_grounded(work.synchronized(), at);
    extends_grounded(prepared, work.synchronized(), none, at);
}

/// Whole-vector softmax refers only to memory that is there, wherever its
/// scratch comes from.
pub proof fn softmax_is_grounded(
    softmax: SoftmaxView,
    context: ContextId,
    stream: Stream,
    input: DeviceBuffer,
    output: DeviceBuffer,
    workspace: TreeWorkspace,
)
    requires
        input.id is Operand,
        output.id is Operand,
        workspace.scratch_a.id is Operand,
        workspace.scratch_b.id is Operand,
    ensures
        softmax_into_plan(softmax, stream, input, output, workspace).grounded(Set::empty()),
        softmax_alone_plan(softmax, context, stream, input, output).grounded(Set::empty()),
        softmax_pooled_plan(softmax, context, stream, input, output).grounded(Set::empty()),
{
    broadcast use group_grounding;

    let none = Set::<BufferId>::empty();
    softmax_into_is_grounded(softmax, stream, input, output, workspace, none);

    let own = own_tree(softmax.reduction, context, input.len);
    let tree = set![own.scratch_a.id, own.scratch_b.id];
    let checked = PlanView::checked(
        workspace_check(ReductionInput::F32, softmax.reduction, context),
    );
    let prepared = checked.followed_by(workspace_allocation(own));
    assert(prepared.stays_within(none));
    confined_is_grounded(prepared, none);
    softmax_into_is_grounded(softmax, stream, input, output, own, tree);
    extends_grounded(
        prepared,
        softmax_into_plan(softmax, stream, input, output, own),
        none,
        tree,
    );

    let o = own_scalars(context, input, output);
    let at = set![own.scratch_a.id, own.scratch_b.id, o.max_scratch.id, o.sum_scratch.id];
    let pooled = checked.followed_by(
        PlanView::one(Action::AllocatePooled { buffer: own.scratch_a, element: Element::F32 }),
    ).followed_by(
        PlanView::one(Action::AllocatePooled { buffer: own.scratch_b, element: Element::F32 }),
    ).followed_by(
        PlanView::one(Action::AllocatePooled { buffer: o.max_scratch, element: Element::F32 }),
    ).followed_by(
        PlanView::one(Action::AllocatePooled { buffer: o.sum_scratch, element: Element::F32 }),
    );
    assert(pooled.stays_within(none));
    confined_is_grounded(pooled, none);
    softmax_stays_within(softmax, stream, o, own, at);
    let work = softmax_plan(softmax, stream, o, own).synchronized();
    confined_is_grounded(work, at);
    extends_grounded(pooled, work, none, at);
}

proof fn softmax_into_is_grounded(
    softmax: SoftmaxView,
    stream: Stream,
    input: DeviceBuffer,
    output: DeviceBuffer,
    workspace: TreeWorkspace,
    have: Set<BufferId>,
)
    requires
        input.id is Operand,
        output.id is Operand,
        at_hand(workspace.scratch_a.id, have),
        at_hand(workspace.scratch_b.id, have),
    ensures
        softmax_into_plan(softmax, stream, input, output, workspace).grounded(have),
{
    broadcast use group_grounding;

    let o = own_scalars(stream.context, input, output);
    let at = have.insert(o.max_scratch.id).insert(o.sum_scratch.id);
    let prepared = PlanView::one(
        Action::Allocate { buffer: o.max_scratch, element: Element::F32 },
    ).followed_by(
        PlanView::one(Action::Allocate { buffer: o.sum_scratch, element: Element::F32 }),
    );
    assert(prepared.stays_within(have));
    confined_is_grounded(prepared, have);
    softmax_stays_within(softmax, stream, o, workspace, at);
    let work = softmax_plan(softmax, stream, o, workspace).synchronized();
    confined_is_grounded(work, at);
    extends_grounded(prepared, work, have, at);
}

proof fn row_softmax_is_grounded(
    family: Family,
    stream: Stream,
    r: Rows,
    probes: FusedProbes,
    have: Set<BufferId>,
)
    requires
        at_hand(r.input.id, have),
        at_hand(r.output.id, have),
    ensures
        softmax_dispatch_plan(family, stream, r, probes).grounded(have),
{
    broadcast use group_grounding;

    let fused = fused_softmax_plan(family, stream, r, probes.fused);
    assert(fused.stays_within(have));
    confined_is_grounded(fused.synchronized(), have);

    let scalars = BufferId::Scratch(Scratch::RowScalars);
    let workspace = row_workspace_for(stream.context, r.rows, scalars);
    let at = have.insert(scalars);
    let prepared = PlanView::checked(
        row_workspace_check(RowKind::Softmax, family, stream.context),
    ).followed_by(row_allocation(workspace));
    assert(prepared.stays_within(have));
    confined_is_grounded(prepared, have);
    let staged = softmax_rows_plan(family, stream, r, workspace);
    assert(staged.stays_within(at));
    confined_is_grounded(staged.synchronized(), at);
    extends_grounded(prepared, staged.synchronized(), have, at);
}

proof fn rms_rows_are_grounded(
    family: Family,
    stream: Stream,
    r: Rows,
    epsilon: F32,
    gamma: F32,
    probes: FusedProbes,
    have: Set<BufferId>,
)
    requires
        at_hand(r.input.id, have),
        at_hand(r.output.id, have),
    ensures
        rms_submission_plan(family, stream, r, epsilon, gamma, probes).grounded(have),
        rms_dispatch_plan(family, stream, r, epsilon, gamma, probes).grounded(have),
{
    broadcast use group_grounding;

    let fused = fused_rms_plan(family, stream, r, epsilon, gamma, probes.fused);
    assert(fused.stays_within(have));
    confined_is_grounded(fused, have);
    confined_is_grounded(fused.synchronized(), have);

    let scalars = BufferId::Scratch(Scratch::RowSumOfSquares);
    let workspace = row_workspace_for(stream.context, r.rows, scalars);
    let at = have.insert(scalars);
    let prepared = PlanView::checked(
        row_workspace_check(RowKind::RmsNorm, family, stream.context),
    ).followed_by(row_allocation(workspace));
    assert(prepared.stays_within(have));
    confined_is_grounded(prepared, have);
    let staged = rms_rows_plan(family, stream, r, epsilon, gamma, workspace);
    assert(staged.stays_within(at));
    confined_is_grounded(staged, at);
    extends_grounded(prepared, staged, have, at);
    confined_is_grounded(staged.synchronized(), at);
    extends_grounded(prepared, staged.synchronized(), have, at);
}

/// Dispatched row operations refer only to memory that is there, on either
/// path.
pub proof fn dispatches_are_grounded(
    family: Family,
    stream: Stream,
    r: Rows,
    epsilon: F32,
    gamma: F32,
    probes: FusedProbes,
)
    requires
        r.input.id is Operand,
        r.output.id is Operand,
    ensures
        softmax_dispatch_plan(family, stream, r, probes).grounded(Set::empty()),
        rms_submission_plan(family, stream, r, epsilon, gamma, probes).grounded(Set::empty()),
        rms_dispatch_plan(family, stream, r, epsilon, gamma, probes).grounded(Set::empty()),
{
    let none = Set::<BufferId>::empty();
    row_softmax_is_grounded(family, stream, r, probes, none);
    rms_rows_are_grounded(family, stream, r, epsilon, gamma, probes, none);
}

proof fn norm_is_grounded(
    kind: NormKind,
    conversions: Family,
    stream: Stream,
    r: Rows,
    normalize: PlanView,
)
    requires
        r.input.id is Operand,
        r.output.id is Operand,
        normalize.grounded(
            set![wide_rows(stream, r).input.id, wide_rows(stream, r).output.id],
        ),
    ensures
        norm_plan(kind, conversions, stream, r, normalize).grounded(Set::empty()),
{
    broadcast use group_grounding;

    let none = Set::<BufferId>::empty();
    let w = wide_rows(stream, r);
    let at = set![w.input.id, w.output.id];
    let prepared = PlanView::checked(norm_check(kind, stream, r)).followed_by(
        PlanView::one(Action::Allocate { buffer: w.input, element: Element::F32 }),
    ).followed_by(PlanView::one(Action::Allocate { buffer: w.output, element: Element::F32 }));
    assert(prepared.stays_within(none));
    confined_is_grounded(prepared, none);
    let widen = widen_plan(conversions, r.input, w.input);
    let narrow = narrow_plan(conversions, w.output, r.output);
    assert(widen.stays_within(at));
    assert(narrow.stays_within(at));
    confined_is_grounded(widen, at);
    confined_is_grounded(narrow, at);
    extends_grounded(widen, normalize, at, at);
    extends_grounded(widen.followed_by(normalize), narrow, at, at);
    let work = widen.followed_by(normalize).followed_by(narrow);
    synchronization_is_grounded(work, at);
    extends_grounded(prepared, work.synchronized(), none, at);
}

/// Packed-bf16 normalizations refer only to memory that is there.
pub proof fn norms_are_grounded(
    conversions: Family,
    rms_norm: Family,
    stream: Stream,
    r: Rows,
    epsilon: F32,
    gamma: F32,
    beta: F32,
    probes: FusedProbes,
)
    requires
        r.input.id is Operand,
        r.output.id is Operand,
    ensures
        norm_plan(
            NormKind::Rms,
            conversions,
            stream,
            r,
            rms_submission_plan(rms_norm, stream, wide_rows(stream, r), epsilon, gamma, probes),
        ).grounded(Set::empty()),
        norm_plan(
            NormKind::Layer,
            conversions,
            stream,
            r,
            layer_submission_plan(wide_rows(stream, r), epsilon, gamma, beta),
        ).grounded(Set::empty()),
{
    broadcast use group_grounding;

    let w = wide_rows(stream, r);
    let at = set![w.input.id, w.output.id];
    rms_rows_are_grounded(rms_norm, stream, w, epsilon, gamma, probes, at);
    let rms = rms_submission_plan(rms_norm, stream, w, epsilon, gamma, probes);
    norm_is_grounded(NormKind::Rms, conversions, stream, r, rms);
    let layer = layer_submission_plan(w, epsilon, gamma, beta);
    assert(layer.stays_within(at));
    confined_is_grounded(layer, at);
    norm_is_grounded(NormKind::Layer, conversions, stream, r, layer);
}

/// The operands of an attention are there.
pub open spec fn heads_at_hand(h: Heads, have: Set<BufferId>) -> bool {
    &&& at_hand(h.queries.id, have)
    &&& at_hand(h.keys.id, have)
    &&& at_hand(h.values.id, have)
    &&& at_hand(h.output.id, have)
}

proof fn composed_is_grounded(
    f: ComposedFamilies,
    stream: Stream,
    h: Heads,
    scale: F32,
    mask: AttentionMask,
    probes: FusedProbes,
    have: Set<BufferId>,
)
    requires
        heads_at_hand(h, have),
    ensures
        composed_plan(f, stream, h, scale, mask, probes).grounded(have),
{
    broadcast use group_grounding;

    let elements = (h.query_rows * h.kv_rows) as usize;
    let probabilities = score_buffer(stream.context, Scratch::Probabilities, elements);
    let scores = score_buffer(stream.context, Scratch::Scores, elements);
    let rows = Rows {
        input: probabilities,
        output: probabilities,
        rows: h.query_rows,
        cols: h.kv_rows,
    };
    let at = have.insert(probabilities.id).insert(scores.id);
    let prepared = PlanView::checked(composed_check(h, mask)).followed_by(
        PlanView::one(Action::Allocate { buffer: probabilities, element: Element::F32 }),
    ).followed_by(PlanView::one(Action::Allocate { buffer: scores, element: Element::F32 }));
    assert(prepared.stays_within(have));
    confined_is_grounded(prepared, have);

    let products = product_plan(
        ProductKind::F32TransposedB,
        f.gemm,
        stream,
        score_product(h, scores),
    );
    assert(products.stays_within(at));
    confined_is_grounded(products.synchronized(), at);
    let causal = scale_causal_plan(
        f.attention,
        stream,
        scores,
        probabilities,
        h.query_rows,
        h.kv_rows,
        scale,
    );
    let plain = awaited(scale_plan(f.elementwise, scores, probabilities, scale));
    assert(causal.stays_within(at));
    assert(plain.stays_within(at));
    let scaled = if mask == AttentionMask::Causal {
        causal
    } else {
        plain
    };
    confined_is_grounded(scaled, at);
    row_softmax_is_grounded(f.softmax, stream, rows, probes, at);
    let softmax = softmax_dispatch_plan(f.softmax, stream, rows, probes);
    let weighted = product_plan(
        ProductKind::F32,
        f.gemm,
        stream,
        value_product(h, probabilities),
    );
    assert(weighted.stays_within(at));
    confined_is_grounded(weighted.synchronized(), at);

    extends_grounded(prepared, products.synchronized(), have, at);
    let first = prepared.followed_by(products.synchronized());
    extends_grounded(first, scaled, have, at);
    extends_grounded(first.followed_by(scaled), softmax, have, at);
    extends_grounded(
        first.followed_by(scaled).followed_by(softmax),
        weighted.synchronized(),
        have,
        at,
    );
    guard_is_grounded(composed_stages(f, stream, h, scale, mask, probes), have);
}

proof fn composed_multihead_is_grounded(
    f: ComposedFamilies,
    stream: Stream,
    h: Heads,
    heads: usize,
    scale: F32,
    mask: AttentionMask,
    probes: FusedProbes,
    have: Set<BufferId>,
)
    requires
        heads_at_hand(h, have),
    ensures
        composed_multihead_plan(f, stream, h, heads, scale, mask, probes).grounded(have),
{
    broadcast use group_grounding;

    let elements = (heads * h.query_rows * h.kv_rows) as usize;
    let probabilities = score_buffer(stream.context, Scratch::Probabilities, elements);
    let rows = Rows {
        input: probabilities,
        output: probabilities,
        rows: (heads * h.query_rows) as usize,
        cols: h.kv_rows,
    };
    let at = have.insert(probabilities.id);
    let prepared = PlanView::checked(packed_scores_check(h, heads)).followed_by(
        PlanView::one(Action::Allocate { buffer: probabilities, element: Element::F32 }),
    );
    assert(prepared.stays_within(have));
    confined_is_grounded(prepared, have);

    let products = batched_plan(f.gemm, stream, score_product(h, probabilities), heads, true);
    assert(products.stays_within(at));
    confined_is_grounded(products.synchronized(), at);
    let causal = awaited(
        multihead_scale_causal_plan(
            f.attention,
            stream,
            probabilities,
            probabilities,
            elements,
            h.query_rows,
            h.kv_rows,
            scale,
        ),
    );
    let plain = awaited(scale_plan(f.elementwise, probabilities, probabilities, scale));
    assert(causal.stays_within(at));
    assert(plain.stays_within(at));
    let scaled = if mask == AttentionMask::Causal {
        causal
    } else {
        plain
    };
    confined_is_grounded(scaled, at);
    row_softmax_is_grounded(f.softmax, stream, rows, probes, at);
    let softmax = softmax_dispatch_plan(f.softmax, stream, rows, probes);
    let weighted = batched_plan(f.gemm, stream, value_product(h, probabilities), heads, false);
    assert(weighted.stays_within(at));
    confined_is_grounded(weighted.synchronized(), at);

    extends_grounded(prepared, products.synchronized(), have, at);
    let first = prepared.followed_by(products.synchronized());
    extends_grounded(first, scaled, have, at);
    extends_grounded(first.followed_by(scaled), softmax, have, at);
    extends_grounded(
        first.followed_by(scaled).followed_by(softmax),
        weighted.synchronized(),
        have,
        at,
    );
    assert(composed_multihead_stages(f, stream, h, heads, scale, mask, probes).grounded(have));
    accepted_is_grounded(
        multihead_check(HeadKind::F32, f.attention, stream, h, heads),
        causal_check(h, mask),
        if h.query_rows == 0 {
            PlanView::done()
        } else {
            composed_multihead_stages(f, stream, h, heads, scale, mask, probes)
        },
        have,
    );
}

proof fn accepted_is_grounded(
    first: Checked,
    second: Checked,
    stages: PlanView,
    have: Set<BufferId>,
)
    requires
        stages.grounded(have),
    ensures
        PlanView::checked(first).followed_by(PlanView::checked(second)).followed_by(
            stages,
        ).grounded(have),
{
    broadcast use group_grounding;

    let checks = PlanView::checked(first).followed_by(PlanView::checked(second));
    assert(checks.stays_within(have));
    confined_is_grounded(checks, have);
    extends_grounded(checks, stages, have, have);
}

/// Composed attention refers only to memory that is there.
pub proof fn composed_attention_is_grounded(
    f: ComposedFamilies,
    stream: Stream,
    h: Heads,
    heads: usize,
    scale: F32,
    mask: AttentionMask,
    probes: FusedProbes,
)
    requires
        heads_at_hand(h, Set::empty()),
    ensures
        composed_plan(f, stream, h, scale, mask, probes).grounded(Set::empty()),
        composed_multihead_plan(f, stream, h, heads, scale, mask, probes).grounded(Set::empty()),
{
    composed_is_grounded(f, stream, h, scale, mask, probes, Set::empty());
    composed_multihead_is_grounded(f, stream, h, heads, scale, mask, probes, Set::empty());
}

proof fn widened_is_grounded(
    context: ContextId,
    conversions: Family,
    h: Heads,
    pipeline: PlanView,
)
    requires
        heads_at_hand(h, Set::empty()),
        pipeline.grounded(
            set![
                wide_heads(context, h).queries.id,
                wide_heads(context, h).keys.id,
                wide_heads(context, h).values.id,
                wide_heads(context, h).output.id,
            ],
        ),
    ensures
        widening(conversions, h, wide_heads(context, h)).followed_by(pipeline).followed_by(
            awaited(narrow_plan(conversions, wide_heads(context, h).output, h.output)),
        ).grounded(Set::empty()),
{
    broadcast use group_grounding;

    let none = Set::<BufferId>::empty();
    let w = wide_heads(context, h);
    let at = set![w.queries.id, w.keys.id, w.values.id, w.output.id];
    let prepared = PlanView::one(
        Action::Allocate { buffer: w.queries, element: Element::F32 },
    ).followed_by(
        PlanView::one(Action::Allocate { buffer: w.keys, element: Element::F32 }),
    ).followed_by(
        PlanView::one(Action::Allocate { buffer: w.values, element: Element::F32 }),
    ).followed_by(PlanView::one(Action::Allocate { buffer: w.output, element: Element::F32 }));
    assert(prepared.stays_within(none));
    confined_is_grounded(prepared, none);

    let queries = awaited(widen_plan(conversions, h.queries, w.queries));
    let keys = awaited(widen_plan(conversions, h.keys, w.keys));
    let values = awaited(widen_plan(conversions, h.values, w.values));
    let narrowed = awaited(narrow_plan(conversions, w.output, h.output));
    assert(queries.stays_within(at));
    assert(keys.stays_within(at));
    assert(values.stays_within(at));
    assert(narrowed.stays_within(at));
    confined_is_grounded(queries, at);
    confined_is_grounded(keys, at);
    confined_is_grounded(values, at);
    confined_is_grounded(narrowed, at);

    extends_grounded(prepared, queries, none, at);
    extends_grounded(prepared.followed_by(queries), keys, none, at);
    extends_grounded(prepared.followed_by(queries).followed_by(keys), values, none, at);
    let widened = widening(conversions, h, w);
    extends_grounded(widened, pipeline, none, at);
    extends_grounded(widened.followed_by(pipeline), narrowed, none, at);
}

/// Composed attention over packed bf16 refers only to memory that is there.
pub proof fn bf16_composed_attention_is_grounded(
    family: Family,
    conversions: Family,
    f: ComposedFamilies,
    stream: Stream,
    h: Heads,
    heads: usize,
    scale: F32,
    mask: AttentionMask,
    probes: FusedProbes,
)
    requires
        heads_at_hand(h, Set::empty()),
    ensures
        bf16_composed_plan(
            family,
            conversions,
            f,
            stream,
            h,
            scale,
            mask,
            probes,
        ).grounded(Set::empty()),
        bf16_composed_multihead_plan(
            family,
            conversions,
            f,
            stream,
            h,
            heads,
            scale,
            mask,
            probes,
        ).grounded(Set::empty()),
{
    let none = Set::<BufferId>::empty();
    let w = wide_heads(family.context, h);
    let at = set![w.queries.id, w.keys.id, w.values.id, w.output.id];
    let narrowed = awaited(narrow_plan(conversions, w.output, h.output));
    let single = composed_plan(f, stream, w, scale, mask, probes);
    composed_is_grounded(f, stream, w, scale, mask, probes, at);
    widened_is_grounded(family.context, conversions, h, single);
    accepted_is_grounded(
        head_check(HeadKind::Bf16, family, stream, h),
        causal_check(h, mask),
        if h.query_rows == 0 {
            PlanView::done()
        } else {
            widening(conversions, h, w).followed_by(single).followed_by(narrowed)
        },
        none,
    );
    let packed = composed_multihead_plan(f, stream, w, heads, scale, mask, probes);
    composed_multihead_is_grounded(f, stream, w, heads, scale, mask, probes, at);
    widened_is_grounded(family.context, conversions, h, packed);
    accepted_is_grounded(
        multihead_check(HeadKind::Bf16, family, stream, h, heads),
        causal_check(h, mask),
        if h.query_rows == 0 {
            PlanView::done()
        } else {
            widening(conversions, h, w).followed_by(packed).followed_by(narrowed)
        },
        none,
    );
}

/// Quantized composed attention refers only to memory that is there.
pub proof fn quantized_attention_is_grounded(
    f: QuantizedFamilies,
    stream: Stream,
    h: Heads,
    scale: F32,
    mask: AttentionMask,
    probes: FusedProbes,
)
    requires
        heads_at_hand(h, Set::empty()),
    ensures
        quantized_plan(f, stream, h, scale, mask, probes).grounded(Set::empty()),
{
    broadcast use group_grounding;

    let none = Set::<BufferId>::empty();
    let elements = (h.query_rows * h.kv_rows) as usize;
    let packed = wide(f.family.context, Scratch::PackedScores, elements);
    let probs = wide(f.family.context, Scratch::WideProbabilities, elements);
    let rows = Rows { input: probs, output: probs, rows: h.query_rows, cols: h.kv_rows };
    let at = set![packed.id, probs.id];
    let prepared = PlanView::checked(scores_check(h)).followed_by(
        PlanView::one(Action::Allocate { buffer: packed, element: Element::Bf16 }),
    ).followed_by(PlanView::one(Action::Allocate { buffer: probs, element: Element::F32 }));
    assert(prepared.stays_within(none));
    confined_is_grounded(prepared, none);

    let products = product_plan(
        ProductKind::Bf16TransposedB,
        f.gemm,
        stream,
        score_product(h, packed),
    );
    assert(products.stays_within(at));
    confined_is_grounded(products.synchronized(), at);
    let widened = awaited(widen_plan(f.conversions, packed, probs));
    assert(widened.stays_within(at));
    confined_is_grounded(widened, at);
    let causal = awaited(
        scale_causal_plan(f.attention, stream, probs, probs, h.query_rows, h.kv_rows, scale),
    );
    let plain = awaited(scale_plan(f.elementwise, probs, probs, scale));
    assert(causal.stays_within(at));
    assert(plain.stays_within(at));
    let scaled = if mask == AttentionMask::Causal {
        causal
    } else {
        plain
    };
    confined_is_grounded(scaled, at);
    row_softmax_is_grounded(f.softmax, stream, rows, probes, at);
    let softmax = softmax_dispatch_plan(f.softmax, stream, rows, probes);
    let narrowed = awaited(narrow_plan(f.conversions, probs, packed));
    assert(narrowed.stays_within(at));
    confined_is_grounded(narrowed, at);
    let weighted = product_plan(ProductKind::Bf16, f.gemm, stream, value_product(h, packed));
    assert(weighted.stays_within(at));
    confined_is_grounded(weighted.synchronized(), at);

    extends_grounded(prepared, products.synchronized(), none, at);
    let first = prepared.followed_by(products.synchronized());
    extends_grounded(first, widened, none, at);
    extends_grounded(first.followed_by(widened), scaled, none, at);
    let second = first.followed_by(widened).followed_by(scaled);
    extends_grounded(second, softmax, none, at);
    extends_grounded(second.followed_by(softmax), narrowed, none, at);
    extends_grounded(
        second.followed_by(softmax).followed_by(narrowed),
        weighted.synchronized(),
        none,
        at,
    );
    accepted_is_grounded(
        head_check(HeadKind::Bf16, f.family, stream, h),
        causal_check(h, mask),
        if h.query_rows == 0 {
            PlanView::done()
        } else {
            quantized_stages(f, stream, h, scale, mask, probes)
        },
        none,
    );
}

proof fn round_stays_within(
    width: u32,
    s: Selection,
    workspace: SelectionWorkspace,
    slot: nat,
    passes: Seq<TreePass>,
    have: Set<BufferId>,
)
    requires
        selection_at_hand(s, workspace, have),
    ensures
        round_plan(width, s, workspace, slot, passes).stays_within(have),
{
}

/// The buffers that the rounds of a selection work on are there.
spec fn selection_at_hand(
    s: Selection,
    workspace: SelectionWorkspace,
    have: Set<BufferId>,
) -> bool {
    &&& at_hand(s.values.id, have)
    &&& at_hand(s.indices.id, have)
    &&& at_hand(workspace.data.id, have)
    &&& at_hand(workspace.values_a.id, have)
    &&& at_hand(workspace.values_b.id, have)
    &&& at_hand(workspace.indices_a.id, have)
    &&& at_hand(workspace.indices_b.id, have)
}

proof fn rounds_stay_within(
    width: u32,
    s: Selection,
    workspace: SelectionWorkspace,
    passes: Seq<TreePass>,
    rounds: nat,
    have: Set<BufferId>,
)
    requires
        selection_at_hand(s, workspace, have),
    ensures
        rounds_plan(width, s, workspace, passes, rounds).stays_within(have),
    decreases rounds,
{
    broadcast use group_grounding;

    if rounds > 0 {
        let slot = (rounds - 1) as nat;
        rounds_stay_within(width, s, workspace, passes, slot, have);
        round_stays_within(width, s, workspace, slot, passes, have);
    }
}

/// A selection with scratch of its own refers only to memory that is there.
pub proof fn selection_is_grounded(family: Family, stream: Stream, s: Selection)
    requires
        s.input.id is Operand,
        s.values.id is Operand,
        s.indices.id is Operand,
    ensures
        own_selection_plan(family, stream, s).grounded(Set::empty()),
{
    broadcast use group_grounding;

    let none = Set::<BufferId>::empty();
    let own = selection_workspace_for(family, s.input.context, s.input.len, own_buffers());
    let at = set![
        own.data.id,
        own.values_a.id,
        own.values_b.id,
        own.indices_a.id,
        own.indices_b.id,
    ];
    let prepared = PlanView::checked(
        selection_workspace_check(family, s.input.context),
    ).followed_by(selection_allocation(own));
    assert(prepared.stays_within(none));
    confined_is_grounded(prepared, none);
    let passes = schedule(s.input.len, family.width);
    rounds_stay_within(family.width, s, own, passes, s.k as nat, at);
    let work = selection_plan(family, stream, s, own);
    assert(work.stays_within(at));
    confined_is_grounded(work.synchronized(), at);
    extends_grounded(prepared, work.synchronized(), none, at);
}

} // verus!
