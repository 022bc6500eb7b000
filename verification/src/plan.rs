//! Plans: what an operation does on its stream, and how it ends.
//!
//! A planning function decides everything an operation decides before and
//! between its device calls. The runner performs the steps in order and stops
//! at the first one that fails; when all have succeeded, the operation ends
//! with the plan's outcome.

use crate::device::{BufferId, DeviceBuffer, Element, F32};
use crate::error::{Checked, KernelError};
use crate::launch::{Arguments, Kernel, Launch, Shape};
use vstd::prelude::*;

verus! {

/// One device call.
#[derive(Clone, Copy, Debug, PartialEq, Eq, Structural)]
pub enum Action {
    /// Launch a kernel.
    Launch(Launch),
    /// Fill an allocation with zero bytes.
    Zero(BufferId),
    /// Allocate device memory.
    Allocate { buffer: DeviceBuffer, element: Element },
    /// Allocate from the stream-ordered pool.
    AllocatePooled { buffer: DeviceBuffer, element: Element },
    /// Submit the `f32` layer normalization of `rows` rows of `cols` elements,
    /// which the runner has from another library.
    LayerNormalize {
        input: DeviceBuffer,
        output: DeviceBuffer,
        rows: usize,
        cols: usize,
        epsilon: F32,
        gamma: F32,
        beta: F32,
    },
    /// Wait for the stream; a failure ends the operation.
    Synchronize,
    /// Wait for the stream and disregard how that ends.
    Drain,
}

/// One device call and what follows its failure.
#[derive(Clone, Copy, Debug, PartialEq, Eq, Structural)]
pub struct Step {
    pub action: Action,
    /// Whether the stream is drained before a failure of this step is
    /// reported, so that no borrow ends under work already submitted.
    pub drain_on_failure: bool,
}

/// The steps of an operation and its outcome once they have succeeded.
#[derive(Debug)]
pub struct Plan {
    pub steps: Vec<Step>,
    pub outcome: Checked,
}

/// The mathematical content of a plan.
#[verifier::ext_equal]
pub struct PlanView {
    pub steps: Seq<Step>,
    pub outcome: Checked,
}

impl View for Plan {
    type V = PlanView;

    open spec fn view(&self) -> PlanView {
        PlanView { steps: self.steps@, outcome: self.outcome }
    }
}

/// A step after whose failure nothing more is done.
pub open spec fn bare(action: Action) -> Step {
    Step { action, drain_on_failure: false }
}

/// A step after whose failure the stream is drained.
pub open spec fn drained(step: Step) -> Step {
    Step { action: step.action, drain_on_failure: true }
}

impl PlanView {
    /// Nothing to do.
    pub open spec fn done() -> PlanView {
        PlanView { steps: Seq::empty(), outcome: Ok(()) }
    }

    /// Refused before anything is submitted.
    pub open spec fn rejected(error: KernelError) -> PlanView {
        PlanView { steps: Seq::empty(), outcome: Err(error) }
    }

    /// A single device call.
    pub open spec fn one(action: Action) -> PlanView {
        PlanView { steps: seq![bare(action)], outcome: Ok(()) }
    }

    /// A single kernel launch.
    pub open spec fn launch(kernel: Kernel, shape: Shape, arguments: Arguments) -> PlanView {
        PlanView::one(Action::Launch(Launch { kernel, shape, arguments }))
    }

    /// A check: refused where it fails, nothing to do where it passes.
    pub open spec fn checked(check: Checked) -> PlanView {
        PlanView { steps: Seq::empty(), outcome: check }
    }

    /// This plan and, where it ends well, the next.
    pub open spec fn followed_by(self, next: PlanView) -> PlanView {
        if self.outcome is Err {
            self
        } else {
            PlanView { steps: self.steps + next.steps, outcome: next.outcome }
        }
    }

    /// This plan and then a wait for the stream. A refusal, like a failing
    /// step, first drains what was already submitted; the refusal is what is
    /// reported.
    pub open spec fn synchronized(self) -> PlanView {
        PlanView {
            steps: self.steps.map_values(|step: Step| drained(step)).push(
                bare(
                    if self.outcome is Ok {
                        Action::Synchronize
                    } else {
                        Action::Drain
                    },
                ),
            ),
            outcome: self.outcome,
        }
    }

    /// This plan, draining the stream wherever it ends while work is running:
    /// after a failing step other than a wait, and before a refusal.
    pub open spec fn guarded(self) -> PlanView {
        PlanView {
            steps: guarded_steps(self.steps) + if self.outcome is Err && running(
                self.steps,
                self.steps.len() as int,
            ) {
                seq![bare(Action::Drain)]
            } else {
                Seq::empty()
            },
            outcome: self.outcome,
        }
    }

    /// Every launch hands its kernel the arguments of its signature.
    pub open spec fn matches_kernels(self) -> bool {
        forall|i: int|
            0 <= i < self.steps.len() ==> (#[trigger] self.steps[i]).action.matches_kernel()
    }

    /// The memory that the plan allocates, in order.
    pub open spec fn scratch(self) -> Seq<(DeviceBuffer, Element)> {
        allocated(self.steps)
    }

    /// No call allocates device memory.
    pub open spec fn never_allocates(self) -> bool {
        forall|i: int| 0 <= i < self.steps.len() ==> !(#[trigger] self.steps[i]).action.allocates()
    }

    /// No call allocates from the stream-ordered pool.
    pub open spec fn never_pools(self) -> bool {
        forall|i: int|
            0 <= i < self.steps.len() ==> !((#[trigger] self.steps[i]).action is AllocatePooled)
    }

    /// No call waits for the stream.
    pub open spec fn never_waits(self) -> bool {
        forall|i: int| 0 <= i < self.steps.len() ==> !(#[trigger] self.steps[i]).action.waits()
    }

    /// The last call waits for the stream, and no other does.
    pub open spec fn waits_once(self) -> bool {
        &&& self.steps.len() > 0
        &&& self.steps.last().action.waits()
        &&& forall|i: int|
            0 <= i < self.steps.len() - 1 ==> !(#[trigger] self.steps[i]).action.waits()
    }

    /// Nothing is left running when the operation returns: where the steps
    /// have all succeeded, the last submission has been waited for, and where
    /// one fails while work is running, the stream is drained first, or the
    /// failure is that of the wait itself.
    pub open spec fn settles(self) -> bool {
        &&& !running(self.steps, self.steps.len() as int)
        &&& forall|n: int|
            0 <= n < self.steps.len() && running(self.steps, n) ==> {
                ||| (#[trigger] self.steps[n]).drain_on_failure
                ||| self.steps[n].action.waits()
            }
    }
}

impl Action {
    /// Whether a launch hands its kernel the arguments of its signature.
    pub open spec fn matches_kernel(self) -> bool {
        self matches Action::Launch(launch) ==> launch.kernel.accepts(launch.arguments)
    }

    /// Whether the call submits work to the stream.
    pub open spec fn submits(self) -> bool {
        self is Launch || self is Zero || self is LayerNormalize
    }

    /// Whether the call allocates device memory.
    pub open spec fn allocates(self) -> bool {
        self is Allocate || self is AllocatePooled
    }

    /// Whether the call waits for the stream.
    pub open spec fn waits(self) -> bool {
        self is Synchronize || self is Drain
    }
}

/// The memory that the steps allocate, in order.
pub open spec fn allocated(steps: Seq<Step>) -> Seq<(DeviceBuffer, Element)>
    decreases steps.len(),
{
    if steps.len() == 0 {
        Seq::empty()
    } else {
        let before = allocated(steps.drop_last());
        match steps.last().action {
            Action::Allocate { buffer, element } => before.push((buffer, element)),
            Action::AllocatePooled { buffer, element } => before.push((buffer, element)),
            _ => before,
        }
    }
}

/// Whether work may still be running once the first `n` steps have succeeded.
pub open spec fn running(steps: Seq<Step>, n: int) -> bool
    decreases n,
{
    if n <= 0 {
        false
    } else if steps[n - 1].action.submits() {
        true
    } else if steps[n - 1].action.waits() {
        false
    } else {
        running(steps, n - 1)
    }
}

/// The steps, with those draining the stream on failure that do not wait and
/// are taken while work is running.
pub open spec fn guarded_steps(steps: Seq<Step>) -> Seq<Step> {
    Seq::new(
        steps.len(),
        |n: int|
            if running(steps, n) && !steps[n].action.waits() {
                drained(steps[n])
            } else {
                steps[n]
            },
    )
}

impl Action {
    fn is_submission(&self) -> (result: bool)
        ensures
            result == self.submits(),
    {
        matches!(self, Action::Launch(_) | Action::Zero(_) | Action::LayerNormalize { .. })
    }

    fn is_wait(&self) -> (result: bool)
        ensures
            result == self.waits(),
    {
        matches!(self, Action::Synchronize | Action::Drain)
    }
}

impl Plan {
    /// Nothing to do.
    pub fn done() -> (plan: Plan)
        ensures
            plan@ == PlanView::done(),
    {
        Plan { steps: Vec::new(), outcome: Ok(()) }
    }

    /// Refused before anything is submitted.
    pub fn rejected(error: KernelError) -> (plan: Plan)
        ensures
            plan@ == PlanView::rejected(error),
    {
        Plan { steps: Vec::new(), outcome: Err(error) }
    }

    /// A check as a plan.
    pub fn checked(check: Checked) -> (plan: Plan)
        ensures
            plan@ == PlanView::checked(check),
    {
        Plan { steps: Vec::new(), outcome: check }
    }

    /// A single device call.
    pub fn one(action: Action) -> (plan: Plan)
        ensures
            plan@ == PlanView::one(action),
    {
        let mut steps: Vec<Step> = Vec::new();
        steps.push(Step { action, drain_on_failure: false });
        assert(steps@ =~= seq![bare(action)]);
        Plan { steps, outcome: Ok(()) }
    }

    /// A single kernel launch.
    pub fn launch(kernel: Kernel, shape: Shape, arguments: Arguments) -> (plan: Plan)
        ensures
            plan@ == PlanView::launch(kernel, shape, arguments),
    {
        Plan::one(Action::Launch(Launch { kernel, shape, arguments }))
    }

    /// This plan and, where it ends well, the next.
    pub fn followed_by(self, next: Plan) -> (plan: Plan)
        ensures
            plan@ == self@.followed_by(next@),
    {
        match self.outcome {
            Err(_) => self,
            Ok(()) => {
                let mut steps = self.steps;
                let mut more = next.steps;
                steps.append(&mut more);
                Plan { steps, outcome: next.outcome }
            },
        }
    }

    /// This plan and then a wait for the stream; see
    /// [`PlanView::synchronized`].
    pub fn synchronized(self) -> (plan: Plan)
        ensures
            plan@ == self@.synchronized(),
    {
        let mut steps: Vec<Step> = Vec::new();
        let count: usize = self.steps.len();
        for i in 0..count
            invariant
                count == self.steps@.len(),
                steps@ =~= self.steps@.take(i as int).map_values(|step: Step| drained(step)),
        {
            steps.push(Step { action: self.steps[i].action, drain_on_failure: true });
        }
        assert(self.steps@.take(count as int) =~= self.steps@);
        let action = match self.outcome {
            Ok(()) => Action::Synchronize,
            Err(_) => Action::Drain,
        };
        steps.push(Step { action, drain_on_failure: false });
        Plan { steps, outcome: self.outcome }
    }

    /// This plan, draining the stream wherever it ends while work is running;
    /// see [`PlanView::guarded`].
    pub fn guarded(self) -> (plan: Plan)
        ensures
            plan@ == self@.guarded(),
    {
        let mut steps: Vec<Step> = Vec::new();
        let count: usize = self.steps.len();
        let mut busy: bool = false;
        for i in 0..count
            invariant
                count == self.steps@.len(),
                busy == running(self.steps@, i as int),
                steps@ =~= guarded_steps(self.steps@).take(i as int),
        {
            let step = self.steps[i];
            let waits = step.action.is_wait();
            steps.push(
                if busy && !waits {
                    Step { action: step.action, drain_on_failure: true }
                } else {
                    step
                },
            );
            busy = step.action.is_submission() || (busy && !waits);
        }
        if self.outcome.is_err() && busy {
            steps.push(Step { action: Action::Drain, drain_on_failure: false });
        }
        Plan { steps, outcome: self.outcome }
    }

    /// This plan and then a wait for the stream that is only reached where
    /// the plan ends well.
    pub fn awaited(self) -> (plan: Plan)
        ensures
            plan@ == self@.followed_by(PlanView::one(Action::Synchronize)),
    {
        self.followed_by(Plan::one(Action::Synchronize))
    }
}

/// Composition of plans is associative, so a pipeline reads the same whichever
/// of its stages are grouped.
pub proof fn followed_by_associative(a: PlanView, b: PlanView, c: PlanView)
    ensures
        a.followed_by(b).followed_by(c) == a.followed_by(b.followed_by(c)),
{
    assert(a.followed_by(b).followed_by(c).steps =~= a.followed_by(b.followed_by(c)).steps);
}

/// Having nothing to do is neutral on both sides of a composition.
pub proof fn done_is_neutral(a: PlanView)
    ensures
        PlanView::done().followed_by(a) == a,
        a.followed_by(PlanView::done()) == a,
{
    assert(PlanView::done().followed_by(a).steps =~= a.steps);
    assert(a.followed_by(PlanView::done()).steps =~= a.steps);
    if let Ok(unit) = a.outcome {
        assert(unit == ());
    }
}

/// Waiting for the stream never hides a refusal, and every submitted step is
/// waited for: the last step waits, whether the operation was refused or not.
pub proof fn synchronized_reports_the_refusal(a: PlanView)
    ensures
        a.synchronized().outcome == a.outcome,
        a.synchronized().steps.len() == a.steps.len() + 1,
        a.outcome is Ok ==> a.synchronized().steps.last() == bare(Action::Synchronize),
        a.outcome is Err ==> a.synchronized().steps.last() == bare(Action::Drain),
        forall|i: int|
            0 <= i < a.steps.len() ==> (#[trigger] a.synchronized().steps[i]).action
                == a.steps[i].action && a.synchronized().steps[i].drain_on_failure,
{
}

/// A plan made of plans whose launches match their kernels has only launches
/// that match their kernels.
pub broadcast proof fn composition_matches_kernels(a: PlanView, b: PlanView)
    requires
        a.matches_kernels(),
        b.matches_kernels(),
    ensures
        #[trigger] a.followed_by(b).matches_kernels(),
{
    let whole = a.followed_by(b);
    assert forall|i: int| 0 <= i < whole.steps.len() implies (
    #[trigger] whole.steps[i]).action.matches_kernel() by {
        if i < a.steps.len() {
            assert(whole.steps[i] == a.steps[i]);
        } else {
            assert(whole.steps[i] == b.steps[i - a.steps.len()]);
        }
    }
}

/// Waiting changes no launch.
pub broadcast proof fn synchronization_matches_kernels(a: PlanView)
    requires
        a.matches_kernels(),
    ensures
        #[trigger] a.synchronized().matches_kernels(),
{
    let whole = a.synchronized();
    assert forall|i: int| 0 <= i < whole.steps.len() implies (
    #[trigger] whole.steps[i]).action.matches_kernel() by {
        if i < a.steps.len() {
            assert(whole.steps[i].action == a.steps[i].action);
        }
    }
}

proof fn running_extends(steps: Seq<Step>, more: Seq<Step>, n: int)
    requires
        0 <= n <= steps.len(),
    ensures
        running(steps + more, n) == running(steps, n),
    decreases n,
{
    if n > 0 {
        assert((steps + more)[n - 1] == steps[n - 1]);
        running_extends(steps, more, n - 1);
    }
}

proof fn running_shifts(steps: Seq<Step>, more: Seq<Step>, n: int)
    requires
        0 <= n <= more.len(),
        !running(steps, steps.len() as int),
    ensures
        running(steps + more, steps.len() + n) == running(more, n),
    decreases n,
{
    if n > 0 {
        assert((steps + more)[steps.len() + n - 1] == more[n - 1]);
        running_shifts(steps, more, n - 1);
    } else {
        running_extends(steps, more, steps.len() as int);
    }
}

/// Operations that leave nothing running can be run one after the other, and
/// leave nothing running either.
pub broadcast proof fn composition_settles(a: PlanView, b: PlanView)
    requires
        a.settles(),
        b.settles(),
    ensures
        #[trigger] a.followed_by(b).settles(),
{
    if a.outcome is Ok {
        let whole = a.followed_by(b);
        let count = a.steps.len() as int;
        running_shifts(a.steps, b.steps, b.steps.len() as int);
        assert forall|n: int| 0 <= n < whole.steps.len() && running(whole.steps, n) implies {
            ||| (#[trigger] whole.steps[n]).drain_on_failure
            ||| whole.steps[n].action.waits()
        } by {
            if n < count {
                running_extends(a.steps, b.steps, n);
                assert(whole.steps[n] == a.steps[n]);
            } else {
                running_shifts(a.steps, b.steps, n - count);
                assert(whole.steps[n] == b.steps[n - count]);
            }
        }
    }
}

/// Whatever a plan submits, its synchronized form leaves nothing running, not
/// even where a step fails or the operation is refused halfway.
pub broadcast proof fn synchronization_settles(a: PlanView)
    ensures
        #[trigger] a.synchronized().settles(),
{
    let whole = a.synchronized();
    let count = a.steps.len() as int;
    assert(whole.steps.len() == count + 1);
    assert(whole.steps[count].action.waits());
    assert forall|n: int| 0 <= n < whole.steps.len() && running(whole.steps, n) implies {
        ||| (#[trigger] whole.steps[n]).drain_on_failure
        ||| whole.steps[n].action.waits()
    } by {
        if n < count {
            assert(whole.steps[n] == drained(a.steps[n]));
        }
    }
}

/// At most one submission, and a wait directly after it, leave nothing
/// running.
pub proof fn awaited_submission_settles(a: PlanView)
    requires
        a.steps.len() <= 1,
        a.outcome is Err ==> a.steps.len() == 0,
    ensures
        a.followed_by(PlanView::one(Action::Synchronize)).settles(),
{
    let whole = a.followed_by(PlanView::one(Action::Synchronize));
    if a.outcome is Ok {
        let count = a.steps.len() as int;
        assert(whole.steps[count] == bare(Action::Synchronize));
        assert forall|n: int| 0 <= n < whole.steps.len() && running(whole.steps, n) implies {
            ||| (#[trigger] whole.steps[n]).drain_on_failure
            ||| whole.steps[n].action.waits()
        } by {}
    }
}

/// Whether two lists of steps make the same calls.
spec fn same_calls(a: Seq<Step>, b: Seq<Step>) -> bool {
    &&& a.len() == b.len()
    &&& forall|n: int| 0 <= n < a.len() ==> (#[trigger] a[n]).action == b[n].action
}

proof fn running_of_same_calls(a: Seq<Step>, b: Seq<Step>, n: int)
    requires
        same_calls(a, b),
        n <= a.len(),
    ensures
        running(a, n) == running(b, n),
    decreases n,
{
    if n > 0 {
        assert(a[n - 1].action == b[n - 1].action);
        running_of_same_calls(a, b, n - 1);
    }
}

proof fn allocated_of_same_calls(a: Seq<Step>, b: Seq<Step>)
    requires
        same_calls(a, b),
    ensures
        allocated(a) == allocated(b),
    decreases a.len(),
{
    if a.len() > 0 {
        assert forall|n: int| 0 <= n < a.drop_last().len() implies (
        #[trigger] a.drop_last()[n]).action == b.drop_last()[n].action by {
            assert(a[n].action == b[n].action);
        }
        allocated_of_same_calls(a.drop_last(), b.drop_last());
        assert(a[a.len() - 1].action == b[b.len() - 1].action);
    }
}

/// A guarded plan leaves nothing running, whichever of its steps fails and
/// wherever it is refused, if the plan ends its last submission with a wait
/// where it ends well.
pub proof fn guard_settles(a: PlanView)
    requires
        a.outcome is Ok ==> !running(a.steps, a.steps.len() as int),
    ensures
        a.guarded().settles(),
{
    let whole = a.guarded();
    let count = a.steps.len() as int;
    let body = guarded_steps(a.steps);
    let tail = whole.steps.skip(count);
    assert(whole.steps =~= body + tail);
    assert(same_calls(body, a.steps));
    assert forall|n: int| 0 <= n <= count implies #[trigger] running(whole.steps, n) == running(
        a.steps,
        n,
    ) by {
        running_extends(body, tail, n);
        running_of_same_calls(body, a.steps, n);
    }
    assert(running(whole.steps, count) == running(a.steps, count));
    assert forall|n: int| 0 <= n < whole.steps.len() && running(whole.steps, n) implies {
        ||| (#[trigger] whole.steps[n]).drain_on_failure
        ||| whole.steps[n].action.waits()
    } by {
        if n < count {
            assert(whole.steps[n] == body[n]);
        }
    }
    if whole.steps.len() > count {
        assert(whole.steps[count] == bare(Action::Drain));
    }
}

/// The guard changes nothing of a plan that leaves nothing running anyway.
pub proof fn guard_is_idle(a: PlanView)
    requires
        a.settles(),
    ensures
        a.guarded() == a,
{
    assert forall|n: int| 0 <= n < a.steps.len() implies guarded_steps(a.steps)[n]
        == #[trigger] a.steps[n] by {}
    assert(a.guarded().steps =~= a.steps);
}

/// The guard makes the same calls in the same order, and where the plan is
/// accepted no others.
pub proof fn guard_keeps_the_calls(a: PlanView)
    ensures
        a.guarded().outcome == a.outcome,
        a.guarded().steps.len() >= a.steps.len(),
        a.outcome is Ok ==> a.guarded().steps.len() == a.steps.len(),
        forall|n: int|
            0 <= n < a.steps.len() ==> (#[trigger] a.guarded().steps[n]).action
                == a.steps[n].action,
{
}

/// The guard changes no launch.
pub broadcast proof fn guard_matches_kernels(a: PlanView)
    requires
        a.matches_kernels(),
    ensures
        #[trigger] a.guarded().matches_kernels(),
{
    let whole = a.guarded();
    assert forall|i: int| 0 <= i < whole.steps.len() implies (
    #[trigger] whole.steps[i]).action.matches_kernel() by {
        if i < a.steps.len() {
            assert(whole.steps[i].action == a.steps[i].action);
        }
    }
}

/// The guard allocates nothing.
pub broadcast proof fn guard_allocates(a: PlanView)
    ensures
        #[trigger] a.guarded().scratch() == a.scratch(),
{
    let whole = a.guarded();
    let body = guarded_steps(a.steps);
    assert(same_calls(body, a.steps));
    allocated_of_same_calls(body, a.steps);
    if whole.steps.len() > a.steps.len() {
        assert(whole.steps.drop_last() =~= body);
        assert(whole.steps.last() == bare(Action::Drain));
    } else {
        assert(whole.steps =~= body);
    }
}

/// A call that submits nothing leaves nothing running.
pub broadcast proof fn idle_call_settles(action: Action)
    requires
        !action.submits(),
    ensures
        #[trigger] PlanView::one(action).settles(),
{
    let whole = PlanView::one(action);
    assert(whole.steps[0] == bare(action));
    assert(!running(whole.steps, 0));
    assert(!running(whole.steps, 1));
    assert forall|n: int| 0 <= n < whole.steps.len() implies !running(whole.steps, n) by {}
}

/// Submissions made one after the other never wait if none of them does.
pub broadcast proof fn composition_never_waits(a: PlanView, b: PlanView)
    requires
        a.never_waits(),
        b.never_waits(),
    ensures
        #[trigger] a.followed_by(b).never_waits(),
{
    let whole = a.followed_by(b);
    assert forall|i: int| 0 <= i < whole.steps.len() implies !(
    #[trigger] whole.steps[i]).action.waits() by {
        if i < a.steps.len() {
            assert(whole.steps[i] == a.steps[i]);
        } else {
            assert(whole.steps[i] == b.steps[i - a.steps.len()]);
        }
    }
}

/// A submission that never waits is waited for exactly once when it is
/// synchronized, at its end.
pub broadcast proof fn synchronization_waits_once(a: PlanView)
    requires
        a.never_waits(),
    ensures
        #[trigger] a.synchronized().waits_once(),
{
    let whole = a.synchronized();
    assert forall|i: int| 0 <= i < whole.steps.len() - 1 implies !(
    #[trigger] whole.steps[i]).action.waits() by {
        assert(whole.steps[i].action == a.steps[i].action);
    }
}

/// What precedes an operation that waits once adds no wait if it has none.
pub proof fn prefix_adds_no_wait(a: PlanView, b: PlanView)
    requires
        a.never_waits(),
        a.outcome is Ok,
        b.waits_once(),
    ensures
        a.followed_by(b).waits_once(),
{
    let whole = a.followed_by(b);
    assert(whole.steps.last() == b.steps.last());
    assert forall|i: int| 0 <= i < whole.steps.len() - 1 implies !(
    #[trigger] whole.steps[i]).action.waits() by {
        if i < a.steps.len() {
            assert(whole.steps[i] == a.steps[i]);
        } else {
            assert(whole.steps[i] == b.steps[i - a.steps.len()]);
        }
    }
}

proof fn allocated_extends(steps: Seq<Step>, more: Seq<Step>)
    ensures
        allocated(steps + more) == allocated(steps) + allocated(more),
    decreases more.len(),
{
    if more.len() == 0 {
        assert(steps + more =~= steps);
    } else {
        allocated_extends(steps, more.drop_last());
        assert((steps + more).drop_last() =~= steps + more.drop_last());
        assert((steps + more).last() == more.last());
    }
}

/// A composition allocates what its first plan allocates and, where that ends
/// well, what its second allocates.
pub broadcast proof fn composition_allocates(a: PlanView, b: PlanView)
    ensures
        #[trigger] a.followed_by(b).scratch() == (if a.outcome is Err {
            a.scratch()
        } else {
            a.scratch() + b.scratch()
        }),
{
    allocated_extends(a.steps, b.steps);
}

/// Waiting allocates nothing.
pub broadcast proof fn synchronization_allocates(a: PlanView)
    ensures
        #[trigger] a.synchronized().scratch() == a.scratch(),
{
    let drains = a.steps.map_values(|step: Step| drained(step));
    assert(same_calls(drains, a.steps));
    allocated_of_same_calls(drains, a.steps);
    assert(a.synchronized().steps.drop_last() =~= drains);
}

/// What a single call allocates.
pub broadcast proof fn call_allocates(action: Action)
    ensures
        #[trigger] PlanView::one(action).scratch() == (match action {
            Action::Allocate { buffer, element } => seq![(buffer, element)],
            Action::AllocatePooled { buffer, element } => seq![(buffer, element)],
            _ => Seq::empty(),
        }),
{
    reveal_with_fuel(allocated, 2);
    assert(PlanView::one(action).steps.drop_last() =~= Seq::<Step>::empty());
}

/// A plan without an allocation allocates nothing.
pub broadcast proof fn nothing_allocated(a: PlanView)
    requires
        a.never_allocates(),
    ensures
        #[trigger] a.scratch() == Seq::<(DeviceBuffer, Element)>::empty(),
    decreases a.steps.len(),
{
    if a.steps.len() > 0 {
        let before = PlanView { steps: a.steps.drop_last(), outcome: a.outcome };
        assert forall|i: int| 0 <= i < before.steps.len() implies !(
        #[trigger] before.steps[i]).action.allocates() by {
            assert(before.steps[i] == a.steps[i]);
        }
        nothing_allocated(before);
        assert(a.steps.last() == a.steps[a.steps.len() - 1]);
    }
}

/// Plans without an allocation have none together.
pub broadcast proof fn composition_never_allocates(a: PlanView, b: PlanView)
    requires
        a.never_allocates(),
        b.never_allocates(),
    ensures
        #[trigger] a.followed_by(b).never_allocates(),
{
    let whole = a.followed_by(b);
    assert forall|i: int| 0 <= i < whole.steps.len() implies !(
    #[trigger] whole.steps[i]).action.allocates() by {
        if i < a.steps.len() {
            assert(whole.steps[i] == a.steps[i]);
        } else {
            assert(whole.steps[i] == b.steps[i - a.steps.len()]);
        }
    }
}

/// Waiting adds no allocation.
pub broadcast proof fn synchronization_never_allocates(a: PlanView)
    requires
        a.never_allocates(),
    ensures
        #[trigger] a.synchronized().never_allocates(),
{
    let whole = a.synchronized();
    assert forall|i: int| 0 <= i < whole.steps.len() implies !(
    #[trigger] whole.steps[i]).action.allocates() by {
        if i < a.steps.len() {
            assert(whole.steps[i].action == a.steps[i].action);
        }
    }
}

/// Plans that leave the pool alone do so together.
pub broadcast proof fn composition_never_pools(a: PlanView, b: PlanView)
    requires
        a.never_pools(),
        b.never_pools(),
    ensures
        #[trigger] a.followed_by(b).never_pools(),
{
    let whole = a.followed_by(b);
    assert forall|i: int| 0 <= i < whole.steps.len() implies !((
    #[trigger] whole.steps[i]).action is AllocatePooled) by {
        if i < a.steps.len() {
            assert(whole.steps[i] == a.steps[i]);
        } else {
            assert(whole.steps[i] == b.steps[i - a.steps.len()]);
        }
    }
}

/// Waiting does not touch the pool.
pub broadcast proof fn synchronization_never_pools(a: PlanView)
    requires
        a.never_pools(),
    ensures
        #[trigger] a.synchronized().never_pools(),
{
    let whole = a.synchronized();
    assert forall|i: int| 0 <= i < whole.steps.len() implies !((
    #[trigger] whole.steps[i]).action is AllocatePooled) by {
        if i < a.steps.len() {
            assert(whole.steps[i].action == a.steps[i].action);
        }
    }
}

/// Nor does draining.
pub broadcast proof fn guard_never_pools(a: PlanView)
    requires
        a.never_pools(),
    ensures
        #[trigger] a.guarded().never_pools(),
{
    let whole = a.guarded();
    assert forall|i: int| 0 <= i < whole.steps.len() implies !((
    #[trigger] whole.steps[i]).action is AllocatePooled) by {
        if i < a.steps.len() {
            assert(whole.steps[i].action == a.steps[i].action);
        }
    }
}

/// What allocates nothing leaves the pool alone.
pub broadcast proof fn no_allocation_no_pool(a: PlanView)
    requires
        a.never_allocates(),
    ensures
        #[trigger] a.never_pools(),
{
    assert forall|i: int| 0 <= i < a.steps.len() implies !((
    #[trigger] a.steps[i]).action is AllocatePooled) by {
        assert(!a.steps[i].action.allocates());
    }
}

/// A single call leaves the pool alone unless it allocates from it.
pub broadcast proof fn call_never_pools(action: Action)
    requires
        !(action is AllocatePooled),
    ensures
        #[trigger] PlanView::one(action).never_pools(),
{
}

pub broadcast group group_pooling {
    composition_never_pools,
    synchronization_never_pools,
    guard_never_pools,
    no_allocation_no_pool,
    call_never_pools,
}

pub broadcast group group_allocation {
    composition_never_allocates,
    synchronization_never_allocates,
    composition_allocates,
    synchronization_allocates,
    guard_allocates,
    call_allocates,
    nothing_allocated,
}

pub broadcast group group_waiting {
    composition_never_waits,
    synchronization_waits_once,
}

pub broadcast group group_kernel_matching {
    composition_matches_kernels,
    synchronization_matches_kernels,
    guard_matches_kernels,
}

pub broadcast group group_settling {
    composition_settles,
    synchronization_settles,
    idle_call_settles,
}

} // verus!
