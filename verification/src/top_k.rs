//! Deterministic top-k selection over `f32` scores.
//!
//! Selection runs `k` rounds. Each round is a multi-pass tree argmax over a
//! private copy of the input; it writes the winning value and index to the
//! next slot of the outputs, and the winner is masked before the next round.

use crate::arith::{ceil_div, ceil_div_covers, ceil_div_usize, power_of_two};
use crate::device::{BufferId, ContextId, DeviceBuffer, Element, Probe, Scratch, Stream};
use crate::error::{Checked, KernelError};
use crate::family::{
    both, block_check, bytes_check, check_block, check_shared, check_threads, loads, shared_bytes,
    shared_check, threads_check, Family,
};
use crate::launch::{line, line_shape, Arguments, Kernel, Launch, Pointer};
use crate::plan::{bare, Action, Plan, PlanView};
use crate::tree::{
    partial_count, partials, schedule, schedule_fits_the_scratch, schedule_reduces_to_one,
    tree_passes, Place, TreePass,
};
use vstd::prelude::*;

verus! {

/// The block width of [`F32TopK::load`].
pub const DEFAULT_BLOCK_SIZE: u32 = 256;

/// Attributes of the functions, as the driver reported them. The scans are
/// asked twice: for their thread limit and for their shared memory.
#[derive(Clone, Copy, Debug)]
pub struct TopKProbes {
    pub fill: Probe,
    pub mask: Probe,
    pub argmax_first: Probe,
    pub argmax_pair: Probe,
    pub argmax_first_memory: Probe,
    pub argmax_pair_memory: Probe,
}

/// The scratch of a selection from at most `max_elements`.
#[derive(Clone, Copy, Debug, PartialEq, Eq, Structural)]
pub struct SelectionWorkspace {
    pub max_elements: usize,
    pub block_size: u32,
    pub data: DeviceBuffer,
    pub values_a: DeviceBuffer,
    pub values_b: DeviceBuffer,
    pub indices_a: DeviceBuffer,
    pub indices_b: DeviceBuffer,
}

/// The allocations that a workspace is made of.
#[derive(Clone, Copy, Debug, PartialEq, Eq, Structural)]
pub struct SelectionBuffers {
    pub data: BufferId,
    pub values_a: BufferId,
    pub values_b: BufferId,
    pub indices_a: BufferId,
    pub indices_b: BufferId,
}

impl SelectionWorkspace {
    /// The copy holds the input, and the other buffers hold the partials of
    /// the first pass over `max_elements`.
    pub open spec fn sized(self) -> bool {
        let len = partials(self.max_elements as int, self.block_size as int);
        &&& self.block_size > 0
        &&& self.data.len == self.max_elements
        &&& self.values_a.len == len
        &&& self.values_b.len == len
        &&& self.indices_a.len == len
        &&& self.indices_b.len == len
    }
}

/// Reusable scratch storage for [`F32TopK`] selections.
#[derive(Debug)]
pub struct F32TopKWorkspace {
    workspace: SelectionWorkspace,
}

impl View for F32TopKWorkspace {
    type V = SelectionWorkspace;

    closed spec fn view(&self) -> SelectionWorkspace {
        self.workspace
    }
}

/// Context-bound deterministic top-k selection over `f32` inputs.
#[derive(Debug)]
pub struct F32TopK {
    family: Family,
}

impl View for F32TopK {
    type V = Family;

    closed spec fn view(&self) -> Family {
        self.family
    }
}

/// The operands of a selection of `k` elements.
#[derive(Clone, Copy, Debug, PartialEq, Eq, Structural)]
pub struct Selection {
    pub input: DeviceBuffer,
    pub values: DeviceBuffer,
    pub indices: DeviceBuffer,
    pub k: usize,
}

/// A block width that a selector may be loaded with.
pub open spec fn top_k_ready(width: u32) -> bool {
    &&& power_of_two(width as nat)
    &&& width * 8 <= u32::MAX
}

/// The checks on a block width that need no device.
pub open spec fn top_k_width_check(width: u32) -> Checked {
    both(block_check("top-k", width), bytes_check("top-k shared-memory size overflows", width, 8))
}

/// All checks of loading, in the order in which they decide.
pub open spec fn top_k_load_check(width: u32, probes: TopKProbes) -> Checked {
    let bytes = (width * 8) as u32;
    both(
        top_k_width_check(width),
        both(
            threads_check("top-k", width, probes.fill),
            both(
                threads_check("top-k", width, probes.mask),
                both(
                    threads_check("top-k", width, probes.argmax_first),
                    both(
                        threads_check("top-k", width, probes.argmax_pair),
                        both(
                            shared_check("top-k", bytes, probes.argmax_first_memory),
                            shared_check("top-k", bytes, probes.argmax_pair_memory),
                        ),
                    ),
                ),
            ),
        ),
    )
}

/// The context that a workspace is made for must be the selector's.
pub open spec fn selection_workspace_check(family: Family, context: ContextId) -> Checked {
    if context != family.context {
        Err(KernelError::Rule { family: "top-k", rule: "and workspace contexts do not match" })
    } else {
        Ok(())
    }
}

/// The workspace for inputs of at most `max_elements`.
pub open spec fn selection_workspace_for(
    family: Family,
    context: ContextId,
    max_elements: usize,
    buffers: SelectionBuffers,
) -> SelectionWorkspace {
    let len = partials(max_elements as int, family.width as int) as usize;
    SelectionWorkspace {
        max_elements,
        block_size: family.width,
        data: DeviceBuffer { id: buffers.data, len: max_elements, context },
        values_a: DeviceBuffer { id: buffers.values_a, len, context },
        values_b: DeviceBuffer { id: buffers.values_b, len, context },
        indices_a: DeviceBuffer { id: buffers.indices_a, len, context },
        indices_b: DeviceBuffer { id: buffers.indices_b, len, context },
    }
}

/// The allocations of a workspace.
pub open spec fn selection_allocation(workspace: SelectionWorkspace) -> PlanView {
    PlanView::one(Action::Allocate { buffer: workspace.data, element: Element::F32 }).followed_by(
        PlanView::one(Action::Allocate { buffer: workspace.values_a, element: Element::F32 }),
    ).followed_by(
        PlanView::one(Action::Allocate { buffer: workspace.values_b, element: Element::F32 }),
    ).followed_by(
        PlanView::one(Action::Allocate { buffer: workspace.indices_a, element: Element::U32 }),
    ).followed_by(
        PlanView::one(Action::Allocate { buffer: workspace.indices_b, element: Element::U32 }),
    )
}

/// The identities under which a selection allocates a workspace of its own.
pub open spec fn own_buffers() -> SelectionBuffers {
    SelectionBuffers {
        data: BufferId::Scratch(Scratch::SelectionData),
        values_a: BufferId::Scratch(Scratch::SelectionValuesA),
        values_b: BufferId::Scratch(Scratch::SelectionValuesB),
        indices_a: BufferId::Scratch(Scratch::SelectionIndicesA),
        indices_b: BufferId::Scratch(Scratch::SelectionIndicesB),
    }
}

/// The first rule that the operands break.
pub open spec fn selection_check(
    family: Family,
    stream: Stream,
    s: Selection,
    workspace: SelectionWorkspace,
) -> Checked {
    if s.k == 0 {
        Err(KernelError::Fixed("top-k requires at least one element"))
    } else if s.input.len < s.k {
        Err(KernelError::SelectionLength { input: s.input.len, k: s.k })
    } else if s.input.len > u32::MAX {
        Err(KernelError::Fixed("top-k input length exceeds u32::MAX"))
    } else if s.values.len != s.k || s.indices.len != s.k {
        Err(
            KernelError::SelectionOutputs {
                k: s.k,
                values: s.values.len,
                indices: s.indices.len,
            },
        )
    } else if s.input.len > workspace.max_elements {
        Err(
            KernelError::WorkspaceCapacity {
                family: "top-k",
                operand: "input has",
                actual: s.input.len,
                unit: "elements",
                capacity: workspace.max_elements,
            },
        )
    } else if workspace.block_size != family.width {
        Err(
            KernelError::WorkspaceBlockSize {
                workspace: workspace.block_size,
                family: "top-k",
                block_size: family.width,
            },
        )
    } else if stream.context != family.context || s.input.context != family.context
        || s.values.context != family.context || s.indices.context != family.context
        || workspace.data.context != family.context {
        Err(
            KernelError::Rule {
                family: "top-k",
                rule: "stream, buffers, workspace, and kernel must share one context",
            },
        )
    } else {
        Ok(())
    }
}

/// Where the values of a place are in the round that fills `slot`.
pub open spec fn values_at(
    place: Place,
    s: Selection,
    workspace: SelectionWorkspace,
    slot: nat,
) -> Pointer {
    match place {
        Place::Input => Pointer { buffer: workspace.data.id, byte_offset: 0 },
        Place::ScratchA => Pointer { buffer: workspace.values_a.id, byte_offset: 0 },
        Place::ScratchB => Pointer { buffer: workspace.values_b.id, byte_offset: 0 },
        Place::Output => Pointer { buffer: s.values.id, byte_offset: (slot * 4) as u64 },
    }
}

/// Where the indices that belong to the values of a place are. The copy of
/// the input has none: there an element's index is its position.
pub open spec fn indices_at(
    place: Place,
    s: Selection,
    workspace: SelectionWorkspace,
    slot: nat,
) -> Pointer {
    match place {
        Place::Input => Pointer { buffer: workspace.data.id, byte_offset: 0 },
        Place::ScratchA => Pointer { buffer: workspace.indices_a.id, byte_offset: 0 },
        Place::ScratchB => Pointer { buffer: workspace.indices_b.id, byte_offset: 0 },
        Place::Output => Pointer { buffer: s.indices.id, byte_offset: (slot * 4) as u64 },
    }
}

/// One pass of a round, with one block per candidate it leaves. The first
/// pass reads plain values, later ones pairs of value and index.
pub open spec fn scan_launch(
    width: u32,
    s: Selection,
    workspace: SelectionWorkspace,
    slot: nat,
    pass: TreePass,
) -> Launch {
    Launch {
        kernel: if pass.source == Place::Input {
            Kernel::TopKArgmaxFirst
        } else {
            Kernel::TopKArgmaxPair
        },
        shape: line(pass.output_elements as u32, width, (width * 8) as u32),
        arguments: if pass.source == Place::Input {
            Arguments::ScanFirst {
                source_values: values_at(pass.source, s, workspace, slot),
                output_values: values_at(pass.destination, s, workspace, slot),
                output_indices: indices_at(pass.destination, s, workspace, slot),
                count: pass.elements as u64,
            }
        } else {
            Arguments::ScanPair {
                source_values: values_at(pass.source, s, workspace, slot),
                source_indices: indices_at(pass.source, s, workspace, slot),
                output_values: values_at(pass.destination, s, workspace, slot),
                output_indices: indices_at(pass.destination, s, workspace, slot),
                count: pass.elements as u64,
            }
        },
    }
}

/// The round that fills `slot`: every pass in order.
pub open spec fn round_plan(
    width: u32,
    s: Selection,
    workspace: SelectionWorkspace,
    slot: nat,
    passes: Seq<TreePass>,
) -> PlanView {
    PlanView {
        steps: passes.map_values(
            |pass: TreePass| bare(Action::Launch(scan_launch(width, s, workspace, slot, pass))),
        ),
        outcome: Ok(()),
    }
}

/// The mask that keeps the winner in `slot` out of later rounds.
pub open spec fn mask_launch(s: Selection, workspace: SelectionWorkspace, slot: nat) -> Launch {
    Launch {
        kernel: Kernel::TopKMask,
        shape: line(1, 1, 0),
        arguments: Arguments::Mask {
            data: workspace.data.id,
            slot: slot as u64,
            indices: s.indices.id,
        },
    }
}

/// The first `rounds` of the `s.k` rounds. Every winner but the very last is
/// masked.
pub open spec fn rounds_plan(
    width: u32,
    s: Selection,
    workspace: SelectionWorkspace,
    passes: Seq<TreePass>,
    rounds: nat,
) -> PlanView
    decreases rounds,
{
    if rounds == 0 {
        PlanView::done()
    } else {
        let slot = (rounds - 1) as nat;
        let filled = rounds_plan(width, s, workspace, passes, slot).followed_by(
            round_plan(width, s, workspace, slot, passes),
        );
        if rounds < s.k {
            filled.followed_by(PlanView::one(Action::Launch(mask_launch(s, workspace, slot))))
        } else {
            filled
        }
    }
}

/// The copy of the input that the rounds work on.
pub open spec fn fill_launch(width: u32, s: Selection, workspace: SelectionWorkspace) -> Launch {
    Launch {
        kernel: Kernel::TopKFill,
        shape: line(ceil_div(s.input.len as int, width as int) as u32, width, 0),
        arguments: Arguments::Unary {
            input: s.input.id,
            output: workspace.data.id,
            count: s.input.len as u64,
        },
    }
}

/// What a selection does.
pub open spec fn selection_plan(
    family: Family,
    stream: Stream,
    s: Selection,
    workspace: SelectionWorkspace,
) -> PlanView {
    PlanView::checked(selection_check(family, stream, s, workspace)).followed_by(
        PlanView::one(Action::Launch(fill_launch(family.width, s, workspace))),
    ).followed_by(
        rounds_plan(
            family.width,
            s,
            workspace,
            schedule(s.input.len, family.width),
            s.k as nat,
        ),
    )
}

/// A selection with scratch of its own and a wait for completion.
pub open spec fn own_selection_plan(family: Family, stream: Stream, s: Selection) -> PlanView {
    let workspace = selection_workspace_for(family, s.input.context, s.input.len, own_buffers());
    PlanView::checked(selection_workspace_check(family, s.input.context)).followed_by(
        selection_allocation(workspace),
    ).followed_by(selection_plan(family, stream, s, workspace).synchronized())
}

fn get_values_at(
    place: Place,
    s: &Selection,
    workspace: &SelectionWorkspace,
    slot: usize,
) -> (at: Pointer)
    requires
        slot < u32::MAX,
    ensures
        at == values_at(place, *s, *workspace, slot as nat),
{
    match place {
        Place::Input => Pointer { buffer: workspace.data.id, byte_offset: 0 },
        Place::ScratchA => Pointer { buffer: workspace.values_a.id, byte_offset: 0 },
        Place::ScratchB => Pointer { buffer: workspace.values_b.id, byte_offset: 0 },
        Place::Output => Pointer { buffer: s.values.id, byte_offset: slot as u64 * 4 },
    }
}

fn get_indices_at(
    place: Place,
    s: &Selection,
    workspace: &SelectionWorkspace,
    slot: usize,
) -> (at: Pointer)
    requires
        slot < u32::MAX,
    ensures
        at == indices_at(place, *s, *workspace, slot as nat),
{
    match place {
        Place::Input => Pointer { buffer: workspace.data.id, byte_offset: 0 },
        Place::ScratchA => Pointer { buffer: workspace.indices_a.id, byte_offset: 0 },
        Place::ScratchB => Pointer { buffer: workspace.indices_b.id, byte_offset: 0 },
        Place::Output => Pointer { buffer: s.indices.id, byte_offset: slot as u64 * 4 },
    }
}

/// Plans the round that fills `slot`.
pub fn plan_round(
    width: u32,
    s: &Selection,
    workspace: &SelectionWorkspace,
    slot: usize,
    passes: &Vec<TreePass>,
) -> (plan: Plan)
    requires
        top_k_ready(width),
        slot < u32::MAX,
        forall|i: int|
            0 <= i < passes@.len() ==> (#[trigger] passes@[i]).output_elements <= u32::MAX,
    ensures
        plan@ == round_plan(width, *s, *workspace, slot as nat, passes@),
{
    let mut plan = Plan::done();
    let count: usize = passes.len();
    for i in 0..count
        invariant
            count == passes@.len(),
            top_k_ready(width),
            slot < u32::MAX,
            forall|i: int|
                0 <= i < passes@.len() ==> (#[trigger] passes@[i]).output_elements <= u32::MAX,
            plan@ == round_plan(width, *s, *workspace, slot as nat, passes@.take(i as int)),
    {
        let pass = passes[i];
        let output_values = get_values_at(pass.destination, s, workspace, slot);
        let output_indices = get_indices_at(pass.destination, s, workspace, slot);
        let source_values = get_values_at(pass.source, s, workspace, slot);
        let shape = line_shape(pass.output_elements as u32, width, width * 8);
        let scan = if pass.source == Place::Input {
            Plan::launch(
                Kernel::TopKArgmaxFirst,
                shape,
                Arguments::ScanFirst {
                    source_values,
                    output_values,
                    output_indices,
                    count: pass.elements as u64,
                },
            )
        } else {
            Plan::launch(
                Kernel::TopKArgmaxPair,
                shape,
                Arguments::ScanPair {
                    source_values,
                    source_indices: get_indices_at(pass.source, s, workspace, slot),
                    output_values,
                    output_indices,
                    count: pass.elements as u64,
                },
            )
        };
        plan = plan.followed_by(scan);
        assert(plan@.steps =~= round_plan(
            width,
            *s,
            *workspace,
            slot as nat,
            passes@.take(i + 1),
        ).steps);
    }
    assert(passes@.take(count as int) =~= passes@);
    plan
}

/// Plans the allocations of a workspace.
pub fn plan_selection_workspace(workspace: &SelectionWorkspace) -> (plan: Plan)
    ensures
        plan@ == selection_allocation(*workspace),
{
    Plan::one(Action::Allocate { buffer: workspace.data, element: Element::F32 }).followed_by(
        Plan::one(Action::Allocate { buffer: workspace.values_a, element: Element::F32 }),
    ).followed_by(
        Plan::one(Action::Allocate { buffer: workspace.values_b, element: Element::F32 }),
    ).followed_by(
        Plan::one(Action::Allocate { buffer: workspace.indices_a, element: Element::U32 }),
    ).followed_by(
        Plan::one(Action::Allocate { buffer: workspace.indices_b, element: Element::U32 }),
    )
}

impl F32TopKWorkspace {
    #[verifier::type_invariant]
    spec fn sized(self) -> bool {
        self.workspace.sized()
    }

    /// The largest input the workspace serves.
    pub fn max_elements(&self) -> (elements: usize)
        ensures
            elements == self@.max_elements,
    {
        self.workspace.max_elements
    }

    /// Plans the allocation of the scratch buffers.
    pub fn allocation(&self) -> (plan: Plan)
        ensures
            plan@ == selection_allocation(self@),
    {
        plan_selection_workspace(&self.workspace)
    }
}

impl F32TopK {
    #[verifier::type_invariant]
    spec fn ready(self) -> bool {
        top_k_ready(self.family.width)
    }

    /// Checks a block width before anything is compiled.
    pub fn check_block_size(block_size: u32) -> (check: Checked)
        ensures
            check == top_k_width_check(block_size),
    {
        check_block("top-k", block_size)?;
        shared_bytes("top-k shared-memory size overflows", block_size, 8)?;
        Ok(())
    }

    /// Accepts the compiled functions with the default block width.
    pub fn load(context: ContextId, probes: &TopKProbes) -> (result: Result<F32TopK, KernelError>)
        ensures
            loads(
                result,
                top_k_load_check(DEFAULT_BLOCK_SIZE, *probes),
                Family { context, width: DEFAULT_BLOCK_SIZE },
            ),
    {
        Self::load_with_block_size(context, DEFAULT_BLOCK_SIZE, probes)
    }

    /// Accepts the compiled functions with an explicit power-of-two width.
    pub fn load_with_block_size(
        context: ContextId,
        block_size: u32,
        probes: &TopKProbes,
    ) -> (result: Result<F32TopK, KernelError>)
        ensures
            loads(
                result,
                top_k_load_check(block_size, *probes),
                Family { context, width: block_size },
            ),
    {
        check_block("top-k", block_size)?;
        let bytes: u32 = shared_bytes("top-k shared-memory size overflows", block_size, 8)?;
        check_threads("top-k", block_size, probes.fill)?;
        check_threads("top-k", block_size, probes.mask)?;
        check_threads("top-k", block_size, probes.argmax_first)?;
        check_threads("top-k", block_size, probes.argmax_pair)?;
        check_shared("top-k", bytes, probes.argmax_first_memory)?;
        check_shared("top-k", bytes, probes.argmax_pair_memory)?;
        Ok(F32TopK { family: Family { context, width: block_size } })
    }

    /// Thread-block width of every pass.
    pub fn block_size(&self) -> (width: u32)
        ensures
            width == self@.width,
            power_of_two(width as nat),
    {
        proof {
            use_type_invariant(self);
        }
        self.family.width
    }

    /// Describes scratch storage reusable for inputs up to `max_elements`, to
    /// be allocated under the given identities.
    pub fn workspace(
        &self,
        context: ContextId,
        max_elements: usize,
        buffers: &SelectionBuffers,
    ) -> (workspace: Result<F32TopKWorkspace, KernelError>)
        ensures
            match workspace {
                Ok(workspace) => selection_workspace_check(self@, context) is Ok && workspace@
                    == selection_workspace_for(self@, context, max_elements, *buffers),
                Err(error) => selection_workspace_check(self@, context) == Checked::Err(error),
            },
    {
        proof {
            use_type_invariant(self);
        }
        if context != self.family.context {
            return Err(
                KernelError::Rule { family: "top-k", rule: "and workspace contexts do not match" },
            );
        }
        let len: usize = partial_count(max_elements, self.family.width)?;
        proof {
            ceil_div_covers(max_elements as int, 2 * self.family.width as int);
        }
        Ok(
            F32TopKWorkspace {
                workspace: SelectionWorkspace {
                    max_elements,
                    block_size: self.family.width,
                    data: DeviceBuffer { id: buffers.data, len: max_elements, context },
                    values_a: DeviceBuffer { id: buffers.values_a, len, context },
                    values_b: DeviceBuffer { id: buffers.values_b, len, context },
                    indices_a: DeviceBuffer { id: buffers.indices_a, len, context },
                    indices_b: DeviceBuffer { id: buffers.indices_b, len, context },
                },
            },
        )
    }

    /// Plans the selection of the top `k` elements with a wait for completion.
    pub fn top_k(
        &self,
        stream: &Stream,
        input: &DeviceBuffer,
        values: &DeviceBuffer,
        indices: &DeviceBuffer,
        k: usize,
    ) -> (plan: Plan)
        ensures
            plan@ == own_selection_plan(
                self@,
                *stream,
                Selection { input: *input, values: *values, indices: *indices, k },
            ),
    {
        let s = &Selection { input: *input, values: *values, indices: *indices, k };
        let buffers = SelectionBuffers {
            data: BufferId::Scratch(Scratch::SelectionData),
            values_a: BufferId::Scratch(Scratch::SelectionValuesA),
            values_b: BufferId::Scratch(Scratch::SelectionValuesB),
            indices_a: BufferId::Scratch(Scratch::SelectionIndicesA),
            indices_b: BufferId::Scratch(Scratch::SelectionIndicesB),
        };
        match self.workspace(s.input.context, s.input.len, &buffers) {
            Err(error) => Plan::rejected(error),
            Ok(workspace) => {
                let selection = self.enqueue_top_k(stream, input, values, indices, k, &workspace);
                workspace.allocation().followed_by(selection.synchronized())
            },
        }
    }

    /// Plans every selection pass without a wait.
    pub fn enqueue_top_k(
        &self,
        stream: &Stream,
        input: &DeviceBuffer,
        values: &DeviceBuffer,
        indices: &DeviceBuffer,
        k: usize,
        workspace: &F32TopKWorkspace,
    ) -> (plan: Plan)
        ensures
            plan@ == selection_plan(
                self@,
                *stream,
                Selection { input: *input, values: *values, indices: *indices, k },
                workspace@,
            ),
    {
        let s = &Selection { input: *input, values: *values, indices: *indices, k };
        proof {
            use_type_invariant(self);
        }
        if let Err(error) = self.validate_execution(stream, s, workspace) {
            return Plan::rejected(error);
        }
        let width: u32 = self.family.width;
        let work = workspace.workspace;
        proof {
            ceil_div_covers(s.input.len as int, width as int);
            ceil_div_covers(s.input.len as int, 2 * width as int);
            schedule_fits_the_scratch(s.input.len, s.input.len, width);
        }
        let mut plan = Plan::launch(
            Kernel::TopKFill,
            line_shape(ceil_div_usize(s.input.len, width as usize) as u32, width, 0),
            Arguments::Unary { input: s.input.id, output: work.data.id, count: s.input.len as u64 },
        );
        let ghost fill = plan@;
        let passes = tree_passes(s.input.len, width);
        for slot in 0..s.k
            invariant
                top_k_ready(width),
                s.k <= u32::MAX,
                forall|i: int|
                    0 <= i < passes@.len() ==> (#[trigger] passes@[i]).output_elements <= u32::MAX,
                fill.outcome is Ok,
                plan@ == fill.followed_by(
                    rounds_plan(width, *s, work, passes@, slot as nat),
                ),
                plan@.outcome is Ok,
        {
            plan = plan.followed_by(plan_round(width, s, &work, slot, &passes));
            if slot + 1 < s.k {
                plan = plan.followed_by(
                    Plan::launch(
                        Kernel::TopKMask,
                        line_shape(1, 1, 0),
                        Arguments::Mask {
                            data: work.data.id,
                            slot: slot as u64,
                            indices: s.indices.id,
                        },
                    ),
                );
            }
            assert(plan@.steps =~= fill.followed_by(
                rounds_plan(width, *s, work, passes@, (slot + 1) as nat),
            ).steps);
        }
        plan
    }

    /// Checks the operands.
    pub fn validate_execution(
        &self,
        stream: &Stream,
        s: &Selection,
        workspace: &F32TopKWorkspace,
    ) -> (check: Checked)
        ensures
            check == selection_check(self@, *stream, *s, workspace@),
    {
        let work = workspace.workspace;
        if s.k == 0 {
            return Err(KernelError::Fixed("top-k requires at least one element"));
        }
        if s.input.len < s.k {
            return Err(KernelError::SelectionLength { input: s.input.len, k: s.k });
        }
        if s.input.len > u32::MAX as usize {
            return Err(KernelError::Fixed("top-k input length exceeds u32::MAX"));
        }
        if s.values.len != s.k || s.indices.len != s.k {
            return Err(
                KernelError::SelectionOutputs {
                    k: s.k,
                    values: s.values.len,
                    indices: s.indices.len,
                },
            );
        }
        if s.input.len > work.max_elements {
            return Err(
                KernelError::WorkspaceCapacity {
                    family: "top-k",
                    operand: "input has",
                    actual: s.input.len,
                    unit: "elements",
                    capacity: work.max_elements,
                },
            );
        }
        if work.block_size != self.family.width {
            return Err(
                KernelError::WorkspaceBlockSize {
                    workspace: work.block_size,
                    family: "top-k",
                    block_size: self.family.width,
                },
            );
        }
        let context = self.family.context;
        if stream.context != context || s.input.context != context || s.values.context != context
            || s.indices.context != context || work.data.context != context {
            return Err(
                KernelError::Rule {
                    family: "top-k",
                    rule: "stream, buffers, workspace, and kernel must share one context",
                },
            );
        }
        Ok(())
    }
}

/// Where round `slot` starts among the steps of the rounds.
pub open spec fn round_start(passes: Seq<TreePass>, slot: nat) -> int {
    slot * (passes.len() + 1) as int
}

/// The rounds run one after the other. Round `slot` begins after the passes
/// and the mask of every earlier round and runs all of its passes in order;
/// unless it is the last, the mask of its winner follows at once, so no later
/// round can select that element again.
pub proof fn rounds_run_in_order(
    width: u32,
    s: Selection,
    workspace: SelectionWorkspace,
    passes: Seq<TreePass>,
    slot: nat,
    pass: int,
)
    requires
        slot < s.k,
        0 <= pass < passes.len(),
    ensures
        rounds_plan(width, s, workspace, passes, s.k as nat).outcome is Ok,
        rounds_plan(width, s, workspace, passes, s.k as nat).steps.len() == s.k * (passes.len() + 1)
            - 1,
        rounds_plan(width, s, workspace, passes, s.k as nat).steps[round_start(passes, slot) + pass]
            == bare(Action::Launch(scan_launch(width, s, workspace, slot, passes[pass]))),
        slot + 1 < s.k ==> rounds_plan(width, s, workspace, passes, s.k as nat).steps[round_start(
            passes,
            slot,
        ) + passes.len()] == bare(Action::Launch(mask_launch(s, workspace, slot))),
{
    rounds_from(width, s, workspace, passes, s.k as nat, slot, pass);
}

proof fn rounds_from(
    width: u32,
    s: Selection,
    workspace: SelectionWorkspace,
    passes: Seq<TreePass>,
    rounds: nat,
    slot: nat,
    pass: int,
)
    requires
        slot < rounds <= s.k,
        0 <= pass < passes.len(),
    ensures
        rounds_plan(width, s, workspace, passes, rounds).outcome is Ok,
        rounds_plan(width, s, workspace, passes, rounds).steps.len() == rounds * (passes.len() + 1)
            - (if rounds < s.k {
            0int
        } else {
            1
        }),
        rounds_plan(width, s, workspace, passes, rounds).steps[round_start(passes, slot) + pass]
            == bare(Action::Launch(scan_launch(width, s, workspace, slot, passes[pass]))),
        slot + 1 < s.k ==> rounds_plan(width, s, workspace, passes, rounds).steps[round_start(
            passes,
            slot,
        ) + passes.len()] == bare(Action::Launch(mask_launch(s, workspace, slot))),
    decreases rounds,
{
    let before = (rounds - 1) as nat;
    let length = (passes.len() + 1) as int;
    assert(rounds * length == before * length + length) by (nonlinear_arith)
        requires
            rounds == before + 1,
    ;
    if before > 0 {
        let earlier = if slot < before {
            slot
        } else {
            0
        };
        rounds_from(width, s, workspace, passes, before, earlier, pass);
    }
    assert(0 * length == 0);
    if slot < before {
        assert(slot * length + length <= before * length) by (nonlinear_arith)
            requires
                slot + 1 <= before,
                length > 0,
        ;
        assert(0 <= slot * length) by (nonlinear_arith)
            requires
                0 <= slot,
                length > 0,
        ;
    }
}

/// The last pass of every round writes the winner to that round's slot of
/// both outputs, and different rounds write to different places inside them.
pub proof fn winners_fill_the_slots(
    family: Family,
    stream: Stream,
    s: Selection,
    workspace: SelectionWorkspace,
    slot: nat,
    other: nat,
)
    requires
        selection_check(family, stream, s, workspace) is Ok,
        family.width > 0,
        slot < s.k,
        other < s.k,
    ensures
        schedule(s.input.len, family.width).last().destination == Place::Output,
        values_at(Place::Output, s, workspace, slot).byte_offset == slot * 4,
        values_at(Place::Output, s, workspace, slot).byte_offset + 4 <= s.values.len * 4,
        indices_at(Place::Output, s, workspace, slot).byte_offset == slot * 4,
        indices_at(Place::Output, s, workspace, slot).byte_offset + 4 <= s.indices.len * 4,
        values_at(Place::Output, s, workspace, slot) == values_at(
            Place::Output,
            s,
            workspace,
            other,
        ) ==> slot == other,
        indices_at(Place::Output, s, workspace, slot) == indices_at(
            Place::Output,
            s,
            workspace,
            other,
        ) ==> slot == other,
{
    schedule_reduces_to_one(s.input.len, family.width);
}

/// A selection submits nothing where it is refused and runs to its end where
/// it is not: one fill, and per round the whole schedule and a mask.
pub proof fn selection_runs_or_submits_nothing(
    family: Family,
    stream: Stream,
    s: Selection,
    workspace: SelectionWorkspace,
)
    requires
        family.width > 0,
    ensures
        selection_plan(family, stream, s, workspace).outcome == selection_check(
            family,
            stream,
            s,
            workspace,
        ),
        selection_check(family, stream, s, workspace) is Err ==> selection_plan(
            family,
            stream,
            s,
            workspace,
        ).steps.len() == 0,
        selection_check(family, stream, s, workspace) is Ok ==> selection_plan(
            family,
            stream,
            s,
            workspace,
        ).steps.len() == s.k * (schedule(s.input.len, family.width).len() + 1),
{
    if let Ok(unit) = selection_check(family, stream, s, workspace) {
        assert(unit == ());
        let passes = schedule(s.input.len, family.width);
        schedule_reduces_to_one(s.input.len, family.width);
        rounds_run_in_order(family.width, s, workspace, passes, 0, 0);
        let rounds = rounds_plan(family.width, s, workspace, passes, s.k as nat);
        if let Ok(done) = rounds.outcome {
            assert(done == ());
        }
    }
}

/// A workspace of the selector serves every smaller input: the copy and the
/// candidates of every pass fit its buffers.
pub proof fn selection_fits_the_workspace(
    family: Family,
    stream: Stream,
    s: Selection,
    workspace: SelectionWorkspace,
    pass: int,
)
    requires
        workspace.sized(),
        selection_check(family, stream, s, workspace) is Ok,
        0 <= pass < schedule(s.input.len, family.width).len(),
    ensures
        s.input.len <= workspace.data.len,
        schedule(s.input.len, family.width)[pass].output_elements <= workspace.values_a.len,
        schedule(s.input.len, family.width)[pass].output_elements <= workspace.values_b.len,
        schedule(s.input.len, family.width)[pass].output_elements <= workspace.indices_a.len,
        schedule(s.input.len, family.width)[pass].output_elements <= workspace.indices_b.len,
{
    schedule_fits_the_scratch(s.input.len, workspace.max_elements, family.width);
}

} // verus!
