//! Fused batch-one LM-head projection and greedy argmax: each block emits one
//! `(value, token)` candidate, and a second reduction selects the winner.

use crate::arith::{ceil_div, ceil_div_covers, fits, power_of_two};
use crate::device::{BufferId, ContextId, DeviceBuffer, Element, Probe, Stream};
use crate::error::{Checked, KernelError};
use crate::family::{
    both, block_check, bytes_check, check_block, check_limits, limits_check, loads, shared_bytes,
    Family,
};
use crate::gemv::{check_exact_length, exact_length};
use crate::launch::{line, line_shape, Arguments, Kernel};
use crate::plan::{Action, Plan, PlanView};
use vstd::prelude::*;

verus! {

/// The block width of [`F32LmHeadArgmax::load`].
pub const DEFAULT_BLOCK_SIZE: u32 = 64;

/// Attributes of the two functions, as the driver reported them.
#[derive(Clone, Copy, Debug)]
pub struct LmHeadProbes {
    pub candidates: Probe,
    pub reduce: Probe,
}

/// The candidate storage for one vocabulary size and block width.
#[derive(Clone, Copy, Debug, PartialEq, Eq, Structural)]
pub struct CandidateWorkspace {
    pub vocab: usize,
    pub block_size: u32,
    pub values: DeviceBuffer,
    pub indices: DeviceBuffer,
}

impl CandidateWorkspace {
    /// There is one candidate per block of tokens, and the vocabulary is one
    /// that a workspace can be made for.
    pub open spec fn sized(self) -> bool {
        &&& 0 < self.vocab <= u32::MAX
        &&& self.block_size > 0
        &&& self.values.len == ceil_div(self.vocab as int, self.block_size as int)
        &&& self.indices.len == ceil_div(self.vocab as int, self.block_size as int)
    }
}

/// Candidate storage for [`F32LmHeadArgmax`].
#[derive(Debug)]
pub struct F32LmHeadArgmaxWorkspace {
    workspace: CandidateWorkspace,
}

impl View for F32LmHeadArgmaxWorkspace {
    type V = CandidateWorkspace;

    closed spec fn view(&self) -> CandidateWorkspace {
        self.workspace
    }
}

/// Context-bound fused LM-head projection and greedy top-1 candidate.
#[derive(Debug)]
pub struct F32LmHeadArgmax {
    family: Family,
}

impl View for F32LmHeadArgmax {
    type V = Family;

    closed spec fn view(&self) -> Family {
        self.family
    }
}

/// The operands and the shape of an argmax projection.
#[derive(Clone, Copy, Debug, PartialEq, Eq, Structural)]
pub struct ArgmaxProjection {
    pub input: DeviceBuffer,
    pub weight: DeviceBuffer,
    pub output_value: DeviceBuffer,
    pub output_index: DeviceBuffer,
    pub k: usize,
    pub vocab: usize,
}

/// The checks on a block width that need no device.
pub open spec fn lm_head_width_check(width: u32) -> Checked {
    both(
        block_check("LM-head argmax", width),
        bytes_check("LM-head argmax shared-memory size overflows", width, 8),
    )
}

/// All checks of loading, in the order in which they decide.
pub open spec fn lm_head_load_check(width: u32, probes: LmHeadProbes) -> Checked {
    let bytes = (width * 8) as u32;
    both(
        lm_head_width_check(width),
        both(
            limits_check("LM-head argmax", width, bytes, probes.candidates),
            limits_check("LM-head argmax", width, bytes, probes.reduce),
        ),
    )
}

/// A vocabulary must be non-empty and its tokens countable in 32 bits.
pub open spec fn vocab_check(vocab: usize) -> Checked {
    if vocab == 0 {
        Err(KernelError::Fixed("LM-head argmax vocabulary must be non-zero"))
    } else if vocab > u32::MAX {
        Err(KernelError::Fixed("LM-head argmax vocabulary exceeds u32::MAX"))
    } else {
        Ok(())
    }
}

/// The first rule that a request for candidate storage breaks.
pub open spec fn candidate_workspace_check(
    family: Family,
    context: ContextId,
    vocab: usize,
) -> Checked {
    if vocab_check(vocab) is Err {
        vocab_check(vocab)
    } else if context != family.context {
        Err(KernelError::Fixed("LM-head argmax and workspace contexts do not match"))
    } else if !fits(vocab + (family.width - 1)) {
        Err(KernelError::Fixed("LM-head argmax candidate count overflows"))
    } else {
        Ok(())
    }
}

/// The candidate storage for a vocabulary.
pub open spec fn candidate_workspace_for(
    family: Family,
    context: ContextId,
    vocab: usize,
    values: BufferId,
    indices: BufferId,
) -> CandidateWorkspace {
    let len = ceil_div(vocab as int, family.width as int) as usize;
    CandidateWorkspace {
        vocab,
        block_size: family.width,
        values: DeviceBuffer { id: values, len, context },
        indices: DeviceBuffer { id: indices, len, context },
    }
}

/// The first rule that the operands break.
pub open spec fn argmax_check(
    family: Family,
    stream: Stream,
    p: ArgmaxProjection,
    workspace: CandidateWorkspace,
) -> Checked {
    if vocab_check(p.vocab) is Err {
        vocab_check(p.vocab)
    } else if !fits(p.k * p.vocab) {
        Err(KernelError::Fixed("LM-head argmax shape overflows usize"))
    } else if p.input.len != p.k {
        exact_length("LM-head argmax", "input has", p.input.len, p.k)
    } else if p.weight.len != p.k * p.vocab {
        Err(
            KernelError::Shape {
                family: "LM-head argmax",
                operand: "weight has",
                actual: p.weight.len,
                unit: "elements",
                rows: p.k,
                cols: p.vocab,
                required: (p.k * p.vocab) as usize,
            },
        )
    } else if p.output_value.len != 1 || p.output_index.len != 1 {
        Err(
            KernelError::CandidateOutputs {
                values: p.output_value.len,
                indices: p.output_index.len,
            },
        )
    } else if workspace.vocab != p.vocab || workspace.block_size != family.width {
        Err(
            KernelError::Fixed(
                "LM-head argmax workspace shape or block size does not match the operation",
            ),
        )
    } else if stream.context != family.context || p.input.context != family.context
        || p.weight.context != family.context || p.output_value.context != family.context
        || p.output_index.context != family.context || workspace.values.context != family.context
        || workspace.indices.context != family.context {
        Err(
            KernelError::Fixed(
                "LM-head argmax stream, buffers, workspace and kernel must share one context",
            ),
        )
    } else {
        Ok(())
    }
}

/// What an argmax projection does: one candidate per block of tokens, then
/// one block that selects the winner.
pub open spec fn argmax_plan(
    family: Family,
    stream: Stream,
    p: ArgmaxProjection,
    workspace: CandidateWorkspace,
) -> PlanView {
    let bytes = (family.width * 8) as u32;
    PlanView::checked(argmax_check(family, stream, p, workspace)).followed_by(
        PlanView::launch(
            Kernel::LmHeadCandidates,
            line(workspace.values.len as u32, family.width, bytes),
            Arguments::Candidates {
                input: p.input.id,
                weight: p.weight.id,
                values: workspace.values.id,
                indices: workspace.indices.id,
                k: p.k as u64,
                vocab: p.vocab as u64,
            },
        ),
    ).followed_by(
        PlanView::launch(
            Kernel::LmHeadReduce,
            line(1, family.width, bytes),
            Arguments::ReduceCandidates {
                values: workspace.values.id,
                indices: workspace.indices.id,
                output_value: p.output_value.id,
                output_index: p.output_index.id,
                count: workspace.values.len as u64,
            },
        ),
    )
}

/// The allocations of candidate storage.
pub open spec fn candidate_allocation(workspace: CandidateWorkspace) -> PlanView {
    PlanView::one(Action::Allocate { buffer: workspace.values, element: Element::F32 }).followed_by(
        PlanView::one(Action::Allocate { buffer: workspace.indices, element: Element::U32 }),
    )
}

fn check_vocab(vocab: usize) -> (check: Checked)
    ensures
        check == vocab_check(vocab),
{
    if vocab == 0 {
        return Err(KernelError::Fixed("LM-head argmax vocabulary must be non-zero"));
    }
    if vocab > u32::MAX as usize {
        return Err(KernelError::Fixed("LM-head argmax vocabulary exceeds u32::MAX"));
    }
    Ok(())
}

impl F32LmHeadArgmaxWorkspace {
    #[verifier::type_invariant]
    spec fn sized(self) -> bool {
        self.workspace.sized()
    }

    /// The vocabulary size the storage is for.
    pub fn vocab(&self) -> (vocab: usize)
        ensures
            vocab == self@.vocab,
            0 < vocab <= u32::MAX,
    {
        proof {
            use_type_invariant(self);
        }
        self.workspace.vocab
    }

    /// The number of candidates, one per block of tokens.
    pub fn candidate_count(&self) -> (count: usize)
        ensures
            count == self@.values.len,
            count == self@.indices.len,
            count == ceil_div(self@.vocab as int, self@.block_size as int),
    {
        proof {
            use_type_invariant(self);
        }
        self.workspace.values.len
    }

    /// Plans the allocation of the candidate buffers.
    pub fn allocation(&self) -> (plan: Plan)
        ensures
            plan@ == candidate_allocation(self@),
    {
        Plan::one(
            Action::Allocate { buffer: self.workspace.values, element: Element::F32 },
        ).followed_by(
            Plan::one(Action::Allocate { buffer: self.workspace.indices, element: Element::U32 }),
        )
    }
}

impl F32LmHeadArgmax {
    #[verifier::type_invariant]
    spec fn ready(self) -> bool {
        &&& power_of_two(self.family.width as nat)
        &&& self.family.width * 8 <= u32::MAX
    }

    /// Checks a block width before anything is compiled.
    pub fn check_block_size(block_size: u32) -> (check: Checked)
        ensures
            check == lm_head_width_check(block_size),
    {
        check_block("LM-head argmax", block_size)?;
        shared_bytes("LM-head argmax shared-memory size overflows", block_size, 8)?;
        Ok(())
    }

    /// Accepts the compiled functions with the default block width.
    pub fn load(
        context: ContextId,
        probes: &LmHeadProbes,
    ) -> (result: Result<F32LmHeadArgmax, KernelError>)
        ensures
            loads(
                result,
                lm_head_load_check(DEFAULT_BLOCK_SIZE, *probes),
                Family { context, width: DEFAULT_BLOCK_SIZE },
            ),
    {
        Self::load_with_block_size(context, DEFAULT_BLOCK_SIZE, probes)
    }

    /// Accepts the compiled functions with an explicit power-of-two width.
    pub fn load_with_block_size(
        context: ContextId,
        block_size: u32,
        probes: &LmHeadProbes,
    ) -> (result: Result<F32LmHeadArgmax, KernelError>)
        ensures
            loads(
                result,
                lm_head_load_check(block_size, *probes),
                Family { context, width: block_size },
            ),
    {
        check_block("LM-head argmax", block_size)?;
        let bytes: u32 = shared_bytes(
            "LM-head argmax shared-memory size overflows",
            block_size,
            8,
        )?;
        check_limits("LM-head argmax", block_size, bytes, probes.candidates)?;
        check_limits("LM-head argmax", block_size, bytes, probes.reduce)?;
        Ok(F32LmHeadArgmax { family: Family { context, width: block_size } })
    }

    /// Thread-block width of both functions.
    pub fn block_size(&self) -> (width: u32)
        ensures
            width == self@.width,
            power_of_two(width as nat),
    {
        proof {
            use_type_invariant(self);
        }
        self.family.width
    }

    /// Describes candidate storage for a vocabulary, to be allocated under the
    /// given identities.
    pub fn workspace(
        &self,
        context: ContextId,
        vocab: usize,
        values: BufferId,
        indices: BufferId,
    ) -> (workspace: Result<F32LmHeadArgmaxWorkspace, KernelError>)
        ensures
            match workspace {
                Ok(workspace) => candidate_workspace_check(self@, context, vocab) is Ok
                    && workspace@ == candidate_workspace_for(
                    self@,
                    context,
                    vocab,
                    values,
                    indices,
                ),
                Err(error) => candidate_workspace_check(self@, context, vocab) == Checked::Err(
                    error,
                ),
            },
    {
        proof {
            use_type_invariant(self);
        }
        check_vocab(vocab)?;
        if context != self.family.context {
            return Err(KernelError::Fixed("LM-head argmax and workspace contexts do not match"));
        }
        let width: usize = self.family.width as usize;
        let padded: usize = match vocab.checked_add(width - 1) {
            Some(padded) => padded,
            None => {
                return Err(KernelError::Fixed("LM-head argmax candidate count overflows"));
            },
        };
        let len: usize = padded / width;
        proof {
            rounded_up(vocab as int, width as int);
            ceil_div_covers(vocab as int, width as int);
        }
        Ok(
            F32LmHeadArgmaxWorkspace {
                workspace: CandidateWorkspace {
                    vocab,
                    block_size: self.family.width,
                    values: DeviceBuffer { id: values, len, context },
                    indices: DeviceBuffer { id: indices, len, context },
                },
            },
        )
    }

    /// Plans the projection and argmax with a wait for completion.
    pub fn argmax_kn(
        &self,
        stream: &Stream,
        input: &DeviceBuffer,
        weight: &DeviceBuffer,
        output_value: &DeviceBuffer,
        output_index: &DeviceBuffer,
        k: usize,
        vocab: usize,
        workspace: &F32LmHeadArgmaxWorkspace,
    ) -> (plan: Plan)
        ensures
            plan@ == argmax_plan(
                self@,
                *stream,
                ArgmaxProjection {
                    input: *input,
                    weight: *weight,
                    output_value: *output_value,
                    output_index: *output_index,
                    k,
                    vocab,
                },
                workspace@,
            ).synchronized(),
    {
        self.enqueue_argmax_kn(
            stream,
            input,
            weight,
            output_value,
            output_index,
            k,
            vocab,
            workspace,
        ).synchronized()
    }

    /// Plans the projection and argmax without a wait; the vocabulary row is
    /// never materialized.
    pub fn enqueue_argmax_kn(
        &self,
        stream: &Stream,
        input: &DeviceBuffer,
        weight: &DeviceBuffer,
        output_value: &DeviceBuffer,
        output_index: &DeviceBuffer,
        k: usize,
        vocab: usize,
        workspace: &F32LmHeadArgmaxWorkspace,
    ) -> (plan: Plan)
        ensures
            plan@ == argmax_plan(
                self@,
                *stream,
                ArgmaxProjection {
                    input: *input,
                    weight: *weight,
                    output_value: *output_value,
                    output_index: *output_index,
                    k,
                    vocab,
                },
                workspace@,
            ),
    {
        let p = &ArgmaxProjection {
            input: *input,
            weight: *weight,
            output_value: *output_value,
            output_index: *output_index,
            k,
            vocab,
        };
        proof {
            use_type_invariant(self);
            use_type_invariant(workspace);
            ceil_div_covers(workspace@.vocab as int, workspace@.block_size as int);
        }
        let check = self.validate_execution(stream, p, workspace);
        let count: usize = workspace.candidate_count();
        let bytes: u32 = self.family.width * 8;
        let work = workspace.workspace;
        Plan::checked(check).followed_by(
            Plan::launch(
                Kernel::LmHeadCandidates,
                line_shape(count as u32, self.family.width, bytes),
                Arguments::Candidates {
                    input: p.input.id,
                    weight: p.weight.id,
                    values: work.values.id,
                    indices: work.indices.id,
                    k: p.k as u64,
                    vocab: p.vocab as u64,
                },
            ),
        ).followed_by(
            Plan::launch(
                Kernel::LmHeadReduce,
                line_shape(1, self.family.width, bytes),
                Arguments::ReduceCandidates {
                    values: work.values.id,
                    indices: work.indices.id,
                    output_value: p.output_value.id,
                    output_index: p.output_index.id,
                    count: count as u64,
                },
            ),
        )
    }

    /// Checks the operands.
    pub fn validate_execution(
        &self,
        stream: &Stream,
        p: &ArgmaxProjection,
        workspace: &F32LmHeadArgmaxWorkspace,
    ) -> (check: Checked)
        ensures
            check == argmax_check(self@, *stream, *p, workspace@),
    {
        check_vocab(p.vocab)?;
        let expected: usize = match p.k.checked_mul(p.vocab) {
            Some(elements) => elements,
            None => {
                return Err(KernelError::Fixed("LM-head argmax shape overflows usize"));
            },
        };
        check_exact_length("LM-head argmax", "input has", p.input.len, p.k)?;
        if p.weight.len != expected {
            return Err(
                KernelError::Shape {
                    family: "LM-head argmax",
                    operand: "weight has",
                    actual: p.weight.len,
                    unit: "elements",
                    rows: p.k,
                    cols: p.vocab,
                    required: expected,
                },
            );
        }
        if p.output_value.len != 1 || p.output_index.len != 1 {
            return Err(
                KernelError::CandidateOutputs {
                    values: p.output_value.len,
                    indices: p.output_index.len,
                },
            );
        }
        let work = workspace.workspace;
        if work.vocab != p.vocab || work.block_size != self.family.width {
            return Err(
                KernelError::Fixed(
                    "LM-head argmax workspace shape or block size does not match the operation",
                ),
            );
        }
        let context = self.family.context;
        if stream.context != context || p.input.context != context || p.weight.context != context
            || p.output_value.context != context || p.output_index.context != context
            || work.values.context != context || work.indices.context != context {
            return Err(
                KernelError::Fixed(
                    "LM-head argmax stream, buffers, workspace and kernel must share one context",
                ),
            );
        }
        Ok(())
    }
}

proof fn rounded_up(n: int, width: int)
    requires
        n > 0,
        width > 0,
    ensures
        (n + width - 1) / width == ceil_div(n, width),
{
    let q = (n - 1) / width;
    let r = (n - 1) % width;
    vstd::arithmetic::div_mod::lemma_fundamental_div_mod(n - 1, width);
    assert((q + 1) * width + r == n + width - 1) by (nonlinear_arith)
        requires
            n - 1 == width * q + r,
    ;
    vstd::arithmetic::div_mod::lemma_fundamental_div_mod_converse(n + width - 1, width, q + 1, r);
}

/// Every token of the vocabulary competes in exactly one candidate block, and
/// every candidate block has a token.
pub proof fn candidates_cover_the_vocabulary(workspace: CandidateWorkspace, token: int, block: int)
    requires
        workspace.sized(),
        0 <= token < workspace.vocab,
        0 <= block < workspace.values.len,
    ensures
        0 <= token / (workspace.block_size as int) < workspace.values.len,
        block * workspace.block_size < workspace.vocab,
{
    let width = workspace.block_size as int;
    ceil_div_covers(workspace.vocab as int, width);
    vstd::arithmetic::div_mod::lemma_div_is_ordered(token, workspace.vocab as int - 1, width);
    vstd::arithmetic::div_mod::lemma_div_pos_is_pos(token, width);
    assert(block * width <= (workspace.values.len - 1) * width) by (nonlinear_arith)
        requires
            block <= workspace.values.len - 1,
            width > 0,
    ;
}

/// Storage made for a vocabulary in the family's context serves every
/// projection onto that vocabulary that is otherwise in order.
pub proof fn candidate_storage_serves(
    family: Family,
    stream: Stream,
    p: ArgmaxProjection,
    values: BufferId,
    indices: BufferId,
)
    requires
        vocab_check(p.vocab) is Ok,
        fits(p.k * p.vocab),
        p.input.len == p.k,
        p.weight.len == p.k * p.vocab,
        p.output_value.len == 1,
        p.output_index.len == 1,
        stream.context == family.context,
        p.input.context == family.context,
        p.weight.context == family.context,
        p.output_value.context == family.context,
        p.output_index.context == family.context,
    ensures
        argmax_plan(
            family,
            stream,
            p,
            candidate_workspace_for(family, family.context, p.vocab, values, indices),
        ).outcome is Ok,
        argmax_plan(
            family,
            stream,
            p,
            candidate_workspace_for(family, family.context, p.vocab, values, indices),
        ).steps.len() == 2,
{
}

/// A refused projection submits nothing.
pub proof fn refused_argmax_submits_nothing(
    family: Family,
    stream: Stream,
    p: ArgmaxProjection,
    workspace: CandidateWorkspace,
)
    ensures
        argmax_plan(family, stream, p, workspace).outcome is Err ==> argmax_plan(
            family,
            stream,
            p,
            workspace,
        ).steps.len() == 0,
{
}

/// The row of logits is never stored: the operation allocates nothing, and
/// its storage holds one candidate per block of the vocabulary.
pub proof fn argmax_stores_no_logits(
    family: Family,
    stream: Stream,
    p: ArgmaxProjection,
    workspace: CandidateWorkspace,
)
    requires
        workspace.sized(),
        argmax_plan(family, stream, p, workspace).outcome is Ok,
    ensures
        argmax_plan(family, stream, p, workspace).never_allocates(),
        workspace.values.len == ceil_div(p.vocab as int, family.width as int),
        workspace.indices.len == ceil_div(p.vocab as int, family.width as int),
{
}

} // verus!
