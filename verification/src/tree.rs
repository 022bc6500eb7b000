//! The pass schedule of a multi-pass tree reduction.
//!
//! Each pass reduces spans of `2 * width` elements to one partial. All but
//! the last pass write to one of two scratch buffers in turn; the pass that
//! leaves a single element writes it to the output.

use crate::arith::{ceil_div, ceil_div_covers, ceil_div_monotone, ceil_div_shrinks, ceil_div_usize};
use crate::error::KernelError;
use vstd::prelude::*;

verus! {

/// Where a pass reads from or writes to.
#[derive(Clone, Copy, Debug, PartialEq, Eq, Structural)]
pub enum Place {
    Input,
    ScratchA,
    ScratchB,
    Output,
}

/// One pass: `elements` are read and `output_elements` partials written.
#[derive(Clone, Copy, Debug, PartialEq, Eq, Structural)]
pub struct TreePass {
    pub elements: usize,
    pub output_elements: usize,
    pub source: Place,
    pub destination: Place,
}

/// The partials that a pass over `elements` leaves.
pub open spec fn partials(elements: int, width: int) -> int {
    ceil_div(elements, 2 * width)
}

/// The passes that reduce `elements` in `source` to one element in the
/// output, writing to the first scratch buffer next where `to_a`.
pub open spec fn tree(elements: usize, width: u32, source: Place, to_a: bool) -> Seq<TreePass>
    decreases elements,
{
    if elements == 0 || width == 0 {
        Seq::empty()
    } else if partials(elements as int, width as int) <= 1 {
        seq![TreePass { elements, output_elements: 1, source, destination: Place::Output }]
    } else {
        proof {
            ceil_div_shrinks(elements as int, 2 * width as int);
            ceil_div_covers(1, 2 * width as int);
        }
        let output_elements = partials(elements as int, width as int) as usize;
        let destination = if to_a {
            Place::ScratchA
        } else {
            Place::ScratchB
        };
        seq![TreePass { elements, output_elements, source, destination }] + tree(
            output_elements,
            width,
            destination,
            !to_a,
        )
    }
}

/// The whole schedule for an input of `elements`.
pub open spec fn schedule(elements: usize, width: u32) -> Seq<TreePass> {
    tree(elements, width, Place::Input, true)
}

/// Counts the partials that a pass over `elements` leaves.
pub fn partial_count(elements: usize, block_size: u32) -> (count: Result<usize, KernelError>)
    requires
        block_size > 0,
    ensures
        elements == 0 || 2 * block_size <= usize::MAX ==> count == Result::<
            usize,
            KernelError,
        >::Ok(partials(elements as int, block_size as int) as usize),
        elements > 0 && 2 * block_size > usize::MAX ==> count == Result::<usize, KernelError>::Err(
            KernelError::Fixed("reduction block span overflows usize"),
        ),
{
    if elements == 0 {
        return Ok(0);
    }
    match (block_size as usize).checked_mul(2) {
        None => Err(KernelError::Fixed("reduction block span overflows usize")),
        Some(span) => Ok(ceil_div_usize(elements, span)),
    }
}

/// The schedule for an input of `elements`.
pub fn tree_passes(elements: usize, width: u32) -> (passes: Vec<TreePass>)
    requires
        width > 0,
        2 * width <= u32::MAX,
    ensures
        passes@ == schedule(elements, width),
{
    let mut passes: Vec<TreePass> = Vec::new();
    if elements == 0 {
        return passes;
    }
    let mut current: usize = elements;
    let mut source = Place::Input;
    let mut to_a = true;
    let span: usize = width as usize * 2;
    loop
        invariant
            width > 0,
            2 * width <= u32::MAX,
            span == 2 * width,
            current > 0,
            passes@ + tree(current, width, source, to_a) =~= schedule(elements, width),
        decreases current,
    {
        let output_elements: usize = ceil_div_usize(current, span);
        proof {
            ceil_div_shrinks(current as int, span as int);
        }
        if output_elements <= 1 {
            passes.push(
                TreePass {
                    elements: current,
                    output_elements: 1,
                    source,
                    destination: Place::Output,
                },
            );
            return passes;
        }
        let destination = if to_a {
            Place::ScratchA
        } else {
            Place::ScratchB
        };
        passes.push(TreePass { elements: current, output_elements, source, destination });
        proof {
            ceil_div_shrinks(current as int, span as int);
            ceil_div_covers(1, span as int);
        }
        current = output_elements;
        source = destination;
        to_a = !to_a;
    }
}

/// What every pass of a schedule satisfies on its own: it leaves one partial
/// per span, reads and writes different places, and never reads the output.
pub open spec fn pass_ok(pass: TreePass, width: u32) -> bool {
    &&& pass.elements > 0
    &&& pass.output_elements == partials(pass.elements as int, width as int)
    &&& pass.source != pass.destination
    &&& pass.source != Place::Output
    &&& pass.destination != Place::Input
    &&& pass.destination == Place::Output <==> pass.output_elements == 1
}

/// What a pass hands to the next: all of its partials, which are fewer than
/// the elements it read, in a scratch buffer.
pub open spec fn hands_over(here: TreePass, next: TreePass) -> bool {
    &&& next.elements == here.output_elements
    &&& next.source == here.destination
    &&& here.destination != Place::Output
    &&& next.elements < here.elements
}

/// Passes that reduce `elements` in `source` to one element in the output.
pub open spec fn reduces(passes: Seq<TreePass>, elements: usize, width: u32, source: Place) -> bool {
    &&& passes.len() > 0
    &&& passes[0].elements == elements
    &&& passes[0].source == source
    &&& passes.last().destination == Place::Output
    &&& passes.last().output_elements == 1
    &&& forall|i: int| 0 <= i < passes.len() ==> pass_ok(#[trigger] passes[i], width)
    &&& forall|i: int|
        0 <= i < passes.len() ==> (#[trigger] passes[i]).output_elements <= partials(
            elements as int,
            width as int,
        )
    &&& forall|i: int, j: int|
        #![trigger passes[i], passes[j]]
        0 <= i && j == i + 1 && j < passes.len() ==> hands_over(passes[i], passes[j])
}

proof fn tree_reduces(elements: usize, width: u32, source: Place, to_a: bool)
    requires
        elements > 0,
        width > 0,
        source == Place::Input || source == (if to_a {
            Place::ScratchB
        } else {
            Place::ScratchA
        }),
    ensures
        reduces(tree(elements, width, source, to_a), elements, width, source),
    decreases elements,
{
    let passes = tree(elements, width, source, to_a);
    ceil_div_shrinks(elements as int, 2 * width as int);
    ceil_div_covers(elements as int, 2 * width as int);
    ceil_div_covers(1, 2 * width as int);
    if partials(elements as int, width as int) > 1 {
        let output_elements = partials(elements as int, width as int) as usize;
        let destination = if to_a {
            Place::ScratchA
        } else {
            Place::ScratchB
        };
        let first = TreePass { elements, output_elements, source, destination };
        let rest = tree(output_elements, width, destination, !to_a);
        tree_reduces(output_elements, width, destination, !to_a);
        ceil_div_monotone(output_elements as int, elements as int, 2 * width as int);
        assert(passes == seq![first] + rest);
        assert(passes[0] == first);
        assert(passes.last() == rest.last());
        assert forall|i: int| 0 <= i < passes.len() implies pass_ok(#[trigger] passes[i], width) by {
            if i > 0 {
                assert(passes[i] == rest[i - 1]);
            }
        }
        assert forall|i: int| 0 <= i < passes.len() implies (
        #[trigger] passes[i]).output_elements <= partials(elements as int, width as int) by {
            if i > 0 {
                assert(passes[i] == rest[i - 1]);
            }
        }
        assert forall|i: int, j: int|
            #![trigger passes[i], passes[j]]
            0 <= i && j == i + 1 && j < passes.len() implies hands_over(passes[i], passes[j]) by {
            assert(passes[j] == rest[i]);
            if i > 0 {
                assert(passes[i] == rest[i - 1]);
            }
        }
    }
}

/// The schedule of a non-empty input reads the input first, ends with one
/// element in the output, hands each pass exactly what the pass before it
/// wrote, and gets strictly shorter from pass to pass.
pub proof fn schedule_reduces_to_one(elements: usize, width: u32)
    requires
        elements > 0,
        width > 0,
    ensures
        reduces(schedule(elements, width), elements, width, Place::Input),
{
    tree_reduces(elements, width, Place::Input, true);
}

/// Scratch sized for `max_elements` holds the partials of every pass over any
/// input that is no larger.
pub proof fn schedule_fits_the_scratch(elements: usize, max_elements: usize, width: u32)
    requires
        elements <= max_elements,
        width > 0,
    ensures
        forall|i: int|
            0 <= i < schedule(elements, width).len() ==> (#[trigger] schedule(
                elements,
                width,
            )[i]).output_elements <= partials(max_elements as int, width as int),
{
    if elements > 0 {
        tree_reduces(elements, width, Place::Input, true);
        ceil_div_monotone(elements as int, max_elements as int, 2 * width as int);
    }
}

/// A pass's grid leaves out no element and reads none twice: element `index`
/// belongs to the span of exactly one block.
pub proof fn spans_cover_the_elements_once(elements: usize, width: u32, index: int, block: int)
    requires
        width > 0,
        0 <= index < elements,
    ensures
        0 <= index / (2 * width as int) < partials(elements as int, width as int),
        block * (2 * width) <= index < (block + 1) * (2 * width) <==> block == index / (2
            * width as int),
{
    let span = 2 * width as int;
    vstd::arithmetic::div_mod::lemma_div_is_ordered(index, elements as int - 1, span);
    vstd::arithmetic::div_mod::lemma_div_pos_is_pos(index, span);
    vstd::arithmetic::div_mod::lemma_fundamental_div_mod(index, span);
    let q = index / span;
    assert((q + 1) * span == span * q + span) by (nonlinear_arith);
    assert(q * span == span * q) by (nonlinear_arith);
    if block * span <= index < (block + 1) * span {
        if block < q {
            assert((block + 1) * span <= q * span) by (nonlinear_arith)
                requires
                    block + 1 <= q,
                    span > 0,
            ;
        }
        if block > q {
            assert((q + 1) * span <= block * span) by (nonlinear_arith)
                requires
                    q + 1 <= block,
                    span > 0,
            ;
        }
    }
}

} // verus!
