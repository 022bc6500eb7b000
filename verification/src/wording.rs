//! What the messages of refusals show.

use crate::error::KernelError;
use crate::text::decimal;
use vstd::prelude::*;

verus! {

/// Whether a text shows a word.
pub open spec fn shows(text: Seq<char>, word: Seq<char>) -> bool {
    exists|before: Seq<char>, after: Seq<char>| text == #[trigger] (before + word + after)
}

/// A text shows its last word.
broadcast proof fn last_word_shows(before: Seq<char>, word: Seq<char>)
    ensures
        #[trigger] shows(before + word, word),
{
    assert(before + word =~= before + word + Seq::<char>::empty());
}

/// A text goes on showing what it showed.
broadcast proof fn words_stay(text: Seq<char>, word: Seq<char>, more: Seq<char>)
    requires
        shows(text, word),
    ensures
        #[trigger] shows(text + more, word),
{
    let (before, after) = choose|before: Seq<char>, after: Seq<char>|
        text == #[trigger] (before + word + after);
    assert(text + more =~= before + word + (after + more));
}

/// A text shows itself.
broadcast proof fn whole_text_shows(text: Seq<char>)
    ensures
        #[trigger] shows(text, text),
{
    assert(text =~= Seq::<char>::empty() + text + Seq::<char>::empty());
}

/// The message of a refusal shows every name and every number that the refusal
/// carries.
pub proof fn messages_show_what_refusals_carry(error: KernelError)
    ensures
        match error {
            KernelError::Fixed(text) => error.text() == text@,
            KernelError::Device(failure) => shows(error.text(), decimal(failure.number as nat)),
            KernelError::Rule { family, rule } => {
                &&& shows(error.text(), family@)
                &&& shows(error.text(), rule@)
            },
            KernelError::BlockSize { family, size } => {
                &&& shows(error.text(), family@)
                &&& shows(error.text(), decimal(size as nat))
            },
            KernelError::TileSide { family, side } => {
                &&& shows(error.text(), family@)
                &&& shows(error.text(), decimal(side as nat))
            },
            KernelError::BlockLimit { family, size, limit } => {
                &&& shows(error.text(), family@)
                &&& shows(error.text(), decimal(size as nat))
                &&& shows(error.text(), decimal(limit as nat))
            },
            KernelError::TileThreads { family, side, threads, unit, limit } => {
                &&& shows(error.text(), family@)
                &&& shows(error.text(), decimal(side as nat))
                &&& shows(error.text(), decimal(threads as nat))
                &&& shows(error.text(), unit@)
                &&& shows(error.text(), decimal(limit as nat))
            },
            KernelError::SharedMemoryLimit { family, bytes, limit } => {
                &&& shows(error.text(), family@)
                &&& shows(error.text(), decimal(bytes as nat))
                &&& shows(error.text(), decimal(limit as nat))
            },
            KernelError::Shape { family, operand, actual, unit, rows, cols, required } => {
                &&& shows(error.text(), family@)
                &&& shows(error.text(), operand@)
                &&& shows(error.text(), decimal(actual as nat))
                &&& shows(error.text(), unit@)
                &&& shows(error.text(), decimal(rows as nat))
                &&& shows(error.text(), decimal(cols as nat))
                &&& shows(error.text(), decimal(required as nat))
            },
            KernelError::GroupedShape {
                family,
                operand,
                actual,
                groups,
                unit,
                rows,
                cols,
                required,
            } => {
                &&& shows(error.text(), family@)
                &&& shows(error.text(), operand@)
                &&& shows(error.text(), decimal(actual as nat))
                &&& shows(error.text(), decimal(groups as nat))
                &&& shows(error.text(), unit@)
                &&& shows(error.text(), decimal(rows as nat))
                &&& shows(error.text(), decimal(cols as nat))
                &&& shows(error.text(), decimal(required as nat))
            },
            KernelError::BatchedOperand { actual, batches, required } => {
                &&& shows(error.text(), decimal(actual as nat))
                &&& shows(error.text(), decimal(batches as nat))
                &&& shows(error.text(), decimal(required as nat))
            },
            KernelError::PairShape { family, operand, first, second, rows, cols, required } => {
                &&& shows(error.text(), family@)
                &&& shows(error.text(), operand@)
                &&& shows(error.text(), decimal(first as nat))
                &&& shows(error.text(), decimal(second as nat))
                &&& shows(error.text(), decimal(rows as nat))
                &&& shows(error.text(), decimal(cols as nat))
                &&& shows(error.text(), decimal(required as nat))
            },
            KernelError::PairLength { family, operand, first, second, required } => {
                &&& shows(error.text(), family@)
                &&& shows(error.text(), operand@)
                &&& shows(error.text(), decimal(first as nat))
                &&& shows(error.text(), decimal(second as nat))
                &&& shows(error.text(), decimal(required as nat))
            },
            KernelError::Length { family, operand, actual, unit, required } => {
                &&& shows(error.text(), family@)
                &&& shows(error.text(), operand@)
                &&& shows(error.text(), decimal(actual as nat))
                &&& shows(error.text(), unit@)
                &&& shows(error.text(), decimal(required as nat))
            },
            KernelError::Expected { family, operand, actual, expected } => {
                &&& shows(error.text(), family@)
                &&& shows(error.text(), operand@)
                &&& shows(error.text(), decimal(actual as nat))
                &&& shows(error.text(), decimal(expected as nat))
            },
            KernelError::Holds { family, operand, actual, requirement, expected } => {
                &&& shows(error.text(), family@)
                &&& shows(error.text(), operand@)
                &&& shows(error.text(), decimal(actual as nat))
                &&& shows(error.text(), requirement@)
                &&& shows(error.text(), decimal(expected as nat))
            },
            KernelError::RowProduct { family, operand, actual, rows, unit, cols, required } => {
                &&& shows(error.text(), family@)
                &&& shows(error.text(), operand@)
                &&& shows(error.text(), decimal(actual as nat))
                &&& shows(error.text(), decimal(rows as nat))
                &&& shows(error.text(), unit@)
                &&& shows(error.text(), decimal(cols as nat))
                &&& shows(error.text(), decimal(required as nat))
            },
            KernelError::WorkspaceCapacity { family, operand, actual, unit, capacity } => {
                &&& shows(error.text(), family@)
                &&& shows(error.text(), operand@)
                &&& shows(error.text(), decimal(actual as nat))
                &&& shows(error.text(), unit@)
                &&& shows(error.text(), decimal(capacity as nat))
            },
            KernelError::WorkspaceBlockSize { workspace, family, block_size } => {
                &&& shows(error.text(), decimal(workspace as nat))
                &&& shows(error.text(), family@)
                &&& shows(error.text(), decimal(block_size as nat))
            },
            KernelError::SoftmaxLengths { input, output } => {
                &&& shows(error.text(), decimal(input as nat))
                &&& shows(error.text(), decimal(output as nat))
            },
            KernelError::FusedRow { path, required, cols, limit } => {
                &&& shows(error.text(), path@)
                &&& shows(error.text(), decimal(required as nat))
                &&& shows(error.text(), decimal(cols as nat))
                &&& shows(error.text(), decimal(limit as nat))
            },
            KernelError::FusedHead { family, required, head_dim, value_dim, block_size } => {
                &&& shows(error.text(), family@)
                &&& shows(error.text(), decimal(required as nat))
                &&& shows(error.text(), decimal(head_dim as nat))
                &&& shows(error.text(), decimal(value_dim as nat))
                &&& shows(error.text(), decimal(block_size as nat))
            },
            KernelError::CausalShape { query_rows, kv_rows } => {
                &&& shows(error.text(), decimal(query_rows as nat))
                &&& shows(error.text(), decimal(kv_rows as nat))
            },
            KernelError::EmptyHead { family, head_dim, kv_rows, value_dim } => {
                &&& shows(error.text(), family@)
                &&& shows(error.text(), decimal(head_dim as nat))
                &&& shows(error.text(), decimal(kv_rows as nat))
                &&& shows(error.text(), decimal(value_dim as nat))
            },
            KernelError::HeadShapes { queries, keys, values, output } => {
                &&& shows(error.text(), decimal(queries as nat))
                &&& shows(error.text(), decimal(keys as nat))
                &&& shows(error.text(), decimal(values as nat))
                &&& shows(error.text(), decimal(output as nat))
            },
            KernelError::EmptyRows { family, rows, cols } => {
                &&& shows(error.text(), family@)
                &&& shows(error.text(), decimal(rows as nat))
                &&& shows(error.text(), decimal(cols as nat))
            },
            KernelError::ColumnBlocks { family, blocks, limit } => {
                &&& shows(error.text(), family@)
                &&& shows(error.text(), decimal(blocks as nat))
                &&& shows(error.text(), decimal(limit as nat))
            },
            KernelError::BatchBlocks { batches, limit } => {
                &&& shows(error.text(), decimal(batches as nat))
                &&& shows(error.text(), decimal(limit as nat))
            },
            KernelError::OutOfRange { family, operand, row, place, at, rows } => {
                &&& shows(error.text(), family@)
                &&& shows(error.text(), operand@)
                &&& shows(error.text(), decimal(row as nat))
                &&& shows(error.text(), place@)
                &&& shows(error.text(), decimal(at as nat))
                &&& shows(error.text(), decimal(rows as nat))
            },
            KernelError::DuplicatePosition { family, row } => {
                &&& shows(error.text(), family@)
                &&& shows(error.text(), decimal(row as nat))
            },
            KernelError::CandidateOutputs { values, indices } => {
                &&& shows(error.text(), decimal(values as nat))
                &&& shows(error.text(), decimal(indices as nat))
            },
            KernelError::SelectionLength { input, k } => {
                &&& shows(error.text(), decimal(input as nat))
                &&& shows(error.text(), decimal(k as nat))
            },
            KernelError::SelectionOutputs { k, values, indices } => {
                &&& shows(error.text(), decimal(k as nat))
                &&& shows(error.text(), decimal(values as nat))
                &&& shows(error.text(), decimal(indices as nat))
            },
            KernelError::OddWidth { cols } => {
                &&& shows(error.text(), decimal(cols as nat))
            },
            KernelError::ScaleCount { actual } => {
                &&& shows(error.text(), decimal(actual as nat))
            },
            KernelError::SparseEntries { indices, values } => {
                &&& shows(error.text(), decimal(indices as nat))
                &&& shows(error.text(), decimal(values as nat))
            },
        },
{
    broadcast use {last_word_shows, words_stay, whole_text_shows};

}

/// Whether a text shows the words one after the other.
pub open spec fn reads(text: Seq<char>, words: Seq<Seq<char>>) -> bool
    decreases words.len(),
{
    words.len() > 0 ==> exists|before: Seq<char>, after: Seq<char>|
        #![trigger before + words.last() + after]
        text == before + words.last() + after && reads(before, words.drop_last())
}

/// A text goes on reading as it did.
broadcast proof fn reading_stays(text: Seq<char>, words: Seq<Seq<char>>, more: Seq<char>)
    requires
        reads(text, words),
    ensures
        #[trigger] reads(text + more, words),
{
    if words.len() > 0 {
        let (before, after) = choose|before: Seq<char>, after: Seq<char>|
            #![trigger before + words.last() + after]
            text == before + words.last() + after && reads(before, words.drop_last());
        assert(text + more =~= before + words.last() + (after + more));
    }
}

/// A word put behind a text is the last that it reads.
broadcast proof fn reading_goes_on(text: Seq<char>, words: Seq<Seq<char>>, word: Seq<char>)
    requires
        reads(text, words),
    ensures
        #[trigger] reads(text + word, words.push(word)),
{
    assert(words.push(word).drop_last() =~= words);
    assert(text + word =~= text + words.push(word).last() + Seq::<char>::empty());
}

/// Any text reads no words.
broadcast proof fn nothing_reads(text: Seq<char>)
    ensures
        #[trigger] reads(text, Seq::<Seq<char>>::empty()),
{
}

/// A word reads itself.
broadcast proof fn word_reads(word: Seq<char>)
    ensures
        #[trigger] reads(word, Seq::<Seq<char>>::empty().push(word)),
{
    reading_goes_on(Seq::empty(), Seq::empty(), word);
    assert(Seq::<char>::empty() + word =~= word);
}

/// The names and numbers that a refusal carries, as they are declared.
pub open spec fn carried(error: KernelError) -> Seq<Seq<char>> {
    match error {
        KernelError::Fixed(text) => seq![text@],
        KernelError::Rule { family, rule } => seq![family@].push(rule@),
        KernelError::Device(failure) => seq![decimal(failure.number as nat)],
        KernelError::BlockSize { family, size } => seq![family@].push(decimal(size as nat)),
        KernelError::TileSide { family, side } => seq![family@].push(decimal(side as nat)),
        KernelError::BlockLimit { family, size, limit } => {
            seq![family@].push(decimal(size as nat)).push(decimal(limit as nat))
        },
        KernelError::TileThreads { family, side, threads, unit, limit } => {
            seq![family@].push(decimal(side as nat)).push(decimal(threads as nat)).push(unit@)
                .push(decimal(limit as nat))
        },
        KernelError::SharedMemoryLimit { family, bytes, limit } => {
            seq![family@].push(decimal(bytes as nat)).push(decimal(limit as nat))
        },
        KernelError::Shape { family, operand, actual, unit, rows, cols, required } => {
            seq![family@].push(operand@).push(decimal(actual as nat)).push(unit@)
                .push(decimal(rows as nat)).push(decimal(cols as nat))
                .push(decimal(required as nat))
        },
        KernelError::GroupedShape {
            family,
            operand,
            actual,
            groups,
            unit,
            rows,
            cols,
            required,
        } => {
            seq![family@].push(operand@).push(decimal(actual as nat))
                .push(decimal(groups as nat)).push(unit@).push(decimal(rows as nat))
                .push(decimal(cols as nat)).push(decimal(required as nat))
        },
        KernelError::BatchedOperand { actual, batches, required } => {
            seq![decimal(actual as nat)].push(decimal(batches as nat))
                .push(decimal(required as nat))
        },
        KernelError::PairShape { family, operand, first, second, rows, cols, required } => {
            seq![family@].push(operand@).push(decimal(first as nat))
                .push(decimal(second as nat)).push(decimal(rows as nat))
                .push(decimal(cols as nat)).push(decimal(required as nat))
        },
        KernelError::PairLength { family, operand, first, second, required } => {
            seq![family@].push(operand@).push(decimal(first as nat))
                .push(decimal(second as nat)).push(decimal(required as nat))
        },
        KernelError::Length { family, operand, actual, unit, required } => {
            seq![family@].push(operand@).push(decimal(actual as nat)).push(unit@)
                .push(decimal(required as nat))
        },
        KernelError::Expected { family, operand, actual, expected } => {
            seq![family@].push(operand@).push(decimal(actual as nat))
                .push(decimal(expected as nat))
        },
        KernelError::Holds { family, operand, actual, requirement, expected } => {
            seq![family@].push(operand@).push(decimal(actual as nat)).push(requirement@)
                .push(decimal(expected as nat))
        },
        KernelError::RowProduct { family, operand, actual, rows, unit, cols, required } => {
            seq![family@].push(operand@).push(decimal(actual as nat)).push(decimal(rows as nat))
                .push(unit@).push(decimal(cols as nat)).push(decimal(required as nat))
        },
        KernelError::WorkspaceCapacity { family, operand, actual, unit, capacity } => {
            seq![family@].push(operand@).push(decimal(actual as nat)).push(unit@)
                .push(decimal(capacity as nat))
        },
        KernelError::WorkspaceBlockSize { workspace, family, block_size } => {
            seq![decimal(workspace as nat)].push(family@).push(decimal(block_size as nat))
        },
        KernelError::SoftmaxLengths { input, output } => {
            seq![decimal(input as nat)].push(decimal(output as nat))
        },
        KernelError::FusedRow { path, required, cols, limit } => {
            seq![path@].push(decimal(required as nat)).push(decimal(cols as nat))
                .push(decimal(limit as nat))
        },
        KernelError::FusedHead { family, required, head_dim, value_dim, block_size } => {
            seq![family@].push(decimal(required as nat)).push(decimal(head_dim as nat))
                .push(decimal(value_dim as nat)).push(decimal(block_size as nat))
        },
        KernelError::CausalShape { query_rows, kv_rows } => {
            seq![decimal(query_rows as nat)].push(decimal(kv_rows as nat))
        },
        KernelError::EmptyHead { family, head_dim, kv_rows, value_dim } => {
            seq![family@].push(decimal(head_dim as nat)).push(decimal(kv_rows as nat))
                .push(decimal(value_dim as nat))
        },
        KernelError::HeadShapes { queries, keys, values, output } => {
            seq![decimal(queries as nat)].push(decimal(keys as nat))
                .push(decimal(values as nat)).push(decimal(output as nat))
        },
        KernelError::EmptyRows { family, rows, cols } => {
            seq![family@].push(decimal(rows as nat)).push(decimal(cols as nat))
        },
        KernelError::ColumnBlocks { family, blocks, limit } => {
            seq![family@].push(decimal(blocks as nat)).push(decimal(limit as nat))
        },
        KernelError::BatchBlocks { batches, limit } => {
            seq![decimal(batches as nat)].push(decimal(limit as nat))
        },
        KernelError::OutOfRange { family, operand, row, place, at, rows } => {
            seq![family@].push(operand@).push(decimal(row as nat)).push(place@)
                .push(decimal(at as nat)).push(decimal(rows as nat))
        },
        KernelError::DuplicatePosition { family, row } => seq![family@].push(decimal(row as nat)),
        KernelError::CandidateOutputs { values, indices } => {
            seq![decimal(values as nat)].push(decimal(indices as nat))
        },
        KernelError::SelectionLength { input, k } => {
            seq![decimal(input as nat)].push(decimal(k as nat))
        },
        KernelError::SelectionOutputs { k, values, indices } => {
            seq![decimal(k as nat)].push(decimal(values as nat)).push(decimal(indices as nat))
        },
        KernelError::OddWidth { cols } => seq![decimal(cols as nat)],
        KernelError::ScaleCount { actual } => seq![decimal(actual as nat)],
        KernelError::SparseEntries { indices, values } => {
            seq![decimal(indices as nat)].push(decimal(values as nat))
        },
    }
}

/// The message of a refusal reads what the refusal carries, in the order in
/// which it is declared: what is there comes before what is required.
pub proof fn messages_read_in_order(error: KernelError)
    ensures
        reads(error.text(), carried(error)),
{
    broadcast use {reading_stays, reading_goes_on, nothing_reads, word_reads};

}

} // verus!
