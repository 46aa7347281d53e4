//! Fixtures: the state machines that exercise one operation of an engine each.
//!
//! A fixture declares the parameter sets it runs over, generates fresh inputs for every sample,
//! prepares the context the engine call needs, executes the call, and processes what came back
//! into an outcome: the values that were expected, the means, and the values that were
//! obtained. Outcomes are gathered over all samples and verified at the end, against the noise
//! that the operation is allowed to add.
//!
//! The operations exercised here move buffers and compute nothing, so they may add no noise at
//! all. Their criterion is a variance of zero, under which the verification is an exact
//! comparison.
use crate::raw::RawUnsignedIntegers;
use vstd::prelude::*;

pub mod glwe_ciphertext_creation;
pub mod glwe_ciphertext_retrieval;
pub mod lwe_ciphertext_creation;
pub mod lwe_ciphertext_retrieval;

verus! {

/// The criterion of an operation that adds no noise: the variance of the difference between
/// means and actual values is zero.
#[derive(Debug, Clone, Copy, PartialEq, Eq, Structural)]
pub struct ZeroVariance;

/// The means of all outcomes, one after the other.
pub open spec fn all_means<T>(outputs: Seq<(Vec<T>, Vec<T>)>) -> Seq<T>
    decreases outputs.len(),
{
    if outputs.len() == 0 {
        Seq::empty()
    } else {
        all_means(outputs.drop_last()) + outputs.last().0@
    }
}

/// The actual values of all outcomes, one after the other.
pub open spec fn all_actual<T>(outputs: Seq<(Vec<T>, Vec<T>)>) -> Seq<T>
    decreases outputs.len(),
{
    if outputs.len() == 0 {
        Seq::empty()
    } else {
        all_actual(outputs.drop_last()) + outputs.last().1@
    }
}

/// Where every outcome has the actual values equal to its means, so have all of them taken
/// together.
pub proof fn lemma_equal_outcomes_aggregate<T>(outputs: Seq<(Vec<T>, Vec<T>)>)
    requires
        forall|i: int| 0 <= i < outputs.len() ==> (#[trigger] outputs[i]).0@ == outputs[i].1@,
    ensures
        all_means(outputs) == all_actual(outputs),
    decreases outputs.len(),
{
    if outputs.len() > 0 {
        lemma_equal_outcomes_aggregate(outputs.drop_last());
    }
}

/// Appends a copy of `values` to `list`.
fn extend<T: Copy>(list: &mut Vec<T>, values: &Vec<T>)
    ensures
        final(list)@ == old(list)@ + values@,
{
    let mut copied: usize = 0;
    while copied < values.len()
        invariant
            copied <= values@.len(),
            list@ == old(list)@ + values@.subrange(0, copied as int),
        decreases values@.len() - copied,
    {
        list.push(values[copied]);
        copied = copied + 1;
        assert(list@ =~= old(list)@ + values@.subrange(0, copied as int));
    }
    assert(values@.subrange(0, copied as int) =~= values@);
}

/// Gathers the outcomes of all samples: the means of all of them, one after the other, and
/// their actual values likewise.
pub fn aggregate<T: Copy>(outputs: &Vec<(Vec<T>, Vec<T>)>) -> (gathered: (Vec<T>, Vec<T>))
    ensures
        gathered.0@ == all_means(outputs@),
        gathered.1@ == all_actual(outputs@),
{
    let mut means: Vec<T> = Vec::new();
    let mut actual: Vec<T> = Vec::new();
    let mut gathered: usize = 0;
    while gathered < outputs.len()
        invariant
            gathered <= outputs@.len(),
            means@ == all_means(outputs@.subrange(0, gathered as int)),
            actual@ == all_actual(outputs@.subrange(0, gathered as int)),
        decreases outputs@.len() - gathered,
    {
        proof {
            let taken = outputs@.subrange(0, gathered + 1);
            assert(taken.drop_last() =~= outputs@.subrange(0, gathered as int));
            assert(taken.last() == outputs@[gathered as int]);
        }
        extend(&mut means, &outputs[gathered].0);
        extend(&mut actual, &outputs[gathered].1);
        gathered = gathered + 1;
    }
    assert(outputs@.subrange(0, gathered as int) =~= outputs@);
    (means, actual)
}

/// Whether `actual` is what a noise of zero variance around `means` allows: with no noise
/// there is no deviation, so the two are the same values in the same order.
pub fn assert_noise_distribution<T: RawUnsignedIntegers>(
    actual: &Vec<T>,
    means: &Vec<T>,
    criterion: ZeroVariance,
) -> (accepted: bool)
    ensures
        accepted <==> actual@ == means@,
{
    if actual.len() != means.len() {
        return false;
    }
    let mut compared: usize = 0;
    while compared < actual.len()
        invariant
            compared <= actual@.len(),
            actual@.len() == means@.len(),
            actual@.subrange(0, compared as int) == means@.subrange(0, compared as int),
        decreases actual@.len() - compared,
    {
        if !actual[compared].equals(&means[compared]) {
            proof {
                assert(actual@[compared as int] != means@[compared as int]);
            }
            return false;
        }
        compared = compared + 1;
        assert(actual@.subrange(0, compared as int) =~= actual@.subrange(0, compared - 1).push(
            actual@[compared - 1],
        ));
        assert(means@.subrange(0, compared as int) =~= means@.subrange(0, compared - 1).push(
            means@[compared - 1],
        ));
    }
    assert(actual@.subrange(0, compared as int) =~= actual@);
    assert(means@.subrange(0, compared as int) =~= means@);
    true
}

} // verus!
