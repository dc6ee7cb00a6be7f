//! Scoring: the class that an output activation names, and the number of
//! examples of a test set that are classified as labelled.
//!
//! An activation is a column of IEEE 754 binary32 values, taken by their bit
//! patterns and ordered as the values are.

use vstd::prelude::*;

use crate::binary32::{greater, rank, spec_is_nan};

verus! {

/// `class` is the class that the activation names: the index of its greatest
/// entry, and of the first of them where several are greatest. Entries that
/// are NaN are passed over, except that an activation which starts with one
/// names class 0, as does an activation without entries.
pub open spec fn is_prediction(activation: Seq<u32>, class: int) -> bool {
    if activation.len() == 0 || spec_is_nan(activation[0]) {
        class == 0
    } else {
        &&& 0 <= class < activation.len()
        &&& !spec_is_nan(activation[class])
        &&& forall|j: int|
            0 <= j < activation.len() && !spec_is_nan(activation[j]) ==> rank(activation[j]) <= rank(
                activation[class],
            )
        &&& forall|j: int|
            0 <= j < class && !spec_is_nan(activation[j]) ==> rank(activation[j]) < rank(
                activation[class],
            )
    }
}

/// An activation names one class only.
pub proof fn lemma_prediction_unique(activation: Seq<u32>, first: int, second: int)
    requires
        is_prediction(activation, first),
        is_prediction(activation, second),
    ensures
        first == second,
{
    if activation.len() > 0 && !spec_is_nan(activation[0]) {
        if first < second {
            assert(rank(activation[first]) < rank(activation[second]));
        } else if second < first {
            assert(rank(activation[second]) < rank(activation[first]));
        }
    }
}

/// The class that an output activation names: the index of its greatest
/// entry, the lowest such index where several entries are greatest.
pub fn predict(activation: &[u32]) -> (class: usize)
    ensures
        is_prediction(activation@, class as int),
{
    if activation.len() == 0 {
        return 0;
    }
    let mut predicted: usize = 0;
    let mut i: usize = 1;
    while i < activation.len()
        invariant
            1 <= i <= activation@.len(),
            spec_is_nan(activation@[0]) ==> predicted == 0,
            !spec_is_nan(activation@[0]) ==> {
                &&& predicted < i
                &&& !spec_is_nan(activation@[predicted as int])
                &&& forall|j: int|
                    0 <= j < i && !spec_is_nan(activation@[j]) ==> rank(activation@[j]) <= rank(
                        activation@[predicted as int],
                    )
                &&& forall|j: int|
                    0 <= j < predicted && !spec_is_nan(activation@[j]) ==> rank(activation@[j]) < rank(
                        activation@[predicted as int],
                    )
            },
        decreases activation@.len() - i,
    {
        if greater(activation[i], activation[predicted]) {
            predicted = i;
        }
        i += 1;
    }
    predicted
}

/// Output activations as plain values.
pub open spec fn activations(outputs: Seq<Vec<u32>>) -> Seq<Seq<u32>> {
    Seq::new(outputs.len(), |i: int| outputs[i]@)
}

/// The number of the first `n` examples that are classified as labelled,
/// `outputs[i]` being the output activation and `labels[i]` the label of
/// example `i`.
pub open spec fn hits(outputs: Seq<Seq<u32>>, labels: Seq<u8>, n: int) -> int
    decreases n,
{
    if n <= 0 {
        0
    } else {
        hits(outputs, labels, n - 1) + if is_prediction(outputs[n - 1], labels[n - 1] as int) {
            1int
        } else {
            0int
        }
    }
}

/// The number of examples that have both an output activation and a label.
pub open spec fn scored(outputs: Seq<Seq<u32>>, labels: Seq<u8>) -> int {
    if outputs.len() <= labels.len() {
        outputs.len() as int
    } else {
        labels.len() as int
    }
}

/// Counts the examples of a test set that are classified as labelled,
/// `outputs[i]` being the output activation and `labels[i]` the label of
/// example `i`. The count is a number of examples, not a share of them.
pub fn evaluate(outputs: &[Vec<u32>], labels: &[u8]) -> (correct: usize)
    ensures
        correct == hits(activations(outputs@), labels@, scored(activations(outputs@), labels@)),
        correct <= scored(activations(outputs@), labels@),
{
    let n: usize = if outputs.len() <= labels.len() {
        outputs.len()
    } else {
        labels.len()
    };
    let mut correct: usize = 0;
    let mut i: usize = 0;
    while i < n
        invariant
            i <= n,
            n == scored(activations(outputs@), labels@),
            correct <= i,
            correct == hits(activations(outputs@), labels@, i as int),
        decreases n - i,
    {
        let class: usize = predict(outputs[i].as_slice());
        let label: u8 = labels[i];
        proof {
            assert(activations(outputs@)[i as int] == outputs@[i as int]@);
            if class != label as usize && is_prediction(outputs@[i as int]@, label as int) {
                lemma_prediction_unique(outputs@[i as int]@, class as int, label as int);
            }
        }
        if class == label as usize {
            correct += 1;
        }
        i += 1;
    }
    correct
}

/// What is reported after an epoch: its index, the number of examples of the
/// test set that the network classifies as labelled, and the size of the
/// test set.
#[derive(Debug, Clone, Copy, PartialEq, Eq)]
pub struct EpochReport {
    pub epoch: u32,
    pub correct: usize,
    pub total: usize,
}

/// The report of an epoch after which the network gives `outputs[i]` as the
/// output activation of the example of the test set that is labelled
/// `labels[i]`.
pub fn report(epoch: u32, outputs: &[Vec<u32>], labels: &[u8]) -> (r: EpochReport)
    ensures
        r.epoch == epoch,
        r.correct == hits(activations(outputs@), labels@, scored(activations(outputs@), labels@)),
        r.total == labels@.len(),
{
    EpochReport { epoch, correct: evaluate(outputs, labels), total: labels.len() }
}

} // verus!
