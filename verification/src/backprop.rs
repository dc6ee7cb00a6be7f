//! The order in which backpropagation visits the layers of a network.
//!
//! A network of `L` layers has `L - 1` layers of parameters, numbered from 0
//! (the one that reads the input) to `L - 2` (the one that gives the output).
//! Parameter layer `l` has weights `l`, biases `l` and weighted input `l`;
//! it reads activation `l` and gives activation `l + 1`. The error of the
//! last of them comes from the cost; the error of every other one is carried
//! back through the weights of the layer after it, which therefore has to be
//! visited first.

use vstd::prelude::*;

use crate::topology::Topology;

verus! {

/// One step of the backward pass.
#[derive(Debug, Clone, Copy, PartialEq, Eq)]
pub struct LayerStep {
    /// The parameter layer whose gradients the step sets. Its number is also
    /// that of its weighted input and of the activation that it reads.
    pub layer: usize,
    /// The parameter layer through whose weights the error reaches this one,
    /// or `None` for the output layer, where the cost gives the error.
    pub through: Option<usize>,
}

/// Step `k` of the backward pass over a network of `layers_num` layers.
pub open spec fn backward_step(layers_num: int, k: int) -> LayerStep
    recommends
        0 <= k < layers_num - 1,
{
    LayerStep {
        layer: (layers_num - 2 - k) as usize,
        through: if k == 0 {
            None
        } else {
            Some((layers_num - 1 - k) as usize)
        },
    }
}

/// The backward pass sets the gradients of every parameter layer once, the
/// output layer first and the layer that reads the input last, and carries
/// the error to each layer through the weights of the layer visited just
/// before it.
pub proof fn lemma_backward_pass(layers_num: int, k: int)
    requires
        2 <= layers_num <= usize::MAX,
        0 <= k < layers_num - 1,
    ensures
        0 <= backward_step(layers_num, k).layer < layers_num - 1,
        backward_step(layers_num, k).layer == layers_num - 2 - k,
        k == 0 ==> backward_step(layers_num, k).layer == layers_num - 2 && backward_step(
            layers_num,
            k,
        ).through is None,
        k == layers_num - 2 ==> backward_step(layers_num, k).layer == 0,
        k > 0 ==> backward_step(layers_num, k).through == Some(
            backward_step(layers_num, k - 1).layer,
        ) && backward_step(layers_num, k).through->0 == backward_step(layers_num, k).layer + 1,
        forall|other: int|
            0 <= other < layers_num - 1 && other != k ==> backward_step(layers_num, other).layer
                != backward_step(layers_num, k).layer,
{
}

/// The steps of the backward pass over a network, in the order in which
/// they are taken.
pub fn backward_steps(topology: &Topology) -> (steps: Vec<LayerStep>)
    requires
        topology.wf(),
    ensures
        steps@.len() == topology@.len() - 1,
        forall|k: int|
            0 <= k < steps@.len() ==> steps@[k] == backward_step(topology@.len() as int, k),
{
    let layers_num: usize = topology.layers_num();
    let mut steps: Vec<LayerStep> = Vec::new();
    let mut l: usize = 1;
    while l < layers_num
        invariant
            2 <= layers_num,
            1 <= l <= layers_num,
            steps@.len() == l - 1,
            forall|k: int| 0 <= k < steps@.len() ==> steps@[k] == backward_step(layers_num as int, k),
        decreases layers_num - l,
    {
        let through: Option<usize> = if l == 1 {
            None
        } else {
            Some(layers_num - l)
        };
        steps.push(LayerStep { layer: layers_num - l - 1, through });
        l += 1;
    }
    steps
}

} // verus!
