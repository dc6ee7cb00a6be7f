//! Verified building blocks for training a fully-connected feed-forward
//! network by mini-batch gradient descent.
//!
//! - `data` and `mnist` decode the dataset files into labelled images.
//! - `topology` holds the layer sizes of a network and derives from them the
//!   shapes of its parameters, activations and gradients.
//! - `batch` and `schedule` lay out a training run: the order in which an
//!   epoch visits the examples, its mini-batches, and the steps of the run.
//! - `backprop` gives the order in which the backward pass visits the layers.
//! - `scoring` names the class of an output activation and counts the
//!   examples that are classified as labelled.
//! - `binary32` orders IEEE 754 binary32 values by their bit patterns.
//!
//! Everything in this crate works on integers. Activations and parameters
//! are real-valued and live with the caller; where the library has to order
//! activations it takes them by their bit patterns.

pub mod backprop;
pub mod batch;
pub mod binary32;
pub mod data;
pub mod mnist;
pub mod schedule;
pub mod scoring;
pub mod topology;
