//! The course of a training run as a sequence of steps. In every epoch the
//! training examples are put in a fresh random order and trained on in
//! consecutive mini-batches of that order; after the last mini-batch the
//! network is evaluated; after the last epoch the run is done. The caller
//! does the work of each step and asks for the next.

use vstd::prelude::*;

use crate::batch::{
    batch_count, batch_end, batch_examples, batch_start, identity, is_permutation,
    lemma_batches_partition, shuffled_order, ZeroBatchSize,
};

verus! {

/// What the caller does next.
#[derive(Debug, Clone, PartialEq, Eq)]
pub enum Step {
    /// Train on these examples together: sum their gradients and update the
    /// parameters once.
    Batch { epoch: u32, examples: Vec<usize> },
    /// Every mini-batch of the epoch has been trained on: evaluate the
    /// network and report.
    Evaluate { epoch: u32 },
    /// The last epoch is over.
    Done,
}

/// A schedule as plain values.
pub struct ScheduleState {
    /// The number of training examples.
    pub n_train: nat,
    /// The number of epochs of the run.
    pub epochs: nat,
    /// The number of examples of a full mini-batch.
    pub mini_batch_size: nat,
    /// The epoch that the next step belongs to.
    pub epoch: nat,
    /// The number of examples of this epoch that have been handed out.
    pub position: nat,
    /// The order in which this epoch visits the examples.
    pub order: Seq<usize>,
}

impl ScheduleState {
    /// The state is one that a run passes through: the order visits every
    /// example once, and the examples handed out so far are whole
    /// mini-batches.
    pub open spec fn wf(self) -> bool {
        &&& self.mini_batch_size > 0
        &&& self.epoch <= self.epochs
        &&& self.position <= self.n_train
        &&& is_permutation(self.order, self.n_train)
        &&& self.position == self.n_train || self.position % self.mini_batch_size == 0
    }

    /// The number of the mini-batch that is handed out next.
    pub open spec fn batch(self) -> int {
        self.position as int / self.mini_batch_size as int
    }
}

/// Where a training run stands.
#[derive(Debug, Clone, PartialEq, Eq)]
pub struct Schedule {
    n_train: usize,
    epochs: u32,
    mini_batch_size: usize,
    epoch: u32,
    position: usize,
    order: Vec<usize>,
}

impl View for Schedule {
    type V = ScheduleState;

    closed spec fn view(&self) -> ScheduleState {
        ScheduleState {
            n_train: self.n_train as nat,
            epochs: self.epochs as nat,
            mini_batch_size: self.mini_batch_size as nat,
            epoch: self.epoch as nat,
            position: self.position as nat,
            order: self.order@,
        }
    }
}

impl Schedule {
    /// The start of a run of `epochs` epochs over `n_train` examples in
    /// mini-batches of `mini_batch_size`. A mini-batch size of zero is
    /// refused.
    pub fn new(n_train: usize, epochs: u32, mini_batch_size: usize) -> (r: Result<
        Schedule,
        ZeroBatchSize,
    >)
        ensures
            r is Err <==> mini_batch_size == 0,
            r is Ok ==> {
                &&& r->Ok_0@.wf()
                &&& r->Ok_0@.n_train == n_train
                &&& r->Ok_0@.epochs == epochs
                &&& r->Ok_0@.mini_batch_size == mini_batch_size
                &&& r->Ok_0@.epoch == 0
                &&& r->Ok_0@.position == 0
                &&& r->Ok_0@.order == identity(n_train as nat)
            },
    {
        if mini_batch_size == 0 {
            return Err(ZeroBatchSize);
        }
        let mut order: Vec<usize> = Vec::new();
        let mut i: usize = 0;
        while i < n_train
            invariant
                i <= n_train,
                order@ =~= identity(i as nat),
            decreases n_train - i,
        {
            order.push(i);
            i += 1;
        }
        assert(order@ == identity(n_train as nat));
        assert(forall|p: int| 0 <= p < n_train ==> order@[p] == p);
        assert forall|v: usize| v < n_train implies order@.contains(v) by {
            assert(order@[v as int] == v);
        }
        Ok(Schedule { n_train, epochs, mini_batch_size, epoch: 0, position: 0, order })
    }

    /// The epoch that the next step belongs to; the number of epochs of the
    /// run once it is done.
    pub fn epoch(&self) -> (r: u32)
        ensures
            r == self@.epoch,
    {
        self.epoch
    }

    /// Tells whether the run is done.
    pub fn is_done(&self) -> (r: bool)
        ensures
            r == (self@.epoch >= self@.epochs),
    {
        self.epoch >= self.epochs
    }

    /// Gives the next step and moves on.
    ///
    /// While the run lasts, an epoch hands out its mini-batches in order and
    /// then asks for the evaluation. The order of an epoch is drawn from
    /// `rng` when its first mini-batch is handed out and stays as it is until
    /// the epoch is over; a last mini-batch that the examples do not fill is
    /// handed out as the others are. Once the run is done, nothing changes.
    pub fn advance(&mut self, rng: &mut rand::rngs::StdRng) -> (step: Step)
        requires
            old(self)@.wf(),
        ensures
            final(self)@.wf(),
            final(self)@.n_train == old(self)@.n_train,
            final(self)@.epochs == old(self)@.epochs,
            final(self)@.mini_batch_size == old(self)@.mini_batch_size,
            match step {
                Step::Done => {
                    &&& old(self)@.epoch == old(self)@.epochs
                    &&& final(self)@ == old(self)@
                },
                Step::Evaluate { epoch } => {
                    &&& old(self)@.epoch < old(self)@.epochs
                    &&& old(self)@.position == old(self)@.n_train
                    &&& epoch == old(self)@.epoch
                    &&& final(self)@.epoch == old(self)@.epoch + 1
                    &&& final(self)@.position == 0
                    &&& final(self)@.order == old(self)@.order
                },
                Step::Batch { epoch, examples } => {
                    &&& old(self)@.epoch < old(self)@.epochs
                    &&& old(self)@.position < old(self)@.n_train
                    &&& epoch == old(self)@.epoch
                    &&& final(self)@.epoch == old(self)@.epoch
                    &&& old(self)@.position > 0 ==> final(self)@.order == old(self)@.order
                    &&& 0 <= old(self)@.batch() < batch_count(
                        old(self)@.n_train as int,
                        old(self)@.mini_batch_size as int,
                    )
                    &&& old(self)@.position == batch_start(
                        old(self)@.mini_batch_size as int,
                        old(self)@.batch(),
                    )
                    &&& final(self)@.position == batch_end(
                        old(self)@.n_train as int,
                        old(self)@.mini_batch_size as int,
                        old(self)@.batch(),
                    )
                    &&& examples@ == batch_examples(
                        final(self)@.order,
                        old(self)@.mini_batch_size as int,
                        old(self)@.batch(),
                    )
                },
            },
    {
        if self.epoch >= self.epochs {
            return Step::Done;
        }
        if self.position >= self.n_train {
            let epoch: u32 = self.epoch;
            self.epoch = epoch + 1;
            self.position = 0;
            return Step::Evaluate { epoch };
        }
        if self.position == 0 {
            self.order = shuffled_order(self.n_train, rng);
        }
        let start: usize = self.position;
        let end: usize = if self.mini_batch_size <= self.n_train - start {
            start + self.mini_batch_size
        } else {
            self.n_train
        };
        proof {
            let n = self.n_train as int;
            let size = self.mini_batch_size as int;
            let k = start as int / size;
            lemma_batches_partition(n, size);
            assert(start as int == k * size) by (nonlinear_arith)
                requires
                    start as int % size == 0,
                    k == start as int / size,
                    0 < size,
            ;
            assert(0 <= start as int / size < batch_count(n, size));
            assert(end as int % size == 0 || end == n) by (nonlinear_arith)
                requires
                    start as int == k * size,
                    end as int == start + size || end as int == n,
                    0 < size,
            ;
        }
        let examples: Vec<usize> = vstd::slice::slice_to_vec(
            vstd::slice::slice_subrange(self.order.as_slice(), start, end),
        );
        self.position = end;
        Step::Batch { epoch: self.epoch, examples }
    }
}

} // verus!
