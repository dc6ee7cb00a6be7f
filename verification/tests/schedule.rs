use rand::SeedableRng;

use neural_net::batch::ZeroBatchSize;
use neural_net::schedule::{Schedule, Step};

fn steps_of(n_train: usize, epochs: u32, size: usize, seed: u64) -> Vec<Step> {
    let mut rng = rand::rngs::StdRng::seed_from_u64(seed);
    let mut schedule = Schedule::new(n_train, epochs, size).unwrap();
    let mut steps = Vec::new();
    loop {
        let step = schedule.advance(&mut rng);
        let done = step == Step::Done;
        steps.push(step);
        if done {
            return steps;
        }
    }
}

#[test]
fn an_epoch_is_its_batches_and_then_the_evaluation() {
    let steps = steps_of(5, 2, 2, 3);
    assert_eq!(steps.len(), 9);
    let sizes: Vec<Option<usize>> = steps
        .iter()
        .map(|step| match step {
            Step::Batch { examples, .. } => Some(examples.len()),
            _ => None,
        })
        .collect();
    assert_eq!(
        sizes,
        vec![Some(2), Some(2), Some(1), None, Some(2), Some(2), Some(1), None, None]
    );
    assert_eq!(steps[3], Step::Evaluate { epoch: 0 });
    assert_eq!(steps[7], Step::Evaluate { epoch: 1 });
    assert_eq!(steps[8], Step::Done);
    for (at, step) in steps.iter().enumerate() {
        if let Step::Batch { epoch, .. } = step {
            assert_eq!(*epoch, if at < 3 { 0 } else { 1 });
        }
    }
}

#[test]
fn every_epoch_trains_on_every_example_once() {
    for (n_train, size) in [(10usize, 3usize), (9, 3), (1, 4), (7, 1), (12, 5)] {
        let steps = steps_of(n_train, 3, size, 11);
        let mut seen: Vec<usize> = Vec::new();
        let mut epochs = 0;
        for step in steps {
            match step {
                Step::Batch { examples, .. } => seen.extend(examples),
                Step::Evaluate { epoch } => {
                    assert_eq!(epoch, epochs);
                    seen.sort();
                    assert_eq!(seen, (0..n_train).collect::<Vec<usize>>());
                    seen.clear();
                    epochs += 1;
                },
                Step::Done => assert!(seen.is_empty()),
            }
        }
        assert_eq!(epochs, 3);
    }
}

#[test]
fn a_run_without_examples_only_evaluates() {
    assert_eq!(
        steps_of(0, 2, 4, 0),
        vec![Step::Evaluate { epoch: 0 }, Step::Evaluate { epoch: 1 }, Step::Done]
    );
}

#[test]
fn a_run_without_epochs_is_done_at_once() {
    assert_eq!(steps_of(10, 0, 4, 0), vec![Step::Done]);
}

#[test]
fn a_run_that_is_done_stays_done() {
    let mut rng = rand::rngs::StdRng::seed_from_u64(5);
    let mut schedule = Schedule::new(3, 1, 2).unwrap();
    assert!(!schedule.is_done());
    assert_eq!(schedule.epoch(), 0);
    while schedule.advance(&mut rng) != Step::Done {}
    assert!(schedule.is_done());
    assert_eq!(schedule.epoch(), 1);
    let before = schedule.clone();
    assert_eq!(schedule.advance(&mut rng), Step::Done);
    assert_eq!(schedule, before);
}

#[test]
fn a_schedule_refuses_a_batch_size_of_zero() {
    assert_eq!(Schedule::new(10, 1, 0), Err(ZeroBatchSize));
    assert_eq!(Schedule::new(0, 0, 0), Err(ZeroBatchSize));
}

#[test]
fn the_same_seed_gives_the_same_run() {
    assert_eq!(steps_of(23, 4, 5, 99), steps_of(23, 4, 5, 99));
}

#[test]
fn epochs_are_ordered_anew() {
    let steps = steps_of(64, 2, 64, 17);
    assert_eq!(steps.len(), 5);
    let first = match &steps[0] {
        Step::Batch { examples, .. } => examples.clone(),
        _ => panic!("the run starts with a batch"),
    };
    let second = match &steps[2] {
        Step::Batch { examples, .. } => examples.clone(),
        _ => panic!("the second epoch starts with a batch"),
    };
    assert_ne!(first, second);
}
