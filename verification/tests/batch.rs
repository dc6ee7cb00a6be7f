use rand::SeedableRng;

use neural_net::batch::{mini_batches, shuffled_order, ZeroBatchSize};

#[test]
fn a_short_last_batch_is_kept() {
    assert_eq!(mini_batches(10, 3), Ok(vec![(0, 3), (3, 6), (6, 9), (9, 10)]));
    assert_eq!(mini_batches(7, 5), Ok(vec![(0, 5), (5, 7)]));
}

#[test]
fn batches_that_divide_the_examples_are_all_full() {
    assert_eq!(mini_batches(9, 3), Ok(vec![(0, 3), (3, 6), (6, 9)]));
    assert_eq!(mini_batches(4, 1), Ok(vec![(0, 1), (1, 2), (2, 3), (3, 4)]));
    assert_eq!(mini_batches(4, 4), Ok(vec![(0, 4)]));
}

#[test]
fn a_batch_larger_than_the_examples_holds_them_all() {
    assert_eq!(mini_batches(2, 5), Ok(vec![(0, 2)]));
    assert_eq!(mini_batches(1, usize::MAX), Ok(vec![(0, 1)]));
}

#[test]
fn no_example_gives_no_batch() {
    assert_eq!(mini_batches(0, 3), Ok(vec![]));
}

#[test]
fn a_batch_size_of_zero_is_refused() {
    assert_eq!(mini_batches(10, 0), Err(ZeroBatchSize));
    assert_eq!(mini_batches(0, 0), Err(ZeroBatchSize));
}

#[test]
fn batches_neither_drop_nor_repeat_a_position() {
    for n in 0..40usize {
        for size in 1..12usize {
            let bounds = mini_batches(n, size).unwrap();
            assert_eq!(bounds.len(), (n + size - 1) / size);
            let mut next = 0;
            for (start, end) in bounds {
                assert_eq!(start, next);
                assert!(start < end);
                assert!(end - start <= size);
                next = end;
            }
            assert_eq!(next, n);
        }
    }
}

#[test]
fn a_shuffled_order_visits_every_example_once() {
    let mut rng = rand::rngs::StdRng::seed_from_u64(7);
    for n in [0usize, 1, 2, 10, 257] {
        let mut order = shuffled_order(n, &mut rng);
        assert_eq!(order.len(), n);
        order.sort();
        assert_eq!(order, (0..n).collect::<Vec<usize>>());
    }
}

#[test]
fn a_shuffled_order_is_not_the_ascending_one() {
    let mut rng = rand::rngs::StdRng::seed_from_u64(1);
    let order = shuffled_order(100, &mut rng);
    assert_ne!(order, (0..100).collect::<Vec<usize>>());
}

#[test]
fn the_same_seed_gives_the_same_order() {
    let mut first = rand::rngs::StdRng::seed_from_u64(42);
    let mut second = rand::rngs::StdRng::seed_from_u64(42);
    assert_eq!(shuffled_order(50, &mut first), shuffled_order(50, &mut second));
    assert_eq!(shuffled_order(50, &mut first), shuffled_order(50, &mut second));
}
