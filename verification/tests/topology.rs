use neural_net::mnist::Image;
use neural_net::topology::{one_hot, ConfigError, ExampleError, Shape, ShapeError, Topology};

fn shape(rows: usize, cols: usize) -> Shape {
    Shape { rows, cols }
}

#[test]
fn parameters_have_the_shapes_of_their_layers() {
    let topology = Topology::new(&[784, 100, 10]).unwrap();
    assert_eq!(topology.weight_shapes(), vec![shape(100, 784), shape(10, 100)]);
    assert_eq!(topology.bias_shapes(), vec![shape(100, 1), shape(10, 1)]);
}

#[test]
fn every_layer_after_the_input_has_parameters() {
    let sizes = [2usize, 3, 5, 7, 1];
    let topology = Topology::new(&sizes).unwrap();
    let weights = topology.weight_shapes();
    let biases = topology.bias_shapes();
    assert_eq!(weights.len(), sizes.len() - 1);
    assert_eq!(biases.len(), sizes.len() - 1);
    for i in 0..sizes.len() - 1 {
        assert_eq!(weights[i], shape(sizes[i + 1], sizes[i]));
        assert_eq!(biases[i], shape(sizes[i + 1], 1));
        assert_eq!(topology.weight_shape(i), weights[i]);
        assert_eq!(topology.bias_shape(i), biases[i]);
    }
}

#[test]
fn the_smallest_network_has_two_layers() {
    let topology = Topology::new(&[1, 1]).unwrap();
    assert_eq!(topology.layers_num(), 2);
    assert_eq!(topology.weight_shapes(), vec![shape(1, 1)]);
    assert_eq!(topology.bias_shapes(), vec![shape(1, 1)]);
}

#[test]
fn fewer_than_two_layers_are_refused() {
    assert_eq!(Topology::new(&[]), Err(ConfigError::TooFewLayers));
    assert_eq!(Topology::new(&[5]), Err(ConfigError::TooFewLayers));
    assert_eq!(Topology::new(&[0]), Err(ConfigError::TooFewLayers));
}

#[test]
fn an_empty_layer_is_refused() {
    assert_eq!(Topology::new(&[2, 0, 1]), Err(ConfigError::EmptyLayer(1)));
    assert_eq!(Topology::new(&[0, 3]), Err(ConfigError::EmptyLayer(0)));
    assert_eq!(Topology::new(&[2, 3, 0]), Err(ConfigError::EmptyLayer(2)));
    assert_eq!(Topology::new(&[2, 0, 0]), Err(ConfigError::EmptyLayer(1)));
}

#[test]
fn layers_are_kept_as_given() {
    let topology = Topology::new(&[2, 3, 1]).unwrap();
    assert_eq!(topology.layers(), &vec![2, 3, 1]);
    assert_eq!(topology.layers_num(), 3);
    assert_eq!(topology.input_width(), 2);
    assert_eq!(topology.output_width(), 1);
}

#[test]
fn activations_are_columns() {
    let topology = Topology::new(&[2, 3, 1]).unwrap();
    assert_eq!(topology.activation_shape(0), shape(2, 1));
    assert_eq!(topology.activation_shape(1), shape(3, 1));
    assert_eq!(topology.activation_shape(2), shape(1, 1));
}

#[test]
fn dot_needs_matching_inner_dimensions() {
    assert_eq!(shape(3, 2).dot(shape(2, 1)), Some(shape(3, 1)));
    assert_eq!(shape(3, 2).dot(shape(2, 5)), Some(shape(3, 5)));
    assert_eq!(shape(3, 2).dot(shape(3, 1)), None);
    assert_eq!(shape(0, 0).dot(shape(0, 4)), Some(shape(0, 4)));
}

#[test]
fn transpose_swaps_rows_and_columns() {
    assert_eq!(shape(3, 2).t(), shape(2, 3));
    assert_eq!(shape(3, 2).t().t(), shape(3, 2));
}

#[test]
fn the_forward_pass_is_well_shaped() {
    let topology = Topology::new(&[4, 6, 5, 3]).unwrap();
    for i in 0..topology.layers_num() - 1 {
        let weighted = topology.weight_shape(i).dot(topology.activation_shape(i));
        assert_eq!(weighted, Some(topology.bias_shape(i)));
        assert_eq!(topology.bias_shape(i), topology.activation_shape(i + 1));
    }
    assert_eq!(topology.activation_shape(3), shape(topology.output_width(), 1));
}

#[test]
fn gradients_have_the_shapes_of_the_parameters() {
    let topology = Topology::new(&[4, 6, 5, 3]).unwrap();
    let last = topology.layers_num() - 1;
    for i in 0..last {
        let error = topology.bias_shape(i);
        assert_eq!(error.dot(topology.activation_shape(i).t()), Some(topology.weight_shape(i)));
        if i + 1 < last {
            let carried = topology.weight_shape(i + 1).t().dot(topology.bias_shape(i + 1));
            assert_eq!(carried, Some(error));
        }
    }
}

#[test]
fn parameters_of_the_right_shapes_fit() {
    let topology = Topology::new(&[2, 3, 1]).unwrap();
    let biases = [shape(3, 1), shape(1, 1)];
    let weights = [shape(3, 2), shape(1, 3)];
    assert_eq!(topology.check_parameters(&biases, &weights), Ok(()));
    assert_eq!(
        topology.check_parameters(&topology.bias_shapes(), &topology.weight_shapes()),
        Ok(())
    );
}

#[test]
fn a_wrong_number_of_parameters_is_reported() {
    let topology = Topology::new(&[2, 3, 1]).unwrap();
    let biases = [shape(3, 1), shape(1, 1)];
    let weights = [shape(3, 2), shape(1, 3)];
    assert_eq!(topology.check_parameters(&biases[..1], &weights), Err(ShapeError::BiasCount));
    assert_eq!(topology.check_parameters(&biases, &weights[..1]), Err(ShapeError::WeightCount));
    assert_eq!(topology.check_parameters(&[], &[]), Err(ShapeError::BiasCount));
    let three = [shape(3, 2), shape(1, 3), shape(1, 1)];
    assert_eq!(topology.check_parameters(&biases, &three), Err(ShapeError::WeightCount));
}

#[test]
fn the_first_parameter_of_a_wrong_shape_is_reported() {
    let topology = Topology::new(&[2, 3, 1]).unwrap();
    let biases = [shape(3, 1), shape(1, 1)];
    let weights = [shape(3, 2), shape(1, 3)];
    let transposed = [shape(2, 3), shape(3, 1)];
    let rows = [shape(1, 3), shape(1, 1)];
    assert_eq!(topology.check_parameters(&biases, &transposed), Err(ShapeError::Weight(0)));
    assert_eq!(topology.check_parameters(&rows, &weights), Err(ShapeError::Bias(0)));
    assert_eq!(topology.check_parameters(&rows, &transposed), Err(ShapeError::Bias(0)));
    let late_bias = [shape(3, 1), shape(2, 1)];
    let late_weight = [shape(3, 2), shape(1, 4)];
    assert_eq!(topology.check_parameters(&late_bias, &weights), Err(ShapeError::Bias(1)));
    assert_eq!(topology.check_parameters(&biases, &late_weight), Err(ShapeError::Weight(1)));
    assert_eq!(topology.check_parameters(&late_bias, &transposed), Err(ShapeError::Weight(0)));
}

#[test]
fn an_example_must_fit_the_input_and_the_output() {
    let topology = Topology::new(&[2, 3, 4]).unwrap();
    let fits = Image { pixels: vec![0, 255], label: 3 };
    let narrow = Image { pixels: vec![0], label: 0 };
    let wide = Image { pixels: vec![0, 1, 2], label: 0 };
    let unknown = Image { pixels: vec![0, 1], label: 4 };
    let both = Image { pixels: vec![], label: 200 };
    for (image, expected) in [
        (fits, Ok(())),
        (narrow, Err(ExampleError::InputWidth)),
        (wide, Err(ExampleError::InputWidth)),
        (unknown, Err(ExampleError::Label)),
        (both, Err(ExampleError::InputWidth)),
    ] {
        assert_eq!(topology.check_example(image.pixels.len(), image.label), expected);
        assert_eq!(topology.check_dataset(&[image]).map_err(|(_, e)| e), expected);
    }
    assert_eq!(topology.check_example(2, 0), Ok(()));
    assert_eq!(topology.check_example(2, 255), Err(ExampleError::Label));
}

#[test]
fn the_first_example_that_does_not_fit_is_reported() {
    let topology = Topology::new(&[2, 3, 4]).unwrap();
    let fits = Image { pixels: vec![0, 255], label: 3 };
    let narrow = Image { pixels: vec![0], label: 0 };
    let unknown = Image { pixels: vec![0, 1], label: 4 };
    assert_eq!(topology.check_dataset(&[]), Ok(()));
    assert_eq!(topology.check_dataset(&[fits.clone(), fits.clone()]), Ok(()));
    assert_eq!(
        topology.check_dataset(&[fits.clone(), unknown.clone(), narrow.clone()]),
        Err((1, ExampleError::Label))
    );
    assert_eq!(
        topology.check_dataset(&[fits.clone(), fits, narrow, unknown]),
        Err((2, ExampleError::InputWidth))
    );
}

#[test]
fn one_hot_marks_the_label() {
    assert_eq!(one_hot(10, 0), Some(vec![1, 0, 0, 0, 0, 0, 0, 0, 0, 0]));
    assert_eq!(one_hot(10, 9), Some(vec![0, 0, 0, 0, 0, 0, 0, 0, 0, 1]));
    assert_eq!(one_hot(3, 1), Some(vec![0, 1, 0]));
    assert_eq!(one_hot(1, 0), Some(vec![1]));
}

#[test]
fn one_hot_refuses_a_label_outside_the_classes() {
    assert_eq!(one_hot(10, 10), None);
    assert_eq!(one_hot(3, 200), None);
    assert_eq!(one_hot(0, 0), None);
}
