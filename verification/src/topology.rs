//! The layout of a fully-connected network: the sizes of its layers and the
//! shapes of the matrices that follow from them.

use vstd::prelude::*;

use crate::mnist::Image;

verus! {

/// The number of rows and of columns of a matrix.
#[derive(Debug, Clone, Copy, PartialEq, Eq, Structural)]
pub struct Shape {
    pub rows: usize,
    pub cols: usize,
}

impl Shape {
    /// The shape of the matrix product of a matrix of this shape with one of
    /// shape `rhs`, which exists where the inner dimensions agree.
    pub open spec fn spec_dot(self, rhs: Shape) -> Option<Shape> {
        if self.cols == rhs.rows {
            Some(Shape { rows: self.rows, cols: rhs.cols })
        } else {
            None
        }
    }

    /// The shape of the transpose.
    pub open spec fn spec_t(self) -> Shape {
        Shape { rows: self.cols, cols: self.rows }
    }

    /// The shape of the matrix product of a matrix of this shape with one of
    /// shape `rhs`, or `None` where there is no such product.
    pub fn dot(self, rhs: Shape) -> (r: Option<Shape>)
        ensures
            r == self.spec_dot(rhs),
    {
        if self.cols == rhs.rows {
            Some(Shape { rows: self.rows, cols: rhs.cols })
        } else {
            None
        }
    }

    /// The shape of the transpose.
    pub fn t(self) -> (r: Shape)
        ensures
            r == self.spec_t(),
    {
        Shape { rows: self.cols, cols: self.rows }
    }
}

/// Why a list of layer sizes describes no network.
#[derive(Debug, Clone, Copy, PartialEq, Eq, Structural)]
pub enum ConfigError {
    /// Fewer than two layers: a network has an input and an output layer.
    TooFewLayers,
    /// The layer at this index has no unit.
    EmptyLayer(usize),
}

/// A list of layer sizes describes a network: an input and an output layer
/// at least, and at least one unit in every layer.
pub open spec fn valid_layers(layers: Seq<usize>) -> bool {
    &&& layers.len() >= 2
    &&& forall|i: int| 0 <= i < layers.len() ==> layers[i] > 0
}

/// The shape of the weights between layer `i` and layer `i + 1`: one row
/// for each unit of the later layer, one column for each unit of the earlier.
pub open spec fn weight_shape_of(layers: Seq<usize>, i: int) -> Shape
    recommends
        0 <= i < layers.len() - 1,
{
    Shape { rows: layers[i + 1], cols: layers[i] }
}

/// The shape of the biases of layer `i + 1`: a column with one entry for
/// each of its units.
pub open spec fn bias_shape_of(layers: Seq<usize>, i: int) -> Shape
    recommends
        0 <= i < layers.len() - 1,
{
    Shape { rows: layers[i + 1], cols: 1 }
}

/// The shape of the activation of layer `i`: a column with one entry for
/// each of its units. Layer 0 is the input.
pub open spec fn activation_shape_of(layers: Seq<usize>, i: int) -> Shape
    recommends
        0 <= i < layers.len(),
{
    Shape { rows: layers[i], cols: 1 }
}

/// The sizes of the layers of a network, input first.
#[derive(Debug, Clone, PartialEq, Eq)]
pub struct Topology {
    layers: Vec<usize>,
}

impl View for Topology {
    type V = Seq<usize>;

    closed spec fn view(&self) -> Seq<usize> {
        self.layers@
    }
}

impl Topology {
    /// The sizes describe a network.
    pub open spec fn wf(&self) -> bool {
        valid_layers(self@)
    }

    /// Takes the layer sizes of a network, input first. The list is refused
    /// where it has fewer than two entries, and else for its first empty
    /// layer.
    pub fn new(layers: &[usize]) -> (r: Result<Topology, ConfigError>)
        ensures
            match r {
                Ok(topology) => valid_layers(layers@) && topology.wf() && topology@ == layers@,
                Err(ConfigError::TooFewLayers) => layers@.len() < 2,
                Err(ConfigError::EmptyLayer(at)) => {
                    &&& layers@.len() >= 2
                    &&& at < layers@.len()
                    &&& layers@[at as int] == 0
                    &&& forall|j: int| 0 <= j < at ==> layers@[j] > 0
                },
            },
    {
        if layers.len() < 2 {
            return Err(ConfigError::TooFewLayers);
        }
        let mut i: usize = 0;
        while i < layers.len()
            invariant
                i <= layers@.len(),
                layers@.len() >= 2,
                forall|j: int| 0 <= j < i ==> layers@[j] > 0,
            decreases layers@.len() - i,
        {
            if layers[i] == 0 {
                return Err(ConfigError::EmptyLayer(i));
            }
            i += 1;
        }
        Ok(Topology { layers: vstd::slice::slice_to_vec(layers) })
    }

    /// The sizes of the layers, input first.
    pub fn layers(&self) -> (r: &Vec<usize>)
        ensures
            r@ == self@,
    {
        &self.layers
    }

    /// The number of layers, the input layer included.
    pub fn layers_num(&self) -> (r: usize)
        ensures
            r == self@.len(),
    {
        self.layers.len()
    }

    /// The width of an input vector.
    pub fn input_width(&self) -> (r: usize)
        requires
            self.wf(),
        ensures
            r == self@[0],
    {
        self.layers[0]
    }

    /// The width of the final activation: the number of classes.
    pub fn output_width(&self) -> (r: usize)
        requires
            self.wf(),
        ensures
            r == self@.last(),
    {
        self.layers[self.layers.len() - 1]
    }

    /// The shape of the weights between layer `i` and layer `i + 1`.
    pub fn weight_shape(&self, i: usize) -> (r: Shape)
        requires
            i + 1 < self@.len(),
        ensures
            r == weight_shape_of(self@, i as int),
    {
        let n: usize = self.layers.len();
        assert(i + 1 < n);
        Shape { rows: self.layers[i + 1], cols: self.layers[i] }
    }

    /// The shape of the biases of layer `i + 1`.
    pub fn bias_shape(&self, i: usize) -> (r: Shape)
        requires
            i + 1 < self@.len(),
        ensures
            r == bias_shape_of(self@, i as int),
    {
        let n: usize = self.layers.len();
        assert(i + 1 < n);
        Shape { rows: self.layers[i + 1], cols: 1 }
    }

    /// The shape of the activation of layer `i`.
    pub fn activation_shape(&self, i: usize) -> (r: Shape)
        requires
            i < self@.len(),
        ensures
            r == activation_shape_of(self@, i as int),
    {
        Shape { rows: self.layers[i], cols: 1 }
    }

    /// The shapes of the weight matrices, from the one that follows the
    /// input layer to the one that feeds the output layer.
    pub fn weight_shapes(&self) -> (r: Vec<Shape>)
        requires
            self.wf(),
        ensures
            r@.len() == self@.len() - 1,
            forall|i: int| 0 <= i < r@.len() ==> r@[i] == weight_shape_of(self@, i),
    {
        let mut shapes: Vec<Shape> = Vec::new();
        let last: usize = self.layers.len() - 1;
        let mut i: usize = 0;
        while i < last
            invariant
                last == self@.len() - 1,
                i <= last,
                shapes@.len() == i,
                forall|k: int| 0 <= k < i ==> shapes@[k] == weight_shape_of(self@, k),
            decreases self@.len() - i,
        {
            shapes.push(self.weight_shape(i));
            i += 1;
        }
        shapes
    }

    /// The shapes of the bias vectors, from the first layer after the input
    /// to the output layer.
    pub fn bias_shapes(&self) -> (r: Vec<Shape>)
        requires
            self.wf(),
        ensures
            r@.len() == self@.len() - 1,
            forall|i: int| 0 <= i < r@.len() ==> r@[i] == bias_shape_of(self@, i),
    {
        let mut shapes: Vec<Shape> = Vec::new();
        let last: usize = self.layers.len() - 1;
        let mut i: usize = 0;
        while i < last
            invariant
                last == self@.len() - 1,
                i <= last,
                shapes@.len() == i,
                forall|k: int| 0 <= k < i ==> shapes@[k] == bias_shape_of(self@, k),
            decreases self@.len() - i,
        {
            shapes.push(self.bias_shape(i));
            i += 1;
        }
        shapes
    }

    /// Tells whether matrices of these shapes are the parameters of this
    /// network, and if not, which of them is the first that does not fit.
    /// The numbers of matrices are compared first, the biases before the
    /// weights; then the shapes layer by layer, in each layer the biases
    /// before the weights.
    pub fn check_parameters(&self, biases: &[Shape], weights: &[Shape]) -> (r: Result<
        (),
        ShapeError,
    >)
        requires
            self.wf(),
        ensures
            match r {
                Ok(_) => parameters_fit(self@, biases@, weights@),
                Err(ShapeError::BiasCount) => biases@.len() != self@.len() - 1,
                Err(ShapeError::WeightCount) => {
                    &&& biases@.len() == self@.len() - 1
                    &&& weights@.len() != self@.len() - 1
                },
                Err(ShapeError::Bias(at)) => {
                    &&& forall|k: int|
                        0 <= k < at ==> {
                            &&& #[trigger] biases@[k] == bias_shape_of(self@, k)
                            &&& #[trigger] weights@[k] == weight_shape_of(self@, k)
                        }
                    &&& biases@.len() == self@.len() - 1
                    &&& weights@.len() == self@.len() - 1
                    &&& at < self@.len() - 1
                    &&& biases@[at as int] != bias_shape_of(self@, at as int)
                },
                Err(ShapeError::Weight(at)) => {
                    &&& forall|k: int|
                        0 <= k < at ==> {
                            &&& #[trigger] biases@[k] == bias_shape_of(self@, k)
                            &&& #[trigger] weights@[k] == weight_shape_of(self@, k)
                        }
                    &&& biases@.len() == self@.len() - 1
                    &&& weights@.len() == self@.len() - 1
                    &&& at < self@.len() - 1
                    &&& biases@[at as int] == bias_shape_of(self@, at as int)
                    &&& weights@[at as int] != weight_shape_of(self@, at as int)
                },
            },
    {
        let last: usize = self.layers.len() - 1;
        if biases.len() != last {
            return Err(ShapeError::BiasCount);
        }
        if weights.len() != last {
            return Err(ShapeError::WeightCount);
        }
        let mut i: usize = 0;
        while i < last
            invariant
                last == self@.len() - 1,
                biases@.len() == last,
                weights@.len() == last,
                i <= last,
                forall|k: int|
                    0 <= k < i ==> {
                        &&& biases@[k] == bias_shape_of(self@, k)
                        &&& weights@[k] == weight_shape_of(self@, k)
                    },
            decreases last - i,
        {
            if biases[i] != self.bias_shape(i) {
                return Err(ShapeError::Bias(i));
            }
            if weights[i] != self.weight_shape(i) {
                return Err(ShapeError::Weight(i));
            }
            i += 1;
        }
        Ok(())
    }

    /// Tells whether an example of `width` pixels with this label can be fed
    /// to this network and scored, and if not, why.
    pub fn check_example(&self, width: usize, label: u8) -> (r: Result<(), ExampleError>)
        requires
            self.wf(),
        ensures
            match r {
                Ok(_) => example_failure(self@, width, label) is None,
                Err(e) => example_failure(self@, width, label) == Some(e),
            },
    {
        if width != self.input_width() {
            Err(ExampleError::InputWidth)
        } else if label as usize >= self.output_width() {
            Err(ExampleError::Label)
        } else {
            Ok(())
        }
    }

    /// Tells whether every example of a dataset can be fed to this network
    /// and scored, and if not, which is the first that cannot and why.
    pub fn check_dataset(&self, dataset: &[Image]) -> (r: Result<(), (usize, ExampleError)>)
        requires
            self.wf(),
        ensures
            match r {
                Ok(_) => forall|i: int|
                    0 <= i < dataset@.len() ==> image_failure(self@, #[trigger] dataset@[i])
                        is None,
                Err((at, e)) => {
                    &&& at < dataset@.len()
                    &&& image_failure(self@, dataset@[at as int]) == Some(e)
                    &&& forall|i: int|
                        0 <= i < at ==> image_failure(self@, #[trigger] dataset@[i]) is None
                },
            },
    {
        let mut i: usize = 0;
        while i < dataset.len()
            invariant
                self.wf(),
                i <= dataset@.len(),
                forall|k: int|
                    0 <= k < i ==> image_failure(self@, #[trigger] dataset@[k]) is None,
            decreases dataset@.len() - i,
        {
            match self.check_example(dataset[i].pixels.len(), dataset[i].label) {
                Ok(_) => {},
                Err(e) => {
                    return Err((i, e));
                },
            }
            i += 1;
        }
        Ok(())
    }
}

/// Why matrices are not the parameters of a network.
#[derive(Debug, Clone, Copy, PartialEq, Eq, Structural)]
pub enum ShapeError {
    /// There is not one bias vector for each layer after the input.
    BiasCount,
    /// There is not one weight matrix for each layer after the input.
    WeightCount,
    /// The bias vector at this index has another shape than its layer asks.
    Bias(usize),
    /// The weight matrix at this index has another shape than its layers ask.
    Weight(usize),
}

/// Matrices of these shapes are the parameters of a network of these
/// layers: for each layer after the input a bias vector with one entry for
/// each of its units, and a weight matrix with one row for each of its units
/// and one column for each unit of the layer before.
pub open spec fn parameters_fit(layers: Seq<usize>, biases: Seq<Shape>, weights: Seq<Shape>) -> bool {
    &&& biases.len() == layers.len() - 1
    &&& weights.len() == layers.len() - 1
    &&& forall|i: int|
        0 <= i < layers.len() - 1 ==> {
            &&& #[trigger] biases[i] == bias_shape_of(layers, i)
            &&& #[trigger] weights[i] == weight_shape_of(layers, i)
        }
}

/// Why an example cannot be fed to a network and scored.
#[derive(Debug, Clone, Copy, PartialEq, Eq, Structural)]
pub enum ExampleError {
    /// The example has not one pixel for each unit of the input layer.
    InputWidth,
    /// The label names no unit of the output layer.
    Label,
}

/// Why an example of `width` pixels with this label cannot be fed to a
/// network of these layers and scored, or `None` where it can. The width is
/// looked at first.
pub open spec fn example_failure(layers: Seq<usize>, width: usize, label: u8) -> Option<
    ExampleError,
> {
    if width != layers[0] {
        Some(ExampleError::InputWidth)
    } else if label >= layers.last() {
        Some(ExampleError::Label)
    } else {
        None
    }
}

/// Why an image cannot be fed to a network of these layers and scored, or
/// `None` where it can.
pub open spec fn image_failure(layers: Seq<usize>, image: Image) -> Option<ExampleError> {
    example_failure(layers, image.pixels@.len() as usize, image.label)
}

/// The column that stands for class `label` among `classes` classes: 1 at
/// index `label` and 0 everywhere else.
pub open spec fn one_hot_of(classes: nat, label: int) -> Seq<u8> {
    Seq::new(
        classes,
        |i: int|
            if i == label {
                1u8
            } else {
                0u8
            },
    )
}

/// The column that stands for class `label` among `classes` classes, or
/// `None` where there is no such class.
pub fn one_hot(classes: usize, label: usize) -> (r: Option<Vec<u8>>)
    ensures
        r is Some <==> label < classes,
        r is Some ==> r->0@ == one_hot_of(classes as nat, label as int),
{
    if label >= classes {
        return None;
    }
    let mut column: Vec<u8> = Vec::new();
    let mut i: usize = 0;
    while i < classes
        invariant
            i <= classes,
            column@ =~= one_hot_of(i as nat, label as int),
        decreases classes - i,
    {
        column.push(if i == label { 1 } else { 0 });
        i += 1;
    }
    Some(column)
}

/// The forward pass is well-shaped. In every layer the product of the
/// weights with the activation that the layer reads has the shape of the
/// biases, so the two can be added; the sum, and with it the activation that
/// the layer gives, is a column with one entry for each unit of the layer.
/// The input is a column as wide as the input layer, and the last
/// activation a column as wide as the output layer.
pub proof fn lemma_forward_shapes(layers: Seq<usize>, i: int)
    requires
        valid_layers(layers),
        0 <= i < layers.len() - 1,
    ensures
        weight_shape_of(layers, i).spec_dot(activation_shape_of(layers, i)) == Some(
            bias_shape_of(layers, i),
        ),
        bias_shape_of(layers, i) == activation_shape_of(layers, i + 1),
        activation_shape_of(layers, 0) == (Shape { rows: layers[0], cols: 1 }),
        activation_shape_of(layers, layers.len() - 1) == (Shape { rows: layers.last(), cols: 1 }),
{
}

/// The backward pass is well-shaped, and its gradients have the shapes of
/// the parameters. The error of a layer has the shape of its biases, and so
/// has the gradient of the biases, which is the error itself. The product of
/// the error with the transpose of the activation that the layer reads has
/// the shape of the weights. The product of the transposed weights of the
/// next layer with the error of the next layer has the shape of this
/// layer's error.
pub proof fn lemma_gradient_shapes(layers: Seq<usize>, i: int)
    requires
        valid_layers(layers),
        0 <= i < layers.len() - 1,
    ensures
        bias_shape_of(layers, i).spec_dot(activation_shape_of(layers, i).spec_t()) == Some(
            weight_shape_of(layers, i),
        ),
        i + 1 < layers.len() - 1 ==> weight_shape_of(layers, i + 1).spec_t().spec_dot(
            bias_shape_of(layers, i + 1),
        ) == Some(bias_shape_of(layers, i)),
{
}

} // verus!
