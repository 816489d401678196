use vstd::prelude::*;

verus! {

/// The shape of one transition layer: a weight matrix from `inputs`
/// activations to `outputs` activations.
#[derive(Clone, Copy, Debug, PartialEq, Eq, Structural)]
pub struct LayerShape {
    pub inputs: usize,
    pub outputs: usize,
}

/// Number of weights of a network with the given shape parameters.
pub open spec fn weight_count_of(
    input_size: int,
    output_size: int,
    hidden_layers: int,
    nodes: int,
) -> int {
    input_size * nodes + (hidden_layers - 1) * nodes * nodes + nodes * output_size
}

/// The `k`-th transition: input to hidden, then hidden to hidden, then hidden
/// to output.
pub open spec fn shape_at(
    input_size: usize,
    output_size: usize,
    hidden_layers: usize,
    nodes: usize,
    k: int,
) -> LayerShape {
    if k == 0 {
        LayerShape { inputs: input_size, outputs: nodes }
    } else if k < hidden_layers {
        LayerShape { inputs: nodes, outputs: nodes }
    } else {
        LayerShape { inputs: nodes, outputs: output_size }
    }
}

/// All transitions of the network, in the order a forward pass applies them.
pub open spec fn shapes_of(
    input_size: usize,
    output_size: usize,
    hidden_layers: usize,
    nodes: usize,
) -> Seq<LayerShape> {
    Seq::new(
        (hidden_layers + 1) as nat,
        |k: int| shape_at(input_size, output_size, hidden_layers, nodes, k),
    )
}

/// Number of weights held by the first `k` transitions: the offset of
/// transition `k` in the flat weight vector.
pub open spec fn weights_before(shapes: Seq<LayerShape>, k: int) -> int
    decreases k,
{
    if k <= 0 {
        0
    } else {
        weights_before(shapes, k - 1) + shapes[k - 1].inputs * shapes[k - 1].outputs
    }
}

/// More transitions never hold fewer weights.
pub proof fn lemma_weights_before_monotone(shapes: Seq<LayerShape>, j: int, k: int)
    requires
        0 <= j <= k,
    ensures
        weights_before(shapes, j) <= weights_before(shapes, k),
    decreases k - j,
{
    if j < k {
        lemma_weights_before_monotone(shapes, j, k - 1);
        assert(0 <= shapes[k - 1].inputs * shapes[k - 1].outputs) by (nonlinear_arith);
    }
}

proof fn lemma_weights_before_hidden(
    input_size: usize,
    output_size: usize,
    hidden_layers: usize,
    nodes: usize,
    k: int,
)
    requires
        1 <= k <= hidden_layers,
    ensures
        weights_before(shapes_of(input_size, output_size, hidden_layers, nodes), k)
            == input_size * nodes + (k - 1) * nodes * nodes,
    decreases k,
{
    let shapes = shapes_of(input_size, output_size, hidden_layers, nodes);
    if k == 1 {
        assert(weights_before(shapes, 0) == 0);
    } else {
        lemma_weights_before_hidden(input_size, output_size, hidden_layers, nodes, k - 1);
        assert(shapes[k - 1] == LayerShape { inputs: nodes, outputs: nodes });
        assert((k - 2) * nodes * nodes + nodes * nodes == (k - 1) * nodes * nodes)
            by (nonlinear_arith);
    }
}

/// The weight count is the sum of the sizes of all transitions, and equals
/// `input_size * nodes + (hidden_layers - 1) * nodes^2 + nodes * output_size`.
pub proof fn lemma_weight_count(
    input_size: usize,
    output_size: usize,
    hidden_layers: usize,
    nodes: usize,
)
    requires
        hidden_layers >= 1,
    ensures
        weights_before(
            shapes_of(input_size, output_size, hidden_layers, nodes),
            hidden_layers + 1,
        ) == weight_count_of(
            input_size as int,
            output_size as int,
            hidden_layers as int,
            nodes as int,
        ),
{
    let shapes = shapes_of(input_size, output_size, hidden_layers, nodes);
    lemma_weights_before_hidden(input_size, output_size, hidden_layers, nodes, hidden_layers as int);
    assert(shapes[hidden_layers as int] == LayerShape { inputs: nodes, outputs: output_size });
}

/// The fixed shape of a feed-forward network: its four shape parameters, the
/// transitions they derive, and the length of the flat weight vector.
pub struct Topology {
    input_size: usize,
    output_size: usize,
    hidden_layers: usize,
    nodes_per_hidden_layer: usize,
    shapes: Vec<LayerShape>,
    weight_count: usize,
}

impl Topology {
    pub closed spec fn spec_input_size(&self) -> usize {
        self.input_size
    }

    pub closed spec fn spec_output_size(&self) -> usize {
        self.output_size
    }

    pub closed spec fn spec_hidden_layers(&self) -> usize {
        self.hidden_layers
    }

    pub closed spec fn spec_nodes(&self) -> usize {
        self.nodes_per_hidden_layer
    }

    /// The transitions, in forward order.
    pub open spec fn spec_shapes(&self) -> Seq<LayerShape> {
        shapes_of(
            self.spec_input_size(),
            self.spec_output_size(),
            self.spec_hidden_layers(),
            self.spec_nodes(),
        )
    }

    /// Length of the flat weight vector.
    pub open spec fn spec_weight_count(&self) -> int {
        weight_count_of(
            self.spec_input_size() as int,
            self.spec_output_size() as int,
            self.spec_hidden_layers() as int,
            self.spec_nodes() as int,
        )
    }

    /// Offset of transition `k` in the flat weight vector.
    pub open spec fn spec_offset(&self, k: int) -> int {
        weights_before(self.spec_shapes(), k)
    }

    pub closed spec fn wf(&self) -> bool {
        &&& self.input_size >= 1
        &&& self.output_size >= 1
        &&& self.hidden_layers >= 1
        &&& self.nodes_per_hidden_layer >= 1
        &&& self.shapes@ == self.spec_shapes()
        &&& self.weight_count == self.spec_weight_count()
    }

    /// Builds the topology. Every parameter must be at least one, and the
    /// weight vector must fit in memory.
    pub fn new(
        input_size: usize,
        output_size: usize,
        hidden_layers: usize,
        nodes_per_hidden_layer: usize,
    ) -> (r: Topology)
        requires
            input_size >= 1,
            output_size >= 1,
            hidden_layers >= 1,
            nodes_per_hidden_layer >= 1,
            weight_count_of(
                input_size as int,
                output_size as int,
                hidden_layers as int,
                nodes_per_hidden_layer as int,
            ) <= usize::MAX,
        ensures
            r.wf(),
            r.spec_input_size() == input_size,
            r.spec_output_size() == output_size,
            r.spec_hidden_layers() == hidden_layers,
            r.spec_nodes() == nodes_per_hidden_layer,
    {
        let nodes = nodes_per_hidden_layer;
        let ghost target = shapes_of(input_size, output_size, hidden_layers, nodes);
        let mut shapes: Vec<LayerShape> = Vec::new();
        shapes.push(LayerShape { inputs: input_size, outputs: nodes });
        let mut k: usize = 1;
        while k < hidden_layers
            invariant
                1 <= k <= hidden_layers,
                shapes@ == target.take(k as int),
                target == shapes_of(input_size, output_size, hidden_layers, nodes),
            decreases hidden_layers - k,
        {
            shapes.push(LayerShape { inputs: nodes, outputs: nodes });
            k = k + 1;
            assert(shapes@ =~= target.take(k as int));
        }
        shapes.push(LayerShape { inputs: nodes, outputs: output_size });
        assert(shapes@ =~= target);
        proof {
            lemma_weight_count(input_size, output_size, hidden_layers, nodes);
        }
        let mut total: usize = 0;
        let mut t: usize = 0;
        let n_layers = shapes.len();
        while t < n_layers
            invariant
                n_layers == shapes@.len() == hidden_layers + 1,
                shapes@ == target,
                0 <= t <= n_layers,
                total == weights_before(target, t as int),
                weights_before(target, n_layers as int) <= usize::MAX,
            decreases n_layers - t,
        {
            proof {
                lemma_weights_before_monotone(target, t + 1, n_layers as int);
            }
            total = total + shapes[t].inputs * shapes[t].outputs;
            t = t + 1;
        }
        Topology {
            input_size,
            output_size,
            hidden_layers,
            nodes_per_hidden_layer,
            shapes,
            weight_count: total,
        }
    }

    pub fn input_size(&self) -> (r: usize)
        ensures
            r == self.spec_input_size(),
    {
        self.input_size
    }

    pub fn output_size(&self) -> (r: usize)
        ensures
            r == self.spec_output_size(),
    {
        self.output_size
    }

    pub fn hidden_layers(&self) -> (r: usize)
        ensures
            r == self.spec_hidden_layers(),
    {
        self.hidden_layers
    }

    pub fn nodes_per_hidden_layer(&self) -> (r: usize)
        ensures
            r == self.spec_nodes(),
    {
        self.nodes_per_hidden_layer
    }

    /// Length of the flat weight vector: the sum of the sizes of all
    /// transitions.
    pub fn weight_count(&self) -> (r: usize)
        requires
            self.wf(),
        ensures
            r == self.spec_weight_count(),
            r == self.spec_offset(self.spec_shapes().len() as int),
    {
        proof {
            lemma_weight_count(self.input_size, self.output_size, self.hidden_layers, self.nodes_per_hidden_layer);
        }
        self.weight_count
    }

    /// Width of the widest layer whose activations a forward pass stores: the
    /// length each scratch buffer needs.
    pub fn largest_layer_capacity(&self) -> (r: usize)
        requires
            self.wf(),
        ensures
            r == if self.spec_nodes() > self.spec_output_size() {
                self.spec_nodes()
            } else {
                self.spec_output_size()
            },
            forall|k: int|
                0 <= k < self.spec_shapes().len() ==> #[trigger] self.spec_shapes()[k].outputs <= r,
    {
        if self.nodes_per_hidden_layer > self.output_size {
            self.nodes_per_hidden_layer
        } else {
            self.output_size
        }
    }

    /// Number of transitions: one more than the number of hidden layers.
    pub fn layer_count(&self) -> (r: usize)
        requires
            self.wf(),
        ensures
            r == self.spec_shapes().len(),
    {
        self.shapes.len()
    }

    /// The shape of transition `k`.
    pub fn layer(&self, k: usize) -> (r: LayerShape)
        requires
            self.wf(),
            k < self.spec_shapes().len(),
        ensures
            r == self.spec_shapes()[k as int],
    {
        self.shapes[k]
    }

    /// Where the weights of transition `k` begin in the flat weight vector:
    /// the sum of the sizes of the transitions before it.
    pub fn layer_offset(&self, k: usize) -> (r: usize)
        requires
            self.wf(),
            k <= self.spec_shapes().len(),
        ensures
            r == self.spec_offset(k as int),
            r <= self.spec_weight_count(),
    {
        let ghost shapes = self.spec_shapes();
        proof {
            lemma_weight_count(self.input_size, self.output_size, self.hidden_layers, self.nodes_per_hidden_layer);
            lemma_weights_before_monotone(shapes, k as int, shapes.len() as int);
        }
        let mut total: usize = 0;
        let mut t: usize = 0;
        while t < k
            invariant
                self.wf(),
                shapes == self.spec_shapes(),
                k <= shapes.len(),
                0 <= t <= k,
                total == weights_before(shapes, t as int),
                weights_before(shapes, k as int) <= usize::MAX,
            decreases k - t,
        {
            proof {
                lemma_weights_before_monotone(shapes, t + 1, k as int);
            }
            total = total + self.shapes[t].inputs * self.shapes[t].outputs;
            t = t + 1;
        }
        total
    }

    /// Index in the flat weight vector of the weight that transition `k`
    /// applies from input neuron `x` to output neuron `j`.
    pub fn weight_index(&self, k: usize, j: usize, x: usize) -> (r: usize)
        requires
            self.wf(),
            k < self.spec_shapes().len(),
            j < self.spec_shapes()[k as int].outputs,
            x < self.spec_shapes()[k as int].inputs,
        ensures
            r == self.spec_offset(k as int) + j * self.spec_shapes()[k as int].inputs + x,
            r < self.spec_offset(k as int + 1),
            r < self.spec_weight_count(),
    {
        let ghost shapes = self.spec_shapes();
        let offset = self.layer_offset(k);
        let shape = self.shapes[k];
        proof {
            lemma_weight_count(self.input_size, self.output_size, self.hidden_layers, self.nodes_per_hidden_layer);
            lemma_weights_before_monotone(shapes, k + 1, shapes.len() as int);
            let (a, b) = (shape.inputs as int, shape.outputs as int);
            assert(j * a + x < a * b) by (nonlinear_arith)
                requires j < b, x < a, j >= 0, x >= 0;
            assert(0 <= j * a) by (nonlinear_arith)
                requires j >= 0, a >= 0;
        }
        offset + j * shape.inputs + x
    }

    /// Whether an example with an input of `input_len` values and a target of
    /// `target_len` values fits the network.
    pub fn accepts_example(&self, input_len: usize, target_len: usize) -> (r: bool)
        ensures
            r == (input_len == self.spec_input_size() && target_len == self.spec_output_size()),
    {
        input_len == self.input_size && target_len == self.output_size
    }

    /// Number of terms that the mean absolute error over `examples` examples
    /// averages: one per example and output, or `None` where that count does
    /// not fit in a `usize`.
    pub fn error_terms(&self, examples: usize) -> (r: Option<usize>)
        ensures
            r is Some <==> examples * self.spec_output_size() <= usize::MAX,
            r matches Some(n) ==> n == examples * self.spec_output_size(),
    {
        checked_product(examples, self.output_size)
    }

    /// Builds the topology, or returns `None` when a parameter is zero or the
    /// weight vector would not fit in memory.
    pub fn try_new(
        input_size: usize,
        output_size: usize,
        hidden_layers: usize,
        nodes_per_hidden_layer: usize,
    ) -> (r: Option<Topology>)
        ensures
            r is Some <==> {
                &&& input_size >= 1
                &&& output_size >= 1
                &&& hidden_layers >= 1
                &&& nodes_per_hidden_layer >= 1
                &&& weight_count_of(
                    input_size as int,
                    output_size as int,
                    hidden_layers as int,
                    nodes_per_hidden_layer as int,
                ) <= usize::MAX
            },
            r matches Some(t) ==> {
                &&& t.wf()
                &&& t.spec_input_size() == input_size
                &&& t.spec_output_size() == output_size
                &&& t.spec_hidden_layers() == hidden_layers
                &&& t.spec_nodes() == nodes_per_hidden_layer
            },
    {
        if input_size == 0 || output_size == 0 || hidden_layers == 0 || nodes_per_hidden_layer
            == 0 {
            return None;
        }
        match checked_weight_count(input_size, output_size, hidden_layers, nodes_per_hidden_layer) {
            Some(_) => Some(
                Topology::new(input_size, output_size, hidden_layers, nodes_per_hidden_layer),
            ),
            None => None,
        }
    }
}

/// `a * b`, or `None` where the product does not fit.
fn checked_product(a: usize, b: usize) -> (r: Option<usize>)
    ensures
        r is Some <==> a * b <= usize::MAX,
        r matches Some(p) ==> p == a * b,
{
    a.checked_mul(b)
}

/// The weight count, or `None` where it does not fit in a `usize`.
fn checked_weight_count(
    input_size: usize,
    output_size: usize,
    hidden_layers: usize,
    nodes: usize,
) -> (r: Option<usize>)
    requires
        hidden_layers >= 1,
    ensures
        r is Some <==> weight_count_of(
            input_size as int,
            output_size as int,
            hidden_layers as int,
            nodes as int,
        ) <= usize::MAX,
        r matches Some(c) ==> c == weight_count_of(
            input_size as int,
            output_size as int,
            hidden_layers as int,
            nodes as int,
        ),
{
    let ghost (i, o, h, n) = (input_size as int, output_size as int, hidden_layers as int, nodes as int);
    let ghost count = weight_count_of(i, o, h, n);
    proof {
        assert(0 <= i * n && 0 <= n * o && 0 <= (h - 1) * n * n) by (nonlinear_arith)
            requires i >= 0, n >= 0, o >= 0, h >= 1;
    }
    let first = match checked_product(input_size, nodes) {
        Some(p) => p,
        None => return None,
    };
    let last = match checked_product(nodes, output_size) {
        Some(p) => p,
        None => return None,
    };
    let middle: usize = if hidden_layers == 1 {
        assert((h - 1) * n * n == 0) by (nonlinear_arith)
            requires h == 1;
        0
    } else {
        let square = match checked_product(nodes, nodes) {
            Some(p) => p,
            None => {
                assert(n * n <= (h - 1) * n * n) by (nonlinear_arith)
                    requires h >= 2, n >= 0;
                return None;
            },
        };
        match checked_product(hidden_layers - 1, square) {
            Some(p) => {
                assert(p == (h - 1) * n * n) by (nonlinear_arith)
                    requires p == (h - 1) * square, square == n * n;
                p
            },
            None => {
                assert((h - 1) * square == (h - 1) * n * n) by (nonlinear_arith)
                    requires square == n * n;
                return None;
            },
        }
    };
    match first.checked_add(middle) {
        Some(partial) => partial.checked_add(last),
        None => None,
    }
}

} // verus!
