use crate::activation::{code_of, Activation};
use crate::error::LayerError;
use libc::c_int;
use vstd::prelude::*;

verus! {

/// Largest unit count a GRU layer may have: a GRU step keeps each of its three
/// intermediate vectors in a buffer of this many values.
pub const MAX_NEURONS: usize = 128;

/// The three gates of a GRU unit. Each owns one segment of the bias and one
/// column segment of both weight tensors.
#[derive(Clone, Copy, Debug, PartialEq, Eq, Structural)]
pub enum Gate {
    Update,
    Reset,
    Candidate,
}

/// Position of a gate's segment: update first, then reset, then candidate.
pub open spec fn gate_rank(g: Gate) -> int {
    match g {
        Gate::Update => 0,
        Gate::Reset => 1,
        Gate::Candidate => 2,
    }
}

/// What a GRU layer holds, as mathematical values.
pub ghost struct GruLayerView {
    pub bias: Seq<i8>,
    pub input_weights: Seq<i8>,
    pub recurrent_weights: Seq<i8>,
    pub nb_inputs: nat,
    pub nb_neurons: nat,
    pub activation: Activation,
}

/// The unit count is within capacity and the tensor lengths agree with the
/// counts: three biases per unit, and three weights per (input, unit) and per
/// (unit, unit) pair.
pub open spec fn gru_shape_ok(v: GruLayerView) -> bool {
    &&& v.nb_neurons <= MAX_NEURONS
    &&& v.bias.len() == 3 * v.nb_neurons
    &&& v.input_weights.len() == v.nb_inputs * (3 * v.nb_neurons)
    &&& v.recurrent_weights.len() == v.nb_neurons * (3 * v.nb_neurons)
}

/// Gate `g`'s bias for unit `i` sits at `rank(g) * nb_neurons + i`.
pub open spec fn gru_bias_index(nb_neurons: int, g: Gate, i: int) -> int {
    gate_rank(g) * nb_neurons + i
}

/// Both weight tensors are stored with a row of `3 * nb_neurons` per source
/// (input or previous-state entry) `j`; gate `g`'s weight to unit `i` sits at
/// column `rank(g) * nb_neurons + i` of that row.
pub open spec fn gru_weight_index(nb_neurons: int, g: Gate, j: int, i: int) -> int {
    gate_rank(g) * nb_neurons + j * (3 * nb_neurons) + i
}

/// The error, if any, that a GRU layer record with these lengths and codes is
/// refused with: a negative count first, then a unit count over capacity, then
/// a length that disagrees with the counts, then an unknown activation code.
pub open spec fn gru_record_error(
    bias_len: int,
    input_weights_len: int,
    recurrent_weights_len: int,
    nb_inputs: int,
    nb_neurons: int,
    activation: int,
) -> Option<LayerError> {
    if nb_inputs < 0 || nb_neurons < 0 {
        Some(LayerError::DimensionMismatch)
    } else if nb_neurons > MAX_NEURONS {
        Some(LayerError::CapacityExceeded)
    } else if bias_len != 3 * nb_neurons || input_weights_len != nb_inputs * (3 * nb_neurons)
        || recurrent_weights_len != nb_neurons * (3 * nb_neurons) {
        Some(LayerError::DimensionMismatch)
    } else if !(0 <= activation <= 2) {
        Some(LayerError::BadActivation)
    } else {
        None
    }
}

/// A gated-recurrent-unit layer whose quantized tensors have been checked
/// against its counts. It borrows the tensors and never changes them.
pub struct GruLayer<'a> {
    bias: &'a [i8],
    input_weights: &'a [i8],
    recurrent_weights: &'a [i8],
    nb_inputs: usize,
    nb_neurons: usize,
    activation: Activation,
}

impl<'a> View for GruLayer<'a> {
    type V = GruLayerView;

    closed spec fn view(&self) -> GruLayerView {
        GruLayerView {
            bias: self.bias@,
            input_weights: self.input_weights@,
            recurrent_weights: self.recurrent_weights@,
            nb_inputs: self.nb_inputs as nat,
            nb_neurons: self.nb_neurons as nat,
            activation: self.activation,
        }
    }
}

/// The row-and-column index `rank(g) * n + j * 3n + i` lies inside a tensor of
/// `rows` rows of `3n` entries when `j < rows` and `i < n`.
proof fn lemma_weight_index_bound(n: int, rank: int, rows: int, j: int, i: int)
    requires
        0 <= rank < 3,
        0 <= j < rows,
        0 <= i < n,
    ensures
        0 <= rank * n + j * (3 * n) + i < rows * (3 * n),
{
    assert(0 <= rank * n + j * (3 * n) + i < rows * (3 * n)) by (nonlinear_arith)
        requires
            0 <= rank < 3,
            0 <= j < rows,
            0 <= i < n,
    ;
}

/// The three gate segments split each weight tensor without overlap: two
/// different (gate, source, unit) triples never share an entry, and every
/// triple lands inside a tensor of `rows` rows.
pub proof fn lemma_gru_weight_layout(n: int, rows: int, g1: Gate, j1: int, i1: int, g2: Gate, j2: int, i2: int)
    requires
        0 <= j1 < rows,
        0 <= j2 < rows,
        0 <= i1 < n,
        0 <= i2 < n,
    ensures
        0 <= gru_weight_index(n, g1, j1, i1) < rows * (3 * n),
        gru_weight_index(n, g1, j1, i1) == gru_weight_index(n, g2, j2, i2) ==> (g1 == g2 && j1 == j2
            && i1 == i2),
{
    lemma_weight_index_bound(n, gate_rank(g1), rows, j1, i1);
    let (c1, c2) = (gate_rank(g1) * n + i1, gate_rank(g2) * n + i2);
    if gru_weight_index(n, g1, j1, i1) == gru_weight_index(n, g2, j2, i2) {
        assert(j1 == j2) by (nonlinear_arith)
            requires
                0 <= c1 < 3 * n,
                0 <= c2 < 3 * n,
                c1 + j1 * (3 * n) == c2 + j2 * (3 * n),
        ;
        assert(gate_rank(g1) == gate_rank(g2)) by (nonlinear_arith)
            requires
                0 <= i1 < n,
                0 <= i2 < n,
                gate_rank(g1) * n + i1 == gate_rank(g2) * n + i2,
        ;
    }
}

impl Gate {
    /// Position of this segment among the three.
    pub fn rank(&self) -> (r: usize)
        ensures
            r == gate_rank(*self),
    {
        match self {
            Gate::Update => 0,
            Gate::Reset => 1,
            Gate::Candidate => 2,
        }
    }
}

impl<'a> GruLayer<'a> {
    #[verifier::type_invariant]
    spec fn well_formed(&self) -> bool {
        gru_shape_ok(self@)
    }

    /// Checks a GRU layer record and builds the layer from it.
    pub fn new(
        bias: &'a [i8],
        input_weights: &'a [i8],
        recurrent_weights: &'a [i8],
        nb_inputs: c_int,
        nb_neurons: c_int,
        activation: c_int,
    ) -> (r: Result<GruLayer<'a>, LayerError>)
        ensures
            r is Err <==> gru_record_error(
                bias@.len() as int,
                input_weights@.len() as int,
                recurrent_weights@.len() as int,
                nb_inputs as int,
                nb_neurons as int,
                activation as int,
            ) is Some,
            r matches Err(e) ==> Some(e) == gru_record_error(
                bias@.len() as int,
                input_weights@.len() as int,
                recurrent_weights@.len() as int,
                nb_inputs as int,
                nb_neurons as int,
                activation as int,
            ),
            r matches Ok(l) ==> {
                &&& l@.bias == bias@
                &&& l@.input_weights == input_weights@
                &&& l@.recurrent_weights == recurrent_weights@
                &&& l@.nb_inputs == nb_inputs as int
                &&& l@.nb_neurons == nb_neurons as int
                &&& code_of(l@.activation) == activation as int
            },
    {
        if nb_inputs < 0 || nb_neurons < 0 {
            return Err(LayerError::DimensionMismatch);
        }
        let m = nb_inputs as usize;
        let n = nb_neurons as usize;
        assert(m as int == nb_inputs as int && n as int == nb_neurons as int);
        if n > MAX_NEURONS {
            return Err(LayerError::CapacityExceeded);
        }
        let stride = 3 * n;
        assert(n * stride <= 128 * 384) by (nonlinear_arith)
            requires
                n <= 128,
                stride == 3 * n,
        ;
        if bias.len() != stride || recurrent_weights.len() != n * stride {
            return Err(LayerError::DimensionMismatch);
        }
        let input_len = input_weights.len();
        match m.checked_mul(stride) {
            Some(len) => {
                if input_len != len {
                    return Err(LayerError::DimensionMismatch);
                }
            },
            None => {
                return Err(LayerError::DimensionMismatch);
            },
        }
        match Activation::from_code(activation) {
            Some(a) => Ok(
                GruLayer {
                    bias,
                    input_weights,
                    recurrent_weights,
                    nb_inputs: m,
                    nb_neurons: n,
                    activation: a,
                },
            ),
            None => Err(LayerError::BadActivation),
        }
    }

    /// Number of inputs the layer reads.
    pub fn nb_inputs(&self) -> (r: usize)
        ensures
            r == self@.nb_inputs,
            gru_shape_ok(self@),
    {
        proof {
            use_type_invariant(self);
        }
        self.nb_inputs
    }

    /// Number of units, and so the length of the state.
    pub fn nb_neurons(&self) -> (r: usize)
        ensures
            r == self@.nb_neurons,
            gru_shape_ok(self@),
    {
        proof {
            use_type_invariant(self);
        }
        self.nb_neurons
    }

    /// The activation of the candidate gate.
    pub fn activation(&self) -> (r: Activation)
        ensures
            r == self@.activation,
    {
        self.activation
    }

    /// Gate `g`'s quantized bias for unit `i`.
    pub fn bias(&self, g: Gate, i: usize) -> (r: i8)
        requires
            i < self@.nb_neurons,
        ensures
            r == self@.bias[gru_bias_index(self@.nb_neurons as int, g, i as int)],
    {
        proof {
            use_type_invariant(self);
        }
        self.bias[g.rank() * self.nb_neurons + i]
    }

    /// Gate `g`'s quantized weight from input `j` to unit `i`.
    pub fn input_weight(&self, g: Gate, j: usize, i: usize) -> (r: i8)
        requires
            j < self@.nb_inputs,
            i < self@.nb_neurons,
        ensures
            r == self@.input_weights[gru_weight_index(self@.nb_neurons as int, g, j as int, i as int)],
    {
        proof {
            use_type_invariant(self);
            lemma_weight_index_bound(
                self.nb_neurons as int,
                gate_rank(g),
                self.nb_inputs as int,
                j as int,
                i as int,
            );
        }
        let len = self.input_weights.len();
        let n = self.nb_neurons;
        proof {
            assert(j * (3 * n) <= gate_rank(g) * n + j * (3 * n) + i < len);
        }
        self.input_weights[g.rank() * n + j * (3 * n) + i]
    }

    /// Gate `g`'s quantized weight from previous-state entry `j` to unit `i`.
    pub fn recurrent_weight(&self, g: Gate, j: usize, i: usize) -> (r: i8)
        requires
            j < self@.nb_neurons,
            i < self@.nb_neurons,
        ensures
            r == self@.recurrent_weights[gru_weight_index(self@.nb_neurons as int, g, j as int, i as int)],
    {
        proof {
            use_type_invariant(self);
            lemma_weight_index_bound(
                self.nb_neurons as int,
                gate_rank(g),
                self.nb_neurons as int,
                j as int,
                i as int,
            );
        }
        let len = self.recurrent_weights.len();
        let n = self.nb_neurons;
        proof {
            assert(j * (3 * n) <= gate_rank(g) * n + j * (3 * n) + i < len);
        }
        self.recurrent_weights[g.rank() * n + j * (3 * n) + i]
    }

    /// Checks that an input buffer and a state buffer have the lengths this
    /// layer reads and updates.
    pub fn check_buffers(&self, input_len: usize, state_len: usize) -> (r: Result<(), LayerError>)
        ensures
            r is Ok <==> (input_len == self@.nb_inputs && state_len == self@.nb_neurons),
            r matches Err(e) ==> e == LayerError::DimensionMismatch,
    {
        if input_len == self.nb_inputs && state_len == self.nb_neurons {
            Ok(())
        } else {
            Err(LayerError::DimensionMismatch)
        }
    }
}

} // verus!
