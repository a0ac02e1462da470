use crate::activation::{code_of, Activation};
use crate::error::LayerError;
use libc::c_int;
use vstd::prelude::*;

verus! {

/// What a dense layer holds, as mathematical values.
pub ghost struct DenseLayerView {
    pub bias: Seq<i8>,
    pub input_weights: Seq<i8>,
    pub nb_inputs: nat,
    pub nb_neurons: nat,
    pub activation: Activation,
}

/// The tensor lengths agree with the counts: one bias per unit, and one
/// weight per (input, unit) pair.
pub open spec fn dense_shape_ok(v: DenseLayerView) -> bool {
    &&& v.bias.len() == v.nb_neurons
    &&& v.input_weights.len() == v.nb_inputs * v.nb_neurons
}

/// Weights are stored input-major: the weight from input `j` to unit `i`
/// sits at `j * nb_neurons + i`.
pub open spec fn dense_weight_index(nb_neurons: int, j: int, i: int) -> int {
    j * nb_neurons + i
}

/// The error, if any, that a dense layer record with these lengths and codes is
/// refused with: a negative count first, then a length that disagrees with the
/// counts, then an unknown activation code.
pub open spec fn dense_record_error(
    bias_len: int,
    weights_len: int,
    nb_inputs: int,
    nb_neurons: int,
    activation: int,
) -> Option<LayerError> {
    if nb_inputs < 0 || nb_neurons < 0 {
        Some(LayerError::DimensionMismatch)
    } else if bias_len != nb_neurons || weights_len != nb_inputs * nb_neurons {
        Some(LayerError::DimensionMismatch)
    } else if !(0 <= activation <= 2) {
        Some(LayerError::BadActivation)
    } else {
        None
    }
}

/// A fully-connected layer whose quantized tensors have been checked against
/// its counts. It borrows the tensors and never changes them.
pub struct DenseLayer<'a> {
    bias: &'a [i8],
    input_weights: &'a [i8],
    nb_inputs: usize,
    nb_neurons: usize,
    activation: Activation,
}

impl<'a> View for DenseLayer<'a> {
    type V = DenseLayerView;

    closed spec fn view(&self) -> DenseLayerView {
        DenseLayerView {
            bias: self.bias@,
            input_weights: self.input_weights@,
            nb_inputs: self.nb_inputs as nat,
            nb_neurons: self.nb_neurons as nat,
            activation: self.activation,
        }
    }
}

impl<'a> DenseLayer<'a> {
    #[verifier::type_invariant]
    spec fn well_formed(&self) -> bool {
        dense_shape_ok(self@)
    }

    /// Checks a dense layer record and builds the layer from it.
    pub fn new(
        bias: &'a [i8],
        input_weights: &'a [i8],
        nb_inputs: c_int,
        nb_neurons: c_int,
        activation: c_int,
    ) -> (r: Result<DenseLayer<'a>, LayerError>)
        ensures
            r is Err <==> dense_record_error(
                bias@.len() as int,
                input_weights@.len() as int,
                nb_inputs as int,
                nb_neurons as int,
                activation as int,
            ) is Some,
            r matches Err(e) ==> Some(e) == dense_record_error(
                bias@.len() as int,
                input_weights@.len() as int,
                nb_inputs as int,
                nb_neurons as int,
                activation as int,
            ),
            r matches Ok(l) ==> {
                &&& l@.bias == bias@
                &&& l@.input_weights == input_weights@
                &&& l@.nb_inputs == nb_inputs as int
                &&& l@.nb_neurons == nb_neurons as int
                &&& code_of(l@.activation) == activation as int
            },
    {
        if nb_inputs < 0 || nb_neurons < 0 {
            return Err(LayerError::DimensionMismatch);
        }
        let m = nb_inputs as usize;
        let n = nb_neurons as usize;
        assert(m as int == nb_inputs as int && n as int == nb_neurons as int);
        if bias.len() != n {
            return Err(LayerError::DimensionMismatch);
        }
        let weights_len = input_weights.len();
        match m.checked_mul(n) {
            Some(len) => {
                if weights_len != len {
                    return Err(LayerError::DimensionMismatch);
                }
            },
            None => {
                return Err(LayerError::DimensionMismatch);
            },
        }
        match Activation::from_code(activation) {
            Some(a) => Ok(DenseLayer { bias, input_weights, nb_inputs: m, nb_neurons: n, activation: a }),
            None => Err(LayerError::BadActivation),
        }
    }

    /// Number of inputs the layer reads.
    pub fn nb_inputs(&self) -> (r: usize)
        ensures
            r == self@.nb_inputs,
            dense_shape_ok(self@),
    {
        proof {
            use_type_invariant(self);
        }
        self.nb_inputs
    }

    /// Number of units, one output each.
    pub fn nb_neurons(&self) -> (r: usize)
        ensures
            r == self@.nb_neurons,
            dense_shape_ok(self@),
    {
        proof {
            use_type_invariant(self);
        }
        self.nb_neurons
    }

    /// The activation applied to every unit.
    pub fn activation(&self) -> (r: Activation)
        ensures
            r == self@.activation,
    {
        self.activation
    }

    /// The quantized bias of unit `i`.
    pub fn bias(&self, i: usize) -> (r: i8)
        requires
            i < self@.nb_neurons,
        ensures
            r == self@.bias[i as int],
    {
        proof {
            use_type_invariant(self);
        }
        self.bias[i]
    }

    /// The quantized weight from input `j` to unit `i`.
    pub fn weight(&self, j: usize, i: usize) -> (r: i8)
        requires
            j < self@.nb_inputs,
            i < self@.nb_neurons,
        ensures
            r == self@.input_weights[dense_weight_index(self@.nb_neurons as int, j as int, i as int)],
    {
        proof {
            use_type_invariant(self);
            let (m, n) = (self.nb_inputs as int, self.nb_neurons as int);
            assert(j * n + i < m * n) by (nonlinear_arith)
                requires
                    j < m,
                    i < n,
            ;
        }
        let len = self.input_weights.len();
        proof {
            assert(j * self.nb_neurons + i < len);
        }
        self.input_weights[j * self.nb_neurons + i]
    }

    /// Checks that an input buffer and an output buffer have the lengths this
    /// layer reads and writes.
    pub fn check_buffers(&self, input_len: usize, output_len: usize) -> (r: Result<(), LayerError>)
        ensures
            r is Ok <==> (input_len == self@.nb_inputs && output_len == self@.nb_neurons),
            r matches Err(e) ==> e == LayerError::DimensionMismatch,
    {
        if input_len == self.nb_inputs && output_len == self.nb_neurons {
            Ok(())
        } else {
            Err(LayerError::DimensionMismatch)
        }
    }
}

} // verus!
