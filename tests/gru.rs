use rnn::{Activation, Gate, GruLayer, LayerError, MAX_NEURONS};

fn ramp(len: usize) -> Vec<i8> {
    (0..len).map(|k| k as i8).collect()
}

#[test]
fn gru_accepts_matching_record() {
    let bias = ramp(6);
    let input = ramp(6);
    let recurrent = ramp(12);
    let layer = GruLayer::new(&bias, &input, &recurrent, 1, 2, 0).unwrap();
    assert_eq!(layer.nb_inputs(), 1);
    assert_eq!(layer.nb_neurons(), 2);
    assert_eq!(layer.activation(), Activation::Tanh);
}

#[test]
fn gru_gate_segments() {
    let bias = ramp(6);
    let input = ramp(12);
    let recurrent = ramp(12);
    let layer = GruLayer::new(&bias, &input, &recurrent, 2, 2, 1).unwrap();
    assert_eq!(layer.bias(Gate::Update, 1), 1);
    assert_eq!(layer.bias(Gate::Reset, 0), 2);
    assert_eq!(layer.bias(Gate::Candidate, 1), 5);
    assert_eq!(layer.input_weight(Gate::Update, 0, 0), 0);
    assert_eq!(layer.input_weight(Gate::Reset, 0, 1), 3);
    assert_eq!(layer.input_weight(Gate::Candidate, 1, 0), 10);
    assert_eq!(layer.recurrent_weight(Gate::Update, 1, 1), 7);
    assert_eq!(layer.recurrent_weight(Gate::Reset, 1, 0), 8);
    assert_eq!(layer.recurrent_weight(Gate::Candidate, 1, 1), 11);
}

#[test]
fn gru_without_external_input() {
    let layer = GruLayer::new(&[0i8; 3], &[], &[0i8; 3], 0, 1, 2).unwrap();
    assert_eq!(layer.nb_inputs(), 0);
    assert_eq!(layer.recurrent_weight(Gate::Candidate, 0, 0), 0);
    assert_eq!(layer.check_buffers(0, 1), Ok(()));
}

#[test]
fn gru_largest_unit_count() {
    let n = MAX_NEURONS;
    let bias = vec![0i8; 3 * n];
    let recurrent = vec![1i8; n * 3 * n];
    let layer = GruLayer::new(&bias, &[], &recurrent, 0, n as i32, 0).unwrap();
    assert_eq!(layer.nb_neurons(), 128);
    assert_eq!(layer.recurrent_weight(Gate::Candidate, n - 1, n - 1), 1);
}

#[test]
fn gru_refuses_too_many_units() {
    assert_eq!(GruLayer::new(&[], &[], &[], 0, 129, 0).err(), Some(LayerError::CapacityExceeded));
}

#[test]
fn gru_refuses_negative_counts() {
    assert_eq!(GruLayer::new(&[], &[], &[], -1, 200, 0).err(), Some(LayerError::DimensionMismatch));
}

#[test]
fn gru_refuses_wrong_lengths() {
    assert_eq!(GruLayer::new(&[0i8; 5], &[0i8; 6], &[0i8; 12], 1, 2, 0).err(), Some(LayerError::DimensionMismatch));
    assert_eq!(GruLayer::new(&[0i8; 6], &[0i8; 5], &[0i8; 12], 1, 2, 0).err(), Some(LayerError::DimensionMismatch));
    assert_eq!(GruLayer::new(&[0i8; 6], &[0i8; 6], &[0i8; 11], 1, 2, 0).err(), Some(LayerError::DimensionMismatch));
}

#[test]
fn gru_refuses_unknown_activation() {
    assert_eq!(GruLayer::new(&[0i8; 6], &[0i8; 6], &[0i8; 12], 1, 2, -4).err(), Some(LayerError::BadActivation));
}

#[test]
fn gru_checks_buffer_lengths() {
    let layer = GruLayer::new(&[0i8; 6], &[0i8; 6], &[0i8; 12], 1, 2, 0).unwrap();
    assert_eq!(layer.check_buffers(1, 2), Ok(()));
    assert_eq!(layer.check_buffers(2, 2), Err(LayerError::DimensionMismatch));
    assert_eq!(layer.check_buffers(1, 1), Err(LayerError::DimensionMismatch));
}
