use rnn::table::{tansig_table_micro, TANSIG_TABLE_LEN, TANSIG_TABLE_SCALE};

#[test]
fn table_boundary_values() {
    assert_eq!(TANSIG_TABLE_LEN, 201);
    assert_eq!(tansig_table_micro(0), 0);
    assert_eq!(tansig_table_micro(200), TANSIG_TABLE_SCALE);
    assert_eq!(tansig_table_micro(1), 39979);
    assert_eq!(tansig_table_micro(25), 761594);
}

#[test]
fn table_never_decreases() {
    for i in 1..TANSIG_TABLE_LEN {
        assert!(tansig_table_micro(i - 1) <= tansig_table_micro(i));
    }
}

#[test]
fn table_follows_tanh_to_six_decimals() {
    for i in 0..TANSIG_TABLE_LEN {
        let expected = ((i as f64 * 0.04).tanh() * 1e6).round() as i64;
        let got = tansig_table_micro(i) as i64;
        assert!((expected - got).abs() <= 1, "entry {}: {} vs {}", i, got, expected);
    }
}

#[test]
fn table_entries_convert_exactly_to_f32() {
    for i in 0..TANSIG_TABLE_LEN {
        let v = tansig_table_micro(i);
        let decimal = format!("{}.{:06}", v / 1_000_000, v % 1_000_000);
        let parsed: f32 = decimal.parse().unwrap();
        assert_eq!(v as f32 / TANSIG_TABLE_SCALE as f32, parsed);
    }
}
