use vstd::prelude::*;

verus! {

/// Number of entries in the hyperbolic-tangent table.
pub const TANSIG_TABLE_LEN: usize = 201;

/// Table entries are stored in millionths: an entry `v` stands for `v / 1_000_000`.
pub const TANSIG_TABLE_SCALE: u32 = 1000000;

/// `tanh(k / 25)` for `k` in `0..=200`, rounded to six decimals and stored in millionths.
pub const TANSIG_TABLE_MICRO: [u32; 201] = [
        0, 39979, 79830, 119427, 158649, 197375, 235496, 272905, 309507, 345214,
        379949, 413644, 446244, 477700, 507977, 537050, 564900, 591519, 616909, 641077,
        664037, 685809, 706419, 725897, 744277, 761594, 777888, 793199, 807569, 821040,
        833655, 845456, 856485, 866784, 876393, 885352, 893698, 901468, 908698, 915420,
        921669, 927473, 932862, 937863, 942503, 946806, 950795, 954492, 957917, 961090,
        964028, 966747, 969265, 971594, 973749, 975743, 977587, 979293, 980869, 982327,
        983675, 984921, 986072, 987136, 988119, 989027, 989867, 990642, 991359, 992020,
        992631, 993196, 993718, 994199, 994644, 995055, 995434, 995784, 996108, 996407,
        996682, 996937, 997172, 997389, 997590, 997775, 997946, 998104, 998249, 998384,
        998508, 998623, 998728, 998826, 998916, 999000, 999076, 999147, 999213, 999273,
        999329, 999381, 999428, 999472, 999513, 999550, 999585, 999617, 999646, 999673,
        999699, 999722, 999743, 999763, 999781, 999798, 999813, 999828, 999841, 999853,
        999865, 999875, 999885, 999893, 999902, 999909, 999916, 999923, 999929, 999934,
        999939, 999944, 999948, 999952, 999956, 999959, 999962, 999965, 999968, 999970,
        999973, 999975, 999977, 999978, 999980, 999982, 999983, 999984, 999986, 999987,
        999988, 999989, 999990, 999990, 999991, 999992, 999992, 999993, 999994, 999994,
        999994, 999995, 999995, 999996, 999996, 999996, 999997, 999997, 999997, 999997,
        999997, 999998, 999998, 999998, 999998, 999998, 999998, 999999, 999999, 999999,
        999999, 999999, 999999, 999999, 999999, 999999, 999999, 999999, 999999, 999999,
        1000000, 1000000, 1000000, 1000000, 1000000, 1000000, 1000000, 1000000, 1000000, 1000000,
        1000000,
];

/// The entry of the table at index `i`, in millionths.
pub fn tansig_table_micro(i: usize) -> (r: u32)
    requires
        i < TANSIG_TABLE_LEN,
    ensures
        r == TANSIG_TABLE_MICRO@[i as int],
{
    TANSIG_TABLE_MICRO[i]
}

/// The table read as a sequence of millionths.
pub open spec fn tansig_table() -> Seq<u32> {
    TANSIG_TABLE_MICRO@
}

proof fn lemma_tansig_table_steps(i: int, j: int)
    requires
        0 <= i <= j < TANSIG_TABLE_LEN,
        forall|k: int| 0 <= k < TANSIG_TABLE_LEN - 1 ==> #[trigger] tansig_table()[k] <= tansig_table()[k + 1],
    ensures
        tansig_table()[i] <= tansig_table()[j],
    decreases j - i,
{
    if i < j {
        lemma_tansig_table_steps(i + 1, j);
    }
}

/// The table starts at `tanh(0) = 0`, ends at `1`, never decreases from one
/// entry to the next, and so never leaves `[0, 1]`.
pub proof fn lemma_tansig_table_shape()
    ensures
        tansig_table().len() == TANSIG_TABLE_LEN,
        tansig_table()[0] == 0,
        tansig_table()[TANSIG_TABLE_LEN - 1] == TANSIG_TABLE_SCALE,
        forall|i: int, j: int|
            0 <= i <= j < TANSIG_TABLE_LEN ==> #[trigger] tansig_table()[i] <= #[trigger] tansig_table()[j],
        forall|i: int| 0 <= i < TANSIG_TABLE_LEN ==> #[trigger] tansig_table()[i] <= TANSIG_TABLE_SCALE,
{
    let t = tansig_table();
    assert forall|k: int| 0 <= k < TANSIG_TABLE_LEN - 1 implies #[trigger] t[k] <= t[k + 1] by {
    }
    assert forall|i: int, j: int| 0 <= i <= j < TANSIG_TABLE_LEN implies #[trigger] t[i] <= #[trigger] t[j] by {
        lemma_tansig_table_steps(i, j);
    }
}

} // verus!
