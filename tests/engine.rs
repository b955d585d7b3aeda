use aggregator_v2::bounded::{bounded_add, bounded_sub};
use aggregator_v2::delta::{BoundError, DeltaAccumulator, DeltaOp, SignedU128};
use aggregator_v2::error::AggregatorError;
use aggregator_v2::operation::{
    check, destroy, materialize, materialize_and_try_sub, new, read_snapshot_u128,
    read_snapshot_u64, snapshot, snapshot_with_u64_limit, try_add, try_add_and_materialize,
    try_add_and_read_snapshot_u128, try_sub, try_sub_add, try_sub_and_materialize,
};
use aggregator_v2::payload::TypeArg;
use aggregator_v2::table::{initialize, AggregatorTable};

fn table_with(index: u64, limit: u128) -> AggregatorTable {
    let mut t = initialize();
    assert_eq!(t.new(index, limit), Ok(()));
    t
}

#[test]
fn overflow_fails_and_keeps_value() {
    let mut t = table_with(0, 600);
    assert_eq!(t.try_add(0, 400), Ok(()));
    assert_eq!(t.check(0, 400), Ok(()));
    assert_eq!(t.try_add(0, 201), Err(AggregatorError::Overflow));
    assert_eq!(t.check(0, 400), Ok(()));
}

#[test]
fn materialize_then_subtract_from_zero_underflows() {
    let mut t = table_with(0, 600);
    assert_eq!(t.materialize_and_try_sub(0, 400), Err(AggregatorError::Underflow));
    assert_eq!(t.check(0, 0), Ok(()));
}

#[test]
fn lifetime_scenario_values() {
    let mut t = table_with(0, 1500);
    assert_eq!(t.try_add(0, 400), Ok(()));
    assert_eq!(t.materialize(0), Ok(()));
    assert_eq!(t.try_add(0, 500), Ok(()));
    assert_eq!(t.check(0, 900), Ok(()));
    assert_eq!(t.try_sub_add(0, 200, 300), Ok(()));
    assert_eq!(t.check(0, 1000), Ok(()));
    assert_eq!(t.try_add_and_materialize(0, 501), Err(AggregatorError::Overflow));
    assert_eq!(t.try_sub_and_materialize(0, 1001), Err(AggregatorError::Underflow));
    assert_eq!(t.check(0, 1000), Ok(()));
    assert_eq!(t.destroy(0), Ok(()));
    assert_eq!(t.try_add(0, 1), Err(AggregatorError::MissingEntry));
}

#[test]
fn updates_in_either_order_give_the_sum() {
    let mut a = table_with(0, 1000);
    let mut b = table_with(0, 1000);
    let first = vec![try_add(0, 300), try_sub(0, 100), try_add(0, 250)];
    let second = vec![try_add(0, 250), try_add(0, 300), try_sub(0, 100)];
    for o in a.run_block(&first) {
        assert!(o.is_ok());
    }
    for o in b.run_block(&second) {
        assert!(o.is_ok());
    }
    assert_eq!(a.check(0, 450), Ok(()));
    assert_eq!(b.check(0, 450), Ok(()));
}

#[test]
fn bounds_are_inclusive_and_failures_change_nothing() {
    let mut t = table_with(0, 100);
    assert_eq!(t.try_add(0, 100), Ok(()));
    assert_eq!(t.try_add(0, 1), Err(AggregatorError::Overflow));
    assert_eq!(t.try_sub(0, 100), Ok(()));
    assert_eq!(t.try_sub(0, 1), Err(AggregatorError::Underflow));
    assert_eq!(t.check(0, 0), Ok(()));
}

#[test]
fn failing_sub_add_applies_neither_leg() {
    let mut t = table_with(0, 150);
    assert_eq!(t.try_add(0, 100), Ok(()));
    assert_eq!(t.try_sub_add(0, 50, 200), Err(AggregatorError::Overflow));
    assert_eq!(t.check(0, 100), Ok(()));
    assert_eq!(t.try_sub_add(0, 101, 1), Err(AggregatorError::Underflow));
    assert_eq!(t.check(0, 100), Ok(()));
    assert_eq!(t.try_sub_add(0, 100, 150), Ok(()));
    assert_eq!(t.check(0, 150), Ok(()));
}

#[test]
fn destroyed_index_is_missing_until_recreated() {
    let mut t = table_with(0, 10);
    assert_eq!(t.try_add(0, 5), Ok(()));
    assert_eq!(t.destroy(0), Ok(()));
    assert_eq!(t.try_sub(0, 1), Err(AggregatorError::MissingEntry));
    assert_eq!(t.materialize(0), Err(AggregatorError::MissingEntry));
    assert_eq!(t.snapshot(0), Err(AggregatorError::MissingEntry));
    assert_eq!(t.check(0, 5), Err(AggregatorError::MissingEntry));
    assert_eq!(t.destroy(0), Err(AggregatorError::MissingEntry));
    assert_eq!(t.new(0, 20), Ok(()));
    assert_eq!(t.check(0, 0), Ok(()));
    assert_eq!(t.try_add(0, 20), Ok(()));
}

#[test]
fn new_on_taken_index_fails() {
    let mut t = table_with(3, 10);
    assert_eq!(t.try_add(3, 4), Ok(()));
    assert_eq!(t.new(3, 50), Err(AggregatorError::AlreadyExists));
    assert_eq!(t.check(3, 4), Ok(()));
}

#[test]
fn concrete_snapshot_outlives_source_and_deferred_does_not() {
    let mut t = table_with(0, 1000);
    assert_eq!(t.try_add(0, 100), Ok(()));
    assert_eq!(t.materialize(0), Ok(()));
    assert_eq!(t.snapshot(0), Ok(()));
    assert_eq!(t.new(1, 1000), Ok(()));
    assert_eq!(t.try_add(1, 7), Ok(()));
    assert_eq!(t.snapshot(1), Ok(()));
    assert_eq!(t.destroy(0), Ok(()));
    assert_eq!(t.destroy(1), Ok(()));
    assert_eq!(t.read_snapshot_u128(0), Ok(100));
    assert_eq!(t.read_snapshot_u128(1), Err(AggregatorError::DanglingSnapshot));
    assert_eq!(t.new(1, 5), Ok(()));
    assert_eq!(t.read_snapshot_u128(1), Err(AggregatorError::DanglingSnapshot));
}

#[test]
fn deferred_snapshot_reads_value_at_capture() {
    let mut t = table_with(0, 1000);
    assert_eq!(t.try_add(0, 30), Ok(()));
    assert_eq!(t.snapshot(0), Ok(()));
    assert_eq!(t.try_add(0, 50), Ok(()));
    assert_eq!(t.read_snapshot_u128(0), Ok(30));
    assert_eq!(t.materialize(0), Ok(()));
    assert_eq!(t.read_snapshot_u128(0), Ok(30));
    assert_eq!(t.read_snapshot_u64(0), Ok(30));
    assert_eq!(t.check(0, 80), Ok(()));
}

#[test]
fn snapshot_width_is_enforced_at_read() {
    let big = (u64::MAX as u128) + 1;
    let mut t = table_with(0, u128::MAX);
    assert_eq!(t.try_add(0, big), Ok(()));
    assert_eq!(t.snapshot_with_u64_limit(0), Ok(()));
    assert_eq!(t.read_snapshot_u128(0), Err(AggregatorError::WidthMismatch));
    assert_eq!(t.read_snapshot_u64(0), Err(AggregatorError::WidthMismatch));
    assert_eq!(t.snapshot(0), Err(AggregatorError::AlreadyExists));
    assert_eq!(t.new(1, u128::MAX), Ok(()));
    assert_eq!(t.try_add(1, big), Ok(()));
    assert_eq!(t.snapshot(1), Ok(()));
    assert_eq!(t.read_snapshot_u128(1), Ok(big));
    assert_eq!(t.read_snapshot_u64(1), Err(AggregatorError::WidthMismatch));
    assert_eq!(t.read_snapshot_u128(9), Err(AggregatorError::MissingEntry));
}

#[test]
fn check_reports_mismatch() {
    let t = table_with(0, 10);
    assert_eq!(t.check(0, 1), Err(AggregatorError::ValueMismatch));
    assert_eq!(t.check(0, 0), Ok(()));
}

#[test]
fn add_and_read_returns_new_value() {
    let mut t = table_with(0, 100);
    assert_eq!(t.try_add(0, 10), Ok(()));
    assert_eq!(t.try_add_and_read_snapshot_u128(0, 5), Ok(15));
    assert_eq!(t.try_add_and_read_snapshot_u128(0, 86), Err(AggregatorError::Overflow));
    assert_eq!(t.check(0, 15), Ok(()));
    assert_eq!(t.try_add_and_read_snapshot_u128(4, 1), Err(AggregatorError::MissingEntry));
}

#[test]
fn block_outcomes_carry_read_values() {
    let mut t = initialize();
    let ops = vec![
        new(2, 500),
        try_add(2, 40),
        snapshot(2),
        snapshot_with_u64_limit(2),
        read_snapshot_u128(2),
        read_snapshot_u64(2),
        try_add_and_read_snapshot_u128(2, 2),
        materialize_and_try_sub(2, 43),
        try_sub_add(2, 42, 0),
        check(2, 0),
        try_add_and_materialize(2, 501),
        try_sub_and_materialize(2, 1),
        materialize(2),
        destroy(2),
    ];
    let out = t.run_block(&ops);
    assert_eq!(out.len(), ops.len());
    assert_eq!(out[0], Ok(None));
    assert_eq!(out[2], Ok(None));
    assert_eq!(out[3], Err(AggregatorError::AlreadyExists));
    assert_eq!(out[4], Ok(Some(40)));
    assert_eq!(out[5], Ok(Some(40)));
    assert_eq!(out[6], Ok(Some(42)));
    assert_eq!(out[7], Err(AggregatorError::Underflow));
    assert_eq!(out[8], Ok(None));
    assert_eq!(out[9], Ok(None));
    assert_eq!(out[10], Err(AggregatorError::Overflow));
    assert_eq!(out[11], Err(AggregatorError::Underflow));
    assert_eq!(out[12], Ok(None));
    assert_eq!(out[13], Ok(None));
}

#[test]
fn abort_codes() {
    assert_eq!(AggregatorError::Overflow.abort_code(), Some(131073));
    assert_eq!(AggregatorError::Underflow.abort_code(), Some(131074));
    assert_eq!(AggregatorError::MissingEntry.abort_code(), Some(25863));
    assert_eq!(AggregatorError::AlreadyExists.abort_code(), None);
    assert_eq!(AggregatorError::WidthMismatch.abort_code(), None);
    assert_eq!(AggregatorError::DanglingSnapshot.abort_code(), None);
    assert_eq!(AggregatorError::ValueMismatch.abort_code(), None);
}

#[test]
fn bounded_arithmetic() {
    assert_eq!(bounded_add(5, 10, 5), Ok(10));
    assert_eq!(bounded_add(5, 10, 6), Err(BoundError::Overflow));
    assert_eq!(bounded_add(0, u128::MAX, u128::MAX), Ok(u128::MAX));
    assert_eq!(bounded_sub(5, 5), Ok(0));
    assert_eq!(bounded_sub(5, 6), Err(BoundError::Underflow));
}

#[test]
fn accumulator_tracks_range_of_history() {
    let mut d = DeltaAccumulator::new();
    assert_eq!(d.apply(DeltaOp::Add(5), 10), Ok(()));
    assert_eq!(d.apply(DeltaOp::Sub(8), 10), Ok(()));
    assert_eq!(d.net(), SignedU128::Negative(3));
    // The history reaches +5 and -3 from its base.
    assert_eq!(d.try_bound_check(2, 10), Err(BoundError::Underflow));
    assert_eq!(d.try_bound_check(6, 10), Err(BoundError::Overflow));
    assert_eq!(d.try_bound_check(3, 10), Ok(()));
    assert_eq!(d.resolve(3, 10), 0);
    assert_eq!(d.resolve(5, 10), 2);
    // No base in [0, 10] absorbs a history spanning more than 10.
    assert_eq!(d.apply(DeltaOp::Sub(3), 10), Err(BoundError::Underflow));
    assert_eq!(d.apply(DeltaOp::Add(14), 10), Err(BoundError::Overflow));
    assert_eq!(d.net(), SignedU128::Negative(3));
    assert_eq!(d.apply(DeltaOp::Add(3), 10), Ok(()));
    assert_eq!(d.net(), SignedU128::Positive(0));
}

#[test]
fn entry_call_encodes_operands() {
    let call = try_add(3, 258).to_entry_call();
    assert_eq!(call.function, "0x1::aggregator_v2_test::try_add");
    assert!(call.ty_args.is_empty());
    assert_eq!(call.args.len(), 2);
    assert_eq!(call.args[0], vec![3, 0, 0, 0, 0, 0, 0, 0]);
    assert_eq!(call.args[1], vec![2, 1, 0, 0, 0, 0, 0, 0, 0, 0, 0, 0, 0, 0, 0, 0]);

    let call = read_snapshot_u64(7).to_entry_call();
    assert_eq!(call.function, "0x1::aggregator_v2_test::read_snapshot_with_u64_limit");
    assert_eq!(call.ty_args, vec![TypeArg::U64]);
    assert_eq!(call.args, vec![vec![7, 0, 0, 0, 0, 0, 0, 0]]);

    let call = read_snapshot_u128(1).to_entry_call();
    assert_eq!(call.function, "0x1::aggregator_v2_test::read_snapshot");
    assert_eq!(call.ty_args, vec![TypeArg::U128]);

    let call = try_sub_add(u64::MAX, 1, u128::MAX).to_entry_call();
    assert_eq!(call.function, "0x1::aggregator_v2_test::try_sub_add");
    assert_eq!(call.args[0], vec![255; 8]);
    assert_eq!(call.args[1], vec![1, 0, 0, 0, 0, 0, 0, 0, 0, 0, 0, 0, 0, 0, 0, 0]);
    assert_eq!(call.args[2], vec![255; 16]);

    let call = destroy(0x0102).to_entry_call();
    assert_eq!(call.function, "0x1::aggregator_v2_test::destroy");
    assert_eq!(call.args, vec![vec![2, 1, 0, 0, 0, 0, 0, 0]]);
}

#[test]
fn merge_appends_a_later_history() {
    let mut d = DeltaAccumulator::new();
    assert_eq!(d.apply(DeltaOp::Add(5), 10), Ok(()));
    assert_eq!(d.apply(DeltaOp::Sub(8), 10), Ok(()));
    let mut later = DeltaAccumulator::new();
    assert_eq!(later.apply(DeltaOp::Add(4), 10), Ok(()));
    assert_eq!(d.merge(&later, 10), Ok(()));
    assert_eq!(d.net(), SignedU128::Positive(1));
    assert_eq!(d.try_bound_check(3, 10), Ok(()));
    assert_eq!(d.resolve(3, 10), 4);
    assert_eq!(d.try_bound_check(6, 10), Err(BoundError::Overflow));

    let mut up = DeltaAccumulator::new();
    assert_eq!(up.apply(DeltaOp::Add(9), 10), Ok(()));
    assert_eq!(d.merge(&up, 10), Err(BoundError::Overflow));
    let mut down = DeltaAccumulator::new();
    assert_eq!(down.apply(DeltaOp::Sub(9), 10), Ok(()));
    assert_eq!(d.merge(&down, 10), Err(BoundError::Underflow));
    assert_eq!(d.net(), SignedU128::Positive(1));
}

#[test]
fn underflow_fails_and_keeps_value() {
    let mut t = table_with(0, 600);
    assert!(t.can_create());
    assert_eq!(t.try_add(0, 400), Ok(()));
    let r = t.try_sub(0, 500);
    assert_eq!(r, Err(AggregatorError::Underflow));
    assert_eq!(r.unwrap_err().abort_code(), Some(131074));
    assert_eq!(t.check(0, 400), Ok(()));
}
