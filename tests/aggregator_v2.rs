use aggregator_v2::error::AggregatorError;
use aggregator_v2::operation::{
    check, destroy, materialize, materialize_and_try_add, materialize_and_try_sub, new, try_add,
    try_add_and_materialize, try_sub_add, try_sub_and_materialize, Operation, Outcome,
};
use aggregator_v2::table::{initialize, AggregatorTable};

fn setup() -> AggregatorTable {
    initialize()
}

fn abort_code(outcome: &Outcome) -> Option<u64> {
    match outcome {
        Ok(_) => None,
        Err(e) => e.abort_code(),
    }
}

#[test]
fn test_aggregators_e2e() {
    let mut h = setup();
    let block_size: u64 = 1000;

    // Create many aggregators with deterministic limit.
    let txns: Vec<Operation> = (0..block_size)
        .map(|i| new(i, (i as u128) * 100000))
        .collect();
    h.run_block(&txns);

    // All transactions in block must fail, so values of aggregators are still 0.
    let failed_txns: Vec<Operation> = (0..block_size)
        .map(|i| match i % 2 {
            0 => materialize_and_try_add(i, (i as u128) * 100000 + 1),
            _ => materialize_and_try_sub(i, (i as u128) * 100000 + 1),
        })
        .collect();
    let outputs = h.run_block(&failed_txns);
    for status in &outputs {
        assert!(status.is_err());
    }

    // Now test all operations. To do that, make sure aggregator have values large enough.
    let txns: Vec<Operation> = (0..block_size)
        .map(|i| try_add(i, (i as u128) * 1000))
        .collect();
    h.run_block(&txns);

    let txns: Vec<Operation> = (0..block_size)
        .map(|i| match i % 4 {
            0 => try_sub_add(i, (i as u128) * 1000, (i as u128) * 3000),
            1 => materialize_and_try_add(i, (i as u128) * 1000),
            2 => try_sub_and_materialize(i, (i as u128) * 1000),
            _ => try_add(i, i as u128),
        })
        .collect();
    h.run_block(&txns);

    // Finally, check values.
    let txns: Vec<Operation> = (0..block_size)
        .map(|i| match i % 4 {
            0 => check(i, (i as u128) * 3000),
            1 => check(i, (i as u128) * 2000),
            2 => check(i, 0),
            _ => check(i, (i as u128) * 1000 + (i as u128)),
        })
        .collect();
    let outputs = h.run_block(&txns);
    for status in outputs {
        assert!(status.is_ok());
    }
}

#[test]
fn test_aggregator_lifetime() {
    let mut h = setup();

    let txns = vec![
        new(0, 1500),
        try_add(0, 400),
        materialize(0),
        try_add(0, 500),
        check(0, 900),
        materialize_and_try_add(0, 600),
        materialize_and_try_sub(0, 600),
        check(0, 900),
        try_sub_add(0, 200, 300),
        check(0, 1000),
        // These 2 transactions fail, and should have no side-effects.
        try_add_and_materialize(0, 501),
        try_sub_and_materialize(0, 1001),
        check(0, 1000),
        destroy(0),
        // Aggregator has been destroyed and we cannot add this delta.
        try_add(0, 1),
    ];
    let outputs = h.run_block(&txns);
    // 2 materializations should have failed.
    assert_eq!(abort_code(&outputs[10]), Some(131073));
    assert_eq!(abort_code(&outputs[11]), Some(131074));

    // All checks must succeed.
    assert!(outputs[4].is_ok());
    assert!(outputs[7].is_ok());
    assert!(outputs[9].is_ok());
    assert!(outputs[12].is_ok());

    // Aggregator is destroyed.
    assert!(outputs[13].is_ok());
    assert_eq!(abort_code(&outputs[14]), Some(25863));
    assert_eq!(outputs[14], Err(AggregatorError::MissingEntry));
}

#[test]
fn test_aggregator_materialize_underflow() {
    let mut h = setup();

    let txn1 = new(0, 600);
    let txn2 = materialize_and_try_sub(0, 400);

    // Underflow on materialized value leads to abort with the underflow code.
    assert!(h.execute(&txn1).is_ok());
    assert_eq!(abort_code(&h.execute(&txn2)), Some(131074));
}

#[test]
fn test_aggregator_materialize_overflow() {
    let mut h = setup();

    let txn1 = new(0, 399);
    let txn2 = materialize_and_try_add(0, 400);

    // Overflow on materialized value leads to abort with the overflow code.
    assert!(h.execute(&txn1).is_ok());
    assert_eq!(abort_code(&h.execute(&txn2)), Some(131073));
}
