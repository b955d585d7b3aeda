//! The form in which an operation is submitted to an execution harness: a
//! named entry function with type arguments and BCS-encoded operands.

use vstd::prelude::*;
use crate::operation::Operation;

verus! {

#[verifier::external_type_specification]
#[verifier::external_body]
pub struct ExBcsError(bcs::Error);

/// The `n` low bytes of `x`, least significant first.
pub open spec fn le_bytes(x: nat, n: nat) -> Seq<u8>
    decreases n,
{
    if n == 0 {
        Seq::<u8>::empty()
    } else {
        seq![(x % 256) as u8] + le_bytes(x / 256, (n - 1) as nat)
    }
}

/// Relies on `bcs::to_bytes` at `u64`: the encoding is the eight
/// little-endian bytes, written into a vector, which cannot fail.
#[verifier::external_body]
fn bcs_u64(x: &u64) -> (r: Result<Vec<u8>, bcs::Error>)
    ensures
        r is Ok,
        r is Ok ==> r.unwrap()@ == le_bytes(*x as nat, 8),
{
    bcs::to_bytes(x)
}

/// Relies on `bcs::to_bytes` at `u128`: the encoding is the sixteen
/// little-endian bytes, written into a vector, which cannot fail.
#[verifier::external_body]
fn bcs_u128(x: &u128) -> (r: Result<Vec<u8>, bcs::Error>)
    ensures
        r is Ok,
        r is Ok ==> r.unwrap()@ == le_bytes(*x as nat, 16),
{
    bcs::to_bytes(x)
}

/// The BCS encoding of an index.
pub fn encode_u64(x: u64) -> (r: Vec<u8>)
    ensures
        r@ == le_bytes(x as nat, 8),
{
    match bcs_u64(&x) {
        Ok(b) => b,
        Err(_) => Vec::new(),
    }
}

/// The BCS encoding of an amount.
pub fn encode_u128(x: u128) -> (r: Vec<u8>)
    ensures
        r@ == le_bytes(x as nat, 16),
{
    match bcs_u128(&x) {
        Ok(b) => b,
        Err(_) => Vec::new(),
    }
}

/// A type argument of an entry function.
#[derive(Clone, Copy, Debug, PartialEq, Eq, Structural)]
pub enum TypeArg {
    U64,
    U128,
}

/// A call of an entry function: its name, type arguments and encoded operands.
pub struct EntryCall {
    pub function: String,
    pub ty_args: Vec<TypeArg>,
    pub args: Vec<Vec<u8>>,
}

/// The entry function that carries an operation.
pub open spec fn function_name(op: Operation) -> Seq<char> {
    match op {
        Operation::Check { .. } => "0x1::aggregator_v2_test::check"@,
        Operation::New { .. } => "0x1::aggregator_v2_test::new"@,
        Operation::TryAdd { .. } => "0x1::aggregator_v2_test::try_add"@,
        Operation::TrySub { .. } => "0x1::aggregator_v2_test::try_sub"@,
        Operation::TrySubAdd { .. } => "0x1::aggregator_v2_test::try_sub_add"@,
        Operation::Materialize { .. } => "0x1::aggregator_v2_test::materialize"@,
        Operation::MaterializeAndTryAdd { .. } => "0x1::aggregator_v2_test::materialize_and_try_add"@,
        Operation::MaterializeAndTrySub { .. } => "0x1::aggregator_v2_test::materialize_and_try_sub"@,
        Operation::TryAddAndMaterialize { .. } => "0x1::aggregator_v2_test::try_add_and_materialize"@,
        Operation::TrySubAndMaterialize { .. } => "0x1::aggregator_v2_test::try_sub_and_materialize"@,
        Operation::Destroy { .. } => "0x1::aggregator_v2_test::destroy"@,
        Operation::Snapshot { .. } => "0x1::aggregator_v2_test::snapshot"@,
        Operation::SnapshotWithU64Limit { .. } => "0x1::aggregator_v2_test::snapshot_with_u64_limit"@,
        Operation::ReadSnapshotU128 { .. } => "0x1::aggregator_v2_test::read_snapshot"@,
        Operation::ReadSnapshotU64 { .. } => "0x1::aggregator_v2_test::read_snapshot_with_u64_limit"@,
        Operation::TryAddAndReadSnapshotU128 { .. } => "0x1::aggregator_v2_test::try_add_and_read_snapshot"@,
    }
}

/// The type arguments of an operation's entry function.
pub open spec fn type_args(op: Operation) -> Seq<TypeArg> {
    match op {
        Operation::ReadSnapshotU128 { .. } => seq![TypeArg::U128],
        Operation::ReadSnapshotU64 { .. } => seq![TypeArg::U64],
        _ => Seq::<TypeArg>::empty(),
    }
}

/// The operands of an operation, each BCS-encoded, in order.
pub open spec fn encoded_args(op: Operation) -> Seq<Seq<u8>> {
    match op {
        Operation::Check { index, expected } => seq![
            le_bytes(index as nat, 8),
            le_bytes(expected as nat, 16),
        ],
        Operation::New { index, limit } => seq![le_bytes(index as nat, 8), le_bytes(limit as nat, 16)],
        Operation::TrySubAdd { index, a, b } => seq![
            le_bytes(index as nat, 8),
            le_bytes(a as nat, 16),
            le_bytes(b as nat, 16),
        ],
        Operation::TryAdd { index, value }
        | Operation::TrySub { index, value }
        | Operation::MaterializeAndTryAdd { index, value }
        | Operation::MaterializeAndTrySub { index, value }
        | Operation::TryAddAndMaterialize { index, value }
        | Operation::TrySubAndMaterialize { index, value }
        | Operation::TryAddAndReadSnapshotU128 { index, value } => seq![
            le_bytes(index as nat, 8),
            le_bytes(value as nat, 16),
        ],
        Operation::Materialize { index }
        | Operation::Destroy { index }
        | Operation::Snapshot { index }
        | Operation::SnapshotWithU64Limit { index }
        | Operation::ReadSnapshotU128 { index }
        | Operation::ReadSnapshotU64 { index } => seq![le_bytes(index as nat, 8)],
    }
}

fn function_str(op: &Operation) -> (r: &'static str)
    ensures
        r@ == function_name(*op),
{
    match op {
        Operation::Check { .. } => "0x1::aggregator_v2_test::check",
        Operation::New { .. } => "0x1::aggregator_v2_test::new",
        Operation::TryAdd { .. } => "0x1::aggregator_v2_test::try_add",
        Operation::TrySub { .. } => "0x1::aggregator_v2_test::try_sub",
        Operation::TrySubAdd { .. } => "0x1::aggregator_v2_test::try_sub_add",
        Operation::Materialize { .. } => "0x1::aggregator_v2_test::materialize",
        Operation::MaterializeAndTryAdd { .. } => "0x1::aggregator_v2_test::materialize_and_try_add",
        Operation::MaterializeAndTrySub { .. } => "0x1::aggregator_v2_test::materialize_and_try_sub",
        Operation::TryAddAndMaterialize { .. } => "0x1::aggregator_v2_test::try_add_and_materialize",
        Operation::TrySubAndMaterialize { .. } => "0x1::aggregator_v2_test::try_sub_and_materialize",
        Operation::Destroy { .. } => "0x1::aggregator_v2_test::destroy",
        Operation::Snapshot { .. } => "0x1::aggregator_v2_test::snapshot",
        Operation::SnapshotWithU64Limit { .. } => "0x1::aggregator_v2_test::snapshot_with_u64_limit",
        Operation::ReadSnapshotU128 { .. } => "0x1::aggregator_v2_test::read_snapshot",
        Operation::ReadSnapshotU64 { .. } => "0x1::aggregator_v2_test::read_snapshot_with_u64_limit",
        Operation::TryAddAndReadSnapshotU128 { .. } => "0x1::aggregator_v2_test::try_add_and_read_snapshot",
    }
}

impl Operation {
    /// The entry-function call that carries this operation.
    pub fn to_entry_call(&self) -> (r: EntryCall)
        ensures
            r.function@ == function_name(*self),
            r.ty_args@ == type_args(*self),
            r.args@.len() == encoded_args(*self).len(),
            forall|k: int| 0 <= k < r.args@.len() ==> #[trigger] r.args@[k]@ == encoded_args(*self)[k],
    {
        let function = function_str(self).to_owned();
        let mut ty_args: Vec<TypeArg> = Vec::new();
        let mut args: Vec<Vec<u8>> = Vec::new();
        match *self {
            Operation::Check { index, expected } => {
                args.push(encode_u64(index));
                args.push(encode_u128(expected));
            },
            Operation::New { index, limit } => {
                args.push(encode_u64(index));
                args.push(encode_u128(limit));
            },
            Operation::TrySubAdd { index, a, b } => {
                args.push(encode_u64(index));
                args.push(encode_u128(a));
                args.push(encode_u128(b));
            },
            Operation::TryAdd { index, value }
            | Operation::TrySub { index, value }
            | Operation::MaterializeAndTryAdd { index, value }
            | Operation::MaterializeAndTrySub { index, value }
            | Operation::TryAddAndMaterialize { index, value }
            | Operation::TrySubAndMaterialize { index, value }
            | Operation::TryAddAndReadSnapshotU128 { index, value } => {
                args.push(encode_u64(index));
                args.push(encode_u128(value));
            },
            Operation::ReadSnapshotU128 { index } => {
                ty_args.push(TypeArg::U128);
                args.push(encode_u64(index));
            },
            Operation::ReadSnapshotU64 { index } => {
                ty_args.push(TypeArg::U64);
                args.push(encode_u64(index));
            },
            Operation::Materialize { index }
            | Operation::Destroy { index }
            | Operation::Snapshot { index }
            | Operation::SnapshotWithU64Limit { index } => {
                args.push(encode_u64(index));
            },
        }
        proof {
            assert(ty_args@ =~= type_args(*self));
        }
        EntryCall { function, ty_args, args }
    }
}

} // verus!
