//! The lines that a block and its matching transactions are reported with.
use vstd::prelude::*;
use crate::abi::{AbiData, AbiValue, DecodeResult, Decoding, KnownFunction, Param, Registry};
use crate::chain::Transaction;

verus! {

/// A value that a report line can show.
#[derive(Clone, Copy, Debug, PartialEq, Eq)]
pub enum Scalar {
    Uint([u64; 4]),
    Address([u8; 20]),
}

/// One line of the report.
#[derive(Clone, Copy, Debug, PartialEq, Eq)]
pub enum ReportLine {
    /// The monitor waits for the next block.
    Waiting,
    /// A block has arrived.
    NewBlock { hash: [u8; 32] },
    /// The block holds no transaction sent to the watched contract.
    NoMatching,
    /// A transaction sent to the watched contract.
    Transaction { hash: [u8; 32] },
    /// The native-currency amount that the transaction carries.
    Value { amount: [u64; 4] },
    /// A shown argument: the parameter at `param` of the known function at `function`.
    Argument { function: usize, param: usize, value: Scalar },
    /// The transaction calls no known function.
    Unsupported,
}

/// The value a report line shows for a decoded argument, if any.
pub open spec fn scalar_of(d: AbiData) -> Option<Scalar> {
    match d {
        AbiData::Uint(w) => Some(Scalar::Uint(w)),
        AbiData::Address(a) => Some(Scalar::Address(a)),
        _ => None,
    }
}

/// The argument lines for the first `n` parameters of the known function at `f`.
pub open spec fn argument_lines(f: int, params: Seq<Param>, values: Seq<AbiData>, n: int) -> Seq<
    ReportLine,
>
    decreases n,
{
    if n <= 0 {
        seq![]
    } else {
        let prev = argument_lines(f, params, values, n - 1);
        let j = n - 1;
        if j < params.len() && params[j].shown && j < values.len() && scalar_of(values[j]).is_some() {
            prev.push(
                ReportLine::Argument {
                    function: f as usize,
                    param: j as usize,
                    value: scalar_of(values[j]).unwrap(),
                },
            )
        } else {
            prev
        }
    }
}

/// The lines of a transaction: its hash, then its amount and shown arguments
/// where it was decoded, or a note that its call is unsupported.
pub open spec fn transaction_report(tx: Transaction, d: Decoding, fs: Seq<KnownFunction>) -> Seq<
    ReportLine,
> {
    match d {
        Decoding::Decoded { function, values } => {
            let params = fs[function as int].params@;
            seq![
                ReportLine::Transaction { hash: tx.hash },
                ReportLine::Value { amount: tx.value },
            ] + argument_lines(function as int, params, values, params.len() as int)
        },
        Decoding::Unsupported => seq![
            ReportLine::Transaction { hash: tx.hash },
            ReportLine::Unsupported,
        ],
    }
}

/// The lines that announce a block with `matching` transactions sent to the
/// watched contract.
pub open spec fn block_header(hash: [u8; 32], matching: nat) -> Seq<ReportLine> {
    if matching == 0 {
        seq![ReportLine::NewBlock { hash }, ReportLine::NoMatching]
    } else {
        seq![ReportLine::NewBlock { hash }]
    }
}

/// The value that a report line shows for a decoded argument, if any.
fn scalar_of_value(v: &AbiValue) -> (r: Option<Scalar>)
    ensures
        r == scalar_of(v@),
{
    match v {
        AbiValue::Uint(w) => Some(Scalar::Uint(*w)),
        AbiValue::Address(a) => Some(Scalar::Address(*a)),
        _ => None,
    }
}

/// The lines that announce a block with `matching` transactions sent to the
/// watched contract: the block, and a notice where there are none.
pub fn block_lines(hash: [u8; 32], matching: usize) -> (r: Vec<ReportLine>)
    ensures
        r@ == block_header(hash, matching as nat),
{
    let mut r: Vec<ReportLine> = Vec::new();
    r.push(ReportLine::NewBlock { hash });
    if matching == 0 {
        r.push(ReportLine::NoMatching);
    }
    assert(r@ =~= block_header(hash, matching as nat));
    r
}

/// The lines that report `tx` after its payload was decoded to `result`.
pub fn transaction_lines(tx: &Transaction, result: &DecodeResult, registry: &Registry) -> (r: Vec<
    ReportLine,
>)
    requires
        result matches DecodeResult::Decoded { function, .. } ==> function
            < registry.functions_view().len(),
    ensures
        r@ == transaction_report(*tx, result@, registry.functions_view()),
{
    let mut r: Vec<ReportLine> = Vec::new();
    r.push(ReportLine::Transaction { hash: tx.hash });
    match result {
        DecodeResult::Decoded { function, values } => {
            r.push(ReportLine::Value { amount: tx.value });
            let f = registry.function(*function);
            let params = &f.params;
            let ghost head = r@;
            let ghost vs = crate::abi::data_of(values@);
            let mut j: usize = 0;
            while j < params.len()
                invariant
                    0 <= j <= params@.len(),
                    *f == registry.functions_view()[*function as int],
                    params@ == f.params@,
                    vs == crate::abi::data_of(values@),
                    r@ == head + argument_lines(*function as int, params@, vs, j as int),
                decreases params@.len() - j,
            {
                if params[j].shown && j < values.len() {
                    match scalar_of_value(&values[j]) {
                        Some(s) => {
                            r.push(ReportLine::Argument { function: *function, param: j, value: s });
                        },
                        None => {},
                    }
                }
                j = j + 1;
            }
            assert(r@ =~= transaction_report(*tx, result@, registry.functions_view()));
        },
        DecodeResult::Unsupported => {
            r.push(ReportLine::Unsupported);
            assert(r@ =~= transaction_report(*tx, result@, registry.functions_view()));
        },
    }
    r
}

} // verus!
