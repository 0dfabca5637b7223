//! Blocks, transactions and the filter that keeps those sent to one address.
use vstd::prelude::*;

verus! {

/// A 20-byte account or contract address.
#[derive(Clone, Copy, Debug, PartialEq, Eq)]
pub struct Address {
    pub bytes: [u8; 20],
}

/// One transaction of a block, as the monitor reads it.
#[derive(Clone, Debug)]
pub struct Transaction {
    pub hash: [u8; 32],
    /// Absent for a transaction that creates a contract.
    pub to: Option<Address>,
    /// Native-currency amount, as four 64-bit limbs, least significant first.
    pub value: [u64; 4],
    pub input: Vec<u8>,
}

/// A block with its transactions in the order the chain gives them.
#[derive(Clone, Debug)]
pub struct Block {
    pub hash: [u8; 32],
    pub transactions: Vec<Transaction>,
}

/// Whether the transaction is sent to `target`.
pub open spec fn sent_to(tx: Transaction, target: Address) -> bool {
    match tx.to {
        Some(a) => a.bytes@ == target.bytes@,
        None => false,
    }
}

/// The transactions of `txs` sent to `target`, in their order.
pub open spec fn sent_to_all(txs: Seq<Transaction>, target: Address) -> Seq<Transaction> {
    txs.filter(|tx: Transaction| sent_to(tx, target))
}

/// The transactions that a sequence of references points to.
pub open spec fn deref_all(s: Seq<&Transaction>) -> Seq<Transaction> {
    s.map_values(|t: &Transaction| *t)
}

/// Compares two addresses byte by byte.
pub fn same_address(a: &Address, b: &Address) -> (r: bool)
    ensures
        r == (a.bytes@ == b.bytes@),
{
    let mut i: usize = 0;
    while i < 20
        invariant
            0 <= i <= 20,
            forall|j: int| 0 <= j < i ==> a.bytes@[j] == b.bytes@[j],
        decreases 20 - i,
    {
        if a.bytes[i] != b.bytes[i] {
            return false;
        }
        i = i + 1;
    }
    assert(a.bytes@ =~= b.bytes@);
    true
}

/// Whether `tx` is sent to `target`; a contract creation never is.
pub fn is_sent_to(tx: &Transaction, target: &Address) -> (r: bool)
    ensures
        r == sent_to(*tx, *target),
{
    match &tx.to {
        Some(a) => same_address(a, target),
        None => false,
    }
}

/// The transactions of `full_block` sent to `target`, in block order.
pub fn filter_uni_txns<'a>(full_block: &'a Block, target: &Address) -> (r: Vec<&'a Transaction>)
    ensures
        deref_all(r@) == sent_to_all(full_block.transactions@, *target),
{
    let txs = &full_block.transactions;
    let mut out: Vec<&'a Transaction> = Vec::new();
    let mut i: usize = 0;
    while i < txs.len()
        invariant
            0 <= i <= txs@.len(),
            deref_all(out@) == sent_to_all(txs@.take(i as int), *target),
        decreases txs@.len() - i,
    {
        let tx = &txs[i];
        let ghost old_out = out@;
        proof {
            let pre = txs@.take(i as int + 1);
            assert(pre.drop_last() =~= txs@.take(i as int));
            assert(pre.last() == txs@[i as int]);
            reveal(Seq::filter);
        }
        if is_sent_to(tx, target) {
            out.push(tx);
            assert(deref_all(out@) =~= deref_all(old_out).push(*tx));
        }
        i = i + 1;
    }
    assert(txs@.take(i as int) =~= txs@);
    out
}

/// The filter keeps exactly the transactions sent to `target`: each one it
/// returns is sent there, each one sent there is returned, and a transaction
/// without a recipient never is.
pub proof fn lemma_filter_exact(txs: Seq<Transaction>, target: Address)
    ensures
        forall|k: int|
            0 <= k < sent_to_all(txs, target).len() ==> sent_to(
                #[trigger] sent_to_all(txs, target)[k],
                target,
            ),
        forall|i: int|
            0 <= i < txs.len() && sent_to(txs[i], target) ==> #[trigger] sent_to_all(
                txs,
                target,
            ).contains(txs[i]),
        forall|i: int|
            0 <= i < txs.len() && (#[trigger] txs[i]).to is None ==> !sent_to_all(
                txs,
                target,
            ).contains(txs[i]),
{
    let pred = |tx: Transaction| sent_to(tx, target);
    let r = txs.filter(pred);
    assert forall|k: int| 0 <= k < r.len() implies sent_to(#[trigger] r[k], target) by {
        txs.lemma_filter_pred(pred, k);
    }
    assert forall|i: int| 0 <= i < txs.len() && sent_to(txs[i], target) implies #[trigger] r.contains(
        txs[i],
    ) by {
        txs.lemma_filter_contains(pred, i);
    }
    assert forall|i: int| 0 <= i < txs.len() && (#[trigger] txs[i]).to is None implies !r.contains(
        txs[i],
    ) by {
        if r.contains(txs[i]) {
            let k = choose|k: int| 0 <= k < r.len() && r[k] == txs[i];
            txs.lemma_filter_pred(pred, k);
        }
    }
}

/// Running the filter again on the same block and address gives the same
/// transactions.
pub proof fn lemma_filter_repeatable(
    b: Block,
    target: Address,
    r1: Seq<&Transaction>,
    r2: Seq<&Transaction>,
)
    requires
        deref_all(r1) == sent_to_all(b.transactions@, target),
        deref_all(r2) == sent_to_all(b.transactions@, target),
    ensures
        r1 == r2,
{
    assert(r1.len() == deref_all(r1).len());
    assert(r2.len() == deref_all(r2).len());
    assert forall|k: int| 0 <= k < r1.len() implies r1[k] == r2[k] by {
        assert(deref_all(r1)[k] == *r1[k]);
        assert(deref_all(r2)[k] == *r2[k]);
    }
    assert(r1 =~= r2);
}

/// Where no transaction of `txs` is sent to `target`, the filter keeps none.
pub proof fn lemma_none_sent(txs: Seq<Transaction>, target: Address)
    requires
        forall|i: int| 0 <= i < txs.len() ==> !sent_to(#[trigger] txs[i], target),
    ensures
        sent_to_all(txs, target).len() == 0,
    decreases txs.len(),
{
    reveal(Seq::filter);
    if txs.len() > 0 {
        let pre = txs.drop_last();
        assert forall|i: int| 0 <= i < pre.len() implies !sent_to(#[trigger] pre[i], target) by {
            assert(pre[i] == txs[i]);
        }
        lemma_none_sent(pre, target);
    }
}

} // verus!
