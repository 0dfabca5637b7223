//! The monitor's loop as a state machine: each event that the chain client or
//! the decoding workers hand in gives the next phase and the action to perform.
use vstd::prelude::*;
use crate::abi::{decode_from, KnownFunction, Registry};
use crate::chain::{filter_uni_txns, sent_to_all, Address, Block, Transaction};
use crate::report::{block_header, block_lines, transaction_lines, transaction_report, ReportLine};

verus! {

/// Where the loop stands.
#[derive(Clone, Copy, Debug, PartialEq, Eq)]
pub enum Phase {
    /// Waiting for the next block to be announced.
    AwaitingBlock,
    /// Waiting for the full body of an announced block.
    FetchingBlock,
    /// Waiting until every transaction of the block has been decoded and reported.
    Decoding,
    /// Stopped for good.
    Halted,
}

/// Why a full block could not be had.
#[derive(Clone, Copy, Debug, PartialEq, Eq)]
pub enum FetchError {
    /// The node has not indexed the block yet.
    NotYetAvailable,
    /// The request failed on the way.
    Network,
}

/// What happened outside the loop.
#[derive(Clone, Copy, Debug, PartialEq, Eq)]
pub enum Event {
    /// A new block was announced.
    Announced { id: [u8; 32] },
    /// The announcement stream ended or failed.
    StreamClosed,
    /// The full block arrived; `matching` of its transactions are sent to the
    /// watched contract.
    Fetched { hash: [u8; 32], matching: usize },
    /// The full block could not be had.
    FetchFailed { error: FetchError },
    /// Every decoding task of the block has finished.
    DecodesJoined,
}

/// What the loop is to do next.
#[derive(Debug, PartialEq, Eq)]
pub enum Action {
    /// Write these lines as one message.
    Emit { lines: Vec<ReportLine> },
    /// Ask for the full block with this identifier.
    Fetch { id: [u8; 32] },
    /// Write `header` as one message, then decode and report each matching
    /// transaction, and hand in `DecodesJoined` once all are done.
    Decode { header: Vec<ReportLine> },
    /// Stop the process with this exit code, writing nothing more.
    Exit { code: i32 },
}

/// What an action states.
pub enum Act {
    Emit(Seq<ReportLine>),
    Fetch([u8; 32]),
    Decode(Seq<ReportLine>),
    Exit(int),
}

impl View for Action {
    type V = Act;

    open spec fn view(&self) -> Act {
        match self {
            Action::Emit { lines } => Act::Emit(lines@),
            Action::Fetch { id } => Act::Fetch(*id),
            Action::Decode { header } => Act::Decode(header@),
            Action::Exit { code } => Act::Exit(*code as int),
        }
    }
}

/// The exit code of every fatal stop.
pub const FATAL_EXIT: i32 = 1;

/// The next phase and action for `event` in `phase`. An event that the phase
/// does not expect, and any event once halted, stops the process.
pub open spec fn transition(phase: Phase, event: Event) -> (Phase, Act) {
    match (phase, event) {
        (Phase::AwaitingBlock, Event::Announced { id }) => (Phase::FetchingBlock, Act::Fetch(id)),
        (Phase::FetchingBlock, Event::Fetched { hash, matching }) => (
            Phase::Decoding,
            Act::Decode(block_header(hash, matching as nat)),
        ),
        (Phase::Decoding, Event::DecodesJoined) => (
            Phase::AwaitingBlock,
            Act::Emit(seq![ReportLine::Waiting]),
        ),
        _ => (Phase::Halted, Act::Exit(FATAL_EXIT as int)),
    }
}

/// The phase the loop starts in, and the status line written before the
/// first block is awaited.
pub fn start() -> (r: (Phase, Action))
    ensures
        r.0 == Phase::AwaitingBlock,
        r.1@ == Act::Emit(seq![ReportLine::Waiting]),
{
    let mut lines: Vec<ReportLine> = Vec::new();
    lines.push(ReportLine::Waiting);
    assert(lines@ =~= seq![ReportLine::Waiting]);
    (Phase::AwaitingBlock, Action::Emit { lines })
}

/// Takes one step of the loop.
pub fn step(phase: Phase, event: Event) -> (r: (Phase, Action))
    ensures
        (r.0, r.1@) == transition(phase, event),
{
    match (phase, event) {
        (Phase::AwaitingBlock, Event::Announced { id }) => (Phase::FetchingBlock, Action::Fetch { id }),
        (Phase::FetchingBlock, Event::Fetched { hash, matching }) => {
            let header = block_lines(hash, matching);
            (Phase::Decoding, Action::Decode { header })
        },
        (Phase::Decoding, Event::DecodesJoined) => {
            let (_, waiting) = start();
            (Phase::AwaitingBlock, waiting)
        },
        _ => (Phase::Halted, Action::Exit { code: FATAL_EXIT }),
    }
}

/// The lines of `txs` one after the other, each decoded against `fs`.
pub open spec fn transactions_report(txs: Seq<Transaction>, fs: Seq<KnownFunction>) -> Seq<
    ReportLine,
>
    decreases txs.len(),
{
    if txs.len() == 0 {
        seq![]
    } else {
        transactions_report(txs.drop_last(), fs) + transaction_report(
            txs.last(),
            decode_from(fs, txs.last().input@, 0),
            fs,
        )
    }
}

/// The report of a whole block with its transactions in block order: the
/// block's header, then the lines of each transaction sent to `target`.
pub open spec fn block_report(b: Block, target: Address, fs: Seq<KnownFunction>) -> Seq<ReportLine> {
    let txs = sent_to_all(b.transactions@, target);
    block_header(b.hash, txs.len()) + transactions_report(txs, fs)
}

/// Reports a block with its transactions taken one at a time, in block order.
pub fn report_block(block: &Block, target: &Address, registry: &Registry) -> (r: Vec<ReportLine>)
    requires
        registry.wf(),
    ensures
        r@ == block_report(*block, *target, registry.functions_view()),
{
    let txs = filter_uni_txns(block, target);
    let ghost sel = crate::chain::deref_all(txs@);
    let mut r = block_lines(block.hash, txs.len());
    let ghost head = r@;
    let mut i: usize = 0;
    while i < txs.len()
        invariant
            0 <= i <= txs@.len(),
            registry.wf(),
            sel == crate::chain::deref_all(txs@),
            r@ == head + transactions_report(sel.take(i as int), registry.functions_view()),
        decreases txs@.len() - i,
    {
        let tx = txs[i];
        let result = registry.decode(&tx.input);
        let mut lines = transaction_lines(tx, &result, registry);
        r.append(&mut lines);
        proof {
            let pre = sel.take(i as int + 1);
            assert(pre.drop_last() =~= sel.take(i as int));
            assert(pre.last() == *tx);
        }
        i = i + 1;
    }
    assert(sel.take(i as int) =~= sel);
    r
}

/// A block with no transaction sent to `target` is reported with its header
/// and a single notice that nothing matched, and no transaction lines.
pub proof fn lemma_quiet_block(b: Block, target: Address, fs: Seq<KnownFunction>)
    requires
        forall|i: int|
            0 <= i < b.transactions@.len() ==> !crate::chain::sent_to(
                #[trigger] b.transactions@[i],
                target,
            ),
    ensures
        block_report(b, target, fs) == seq![ReportLine::NewBlock { hash: b.hash }, ReportLine::NoMatching],
{
    crate::chain::lemma_none_sent(b.transactions@, target);
    let txs = sent_to_all(b.transactions@, target);
    assert(transactions_report(txs, fs) == Seq::<ReportLine>::empty());
    assert(block_report(b, target, fs) =~= seq![ReportLine::NewBlock { hash: b.hash }, ReportLine::NoMatching]);
}

/// A block that cannot be fetched, whatever the reason, stops the process with
/// the fatal exit code and nothing written.
pub proof fn lemma_fetch_failure_is_fatal(error: FetchError)
    ensures
        transition(Phase::FetchingBlock, Event::FetchFailed { error }) == (
            Phase::Halted,
            Act::Exit(FATAL_EXIT as int),
        ),
{
}

/// Once halted, the loop writes nothing more and stays halted.
pub proof fn lemma_halted_stays(event: Event)
    ensures
        transition(Phase::Halted, event) == (Phase::Halted, Act::Exit(FATAL_EXIT as int)),
{
}

} // verus!
