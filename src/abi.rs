//! Call data: function selectors, argument decoding, and a registry of the
//! functions whose calls are recognised, tried in a fixed order.
use ethers::abi::{ParamType as T, Token};
use vstd::prelude::*;
use crate::chain::Transaction;

verus! {

/// The type of one parameter of a known function.
#[derive(Clone, Copy, Debug, PartialEq, Eq)]
pub enum ParamKind {
    /// `uint256`
    Uint256,
    /// `address`
    Address,
    /// `address[]`
    AddressArray,
}

/// One decoded argument.
#[derive(Clone, Debug, PartialEq, Eq)]
pub enum AbiValue {
    /// A 256-bit unsigned integer as four 64-bit limbs, least significant first.
    Uint([u64; 4]),
    Address([u8; 20]),
    /// An array; an element that is not an address stands as `None`.
    AddressArray(Vec<Option<[u8; 20]>>),
    /// A value of a type that no parameter kind here has.
    Unexpected,
}

/// What a decoded argument holds.
pub enum AbiData {
    Uint([u64; 4]),
    Address([u8; 20]),
    AddressArray(Seq<Option<[u8; 20]>>),
    Unexpected,
}

impl View for AbiValue {
    type V = AbiData;

    open spec fn view(&self) -> AbiData {
        match self {
            AbiValue::Uint(w) => AbiData::Uint(*w),
            AbiValue::Address(a) => AbiData::Address(*a),
            AbiValue::AddressArray(v) => AbiData::AddressArray(v@),
            AbiValue::Unexpected => AbiData::Unexpected,
        }
    }
}

/// The views of a sequence of decoded arguments.
pub open spec fn data_of(vs: Seq<AbiValue>) -> Seq<AbiData> {
    vs.map_values(|v: AbiValue| v@)
}

/// The four-byte selector of the function `name` with parameters of the types
/// `kinds`: the start of the Keccak-256 hash of its canonical signature.
pub uninterp spec fn selector_of(name: Seq<char>, kinds: Seq<ParamKind>) -> Seq<u8>;

/// The arguments that `data` encodes for parameters of the types `kinds`, read
/// from the head of `data` on; `None` where the encoding is broken or short.
pub uninterp spec fn abi_decode_of(kinds: Seq<ParamKind>, data: Seq<u8>) -> Option<Seq<AbiData>>;

/// Relies on ethabi's `short_signature` (re-exported by ethers): the selector
/// of a function, computed from its name and parameter types alone.
#[verifier::external_body]
fn short_signature(name: &str, kinds: &Vec<ParamKind>) -> (r: [u8; 4])
    ensures
        r@ == selector_of(name@, kinds@),
{
    let types: Vec<T> = kinds.iter().map(|k| match k {
        ParamKind::Uint256 => T::Uint(256),
        ParamKind::Address => T::Address,
        ParamKind::AddressArray => T::Array(Box::new(T::Address)),
    }).collect();
    ethers::abi::short_signature(name, &types)
}

/// Relies on ethabi's `decode` (re-exported by ethers): one token per type,
/// read from `data`, or an error; each token is handed back in this crate's form.
#[verifier::external_body]
fn decode_arguments(kinds: &Vec<ParamKind>, data: &[u8]) -> (r: Option<Vec<AbiValue>>)
    ensures
        r.is_some() == abi_decode_of(kinds@, data@).is_some(),
        r.is_some() ==> abi_decode_of(kinds@, data@) == Some(data_of(r.unwrap()@)),
{
    let types: Vec<T> = kinds.iter().map(|k| match k {
        ParamKind::Uint256 => T::Uint(256),
        ParamKind::Address => T::Address,
        ParamKind::AddressArray => T::Array(Box::new(T::Address)),
    }).collect();
    ethers::abi::decode(&types, data).ok().map(|ts| ts.into_iter().map(|t| match t {
        Token::Uint(u) => AbiValue::Uint(u.0),
        Token::Address(a) => AbiValue::Address(a.0),
        Token::Array(v) => AbiValue::AddressArray(v.into_iter().map(|e| e.into_address().map(|a| a.0)).collect()),
        _ => AbiValue::Unexpected,
    }).collect())
}

/// A parameter of a known function: its label, its type, and whether a report
/// shows its value.
#[derive(Clone, Debug)]
pub struct Param {
    pub label: String,
    pub kind: ParamKind,
    pub shown: bool,
}

/// The types of a list of parameters.
pub open spec fn kinds_of(ps: Seq<Param>) -> Seq<ParamKind> {
    ps.map_values(|p: Param| p.kind)
}

/// A function whose calls are recognised, with its selector.
#[derive(Debug)]
pub struct KnownFunction {
    pub name: String,
    pub params: Vec<Param>,
    pub selector: [u8; 4],
}

impl KnownFunction {
    /// The selector is the one of this name and these parameter types.
    pub open spec fn wf(&self) -> bool {
        self.selector@ == selector_of(self.name@, kinds_of(self.params@))
    }

    /// A known function with its selector computed.
    pub fn new(name: String, params: Vec<Param>) -> (r: KnownFunction)
        ensures
            r.wf(),
            r.name@ == name@,
            r.params@ == params@,
    {
        let kinds = param_kinds(&params);
        let selector = short_signature(name.as_str(), &kinds);
        KnownFunction { name, params, selector }
    }
}

/// The known functions, in the order in which a payload is tried against them.
#[derive(Debug)]
pub struct Registry {
    functions: Vec<KnownFunction>,
}

/// What decoding a payload gave.
#[derive(Debug, PartialEq, Eq)]
pub enum DecodeResult {
    /// The call of the known function at this position, with its arguments.
    Decoded { function: usize, values: Vec<AbiValue> },
    /// No known function accepts the payload.
    Unsupported,
}

/// What a decoding result states.
pub enum Decoding {
    Decoded { function: nat, values: Seq<AbiData> },
    Unsupported,
}

impl View for DecodeResult {
    type V = Decoding;

    open spec fn view(&self) -> Decoding {
        match self {
            DecodeResult::Decoded { function, values } => Decoding::Decoded {
                function: *function as nat,
                values: data_of(values@),
            },
            DecodeResult::Unsupported => Decoding::Unsupported,
        }
    }
}

/// Whether `payload` starts with `selector`.
pub open spec fn selector_matches(payload: Seq<u8>, selector: Seq<u8>) -> bool {
    payload.len() >= 4 && payload.subrange(0, 4) == selector
}

/// What a single known function makes of `payload`: its arguments where the
/// selector matches and the rest decodes against its parameter types.
pub open spec fn attempt(f: KnownFunction, payload: Seq<u8>) -> Option<Seq<AbiData>> {
    if selector_matches(payload, f.selector@) {
        abi_decode_of(kinds_of(f.params@), payload.subrange(4, payload.len() as int))
    } else {
        None
    }
}

/// The decoding of `payload` by the first of `fs[i..]` that accepts it.
pub open spec fn decode_from(fs: Seq<KnownFunction>, payload: Seq<u8>, i: int) -> Decoding
    decreases fs.len() - i,
{
    if i < 0 || i >= fs.len() {
        Decoding::Unsupported
    } else {
        match attempt(fs[i], payload) {
            Some(values) => Decoding::Decoded { function: i as nat, values },
            None => decode_from(fs, payload, i + 1),
        }
    }
}

/// Whether `payload` starts with the four bytes of `selector`.
pub fn has_selector(payload: &Vec<u8>, selector: &[u8; 4]) -> (r: bool)
    ensures
        r == selector_matches(payload@, selector@),
{
    if payload.len() < 4 {
        return false;
    }
    let mut i: usize = 0;
    while i < 4
        invariant
            0 <= i <= 4,
            payload@.len() >= 4,
            forall|j: int| 0 <= j < i ==> payload@[j] == selector@[j],
        decreases 4 - i,
    {
        if payload[i] != selector[i] {
            assert(payload@.subrange(0, 4)[i as int] != selector@[i as int]);
            return false;
        }
        i = i + 1;
    }
    assert(payload@.subrange(0, 4) =~= selector@);
    true
}

impl Registry {
    /// Every function's selector is its own.
    pub open spec fn wf(&self) -> bool {
        forall|i: int|
            0 <= i < self.functions_view().len() ==> #[trigger] self.functions_view()[i].wf()
    }

    /// The known functions, in order.
    pub closed spec fn functions_view(&self) -> Seq<KnownFunction> {
        self.functions@
    }

    /// A registry that knows no function.
    pub fn new() -> (r: Registry)
        ensures
            r.wf(),
            r.functions_view().len() == 0,
    {
        Registry { functions: Vec::new() }
    }

    /// Adds a function, tried after those already known.
    pub fn register(&mut self, name: String, params: Vec<Param>)
        requires
            old(self).wf(),
        ensures
            final(self).wf(),
            final(self).functions_view().len() == old(self).functions_view().len() + 1,
            final(self).functions_view().drop_last() == old(self).functions_view(),
            final(self).functions_view().last().name@ == name@,
            final(self).functions_view().last().params@ == params@,
    {
        let f = KnownFunction::new(name, params);
        self.functions.push(f);
        assert(final(self).functions_view().drop_last() =~= old(self).functions_view());
    }

    /// The registry of a router contract's watched swap:
    /// `swapExactETHForTokens(uint256 amountOutMin, address[] path, address to,
    /// uint256 deadline)`, whose report shows `amountOutMin` and `to`.
    pub fn swap_exact_eth_for_tokens() -> (r: Registry)
        ensures
            r.wf(),
            r.functions_view().len() == 1,
            r.functions_view()[0].name@ == "swapExactETHForTokens"@,
            kinds_of(r.functions_view()[0].params@) == seq![
                ParamKind::Uint256,
                ParamKind::AddressArray,
                ParamKind::Address,
                ParamKind::Uint256,
            ],
            r.functions_view()[0].params@.map_values(|p: Param| p.shown) == seq![true, false, true, false],
    {
        let params = vec![
            Param { label: String::from_str("amountOutMin"), kind: ParamKind::Uint256, shown: true },
            Param { label: String::from_str("path"), kind: ParamKind::AddressArray, shown: false },
            Param { label: String::from_str("to"), kind: ParamKind::Address, shown: true },
            Param { label: String::from_str("deadline"), kind: ParamKind::Uint256, shown: false },
        ];
        let mut r = Registry::new();
        r.register(String::from_str("swapExactETHForTokens"), params);
        assert(kinds_of(r.functions_view()[0].params@) =~= seq![
            ParamKind::Uint256,
            ParamKind::AddressArray,
            ParamKind::Address,
            ParamKind::Uint256,
        ]);
        assert(r.functions_view()[0].params@.map_values(|p: Param| p.shown) =~= seq![true, false, true, false]);
        r
    }

    /// The number of known functions.
    pub fn len(&self) -> (r: usize)
        ensures
            r == self.functions_view().len(),
    {
        self.functions.len()
    }

    /// The known function at position `i`.
    pub fn function(&self, i: usize) -> (r: &KnownFunction)
        requires
            i < self.functions_view().len(),
        ensures
            *r == self.functions_view()[i as int],
    {
        &self.functions[i]
    }

    /// Decodes `payload` as a call of the first known function that accepts it:
    /// its selector starts the payload and the rest decodes against its
    /// parameter types. Otherwise the payload is unsupported.
    pub fn decode(&self, payload: &Vec<u8>) -> (r: DecodeResult)
        requires
            self.wf(),
        ensures
            r@ == decode_from(self.functions_view(), payload@, 0),
            r matches DecodeResult::Decoded { function, .. } ==> function < self.functions_view().len(),
    {
        let fs = &self.functions;
        let mut i: usize = 0;
        while i < fs.len()
            invariant
                0 <= i <= fs@.len(),
                fs@ == self.functions_view(),
                decode_from(fs@, payload@, 0) == decode_from(fs@, payload@, i as int),
            decreases fs@.len() - i,
        {
            let f = &fs[i];
            if has_selector(payload, &f.selector) {
                let rest = vstd::slice::slice_subrange(payload.as_slice(), 4, payload.len());
                let kinds = param_kinds(&f.params);
                match decode_arguments(&kinds, rest) {
                    Some(values) => {
                        return DecodeResult::Decoded { function: i, values };
                    },
                    None => {},
                }
            }
            i = i + 1;
        }
        DecodeResult::Unsupported
    }
}

/// The types of `params`, in order.
pub fn param_kinds(params: &Vec<Param>) -> (r: Vec<ParamKind>)
    ensures
        r@ == kinds_of(params@),
{
    let mut kinds: Vec<ParamKind> = Vec::new();
    let mut i: usize = 0;
    while i < params.len()
        invariant
            0 <= i <= params@.len(),
            kinds@ == kinds_of(params@.take(i as int)),
        decreases params@.len() - i,
    {
        kinds.push(params[i].kind);
        assert(kinds_of(params@.take(i as int + 1)) =~= kinds_of(params@.take(i as int)).push(
            params@[i as int].kind,
        ));
        i = i + 1;
    }
    assert(params@.take(i as int) =~= params@);
    kinds
}

/// Whether `d` names a function of `fs` at `lo` or later that accepts `payload`,
/// with the arguments it gave, after functions that all refuse it.
pub open spec fn first_accepting(fs: Seq<KnownFunction>, payload: Seq<u8>, lo: int, d: Decoding) -> bool {
    match d {
        Decoding::Decoded { function, values } => {
            &&& lo <= function < fs.len()
            &&& attempt(fs[function as int], payload) == Some(values)
            &&& forall|j: int| lo <= j < function ==> (#[trigger] attempt(fs[j], payload)).is_none()
        },
        Decoding::Unsupported => true,
    }
}

/// Whether no function of `fs` at `lo` or later accepts `payload`.
pub open spec fn none_accepts(fs: Seq<KnownFunction>, payload: Seq<u8>, lo: int) -> bool {
    forall|j: int| lo <= j < fs.len() ==> (#[trigger] attempt(fs[j], payload)).is_none()
}

/// How decoding settles: a decoded payload comes from the first known function
/// that accepts it (its selector starts the payload and the rest decodes against
/// its parameter types), with the arguments that decoding gave; a payload is
/// unsupported exactly when no known function accepts it.
pub proof fn lemma_decode_first_accepting(fs: Seq<KnownFunction>, payload: Seq<u8>)
    ensures
        first_accepting(fs, payload, 0, decode_from(fs, payload, 0)),
        (decode_from(fs, payload, 0) is Unsupported) <==> none_accepts(fs, payload, 0),
{
    lemma_decode_from(fs, payload, 0);
}

proof fn lemma_decode_from(fs: Seq<KnownFunction>, payload: Seq<u8>, i: int)
    requires
        0 <= i <= fs.len(),
    ensures
        first_accepting(fs, payload, i, decode_from(fs, payload, i)),
        (decode_from(fs, payload, i) is Unsupported) <==> none_accepts(fs, payload, i),
    decreases fs.len() - i,
{
    if i < fs.len() {
        lemma_decode_from(fs, payload, i + 1);
    }
}

/// With a single known function, a payload decodes exactly when it starts with
/// that function's selector and the rest decodes against its parameter types,
/// and then to those arguments; otherwise it is unsupported.
pub proof fn lemma_decode_single(f: KnownFunction, payload: Seq<u8>)
    ensures
        (decode_from(seq![f], payload, 0) is Decoded) <==> (selector_matches(payload, f.selector@)
            && abi_decode_of(kinds_of(f.params@), payload.subrange(4, payload.len() as int)).is_some()),
        decode_from(seq![f], payload, 0) is Decoded ==> decode_from(seq![f], payload, 0) == (
        Decoding::Decoded {
            function: 0,
            values: abi_decode_of(kinds_of(f.params@), payload.subrange(4, payload.len() as int)).unwrap(),
        }),
{
    assert(decode_from(seq![f], payload, 1) == Decoding::Unsupported);
}

/// Decoding the same payload against the same functions again gives the same
/// result.
pub proof fn lemma_decode_repeatable(
    fs: Seq<KnownFunction>,
    payload: Seq<u8>,
    r1: DecodeResult,
    r2: DecodeResult,
)
    requires
        r1@ == decode_from(fs, payload, 0),
        r2@ == decode_from(fs, payload, 0),
    ensures
        r1@ == r2@,
{
}

/// The outcomes of decoding the payloads of `txs`, in the order in which the
/// tasks finished: `order[k]` is the transaction whose task finished k-th.
pub open spec fn outcomes(fs: Seq<KnownFunction>, txs: Seq<Transaction>, order: Seq<int>) -> Seq<
    (int, Decoding),
> {
    order.map_values(|i: int| (i, decode_from(fs, txs[i].input@, 0)))
}

/// Decoding the transactions as tasks that finish in any order, each run once,
/// gives the same set of outcomes as decoding them one after another.
pub proof fn lemma_decode_order_free(
    fs: Seq<KnownFunction>,
    txs: Seq<Transaction>,
    order: Seq<int>,
)
    requires
        forall|k: int| 0 <= k < order.len() ==> 0 <= #[trigger] order[k] < txs.len(),
        forall|i: int| 0 <= i < txs.len() ==> #[trigger] order.contains(i),
    ensures
        outcomes(fs, txs, order).to_set() == outcomes(
            fs,
            txs,
            Seq::new(txs.len(), |i: int| i),
        ).to_set(),
{
    let seq_order = Seq::new(txs.len(), |i: int| i);
    let a = outcomes(fs, txs, order);
    let b = outcomes(fs, txs, seq_order);
    assert forall|x: (int, Decoding)| a.contains(x) implies b.contains(x) by {
        let k = choose|k: int| 0 <= k < a.len() && a[k] == x;
        assert(b[order[k]] == x);
    }
    assert forall|x: (int, Decoding)| b.contains(x) implies a.contains(x) by {
        let i = choose|i: int| 0 <= i < b.len() && b[i] == x;
        assert(order.contains(i));
        let k = choose|k: int| 0 <= k < order.len() && order[k] == i;
        assert(a[k] == x);
    }
    assert(a.to_set() =~= b.to_set());
}

} // verus!
