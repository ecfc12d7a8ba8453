//! The target document: a Parity chain description.
//!
//! Where the document holds a mapping from names to values, the type holds
//! the entries as pairs, in the order in which they are written out.

use vstd::prelude::*;
use crate::text::{distinct_keys, opt_text};

verus! {

/// The parameters of the Ethash engine: the protocol constants, then the
/// block numbers at which the forks activate.
#[derive(Debug, Clone, PartialEq, Eq)]
pub struct ParityEthash {
    pub gasLimitBoundDivisor: String,
    pub minimumDifficulty: String,
    pub difficultyBoundDivisor: String,
    pub durationLimit: String,
    pub blockReward: String,
    pub registrar: String,
    pub homesteadTransition: u64,
    pub eip150Transition: u64,
    pub eip155Transition: u64,
    pub eip160Transition: u64,
    pub eip161abcTransition: u64,
    pub eip161dTransition: u64,
}

/// The parameters of the chain as a whole.
#[derive(Debug, Clone, PartialEq, Eq)]
pub struct ParityParams {
    pub accountStartNonce: String,
    pub maximumExtraDataSize: String,
    pub minGasLimit: String,
    pub networkID: u64,
    pub eip98Transition: u64,
}

/// The proof-of-work seal of the genesis block.
#[derive(Debug, Clone, PartialEq, Eq)]
pub struct ParitySeal {
    pub nonce: String,
    pub mixHash: String,
}

/// The header of the genesis block. `seal` maps the name of the engine
/// family to its seal.
#[derive(Debug, Clone, PartialEq, Eq)]
pub struct ParityGenesis {
    pub seal: Vec<(String, ParitySeal)>,
    pub difficulty: String,
    pub author: String,
    pub timestamp: String,
    pub parentHash: String,
    pub extraData: String,
    pub gasLimit: String,
}

/// A precompiled contract. `pricing` maps the name of a cost model to its
/// parameters, themselves a mapping from names to numbers.
#[derive(Debug, Clone, PartialEq, Eq)]
pub struct ParityBuiltin {
    pub name: String,
    pub pricing: Vec<(String, Vec<(String, u64)>)>,
}

/// One account of the chain description. An absent `nonce` or `builtin` is
/// left out of the document.
#[derive(Debug, Clone, PartialEq, Eq)]
pub struct ParityAccount {
    pub balance: String,
    pub nonce: Option<String>,
    pub builtin: Option<ParityBuiltin>,
}

/// The whole chain description. `engine` maps the name of the engine to a
/// mapping that holds its parameters; `accounts` maps an address to its
/// account.
#[derive(Debug, Clone, PartialEq, Eq)]
pub struct ParitySpec {
    pub name: String,
    pub engine: Vec<(String, Vec<(String, ParityEthash)>)>,
    pub params: ParityParams,
    pub genesis: ParityGenesis,
    pub accounts: Vec<(String, ParityAccount)>,
}

/// What a [`ParityEthash`] holds.
pub ghost struct ParityEthashView {
    pub gasLimitBoundDivisor: Seq<char>,
    pub minimumDifficulty: Seq<char>,
    pub difficultyBoundDivisor: Seq<char>,
    pub durationLimit: Seq<char>,
    pub blockReward: Seq<char>,
    pub registrar: Seq<char>,
    pub homesteadTransition: u64,
    pub eip150Transition: u64,
    pub eip155Transition: u64,
    pub eip160Transition: u64,
    pub eip161abcTransition: u64,
    pub eip161dTransition: u64,
}

/// What a [`ParityParams`] holds.
pub ghost struct ParityParamsView {
    pub accountStartNonce: Seq<char>,
    pub maximumExtraDataSize: Seq<char>,
    pub minGasLimit: Seq<char>,
    pub networkID: u64,
    pub eip98Transition: u64,
}

/// What a [`ParitySeal`] holds.
pub ghost struct ParitySealView {
    pub nonce: Seq<char>,
    pub mixHash: Seq<char>,
}

/// What a [`ParityGenesis`] holds.
pub ghost struct ParityGenesisView {
    pub seal: Seq<(Seq<char>, ParitySealView)>,
    pub difficulty: Seq<char>,
    pub author: Seq<char>,
    pub timestamp: Seq<char>,
    pub parentHash: Seq<char>,
    pub extraData: Seq<char>,
    pub gasLimit: Seq<char>,
}

/// The parameters of one cost model, by name.
pub type CostView = Seq<(Seq<char>, u64)>;

/// The cost models of a precompiled contract, by name.
pub type PricingView = Seq<(Seq<char>, CostView)>;

/// What a [`ParityBuiltin`] holds.
pub ghost struct ParityBuiltinView {
    pub name: Seq<char>,
    pub pricing: PricingView,
}

/// What a [`ParityAccount`] holds.
pub ghost struct ParityAccountView {
    pub balance: Seq<char>,
    pub nonce: Option<Seq<char>>,
    pub builtin: Option<ParityBuiltinView>,
}

/// What a [`ParitySpec`] holds.
pub ghost struct ParitySpecView {
    pub name: Seq<char>,
    pub engine: Seq<(Seq<char>, Seq<(Seq<char>, ParityEthashView)>)>,
    pub params: ParityParamsView,
    pub genesis: ParityGenesisView,
    pub accounts: Seq<(Seq<char>, ParityAccountView)>,
}

impl View for ParityEthash {
    type V = ParityEthashView;

    open spec fn view(&self) -> ParityEthashView {
        ParityEthashView {
            gasLimitBoundDivisor: self.gasLimitBoundDivisor@,
            minimumDifficulty: self.minimumDifficulty@,
            difficultyBoundDivisor: self.difficultyBoundDivisor@,
            durationLimit: self.durationLimit@,
            blockReward: self.blockReward@,
            registrar: self.registrar@,
            homesteadTransition: self.homesteadTransition,
            eip150Transition: self.eip150Transition,
            eip155Transition: self.eip155Transition,
            eip160Transition: self.eip160Transition,
            eip161abcTransition: self.eip161abcTransition,
            eip161dTransition: self.eip161dTransition,
        }
    }
}

impl View for ParityParams {
    type V = ParityParamsView;

    open spec fn view(&self) -> ParityParamsView {
        ParityParamsView {
            accountStartNonce: self.accountStartNonce@,
            maximumExtraDataSize: self.maximumExtraDataSize@,
            minGasLimit: self.minGasLimit@,
            networkID: self.networkID,
            eip98Transition: self.eip98Transition,
        }
    }
}

impl View for ParitySeal {
    type V = ParitySealView;

    open spec fn view(&self) -> ParitySealView {
        ParitySealView { nonce: self.nonce@, mixHash: self.mixHash@ }
    }
}

impl View for ParityGenesis {
    type V = ParityGenesisView;

    open spec fn view(&self) -> ParityGenesisView {
        ParityGenesisView {
            seal: Seq::new(self.seal@.len(), |i: int| self.seal@[i]@),
            difficulty: self.difficulty@,
            author: self.author@,
            timestamp: self.timestamp@,
            parentHash: self.parentHash@,
            extraData: self.extraData@,
            gasLimit: self.gasLimit@,
        }
    }
}

/// What a cost model's parameters hold.
pub open spec fn cost_view(cost: Vec<(String, u64)>) -> CostView {
    Seq::new(cost@.len(), |i: int| cost@[i]@)
}

/// What a pricing holds.
pub open spec fn pricing_view(pricing: Vec<(String, Vec<(String, u64)>)>) -> PricingView {
    Seq::new(pricing@.len(), |i: int| (pricing@[i].0@, cost_view(pricing@[i].1)))
}

impl View for ParityBuiltin {
    type V = ParityBuiltinView;

    open spec fn view(&self) -> ParityBuiltinView {
        ParityBuiltinView { name: self.name@, pricing: pricing_view(self.pricing) }
    }
}

/// What an optional precompiled contract holds.
pub open spec fn opt_builtin(builtin: Option<ParityBuiltin>) -> Option<ParityBuiltinView> {
    match builtin {
        Some(b) => Some(b@),
        None => None,
    }
}

impl View for ParityAccount {
    type V = ParityAccountView;

    open spec fn view(&self) -> ParityAccountView {
        ParityAccountView {
            balance: self.balance@,
            nonce: opt_text(self.nonce),
            builtin: opt_builtin(self.builtin),
        }
    }
}

/// What the parameters of an engine hold, by name.
pub open spec fn engine_params_view(params: Vec<(String, ParityEthash)>) -> Seq<
    (Seq<char>, ParityEthashView),
> {
    Seq::new(params@.len(), |i: int| params@[i]@)
}

impl View for ParitySpec {
    type V = ParitySpecView;

    open spec fn view(&self) -> ParitySpecView {
        ParitySpecView {
            name: self.name@,
            engine: Seq::new(
                self.engine@.len(),
                |i: int| (self.engine@[i].0@, engine_params_view(self.engine@[i].1)),
            ),
            params: self.params@,
            genesis: self.genesis@,
            accounts: Seq::new(self.accounts@.len(), |i: int| self.accounts@[i]@),
        }
    }
}

impl ParitySpecView {
    /// No address has two accounts.
    pub open spec fn well_formed(self) -> bool {
        distinct_keys(self.accounts)
    }
}

/// The pricing with one cost model, `linear`: a fixed `base` cost and a cost
/// for each `word` of 32 bytes of input.
pub open spec fn linear_pricing_view(base: u64, word: u64) -> PricingView {
    seq![("linear"@, seq![("base"@, base), ("word"@, word)])]
}

/// The pricing of a contract whose cost grows linearly with its input.
pub fn linear_pricing(base: u64, word: u64) -> (pricing: Vec<(String, Vec<(String, u64)>)>)
    ensures
        pricing_view(pricing) == linear_pricing_view(base, word),
{
    let mut linear: Vec<(String, u64)> = Vec::new();
    linear.push(("base".to_owned(), base));
    linear.push(("word".to_owned(), word));
    let mut pricing: Vec<(String, Vec<(String, u64)>)> = Vec::new();
    pricing.push(("linear".to_owned(), linear));
    proof {
        assert(cost_view(linear) =~= seq![("base"@, base), ("word"@, word)]);
        assert(pricing_view(pricing) =~= linear_pricing_view(base, word));
    }
    pricing
}

} // verus!
