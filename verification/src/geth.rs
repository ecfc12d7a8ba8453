//! The source document: a Geth genesis description.

use vstd::prelude::*;
use crate::text::{distinct_keys, opt_text};

verus! {

/// One account of the genesis allocation. The amount stands under `balance`
/// or, in older files, under `wei`.
#[derive(Debug, Clone, PartialEq, Eq)]
pub struct GethAccount {
    pub balance: Option<String>,
    pub wei: Option<String>,
}

/// The block numbers at which the forks activate.
#[derive(Debug, Clone, Copy, PartialEq, Eq)]
pub struct GethConfig {
    pub chainId: Option<u64>,
    pub homesteadBlock: u64,
    pub eip150Block: Option<u64>,
    pub eip155Block: u64,
    pub eip158Block: u64,
    pub eip160Block: u64,
}

/// The whole genesis description. `alloc` maps an address to its account and
/// names no address twice; the order of its entries carries no meaning.
#[derive(Debug, Clone, PartialEq, Eq)]
pub struct GethSpec {
    pub nonce: String,
    pub difficulty: String,
    pub mixhash: String,
    pub coinbase: String,
    pub timestamp: String,
    pub parentHash: String,
    pub extraData: String,
    pub gasLimit: String,
    pub alloc: Vec<(String, GethAccount)>,
    pub config: Option<GethConfig>,
}

/// What a [`GethAccount`] holds.
pub ghost struct GethAccountView {
    pub balance: Option<Seq<char>>,
    pub wei: Option<Seq<char>>,
}

/// What a [`GethSpec`] holds.
pub ghost struct GethSpecView {
    pub nonce: Seq<char>,
    pub difficulty: Seq<char>,
    pub mixhash: Seq<char>,
    pub coinbase: Seq<char>,
    pub timestamp: Seq<char>,
    pub parentHash: Seq<char>,
    pub extraData: Seq<char>,
    pub gasLimit: Seq<char>,
    pub alloc: Seq<(Seq<char>, GethAccountView)>,
    pub config: Option<GethConfig>,
}

impl View for GethAccount {
    type V = GethAccountView;

    open spec fn view(&self) -> GethAccountView {
        GethAccountView { balance: opt_text(self.balance), wei: opt_text(self.wei) }
    }
}

impl View for GethSpec {
    type V = GethSpecView;

    open spec fn view(&self) -> GethSpecView {
        GethSpecView {
            nonce: self.nonce@,
            difficulty: self.difficulty@,
            mixhash: self.mixhash@,
            coinbase: self.coinbase@,
            timestamp: self.timestamp@,
            parentHash: self.parentHash@,
            extraData: self.extraData@,
            gasLimit: self.gasLimit@,
            alloc: Seq::new(self.alloc@.len(), |i: int| self.alloc@[i]@),
            config: self.config,
        }
    }
}

impl GethSpecView {
    /// No address is allocated twice.
    pub open spec fn well_formed(self) -> bool {
        distinct_keys(self.alloc)
    }
}

} // verus!
