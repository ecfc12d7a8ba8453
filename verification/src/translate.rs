//! The translation itself: from a Geth genesis description, the network
//! identifier and the start nonce to a Parity chain description.

use vstd::prelude::*;
use crate::error::TranslationError;
use crate::geth::{GethAccount, GethAccountView, GethConfig, GethSpec, GethSpecView};
use crate::parity::{
    engine_params_view, ParityAccount, ParityAccountView, ParityEthash,
    ParityEthashView, ParityGenesis, ParityGenesisView, ParityParams, ParityParamsView,
    ParitySeal, ParitySealView, ParitySpec, ParitySpecView,
};
use crate::precompile::{address_number, builtin_from_address, precompile_at};
use crate::text::opt_text;

verus! {

/// The block number of a fork that never activates.
pub const NEVER: u64 = 0xffff_ffff_ffff_ffff;

/// The configuration of a chain whose description names no forks: none of
/// them ever activates.
pub open spec fn legacy_config() -> GethConfig {
    GethConfig {
        chainId: None,
        homesteadBlock: NEVER,
        eip150Block: None,
        eip155Block: NEVER,
        eip158Block: NEVER,
        eip160Block: NEVER,
    }
}

/// The configuration that the translation goes by.
pub open spec fn resolved_config(config: Option<GethConfig>) -> GethConfig {
    match config {
        Some(c) => c,
        None => legacy_config(),
    }
}

/// The engine parameters for a configuration: the protocol constants, and
/// each fork at the block the configuration names. The two forks that the
/// source does not tell apart both follow `eip160Block`.
pub open spec fn ethash_for(config: GethConfig) -> ParityEthashView {
    ParityEthashView {
        gasLimitBoundDivisor: "0x400"@,
        minimumDifficulty: "0x20000"@,
        difficultyBoundDivisor: "0x800"@,
        durationLimit: "0xd"@,
        blockReward: "0x4563918244F40000"@,
        registrar: "0x81a4b044831c4f12ba601adb9274516939e9b8a2"@,
        homesteadTransition: config.homesteadBlock,
        eip150Transition: match config.eip150Block {
            Some(block) => block,
            None => NEVER,
        },
        eip155Transition: config.eip155Block,
        eip160Transition: config.eip160Block,
        eip161abcTransition: config.eip160Block,
        eip161dTransition: config.eip160Block,
    }
}

/// The network identifier of the chain: the configured chain identifier
/// where there is one, else the operator's.
pub open spec fn resolved_network_id(config: GethConfig, network_id: u64) -> u64 {
    match config.chainId {
        Some(id) => id,
        None => network_id,
    }
}

/// The chain parameters for a configuration, the operator's network
/// identifier and the start nonce.
pub open spec fn params_for(
    config: GethConfig,
    network_id: u64,
    start_nonce: Option<Seq<char>>,
) -> ParityParamsView {
    ParityParamsView {
        accountStartNonce: match start_nonce {
            Some(nonce) => nonce,
            None => "0x0"@,
        },
        maximumExtraDataSize: "0x20"@,
        minGasLimit: "0x1388"@,
        networkID: resolved_network_id(config, network_id),
        eip98Transition: NEVER,
    }
}

/// The genesis header for a source document: every field as it stands in
/// the source, the nonce and the mix hash inside the `ethereum` seal.
pub open spec fn genesis_for(geth: GethSpecView) -> ParityGenesisView {
    ParityGenesisView {
        seal: seq![("ethereum"@, ParitySealView { nonce: geth.nonce, mixHash: geth.mixhash })],
        difficulty: geth.difficulty,
        author: geth.coinbase,
        timestamp: geth.timestamp,
        parentHash: geth.parentHash,
        extraData: geth.extraData,
        gasLimit: geth.gasLimit,
    }
}

/// The amount an account holds: its `balance`, or else its `wei`.
pub open spec fn balance_of(account: GethAccountView) -> Option<Seq<char>> {
    match account.balance {
        Some(balance) => Some(balance),
        None => account.wei,
    }
}

/// The account that stands for a source account at `address`.
pub open spec fn account_for(
    address: Seq<char>,
    account: GethAccountView,
    start_nonce: Option<Seq<char>>,
) -> Result<ParityAccountView, TranslationError> {
    match balance_of(account) {
        Some(balance) => Ok(
            ParityAccountView {
                balance,
                nonce: start_nonce,
                builtin: precompile_at(address_number(address)),
            },
        ),
        None => Err(TranslationError::DataIntegrity),
    }
}

/// Whether every allocated account holds an amount.
pub open spec fn all_have_balance(alloc: Seq<(Seq<char>, GethAccountView)>) -> bool {
    forall|i: int| 0 <= i < alloc.len() ==> balance_of((#[trigger] alloc[i]).1) is Some
}

/// The accounts that stand for the allocated accounts, address by address
/// and in the same order.
pub open spec fn accounts_for(
    alloc: Seq<(Seq<char>, GethAccountView)>,
    start_nonce: Option<Seq<char>>,
) -> Seq<(Seq<char>, ParityAccountView)> {
    Seq::new(
        alloc.len(),
        |i: int| (alloc[i].0, account_for(alloc[i].0, alloc[i].1, start_nonce)->Ok_0),
    )
}

/// The chain description that stands for a source document, or the reason
/// why there is none.
pub open spec fn translation(
    geth: GethSpecView,
    network_id: u64,
    start_nonce: Option<Seq<char>>,
) -> Result<ParitySpecView, TranslationError> {
    if all_have_balance(geth.alloc) {
        let config = resolved_config(geth.config);
        Ok(
            ParitySpecView {
                name: "GethTranslation"@,
                engine: seq![("Ethash"@, seq![("params"@, ethash_for(config))])],
                params: params_for(config, network_id, start_nonce),
                genesis: genesis_for(geth),
                accounts: accounts_for(geth.alloc, start_nonce),
            },
        )
    } else {
        Err(TranslationError::DataIntegrity)
    }
}

impl GethConfig {
    /// The configuration of a chain whose description names no forks.
    pub fn legacy() -> (config: GethConfig)
        ensures
            config == legacy_config(),
    {
        GethConfig {
            chainId: None,
            homesteadBlock: NEVER,
            eip150Block: None,
            eip155Block: NEVER,
            eip158Block: NEVER,
            eip160Block: NEVER,
        }
    }
}

/// The engine parameters for a configuration.
pub fn ethash_params(config: &GethConfig) -> (ethash: ParityEthash)
    ensures
        ethash@ == ethash_for(*config),
{
    ParityEthash {
        gasLimitBoundDivisor: "0x400".to_owned(),
        minimumDifficulty: "0x20000".to_owned(),
        difficultyBoundDivisor: "0x800".to_owned(),
        durationLimit: "0xd".to_owned(),
        blockReward: "0x4563918244F40000".to_owned(),
        registrar: "0x81a4b044831c4f12ba601adb9274516939e9b8a2".to_owned(),
        homesteadTransition: config.homesteadBlock,
        eip150Transition: match config.eip150Block {
            Some(block) => block,
            None => NEVER,
        },
        eip155Transition: config.eip155Block,
        eip160Transition: config.eip160Block,
        eip161abcTransition: config.eip160Block,
        eip161dTransition: config.eip160Block,
    }
}

/// The chain parameters for a configuration, the operator's network
/// identifier and the start nonce.
pub fn chain_params(config: &GethConfig, network_id: u64, start_nonce: &Option<String>) -> (params:
    ParityParams)
    ensures
        params@ == params_for(*config, network_id, opt_text(*start_nonce)),
{
    ParityParams {
        accountStartNonce: match start_nonce {
            Some(nonce) => nonce.clone(),
            None => "0x0".to_owned(),
        },
        maximumExtraDataSize: "0x20".to_owned(),
        minGasLimit: "0x1388".to_owned(),
        networkID: match config.chainId {
            Some(id) => id,
            None => network_id,
        },
        eip98Transition: NEVER,
    }
}

/// The account that stands for a source account at `address`. It fails if
/// and only if the source account has neither `balance` nor `wei`.
pub fn translate_account(
    address: &String,
    account: &GethAccount,
    start_nonce: &Option<String>,
) -> (translated: Result<ParityAccount, TranslationError>)
    ensures
        match translated {
            Ok(parity) => account_for(address@, account@, opt_text(*start_nonce)) == Ok::<
                ParityAccountView,
                TranslationError,
            >(parity@),
            Err(error) => account_for(address@, account@, opt_text(*start_nonce)) == Err::<
                ParityAccountView,
                TranslationError,
            >(error),
        },
{
    let balance = match &account.balance {
        Some(balance) => balance.clone(),
        None => match &account.wei {
            Some(wei) => wei.clone(),
            None => {
                return Err(TranslationError::DataIntegrity);
            },
        },
    };
    let nonce = match start_nonce {
        Some(nonce) => Some(nonce.clone()),
        None => None,
    };
    Ok(ParityAccount { balance, nonce, builtin: builtin_from_address(address.clone()) })
}

/// Translates a Geth genesis description into a Parity chain description.
///
/// `network_id` is the operator's network identifier; it is used where the
/// source configures no chain identifier. `start_nonce` is the nonce that
/// every account starts with, if the operator gave one.
///
/// The translation fails, with [`TranslationError::DataIntegrity`], if and
/// only if some account has neither `balance` nor `wei`.
pub fn translate(geth_spec: GethSpec, network_id: u64, start_nonce: Option<String>) -> (translated:
    Result<ParitySpec, TranslationError>)
    ensures
        match translated {
            Ok(parity) => translation(geth_spec@, network_id, opt_text(start_nonce)) == Ok::<
                ParitySpecView,
                TranslationError,
            >(parity@),
            Err(error) => translation(geth_spec@, network_id, opt_text(start_nonce)) == Err::<
                ParitySpecView,
                TranslationError,
            >(error),
        },
{
    let config = match geth_spec.config {
        Some(config) => config,
        None => GethConfig::legacy(),
    };
    let mut engine_params: Vec<(String, ParityEthash)> = Vec::new();
    engine_params.push(("params".to_owned(), ethash_params(&config)));
    let mut engine: Vec<(String, Vec<(String, ParityEthash)>)> = Vec::new();
    engine.push(("Ethash".to_owned(), engine_params));
    let params = chain_params(&config, network_id, &start_nonce);

    let ghost alloc = geth_spec@.alloc;
    let ghost nonce = opt_text(start_nonce);
    let mut accounts: Vec<(String, ParityAccount)> = Vec::new();
    let mut i: usize = 0;
    while i < geth_spec.alloc.len()
        invariant
            i <= geth_spec.alloc.len(),
            alloc == geth_spec@.alloc,
            nonce == opt_text(start_nonce),
            accounts@.len() == i,
            forall|j: int| 0 <= j < i ==> balance_of((#[trigger] alloc[j]).1) is Some,
            forall|j: int|
                0 <= j < i ==> (#[trigger] accounts@[j])@ == accounts_for(alloc, nonce)[j],
        decreases geth_spec.alloc.len() - i,
    {
        let address = &geth_spec.alloc[i].0;
        let account = &geth_spec.alloc[i].1;
        assert(alloc[i as int] == (address@, account@));
        match translate_account(address, account, &start_nonce) {
            Ok(parity) => {
                accounts.push((address.clone(), parity));
            },
            Err(error) => {
                return Err(error);
            },
        }
        i = i + 1;
    }

    let mut seal: Vec<(String, ParitySeal)> = Vec::new();
    seal.push(
        ("ethereum".to_owned(), ParitySeal { nonce: geth_spec.nonce, mixHash: geth_spec.mixhash }),
    );
    let genesis = ParityGenesis {
        seal,
        difficulty: geth_spec.difficulty,
        author: geth_spec.coinbase,
        timestamp: geth_spec.timestamp,
        parentHash: geth_spec.parentHash,
        extraData: geth_spec.extraData,
        gasLimit: geth_spec.gasLimit,
    };
    let parity = ParitySpec {
        name: "GethTranslation".to_owned(),
        engine,
        params,
        genesis,
        accounts,
    };
    proof {
        assert(parity@.engine =~= seq![("Ethash"@, seq![("params"@, ethash_for(config))])]) by {
            assert(engine_params_view(engine_params) =~= seq![("params"@, ethash_for(config))]);
        }
        assert(parity@.genesis.seal =~= genesis_for(geth_spec@).seal);
        assert(parity@.accounts =~= accounts_for(alloc, nonce));
    }
    Ok(parity)
}

} // verus!
