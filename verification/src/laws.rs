//! What holds of every translation, stated over the model of the documents.

use vstd::prelude::*;
use crate::error::TranslationError;
use crate::geth::{GethConfig, GethSpecView};
use crate::parity::{ParityBuiltinView, ParitySpecView};
use crate::precompile::{address_number, precompile_at};
use crate::text::distinct_keys;
use crate::translate::{all_have_balance, balance_of, translation};

verus! {

/// A translation fails if and only if some account has neither `balance`
/// nor `wei`; the failure is then a breach of data integrity, and there is
/// no document.
pub proof fn lemma_fails_iff_balance_missing(
    geth: GethSpecView,
    network_id: u64,
    start_nonce: Option<Seq<char>>,
)
    ensures
        translation(geth, network_id, start_nonce) is Err <==> exists|i: int|
            0 <= i < geth.alloc.len() && (#[trigger] geth.alloc[i]).1.balance is None
                && geth.alloc[i].1.wei is None,
        translation(geth, network_id, start_nonce) is Err ==> translation(
            geth,
            network_id,
            start_nonce,
        ) == Err::<ParitySpecView, TranslationError>(
            TranslationError::DataIntegrity,
        ),
{
    if all_have_balance(geth.alloc) {
        assert forall|i: int| 0 <= i < geth.alloc.len() implies !((#[trigger] geth.alloc[i]).1.balance is None
            && geth.alloc[i].1.wei is None) by {
            assert(balance_of(geth.alloc[i].1) is Some);
        }
    } else {
        let i = choose|i: int| 0 <= i < geth.alloc.len() && !(balance_of(
            (#[trigger] geth.alloc[i]).1,
        ) is Some);
        assert(geth.alloc[i].1.balance is None && geth.alloc[i].1.wei is None);
    }
}

/// Every header field is carried over as it stands: `difficulty`,
/// `timestamp`, `parentHash`, `extraData` and `gasLimit` under their own
/// names, `coinbase` as `author`, and `nonce` and `mixhash` inside the one
/// seal, which is named `ethereum`.
pub proof fn lemma_header_carried_verbatim(
    geth: GethSpecView,
    network_id: u64,
    start_nonce: Option<Seq<char>>,
)
    requires
        translation(geth, network_id, start_nonce) is Ok,
    ensures
        ({
            let genesis = translation(geth, network_id, start_nonce)->Ok_0.genesis;
            &&& genesis.difficulty == geth.difficulty
            &&& genesis.timestamp == geth.timestamp
            &&& genesis.parentHash == geth.parentHash
            &&& genesis.extraData == geth.extraData
            &&& genesis.gasLimit == geth.gasLimit
            &&& genesis.author == geth.coinbase
            &&& genesis.seal.len() == 1
            &&& genesis.seal[0].0 == "ethereum"@
            &&& genesis.seal[0].1.nonce == geth.nonce
            &&& genesis.seal[0].1.mixHash == geth.mixhash
        }),
{
}

/// The engine is `Ethash`, and what it holds are its `params`.
pub proof fn lemma_engine_shape(
    geth: GethSpecView,
    network_id: u64,
    start_nonce: Option<Seq<char>>,
)
    requires
        translation(geth, network_id, start_nonce) is Ok,
    ensures
        ({
            let parity = translation(geth, network_id, start_nonce)->Ok_0;
            &&& parity.name == "GethTranslation"@
            &&& parity.engine.len() == 1
            &&& parity.engine[0].0 == "Ethash"@
            &&& parity.engine[0].1.len() == 1
            &&& parity.engine[0].1[0].0 == "params"@
        }),
{
}

/// Where the source holds no configuration, no fork ever activates: every
/// transition stands at the largest number of 64 bits.
pub proof fn lemma_no_config_never_activates(
    geth: GethSpecView,
    network_id: u64,
    start_nonce: Option<Seq<char>>,
)
    requires
        geth.config is None,
        translation(geth, network_id, start_nonce) is Ok,
    ensures
        ({
            let ethash = translation(geth, network_id, start_nonce)->Ok_0.engine[0].1[0].1;
            &&& ethash.homesteadTransition == u64::MAX
            &&& ethash.eip150Transition == u64::MAX
            &&& ethash.eip155Transition == u64::MAX
            &&& ethash.eip160Transition == u64::MAX
            &&& ethash.eip161abcTransition == u64::MAX
            &&& ethash.eip161dTransition == u64::MAX
        }),
{
}

/// Where the source holds a configuration, each transition follows its own
/// block number: `eip150Transition` never activates where `eip150Block` is
/// absent, whatever the other fields hold, and the two transitions that the
/// source does not tell apart both follow `eip160Block`.
pub proof fn lemma_forks_follow_config(
    geth: GethSpecView,
    config: GethConfig,
    network_id: u64,
    start_nonce: Option<Seq<char>>,
)
    requires
        geth.config == Some(config),
        translation(geth, network_id, start_nonce) is Ok,
    ensures
        ({
            let ethash = translation(geth, network_id, start_nonce)->Ok_0.engine[0].1[0].1;
            &&& ethash.homesteadTransition == config.homesteadBlock
            &&& ethash.eip150Transition == match config.eip150Block {
                Some(block) => block,
                None => u64::MAX,
            }
            &&& ethash.eip155Transition == config.eip155Block
            &&& ethash.eip160Transition == config.eip160Block
            &&& ethash.eip161abcTransition == config.eip160Block
            &&& ethash.eip161dTransition == config.eip160Block
        }),
{
}

/// The protocol constants are the same in every translation, whatever the
/// source holds.
pub proof fn lemma_constants_fixed(
    geth: GethSpecView,
    network_id: u64,
    start_nonce: Option<Seq<char>>,
)
    requires
        translation(geth, network_id, start_nonce) is Ok,
    ensures
        ({
            let parity = translation(geth, network_id, start_nonce)->Ok_0;
            let ethash = parity.engine[0].1[0].1;
            &&& ethash.gasLimitBoundDivisor == "0x400"@
            &&& ethash.minimumDifficulty == "0x20000"@
            &&& ethash.difficultyBoundDivisor == "0x800"@
            &&& ethash.durationLimit == "0xd"@
            &&& ethash.blockReward == "0x4563918244F40000"@
            &&& ethash.registrar == "0x81a4b044831c4f12ba601adb9274516939e9b8a2"@
            &&& parity.params.maximumExtraDataSize == "0x20"@
            &&& parity.params.minGasLimit == "0x1388"@
            &&& parity.params.eip98Transition == u64::MAX
        }),
{
}

/// The network identifier is the configured chain identifier where there is
/// one, whatever the operator's is; else it is the operator's.
pub proof fn lemma_network_id_resolved(
    geth: GethSpecView,
    network_id: u64,
    start_nonce: Option<Seq<char>>,
)
    requires
        translation(geth, network_id, start_nonce) is Ok,
    ensures
        translation(geth, network_id, start_nonce)->Ok_0.params.networkID == (match geth.config {
            Some(config) => match config.chainId {
                Some(id) => id,
                None => network_id,
            },
            None => network_id,
        }),
{
}

/// The start nonce is shared: every account holds it, or none does where
/// there is none, and the chain parameters hold it, or `0x0` in its place.
pub proof fn lemma_start_nonce_shared(
    geth: GethSpecView,
    network_id: u64,
    start_nonce: Option<Seq<char>>,
    i: int,
)
    requires
        translation(geth, network_id, start_nonce) is Ok,
        0 <= i < geth.alloc.len(),
    ensures
        translation(geth, network_id, start_nonce)->Ok_0.accounts[i].1.nonce == start_nonce,
        translation(geth, network_id, start_nonce)->Ok_0.params.accountStartNonce == (
        match start_nonce {
            Some(nonce) => nonce,
            None => "0x0"@,
        }),
{
    assert(balance_of(geth.alloc[i].1) is Some);
}

/// Each account of the source has one account in the translation, under the
/// same address and at the same place; so no address occurs twice in the
/// translation where none does in the source.
pub proof fn lemma_addresses_kept(
    geth: GethSpecView,
    network_id: u64,
    start_nonce: Option<Seq<char>>,
)
    requires
        translation(geth, network_id, start_nonce) is Ok,
    ensures
        ({
            let parity = translation(geth, network_id, start_nonce)->Ok_0;
            &&& parity.accounts.len() == geth.alloc.len()
            &&& forall|i: int|
                0 <= i < geth.alloc.len() ==> (#[trigger] parity.accounts[i]).0 == geth.alloc[i].0
            &&& geth.well_formed() ==> parity.well_formed()
        }),
{
    let parity = translation(geth, network_id, start_nonce)->Ok_0;
    if geth.well_formed() {
        assert forall|i: int, j: int| 0 <= i < j < parity.accounts.len() implies (
        #[trigger] parity.accounts[i]).0 != (#[trigger] parity.accounts[j]).0 by {
            assert(geth.alloc[i].0 != geth.alloc[j].0);
        }
        assert(distinct_keys(parity.accounts));
    }
}

/// The amount of an account is its `balance` where it has one, and else its
/// `wei`, character for character.
pub proof fn lemma_balance_falls_back_to_wei(
    geth: GethSpecView,
    network_id: u64,
    start_nonce: Option<Seq<char>>,
    i: int,
)
    requires
        translation(geth, network_id, start_nonce) is Ok,
        0 <= i < geth.alloc.len(),
    ensures
        ({
            let source = geth.alloc[i].1;
            let balance = translation(geth, network_id, start_nonce)->Ok_0.accounts[i].1.balance;
            &&& source.balance is Some ==> balance == source.balance->0
            &&& source.balance is None && source.wei is Some ==> balance == source.wei->0
        }),
{
    assert(balance_of(geth.alloc[i].1) is Some);
}

/// An account is a precompiled contract exactly where its address denotes
/// 1, 2, 3 or 4: `ecrecover`, `sha256`, `ripemd160` and `identity` in turn,
/// each with its own linear cost. Every other account is none.
pub proof fn lemma_precompile_detection(
    geth: GethSpecView,
    network_id: u64,
    start_nonce: Option<Seq<char>>,
    i: int,
)
    requires
        translation(geth, network_id, start_nonce) is Ok,
        0 <= i < geth.alloc.len(),
    ensures
        ({
            let n = address_number(geth.alloc[i].0);
            let builtin = translation(geth, network_id, start_nonce)->Ok_0.accounts[i].1.builtin;
            &&& builtin == precompile_at(n)
            &&& n == Some(1nat) ==> builtin == Some(
                ParityBuiltinView {
                    name: "ecrecover"@,
                    pricing: seq![("linear"@, seq![("base"@, 3000u64), ("word"@, 0u64)])],
                },
            )
            &&& n == Some(2nat) ==> builtin == Some(
                ParityBuiltinView {
                    name: "sha256"@,
                    pricing: seq![("linear"@, seq![("base"@, 60u64), ("word"@, 12u64)])],
                },
            )
            &&& n == Some(3nat) ==> builtin == Some(
                ParityBuiltinView {
                    name: "ripemd160"@,
                    pricing: seq![("linear"@, seq![("base"@, 600u64), ("word"@, 120u64)])],
                },
            )
            &&& n == Some(4nat) ==> builtin == Some(
                ParityBuiltinView {
                    name: "identity"@,
                    pricing: seq![("linear"@, seq![("base"@, 15u64), ("word"@, 3u64)])],
                },
            )
            &&& n != Some(1nat) && n != Some(2nat) && n != Some(3nat) && n != Some(4nat)
                ==> builtin is None
        }),
{
    assert(balance_of(geth.alloc[i].1) is Some);
}

} // verus!
