use geth2parity::error::TranslationError;
use geth2parity::geth::{GethAccount, GethConfig, GethSpec};
use geth2parity::parity::{ParityAccount, ParityBuiltin, ParityEthash, ParitySeal, ParitySpec};
use geth2parity::translate::{chain_params, ethash_params, translate, translate_account, NEVER};

const ONE: &str = "0000000000000000000000000000000000000001";
const PLAIN: &str = "a94f5374fce5edbc8e2a8697c15331677e6ebf0b";

fn with_balance(balance: &str) -> GethAccount {
    GethAccount { balance: Some(balance.to_string()), wei: None }
}

fn with_wei(wei: &str) -> GethAccount {
    GethAccount { balance: None, wei: Some(wei.to_string()) }
}

fn source(alloc: Vec<(String, GethAccount)>, config: Option<GethConfig>) -> GethSpec {
    GethSpec {
        nonce: "0x0000000000000042".to_string(),
        difficulty: "0x400".to_string(),
        mixhash: "0x00000000000000000000000000000000000000000000000000000000000000aa".to_string(),
        coinbase: "0x3333333333333333333333333333333333333333".to_string(),
        timestamp: "0x5".to_string(),
        parentHash: "0x00000000000000000000000000000000000000000000000000000000000000bb".to_string(),
        extraData: "0xCAFE".to_string(),
        gasLimit: "0xffffffff".to_string(),
        alloc,
        config,
    }
}

fn config(chain_id: Option<u64>, eip150: Option<u64>) -> GethConfig {
    GethConfig {
        chainId: chain_id,
        homesteadBlock: 10,
        eip150Block: eip150,
        eip155Block: 30,
        eip158Block: 40,
        eip160Block: 50,
    }
}

fn ethash_of(parity: &ParitySpec) -> &ParityEthash {
    assert_eq!(parity.engine.len(), 1);
    assert_eq!(parity.engine[0].0, "Ethash");
    assert_eq!(parity.engine[0].1.len(), 1);
    assert_eq!(parity.engine[0].1[0].0, "params");
    &parity.engine[0].1[0].1
}

fn ecrecover() -> ParityBuiltin {
    ParityBuiltin {
        name: "ecrecover".to_string(),
        pricing: vec![(
            "linear".to_string(),
            vec![("base".to_string(), 3000), ("word".to_string(), 0)],
        )],
    }
}

#[test]
fn chain_id_and_precompile_at_address_one() {
    let geth = source(vec![(ONE.to_string(), with_balance("0x1"))], Some(config(Some(1), Some(20))));
    let parity = translate(geth, 999, None).unwrap();
    assert_eq!(parity.params.networkID, 1);
    assert_eq!(parity.accounts.len(), 1);
    assert_eq!(parity.accounts[0].0, ONE);
    assert_eq!(parity.accounts[0].1.balance, "0x1");
    assert_eq!(parity.accounts[0].1.builtin.as_ref().unwrap().name, "ecrecover");
    assert_eq!(parity.accounts[0].1.builtin, Some(ecrecover()));
}

#[test]
fn wei_stands_in_for_balance() {
    let geth = source(vec![(PLAIN.to_string(), with_wei("1000"))], None);
    let parity = translate(geth, 1, None).unwrap();
    assert_eq!(parity.accounts[0].1.balance, "1000");
}

#[test]
fn no_config_means_no_fork() {
    let parity = translate(source(Vec::new(), None), 7, None).unwrap();
    let ethash = ethash_of(&parity);
    assert_eq!(ethash.homesteadTransition, 18446744073709551615);
    assert_eq!(ethash.eip150Transition, 18446744073709551615);
    assert_eq!(ethash.eip155Transition, 18446744073709551615);
    assert_eq!(ethash.eip160Transition, 18446744073709551615);
    assert_eq!(ethash.eip161abcTransition, 18446744073709551615);
    assert_eq!(ethash.eip161dTransition, 18446744073709551615);
    assert_eq!(parity.params.networkID, 7);
    assert_eq!(NEVER, u64::MAX);
}

#[test]
fn forks_follow_the_config_field_by_field() {
    let parity = translate(source(Vec::new(), Some(config(None, Some(20)))), 7, None).unwrap();
    let ethash = ethash_of(&parity);
    assert_eq!(ethash.homesteadTransition, 10);
    assert_eq!(ethash.eip150Transition, 20);
    assert_eq!(ethash.eip155Transition, 30);
    assert_eq!(ethash.eip160Transition, 50);
    assert_eq!(ethash.eip161abcTransition, 50);
    assert_eq!(ethash.eip161dTransition, 50);

    let parity = translate(source(Vec::new(), Some(config(None, None))), 7, None).unwrap();
    let ethash = ethash_of(&parity);
    assert_eq!(ethash.homesteadTransition, 10);
    assert_eq!(ethash.eip150Transition, u64::MAX);
    assert_eq!(ethash.eip155Transition, 30);
    assert_eq!(ethash.eip160Transition, 50);
}

#[test]
fn network_id_comes_from_the_operator_without_a_chain_id() {
    let parity = translate(source(Vec::new(), Some(config(None, None))), 1337, None).unwrap();
    assert_eq!(parity.params.networkID, 1337);
    let parity = translate(source(Vec::new(), Some(config(Some(0), None))), 1337, None).unwrap();
    assert_eq!(parity.params.networkID, 0);
}

#[test]
fn header_fields_are_carried_verbatim() {
    let geth = source(vec![(PLAIN.to_string(), with_balance("1"))], Some(config(Some(1), None)));
    let parity = translate(geth.clone(), 1, Some("0x5".to_string())).unwrap();
    assert_eq!(parity.name, "GethTranslation");
    assert_eq!(
        parity.genesis.seal,
        vec![(
            "ethereum".to_string(),
            ParitySeal { nonce: geth.nonce.clone(), mixHash: geth.mixhash.clone() }
        )]
    );
    assert_eq!(parity.genesis.difficulty, geth.difficulty);
    assert_eq!(parity.genesis.author, geth.coinbase);
    assert_eq!(parity.genesis.timestamp, geth.timestamp);
    assert_eq!(parity.genesis.parentHash, geth.parentHash);
    assert_eq!(parity.genesis.extraData, geth.extraData);
    assert_eq!(parity.genesis.gasLimit, geth.gasLimit);
}

#[test]
fn header_fields_are_not_reformatted() {
    let mut geth = source(Vec::new(), None);
    geth.nonce = " 0X42 ".to_string();
    geth.difficulty = String::new();
    geth.extraData = "not hex at all é".to_string();
    let parity = translate(geth, 1, None).unwrap();
    assert_eq!(parity.genesis.seal[0].1.nonce, " 0X42 ");
    assert_eq!(parity.genesis.difficulty, "");
    assert_eq!(parity.genesis.extraData, "not hex at all é");
}

#[test]
fn constants_are_the_same_for_every_input() {
    let first = translate(source(Vec::new(), None), 1, None).unwrap();
    let second = translate(
        source(vec![(ONE.to_string(), with_wei("7"))], Some(config(Some(9), Some(1)))),
        2,
        Some("0xA".to_string()),
    )
    .unwrap();
    for parity in [&first, &second] {
        let ethash = ethash_of(parity);
        assert_eq!(ethash.gasLimitBoundDivisor, "0x400");
        assert_eq!(ethash.minimumDifficulty, "0x20000");
        assert_eq!(ethash.difficultyBoundDivisor, "0x800");
        assert_eq!(ethash.durationLimit, "0xd");
        assert_eq!(ethash.blockReward, "0x4563918244F40000");
        assert_eq!(ethash.registrar, "0x81a4b044831c4f12ba601adb9274516939e9b8a2");
        assert_eq!(parity.params.maximumExtraDataSize, "0x20");
        assert_eq!(parity.params.minGasLimit, "0x1388");
        assert_eq!(parity.params.eip98Transition, u64::MAX);
    }
}

#[test]
fn start_nonce_is_shared_by_all_accounts() {
    let alloc = vec![
        (ONE.to_string(), with_balance("1")),
        (PLAIN.to_string(), with_wei("2")),
    ];
    let parity = translate(source(alloc.clone(), None), 1, Some("0x5".to_string())).unwrap();
    assert_eq!(parity.params.accountStartNonce, "0x5");
    assert_eq!(parity.accounts[0].1.nonce, Some("0x5".to_string()));
    assert_eq!(parity.accounts[1].1.nonce, Some("0x5".to_string()));

    let parity = translate(source(alloc, None), 1, None).unwrap();
    assert_eq!(parity.params.accountStartNonce, "0x0");
    assert_eq!(parity.accounts[0].1.nonce, None);
    assert_eq!(parity.accounts[1].1.nonce, None);
}

#[test]
fn accounts_keep_their_addresses_and_order() {
    let alloc = vec![
        ("0x0000000000000000000000000000000000000004".to_string(), with_balance("4")),
        (PLAIN.to_string(), with_wei("2")),
        ("0000000000000000000000000000000000000002".to_string(), with_balance("0")),
        ("0000000000000000000000000000000000000005".to_string(), with_balance("5")),
    ];
    let parity = translate(source(alloc.clone(), None), 1, None).unwrap();
    assert_eq!(parity.accounts.len(), alloc.len());
    for (translated, allocated) in parity.accounts.iter().zip(alloc.iter()) {
        assert_eq!(translated.0, allocated.0);
    }
    let names: Vec<Option<String>> =
        parity.accounts.iter().map(|a| a.1.builtin.as_ref().map(|b| b.name.clone())).collect();
    assert_eq!(
        names,
        vec![Some("identity".to_string()), None, Some("sha256".to_string()), None]
    );
    let balances: Vec<&str> = parity.accounts.iter().map(|a| a.1.balance.as_str()).collect();
    assert_eq!(balances, vec!["4", "2", "0", "5"]);
}

#[test]
fn balance_wins_over_wei() {
    let both = GethAccount { balance: Some("1".to_string()), wei: Some("2".to_string()) };
    let parity = translate(source(vec![(PLAIN.to_string(), both)], None), 1, None).unwrap();
    assert_eq!(parity.accounts[0].1.balance, "1");
}

#[test]
fn account_without_balance_fails_the_whole_translation() {
    let neither = GethAccount { balance: None, wei: None };
    let alloc = vec![(PLAIN.to_string(), neither.clone())];
    assert_eq!(translate(source(alloc, None), 1, None), Err(TranslationError::DataIntegrity));

    let alloc = vec![
        (ONE.to_string(), with_balance("1")),
        (PLAIN.to_string(), neither),
        ("0000000000000000000000000000000000000002".to_string(), with_wei("2")),
    ];
    assert_eq!(
        translate(source(alloc, Some(config(Some(1), None))), 1, Some("0x1".to_string())),
        Err(TranslationError::DataIntegrity)
    );
}

#[test]
fn one_account_at_a_time() {
    let nonce = Some("0x7".to_string());
    assert_eq!(
        translate_account(&ONE.to_string(), &with_wei("1000"), &nonce),
        Ok(ParityAccount {
            balance: "1000".to_string(),
            nonce: Some("0x7".to_string()),
            builtin: Some(ecrecover()),
        })
    );
    assert_eq!(
        translate_account(&PLAIN.to_string(), &with_balance("0x10"), &None),
        Ok(ParityAccount { balance: "0x10".to_string(), nonce: None, builtin: None })
    );
    assert_eq!(
        translate_account(&ONE.to_string(), &GethAccount { balance: None, wei: None }, &nonce),
        Err(TranslationError::DataIntegrity)
    );
}

#[test]
fn parameters_on_their_own() {
    let legacy = GethConfig::legacy();
    assert_eq!(legacy.chainId, None);
    assert_eq!(legacy.homesteadBlock, u64::MAX);
    assert_eq!(legacy.eip150Block, None);
    assert_eq!(legacy.eip155Block, u64::MAX);
    assert_eq!(legacy.eip158Block, u64::MAX);
    assert_eq!(legacy.eip160Block, u64::MAX);

    let ethash = ethash_params(&config(Some(3), Some(20)));
    assert_eq!(ethash.eip150Transition, 20);
    assert_eq!(ethash.eip161dTransition, 50);

    let params = chain_params(&config(Some(3), None), 8, &Some("0xB".to_string()));
    assert_eq!(params.accountStartNonce, "0xB");
    assert_eq!(params.networkID, 3);
    let params = chain_params(&legacy, 8, &None);
    assert_eq!(params.accountStartNonce, "0x0");
    assert_eq!(params.networkID, 8);
}
