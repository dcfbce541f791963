use cosmwasm_std::testing::MockStorage;
use cosmwasm_std::Storage;
use workshop_dao::contract::{execute_propose, execute_vote, instantiate, query_all_members};
use workshop_dao::error::ContractError;
use workshop_dao::keys::proposal_key;
use workshop_dao::ledger::Ledger;
use workshop_dao::msg::{Env, InstantiateMsg, MemberInit, MessageInfo};
use workshop_dao::registry::{lookup, members};
use workshop_dao::store::{get, list};

fn at(block_time: u64) -> Env {
    Env { block_time, treasury_balance: 0 }
}

fn from(sender: &str) -> MessageInfo {
    MessageInfo { sender: sender.to_string() }
}

fn setup(storage: &mut MockStorage) {
    let mut ledger = Ledger { store: storage };
    let msg = InstantiateMsg {
        members: vec![
            MemberInit { address: "alice".to_string(), weight: 10 },
            MemberInit { address: "bob".to_string(), weight: 20 },
        ],
    };
    instantiate(&mut ledger, at(1), from("creator"), msg).unwrap();
}

fn propose(storage: &mut MockStorage, amount: u128) -> u64 {
    let mut ledger = Ledger { store: storage };
    execute_propose(
        &mut ledger,
        at(1),
        from("alice"),
        "t".to_string(),
        "d".to_string(),
        None,
        Some(amount),
    )
    .unwrap()
}

fn member_key(address: &str) -> Vec<u8> {
    let mut key = vec![0u8, 7];
    key.extend_from_slice(b"members");
    key.extend_from_slice(address.as_bytes());
    key
}

fn proposal_slot(id: &str) -> Vec<u8> {
    let mut key = vec![0u8, 9];
    key.extend_from_slice(b"proposals");
    key.extend_from_slice(id.as_bytes());
    key
}

#[test]
fn state_survives_the_handle() {
    let mut storage = MockStorage::new();
    setup(&mut storage);
    assert_eq!(propose(&mut storage, 5), 0);
    assert_eq!(propose(&mut storage, 6), 1);
    {
        let mut ledger = Ledger { store: &mut storage };
        execute_vote(&mut ledger, at(2), from("bob"), 1, false).unwrap();
    }
    let ledger = Ledger { store: &mut storage };
    assert_eq!(lookup(&ledger, "alice"), Some(10));
    assert_eq!(get(&ledger, 0).unwrap().amount, 5);
    assert_eq!(get(&ledger, 1).unwrap().votes_against, 20);
    assert_eq!(list(&ledger).len(), 2);
}

#[test]
fn the_counter_is_stored_in_its_own_slot() {
    let mut storage = MockStorage::new();
    assert_eq!(storage.get(b"proposal_count"), None);
    setup(&mut storage);
    assert_eq!(storage.get(b"proposal_count"), Some(b"0".to_vec()));
    propose(&mut storage, 1);
    propose(&mut storage, 2);
    assert_eq!(storage.get(b"proposal_count"), Some(b"2".to_vec()));
}

#[test]
fn members_are_stored_by_address() {
    let mut storage = MockStorage::new();
    setup(&mut storage);
    assert_eq!(storage.get(&member_key("alice")), Some(b"\"10\"".to_vec()));
    assert_eq!(storage.get(&member_key("bob")), Some(b"\"20\"".to_vec()));
    assert_eq!(storage.get(&member_key("carol")), None);
}

#[test]
fn proposals_are_stored_under_the_decimal_text_of_their_id() {
    let mut storage = MockStorage::new();
    setup(&mut storage);
    for k in 0..11 {
        propose(&mut storage, k);
    }
    assert!(storage.get(&proposal_slot("0")).is_some());
    assert!(storage.get(&proposal_slot("10")).is_some());
    assert_eq!(storage.get(&proposal_slot("11")), None);
    assert_eq!(storage.get(&proposal_slot("00")), None);
    let ledger = Ledger { store: &mut storage };
    assert_eq!(get(&ledger, 10).unwrap().amount, 10);
    assert_eq!(get(&ledger, 10).unwrap().id, 10);
}

#[test]
fn a_proposal_that_cannot_be_read_is_not_found() {
    let mut storage = MockStorage::new();
    setup(&mut storage);
    propose(&mut storage, 1);
    propose(&mut storage, 2);
    storage.set(&proposal_slot("0"), b"{}");
    let mut ledger = Ledger { store: &mut storage };
    assert!(matches!(get(&ledger, 0), Err(ContractError::NotFound {})));
    assert!(matches!(
        execute_vote(&mut ledger, at(2), from("alice"), 0, true),
        Err(ContractError::NotFound {})
    ));
    assert_eq!(list(&ledger).iter().map(|p| p.id).collect::<Vec<_>>(), vec![1]);
}

#[test]
fn a_member_entry_that_cannot_be_read_fails_the_listing() {
    let mut storage = MockStorage::new();
    setup(&mut storage);
    storage.set(&member_key("zed"), b"not a weight");
    {
        let ledger = Ledger { store: &mut storage };
        assert!(matches!(members(&ledger), Err(ContractError::Std(_))));
        assert!(matches!(query_all_members(&ledger), Err(ContractError::Std(_))));
        assert_eq!(lookup(&ledger, "zed"), None);
        assert_eq!(lookup(&ledger, "alice"), Some(10));
    }
    storage.remove(&member_key("zed"));
    let mut key = member_key("");
    key.push(0xff);
    storage.set(&key, b"\"1\"");
    let ledger = Ledger { store: &mut storage };
    assert!(matches!(members(&ledger), Err(ContractError::Std(_))));
}

#[test]
fn a_missing_counter_reads_as_zero() {
    let mut storage = MockStorage::new();
    setup(&mut storage);
    propose(&mut storage, 1);
    storage.remove(b"proposal_count");
    {
        let ledger = Ledger { store: &mut storage };
        assert!(list(&ledger).is_empty());
        assert_eq!(get(&ledger, 0).unwrap().amount, 1);
    }
    storage.set(b"proposal_count", b"\"oops\"");
    let ledger = Ledger { store: &mut storage };
    assert!(list(&ledger).is_empty());
}

#[test]
fn ballots_are_kept_apart_by_proposal_and_voter() {
    let mut storage = MockStorage::new();
    setup(&mut storage);
    propose(&mut storage, 1);
    propose(&mut storage, 2);
    let mut ledger = Ledger { store: &mut storage };
    execute_vote(&mut ledger, at(2), from("alice"), 0, true).unwrap();
    execute_vote(&mut ledger, at(2), from("bob"), 0, true).unwrap();
    execute_vote(&mut ledger, at(2), from("alice"), 1, false).unwrap();
    assert!(matches!(
        execute_vote(&mut ledger, at(2), from("alice"), 0, false),
        Err(ContractError::AlreadyVoted {})
    ));
    assert!(matches!(
        execute_vote(&mut ledger, at(2), from("bob"), 0, false),
        Err(ContractError::AlreadyVoted {})
    ));
    execute_vote(&mut ledger, at(2), from("bob"), 1, true).unwrap();
    assert_eq!(get(&ledger, 0).unwrap().votes_for, 30);
    assert_eq!(get(&ledger, 1).unwrap().votes_for, 20);
    assert_eq!(get(&ledger, 1).unwrap().votes_against, 10);
}

#[test]
fn proposal_keys_are_decimal_texts() {
    assert_eq!(proposal_key(0), "0");
    assert_eq!(proposal_key(7), "7");
    assert_eq!(proposal_key(10), "10");
    assert_eq!(proposal_key(109), "109");
    assert_eq!(proposal_key(1_000_000), "1000000");
    assert_eq!(proposal_key(u64::MAX), "18446744073709551615");
    for id in [0u64, 9, 10, 11, 99, 100, 101, 12_345, u64::MAX - 1] {
        assert_eq!(proposal_key(id), id.to_string());
    }
}

#[test]
fn setup_records_the_contract_version() {
    let mut storage = MockStorage::new();
    assert!(cw2::get_contract_version(&storage).is_err());
    setup(&mut storage);
    let version = cw2::get_contract_version(&storage).unwrap();
    assert_eq!(version.contract, "workshop-dao");
    assert_eq!(version.version, "0.1.0");
    assert_eq!(version.contract, workshop_dao::contract::CONTRACT_NAME);
    assert_eq!(version.version, workshop_dao::contract::CONTRACT_VERSION);
    propose(&mut storage, 1);
    assert_eq!(cw2::get_contract_version(&storage).unwrap(), version);
}

#[test]
fn a_refused_setup_records_no_version() {
    let mut storage = MockStorage::new();
    let mut ledger = Ledger { store: &mut storage };
    let msg = InstantiateMsg {
        members: vec![
            MemberInit { address: "alice".to_string(), weight: 10 },
            MemberInit { address: "alice".to_string(), weight: 20 },
        ],
    };
    assert!(matches!(
        instantiate(&mut ledger, at(1), from("creator"), msg),
        Err(ContractError::InvalidInput(_))
    ));
    assert!(cw2::get_contract_version(&storage).is_err());
    assert_eq!(storage.get(b"proposal_count"), None);
}

#[test]
fn texts_are_stored_and_read_back_exactly() {
    let texts = [
        "",
        " ",
        "plain",
        "with \"quotes\" and \\ backslashes \\\\",
        "tabs\tand\nnewlines\r\n",
        "\u{0}\u{1}\u{8}\u{c}\u{1f}\u{7f}",
        "caf\u{e9} \u{4e2d}\u{6587} \u{1f600} \u{10ffff}",
        "{\"json\": [1, 2, 3]}",
        "[\"a\",\"b\"]",
        "\\u0041 \\n /slash/",
    ];
    let mut storage = MockStorage::new();
    let mut ledger = Ledger { store: &mut storage };
    let msg = InstantiateMsg {
        members: texts.iter().map(|t| MemberInit { address: t.to_string(), weight: 1 }).collect(),
    };
    instantiate(&mut ledger, at(1), from("creator"), msg).unwrap();
    for (k, text) in texts.iter().enumerate() {
        assert_eq!(lookup(&ledger, text), Some(1));
        let other = texts[(k + 1) % texts.len()];
        let id = execute_propose(
            &mut ledger,
            at(1),
            from(text),
            text.to_string(),
            other.to_string(),
            if k % 2 == 0 { Some(other.to_string()) } else { None },
            Some(u128::MAX - k as u128),
        )
        .unwrap();
        execute_vote(&mut ledger, at(2), from(text), id, k % 3 == 0).unwrap();
        assert!(matches!(
            execute_vote(&mut ledger, at(2), from(text), id, true),
            Err(ContractError::AlreadyVoted {})
        ));
        let p = get(&ledger, id).unwrap();
        assert_eq!(p.id, k as u64);
        assert_eq!(p.title, *text);
        assert_eq!(p.description, other);
        assert_eq!(p.recipient, if k % 2 == 0 { other } else { *text });
        assert_eq!(p.amount, u128::MAX - k as u128);
        assert_eq!(p.votes_for + p.votes_against, 1);
        assert_eq!(p.votes_for == 1, k % 3 == 0);
        assert_eq!(p.voting_end, 1 + 604_800);
        assert!(!p.executed);
    }
    assert_eq!(list(&ledger).len(), texts.len());
}

#[test]
fn the_member_listing_follows_the_code_points_of_the_addresses() {
    let addresses = [
        "b", "a", "", "ab", "aa", "a\u{0}", "B", "Z", "z", "~", "\u{7f}", "\u{80}", "\u{7ff}",
        "\u{800}", "\u{ffff}", "\u{10000}", "\u{10ffff}", "\u{e9}", "e\u{301}", "zz", "a b", "a-b",
        "10", "9", "1", "cosmos1abc", "cosmos1abd", "cosmos1ab",
    ];
    let mut storage = MockStorage::new();
    let mut ledger = Ledger { store: &mut storage };
    let msg = InstantiateMsg {
        members: addresses
            .iter()
            .enumerate()
            .map(|(k, a)| MemberInit { address: a.to_string(), weight: k as u128 })
            .collect(),
    };
    instantiate(&mut ledger, at(1), from("creator"), msg).unwrap();
    let listed = members(&ledger).unwrap();
    assert_eq!(listed.len(), addresses.len());
    for pair in listed.windows(2) {
        let before: Vec<u32> = pair[0].address.chars().map(|c| c as u32).collect();
        let after: Vec<u32> = pair[1].address.chars().map(|c| c as u32).collect();
        assert!(before < after, "{:?} is listed before {:?}", pair[0].address, pair[1].address);
    }
    for (k, a) in addresses.iter().enumerate() {
        assert!(listed.iter().any(|m| m.address == *a && m.weight == k as u128));
        assert_eq!(lookup(&ledger, a), Some(k as u128));
    }
}

#[test]
fn the_collections_do_not_touch_each_other() {
    let mut storage = MockStorage::new();
    let mut ledger = Ledger { store: &mut storage };
    // Addresses that spell the names of the other slots and collections.
    let names = ["proposal_count", "contract_info", "members", "proposals", "ballots", "0", "1"];
    let msg = InstantiateMsg {
        members: names
            .iter()
            .enumerate()
            .map(|(k, a)| MemberInit { address: a.to_string(), weight: 10 + k as u128 })
            .collect(),
    };
    instantiate(&mut ledger, at(1), from("creator"), msg).unwrap();
    for (k, name) in names.iter().enumerate() {
        let id = execute_propose(
            &mut ledger,
            at(1),
            from(name),
            name.to_string(),
            name.to_string(),
            None,
            None,
        )
        .unwrap();
        assert_eq!(id, k as u64);
        for voter in names.iter() {
            execute_vote(&mut ledger, at(2), from(voter), id, true).unwrap();
        }
    }
    let total: u128 = (0..names.len() as u128).map(|k| 10 + k).sum();
    for (k, name) in names.iter().enumerate() {
        assert_eq!(lookup(&ledger, name), Some(10 + k as u128));
        let p = get(&ledger, k as u64).unwrap();
        assert_eq!(p.title, *name);
        assert_eq!(p.votes_for, total);
        assert_eq!(p.votes_against, 0);
    }
    assert_eq!(members(&ledger).unwrap().len(), names.len());
    assert_eq!(list(&ledger).len(), names.len());
    assert_eq!(cw2::get_contract_version(&storage).unwrap().contract, "workshop-dao");
    assert_eq!(storage.get(b"proposal_count"), Some(b"7".to_vec()));
}
