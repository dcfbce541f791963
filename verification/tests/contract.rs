use cosmwasm_std::testing::{mock_dependencies, mock_env, mock_info};
use workshop_dao::contract::{execute, instantiate};
use workshop_dao::error::ContractError;
use workshop_dao::ledger::Ledger;
use workshop_dao::msg::{Env, ExecuteMsg, InstantiateMsg, MemberInit, MessageInfo};
use workshop_dao::state::VOTING_PERIOD;

fn env_at(env: &cosmwasm_std::Env, treasury_balance: u128) -> Env {
    Env { block_time: env.block.time.seconds(), treasury_balance }
}

fn info_of(info: &cosmwasm_std::MessageInfo) -> MessageInfo {
    MessageInfo { sender: info.sender.to_string() }
}

#[test]
fn proper_instantiation() {
    let mut deps = mock_dependencies();
    let mut ledger = Ledger { store: &mut deps.storage };

    let members = vec![
        MemberInit { address: "addr1".to_string(), weight: 10_u128 },
        MemberInit { address: "addr2".to_string(), weight: 20_u128 },
    ];

    let msg = InstantiateMsg { members };
    let info = mock_info("creator", &[]);
    let res = instantiate(&mut ledger, env_at(&mock_env(), 0), info_of(&info), msg).unwrap();
    assert_eq!(0, res.messages.len());
}

#[test]
fn proposal_creation() {
    let mut deps = mock_dependencies();
    let mut ledger = Ledger { store: &mut deps.storage };

    let members = vec![MemberInit { address: "addr1".to_string(), weight: 10_u128 }];

    let msg = InstantiateMsg { members };
    let info = mock_info("creator", &[]);
    instantiate(&mut ledger, env_at(&mock_env(), 0), info_of(&info), msg).unwrap();

    let info = mock_info("addr1", &[]);
    let msg = ExecuteMsg::Propose {
        title: "Test Proposal".to_string(),
        description: "Description for test".to_string(),
        amount: Some(100_u128),
        recipient: Some("recipient_address".to_string()),
    };
    let res = execute(&mut ledger, env_at(&mock_env(), 0), info_of(&info), msg).unwrap();
    assert_eq!(0, res.messages.len());
    assert_eq!(Some(0), res.proposal_id);
}

#[test]
fn vote_for_proposal() {
    let mut deps = mock_dependencies();
    let mut ledger = Ledger { store: &mut deps.storage };

    let members = vec![MemberInit { address: "addr1".to_string(), weight: 10_u128 }];
    let msg = InstantiateMsg { members };
    let info = mock_info("creator", &[]);
    instantiate(&mut ledger, env_at(&mock_env(), 0), info_of(&info), msg).unwrap();

    let info = mock_info("addr1", &[]);
    let proposal_msg = ExecuteMsg::Propose {
        title: "Some Title".to_string(),
        description: "Some Description".to_string(),
        amount: Some(100_u128),
        recipient: Some("recipient_address".to_string()),
    };
    execute(&mut ledger, env_at(&mock_env(), 0), info_of(&info), proposal_msg).unwrap();

    let vote_msg = ExecuteMsg::Vote { proposal_id: 0, approve: true };

    let res = execute(&mut ledger, env_at(&mock_env(), 0), info_of(&info), vote_msg).unwrap();
    assert_eq!(0, res.messages.len());
}

#[test]
fn execute_proposal() {
    let mut deps = mock_dependencies();
    let mut ledger = Ledger { store: &mut deps.storage };

    let members = vec![MemberInit { address: "addr1".to_string(), weight: 10_u128 }];
    let msg = InstantiateMsg { members };
    let info = mock_info("creator", &[]);
    instantiate(&mut ledger, env_at(&mock_env(), 0), info_of(&info), msg).unwrap();

    let info = mock_info("addr1", &[]);
    let proposal_msg = ExecuteMsg::Propose {
        title: "Another Title".to_string(),
        description: "Another Description".to_string(),
        amount: Some(100_u128),
        recipient: Some("recipient_address".to_string()),
    };
    execute(&mut ledger, env_at(&mock_env(), 0), info_of(&info), proposal_msg).unwrap();

    let vote_msg = ExecuteMsg::Vote { proposal_id: 0, approve: true };
    execute(&mut ledger, env_at(&mock_env(), 0), info_of(&info), vote_msg).unwrap();

    // The voting window is still open in the block the vote was cast in.
    let early = execute(
        &mut ledger,
        env_at(&mock_env(), 100),
        info_of(&info),
        ExecuteMsg::Execute { proposal_id: 0 },
    );
    assert!(matches!(early, Err(ContractError::VotingNotEnded {})));

    let mut later = mock_env();
    later.block.time = later.block.time.plus_seconds(VOTING_PERIOD);
    let exec_msg = ExecuteMsg::Execute { proposal_id: 0 };
    let res = execute(&mut ledger, env_at(&later, 100), info_of(&info), exec_msg).unwrap();
    assert_eq!(1, res.messages.len());
}
