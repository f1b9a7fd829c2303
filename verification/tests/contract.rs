use cosmwasm_std::testing::mock_dependencies;
use split_transfer::contract::{execute, instantiate, query};
use split_transfer::error::ContractError;
use split_transfer::msg::{
    coin, Coin, ExecuteMsg, InstantiateMsg, MessageInfo, OwnerResponse, QueryMsg, QueryResponse,
};
use split_transfer::response::BankMsg;

fn coins(amount: u128, denom: &str) -> Vec<Coin> {
    vec![coin(amount, denom)]
}

fn mock_info(sender: &str, funds: &[Coin]) -> MessageInfo {
    MessageInfo {
        sender: sender.to_string(),
        funds: funds.to_vec(),
    }
}

fn owner_of(res: QueryResponse) -> OwnerResponse {
    match res {
        QueryResponse::Owner(state) => state,
        other => panic!("unexpected answer: {:?}", other),
    }
}

fn amount_of(res: QueryResponse) -> u128 {
    match res {
        QueryResponse::WithdrawableAmount(amount) => amount,
        other => panic!("unexpected answer: {:?}", other),
    }
}

// checks if initialization was successful
#[test]
fn proper_initialization() {
    let mut deps = mock_dependencies();

    let msg = InstantiateMsg {};
    let info = mock_info("creator", &coins(0, "usei"));

    let res = instantiate(&mut deps.storage, info.clone(), msg).unwrap();
    assert_eq!(0, res.messages.len());

    let res = query(&deps.storage, QueryMsg::OwnerQuery {}).unwrap();
    let value: OwnerResponse = owner_of(res);

    // check if the owner is set after initialization
    assert_eq!(info.sender, value.owner);
}

// checks if the sent fund was split and balance of recipient updated
#[test]
fn split_transfer() {
    let mut deps = mock_dependencies();

    let instantiate_msg = InstantiateMsg {};
    let creator_info = mock_info("creator", &[]);
    let _res = instantiate(&mut deps.storage, creator_info, instantiate_msg).unwrap();

    // send 200 coins from the sender
    let sender_info = mock_info("sender", &coins(200, "usei"));
    let split_msg = ExecuteMsg::Split {
        recipient1: "person1".to_string(),
        recipient2: "person2".to_string(),
    };
    let _res = execute(&mut deps.storage, sender_info, split_msg).unwrap();

    // check the balance of recipient 1
    let res_1 = query(
        &deps.storage,
        QueryMsg::WithdrawableAmount {
            address: "person1".to_string(),
        },
    )
    .unwrap();
    let user_1_balance: u128 = amount_of(res_1);
    assert_eq!(99, user_1_balance);

    // check the balance of recipient 2
    let res_2 = query(
        &deps.storage,
        QueryMsg::WithdrawableAmount {
            address: "person2".to_string(),
        },
    )
    .unwrap();
    let user_2_balance: u128 = amount_of(res_2);
    assert_eq!(99, user_2_balance);
}

// checks if the old balance is updated for the same recipients
#[test]
fn update_old_balance() {
    let mut deps = mock_dependencies();

    let instantiate_msg = InstantiateMsg {};
    let creator_info = mock_info("creator", &[]);
    let _res = instantiate(&mut deps.storage, creator_info, instantiate_msg).unwrap();

    // sender sends 200 coins twice to person1 and person2
    let sender_info = mock_info("sender", &coins(200, "usei"));
    let split_msg = ExecuteMsg::Split {
        recipient1: "person1".to_string(),
        recipient2: "person2".to_string(),
    };

    let _res1 = execute(&mut deps.storage, sender_info.clone(), split_msg.clone()).unwrap();
    let _res2 = execute(&mut deps.storage, sender_info.clone(), split_msg.clone()).unwrap();

    // check the updated balance of person2
    let res = query(
        &deps.storage,
        QueryMsg::WithdrawableAmount {
            address: "person2".to_string(),
        },
    )
    .unwrap();
    let user_balance: u128 = amount_of(res);
    assert_eq!(198, user_balance);
}

#[test]
fn withdraw() {
    let mut deps = mock_dependencies();

    let instantiate_msg = InstantiateMsg {};
    let creator_info = mock_info("creator", &[]);
    let _res = instantiate(&mut deps.storage, creator_info, instantiate_msg).unwrap();

    // sender sends 200 coins to person1 (99) and person2 (99)
    let sender_info = mock_info("sender", &coins(200, "usei"));
    let split_msg = ExecuteMsg::Split {
        recipient1: "person1".to_string(),
        recipient2: "person2".to_string(),
    };
    let _res = execute(&mut deps.storage, sender_info, split_msg).unwrap();

    // person1 withdraws 50 coins
    let user_info = mock_info("person1", &[]);
    let mut msg = ExecuteMsg::Withdraw { quantity: Some(50) };
    let execute_res = execute(&mut deps.storage, user_info.clone(), msg).unwrap();
    assert_eq!(1, execute_res.messages.len());

    let sub_msg = execute_res.messages.get(0).expect("no message");
    assert_eq!(
        *sub_msg,
        BankMsg::Send {
            to_address: "person1".into(),
            amount: coins(50, "usei"),
        }
    );

    // checks the balance of person1 after the partial withdraw
    let res = query(
        &deps.storage,
        QueryMsg::WithdrawableAmount {
            address: "person1".to_string(),
        },
    )
    .unwrap();
    let user_balance: u128 = amount_of(res);
    assert_eq!(49, user_balance);

    // person1 withdraws the entire balance (49)
    msg = ExecuteMsg::Withdraw { quantity: None };
    let execute_res = execute(&mut deps.storage, user_info, msg).unwrap();
    assert_eq!(1, execute_res.messages.len());

    let sub_msg = execute_res.messages.get(0).expect("no message");
    assert_eq!(
        *sub_msg,
        BankMsg::Send {
            to_address: "person1".into(),
            amount: coins(49, "usei"),
        }
    );

    // checks the balance of person1 after withdrawal
    let res = query(
        &deps.storage,
        QueryMsg::WithdrawableAmount {
            address: "person1".to_string(),
        },
    )
    .unwrap();
    let user_balance: u128 = amount_of(res);
    assert_eq!(0, user_balance);
}

// BONUS - The owner can withdraw fees collected from the contract
#[test]
fn withdraw_fees() {
    let mut deps = mock_dependencies();

    let instantiate_msg = InstantiateMsg {};
    let creator_info = mock_info("creator", &[]);
    let _res = instantiate(&mut deps.storage, creator_info.clone(), instantiate_msg).unwrap();

    // sender sends 200 coin and 2 coins are collected as fees
    let sender_info = mock_info("sender", &coins(200, "usei"));
    let split_msg = ExecuteMsg::Split {
        recipient1: "person1".to_string(),
        recipient2: "person2".to_string(),
    };
    let _res = execute(&mut deps.storage, sender_info, split_msg).unwrap();

    // person1 tries to withdraw fees and fails
    let user_info = mock_info("person1", &[]);
    let msg = ExecuteMsg::WithdrawFees {};
    let execute_res = execute(&mut deps.storage, user_info, msg.clone());
    match execute_res.unwrap_err() {
        ContractError::NotOwner { .. } => {}
        e => panic!("unexpected error: {:?}", e),
    }

    // owner withdraws fees from the contract
    let execute_res = execute(&mut deps.storage, creator_info.clone(), msg).unwrap();
    let sub_msg = execute_res.messages.get(0).expect("no message");
    assert_eq!(
        *sub_msg,
        BankMsg::Send {
            to_address: "creator".into(),
            amount: coins(2, "usei"),
        }
    );
}
