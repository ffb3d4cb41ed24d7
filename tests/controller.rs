use cw721_controller::order::compare_ids;
use cw721_controller::payment::pays_exactly;
use cw721_controller::{
    Coin, ContractError, ContractInfoResponse, CosmosMsg, Cw721Controller, InstantiateMsg,
    MyExecuteMsg, OwnerResponse, QueryMsg, QueryResponse, Response,
};

fn s(x: &str) -> String {
    x.to_string()
}

fn ids(xs: &[&str]) -> Vec<String> {
    xs.iter().map(|x| x.to_string()).collect()
}

fn uluna(amount: u128) -> Coin {
    Coin { denom: s("uluna"), amount }
}

fn controller(price: u32, pool: &[&str]) -> Cw721Controller {
    let mut c = Cw721Controller::instantiate(
        s("admin"),
        InstantiateMsg {
            collection_name: s("Merry"),
            collection_symbol: s("XMAS"),
            uluna_price: price,
            mint_cap: 100,
            nft_contract_addr: s("nft"),
        },
    );
    c.update_allowed_token_ids(&s("admin"), &ids(pool), &vec![]).unwrap();
    c
}

fn snapshot(c: &Cw721Controller) -> (ContractInfoResponse, String, u32, u32, String, Vec<String>) {
    (
        c.collection_info.clone(),
        c.owner.clone(),
        c.uluna_price,
        c.mint_cap,
        c.nft_contract_addr.clone(),
        c.allowed_token_ids(),
    )
}

#[test]
fn instantiate_stores_settings() {
    let c = controller(10, &[]);
    assert_eq!(c.owner, "admin");
    assert_eq!(c.uluna_price, 10);
    assert_eq!(c.mint_cap, 100);
    assert_eq!(c.nft_contract_addr, "nft");
    assert!(c.allowed_token_ids().is_empty());
    assert_eq!(c.owner(), OwnerResponse { owner: s("admin") });
    assert_eq!(
        c.collection_info(),
        ContractInfoResponse { name: s("Merry"), symbol: s("XMAS") }
    );
}

#[test]
fn query_answers() {
    let c = controller(10, &[]);
    assert_eq!(c.query(QueryMsg::Owner {}), QueryResponse::Owner(OwnerResponse { owner: s("admin") }));
    assert_eq!(
        c.query(QueryMsg::ContractInfo {}),
        QueryResponse::ContractInfo(ContractInfoResponse { name: s("Merry"), symbol: s("XMAS") })
    );
}

#[test]
fn mint_two_of_three() {
    let mut c = controller(10, &["a", "b", "c"]);
    let r = c.mint_nft(&vec![uluna(20)], s("X"), 2);
    assert_eq!(
        r,
        Ok(Response {
            messages: vec![CosmosMsg::Mint {
                contract_addr: s("nft"),
                owner: s("X"),
                token_ids: ids(&["a", "b"]),
            }],
        })
    );
    assert_eq!(c.allowed_token_ids(), ids(&["c"]));
}

#[test]
fn mint_underpaid_fails() {
    let mut c = controller(10, &["a", "b", "c"]);
    assert_eq!(c.mint_nft(&vec![uluna(15)], s("X"), 2), Err(ContractError::InsufficientFunds));
    assert_eq!(c.allowed_token_ids(), ids(&["a", "b", "c"]));
}

#[test]
fn mint_overpaid_fails() {
    let mut c = controller(10, &["a", "b", "c"]);
    assert_eq!(c.mint_nft(&vec![uluna(30)], s("X"), 2), Err(ContractError::InsufficientFunds));
    assert_eq!(c.allowed_token_ids(), ids(&["a", "b", "c"]));
}

#[test]
fn mint_without_funds_fails() {
    let mut c = controller(10, &["a"]);
    assert_eq!(c.mint_nft(&vec![], s("X"), 1), Err(ContractError::InsufficientFunds));
}

#[test]
fn mint_short_pool_fails() {
    let mut c = controller(10, &["a"]);
    assert_eq!(c.mint_nft(&vec![uluna(20)], s("X"), 2), Err(ContractError::InsufficientInventory));
    assert_eq!(c.allowed_token_ids(), ids(&["a"]));
}

#[test]
fn mint_ignores_other_currencies_and_sums() {
    let mut c = controller(10, &["a", "b", "c"]);
    let funds = vec![Coin { denom: s("uatom"), amount: 5 }, uluna(12), uluna(8)];
    let r = c.mint_nft(&funds, s("X"), 2).unwrap();
    assert_eq!(r.messages.len(), 1);
    assert_eq!(c.allowed_token_ids(), ids(&["c"]));
}

#[test]
fn mint_overflowing_funds_fail() {
    let mut c = controller(10, &["a"]);
    let funds = vec![uluna(u128::MAX), uluna(11)];
    assert_eq!(c.mint_nft(&funds, s("X"), 1), Err(ContractError::InsufficientFunds));
}

#[test]
fn mint_zero_for_nothing() {
    let mut c = controller(10, &["a"]);
    let r = c.mint_nft(&vec![], s("X"), 0).unwrap();
    assert_eq!(
        r.messages,
        vec![CosmosMsg::Mint { contract_addr: s("nft"), owner: s("X"), token_ids: vec![] }]
    );
    assert_eq!(c.allowed_token_ids(), ids(&["a"]));
}

#[test]
fn mints_never_repeat_ids() {
    let mut c = controller(1, &["d", "a", "c", "b"]);
    let first = c.mint_nft(&vec![uluna(2)], s("X"), 2).unwrap();
    let second = c.mint_nft(&vec![uluna(2)], s("Y"), 2).unwrap();
    assert_eq!(
        first.messages,
        vec![CosmosMsg::Mint { contract_addr: s("nft"), owner: s("X"), token_ids: ids(&["a", "b"]) }]
    );
    assert_eq!(
        second.messages,
        vec![CosmosMsg::Mint { contract_addr: s("nft"), owner: s("Y"), token_ids: ids(&["c", "d"]) }]
    );
    assert_eq!(c.mint_nft(&vec![uluna(1)], s("Z"), 1), Err(ContractError::InsufficientInventory));
}

#[test]
fn pool_is_kept_in_byte_order() {
    let c = controller(1, &["b", "ab", "a", "B", "é", "z"]);
    assert_eq!(c.allowed_token_ids(), ids(&["B", "a", "ab", "b", "z", "é"]));
}

#[test]
fn compare_ids_orders_bytes() {
    assert!(compare_ids(&s("a"), &s("b")) < 0);
    assert!(compare_ids(&s("b"), &s("a")) > 0);
    assert!(compare_ids(&s("a"), &s("ab")) < 0);
    assert!(compare_ids(&s("ab"), &s("ab")) == 0);
    assert!(compare_ids(&s(""), &s("a")) < 0);
    assert!(compare_ids(&s("Z"), &s("a")) < 0);
}

#[test]
fn pays_exactly_counts_uluna_only() {
    assert!(pays_exactly(&vec![uluna(20)], 10, 2));
    assert!(!pays_exactly(&vec![uluna(19)], 10, 2));
    assert!(!pays_exactly(&vec![Coin { denom: s("uatom"), amount: 20 }], 10, 2));
    assert!(pays_exactly(&vec![], 10, 0));
    assert!(pays_exactly(&vec![uluna(u32::MAX as u128 * u32::MAX as u128)], u32::MAX, u32::MAX));
}

#[test]
fn add_present_id_is_idempotent() {
    let mut c = controller(10, &["a", "b"]);
    assert!(c.update_allowed_token_ids(&s("admin"), &ids(&["a", "a"]), &vec![]).is_ok());
    assert_eq!(c.allowed_token_ids(), ids(&["a", "b"]));
}

#[test]
fn remove_absent_id_is_noop() {
    let mut c = controller(10, &["a", "b"]);
    let r = c.update_allowed_token_ids(&s("admin"), &vec![], &ids(&["zz"]));
    assert_eq!(r, Ok(Response { messages: vec![] }));
    assert_eq!(c.allowed_token_ids(), ids(&["a", "b"]));
}

#[test]
fn add_then_remove_same_id() {
    let mut c = controller(10, &["a"]);
    c.update_allowed_token_ids(&s("admin"), &ids(&["b", "c"]), &ids(&["b", "a"])).unwrap();
    assert_eq!(c.allowed_token_ids(), ids(&["c"]));
}

#[test]
fn non_owner_is_refused_everywhere() {
    let mut c = controller(10, &["a", "b"]);
    let before = snapshot(&c);
    let stranger = s("mallory");
    let requests = vec![
        MyExecuteMsg::ChangeMinter { new_minter: s("m") },
        MyExecuteMsg::ChangePrice { new_price: 1 },
        MyExecuteMsg::Withdraw { to_address: s("m") },
        MyExecuteMsg::UpdateAllowedTokenIds { add: ids(&["c"]), remove: ids(&["a"]) },
    ];
    for msg in requests {
        let r = c.execute(&stranger, &vec![], vec![uluna(50)], msg);
        assert_eq!(r, Err(ContractError::Unauthorized));
        assert_eq!(snapshot(&c), before);
    }
}

#[test]
fn owner_changes_price() {
    let mut c = controller(10, &["a"]);
    assert_eq!(c.change_price(&s("admin"), 7), Ok(Response { messages: vec![] }));
    assert_eq!(c.uluna_price, 7);
    assert!(c.mint_nft(&vec![uluna(7)], s("X"), 1).is_ok());
}

#[test]
fn owner_changes_minter() {
    let c = controller(10, &[]);
    assert_eq!(
        c.change_minter(&s("admin"), s("newbie")),
        Ok(Response {
            messages: vec![CosmosMsg::ChangeMinter { contract_addr: s("nft"), new_minter: s("newbie") }],
        })
    );
}

#[test]
fn withdraw_sends_everything_then_nothing() {
    let c = controller(10, &[]);
    let balance = vec![uluna(120), Coin { denom: s("uatom"), amount: 3 }];
    let first = c.withdraw(&s("admin"), s("treasury"), balance.clone()).unwrap();
    assert_eq!(
        first.messages,
        vec![CosmosMsg::BankSend { to_address: s("treasury"), amount: balance }]
    );
    let second = c.withdraw(&s("admin"), s("treasury"), vec![]).unwrap();
    assert_eq!(second.messages, vec![CosmosMsg::BankSend { to_address: s("treasury"), amount: vec![] }]);
}

#[test]
fn execute_routes_requests() {
    let mut c = controller(5, &["x", "y"]);
    let owner = s("admin");
    c.execute(&owner, &vec![], vec![], MyExecuteMsg::ChangePrice { new_price: 4 }).unwrap();
    let r = c
        .execute(&s("anyone"), &vec![uluna(8)], vec![], MyExecuteMsg::MintNft { owner: s("X"), how_many: 2 })
        .unwrap();
    assert_eq!(
        r.messages,
        vec![CosmosMsg::Mint { contract_addr: s("nft"), owner: s("X"), token_ids: ids(&["x", "y"]) }]
    );
    c.execute(
        &owner,
        &vec![],
        vec![],
        MyExecuteMsg::UpdateAllowedTokenIds { add: ids(&["q"]), remove: vec![] },
    )
    .unwrap();
    assert_eq!(c.allowed_token_ids(), ids(&["q"]));
}
