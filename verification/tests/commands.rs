use cw721::error::Cw721ContractError;
use cw721::execute::{
    approve, approve_all, burn_nft, check_can_approve, check_can_send, instantiate, mint,
    remove_withdraw_address, revoke, revoke_all, send_nft, set_withdraw_address, transfer_nft,
    update_creator_ownership, update_minter_ownership, update_nft_info, withdraw_funds,
};
use cw721::keys::OperatorKey;
use cw721::msg::Cw721InstantiateMsg;
use cw721::ownership::Action;
use cw721::query::{
    query_approvals, query_nft_info, query_num_tokens, query_owner_of, query_withdraw_address,
};
use cw721::response::{EventAttribute, HostMsg, Response};
use cw721::state::{
    Address, Approval, BlockInfo, Coin, Cw721Config, Env, Expiration, MessageInfo, NftInfo,
};

fn env_at(height: u64, time: u64) -> Env {
    Env {
        block: BlockInfo { height, time, chain_id: "test-1".to_string() },
        contract_address: "registry".to_string(),
    }
}

fn from(sender: &str) -> MessageInfo {
    MessageInfo { sender: sender.to_string(), funds: vec![] }
}

fn addr(text: &str) -> Address {
    Address { text: text.to_string(), well_formed: true }
}

fn malformed(text: &str) -> Address {
    Address { text: text.to_string(), well_formed: false }
}

fn attr(key: &str, value: &str) -> EventAttribute {
    EventAttribute { key: key.to_string(), value: value.to_string() }
}

/// A registry with `minter` as minter and `creator` as creator.
fn registry(minter: &str, creator: &str) -> Cw721Config {
    let msg = Cw721InstantiateMsg {
        name: "Stars".to_string(),
        symbol: "STAR".to_string(),
        collection_info_extension: vec![],
        minter: Some(addr(minter)),
        creator: Some(addr(creator)),
        withdraw_address: None,
    };
    instantiate(&env_at(1, 1_000), &from("deployer"), msg).unwrap().0
}

fn count(state: &Cw721Config) -> u64 {
    query_num_tokens(state).unwrap().count
}

fn owner_of(state: &Cw721Config, id: &str) -> String {
    query_owner_of(state, &env_at(1, 1), id.to_string(), true).unwrap().owner
}

fn approvals(state: &Cw721Config, env: &Env, id: &str, include_expired: bool) -> Vec<Approval> {
    query_approvals(state, env, id.to_string(), include_expired).unwrap().approvals
}

#[test]
fn instantiate_names_minter_and_creator() {
    let msg = Cw721InstantiateMsg {
        name: "Stars".to_string(),
        symbol: "STAR".to_string(),
        collection_info_extension: vec![],
        minter: Some(addr("minnie")),
        creator: None,
        withdraw_address: Some(addr("vault")),
    };
    let (state, response) = instantiate(&env_at(7, 7_000), &from("deployer"), msg).unwrap();
    assert_eq!(state.minter.owner, Some("minnie".to_string()));
    assert_eq!(state.creator.owner, Some("deployer".to_string()));
    assert_eq!(state.minter.pending_owner, None);
    assert_eq!(state.collection_info.name, "Stars");
    assert_eq!(state.collection_info.symbol, "STAR");
    assert_eq!(state.collection_info.updated_at, 7_000);
    assert_eq!(query_withdraw_address(&state).unwrap(), Some("vault".to_string()));
    assert_eq!(count(&state), 0);
    assert_eq!(
        response,
        Response {
            messages: vec![],
            attributes: vec![attr("minter", "minnie"), attr("creator", "deployer")],
        }
    );
}

#[test]
fn instantiate_refuses_a_malformed_address() {
    let msg = Cw721InstantiateMsg {
        name: "Stars".to_string(),
        symbol: "STAR".to_string(),
        collection_info_extension: vec![],
        minter: None,
        creator: Some(malformed("???")),
        withdraw_address: None,
    };
    let refused = instantiate(&env_at(1, 1), &from("deployer"), msg);
    assert_eq!(refused.err(), Some(Cw721ContractError::InvalidInput));
}

#[test]
fn mint_creates_a_token() {
    let mut state = registry("minnie", "carl");
    let response = mint(
        &mut state,
        &env_at(2, 2),
        &from("minnie"),
        "sun".to_string(),
        addr("alice"),
        Some("ipfs://sun".to_string()),
    )
    .unwrap();
    assert_eq!(
        response,
        Response {
            messages: vec![],
            attributes: vec![
                attr("action", "mint"),
                attr("minter", "minnie"),
                attr("owner", "alice"),
                attr("token_id", "sun"),
            ],
        }
    );
    assert_eq!(count(&state), 1);
    assert_eq!(
        state.nft_info.get(&"sun".to_string()),
        Some(&NftInfo {
            owner: "alice".to_string(),
            approvals: vec![],
            token_uri: Some("ipfs://sun".to_string()),
            extension: None,
        })
    );
}

#[test]
fn minting_an_id_twice_fails_and_keeps_the_count() {
    let mut state = registry("minnie", "carl");
    mint(&mut state, &env_at(2, 2), &from("minnie"), "sun".to_string(), addr("alice"), None).unwrap();
    assert_eq!(count(&state), 1);
    let second =
        mint(&mut state, &env_at(3, 3), &from("minnie"), "sun".to_string(), addr("bob"), None);
    assert_eq!(second, Err(Cw721ContractError::AlreadyExists));
    assert_eq!(count(&state), 1);
    assert_eq!(owner_of(&state, "sun"), "alice");
    // The id is tested before the owner's address is.
    let third =
        mint(&mut state, &env_at(3, 3), &from("minnie"), "sun".to_string(), malformed("?"), None);
    assert_eq!(third, Err(Cw721ContractError::AlreadyExists));
    // Who is not the minter is told nothing of the id.
    let fourth =
        mint(&mut state, &env_at(3, 3), &from("mallory"), "sun".to_string(), addr("bob"), None);
    assert_eq!(fourth, Err(Cw721ContractError::Unauthorized));
    assert_eq!(count(&state), 1);
    assert_eq!(owner_of(&state, "sun"), "alice");
}

#[test]
fn mint_is_for_the_minter_alone() {
    let mut state = registry("minnie", "carl");
    let refused =
        mint(&mut state, &env_at(2, 2), &from("carl"), "sun".to_string(), addr("alice"), None);
    assert_eq!(refused, Err(Cw721ContractError::Unauthorized));
    assert_eq!(count(&state), 0);
}

#[test]
fn mint_refuses_a_malformed_owner() {
    let mut state = registry("minnie", "carl");
    let refused =
        mint(&mut state, &env_at(2, 2), &from("minnie"), "sun".to_string(), malformed("A!"), None);
    assert_eq!(refused, Err(Cw721ContractError::InvalidInput));
    assert_eq!(count(&state), 0);
    assert_eq!(
        query_nft_info(&state, "sun".to_string()).err(),
        Some(Cw721ContractError::NotFound)
    );
}

fn with_tokens() -> Cw721Config {
    let mut state = registry("minnie", "carl");
    for (id, owner) in [("sun", "alice"), ("moon", "alice"), ("mars", "bob")] {
        mint(&mut state, &env_at(2, 2), &from("minnie"), id.to_string(), addr(owner), None).unwrap();
    }
    state
}

#[test]
fn transfer_by_the_owner_moves_the_token() {
    let mut state = with_tokens();
    let response =
        transfer_nft(&mut state, &env_at(5, 5), &from("alice"), addr("dave"), "sun".to_string())
            .unwrap();
    assert_eq!(
        response.attributes,
        vec![
            attr("action", "transfer_nft"),
            attr("sender", "alice"),
            attr("recipient", "dave"),
            attr("token_id", "sun"),
        ]
    );
    assert!(response.messages.is_empty());
    assert_eq!(owner_of(&state, "sun"), "dave");
    assert_eq!(owner_of(&state, "moon"), "alice");
    assert_eq!(count(&state), 3);
}

#[test]
fn transfer_of_an_unknown_token_is_not_found() {
    let mut state = with_tokens();
    let refused =
        transfer_nft(&mut state, &env_at(5, 5), &from("alice"), addr("dave"), "pluto".to_string());
    assert_eq!(refused, Err(Cw721ContractError::NotFound));
    // Existence is tested before the caller is.
    let refused =
        transfer_nft(&mut state, &env_at(5, 5), &from("mallory"), addr("dave"), "pluto".to_string());
    assert_eq!(refused, Err(Cw721ContractError::NotFound));
}

#[test]
fn transfer_by_a_stranger_is_unauthorized() {
    let mut state = with_tokens();
    let refused =
        transfer_nft(&mut state, &env_at(5, 5), &from("mallory"), addr("mallory"), "sun".to_string());
    assert_eq!(refused, Err(Cw721ContractError::Unauthorized));
    assert_eq!(owner_of(&state, "sun"), "alice");
    // The minter has no say over a token once it is minted.
    let refused =
        transfer_nft(&mut state, &env_at(5, 5), &from("minnie"), addr("minnie"), "sun".to_string());
    assert_eq!(refused, Err(Cw721ContractError::Unauthorized));
}

#[test]
fn transfer_refuses_a_malformed_recipient() {
    let mut state = with_tokens();
    let refused =
        transfer_nft(&mut state, &env_at(5, 5), &from("alice"), malformed("D"), "sun".to_string());
    assert_eq!(refused, Err(Cw721ContractError::InvalidInput));
    assert_eq!(owner_of(&state, "sun"), "alice");
    // The caller is tested before the recipient is.
    let refused =
        transfer_nft(&mut state, &env_at(5, 5), &from("mallory"), malformed("D"), "sun".to_string());
    assert_eq!(refused, Err(Cw721ContractError::Unauthorized));
}

#[test]
fn an_approved_spender_can_transfer_until_the_approval_lapses() {
    let mut state = with_tokens();
    approve(
        &mut state,
        &env_at(5, 5),
        &from("alice"),
        addr("sam"),
        "sun".to_string(),
        Some(Expiration::AtHeight(10)),
    )
    .unwrap();
    approve(
        &mut state,
        &env_at(5, 5),
        &from("alice"),
        addr("sam"),
        "moon".to_string(),
        Some(Expiration::AtHeight(10)),
    )
    .unwrap();
    // In block 9 the approval stands.
    transfer_nft(&mut state, &env_at(9, 9), &from("sam"), addr("dave"), "sun".to_string()).unwrap();
    assert_eq!(owner_of(&state, "sun"), "dave");
    // In block 10 it has lapsed.
    let late =
        transfer_nft(&mut state, &env_at(10, 10), &from("sam"), addr("dave"), "moon".to_string());
    assert_eq!(late, Err(Cw721ContractError::Expired));
    assert_eq!(owner_of(&state, "moon"), "alice");
}

#[test]
fn a_transfer_clears_the_approvals() {
    let mut state = with_tokens();
    approve(&mut state, &env_at(5, 5), &from("alice"), addr("sam"), "sun".to_string(), None).unwrap();
    approve(
        &mut state,
        &env_at(5, 5),
        &from("alice"),
        addr("tom"),
        "sun".to_string(),
        Some(Expiration::AtTime(8)),
    )
    .unwrap();
    assert_eq!(approvals(&state, &env_at(6, 6), "sun", true).len(), 2);
    transfer_nft(&mut state, &env_at(6, 6), &from("alice"), addr("dave"), "sun".to_string()).unwrap();
    assert_eq!(approvals(&state, &env_at(6, 6), "sun", true), vec![]);
    assert_eq!(approvals(&state, &env_at(6, 6), "sun", false), vec![]);
    // The spender of before has nothing left to act on.
    let refused =
        transfer_nft(&mut state, &env_at(6, 6), &from("sam"), addr("sam"), "sun".to_string());
    assert_eq!(refused, Err(Cw721ContractError::Unauthorized));
}

#[test]
fn an_operator_can_transfer_every_token_of_the_owner() {
    let mut state = with_tokens();
    let response = approve_all(
        &mut state,
        &env_at(5, 5),
        &from("alice"),
        addr("olga"),
        Some(Expiration::AtTime(100)),
    )
    .unwrap();
    assert_eq!(
        response.attributes,
        vec![attr("action", "approve_all"), attr("sender", "alice"), attr("operator", "olga")]
    );
    transfer_nft(&mut state, &env_at(6, 99), &from("olga"), addr("dave"), "sun".to_string()).unwrap();
    assert_eq!(owner_of(&state, "sun"), "dave");
    // The grant is alice's: it does not reach bob's token, nor the one that is dave's now.
    let refused =
        transfer_nft(&mut state, &env_at(6, 99), &from("olga"), addr("olga"), "mars".to_string());
    assert_eq!(refused, Err(Cw721ContractError::Unauthorized));
    let refused =
        transfer_nft(&mut state, &env_at(6, 99), &from("olga"), addr("olga"), "sun".to_string());
    assert_eq!(refused, Err(Cw721ContractError::Unauthorized));
    // At time 100 the grant has lapsed.
    let late =
        transfer_nft(&mut state, &env_at(7, 100), &from("olga"), addr("dave"), "moon".to_string());
    assert_eq!(late, Err(Cw721ContractError::Expired));
    assert_eq!(owner_of(&state, "moon"), "alice");
}

#[test]
fn revoke_all_takes_the_grant_back() {
    let mut state = with_tokens();
    approve_all(&mut state, &env_at(5, 5), &from("alice"), addr("olga"), None).unwrap();
    let response = revoke_all(&mut state, &env_at(6, 6), &from("alice"), addr("olga")).unwrap();
    assert_eq!(
        response.attributes,
        vec![attr("action", "revoke_all"), attr("sender", "alice"), attr("operator", "olga")]
    );
    let refused =
        transfer_nft(&mut state, &env_at(7, 7), &from("olga"), addr("olga"), "sun".to_string());
    assert_eq!(refused, Err(Cw721ContractError::Unauthorized));
    // Taking back what was never given changes nothing and is no error.
    revoke_all(&mut state, &env_at(6, 6), &from("alice"), addr("nobody")).unwrap();
}

#[test]
fn approve_all_keeps_a_grant_whatever_its_expiration() {
    let mut state = with_tokens();
    let env = env_at(5, 50);
    // A grant whose expiration has been reached is kept, and moves nothing.
    approve_all(&mut state, &env, &from("alice"), addr("olga"), Some(Expiration::AtHeight(5)))
        .unwrap();
    approve_all(&mut state, &env, &from("alice"), addr("otto"), Some(Expiration::AtTime(50)))
        .unwrap();
    assert_eq!(
        state.operators.get(&OperatorKey { owner: "alice".to_string(), operator: "olga".to_string() }),
        Some(&Expiration::AtHeight(5))
    );
    assert_eq!(
        state.operators.get(&OperatorKey { owner: "alice".to_string(), operator: "otto".to_string() }),
        Some(&Expiration::AtTime(50))
    );
    for operator in ["olga", "otto"] {
        assert_eq!(
            transfer_nft(&mut state, &env, &from(operator), addr("dave"), "sun".to_string()),
            Err(Cw721ContractError::Expired)
        );
    }
    assert_eq!(owner_of(&state, "sun"), "alice");
    assert_eq!(
        approve_all(&mut state, &env, &from("alice"), malformed("O"), None),
        Err(Cw721ContractError::InvalidInput)
    );
    assert_eq!(
        revoke_all(&mut state, &env, &from("alice"), malformed("O")),
        Err(Cw721ContractError::InvalidInput)
    );
    // A new grant takes the place of the lapsed one.
    approve_all(&mut state, &env, &from("alice"), addr("olga"), Some(Expiration::AtHeight(6)))
        .unwrap();
    assert_eq!(state.operators.len(), 2);
    transfer_nft(&mut state, &env, &from("olga"), addr("dave"), "sun".to_string()).unwrap();
    assert_eq!(owner_of(&state, "sun"), "dave");
}

#[test]
fn approve_replaces_the_approval_of_the_spender() {
    let mut state = with_tokens();
    let env = env_at(5, 5);
    let response = approve(
        &mut state,
        &env,
        &from("alice"),
        addr("sam"),
        "sun".to_string(),
        Some(Expiration::AtHeight(10)),
    )
    .unwrap();
    assert_eq!(
        response.attributes,
        vec![
            attr("action", "approve"),
            attr("sender", "alice"),
            attr("spender", "sam"),
            attr("token_id", "sun"),
        ]
    );
    approve(&mut state, &env, &from("alice"), addr("tom"), "sun".to_string(), None).unwrap();
    approve(
        &mut state,
        &env,
        &from("alice"),
        addr("sam"),
        "sun".to_string(),
        Some(Expiration::AtHeight(20)),
    )
    .unwrap();
    assert_eq!(
        approvals(&state, &env, "sun", true),
        vec![
            Approval { spender: "tom".to_string(), expires: Expiration::Never },
            Approval { spender: "sam".to_string(), expires: Expiration::AtHeight(20) },
        ]
    );
}

#[test]
fn approve_is_for_the_owner_and_the_operators() {
    let mut state = with_tokens();
    let env = env_at(5, 5);
    assert_eq!(
        approve(&mut state, &env, &from("mallory"), addr("sam"), "sun".to_string(), None),
        Err(Cw721ContractError::Unauthorized)
    );
    assert_eq!(
        approve(&mut state, &env, &from("alice"), addr("sam"), "pluto".to_string(), None),
        Err(Cw721ContractError::NotFound)
    );
    assert_eq!(
        approve(&mut state, &env, &from("alice"), malformed("S"), "sun".to_string(), None),
        Err(Cw721ContractError::InvalidInput)
    );
    // An approval whose expiration has been reached is kept, and moves nothing.
    approve(
        &mut state,
        &env,
        &from("alice"),
        addr("sam"),
        "sun".to_string(),
        Some(Expiration::AtHeight(5)),
    )
    .unwrap();
    assert_eq!(
        approvals(&state, &env, "sun", true),
        vec![Approval { spender: "sam".to_string(), expires: Expiration::AtHeight(5) }]
    );
    assert_eq!(approvals(&state, &env, "sun", false), vec![]);
    assert_eq!(
        transfer_nft(&mut state, &env, &from("sam"), addr("sam"), "sun".to_string()),
        Err(Cw721ContractError::Expired)
    );
    // A spender cannot hand the approval on.
    approve(&mut state, &env, &from("alice"), addr("sam"), "sun".to_string(), None).unwrap();
    assert_eq!(
        approve(&mut state, &env, &from("sam"), addr("tom"), "sun".to_string(), None),
        Err(Cw721ContractError::Unauthorized)
    );
    // An operator can approve, while the grant stands.
    approve_all(&mut state, &env, &from("alice"), addr("olga"), Some(Expiration::AtHeight(8)))
        .unwrap();
    approve(&mut state, &env_at(7, 7), &from("olga"), addr("tom"), "sun".to_string(), None).unwrap();
    assert_eq!(
        approve(&mut state, &env_at(8, 8), &from("olga"), addr("uma"), "sun".to_string(), None),
        Err(Cw721ContractError::Unauthorized)
    );
    assert_eq!(approvals(&state, &env, "sun", true).len(), 2);
}

#[test]
fn revoke_takes_the_approval_back() {
    let mut state = with_tokens();
    let env = env_at(5, 5);
    approve(&mut state, &env, &from("alice"), addr("sam"), "sun".to_string(), None).unwrap();
    approve(&mut state, &env, &from("alice"), addr("tom"), "sun".to_string(), None).unwrap();
    assert_eq!(
        revoke(&mut state, &env, &from("mallory"), addr("sam"), "sun".to_string()),
        Err(Cw721ContractError::Unauthorized)
    );
    assert_eq!(
        revoke(&mut state, &env, &from("alice"), addr("sam"), "pluto".to_string()),
        Err(Cw721ContractError::NotFound)
    );
    assert_eq!(
        revoke(&mut state, &env, &from("alice"), malformed("S"), "sun".to_string()),
        Err(Cw721ContractError::InvalidInput)
    );
    let response = revoke(&mut state, &env, &from("alice"), addr("sam"), "sun".to_string()).unwrap();
    assert_eq!(
        response.attributes,
        vec![
            attr("action", "revoke"),
            attr("sender", "alice"),
            attr("spender", "sam"),
            attr("token_id", "sun"),
        ]
    );
    assert_eq!(
        approvals(&state, &env, "sun", true),
        vec![Approval { spender: "tom".to_string(), expires: Expiration::Never }]
    );
    assert_eq!(
        transfer_nft(&mut state, &env, &from("sam"), addr("sam"), "sun".to_string()),
        Err(Cw721ContractError::Unauthorized)
    );
}

#[test]
fn send_moves_the_token_and_tells_the_contract() {
    let mut state = with_tokens();
    let response = send_nft(
        &mut state,
        &env_at(5, 5),
        &from("alice"),
        addr("market"),
        "sun".to_string(),
        vec![1, 2, 3],
    )
    .unwrap();
    assert_eq!(
        response,
        Response {
            messages: vec![HostMsg::ReceiveNft {
                contract: "market".to_string(),
                sender: "alice".to_string(),
                token_id: "sun".to_string(),
                msg: vec![1, 2, 3],
            }],
            attributes: vec![
                attr("action", "send_nft"),
                attr("sender", "alice"),
                attr("recipient", "market"),
                attr("token_id", "sun"),
            ],
        }
    );
    assert_eq!(owner_of(&state, "sun"), "market");
    assert_eq!(
        send_nft(&mut state, &env_at(5, 5), &from("alice"), addr("market"), "sun".to_string(), vec![]),
        Err(Cw721ContractError::Unauthorized)
    );
    assert_eq!(
        send_nft(&mut state, &env_at(5, 5), &from("alice"), addr("market"), "pluto".to_string(), vec![]),
        Err(Cw721ContractError::NotFound)
    );
    assert_eq!(
        send_nft(&mut state, &env_at(5, 5), &from("alice"), malformed("M"), "moon".to_string(), vec![]),
        Err(Cw721ContractError::InvalidInput)
    );
}

#[test]
fn burn_removes_one_token_and_leaves_the_others() {
    let mut state = with_tokens();
    let env = env_at(5, 5);
    approve(&mut state, &env, &from("alice"), addr("sam"), "moon".to_string(), None).unwrap();
    let moon_before = query_owner_of(&state, &env, "moon".to_string(), true).unwrap();
    let mars_before = query_owner_of(&state, &env, "mars".to_string(), true).unwrap();
    let response = burn_nft(&mut state, &env, &from("alice"), "sun".to_string()).unwrap();
    assert_eq!(
        response,
        Response {
            messages: vec![],
            attributes: vec![attr("action", "burn"), attr("sender", "alice"), attr("token_id", "sun")],
        }
    );
    assert_eq!(
        query_nft_info(&state, "sun".to_string()).err(),
        Some(Cw721ContractError::NotFound)
    );
    assert_eq!(count(&state), 2);
    assert_eq!(query_owner_of(&state, &env, "moon".to_string(), true).unwrap(), moon_before);
    assert_eq!(query_owner_of(&state, &env, "mars".to_string(), true).unwrap(), mars_before);
    // A second burn finds nothing.
    assert_eq!(
        burn_nft(&mut state, &env, &from("alice"), "sun".to_string()),
        Err(Cw721ContractError::NotFound)
    );
    assert_eq!(count(&state), 2);
}

#[test]
fn burn_is_for_those_who_can_send() {
    let mut state = with_tokens();
    let env = env_at(5, 5);
    assert_eq!(
        burn_nft(&mut state, &env, &from("mallory"), "sun".to_string()),
        Err(Cw721ContractError::Unauthorized)
    );
    approve(
        &mut state,
        &env,
        &from("alice"),
        addr("sam"),
        "sun".to_string(),
        Some(Expiration::AtHeight(6)),
    )
    .unwrap();
    assert_eq!(
        burn_nft(&mut state, &env_at(6, 6), &from("sam"), "sun".to_string()),
        Err(Cw721ContractError::Expired)
    );
    assert_eq!(count(&state), 3);
    burn_nft(&mut state, &env, &from("sam"), "sun".to_string()).unwrap();
    assert_eq!(count(&state), 2);
}

#[test]
fn a_burned_id_is_not_given_out_again() {
    let mut state = with_tokens();
    burn_nft(&mut state, &env_at(5, 5), &from("alice"), "sun".to_string()).unwrap();
    let again =
        mint(&mut state, &env_at(6, 6), &from("minnie"), "sun".to_string(), addr("alice"), None);
    assert_eq!(again, Err(Cw721ContractError::AlreadyExists));
    assert_eq!(count(&state), 2);
}

#[test]
fn check_can_send_tells_lapsed_from_missing() {
    let mut state = with_tokens();
    let env = env_at(5, 5);
    approve(
        &mut state,
        &env,
        &from("alice"),
        addr("sam"),
        "sun".to_string(),
        Some(Expiration::AtHeight(7)),
    )
    .unwrap();
    let token = state.nft_info.get(&"sun".to_string()).unwrap();
    assert_eq!(check_can_send(&state, &env, &"alice".to_string(), token), Ok(()));
    assert_eq!(check_can_send(&state, &env, &"sam".to_string(), token), Ok(()));
    assert_eq!(
        check_can_send(&state, &env_at(7, 5), &"sam".to_string(), token),
        Err(Cw721ContractError::Expired)
    );
    assert_eq!(
        check_can_send(&state, &env, &"tom".to_string(), token),
        Err(Cw721ContractError::Unauthorized)
    );
    assert!(check_can_approve(&state, &env, &"alice".to_string(), token));
    assert!(!check_can_approve(&state, &env, &"sam".to_string(), token));
}

#[test]
fn the_creator_replaces_the_uri() {
    let mut state = with_tokens();
    let env = env_at(5, 5);
    approve(&mut state, &env, &from("alice"), addr("sam"), "sun".to_string(), None).unwrap();
    let response = update_nft_info(
        &mut state,
        &env,
        &from("carl"),
        "sun".to_string(),
        Some("ipfs://new".to_string()),
    )
    .unwrap();
    assert_eq!(
        response.attributes,
        vec![attr("action", "update_nft_info"), attr("token_id", "sun")]
    );
    assert_eq!(
        state.nft_info.get(&"sun".to_string()),
        Some(&NftInfo {
            owner: "alice".to_string(),
            approvals: vec![Approval { spender: "sam".to_string(), expires: Expiration::Never }],
            token_uri: Some("ipfs://new".to_string()),
            extension: None,
        })
    );
    update_nft_info(&mut state, &env, &from("carl"), "sun".to_string(), None).unwrap();
    assert_eq!(query_nft_info(&state, "sun".to_string()).unwrap().token_uri, None);
    assert_eq!(
        update_nft_info(&mut state, &env, &from("alice"), "sun".to_string(), None),
        Err(Cw721ContractError::Unauthorized)
    );
    assert_eq!(
        update_nft_info(&mut state, &env, &from("minnie"), "sun".to_string(), None),
        Err(Cw721ContractError::Unauthorized)
    );
    assert_eq!(
        update_nft_info(&mut state, &env, &from("carl"), "pluto".to_string(), None),
        Err(Cw721ContractError::NotFound)
    );
    // Existence is tested before the caller is.
    assert_eq!(
        update_nft_info(&mut state, &env, &from("alice"), "pluto".to_string(), None),
        Err(Cw721ContractError::NotFound)
    );
}

#[test]
fn the_withdraw_address_is_the_creators_to_set() {
    let mut state = registry("minnie", "carl");
    let carl = "carl".to_string();
    let minnie = "minnie".to_string();
    assert_eq!(
        set_withdraw_address(&mut state, &minnie, addr("vault")),
        Err(Cw721ContractError::Unauthorized)
    );
    assert_eq!(
        set_withdraw_address(&mut state, &carl, malformed("V")),
        Err(Cw721ContractError::InvalidInput)
    );
    // Where no address is set there is nothing to clear, and that is no fault.
    let response = remove_withdraw_address(&mut state, &carl).unwrap();
    assert_eq!(response.attributes, vec![attr("action", "remove_withdraw_address")]);
    assert_eq!(query_withdraw_address(&state).unwrap(), None);
    let response = set_withdraw_address(&mut state, &carl, addr("vault")).unwrap();
    assert_eq!(
        response.attributes,
        vec![attr("action", "set_withdraw_address"), attr("address", "vault")]
    );
    assert_eq!(query_withdraw_address(&state).unwrap(), Some("vault".to_string()));
    assert_eq!(
        remove_withdraw_address(&mut state, &minnie),
        Err(Cw721ContractError::Unauthorized)
    );
    let response = remove_withdraw_address(&mut state, &carl).unwrap();
    assert_eq!(
        response.attributes,
        vec![attr("action", "remove_withdraw_address"), attr("address", "vault")]
    );
    assert_eq!(query_withdraw_address(&state).unwrap(), None);
}

#[test]
fn funds_are_paid_out_to_the_withdraw_address() {
    let mut state = registry("minnie", "carl");
    let carl = "carl".to_string();
    let coin = Coin { denom: "ustars".to_string(), amount: 250 };
    assert_eq!(withdraw_funds(&state, &carl, &coin), Err(Cw721ContractError::InvalidInput));
    set_withdraw_address(&mut state, &carl, addr("vault")).unwrap();
    assert_eq!(
        withdraw_funds(&state, &"minnie".to_string(), &coin),
        Err(Cw721ContractError::Unauthorized)
    );
    assert_eq!(
        withdraw_funds(&state, &carl, &Coin { denom: "ustars".to_string(), amount: 0 }),
        Err(Cw721ContractError::InvalidInput)
    );
    assert_eq!(
        withdraw_funds(&state, &carl, &coin),
        Ok(Response {
            messages: vec![HostMsg::Send {
                to_address: "vault".to_string(),
                amount: Coin { denom: "ustars".to_string(), amount: 250 },
            }],
            attributes: vec![
                attr("action", "withdraw_funds"),
                attr("address", "vault"),
                attr("denom", "ustars"),
            ],
        })
    );
}

#[test]
fn the_minter_role_changes_hands() {
    let mut state = registry("minnie", "carl");
    let offer = Action::TransferOwnership {
        new_owner: addr("nora"),
        expiry: Some(Expiration::AtHeight(20)),
    };
    let response = update_minter_ownership(&mut state, &env_at(5, 5), &from("minnie"), offer).unwrap();
    assert_eq!(
        response.attributes,
        vec![
            attr("update_minter_ownership", "minnie"),
            attr("owner", "minnie"),
            attr("pending_owner", "nora"),
            attr("pending_expiry", "expiration height: 20"),
        ]
    );
    // Until nora accepts, minnie is the minter.
    mint(&mut state, &env_at(6, 6), &from("minnie"), "sun".to_string(), addr("alice"), None).unwrap();
    assert_eq!(
        mint(&mut state, &env_at(6, 6), &from("nora"), "moon".to_string(), addr("alice"), None),
        Err(Cw721ContractError::Unauthorized)
    );
    let response =
        update_minter_ownership(&mut state, &env_at(19, 19), &from("nora"), Action::AcceptOwnership)
            .unwrap();
    assert_eq!(
        response.attributes,
        vec![
            attr("update_minter_ownership", "nora"),
            attr("owner", "nora"),
            attr("pending_owner", "none"),
            attr("pending_expiry", "none"),
        ]
    );
    mint(&mut state, &env_at(20, 20), &from("nora"), "moon".to_string(), addr("alice"), None).unwrap();
    assert_eq!(
        mint(&mut state, &env_at(20, 20), &from("minnie"), "mars".to_string(), addr("alice"), None),
        Err(Cw721ContractError::Unauthorized)
    );
    // The creator's role is another matter.
    assert_eq!(state.creator.owner, Some("carl".to_string()));
}

#[test]
fn a_late_acceptance_is_refused_and_the_holder_stays() {
    let mut state = registry("minnie", "carl");
    let offer =
        Action::TransferOwnership { new_owner: addr("nora"), expiry: Some(Expiration::AtHeight(20)) };
    update_creator_ownership(&mut state, &env_at(5, 5), &from("carl"), offer).unwrap();
    let late =
        update_creator_ownership(&mut state, &env_at(20, 20), &from("nora"), Action::AcceptOwnership);
    assert_eq!(late, Err(Cw721ContractError::Expired));
    assert_eq!(state.creator.owner, Some("carl".to_string()));
    assert_eq!(
        update_nft_info(&mut state, &env_at(21, 21), &from("nora"), "sun".to_string(), None),
        Err(Cw721ContractError::NotFound)
    );
    set_withdraw_address(&mut state, &"carl".to_string(), addr("vault")).unwrap();
    assert_eq!(
        set_withdraw_address(&mut state, &"nora".to_string(), addr("vault")),
        Err(Cw721ContractError::Unauthorized)
    );
}

#[test]
fn a_renounced_role_is_nobodys() {
    let mut state = registry("minnie", "carl");
    let response =
        update_minter_ownership(&mut state, &env_at(5, 5), &from("minnie"), Action::RenounceOwnership)
            .unwrap();
    assert_eq!(
        response.attributes,
        vec![
            attr("update_minter_ownership", "minnie"),
            attr("owner", "none"),
            attr("pending_owner", "none"),
            attr("pending_expiry", "none"),
        ]
    );
    assert_eq!(state.minter.owner, None);
    for caller in ["minnie", "carl", "alice"] {
        assert_eq!(
            mint(&mut state, &env_at(6, 6), &from(caller), "sun".to_string(), addr("alice"), None),
            Err(Cw721ContractError::Unauthorized)
        );
    }
}
