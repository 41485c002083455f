use cw721::error::Cw721ContractError;
use cw721::execute::{approve, approve_all, burn_nft, instantiate, mint, transfer_nft};
use cw721::msg::{
    AllInfoResponse, AllNftInfoResponse, ApprovalResponse, CollectionInfoAndExtensionResponse,
    ConfigResponse, Cw721InstantiateMsg, MinterResponse, NftInfoResponse, OperatorResponse,
    OwnerOfResponse, TokensResponse,
};
use cw721::paging::{effective_limit, DEFAULT_LIMIT, MAX_LIMIT};
use cw721::query::{
    query_all_info, query_all_nft_info, query_all_tokens, query_approval, query_approvals,
    query_collection_extension_attributes, query_collection_info,
    query_collection_info_and_extension, query_config, query_creator_ownership, query_minter,
    query_minter_ownership, query_nft_info, query_num_tokens, query_operator, query_operators,
    query_owner_of, query_tokens, shown_approvals,
};
use cw721::state::{
    Address, Approval, Attribute, BlockInfo, CollectionInfo, Cw721Config, Env, Expiration,
    MessageInfo, Ownership,
};

fn env_at(height: u64, time: u64) -> Env {
    Env {
        block: BlockInfo { height, time, chain_id: "test-1".to_string() },
        contract_address: "registry".to_string(),
    }
}

fn from(sender: &str) -> MessageInfo {
    MessageInfo { sender: sender.to_string(), funds: vec![] }
}

fn addr(text: &str) -> Address {
    Address { text: text.to_string(), well_formed: true }
}

fn malformed(text: &str) -> Address {
    Address { text: text.to_string(), well_formed: false }
}

fn registry() -> Cw721Config {
    let msg = Cw721InstantiateMsg {
        name: "Stars".to_string(),
        symbol: "STAR".to_string(),
        collection_info_extension: vec![Attribute { key: "description".to_string(), value: vec![34, 97, 34] }],
        minter: Some(addr("minnie")),
        creator: Some(addr("carl")),
        withdraw_address: None,
    };
    instantiate(&env_at(1, 1_000), &from("deployer"), msg).unwrap().0
}

fn with_tokens(ids: &[(&str, &str)]) -> Cw721Config {
    let mut state = registry();
    for (id, owner) in ids {
        mint(&mut state, &env_at(2, 2), &from("minnie"), id.to_string(), addr(owner), None).unwrap();
    }
    state
}

fn ids(page: TokensResponse) -> Vec<String> {
    page.tokens
}

fn all(state: &Cw721Config, start_after: Option<&str>, limit: Option<u32>) -> Vec<String> {
    ids(query_all_tokens(state, &env_at(3, 3), start_after.map(|s| s.to_string()), limit).unwrap())
}

#[test]
fn the_page_size_is_clamped() {
    assert_eq!(DEFAULT_LIMIT, 10);
    assert_eq!(MAX_LIMIT, 1000);
    assert_eq!(effective_limit(None), 10);
    assert_eq!(effective_limit(Some(0)), 0);
    assert_eq!(effective_limit(Some(3)), 3);
    assert_eq!(effective_limit(Some(1000)), 1000);
    assert_eq!(effective_limit(Some(1001)), 1000);
    assert_eq!(effective_limit(Some(u32::MAX)), 1000);
}

#[test]
fn all_tokens_come_in_ascending_order_whatever_the_order_of_minting() {
    let state = with_tokens(&[("d", "alice"), ("b", "bob"), ("a", "alice"), ("c", "bob"), ("B", "bob")]);
    assert_eq!(all(&state, None, None), vec!["B", "a", "b", "c", "d"]);
}

#[test]
fn ids_beyond_ascii_are_ordered_by_their_encoding() {
    let state = with_tokens(&[("é", "alice"), ("z", "alice"), ("日本", "bob"), ("a", "bob"), ("Z", "bob")]);
    assert_eq!(all(&state, None, None), vec!["Z", "a", "z", "é", "日本"]);
    assert_eq!(all(&state, Some("z"), Some(1)), vec!["é"]);
    assert_eq!(all(&state, Some("é"), None), vec!["日本"]);
}

#[test]
fn a_page_starts_after_the_cursor_and_holds_no_more_than_the_limit() {
    let state = with_tokens(&[("a", "x"), ("b", "x"), ("c", "x"), ("d", "x"), ("e", "x")]);
    assert_eq!(all(&state, None, Some(2)), vec!["a", "b"]);
    assert_eq!(all(&state, Some("b"), Some(2)), vec!["c", "d"]);
    assert_eq!(all(&state, Some("d"), Some(2)), vec!["e"]);
    assert_eq!(all(&state, Some("e"), Some(2)), Vec::<String>::new());
    assert_eq!(all(&state, Some("z"), None), Vec::<String>::new());
    // The cursor need not be an id that exists.
    assert_eq!(all(&state, Some("bb"), Some(2)), vec!["c", "d"]);
    assert_eq!(all(&state, Some(""), Some(1)), vec!["a"]);
    assert_eq!(all(&state, None, Some(0)), Vec::<String>::new());
}

#[test]
fn the_default_page_holds_ten_and_the_largest_a_thousand() {
    let mut state = registry();
    for i in 0..1005u32 {
        let id = format!("t{:04}", i);
        mint(&mut state, &env_at(2, 2), &from("minnie"), id, addr("alice"), None).unwrap();
    }
    assert_eq!(query_num_tokens(&state).unwrap().count, 1005);
    let first = all(&state, None, None);
    assert_eq!(first.len(), 10);
    assert_eq!(first[0], "t0000");
    assert_eq!(first[9], "t0009");
    let large = all(&state, None, Some(5000));
    assert_eq!(large.len(), 1000);
    assert_eq!(large[999], "t0999");
    let rest = all(&state, Some("t0999"), Some(5000));
    assert_eq!(rest, vec!["t1000", "t1001", "t1002", "t1003", "t1004"]);
}

#[test]
fn chained_pages_list_every_token_once() {
    let mut state = registry();
    let mut expected = Vec::new();
    for i in 0..23u32 {
        // Minted in an order that is not the order of the ids.
        let id = format!("id-{:02}", (i * 7) % 23);
        mint(&mut state, &env_at(2, 2), &from("minnie"), id.clone(), addr("alice"), None).unwrap();
        expected.push(id);
    }
    expected.sort();
    for limit in [1u32, 2, 5, 23, 40] {
        let mut seen: Vec<String> = Vec::new();
        let mut cursor: Option<String> = None;
        loop {
            let page = all(&state, cursor.as_deref(), Some(limit));
            assert!(page.len() <= limit as usize);
            if page.is_empty() {
                break;
            }
            cursor = page.last().cloned();
            seen.extend(page);
        }
        assert_eq!(seen, expected);
    }
}

#[test]
fn tokens_of_an_owner_come_page_by_page() {
    let mut state =
        with_tokens(&[("a", "alice"), ("b", "bob"), ("c", "alice"), ("d", "alice"), ("e", "bob")]);
    let env = env_at(3, 3);
    let of = |state: &Cw721Config, owner: &str, start: Option<&str>, limit: Option<u32>| {
        ids(query_tokens(state, &env, addr(owner), start.map(|s| s.to_string()), limit).unwrap())
    };
    assert_eq!(of(&state, "alice", None, None), vec!["a", "c", "d"]);
    assert_eq!(of(&state, "bob", None, None), vec!["b", "e"]);
    assert_eq!(of(&state, "alice", None, Some(2)), vec!["a", "c"]);
    assert_eq!(of(&state, "alice", Some("c"), Some(2)), vec!["d"]);
    assert_eq!(of(&state, "alice", Some("b"), Some(1)), vec!["c"]);
    assert_eq!(of(&state, "nobody", None, None), Vec::<String>::new());
    assert_eq!(
        query_tokens(&state, &env, malformed("A"), None, None).err(),
        Some(Cw721ContractError::InvalidInput)
    );
    transfer_nft(&mut state, &env, &from("alice"), addr("bob"), "c".to_string()).unwrap();
    assert_eq!(of(&state, "alice", None, None), vec!["a", "d"]);
    assert_eq!(of(&state, "bob", None, None), vec!["b", "c", "e"]);
    burn_nft(&mut state, &env, &from("bob"), "b".to_string()).unwrap();
    assert_eq!(of(&state, "bob", None, None), vec!["c", "e"]);
    assert_eq!(all(&state, None, None), vec!["a", "c", "d", "e"]);
}

#[test]
fn nft_info_tells_what_describes_the_token() {
    let mut state = registry();
    mint(
        &mut state,
        &env_at(2, 2),
        &from("minnie"),
        "sun".to_string(),
        addr("alice"),
        Some("ipfs://sun".to_string()),
    )
    .unwrap();
    assert_eq!(
        query_nft_info(&state, "sun".to_string()),
        Ok(NftInfoResponse { token_uri: Some("ipfs://sun".to_string()), extension: None })
    );
    assert_eq!(query_nft_info(&state, "moon".to_string()), Err(Cw721ContractError::NotFound));
    assert_eq!(query_nft_info(&state, "".to_string()), Err(Cw721ContractError::NotFound));
}

fn approved() -> Cw721Config {
    let mut state = with_tokens(&[("sun", "alice"), ("moon", "bob")]);
    let env = env_at(5, 500);
    for (spender, expires) in [
        ("sam", Expiration::AtHeight(10)),
        ("tom", Expiration::Never),
        ("uma", Expiration::AtTime(1_000)),
    ] {
        approve(&mut state, &env, &from("alice"), addr(spender), "sun".to_string(), Some(expires))
            .unwrap();
    }
    state
}

fn approval(spender: &str, expires: Expiration) -> Approval {
    Approval { spender: spender.to_string(), expires }
}

#[test]
fn a_lapsed_approval_is_left_out_unless_asked_for() {
    let state = approved();
    let everything = vec![
        approval("sam", Expiration::AtHeight(10)),
        approval("tom", Expiration::Never),
        approval("uma", Expiration::AtTime(1_000)),
    ];
    // In block 9 the approval to height 10 stands.
    let before = env_at(9, 999);
    assert_eq!(
        query_approvals(&state, &before, "sun".to_string(), false).unwrap().approvals,
        everything
    );
    // In block 10 it has lapsed; it is still kept.
    let at = env_at(10, 999);
    assert_eq!(
        query_approvals(&state, &at, "sun".to_string(), false).unwrap().approvals,
        vec![approval("tom", Expiration::Never), approval("uma", Expiration::AtTime(1_000))]
    );
    assert_eq!(query_approvals(&state, &at, "sun".to_string(), true).unwrap().approvals, everything);
    let later = env_at(11, 1_000);
    assert_eq!(
        query_approvals(&state, &later, "sun".to_string(), false).unwrap().approvals,
        vec![approval("tom", Expiration::Never)]
    );
    assert_eq!(
        query_approvals(&state, &later, "sun".to_string(), true).unwrap().approvals,
        everything
    );
    assert_eq!(
        query_approvals(&state, &later, "pluto".to_string(), true).err(),
        Some(Cw721ContractError::NotFound)
    );
    assert_eq!(state.nft_info.get(&"sun".to_string()).unwrap().approvals, everything);
}

#[test]
fn owner_of_shows_the_owner_and_the_approvals() {
    let state = approved();
    assert_eq!(
        query_owner_of(&state, &env_at(10, 0), "sun".to_string(), false),
        Ok(OwnerOfResponse {
            owner: "alice".to_string(),
            approvals: vec![
                approval("tom", Expiration::Never),
                approval("uma", Expiration::AtTime(1_000)),
            ],
        })
    );
    assert_eq!(
        query_owner_of(&state, &env_at(10, 0), "moon".to_string(), false),
        Ok(OwnerOfResponse { owner: "bob".to_string(), approvals: vec![] })
    );
    assert_eq!(
        query_owner_of(&state, &env_at(10, 0), "pluto".to_string(), false),
        Err(Cw721ContractError::NotFound)
    );
    assert_eq!(
        query_all_nft_info(&state, &env_at(0, 5_000), "sun".to_string(), false),
        Ok(AllNftInfoResponse {
            access: OwnerOfResponse {
                owner: "alice".to_string(),
                approvals: vec![
                    approval("sam", Expiration::AtHeight(10)),
                    approval("tom", Expiration::Never),
                ],
            },
            info: NftInfoResponse { token_uri: None, extension: None },
        })
    );
    assert_eq!(
        query_all_nft_info(&state, &env_at(0, 0), "pluto".to_string(), true).err(),
        Some(Cw721ContractError::NotFound)
    );
}

#[test]
fn shown_approvals_keeps_the_order() {
    let list = vec![
        approval("a", Expiration::AtHeight(3)),
        approval("b", Expiration::AtHeight(5)),
        approval("c", Expiration::AtHeight(4)),
    ];
    assert_eq!(shown_approvals(&list, &env_at(4, 0), true), list);
    assert_eq!(
        shown_approvals(&list, &env_at(4, 0), false),
        vec![approval("b", Expiration::AtHeight(5))]
    );
    assert_eq!(shown_approvals(&list, &env_at(9, 0), false), vec![]);
}

#[test]
fn approval_of_one_spender() {
    let state = approved();
    let env = env_at(10, 0);
    assert_eq!(
        query_approval(&state, &env, "sun".to_string(), addr("tom"), false),
        Ok(ApprovalResponse { approval: approval("tom", Expiration::Never) })
    );
    // The owner has every right over the token, for good.
    assert_eq!(
        query_approval(&state, &env, "sun".to_string(), addr("alice"), false),
        Ok(ApprovalResponse { approval: approval("alice", Expiration::Never) })
    );
    assert_eq!(
        query_approval(&state, &env, "sun".to_string(), addr("sam"), false),
        Err(Cw721ContractError::NotFound)
    );
    assert_eq!(
        query_approval(&state, &env, "sun".to_string(), addr("sam"), true),
        Ok(ApprovalResponse { approval: approval("sam", Expiration::AtHeight(10)) })
    );
    assert_eq!(
        query_approval(&state, &env, "sun".to_string(), addr("zed"), true),
        Err(Cw721ContractError::NotFound)
    );
    assert_eq!(
        query_approval(&state, &env, "pluto".to_string(), addr("sam"), true),
        Err(Cw721ContractError::NotFound)
    );
    assert_eq!(
        query_approval(&state, &env, "pluto".to_string(), malformed("S"), true),
        Err(Cw721ContractError::InvalidInput)
    );
}

fn with_operators() -> Cw721Config {
    let mut state = with_tokens(&[("sun", "alice")]);
    let env = env_at(5, 500);
    for (owner, operator, expires) in [
        ("alice", "op-d", Expiration::AtHeight(20)),
        ("bob", "op-b", Expiration::Never),
        ("alice", "op-a", Expiration::Never),
        ("alice", "op-c", Expiration::AtHeight(10)),
        ("alice", "op-b", Expiration::AtTime(1_000)),
        ("al", "op-z", Expiration::Never),
        ("alicf", "op-0", Expiration::Never),
    ] {
        approve_all(&mut state, &env, &from(owner), addr(operator), Some(expires)).unwrap();
    }
    state
}

#[test]
fn operator_of_one_owner() {
    let state = with_operators();
    let env = env_at(10, 0);
    assert_eq!(
        query_operator(&state, &env, addr("alice"), addr("op-a"), false),
        Ok(OperatorResponse { approval: approval("op-a", Expiration::Never) })
    );
    assert_eq!(
        query_operator(&state, &env, addr("alice"), addr("op-c"), false),
        Err(Cw721ContractError::NotFound)
    );
    assert_eq!(
        query_operator(&state, &env, addr("alice"), addr("op-c"), true),
        Ok(OperatorResponse { approval: approval("op-c", Expiration::AtHeight(10)) })
    );
    assert_eq!(
        query_operator(&state, &env, addr("bob"), addr("op-a"), true),
        Err(Cw721ContractError::NotFound)
    );
    assert_eq!(
        query_operator(&state, &env, malformed("A"), addr("op-a"), true),
        Err(Cw721ContractError::InvalidInput)
    );
    assert_eq!(
        query_operator(&state, &env, addr("alice"), malformed("O"), true),
        Err(Cw721ContractError::InvalidInput)
    );
}

#[test]
fn operators_come_page_by_page_in_the_order_of_their_addresses() {
    let state = with_operators();
    let list = |env: &Env, owner: &str, lapsed_too: bool, start: Option<&str>, limit: Option<u32>| {
        query_operators(&state, env, addr(owner), lapsed_too, start.map(addr), limit)
            .unwrap()
            .operators
    };
    let early = env_at(6, 600);
    assert_eq!(
        list(&early, "alice", false, None, None),
        vec![
            approval("op-a", Expiration::Never),
            approval("op-b", Expiration::AtTime(1_000)),
            approval("op-c", Expiration::AtHeight(10)),
            approval("op-d", Expiration::AtHeight(20)),
        ]
    );
    assert_eq!(list(&early, "bob", false, None, None), vec![approval("op-b", Expiration::Never)]);
    assert_eq!(list(&early, "al", false, None, None), vec![approval("op-z", Expiration::Never)]);
    assert_eq!(list(&early, "carol", true, None, None), vec![]);
    assert_eq!(
        list(&early, "alice", false, Some("op-a"), Some(2)),
        vec![approval("op-b", Expiration::AtTime(1_000)), approval("op-c", Expiration::AtHeight(10))]
    );
    assert_eq!(
        list(&early, "alice", false, Some("op-c"), Some(2)),
        vec![approval("op-d", Expiration::AtHeight(20))]
    );
    assert_eq!(list(&early, "alice", false, Some("op-d"), Some(2)), vec![]);
    // A lapsed grant is passed over and does not count towards the limit.
    let late = env_at(10, 1_000);
    assert_eq!(
        list(&late, "alice", false, None, Some(2)),
        vec![approval("op-a", Expiration::Never), approval("op-d", Expiration::AtHeight(20))]
    );
    assert_eq!(
        list(&late, "alice", true, None, Some(2)),
        vec![approval("op-a", Expiration::Never), approval("op-b", Expiration::AtTime(1_000))]
    );
    assert_eq!(
        query_operators(&state, &late, malformed("A"), true, None, None).err(),
        Some(Cw721ContractError::InvalidInput)
    );
    assert_eq!(
        query_operators(&state, &late, addr("alice"), true, Some(malformed("O")), None).err(),
        Some(Cw721ContractError::InvalidInput)
    );
}

#[test]
fn the_collection_is_told_of_in_several_ways() {
    let mut state = with_tokens(&[("sun", "alice"), ("moon", "bob")]);
    state.withdraw_address = Some("vault".to_string());
    let info = CollectionInfo {
        name: "Stars".to_string(),
        symbol: "STAR".to_string(),
        updated_at: 1_000,
    };
    let extension = vec![Attribute { key: "description".to_string(), value: vec![34, 97, 34] }];
    let held = |owner: &str| Ownership {
        owner: Some(owner.to_string()),
        pending_owner: None,
        pending_expiry: None,
    };
    assert_eq!(query_collection_info(&state), Ok(info.clone()));
    assert_eq!(query_collection_extension_attributes(&state), Ok(extension.clone()));
    assert_eq!(
        query_collection_info_and_extension(&state),
        Ok(CollectionInfoAndExtensionResponse {
            name: "Stars".to_string(),
            symbol: "STAR".to_string(),
            extension: extension.clone(),
            updated_at: 1_000,
        })
    );
    assert_eq!(
        query_config(&state, "registry".to_string()),
        Ok(ConfigResponse {
            num_tokens: 2,
            minter_ownership: held("minnie"),
            creator_ownership: held("carl"),
            withdraw_address: Some("vault".to_string()),
            collection_info: info.clone(),
            collection_extension: extension.clone(),
            contract_address: "registry".to_string(),
        })
    );
    assert_eq!(
        query_all_info(&state, &env_at(9, 9)),
        Ok(AllInfoResponse {
            contract_address: "registry".to_string(),
            collection_info: info,
            collection_extension: extension,
            num_tokens: 2,
        })
    );
    assert_eq!(query_minter(&state), Ok(MinterResponse { minter: Some("minnie".to_string()) }));
    assert_eq!(query_minter_ownership(&state), Ok(held("minnie")));
    assert_eq!(query_creator_ownership(&state), Ok(held("carl")));
}

#[test]
fn a_collection_without_extension_has_no_attributes() {
    let msg = Cw721InstantiateMsg {
        name: "Bare".to_string(),
        symbol: "B".to_string(),
        collection_info_extension: vec![],
        minter: None,
        creator: None,
        withdraw_address: None,
    };
    let (state, _) = instantiate(&env_at(1, 1), &from("deployer"), msg).unwrap();
    assert_eq!(query_collection_extension_attributes(&state), Ok(vec![]));
    assert_eq!(query_collection_info_and_extension(&state).unwrap().extension, vec![]);
    assert_eq!(query_config(&state, "r".to_string()).unwrap().withdraw_address, None);
}
