use cw721::error::Cw721ContractError;
use cw721::execute::{
    instantiate_from, instantiate_with, mint_token, mint_with, replace_nft_info,
    update_nft_info_with,
};
use cw721::extension::Cw721BaseExtensions;
use cw721::msg::{
    Cw721ExecuteMsg, Cw721InstantiateMsg, Cw721QueryMsg, MinterResponse, NftInfoResponse,
    NumTokensResponse, OwnerOfResponse, QueryResponse, TokensResponse,
};
use cw721::ownership::Action;
use cw721::response::{EventAttribute, HostMsg};
use cw721::state::{
    spenders_are_distinct, Address, Approval, Attribute, BlockInfo, Coin, Cw721Config, Empty, Env,
    Expiration, MessageInfo, NftInfo, Ownership,
};
use cw721::traits::{
    Cw721Execute, Cw721Query, FromAttributesState, StateFactory, ToAttributesState,
};

fn env_at(height: u64, time: u64) -> Env {
    Env {
        block: BlockInfo { height, time, chain_id: "test-1".to_string() },
        contract_address: "registry".to_string(),
    }
}

fn from(sender: &str) -> MessageInfo {
    MessageInfo { sender: sender.to_string(), funds: vec![] }
}

fn addr(text: &str) -> Address {
    Address { text: text.to_string(), well_formed: true }
}

fn attr(key: &str, value: &str) -> EventAttribute {
    EventAttribute { key: key.to_string(), value: value.to_string() }
}

fn registry() -> Cw721Config {
    let msg = Cw721InstantiateMsg {
        name: "Stars".to_string(),
        symbol: "STAR".to_string(),
        collection_info_extension: vec![],
        minter: Some(addr("minnie")),
        creator: Some(addr("carl")),
        withdraw_address: None,
    };
    Cw721BaseExtensions::default().instantiate(&env_at(1, 1), &from("deployer"), msg).unwrap().0
}

fn run(state: &mut Cw721Config, height: u64, sender: &str, msg: Cw721ExecuteMsg) -> Result<Vec<EventAttribute>, Cw721ContractError> {
    Cw721BaseExtensions::default()
        .execute(state, &env_at(height, height), &from(sender), msg)
        .map(|response| response.attributes)
}

fn ask(state: &Cw721Config, height: u64, msg: Cw721QueryMsg) -> Result<QueryResponse, Cw721ContractError> {
    Cw721BaseExtensions::default().query(state, &env_at(height, height), msg)
}

fn mint_msg(id: &str, owner: &str) -> Cw721ExecuteMsg {
    Cw721ExecuteMsg::Mint { token_id: id.to_string(), owner: addr(owner), token_uri: None }
}

#[test]
fn a_command_goes_to_the_operation_of_its_kind() {
    let mut state = registry();
    assert_eq!(
        run(&mut state, 2, "minnie", mint_msg("sun", "alice")),
        Ok(vec![
            attr("action", "mint"),
            attr("minter", "minnie"),
            attr("owner", "alice"),
            attr("token_id", "sun"),
        ])
    );
    run(&mut state, 2, "minnie", mint_msg("moon", "alice")).unwrap();
    assert_eq!(
        run(&mut state, 2, "alice", mint_msg("mars", "alice")),
        Err(Cw721ContractError::Unauthorized)
    );
    assert_eq!(
        run(
            &mut state,
            3,
            "alice",
            Cw721ExecuteMsg::Approve {
                spender: addr("sam"),
                token_id: "sun".to_string(),
                expires: Some(Expiration::AtHeight(9)),
            }
        )
        .unwrap()[0],
        attr("action", "approve")
    );
    assert_eq!(
        run(
            &mut state,
            3,
            "alice",
            Cw721ExecuteMsg::Revoke { spender: addr("sam"), token_id: "sun".to_string() }
        )
        .unwrap()[0],
        attr("action", "revoke")
    );
    assert_eq!(
        run(
            &mut state,
            3,
            "alice",
            Cw721ExecuteMsg::ApproveAll { operator: addr("olga"), expires: None }
        )
        .unwrap()[0],
        attr("action", "approve_all")
    );
    assert_eq!(
        run(
            &mut state,
            4,
            "olga",
            Cw721ExecuteMsg::TransferNft { recipient: addr("bob"), token_id: "sun".to_string() }
        )
        .unwrap()[0],
        attr("action", "transfer_nft")
    );
    assert_eq!(
        run(&mut state, 4, "alice", Cw721ExecuteMsg::RevokeAll { operator: addr("olga") }).unwrap()[0],
        attr("action", "revoke_all")
    );
    assert_eq!(
        run(
            &mut state,
            4,
            "olga",
            Cw721ExecuteMsg::TransferNft { recipient: addr("bob"), token_id: "moon".to_string() }
        ),
        Err(Cw721ContractError::Unauthorized)
    );
    assert_eq!(
        run(&mut state, 5, "bob", Cw721ExecuteMsg::Burn { token_id: "sun".to_string() }).unwrap()[0],
        attr("action", "burn")
    );
    assert_eq!(
        run(
            &mut state,
            5,
            "carl",
            Cw721ExecuteMsg::UpdateNftInfo {
                token_id: "moon".to_string(),
                token_uri: Some("ipfs://moon".to_string()),
            }
        )
        .unwrap()[0],
        attr("action", "update_nft_info")
    );
    assert_eq!(
        ask(&state, 6, Cw721QueryMsg::NftInfo { token_id: "moon".to_string() }),
        Ok(QueryResponse::NftInfo(NftInfoResponse {
            token_uri: Some("ipfs://moon".to_string()),
            extension: None,
        }))
    );
    assert_eq!(
        ask(&state, 6, Cw721QueryMsg::NumTokens {}),
        Ok(QueryResponse::NumTokens(NumTokensResponse { count: 1 }))
    );
}

#[test]
fn send_asks_the_host_to_tell_the_contract() {
    let mut state = registry();
    run(&mut state, 2, "minnie", mint_msg("sun", "alice")).unwrap();
    let response = Cw721BaseExtensions::default()
        .execute(
            &mut state,
            &env_at(3, 3),
            &from("alice"),
            Cw721ExecuteMsg::SendNft {
                contract: addr("market"),
                token_id: "sun".to_string(),
                msg: vec![9, 9],
            },
        )
        .unwrap();
    assert_eq!(
        response.messages,
        vec![HostMsg::ReceiveNft {
            contract: "market".to_string(),
            sender: "alice".to_string(),
            token_id: "sun".to_string(),
            msg: vec![9, 9],
        }]
    );
}

#[test]
fn the_roles_and_the_funds_go_through_commands_too() {
    let mut state = registry();
    let offer = || Action::TransferOwnership { new_owner: addr("nora"), expiry: None };
    assert_eq!(
        run(&mut state, 2, "minnie", Cw721ExecuteMsg::UpdateOwnership(offer())).unwrap()[0],
        attr("update_minter_ownership", "minnie")
    );
    assert_eq!(state.minter.pending_owner, Some("nora".to_string()));
    assert_eq!(
        run(&mut state, 2, "nora", Cw721ExecuteMsg::UpdateMinterOwnership(Action::RejectOwnership))
            .unwrap(),
        vec![
            attr("update_minter_ownership", "nora"),
            attr("owner", "minnie"),
            attr("pending_owner", "none"),
            attr("pending_expiry", "none"),
        ]
    );
    assert_eq!(
        run(&mut state, 2, "carl", Cw721ExecuteMsg::UpdateCreatorOwnership(offer())).unwrap()[0],
        attr("update_creator_ownership", "carl")
    );
    assert_eq!(
        run(&mut state, 2, "minnie", Cw721ExecuteMsg::UpdateCreatorOwnership(offer())),
        Err(Cw721ContractError::Unauthorized)
    );
    assert_eq!(
        run(&mut state, 3, "carl", Cw721ExecuteMsg::SetWithdrawAddress { address: addr("vault") }),
        Ok(vec![attr("action", "set_withdraw_address"), attr("address", "vault")])
    );
    let withdraw = Cw721ExecuteMsg::WithdrawFunds {
        amount: Coin { denom: "ustars".to_string(), amount: 5 },
    };
    assert_eq!(
        run(&mut state, 3, "carl", withdraw),
        Ok(vec![attr("action", "withdraw_funds"), attr("address", "vault"), attr("denom", "ustars")])
    );
    assert_eq!(
        run(&mut state, 3, "carl", Cw721ExecuteMsg::RemoveWithdrawAddress {}),
        Ok(vec![attr("action", "remove_withdraw_address"), attr("address", "vault")])
    );
    assert_eq!(ask(&state, 3, Cw721QueryMsg::GetWithdrawAddress {}), Ok(QueryResponse::WithdrawAddress(None)));
}

#[test]
fn a_request_goes_to_the_answer_of_its_kind() {
    let mut state = registry();
    for (id, owner) in [("b", "alice"), ("a", "alice"), ("c", "bob")] {
        run(&mut state, 2, "minnie", mint_msg(id, owner)).unwrap();
    }
    run(
        &mut state,
        3,
        "alice",
        Cw721ExecuteMsg::Approve {
            spender: addr("sam"),
            token_id: "a".to_string(),
            expires: Some(Expiration::AtHeight(9)),
        },
    )
    .unwrap();
    let sam = Approval { spender: "sam".to_string(), expires: Expiration::AtHeight(9) };
    // Unless a request says so, the lapsed approvals are left out.
    assert_eq!(
        ask(&state, 9, Cw721QueryMsg::OwnerOf { token_id: "a".to_string(), include_expired: None }),
        Ok(QueryResponse::OwnerOf(OwnerOfResponse { owner: "alice".to_string(), approvals: vec![] }))
    );
    assert_eq!(
        ask(
            &state,
            9,
            Cw721QueryMsg::OwnerOf { token_id: "a".to_string(), include_expired: Some(true) }
        ),
        Ok(QueryResponse::OwnerOf(OwnerOfResponse {
            owner: "alice".to_string(),
            approvals: vec![sam.clone()],
        }))
    );
    assert_eq!(
        ask(&state, 8, Cw721QueryMsg::Approvals { token_id: "a".to_string(), include_expired: None }),
        Ok(QueryResponse::Approvals(cw721::msg::ApprovalsResponse { approvals: vec![sam.clone()] }))
    );
    assert_eq!(
        ask(
            &state,
            9,
            Cw721QueryMsg::Approval {
                token_id: "a".to_string(),
                spender: addr("sam"),
                include_expired: None,
            }
        ),
        Err(Cw721ContractError::NotFound)
    );
    assert_eq!(
        ask(&state, 3, Cw721QueryMsg::AllTokens { start_after: None, limit: Some(2) }),
        Ok(QueryResponse::Tokens(TokensResponse { tokens: vec!["a".to_string(), "b".to_string()] }))
    );
    assert_eq!(
        ask(
            &state,
            3,
            Cw721QueryMsg::Tokens {
                owner: addr("alice"),
                start_after: Some("a".to_string()),
                limit: None,
            }
        ),
        Ok(QueryResponse::Tokens(TokensResponse { tokens: vec!["b".to_string()] }))
    );
    assert_eq!(
        ask(&state, 3, Cw721QueryMsg::Minter {}),
        Ok(QueryResponse::Minter(MinterResponse { minter: Some("minnie".to_string()) }))
    );
    let held = |owner: &str| Ownership {
        owner: Some(owner.to_string()),
        pending_owner: None,
        pending_expiry: None,
    };
    assert_eq!(ask(&state, 3, Cw721QueryMsg::Ownership {}), Ok(QueryResponse::Ownership(held("minnie"))));
    assert_eq!(
        ask(&state, 3, Cw721QueryMsg::GetMinterOwnership {}),
        Ok(QueryResponse::Ownership(held("minnie")))
    );
    assert_eq!(
        ask(&state, 3, Cw721QueryMsg::GetCreatorOwnership {}),
        Ok(QueryResponse::Ownership(held("carl")))
    );
    assert_eq!(
        ask(&state, 3, Cw721QueryMsg::ContractInfo {}),
        ask(&state, 3, Cw721QueryMsg::GetCollectionInfoAndExtension {})
    );
    assert_eq!(
        ask(&state, 3, Cw721QueryMsg::GetCollectionExtensionAttributes {}),
        Ok(QueryResponse::CollectionExtensionAttributes(vec![]))
    );
    match ask(&state, 3, Cw721QueryMsg::GetConfig {}) {
        Ok(QueryResponse::Config(config)) => {
            assert_eq!(config.num_tokens, 3);
            assert_eq!(config.contract_address, "registry");
        }
        other => panic!("not a config: {:?}", other),
    }
    match ask(&state, 3, Cw721QueryMsg::GetAllInfo {}) {
        Ok(QueryResponse::AllInfo(info)) => {
            assert_eq!(info.num_tokens, 3);
            assert_eq!(info.collection_info.name, "Stars");
        }
        other => panic!("not the collection: {:?}", other),
    }
    match ask(
        &state,
        3,
        Cw721QueryMsg::AllNftInfo { token_id: "c".to_string(), include_expired: None },
    ) {
        Ok(QueryResponse::AllNftInfo(all)) => assert_eq!(all.access.owner, "bob"),
        other => panic!("not a token: {:?}", other),
    }
    assert_eq!(
        ask(
            &state,
            3,
            Cw721QueryMsg::Operator {
                owner: addr("alice"),
                operator: addr("olga"),
                include_expired: None,
            }
        ),
        Err(Cw721ContractError::NotFound)
    );
    assert_eq!(
        ask(
            &state,
            3,
            Cw721QueryMsg::AllOperators {
                owner: addr("alice"),
                include_expired: None,
                start_after: None,
                limit: None,
            }
        ),
        Ok(QueryResponse::Operators(cw721::msg::OperatorsResponse { operators: vec![] }))
    );
}

/// A hook that turns every payload down.
struct Refusing;

impl StateFactory<Option<Empty>> for Refusing {
    fn create(
        &self,
        _state: &Cw721Config,
        _env: &Env,
        _info: Option<&MessageInfo>,
        _current: Option<&Option<Empty>>,
    ) -> Result<Option<Empty>, Cw721ContractError> {
        Err(Cw721ContractError::ExtensionRejected)
    }

    fn validate(
        &self,
        _state: &Cw721Config,
        _env: &Env,
        _info: Option<&MessageInfo>,
        _current: Option<&Option<Empty>>,
    ) -> Result<(), Cw721ContractError> {
        Err(Cw721ContractError::ExtensionRejected)
    }
}

#[test]
fn the_hook_is_asked_last_and_decides() {
    let mut state = registry();
    let env = env_at(2, 2);
    let some = Some(Empty {});
    mint_with(&mut state, &env, &from("minnie"), "sun".to_string(), addr("alice"), None, &some)
        .unwrap();
    assert_eq!(state.nft_info.get(&"sun".to_string()).unwrap().extension, Some(Empty {}));
    assert_eq!(
        mint_with(&mut state, &env, &from("minnie"), "moon".to_string(), addr("alice"), None, &Refusing),
        Err(Cw721ContractError::ExtensionRejected)
    );
    assert_eq!(state.nft_info.len(), 1);
    // What else stands against the token is said first.
    assert_eq!(
        mint_with(&mut state, &env, &from("minnie"), "sun".to_string(), addr("alice"), None, &Refusing),
        Err(Cw721ContractError::AlreadyExists)
    );
    assert_eq!(
        mint_with(&mut state, &env, &from("alice"), "moon".to_string(), addr("alice"), None, &Refusing),
        Err(Cw721ContractError::Unauthorized)
    );
    assert_eq!(
        update_nft_info_with(&mut state, &env, &from("carl"), "sun".to_string(), None, &Refusing),
        Err(Cw721ContractError::ExtensionRejected)
    );
    assert_eq!(
        update_nft_info_with(&mut state, &env, &from("carl"), "moon".to_string(), None, &Refusing),
        Err(Cw721ContractError::NotFound)
    );
    assert_eq!(
        update_nft_info_with(&mut state, &env, &from("alice"), "sun".to_string(), None, &Refusing),
        Err(Cw721ContractError::Unauthorized)
    );
    let none: Option<Empty> = None;
    update_nft_info_with(
        &mut state,
        &env,
        &from("carl"),
        "sun".to_string(),
        Some("ipfs://sun".to_string()),
        &none,
    )
    .unwrap();
    // The URI is replaced; the extension stays what the mint made it.
    assert_eq!(
        state.nft_info.get(&"sun".to_string()),
        Some(&NftInfo {
            owner: "alice".to_string(),
            approvals: vec![],
            token_uri: Some("ipfs://sun".to_string()),
            extension: Some(Empty {}),
        })
    );
}

/// A hook that keeps one attribute, whatever it is shown.
struct Stamped;

impl StateFactory<Vec<Attribute>> for Stamped {
    fn create(
        &self,
        state: &Cw721Config,
        env: &Env,
        _info: Option<&MessageInfo>,
        _current: Option<&Vec<Attribute>>,
    ) -> Result<Vec<Attribute>, Cw721ContractError> {
        // The hook sees the registry before it has an extension.
        assert!(state.collection_extension.is_empty());
        Ok(vec![Attribute { key: state.collection_info.name.clone(), value: vec![env.block.height as u8] }])
    }

    fn validate(
        &self,
        _state: &Cw721Config,
        _env: &Env,
        _info: Option<&MessageInfo>,
        _current: Option<&Vec<Attribute>>,
    ) -> Result<(), Cw721ContractError> {
        Ok(())
    }
}

/// A hook on the collection that turns everything down.
struct Closed;

impl StateFactory<Vec<Attribute>> for Closed {
    fn create(
        &self,
        _state: &Cw721Config,
        _env: &Env,
        _info: Option<&MessageInfo>,
        _current: Option<&Vec<Attribute>>,
    ) -> Result<Vec<Attribute>, Cw721ContractError> {
        Err(Cw721ContractError::ExtensionRejected)
    }

    fn validate(
        &self,
        _state: &Cw721Config,
        _env: &Env,
        _info: Option<&MessageInfo>,
        _current: Option<&Vec<Attribute>>,
    ) -> Result<(), Cw721ContractError> {
        Err(Cw721ContractError::ExtensionRejected)
    }
}

fn start_msg(minter: Address) -> Cw721InstantiateMsg {
    Cw721InstantiateMsg {
        name: "Stars".to_string(),
        symbol: "STAR".to_string(),
        collection_info_extension: vec![Attribute { key: "carried".to_string(), value: vec![1] }],
        minter: Some(minter),
        creator: None,
        withdraw_address: None,
    }
}

#[test]
fn the_collection_has_a_hook_of_its_own() {
    let env = env_at(7, 7);
    let carried = vec![Attribute { key: "carried".to_string(), value: vec![1] }];
    let stamped = vec![Attribute { key: "Stars".to_string(), value: vec![7] }];
    let (state, _) = instantiate_with(&env, &from("dana"), start_msg(addr("minnie")), &Stamped).unwrap();
    assert_eq!(state.collection_extension, stamped);
    assert_eq!(state.creator.owner, Some("dana".to_string()));
    // The attributes of a message are a hook that keeps them as they are.
    let (state, _) =
        instantiate_with(&env, &from("dana"), start_msg(addr("minnie")), &carried.clone()).unwrap();
    assert_eq!(state.collection_extension, carried);
    assert_eq!(carried.validate(&state, &env, None, None), Ok(()));
    assert_eq!(
        instantiate_with(&env, &from("dana"), start_msg(addr("minnie")), &Closed).err(),
        Some(Cw721ContractError::ExtensionRejected)
    );
    // The addresses are looked at before the hook is asked.
    let bad = Address { text: "M".to_string(), well_formed: false };
    assert_eq!(
        instantiate_with(&env, &from("dana"), start_msg(bad.clone()), &Closed).err(),
        Some(Cw721ContractError::InvalidInput)
    );
    assert_eq!(
        instantiate_from(&env, &from("dana"), start_msg(bad), Err(Cw721ContractError::ExtensionRejected))
            .err(),
        Some(Cw721ContractError::InvalidInput)
    );
    assert_eq!(
        instantiate_from(
            &env,
            &from("dana"),
            start_msg(addr("minnie")),
            Err(Cw721ContractError::ExtensionRejected)
        )
        .err(),
        Some(Cw721ContractError::ExtensionRejected)
    );
    let (state, response) =
        instantiate_from(&env, &from("dana"), start_msg(addr("minnie")), Ok(stamped.clone())).unwrap();
    assert_eq!(state.collection_extension, stamped);
    assert_eq!(response.attributes, vec![attr("minter", "minnie"), attr("creator", "dana")]);
}

#[test]
fn what_the_hook_answered_decides_the_outcome() {
    let mut state = registry();
    let minnie = from("minnie");
    let carl = from("carl");
    assert_eq!(
        mint_token(
            &mut state,
            &minnie,
            "sun".to_string(),
            addr("alice"),
            None,
            Err(Cw721ContractError::ExtensionRejected)
        ),
        Err(Cw721ContractError::ExtensionRejected)
    );
    assert_eq!(state.nft_info.len(), 0);
    mint_token(&mut state, &minnie, "sun".to_string(), addr("alice"), None, Ok(Some(Empty {})))
        .unwrap();
    assert_eq!(state.token_count, 1);
    assert_eq!(
        mint_token(
            &mut state,
            &minnie,
            "sun".to_string(),
            addr("alice"),
            None,
            Err(Cw721ContractError::ExtensionRejected)
        ),
        Err(Cw721ContractError::AlreadyExists)
    );
    assert_eq!(
        replace_nft_info(
            &mut state,
            &carl,
            "sun".to_string(),
            Some("ipfs://x".to_string()),
            Err(Cw721ContractError::InvalidInput)
        ),
        Err(Cw721ContractError::InvalidInput)
    );
    assert_eq!(state.nft_info.get(&"sun".to_string()).unwrap().token_uri, None);
    replace_nft_info(&mut state, &carl, "sun".to_string(), Some("ipfs://x".to_string()), Ok(()))
        .unwrap();
    assert_eq!(
        state.nft_info.get(&"sun".to_string()),
        Some(&NftInfo {
            owner: "alice".to_string(),
            approvals: vec![],
            token_uri: Some("ipfs://x".to_string()),
            extension: Some(Empty {}),
        })
    );
    assert_eq!(
        replace_nft_info(&mut state, &minnie, "sun".to_string(), None, Ok(())),
        Err(Cw721ContractError::Unauthorized)
    );
    assert_eq!(
        replace_nft_info(&mut state, &carl, "moon".to_string(), None, Ok(())),
        Err(Cw721ContractError::NotFound)
    );
}

#[test]
fn the_empty_payload_is_always_in_order() {
    let state = registry();
    let env = env_at(2, 2);
    assert_eq!(Empty {}.create(&state, &env, None, None), Ok(Empty {}));
    assert_eq!(Empty {}.validate(&state, &env, Some(&from("anyone")), Some(&Empty {})), Ok(()));
    let none: Option<Empty> = None;
    assert_eq!(none.create(&state, &env, None, Some(&Some(Empty {}))), Ok(None));
    assert_eq!(none.validate(&state, &env, None, None), Ok(()));
    assert_eq!(Some(Empty {}).create(&state, &env, None, None), Ok(Some(Empty {})));
    assert_eq!(Some(Refusing).validate(&state, &env, None, None), Err(Cw721ContractError::ExtensionRejected));
}

/// A payload of one number, kept under the key `level`.
#[derive(Debug, PartialEq)]
struct Level(u8);

impl ToAttributesState for Level {
    fn to_attributes_state(&self) -> Result<Vec<Attribute>, Cw721ContractError> {
        Ok(vec![Attribute { key: "level".to_string(), value: vec![self.0] }])
    }
}

impl FromAttributesState for Level {
    fn from_attributes_state(value: &[Attribute]) -> Result<Self, Cw721ContractError> {
        match value {
            [only] if only.key == "level" && only.value.len() == 1 => Ok(Level(only.value[0])),
            _ => Err(Cw721ContractError::InvalidInput),
        }
    }
}

#[test]
fn a_missing_payload_is_kept_as_no_attributes() {
    let level = Attribute { key: "level".to_string(), value: vec![7] };
    assert_eq!(Some(Level(7)).to_attributes_state(), Ok(vec![level.clone()]));
    assert_eq!(None::<Level>.to_attributes_state(), Ok(vec![]));
    assert_eq!(Empty {}.to_attributes_state(), Ok(vec![]));
    assert_eq!(Option::<Level>::from_attributes_state(&[]), Ok(None));
    assert_eq!(Option::<Level>::from_attributes_state(&[level.clone()]), Ok(Some(Level(7))));
    assert_eq!(
        Option::<Level>::from_attributes_state(&[level.clone(), level.clone()]),
        Err(Cw721ContractError::InvalidInput)
    );
    assert_eq!(Empty::from_attributes_state(&[level]), Ok(Empty {}));
}

#[test]
fn what_was_stored_can_be_put_back() {
    let mut state = Cw721Config::default();
    assert_eq!(state.token_count, 0);
    assert_eq!(state.minter.owner, None);
    let token = |owner: &str| NftInfo {
        owner: owner.to_string(),
        approvals: vec![],
        token_uri: None,
        extension: None,
    };
    assert!(state.restore_token("b".to_string(), token("alice")));
    // A token that holds two approvals for one spender is not put back.
    let twice = NftInfo {
        owner: "alice".to_string(),
        approvals: vec![
            Approval { spender: "sam".to_string(), expires: Expiration::Never },
            Approval { spender: "tom".to_string(), expires: Expiration::Never },
            Approval { spender: "sam".to_string(), expires: Expiration::AtHeight(3) },
        ],
        token_uri: None,
        extension: None,
    };
    assert!(!spenders_are_distinct(&twice.approvals));
    assert!(spenders_are_distinct(&twice.approvals[..2].to_vec()));
    assert!(spenders_are_distinct(&Vec::new()));
    assert!(!state.restore_token("c".to_string(), twice));
    assert_eq!(state.token_count, 1);
    assert!(state.in_order());
    assert!(state.restore_token("a".to_string(), token("bob")));
    assert!(state.restore_burned("z".to_string()));
    assert!(!state.restore_token("z".to_string(), token("alice")));
    assert!(!state.restore_burned("a".to_string()));
    state.restore_operator("alice".to_string(), "olga".to_string(), Expiration::Never);
    assert_eq!(state.token_count, 2);
    assert_eq!(
        ask(&state, 1, Cw721QueryMsg::AllTokens { start_after: None, limit: None }),
        Ok(QueryResponse::Tokens(TokensResponse { tokens: vec!["a".to_string(), "b".to_string()] }))
    );
    assert_eq!(state.operators.len(), 1);
    state.minter = Ownership { owner: Some("minnie".to_string()), pending_owner: None, pending_expiry: None };
    assert_eq!(run(&mut state, 2, "minnie", mint_msg("z", "alice")), Err(Cw721ContractError::AlreadyExists));
    assert_eq!(run(&mut state, 2, "olga", Cw721ExecuteMsg::Burn { token_id: "b".to_string() }).map(|a| a.len()), Ok(3));
    assert_eq!(state.token_count, 1);
    assert!(state.in_order());
    // A count that was set by hand is found out.
    state.token_count = 5;
    assert!(!state.in_order());
}

#[test]
fn an_error_says_what_it_is() {
    assert_eq!(Cw721ContractError::NotFound.message(), "not found");
    assert_eq!(Cw721ContractError::Unauthorized.message(), "unauthorized");
    assert_eq!(Cw721ContractError::AlreadyExists.message(), "token id already claimed");
    assert_eq!(Cw721ContractError::Expired.message(), "expired");
    assert_eq!(Cw721ContractError::InvalidInput.message(), "invalid input");
    assert_eq!(Cw721ContractError::ExtensionRejected.message(), "extension rejected");
    assert_eq!(Cw721ContractError::StorageFailure.message(), "storage failure");
}
