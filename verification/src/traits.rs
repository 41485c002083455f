//! The registry as two interfaces, one for commands and one for requests.
//! Every operation comes with the registry's own rule as its default; a
//! registry of another make may put its own code in the place of any of them,
//! and has to keep the operation's contract when it does.

use vstd::prelude::*;
use crate::error::Cw721ContractError;
use crate::execute::{carried_out, set_up};
use crate::msg::{
    AllInfoResponse, AllNftInfoResponse, ApprovalResponse, ApprovalsResponse,
    CollectionInfoAndExtensionResponse, ConfigResponse, Cw721ExecuteMsg, Cw721InstantiateMsg,
    Cw721QueryMsg, MinterResponse, NftInfoResponse, NumTokensResponse, OperatorResponse,
    OperatorsResponse, OwnerOfResponse, QueryResponse, TokensResponse,
};
use crate::ownership::Action;
use crate::query::answered;
use crate::response::Response;
use crate::state::{
    address_of, attributes_of, text_of, Address, Attribute, Coin, CollectionInfo, Cw721Config,
    Empty, Env, Expiration, MessageInfo, Ownership, Registry,
};

pub use crate::hooks::StateFactory;

verus! {

/// A payload that a registry can keep.
pub trait Cw721State: Clone {

}

impl Cw721State for Empty {

}

impl<T> Cw721State for Option<T> where T: Cw721State {

}

/// For payloads of which one can hold another, as a token's traits hold
/// those that a search asks for.
pub trait Contains {
    /// Whether `self` holds all that `other` holds.
    fn contains(&self, other: &Self) -> bool;
}

/// A payload that is kept as attributes.
pub trait ToAttributesState {
    /// The attributes that the payload is kept as.
    fn to_attributes_state(&self) -> (r: Result<Vec<Attribute>, Cw721ContractError>);
}

/// The empty payload is kept as no attributes at all.
impl ToAttributesState for Empty {
    fn to_attributes_state(&self) -> (r: Result<Vec<Attribute>, Cw721ContractError>)
        ensures
            r matches Ok(attributes) && attributes@.len() == 0,
    {
        Ok(Vec::new())
    }
}

/// A payload that may be missing: a missing one is kept as no attributes,
/// another as it says itself.
impl<T> ToAttributesState for Option<T> where T: ToAttributesState {
    fn to_attributes_state(&self) -> (r: Result<Vec<Attribute>, Cw721ContractError>)
        ensures
            match self {
                Some(inner) => call_ensures(T::to_attributes_state, (inner,), r),
                None => r matches Ok(attributes) && attributes@.len() == 0,
            },
    {
        match self {
            Some(inner) => inner.to_attributes_state(),
            None => Ok(Vec::new()),
        }
    }
}

/// A payload that is read back from attributes.
pub trait FromAttributesState: Sized {
    /// The payload that the attributes were written from.
    fn from_attributes_state(value: &[Attribute]) -> (r: Result<Self, Cw721ContractError>);
}

/// The empty payload is read from any attributes: it holds nothing.
impl FromAttributesState for Empty {
    fn from_attributes_state(value: &[Attribute]) -> (r: Result<Self, Cw721ContractError>)
        ensures
            r == Ok::<Empty, Cw721ContractError>(Empty {  }),
    {
        Ok(Empty {  })
    }
}

/// A payload that may be missing: no attributes are read as a missing one,
/// any others as the payload reads them.
impl<T> FromAttributesState for Option<T> where T: FromAttributesState {
    fn from_attributes_state(value: &[Attribute]) -> (r: Result<Self, Cw721ContractError>)
        ensures
            if value@.len() == 0 {
                r == Ok::<Option<T>, Cw721ContractError>(None)
            } else {
                match r {
                    Ok(Some(inner)) => call_ensures(
                        T::from_attributes_state,
                        (value,),
                        Ok::<T, Cw721ContractError>(inner),
                    ),
                    Ok(None) => false,
                    Err(e) => call_ensures(
                        T::from_attributes_state,
                        (value,),
                        Err::<T, Cw721ContractError>(e),
                    ),
                }
            },
    {
        if value.len() == 0 {
            Ok(None)
        } else {
            match T::from_attributes_state(value) {
                Ok(inner) => Ok(Some(inner)),
                Err(e) => Err(e),
            }
        }
    }
}

/// The commands. `state` is the registry that a command works on; `env` and
/// `info` tell when and for whom.
pub trait Cw721Execute {
    /// Sets a registry up.
    fn instantiate(&self, env: &Env, info: &MessageInfo, msg: Cw721InstantiateMsg) -> (r: Result<
        (Cw721Config, Response),
        Cw721ContractError,
    >)
        ensures
            set_up(Registry::instantiate(env.block.time, info.sender@, msg@), r),
    {
        crate::execute::instantiate(env, info, msg)
    }

    /// Carries out the command `msg`, whatever its kind.
    fn execute(&self, state: &mut Cw721Config, env: &Env, info: &MessageInfo, msg: Cw721ExecuteMsg) -> (r:
        Result<Response, Cw721ContractError>)
        requires
            old(state).wf(),
        ensures
            final(state).wf(),
            carried_out(
                old(state)@.execute(env.block.height, env.block.time, info.sender@, msg@),
                old(state)@,
                final(state)@,
                r,
            ),
    {
        match msg {
            Cw721ExecuteMsg::Mint { token_id, owner, token_uri } => self.mint(
                state,
                env,
                info,
                token_id,
                owner,
                token_uri,
            ),
            Cw721ExecuteMsg::Approve { spender, token_id, expires } => self.approve(
                state,
                env,
                info,
                spender,
                token_id,
                expires,
            ),
            Cw721ExecuteMsg::Revoke { spender, token_id } => self.revoke(
                state,
                env,
                info,
                spender,
                token_id,
            ),
            Cw721ExecuteMsg::ApproveAll { operator, expires } => self.approve_all(
                state,
                env,
                info,
                operator,
                expires,
            ),
            Cw721ExecuteMsg::RevokeAll { operator } => self.revoke_all(state, env, info, operator),
            Cw721ExecuteMsg::TransferNft { recipient, token_id } => self.transfer_nft(
                state,
                env,
                info,
                recipient,
                token_id,
            ),
            Cw721ExecuteMsg::SendNft { contract, token_id, msg } => self.send_nft(
                state,
                env,
                info,
                contract,
                token_id,
                msg,
            ),
            Cw721ExecuteMsg::Burn { token_id } => self.burn_nft(state, env, info, token_id),
            Cw721ExecuteMsg::UpdateOwnership(action) => self.update_minter_ownership(
                state,
                env,
                info,
                action,
            ),
            Cw721ExecuteMsg::UpdateMinterOwnership(action) => self.update_minter_ownership(
                state,
                env,
                info,
                action,
            ),
            Cw721ExecuteMsg::UpdateCreatorOwnership(action) => self.update_creator_ownership(
                state,
                env,
                info,
                action,
            ),
            Cw721ExecuteMsg::UpdateNftInfo { token_id, token_uri } => self.update_nft_info(
                state,
                env,
                info,
                token_id,
                token_uri,
            ),
            Cw721ExecuteMsg::SetWithdrawAddress { address } => self.set_withdraw_address(
                state,
                &info.sender,
                address,
            ),
            Cw721ExecuteMsg::RemoveWithdrawAddress {  } => self.remove_withdraw_address(
                state,
                &info.sender,
            ),
            Cw721ExecuteMsg::WithdrawFunds { amount } => self.withdraw_funds(
                state,
                &info.sender,
                &amount,
            ),
        }
    }

    /// Gives the token to `recipient` and clears its approvals.
    fn transfer_nft(
        &self,
        state: &mut Cw721Config,
        env: &Env,
        info: &MessageInfo,
        recipient: Address,
        token_id: String,
    ) -> (r: Result<Response, Cw721ContractError>)
        requires
            old(state).wf(),
        ensures
            final(state).wf(),
            carried_out(
                old(state)@.transfer_nft(
                    env.block.height,
                    env.block.time,
                    info.sender@,
                    recipient@,
                    token_id@,
                ),
                old(state)@,
                final(state)@,
                r,
            ),
    {
        crate::execute::transfer_nft(state, env, info, recipient, token_id)
    }

    /// Gives the token to `contract` and has the host tell the contract of it.
    fn send_nft(
        &self,
        state: &mut Cw721Config,
        env: &Env,
        info: &MessageInfo,
        contract: Address,
        token_id: String,
        msg: Vec<u8>,
    ) -> (r: Result<Response, Cw721ContractError>)
        requires
            old(state).wf(),
        ensures
            final(state).wf(),
            carried_out(
                old(state)@.send_nft(
                    env.block.height,
                    env.block.time,
                    info.sender@,
                    contract@,
                    token_id@,
                    msg@,
                ),
                old(state)@,
                final(state)@,
                r,
            ),
    {
        crate::execute::send_nft(state, env, info, contract, token_id, msg)
    }

    /// Gives `spender` an approval on the token.
    fn approve(
        &self,
        state: &mut Cw721Config,
        env: &Env,
        info: &MessageInfo,
        spender: Address,
        token_id: String,
        expires: Option<Expiration>,
    ) -> (r: Result<Response, Cw721ContractError>)
        requires
            old(state).wf(),
        ensures
            final(state).wf(),
            carried_out(
                old(state)@.approve(
                    env.block.height,
                    env.block.time,
                    info.sender@,
                    spender@,
                    token_id@,
                    expires,
                ),
                old(state)@,
                final(state)@,
                r,
            ),
    {
        crate::execute::approve(state, env, info, spender, token_id, expires)
    }

    /// Takes from `spender` the approval on the token.
    fn revoke(
        &self,
        state: &mut Cw721Config,
        env: &Env,
        info: &MessageInfo,
        spender: Address,
        token_id: String,
    ) -> (r: Result<Response, Cw721ContractError>)
        requires
            old(state).wf(),
        ensures
            final(state).wf(),
            carried_out(
                old(state)@.revoke(
                    env.block.height,
                    env.block.time,
                    info.sender@,
                    spender@,
                    token_id@,
                ),
                old(state)@,
                final(state)@,
                r,
            ),
    {
        crate::execute::revoke(state, env, info, spender, token_id)
    }

    /// Makes `operator` an operator of the caller.
    fn approve_all(
        &self,
        state: &mut Cw721Config,
        env: &Env,
        info: &MessageInfo,
        operator: Address,
        expires: Option<Expiration>,
    ) -> (r: Result<Response, Cw721ContractError>)
        requires
            old(state).wf(),
        ensures
            final(state).wf(),
            carried_out(
                old(state)@.approve_all(
                    env.block.height,
                    env.block.time,
                    info.sender@,
                    operator@,
                    expires,
                ),
                old(state)@,
                final(state)@,
                r,
            ),
    {
        crate::execute::approve_all(state, env, info, operator, expires)
    }

    /// Takes from `operator` the grant of the caller.
    fn revoke_all(&self, state: &mut Cw721Config, env: &Env, info: &MessageInfo, operator: Address) -> (r:
        Result<Response, Cw721ContractError>)
        requires
            old(state).wf(),
        ensures
            final(state).wf(),
            carried_out(
                old(state)@.revoke_all(info.sender@, operator@),
                old(state)@,
                final(state)@,
                r,
            ),
    {
        crate::execute::revoke_all(state, env, info, operator)
    }

    /// Removes the token for good.
    fn burn_nft(&self, state: &mut Cw721Config, env: &Env, info: &MessageInfo, token_id: String) -> (r:
        Result<Response, Cw721ContractError>)
        requires
            old(state).wf(),
        ensures
            final(state).wf(),
            carried_out(
                old(state)@.burn_nft(env.block.height, env.block.time, info.sender@, token_id@),
                old(state)@,
                final(state)@,
                r,
            ),
    {
        crate::execute::burn_nft(state, env, info, token_id)
    }

    /// A record of the creator's role, held by `creator` if one is named.
    fn initialize_creator(&self, creator: Option<String>) -> (o: Ownership)
        ensures
            o@ == crate::state::OwnershipView::held_by(text_of(creator)),
    {
        crate::execute::initialize_creator(creator)
    }

    /// A record of the minter's role, held by `minter` if one is named.
    fn initialize_minter(&self, minter: Option<String>) -> (o: Ownership)
        ensures
            o@ == crate::state::OwnershipView::held_by(text_of(minter)),
    {
        crate::execute::initialize_minter(minter)
    }

    /// Creates the token `token_id` for `owner`.
    fn mint(
        &self,
        state: &mut Cw721Config,
        env: &Env,
        info: &MessageInfo,
        token_id: String,
        owner: Address,
        token_uri: Option<String>,
    ) -> (r: Result<Response, Cw721ContractError>)
        requires
            old(state).wf(),
        ensures
            final(state).wf(),
            carried_out(
                old(state)@.mint(info.sender@, token_id@, owner@, text_of(token_uri)),
                old(state)@,
                final(state)@,
                r,
            ),
    {
        crate::execute::mint(state, env, info, token_id, owner, token_uri)
    }

    /// Lets the caller act on the minter's record.
    fn update_minter_ownership(
        &self,
        state: &mut Cw721Config,
        env: &Env,
        info: &MessageInfo,
        action: Action,
    ) -> (r: Result<Response, Cw721ContractError>)
        requires
            old(state).wf(),
        ensures
            final(state).wf(),
            carried_out(
                old(state)@.update_minter_ownership(
                    env.block.height,
                    env.block.time,
                    info.sender@,
                    action@,
                ),
                old(state)@,
                final(state)@,
                r,
            ),
    {
        crate::execute::update_minter_ownership(state, env, info, action)
    }

    /// Lets the caller act on the creator's record.
    fn update_creator_ownership(
        &self,
        state: &mut Cw721Config,
        env: &Env,
        info: &MessageInfo,
        action: Action,
    ) -> (r: Result<Response, Cw721ContractError>)
        requires
            old(state).wf(),
        ensures
            final(state).wf(),
            carried_out(
                old(state)@.update_creator_ownership(
                    env.block.height,
                    env.block.time,
                    info.sender@,
                    action@,
                ),
                old(state)@,
                final(state)@,
                r,
            ),
    {
        crate::execute::update_creator_ownership(state, env, info, action)
    }

    /// The creator alone may replace a token's URI. Owner and approvals are
    /// not touched: they are the owner's.
    fn update_nft_info(
        &self,
        state: &mut Cw721Config,
        env: &Env,
        info: &MessageInfo,
        token_id: String,
        token_uri: Option<String>,
    ) -> (r: Result<Response, Cw721ContractError>)
        requires
            old(state).wf(),
        ensures
            final(state).wf(),
            carried_out(
                old(state)@.update_nft_info(info.sender@, token_id@, text_of(token_uri)),
                old(state)@,
                final(state)@,
                r,
            ),
    {
        crate::execute::update_nft_info(state, env, info, token_id, token_uri)
    }

    /// Sets the address that the registry's funds are paid out to.
    fn set_withdraw_address(&self, state: &mut Cw721Config, sender: &String, address: Address) -> (r:
        Result<Response, Cw721ContractError>)
        requires
            old(state).wf(),
        ensures
            final(state).wf(),
            carried_out(
                old(state)@.set_withdraw_address(sender@, address@),
                old(state)@,
                final(state)@,
                r,
            ),
    {
        crate::execute::set_withdraw_address(state, sender, address)
    }

    /// Clears the address that funds are paid out to.
    fn remove_withdraw_address(&self, state: &mut Cw721Config, sender: &String) -> (r: Result<
        Response,
        Cw721ContractError,
    >)
        requires
            old(state).wf(),
        ensures
            final(state).wf(),
            carried_out(
                old(state)@.remove_withdraw_address(sender@),
                old(state)@,
                final(state)@,
                r,
            ),
    {
        crate::execute::remove_withdraw_address(state, sender)
    }

    /// Asks the host to pay `amount` to the withdraw address.
    fn withdraw_funds(&self, state: &mut Cw721Config, sender: &String, amount: &Coin) -> (r: Result<
        Response,
        Cw721ContractError,
    >)
        requires
            old(state).wf(),
        ensures
            final(state).wf(),
            carried_out(
                old(state)@.withdraw_funds(sender@, amount@),
                old(state)@,
                final(state)@,
                r,
            ),
    {
        crate::execute::withdraw_funds(state, sender, amount)
    }
}

/// The requests. None of them changes `state`.
pub trait Cw721Query {
    /// Answers the request `msg`, whatever its kind.
    fn query(&self, state: &Cw721Config, env: &Env, msg: Cw721QueryMsg) -> (r: Result<
        QueryResponse,
        Cw721ContractError,
    >)
        requires
            state.wf(),
        ensures
            answered(
                state@.query(env.block.height, env.block.time, env.contract_address@, msg@),
                r,
            ),
    {
        match msg {
            Cw721QueryMsg::Minter {  } => match self.query_minter(state) {
                Ok(v) => Ok(QueryResponse::Minter(v)),
                Err(e) => Err(e),
            },
            Cw721QueryMsg::ContractInfo {  } => match self.query_collection_info_and_extension(
                state,
            ) {
                Ok(v) => Ok(QueryResponse::CollectionInfoAndExtension(v)),
                Err(e) => Err(e),
            },
            Cw721QueryMsg::GetConfig {  } => match self.query_all_collection_info(
                state,
                env.contract_address.clone(),
            ) {
                Ok(v) => Ok(QueryResponse::Config(v)),
                Err(e) => Err(e),
            },
            Cw721QueryMsg::GetCollectionInfoAndExtension {
            } => match self.query_collection_info_and_extension(state) {
                Ok(v) => Ok(QueryResponse::CollectionInfoAndExtension(v)),
                Err(e) => Err(e),
            },
            Cw721QueryMsg::GetAllInfo {  } => match self.query_all_info(state, env) {
                Ok(v) => Ok(QueryResponse::AllInfo(v)),
                Err(e) => Err(e),
            },
            Cw721QueryMsg::GetCollectionExtensionAttributes {
            } => match self.query_collection_extension_attributes(state) {
                Ok(v) => Ok(QueryResponse::CollectionExtensionAttributes(v)),
                Err(e) => Err(e),
            },
            Cw721QueryMsg::NftInfo { token_id } => match self.query_nft_info(state, token_id) {
                Ok(v) => Ok(QueryResponse::NftInfo(v)),
                Err(e) => Err(e),
            },
            Cw721QueryMsg::OwnerOf { token_id, include_expired } => match self.query_owner_of(
                state,
                env,
                token_id,
                include_expired.unwrap_or(false),
            ) {
                Ok(v) => Ok(QueryResponse::OwnerOf(v)),
                Err(e) => Err(e),
            },
            Cw721QueryMsg::AllNftInfo { token_id, include_expired } => match self.query_all_nft_info(
                state,
                env,
                token_id,
                include_expired.unwrap_or(false),
            ) {
                Ok(v) => Ok(QueryResponse::AllNftInfo(v)),
                Err(e) => Err(e),
            },
            Cw721QueryMsg::Operator { owner, operator, include_expired } => match self.query_operator(
                state,
                env,
                owner,
                operator,
                include_expired.unwrap_or(false),
            ) {
                Ok(v) => Ok(QueryResponse::Operator(v)),
                Err(e) => Err(e),
            },
            Cw721QueryMsg::AllOperators {
                owner,
                include_expired,
                start_after,
                limit,
            } => match self.query_operators(
                state,
                env,
                owner,
                include_expired.unwrap_or(false),
                start_after,
                limit,
            ) {
                Ok(v) => Ok(QueryResponse::Operators(v)),
                Err(e) => Err(e),
            },
            Cw721QueryMsg::NumTokens {  } => match self.query_num_tokens(state) {
                Ok(v) => Ok(QueryResponse::NumTokens(v)),
                Err(e) => Err(e),
            },
            Cw721QueryMsg::Tokens { owner, start_after, limit } => match self.query_tokens(
                state,
                env,
                owner,
                start_after,
                limit,
            ) {
                Ok(v) => Ok(QueryResponse::Tokens(v)),
                Err(e) => Err(e),
            },
            Cw721QueryMsg::AllTokens { start_after, limit } => match self.query_all_tokens(
                state,
                env,
                start_after,
                limit,
            ) {
                Ok(v) => Ok(QueryResponse::Tokens(v)),
                Err(e) => Err(e),
            },
            Cw721QueryMsg::Approval { token_id, spender, include_expired } => match self.query_approval(
                state,
                env,
                token_id,
                spender,
                include_expired.unwrap_or(false),
            ) {
                Ok(v) => Ok(QueryResponse::Approval(v)),
                Err(e) => Err(e),
            },
            Cw721QueryMsg::Approvals { token_id, include_expired } => match self.query_approvals(
                state,
                env,
                token_id,
                include_expired.unwrap_or(false),
            ) {
                Ok(v) => Ok(QueryResponse::Approvals(v)),
                Err(e) => Err(e),
            },
            Cw721QueryMsg::Ownership {  } => match self.query_minter_ownership(state) {
                Ok(v) => Ok(QueryResponse::Ownership(v)),
                Err(e) => Err(e),
            },
            Cw721QueryMsg::GetMinterOwnership {  } => match self.query_minter_ownership(state) {
                Ok(v) => Ok(QueryResponse::Ownership(v)),
                Err(e) => Err(e),
            },
            Cw721QueryMsg::GetCreatorOwnership {  } => match self.query_creator_ownership(state) {
                Ok(v) => Ok(QueryResponse::Ownership(v)),
                Err(e) => Err(e),
            },
            Cw721QueryMsg::GetWithdrawAddress {  } => match self.query_withdraw_address(state) {
                Ok(v) => Ok(QueryResponse::WithdrawAddress(v)),
                Err(e) => Err(e),
            },
        }
    }

    /// The older request for the minter alone; `query_minter_ownership` tells
    /// more.
    fn query_minter(&self, state: &Cw721Config) -> (r: Result<MinterResponse, Cw721ContractError>)
        ensures
            answered(Ok(state@.minter.owner), r),
    {
        crate::query::query_minter(state)
    }

    /// The minter's record, as it is kept.
    fn query_minter_ownership(&self, state: &Cw721Config) -> (r: Result<Ownership, Cw721ContractError>)
        ensures
            answered(Ok(state@.minter), r),
    {
        crate::query::query_minter_ownership(state)
    }

    /// The creator's record, as it is kept.
    fn query_creator_ownership(&self, state: &Cw721Config) -> (r: Result<Ownership, Cw721ContractError>)
        ensures
            answered(Ok(state@.creator), r),
    {
        crate::query::query_creator_ownership(state)
    }

    /// The collection's name and symbol.
    fn query_collection_info(&self, state: &Cw721Config) -> (r: Result<
        CollectionInfo,
        Cw721ContractError,
    >)
        ensures
            answered(Ok(state@.collection_info), r),
    {
        crate::query::query_collection_info(state)
    }

    /// What else describes the collection: nothing where no extension is set.
    fn query_collection_extension_attributes(&self, state: &Cw721Config) -> (r: Result<
        Vec<Attribute>,
        Cw721ContractError,
    >)
        ensures
            r matches Ok(attributes) && attributes_of(attributes@) == state@.collection_extension,
    {
        crate::query::query_collection_extension_attributes(state)
    }

    /// All that configures the registry.
    fn query_all_collection_info(&self, state: &Cw721Config, contract_addr: String) -> (r: Result<
        ConfigResponse,
        Cw721ContractError,
    >)
        requires
            state.wf(),
        ensures
            answered(Ok(state@.config(contract_addr@)), r),
    {
        crate::query::query_config(state, contract_addr)
    }

    /// The collection's name and symbol with what else describes it.
    fn query_collection_info_and_extension(&self, state: &Cw721Config) -> (r: Result<
        CollectionInfoAndExtensionResponse,
        Cw721ContractError,
    >)
        ensures
            answered(Ok(state@.collection_info_and_extension()), r),
    {
        crate::query::query_collection_info_and_extension(state)
    }

    /// The collection and the registry's address, in one.
    fn query_all_info(&self, state: &Cw721Config, env: &Env) -> (r: Result<
        AllInfoResponse,
        Cw721ContractError,
    >)
        requires
            state.wf(),
        ensures
            answered(Ok(state@.all_info(env.contract_address@)), r),
    {
        crate::query::query_all_info(state, env)
    }

    /// How many tokens there are.
    fn query_num_tokens(&self, state: &Cw721Config) -> (r: Result<NumTokensResponse, Cw721ContractError>)
        requires
            state.wf(),
        ensures
            answered(Ok(state@.num_tokens()), r),
    {
        crate::query::query_num_tokens(state)
    }

    /// What describes the token.
    fn query_nft_info(&self, state: &Cw721Config, token_id: String) -> (r: Result<
        NftInfoResponse,
        Cw721ContractError,
    >)
        requires
            state.wf(),
        ensures
            answered(state@.nft_info(token_id@), r),
    {
        crate::query::query_nft_info(state, token_id)
    }

    /// Who owns the token, and who holds approvals on it.
    fn query_owner_of(
        &self,
        state: &Cw721Config,
        env: &Env,
        token_id: String,
        include_expired_approval: bool,
    ) -> (r: Result<OwnerOfResponse, Cw721ContractError>)
        requires
            state.wf(),
        ensures
            answered(
                state@.owner_of(
                    env.block.height,
                    env.block.time,
                    token_id@,
                    include_expired_approval,
                ),
                r,
            ),
    {
        crate::query::query_owner_of(state, env, token_id, include_expired_approval)
    }

    /// The grant that `operator` holds from `owner`, if there is one.
    fn query_operator(
        &self,
        state: &Cw721Config,
        env: &Env,
        owner: Address,
        operator: Address,
        include_expired_approval: bool,
    ) -> (r: Result<OperatorResponse, Cw721ContractError>)
        requires
            state.wf(),
        ensures
            answered(
                state@.operator(
                    env.block.height,
                    env.block.time,
                    owner@,
                    operator@,
                    include_expired_approval,
                ),
                r,
            ),
    {
        crate::query::query_operator(state, env, owner, operator, include_expired_approval)
    }

    /// The operators that `owner` has given access to, page by page.
    fn query_operators(
        &self,
        state: &Cw721Config,
        env: &Env,
        owner: Address,
        include_expired_approval: bool,
        start_after: Option<Address>,
        limit: Option<u32>,
    ) -> (r: Result<OperatorsResponse, Cw721ContractError>)
        requires
            state.wf(),
        ensures
            answered(
                state@.all_operators(
                    env.block.height,
                    env.block.time,
                    owner@,
                    include_expired_approval,
                    address_of(start_after),
                    limit,
                ),
                r,
            ),
    {
        crate::query::query_operators(
            state,
            env,
            owner,
            include_expired_approval,
            start_after,
            limit,
        )
    }

    /// The approval that lets `spender` move the token.
    fn query_approval(
        &self,
        state: &Cw721Config,
        env: &Env,
        token_id: String,
        spender: Address,
        include_expired_approval: bool,
    ) -> (r: Result<ApprovalResponse, Cw721ContractError>)
        requires
            state.wf(),
        ensures
            answered(
                state@.approval(
                    env.block.height,
                    env.block.time,
                    token_id@,
                    spender@,
                    include_expired_approval,
                ),
                r,
            ),
    {
        crate::query::query_approval(state, env, token_id, spender, include_expired_approval)
    }

    /// The approvals that the token's owner has given on it.
    fn query_approvals(
        &self,
        state: &Cw721Config,
        env: &Env,
        token_id: String,
        include_expired_approval: bool,
    ) -> (r: Result<ApprovalsResponse, Cw721ContractError>)
        requires
            state.wf(),
        ensures
            answered(
                state@.approvals(
                    env.block.height,
                    env.block.time,
                    token_id@,
                    include_expired_approval,
                ),
                r,
            ),
    {
        crate::query::query_approvals(state, env, token_id, include_expired_approval)
    }

    /// One page of the ids of the tokens of `owner`.
    fn query_tokens(
        &self,
        state: &Cw721Config,
        env: &Env,
        owner: Address,
        start_after: Option<String>,
        limit: Option<u32>,
    ) -> (r: Result<TokensResponse, Cw721ContractError>)
        requires
            state.wf(),
        ensures
            answered(state@.tokens_page(owner@, text_of(start_after), limit), r),
    {
        crate::query::query_tokens(state, env, owner, start_after, limit)
    }

    /// One page of the ids of all tokens.
    fn query_all_tokens(
        &self,
        state: &Cw721Config,
        env: &Env,
        start_after: Option<String>,
        limit: Option<u32>,
    ) -> (r: Result<TokensResponse, Cw721ContractError>)
        requires
            state.wf(),
        ensures
            answered(Ok(state@.all_tokens_page(text_of(start_after), limit)), r),
    {
        crate::query::query_all_tokens(state, env, start_after, limit)
    }

    /// All that is told of the token.
    fn query_all_nft_info(
        &self,
        state: &Cw721Config,
        env: &Env,
        token_id: String,
        include_expired_approval: bool,
    ) -> (r: Result<AllNftInfoResponse, Cw721ContractError>)
        requires
            state.wf(),
        ensures
            answered(
                state@.all_nft_info(
                    env.block.height,
                    env.block.time,
                    token_id@,
                    include_expired_approval,
                ),
                r,
            ),
    {
        crate::query::query_all_nft_info(state, env, token_id, include_expired_approval)
    }

    /// Where the registry's funds are paid out to, if an address is set.
    fn query_withdraw_address(&self, state: &Cw721Config) -> (r: Result<
        Option<String>,
        Cw721ContractError,
    >)
        ensures
            r matches Ok(address) && text_of(address) == state@.withdraw_address,
    {
        crate::query::query_withdraw_address(state)
    }
}

} // verus!
