//! The commands and the requests that the registry takes, and the answers
//! that it gives to requests.

use vstd::prelude::*;
use crate::ownership::{Action, ActionView};
use crate::state::{
    address_of, approvals_of, attributes_of, text_of, Address, AddressView, Approval, ApprovalView,
    Attribute, AttributeView, Coin, CoinView, CollectionInfo, CollectionInfoView, Empty, Expiration,
    Ownership, OwnershipView,
};

verus! {

/// What the registry starts from.
#[derive(Debug, PartialEq, Eq)]
pub struct Cw721InstantiateMsg {
    /// Name of the collection.
    pub name: String,
    /// Symbol of the collection.
    pub symbol: String,
    /// What else describes the collection.
    pub collection_info_extension: Vec<Attribute>,
    /// Who may mint; the caller where none is named.
    pub minter: Option<Address>,
    /// Who may change what describes tokens and collection; the caller where
    /// none is named.
    pub creator: Option<Address>,
    /// Where the registry's funds are paid out to.
    pub withdraw_address: Option<Address>,
}

/// `Cw721InstantiateMsg` as a mathematical value.
#[verifier::ext_equal]
pub struct Cw721InstantiateMsgView {
    pub name: Seq<char>,
    pub symbol: Seq<char>,
    pub collection_info_extension: Seq<AttributeView>,
    pub minter: Option<AddressView>,
    pub creator: Option<AddressView>,
    pub withdraw_address: Option<AddressView>,
}

impl View for Cw721InstantiateMsg {
    type V = Cw721InstantiateMsgView;

    open spec fn view(&self) -> Cw721InstantiateMsgView {
        Cw721InstantiateMsgView {
            name: self.name@,
            symbol: self.symbol@,
            collection_info_extension: attributes_of(self.collection_info_extension@),
            minter: address_of(self.minter),
            creator: address_of(self.creator),
            withdraw_address: address_of(self.withdraw_address),
        }
    }
}

/// A command: it changes the registry, or is refused.
#[derive(Debug, PartialEq, Eq)]
pub enum Cw721ExecuteMsg {
    /// The older name of `UpdateMinterOwnership`.
    UpdateOwnership(Action),
    UpdateMinterOwnership(Action),
    UpdateCreatorOwnership(Action),
    /// Gives the token to `recipient`.
    TransferNft { recipient: Address, token_id: String },
    /// Gives the token to `contract` and tells the contract of it.
    SendNft { contract: Address, token_id: String, msg: Vec<u8> },
    /// Lets `spender` move the token.
    Approve { spender: Address, token_id: String, expires: Option<Expiration> },
    /// Takes back what `Approve` gave.
    Revoke { spender: Address, token_id: String },
    /// Lets `operator` move every token of the caller.
    ApproveAll { operator: Address, expires: Option<Expiration> },
    /// Takes back what `ApproveAll` gave.
    RevokeAll { operator: Address },
    /// Creates a token.
    Mint { token_id: String, owner: Address, token_uri: Option<String> },
    /// Removes a token for good.
    Burn { token_id: String },
    /// Replaces a token's URI.
    UpdateNftInfo { token_id: String, token_uri: Option<String> },
    SetWithdrawAddress { address: Address },
    RemoveWithdrawAddress {  },
    WithdrawFunds { amount: Coin },
}

/// `Cw721ExecuteMsg` as a mathematical value.
pub enum Cw721ExecuteMsgView {
    UpdateOwnership(ActionView),
    UpdateMinterOwnership(ActionView),
    UpdateCreatorOwnership(ActionView),
    TransferNft { recipient: AddressView, token_id: Seq<char> },
    SendNft { contract: AddressView, token_id: Seq<char>, msg: Seq<u8> },
    Approve { spender: AddressView, token_id: Seq<char>, expires: Option<Expiration> },
    Revoke { spender: AddressView, token_id: Seq<char> },
    ApproveAll { operator: AddressView, expires: Option<Expiration> },
    RevokeAll { operator: AddressView },
    Mint { token_id: Seq<char>, owner: AddressView, token_uri: Option<Seq<char>> },
    Burn { token_id: Seq<char> },
    UpdateNftInfo { token_id: Seq<char>, token_uri: Option<Seq<char>> },
    SetWithdrawAddress { address: AddressView },
    RemoveWithdrawAddress {  },
    WithdrawFunds { amount: CoinView },
}

impl View for Cw721ExecuteMsg {
    type V = Cw721ExecuteMsgView;

    open spec fn view(&self) -> Cw721ExecuteMsgView {
        match self {
            Cw721ExecuteMsg::UpdateOwnership(action) => Cw721ExecuteMsgView::UpdateOwnership(
                action@,
            ),
            Cw721ExecuteMsg::UpdateMinterOwnership(action) => Cw721ExecuteMsgView::UpdateMinterOwnership(
                action@,
            ),
            Cw721ExecuteMsg::UpdateCreatorOwnership(
                action,
            ) => Cw721ExecuteMsgView::UpdateCreatorOwnership(action@),
            Cw721ExecuteMsg::TransferNft { recipient, token_id } => Cw721ExecuteMsgView::TransferNft {
                recipient: recipient@,
                token_id: token_id@,
            },
            Cw721ExecuteMsg::SendNft { contract, token_id, msg } => Cw721ExecuteMsgView::SendNft {
                contract: contract@,
                token_id: token_id@,
                msg: msg@,
            },
            Cw721ExecuteMsg::Approve { spender, token_id, expires } => Cw721ExecuteMsgView::Approve {
                spender: spender@,
                token_id: token_id@,
                expires: *expires,
            },
            Cw721ExecuteMsg::Revoke { spender, token_id } => Cw721ExecuteMsgView::Revoke {
                spender: spender@,
                token_id: token_id@,
            },
            Cw721ExecuteMsg::ApproveAll { operator, expires } => Cw721ExecuteMsgView::ApproveAll {
                operator: operator@,
                expires: *expires,
            },
            Cw721ExecuteMsg::RevokeAll { operator } => Cw721ExecuteMsgView::RevokeAll {
                operator: operator@,
            },
            Cw721ExecuteMsg::Mint { token_id, owner, token_uri } => Cw721ExecuteMsgView::Mint {
                token_id: token_id@,
                owner: owner@,
                token_uri: text_of(*token_uri),
            },
            Cw721ExecuteMsg::Burn { token_id } => Cw721ExecuteMsgView::Burn { token_id: token_id@ },
            Cw721ExecuteMsg::UpdateNftInfo { token_id, token_uri } => Cw721ExecuteMsgView::UpdateNftInfo {
                token_id: token_id@,
                token_uri: text_of(*token_uri),
            },
            Cw721ExecuteMsg::SetWithdrawAddress { address } => Cw721ExecuteMsgView::SetWithdrawAddress {
                address: address@,
            },
            Cw721ExecuteMsg::RemoveWithdrawAddress {  } => Cw721ExecuteMsgView::RemoveWithdrawAddress {  },
            Cw721ExecuteMsg::WithdrawFunds { amount } => Cw721ExecuteMsgView::WithdrawFunds {
                amount: amount@,
            },
        }
    }
}

/// A request: it reads the registry and changes nothing.
#[allow(inconsistent_fields)]
#[derive(Debug, PartialEq, Eq)]
pub enum Cw721QueryMsg {
    /// Who owns the token, and who holds approvals on it.
    OwnerOf { token_id: String, include_expired: Option<bool> },
    /// The approval that `spender` holds on the token.
    Approval { token_id: String, spender: Address, include_expired: Option<bool> },
    /// The approvals on the token.
    Approvals { token_id: String, include_expired: Option<bool> },
    /// The grant that `operator` holds from `owner`.
    Operator { owner: Address, operator: Address, include_expired: Option<bool> },
    /// The operators of `owner`, page by page.
    AllOperators {
        owner: Address,
        include_expired: Option<bool>,
        start_after: Option<Address>,
        limit: Option<u32>,
    },
    /// How many tokens there are.
    NumTokens {  },
    /// The older name of `GetCollectionInfoAndExtension`.
    ContractInfo {  },
    GetConfig {  },
    GetCollectionInfoAndExtension {  },
    GetAllInfo {  },
    GetCollectionExtensionAttributes {  },
    /// The older name of `GetMinterOwnership`.
    Ownership {  },
    /// The older request for the minter alone.
    Minter {  },
    GetMinterOwnership {  },
    GetCreatorOwnership {  },
    /// What describes the token.
    NftInfo { token_id: String },
    /// What `OwnerOf` and `NftInfo` tell of the token, in one.
    AllNftInfo { token_id: String, include_expired: Option<bool> },
    /// The tokens of `owner`, page by page.
    Tokens { owner: Address, start_after: Option<String>, limit: Option<u32> },
    /// All tokens, page by page.
    AllTokens { start_after: Option<String>, limit: Option<u32> },
    GetWithdrawAddress {  },
}

/// `Cw721QueryMsg` as a mathematical value.
#[allow(inconsistent_fields)]
pub enum Cw721QueryMsgView {
    OwnerOf { token_id: Seq<char>, include_expired: Option<bool> },
    Approval { token_id: Seq<char>, spender: AddressView, include_expired: Option<bool> },
    Approvals { token_id: Seq<char>, include_expired: Option<bool> },
    Operator { owner: AddressView, operator: AddressView, include_expired: Option<bool> },
    AllOperators {
        owner: AddressView,
        include_expired: Option<bool>,
        start_after: Option<AddressView>,
        limit: Option<u32>,
    },
    NumTokens {  },
    ContractInfo {  },
    GetConfig {  },
    GetCollectionInfoAndExtension {  },
    GetAllInfo {  },
    GetCollectionExtensionAttributes {  },
    Ownership {  },
    Minter {  },
    GetMinterOwnership {  },
    GetCreatorOwnership {  },
    NftInfo { token_id: Seq<char> },
    AllNftInfo { token_id: Seq<char>, include_expired: Option<bool> },
    Tokens { owner: AddressView, start_after: Option<Seq<char>>, limit: Option<u32> },
    AllTokens { start_after: Option<Seq<char>>, limit: Option<u32> },
    GetWithdrawAddress {  },
}

impl View for Cw721QueryMsg {
    type V = Cw721QueryMsgView;

    open spec fn view(&self) -> Cw721QueryMsgView {
        match self {
            Cw721QueryMsg::OwnerOf { token_id, include_expired } => Cw721QueryMsgView::OwnerOf {
                token_id: token_id@,
                include_expired: *include_expired,
            },
            Cw721QueryMsg::Approval { token_id, spender, include_expired } => Cw721QueryMsgView::Approval {
                token_id: token_id@,
                spender: spender@,
                include_expired: *include_expired,
            },
            Cw721QueryMsg::Approvals { token_id, include_expired } => Cw721QueryMsgView::Approvals {
                token_id: token_id@,
                include_expired: *include_expired,
            },
            Cw721QueryMsg::Operator { owner, operator, include_expired } => Cw721QueryMsgView::Operator {
                owner: owner@,
                operator: operator@,
                include_expired: *include_expired,
            },
            Cw721QueryMsg::AllOperators {
                owner,
                include_expired,
                start_after,
                limit,
            } => Cw721QueryMsgView::AllOperators {
                owner: owner@,
                include_expired: *include_expired,
                start_after: address_of(*start_after),
                limit: *limit,
            },
            Cw721QueryMsg::NumTokens {  } => Cw721QueryMsgView::NumTokens {  },
            Cw721QueryMsg::ContractInfo {  } => Cw721QueryMsgView::ContractInfo {  },
            Cw721QueryMsg::GetConfig {  } => Cw721QueryMsgView::GetConfig {  },
            Cw721QueryMsg::GetCollectionInfoAndExtension {
            } => Cw721QueryMsgView::GetCollectionInfoAndExtension {  },
            Cw721QueryMsg::GetAllInfo {  } => Cw721QueryMsgView::GetAllInfo {  },
            Cw721QueryMsg::GetCollectionExtensionAttributes {
            } => Cw721QueryMsgView::GetCollectionExtensionAttributes {  },
            Cw721QueryMsg::Ownership {  } => Cw721QueryMsgView::Ownership {  },
            Cw721QueryMsg::Minter {  } => Cw721QueryMsgView::Minter {  },
            Cw721QueryMsg::GetMinterOwnership {  } => Cw721QueryMsgView::GetMinterOwnership {  },
            Cw721QueryMsg::GetCreatorOwnership {  } => Cw721QueryMsgView::GetCreatorOwnership {  },
            Cw721QueryMsg::NftInfo { token_id } => Cw721QueryMsgView::NftInfo { token_id: token_id@ },
            Cw721QueryMsg::AllNftInfo { token_id, include_expired } => Cw721QueryMsgView::AllNftInfo {
                token_id: token_id@,
                include_expired: *include_expired,
            },
            Cw721QueryMsg::Tokens { owner, start_after, limit } => Cw721QueryMsgView::Tokens {
                owner: owner@,
                start_after: text_of(*start_after),
                limit: *limit,
            },
            Cw721QueryMsg::AllTokens { start_after, limit } => Cw721QueryMsgView::AllTokens {
                start_after: text_of(*start_after),
                limit: *limit,
            },
            Cw721QueryMsg::GetWithdrawAddress {  } => Cw721QueryMsgView::GetWithdrawAddress {  },
        }
    }
}

/// How many tokens there are.
#[derive(Debug, PartialEq, Eq)]
pub struct NumTokensResponse {
    pub count: u64,
}

impl View for NumTokensResponse {
    type V = nat;

    open spec fn view(&self) -> nat {
        self.count as nat
    }
}

/// What describes a token.
#[derive(Debug, PartialEq, Eq)]
pub struct NftInfoResponse {
    pub token_uri: Option<String>,
    pub extension: Option<Empty>,
}

/// `NftInfoResponse` as a mathematical value.
pub struct NftInfoResponseView {
    pub token_uri: Option<Seq<char>>,
    pub extension: Option<Empty>,
}

impl View for NftInfoResponse {
    type V = NftInfoResponseView;

    open spec fn view(&self) -> NftInfoResponseView {
        NftInfoResponseView { token_uri: text_of(self.token_uri), extension: self.extension }
    }
}

/// Who owns a token, and who holds approvals on it.
#[derive(Debug, PartialEq, Eq)]
pub struct OwnerOfResponse {
    pub owner: String,
    pub approvals: Vec<Approval>,
}

/// `OwnerOfResponse` as a mathematical value.
#[verifier::ext_equal]
pub struct OwnerOfResponseView {
    pub owner: Seq<char>,
    pub approvals: Seq<ApprovalView>,
}

impl View for OwnerOfResponse {
    type V = OwnerOfResponseView;

    open spec fn view(&self) -> OwnerOfResponseView {
        OwnerOfResponseView { owner: self.owner@, approvals: approvals_of(self.approvals@) }
    }
}

/// All that is told of one token.
#[derive(Debug, PartialEq, Eq)]
pub struct AllNftInfoResponse {
    pub access: OwnerOfResponse,
    pub info: NftInfoResponse,
}

/// `AllNftInfoResponse` as a mathematical value.
#[verifier::ext_equal]
pub struct AllNftInfoResponseView {
    pub access: OwnerOfResponseView,
    pub info: NftInfoResponseView,
}

impl View for AllNftInfoResponse {
    type V = AllNftInfoResponseView;

    open spec fn view(&self) -> AllNftInfoResponseView {
        AllNftInfoResponseView { access: self.access@, info: self.info@ }
    }
}

/// The grant of one operator.
#[derive(Debug, PartialEq, Eq)]
pub struct OperatorResponse {
    pub approval: Approval,
}

impl View for OperatorResponse {
    type V = ApprovalView;

    open spec fn view(&self) -> ApprovalView {
        self.approval@
    }
}

/// The grants of one page of operators.
#[derive(Debug, PartialEq, Eq)]
pub struct OperatorsResponse {
    pub operators: Vec<Approval>,
}

impl View for OperatorsResponse {
    type V = Seq<ApprovalView>;

    open spec fn view(&self) -> Seq<ApprovalView> {
        approvals_of(self.operators@)
    }
}

/// The approval of one spender.
#[derive(Debug, PartialEq, Eq)]
pub struct ApprovalResponse {
    pub approval: Approval,
}

impl View for ApprovalResponse {
    type V = ApprovalView;

    open spec fn view(&self) -> ApprovalView {
        self.approval@
    }
}

/// The approvals on one token.
#[derive(Debug, PartialEq, Eq)]
pub struct ApprovalsResponse {
    pub approvals: Vec<Approval>,
}

impl View for ApprovalsResponse {
    type V = Seq<ApprovalView>;

    open spec fn view(&self) -> Seq<ApprovalView> {
        approvals_of(self.approvals@)
    }
}

/// One page of token ids.
#[derive(Debug, PartialEq, Eq)]
pub struct TokensResponse {
    /// The ids in ascending order; the last one is the cursor for the next
    /// page.
    pub tokens: Vec<String>,
}

impl View for TokensResponse {
    type V = Seq<Seq<char>>;

    open spec fn view(&self) -> Seq<Seq<char>> {
        Seq::new(self.tokens@.len(), |i: int| self.tokens@[i]@)
    }
}

/// Who the minter is.
#[derive(Debug, PartialEq, Eq)]
pub struct MinterResponse {
    pub minter: Option<String>,
}

impl View for MinterResponse {
    type V = Option<Seq<char>>;

    open spec fn view(&self) -> Option<Seq<char>> {
        text_of(self.minter)
    }
}

/// What describes the collection.
#[derive(Debug, PartialEq, Eq)]
pub struct CollectionInfoAndExtensionResponse {
    pub name: String,
    pub symbol: String,
    /// Empty where the collection has no extension.
    pub extension: Vec<Attribute>,
    pub updated_at: u64,
}

/// `CollectionInfoAndExtensionResponse` as a mathematical value.
#[verifier::ext_equal]
pub struct CollectionInfoAndExtensionResponseView {
    pub name: Seq<char>,
    pub symbol: Seq<char>,
    pub extension: Seq<AttributeView>,
    pub updated_at: u64,
}

impl View for CollectionInfoAndExtensionResponse {
    type V = CollectionInfoAndExtensionResponseView;

    open spec fn view(&self) -> CollectionInfoAndExtensionResponseView {
        CollectionInfoAndExtensionResponseView {
            name: self.name@,
            symbol: self.symbol@,
            extension: attributes_of(self.extension@),
            updated_at: self.updated_at,
        }
    }
}

/// All that configures the registry.
#[derive(Debug, PartialEq, Eq)]
pub struct ConfigResponse {
    pub num_tokens: u64,
    pub minter_ownership: Ownership,
    pub creator_ownership: Ownership,
    pub withdraw_address: Option<String>,
    pub collection_info: CollectionInfo,
    pub collection_extension: Vec<Attribute>,
    pub contract_address: String,
}

/// `ConfigResponse` as a mathematical value.
#[verifier::ext_equal]
pub struct ConfigResponseView {
    pub num_tokens: nat,
    pub minter_ownership: OwnershipView,
    pub creator_ownership: OwnershipView,
    pub withdraw_address: Option<Seq<char>>,
    pub collection_info: CollectionInfoView,
    pub collection_extension: Seq<AttributeView>,
    pub contract_address: Seq<char>,
}

impl View for ConfigResponse {
    type V = ConfigResponseView;

    open spec fn view(&self) -> ConfigResponseView {
        ConfigResponseView {
            num_tokens: self.num_tokens as nat,
            minter_ownership: self.minter_ownership@,
            creator_ownership: self.creator_ownership@,
            withdraw_address: text_of(self.withdraw_address),
            collection_info: self.collection_info@,
            collection_extension: attributes_of(self.collection_extension@),
            contract_address: self.contract_address@,
        }
    }
}

/// The collection and the registry's address, in one.
#[derive(Debug, PartialEq, Eq)]
pub struct AllInfoResponse {
    pub contract_address: String,
    pub collection_info: CollectionInfo,
    pub collection_extension: Vec<Attribute>,
    pub num_tokens: u64,
}

/// `AllInfoResponse` as a mathematical value.
#[verifier::ext_equal]
pub struct AllInfoResponseView {
    pub contract_address: Seq<char>,
    pub collection_info: CollectionInfoView,
    pub collection_extension: Seq<AttributeView>,
    pub num_tokens: nat,
}

impl View for AllInfoResponse {
    type V = AllInfoResponseView;

    open spec fn view(&self) -> AllInfoResponseView {
        AllInfoResponseView {
            contract_address: self.contract_address@,
            collection_info: self.collection_info@,
            collection_extension: attributes_of(self.collection_extension@),
            num_tokens: self.num_tokens as nat,
        }
    }
}

/// The answer to a request, by the kind of the request.
#[derive(Debug, PartialEq, Eq)]
pub enum QueryResponse {
    Minter(MinterResponse),
    CollectionInfoAndExtension(CollectionInfoAndExtensionResponse),
    Config(ConfigResponse),
    AllInfo(AllInfoResponse),
    CollectionExtensionAttributes(Vec<Attribute>),
    NftInfo(NftInfoResponse),
    OwnerOf(OwnerOfResponse),
    AllNftInfo(AllNftInfoResponse),
    Operator(OperatorResponse),
    Operators(OperatorsResponse),
    NumTokens(NumTokensResponse),
    Tokens(TokensResponse),
    Approval(ApprovalResponse),
    Approvals(ApprovalsResponse),
    Ownership(Ownership),
    WithdrawAddress(Option<String>),
}

/// `QueryResponse` as a mathematical value.
pub enum QueryResponseView {
    Minter(Option<Seq<char>>),
    CollectionInfoAndExtension(CollectionInfoAndExtensionResponseView),
    Config(ConfigResponseView),
    AllInfo(AllInfoResponseView),
    CollectionExtensionAttributes(Seq<AttributeView>),
    NftInfo(NftInfoResponseView),
    OwnerOf(OwnerOfResponseView),
    AllNftInfo(AllNftInfoResponseView),
    Operator(ApprovalView),
    Operators(Seq<ApprovalView>),
    NumTokens(nat),
    Tokens(Seq<Seq<char>>),
    Approval(ApprovalView),
    Approvals(Seq<ApprovalView>),
    Ownership(OwnershipView),
    WithdrawAddress(Option<Seq<char>>),
}

impl View for QueryResponse {
    type V = QueryResponseView;

    open spec fn view(&self) -> QueryResponseView {
        match self {
            QueryResponse::Minter(r) => QueryResponseView::Minter(r@),
            QueryResponse::CollectionInfoAndExtension(
                r,
            ) => QueryResponseView::CollectionInfoAndExtension(r@),
            QueryResponse::Config(r) => QueryResponseView::Config(r@),
            QueryResponse::AllInfo(r) => QueryResponseView::AllInfo(r@),
            QueryResponse::CollectionExtensionAttributes(
                r,
            ) => QueryResponseView::CollectionExtensionAttributes(attributes_of(r@)),
            QueryResponse::NftInfo(r) => QueryResponseView::NftInfo(r@),
            QueryResponse::OwnerOf(r) => QueryResponseView::OwnerOf(r@),
            QueryResponse::AllNftInfo(r) => QueryResponseView::AllNftInfo(r@),
            QueryResponse::Operator(r) => QueryResponseView::Operator(r@),
            QueryResponse::Operators(r) => QueryResponseView::Operators(r@),
            QueryResponse::NumTokens(r) => QueryResponseView::NumTokens(r@),
            QueryResponse::Tokens(r) => QueryResponseView::Tokens(r@),
            QueryResponse::Approval(r) => QueryResponseView::Approval(r@),
            QueryResponse::Approvals(r) => QueryResponseView::Approvals(r@),
            QueryResponse::Ownership(r) => QueryResponseView::Ownership(r@),
            QueryResponse::WithdrawAddress(r) => QueryResponseView::WithdrawAddress(text_of(*r)),
        }
    }
}

} // verus!
