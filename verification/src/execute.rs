//! The commands: what each one asks of the caller, and what it does to the
//! registry.
//!
//! A command is tested before it writes: first whether the token that it
//! names is there, then whether the caller may do it, then whether the grant
//! it rests on still stands, then its other inputs. A mint names no token
//! that is there: it is tested for the minter's role first, then for its id.
//! The first test that fails decides the error, and a refused command leaves
//! the registry as it was.

use vstd::prelude::*;
use crate::error::Cw721ContractError;
use crate::hooks::StateFactory;
use crate::keys::OperatorKey;
use crate::msg::{Cw721ExecuteMsgView, Cw721InstantiateMsg, Cw721InstantiateMsgView};
use crate::ownership::{ownership_attributes, update_ownership, Action, ActionView};
use crate::response::{HostMsg, HostMsgView, Response, ResponseView};
use crate::state::{
    address_of, approvals_of, attributes_of, copy_approvals, copy_attributes, copy_text,
    distinct_spenders, text_of, Address, AddressView, Approval, ApprovalView, Attribute, AttributeView, Coin, CoinView,
    CollectionInfo, CollectionInfoView, Cw721Config, Empty, Env, Expiration, MessageInfo, NftInfo,
    NftInfoView, Ownership, OwnershipView, Registry,
};
use crate::store::Table;

verus! {

/// What a command that was carried out leaves: the registry and the answer.
pub struct Outcome {
    pub registry: Registry,
    pub response: ResponseView,
}

/// Whether a command did what `expected` says: on success the registry and
/// the answer are those expected; on refusal the error is the expected one
/// and the registry is unchanged.
pub open spec fn carried_out(
    expected: Result<Outcome, Cw721ContractError>,
    before: Registry,
    after: Registry,
    r: Result<Response, Cw721ContractError>,
) -> bool {
    match expected {
        Ok(o) => r matches Ok(response) && response@ == o.response && after == o.registry,
        Err(e) => r == Err::<Response, Cw721ContractError>(e) && after == before,
    }
}

/// Whether `spender` has an approval among `approvals`, lapsed or not.
pub open spec fn holds_approval(approvals: Seq<ApprovalView>, spender: Seq<char>) -> bool {
    exists|i: int| 0 <= i < approvals.len() && (#[trigger] approvals[i]).spender == spender
}

/// Whether `spender` has an approval among `approvals` that has not lapsed.
pub open spec fn holds_standing_approval(
    approvals: Seq<ApprovalView>,
    spender: Seq<char>,
    height: u64,
    time: u64,
) -> bool {
    exists|i: int|
        0 <= i < approvals.len() && (#[trigger] approvals[i]).spender == spender
            && !approvals[i].expires.lapsed(height, time)
}

/// The approvals without those of `spender`, in their order.
pub open spec fn revoked(approvals: Seq<ApprovalView>, spender: Seq<char>) -> Seq<ApprovalView> {
    approvals.filter(|a: ApprovalView| a.spender != spender)
}

/// What revoking does to a list that ends in `last`.
pub proof fn lemma_revoked_push(approvals: Seq<ApprovalView>, last: ApprovalView, spender: Seq<char>)
    ensures
        revoked(approvals.push(last), spender) == if last.spender != spender {
            revoked(approvals, spender).push(last)
        } else {
            revoked(approvals, spender)
        },
{
    let all = approvals.push(last);
    assert(all.drop_last() =~= approvals);
    assert(all.last() == last);
    reveal_with_fuel(Seq::filter, 2);
}

/// What revoking leaves: no approval of the spender, nothing that the list
/// did not hold, and no spender twice where the list held none twice.
pub proof fn lemma_revoked(approvals: Seq<ApprovalView>, spender: Seq<char>)
    ensures
        revoked(approvals, spender).len() <= approvals.len(),
        forall|i: int|
            0 <= i < revoked(approvals, spender).len() ==> (#[trigger] revoked(
                approvals,
                spender,
            )[i]).spender != spender && approvals.contains(revoked(approvals, spender)[i]),
        forall|i: int|
            0 <= i < approvals.len() && (#[trigger] approvals[i]).spender != spender ==> revoked(
                approvals,
                spender,
            ).contains(approvals[i]),
        distinct_spenders(approvals) ==> distinct_spenders(revoked(approvals, spender)),
    decreases approvals.len(),
{
    let kept = revoked(approvals, spender);
    if approvals.len() == 0 {
        assert(kept =~= approvals);
    } else {
        let front = approvals.drop_last();
        let last = approvals.last();
        let before = revoked(front, spender);
        assert(approvals =~= front.push(last));
        lemma_revoked_push(front, last, spender);
        lemma_revoked(front, spender);
        assert forall|i: int| 0 <= i < kept.len() implies (#[trigger] kept[i]).spender != spender
            && approvals.contains(kept[i]) by {
            if i < before.len() {
                let k = front.index_of(before[i]);
                assert(approvals[k] == kept[i]);
            } else {
                assert(approvals[approvals.len() - 1] == kept[i]);
            }
        }
        assert forall|i: int|
            0 <= i < approvals.len() && (#[trigger] approvals[i]).spender != spender implies kept.contains(
            approvals[i],
        ) by {
            if i < front.len() {
                assert(front[i] == approvals[i]);
                let k = before.index_of(front[i]);
                assert(kept[k] == approvals[i]);
            } else {
                assert(kept[kept.len() - 1] == approvals[i]);
            }
        }
        if distinct_spenders(approvals) {
            assert(distinct_spenders(front)) by {
                assert forall|i: int, j: int| 0 <= i < j < front.len() implies (#[trigger] front[i]).spender
                    != (#[trigger] front[j]).spender by {
                    assert(approvals[i].spender != approvals[j].spender);
                }
            }
            assert forall|i: int, j: int| 0 <= i < j < kept.len() implies (#[trigger] kept[i]).spender
                != (#[trigger] kept[j]).spender by {
                if j < before.len() {
                    assert(before[i].spender != before[j].spender);
                } else {
                    let k = front.index_of(before[i]);
                    assert(approvals[k].spender != approvals[approvals.len() - 1].spender);
                }
            }
        }
    }
}

/// An approval put after what revoking leaves makes a list with no spender
/// twice, where the list before it had none twice.
pub proof fn lemma_replaced_is_distinct(
    approvals: Seq<ApprovalView>,
    spender: Seq<char>,
    expires: Expiration,
)
    requires
        distinct_spenders(approvals),
    ensures
        distinct_spenders(revoked(approvals, spender).push(ApprovalView { spender, expires })),
{
    lemma_revoked(approvals, spender);
    let kept = revoked(approvals, spender);
    let all = kept.push(ApprovalView { spender, expires });
    assert forall|i: int, j: int| 0 <= i < j < all.len() implies (#[trigger] all[i]).spender
        != (#[trigger] all[j]).spender by {
        if j < kept.len() {
            assert(kept[i].spender != kept[j].spender);
        } else {
            assert(kept[i].spender != spender);
        }
    }
}

/// The expiration that a grant gets where none was asked for: never.
pub open spec fn or_never(expires: Option<Expiration>) -> Expiration {
    match expires {
        Some(e) => e,
        None => Expiration::Never,
    }
}

/// The answer of a command on a token: what was done, by whom, to which
/// token.
pub open spec fn token_response(action: Seq<char>, sender: Seq<char>, token_id: Seq<char>) -> ResponseView {
    ResponseView::empty().add_attribute("action"@, action).add_attribute(
        "sender"@,
        sender,
    ).add_attribute("token_id"@, token_id)
}

/// The answer of a command that names a second party under `role`.
pub open spec fn party_response(
    action: Seq<char>,
    sender: Seq<char>,
    role: Seq<char>,
    party: Seq<char>,
) -> ResponseView {
    ResponseView::empty().add_attribute("action"@, action).add_attribute(
        "sender"@,
        sender,
    ).add_attribute(role, party)
}

impl Registry {
    /// Whether `operator` has a grant from `owner` that has not lapsed.
    pub open spec fn operator_stands(
        self,
        owner: Seq<char>,
        operator: Seq<char>,
        height: u64,
        time: u64,
    ) -> bool {
        self.operators.contains_key((owner, operator)) && !self.operators[(owner, operator)].lapsed(
            height,
            time,
        )
    }

    /// Whether `sender` may move or burn `token`. The owner may, and so may
    /// who holds an approval on the token or an operator grant from its owner
    /// that has not lapsed. Who holds only lapsed ones is told that they have
    /// expired; anybody else is unauthorized.
    pub open spec fn may_send(self, token: NftInfoView, sender: Seq<char>, height: u64, time: u64) -> Result<
        (),
        Cw721ContractError,
    > {
        if token.owner == sender || holds_standing_approval(token.approvals, sender, height, time)
            || self.operator_stands(token.owner, sender, height, time) {
            Ok(())
        } else if holds_approval(token.approvals, sender) || self.operators.contains_key(
            (token.owner, sender),
        ) {
            Err(Cw721ContractError::Expired)
        } else {
            Err(Cw721ContractError::Unauthorized)
        }
    }

    /// Whether `sender` may give and take approvals on `token`: its owner
    /// may, and an operator of the owner whose grant has not lapsed.
    pub open spec fn may_approve(self, token: NftInfoView, sender: Seq<char>, height: u64, time: u64) -> bool {
        token.owner == sender || self.operator_stands(token.owner, sender, height, time)
    }

    /// The registry with `token` under `token_id`.
    pub open spec fn with_token(self, token_id: Seq<char>, token: NftInfoView) -> Registry {
        Registry { tokens: self.tokens.insert(token_id, token), ..self }
    }

    /// Why a token cannot be minted, before its extension is looked at. The
    /// caller must be the minter: nobody else is told anything of the id. The
    /// id must be new: that of a live token or of a burned one is refused.
    /// The owner's address must be well-formed.
    pub open spec fn mint_refused(self, sender: Seq<char>, token_id: Seq<char>, owner: AddressView) -> Option<
        Cw721ContractError,
    > {
        if !self.minter.is_owner(sender) {
            Some(Cw721ContractError::Unauthorized)
        } else if self.tokens.contains_key(token_id) || self.burned.contains(token_id) {
            Some(Cw721ContractError::AlreadyExists)
        } else if !owner.well_formed {
            Some(Cw721ContractError::InvalidInput)
        } else {
            None
        }
    }

    /// Creates a token with the extension that the hook has made of the
    /// message, unless the hook has turned the message down.
    pub open spec fn mint_with(
        self,
        sender: Seq<char>,
        token_id: Seq<char>,
        owner: AddressView,
        token_uri: Option<Seq<char>>,
        extension: Result<Option<Empty>, Cw721ContractError>,
    ) -> Result<Outcome, Cw721ContractError> {
        match self.mint_refused(sender, token_id, owner) {
            Some(e) => Err(e),
            None => match extension {
                Err(e) => Err(e),
                Ok(extension) => Ok(
                    Outcome {
                        registry: self.with_token(
                            token_id,
                            NftInfoView {
                                owner: owner.text,
                                approvals: Seq::empty(),
                                token_uri,
                                extension,
                            },
                        ),
                        response: ResponseView::empty().add_attribute(
                            "action"@,
                            "mint"@,
                        ).add_attribute("minter"@, sender).add_attribute(
                            "owner"@,
                            owner.text,
                        ).add_attribute("token_id"@, token_id),
                    },
                ),
            },
        }
    }

    /// Creates a token without an extension.
    pub open spec fn mint(
        self,
        sender: Seq<char>,
        token_id: Seq<char>,
        owner: AddressView,
        token_uri: Option<Seq<char>>,
    ) -> Result<Outcome, Cw721ContractError> {
        self.mint_with(sender, token_id, owner, token_uri, Ok(None))
    }

    /// The registry after the token has gone to `recipient`: the token has
    /// its new owner and no approvals.
    pub open spec fn handed_over(self, token_id: Seq<char>, recipient: Seq<char>) -> Registry {
        self.with_token(
            token_id,
            NftInfoView { owner: recipient, approvals: Seq::empty(), ..self.tokens[token_id] },
        )
    }

    /// Why a transfer of the token to `recipient` by `sender` is refused, if
    /// it is.
    pub open spec fn transfer_refused(
        self,
        height: u64,
        time: u64,
        sender: Seq<char>,
        recipient: AddressView,
        token_id: Seq<char>,
    ) -> Option<Cw721ContractError> {
        if !self.tokens.contains_key(token_id) {
            Some(Cw721ContractError::NotFound)
        } else if self.may_send(self.tokens[token_id], sender, height, time) is Err {
            Some(self.may_send(self.tokens[token_id], sender, height, time)->Err_0)
        } else if !recipient.well_formed {
            Some(Cw721ContractError::InvalidInput)
        } else {
            None
        }
    }

    /// Gives the token to `recipient` and clears its approvals.
    pub open spec fn transfer_nft(
        self,
        height: u64,
        time: u64,
        sender: Seq<char>,
        recipient: AddressView,
        token_id: Seq<char>,
    ) -> Result<Outcome, Cw721ContractError> {
        match self.transfer_refused(height, time, sender, recipient, token_id) {
            Some(e) => Err(e),
            None => Ok(
                Outcome {
                    registry: self.handed_over(token_id, recipient.text),
                    response: ResponseView::empty().add_attribute(
                        "action"@,
                        "transfer_nft"@,
                    ).add_attribute("sender"@, sender).add_attribute(
                        "recipient"@,
                        recipient.text,
                    ).add_attribute("token_id"@, token_id),
                },
            ),
        }
    }

    /// Gives the token to `contract` as a transfer does, and asks the host to
    /// tell the contract of it, with `msg`.
    pub open spec fn send_nft(
        self,
        height: u64,
        time: u64,
        sender: Seq<char>,
        contract: AddressView,
        token_id: Seq<char>,
        msg: Seq<u8>,
    ) -> Result<Outcome, Cw721ContractError> {
        match self.transfer_refused(height, time, sender, contract, token_id) {
            Some(e) => Err(e),
            None => Ok(
                Outcome {
                    registry: self.handed_over(token_id, contract.text),
                    response: ResponseView::empty().add_message(
                        HostMsgView::ReceiveNft { contract: contract.text, sender, token_id, msg },
                    ).add_attribute("action"@, "send_nft"@).add_attribute(
                        "sender"@,
                        sender,
                    ).add_attribute("recipient"@, contract.text).add_attribute(
                        "token_id"@,
                        token_id,
                    ),
                },
            ),
        }
    }

    /// Why `sender` may not change the approvals of `spender` on the token,
    /// if so.
    pub open spec fn approval_refused(
        self,
        height: u64,
        time: u64,
        sender: Seq<char>,
        spender: AddressView,
        token_id: Seq<char>,
    ) -> Option<Cw721ContractError> {
        if !self.tokens.contains_key(token_id) {
            Some(Cw721ContractError::NotFound)
        } else if !self.may_approve(self.tokens[token_id], sender, height, time) {
            Some(Cw721ContractError::Unauthorized)
        } else if !spender.well_formed {
            Some(Cw721ContractError::InvalidInput)
        } else {
            None
        }
    }

    /// Gives `spender` an approval on the token, in place of any that the
    /// spender had. The approval is kept whatever its expiration: one that
    /// has been reached already is kept too, and moves nothing.
    pub open spec fn approve(
        self,
        height: u64,
        time: u64,
        sender: Seq<char>,
        spender: AddressView,
        token_id: Seq<char>,
        expires: Option<Expiration>,
    ) -> Result<Outcome, Cw721ContractError> {
        match self.approval_refused(height, time, sender, spender, token_id) {
            Some(e) => Err(e),
            None => {
                let token = self.tokens[token_id];
                Ok(
                    Outcome {
                        registry: self.with_token(
                            token_id,
                            NftInfoView {
                                approvals: revoked(token.approvals, spender.text).push(
                                    ApprovalView { spender: spender.text, expires: or_never(expires) },
                                ),
                                ..token
                            },
                        ),
                        response: party_response(
                            "approve"@,
                            sender,
                            "spender"@,
                            spender.text,
                        ).add_attribute("token_id"@, token_id),
                    },
                )
            },
        }
    }

    /// Takes from `spender` the approval on the token.
    pub open spec fn revoke(
        self,
        height: u64,
        time: u64,
        sender: Seq<char>,
        spender: AddressView,
        token_id: Seq<char>,
    ) -> Result<Outcome, Cw721ContractError> {
        match self.approval_refused(height, time, sender, spender, token_id) {
            Some(e) => Err(e),
            None => {
                let token = self.tokens[token_id];
                Ok(
                    Outcome {
                        registry: self.with_token(
                            token_id,
                            NftInfoView { approvals: revoked(token.approvals, spender.text), ..token },
                        ),
                        response: party_response(
                            "revoke"@,
                            sender,
                            "spender"@,
                            spender.text,
                        ).add_attribute("token_id"@, token_id),
                    },
                )
            },
        }
    }

    /// Makes `operator` an operator of the caller, in place of any grant
    /// that the operator had from the caller. The grant is kept whatever its
    /// expiration: one that has been reached already is kept too, and moves
    /// nothing.
    pub open spec fn approve_all(
        self,
        height: u64,
        time: u64,
        sender: Seq<char>,
        operator: AddressView,
        expires: Option<Expiration>,
    ) -> Result<Outcome, Cw721ContractError> {
        if !operator.well_formed {
            Err(Cw721ContractError::InvalidInput)
        } else {
            Ok(
                Outcome {
                    registry: Registry {
                        operators: self.operators.insert((sender, operator.text), or_never(expires)),
                        ..self
                    },
                    response: party_response("approve_all"@, sender, "operator"@, operator.text),
                },
            )
        }
    }

    /// Takes from `operator` the grant of the caller.
    pub open spec fn revoke_all(self, sender: Seq<char>, operator: AddressView) -> Result<
        Outcome,
        Cw721ContractError,
    > {
        if !operator.well_formed {
            Err(Cw721ContractError::InvalidInput)
        } else {
            Ok(
                Outcome {
                    registry: Registry {
                        operators: self.operators.remove((sender, operator.text)),
                        ..self
                    },
                    response: party_response("revoke_all"@, sender, "operator"@, operator.text),
                },
            )
        }
    }

    /// Removes the token, with its approvals, for good: its id is burned.
    pub open spec fn burn_nft(self, height: u64, time: u64, sender: Seq<char>, token_id: Seq<char>) -> Result<
        Outcome,
        Cw721ContractError,
    > {
        if !self.tokens.contains_key(token_id) {
            Err(Cw721ContractError::NotFound)
        } else {
            match self.may_send(self.tokens[token_id], sender, height, time) {
                Err(e) => Err(e),
                Ok(_) => Ok(
                    Outcome {
                        registry: Registry {
                            tokens: self.tokens.remove(token_id),
                            burned: self.burned.insert(token_id),
                            ..self
                        },
                        response: token_response("burn"@, sender, token_id),
                    },
                ),
            }
        }
    }

    /// Replaces the token's URI, unless the hook has turned the change down.
    /// Only the creator may; owner, approvals and extension stay.
    pub open spec fn update_nft_info_with(
        self,
        sender: Seq<char>,
        token_id: Seq<char>,
        token_uri: Option<Seq<char>>,
        verdict: Result<(), Cw721ContractError>,
    ) -> Result<Outcome, Cw721ContractError> {
        if !self.tokens.contains_key(token_id) {
            Err(Cw721ContractError::NotFound)
        } else if !self.creator.is_owner(sender) {
            Err(Cw721ContractError::Unauthorized)
        } else {
            match verdict {
                Err(e) => Err(e),
                Ok(_) => Ok(
                    Outcome {
                        registry: self.with_token(
                            token_id,
                            NftInfoView { token_uri, ..self.tokens[token_id] },
                        ),
                        response: ResponseView::empty().add_attribute(
                            "action"@,
                            "update_nft_info"@,
                        ).add_attribute("token_id"@, token_id),
                    },
                ),
            }
        }
    }

    /// Replaces the token's URI.
    pub open spec fn update_nft_info(
        self,
        sender: Seq<char>,
        token_id: Seq<char>,
        token_uri: Option<Seq<char>>,
    ) -> Result<Outcome, Cw721ContractError> {
        self.update_nft_info_with(sender, token_id, token_uri, Ok(()))
    }

    /// Lets `sender` act on the minter's record.
    pub open spec fn update_minter_ownership(
        self,
        height: u64,
        time: u64,
        sender: Seq<char>,
        action: ActionView,
    ) -> Result<Outcome, Cw721ContractError> {
        match self.minter.after(height, time, sender, action) {
            Err(e) => Err(e),
            Ok(minter) => Ok(
                Outcome {
                    registry: Registry { minter, ..self },
                    response: ResponseView::empty().add_attribute(
                        "update_minter_ownership"@,
                        sender,
                    ).add_attributes(ownership_attributes(minter)),
                },
            ),
        }
    }

    /// Lets `sender` act on the creator's record.
    pub open spec fn update_creator_ownership(
        self,
        height: u64,
        time: u64,
        sender: Seq<char>,
        action: ActionView,
    ) -> Result<Outcome, Cw721ContractError> {
        match self.creator.after(height, time, sender, action) {
            Err(e) => Err(e),
            Ok(creator) => Ok(
                Outcome {
                    registry: Registry { creator, ..self },
                    response: ResponseView::empty().add_attribute(
                        "update_creator_ownership"@,
                        sender,
                    ).add_attributes(ownership_attributes(creator)),
                },
            ),
        }
    }

    /// Sets the address that the registry's funds are paid out to. Only the
    /// creator may.
    pub open spec fn set_withdraw_address(self, sender: Seq<char>, address: AddressView) -> Result<
        Outcome,
        Cw721ContractError,
    > {
        if !self.creator.is_owner(sender) {
            Err(Cw721ContractError::Unauthorized)
        } else if !address.well_formed {
            Err(Cw721ContractError::InvalidInput)
        } else {
            Ok(
                Outcome {
                    registry: Registry { withdraw_address: Some(address.text), ..self },
                    response: ResponseView::empty().add_attribute(
                        "action"@,
                        "set_withdraw_address"@,
                    ).add_attribute("address"@, address.text),
                },
            )
        }
    }

    /// Clears the address that funds are paid out to. Only the creator may.
    /// The answer names the address that was set; where none was set, there
    /// is nothing to clear and nothing to name, and that is no fault.
    pub open spec fn remove_withdraw_address(self, sender: Seq<char>) -> Result<
        Outcome,
        Cw721ContractError,
    > {
        if !self.creator.is_owner(sender) {
            Err(Cw721ContractError::Unauthorized)
        } else {
            Ok(
                Outcome {
                    registry: Registry { withdraw_address: None, ..self },
                    response: match self.withdraw_address {
                        None => ResponseView::empty().add_attribute(
                            "action"@,
                            "remove_withdraw_address"@,
                        ),
                        Some(address) => ResponseView::empty().add_attribute(
                            "action"@,
                            "remove_withdraw_address"@,
                        ).add_attribute("address"@, address),
                    },
                },
            )
        }
    }

    /// Asks the host to pay `amount` to the withdraw address. Only the
    /// creator may; an address must be set, and the amount must not be zero.
    /// The registry itself does not change.
    pub open spec fn withdraw_funds(self, sender: Seq<char>, amount: CoinView) -> Result<
        Outcome,
        Cw721ContractError,
    > {
        if !self.creator.is_owner(sender) {
            Err(Cw721ContractError::Unauthorized)
        } else if self.withdraw_address is None || amount.amount == 0 {
            Err(Cw721ContractError::InvalidInput)
        } else {
            Ok(
                Outcome {
                    registry: self,
                    response: ResponseView::empty().add_message(
                        HostMsgView::Send { to_address: self.withdraw_address->Some_0, amount },
                    ).add_attribute("action"@, "withdraw_funds"@).add_attribute(
                        "address"@,
                        self.withdraw_address->Some_0,
                    ).add_attribute("denom"@, amount.denom),
                },
            )
        }
    }
}

/// The address that `named` gives, or the caller's own where none is named.
pub open spec fn named_or_sender(named: Option<AddressView>, sender: Seq<char>) -> Seq<char> {
    match named {
        Some(a) => a.text,
        None => sender,
    }
}

/// Whether an address that may be left out is malformed.
pub open spec fn malformed(named: Option<AddressView>) -> bool {
    named matches Some(a) && !a.well_formed
}

impl Registry {
    /// The registry that a collection starts with: no tokens and no grants,
    /// both roles held and not on offer.
    pub open spec fn fresh(
        collection_info: CollectionInfoView,
        collection_extension: Seq<AttributeView>,
        minter: Seq<char>,
        creator: Seq<char>,
        withdraw_address: Option<Seq<char>>,
    ) -> Registry {
        Registry {
            collection_info,
            collection_extension,
            tokens: Map::empty(),
            burned: Set::empty(),
            operators: Map::empty(),
            minter: OwnershipView::held_by(Some(minter)),
            creator: OwnershipView::held_by(Some(creator)),
            withdraw_address,
        }
    }

    /// What a collection starts with, once the hook has said what the
    /// collection's extension is to be, or has turned it down. Minter and
    /// creator are those that the message names, or the caller. A malformed
    /// address is refused.
    pub open spec fn instantiate_with(
        time: u64,
        sender: Seq<char>,
        msg: Cw721InstantiateMsgView,
        extension: Result<Seq<AttributeView>, Cw721ContractError>,
    ) -> Result<Outcome, Cw721ContractError> {
        if malformed(msg.minter) || malformed(msg.creator) || malformed(msg.withdraw_address) {
            Err(Cw721ContractError::InvalidInput)
        } else {
            match extension {
                Err(e) => Err(e),
                Ok(extension) => Ok(
                    Outcome {
                        registry: Registry::fresh(
                            CollectionInfoView {
                                name: msg.name,
                                symbol: msg.symbol,
                                updated_at: time,
                            },
                            extension,
                            named_or_sender(msg.minter, sender),
                            named_or_sender(msg.creator, sender),
                            match msg.withdraw_address {
                                Some(a) => Some(a.text),
                                None => None,
                            },
                        ),
                        response: ResponseView::empty().add_attribute(
                            "minter"@,
                            named_or_sender(msg.minter, sender),
                        ).add_attribute("creator"@, named_or_sender(msg.creator, sender)),
                    },
                ),
            }
        }
    }

    /// What a collection starts with where its extension is the attributes
    /// that the message carries.
    pub open spec fn instantiate(time: u64, sender: Seq<char>, msg: Cw721InstantiateMsgView) -> Result<
        Outcome,
        Cw721ContractError,
    > {
        Registry::instantiate_with(time, sender, msg, Ok(msg.collection_info_extension))
    }

    /// What the command `msg` does, by its kind.
    pub open spec fn execute(self, height: u64, time: u64, sender: Seq<char>, msg: Cw721ExecuteMsgView) -> Result<
        Outcome,
        Cw721ContractError,
    > {
        match msg {
            Cw721ExecuteMsgView::Mint { token_id, owner, token_uri } => self.mint(
                sender,
                token_id,
                owner,
                token_uri,
            ),
            Cw721ExecuteMsgView::Approve { spender, token_id, expires } => self.approve(
                height,
                time,
                sender,
                spender,
                token_id,
                expires,
            ),
            Cw721ExecuteMsgView::Revoke { spender, token_id } => self.revoke(
                height,
                time,
                sender,
                spender,
                token_id,
            ),
            Cw721ExecuteMsgView::ApproveAll { operator, expires } => self.approve_all(
                height,
                time,
                sender,
                operator,
                expires,
            ),
            Cw721ExecuteMsgView::RevokeAll { operator } => self.revoke_all(sender, operator),
            Cw721ExecuteMsgView::TransferNft { recipient, token_id } => self.transfer_nft(
                height,
                time,
                sender,
                recipient,
                token_id,
            ),
            Cw721ExecuteMsgView::SendNft { contract, token_id, msg } => self.send_nft(
                height,
                time,
                sender,
                contract,
                token_id,
                msg,
            ),
            Cw721ExecuteMsgView::Burn { token_id } => self.burn_nft(height, time, sender, token_id),
            Cw721ExecuteMsgView::UpdateOwnership(action) => self.update_minter_ownership(
                height,
                time,
                sender,
                action,
            ),
            Cw721ExecuteMsgView::UpdateMinterOwnership(action) => self.update_minter_ownership(
                height,
                time,
                sender,
                action,
            ),
            Cw721ExecuteMsgView::UpdateCreatorOwnership(action) => self.update_creator_ownership(
                height,
                time,
                sender,
                action,
            ),
            Cw721ExecuteMsgView::UpdateNftInfo { token_id, token_uri } => self.update_nft_info(
                sender,
                token_id,
                token_uri,
            ),
            Cw721ExecuteMsgView::SetWithdrawAddress { address } => self.set_withdraw_address(
                sender,
                address,
            ),
            Cw721ExecuteMsgView::RemoveWithdrawAddress {  } => self.remove_withdraw_address(sender),
            Cw721ExecuteMsgView::WithdrawFunds { amount } => self.withdraw_funds(sender, amount),
        }
    }
}

/// A record of the minter's role, held by `minter` if one is named.
pub fn initialize_minter(minter: Option<String>) -> (o: Ownership)
    ensures
        o@ == OwnershipView::held_by(text_of(minter)),
{
    Ownership::held_by(minter)
}

/// A record of the creator's role, held by `creator` if one is named.
pub fn initialize_creator(creator: Option<String>) -> (o: Ownership)
    ensures
        o@ == OwnershipView::held_by(text_of(creator)),
{
    Ownership::held_by(creator)
}

/// Whether a registry was set up as `expected` says.
pub open spec fn set_up(
    expected: Result<Outcome, Cw721ContractError>,
    r: Result<(Cw721Config, Response), Cw721ContractError>,
) -> bool {
    match expected {
        Ok(o) => r matches Ok(made) && made.0.wf() && made.0@ == o.registry && made.1@ == o.response,
        Err(e) => r matches Err(f) && f == e,
    }
}

/// The extension that a hook has made, as a mathematical value.
pub open spec fn extension_of(made: Result<Vec<Attribute>, Cw721ContractError>) -> Result<
    Seq<AttributeView>,
    Cw721ContractError,
> {
    match made {
        Ok(attributes) => Ok(attributes_of(attributes@)),
        Err(e) => Err(e),
    }
}

/// The registry of a collection that has no extension yet, and the answer
/// that tells of its minter and creator.
fn blank(env: &Env, info: &MessageInfo, msg: Cw721InstantiateMsg) -> (r: Result<
    (Cw721Config, Response),
    Cw721ContractError,
>)
    ensures
        set_up(
            Registry::instantiate_with(env.block.time, info.sender@, msg@, Ok(Seq::empty())),
            r,
        ),
{
    if malformed_exec(&msg.minter) || malformed_exec(&msg.creator) || malformed_exec(
        &msg.withdraw_address,
    ) {
        return Err(Cw721ContractError::InvalidInput);
    }
    let withdraw_address = match msg.withdraw_address {
        None => None,
        Some(a) => Some(a.text),
    };
    let minter = match msg.minter {
        None => info.sender.clone(),
        Some(a) => a.text,
    };
    let creator = match msg.creator {
        None => info.sender.clone(),
        Some(a) => a.text,
    };
    let response = Response::new().add_attribute("minter", minter.as_str()).add_attribute(
        "creator",
        creator.as_str(),
    );
    let state = Cw721Config {
        collection_info: CollectionInfo {
            name: msg.name,
            symbol: msg.symbol,
            updated_at: env.block.time,
        },
        collection_extension: Vec::new(),
        token_count: 0,
        operators: Table::new(),
        nft_info: Table::new(),
        burned: Table::new(),
        withdraw_address,
        minter: initialize_minter(Some(minter)),
        creator: initialize_creator(Some(creator)),
    };
    proof {
        assert(state@.burned =~= Set::empty());
        assert(state@.collection_extension =~= Seq::empty());
        assert(state@ =~= Registry::instantiate_with(
            env.block.time,
            info.sender@,
            msg@,
            Ok(Seq::empty()),
        )->Ok_0.registry);
    }
    Ok((state, response))
}

/// Sets a registry up, once the hook has said what the collection's
/// extension is to be, or has turned it down.
pub fn instantiate_from(
    env: &Env,
    info: &MessageInfo,
    msg: Cw721InstantiateMsg,
    extension: Result<Vec<Attribute>, Cw721ContractError>,
) -> (r: Result<(Cw721Config, Response), Cw721ContractError>)
    ensures
        set_up(
            Registry::instantiate_with(env.block.time, info.sender@, msg@, extension_of(extension)),
            r,
        ),
{
    match blank(env, info, msg) {
        Err(e) => Err(e),
        Ok((mut state, response)) => match extension {
            Err(e) => Err(e),
            Ok(attributes) => {
                state.collection_extension = attributes;
                assert(state@ =~= Registry::instantiate_with(
                    env.block.time,
                    info.sender@,
                    msg@,
                    extension_of(extension),
                )->Ok_0.registry);
                Ok((state, response))
            },
        },
    }
}

/// Sets a registry up with the extension that the hook `extension` makes
/// for the collection. The hook is asked when the addresses of the message
/// are in order, and is shown the registry as it stands without an
/// extension. Whatever the hook answers, the registry is set up as
/// `instantiate_from` sets it up on that answer.
pub fn instantiate_with<C: StateFactory<Vec<Attribute>>>(
    env: &Env,
    info: &MessageInfo,
    msg: Cw721InstantiateMsg,
    extension: &C,
) -> (r: Result<(Cw721Config, Response), Cw721ContractError>)
    ensures
        Registry::instantiate_with(env.block.time, info.sender@, msg@, Ok(Seq::empty())) is Err
            ==> set_up(
            Registry::instantiate_with(env.block.time, info.sender@, msg@, Ok(Seq::empty())),
            r,
        ),
        Registry::instantiate_with(env.block.time, info.sender@, msg@, Ok(Seq::empty())) is Ok
            ==> exists|made: Result<Vec<Attribute>, Cw721ContractError>, bare: &Cw721Config|
            bare.wf() && bare@ == Registry::instantiate_with(
                env.block.time,
                info.sender@,
                msg@,
                Ok(Seq::empty()),
            )->Ok_0.registry && call_ensures(
                C::create,
                (extension, bare, env, Some(info), None::<&Vec<Attribute>>),
                made,
            ) && set_up(
                Registry::instantiate_with(env.block.time, info.sender@, msg@, extension_of(made)),
                r,
            ),
{
    match blank(env, info, msg) {
        Err(e) => Err(e),
        Ok((mut state, response)) => {
            let ghost bare = state;
            match extension.create(&state, env, Some(info), None) {
                Err(e) => Err(e),
                Ok(attributes) => {
                    state.collection_extension = attributes;
                    proof {
                        let made = Ok::<Vec<Attribute>, Cw721ContractError>(attributes);
                        assert(state@ =~= Registry::instantiate_with(
                            env.block.time,
                            info.sender@,
                            msg@,
                            extension_of(made),
                        )->Ok_0.registry);
                    }
                    Ok((state, response))
                },
            }
        },
    }
}

/// Sets a registry up: the first call of all. The collection's extension is
/// the attributes that the message carries.
pub fn instantiate(env: &Env, info: &MessageInfo, msg: Cw721InstantiateMsg) -> (r: Result<
    (Cw721Config, Response),
    Cw721ContractError,
>)
    ensures
        set_up(Registry::instantiate(env.block.time, info.sender@, msg@), r),
{
    let attributes = copy_attributes(&msg.collection_info_extension);
    instantiate_from(env, info, msg, Ok(attributes))
}

fn malformed_exec(named: &Option<Address>) -> (b: bool)
    ensures
        b == malformed(address_of(*named)),
{
    match named {
        Some(a) => !a.well_formed,
        None => false,
    }
}

/// Whether `sender` may move or burn `token`.
pub fn check_can_send(state: &Cw721Config, env: &Env, sender: &String, token: &NftInfo) -> (r: Result<
    (),
    Cw721ContractError,
>)
    requires
        state.wf(),
    ensures
        r == state@.may_send(token@, sender@, env.block.height, env.block.time),
{
    if token.owner == *sender {
        return Ok(());
    }
    let ghost approvals = token@.approvals;
    let mut held = false;
    let mut i: usize = 0;
    while i < token.approvals.len()
        invariant
            i <= token.approvals@.len(),
            approvals == approvals_of(token.approvals@),
            held == holds_approval(approvals.take(i as int), sender@),
            !holds_standing_approval(
                approvals.take(i as int),
                sender@,
                env.block.height,
                env.block.time,
            ),
        decreases token.approvals@.len() - i,
    {
        let approval = &token.approvals[i];
        let ghost before = approvals.take(i as int);
        let ghost now = approvals.take(i + 1);
        proof {
            assert(now[i as int] == approval@);
            assert forall|j: int| 0 <= j < i implies now[j] == before[j] by {}
        }
        if approval.spender == *sender {
            if !approval.is_expired(&env.block) {
                assert(approvals[i as int] == approval@);
                return Ok(());
            }
            held = true;
        }
        proof {
            if holds_approval(before, sender@) {
                let j = choose|j: int| 0 <= j < before.len() && (#[trigger] before[j]).spender == sender@;
                assert(now[j].spender == sender@);
            }
            if holds_approval(now, sender@) && approval.spender@ != sender@ {
                let j = choose|j: int| 0 <= j < now.len() && (#[trigger] now[j]).spender == sender@;
                assert(before[j].spender == sender@);
            }
            if holds_standing_approval(now, sender@, env.block.height, env.block.time) {
                let j = choose|j: int|
                    0 <= j < now.len() && (#[trigger] now[j]).spender == sender@
                        && !now[j].expires.lapsed(env.block.height, env.block.time);
                assert(before[j].spender == sender@);
            }
        }
        i = i + 1;
    }
    assert(approvals.take(i as int) =~= approvals);
    let key = OperatorKey { owner: token.owner.clone(), operator: sender.clone() };
    match state.operators.get(&key) {
        Some(expires) => {
            if expires.is_expired(&env.block) {
                Err(Cw721ContractError::Expired)
            } else {
                Ok(())
            }
        },
        None => {
            if held {
                Err(Cw721ContractError::Expired)
            } else {
                Err(Cw721ContractError::Unauthorized)
            }
        },
    }
}

/// Whether `sender` may give and take approvals on `token`.
pub fn check_can_approve(state: &Cw721Config, env: &Env, sender: &String, token: &NftInfo) -> (r: bool)
    requires
        state.wf(),
    ensures
        r == state@.may_approve(token@, sender@, env.block.height, env.block.time),
{
    if token.owner == *sender {
        return true;
    }
    let key = OperatorKey { owner: token.owner.clone(), operator: sender.clone() };
    match state.operators.get(&key) {
        Some(expires) => !expires.is_expired(&env.block),
        None => false,
    }
}

/// The approvals without those of `spender`.
pub fn without_spender(approvals: &Vec<Approval>, spender: &String) -> (kept: Vec<Approval>)
    ensures
        approvals_of(kept@) == revoked(approvals_of(approvals@), spender@),
{
    let ghost all = approvals_of(approvals@);
    let mut kept: Vec<Approval> = Vec::new();
    let mut i: usize = 0;
    assert(approvals_of(kept@) =~= revoked(all.take(0), spender@));
    while i < approvals.len()
        invariant
            i <= approvals@.len(),
            all == approvals_of(approvals@),
            approvals_of(kept@) == revoked(all.take(i as int), spender@),
        decreases approvals@.len() - i,
    {
        let ghost before = approvals_of(kept@);
        proof {
            assert(all.take(i + 1) =~= all.take(i as int).push(approvals@[i as int]@));
            lemma_revoked_push(all.take(i as int), approvals@[i as int]@, spender@);
        }
        if approvals[i].spender != *spender {
            kept.push(approvals[i].clone());
            assert(approvals_of(kept@) =~= before.push(approvals@[i as int]@));
        }
        i = i + 1;
    }
    assert(all.take(i as int) =~= all);
    kept
}

/// Why the token cannot be minted, before its extension is looked at.
fn mint_refused(state: &Cw721Config, info: &MessageInfo, token_id: &String, owner: &Address) -> (r: Option<
    Cw721ContractError,
>)
    requires
        state.wf(),
    ensures
        r == state@.mint_refused(info.sender@, token_id@, owner@),
{
    if !state.minter.is_owner(&info.sender) {
        Some(Cw721ContractError::Unauthorized)
    } else if state.nft_info.contains_key(token_id) || state.burned.contains_key(token_id) {
        Some(Cw721ContractError::AlreadyExists)
    } else if !owner.well_formed {
        Some(Cw721ContractError::InvalidInput)
    } else {
        None
    }
}

/// Creates the token `token_id` for `owner`, once the hook has said what the
/// token's extension is to be, or has turned the message down.
pub fn mint_token(
    state: &mut Cw721Config,
    info: &MessageInfo,
    token_id: String,
    owner: Address,
    token_uri: Option<String>,
    extension: Result<Option<Empty>, Cw721ContractError>,
) -> (r: Result<Response, Cw721ContractError>)
    requires
        old(state).wf(),
    ensures
        final(state).wf(),
        carried_out(
            old(state)@.mint_with(info.sender@, token_id@, owner@, text_of(token_uri), extension),
            old(state)@,
            final(state)@,
            r,
        ),
{
    match mint_refused(state, info, &token_id, &owner) {
        Some(e) => {
            return Err(e);
        },
        None => {},
    }
    let payload = match extension {
        Err(e) => {
            return Err(e);
        },
        Ok(payload) => payload,
    };
    let response = Response::new().add_attribute("action", "mint").add_attribute(
        "minter",
        info.sender.as_str(),
    ).add_attribute("owner", owner.text.as_str()).add_attribute("token_id", token_id.as_str());
    let token = NftInfo { owner: owner.text, approvals: Vec::new(), token_uri, extension: payload };
    proof {
        old(state).nft_info.lemma_listing();
        assert(token@.approvals =~= Seq::empty());
    }
    state.nft_info.insert(token_id, token);
    proof {
        state.nft_info.lemma_listing();
    }
    state.token_count = state.nft_info.len() as u64;
    assert(state@ =~= old(state)@.with_token(token_id@, token@));
    Ok(response)
}

/// Creates the token `token_id` for `owner`, with the extension that the
/// hook `extension` makes. The hook is asked last, when nothing else stands
/// against the token, and is shown no payload, since the token has none yet.
/// Whatever the hook answers, the token is minted as `mint_token` mints it
/// on that answer.
pub fn mint_with<M: StateFactory<Option<Empty>>>(
    state: &mut Cw721Config,
    env: &Env,
    info: &MessageInfo,
    token_id: String,
    owner: Address,
    token_uri: Option<String>,
    extension: &M,
) -> (r: Result<Response, Cw721ContractError>)
    requires
        old(state).wf(),
    ensures
        final(state).wf(),
        match old(state)@.mint_refused(info.sender@, token_id@, owner@) {
            Some(e) => r == Err::<Response, Cw721ContractError>(e) && final(state)@ == old(state)@,
            None => exists|made: Result<Option<Empty>, Cw721ContractError>|
                call_ensures(
                    M::create,
                    (extension, &*old(state), env, Some(info), None::<&Option<Empty>>),
                    made,
                ) && carried_out(
                    old(state)@.mint_with(
                        info.sender@,
                        token_id@,
                        owner@,
                        text_of(token_uri),
                        made,
                    ),
                    old(state)@,
                    final(state)@,
                    r,
                ),
        },
{
    match mint_refused(state, info, &token_id, &owner) {
        Some(e) => {
            return Err(e);
        },
        None => {},
    }
    let made = extension.create(state, env, Some(info), None);
    mint_token(state, info, token_id, owner, token_uri, made)
}

/// Creates the token `token_id` for `owner`, without an extension.
pub fn mint(
    state: &mut Cw721Config,
    env: &Env,
    info: &MessageInfo,
    token_id: String,
    owner: Address,
    token_uri: Option<String>,
) -> (r: Result<Response, Cw721ContractError>)
    requires
        old(state).wf(),
    ensures
        final(state).wf(),
        carried_out(
            old(state)@.mint(info.sender@, token_id@, owner@, text_of(token_uri)),
            old(state)@,
            final(state)@,
            r,
        ),
{
    let none: Option<Empty> = None;
    mint_with(state, env, info, token_id, owner, token_uri, &none)
}

/// Tests a transfer of the token to `recipient`, and hands the token over
/// if `sender` may.
fn hand_over(
    state: &mut Cw721Config,
    env: &Env,
    sender: &String,
    recipient: &Address,
    token_id: &String,
) -> (r: Result<(), Cw721ContractError>)
    requires
        old(state).wf(),
    ensures
        final(state).wf(),
        match old(state)@.transfer_refused(
            env.block.height,
            env.block.time,
            sender@,
            recipient@,
            token_id@,
        ) {
            Some(e) => r == Err::<(), Cw721ContractError>(e) && final(state)@ == old(state)@,
            None => r is Ok && final(state)@ == old(state)@.handed_over(token_id@, recipient.text@),
        },
{
    let handed = match state.nft_info.get(token_id) {
        None => {
            return Err(Cw721ContractError::NotFound);
        },
        Some(token) => {
            match check_can_send(state, env, sender, token) {
                Err(e) => {
                    return Err(e);
                },
                Ok(_) => {},
            }
            if !recipient.well_formed {
                return Err(Cw721ContractError::InvalidInput);
            }
            NftInfo {
                owner: recipient.text.clone(),
                approvals: Vec::new(),
                token_uri: copy_text(&token.token_uri),
                extension: token.extension,
            }
        },
    };
    proof {
        old(state).nft_info.lemma_listing();
        assert(handed@.approvals =~= Seq::empty());
    }
    state.nft_info.insert(token_id.clone(), handed);
    proof {
        assert(state.nft_info@.dom() =~= old(state).nft_info@.dom());
        assert(state@ =~= old(state)@.handed_over(token_id@, recipient.text@));
    }
    Ok(())
}

/// Gives the token to `recipient`.
pub fn transfer_nft(
    state: &mut Cw721Config,
    env: &Env,
    info: &MessageInfo,
    recipient: Address,
    token_id: String,
) -> (r: Result<Response, Cw721ContractError>)
    requires
        old(state).wf(),
    ensures
        final(state).wf(),
        carried_out(
            old(state)@.transfer_nft(
                env.block.height,
                env.block.time,
                info.sender@,
                recipient@,
                token_id@,
            ),
            old(state)@,
            final(state)@,
            r,
        ),
{
    match hand_over(state, env, &info.sender, &recipient, &token_id) {
        Err(e) => Err(e),
        Ok(_) => Ok(
            Response::new().add_attribute("action", "transfer_nft").add_attribute(
                "sender",
                info.sender.as_str(),
            ).add_attribute("recipient", recipient.text.as_str()).add_attribute(
                "token_id",
                token_id.as_str(),
            ),
        ),
    }
}

/// Gives the token to `contract` and has the host tell the contract, with
/// `msg`.
pub fn send_nft(
    state: &mut Cw721Config,
    env: &Env,
    info: &MessageInfo,
    contract: Address,
    token_id: String,
    msg: Vec<u8>,
) -> (r: Result<Response, Cw721ContractError>)
    requires
        old(state).wf(),
    ensures
        final(state).wf(),
        carried_out(
            old(state)@.send_nft(
                env.block.height,
                env.block.time,
                info.sender@,
                contract@,
                token_id@,
                msg@,
            ),
            old(state)@,
            final(state)@,
            r,
        ),
{
    match hand_over(state, env, &info.sender, &contract, &token_id) {
        Err(e) => Err(e),
        Ok(_) => {
            let response = Response::new().add_message(
                HostMsg::ReceiveNft {
                    contract: contract.text.clone(),
                    sender: info.sender.clone(),
                    token_id: token_id.clone(),
                    msg,
                },
            ).add_attribute("action", "send_nft").add_attribute(
                "sender",
                info.sender.as_str(),
            ).add_attribute("recipient", contract.text.as_str()).add_attribute(
                "token_id",
                token_id.as_str(),
            );
            Ok(response)
        },
    }
}

/// Tests a change of `spender`'s approvals on the token, and sets them: the
/// spender's approval is taken away, and a new one added where `add` holds.
fn update_approvals(
    state: &mut Cw721Config,
    env: &Env,
    sender: &String,
    spender: &Address,
    token_id: &String,
    add: Option<Expiration>,
) -> (r: Result<(), Cw721ContractError>)
    requires
        old(state).wf(),
    ensures
        final(state).wf(),
        match old(state)@.approval_refused(
            env.block.height,
            env.block.time,
            sender@,
            spender@,
            token_id@,
        ) {
            Some(e) => r == Err::<(), Cw721ContractError>(e) && final(state)@ == old(state)@,
            None => {
                let token = old(state)@.tokens[token_id@];
                let kept = revoked(token.approvals, spender.text@);
                r is Ok && final(state)@ == old(state)@.with_token(
                    token_id@,
                    NftInfoView {
                        approvals: match add {
                            Some(e) => kept.push(ApprovalView { spender: spender.text@, expires: e }),
                            None => kept,
                        },
                        ..token
                    },
                )
            },
        },
{
    let updated = match state.nft_info.get(token_id) {
        None => {
            return Err(Cw721ContractError::NotFound);
        },
        Some(token) => {
            if !check_can_approve(state, env, sender, token) {
                return Err(Cw721ContractError::Unauthorized);
            }
            if !spender.well_formed {
                return Err(Cw721ContractError::InvalidInput);
            }
            let mut approvals = without_spender(&token.approvals, &spender.text);
            match add {
                Some(expires) => {
                    let ghost kept = approvals_of(approvals@);
                    approvals.push(Approval { spender: spender.text.clone(), expires });
                    assert(approvals_of(approvals@) =~= kept.push(
                        ApprovalView { spender: spender.text@, expires },
                    ));
                },
                None => {},
            }
            NftInfo {
                owner: token.owner.clone(),
                approvals,
                token_uri: copy_text(&token.token_uri),
                extension: token.extension,
            }
        },
    };
    proof {
        old(state).nft_info.lemma_listing();
        let before = old(state)@.tokens[token_id@].approvals;
        lemma_revoked(before, spender.text@);
        if add is Some {
            lemma_replaced_is_distinct(before, spender.text@, add->Some_0);
        }
    }
    state.nft_info.insert(token_id.clone(), updated);
    proof {
        assert(state.nft_info@.dom() =~= old(state).nft_info@.dom());
        assert(state@ =~= old(state)@.with_token(token_id@, updated@));
    }
    Ok(())
}

/// The expiration that was asked for, or never.
pub fn expiration_or_never(expires: Option<Expiration>) -> (e: Expiration)
    ensures
        e == or_never(expires),
{
    match expires {
        Some(e) => e,
        None => Expiration::default(),
    }
}

/// Gives `spender` an approval on the token.
pub fn approve(
    state: &mut Cw721Config,
    env: &Env,
    info: &MessageInfo,
    spender: Address,
    token_id: String,
    expires: Option<Expiration>,
) -> (r: Result<Response, Cw721ContractError>)
    requires
        old(state).wf(),
    ensures
        final(state).wf(),
        carried_out(
            old(state)@.approve(
                env.block.height,
                env.block.time,
                info.sender@,
                spender@,
                token_id@,
                expires,
            ),
            old(state)@,
            final(state)@,
            r,
        ),
{
    let expires = expiration_or_never(expires);
    match update_approvals(state, env, &info.sender, &spender, &token_id, Some(expires)) {
        Err(e) => Err(e),
        Ok(_) => Ok(
            Response::new().add_attribute("action", "approve").add_attribute(
                "sender",
                info.sender.as_str(),
            ).add_attribute("spender", spender.text.as_str()).add_attribute(
                "token_id",
                token_id.as_str(),
            ),
        ),
    }
}

/// Takes from `spender` the approval on the token.
pub fn revoke(
    state: &mut Cw721Config,
    env: &Env,
    info: &MessageInfo,
    spender: Address,
    token_id: String,
) -> (r: Result<Response, Cw721ContractError>)
    requires
        old(state).wf(),
    ensures
        final(state).wf(),
        carried_out(
            old(state)@.revoke(env.block.height, env.block.time, info.sender@, spender@, token_id@),
            old(state)@,
            final(state)@,
            r,
        ),
{
    match update_approvals(state, env, &info.sender, &spender, &token_id, None) {
        Err(e) => Err(e),
        Ok(_) => Ok(
            Response::new().add_attribute("action", "revoke").add_attribute(
                "sender",
                info.sender.as_str(),
            ).add_attribute("spender", spender.text.as_str()).add_attribute(
                "token_id",
                token_id.as_str(),
            ),
        ),
    }
}

/// Makes `operator` an operator of the caller.
pub fn approve_all(
    state: &mut Cw721Config,
    env: &Env,
    info: &MessageInfo,
    operator: Address,
    expires: Option<Expiration>,
) -> (r: Result<Response, Cw721ContractError>)
    requires
        old(state).wf(),
    ensures
        final(state).wf(),
        carried_out(
            old(state)@.approve_all(
                env.block.height,
                env.block.time,
                info.sender@,
                operator@,
                expires,
            ),
            old(state)@,
            final(state)@,
            r,
        ),
{
    if !operator.well_formed {
        return Err(Cw721ContractError::InvalidInput);
    }
    let expires = expiration_or_never(expires);
    let response = Response::new().add_attribute("action", "approve_all").add_attribute(
        "sender",
        info.sender.as_str(),
    ).add_attribute("operator", operator.text.as_str());
    state.operators.insert(OperatorKey { owner: info.sender.clone(), operator: operator.text }, expires);
    Ok(response)
}

/// Takes from `operator` the grant of the caller.
pub fn revoke_all(state: &mut Cw721Config, env: &Env, info: &MessageInfo, operator: Address) -> (r: Result<
    Response,
    Cw721ContractError,
>)
    requires
        old(state).wf(),
    ensures
        final(state).wf(),
        carried_out(
            old(state)@.revoke_all(info.sender@, operator@),
            old(state)@,
            final(state)@,
            r,
        ),
{
    if !operator.well_formed {
        return Err(Cw721ContractError::InvalidInput);
    }
    let response = Response::new().add_attribute("action", "revoke_all").add_attribute(
        "sender",
        info.sender.as_str(),
    ).add_attribute("operator", operator.text.as_str());
    let key = OperatorKey { owner: info.sender.clone(), operator: operator.text };
    let _ = state.operators.remove(&key);
    Ok(response)
}

/// Removes the token for good.
pub fn burn_nft(state: &mut Cw721Config, env: &Env, info: &MessageInfo, token_id: String) -> (r: Result<
    Response,
    Cw721ContractError,
>)
    requires
        old(state).wf(),
    ensures
        final(state).wf(),
        carried_out(
            old(state)@.burn_nft(env.block.height, env.block.time, info.sender@, token_id@),
            old(state)@,
            final(state)@,
            r,
        ),
{
    match state.nft_info.get(&token_id) {
        None => {
            return Err(Cw721ContractError::NotFound);
        },
        Some(token) => {
            match check_can_send(state, env, &info.sender, token) {
                Err(e) => {
                    return Err(e);
                },
                Ok(_) => {},
            }
        },
    }
    let response = Response::new().add_attribute("action", "burn").add_attribute(
        "sender",
        info.sender.as_str(),
    ).add_attribute("token_id", token_id.as_str());
    proof {
        old(state).nft_info.lemma_listing();
    }
    let _ = state.nft_info.remove(&token_id);
    proof {
        state.nft_info.lemma_listing();
    }
    state.token_count = state.nft_info.len() as u64;
    state.burned.insert(token_id, ());
    proof {
        assert(state@.burned =~= old(state)@.burned.insert(token_id@));
        assert(state@ =~= old(state)@.burn_nft(
            env.block.height,
            env.block.time,
            info.sender@,
            token_id@,
        )->Ok_0.registry);
    }
    Ok(response)
}

/// Replaces the token's URI, once the hook has said whether the change is
/// in order.
pub fn replace_nft_info(
    state: &mut Cw721Config,
    info: &MessageInfo,
    token_id: String,
    token_uri: Option<String>,
    verdict: Result<(), Cw721ContractError>,
) -> (r: Result<Response, Cw721ContractError>)
    requires
        old(state).wf(),
    ensures
        final(state).wf(),
        carried_out(
            old(state)@.update_nft_info_with(info.sender@, token_id@, text_of(token_uri), verdict),
            old(state)@,
            final(state)@,
            r,
        ),
{
    let updated = match state.nft_info.get(&token_id) {
        None => {
            return Err(Cw721ContractError::NotFound);
        },
        Some(token) => {
            if !state.creator.is_owner(&info.sender) {
                return Err(Cw721ContractError::Unauthorized);
            }
            match verdict {
                Err(e) => {
                    return Err(e);
                },
                Ok(_) => {},
            }
            NftInfo {
                owner: token.owner.clone(),
                approvals: copy_approvals(&token.approvals),
                token_uri,
                extension: token.extension,
            }
        },
    };
    let response = Response::new().add_attribute("action", "update_nft_info").add_attribute(
        "token_id",
        token_id.as_str(),
    );
    proof {
        old(state).nft_info.lemma_listing();
    }
    state.nft_info.insert(token_id, updated);
    proof {
        assert(state.nft_info@.dom() =~= old(state).nft_info@.dom());
        assert(state@ =~= old(state)@.with_token(token_id@, updated@));
    }
    Ok(response)
}

/// Replaces the token's URI, if the hook `extension` finds the change in
/// order. The hook is asked when the token is there and the caller is the
/// creator, and is shown the extension that the token has. Whatever the hook
/// answers, the token is changed as `replace_nft_info` changes it on that
/// answer.
pub fn update_nft_info_with<M: StateFactory<Option<Empty>>>(
    state: &mut Cw721Config,
    env: &Env,
    info: &MessageInfo,
    token_id: String,
    token_uri: Option<String>,
    extension: &M,
) -> (r: Result<Response, Cw721ContractError>)
    requires
        old(state).wf(),
    ensures
        final(state).wf(),
        if !old(state)@.tokens.contains_key(token_id@) {
            r == Err::<Response, Cw721ContractError>(Cw721ContractError::NotFound) && final(state)@
                == old(state)@
        } else if !old(state)@.creator.is_owner(info.sender@) {
            r == Err::<Response, Cw721ContractError>(Cw721ContractError::Unauthorized)
                && final(state)@ == old(state)@
        } else {
            exists|verdict: Result<(), Cw721ContractError>, current: &Option<Empty>|
                *current == old(state)@.tokens[token_id@].extension && call_ensures(
                    M::validate,
                    (extension, &*old(state), env, Some(info), Some(current)),
                    verdict,
                ) && carried_out(
                    old(state)@.update_nft_info_with(
                        info.sender@,
                        token_id@,
                        text_of(token_uri),
                        verdict,
                    ),
                    old(state)@,
                    final(state)@,
                    r,
                )
        },
{
    let verdict = match state.nft_info.get(&token_id) {
        None => {
            return Err(Cw721ContractError::NotFound);
        },
        Some(token) => {
            if !state.creator.is_owner(&info.sender) {
                return Err(Cw721ContractError::Unauthorized);
            }
            extension.validate(state, env, Some(info), Some(&token.extension))
        },
    };
    replace_nft_info(state, info, token_id, token_uri, verdict)
}

/// Replaces the token's URI.
pub fn update_nft_info(
    state: &mut Cw721Config,
    env: &Env,
    info: &MessageInfo,
    token_id: String,
    token_uri: Option<String>,
) -> (r: Result<Response, Cw721ContractError>)
    requires
        old(state).wf(),
    ensures
        final(state).wf(),
        carried_out(
            old(state)@.update_nft_info(info.sender@, token_id@, text_of(token_uri)),
            old(state)@,
            final(state)@,
            r,
        ),
{
    replace_nft_info(state, info, token_id, token_uri, Ok(()))
}

/// Lets the caller act on the minter's record.
pub fn update_minter_ownership(
    state: &mut Cw721Config,
    env: &Env,
    info: &MessageInfo,
    action: Action,
) -> (r: Result<Response, Cw721ContractError>)
    requires
        old(state).wf(),
    ensures
        final(state).wf(),
        carried_out(
            old(state)@.update_minter_ownership(
                env.block.height,
                env.block.time,
                info.sender@,
                action@,
            ),
            old(state)@,
            final(state)@,
            r,
        ),
{
    match update_ownership(&state.minter, &env.block, &info.sender, action) {
        Err(e) => Err(e),
        Ok(minter) => {
            let response = Response::new().add_attribute(
                "update_minter_ownership",
                info.sender.as_str(),
            ).add_attributes(minter.to_attributes());
            state.minter = minter;
            Ok(response)
        },
    }
}

/// Lets the caller act on the creator's record.
pub fn update_creator_ownership(
    state: &mut Cw721Config,
    env: &Env,
    info: &MessageInfo,
    action: Action,
) -> (r: Result<Response, Cw721ContractError>)
    requires
        old(state).wf(),
    ensures
        final(state).wf(),
        carried_out(
            old(state)@.update_creator_ownership(
                env.block.height,
                env.block.time,
                info.sender@,
                action@,
            ),
            old(state)@,
            final(state)@,
            r,
        ),
{
    match update_ownership(&state.creator, &env.block, &info.sender, action) {
        Err(e) => Err(e),
        Ok(creator) => {
            let response = Response::new().add_attribute(
                "update_creator_ownership",
                info.sender.as_str(),
            ).add_attributes(creator.to_attributes());
            state.creator = creator;
            Ok(response)
        },
    }
}

/// Sets the address that the registry's funds are paid out to.
pub fn set_withdraw_address(state: &mut Cw721Config, sender: &String, address: Address) -> (r: Result<
    Response,
    Cw721ContractError,
>)
    requires
        old(state).wf(),
    ensures
        final(state).wf(),
        carried_out(
            old(state)@.set_withdraw_address(sender@, address@),
            old(state)@,
            final(state)@,
            r,
        ),
{
    if !state.creator.is_owner(sender) {
        return Err(Cw721ContractError::Unauthorized);
    }
    if !address.well_formed {
        return Err(Cw721ContractError::InvalidInput);
    }
    let response = Response::new().add_attribute("action", "set_withdraw_address").add_attribute(
        "address",
        address.text.as_str(),
    );
    state.withdraw_address = Some(address.text);
    Ok(response)
}

/// Clears the address that funds are paid out to.
pub fn remove_withdraw_address(state: &mut Cw721Config, sender: &String) -> (r: Result<
    Response,
    Cw721ContractError,
>)
    requires
        old(state).wf(),
    ensures
        final(state).wf(),
        carried_out(
            old(state)@.remove_withdraw_address(sender@),
            old(state)@,
            final(state)@,
            r,
        ),
{
    if !state.creator.is_owner(sender) {
        return Err(Cw721ContractError::Unauthorized);
    }
    let response = match &state.withdraw_address {
        None => Response::new().add_attribute("action", "remove_withdraw_address"),
        Some(address) => Response::new().add_attribute(
            "action",
            "remove_withdraw_address",
        ).add_attribute("address", address.as_str()),
    };
    state.withdraw_address = None;
    Ok(response)
}

/// Asks the host to pay `amount` to the withdraw address.
pub fn withdraw_funds(state: &Cw721Config, sender: &String, amount: &Coin) -> (r: Result<
    Response,
    Cw721ContractError,
>)
    requires
        state.wf(),
    ensures
        carried_out(state@.withdraw_funds(sender@, amount@), state@, state@, r),
{
    if !state.creator.is_owner(sender) {
        return Err(Cw721ContractError::Unauthorized);
    }
    match &state.withdraw_address {
        None => Err(Cw721ContractError::InvalidInput),
        Some(address) => {
            if amount.amount == 0 {
                return Err(Cw721ContractError::InvalidInput);
            }
            Ok(
                Response::new().add_message(
                    HostMsg::Send { to_address: address.clone(), amount: amount.clone() },
                ).add_attribute("action", "withdraw_funds").add_attribute(
                    "address",
                    address.as_str(),
                ).add_attribute("denom", amount.denom.as_str()),
            )
        },
    }
}

} // verus!
