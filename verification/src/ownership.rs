//! How a role changes hands: the holder offers it, and the one to whom it is
//! offered accepts or declines. The minter's and the creator's role both go
//! by these rules.

use vstd::prelude::*;
use crate::error::Cw721ContractError;
use crate::response::EventAttribute;
use crate::state::{Address, AddressView, BlockInfo, Expiration, Ownership, OwnershipView, text_of};

verus! {

/// What can be done to the record of a role.
#[derive(Debug, PartialEq, Eq)]
pub enum Action {
    /// The holder offers the role to `new_owner`, until `expiry` if one is
    /// given. An earlier offer is replaced.
    TransferOwnership { new_owner: Address, expiry: Option<Expiration> },
    /// The one to whom the role is on offer takes it.
    AcceptOwnership,
    /// The one to whom the role is on offer declines it.
    RejectOwnership,
    /// The holder gives the role up: nobody holds it from then on.
    RenounceOwnership,
}

/// `Action` as a mathematical value.
pub enum ActionView {
    TransferOwnership { new_owner: AddressView, expiry: Option<Expiration> },
    AcceptOwnership,
    RejectOwnership,
    RenounceOwnership,
}

impl View for Action {
    type V = ActionView;

    open spec fn view(&self) -> ActionView {
        match self {
            Action::TransferOwnership { new_owner, expiry } => ActionView::TransferOwnership {
                new_owner: new_owner@,
                expiry: *expiry,
            },
            Action::AcceptOwnership => ActionView::AcceptOwnership,
            Action::RejectOwnership => ActionView::RejectOwnership,
            Action::RenounceOwnership => ActionView::RenounceOwnership,
        }
    }
}

impl OwnershipView {
    /// A record with a holder and no offer.
    pub open spec fn held_by(owner: Option<Seq<char>>) -> OwnershipView {
        OwnershipView { owner, pending_owner: None, pending_expiry: None }
    }

    /// Whether `who` holds the role.
    pub open spec fn is_owner(self, who: Seq<char>) -> bool {
        self.owner == Some(who)
    }

    /// Whether the offer's deadline has been reached.
    pub open spec fn offer_lapsed(self, height: u64, time: u64) -> bool {
        self.pending_expiry matches Some(e) && e.lapsed(height, time)
    }

    /// Whether an offer stands: one that has lapsed counts as none.
    pub open spec fn offer_stands(self, height: u64, time: u64) -> bool {
        self.pending_owner is Some && !self.offer_lapsed(height, time)
    }

    /// What accepting or declining the offer meets with: an offer must be on
    /// record, the caller must be the one it was made to, and its deadline
    /// must not have been reached, tested in this order.
    pub open spec fn answer_refused(self, height: u64, time: u64, sender: Seq<char>) -> Option<
        Cw721ContractError,
    > {
        if self.pending_owner is None {
            Some(Cw721ContractError::NotFound)
        } else if self.pending_owner != Some(sender) {
            Some(Cw721ContractError::Unauthorized)
        } else if self.offer_lapsed(height, time) {
            Some(Cw721ContractError::Expired)
        } else {
            None
        }
    }

    /// The record after `sender` has taken `action` at the given height and
    /// time, or why the action is refused.
    ///
    /// An offer is made by the holder alone, to a well-formed address. It is
    /// accepted or declined by the one it was made to, before its deadline.
    /// The role is renounced by the holder alone, and not while an offer
    /// stands: that, too, is refused as unauthorized.
    pub open spec fn after(self, height: u64, time: u64, sender: Seq<char>, action: ActionView) -> Result<
        OwnershipView,
        Cw721ContractError,
    > {
        match action {
            ActionView::TransferOwnership { new_owner, expiry } => {
                if !self.is_owner(sender) {
                    Err(Cw721ContractError::Unauthorized)
                } else if !new_owner.well_formed {
                    Err(Cw721ContractError::InvalidInput)
                } else {
                    Ok(
                        OwnershipView {
                            owner: self.owner,
                            pending_owner: Some(new_owner.text),
                            pending_expiry: expiry,
                        },
                    )
                }
            },
            ActionView::AcceptOwnership => {
                match self.answer_refused(height, time, sender) {
                    Some(e) => Err(e),
                    None => Ok(OwnershipView::held_by(self.pending_owner)),
                }
            },
            ActionView::RejectOwnership => {
                match self.answer_refused(height, time, sender) {
                    Some(e) => Err(e),
                    None => Ok(OwnershipView::held_by(self.owner)),
                }
            },
            ActionView::RenounceOwnership => {
                if !self.is_owner(sender) || self.offer_stands(height, time) {
                    Err(Cw721ContractError::Unauthorized)
                } else {
                    Ok(OwnershipView::held_by(None))
                }
            },
        }
    }
}

/// What `into_attributes` of `cw_ownable::Ownership` writes as the value of
/// the deadline `expiry`.
pub uninterp spec fn expiry_text(expiry: Expiration) -> Seq<char>;

/// The text for an address that may be absent.
pub open spec fn text_or_none(t: Option<Seq<char>>) -> Seq<char> {
    match t {
        Some(s) => s,
        None => "none"@,
    }
}

/// The attributes that tell of a record: holder, offer and deadline, each
/// with the word `none` where the record has nothing.
pub open spec fn ownership_attributes(o: OwnershipView) -> Seq<(Seq<char>, Seq<char>)> {
    seq![
        ("owner"@, text_or_none(o.owner)),
        ("pending_owner"@, text_or_none(o.pending_owner)),
        (
            "pending_expiry"@,
            match o.pending_expiry {
                Some(e) => expiry_text(e),
                None => "none"@,
            },
        ),
    ]
}

impl Ownership {
    /// A record with a holder and no offer.
    pub fn held_by(owner: Option<String>) -> (o: Self)
        ensures
            o@ == OwnershipView::held_by(text_of(owner)),
    {
        Ownership { owner, pending_owner: None, pending_expiry: None }
    }

    /// Whether `who` holds the role.
    pub fn is_owner(&self, who: &String) -> (b: bool)
        ensures
            b == self@.is_owner(who@),
    {
        match &self.owner {
            Some(owner) => *owner == *who,
            None => false,
        }
    }

    /// Lets the holder of the role pass, and nobody else.
    pub fn assert_owner(&self, sender: &String) -> (r: Result<(), Cw721ContractError>)
        ensures
            r == if self@.is_owner(sender@) {
                Ok::<(), Cw721ContractError>(())
            } else {
                Err(Cw721ContractError::Unauthorized)
            },
    {
        if self.is_owner(sender) {
            Ok(())
        } else {
            Err(Cw721ContractError::Unauthorized)
        }
    }

    /// The attributes that tell of the record.
    pub fn to_attributes(&self) -> (attributes: Vec<EventAttribute>)
        ensures
            Seq::new(attributes@.len(), |i: int| attributes@[i]@) == ownership_attributes(self@),
    {
        let attributes = attributes_of_record(self);
        assert(Seq::new(attributes@.len(), |i: int| attributes@[i]@) =~= ownership_attributes(
            self@,
        ));
        attributes
    }

    fn answer_refused(&self, block: &BlockInfo, sender: &String) -> (r: Option<Cw721ContractError>)
        ensures
            r == self@.answer_refused(block.height, block.time, sender@),
    {
        match &self.pending_owner {
            None => Some(Cw721ContractError::NotFound),
            Some(pending) => {
                if *pending != *sender {
                    Some(Cw721ContractError::Unauthorized)
                } else {
                    match self.pending_expiry {
                        Some(e) => {
                            if e.is_expired(block) {
                                Some(Cw721ContractError::Expired)
                            } else {
                                None
                            }
                        },
                        None => None,
                    }
                }
            },
        }
    }
}

/// The record as `sender`'s `action` leaves it in `block`, or why the action
/// is refused.
pub fn update_ownership(
    current: &Ownership,
    block: &BlockInfo,
    sender: &String,
    action: Action,
) -> (r: Result<Ownership, Cw721ContractError>)
    ensures
        match current@.after(block.height, block.time, sender@, action@) {
            Ok(next) => r matches Ok(o) && o@ == next,
            Err(e) => r == Err::<Ownership, Cw721ContractError>(e),
        },
{
    match action {
        Action::TransferOwnership { new_owner, expiry } => {
            if !current.is_owner(sender) {
                Err(Cw721ContractError::Unauthorized)
            } else if !new_owner.well_formed {
                Err(Cw721ContractError::InvalidInput)
            } else {
                Ok(
                    Ownership {
                        owner: crate::state::copy_text(&current.owner),
                        pending_owner: Some(new_owner.text),
                        pending_expiry: expiry,
                    },
                )
            }
        },
        Action::AcceptOwnership => {
            match current.answer_refused(block, sender) {
                Some(e) => Err(e),
                None => Ok(Ownership::held_by(crate::state::copy_text(&current.pending_owner))),
            }
        },
        Action::RejectOwnership => {
            match current.answer_refused(block, sender) {
                Some(e) => Err(e),
                None => Ok(Ownership::held_by(crate::state::copy_text(&current.owner))),
            }
        },
        Action::RenounceOwnership => {
            if !current.is_owner(sender) {
                return Err(Cw721ContractError::Unauthorized);
            }
            let lapsed = match current.pending_expiry {
                Some(e) => e.is_expired(block),
                None => false,
            };
            if current.pending_owner.is_some() && !lapsed {
                Err(Cw721ContractError::Unauthorized)
            } else {
                Ok(Ownership::held_by(None))
            }
        },
    }
}

/// Calls `into_attributes` of `cw_ownable::Ownership` on the record. The three
/// attributes come in the order owner, pending_owner, pending_expiry; an
/// address is written as it is, a missing entry as `none`, and a deadline
/// as the outside crate prints it.
#[verifier::external_body]
fn attributes_of_record(record: &Ownership) -> (attributes: Vec<EventAttribute>)
    ensures
        attributes@.len() == 3,
        attributes@[0]@ == ("owner"@, text_or_none(text_of(record.owner))),
        attributes@[1]@ == ("pending_owner"@, text_or_none(text_of(record.pending_owner))),
        attributes@[2]@ == (
            "pending_expiry"@,
            match record.pending_expiry {
                Some(e) => expiry_text(e),
                None => "none"@,
            },
        ),
{
    let outside = cw_ownable::Ownership::<cosmwasm_std::Addr> {
        owner: record.owner.clone().map(cosmwasm_std::Addr::unchecked),
        pending_owner: record.pending_owner.clone().map(cosmwasm_std::Addr::unchecked),
        pending_expiry: record.pending_expiry.map(|e| match e {
            Expiration::AtHeight(h) => cw_utils::Expiration::AtHeight(h),
            Expiration::AtTime(t) => cw_utils::Expiration::AtTime(cosmwasm_std::Timestamp::from_nanos(t)),
            Expiration::Never => cw_utils::Expiration::Never {},
        }),
    };
    let written = outside.into_attributes().into_iter();
    written.map(|a| EventAttribute { key: a.key, value: a.value }).collect()
}

} // verus!
