//! What the registry holds: tokens with their approvals, operator grants, the
//! collection's description and the records of the two roles.

use vstd::prelude::*;
use crate::keys::OperatorKey;
use crate::store::Table;

verus! {

/// How long a grant or an offer stands.
#[derive(Copy, Debug, PartialEq, Eq, Structural)]
pub enum Expiration {
    /// Lapsed once the block height has reached this number.
    AtHeight(u64),
    /// Lapsed once the block time, in nanoseconds, has reached this number.
    AtTime(u64),
    /// Stands for good.
    Never,
}

impl Clone for Expiration {
    fn clone(&self) -> (r: Self)
        ensures
            r == *self,
    {
        *self
    }
}

impl View for Expiration {
    type V = Expiration;

    open spec fn view(&self) -> Expiration {
        *self
    }
}

impl Default for Expiration {
    fn default() -> (r: Self)
        ensures
            r == Expiration::Never,
    {
        Expiration::Never
    }
}

/// The clock that the host supplies with a call.
#[derive(Debug, PartialEq, Eq)]
pub struct BlockInfo {
    pub height: u64,
    /// Nanoseconds since the epoch.
    pub time: u64,
    pub chain_id: String,
}

/// Where a call runs: the block, and the address of the registry itself.
#[derive(Debug, PartialEq, Eq)]
pub struct Env {
    pub block: BlockInfo,
    pub contract_address: String,
}

/// An amount of one denomination.
#[derive(Debug, PartialEq, Eq)]
pub struct Coin {
    pub denom: String,
    pub amount: u128,
}

/// `Coin` as a mathematical value.
pub struct CoinView {
    pub denom: Seq<char>,
    pub amount: u128,
}

impl View for Coin {
    type V = CoinView;

    open spec fn view(&self) -> CoinView {
        CoinView { denom: self.denom@, amount: self.amount }
    }
}

impl Clone for Coin {
    fn clone(&self) -> (r: Self)
        ensures
            r@ == self@,
    {
        Coin { denom: self.denom.clone(), amount: self.amount }
    }
}

/// Who calls: the host has authenticated the sender.
#[derive(Debug, PartialEq, Eq)]
pub struct MessageInfo {
    pub sender: String,
    pub funds: Vec<Coin>,
}

/// An address as it came in a message, with the host's verdict on its form.
#[derive(Debug, PartialEq, Eq)]
pub struct Address {
    pub text: String,
    pub well_formed: bool,
}

/// `Address` as a mathematical value.
pub struct AddressView {
    pub text: Seq<char>,
    pub well_formed: bool,
}

impl View for Address {
    type V = AddressView;

    open spec fn view(&self) -> AddressView {
        AddressView { text: self.text@, well_formed: self.well_formed }
    }
}

impl Clone for Address {
    fn clone(&self) -> (r: Self)
        ensures
            r@ == self@,
    {
        Address { text: self.text.clone(), well_formed: self.well_formed }
    }
}

/// The view of an optional text.
pub open spec fn text_of(t: Option<String>) -> Option<Seq<char>> {
    match t {
        Some(s) => Some(s@),
        None => None,
    }
}

/// The view of an optional address.
pub open spec fn address_of(a: Option<Address>) -> Option<AddressView> {
    match a {
        Some(a) => Some(a@),
        None => None,
    }
}

/// A copy of an optional text.
pub fn copy_text(t: &Option<String>) -> (r: Option<String>)
    ensures
        text_of(r) == text_of(*t),
{
    match t {
        Some(s) => Some(s.clone()),
        None => None,
    }
}

/// The empty payload: the extension of a registry that keeps none.
#[derive(Copy, Debug, PartialEq, Eq, Structural)]
pub struct Empty {}

impl Clone for Empty {
    fn clone(&self) -> (r: Self)
        ensures
            r == *self,
    {
        Empty {  }
    }
}

/// The right of `spender` to move one token, for as long as `expires` says.
#[derive(Debug, PartialEq, Eq)]
pub struct Approval {
    pub spender: String,
    pub expires: Expiration,
}

/// `Approval` as a mathematical value.
pub struct ApprovalView {
    pub spender: Seq<char>,
    pub expires: Expiration,
}

impl View for Approval {
    type V = ApprovalView;

    open spec fn view(&self) -> ApprovalView {
        ApprovalView { spender: self.spender@, expires: self.expires }
    }
}

impl Clone for Approval {
    fn clone(&self) -> (r: Self)
        ensures
            r@ == self@,
    {
        Approval { spender: self.spender.clone(), expires: self.expires }
    }
}

/// The views of a list of approvals, in the list's order.
pub open spec fn approvals_of(v: Seq<Approval>) -> Seq<ApprovalView> {
    Seq::new(v.len(), |i: int| v[i]@)
}

/// Whether no spender has two approvals in the list.
pub open spec fn distinct_spenders(approvals: Seq<ApprovalView>) -> bool {
    forall|i: int, j: int|
        0 <= i < j < approvals.len() ==> (#[trigger] approvals[i]).spender
            != (#[trigger] approvals[j]).spender
}

/// Whether no spender has two approvals in the list.
pub fn spenders_are_distinct(approvals: &Vec<Approval>) -> (ok: bool)
    ensures
        ok == distinct_spenders(approvals_of(approvals@)),
{
    let ghost all = approvals_of(approvals@);
    let mut j: usize = 0;
    while j < approvals.len()
        invariant
            j <= approvals@.len(),
            all == approvals_of(approvals@),
            forall|a: int, b: int| 0 <= a < b < j ==> (#[trigger] all[a]).spender != (#[trigger] all[b]).spender,
        decreases approvals@.len() - j,
    {
        let mut i: usize = 0;
        while i < j
            invariant
                i <= j < approvals@.len(),
                all == approvals_of(approvals@),
                forall|a: int| 0 <= a < i ==> (#[trigger] all[a]).spender != all[j as int].spender,
            decreases j - i,
        {
            if approvals[i].spender == approvals[j].spender {
                assert(all[i as int].spender == all[j as int].spender);
                return false;
            }
            i = i + 1;
        }
        j = j + 1;
    }
    true
}

/// A copy of a list of approvals.
pub fn copy_approvals(v: &Vec<Approval>) -> (r: Vec<Approval>)
    ensures
        approvals_of(r@) == approvals_of(v@),
{
    let mut out: Vec<Approval> = Vec::new();
    let mut i: usize = 0;
    while i < v.len()
        invariant
            i <= v@.len(),
            out@.len() == i,
            forall|j: int| 0 <= j < i ==> out@[j]@ == v@[j]@,
        decreases v@.len() - i,
    {
        out.push(v[i].clone());
        i = i + 1;
    }
    assert(approvals_of(out@) =~= approvals_of(v@));
    out
}

/// A token: its owner, the approvals that the owner has given on it, and
/// what describes it.
#[derive(Debug, PartialEq, Eq)]
pub struct NftInfo {
    pub owner: String,
    pub approvals: Vec<Approval>,
    pub token_uri: Option<String>,
    pub extension: Option<Empty>,
}

/// `NftInfo` as a mathematical value.
#[verifier::ext_equal]
pub struct NftInfoView {
    pub owner: Seq<char>,
    pub approvals: Seq<ApprovalView>,
    pub token_uri: Option<Seq<char>>,
    pub extension: Option<Empty>,
}

impl View for NftInfo {
    type V = NftInfoView;

    open spec fn view(&self) -> NftInfoView {
        NftInfoView {
            owner: self.owner@,
            approvals: approvals_of(self.approvals@),
            token_uri: text_of(self.token_uri),
            extension: self.extension,
        }
    }
}

impl Clone for NftInfo {
    fn clone(&self) -> (r: Self)
        ensures
            r@ == self@,
    {
        NftInfo {
            owner: self.owner.clone(),
            approvals: copy_approvals(&self.approvals),
            token_uri: copy_text(&self.token_uri),
            extension: self.extension,
        }
    }
}

/// One entry of a payload kept as attributes: a key and the bytes stored
/// under it.
#[derive(Debug, PartialEq, Eq)]
pub struct Attribute {
    pub key: String,
    pub value: Vec<u8>,
}

/// `Attribute` as a mathematical value.
pub struct AttributeView {
    pub key: Seq<char>,
    pub value: Seq<u8>,
}

impl View for Attribute {
    type V = AttributeView;

    open spec fn view(&self) -> AttributeView {
        AttributeView { key: self.key@, value: self.value@ }
    }
}

impl Clone for Attribute {
    fn clone(&self) -> (r: Self)
        ensures
            r@ == self@,
    {
        Attribute { key: self.key.clone(), value: self.value.clone() }
    }
}

/// The views of a list of attributes, in the list's order.
pub open spec fn attributes_of(v: Seq<Attribute>) -> Seq<AttributeView> {
    Seq::new(v.len(), |i: int| v[i]@)
}

/// A copy of a list of attributes.
pub fn copy_attributes(v: &Vec<Attribute>) -> (r: Vec<Attribute>)
    ensures
        attributes_of(r@) == attributes_of(v@),
{
    let mut out: Vec<Attribute> = Vec::new();
    let mut i: usize = 0;
    while i < v.len()
        invariant
            i <= v@.len(),
            out@.len() == i,
            forall|j: int| 0 <= j < i ==> out@[j]@ == v@[j]@,
        decreases v@.len() - i,
    {
        out.push(v[i].clone());
        i = i + 1;
    }
    assert(attributes_of(out@) =~= attributes_of(v@));
    out
}

/// The collection's name and symbol, and when they were last set.
#[derive(Debug, PartialEq, Eq)]
pub struct CollectionInfo {
    pub name: String,
    pub symbol: String,
    /// Block time, in nanoseconds, of the last change.
    pub updated_at: u64,
}

/// `CollectionInfo` as a mathematical value.
pub struct CollectionInfoView {
    pub name: Seq<char>,
    pub symbol: Seq<char>,
    pub updated_at: u64,
}

impl View for CollectionInfo {
    type V = CollectionInfoView;

    open spec fn view(&self) -> CollectionInfoView {
        CollectionInfoView { name: self.name@, symbol: self.symbol@, updated_at: self.updated_at }
    }
}

impl Clone for CollectionInfo {
    fn clone(&self) -> (r: Self)
        ensures
            r@ == self@,
    {
        CollectionInfo {
            name: self.name.clone(),
            symbol: self.symbol.clone(),
            updated_at: self.updated_at,
        }
    }
}

/// The record of one administrative role: who holds it, and to whom the
/// holder has offered it.
#[derive(Debug, PartialEq, Eq)]
pub struct Ownership {
    /// The holder; `None` once the role has been renounced.
    pub owner: Option<String>,
    /// To whom the role is on offer.
    pub pending_owner: Option<String>,
    /// Until when the offer can be accepted; `None` for an offer without a
    /// deadline.
    pub pending_expiry: Option<Expiration>,
}

/// `Ownership` as a mathematical value.
pub struct OwnershipView {
    pub owner: Option<Seq<char>>,
    pub pending_owner: Option<Seq<char>>,
    pub pending_expiry: Option<Expiration>,
}

impl View for Ownership {
    type V = OwnershipView;

    open spec fn view(&self) -> OwnershipView {
        OwnershipView {
            owner: text_of(self.owner),
            pending_owner: text_of(self.pending_owner),
            pending_expiry: self.pending_expiry,
        }
    }
}

impl Clone for Ownership {
    fn clone(&self) -> (r: Self)
        ensures
            r@ == self@,
    {
        Ownership {
            owner: copy_text(&self.owner),
            pending_owner: copy_text(&self.pending_owner),
            pending_expiry: self.pending_expiry,
        }
    }
}

/// The registry as a mathematical value.
#[verifier::ext_equal]
pub struct Registry {
    pub collection_info: CollectionInfoView,
    pub collection_extension: Seq<AttributeView>,
    /// The live tokens, by id.
    pub tokens: Map<Seq<char>, NftInfoView>,
    /// The ids of the tokens that were burned.
    pub burned: Set<Seq<char>>,
    /// The operator grants, by owner and operator.
    pub operators: Map<(Seq<char>, Seq<char>), Expiration>,
    pub minter: OwnershipView,
    pub creator: OwnershipView,
    pub withdraw_address: Option<Seq<char>>,
}

impl Registry {
    /// What holds of the view of every well-formed registry: it holds finitely
    /// many tokens and grants, no live token bears the id of a burned one, and
    /// no token holds two approvals for one spender.
    pub open spec fn valid(self) -> bool {
        &&& self.tokens.dom().finite()
        &&& self.operators.dom().finite()
        &&& self.tokens.dom().disjoint(self.burned)
        &&& forall|id: Seq<char>|
            self.tokens.contains_key(id) ==> distinct_spenders((#[trigger] self.tokens[id]).approvals)
    }

    /// How many tokens there are.
    pub open spec fn num_tokens(self) -> nat {
        self.tokens.len()
    }
}

/// The registry: all that the engine reads and writes.
pub struct Cw721Config {
    pub collection_info: CollectionInfo,
    pub collection_extension: Vec<Attribute>,
    /// The number of live tokens.
    pub token_count: u64,
    pub operators: Table<OperatorKey, Expiration>,
    pub nft_info: Table<String, NftInfo>,
    /// The ids of the burned tokens: none of them is given out again.
    pub burned: Table<String, ()>,
    pub withdraw_address: Option<String>,
    pub minter: Ownership,
    pub creator: Ownership,
}

impl View for Cw721Config {
    type V = Registry;

    open spec fn view(&self) -> Registry {
        Registry {
            collection_info: self.collection_info@,
            collection_extension: attributes_of(self.collection_extension@),
            tokens: self.nft_info@,
            burned: self.burned@.dom(),
            operators: self.operators@,
            minter: self.minter@,
            creator: self.creator@,
            withdraw_address: text_of(self.withdraw_address),
        }
    }
}

impl Cw721Config {
    /// The registry's invariant: the three tables are in order, the count is
    /// the number of live tokens, no live token bears a burned id, and no
    /// token holds two approvals for one spender.
    pub open spec fn wf(&self) -> bool {
        &&& self.operators.wf()
        &&& self.nft_info.wf()
        &&& self.burned.wf()
        &&& self.token_count == self.nft_info@.len()
        &&& self.nft_info@.dom().disjoint(self.burned@.dom())
        &&& forall|id: Seq<char>|
            self.nft_info@.contains_key(id) ==> distinct_spenders(
                (#[trigger] self.nft_info@[id]).approvals,
            )
    }

    /// A registry that is in order has a valid view.
    pub proof fn lemma_valid(&self)
        requires
            self.wf(),
        ensures
            self@.valid(),
    {
        self.nft_info.lemma_listing();
        self.operators.lemma_listing();
    }

    /// Whether the registry is in order, for a registry whose fields were set
    /// by hand: the count is the number of live tokens, no live token bears
    /// a burned id, and no token holds two approvals for one spender.
    pub fn in_order(&self) -> (ok: bool)
        requires
            self.operators.wf(),
            self.nft_info.wf(),
            self.burned.wf(),
        ensures
            ok == self.wf(),
    {
        if self.nft_info.len() as u64 != self.token_count {
            return false;
        }
        let mut i: usize = 0;
        while i < self.burned.len()
            invariant
                self.nft_info.wf(),
                self.burned.wf(),
                i <= self.burned.keys().len(),
                forall|j: int|
                    0 <= j < i ==> !self.nft_info@.contains_key(#[trigger] self.burned.keys()[j]),
            decreases self.burned.keys().len() - i,
        {
            if self.nft_info.contains_key(self.burned.key_at(i)) {
                proof {
                    self.burned.lemma_listing();
                    let k = self.burned.keys()[i as int];
                    assert(self.nft_info@.dom().contains(k) && self.burned@.dom().contains(k));
                }
                return false;
            }
            i = i + 1;
        }
        proof {
            self.burned.lemma_listing();
            assert forall|k: Seq<char>|
                !(self.nft_info@.dom().contains(k) && self.burned@.dom().contains(k)) by {
                if self.burned@.dom().contains(k) {
                    assert(self.burned@.contains_key(k));
                    assert(self.burned.keys().contains(k));
                    let j = self.burned.keys().index_of(k);
                    assert(self.burned.keys()[j] == k);
                }
            }
        }
        let mut t: usize = 0;
        while t < self.nft_info.len()
            invariant
                self.nft_info.wf(),
                t <= self.nft_info.keys().len(),
                forall|j: int|
                    0 <= j < t ==> distinct_spenders((#[trigger] self.nft_info.values()[j]).approvals),
            decreases self.nft_info.keys().len() - t,
        {
            proof {
                self.nft_info.lemma_listing();
            }
            if !spenders_are_distinct(&self.nft_info.value_at(t).approvals) {
                proof {
                    let k = self.nft_info.keys()[t as int];
                    assert(self.nft_info@.contains_key(k));
                    assert(self.nft_info@[k] == self.nft_info.values()[t as int]);
                }
                return false;
            }
            t = t + 1;
        }
        proof {
            self.nft_info.lemma_listing();
            assert forall|id: Seq<char>| self.nft_info@.contains_key(id) implies distinct_spenders(
                (#[trigger] self.nft_info@[id]).approvals,
            ) by {
                assert(self.nft_info.keys().contains(id));
                let j = self.nft_info.keys().index_of(id);
                assert(self.nft_info.keys()[j] == id);
                assert(self.nft_info@[id] == self.nft_info.values()[j]);
            }
        }
        true
    }

    /// Puts back a token that was read from the store, in place of the one
    /// that the registry has under the id. The id of a burned token is
    /// refused, and so is a token that holds two approvals for one spender.
    pub fn restore_token(&mut self, token_id: String, token: NftInfo) -> (restored: bool)
        requires
            old(self).wf(),
        ensures
            final(self).wf(),
            restored == (!old(self)@.burned.contains(token_id@) && distinct_spenders(
                token@.approvals,
            )),
            final(self)@ == if restored {
                Registry { tokens: old(self)@.tokens.insert(token_id@, token@), ..old(self)@ }
            } else {
                old(self)@
            },
    {
        if self.burned.contains_key(&token_id) || !spenders_are_distinct(&token.approvals) {
            return false;
        }
        proof {
            self.nft_info.lemma_listing();
        }
        self.nft_info.insert(token_id, token);
        proof {
            self.nft_info.lemma_listing();
        }
        self.token_count = self.nft_info.len() as u64;
        assert(self@ =~= Registry {
            tokens: old(self)@.tokens.insert(token_id@, token@),
            ..old(self)@
        });
        true
    }

    /// Puts back the id of a burned token that was read from the store. The
    /// id of a live token is refused.
    pub fn restore_burned(&mut self, token_id: String) -> (restored: bool)
        requires
            old(self).wf(),
        ensures
            final(self).wf(),
            restored == !old(self)@.tokens.contains_key(token_id@),
            final(self)@ == if restored {
                Registry { burned: old(self)@.burned.insert(token_id@), ..old(self)@ }
            } else {
                old(self)@
            },
    {
        if self.nft_info.contains_key(&token_id) {
            return false;
        }
        self.burned.insert(token_id, ());
        assert(self@ =~= Registry { burned: old(self)@.burned.insert(token_id@), ..old(self)@ });
        true
    }

    /// Puts back an operator grant that was read from the store, in place of
    /// the one that the operator has from the owner.
    pub fn restore_operator(&mut self, owner: String, operator: String, expires: Expiration)
        requires
            old(self).wf(),
        ensures
            final(self).wf(),
            final(self)@ == (Registry {
                operators: old(self)@.operators.insert((owner@, operator@), expires),
                ..old(self)@
            }),
    {
        self.operators.insert(OperatorKey { owner, operator }, expires);
    }
}

/// The registry before anything is set: no tokens, no grants, no names, and
/// nobody in either role.
impl Default for Cw721Config {
    fn default() -> (state: Self)
        ensures
            state.wf(),
            state@.tokens == Map::<Seq<char>, NftInfoView>::empty(),
            state@.burned == Set::<Seq<char>>::empty(),
            state@.operators == Map::<(Seq<char>, Seq<char>), Expiration>::empty(),
            state@.minter == (OwnershipView { owner: None, pending_owner: None, pending_expiry: None }),
            state@.creator == (OwnershipView { owner: None, pending_owner: None, pending_expiry: None }),
            state@.withdraw_address is None,
            state@.collection_extension == Seq::<AttributeView>::empty(),
            state@.collection_info == (CollectionInfoView {
                name: Seq::empty(),
                symbol: Seq::empty(),
                updated_at: 0,
            }),
    {
        let state = Cw721Config {
            collection_info: CollectionInfo {
                name: String::new(),
                symbol: String::new(),
                updated_at: 0,
            },
            collection_extension: Vec::new(),
            token_count: 0,
            operators: Table::new(),
            nft_info: Table::new(),
            burned: Table::new(),
            withdraw_address: None,
            minter: Ownership { owner: None, pending_owner: None, pending_expiry: None },
            creator: Ownership { owner: None, pending_owner: None, pending_expiry: None },
        };
        assert(state@.burned =~= Set::<Seq<char>>::empty());
        assert(state@.collection_extension =~= Seq::<AttributeView>::empty());
        state
    }
}

} // verus!
