//! The requests: what each one reads out of the registry. None of them
//! changes it. A grant that has lapsed is still kept; a request leaves it
//! out of its answer unless it asks for the lapsed ones too.

use vstd::prelude::*;
use vstd::utf8::encode_utf8;
use crate::error::Cw721ContractError;
use crate::keys::{
    lemma_text_lt_connected, lemma_text_lt_irreflexive, lemma_text_lt_transitive, text_lt, Key,
    OperatorKey,
};
use crate::msg::{
    AllInfoResponse, AllInfoResponseView, AllNftInfoResponse, AllNftInfoResponseView,
    ApprovalResponse, ApprovalsResponse, CollectionInfoAndExtensionResponse,
    CollectionInfoAndExtensionResponseView, ConfigResponse, ConfigResponseView, Cw721QueryMsgView,
    MinterResponse, NftInfoResponse, NftInfoResponseView, NumTokensResponse, OperatorResponse,
    OperatorsResponse, OwnerOfResponse, OwnerOfResponseView, QueryResponseView, TokensResponse,
};
use crate::paging::{
    after, comes_last, effective_limit, first_keys, keys_after, lemma_page_end, lemma_page_of,
    lemma_page_rest, lemma_page_skip, lemma_page_start, lemma_page_take, page_limit, page_of,
    page_so_far,
};
use crate::state::{
    address_of, approvals_of, attributes_of, copy_attributes, copy_text, text_of, Address,
    AddressView, Approval, ApprovalView, Attribute, CollectionInfo, Cw721Config, Env,
    Expiration, NftInfo, Ownership, Registry,
};

verus! {

/// Whether a request was answered as `expected` says.
pub open spec fn answered<T: View>(
    expected: Result<T::V, Cw721ContractError>,
    r: Result<T, Cw721ContractError>,
) -> bool {
    match expected {
        Ok(v) => r matches Ok(answer) && answer@ == v,
        Err(e) => r matches Err(f) && f == e,
    }
}

/// The approvals that an answer shows: all of them, or those that have not
/// lapsed.
pub open spec fn shown(
    approvals: Seq<ApprovalView>,
    include_expired: bool,
    height: u64,
    time: u64,
) -> Seq<ApprovalView> {
    approvals.filter(|a: ApprovalView| include_expired || !a.expires.lapsed(height, time))
}

/// What showing does to a list that ends in `last`.
pub proof fn lemma_shown_push(
    approvals: Seq<ApprovalView>,
    last: ApprovalView,
    include_expired: bool,
    height: u64,
    time: u64,
)
    ensures
        shown(approvals.push(last), include_expired, height, time) == if include_expired
            || !last.expires.lapsed(height, time) {
            shown(approvals, include_expired, height, time).push(last)
        } else {
            shown(approvals, include_expired, height, time)
        },
{
    let all = approvals.push(last);
    assert(all.drop_last() =~= approvals);
    assert(all.last() == last);
    reveal_with_fuel(Seq::filter, 2);
}

/// The first approval of `spender` in the list that an answer shows.
pub open spec fn shown_approval(
    approvals: Seq<ApprovalView>,
    spender: Seq<char>,
    include_expired: bool,
    height: u64,
    time: u64,
) -> Option<ApprovalView>
    decreases approvals.len(),
{
    if approvals.len() == 0 {
        None
    } else if approvals[0].spender == spender && (include_expired || !approvals[0].expires.lapsed(
        height,
        time,
    )) {
        Some(approvals[0])
    } else {
        shown_approval(approvals.drop_first(), spender, include_expired, height, time)
    }
}

/// The cursor that a request names.
pub open spec fn cursor_of(start_after: Option<AddressView>) -> Option<Seq<char>> {
    match start_after {
        Some(a) => Some(a.text),
        None => None,
    }
}

impl Registry {
    /// The ids of the tokens that `owner` owns.
    pub open spec fn tokens_of(self, owner: Seq<char>) -> Set<Seq<char>> {
        Set::new(|id: Seq<char>| self.tokens.contains_key(id) && self.tokens[id].owner == owner)
    }

    /// The operators of `owner` that an answer shows.
    pub open spec fn operators_of(self, owner: Seq<char>, include_expired: bool, height: u64, time: u64) -> Set<
        Seq<char>,
    > {
        Set::new(
            |operator: Seq<char>|
                self.operators.contains_key((owner, operator)) && (include_expired
                    || !self.operators[(owner, operator)].lapsed(height, time)),
        )
    }

    /// What describes the token.
    pub open spec fn nft_info(self, token_id: Seq<char>) -> Result<
        NftInfoResponseView,
        Cw721ContractError,
    > {
        if !self.tokens.contains_key(token_id) {
            Err(Cw721ContractError::NotFound)
        } else {
            Ok(
                NftInfoResponseView {
                    token_uri: self.tokens[token_id].token_uri,
                    extension: self.tokens[token_id].extension,
                },
            )
        }
    }

    /// The owner of the token, and the approvals on it that the answer shows.
    pub open spec fn owner_of(self, height: u64, time: u64, token_id: Seq<char>, include_expired: bool) -> Result<
        OwnerOfResponseView,
        Cw721ContractError,
    > {
        if !self.tokens.contains_key(token_id) {
            Err(Cw721ContractError::NotFound)
        } else {
            Ok(
                OwnerOfResponseView {
                    owner: self.tokens[token_id].owner,
                    approvals: shown(self.tokens[token_id].approvals, include_expired, height, time),
                },
            )
        }
    }

    /// What `owner_of` and `nft_info` tell of the token, in one.
    pub open spec fn all_nft_info(
        self,
        height: u64,
        time: u64,
        token_id: Seq<char>,
        include_expired: bool,
    ) -> Result<AllNftInfoResponseView, Cw721ContractError> {
        if !self.tokens.contains_key(token_id) {
            Err(Cw721ContractError::NotFound)
        } else {
            Ok(
                AllNftInfoResponseView {
                    access: self.owner_of(height, time, token_id, include_expired)->Ok_0,
                    info: self.nft_info(token_id)->Ok_0,
                },
            )
        }
    }

    /// The approvals on the token that the answer shows.
    pub open spec fn approvals(self, height: u64, time: u64, token_id: Seq<char>, include_expired: bool) -> Result<
        Seq<ApprovalView>,
        Cw721ContractError,
    > {
        if !self.tokens.contains_key(token_id) {
            Err(Cw721ContractError::NotFound)
        } else {
            Ok(shown(self.tokens[token_id].approvals, include_expired, height, time))
        }
    }

    /// The approval that lets `spender` move the token. The owner is
    /// answered with an approval that never lapses; anybody else with the
    /// approval that the token holds for them, if the answer shows it.
    pub open spec fn approval(
        self,
        height: u64,
        time: u64,
        token_id: Seq<char>,
        spender: AddressView,
        include_expired: bool,
    ) -> Result<ApprovalView, Cw721ContractError> {
        if !spender.well_formed {
            Err(Cw721ContractError::InvalidInput)
        } else if !self.tokens.contains_key(token_id) {
            Err(Cw721ContractError::NotFound)
        } else if self.tokens[token_id].owner == spender.text {
            Ok(ApprovalView { spender: spender.text, expires: Expiration::Never })
        } else {
            match shown_approval(
                self.tokens[token_id].approvals,
                spender.text,
                include_expired,
                height,
                time,
            ) {
                Some(a) => Ok(a),
                None => Err(Cw721ContractError::NotFound),
            }
        }
    }

    /// The grant that `operator` holds from `owner`, if the answer shows it.
    pub open spec fn operator(
        self,
        height: u64,
        time: u64,
        owner: AddressView,
        operator: AddressView,
        include_expired: bool,
    ) -> Result<ApprovalView, Cw721ContractError> {
        if !owner.well_formed || !operator.well_formed {
            Err(Cw721ContractError::InvalidInput)
        } else if !self.operators_of(owner.text, include_expired, height, time).contains(
            operator.text,
        ) {
            Err(Cw721ContractError::NotFound)
        } else {
            Ok(
                ApprovalView {
                    spender: operator.text,
                    expires: self.operators[(owner.text, operator.text)],
                },
            )
        }
    }

    /// One page of the operators of `owner` that the answer shows, in the
    /// order of their addresses, each with its grant.
    pub open spec fn all_operators(
        self,
        height: u64,
        time: u64,
        owner: AddressView,
        include_expired: bool,
        start_after: Option<AddressView>,
        limit: Option<u32>,
    ) -> Result<Seq<ApprovalView>, Cw721ContractError> {
        if !owner.well_formed || (start_after matches Some(a) && !a.well_formed) {
            Err(Cw721ContractError::InvalidInput)
        } else {
            let page = page_of::<String>(
                keys_after::<String>(
                    self.operators_of(owner.text, include_expired, height, time),
                    cursor_of(start_after),
                ),
                page_limit(limit),
            );
            Ok(
                Seq::new(
                    page.len(),
                    |i: int|
                        ApprovalView {
                            spender: page[i],
                            expires: self.operators[(owner.text, page[i])],
                        },
                ),
            )
        }
    }

    /// One page of the ids of the tokens that `owner` owns, in ascending
    /// order.
    pub open spec fn tokens_page(
        self,
        owner: AddressView,
        start_after: Option<Seq<char>>,
        limit: Option<u32>,
    ) -> Result<Seq<Seq<char>>, Cw721ContractError> {
        if !owner.well_formed {
            Err(Cw721ContractError::InvalidInput)
        } else {
            Ok(
                page_of::<String>(
                    keys_after::<String>(self.tokens_of(owner.text), start_after),
                    page_limit(limit),
                ),
            )
        }
    }

    /// One page of the ids of all tokens, in ascending order.
    pub open spec fn all_tokens_page(self, start_after: Option<Seq<char>>, limit: Option<u32>) -> Seq<
        Seq<char>,
    > {
        page_of::<String>(keys_after::<String>(self.tokens.dom(), start_after), page_limit(limit))
    }

    /// The collection's name and symbol with what else describes it.
    pub open spec fn collection_info_and_extension(self) -> CollectionInfoAndExtensionResponseView {
        CollectionInfoAndExtensionResponseView {
            name: self.collection_info.name,
            symbol: self.collection_info.symbol,
            extension: self.collection_extension,
            updated_at: self.collection_info.updated_at,
        }
    }

    /// All that configures the registry.
    pub open spec fn config(self, contract_address: Seq<char>) -> ConfigResponseView {
        ConfigResponseView {
            num_tokens: self.num_tokens(),
            minter_ownership: self.minter,
            creator_ownership: self.creator,
            withdraw_address: self.withdraw_address,
            collection_info: self.collection_info,
            collection_extension: self.collection_extension,
            contract_address,
        }
    }

    /// The collection and the registry's address, in one.
    pub open spec fn all_info(self, contract_address: Seq<char>) -> AllInfoResponseView {
        AllInfoResponseView {
            contract_address,
            collection_info: self.collection_info,
            collection_extension: self.collection_extension,
            num_tokens: self.num_tokens(),
        }
    }
}

/// The approvals of the list that an answer shows.
pub fn shown_approvals(approvals: &Vec<Approval>, env: &Env, include_expired: bool) -> (kept: Vec<
    Approval,
>)
    ensures
        approvals_of(kept@) == shown(
            approvals_of(approvals@),
            include_expired,
            env.block.height,
            env.block.time,
        ),
{
    let ghost all = approvals_of(approvals@);
    let mut kept: Vec<Approval> = Vec::new();
    let mut i: usize = 0;
    assert(approvals_of(kept@) =~= shown(
        all.take(0),
        include_expired,
        env.block.height,
        env.block.time,
    ));
    while i < approvals.len()
        invariant
            i <= approvals@.len(),
            all == approvals_of(approvals@),
            approvals_of(kept@) == shown(
                all.take(i as int),
                include_expired,
                env.block.height,
                env.block.time,
            ),
        decreases approvals@.len() - i,
    {
        let ghost before = approvals_of(kept@);
        proof {
            assert(all.take(i + 1) =~= all.take(i as int).push(approvals@[i as int]@));
            lemma_shown_push(
                all.take(i as int),
                approvals@[i as int]@,
                include_expired,
                env.block.height,
                env.block.time,
            );
        }
        if include_expired || !approvals[i].is_expired(&env.block) {
            kept.push(approvals[i].clone());
            assert(approvals_of(kept@) =~= before.push(approvals@[i as int]@));
        }
        i = i + 1;
    }
    assert(all.take(i as int) =~= all);
    kept
}

/// How many tokens there are.
pub fn query_num_tokens(state: &Cw721Config) -> (r: Result<NumTokensResponse, Cw721ContractError>)
    requires
        state.wf(),
    ensures
        answered(Ok(state@.num_tokens()), r),
{
    Ok(NumTokensResponse { count: state.token_count })
}

/// What describes the token.
pub fn query_nft_info(state: &Cw721Config, token_id: String) -> (r: Result<
    NftInfoResponse,
    Cw721ContractError,
>)
    requires
        state.wf(),
    ensures
        answered(state@.nft_info(token_id@), r),
{
    match state.nft_info.get(&token_id) {
        None => Err(Cw721ContractError::NotFound),
        Some(token) => Ok(
            NftInfoResponse { token_uri: copy_text(&token.token_uri), extension: token.extension },
        ),
    }
}

/// Who owns the token, and who holds approvals on it.
pub fn query_owner_of(
    state: &Cw721Config,
    env: &Env,
    token_id: String,
    include_expired_approval: bool,
) -> (r: Result<OwnerOfResponse, Cw721ContractError>)
    requires
        state.wf(),
    ensures
        answered(
            state@.owner_of(env.block.height, env.block.time, token_id@, include_expired_approval),
            r,
        ),
{
    match state.nft_info.get(&token_id) {
        None => Err(Cw721ContractError::NotFound),
        Some(token) => Ok(
            OwnerOfResponse {
                owner: token.owner.clone(),
                approvals: shown_approvals(&token.approvals, env, include_expired_approval),
            },
        ),
    }
}

/// All that is told of the token.
pub fn query_all_nft_info(
    state: &Cw721Config,
    env: &Env,
    token_id: String,
    include_expired_approval: bool,
) -> (r: Result<AllNftInfoResponse, Cw721ContractError>)
    requires
        state.wf(),
    ensures
        answered(
            state@.all_nft_info(
                env.block.height,
                env.block.time,
                token_id@,
                include_expired_approval,
            ),
            r,
        ),
{
    match state.nft_info.get(&token_id) {
        None => Err(Cw721ContractError::NotFound),
        Some(token) => Ok(
            AllNftInfoResponse {
                access: OwnerOfResponse {
                    owner: token.owner.clone(),
                    approvals: shown_approvals(&token.approvals, env, include_expired_approval),
                },
                info: NftInfoResponse {
                    token_uri: copy_text(&token.token_uri),
                    extension: token.extension,
                },
            },
        ),
    }
}

/// The approvals on the token.
pub fn query_approvals(
    state: &Cw721Config,
    env: &Env,
    token_id: String,
    include_expired_approval: bool,
) -> (r: Result<ApprovalsResponse, Cw721ContractError>)
    requires
        state.wf(),
    ensures
        answered(
            state@.approvals(env.block.height, env.block.time, token_id@, include_expired_approval),
            r,
        ),
{
    match state.nft_info.get(&token_id) {
        None => Err(Cw721ContractError::NotFound),
        Some(token) => Ok(
            ApprovalsResponse {
                approvals: shown_approvals(&token.approvals, env, include_expired_approval),
            },
        ),
    }
}

/// The approval that lets `spender` move the token.
pub fn query_approval(
    state: &Cw721Config,
    env: &Env,
    token_id: String,
    spender: Address,
    include_expired_approval: bool,
) -> (r: Result<ApprovalResponse, Cw721ContractError>)
    requires
        state.wf(),
    ensures
        answered(
            state@.approval(
                env.block.height,
                env.block.time,
                token_id@,
                spender@,
                include_expired_approval,
            ),
            r,
        ),
{
    if !spender.well_formed {
        return Err(Cw721ContractError::InvalidInput);
    }
    match state.nft_info.get(&token_id) {
        None => Err(Cw721ContractError::NotFound),
        Some(token) => {
            if token.owner == spender.text {
                return Ok(
                    ApprovalResponse {
                        approval: Approval { spender: spender.text, expires: Expiration::Never },
                    },
                );
            }
            let ghost all = token@.approvals;
            let mut i: usize = 0;
            assert(all.skip(0) =~= all);
            while i < token.approvals.len()
                invariant
                    i <= token.approvals@.len(),
                    all == approvals_of(token.approvals@),
                    spender.well_formed,
                    state@.tokens.contains_key(token_id@),
                    state@.tokens[token_id@] == token@,
                    token.owner@ != spender.text@,
                    shown_approval(
                        all,
                        spender.text@,
                        include_expired_approval,
                        env.block.height,
                        env.block.time,
                    ) == shown_approval(
                        all.skip(i as int),
                        spender.text@,
                        include_expired_approval,
                        env.block.height,
                        env.block.time,
                    ),
                decreases token.approvals@.len() - i,
            {
                let approval = &token.approvals[i];
                proof {
                    assert(all.skip(i as int)[0] == approval@);
                    assert(all.skip(i as int).drop_first() =~= all.skip(i + 1));
                }
                if approval.spender == spender.text && (include_expired_approval
                    || !approval.is_expired(&env.block)) {
                    return Ok(ApprovalResponse { approval: approval.clone() });
                }
                i = i + 1;
            }
            Err(Cw721ContractError::NotFound)
        },
    }
}

/// The grant that `operator` holds from `owner`.
pub fn query_operator(
    state: &Cw721Config,
    env: &Env,
    owner: Address,
    operator: Address,
    include_expired_approval: bool,
) -> (r: Result<OperatorResponse, Cw721ContractError>)
    requires
        state.wf(),
    ensures
        answered(
            state@.operator(
                env.block.height,
                env.block.time,
                owner@,
                operator@,
                include_expired_approval,
            ),
            r,
        ),
{
    if !owner.well_formed || !operator.well_formed {
        return Err(Cw721ContractError::InvalidInput);
    }
    let key = OperatorKey { owner: owner.text, operator: operator.text.clone() };
    match state.operators.get(&key) {
        None => Err(Cw721ContractError::NotFound),
        Some(expires) => {
            if !include_expired_approval && expires.is_expired(&env.block) {
                Err(Cw721ContractError::NotFound)
            } else {
                Ok(OperatorResponse { approval: Approval { spender: operator.text, expires: *expires } })
            }
        },
    }
}

/// The pairs of `owner` with each key of `operators`.
pub open spec fn paired(owner: Seq<char>, operators: Set<Seq<char>>) -> Set<(Seq<char>, Seq<char>)> {
    Set::new(|k: (Seq<char>, Seq<char>)| k.0 == owner && operators.contains(k.1))
}

/// A page of pairs of one owner is a page of their second halves.
proof fn lemma_page_of_one_owner(
    owner: Seq<char>,
    operators: Set<Seq<char>>,
    limit: nat,
    pairs: Seq<(Seq<char>, Seq<char>)>,
    page: Seq<Seq<char>>,
)
    requires
        first_keys::<OperatorKey>(paired(owner, operators), limit, pairs),
        page.len() == pairs.len(),
        forall|i: int| 0 <= i < page.len() ==> pairs[i] == (owner, #[trigger] page[i]),
    ensures
        first_keys::<String>(operators, limit, page),
{
    lemma_text_lt_irreflexive(owner);
    assert forall|i: int, j: int| 0 <= i < j < page.len() implies <String as Key>::precedes(
        #[trigger] page[i],
        #[trigger] page[j],
    ) by {
        assert(<OperatorKey as Key>::precedes(pairs[i], pairs[j]));
    }
    assert forall|i: int| 0 <= i < page.len() implies operators.contains(#[trigger] page[i]) by {
        assert(paired(owner, operators).contains(pairs[i]));
    }
    assert forall|k: Seq<char>| #[trigger] operators.contains(k) && !page.contains(k) implies page.len()
        == limit && comes_last::<String>(page, k) by {
        let pair = (owner, k);
        assert(paired(owner, operators).contains(pair));
        if pairs.contains(pair) {
            let i = pairs.index_of(pair);
            assert(page[i] == k);
        }
        assert(comes_last::<OperatorKey>(pairs, pair));
        assert forall|i: int| 0 <= i < page.len() implies <String as Key>::precedes(
            #[trigger] page[i],
            k,
        ) by {
            assert(<OperatorKey as Key>::precedes(pairs[i], pair));
        }
    }
}

/// The cursor of a walk through the grants of `owner`.
pub open spec fn pair_cursor(owner: Seq<char>, cursor: Option<Seq<char>>) -> Option<
    (Seq<char>, Seq<char>),
> {
    match cursor {
        Some(c) => Some((owner, c)),
        None => None,
    }
}

/// Where the grants of `owner` begin in the table, for a walk without a
/// cursor: no grant of the owner comes before.
fn first_of_owner(state: &Cw721Config, owner: &String) -> (pos: usize)
    requires
        state.wf(),
    ensures
        pos <= state.operators.keys().len(),
        forall|j: int| 0 <= j < pos ==> (#[trigger] state.operators.keys()[j]).0 != owner@,
        forall|j: int|
            pos <= j < state.operators.keys().len() ==> !text_lt(
                (#[trigger] state.operators.keys()[j]).0,
                owner@,
            ),
{
    let least = OperatorKey { owner: owner.clone(), operator: String::new() };
    let pos = state.operators.lower_bound(&least);
    proof {
        lemma_text_lt_irreflexive(owner@);
        assert(encode_utf8(Seq::<char>::empty()) =~= Seq::<u8>::empty());
        assert forall|j: int| 0 <= j < pos implies (#[trigger] state.operators.keys()[j]).0
            != owner@ by {
            assert(<OperatorKey as Key>::precedes(state.operators.keys()[j], least@));
        }
        assert forall|j: int| pos <= j < state.operators.keys().len() implies !text_lt(
            (#[trigger] state.operators.keys()[j]).0,
            owner@,
        ) by {
            assert(!<OperatorKey as Key>::precedes(state.operators.keys()[j], least@));
        }
    }
    pos
}

/// One page of the operators of `owner`.
pub fn query_operators(
    state: &Cw721Config,
    env: &Env,
    owner: Address,
    include_expired_approval: bool,
    start_after: Option<Address>,
    limit: Option<u32>,
) -> (r: Result<OperatorsResponse, Cw721ContractError>)
    requires
        state.wf(),
    ensures
        answered(
            state@.all_operators(
                env.block.height,
                env.block.time,
                owner@,
                include_expired_approval,
                address_of(start_after),
                limit,
            ),
            r,
        ),
{
    if !owner.well_formed {
        return Err(Cw721ContractError::InvalidInput);
    }
    let size = effective_limit(limit);
    let ghost cursor = cursor_of(address_of(start_after));
    let ghost operators = keys_after::<String>(
        state@.operators_of(owner.text@, include_expired_approval, env.block.height, env.block.time),
        cursor,
    );
    let ghost wanted = paired(owner.text@, operators);
    let ghost keys = state.operators.keys();
    let start: usize = match &start_after {
        None => first_of_owner(state, &owner.text),
        Some(a) => {
            if !a.well_formed {
                return Err(Cw721ContractError::InvalidInput);
            }
            let pos = state.operators.first_after(
                &OperatorKey { owner: owner.text.clone(), operator: a.text.clone() },
            );
            proof {
                lemma_text_lt_irreflexive(owner.text@);
                assert forall|j: int| pos <= j < keys.len() implies !text_lt(
                    (#[trigger] keys[j]).0,
                    owner.text@,
                ) by {
                    assert(<OperatorKey as Key>::precedes((owner.text@, a.text@), keys[j]));
                    if text_lt(keys[j].0, owner.text@) {
                        lemma_text_lt_transitive(owner.text@, keys[j].0, owner.text@);
                    }
                }
            }
            pos
        },
    };
    let ghost mut pairs: Seq<(Seq<char>, Seq<char>)> = Seq::empty();
    let mut found: Vec<Approval> = Vec::new();
    let mut i: usize = start;
    let mut past_owner = false;
    proof {
        state.operators.lemma_listing();
        lemma_text_lt_irreflexive(owner.text@);
        assert forall|j: int| 0 <= j < start implies !wanted.contains(#[trigger] keys[j]) by {
            if wanted.contains(keys[j]) {
                assert(operators.contains(keys[j].1));
                if cursor is Some {
                    assert(<OperatorKey as Key>::precedes((owner.text@, cursor->Some_0), keys[j]));
                }
            }
        }
        lemma_page_start::<OperatorKey>(keys, wanted, start as int);
    }
    while i < state.operators.len() && found.len() < size && !past_owner
        invariant
            state.wf(),
            keys == state.operators.keys(),
            operators == keys_after::<String>(
                state@.operators_of(
                    owner.text@,
                    include_expired_approval,
                    env.block.height,
                    env.block.time,
                ),
                cursor,
            ),
            wanted == paired(owner.text@, operators),
            start <= i,
            forall|j: int|
                start <= j < keys.len() ==> after::<OperatorKey>(
                    pair_cursor(owner.text@, cursor),
                    #[trigger] keys[j],
                ),
            forall|j: int| start <= j < keys.len() ==> !text_lt((#[trigger] keys[j]).0, owner.text@),
            past_owner ==> forall|j: int| i <= j < keys.len() ==> !wanted.contains(#[trigger] keys[j]),
            page_so_far::<OperatorKey>(keys, wanted, i as int, pairs),
            pairs.len() == found@.len(),
            found@.len() <= size,
            forall|m: int|
                0 <= m < pairs.len() ==> pairs[m] == (owner.text@, (#[trigger] found@[m]).spender@)
                    && found@[m].expires == state@.operators[pairs[m]],
        decreases state.operators.keys().len() - i + (if past_owner { 0int } else { 1int }),
    {
        let key = state.operators.key_at(i);
        let expires = state.operators.value_at(i);
        proof {
            state.operators.lemma_listing();
            lemma_text_lt_irreflexive(owner.text@);
            assert(after::<OperatorKey>(pair_cursor(owner.text@, cursor), keys[i as int]));
        }
        if key.owner != owner.text {
            // The grants of one owner lie together: what follows is another's.
            proof {
                lemma_text_lt_connected(keys[i as int].0, owner.text@);
                assert forall|j: int| i <= j < keys.len() implies !wanted.contains(
                    #[trigger] keys[j],
                ) by {
                    if j > i {
                        assert(<OperatorKey as Key>::precedes(keys[i as int], keys[j]));
                        if keys[i as int].0 != keys[j].0 {
                            lemma_text_lt_transitive(owner.text@, keys[i as int].0, keys[j].0);
                        }
                    }
                }
            }
            past_owner = true;
        } else {
            if include_expired_approval || !expires.is_expired(&env.block) {
                proof {
                    assert(keys[i as int] == (owner.text@, key.operator@));
                    assert(operators.contains(key.operator@));
                    assert(wanted.contains(keys[i as int]));
                    lemma_page_take::<OperatorKey>(keys, wanted, i as int, pairs);
                    pairs = pairs.push(keys[i as int]);
                }
                found.push(Approval { spender: key.operator.clone(), expires: *expires });
            } else {
                proof {
                    lemma_page_skip::<OperatorKey>(keys, wanted, i as int, pairs);
                }
            }
            i = i + 1;
        }
    }
    proof {
        state.operators.lemma_listing();
        let all = state@.operators_of(
            owner.text@,
            include_expired_approval,
            env.block.height,
            env.block.time,
        );
        assert forall|k: (Seq<char>, Seq<char>)| wanted.contains(k) implies keys.contains(k) by {
            assert(all.contains(k.1));
            assert(state.operators@.contains_key(k));
        }
        if past_owner {
            lemma_page_rest::<OperatorKey>(keys, wanted, i as int, pairs);
        }
        lemma_page_end::<OperatorKey>(
            keys,
            wanted,
            if past_owner {
                keys.len() as int
            } else {
                i as int
            },
            pairs,
            size as nat,
        );
        let page = Seq::new(found@.len(), |m: int| found@[m].spender@);
        lemma_page_of_one_owner(owner.text@, operators, size as nat, pairs, page);
        lemma_page_of::<String>(operators, size as nat, page);
        assert(approvals_of(found@) =~= state@.all_operators(
            env.block.height,
            env.block.time,
            owner@,
            include_expired_approval,
            address_of(start_after),
            limit,
        )->Ok_0);
    }
    Ok(OperatorsResponse { operators: found })
}

/// Walks the token table from `start` and lists the ids of the tokens that
/// `owner` owns, or of all tokens where no owner is named, up to `size`.
fn tokens_from(state: &Cw721Config, owner: Option<&String>, start_after: &Option<String>, size: usize) -> (found:
    Vec<String>)
    requires
        state.wf(),
    ensures
        first_keys::<String>(
            keys_after::<String>(
                match owner {
                    Some(o) => state@.tokens_of(o@),
                    None => state@.tokens.dom(),
                },
                text_of(*start_after),
            ),
            size as nat,
            Seq::new(found@.len(), |i: int| found@[i]@),
        ),
{
    let start: usize = match start_after {
        None => 0,
        Some(id) => state.nft_info.first_after(id),
    };
    let ghost cursor = text_of(*start_after);
    let ghost wanted = keys_after::<String>(
        match owner {
            Some(o) => state@.tokens_of(o@),
            None => state@.tokens.dom(),
        },
        cursor,
    );
    let ghost keys = state.nft_info.keys();
    let mut found: Vec<String> = Vec::new();
    let mut i: usize = start;
    proof {
        state.nft_info.lemma_listing();
        lemma_page_start::<String>(keys, wanted, start as int);
        assert(Seq::new(found@.len(), |m: int| found@[m]@) =~= Seq::<Seq<char>>::empty());
    }
    while i < state.nft_info.len() && found.len() < size
        invariant
            state.wf(),
            keys == state.nft_info.keys(),
            wanted == keys_after::<String>(
                match owner {
                    Some(o) => state@.tokens_of(o@),
                    None => state@.tokens.dom(),
                },
                cursor,
            ),
            start <= i,
            forall|j: int| start <= j < keys.len() ==> after::<String>(cursor, #[trigger] keys[j]),
            page_so_far::<String>(
                keys,
                wanted,
                i as int,
                Seq::new(found@.len(), |m: int| found@[m]@),
            ),
            found@.len() <= size,
        decreases state.nft_info.keys().len() - i,
    {
        let id = state.nft_info.key_at(i);
        let token = state.nft_info.value_at(i);
        let ghost page = Seq::new(found@.len(), |m: int| found@[m]@);
        proof {
            state.nft_info.lemma_listing();
            assert(after::<String>(cursor, keys[i as int]));
        }
        let owned = match owner {
            Some(o) => token.owner == *o,
            None => true,
        };
        if owned {
            proof {
                assert(wanted.contains(keys[i as int]));
                lemma_page_take::<String>(keys, wanted, i as int, page);
            }
            found.push(id.clone());
            assert(Seq::new(found@.len(), |m: int| found@[m]@) =~= page.push(keys[i as int]));
        } else {
            proof {
                lemma_page_skip::<String>(keys, wanted, i as int, page);
            }
        }
        i = i + 1;
    }
    proof {
        state.nft_info.lemma_listing();
        lemma_page_end::<String>(
            keys,
            wanted,
            i as int,
            Seq::new(found@.len(), |m: int| found@[m]@),
            size as nat,
        );
    }
    found
}

/// One page of the ids of the tokens of `owner`.
pub fn query_tokens(
    state: &Cw721Config,
    env: &Env,
    owner: Address,
    start_after: Option<String>,
    limit: Option<u32>,
) -> (r: Result<TokensResponse, Cw721ContractError>)
    requires
        state.wf(),
    ensures
        answered(state@.tokens_page(owner@, text_of(start_after), limit), r),
{
    if !owner.well_formed {
        return Err(Cw721ContractError::InvalidInput);
    }
    let tokens = tokens_from(state, Some(&owner.text), &start_after, effective_limit(limit));
    proof {
        lemma_page_of::<String>(
            keys_after::<String>(state@.tokens_of(owner.text@), text_of(start_after)),
            page_limit(limit),
            Seq::new(tokens@.len(), |i: int| tokens@[i]@),
        );
    }
    Ok(TokensResponse { tokens })
}

/// One page of the ids of all tokens.
pub fn query_all_tokens(
    state: &Cw721Config,
    env: &Env,
    start_after: Option<String>,
    limit: Option<u32>,
) -> (r: Result<TokensResponse, Cw721ContractError>)
    requires
        state.wf(),
    ensures
        answered(Ok(state@.all_tokens_page(text_of(start_after), limit)), r),
{
    let tokens = tokens_from(state, None, &start_after, effective_limit(limit));
    proof {
        lemma_page_of::<String>(
            keys_after::<String>(state@.tokens.dom(), text_of(start_after)),
            page_limit(limit),
            Seq::new(tokens@.len(), |i: int| tokens@[i]@),
        );
    }
    Ok(TokensResponse { tokens })
}

/// Who the minter is.
pub fn query_minter(state: &Cw721Config) -> (r: Result<MinterResponse, Cw721ContractError>)
    ensures
        answered(Ok(state@.minter.owner), r),
{
    Ok(MinterResponse { minter: copy_text(&state.minter.owner) })
}

/// The minter's record, as it is kept: an offer that has lapsed is still on
/// it.
pub fn query_minter_ownership(state: &Cw721Config) -> (r: Result<Ownership, Cw721ContractError>)
    ensures
        answered(Ok(state@.minter), r),
{
    Ok(state.minter.clone())
}

/// The creator's record, as it is kept: an offer that has lapsed is still on
/// it.
pub fn query_creator_ownership(state: &Cw721Config) -> (r: Result<Ownership, Cw721ContractError>)
    ensures
        answered(Ok(state@.creator), r),
{
    Ok(state.creator.clone())
}

/// The collection's name and symbol.
pub fn query_collection_info(state: &Cw721Config) -> (r: Result<CollectionInfo, Cw721ContractError>)
    ensures
        answered(Ok(state@.collection_info), r),
{
    Ok(state.collection_info.clone())
}

/// What else describes the collection: nothing where no extension is set.
pub fn query_collection_extension_attributes(state: &Cw721Config) -> (r: Result<
    Vec<Attribute>,
    Cw721ContractError,
>)
    ensures
        r matches Ok(attributes) && attributes_of(attributes@) == state@.collection_extension,
{
    Ok(copy_attributes(&state.collection_extension))
}

/// The collection's name and symbol with what else describes it.
pub fn query_collection_info_and_extension(state: &Cw721Config) -> (r: Result<
    CollectionInfoAndExtensionResponse,
    Cw721ContractError,
>)
    ensures
        answered(Ok(state@.collection_info_and_extension()), r),
{
    Ok(
        CollectionInfoAndExtensionResponse {
            name: state.collection_info.name.clone(),
            symbol: state.collection_info.symbol.clone(),
            extension: copy_attributes(&state.collection_extension),
            updated_at: state.collection_info.updated_at,
        },
    )
}

/// All that configures the registry.
pub fn query_config(state: &Cw721Config, contract_addr: String) -> (r: Result<
    ConfigResponse,
    Cw721ContractError,
>)
    requires
        state.wf(),
    ensures
        answered(Ok(state@.config(contract_addr@)), r),
{
    Ok(
        ConfigResponse {
            num_tokens: state.token_count,
            minter_ownership: state.minter.clone(),
            creator_ownership: state.creator.clone(),
            withdraw_address: copy_text(&state.withdraw_address),
            collection_info: state.collection_info.clone(),
            collection_extension: copy_attributes(&state.collection_extension),
            contract_address: contract_addr,
        },
    )
}

/// The collection and the registry's address, in one.
pub fn query_all_info(state: &Cw721Config, env: &Env) -> (r: Result<AllInfoResponse, Cw721ContractError>)
    requires
        state.wf(),
    ensures
        answered(Ok(state@.all_info(env.contract_address@)), r),
{
    Ok(
        AllInfoResponse {
            contract_address: env.contract_address.clone(),
            collection_info: state.collection_info.clone(),
            collection_extension: copy_attributes(&state.collection_extension),
            num_tokens: state.token_count,
        },
    )
}

/// Whether a request asks for the lapsed grants too: it does not unless it
/// says so.
pub open spec fn with_expired(include_expired: Option<bool>) -> bool {
    match include_expired {
        Some(b) => b,
        None => false,
    }
}

/// An answer of one kind as the answer to a request.
pub open spec fn wrapped<V>(
    answer: Result<V, Cw721ContractError>,
    wrap: spec_fn(V) -> QueryResponseView,
) -> Result<QueryResponseView, Cw721ContractError> {
    match answer {
        Ok(v) => Ok(wrap(v)),
        Err(e) => Err(e),
    }
}

impl Registry {
    /// The answer to the request `msg`, by its kind. `contract_address` is
    /// the registry's own address.
    pub open spec fn query(self, height: u64, time: u64, contract_address: Seq<char>, msg: Cw721QueryMsgView) -> Result<
        QueryResponseView,
        Cw721ContractError,
    > {
        match msg {
            Cw721QueryMsgView::Minter {  } => Ok(QueryResponseView::Minter(self.minter.owner)),
            Cw721QueryMsgView::ContractInfo {  } => Ok(
                QueryResponseView::CollectionInfoAndExtension(self.collection_info_and_extension()),
            ),
            Cw721QueryMsgView::GetConfig {  } => Ok(
                QueryResponseView::Config(self.config(contract_address)),
            ),
            Cw721QueryMsgView::GetCollectionInfoAndExtension {  } => Ok(
                QueryResponseView::CollectionInfoAndExtension(self.collection_info_and_extension()),
            ),
            Cw721QueryMsgView::GetAllInfo {  } => Ok(
                QueryResponseView::AllInfo(self.all_info(contract_address)),
            ),
            Cw721QueryMsgView::GetCollectionExtensionAttributes {  } => Ok(
                QueryResponseView::CollectionExtensionAttributes(self.collection_extension),
            ),
            Cw721QueryMsgView::NftInfo { token_id } => wrapped(
                self.nft_info(token_id),
                |v: NftInfoResponseView| QueryResponseView::NftInfo(v),
            ),
            Cw721QueryMsgView::OwnerOf { token_id, include_expired } => wrapped(
                self.owner_of(height, time, token_id, with_expired(include_expired)),
                |v: OwnerOfResponseView| QueryResponseView::OwnerOf(v),
            ),
            Cw721QueryMsgView::AllNftInfo { token_id, include_expired } => wrapped(
                self.all_nft_info(height, time, token_id, with_expired(include_expired)),
                |v: AllNftInfoResponseView| QueryResponseView::AllNftInfo(v),
            ),
            Cw721QueryMsgView::Operator { owner, operator, include_expired } => wrapped(
                self.operator(height, time, owner, operator, with_expired(include_expired)),
                |v: ApprovalView| QueryResponseView::Operator(v),
            ),
            Cw721QueryMsgView::AllOperators { owner, include_expired, start_after, limit } => wrapped(
                self.all_operators(
                    height,
                    time,
                    owner,
                    with_expired(include_expired),
                    start_after,
                    limit,
                ),
                |v: Seq<ApprovalView>| QueryResponseView::Operators(v),
            ),
            Cw721QueryMsgView::NumTokens {  } => Ok(QueryResponseView::NumTokens(self.num_tokens())),
            Cw721QueryMsgView::Tokens { owner, start_after, limit } => wrapped(
                self.tokens_page(owner, start_after, limit),
                |v: Seq<Seq<char>>| QueryResponseView::Tokens(v),
            ),
            Cw721QueryMsgView::AllTokens { start_after, limit } => Ok(
                QueryResponseView::Tokens(self.all_tokens_page(start_after, limit)),
            ),
            Cw721QueryMsgView::Approval { token_id, spender, include_expired } => wrapped(
                self.approval(height, time, token_id, spender, with_expired(include_expired)),
                |v: ApprovalView| QueryResponseView::Approval(v),
            ),
            Cw721QueryMsgView::Approvals { token_id, include_expired } => wrapped(
                self.approvals(height, time, token_id, with_expired(include_expired)),
                |v: Seq<ApprovalView>| QueryResponseView::Approvals(v),
            ),
            Cw721QueryMsgView::Ownership {  } => Ok(QueryResponseView::Ownership(self.minter)),
            Cw721QueryMsgView::GetMinterOwnership {  } => Ok(
                QueryResponseView::Ownership(self.minter),
            ),
            Cw721QueryMsgView::GetCreatorOwnership {  } => Ok(
                QueryResponseView::Ownership(self.creator),
            ),
            Cw721QueryMsgView::GetWithdrawAddress {  } => Ok(
                QueryResponseView::WithdrawAddress(self.withdraw_address),
            ),
        }
    }
}

/// Where the registry's funds are paid out to, if an address is set.
pub fn query_withdraw_address(state: &Cw721Config) -> (r: Result<Option<String>, Cw721ContractError>)
    ensures
        r matches Ok(address) && text_of(address) == state@.withdraw_address,
{
    Ok(copy_text(&state.withdraw_address))
}

} // verus!
