//! What holds of the registry whatever is asked of it, stated over the
//! registry as a mathematical value.

use vstd::prelude::*;
use crate::error::Cw721ContractError;
use crate::execute::{
    carried_out, holds_approval, holds_standing_approval, lemma_replaced_is_distinct,
    lemma_revoked, or_never, revoked, Outcome,
};
use crate::keys::{lemma_text_lt_irreflexive, Key};
use crate::msg::{Cw721ExecuteMsgView, Cw721QueryMsgView};
use crate::ownership::ActionView;
use crate::paging::{
    after, keys_after, lemma_first_keys_unique, lemma_keys_after_finite, lemma_large_page_is_all,
    lemma_page_exists, lemma_page_has_no_duplicates, lemma_pages_chain, page_limit, page_of,
    DEFAULT_LIMIT, MAX_LIMIT,
};
use crate::query::{lemma_shown_push, shown, shown_approval};
use crate::response::Response;
use crate::state::{
    distinct_spenders, AddressView, ApprovalView, CoinView, Expiration, OwnershipView, Registry,
};

verus! {

/// An id is given out once. When a token has been minted under an id, a
/// second mint of that id is refused: as already existing where the minter
/// asks, whatever else the second mint names, and as unauthorized where
/// anybody else asks, as every mint of theirs is. The refusal leaves the
/// registry, and with it the number of tokens, as it was.
pub proof fn lemma_second_mint_is_refused(
    registry: Registry,
    sender: Seq<char>,
    token_id: Seq<char>,
    owner: AddressView,
    token_uri: Option<Seq<char>>,
    second_sender: Seq<char>,
    second_owner: AddressView,
    second_token_uri: Option<Seq<char>>,
    after_second: Registry,
    r: Result<Response, Cw721ContractError>,
)
    requires
        registry.mint(sender, token_id, owner, token_uri) is Ok,
        carried_out(
            registry.mint(sender, token_id, owner, token_uri)->Ok_0.registry.mint(
                second_sender,
                token_id,
                second_owner,
                second_token_uri,
            ),
            registry.mint(sender, token_id, owner, token_uri)->Ok_0.registry,
            after_second,
            r,
        ),
    ensures
        r == Err::<Response, Cw721ContractError>(
            if registry.minter.is_owner(second_sender) {
                Cw721ContractError::AlreadyExists
            } else {
                Cw721ContractError::Unauthorized
            },
        ),
        registry.minter.is_owner(sender),
        after_second == registry.mint(sender, token_id, owner, token_uri)->Ok_0.registry,
        after_second.num_tokens() == registry.mint(
            sender,
            token_id,
            owner,
            token_uri,
        )->Ok_0.registry.num_tokens(),
{
}

/// The number of tokens goes up by one with a mint and down by one with a
/// burn, and no other command changes it.
pub proof fn lemma_count_follows_mint_and_burn(
    registry: Registry,
    height: u64,
    time: u64,
    sender: Seq<char>,
    msg: Cw721ExecuteMsgView,
)
    requires
        registry.valid(),
        registry.execute(height, time, sender, msg) is Ok,
    ensures
        registry.execute(height, time, sender, msg)->Ok_0.registry.num_tokens() == (match msg {
            Cw721ExecuteMsgView::Mint { .. } => registry.num_tokens() + 1,
            Cw721ExecuteMsgView::Burn { .. } => (registry.num_tokens() - 1) as nat,
            _ => registry.num_tokens(),
        }),
{
    let next = registry.execute(height, time, sender, msg)->Ok_0.registry;
    match msg {
        Cw721ExecuteMsgView::Mint { token_id, owner, token_uri } => {
            assert(next.tokens.dom() =~= registry.tokens.dom().insert(token_id));
        },
        Cw721ExecuteMsgView::Burn { token_id } => {
            assert(next.tokens.dom() =~= registry.tokens.dom().remove(token_id));
        },
        Cw721ExecuteMsgView::Approve { spender, token_id, expires } => {
            assert(next.tokens.dom() =~= registry.tokens.dom());
        },
        Cw721ExecuteMsgView::Revoke { spender, token_id } => {
            assert(next.tokens.dom() =~= registry.tokens.dom());
        },
        Cw721ExecuteMsgView::TransferNft { recipient, token_id } => {
            assert(next.tokens.dom() =~= registry.tokens.dom());
        },
        Cw721ExecuteMsgView::SendNft { contract, token_id, msg } => {
            assert(next.tokens.dom() =~= registry.tokens.dom());
        },
        Cw721ExecuteMsgView::UpdateNftInfo { token_id, token_uri } => {
            assert(next.tokens.dom() =~= registry.tokens.dom());
        },
        _ => {},
    }
}

/// A mint adds one token.
pub proof fn lemma_mint_counts_one(
    registry: Registry,
    sender: Seq<char>,
    token_id: Seq<char>,
    owner: AddressView,
    token_uri: Option<Seq<char>>,
)
    requires
        registry.valid(),
        registry.mint(sender, token_id, owner, token_uri) is Ok,
    ensures
        registry.mint(sender, token_id, owner, token_uri)->Ok_0.registry.num_tokens()
            == registry.num_tokens() + 1,
{
    assert(registry.tokens.insert(
        token_id,
        registry.mint(sender, token_id, owner, token_uri)->Ok_0.registry.tokens[token_id],
    ).dom() =~= registry.tokens.dom().insert(token_id));
}

/// The id of a burned token is not given out again: after the burn, no mint
/// of that id is carried out. The minter is told that the id exists already,
/// and anybody else that they are unauthorized, as for every mint of theirs.
pub proof fn lemma_burned_id_stays_taken(
    registry: Registry,
    height: u64,
    time: u64,
    sender: Seq<char>,
    token_id: Seq<char>,
    minter: Seq<char>,
    owner: AddressView,
    token_uri: Option<Seq<char>>,
)
    requires
        registry.burn_nft(height, time, sender, token_id) is Ok,
    ensures
        registry.burn_nft(height, time, sender, token_id)->Ok_0.registry.mint(
            minter,
            token_id,
            owner,
            token_uri,
        ) == Err::<Outcome, Cw721ContractError>(
            if registry.minter.is_owner(minter) {
                Cw721ContractError::AlreadyExists
            } else {
                Cw721ContractError::Unauthorized
            },
        ),
{
}

/// Who is not the owner of a token, holds no approval on it and no operator
/// grant from its owner, lapsed or not, cannot transfer it: the transfer is
/// refused as unauthorized.
pub proof fn lemma_stranger_cannot_transfer(
    registry: Registry,
    height: u64,
    time: u64,
    sender: Seq<char>,
    recipient: AddressView,
    token_id: Seq<char>,
)
    requires
        registry.tokens.contains_key(token_id),
        registry.tokens[token_id].owner != sender,
        !holds_approval(registry.tokens[token_id].approvals, sender),
        !registry.operators.contains_key((registry.tokens[token_id].owner, sender)),
    ensures
        registry.transfer_nft(height, time, sender, recipient, token_id) == Err::<
            Outcome,
            Cw721ContractError,
        >(Cw721ContractError::Unauthorized),
{
    let approvals = registry.tokens[token_id].approvals;
    if holds_standing_approval(approvals, sender, height, time) {
        let i = choose|i: int|
            0 <= i < approvals.len() && (#[trigger] approvals[i]).spender == sender
                && !approvals[i].expires.lapsed(height, time);
        assert(approvals[i].spender == sender);
    }
}

/// A lapsed grant moves nothing. Who is not the owner of a token and holds
/// neither an approval on it nor an operator grant from its owner that still
/// stands cannot transfer or burn it: the command is refused, as expired
/// where the caller holds a lapsed grant and as unauthorized where the
/// caller holds none.
pub proof fn lemma_lapsed_grants_are_inert(
    registry: Registry,
    height: u64,
    time: u64,
    sender: Seq<char>,
    recipient: AddressView,
    token_id: Seq<char>,
)
    requires
        registry.tokens.contains_key(token_id),
        registry.tokens[token_id].owner != sender,
        !holds_standing_approval(registry.tokens[token_id].approvals, sender, height, time),
        !registry.operator_stands(registry.tokens[token_id].owner, sender, height, time),
    ensures
        registry.transfer_nft(height, time, sender, recipient, token_id) is Err,
        registry.burn_nft(height, time, sender, token_id) is Err,
        registry.transfer_nft(height, time, sender, recipient, token_id)->Err_0 == (if holds_approval(
            registry.tokens[token_id].approvals,
            sender,
        ) || registry.operators.contains_key((registry.tokens[token_id].owner, sender)) {
            Cw721ContractError::Expired
        } else {
            Cw721ContractError::Unauthorized
        }),
        registry.burn_nft(height, time, sender, token_id)->Err_0 == registry.transfer_nft(
            height,
            time,
            sender,
            recipient,
            token_id,
        )->Err_0,
{
}

/// What has lapsed stays lapsed: the clock does not run back.
pub proof fn lemma_lapsed_stays_lapsed(
    expires: Expiration,
    height: u64,
    time: u64,
    later_height: u64,
    later_time: u64,
)
    requires
        expires.lapsed(height, time),
        height <= later_height,
        time <= later_time,
    ensures
        expires.lapsed(later_height, later_time),
{
}

/// The owner of a token can transfer it, and so can who holds an approval on
/// it or an operator grant from its owner that still stands, to whatever
/// address is well-formed.
pub proof fn lemma_who_can_transfer(
    registry: Registry,
    height: u64,
    time: u64,
    sender: Seq<char>,
    recipient: AddressView,
    token_id: Seq<char>,
)
    requires
        registry.tokens.contains_key(token_id),
        recipient.well_formed,
        registry.tokens[token_id].owner == sender || holds_standing_approval(
            registry.tokens[token_id].approvals,
            sender,
            height,
            time,
        ) || registry.operator_stands(registry.tokens[token_id].owner, sender, height, time),
    ensures
        registry.transfer_nft(height, time, sender, recipient, token_id) is Ok,
        registry.burn_nft(height, time, sender, token_id) is Ok,
{
}

/// A grant to an operator that has lapsed is left out of the answers, and
/// is still shown to who asks for the lapsed ones too.
pub proof fn lemma_lapsed_operator_is_filtered(
    registry: Registry,
    owner: AddressView,
    operator: AddressView,
    height: u64,
    time: u64,
)
    requires
        owner.well_formed,
        operator.well_formed,
        registry.operators.contains_key((owner.text, operator.text)),
        registry.operators[(owner.text, operator.text)].lapsed(height, time),
    ensures
        registry.operator(height, time, owner, operator, false) == Err::<
            ApprovalView,
            Cw721ContractError,
        >(Cw721ContractError::NotFound),
        registry.operator(height, time, owner, operator, true) == Ok::<
            ApprovalView,
            Cw721ContractError,
        >(
            ApprovalView {
                spender: operator.text,
                expires: registry.operators[(owner.text, operator.text)],
            },
        ),
        !registry.operators_of(owner.text, false, height, time).contains(operator.text),
        registry.operators_of(owner.text, true, height, time).contains(operator.text),
{
}

/// A transfer clears the approvals on the token: asked for them afterwards,
/// at whatever time and with or without the lapsed ones, the registry
/// answers with none.
pub proof fn lemma_transfer_clears_approvals(
    registry: Registry,
    height: u64,
    time: u64,
    sender: Seq<char>,
    recipient: AddressView,
    token_id: Seq<char>,
    later_height: u64,
    later_time: u64,
    include_expired: bool,
)
    requires
        registry.transfer_nft(height, time, sender, recipient, token_id) is Ok,
    ensures
        registry.transfer_nft(height, time, sender, recipient, token_id)->Ok_0.registry.approvals(
            later_height,
            later_time,
            token_id,
            include_expired,
        ) == Ok::<Seq<ApprovalView>, Cw721ContractError>(Seq::empty()),
        registry.transfer_nft(
            height,
            time,
            sender,
            recipient,
            token_id,
        )->Ok_0.registry.tokens[token_id].owner == recipient.text,
{
    assert(shown(Seq::<ApprovalView>::empty(), include_expired, later_height, later_time)
        =~= Seq::<ApprovalView>::empty());
}

/// What an answer shows of a list of approvals: with the lapsed ones, the
/// whole list; without them, those of the list that have not lapsed, and no
/// others.
pub proof fn lemma_shown_approvals(
    approvals: Seq<ApprovalView>,
    height: u64,
    time: u64,
    approval: ApprovalView,
)
    ensures
        shown(approvals, true, height, time) == approvals,
        shown(approvals, false, height, time).contains(approval) <==> approvals.contains(approval)
            && !approval.expires.lapsed(height, time),
    decreases approvals.len(),
{
    if approvals.len() == 0 {
        assert(shown(approvals, true, height, time) =~= approvals);
        assert(shown(approvals, false, height, time) =~= approvals);
    } else {
        let front = approvals.drop_last();
        let last = approvals.last();
        assert(approvals =~= front.push(last));
        lemma_shown_approvals(front, height, time, approval);
        lemma_shown_push(front, last, true, height, time);
        lemma_shown_push(front, last, false, height, time);
        let kept = shown(front, false, height, time);
        if approvals.contains(approval) {
            let i = approvals.index_of(approval);
            if i < front.len() {
                assert(front[i] == approval);
            }
        }
        if front.contains(approval) {
            let i = front.index_of(approval);
            assert(approvals[i] == approval);
        }
        if kept.contains(approval) {
            let i = kept.index_of(approval);
            assert(kept.push(last)[i] == approval);
        }
        if !last.expires.lapsed(height, time) {
            assert(kept.push(last)[kept.len() as int] == last);
            if kept.push(last).contains(approval) {
                let i = kept.push(last).index_of(approval);
                if i < kept.len() {
                    assert(kept[i] == approval);
                }
            }
        }
        assert(approvals[approvals.len() - 1] == last);
    }
}

/// What the single answer shows: the first approval of the spender that
/// the answer may show is one of the list, and where there is none to show,
/// the list holds none.
pub proof fn lemma_shown_approval(
    approvals: Seq<ApprovalView>,
    spender: Seq<char>,
    include_expired: bool,
    height: u64,
    time: u64,
)
    ensures
        match shown_approval(approvals, spender, include_expired, height, time) {
            Some(a) => approvals.contains(a) && a.spender == spender && (include_expired
                || !a.expires.lapsed(height, time)),
            None => forall|i: int|
                0 <= i < approvals.len() && (#[trigger] approvals[i]).spender == spender
                    ==> !include_expired && approvals[i].expires.lapsed(height, time),
        },
    decreases approvals.len(),
{
    if approvals.len() > 0 {
        let rest = approvals.drop_first();
        lemma_shown_approval(rest, spender, include_expired, height, time);
        let found = shown_approval(approvals, spender, include_expired, height, time);
        if approvals[0].spender == spender && (include_expired || !approvals[0].expires.lapsed(
            height,
            time,
        )) {
        } else {
            match found {
                Some(a) => {
                    let i = rest.index_of(a);
                    assert(approvals[i + 1] == a);
                },
                None => {
                    assert forall|i: int|
                        0 <= i < approvals.len() && (#[trigger] approvals[i]).spender
                            == spender implies !include_expired && approvals[i].expires.lapsed(
                        height,
                        time,
                    ) by {
                        if i > 0 {
                            assert(rest[i - 1] == approvals[i]);
                        }
                    }
                },
            }
        }
    }
}

/// An approval that lasts to height `h` is left out of the answers from
/// height `h` on, and is still shown to who asks for the lapsed ones too.
/// It is the spender's only approval on the token: without the lapsed ones
/// no answer shows anything of the spender, and with them every answer shows
/// that approval and no other of the spender. Nothing is swept: the token
/// holds the approval as before.
pub proof fn lemma_lapsed_approval_is_filtered(
    registry: Registry,
    token_id: Seq<char>,
    spender: AddressView,
    h: u64,
    height: u64,
    time: u64,
)
    requires
        registry.valid(),
        registry.tokens.contains_key(token_id),
        registry.tokens[token_id].approvals.contains(
            ApprovalView { spender: spender.text, expires: Expiration::AtHeight(h) },
        ),
        height >= h,
    ensures
        registry.approvals(height, time, token_id, false) is Ok,
        !registry.approvals(height, time, token_id, false)->Ok_0.contains(
            ApprovalView { spender: spender.text, expires: Expiration::AtHeight(h) },
        ),
        !holds_approval(registry.approvals(height, time, token_id, false)->Ok_0, spender.text),
        registry.approvals(height, time, token_id, true) is Ok,
        registry.approvals(height, time, token_id, true)->Ok_0
            == registry.tokens[token_id].approvals,
        holds_once(
            registry.approvals(height, time, token_id, true)->Ok_0,
            ApprovalView { spender: spender.text, expires: Expiration::AtHeight(h) },
        ),
        registry.owner_of(height, time, token_id, false)->Ok_0.approvals == registry.approvals(
            height,
            time,
            token_id,
            false,
        )->Ok_0,
        registry.owner_of(height, time, token_id, true)->Ok_0.approvals == registry.approvals(
            height,
            time,
            token_id,
            true,
        )->Ok_0,
        spender.well_formed && registry.tokens[token_id].owner != spender.text ==> registry.approval(
            height,
            time,
            token_id,
            spender,
            false,
        ) == Err::<ApprovalView, Cw721ContractError>(Cw721ContractError::NotFound)
            && registry.approval(height, time, token_id, spender, true) == Ok::<
            ApprovalView,
            Cw721ContractError,
        >(ApprovalView { spender: spender.text, expires: Expiration::AtHeight(h) }),
{
    let stored = registry.tokens[token_id].approvals;
    let lapsed = ApprovalView { spender: spender.text, expires: Expiration::AtHeight(h) };
    let kept = shown(stored, false, height, time);
    lemma_shown_approvals(stored, height, time, lapsed);
    lemma_holds_once(stored, lapsed);
    assert forall|i: int| 0 <= i < kept.len() implies (#[trigger] kept[i]).spender
        != spender.text by {
        lemma_shown_approvals(stored, height, time, kept[i]);
        assert(kept.contains(kept[i]));
        if kept[i].spender == spender.text {
            let k = stored.index_of(kept[i]);
            assert(stored[k] == lapsed);
        }
    }
    lemma_shown_approval(stored, spender.text, false, height, time);
    lemma_shown_approval(stored, spender.text, true, height, time);
    match shown_approval(stored, spender.text, false, height, time) {
        Some(a) => {
            let k = stored.index_of(a);
            assert(stored[k] == lapsed);
        },
        None => {},
    }
    match shown_approval(stored, spender.text, true, height, time) {
        Some(a) => {
            let k = stored.index_of(a);
            assert(stored[k] == lapsed);
        },
        None => {
            let m = stored.index_of(lapsed);
            assert(stored[m].spender == spender.text);
        },
    }
}

/// An approval is owed to who may give it. Where the token is there, the
/// caller is its owner or an operator of the owner whose grant stands, and
/// the spender's address is well-formed, the approval is given, whatever its
/// expiration. Afterwards the spender holds that one approval on the token
/// and no other, and what the other spenders hold is as it was, as are the
/// token's owner and the number of tokens.
pub proof fn lemma_approve_is_owed(
    registry: Registry,
    height: u64,
    time: u64,
    sender: Seq<char>,
    spender: AddressView,
    token_id: Seq<char>,
    expires: Option<Expiration>,
    other: ApprovalView,
)
    requires
        registry.valid(),
        registry.tokens.contains_key(token_id),
        registry.may_approve(registry.tokens[token_id], sender, height, time),
        spender.well_formed,
    ensures
        registry.approve(height, time, sender, spender, token_id, expires) is Ok,
        registry.approve(
            height,
            time,
            sender,
            spender,
            token_id,
            expires,
        )->Ok_0.registry.tokens[token_id].approvals == revoked(
            registry.tokens[token_id].approvals,
            spender.text,
        ).push(ApprovalView { spender: spender.text, expires: or_never(expires) }),
        holds_once(
            registry.approve(
                height,
                time,
                sender,
                spender,
                token_id,
                expires,
            )->Ok_0.registry.tokens[token_id].approvals,
            ApprovalView { spender: spender.text, expires: or_never(expires) },
        ),
        other.spender != spender.text ==> (registry.approve(
            height,
            time,
            sender,
            spender,
            token_id,
            expires,
        )->Ok_0.registry.tokens[token_id].approvals.contains(other)
            <==> registry.tokens[token_id].approvals.contains(other)),
        registry.approve(
            height,
            time,
            sender,
            spender,
            token_id,
            expires,
        )->Ok_0.registry.tokens[token_id].owner == registry.tokens[token_id].owner,
        registry.approve(height, time, sender, spender, token_id, expires)->Ok_0.registry.num_tokens()
            == registry.num_tokens(),
{
    let before = registry.tokens[token_id].approvals;
    let kept = revoked(before, spender.text);
    let added = ApprovalView { spender: spender.text, expires: or_never(expires) };
    let now = kept.push(added);
    lemma_revoked(before, spender.text);
    lemma_replaced_is_distinct(before, spender.text, or_never(expires));
    assert(now[kept.len() as int] == added);
    assert(registry.tokens.insert(
        token_id,
        registry.approve(height, time, sender, spender, token_id, expires)->Ok_0.registry.tokens[token_id],
    ).dom() =~= registry.tokens.dom());
    if other.spender != spender.text {
        if now.contains(other) {
            let i = now.index_of(other);
            assert(kept[i] == other);
        }
        if before.contains(other) {
            let i = before.index_of(other);
            assert(kept.contains(before[i]));
            let k = kept.index_of(other);
            assert(now[k] == other);
        }
    }
}

/// Whether the list holds `approval`, and no other approval of its spender.
pub open spec fn holds_once(approvals: Seq<ApprovalView>, approval: ApprovalView) -> bool {
    &&& approvals.contains(approval)
    &&& forall|i: int|
        0 <= i < approvals.len() && (#[trigger] approvals[i]).spender == approval.spender
            ==> approvals[i] == approval
    &&& forall|i: int, j: int|
        0 <= i < approvals.len() && 0 <= j < approvals.len() && (#[trigger] approvals[i]).spender
            == approval.spender && (#[trigger] approvals[j]).spender == approval.spender ==> i == j
}

/// In a list that holds no spender twice, an approval that the list holds
/// is the only one of its spender.
pub proof fn lemma_holds_once(approvals: Seq<ApprovalView>, approval: ApprovalView)
    requires
        distinct_spenders(approvals),
        approvals.contains(approval),
    ensures
        holds_once(approvals, approval),
{
    let m = approvals.index_of(approval);
    assert forall|i: int|
        0 <= i < approvals.len() && (#[trigger] approvals[i]).spender == approval.spender implies i
        == m by {
        if i < m {
            assert(approvals[i].spender != approvals[m].spender);
        } else if m < i {
            assert(approvals[m].spender != approvals[i].spender);
        }
    }
}

/// A grant to an operator is owed to every caller: it is given whatever its
/// expiration, to whatever address is well-formed, and is the caller's own.
pub proof fn lemma_approve_all_is_owed(
    registry: Registry,
    height: u64,
    time: u64,
    sender: Seq<char>,
    operator: AddressView,
    expires: Option<Expiration>,
)
    requires
        operator.well_formed,
    ensures
        registry.approve_all(height, time, sender, operator, expires) is Ok,
        registry.approve_all(height, time, sender, operator, expires)->Ok_0.registry.operators
            == registry.operators.insert((sender, operator.text), or_never(expires)),
{
}

/// A page of token ids holds no more ids than were asked for, never more
/// than the largest page size, and no more than there are tokens.
pub proof fn lemma_page_is_bounded(
    registry: Registry,
    start_after: Option<Seq<char>>,
    limit: Option<u32>,
)
    requires
        registry.valid(),
    ensures
        registry.all_tokens_page(start_after, limit).len() <= page_limit(limit) <= MAX_LIMIT,
        limit matches Some(n) ==> registry.all_tokens_page(start_after, limit).len() <= n,
        limit is None ==> registry.all_tokens_page(start_after, limit).len() <= DEFAULT_LIMIT,
        registry.all_tokens_page(start_after, limit).len() <= registry.num_tokens(),
{
    let dom = registry.tokens.dom();
    let keys = keys_after::<String>(dom, start_after);
    let page = registry.all_tokens_page(start_after, limit);
    lemma_keys_after_finite::<String>(dom, start_after);
    lemma_page_exists::<String>(keys, page_limit(limit));
    lemma_page_has_no_duplicates::<String>(keys, page_limit(limit), page);
    page.unique_seq_to_set();
    assert(page.to_set().subset_of(dom)) by {
        assert forall|k: Seq<char>| page.to_set().contains(k) implies dom.contains(k) by {
            let i = page.index_of(k);
            assert(keys.contains(page[i]));
        }
    }
    vstd::set_lib::lemma_len_subset(page.to_set(), dom);
}

/// The ids of a page are ids of tokens that lie after the cursor.
pub proof fn lemma_page_lists_tokens(
    registry: Registry,
    start_after: Option<Seq<char>>,
    limit: Option<u32>,
    i: int,
)
    requires
        registry.valid(),
        0 <= i < registry.all_tokens_page(start_after, limit).len(),
    ensures
        registry.tokens.contains_key(registry.all_tokens_page(start_after, limit)[i]),
        after::<String>(start_after, registry.all_tokens_page(start_after, limit)[i]),
{
    let keys = keys_after::<String>(registry.tokens.dom(), start_after);
    let page = registry.all_tokens_page(start_after, limit);
    lemma_keys_after_finite::<String>(registry.tokens.dom(), start_after);
    lemma_page_exists::<String>(keys, page_limit(limit));
    assert(keys.contains(page[i]));
}

/// The ids of a page ascend, so that none comes twice.
pub proof fn lemma_page_ascends(
    registry: Registry,
    start_after: Option<Seq<char>>,
    limit: Option<u32>,
    i: int,
    j: int,
)
    requires
        registry.valid(),
        0 <= i < j < registry.all_tokens_page(start_after, limit).len(),
    ensures
        <String as Key>::precedes(
            registry.all_tokens_page(start_after, limit)[i],
            registry.all_tokens_page(start_after, limit)[j],
        ),
        registry.all_tokens_page(start_after, limit)[i] != registry.all_tokens_page(
            start_after,
            limit,
        )[j],
{
    let keys = keys_after::<String>(registry.tokens.dom(), start_after);
    let page = registry.all_tokens_page(start_after, limit);
    lemma_keys_after_finite::<String>(registry.tokens.dom(), start_after);
    lemma_page_exists::<String>(keys, page_limit(limit));
    assert(keys.contains(page[i]));
    lemma_text_lt_irreflexive(page[i]);
}

/// A page that is not full is the last one: every token after the cursor is
/// on it.
pub proof fn lemma_short_page_ends_the_walk(
    registry: Registry,
    start_after: Option<Seq<char>>,
    limit: Option<u32>,
    token_id: Seq<char>,
)
    requires
        registry.valid(),
        registry.all_tokens_page(start_after, limit).len() < page_limit(limit),
        registry.tokens.contains_key(token_id),
        after::<String>(start_after, token_id),
    ensures
        registry.all_tokens_page(start_after, limit).contains(token_id),
{
    let keys = keys_after::<String>(registry.tokens.dom(), start_after);
    lemma_keys_after_finite::<String>(registry.tokens.dom(), start_after);
    lemma_page_exists::<String>(keys, page_limit(limit));
    assert(keys.contains(token_id));
}

/// Pages follow on each other without gap or overlap. The page after the
/// last id of a page takes up where that page ends: the two in a row list
/// what one page of both sizes would list after the first cursor. So a walk
/// that takes each page's last id as the next cursor comes by every token
/// once, and by none twice.
pub proof fn lemma_pages_follow_on(
    registry: Registry,
    start_after: Option<Seq<char>>,
    limit: Option<u32>,
    next_limit: Option<u32>,
)
    requires
        registry.valid(),
        registry.all_tokens_page(start_after, limit).len() > 0,
    ensures
        registry.all_tokens_page(start_after, limit) + registry.all_tokens_page(
            Some(registry.all_tokens_page(start_after, limit).last()),
            next_limit,
        ) == page_of::<String>(
            keys_after::<String>(registry.tokens.dom(), start_after),
            page_limit(limit) + page_limit(next_limit),
        ),
{
    let dom = registry.tokens.dom();
    let first = registry.all_tokens_page(start_after, limit);
    let second = registry.all_tokens_page(Some(first.last()), next_limit);
    lemma_keys_after_finite::<String>(dom, start_after);
    lemma_keys_after_finite::<String>(dom, Some(first.last()));
    lemma_page_exists::<String>(keys_after::<String>(dom, start_after), page_limit(limit));
    lemma_page_exists::<String>(keys_after::<String>(dom, Some(first.last())), page_limit(next_limit));
    lemma_pages_chain::<String>(
        dom,
        start_after,
        first,
        page_limit(limit),
        second,
        page_limit(next_limit),
    );
    lemma_page_exists::<String>(
        keys_after::<String>(dom, start_after),
        page_limit(limit) + page_limit(next_limit),
    );
    lemma_first_keys_unique::<String>(
        keys_after::<String>(dom, start_after),
        page_limit(limit) + page_limit(next_limit),
        first + second,
        page_of::<String>(
            keys_after::<String>(dom, start_after),
            page_limit(limit) + page_limit(next_limit),
        ),
    );
}

/// The ids that a walk comes by in `rounds` pages, where each page's last
/// id is the cursor of the next and the walk stops at an empty page.
pub open spec fn walk(
    registry: Registry,
    start_after: Option<Seq<char>>,
    limit: Option<u32>,
    rounds: nat,
) -> Seq<Seq<char>>
    decreases rounds,
{
    if rounds == 0 {
        Seq::empty()
    } else {
        let page = registry.all_tokens_page(start_after, limit);
        if page.len() == 0 {
            page
        } else {
            page + walk(registry, Some(page.last()), limit, (rounds - 1) as nat)
        }
    }
}

/// A walk of several pages comes by what one page of all their sizes would
/// list.
pub proof fn lemma_walk_is_one_page(
    registry: Registry,
    start_after: Option<Seq<char>>,
    limit: Option<u32>,
    rounds: nat,
)
    requires
        registry.valid(),
    ensures
        walk(registry, start_after, limit, rounds) == page_of::<String>(
            keys_after::<String>(registry.tokens.dom(), start_after),
            rounds * page_limit(limit),
        ),
    decreases rounds,
{
    let dom = registry.tokens.dom();
    let keys = keys_after::<String>(dom, start_after);
    let size = page_limit(limit);
    lemma_keys_after_finite::<String>(dom, start_after);
    lemma_page_exists::<String>(keys, rounds * size);
    let whole = page_of::<String>(keys, rounds * size);
    if rounds == 0 {
        assert(rounds * size == 0) by (nonlinear_arith)
            requires
                rounds == 0,
        ;
        assert(whole =~= Seq::<Seq<char>>::empty());
    } else {
        let page = registry.all_tokens_page(start_after, limit);
        lemma_page_exists::<String>(keys, size);
        assert(rounds * size == size + (rounds - 1) * size) by (nonlinear_arith)
            requires
                rounds >= 1,
        ;
        if page.len() == 0 {
            if size == 0 {
                assert(rounds * size == 0) by (nonlinear_arith)
                    requires
                        size == 0,
                ;
            } else {
                assert forall|k: Seq<char>| !keys.contains(k) by {
                    if keys.contains(k) {
                        assert(page.contains(k));
                    }
                }
                if whole.len() > 0 {
                    assert(keys.contains(whole[0]));
                }
            }
            assert(whole =~= page);
        } else {
            let rest = walk(registry, Some(page.last()), limit, (rounds - 1) as nat);
            lemma_walk_is_one_page(registry, Some(page.last()), limit, (rounds - 1) as nat);
            lemma_keys_after_finite::<String>(dom, Some(page.last()));
            lemma_page_exists::<String>(
                keys_after::<String>(dom, Some(page.last())),
                ((rounds - 1) * size) as nat,
            );
            lemma_pages_chain::<String>(
                dom,
                start_after,
                page,
                size,
                rest,
                ((rounds - 1) * size) as nat,
            );
            lemma_first_keys_unique::<String>(keys, rounds * size, page + rest, whole);
        }
    }
}

/// A walk that is long enough comes by every token, and by none twice: its
/// ids ascend, and where the pages of the walk have room for as many ids as
/// there are tokens, the id of every token is among them.
pub proof fn lemma_walk_lists_every_token_once(
    registry: Registry,
    limit: Option<u32>,
    rounds: nat,
    token_id: Seq<char>,
)
    requires
        registry.valid(),
        rounds * page_limit(limit) >= registry.num_tokens(),
        registry.tokens.contains_key(token_id),
    ensures
        walk(registry, None, limit, rounds).contains(token_id),
        walk(registry, None, limit, rounds).no_duplicates(),
        walk(registry, None, limit, rounds).len() == registry.num_tokens(),
{
    let dom = registry.tokens.dom();
    let keys = keys_after::<String>(dom, None);
    let room = rounds * page_limit(limit);
    let all = walk(registry, None, limit, rounds);
    assert(keys =~= dom);
    lemma_walk_is_one_page(registry, None, limit, rounds);
    lemma_page_exists::<String>(keys, room);
    lemma_large_page_is_all::<String>(keys, room, all, token_id);
    lemma_page_has_no_duplicates::<String>(keys, room, all);
    all.unique_seq_to_set();
    assert(all.to_set() =~= dom) by {
        assert forall|k: Seq<char>| all.to_set().contains(k) <==> dom.contains(k) by {
            if dom.contains(k) {
                lemma_large_page_is_all::<String>(keys, room, all, k);
            }
            if all.contains(k) {
                let i = all.index_of(k);
                assert(keys.contains(all[i]));
            }
        }
    }
}

/// An offer that has run out cannot be taken. When the holder of a role has
/// offered it to `new_owner` until `expiry`, and the clock has reached
/// `expiry`, the one it was offered to is refused with `Expired`, and the
/// record still names the holder who made the offer.
pub proof fn lemma_late_acceptance_is_refused(
    record: OwnershipView,
    height: u64,
    time: u64,
    holder: Seq<char>,
    new_owner: AddressView,
    expiry: Expiration,
    later_height: u64,
    later_time: u64,
)
    requires
        record.after(
            height,
            time,
            holder,
            ActionView::TransferOwnership { new_owner, expiry: Some(expiry) },
        ) is Ok,
        expiry.lapsed(later_height, later_time),
    ensures
        record.after(
            height,
            time,
            holder,
            ActionView::TransferOwnership { new_owner, expiry: Some(expiry) },
        )->Ok_0.after(later_height, later_time, new_owner.text, ActionView::AcceptOwnership) == Err::<
            OwnershipView,
            Cw721ContractError,
        >(Cw721ContractError::Expired),
        record.after(
            height,
            time,
            holder,
            ActionView::TransferOwnership { new_owner, expiry: Some(expiry) },
        )->Ok_0.owner == Some(holder),
        record.owner == Some(holder),
{
}

/// The same of the minter's role in the registry: the late acceptance is
/// refused with `Expired` and leaves the registry as it was, the minter
/// with it. The one to whom the role was offered has gained nothing: a mint
/// of theirs is refused as unauthorized, whatever it names, and a mint of
/// the holder is not refused for want of the role.
pub proof fn lemma_late_minter_acceptance_is_refused(
    registry: Registry,
    height: u64,
    time: u64,
    holder: Seq<char>,
    new_owner: AddressView,
    expiry: Expiration,
    later_height: u64,
    later_time: u64,
    after_accept: Registry,
    r: Result<Response, Cw721ContractError>,
    token_id: Seq<char>,
    owner: AddressView,
    token_uri: Option<Seq<char>>,
)
    requires
        registry.update_minter_ownership(
            height,
            time,
            holder,
            ActionView::TransferOwnership { new_owner, expiry: Some(expiry) },
        ) is Ok,
        expiry.lapsed(later_height, later_time),
        carried_out(
            registry.update_minter_ownership(
                height,
                time,
                holder,
                ActionView::TransferOwnership { new_owner, expiry: Some(expiry) },
            )->Ok_0.registry.update_minter_ownership(
                later_height,
                later_time,
                new_owner.text,
                ActionView::AcceptOwnership,
            ),
            registry.update_minter_ownership(
                height,
                time,
                holder,
                ActionView::TransferOwnership { new_owner, expiry: Some(expiry) },
            )->Ok_0.registry,
            after_accept,
            r,
        ),
    ensures
        r == Err::<Response, Cw721ContractError>(Cw721ContractError::Expired),
        after_accept.minter.owner == Some(holder),
        after_accept.minter.owner == registry.minter.owner,
        new_owner.text != holder ==> after_accept.mint(new_owner.text, token_id, owner, token_uri)
            == Err::<Outcome, Cw721ContractError>(Cw721ContractError::Unauthorized),
        after_accept.mint_refused(holder, token_id, owner) != Some(Cw721ContractError::Unauthorized),
        after_accept.mint_refused(holder, token_id, owner) == registry.mint_refused(
            holder,
            token_id,
            owner,
        ),
{
}

/// The same of the creator's role.
pub proof fn lemma_late_creator_acceptance_is_refused(
    registry: Registry,
    height: u64,
    time: u64,
    holder: Seq<char>,
    new_owner: AddressView,
    expiry: Expiration,
    later_height: u64,
    later_time: u64,
    after_accept: Registry,
    r: Result<Response, Cw721ContractError>,
)
    requires
        registry.update_creator_ownership(
            height,
            time,
            holder,
            ActionView::TransferOwnership { new_owner, expiry: Some(expiry) },
        ) is Ok,
        expiry.lapsed(later_height, later_time),
        carried_out(
            registry.update_creator_ownership(
                height,
                time,
                holder,
                ActionView::TransferOwnership { new_owner, expiry: Some(expiry) },
            )->Ok_0.registry.update_creator_ownership(
                later_height,
                later_time,
                new_owner.text,
                ActionView::AcceptOwnership,
            ),
            registry.update_creator_ownership(
                height,
                time,
                holder,
                ActionView::TransferOwnership { new_owner, expiry: Some(expiry) },
            )->Ok_0.registry,
            after_accept,
            r,
        ),
    ensures
        r == Err::<Response, Cw721ContractError>(Cw721ContractError::Expired),
        after_accept.creator.owner == Some(holder),
        after_accept.creator.owner == registry.creator.owner,
{
}

/// Once a role is renounced nobody holds it, and nobody can take an action
/// on its record any more.
pub proof fn lemma_renounced_role_is_closed(
    record: OwnershipView,
    height: u64,
    time: u64,
    holder: Seq<char>,
    later_height: u64,
    later_time: u64,
    sender: Seq<char>,
    action: ActionView,
)
    requires
        record.after(height, time, holder, ActionView::RenounceOwnership) is Ok,
    ensures
        record.after(height, time, holder, ActionView::RenounceOwnership)->Ok_0.owner is None,
        record.after(height, time, holder, ActionView::RenounceOwnership)->Ok_0.after(
            later_height,
            later_time,
            sender,
            action,
        ) is Err,
{
}

/// A burn takes one token away and touches no other. The token cannot be
/// asked for any more, the number of tokens is one less, and every other
/// token is there as it was, as are the grants and the two roles.
pub proof fn lemma_burn_removes_one_token(
    registry: Registry,
    height: u64,
    time: u64,
    sender: Seq<char>,
    token_id: Seq<char>,
    other: Seq<char>,
)
    requires
        registry.valid(),
        registry.burn_nft(height, time, sender, token_id) is Ok,
        other != token_id,
    ensures
        registry.burn_nft(height, time, sender, token_id)->Ok_0.registry.nft_info(token_id) is Err,
        registry.burn_nft(height, time, sender, token_id)->Ok_0.registry.nft_info(token_id)->Err_0
            == Cw721ContractError::NotFound,
        registry.burn_nft(height, time, sender, token_id)->Ok_0.registry.num_tokens()
            == registry.num_tokens() - 1,
        registry.burn_nft(height, time, sender, token_id)->Ok_0.registry.tokens.contains_key(other)
            == registry.tokens.contains_key(other),
        registry.tokens.contains_key(other) ==> registry.burn_nft(
            height,
            time,
            sender,
            token_id,
        )->Ok_0.registry.tokens[other] == registry.tokens[other],
        registry.burn_nft(height, time, sender, token_id)->Ok_0.registry.operators
            == registry.operators,
        registry.burn_nft(height, time, sender, token_id)->Ok_0.registry.minter == registry.minter,
        registry.burn_nft(height, time, sender, token_id)->Ok_0.registry.creator
            == registry.creator,
{
}

/// Every command keeps the registry in order: what a command leaves holds
/// finitely many tokens and grants, none of its tokens bears a burned id,
/// and none holds two approvals for one spender.
pub proof fn lemma_commands_keep_the_registry_valid(
    registry: Registry,
    height: u64,
    time: u64,
    sender: Seq<char>,
    msg: Cw721ExecuteMsgView,
)
    requires
        registry.valid(),
        registry.execute(height, time, sender, msg) is Ok,
    ensures
        registry.execute(height, time, sender, msg)->Ok_0.registry.valid(),
{
    let next = registry.execute(height, time, sender, msg)->Ok_0.registry;
    match msg {
        Cw721ExecuteMsgView::Mint { token_id, owner, token_uri } => {
            assert(next.tokens.dom() =~= registry.tokens.dom().insert(token_id));
        },
        Cw721ExecuteMsgView::Approve { spender, token_id, expires } => {
            assert(next.tokens.dom() =~= registry.tokens.dom());
            lemma_replaced_is_distinct(
                registry.tokens[token_id].approvals,
                spender.text,
                or_never(expires),
            );
        },
        Cw721ExecuteMsgView::Revoke { spender, token_id } => {
            assert(next.tokens.dom() =~= registry.tokens.dom());
            lemma_revoked(registry.tokens[token_id].approvals, spender.text);
        },
        Cw721ExecuteMsgView::ApproveAll { operator, expires } => {
            assert(next.operators.dom() =~= registry.operators.dom().insert(
                (sender, operator.text),
            ));
        },
        Cw721ExecuteMsgView::RevokeAll { operator } => {
            assert(next.operators.dom() =~= registry.operators.dom().remove(
                (sender, operator.text),
            ));
        },
        Cw721ExecuteMsgView::TransferNft { recipient, token_id } => {
            assert(next.tokens.dom() =~= registry.tokens.dom());
        },
        Cw721ExecuteMsgView::SendNft { contract, token_id, msg } => {
            assert(next.tokens.dom() =~= registry.tokens.dom());
        },
        Cw721ExecuteMsgView::Burn { token_id } => {
            assert(next.tokens.dom() =~= registry.tokens.dom().remove(token_id));
        },
        Cw721ExecuteMsgView::UpdateNftInfo { token_id, token_uri } => {
            assert(next.tokens.dom() =~= registry.tokens.dom());
        },
        _ => {},
    }
}

/// A request is never turned down for want of a right or for a grant that
/// has lapsed: it fails only where what it asks for is not there, or where
/// an address that it names is malformed.
pub proof fn lemma_requests_ask_no_rights(
    registry: Registry,
    height: u64,
    time: u64,
    contract_address: Seq<char>,
    msg: Cw721QueryMsgView,
)
    requires
        registry.query(height, time, contract_address, msg) is Err,
    ensures
        registry.query(height, time, contract_address, msg)->Err_0 == Cw721ContractError::NotFound
            || registry.query(height, time, contract_address, msg)->Err_0
            == Cw721ContractError::InvalidInput,
{
}

/// A request that names a malformed address is refused as invalid, whatever
/// else it names: the owner and the cursor of a page of operators, the
/// owner of a page of tokens, the two parties of a grant, the spender of an
/// approval.
pub proof fn lemma_requests_refuse_malformed_addresses(
    registry: Registry,
    height: u64,
    time: u64,
    owner: AddressView,
    other: AddressView,
    token_id: Seq<char>,
    start_after: Option<Seq<char>>,
    include_expired: bool,
    limit: Option<u32>,
)
    ensures
        !owner.well_formed || !other.well_formed ==> registry.all_operators(
            height,
            time,
            owner,
            include_expired,
            Some(other),
            limit,
        ) == Err::<Seq<ApprovalView>, Cw721ContractError>(Cw721ContractError::InvalidInput)
            && registry.operator(height, time, owner, other, include_expired) == Err::<
            ApprovalView,
            Cw721ContractError,
        >(Cw721ContractError::InvalidInput),
        !owner.well_formed ==> registry.all_operators(
            height,
            time,
            owner,
            include_expired,
            None,
            limit,
        ) == Err::<Seq<ApprovalView>, Cw721ContractError>(Cw721ContractError::InvalidInput)
            && registry.tokens_page(owner, start_after, limit) == Err::<
            Seq<Seq<char>>,
            Cw721ContractError,
        >(Cw721ContractError::InvalidInput),
        !other.well_formed ==> registry.approval(height, time, token_id, other, include_expired)
            == Err::<ApprovalView, Cw721ContractError>(Cw721ContractError::InvalidInput),
{
}

/// The two roles guard what is theirs. Who is not the minter cannot mint;
/// who is not the creator cannot change what describes a token, nor set or
/// clear the withdraw address, nor have funds paid out.
pub proof fn lemma_roles_guard(
    registry: Registry,
    sender: Seq<char>,
    token_id: Seq<char>,
    owner: AddressView,
    token_uri: Option<Seq<char>>,
    address: AddressView,
    amount: CoinView,
)
    ensures
        !registry.minter.is_owner(sender) ==> registry.mint(sender, token_id, owner, token_uri)
            == Err::<Outcome, Cw721ContractError>(Cw721ContractError::Unauthorized),
        !registry.creator.is_owner(sender) ==> registry.update_nft_info(sender, token_id, token_uri)
            is Err && registry.set_withdraw_address(sender, address) == Err::<
            Outcome,
            Cw721ContractError,
        >(Cw721ContractError::Unauthorized) && registry.remove_withdraw_address(sender) == Err::<
            Outcome,
            Cw721ContractError,
        >(Cw721ContractError::Unauthorized) && registry.withdraw_funds(sender, amount) == Err::<
            Outcome,
            Cw721ContractError,
        >(Cw721ContractError::Unauthorized),
{
}

} // verus!
