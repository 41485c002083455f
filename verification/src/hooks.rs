//! The extension hook: what checks and builds a payload that is kept with a
//! token or with the collection. A registry that keeps no extension uses the
//! empty payload, which is always in order.

use vstd::prelude::*;
use crate::error::Cw721ContractError;
use crate::state::{attributes_of, copy_attributes, Attribute, Cw721Config, Empty, Env, MessageInfo};

verus! {

/// A message that carries a payload. `create` turns the message into the
/// payload to keep, `validate` says whether the message is in order; both
/// see the registry, the block, the caller and the payload kept so far.
///
/// Nothing is asked of a hook but an answer: what it answers is its own
/// matter, and the registry goes by whatever comes back.
pub trait StateFactory<TState> {
    /// The payload to keep, or why the message is turned down. `current` is
    /// the payload kept so far: none on the first time.
    fn create(
        &self,
        state: &Cw721Config,
        env: &Env,
        info: Option<&MessageInfo>,
        current: Option<&TState>,
    ) -> (r: Result<TState, Cw721ContractError>)
        requires
            state.wf(),
    ;

    /// Whether the message is in order, given the payload kept so far and
    /// who calls.
    fn validate(
        &self,
        state: &Cw721Config,
        env: &Env,
        info: Option<&MessageInfo>,
        current: Option<&TState>,
    ) -> (r: Result<(), Cw721ContractError>)
        requires
            state.wf(),
    ;
}

/// The empty payload is always in order.
impl StateFactory<Empty> for Empty {
    fn create(
        &self,
        state: &Cw721Config,
        env: &Env,
        info: Option<&MessageInfo>,
        current: Option<&Empty>,
    ) -> (r: Result<Empty, Cw721ContractError>)
        ensures
            r == Ok::<Empty, Cw721ContractError>(Empty {  }),
    {
        Ok(Empty {  })
    }

    fn validate(
        &self,
        state: &Cw721Config,
        env: &Env,
        info: Option<&MessageInfo>,
        current: Option<&Empty>,
    ) -> (r: Result<(), Cw721ContractError>)
        ensures
            r == Ok::<(), Cw721ContractError>(()),
    {
        Ok(())
    }
}

/// Attributes are kept as they are carried: any list of them is in order.
impl StateFactory<Vec<Attribute>> for Vec<Attribute> {
    fn create(
        &self,
        state: &Cw721Config,
        env: &Env,
        info: Option<&MessageInfo>,
        current: Option<&Vec<Attribute>>,
    ) -> (r: Result<Vec<Attribute>, Cw721ContractError>)
        ensures
            r matches Ok(kept) && attributes_of(kept@) == attributes_of(self@),
    {
        Ok(copy_attributes(self))
    }

    fn validate(
        &self,
        state: &Cw721Config,
        env: &Env,
        info: Option<&MessageInfo>,
        current: Option<&Vec<Attribute>>,
    ) -> (r: Result<(), Cw721ContractError>)
        ensures
            r == Ok::<(), Cw721ContractError>(()),
    {
        Ok(())
    }
}

/// The payload kept so far, where one is kept.
pub open spec fn kept<TState>(current: Option<&Option<TState>>) -> Option<&TState> {
    match current {
        Some(Some(c)) => Some(c),
        _ => None,
    }
}

/// A payload that may be left out: where the message carries none, none is
/// kept and nothing is to check; where it carries one, that one decides.
impl<TState, TMsg: StateFactory<TState>> StateFactory<Option<TState>> for Option<TMsg> {
    fn create(
        &self,
        state: &Cw721Config,
        env: &Env,
        info: Option<&MessageInfo>,
        current: Option<&Option<TState>>,
    ) -> (r: Result<Option<TState>, Cw721ContractError>)
        ensures
            match self {
                None => r == Ok::<Option<TState>, Cw721ContractError>(None),
                Some(msg) => match r {
                    Ok(Some(payload)) => call_ensures(
                        TMsg::create,
                        (msg, state, env, info, kept(current)),
                        Ok::<TState, Cw721ContractError>(payload),
                    ),
                    Ok(None) => false,
                    Err(e) => call_ensures(
                        TMsg::create,
                        (msg, state, env, info, kept(current)),
                        Err::<TState, Cw721ContractError>(e),
                    ),
                },
            },
    {
        match self {
            None => Ok(None),
            Some(msg) => {
                let inner: Option<&TState> = match current {
                    Some(Some(c)) => Some(c),
                    _ => None,
                };
                match msg.create(state, env, info, inner) {
                    Ok(payload) => Ok(Some(payload)),
                    Err(e) => Err(e),
                }
            },
        }
    }

    fn validate(
        &self,
        state: &Cw721Config,
        env: &Env,
        info: Option<&MessageInfo>,
        current: Option<&Option<TState>>,
    ) -> (r: Result<(), Cw721ContractError>)
        ensures
            match self {
                None => r == Ok::<(), Cw721ContractError>(()),
                Some(msg) => call_ensures(TMsg::validate, (msg, state, env, info, kept(current)), r),
            },
    {
        match self {
            None => Ok(()),
            Some(msg) => {
                let inner: Option<&TState> = match current {
                    Some(Some(c)) => Some(c),
                    _ => None,
                };
                msg.validate(state, env, info, inner)
            },
        }
    }
}

} // verus!
