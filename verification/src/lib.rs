//! A registry of non-fungible tokens: who owns each token, who may move it
//! on the owner's behalf, what describes the collection, and who holds the
//! two administrative roles, the minter's and the creator's.
//!
//! The registry is a state machine. A command is carried out in full or
//! refused with an error and no change; a request reads and changes nothing.
//! Time is the block that the host names with each call, and an address is
//! what the host has judged to be one: the registry reads no clock and no
//! store of its own.
//!
//! Every operation is specified over `state::Registry`, the registry as a
//! mathematical value, and proved to do what its contract says. What
//! holds of the registry over several calls is proved in `theorems`.
//!
//! - `state`: what the registry holds, and its invariant
//! - `execute`: the commands
//! - `query`: the requests
//! - `ownership`: how a role changes hands
//! - `hooks`: the extension hook for payloads on tokens and collection
//! - `traits`: commands and requests as interfaces with default rules
//! - `extension`: the registry of the plain make
//! - `msg`, `response`, `error`: messages, answers and errors
//! - `paging`, `store`, `keys`: pages, the ordered table and the key order
//! - `expiration`: when a grant has lapsed
//! - `helpers`: small helpers
//! - `theorems`: what holds across calls

pub mod error;
pub mod execute;
pub mod expiration;
pub mod extension;
pub mod helpers;
pub mod hooks;
pub mod keys;
pub mod msg;
pub mod ownership;
pub mod paging;
pub mod query;
pub mod response;
pub mod state;
pub mod store;
pub mod theorems;
pub mod traits;

pub use crate::ownership::Action;
pub use crate::state::{Approval, Attribute, Expiration, Ownership};
