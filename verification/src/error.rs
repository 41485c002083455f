//! The ways in which a call can fail.

use vstd::prelude::*;

verus! {

/// Why a call was refused. A refused call changes nothing.
#[derive(Clone, Copy, Debug, PartialEq, Eq, Structural)]
pub enum Cw721ContractError {
    /// No token has this id, or no such record is kept.
    NotFound,
    /// The caller holds neither the role nor the ownership nor a grant that
    /// the call needs.
    Unauthorized,
    /// The id has been given to a token before.
    AlreadyExists,
    /// The grant or the offer that the call rests on has lapsed.
    Expired,
    /// An address is malformed, an amount is zero, or what the call asks for
    /// is not set.
    InvalidInput,
    /// The extension's own check turned the payload down.
    ExtensionRejected,
    /// The store under the registry failed.
    StorageFailure,
}

impl Cw721ContractError {
    /// The error in words.
    pub fn message(&self) -> (text: String)
        ensures
            text@ == self.message_text(),
    {
        match self {
            Cw721ContractError::NotFound => "not found".to_string(),
            Cw721ContractError::Unauthorized => "unauthorized".to_string(),
            Cw721ContractError::AlreadyExists => "token id already claimed".to_string(),
            Cw721ContractError::Expired => "expired".to_string(),
            Cw721ContractError::InvalidInput => "invalid input".to_string(),
            Cw721ContractError::ExtensionRejected => "extension rejected".to_string(),
            Cw721ContractError::StorageFailure => "storage failure".to_string(),
        }
    }

    /// The error in words, as a mathematical value.
    pub open spec fn message_text(self) -> Seq<char> {
        match self {
            Cw721ContractError::NotFound => "not found"@,
            Cw721ContractError::Unauthorized => "unauthorized"@,
            Cw721ContractError::AlreadyExists => "token id already claimed"@,
            Cw721ContractError::Expired => "expired"@,
            Cw721ContractError::InvalidInput => "invalid input"@,
            Cw721ContractError::ExtensionRejected => "extension rejected"@,
            Cw721ContractError::StorageFailure => "storage failure"@,
        }
    }
}

} // verus!
