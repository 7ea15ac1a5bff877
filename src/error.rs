use vstd::prelude::*;

verus! {

/// The failures of the account's own rules. Failures of the host (missing
/// records, storage faults) are the host's to report.
#[derive(Clone, Debug, PartialEq, Eq)]
pub enum ContractError {
    /// The caller is not the owner of the account.
    Unauthorized { owner: String },
    /// The stored contract identity is not this contract's.
    InvalidContract { contract: String },
    /// The stored schema version is none that this contract can migrate from.
    InvalidContractVersion { version: String },
}

} // verus!
