//! Errors of the registry: validation, balance and transaction envelope errors.
use vstd::prelude::*;

verus! {

/// Why the registry refused a message. Refusals leave the registry's collections unchanged.
#[derive(Clone, Copy, Debug, PartialEq, Eq, Structural)]
pub enum RegistryError {
    /// The id names a live org or user.
    IdAlreadyTaken,
    /// The id was used by an org or user before and can never be used again.
    IdRetired,
    /// A project with the same name already exists under the same registrant.
    DuplicateProjectId,
    /// No org has the given id.
    InexistentOrg,
    /// No user has the given id.
    InexistentUser,
    /// No project has the given id.
    InexistentProjectId,
    /// No checkpoint has the given id.
    InexistentCheckpointId,
    /// The checkpoint that the project was registered with is not in the store.
    InexistentInitialProjectCheckpoint,
    /// The new checkpoint does not descend from the project's initial checkpoint.
    InvalidCheckpointAncestry,
    /// The author may not act on behalf of the org or user.
    InsufficientSenderPermissions,
    /// The author's account is not associated with any user.
    AuthorHasNoAssociatedUser,
    /// The author's account is already associated with a user.
    UserAccountAssociated,
    /// The user is already a member of the org.
    AlreadyAMember,
    /// The org still has projects, or members other than the author.
    UnregisterableOrg,
    /// The user still has projects, or is a member of an org.
    UnregisterableUser,
}

/// Why a message failed once its fee was paid.
#[derive(Clone, Copy, Debug, PartialEq, Eq, Structural)]
pub enum DispatchError {
    /// A validation rule of the registry refused the message.
    Registry(RegistryError),
    /// An account lacks the funds that the message moves or that registration costs.
    InsufficientBalance,
    /// A credit would push a balance past the largest representable amount.
    BalanceOverflow,
}

/// Why a transaction was not applied at all. Nothing is charged and nothing changes.
#[derive(Clone, Copy, Debug, PartialEq, Eq, Structural)]
pub enum TransactionError {
    /// The signature is not the author's signature of the transaction.
    BadSignature,
    /// The transaction was signed for another chain.
    WrongGenesisHash,
    /// The nonce is not the author's next expected nonce.
    InvalidNonce,
    /// The declared fee is below the base fee.
    FeeBelowBase,
    /// The payer cannot cover the declared fee.
    InsufficientBalance,
}

/// Errors of an oscoin transfer.
#[derive(Clone, Copy, Debug, PartialEq, Eq, Structural)]
pub enum TransferError {
    /// The amount is below one unit of currency.
    InvalidTransferAmount,
    /// The sender's balance after fees does not cover the amount.
    InsufficientBalance,
    /// A contract of either account refused the transfer.
    ContractDenied,
}

/// Errors of a project registration request.
#[derive(Clone, Copy, Debug, PartialEq, Eq, Structural)]
pub enum RegisterProjectError {
    /// The name is already in use.
    NameAlreadyExists,
    /// The domain does not exist.
    InvalidDomain,
    /// The checkpoint does not exist.
    InvalidCheckpointId,
    /// The sender cannot cover the registration fee.
    InsufficientBalanceForFee,
}

/// Errors of a vote on a pending project registration.
#[derive(Clone, Copy, Debug, PartialEq, Eq, Structural)]
pub enum ProjectRegistrationVoteError {
    /// The voter is not a root account.
    OriginNotRoot,
    /// The hash does not name a registration transaction.
    InvalidTransactionHash,
    /// The registration was already accepted or rejected.
    ProjectVoteClosed,
}

/// Errors of withdrawing a pending project registration.
#[derive(Clone, Copy, Debug, PartialEq, Eq, Structural)]
pub enum WithdrawProjectError {
    /// The project is not waiting for a vote.
    ProjectIsNotInWaitlist,
}

/// Errors in a checkpoint's contribution list.
#[derive(Clone, Copy, Debug, PartialEq, Eq, Structural)]
pub enum ContributionListError {
    InvalidParentHash,
    InvalidCommitHash,
    /// The commit's signing key is not its author's.
    InvalidContributionAuthor,
    /// The commit's signature does not verify.
    InvalidContributionSignature,
}

/// Errors in a checkpoint's dependency updates.
#[derive(Clone, Copy, Debug, PartialEq, Eq, Structural)]
pub enum DependencyListError {
    /// An added dependency is already used.
    UsedDependencyAdded,
    /// A removed dependency is not used.
    UnusedDependencyRemoved,
    /// A dependency occurs twice.
    DuplicateDependencies,
    /// A project id is malformed.
    InvalidProjectId,
    /// A project version is malformed.
    InvalidProjectVersion,
}

/// Errors of submitting a checkpoint.
#[derive(Clone, Copy, Debug, PartialEq, Eq, Structural)]
pub enum CheckpointError {
    /// The parent checkpoint does not exist.
    ParentCheckpointDoesNotExist,
    /// The project state hash is malformed.
    InvalidCheckpointHash,
    /// The version was used before or is malformed.
    InvalidNewVersion,
    InvalidContributionList(ContributionListError),
    InvalidDependencyList(DependencyListError),
}

/// Errors of setting a project's checkpoint.
#[derive(Clone, Copy, Debug, PartialEq, Eq, Structural)]
pub enum SetCheckpointError {
    /// The project does not exist.
    ProjectDoesNotExist,
    /// The checkpoint does not descend from the project's first checkpoint.
    InvalidCheckpointAncestry,
    /// The project's contract refused the change.
    DeniedByProjectContract,
}

/// Errors of replacing a project's contract.
#[derive(Clone, Copy, Debug, PartialEq, Eq, Structural)]
pub enum SetContractError {
    /// The project does not exist.
    ProjectDoesNotExist,
    /// The current contract refused its replacement.
    DeniedByProjectContract,
}

} // verus!
