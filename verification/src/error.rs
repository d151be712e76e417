//! What can go wrong with a command, and how each failure is told to the
//! operator.

use vstd::prelude::*;

verus! {

/// The two kinds of hash that an operator can name. They differ in length
/// and in purpose, and one is never taken for the other.
#[derive(Clone, Copy, Debug, PartialEq, Eq, Structural)]
pub enum HashKind {
    /// Names a commit: a unit of the ledger's history.
    Commit,
    /// A general content hash, as handed in to be signed.
    General,
}

impl HashKind {
    /// The number of bytes in a hash of this kind.
    pub open spec fn byte_len(self) -> nat {
        match self {
            HashKind::Commit => 20,
            HashKind::General => 32,
        }
    }
}

/// The kinds of payload that a signature can be bound to.
#[derive(Clone, Copy, Debug, PartialEq, Eq, Structural)]
pub enum PayloadKind {
    /// Voting weight goes from a delegator to a delegatee.
    Delegation,
    /// A delegation is taken back.
    Undelegation,
}

/// A failure of this layer. Each input error names the argument at fault by
/// its role.
#[derive(Clone, Copy, Debug, PartialEq, Eq, Structural)]
pub enum CliError {
    /// The text of a hash holds something other than hexadecimal digits.
    InvalidHash,
    /// The text of a hash is hexadecimal but not of the length of its kind.
    WrongLength(HashKind),
    /// The delegator of a transaction of the given kind is malformed.
    InvalidDelegator(PayloadKind),
    /// The delegatee of a delegation is malformed.
    InvalidDelegatee,
    /// The proof of a transaction of the given kind is malformed.
    InvalidProof(PayloadKind),
    /// The finalization proof handed to a synchronization is malformed.
    InvalidFinalizationProof,
    /// The commit to vote on is malformed.
    InvalidVoteTarget,
    /// The commit to veto is malformed.
    InvalidVetoTarget,
    /// The signing primitive produced no signature.
    SigningFailed,
    /// The command has no behaviour yet.
    NotImplemented,
}

/// The classes of failure that the top level tells apart.
#[derive(Clone, Copy, Debug, PartialEq, Eq, Structural)]
pub enum ErrorKind {
    /// One argument is malformed; the operator has to correct it.
    Input,
    /// A signature could not be made.
    Cryptographic,
    /// The command is a placeholder.
    NotImplemented,
    /// The node found that its repository is not what it should be.
    Integrity,
    /// The node failed in any other way.
    Node,
}

impl CliError {
    /// The class that this failure belongs to.
    pub open spec fn kind_of(self) -> ErrorKind {
        match self {
            CliError::SigningFailed => ErrorKind::Cryptographic,
            CliError::NotImplemented => ErrorKind::NotImplemented,
            _ => ErrorKind::Input,
        }
    }

    /// The class that this failure belongs to.
    pub fn kind(&self) -> (r: ErrorKind)
        ensures
            r == self.kind_of(),
    {
        match self {
            CliError::SigningFailed => ErrorKind::Cryptographic,
            CliError::NotImplemented => ErrorKind::NotImplemented,
            _ => ErrorKind::Input,
        }
    }

    /// The words in which this failure is told to the operator.
    pub open spec fn message_text(self) -> Seq<char> {
        match self {
            CliError::InvalidHash => "invalid hash"@,
            CliError::WrongLength(HashKind::Commit) => "a hash must be in 20 bytes"@,
            CliError::WrongLength(HashKind::General) => "a hash must be in 32 bytes"@,
            CliError::InvalidDelegator(PayloadKind::Delegation) =>
                "invalid delegator for a delegation transaction"@,
            CliError::InvalidDelegator(PayloadKind::Undelegation) =>
                "invalid delegator for an undelegation transaction"@,
            CliError::InvalidDelegatee => "invalid delegatee for a delegation transaction"@,
            CliError::InvalidProof(PayloadKind::Delegation) =>
                "invalid proof for a delegation transaction"@,
            CliError::InvalidProof(PayloadKind::Undelegation) =>
                "invalid proof for an undelegation transaction"@,
            CliError::InvalidFinalizationProof => "invalid last finalization proof for sync"@,
            CliError::InvalidVoteTarget => "invalid agenda commit hash to vote on"@,
            CliError::InvalidVetoTarget => "invalid block commit hash to veto on"@,
            CliError::SigningFailed => "failed to sign"@,
            CliError::NotImplemented => "not implemented"@,
        }
    }

    /// The words in which this failure is told to the operator.
    pub fn message(&self) -> (r: String)
        ensures
            r@ == self.message_text(),
    {
        let words: &str = match self {
            CliError::InvalidHash => "invalid hash",
            CliError::WrongLength(HashKind::Commit) => "a hash must be in 20 bytes",
            CliError::WrongLength(HashKind::General) => "a hash must be in 32 bytes",
            CliError::InvalidDelegator(PayloadKind::Delegation) =>
                "invalid delegator for a delegation transaction",
            CliError::InvalidDelegator(PayloadKind::Undelegation) =>
                "invalid delegator for an undelegation transaction",
            CliError::InvalidDelegatee => "invalid delegatee for a delegation transaction",
            CliError::InvalidProof(PayloadKind::Delegation) =>
                "invalid proof for a delegation transaction",
            CliError::InvalidProof(PayloadKind::Undelegation) =>
                "invalid proof for an undelegation transaction",
            CliError::InvalidFinalizationProof => "invalid last finalization proof for sync",
            CliError::InvalidVoteTarget => "invalid agenda commit hash to vote on",
            CliError::InvalidVetoTarget => "invalid block commit hash to veto on",
            CliError::SigningFailed => "failed to sign",
            CliError::NotImplemented => "not implemented",
        };
        words.to_owned()
    }
}

} // verus!
