//! From a command to the one operation that it stands for.
//!
//! A command arrives with its arguments as the operator wrote them. Routing
//! validates the arguments and names the operation to perform: a call on
//! the node, or a signing that stays local. Nothing is performed here, so a
//! command whose arguments are malformed never reaches the node.

use vstd::prelude::*;
use crate::error::{CliError, HashKind};
use crate::finalization::{decode_finalization_proof, sync_proof_decoding, FinalizationProof};
use crate::hash::{decode_commit_hash, decode_hash256, hash_decoding, CommitHash, Hash256};
use crate::hex_text::text_bytes;
use crate::signer::{Payload, PayloadView};
use crate::transaction::{build_delegation_at, build_delegation_payload, build_undelegation_at,
    build_undelegation_payload, delegation_building, delegation_payload, get_timestamp,
    undelegation_building, BlockHeight, ExtraAgendaTransaction, ExtraAgendaTransactionView,
    Timestamp, UndelegationView};
use crate::value::{decode_veto_target, decode_vote_target, target_decoding, PublicKey};

verus! {

/// What `create` can be asked to make.
#[derive(Clone, Debug, PartialEq, Eq)]
pub enum CreateCommand {
    TxDelegate { delegator: String, delegatee: String, governance: bool, proof: String },
    TxUndelegate { delegator: String, proof: String },
    TxReport,
    Block,
    Agenda,
}

/// What `sign` can be asked to sign.
#[derive(Clone, Debug, PartialEq, Eq)]
pub enum SignCommand {
    TxDelegate { delegatee: String, governance: bool, target_height: BlockHeight },
    TxUndelegate { target_height: BlockHeight },
    Custom { hash: String },
}

/// A command of the operator, its arguments still as text.
#[allow(inconsistent_fields)]
#[derive(Clone, Debug, PartialEq, Eq)]
pub enum Command {
    Genesis,
    Init,
    Clone { url: String },
    Sync { last_finalization_proof: String },
    Clean { hard: bool },
    Create(CreateCommand),
    Vote { commit: String },
    /// Without a commit the veto is cast on the round, with one on the block
    /// of that commit. An empty text is a commit that was given, and is
    /// malformed.
    Veto { commit: Option<String> },
    Consensus { show: bool },
    Git,
    Show { commit: String },
    Network,
    Serve,
    Update,
    Broadcast,
    Chat,
    Sign(SignCommand),
    CheckPush,
    NotifyPush,
}

/// The one thing that a command asks for, its arguments validated.
#[derive(Clone, Debug, PartialEq, Eq)]
pub enum Operation {
    Genesis,
    Clone { url: String },
    Sync(FinalizationProof),
    Clean { hard: bool },
    CreateExtraAgendaTransaction(ExtraAgendaTransaction),
    CreateBlock,
    CreateAgenda,
    Vote(CommitHash),
    VetoRound,
    VetoBlock(CommitHash),
    ProgressForConsensus,
    /// Shows the state of the consensus without making progress. Nothing
    /// is shown yet.
    ShowConsensus,
    Show(CommitHash),
    Serve,
    Fetch,
    Broadcast,
    /// Signs a payload; the node is not called.
    Sign(Payload),
    /// Signs a bare hash; the node is not called.
    SignHash(Hash256),
}

/// What an `Operation` stands for.
pub ghost enum OperationView {
    Genesis,
    Clone { url: Seq<char> },
    Sync(Seq<Seq<u8>>),
    Clean { hard: bool },
    CreateExtraAgendaTransaction(ExtraAgendaTransactionView),
    CreateBlock,
    CreateAgenda,
    Vote(Seq<u8>),
    VetoRound,
    VetoBlock(Seq<u8>),
    ProgressForConsensus,
    ShowConsensus,
    Show(Seq<u8>),
    Serve,
    Fetch,
    Broadcast,
    Sign(PayloadView),
    SignHash(Seq<u8>),
}

impl View for Operation {
    type V = OperationView;

    open spec fn view(&self) -> OperationView {
        match self {
            Operation::Genesis => OperationView::Genesis,
            Operation::Clone { url } => OperationView::Clone { url: url@ },
            Operation::Sync(proof) => OperationView::Sync(proof@),
            Operation::Clean { hard } => OperationView::Clean { hard: *hard },
            Operation::CreateExtraAgendaTransaction(tx) =>
                OperationView::CreateExtraAgendaTransaction(tx@),
            Operation::CreateBlock => OperationView::CreateBlock,
            Operation::CreateAgenda => OperationView::CreateAgenda,
            Operation::Vote(hash) => OperationView::Vote(hash@),
            Operation::VetoRound => OperationView::VetoRound,
            Operation::VetoBlock(hash) => OperationView::VetoBlock(hash@),
            Operation::ProgressForConsensus => OperationView::ProgressForConsensus,
            Operation::ShowConsensus => OperationView::ShowConsensus,
            Operation::Show(hash) => OperationView::Show(hash@),
            Operation::Serve => OperationView::Serve,
            Operation::Fetch => OperationView::Fetch,
            Operation::Broadcast => OperationView::Broadcast,
            Operation::Sign(payload) => OperationView::Sign(payload@),
            Operation::SignHash(hash) => OperationView::SignHash(hash@),
        }
    }
}

impl OperationView {
    /// Whether the operation stays local. Signing does: it needs a payload
    /// or a hash and a key, and never the node.
    pub open spec fn is_local(self) -> bool {
        self is Sign || self is SignHash
    }
}

impl Operation {
    /// Whether the operation stays local, as every signing does.
    pub fn is_local(&self) -> (r: bool)
        ensures
            r == self@.is_local(),
    {
        match self {
            Operation::Sign(_) => true,
            Operation::SignHash(_) => true,
            _ => false,
        }
    }
}

/// What `create` with `command` asks for at `timestamp`.
pub open spec fn create_routing(command: CreateCommand, timestamp: Timestamp) -> Result<
    OperationView,
    CliError,
> {
    match command {
        CreateCommand::TxDelegate { delegator, delegatee, governance, proof } =>
            match delegation_building(
                text_bytes(delegator@),
                text_bytes(delegatee@),
                governance,
                text_bytes(proof@),
                timestamp,
            ) {
                Ok(tx) => Ok(
                    OperationView::CreateExtraAgendaTransaction(
                        ExtraAgendaTransactionView::Delegate(tx),
                    ),
                ),
                Err(e) => Err(e),
            },
        CreateCommand::TxUndelegate { delegator, proof } => match undelegation_building(
            text_bytes(delegator@),
            text_bytes(proof@),
            timestamp,
        ) {
            Ok(tx) => Ok(
                OperationView::CreateExtraAgendaTransaction(
                    ExtraAgendaTransactionView::Undelegate(tx),
                ),
            ),
            Err(e) => Err(e),
        },
        CreateCommand::TxReport => Err(CliError::NotImplemented),
        CreateCommand::Block => Ok(OperationView::CreateBlock),
        CreateCommand::Agenda => Ok(OperationView::CreateAgenda),
    }
}

/// What `sign` with `command` asks for, the signer being known by
/// `public_key`.
pub open spec fn sign_routing(command: SignCommand, public_key: Seq<u8>) -> Result<
    OperationView,
    CliError,
> {
    match command {
        SignCommand::TxDelegate { delegatee, governance, target_height } =>
            match delegation_payload(
                public_key,
                text_bytes(delegatee@),
                governance,
                target_height,
            ) {
                Ok(data) => Ok(OperationView::Sign(PayloadView::Delegation(data))),
                Err(e) => Err(e),
            },
        SignCommand::TxUndelegate { target_height } => Ok(
            OperationView::Sign(
                PayloadView::Undelegation(
                    UndelegationView { delegator: public_key, block_height: target_height },
                ),
            ),
        ),
        SignCommand::Custom { hash } => match hash_decoding(
            HashKind::General,
            text_bytes(hash@),
        ) {
            Ok(hash) => Ok(OperationView::SignHash(hash)),
            Err(e) => Err(e),
        },
    }
}

/// The operation that `command` asks for at `timestamp`, the operator being
/// known by `public_key`; or the failure of its arguments; or, for a command
/// that has no behaviour yet, the failure that says so.
pub open spec fn routing(command: Command, public_key: Seq<u8>, timestamp: Timestamp) -> Result<
    OperationView,
    CliError,
> {
    match command {
        Command::Genesis => Ok(OperationView::Genesis),
        Command::Clone { url } => Ok(OperationView::Clone { url: url@ }),
        Command::Sync { last_finalization_proof } => match sync_proof_decoding(
            text_bytes(last_finalization_proof@),
        ) {
            Ok(proof) => Ok(OperationView::Sync(proof)),
            Err(e) => Err(e),
        },
        Command::Clean { hard } => Ok(OperationView::Clean { hard }),
        Command::Create(create) => create_routing(create, timestamp),
        Command::Vote { commit } => match target_decoding(
            text_bytes(commit@),
            CliError::InvalidVoteTarget,
        ) {
            Ok(hash) => Ok(OperationView::Vote(hash)),
            Err(e) => Err(e),
        },
        Command::Veto { commit: None } => Ok(OperationView::VetoRound),
        Command::Veto { commit: Some(commit) } => match target_decoding(
            text_bytes(commit@),
            CliError::InvalidVetoTarget,
        ) {
            Ok(hash) => Ok(OperationView::VetoBlock(hash)),
            Err(e) => Err(e),
        },
        Command::Consensus { show } => if show {
            Ok(OperationView::ShowConsensus)
        } else {
            Ok(OperationView::ProgressForConsensus)
        },
        Command::Show { commit } => match hash_decoding(HashKind::Commit, text_bytes(commit@)) {
            Ok(hash) => Ok(OperationView::Show(hash)),
            Err(e) => Err(e),
        },
        Command::Serve => Ok(OperationView::Serve),
        Command::Update => Ok(OperationView::Fetch),
        Command::Broadcast => Ok(OperationView::Broadcast),
        Command::Sign(sign) => sign_routing(sign, public_key),
        Command::Init
        | Command::Git
        | Command::Network
        | Command::Chat
        | Command::CheckPush
        | Command::NotifyPush => Err(CliError::NotImplemented),
    }
}

/// Routes a `create` command.
fn route_create(command: CreateCommand, timestamp: Timestamp) -> (r: Result<Operation, CliError>)
    ensures
        match r {
            Ok(operation) => create_routing(command, timestamp) == Ok::<OperationView, CliError>(
                operation@,
            ),
            Err(e) => create_routing(command, timestamp) == Err::<OperationView, CliError>(e),
        },
{
    match command {
        CreateCommand::TxDelegate { delegator, delegatee, governance, proof } => {
            match build_delegation_at(
                delegator.as_str(),
                delegatee.as_str(),
                governance,
                proof.as_str(),
                timestamp,
            ) {
                Ok(tx) => Ok(
                    Operation::CreateExtraAgendaTransaction(ExtraAgendaTransaction::Delegate(tx)),
                ),
                Err(e) => Err(e),
            }
        },
        CreateCommand::TxUndelegate { delegator, proof } => {
            match build_undelegation_at(delegator.as_str(), proof.as_str(), timestamp) {
                Ok(tx) => Ok(
                    Operation::CreateExtraAgendaTransaction(
                        ExtraAgendaTransaction::Undelegate(tx),
                    ),
                ),
                Err(e) => Err(e),
            }
        },
        CreateCommand::TxReport => Err(CliError::NotImplemented),
        CreateCommand::Block => Ok(Operation::CreateBlock),
        CreateCommand::Agenda => Ok(Operation::CreateAgenda),
    }
}

/// Routes a `sign` command.
fn route_sign(command: SignCommand, public_key: PublicKey) -> (r: Result<Operation, CliError>)
    ensures
        match r {
            Ok(operation) => sign_routing(command, public_key@) == Ok::<OperationView, CliError>(
                operation@,
            ),
            Err(e) => sign_routing(command, public_key@) == Err::<OperationView, CliError>(e),
        },
{
    match command {
        SignCommand::TxDelegate { delegatee, governance, target_height } => {
            match build_delegation_payload(
                public_key,
                delegatee.as_str(),
                governance,
                target_height,
            ) {
                Ok(data) => Ok(Operation::Sign(Payload::Delegation(data))),
                Err(e) => Err(e),
            }
        },
        SignCommand::TxUndelegate { target_height } => Ok(
            Operation::Sign(
                Payload::Undelegation(build_undelegation_payload(public_key, target_height)),
            ),
        ),
        SignCommand::Custom { hash } => match decode_hash256(hash.as_str()) {
            Ok(hash) => Ok(Operation::SignHash(hash)),
            Err(e) => Err(e),
        },
    }
}

/// Routes `command` as it stands at `timestamp`: validates its arguments and
/// names the one operation that it asks for. Every command has an outcome;
/// one that has no behaviour yet fails as not implemented.
pub fn route_at(command: Command, public_key: PublicKey, timestamp: Timestamp) -> (r: Result<
    Operation,
    CliError,
>)
    ensures
        match r {
            Ok(operation) => routing(command, public_key@, timestamp) == Ok::<
                OperationView,
                CliError,
            >(operation@),
            Err(e) => routing(command, public_key@, timestamp) == Err::<OperationView, CliError>(
                e,
            ),
        },
{
    match command {
        Command::Genesis => Ok(Operation::Genesis),
        Command::Clone { url } => Ok(Operation::Clone { url }),
        Command::Sync { last_finalization_proof } => {
            match decode_finalization_proof(last_finalization_proof.as_str()) {
                Ok(proof) => Ok(Operation::Sync(proof)),
                Err(e) => Err(e),
            }
        },
        Command::Clean { hard } => Ok(Operation::Clean { hard }),
        Command::Create(create) => route_create(create, timestamp),
        Command::Vote { commit } => match decode_vote_target(commit.as_str()) {
            Ok(hash) => Ok(Operation::Vote(hash)),
            Err(e) => Err(e),
        },
        Command::Veto { commit: None } => Ok(Operation::VetoRound),
        Command::Veto { commit: Some(commit) } => match decode_veto_target(commit.as_str()) {
            Ok(hash) => Ok(Operation::VetoBlock(hash)),
            Err(e) => Err(e),
        },
        Command::Consensus { show } => if show {
            Ok(Operation::ShowConsensus)
        } else {
            Ok(Operation::ProgressForConsensus)
        },
        Command::Show { commit } => match decode_commit_hash(commit.as_str()) {
            Ok(hash) => Ok(Operation::Show(hash)),
            Err(e) => Err(e),
        },
        Command::Serve => Ok(Operation::Serve),
        Command::Update => Ok(Operation::Fetch),
        Command::Broadcast => Ok(Operation::Broadcast),
        Command::Sign(sign) => route_sign(sign, public_key),
        Command::Init => Err(CliError::NotImplemented),
        Command::Git => Err(CliError::NotImplemented),
        Command::Network => Err(CliError::NotImplemented),
        Command::Chat => Err(CliError::NotImplemented),
        Command::CheckPush => Err(CliError::NotImplemented),
        Command::NotifyPush => Err(CliError::NotImplemented),
    }
}

/// Routes `command` at the time of the process clock. The outcome is that
/// of `route_at` at the time that was read.
pub fn route(command: Command, public_key: PublicKey) -> (r: Result<Operation, CliError>)
    ensures
        exists|at: Timestamp|
            match r {
                Ok(operation) => #[trigger] routing(command, public_key@, at) == Ok::<
                    OperationView,
                    CliError,
                >(operation@),
                Err(e) => routing(command, public_key@, at) == Err::<OperationView, CliError>(e),
            },
{
    route_at(command, public_key, get_timestamp())
}

/// A command fails for what its arguments hold, not for the time at which
/// it is routed: a failure at one time is the same failure at every time,
/// and only a transaction that is made carries the time.
pub proof fn lemma_routing_failure_is_timeless(
    command: Command,
    public_key: Seq<u8>,
    first: Timestamp,
    second: Timestamp,
)
    ensures
        routing(command, public_key, first) is Err ==> routing(command, public_key, second)
            == routing(command, public_key, first),
        !(routing(command, public_key, first) is Ok && routing(
            command,
            public_key,
            first,
        )->Ok_0 is CreateExtraAgendaTransaction) ==> routing(command, public_key, second)
            == routing(command, public_key, first),
{
}

/// The commands that sign are the ones that stay local: what a `sign`
/// command asks for never reaches the node, and what any other command asks
/// for is no signing.
pub proof fn lemma_only_signing_is_local(
    command: Command,
    public_key: Seq<u8>,
    timestamp: Timestamp,
)
    requires
        routing(command, public_key, timestamp) is Ok,
    ensures
        routing(command, public_key, timestamp)->Ok_0.is_local() <==> command is Sign,
{
}

/// Only signing reads the key of the operator: what any other command asks
/// for is the same whoever the operator is.
pub proof fn lemma_only_signing_reads_the_key(
    command: Command,
    one: Seq<u8>,
    other: Seq<u8>,
    timestamp: Timestamp,
)
    requires
        !(command is Sign),
    ensures
        routing(command, one, timestamp) == routing(command, other, timestamp),
{
}

/// A veto without a commit is cast on the round, whatever else holds, and a
/// veto with a commit never is: it is cast on the block of that commit or
/// fails on the commit.
pub proof fn lemma_veto_follows_its_argument(
    commit: Option<String>,
    public_key: Seq<u8>,
    timestamp: Timestamp,
)
    ensures
        ({
            let routed = routing(Command::Veto { commit }, public_key, timestamp);
            &&& commit is None ==> routed == Ok::<OperationView, CliError>(
                OperationView::VetoRound,
            )
            &&& commit is Some ==> routed == Err::<OperationView, CliError>(
                CliError::InvalidVetoTarget,
            ) || (routed is Ok && routed->Ok_0 is VetoBlock)
        }),
{
}

} // verus!
