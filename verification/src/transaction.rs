//! The payloads that are signed, and the transactions that carry a signed
//! payload to the node.

use vstd::prelude::*;
use core::time::Duration;
use crate::error::{CliError, PayloadKind};
use crate::hex_text::text_bytes;
use crate::value::{decode_delegatee, decode_delegator, decode_proof, delegatee_decoding,
    delegator_decoding, typed_proof_decoding, PublicKey, TypedSignature, TypedSignatureView};

verus! {

/// Milliseconds since the Unix epoch.
pub type Timestamp = u64;

/// The height of a block in the ledger.
pub type BlockHeight = u64;

/// The request to move the voting weight of `delegator` to `delegatee` from
/// `block_height` on. This is what the delegator signs.
#[derive(Clone, Debug, PartialEq, Eq)]
pub struct DelegationTransactionData {
    pub delegator: PublicKey,
    pub delegatee: PublicKey,
    /// Whether the weight in governance is delegated as well.
    pub governance: bool,
    pub block_height: BlockHeight,
}

/// The request to take the delegation of `delegator` back from
/// `block_height` on. This is what the delegator signs.
#[derive(Clone, Debug, PartialEq, Eq)]
pub struct UndelegationTransactionData {
    pub delegator: PublicKey,
    pub block_height: BlockHeight,
}

/// A delegation as it is handed to the node: the parties, the proof that
/// the delegator agreed, and the time at which it was made.
#[derive(Clone, Debug, PartialEq, Eq)]
pub struct TxDelegate {
    pub delegator: PublicKey,
    pub delegatee: PublicKey,
    pub governance: bool,
    pub proof: TypedSignature,
    pub timestamp: Timestamp,
}

/// An undelegation as it is handed to the node.
#[derive(Clone, Debug, PartialEq, Eq)]
pub struct TxUndelegate {
    pub delegator: PublicKey,
    pub proof: TypedSignature,
    pub timestamp: Timestamp,
}

/// A transaction of governance that stands outside an agenda. The set of
/// kinds is closed; `Report` is reserved and cannot be made yet.
#[derive(Clone, Debug, PartialEq, Eq)]
pub enum ExtraAgendaTransaction {
    Delegate(TxDelegate),
    Undelegate(TxUndelegate),
    Report,
}

/// What a `DelegationTransactionData` stands for.
pub ghost struct DelegationView {
    pub delegator: Seq<u8>,
    pub delegatee: Seq<u8>,
    pub governance: bool,
    pub block_height: BlockHeight,
}

/// What an `UndelegationTransactionData` stands for.
pub ghost struct UndelegationView {
    pub delegator: Seq<u8>,
    pub block_height: BlockHeight,
}

/// What a `TxDelegate` stands for.
pub ghost struct TxDelegateView {
    pub delegator: Seq<u8>,
    pub delegatee: Seq<u8>,
    pub governance: bool,
    pub proof: TypedSignatureView,
    pub timestamp: Timestamp,
}

/// What a `TxUndelegate` stands for.
pub ghost struct TxUndelegateView {
    pub delegator: Seq<u8>,
    pub proof: TypedSignatureView,
    pub timestamp: Timestamp,
}

/// What an `ExtraAgendaTransaction` stands for.
pub ghost enum ExtraAgendaTransactionView {
    Delegate(TxDelegateView),
    Undelegate(TxUndelegateView),
    Report,
}

impl View for DelegationTransactionData {
    type V = DelegationView;

    open spec fn view(&self) -> DelegationView {
        DelegationView {
            delegator: self.delegator@,
            delegatee: self.delegatee@,
            governance: self.governance,
            block_height: self.block_height,
        }
    }
}

impl View for UndelegationTransactionData {
    type V = UndelegationView;

    open spec fn view(&self) -> UndelegationView {
        UndelegationView { delegator: self.delegator@, block_height: self.block_height }
    }
}

impl View for TxDelegate {
    type V = TxDelegateView;

    open spec fn view(&self) -> TxDelegateView {
        TxDelegateView {
            delegator: self.delegator@,
            delegatee: self.delegatee@,
            governance: self.governance,
            proof: self.proof@,
            timestamp: self.timestamp,
        }
    }
}

impl View for TxUndelegate {
    type V = TxUndelegateView;

    open spec fn view(&self) -> TxUndelegateView {
        TxUndelegateView {
            delegator: self.delegator@,
            proof: self.proof@,
            timestamp: self.timestamp,
        }
    }
}

impl View for ExtraAgendaTransaction {
    type V = ExtraAgendaTransactionView;

    open spec fn view(&self) -> ExtraAgendaTransactionView {
        match self {
            ExtraAgendaTransaction::Delegate(tx) => ExtraAgendaTransactionView::Delegate(tx@),
            ExtraAgendaTransaction::Undelegate(tx) => ExtraAgendaTransactionView::Undelegate(tx@),
            ExtraAgendaTransaction::Report => ExtraAgendaTransactionView::Report,
        }
    }
}

impl TxDelegateView {
    /// Whether the proof is one for a delegation.
    pub open spec fn well_formed(self) -> bool {
        self.proof.kind == PayloadKind::Delegation
    }
}

impl TxUndelegateView {
    /// Whether the proof is one for an undelegation.
    pub open spec fn well_formed(self) -> bool {
        self.proof.kind == PayloadKind::Undelegation
    }
}

/// The delegation made at `timestamp` from the texts of its fields, or the
/// failure of the first field that is malformed: the delegator, then the
/// delegatee, then the proof. The governance flag cannot be malformed.
pub open spec fn delegation_building(
    delegator: Seq<u8>,
    delegatee: Seq<u8>,
    governance: bool,
    proof: Seq<u8>,
    timestamp: Timestamp,
) -> Result<TxDelegateView, CliError> {
    match delegator_decoding(PayloadKind::Delegation, delegator) {
        Err(e) => Err(e),
        Ok(delegator) => match delegatee_decoding(delegatee) {
            Err(e) => Err(e),
            Ok(delegatee) => match typed_proof_decoding(PayloadKind::Delegation, proof) {
                Err(e) => Err(e),
                Ok(proof) => Ok(
                    TxDelegateView { delegator, delegatee, governance, proof, timestamp },
                ),
            },
        },
    }
}

/// The undelegation made at `timestamp` from the texts of its fields, or
/// the failure of the first field that is malformed: the delegator, then the
/// proof.
pub open spec fn undelegation_building(
    delegator: Seq<u8>,
    proof: Seq<u8>,
    timestamp: Timestamp,
) -> Result<TxUndelegateView, CliError> {
    match delegator_decoding(PayloadKind::Undelegation, delegator) {
        Err(e) => Err(e),
        Ok(delegator) => match typed_proof_decoding(PayloadKind::Undelegation, proof) {
            Err(e) => Err(e),
            Ok(proof) => Ok(TxUndelegateView { delegator, proof, timestamp }),
        },
    }
}

/// The payload that `delegator` signs to delegate to the party whose key is
/// written as `delegatee`, or the failure if that text is malformed.
pub open spec fn delegation_payload(
    delegator: Seq<u8>,
    delegatee: Seq<u8>,
    governance: bool,
    block_height: BlockHeight,
) -> Result<DelegationView, CliError> {
    match delegatee_decoding(delegatee) {
        Err(e) => Err(e),
        Ok(delegatee) => Ok(DelegationView { delegator, delegatee, governance, block_height }),
    }
}

/// `SystemTime::elapsed` on `UNIX_EPOCH`: the time that has passed since the
/// epoch, or nothing where the clock reads a time before it.
#[verifier::external_body]
fn since_epoch() -> (r: Option<Duration>) {
    std::time::UNIX_EPOCH.elapsed().ok()
}

/// `Duration::as_millis`: the whole milliseconds in `elapsed`.
#[verifier::external_body]
fn whole_millis(elapsed: &Duration) -> (r: u128) {
    elapsed.as_millis()
}

/// The timestamp for a clock that reads `millis` milliseconds after the
/// epoch, or a time before the epoch: the milliseconds as far as they fit in
/// 64 bits, and 0 before the epoch.
pub open spec fn timestamp_at(millis: Option<u128>) -> Timestamp {
    match millis {
        Some(millis) => (millis % 0x1_0000_0000_0000_0000) as u64,
        None => 0,
    }
}

/// The timestamp for a clock that reads `millis` milliseconds after the
/// epoch, or a time before it.
pub fn timestamp_of(millis: Option<u128>) -> (r: Timestamp)
    ensures
        r == timestamp_at(millis),
{
    match millis {
        Some(millis) => (millis % 0x1_0000_0000_0000_0000) as u64,
        None => 0,
    }
}

/// The time of the process clock as `timestamp_at` gives it: milliseconds
/// since the epoch, and 0 where the clock reads a time before the epoch.
/// Two calls may differ.
pub fn get_timestamp() -> (r: Timestamp)
    ensures
        exists|reading: Option<u128>| r == #[trigger] timestamp_at(reading),
{
    match since_epoch() {
        Some(elapsed) => timestamp_of(Some(whole_millis(&elapsed))),
        None => timestamp_of(None),
    }
}

/// Builds the delegation made at `timestamp` from the texts of its fields.
/// The first malformed field ends the attempt with its own failure, and the
/// fields after it are not read.
pub fn build_delegation_at(
    delegator: &str,
    delegatee: &str,
    governance: bool,
    proof: &str,
    timestamp: Timestamp,
) -> (r: Result<TxDelegate, CliError>)
    ensures
        match r {
            Ok(tx) => delegation_building(
                text_bytes(delegator@),
                text_bytes(delegatee@),
                governance,
                text_bytes(proof@),
                timestamp,
            ) == Ok::<TxDelegateView, CliError>(tx@) && tx@.well_formed(),
            Err(e) => delegation_building(
                text_bytes(delegator@),
                text_bytes(delegatee@),
                governance,
                text_bytes(proof@),
                timestamp,
            ) == Err::<TxDelegateView, CliError>(e),
        },
{
    let delegator = match decode_delegator(delegator, PayloadKind::Delegation) {
        Ok(key) => key,
        Err(e) => {
            return Err(e);
        },
    };
    let delegatee = match decode_delegatee(delegatee) {
        Ok(key) => key,
        Err(e) => {
            return Err(e);
        },
    };
    let proof = match decode_proof(proof, PayloadKind::Delegation) {
        Ok(proof) => proof,
        Err(e) => {
            return Err(e);
        },
    };
    Ok(TxDelegate { delegator, delegatee, governance, proof, timestamp })
}

/// Builds the undelegation made at `timestamp` from the texts of its
/// fields. The first malformed field ends the attempt with its own failure.
pub fn build_undelegation_at(delegator: &str, proof: &str, timestamp: Timestamp) -> (r: Result<
    TxUndelegate,
    CliError,
>)
    ensures
        match r {
            Ok(tx) => undelegation_building(
                text_bytes(delegator@),
                text_bytes(proof@),
                timestamp,
            ) == Ok::<TxUndelegateView, CliError>(tx@) && tx@.well_formed(),
            Err(e) => undelegation_building(
                text_bytes(delegator@),
                text_bytes(proof@),
                timestamp,
            ) == Err::<TxUndelegateView, CliError>(e),
        },
{
    let delegator = match decode_delegator(delegator, PayloadKind::Undelegation) {
        Ok(key) => key,
        Err(e) => {
            return Err(e);
        },
    };
    let proof = match decode_proof(proof, PayloadKind::Undelegation) {
        Ok(proof) => proof,
        Err(e) => {
            return Err(e);
        },
    };
    Ok(TxUndelegate { delegator, proof, timestamp })
}

/// Builds a delegation and stamps it with the time of the process clock.
/// The outcome is that of `build_delegation_at` at the time that was read,
/// and a failure is the same at every time.
pub fn build_delegation(delegator: &str, delegatee: &str, governance: bool, proof: &str) -> (r:
    Result<TxDelegate, CliError>)
    ensures
        match r {
            Ok(tx) => delegation_building(
                text_bytes(delegator@),
                text_bytes(delegatee@),
                governance,
                text_bytes(proof@),
                tx.timestamp,
            ) == Ok::<TxDelegateView, CliError>(tx@) && tx@.well_formed(),
            Err(e) => forall|at: Timestamp|
                #[trigger] delegation_building(
                    text_bytes(delegator@),
                    text_bytes(delegatee@),
                    governance,
                    text_bytes(proof@),
                    at,
                ) == Err::<TxDelegateView, CliError>(e),
        },
{
    build_delegation_at(delegator, delegatee, governance, proof, get_timestamp())
}

/// Builds an undelegation and stamps it with the time of the process clock.
/// The outcome is that of `build_undelegation_at` at the time that was read,
/// and a failure is the same at every time.
pub fn build_undelegation(delegator: &str, proof: &str) -> (r: Result<TxUndelegate, CliError>)
    ensures
        match r {
            Ok(tx) => undelegation_building(
                text_bytes(delegator@),
                text_bytes(proof@),
                tx.timestamp,
            ) == Ok::<TxUndelegateView, CliError>(tx@) && tx@.well_formed(),
            Err(e) => forall|at: Timestamp|
                #[trigger] undelegation_building(text_bytes(delegator@), text_bytes(proof@), at)
                    == Err::<TxUndelegateView, CliError>(e),
        },
{
    build_undelegation_at(delegator, proof, get_timestamp())
}

/// Builds the payload that `delegator` signs to delegate to the party whose
/// key is written as `delegatee`.
pub fn build_delegation_payload(
    delegator: PublicKey,
    delegatee: &str,
    governance: bool,
    block_height: BlockHeight,
) -> (r: Result<DelegationTransactionData, CliError>)
    ensures
        match r {
            Ok(data) => delegation_payload(
                delegator@,
                text_bytes(delegatee@),
                governance,
                block_height,
            ) == Ok::<DelegationView, CliError>(data@),
            Err(e) => delegation_payload(
                delegator@,
                text_bytes(delegatee@),
                governance,
                block_height,
            ) == Err::<DelegationView, CliError>(e),
        },
{
    match decode_delegatee(delegatee) {
        Ok(delegatee) => Ok(
            DelegationTransactionData { delegator, delegatee, governance, block_height },
        ),
        Err(e) => Err(e),
    }
}

/// Builds the payload that `delegator` signs to take a delegation back.
pub fn build_undelegation_payload(delegator: PublicKey, block_height: BlockHeight) -> (r:
    UndelegationTransactionData)
    ensures
        r@ == (UndelegationView { delegator: delegator@, block_height }),
{
    UndelegationTransactionData { delegator, block_height }
}

/// A malformed field fails a delegation with the failure of that field, and
/// the first malformed field decides: a malformed delegator is reported
/// whatever the other fields hold, a malformed delegatee where the delegator
/// is well formed, and a malformed proof where both keys are.
pub proof fn lemma_delegation_first_failure(
    delegator: Seq<u8>,
    delegatee: Seq<u8>,
    governance: bool,
    proof: Seq<u8>,
    timestamp: Timestamp,
)
    ensures
        ({
            let built = delegation_building(delegator, delegatee, governance, proof, timestamp);
            let delegator_ok = delegator_decoding(PayloadKind::Delegation, delegator) is Ok;
            let delegatee_ok = delegatee_decoding(delegatee) is Ok;
            let proof_ok = typed_proof_decoding(PayloadKind::Delegation, proof) is Ok;
            &&& !delegator_ok ==> built == Err::<TxDelegateView, CliError>(
                CliError::InvalidDelegator(PayloadKind::Delegation),
            )
            &&& delegator_ok && !delegatee_ok ==> built == Err::<TxDelegateView, CliError>(
                CliError::InvalidDelegatee,
            )
            &&& delegator_ok && delegatee_ok && !proof_ok ==> built == Err::<
                TxDelegateView,
                CliError,
            >(CliError::InvalidProof(PayloadKind::Delegation))
            &&& delegator_ok && delegatee_ok && proof_ok ==> built is Ok
        }),
{
}

/// The time at which a transaction is made is part of it: two delegations
/// made from the same texts at different times differ, and so do two
/// undelegations. Whether the texts are well formed does not depend on the
/// time.
pub proof fn lemma_timestamp_is_part_of_transaction(
    delegator: Seq<u8>,
    delegatee: Seq<u8>,
    governance: bool,
    proof: Seq<u8>,
    first: Timestamp,
    second: Timestamp,
)
    requires
        first != second,
    ensures
        ({
            let one = delegation_building(delegator, delegatee, governance, proof, first);
            let other = delegation_building(delegator, delegatee, governance, proof, second);
            &&& one is Ok <==> other is Ok
            &&& one is Ok ==> one != other
            &&& one is Err ==> one == other
        }),
        ({
            let one = undelegation_building(delegator, proof, first);
            let other = undelegation_building(delegator, proof, second);
            &&& one is Ok <==> other is Ok
            &&& one is Ok ==> one != other
            &&& one is Err ==> one == other
        }),
{
}

} // verus!
