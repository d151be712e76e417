//! Signatures and the payloads they are bound to.
//!
//! The signing primitive works outside this library, on the bytes that stand
//! for a payload and with a key that this library never holds. What it hands
//! back is bound here to the kind of the payload, and that binding decides
//! which payloads a signature can ever be accepted for.

use vstd::prelude::*;
use crate::error::{CliError, PayloadKind};
use crate::transaction::{DelegationTransactionData, DelegationView,
    UndelegationTransactionData, UndelegationView};
use crate::value::{Signature, TypedSignature, TypedSignatureView};

verus! {

/// What can be signed with a binding to its kind.
#[derive(Clone, Debug, PartialEq, Eq)]
pub enum Payload {
    Delegation(DelegationTransactionData),
    Undelegation(UndelegationTransactionData),
}

/// What a `Payload` stands for.
pub ghost enum PayloadView {
    Delegation(DelegationView),
    Undelegation(UndelegationView),
}

impl PayloadView {
    /// The kind of the payload.
    pub open spec fn kind(self) -> PayloadKind {
        match self {
            PayloadView::Delegation(_) => PayloadKind::Delegation,
            PayloadView::Undelegation(_) => PayloadKind::Undelegation,
        }
    }
}

impl View for Payload {
    type V = PayloadView;

    open spec fn view(&self) -> PayloadView {
        match self {
            Payload::Delegation(data) => PayloadView::Delegation(data@),
            Payload::Undelegation(data) => PayloadView::Undelegation(data@),
        }
    }
}

impl Payload {
    /// The kind of the payload.
    pub fn kind(&self) -> (r: PayloadKind)
        ensures
            r == self@.kind(),
    {
        match self {
            Payload::Delegation(_) => PayloadKind::Delegation,
            Payload::Undelegation(_) => PayloadKind::Undelegation,
        }
    }
}

/// The signature over a payload of `kind` for which the primitive handed
/// back `outcome`: nothing is a failure to sign, and bytes are a signature
/// bound to `kind`.
pub open spec fn sealing(kind: PayloadKind, outcome: Option<Seq<u8>>) -> Result<
    TypedSignatureView,
    CliError,
> {
    match outcome {
        Some(signature) => Ok(TypedSignatureView { kind, signature }),
        None => Err(CliError::SigningFailed),
    }
}

/// Binds what the signing primitive handed back for `payload` to the kind
/// of `payload`. Signing fails only where the primitive did.
pub fn seal(payload: &Payload, outcome: Option<Vec<u8>>) -> (r: Result<TypedSignature, CliError>)
    ensures
        match r {
            Ok(signature) => outcome is Some && sealing(payload@.kind(), Some(outcome->Some_0@))
                == Ok::<TypedSignatureView, CliError>(signature@),
            Err(e) => outcome is None && e == CliError::SigningFailed,
        },
{
    match outcome {
        Some(signature) => Ok(TypedSignature::new(payload.kind(), Signature { signature })),
        None => Err(CliError::SigningFailed),
    }
}

/// Takes what the signing primitive handed back for a bare hash. Such a
/// signature is bound to no kind of payload.
pub fn seal_hash(outcome: Option<Vec<u8>>) -> (r: Result<Signature, CliError>)
    ensures
        match r {
            Ok(signature) => outcome is Some && signature@ == outcome->Some_0@,
            Err(e) => outcome is None && e == CliError::SigningFailed,
        },
{
    match outcome {
        Some(signature) => Ok(Signature { signature }),
        None => Err(CliError::SigningFailed),
    }
}

/// Whether `signature` is accepted for `payload`, given whether the
/// primitive accepts its bytes for the bytes of `payload`. A signature
/// bound to one kind is not accepted for a payload of another.
pub open spec fn accepted(
    signature: TypedSignatureView,
    payload: PayloadView,
    primitive_accepts: bool,
) -> bool {
    signature.kind == payload.kind() && primitive_accepts
}

/// Decides whether `signature` is accepted for `payload`, given whether
/// the primitive accepts its bytes for the bytes of `payload`.
pub fn accepts(signature: &TypedSignature, payload: &Payload, primitive_accepts: bool) -> (r:
    bool)
    ensures
        r == accepted(signature@, payload@, primitive_accepts),
        signature@.kind != payload@.kind() ==> !r,
{
    let bound = match (signature.kind(), payload.kind()) {
        (PayloadKind::Delegation, PayloadKind::Delegation) => true,
        (PayloadKind::Undelegation, PayloadKind::Undelegation) => true,
        _ => false,
    };
    bound && primitive_accepts
}

/// A signature made over a delegation is never accepted for an
/// undelegation, nor one made over an undelegation for a delegation,
/// whatever the key and whatever the primitive says of the bytes.
pub proof fn lemma_no_acceptance_across_kinds(
    kind: PayloadKind,
    outcome: Seq<u8>,
    payload: PayloadView,
    primitive_accepts: bool,
)
    requires
        payload.kind() != kind,
    ensures
        !accepted(sealing(kind, Some(outcome))->Ok_0, payload, primitive_accepts),
{
}

} // verus!
