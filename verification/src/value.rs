//! The values that arrive as structured text: keys, signatures, proofs and
//! the commits that a vote or a veto aims at.
//!
//! A key is written `{"key":"<digits>"}` and a signature
//! `{"signature":"<digits>"}`, the digits being the hexadecimal text of its
//! bytes. A proof is a signature bound to the kind of payload it was made
//! over; it is written as a record that holds a signature,
//! `{"signature":{"signature":"<digits>"}}`, and takes its kind from the
//! argument it was given as. A target is the bare hexadecimal text of a
//! commit hash.

use vstd::prelude::*;
use vstd::string::StringExecFns;
use crate::error::{CliError, HashKind, PayloadKind};
use crate::hash::{decode_commit_hash, hash_decoding, CommitHash};
use crate::hex_text::{decode_hex, encode_hex, hex_chars, hex_decoding, hex_text, is_ascii_text,
    lemma_ascii_text_bytes, lemma_hex_chars_ascii, lemma_hex_round_trip, text_bytes, HexFault};
use crate::record::{lemma_quoted_round_trip, lemma_record_round_trip, quoted_body,
    quoted_body_of, quoted_text, record_body, record_body_of, record_text};

verus! {

/// The key by which a party is known. This layer holds its bytes and does
/// not judge whether they are a key that a signature can be checked with.
#[derive(Clone, Debug, PartialEq, Eq)]
pub struct PublicKey {
    pub key: Vec<u8>,
}

/// The bytes of a signature, bound to no kind of payload.
#[derive(Clone, Debug, PartialEq, Eq)]
pub struct Signature {
    pub signature: Vec<u8>,
}

/// A signature together with the kind of payload that it was made over. The
/// kind is fixed when the value is made and cannot be changed afterwards.
#[derive(Clone, Debug, PartialEq, Eq)]
pub struct TypedSignature {
    kind: PayloadKind,
    signature: Signature,
}

/// What a `TypedSignature` stands for.
pub ghost struct TypedSignatureView {
    pub kind: PayloadKind,
    pub signature: Seq<u8>,
}

impl View for PublicKey {
    type V = Seq<u8>;

    open spec fn view(&self) -> Seq<u8> {
        self.key@
    }
}

impl View for Signature {
    type V = Seq<u8>;

    open spec fn view(&self) -> Seq<u8> {
        self.signature@
    }
}

impl View for TypedSignature {
    type V = TypedSignatureView;

    closed spec fn view(&self) -> TypedSignatureView {
        TypedSignatureView { kind: self.kind, signature: self.signature@ }
    }
}

/// The label of the field of a key.
pub open spec fn key_label() -> Seq<u8> {
    text_bytes("key"@)
}

/// The label of the field of a signature, and of a proof.
pub open spec fn signature_label() -> Seq<u8> {
    text_bytes("signature"@)
}

/// The text of a key whose bytes are written as `digits`.
pub open spec fn key_text(digits: Seq<u8>) -> Seq<u8> {
    record_text(key_label(), quoted_text(digits))
}

/// The text of a signature whose bytes are written as `digits`.
pub open spec fn signature_text(digits: Seq<u8>) -> Seq<u8> {
    record_text(signature_label(), quoted_text(digits))
}

/// The text of a proof whose bytes are written as `digits`.
pub open spec fn proof_text(digits: Seq<u8>) -> Seq<u8> {
    record_text(signature_label(), signature_text(digits))
}

/// The bytes in a record of `label` that holds a quoted hexadecimal text,
/// if `text` is one.
pub open spec fn hex_field_decoding(label: Seq<u8>, text: Seq<u8>) -> Option<Seq<u8>> {
    match record_body_of(label, text) {
        Some(body) => match quoted_body_of(body) {
            Some(digits) => match hex_decoding(digits) {
                Ok(bytes) => Some(bytes),
                Err(_) => None,
            },
            None => None,
        },
        None => None,
    }
}

/// The bytes of the key that `text` denotes, if it denotes one.
pub open spec fn public_key_decoding(text: Seq<u8>) -> Option<Seq<u8>> {
    hex_field_decoding(key_label(), text)
}

/// The bytes of the signature that `text` denotes, if it denotes one.
pub open spec fn signature_decoding(text: Seq<u8>) -> Option<Seq<u8>> {
    hex_field_decoding(signature_label(), text)
}

/// The bytes of the proof that `text` denotes, if it denotes one.
pub open spec fn proof_decoding(text: Seq<u8>) -> Option<Seq<u8>> {
    match record_body_of(signature_label(), text) {
        Some(inner) => signature_decoding(inner),
        None => None,
    }
}

/// Reads a record of `label` that holds a quoted hexadecimal text.
fn decode_hex_field(text: &[u8], label: &[u8]) -> (r: Option<Vec<u8>>)
    ensures
        match r {
            Some(bytes) => hex_field_decoding(label@, text@) == Some(bytes@),
            None => hex_field_decoding(label@, text@) is None,
        },
{
    match record_body(text, label) {
        None => None,
        Some(body) => match quoted_body(body) {
            None => None,
            Some(digits) => match decode_hex(digits) {
                Ok(bytes) => Some(bytes),
                Err(_) => None,
            },
        },
    }
}

/// Reads the bytes of a signature from its text.
pub(crate) fn decode_signature_bytes(text: &[u8]) -> (r: Option<Signature>)
    ensures
        match r {
            Some(signature) => signature_decoding(text@) == Some(signature@),
            None => signature_decoding(text@) is None,
        },
{
    match decode_hex_field(text, "signature".as_bytes()) {
        Some(signature) => Some(Signature { signature }),
        None => None,
    }
}

/// Writes `opening`, the hexadecimal digits of `bytes` and `closing`.
fn framed_hex(opening: &str, bytes: &[u8], closing: &str) -> (r: String)
    requires
        is_ascii_text(opening@),
        is_ascii_text(closing@),
    ensures
        is_ascii_text(r@),
        text_bytes(r@) == text_bytes(opening@) + hex_text(bytes@) + text_bytes(closing@),
{
    let digits = encode_hex(bytes);
    let r = opening.to_owned().concat(digits.as_str()).concat(closing);
    proof {
        lemma_hex_chars_ascii(bytes@);
        lemma_ascii_text_bytes(opening@, digits@);
        lemma_ascii_text_bytes(opening@ + digits@, closing@);
    }
    r
}

/// The opening and the closing of the text of a key, of a signature and of
/// a proof are what the records and the quotes put around the digits.
proof fn lemma_frames(digits: Seq<u8>)
    ensures
        is_ascii_text("{\"key\":\""@),
        is_ascii_text("{\"signature\":\""@),
        is_ascii_text("{\"signature\":{\"signature\":\""@),
        is_ascii_text("\"}"@),
        is_ascii_text("\"}}"@),
        text_bytes("{\"key\":\""@) + digits + text_bytes("\"}"@) == key_text(digits),
        text_bytes("{\"signature\":\""@) + digits + text_bytes("\"}"@) == signature_text(digits),
        text_bytes("{\"signature\":{\"signature\":\""@) + digits + text_bytes("\"}}"@)
            == proof_text(digits),
{
    lemma_labels();
    reveal_strlit("{\"key\":\"");
    reveal_strlit("{\"signature\":\"");
    reveal_strlit("{\"signature\":{\"signature\":\"");
    reveal_strlit("\"}");
    reveal_strlit("\"}}");
    let empty = Seq::<char>::empty();
    lemma_ascii_text_bytes("{\"key\":\""@, empty);
    lemma_ascii_text_bytes("{\"signature\":\""@, empty);
    lemma_ascii_text_bytes("{\"signature\":{\"signature\":\""@, empty);
    lemma_ascii_text_bytes("\"}"@, empty);
    lemma_ascii_text_bytes("\"}}"@, empty);
    assert(text_bytes("{\"key\":\""@) + digits + text_bytes("\"}"@) =~= key_text(digits));
    assert(text_bytes("{\"signature\":\""@) + digits + text_bytes("\"}"@) =~= signature_text(
        digits,
    ));
    assert(text_bytes("{\"signature\":{\"signature\":\""@) + digits + text_bytes("\"}}"@)
        =~= proof_text(digits));
}

impl PublicKey {
    /// Writes the key as text, which `decode` reads back as this key.
    pub fn to_text(&self) -> (r: String)
        ensures
            text_bytes(r@) == key_text(hex_text(self@)),
            public_key_decoding(text_bytes(r@)) == Some(self@),
    {
        proof {
            lemma_frames(hex_text(self@));
            lemma_key_round_trip(self@);
        }
        framed_hex("{\"key\":\"", self.key.as_slice(), "\"}")
    }

    /// Reads the text of a key. The result is a whole key or nothing.
    pub fn decode(text: &str) -> (r: Option<PublicKey>)
        ensures
            match r {
                Some(key) => public_key_decoding(text_bytes(text@)) == Some(key@),
                None => public_key_decoding(text_bytes(text@)) is None,
            },
    {
        match decode_hex_field(text.as_bytes(), "key".as_bytes()) {
            Some(key) => Some(PublicKey { key }),
            None => None,
        }
    }
}

impl Signature {
    /// Writes the signature as text, which `decode` reads back as this
    /// signature.
    pub fn to_text(&self) -> (r: String)
        ensures
            is_ascii_text(r@),
            text_bytes(r@) == signature_text(hex_text(self@)),
            signature_decoding(text_bytes(r@)) == Some(self@),
    {
        proof {
            lemma_frames(hex_text(self@));
            lemma_proof_round_trip(self@);
        }
        framed_hex("{\"signature\":\"", self.signature.as_slice(), "\"}")
    }

    /// Reads the text of a signature. The result is a whole signature or
    /// nothing.
    pub fn decode(text: &str) -> (r: Option<Signature>)
        ensures
            match r {
                Some(signature) => signature_decoding(text_bytes(text@)) == Some(signature@),
                None => signature_decoding(text_bytes(text@)) is None,
            },
    {
        decode_signature_bytes(text.as_bytes())
    }

    /// The bytes of the signature as lower-case hexadecimal text.
    pub fn to_hex(&self) -> (r: String)
        ensures
            r@ == hex_chars(self@),
            text_bytes(r@) == hex_text(self@),
    {
        encode_hex(self.signature.as_slice())
    }
}

impl TypedSignature {
    /// Binds `signature` to payloads of `kind`.
    pub fn new(kind: PayloadKind, signature: Signature) -> (r: TypedSignature)
        ensures
            r@ == (TypedSignatureView { kind, signature: signature@ }),
    {
        TypedSignature { kind, signature }
    }

    /// The kind of payload that the signature was made over.
    pub fn kind(&self) -> (r: PayloadKind)
        ensures
            r == self@.kind,
    {
        self.kind
    }

    /// The signature without its binding.
    pub fn signature(&self) -> (r: &Signature)
        ensures
            r@ == self@.signature,
    {
        &self.signature
    }

    /// Writes the proof as text, which `decode` reads back as this proof
    /// where it is given for a payload of the same kind.
    pub fn to_text(&self) -> (r: String)
        ensures
            text_bytes(r@) == proof_text(hex_text(self@.signature)),
            proof_decoding(text_bytes(r@)) == Some(self@.signature),
    {
        proof {
            lemma_frames(hex_text(self@.signature));
            lemma_proof_round_trip(self@.signature);
        }
        framed_hex("{\"signature\":{\"signature\":\"", self.signature.signature.as_slice(), "\"}}")
    }

    /// Reads the text of a proof given for a payload of `kind`. The result
    /// is a whole proof, bound to `kind`, or nothing.
    pub fn decode(text: &str, kind: PayloadKind) -> (r: Option<TypedSignature>)
        ensures
            match r {
                Some(proof) => proof_decoding(text_bytes(text@)) == Some(proof@.signature)
                    && proof@.kind == kind,
                None => proof_decoding(text_bytes(text@)) is None,
            },
    {
        match record_body(text.as_bytes(), "signature".as_bytes()) {
            None => None,
            Some(inner) => match decode_hex_field(inner, "signature".as_bytes()) {
                Some(signature) => Some(
                    TypedSignature { kind, signature: Signature { signature } },
                ),
                None => None,
            },
        }
    }
}

/// What the text of a delegator gives for a transaction of `kind`.
pub open spec fn delegator_decoding(kind: PayloadKind, text: Seq<u8>) -> Result<
    Seq<u8>,
    CliError,
> {
    match public_key_decoding(text) {
        Some(key) => Ok(key),
        None => Err(CliError::InvalidDelegator(kind)),
    }
}

/// What the text of a delegatee gives.
pub open spec fn delegatee_decoding(text: Seq<u8>) -> Result<Seq<u8>, CliError> {
    match public_key_decoding(text) {
        Some(key) => Ok(key),
        None => Err(CliError::InvalidDelegatee),
    }
}

/// What the text of the proof of a transaction of `kind` gives.
pub open spec fn typed_proof_decoding(kind: PayloadKind, text: Seq<u8>) -> Result<
    TypedSignatureView,
    CliError,
> {
    match proof_decoding(text) {
        Some(signature) => Ok(TypedSignatureView { kind, signature }),
        None => Err(CliError::InvalidProof(kind)),
    }
}

/// What the text of a commit gives where a failure is told as `fault`.
pub open spec fn target_decoding(text: Seq<u8>, fault: CliError) -> Result<Seq<u8>, CliError> {
    match hash_decoding(HashKind::Commit, text) {
        Ok(hash) => Ok(hash),
        Err(_) => Err(fault),
    }
}

/// Reads the delegator of a transaction of `kind`.
pub fn decode_delegator(text: &str, kind: PayloadKind) -> (r: Result<PublicKey, CliError>)
    ensures
        match r {
            Ok(key) => delegator_decoding(kind, text_bytes(text@)) == Ok::<Seq<u8>, CliError>(
                key@,
            ),
            Err(e) => delegator_decoding(kind, text_bytes(text@)) == Err::<Seq<u8>, CliError>(e),
        },
{
    match PublicKey::decode(text) {
        Some(key) => Ok(key),
        None => Err(CliError::InvalidDelegator(kind)),
    }
}

/// Reads the delegatee of a delegation.
pub fn decode_delegatee(text: &str) -> (r: Result<PublicKey, CliError>)
    ensures
        match r {
            Ok(key) => delegatee_decoding(text_bytes(text@)) == Ok::<Seq<u8>, CliError>(key@),
            Err(e) => delegatee_decoding(text_bytes(text@)) == Err::<Seq<u8>, CliError>(e),
        },
{
    match PublicKey::decode(text) {
        Some(key) => Ok(key),
        None => Err(CliError::InvalidDelegatee),
    }
}

/// Reads the proof of a transaction of `kind`.
pub fn decode_proof(text: &str, kind: PayloadKind) -> (r: Result<TypedSignature, CliError>)
    ensures
        match r {
            Ok(proof) => typed_proof_decoding(kind, text_bytes(text@)) == Ok::<
                TypedSignatureView,
                CliError,
            >(proof@),
            Err(e) => typed_proof_decoding(kind, text_bytes(text@)) == Err::<
                TypedSignatureView,
                CliError,
            >(e),
        },
{
    match TypedSignature::decode(text, kind) {
        Some(proof) => Ok(proof),
        None => Err(CliError::InvalidProof(kind)),
    }
}

/// Reads the commit that a vote is cast on.
pub fn decode_vote_target(text: &str) -> (r: Result<CommitHash, CliError>)
    ensures
        match r {
            Ok(hash) => target_decoding(text_bytes(text@), CliError::InvalidVoteTarget) == Ok::<
                Seq<u8>,
                CliError,
            >(hash@),
            Err(e) => target_decoding(text_bytes(text@), CliError::InvalidVoteTarget) == Err::<
                Seq<u8>,
                CliError,
            >(e),
        },
{
    match decode_commit_hash(text) {
        Ok(hash) => Ok(hash),
        Err(_) => Err(CliError::InvalidVoteTarget),
    }
}

/// Reads the commit of the block that a veto is cast on.
pub fn decode_veto_target(text: &str) -> (r: Result<CommitHash, CliError>)
    ensures
        match r {
            Ok(hash) => target_decoding(text_bytes(text@), CliError::InvalidVetoTarget) == Ok::<
                Seq<u8>,
                CliError,
            >(hash@),
            Err(e) => target_decoding(text_bytes(text@), CliError::InvalidVetoTarget) == Err::<
                Seq<u8>,
                CliError,
            >(e),
        },
{
    match decode_commit_hash(text) {
        Ok(hash) => Ok(hash),
        Err(_) => Err(CliError::InvalidVetoTarget),
    }
}

/// The labels are made of small letters: `key` and `signature`, one byte for
/// each letter.
pub proof fn lemma_labels()
    ensures
        key_label() == seq![0x6b_u8, 0x65_u8, 0x79_u8],
        signature_label() == seq![
            0x73_u8,
            0x69_u8,
            0x67_u8,
            0x6e_u8,
            0x61_u8,
            0x74_u8,
            0x75_u8,
            0x72_u8,
            0x65_u8,
        ],
{
    reveal_strlit("key");
    reveal_strlit("signature");
    vstd::utf8::is_ascii_chars_encode_utf8("key"@);
    vstd::utf8::is_ascii_chars_encode_utf8("signature"@);
}

/// The text of a key is read back as the bytes it was written from.
pub proof fn lemma_key_round_trip(bytes: Seq<u8>)
    ensures
        public_key_decoding(key_text(hex_text(bytes))) == Some(bytes),
{
    lemma_hex_round_trip(bytes);
    lemma_quoted_round_trip(hex_text(bytes));
    lemma_record_round_trip(key_label(), quoted_text(hex_text(bytes)));
}

/// The text of a proof is read back as the bytes it was written from.
pub proof fn lemma_proof_round_trip(bytes: Seq<u8>)
    ensures
        signature_decoding(signature_text(hex_text(bytes))) == Some(bytes),
        proof_decoding(proof_text(hex_text(bytes))) == Some(bytes),
{
    lemma_hex_round_trip(bytes);
    lemma_quoted_round_trip(hex_text(bytes));
    lemma_record_round_trip(signature_label(), quoted_text(hex_text(bytes)));
    lemma_record_round_trip(signature_label(), signature_text(hex_text(bytes)));
}

/// Only canonical text is read. What is read as a key is the text of a key
/// around hexadecimal digits that denote its bytes, and what is read as a
/// proof is the text of a proof around such digits.
pub proof fn lemma_only_canonical_text_is_read(text: Seq<u8>)
    ensures
        public_key_decoding(text) is Some ==> exists|digits: Seq<u8>|
            text == #[trigger] key_text(digits) && hex_decoding(digits) == Ok::<
                Seq<u8>,
                HexFault,
            >(public_key_decoding(text)->Some_0),
        proof_decoding(text) is Some ==> exists|digits: Seq<u8>|
            text == #[trigger] proof_text(digits) && hex_decoding(digits) == Ok::<
                Seq<u8>,
                HexFault,
            >(proof_decoding(text)->Some_0),
{
    if public_key_decoding(text) is Some {
        let body = record_body_of(key_label(), text)->Some_0;
        let digits = quoted_body_of(body)->Some_0;
        assert(text == key_text(digits));
    }
    if proof_decoding(text) is Some {
        let inner = record_body_of(signature_label(), text)->Some_0;
        let body = record_body_of(signature_label(), inner)->Some_0;
        let digits = quoted_body_of(body)->Some_0;
        assert(text == proof_text(digits));
    }
}

} // verus!
