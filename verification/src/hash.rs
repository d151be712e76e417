//! The two hashes of fixed length, and their hexadecimal text.

use vstd::prelude::*;
use crate::error::{CliError, HashKind};
use crate::hex_text::{decode_hex, encode_hex, hex_bytes, hex_chars, hex_text, is_hex_digit,
    is_hex_text, lemma_hex_round_trip, text_bytes, HexFault};

verus! {

/// Names a commit, a unit of the ledger's history, by 20 bytes.
#[derive(Clone, Copy, Debug, PartialEq, Eq)]
pub struct CommitHash {
    pub hash: [u8; 20],
}

/// A general content hash of 32 bytes.
#[derive(Clone, Copy, Debug, PartialEq, Eq)]
pub struct Hash256 {
    pub hash: [u8; 32],
}

impl View for CommitHash {
    type V = Seq<u8>;

    open spec fn view(&self) -> Seq<u8> {
        self.hash@
    }
}

impl View for Hash256 {
    type V = Seq<u8>;

    open spec fn view(&self) -> Seq<u8> {
        self.hash@
    }
}

/// What a text read as a hash of `kind` gives: the bytes of the hash, or the
/// failure. A byte that is no hexadecimal digit makes the text invalid
/// whatever its length; digits that are not exactly two for each byte of the
/// kind have the wrong length. Nothing is cut off or filled up.
pub open spec fn hash_decoding(kind: HashKind, text: Seq<u8>) -> Result<Seq<u8>, CliError> {
    if !is_hex_text(text) {
        Err(CliError::InvalidHash)
    } else if text.len() != 2 * kind.byte_len() {
        Err(CliError::WrongLength(kind))
    } else {
        Ok(hex_bytes(text))
    }
}

/// The bytes of a hash of `N` bytes that `text` denotes, if it denotes one.
fn decode_fixed<const N: usize>(text: &[u8], kind: HashKind) -> (r: Result<[u8; N], CliError>)
    requires
        N == kind.byte_len(),
    ensures
        match r {
            Ok(hash) => hash_decoding(kind, text@) == Ok::<Seq<u8>, CliError>(hash@),
            Err(e) => hash_decoding(kind, text@) == Err::<Seq<u8>, CliError>(e),
        },
{
    match decode_hex(text) {
        Err(HexFault::NotHex) => Err(CliError::InvalidHash),
        Err(HexFault::OddLength) => Err(CliError::WrongLength(kind)),
        Ok(bytes) => {
            if bytes.len() != N {
                return Err(CliError::WrongLength(kind));
            }
            let mut hash: [u8; N] = [0u8; N];
            let mut i: usize = 0;
            while i < N
                invariant
                    i <= N,
                    bytes@.len() == N,
                    forall|j: int| 0 <= j < i ==> hash@[j] == bytes@[j],
                decreases N - i,
            {
                hash[i] = bytes[i];
                i += 1;
            }
            assert(hash@ =~= bytes@);
            Ok(hash)
        },
    }
}

/// Reads the hexadecimal text of a commit hash: 40 digits, in either case.
pub fn decode_commit_hash(text: &str) -> (r: Result<CommitHash, CliError>)
    ensures
        match r {
            Ok(hash) => hash_decoding(HashKind::Commit, text_bytes(text@)) == Ok::<
                Seq<u8>,
                CliError,
            >(hash@),
            Err(e) => hash_decoding(HashKind::Commit, text_bytes(text@)) == Err::<
                Seq<u8>,
                CliError,
            >(e),
        },
{
    match decode_fixed::<20>(text.as_bytes(), HashKind::Commit) {
        Ok(hash) => Ok(CommitHash { hash }),
        Err(e) => Err(e),
    }
}

/// Reads the hexadecimal text of a general hash: 64 digits, in either case.
pub fn decode_hash256(text: &str) -> (r: Result<Hash256, CliError>)
    ensures
        match r {
            Ok(hash) => hash_decoding(HashKind::General, text_bytes(text@)) == Ok::<
                Seq<u8>,
                CliError,
            >(hash@),
            Err(e) => hash_decoding(HashKind::General, text_bytes(text@)) == Err::<
                Seq<u8>,
                CliError,
            >(e),
        },
{
    match decode_fixed::<32>(text.as_bytes(), HashKind::General) {
        Ok(hash) => Ok(Hash256 { hash }),
        Err(e) => Err(e),
    }
}

impl CommitHash {
    /// The hash as 40 lower-case hexadecimal digits, which
    /// `decode_commit_hash` reads back as this hash.
    pub fn to_hex(&self) -> (r: String)
        ensures
            r@ == hex_chars(self@),
            text_bytes(r@) == hex_text(self@),
            hash_decoding(HashKind::Commit, text_bytes(r@)) == Ok::<Seq<u8>, CliError>(self@),
    {
        proof {
            lemma_hex_round_trip(self@);
        }
        encode_hex(self.hash.as_slice())
    }
}

impl Hash256 {
    /// The hash as 64 lower-case hexadecimal digits, which `decode_hash256`
    /// reads back as this hash.
    pub fn to_hex(&self) -> (r: String)
        ensures
            r@ == hex_chars(self@),
            text_bytes(r@) == hex_text(self@),
            hash_decoding(HashKind::General, text_bytes(r@)) == Ok::<Seq<u8>, CliError>(self@),
    {
        proof {
            lemma_hex_round_trip(self@);
        }
        encode_hex(self.hash.as_slice())
    }
}

/// The hexadecimal text of a hash decodes to that hash: for every sequence
/// of as many bytes as the kind has (20 for a commit hash, 32 for a general
/// hash), writing it and reading it back returns it unchanged.
pub proof fn lemma_hash_round_trip(kind: HashKind, bytes: Seq<u8>)
    requires
        bytes.len() == kind.byte_len(),
    ensures
        hash_decoding(kind, hex_text(bytes)) == Ok::<Seq<u8>, CliError>(bytes),
{
    lemma_hex_round_trip(bytes);
}

/// Hexadecimal text of any length but 40 digits is no commit hash: reading
/// it fails with the length error, and never succeeds on a part of it.
pub proof fn lemma_commit_hash_wrong_length(text: Seq<u8>)
    requires
        is_hex_text(text),
        text.len() != 40,
    ensures
        hash_decoding(HashKind::Commit, text) == Err::<Seq<u8>, CliError>(
            CliError::WrongLength(HashKind::Commit),
        ),
{
}

/// Hexadecimal text of any length but 64 digits is no general hash: reading
/// it fails with the length error.
pub proof fn lemma_hash256_wrong_length(text: Seq<u8>)
    requires
        is_hex_text(text),
        text.len() != 64,
    ensures
        hash_decoding(HashKind::General, text) == Err::<Seq<u8>, CliError>(
            CliError::WrongLength(HashKind::General),
        ),
{
}

/// Text with a byte that is no hexadecimal digit is an invalid hash of
/// either kind, whatever its length.
pub proof fn lemma_not_hex_is_invalid(kind: HashKind, text: Seq<u8>, at: int)
    requires
        0 <= at < text.len(),
        !is_hex_digit(text[at]),
    ensures
        hash_decoding(kind, text) == Err::<Seq<u8>, CliError>(CliError::InvalidHash),
{
}

/// A text is read as a hash exactly when it is the hexadecimal text, in
/// either case, of as many bytes as the kind has.
pub proof fn lemma_hash_decoding_ok(kind: HashKind, text: Seq<u8>)
    ensures
        hash_decoding(kind, text) is Ok <==> is_hex_text(text) && text.len() == 2
            * kind.byte_len(),
        hash_decoding(kind, text) is Ok ==> hash_decoding(kind, text)->Ok_0.len()
            == kind.byte_len(),
{
}

} // verus!
