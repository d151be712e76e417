//! The proof that a point of the ledger's history is final: the signatures
//! of those who agreed on it.
//!
//! It is written as a record that holds a list of signatures,
//! `{"signatures":[{"signature":"<digits>"},{"signature":"<digits>"}]}`,
//! with a comma between two signatures and nothing else between them. The
//! list may be empty: `{"signatures":[]}`.

use vstd::prelude::*;
use vstd::slice::slice_subrange;
use crate::error::CliError;
use vstd::string::StringExecFns;
use crate::hex_text::{hex_text, is_ascii_text, is_hex_digit, lemma_ascii_text_bytes,
    lemma_hex_round_trip, text_bytes};
use crate::record::{record_body, record_body_of, record_text, lemma_record_round_trip};
use crate::value::{decode_signature_bytes, lemma_labels, lemma_proof_round_trip,
    signature_decoding, signature_label, signature_text, Signature};

verus! {

/// The signatures that make a point of the history final.
#[derive(Clone, Debug, PartialEq, Eq)]
pub struct FinalizationProof {
    pub signatures: Vec<Signature>,
}

impl View for FinalizationProof {
    type V = Seq<Seq<u8>>;

    open spec fn view(&self) -> Seq<Seq<u8>> {
        signature_views(self.signatures@)
    }
}

/// The bytes of each signature of `signatures`.
pub open spec fn signature_views(signatures: Seq<Signature>) -> Seq<Seq<u8>> {
    Seq::new(signatures.len(), |i: int| signatures[i]@)
}

/// The label of the field of a finalization proof.
pub open spec fn signatures_label() -> Seq<u8> {
    text_bytes("signatures"@)
}

/// The items one after another, with a comma between two.
pub open spec fn joined_text(items: Seq<Seq<u8>>) -> Seq<u8>
    decreases items.len(),
{
    if items.len() == 0 {
        Seq::empty()
    } else if items.len() == 1 {
        items[0]
    } else {
        items[0] + seq![0x2c_u8] + joined_text(items.drop_first())
    }
}

/// The text of a list of `items`: `[item,item]`.
pub open spec fn list_text(items: Seq<Seq<u8>>) -> Seq<u8> {
    seq![0x5b_u8] + joined_text(items) + seq![0x5d_u8]
}

/// The text of the finalization proof whose signatures are written as
/// `digits`, one hexadecimal text for each.
pub open spec fn finalization_proof_text(digits: Seq<Seq<u8>>) -> Seq<u8> {
    record_text(
        signatures_label(),
        list_text(Seq::new(digits.len(), |i: int| signature_text(digits[i]))),
    )
}

/// Whether `text` holds no comma before `end`.
pub open spec fn comma_free(text: Seq<u8>, end: int) -> bool {
    forall|i: int| 0 <= i < end ==> #[trigger] text[i] != 0x2c
}

/// Where the first item of `text` ends: at its first comma, or at its end
/// if it holds none.
pub open spec fn first_item_len(text: Seq<u8>) -> int {
    choose|k: int|
        0 <= k <= text.len() && comma_free(text, k) && (k < text.len() ==> text[k] == 0x2c)
}

/// The signatures that `text` denotes as one or more signatures with a comma
/// between two, if every item is a signature.
#[verifier::opaque]
pub open spec fn signatures_decoding(text: Seq<u8>) -> Option<Seq<Seq<u8>>>
    decreases text.len(),
{
    let k = first_item_len(text);
    if 0 <= k <= text.len() {
        match signature_decoding(text.subrange(0, k)) {
            None => None,
            Some(first) => if k == text.len() {
                Some(seq![first])
            } else {
                match signatures_decoding(text.subrange(k + 1, text.len() as int)) {
                    Some(rest) => Some(seq![first] + rest),
                    None => None,
                }
            },
        }
    } else {
        None
    }
}

/// The signatures that `text` denotes as a list, if it is one.
pub open spec fn list_decoding(text: Seq<u8>) -> Option<Seq<Seq<u8>>> {
    if text.len() >= 2 && text[0] == 0x5b && text.last() == 0x5d {
        if text.len() == 2 {
            Some(Seq::empty())
        } else {
            signatures_decoding(text.subrange(1, text.len() - 1))
        }
    } else {
        None
    }
}

/// The signatures of the finalization proof that `text` denotes, if it
/// denotes one.
pub open spec fn finalization_proof_decoding(text: Seq<u8>) -> Option<Seq<Seq<u8>>> {
    match record_body_of(signatures_label(), text) {
        Some(list) => list_decoding(list),
        None => None,
    }
}

/// The first item of a text ends where its first comma stands.
pub proof fn lemma_first_item_len(text: Seq<u8>, k: int)
    requires
        0 <= k <= text.len(),
        comma_free(text, k),
        k < text.len() ==> text[k] == 0x2c,
    ensures
        first_item_len(text) == k,
{
}

/// `acc` followed by what `rest` holds, if it holds anything.
pub open spec fn followed_by(acc: Seq<Seq<u8>>, rest: Option<Seq<Seq<u8>>>) -> Option<
    Seq<Seq<u8>>,
> {
    match rest {
        Some(more) => Some(acc + more),
        None => None,
    }
}

/// How the reading of a text goes on from its first item, which ends at
/// `k`.
pub proof fn lemma_signatures_decoding_step(text: Seq<u8>, k: int)
    requires
        0 <= k <= text.len(),
        comma_free(text, k),
        k < text.len() ==> text[k] == 0x2c,
    ensures
        signatures_decoding(text) == match signature_decoding(text.subrange(0, k)) {
            None => None,
            Some(first) => if k == text.len() {
                Some(seq![first])
            } else {
                followed_by(
                    seq![first],
                    signatures_decoding(text.subrange(k + 1, text.len() as int)),
                )
            },
        },
{
    reveal(signatures_decoding);
    lemma_first_item_len(text, k);
}

/// What is read after `acc` and one more signature is what is read after
/// `acc` with that signature at its end.
proof fn lemma_followed_by_push(acc: Seq<Seq<u8>>, one: Seq<u8>, rest: Option<Seq<Seq<u8>>>)
    ensures
        followed_by(acc, followed_by(seq![one], rest)) == followed_by(acc.push(one), rest),
        followed_by(acc, Some(seq![one])) == Some(acc.push(one)),
{
}

/// Reads one or more signatures with a comma between two.
fn decode_signatures(text: &[u8]) -> (r: Option<Vec<Signature>>)
    ensures
        match r {
            Some(signatures) => signatures_decoding(text@) == Some(signature_views(signatures@)),
            None => signatures_decoding(text@) is None,
        },
{
    let n = text.len();
    let mut out: Vec<Signature> = Vec::new();
    let mut start: usize = 0;
    assert(text@.subrange(0, n as int) =~= text@);
    loop
        invariant
            n == text@.len(),
            start <= n,
            signatures_decoding(text@) == followed_by(
                signature_views(out@),
                signatures_decoding(text@.subrange(start as int, n as int)),
            ),
        decreases n - start,
    {
        let ghost rest = text@.subrange(start as int, n as int);
        let ghost before = signature_views(out@);
        let end = item_end(text, start);
        let item = slice_subrange(text, start, end);
        proof {
            assert(item@ =~= rest.subrange(0, end - start));
            if end < n {
                assert(rest.subrange(end - start + 1, rest.len() as int) =~= text@.subrange(
                    end + 1,
                    n as int,
                ));
            }
            lemma_signatures_decoding_step(rest, end - start);
        }
        match decode_signature_bytes(item) {
            None => {
                return None;
            },
            Some(signature) => {
                out.push(signature);
                proof {
                    lemma_followed_by_push(
                        before,
                        signature@,
                        signatures_decoding(text@.subrange(end + 1, n as int)),
                    );
                }
                if end == n {
                    return Some(out);
                }
                start = end + 1;
            },
        }
    }
}

/// Where the item that starts at `start` ends: at the next comma, or at the
/// end of `text`.
fn item_end(text: &[u8], start: usize) -> (end: usize)
    requires
        start <= text@.len(),
    ensures
        start <= end <= text@.len(),
        comma_free(text@.subrange(start as int, text@.len() as int), end - start),
        end < text@.len() ==> text@[end as int] == 0x2c,
{
    let n = text.len();
    let mut end: usize = start;
    while end < n && text[end] != 0x2c
        invariant
            n == text@.len(),
            start <= end <= n,
            forall|i: int| start <= i < end ==> text@[i] != 0x2c,
        decreases n - end,
    {
        end += 1;
    }
    end
}

impl FinalizationProof {
    /// Reads the text of a finalization proof. The result is a whole proof
    /// or nothing.
    pub fn decode(text: &str) -> (r: Option<FinalizationProof>)
        ensures
            match r {
                Some(proof) => finalization_proof_decoding(text_bytes(text@)) == Some(proof@),
                None => finalization_proof_decoding(text_bytes(text@)) is None,
            },
    {
        match record_body(text.as_bytes(), "signatures".as_bytes()) {
            None => None,
            Some(list) => {
                let n = list.len();
                if n < 2 || list[0] != 0x5b || list[n - 1] != 0x5d {
                    return None;
                }
                if n == 2 {
                    let signatures: Vec<Signature> = Vec::new();
                    return Some(FinalizationProof { signatures });
                }
                match decode_signatures(slice_subrange(list, 1, n - 1)) {
                    Some(signatures) => Some(FinalizationProof { signatures }),
                    None => None,
                }
            },
        }
    }
}

/// One more item at the end of a list stands in its text after a comma.
proof fn lemma_joined_push(items: Seq<Seq<u8>>, item: Seq<u8>)
    requires
        items.len() > 0,
    ensures
        joined_text(items.push(item)) == joined_text(items) + seq![0x2c_u8] + item,
    decreases items.len(),
{
    let longer = items.push(item);
    if items.len() == 1 {
        assert(longer.drop_first() =~= seq![item]);
        assert(joined_text(longer.drop_first()) == item);
    } else {
        lemma_joined_push(items.drop_first(), item);
        assert(longer.drop_first() =~= items.drop_first().push(item));
        assert(joined_text(longer) =~= joined_text(items) + seq![0x2c_u8] + item);
    }
}

/// The opening and the closing of the text of a finalization proof are what
/// the record and the list put around the signatures.
proof fn lemma_list_frame(joined: Seq<u8>)
    ensures
        is_ascii_text("{\"signatures\":["@),
        is_ascii_text("]}"@),
        is_ascii_text(","@),
        text_bytes(","@) == seq![0x2c_u8],
        text_bytes("{\"signatures\":["@) + joined + text_bytes("]}"@) == record_text(
            signatures_label(),
            seq![0x5b_u8] + joined + seq![0x5d_u8],
        ),
{
    reveal_strlit("signatures");
    reveal_strlit("{\"signatures\":[");
    reveal_strlit("]}");
    reveal_strlit(",");
    let empty = Seq::<char>::empty();
    lemma_ascii_text_bytes("signatures"@, empty);
    lemma_ascii_text_bytes("{\"signatures\":["@, empty);
    lemma_ascii_text_bytes("]}"@, empty);
    lemma_ascii_text_bytes(","@, empty);
    assert(text_bytes(","@) =~= seq![0x2c_u8]);
    assert(text_bytes("{\"signatures\":["@) + joined + text_bytes("]}"@) =~= record_text(
        signatures_label(),
        seq![0x5b_u8] + joined + seq![0x5d_u8],
    ));
}

impl FinalizationProof {
    /// Writes the proof as text, which `decode` reads back as this proof.
    pub fn to_text(&self) -> (r: String)
        ensures
            text_bytes(r@) == finalization_proof_text(
                Seq::new(self@.len(), |i: int| hex_text(self@[i])),
            ),
            finalization_proof_decoding(text_bytes(r@)) == Some(self@),
    {
        let n = self.signatures.len();
        let mut r = "{\"signatures\":[".to_owned();
        let mut i: usize = 0;
        proof {
            lemma_list_frame(Seq::empty());
            assert(self@.take(0) =~= Seq::<Seq<u8>>::empty());
            assert(text_bytes(r@) + Seq::<u8>::empty() =~= text_bytes(r@));
        }
        while i < n
            invariant
                i <= n,
                n == self.signatures@.len(),
                is_ascii_text(r@),
                text_bytes(r@) == text_bytes("{\"signatures\":["@) + joined_text(
                    signature_texts(self@.take(i as int)),
                ),
            decreases n - i,
        {
            let ghost opening = text_bytes("{\"signatures\":["@);
            let ghost before = signature_texts(self@.take(i as int));
            let item = self.signatures[i].to_text();
            proof {
                lemma_list_frame(Seq::empty());
                assert(self@.take(i + 1) =~= self@.take(i as int).push(self@[i as int]));
                assert(signature_texts(self@.take(i + 1)) =~= before.push(text_bytes(item@)));
            }
            if i > 0 {
                proof {
                    lemma_ascii_text_bytes(r@, ","@);
                    lemma_ascii_text_bytes(r@ + ","@, item@);
                    lemma_joined_push(before, text_bytes(item@));
                    assert(opening + joined_text(before) + seq![0x2c_u8] + text_bytes(item@)
                        =~= opening + (joined_text(before) + seq![0x2c_u8] + text_bytes(item@)));
                }
                r = r.concat(",");
            } else {
                proof {
                    lemma_ascii_text_bytes(r@, item@);
                    assert(before =~= Seq::<Seq<u8>>::empty());
                    assert(before.push(text_bytes(item@)) =~= seq![text_bytes(item@)]);
                    assert(opening + Seq::<u8>::empty() =~= opening);
                }
            }
            r = r.concat(item.as_str());
            i += 1;
        }
        let out = r.concat("]}");
        proof {
            let digits = Seq::new(self@.len(), |i: int| hex_text(self@[i]));
            let items = Seq::new(digits.len(), |i: int| signature_text(digits[i]));
            let joined = joined_text(items);
            assert(self@.take(n as int) =~= self@);
            assert(items =~= signature_texts(self@));
            lemma_list_frame(joined);
            lemma_ascii_text_bytes(r@, "]}"@);
            assert(text_bytes(out@) == finalization_proof_text(digits));
            lemma_finalization_proof_round_trip(self@);
        }
        out
    }
}

/// The items of `text`: what stands before its first comma, between two
/// of its commas, and after its last one.
pub open spec fn items_of(text: Seq<u8>) -> Seq<Seq<u8>>
    decreases text.len(),
{
    let k = first_item_len(text);
    if 0 <= k < text.len() {
        seq![text.subrange(0, k)] + items_of(text.subrange(k + 1, text.len() as int))
    } else {
        seq![text]
    }
}

/// Every text has a first item.
proof fn lemma_first_item_exists(text: Seq<u8>, from: int)
    requires
        0 <= from <= text.len(),
        comma_free(text, from),
    ensures
        0 <= first_item_len(text) <= text.len(),
        comma_free(text, first_item_len(text)),
        first_item_len(text) < text.len() ==> text[first_item_len(text)] == 0x2c,
    decreases text.len() - from,
{
    if from == text.len() || text[from] == 0x2c {
        lemma_first_item_len(text, from);
    } else {
        lemma_first_item_exists(text, from + 1);
    }
}

/// A text is its items with a comma between two. It is read as signatures
/// exactly when each of its items is the text of a signature, and what is
/// read then is the signature of each item, in their order.
pub proof fn lemma_signatures_are_items(text: Seq<u8>)
    ensures
        joined_text(items_of(text)) == text,
        items_of(text).len() > 0,
        match signatures_decoding(text) {
            Some(signatures) => signatures.len() == items_of(text).len() && forall|i: int|
                0 <= i < signatures.len() ==> signature_decoding(#[trigger] items_of(text)[i])
                    == Some(signatures[i]),
            None => exists|i: int|
                0 <= i < items_of(text).len() && signature_decoding(
                    #[trigger] items_of(text)[i],
                ) is None,
        },
    decreases text.len(),
{
    lemma_first_item_exists(text, 0);
    let k = first_item_len(text);
    lemma_signatures_decoding_step(text, k);
    let head = text.subrange(0, k);
    if k == text.len() {
        assert(head =~= text);
    } else {
        let tail = text.subrange(k + 1, text.len() as int);
        lemma_signatures_are_items(tail);
        let items = items_of(text);
        let rest = items_of(tail);
        assert(items.drop_first() =~= rest);
        assert forall|i: int| 1 <= i < items.len() implies #[trigger] items[i] == rest[i - 1] by {}
    }
}

/// The text of each signature of `bytes`, its bytes written in lower case.
pub open spec fn signature_texts(bytes: Seq<Seq<u8>>) -> Seq<Seq<u8>> {
    Seq::new(bytes.len(), |i: int| signature_text(hex_text(bytes[i])))
}

/// The text of a signature holds no comma.
proof fn lemma_signature_text_comma_free(bytes: Seq<u8>)
    ensures
        comma_free(signature_text(hex_text(bytes)), signature_text(hex_text(bytes)).len() as int),
        signature_text(hex_text(bytes)).len() > 0,
{
    lemma_labels();
    lemma_hex_round_trip(bytes);
}

/// One or more signatures written with a comma between two are read back
/// as they were written.
proof fn lemma_joined_round_trip(bytes: Seq<Seq<u8>>)
    requires
        bytes.len() > 0,
    ensures
        signatures_decoding(joined_text(signature_texts(bytes))) == Some(bytes),
    decreases bytes.len(),
{
    let items = signature_texts(bytes);
    let text = joined_text(items);
    let first = items[0];
    lemma_signature_text_comma_free(bytes[0]);
    lemma_proof_round_trip(bytes[0]);
    if bytes.len() == 1 {
        lemma_signatures_decoding_step(text, text.len() as int);
        assert(text.subrange(0, text.len() as int) =~= first);
    } else {
        let tail = joined_text(items.drop_first());
        assert forall|i: int| 0 <= i < first.len() implies #[trigger] text[i] != 0x2c by {}
        lemma_signatures_decoding_step(text, first.len() as int);
        assert(text.subrange(0, first.len() as int) =~= first);
        assert(text.subrange(first.len() as int + 1, text.len() as int) =~= tail);
        assert(items.drop_first() =~= signature_texts(bytes.drop_first()));
        lemma_joined_round_trip(bytes.drop_first());
    }
}

/// The text of a finalization proof is read back as the signatures it was
/// written from, whatever their number.
pub proof fn lemma_finalization_proof_round_trip(bytes: Seq<Seq<u8>>)
    ensures
        finalization_proof_decoding(
            finalization_proof_text(Seq::new(bytes.len(), |i: int| hex_text(bytes[i]))),
        ) == Some(bytes),
{
    let digits = Seq::new(bytes.len(), |i: int| hex_text(bytes[i]));
    let items = Seq::new(digits.len(), |i: int| signature_text(digits[i]));
    assert(items =~= signature_texts(bytes));
    let list = list_text(items);
    lemma_record_round_trip(signatures_label(), list);
    if bytes.len() > 0 {
        lemma_joined_round_trip(bytes);
        lemma_signature_text_comma_free(bytes[0]);
        lemma_joined_nonempty(items);
        assert(list.subrange(1, list.len() - 1) =~= joined_text(items));
    }
}

/// Items that are not empty make a text that is not empty.
proof fn lemma_joined_nonempty(items: Seq<Seq<u8>>)
    requires
        items.len() > 0,
        items[0].len() > 0,
    ensures
        joined_text(items).len() > 0,
{
}

/// What the text of a finalization proof gives.
pub open spec fn sync_proof_decoding(text: Seq<u8>) -> Result<Seq<Seq<u8>>, CliError> {
    match finalization_proof_decoding(text) {
        Some(signatures) => Ok(signatures),
        None => Err(CliError::InvalidFinalizationProof),
    }
}

/// Reads the finalization proof that a synchronization starts from.
pub fn decode_finalization_proof(text: &str) -> (r: Result<FinalizationProof, CliError>)
    ensures
        match r {
            Ok(proof) => sync_proof_decoding(text_bytes(text@)) == Ok::<Seq<Seq<u8>>, CliError>(
                proof@,
            ),
            Err(e) => sync_proof_decoding(text_bytes(text@)) == Err::<Seq<Seq<u8>>, CliError>(e),
        },
{
    match FinalizationProof::decode(text) {
        Some(proof) => Ok(proof),
        None => Err(CliError::InvalidFinalizationProof),
    }
}

} // verus!
