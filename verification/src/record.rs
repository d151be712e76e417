//! The framing of structured text: records with one labelled field, and
//! quoted strings. The text is canonical: it holds no byte that the value
//! does not call for.

use vstd::prelude::*;
use vstd::slice::slice_subrange;

verus! {

/// The text of a record whose one field `label` holds `body`:
/// `{"label":body}`.
pub open spec fn record_text(label: Seq<u8>, body: Seq<u8>) -> Seq<u8> {
    seq![0x7b_u8, 0x22_u8] + label + seq![0x22_u8, 0x3a_u8] + body + seq![0x7d_u8]
}

/// The text of a string that holds `body`: `"body"`.
pub open spec fn quoted_text(body: Seq<u8>) -> Seq<u8> {
    seq![0x22_u8] + body + seq![0x22_u8]
}

/// The body of `text` read as a record of `label`, if it is one.
pub open spec fn record_body_of(label: Seq<u8>, text: Seq<u8>) -> Option<Seq<u8>> {
    let body = text.subrange(label.len() as int + 4, text.len() - 1);
    if text.len() >= label.len() + 5 && text == record_text(label, body) {
        Some(body)
    } else {
        None
    }
}

/// The body of `text` read as a quoted string, if it is one.
pub open spec fn quoted_body_of(text: Seq<u8>) -> Option<Seq<u8>> {
    let body = text.subrange(1, text.len() - 1);
    if text.len() >= 2 && text == quoted_text(body) {
        Some(body)
    } else {
        None
    }
}

/// Whether `word` stands in `text` from `at` on.
fn stands_at(text: &[u8], at: usize, word: &[u8]) -> (r: bool)
    requires
        at + word@.len() <= text@.len(),
    ensures
        r == (text@.subrange(at as int, at + word@.len()) == word@),
{
    let n = text.len();
    let mut i: usize = 0;
    while i < word.len()
        invariant
            i <= word@.len(),
            n == text@.len(),
            at + word@.len() <= text@.len(),
            forall|j: int| 0 <= j < i ==> text@[at + j] == word@[j],
        decreases word@.len() - i,
    {
        if text[at + i] != word[i] {
            return false;
        }
        i += 1;
    }
    assert(text@.subrange(at as int, at + word@.len()) =~= word@);
    true
}

/// Takes the frame of a record of `label` off `text`.
pub fn record_body<'a>(text: &'a [u8], label: &[u8]) -> (r: Option<&'a [u8]>)
    ensures
        match r {
            Some(body) => record_body_of(label@, text@) == Some(body@),
            None => record_body_of(label@, text@) is None,
        },
{
    let n = text.len();
    let l = label.len();
    if n < 5 || n - 5 < l {
        return None;
    }
    if text[0] != 0x7b || text[1] != 0x22 || text[2 + l] != 0x22 || text[3 + l] != 0x3a || text[n
        - 1] != 0x7d {
        return None;
    }
    if !stands_at(text, 2, label) {
        assert(record_text(label@, text@.subrange(l + 4, n - 1)).subrange(2, 2 + l) =~= label@);
        return None;
    }
    let body = slice_subrange(text, 4 + l, n - 1);
    assert(text@ =~= record_text(label@, body@));
    Some(body)
}

/// Takes the quotes off `text`.
pub fn quoted_body<'a>(text: &'a [u8]) -> (r: Option<&'a [u8]>)
    ensures
        match r {
            Some(body) => quoted_body_of(text@) == Some(body@),
            None => quoted_body_of(text@) is None,
        },
{
    let n = text.len();
    if n < 2 {
        return None;
    }
    if text[0] != 0x22 || text[n - 1] != 0x22 {
        return None;
    }
    let body = slice_subrange(text, 1, n - 1);
    assert(text@ =~= quoted_text(body@));
    Some(body)
}

/// A record is read back as the body it was written with, and only the
/// text of a record is read as one.
pub proof fn lemma_record_round_trip(label: Seq<u8>, body: Seq<u8>)
    ensures
        record_body_of(label, record_text(label, body)) == Some(body),
{
    let text = record_text(label, body);
    assert(text.subrange(label.len() as int + 4, text.len() - 1) =~= body);
}

/// A quoted string is read back as the body it was written with.
pub proof fn lemma_quoted_round_trip(body: Seq<u8>)
    ensures
        quoted_body_of(quoted_text(body)) == Some(body),
{
    let text = quoted_text(body);
    assert(text.subrange(1, text.len() - 1) =~= body);
}

} // verus!
