//! Wikidata items named by their Q-number, and the values of the Wikidata query service.

use vstd::prelude::*;

use crate::text::{
    decimal, lemma_decimal_digits, lemma_last_match, lemma_parse_decimal, matches_at, parse_u32,
    parse_u32_spec, push_decimal, rsplit_once, rsplit_once_spec, int_error_message, is_digit,
    IntErrorKind,
};

verus! {

/// A Wikidata item, named by the number of its `Q` identifier.
pub struct WikidataQ(pub u32);

/// The text `Q<number>` that names the item with number `n`.
pub open spec fn qid_text(n: u32) -> Seq<char> {
    seq!['Q'] + decimal(n as nat)
}

impl WikidataQ {
    /// The identifier of the item, such as `Q1860`.
    pub fn as_str(&self) -> (r: String)
        ensures
            r@ == qid_text(self.0),
    {
        let mut out = String::from_str("Q");
        proof {
            reveal_strlit("Q");
        }
        push_decimal(&mut out, self.0);
        out
    }

    /// Reads the item named at the end of an entity URI, after its last `/entity/Q`.
    pub fn from_uri(uri: Uri) -> (r: Result<WikidataQ, QidError>)
        ensures
            match r {
                Ok(q) => qid_from_uri_spec(uri.value@) == Ok::<u32, QidError>(q.0),
                Err(e) => qid_from_uri_spec(uri.value@) == Err::<u32, QidError>(e),
            },
    {
        proof {
            reveal_strlit("/entity/Q");
        }
        assert("/entity/Q"@ =~= entity_q_marker());
        match rsplit_once(uri.value.as_str(), "/entity/Q") {
            None => Err(QidError::NoEntityQ),
            Some((_, id)) => match parse_u32(id.as_str()) {
                Ok(n) => Ok(WikidataQ(n)),
                Err(kind) => Err(QidError::Parse(kind)),
            },
        }
    }
}

/// The text `/entity/Q` that precedes the number of an item in its entity URI.
pub open spec fn entity_q_marker() -> Seq<char> {
    seq!['/', 'e', 'n', 't', 'i', 't', 'y', '/', 'Q']
}

/// The item that an entity URI names, or why it names none.
pub open spec fn qid_from_uri_spec(value: Seq<char>) -> Result<u32, QidError> {
    match rsplit_once_spec(value, entity_q_marker()) {
        None => Err(QidError::NoEntityQ),
        Some((_, id)) => match parse_u32_spec(id) {
            Ok(n) => Ok(n),
            Err(kind) => Err(QidError::Parse(kind)),
        },
    }
}

/// Why an entity URI names no item.
#[derive(Debug, Clone, Copy, PartialEq, Eq, Structural)]
pub enum QidError {
    /// The URI holds no `/entity/Q`.
    NoEntityQ,
    /// What follows the last `/entity/Q` is not the number of an item.
    Parse(IntErrorKind),
}

impl QidError {
    /// The message that describes the error.
    pub fn message(&self) -> (r: String)
        ensures
            r@ == qid_error_message(*self),
    {
        match self {
            QidError::NoEntityQ => String::from_str("No /entity/Q found in URI."),
            QidError::Parse(kind) => kind.message(),
        }
    }
}

/// The message of each error.
pub open spec fn qid_error_message(e: QidError) -> Seq<char> {
    match e {
        QidError::NoEntityQ => "No /entity/Q found in URI."@,
        QidError::Parse(kind) => int_error_message(kind),
    }
}

/// Law: the entity URI of an item, after any prefix, names that item again.
pub proof fn lemma_qid_uri_round_trip(prefix: Seq<char>, q: u32)
    ensures
        qid_from_uri_spec(prefix + seq!['/', 'e', 'n', 't', 'i', 't', 'y', '/'] + qid_text(q))
            == Ok::<u32, QidError>(q),
{
    let d = decimal(q as nat);
    let e = seq!['/', 'e', 'n', 't', 'i', 't', 'y', '/'];
    let v = prefix + e + qid_text(q);
    let pat = entity_q_marker();
    let i0 = prefix.len() as int;
    lemma_decimal_digits(q as nat);
    assert(v.len() == i0 + 9 + d.len());
    assert forall|k: int| 0 <= k < 9 implies v[i0 + k] == pat[k] by {}
    assert(v.subrange(i0, i0 + 9) =~= pat);
    assert(matches_at(v, pat, i0));
    assert forall|j: int| i0 < j implies !matches_at(v, pat, j) by {
        if matches_at(v, pat, j) {
            assert(v.subrange(j, j + 9)[0] == v[j]);
            assert(v[j] == '/');
            if j < i0 + 7 {
                assert(v[j] == e[j - i0]);
            } else if j == i0 + 7 {
                assert(v.subrange(j, j + 9)[1] == v[j + 1]);
                assert(v[j + 1] == 'Q');
            } else {
                assert(v[j] == d[j - i0 - 9]);
                assert(is_digit(d[j - i0 - 9]));
            }
        }
    }
    lemma_last_match(v, pat);
    assert(v.skip(i0 + 9) =~= d);
    lemma_parse_decimal(q);
}

/// A value of the Wikidata query service whose text is a URI.
pub struct Uri {
    pub kind: String,
    pub value: String,
}

impl Uri {
    /// The displayed text: the URI itself.
    pub fn display(&self) -> (r: String)
        ensures
            r@ == self.value@,
    {
        self.value.clone()
    }
}

/// A typed value of the Wikidata query service.
pub struct WikiValue<T> {
    pub kind: String,
    pub value: T,
}

impl WikiValue<String> {
    /// The displayed text: the value itself.
    pub fn display(&self) -> (r: String)
        ensures
            r@ == self.value@,
    {
        self.value.clone()
    }
}

/// Law: an item's identifier is `Q` followed by the canonical decimal notation of its
/// number: digits only, no sign, no leading zero, reading back as the number.
pub proof fn lemma_qid_text_canonical(n: u32)
    ensures
        qid_text(n)[0] == 'Q',
        qid_text(n).len() >= 2,
        forall|i: int| 1 <= i < qid_text(n).len() ==> is_digit(#[trigger] qid_text(n)[i]),
        qid_text(n).len() > 2 ==> qid_text(n)[1] != '0',
        parse_u32_spec(qid_text(n).skip(1)) == Ok::<u32, IntErrorKind>(n),
{
    let d = decimal(n as nat);
    lemma_decimal_digits(n as nat);
    crate::text::lemma_decimal_no_leading_zero(n as nat);
    assert(qid_text(n).skip(1) =~= d);
    assert forall|i: int| 1 <= i < qid_text(n).len() implies is_digit(#[trigger] qid_text(n)[i]) by {
        assert(qid_text(n)[i] == d[i - 1]);
    }
    lemma_parse_decimal(n);
}

} // verus!
