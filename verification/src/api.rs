//! Entity identifiers and the requests that the editor sends to the Wikidata
//! and MediaWiki services.

use vstd::prelude::*;

use crate::text::{lemma_last_match, matches_at, rsplit_once, rsplit_once_spec};
use crate::text::{is_digit, lemma_decimal_digits};
use crate::wikidata::{qid_text, WikidataQ};

verus! {

/// The text `/entity/` that precedes an identifier in an entity URI.
pub open spec fn entity_marker() -> Seq<char> {
    seq!['/', 'e', 'n', 't', 'i', 't', 'y', '/']
}

/// The entity URI of the identifier `id`.
pub open spec fn entity_uri(id: Seq<char>) -> Seq<char> {
    "http://www.wikidata.org"@ + entity_marker() + id
}

/// The identifier that an entity URI ends with, after its last `/entity/`,
/// or the message that says that it holds none.
pub open spec fn entity_id_from_uri_spec(uri: Seq<char>) -> Result<Seq<char>, Seq<char>> {
    match rsplit_once_spec(uri, entity_marker()) {
        Some((_, id)) => Ok(id),
        None => Err("no /entity/ in URI: "@ + uri),
    }
}

/// The identifier of a Wikidata entity, such as `Q1860` or `P2587`.
#[derive(Debug)]
pub struct EntityId(pub String);

impl EntityId {
    /// The identifier's text.
    pub fn as_str(&self) -> (r: &str)
        ensures
            r@ == self.0@,
    {
        self.0.as_str()
    }

    /// The identifier's text, taken out of the identifier.
    pub fn into_inner(self) -> (r: String)
        ensures
            r@ == self.0@,
    {
        self.0
    }

    /// The identifier with the given text.
    pub fn from(s: &str) -> (r: Self)
        ensures
            r.0@ == s@,
    {
        EntityId(s.to_owned())
    }

    /// The displayed text: the entity URI of the identifier.
    pub fn uri(&self) -> (r: String)
        ensures
            r@ == entity_uri(self.0@),
    {
        let mut out = String::from_str("http://www.wikidata.org");
        proof {
            reveal_strlit("/entity/");
        }
        out.append("/entity/");
        out.append(self.0.as_str());
        out
    }

    /// Reads the identifier at the end of an entity URI, after its last `/entity/`.
    pub fn from_uri(uri: &str) -> (r: Result<EntityId, String>)
        ensures
            match r {
                Ok(id) => entity_id_from_uri_spec(uri@) == Ok::<Seq<char>, Seq<char>>(id.0@),
                Err(msg) => entity_id_from_uri_spec(uri@) == Err::<Seq<char>, Seq<char>>(msg@),
            },
    {
        proof {
            reveal_strlit("/entity/");
        }
        assert("/entity/"@ =~= entity_marker());
        match rsplit_once(uri, "/entity/") {
            Some((_, id)) => Ok(EntityId(id)),
            None => {
                let mut msg = String::from_str("no /entity/ in URI: ");
                msg.append(uri);
                Err(msg)
            },
        }
    }
}

/// No `/entity/` begins in `"/entity/" + id` after its first character: nothing
/// that follows the marker before `id` starts another marker.
pub open spec fn no_later_marker(id: Seq<char>) -> bool {
    forall|j: int| 0 < j ==> !matches_at(entity_marker() + id, entity_marker(), j)
}

/// An identifier without `/` starts no later marker.
pub proof fn lemma_no_slash_no_later_marker(id: Seq<char>)
    requires
        forall|i: int| 0 <= i < id.len() ==> id[i] != '/',
    ensures
        no_later_marker(id),
{
    let e = entity_marker();
    let v = e + id;
    assert forall|j: int| 0 < j implies !matches_at(v, e, j) by {
        if matches_at(v, e, j) {
            let w = v.subrange(j, j + 8);
            assert(w[0] == '/' && w[7] == '/');
            if j < 7 {
                assert(w[0] == e[j]);
            } else {
                let k = if j == 7 { j + 7 } else { j };
                assert(w[k - j] == v[k]);
                assert(v[k] == id[k - 8]);
            }
        }
    }
}

/// The last `/entity/` of `prefix + "/entity/" + id` is the one after `prefix`
/// exactly when no later marker begins in `"/entity/" + id`.
proof fn lemma_last_entity_marker(prefix: Seq<char>, id: Seq<char>)
    ensures
        no_later_marker(id) ==> crate::text::last_match(prefix + entity_marker() + id, entity_marker())
            == prefix.len(),
        !no_later_marker(id) ==> crate::text::last_match(prefix + entity_marker() + id, entity_marker())
            > prefix.len(),
{
    let e = entity_marker();
    let v = prefix + e + id;
    let t = e + id;
    let i0 = prefix.len() as int;
    assert(v =~= prefix + t);
    assert(v.subrange(i0, i0 + 8) =~= e);
    assert(matches_at(v, e, i0));
    assert forall|j: int| i0 < j implies matches_at(v, e, j) == matches_at(t, e, j - i0) by {
        if j + 8 <= v.len() {
            assert(v.subrange(j, j + 8) =~= t.subrange(j - i0, j - i0 + 8));
        }
    }
    lemma_last_match(v, e);
    if !no_later_marker(id) {
        let j = choose|j: int| 0 < j && matches_at(t, e, j);
        assert(matches_at(v, e, j + i0));
    }
}

/// Law: an identifier written after any prefix and `/entity/` is read back exactly
/// when no later `/entity/` begins after that marker.
pub proof fn lemma_entity_id_round_trip(prefix: Seq<char>, id: Seq<char>)
    ensures
        entity_id_from_uri_spec(prefix + entity_marker() + id) == Ok::<Seq<char>, Seq<char>>(id)
            <==> no_later_marker(id),
{
    let v = prefix + entity_marker() + id;
    lemma_last_entity_marker(prefix, id);
    lemma_last_match(v, entity_marker());
    if no_later_marker(id) {
        assert(v.skip(prefix.len() + 8int) =~= id);
    } else {
        let i = crate::text::last_match(v, entity_marker());
        assert(v.skip(i + 8).len() < id.len());
    }
}

/// Law: the entity URI that an identifier displays is read back as that identifier
/// exactly when no later `/entity/` begins after the URI's own marker.
pub proof fn lemma_entity_uri_round_trip(id: Seq<char>)
    ensures
        entity_id_from_uri_spec(entity_uri(id)) == Ok::<Seq<char>, Seq<char>>(id)
            <==> no_later_marker(id),
{
    lemma_entity_id_round_trip("http://www.wikidata.org"@, id);
}

/// Law: the entity URI of an item's `Q` identifier reads back as that identifier.
pub proof fn lemma_item_uri_round_trip(n: u32)
    ensures
        entity_id_from_uri_spec(entity_uri(qid_text(n))) == Ok::<Seq<char>, Seq<char>>(qid_text(n)),
{
    let id = qid_text(n);
    lemma_decimal_digits(n as nat);
    assert forall|i: int| 0 <= i < id.len() implies id[i] != '/' by {
        if i > 0 {
            assert(is_digit(crate::text::decimal(n as nat)[i - 1]));
        }
    }
    lemma_no_slash_no_later_marker(id);
    lemma_entity_uri_round_trip(id);
}

/// The base of the Wikibase REST API of Wikidata.
pub open spec fn wikidata_rest() -> Seq<char> {
    "https://www.wikidata.org/w/rest.php/wikibase/v0"@
}

/// The `Authorization` header value that presents `token`.
pub open spec fn bearer_spec(token: Seq<char>) -> Seq<char> {
    "Bearer "@ + token
}

/// The `Authorization` header value that presents an OAuth access token.
pub fn bearer(token: &str) -> (r: String)
    ensures
        r@ == bearer_spec(token@),
{
    let mut out = String::from_str("Bearer ");
    out.append(token);
    out
}

/// The address of the English label of an entity.
pub open spec fn english_label_url_spec(id: Seq<char>) -> Seq<char> {
    wikidata_rest() + "/entities/items/"@ + id + "/labels/en"@
}

/// The address from which the English label of an entity is read.
pub fn english_label_url(id: &EntityId) -> (r: String)
    ensures
        r@ == english_label_url_spec(id.0@),
{
    let mut out = String::from_str("https://www.wikidata.org/w/rest.php/wikibase/v0");
    out.append("/entities/items/");
    out.append(id.as_str());
    out.append("/labels/en");
    out
}

/// The address of the statements of an item.
pub open spec fn statements_url_spec(item: u32) -> Seq<char> {
    wikidata_rest() + "/entities/items/"@ + qid_text(item) + "/statements"@
}

/// The address to which a new statement about `item` is posted.
pub fn statements_url(item: &WikidataQ) -> (r: String)
    ensures
        r@ == statements_url_spec(item.0),
{
    let mut out = String::from_str("https://www.wikidata.org/w/rest.php/wikibase/v0");
    out.append("/entities/items/");
    let q = item.as_str();
    out.append(q.as_str());
    out.append("/statements");
    out
}

/// The address of the MediaWiki OAuth profile of the owner of an access token.
pub open spec fn profile_url_spec() -> Seq<char> {
    "https://www.mediawiki.org/w/rest.php"@ + "/oauth2/resource/profile"@
}

/// The address from which the username of an access token's owner is read.
pub fn profile_url() -> (r: String)
    ensures
        r@ == profile_url_spec(),
{
    let mut out = String::from_str("https://www.mediawiki.org/w/rest.php");
    out.append("/oauth2/resource/profile");
    out
}

/// The Wikidata property "has phoneme".
pub open spec fn has_phoneme_property() -> Seq<char> {
    "P2587"@
}

/// The edit summary that goes with each added phoneme.
pub open spec fn edit_comment() -> Seq<char> {
    "Testing out the API..."@
}

/// A request to state that a language has a phoneme.
pub struct AddPhoneme {
    pub language: WikidataQ,
    pub phoneme: WikidataQ,
}

/// The property of a statement.
pub struct Property {
    pub id: String,
}

/// The value of a statement.
pub enum Value {
    /// A value given by its content, here the identifier of an item.
    Value { content: String },
}

/// A statement: a property and its value.
pub struct Statement {
    pub property: Property,
    pub value: Value,
}

/// The body of the request that adds a statement to an item.
pub struct AddPhonemeBody {
    pub statement: Statement,
    pub comment: String,
    pub bot: bool,
}

impl AddPhonemeBody {
    /// The body that states "has phoneme" with the phoneme of `info` as its value.
    pub fn new(info: &AddPhoneme) -> (r: AddPhonemeBody)
        ensures
            r.statement.property.id@ == has_phoneme_property(),
            r.statement.value matches Value::Value { content } && content@ == qid_text(info.phoneme.0),
            r.comment@ == edit_comment(),
            !r.bot,
    {
        AddPhonemeBody {
            statement: Statement {
                property: Property { id: String::from_str("P2587") },
                value: Value::Value { content: info.phoneme.as_str() },
            },
            comment: String::from_str("Testing out the API..."),
            bot: false,
        }
    }
}

/// Law: the `Authorization` value is `Bearer ` followed by the whole token, for tokens
/// of any length.
pub proof fn lemma_bearer_presents_whole_token(token: Seq<char>)
    ensures
        bearer_spec(token).len() == token.len() + 7,
        bearer_spec(token).take(7) == seq!['B', 'e', 'a', 'r', 'e', 'r', ' '],
        bearer_spec(token).skip(7) == token,
{
    reveal_strlit("Bearer ");
    assert(bearer_spec(token).take(7) =~= seq!['B', 'e', 'a', 'r', 'e', 'r', ' ']);
    assert(bearer_spec(token).skip(7) =~= token);
}

/// Law: a new statement about any item is posted to that item's path under
/// `/entities/items/`, the same path under which its English label is read.
pub proof fn lemma_statements_url_is_items_path(n: u32)
    ensures
        statements_url_spec(n)
            == "https://www.wikidata.org/w/rest.php/wikibase/v0/entities/items/"@ + qid_text(n)
            + "/statements"@,
        statements_url_spec(n).take(63int + qid_text(n).len())
            == english_label_url_spec(qid_text(n)).take(63int + qid_text(n).len()),
{
    reveal_strlit("https://www.wikidata.org/w/rest.php/wikibase/v0/entities/items/");
    reveal_strlit("https://www.wikidata.org/w/rest.php/wikibase/v0");
    reveal_strlit("/entities/items/");
    reveal_strlit("/statements");
    reveal_strlit("/labels/en");
    let base = "https://www.wikidata.org/w/rest.php/wikibase/v0/entities/items/"@;
    assert(wikidata_rest() + "/entities/items/"@ =~= base);
    let k = 63int + qid_text(n).len();
    assert(statements_url_spec(n) =~= base + qid_text(n) + "/statements"@);
    assert(english_label_url_spec(qid_text(n)) =~= base + qid_text(n) + "/labels/en"@);
    assert(statements_url_spec(n).take(k) =~= base + qid_text(n));
    assert(english_label_url_spec(qid_text(n)).take(k) =~= base + qid_text(n));
}

} // verus!
