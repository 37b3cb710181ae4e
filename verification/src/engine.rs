//! Trusted boundary to the document engine.
//!
//! The engine stores one document as a map from root field names to values.
//! This layer only ever stores two kinds of value: plain scalar strings and
//! collaborative text objects.  The model of a document is therefore three
//! names: the map of string fields, the map of text fields (each to its
//! current character content), and the set of all root keys (which may hold
//! values of other kinds when a document was produced elsewhere).
//!
//! Text objects are addressed by an object id.  The engine resolves an
//! object id, both in its equality and in every document operation, through
//! the id's counter and actor alone, so an abstract identifier
//! [`obj_ident`] determined by those two stands for the object's identity.

use vstd::prelude::*;

use automerge::transaction::Transactable;
use automerge::ReadDoc;

verus! {

/// The string fields of the document root: each key whose value is a plain
/// scalar string, mapped to that string's characters.
pub uninterp spec fn doc_strings(d: automerge::AutoCommit) -> Map<Seq<char>, Seq<char>>;

/// The text fields of the document root: each key whose value is a
/// collaborative text object, mapped to the object's current character
/// content.
pub uninterp spec fn doc_texts(d: automerge::AutoCommit) -> Map<Seq<char>, Seq<char>>;

/// Every field name present at the document root, of whatever kind.
pub uninterp spec fn doc_keys(d: automerge::AutoCommit) -> Set<Seq<char>>;

/// The identity of the text object stored under a key of `doc_texts`.
pub uninterp spec fn text_obj_at(d: automerge::AutoCommit, key: Seq<char>) -> Seq<u8>;

/// The current character content of the text object with the given
/// identity.
pub uninterp spec fn text_content(d: automerge::AutoCommit, obj: Seq<u8>) -> Seq<char>;

/// The identity of an object id: determined by the id's counter and actor.
/// Two object ids with equal identity denote the same engine object.
pub uninterp spec fn obj_ident(o: automerge::ObjId) -> Seq<u8>;

/// The engine's binary encoding of the whole document, edit history
/// included: a function of the document value alone.
pub uninterp spec fn save_bytes(d: automerge::AutoCommit) -> Seq<u8>;

#[verifier::external_type_specification]
#[verifier::external_body]
pub struct ExAutoCommit(automerge::AutoCommit);

#[verifier::external_type_specification]
#[verifier::external_body]
pub struct ExObjId(automerge::ObjId);

/// The id `obj` currently addresses a live text object of `d`: some root
/// key holds a text object with that identity.
pub open spec fn is_live_text(d: automerge::AutoCommit, obj: automerge::ObjId) -> bool {
    exists|k: Seq<char>|
        doc_texts(d).contains_key(k) && #[trigger] text_obj_at(d, k) == obj_ident(obj)
}

/// The characters of `t` with `del` characters removed at `pos` and `ins`
/// put in their place.
pub open spec fn spliced(t: Seq<char>, pos: int, del: int, ins: Seq<char>) -> Seq<char> {
    t.subrange(0, pos) + ins + t.subrange(pos + del, t.len() as int)
}

/// What the engine reports for one root field.
pub(crate) enum RootEntry {
    /// The key holds a plain scalar string.
    Str(String),
    /// The key holds a collaborative text object.
    Text(automerge::ObjId),
    /// The key holds a value of some other kind.
    Other,
    /// The key is absent.
    Absent,
}

/// Relies on `AutoCommit::new`: a freshly created document has no fields.
#[verifier::external_body]
pub(crate) fn am_new() -> (d: automerge::AutoCommit)
    ensures
        doc_strings(d) == (Map::<Seq<char>, Seq<char>>::empty()),
        doc_texts(d) == (Map::<Seq<char>, Seq<char>>::empty()),
        doc_keys(d) == Set::<Seq<char>>::empty(),
{
    automerge::AutoCommit::new()
}

/// Relies on `Transactable::put` on the root map, which cannot fail there:
/// stores `value` as a plain scalar string under `key`, replacing whatever
/// the key held, and touches no other field and no text object's content.
#[verifier::external_body]
pub(crate) fn am_put_string(d: &mut automerge::AutoCommit, key: &str, value: &str)
    ensures
        doc_strings(*final(d)) == doc_strings(*old(d)).insert(key@, value@),
        doc_texts(*final(d)) == doc_texts(*old(d)).remove(key@),
        doc_keys(*final(d)) == doc_keys(*old(d)).insert(key@),
        forall|k: Seq<char>|
            k != key@ ==> #[trigger] text_obj_at(*final(d), k) == text_obj_at(*old(d), k),
        forall|o: Seq<u8>| #[trigger] text_content(*final(d), o) == text_content(*old(d), o),
{
    d.put(automerge::ROOT, key, value).unwrap();
}

/// Relies on `ReadDoc::get` on the root map, which cannot fail there, and
/// on the engine's value classification: a scalar string, a text object, a
/// value of another kind, or nothing.
#[verifier::external_body]
pub(crate) fn am_get(d: &automerge::AutoCommit, key: &str) -> (r: RootEntry)
    ensures
        (r is Str) <==> doc_strings(*d).contains_key(key@),
        (r matches RootEntry::Str(s) ==> s@ == doc_strings(*d)[key@]),
        (r is Text) <==> doc_texts(*d).contains_key(key@),
        (r matches RootEntry::Text(o) ==> obj_ident(o) == text_obj_at(*d, key@)
            && text_content(*d, obj_ident(o)) == doc_texts(*d)[key@]),
        (r is Absent) <==> !doc_keys(*d).contains(key@),
{
    match d.get(automerge::ROOT, key).unwrap() {
        Some((automerge::Value::Scalar(s), _)) => match s.as_ref() {
            automerge::ScalarValue::Str(t) => RootEntry::Str(t.to_string()),
            _ => RootEntry::Other,
        },
        Some((automerge::Value::Object(automerge::ObjType::Text), o)) => RootEntry::Text(o),
        Some(_) => RootEntry::Other,
        None => RootEntry::Absent,
    }
}

/// Relies on `PartialEq` for object ids, which compares exactly the
/// counter and actor that make up an id's identity.
#[verifier::external_body]
pub(crate) fn am_obj_eq(a: &automerge::ObjId, b: &automerge::ObjId) -> (r: bool)
    ensures
        r == (obj_ident(*a) == obj_ident(*b)),
{
    a == b
}

/// Relies on `Transactable::put_object` on the root map, which cannot fail
/// there: creates a fresh, empty text object under `key`, replacing
/// whatever the key held.  The returned id carries a fresh op counter, so
/// it differs from the id of every text object the document already had —
/// the one previously under `key` included.
#[verifier::external_body]
pub(crate) fn am_put_text_obj(d: &mut automerge::AutoCommit, key: &str) -> (o: automerge::ObjId)
    ensures
        doc_texts(*final(d)) == doc_texts(*old(d)).insert(key@, Seq::<char>::empty()),
        doc_strings(*final(d)) == doc_strings(*old(d)).remove(key@),
        doc_keys(*final(d)) == doc_keys(*old(d)).insert(key@),
        text_obj_at(*final(d), key@) == obj_ident(o),
        text_content(*final(d), obj_ident(o)) == Seq::<char>::empty(),
        forall|k: Seq<char>|
            k != key@ ==> #[trigger] text_obj_at(*final(d), k) == text_obj_at(*old(d), k),
        forall|k: Seq<char>|
            doc_texts(*old(d)).contains_key(k) ==> #[trigger] text_obj_at(*old(d), k)
                != obj_ident(o),
        forall|o2: Seq<u8>|
            o2 != obj_ident(o) ==> #[trigger] text_content(*final(d), o2) == text_content(
                *old(d),
                o2,
            ),
{
    d.put_object(automerge::ROOT, key, automerge::ObjType::Text).unwrap()
}

/// Relies on `Transactable::splice_text`: on a live text object, with
/// `pos + del` within its character length, the splice succeeds, removes
/// the `del` characters at `pos`, puts the characters of `text` in their
/// place, and touches nothing else.  Positions count Unicode code points,
/// the engine's default text encoding.
#[verifier::external_body]
pub(crate) fn am_splice(
    d: &mut automerge::AutoCommit,
    obj: &automerge::ObjId,
    pos: usize,
    del: usize,
    text: &str,
)
    requires
        is_live_text(*old(d), *obj),
        pos + del <= text_content(*old(d), obj_ident(*obj)).len(),
    ensures
        text_content(*final(d), obj_ident(*obj)) == spliced(
            text_content(*old(d), obj_ident(*obj)),
            pos as int,
            del as int,
            text@,
        ),
        forall|o2: Seq<u8>|
            o2 != obj_ident(*obj) ==> #[trigger] text_content(*final(d), o2) == text_content(
                *old(d),
                o2,
            ),
        doc_strings(*final(d)) == doc_strings(*old(d)),
        doc_keys(*final(d)) == doc_keys(*old(d)),
        doc_texts(*final(d)).dom() == doc_texts(*old(d)).dom(),
        forall|k: Seq<char>| #[trigger] text_obj_at(*final(d), k) == text_obj_at(*old(d), k),
        forall|k: Seq<char>|
            doc_texts(*old(d)).contains_key(k) ==> #[trigger] doc_texts(*final(d))[k] == (
            if text_obj_at(*old(d), k) == obj_ident(*obj) {
                spliced(text_content(*old(d), obj_ident(*obj)), pos as int, del as int, text@)
            } else {
                doc_texts(*old(d))[k]
            }),
{
    d.splice_text(obj, pos, del as isize, text).unwrap();
}

/// Relies on `ReadDoc::text`, which succeeds on a live text object and
/// returns its current character content.
#[verifier::external_body]
pub(crate) fn am_text(d: &automerge::AutoCommit, obj: &automerge::ObjId) -> (r: String)
    requires
        is_live_text(*d, *obj),
    ensures
        r@ == text_content(*d, obj_ident(*obj)),
{
    d.text(obj).unwrap()
}

/// Relies on `ReadDoc::keys` on the root map: yields each root field name
/// exactly once.
#[verifier::external_body]
pub(crate) fn am_keys(d: &automerge::AutoCommit) -> (r: Vec<String>)
    ensures
        forall|i: int| 0 <= i < r@.len() ==> doc_keys(*d).contains(#[trigger] r@[i]@),
        forall|k: Seq<char>|
            doc_keys(*d).contains(k) ==> exists|i: int| 0 <= i < r@.len() && #[trigger] r@[i]@ == k,
        forall|i: int, j: int| 0 <= i < j < r@.len() ==> r@[i]@ != r@[j]@,
{
    let mut v = Vec::new();
    for k in d.keys(automerge::ROOT) {
        v.push(k);
    }
    v
}

/// Relies on `AutoCommit::save`: encodes the whole document, magic header
/// first, so the result is never empty; the encoding is a function of the
/// document value alone, and saving changes no field, no text object and
/// not the encoding itself, so a repeated save returns the same bytes.
#[verifier::external_body]
pub(crate) fn am_save(d: &mut automerge::AutoCommit) -> (r: Vec<u8>)
    ensures
        r@ == save_bytes(*old(d)),
        save_bytes(*final(d)) == save_bytes(*old(d)),
        r@.len() > 0,
        doc_strings(*final(d)) == doc_strings(*old(d)),
        doc_texts(*final(d)) == doc_texts(*old(d)),
        doc_keys(*final(d)) == doc_keys(*old(d)),
        forall|k: Seq<char>| #[trigger] text_obj_at(*final(d), k) == text_obj_at(*old(d), k),
        forall|o: Seq<u8>| #[trigger] text_content(*final(d), o) == text_content(*old(d), o),
{
    d.save()
}

} // verus!
