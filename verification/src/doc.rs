//! Document handles and text handles.
//!
//! A [`DocHandle`] wraps exclusive access to one live document: all field
//! and text operations go through `&mut self`, so at most one mutation or
//! read transaction executes against the document at a time from one
//! handle.  A [`TextHandle`] addresses one collaborative text object
//! inside a document; it stays valid until a conflicting structural
//! change replaces the field it was created from, and every operation on
//! it re-checks that validity before touching the engine.

use vstd::prelude::*;
use vstd::string::StrSliceExecFns;
use vstd::string::StringExecFns;

use crate::engine::am_get;
use crate::engine::am_keys;
use crate::engine::am_new;
use crate::engine::am_obj_eq;
use crate::engine::am_put_string;
use crate::engine::am_put_text_obj;
use crate::engine::am_save;
use crate::engine::am_splice;
use crate::engine::am_text;
use crate::engine::save_bytes;
use crate::engine::doc_keys;
use crate::engine::doc_strings;
use crate::engine::doc_texts;
use crate::engine::is_live_text;
use crate::engine::obj_ident;
use crate::engine::spliced;
use crate::engine::text_content;
use crate::engine::text_obj_at;
use crate::engine::RootEntry;
use crate::errors::RepoError;
use crate::ident::canonical_document_id;
use crate::ident::did_parse;
use crate::ident::did_str;
use crate::ident::format_document_url;
use crate::ident::strip_scheme;
use crate::ident::url_of;

verus! {

/// A handle to one document: its identifier and its live state in the
/// engine.
pub struct DocHandle {
    doc: automerge::AutoCommit,
    id: samod_core::DocumentId,
}

/// A handle to one collaborative text object: the root field it was
/// created from and the identity of the object that sat there.
pub struct TextHandle {
    key: String,
    obj: automerge::ObjId,
}

impl TextHandle {
    /// The root field this handle addresses.
    pub closed spec fn key_spec(self) -> Seq<char> {
        self.key@
    }

    /// The identity of the text object this handle addresses.
    pub closed spec fn obj_spec(self) -> Seq<u8> {
        obj_ident(self.obj)
    }
}

impl DocHandle {
    /// The string fields at the document root.
    pub closed spec fn strings(self) -> Map<Seq<char>, Seq<char>> {
        doc_strings(self.doc)
    }

    /// The text fields at the document root, each with its current
    /// content.
    pub closed spec fn texts(self) -> Map<Seq<char>, Seq<char>> {
        doc_texts(self.doc)
    }

    /// Every field name at the document root.
    pub closed spec fn keys(self) -> Set<Seq<char>> {
        doc_keys(self.doc)
    }

    /// The document's identifier.
    pub closed spec fn id_spec(self) -> samod_core::DocumentId {
        self.id
    }

    /// The engine's binary encoding of this document, history included.
    pub closed spec fn dump_spec(self) -> Seq<u8> {
        save_bytes(self.doc)
    }

    /// `t` still addresses the live text object under its field: the
    /// field holds a text object and that object is the one the handle
    /// was created from.
    pub closed spec fn text_valid(self, t: TextHandle) -> bool {
        &&& self.texts().contains_key(t.key_spec())
        &&& text_obj_at(self.doc, t.key_spec()) == t.obj_spec()
    }

    /// Well-formed document state: the root keys are exactly the string
    /// fields and the text fields, and distinct text fields hold
    /// distinct objects.  Holds for every document this layer builds,
    /// which stores no other kind of value.
    pub closed spec fn wf(self) -> bool {
        &&& self.keys() == self.strings().dom() + self.texts().dom()
        &&& forall|k: Seq<char>|
            self.strings().contains_key(k) ==> !(#[trigger] self.texts().contains_key(k))
        &&& forall|k1: Seq<char>, k2: Seq<char>|
            k1 != k2 && self.texts().contains_key(k1) && self.texts().contains_key(k2)
                ==> #[trigger] text_obj_at(self.doc, k1) != #[trigger] text_obj_at(self.doc, k2)
    }

    /// A new, empty document under the given identifier.
    pub fn new(id: samod_core::DocumentId) -> (r: DocHandle)
        ensures
            r.wf(),
            r.strings() == (Map::<Seq<char>, Seq<char>>::empty()),
            r.texts() == (Map::<Seq<char>, Seq<char>>::empty()),
            r.keys() == Set::<Seq<char>>::empty(),
            r.id_spec() == id,
    {
        let d = DocHandle { doc: am_new(), id };
        proof {
            assert(d.keys() =~= d.strings().dom() + d.texts().dom());
        }
        d
    }

    /// The document's identifier in its canonical string form.
    pub fn document_id(&self) -> (r: String)
        ensures
            r@ == did_str(self.id_spec()),
            did_parse(r@) == Some(self.id_spec()),
    {
        canonical_document_id(&self.id)
    }

    /// The document's URL: the scheme prefix followed by the canonical
    /// identifier string.  Passing the URL back through the lookup
    /// grammar resolves to the same identifier.
    pub fn url(&self) -> (r: String)
        ensures
            r@ == url_of(did_str(self.id_spec())),
            did_parse(strip_scheme(r@)) == Some(self.id_spec()),
    {
        format_document_url(&self.id)
    }

    /// Writes `value` as a plain string under `key`, replacing whatever
    /// the key held.  A text handle on `key` is invalidated; handles on
    /// other fields stay valid.  The in-memory engine cannot refuse this
    /// commit, so the result is always `Ok`; the `Result` keeps the
    /// operation's failure surface for engines that can.
    pub fn set_string(&mut self, key: &str, value: &str) -> (r: Result<(), RepoError>)
        requires
            old(self).wf(),
        ensures
            final(self).wf(),
            r is Ok,
            final(self).strings() == old(self).strings().insert(key@, value@),
            final(self).texts() == old(self).texts().remove(key@),
            final(self).keys() == old(self).keys().insert(key@),
            final(self).id_spec() == old(self).id_spec(),
            forall|t: TextHandle|
                old(self).text_valid(t) && t.key_spec() != key@ ==> final(self).text_valid(t),
            forall|t: TextHandle| t.key_spec() == key@ ==> !(#[trigger] final(self).text_valid(t)),
    {
        am_put_string(&mut self.doc, key, value);
        proof {
            assert(self.keys() =~= self.strings().dom() + self.texts().dom());
        }
        Ok(())
    }

    /// The string under `key`, or nothing when the key is absent or
    /// holds anything other than a plain string.
    pub fn get_string(&self, key: &str) -> (r: Option<String>)
        ensures
            (r is Some <==> self.strings().contains_key(key@)),
            (r matches Some(s) ==> s@ == self.strings()[key@]),
    {
        match am_get(&self.doc, key) {
            RootEntry::Str(s) => Some(s),
            _ => None,
        }
    }

    /// Every field name at the document root, each exactly once, in the
    /// engine's own enumeration order.
    pub fn get_keys(&self) -> (r: Vec<String>)
        ensures
            forall|i: int| 0 <= i < r@.len() ==> self.keys().contains(#[trigger] r@[i]@),
            forall|k: Seq<char>|
                self.keys().contains(k) ==> exists|i: int|
                    0 <= i < r@.len() && #[trigger] r@[i]@ == k,
            forall|i: int, j: int| 0 <= i < j < r@.len() ==> r@[i]@ != r@[j]@,
    {
        am_keys(&self.doc)
    }

    /// Creates a fresh text object under `key` with the given initial
    /// content, replacing whatever the key held, and hands back a handle
    /// to it.  Handles for other fields stay valid; an earlier handle on
    /// `key` is invalidated, since the object under the field is a new
    /// one.  As with [`Self::set_string`], the in-memory engine cannot
    /// refuse this commit, so the result is always `Ok`.
    pub fn put_text(&mut self, key: &str, initial: &str) -> (r: Result<TextHandle, RepoError>)
        requires
            old(self).wf(),
        ensures
            final(self).wf(),
            r is Ok,
            (r matches Ok(t) ==> t.key_spec() == key@ && final(self).text_valid(t)),
            final(self).texts() == old(self).texts().insert(key@, initial@),
            final(self).strings() == old(self).strings().remove(key@),
            final(self).keys() == old(self).keys().insert(key@),
            final(self).id_spec() == old(self).id_spec(),
            forall|t2: TextHandle|
                old(self).text_valid(t2) && t2.key_spec() != key@ ==> final(self).text_valid(t2),
            forall|t2: TextHandle|
                old(self).text_valid(t2) && t2.key_spec() == key@ ==> !(
                #[trigger] final(self).text_valid(t2)),
    {
        let o = am_put_text_obj(&mut self.doc, key);
        let ghost mid = self.doc;
        proof {
            assert(doc_texts(mid).contains_key(key@) && text_obj_at(mid, key@) == obj_ident(o));
            assert(is_live_text(mid, o));
        }
        am_splice(&mut self.doc, &o, 0, 0, initial);
        proof {
            assert(text_content(self.doc, obj_ident(o)) =~= initial@);
            assert(self.texts() =~= old(self).texts().insert(key@, initial@));
            assert(self.keys() =~= self.strings().dom() + self.texts().dom());
        }
        Ok(TextHandle { key: String::from_str(key), obj: o })
    }

    /// A handle to the text object under `key`, or nothing when the key
    /// is absent or holds anything other than a text object.
    pub fn get_text(&self, key: &str) -> (r: Option<TextHandle>)
        ensures
            (r is Some <==> self.texts().contains_key(key@)),
            (r matches Some(t) ==> t.key_spec() == key@ && self.text_valid(t)),
    {
        match am_get(&self.doc, key) {
            RootEntry::Text(o) => Some(TextHandle { key: String::from_str(key), obj: o }),
            _ => None,
        }
    }

    /// The complete document, edit history included, in its compact
    /// binary form: exactly the engine's encoding of the current state,
    /// never empty.  The document itself is unchanged, its encoding too,
    /// so two dumps with no mutation in between return the same bytes.
    pub fn dump(&mut self) -> (r: Vec<u8>)
        requires
            old(self).wf(),
        ensures
            final(self).wf(),
            r@ == old(self).dump_spec(),
            final(self).dump_spec() == old(self).dump_spec(),
            r@.len() > 0,
            final(self).strings() == old(self).strings(),
            final(self).texts() == old(self).texts(),
            final(self).keys() == old(self).keys(),
            final(self).id_spec() == old(self).id_spec(),
            forall|t: TextHandle| old(self).text_valid(t) ==> final(self).text_valid(t),
    {
        am_save(&mut self.doc)
    }
}

impl TextHandle {
    /// Whether this handle still addresses the live text object under
    /// its field.
    fn check_valid(&self, doc: &DocHandle) -> (r: bool)
        ensures
            r == doc.text_valid(*self),
            r ==> is_live_text(doc.doc, self.obj),
            r ==> text_content(doc.doc, self.obj_spec()) == doc.texts()[self.key_spec()],
    {
        match am_get(&doc.doc, self.key.as_str()) {
            RootEntry::Text(o) => am_obj_eq(&o, &self.obj),
            _ => false,
        }
    }

    /// The full current content of the addressed text object, or
    /// `DocumentOperationFailure` when the handle is no longer valid.
    pub fn get(&self, doc: &DocHandle) -> (r: Result<String, RepoError>)
        ensures
            (r is Ok <==> doc.text_valid(*self)),
            (r matches Ok(s) ==> s@ == doc.texts()[self.key_spec()]),
            (r matches Err(e) ==> e == RepoError::DocumentOperationFailure),
    {
        if !self.check_valid(doc) {
            return Err(RepoError::DocumentOperationFailure);
        }
        Ok(am_text(&doc.doc, &self.obj))
    }

    /// The number of characters (Unicode scalar values) currently in the
    /// text, or `DocumentOperationFailure` when the handle is no longer
    /// valid.
    pub fn length(&self, doc: &DocHandle) -> (r: Result<usize, RepoError>)
        ensures
            (r is Ok <==> doc.text_valid(*self)),
            (r matches Ok(n) ==> n == doc.texts()[self.key_spec()].len()),
            (r matches Err(e) ==> e == RepoError::DocumentOperationFailure),
    {
        if !self.check_valid(doc) {
            return Err(RepoError::DocumentOperationFailure);
        }
        let s = am_text(&doc.doc, &self.obj);
        Ok(s.as_str().unicode_len())
    }

    /// The universal edit primitive: removes `del` characters at `pos`
    /// and inserts `text` in their place.  All offsets count characters.
    /// Fails with `DocumentOperationFailure`, leaving the document
    /// unchanged, when the handle is no longer valid, when `del` is
    /// negative, or when `pos + del` runs past the end of the text.
    pub fn splice(&self, doc: &mut DocHandle, pos: usize, del: isize, text: &str) -> (r: Result<
        (),
        RepoError,
    >)
        requires
            old(doc).wf(),
        ensures
            final(doc).wf(),
            (r is Ok <==> old(doc).text_valid(*self) && 0 <= del && pos + del <= old(
                doc,
            ).texts()[self.key_spec()].len()),
            (r is Ok ==> final(doc).texts() == old(doc).texts().insert(
                self.key_spec(),
                spliced(old(doc).texts()[self.key_spec()], pos as int, del as int, text@),
            )),
            (r is Ok ==> final(doc).texts()[self.key_spec()].len() == old(
                doc,
            ).texts()[self.key_spec()].len() - del + text@.len()),
            (r is Err ==> *final(doc) == *old(doc)),
            (r matches Err(e) ==> e == RepoError::DocumentOperationFailure),
            final(doc).strings() == old(doc).strings(),
            final(doc).keys() == old(doc).keys(),
            final(doc).id_spec() == old(doc).id_spec(),
            forall|t2: TextHandle| old(doc).text_valid(t2) ==> final(doc).text_valid(t2),
    {
        if del < 0 {
            return Err(RepoError::DocumentOperationFailure);
        }
        self.splice_checked(doc, pos, del as usize, text)
    }

    /// Inserts `text` at `pos` without deleting anything.
    pub fn insert(&self, doc: &mut DocHandle, pos: usize, text: &str) -> (r: Result<
        (),
        RepoError,
    >)
        requires
            old(doc).wf(),
        ensures
            final(doc).wf(),
            (r is Ok <==> old(doc).text_valid(*self) && pos <= old(
                doc,
            ).texts()[self.key_spec()].len()),
            (r is Ok ==> final(doc).texts() == old(doc).texts().insert(
                self.key_spec(),
                spliced(old(doc).texts()[self.key_spec()], pos as int, 0, text@),
            )),
            (r is Err ==> *final(doc) == *old(doc)),
            (r matches Err(e) ==> e == RepoError::DocumentOperationFailure),
            final(doc).strings() == old(doc).strings(),
            final(doc).keys() == old(doc).keys(),
            final(doc).id_spec() == old(doc).id_spec(),
            forall|t2: TextHandle| old(doc).text_valid(t2) ==> final(doc).text_valid(t2),
    {
        self.splice_checked(doc, pos, 0, text)
    }

    /// Removes `count` characters starting at `pos`.
    pub fn delete(&self, doc: &mut DocHandle, pos: usize, count: usize) -> (r: Result<
        (),
        RepoError,
    >)
        requires
            old(doc).wf(),
        ensures
            final(doc).wf(),
            (r is Ok <==> old(doc).text_valid(*self) && pos + count <= old(
                doc,
            ).texts()[self.key_spec()].len()),
            (r is Ok ==> final(doc).texts() == old(doc).texts().insert(
                self.key_spec(),
                spliced(
                    old(doc).texts()[self.key_spec()],
                    pos as int,
                    count as int,
                    Seq::empty(),
                ),
            )),
            (r is Err ==> *final(doc) == *old(doc)),
            (r matches Err(e) ==> e == RepoError::DocumentOperationFailure),
            final(doc).strings() == old(doc).strings(),
            final(doc).keys() == old(doc).keys(),
            final(doc).id_spec() == old(doc).id_spec(),
            forall|t2: TextHandle| old(doc).text_valid(t2) ==> final(doc).text_valid(t2),
    {
        proof {
            reveal_strlit("");
            assert(""@ =~= Seq::<char>::empty());
        }
        self.splice_checked(doc, pos, count, "")
    }

    /// Appends `text` at the end of the current content.  The length is
    /// re-read under the same exclusive borrow as the splice, so no
    /// concurrent local mutation can slip in between.
    pub fn append(&self, doc: &mut DocHandle, text: &str) -> (r: Result<(), RepoError>)
        requires
            old(doc).wf(),
        ensures
            final(doc).wf(),
            (r is Ok <==> old(doc).text_valid(*self)),
            (r is Ok ==> final(doc).texts() == old(doc).texts().insert(
                self.key_spec(),
                old(doc).texts()[self.key_spec()] + text@,
            )),
            (r is Err ==> *final(doc) == *old(doc)),
            (r matches Err(e) ==> e == RepoError::DocumentOperationFailure),
            final(doc).strings() == old(doc).strings(),
            final(doc).keys() == old(doc).keys(),
            final(doc).id_spec() == old(doc).id_spec(),
            forall|t2: TextHandle| old(doc).text_valid(t2) ==> final(doc).text_valid(t2),
    {
        if !self.check_valid(doc) {
            return Err(RepoError::DocumentOperationFailure);
        }
        let s = am_text(&doc.doc, &self.obj);
        let n = s.as_str().unicode_len();
        let r = self.splice_checked(doc, n, 0, text);
        proof {
            let c = old(doc).texts()[self.key_spec()];
            assert(spliced(c, c.len() as int, 0, text@) =~= c + text@);
        }
        r
    }

    /// The common body of every edit: re-validates the handle, checks
    /// the character range, and performs the splice.
    fn splice_checked(&self, doc: &mut DocHandle, pos: usize, del: usize, text: &str) -> (r: Result<
        (),
        RepoError,
    >)
        requires
            old(doc).wf(),
        ensures
            final(doc).wf(),
            (r is Ok <==> old(doc).text_valid(*self) && pos + del <= old(
                doc,
            ).texts()[self.key_spec()].len()),
            (r is Ok ==> final(doc).texts() == old(doc).texts().insert(
                self.key_spec(),
                spliced(old(doc).texts()[self.key_spec()], pos as int, del as int, text@),
            )),
            (r is Ok ==> final(doc).texts()[self.key_spec()].len() == old(
                doc,
            ).texts()[self.key_spec()].len() - del + text@.len()),
            (r is Err ==> *final(doc) == *old(doc)),
            (r matches Err(e) ==> e == RepoError::DocumentOperationFailure),
            final(doc).strings() == old(doc).strings(),
            final(doc).keys() == old(doc).keys(),
            final(doc).id_spec() == old(doc).id_spec(),
            forall|t2: TextHandle| old(doc).text_valid(t2) ==> final(doc).text_valid(t2),
    {
        if !self.check_valid(doc) {
            return Err(RepoError::DocumentOperationFailure);
        }
        let s = am_text(&doc.doc, &self.obj);
        let n = s.as_str().unicode_len();
        if pos > n {
            return Err(RepoError::DocumentOperationFailure);
        }
        if del > n - pos {
            return Err(RepoError::DocumentOperationFailure);
        }
        am_splice(&mut doc.doc, &self.obj, pos, del, text);
        proof {
            let k = self.key_spec();
            let c = old(doc).texts()[k];
            assert forall|k2: Seq<char>| old(doc).texts().contains_key(k2)
                && k2 != k implies #[trigger] doc.texts()[k2] == old(doc).texts()[k2] by {
                assert(text_obj_at(old(doc).doc, k2) != obj_ident(self.obj));
            }
            assert(doc.texts() =~= old(doc).texts().insert(
                k,
                spliced(c, pos as int, del as int, text@),
            ));
            assert(doc.keys() =~= doc.strings().dom() + doc.texts().dom()) by {
                assert(doc.texts().dom() =~= old(doc).texts().dom());
            }
        }
        Ok(())
    }
}

/// Law: a valid text handle addresses an existing text field — validity
/// of a handle implies that its field is one of the document's text
/// fields, so removing or replacing that field invalidates the handle.
pub proof fn lemma_text_valid_field(d: DocHandle, t: TextHandle)
    requires
        d.text_valid(t),
    ensures
        d.texts().contains_key(t.key_spec()),
{
}

/// Law: after `set_string(k, v)` succeeds, `get_string(k)` returns `v` —
/// the updated string map holds exactly `v` under `k`, for every string.
pub proof fn lemma_string_round_trip(pre: DocHandle, post: DocHandle, k: Seq<char>, v: Seq<char>)
    requires
        post.strings() == pre.strings().insert(k, v),
    ensures
        post.strings().contains_key(k),
        post.strings()[k] == v,
{
}

/// Law: `get_string(k)` returns nothing when `k` holds a text object or
/// was never set — in a well-formed document no such key is a string
/// field, and `get_string` answers exactly for the string fields.
pub proof fn lemma_string_type_mismatch(d: DocHandle, k: Seq<char>)
    requires
        d.wf(),
        d.texts().contains_key(k) || !d.keys().contains(k),
    ensures
        !d.strings().contains_key(k),
{
    if d.texts().contains_key(k) {
        assert(!d.strings().contains_key(k));
    } else {
        assert(d.keys() == d.strings().dom() + d.texts().dom());
        if d.strings().contains_key(k) {
            assert(d.keys().contains(k));
        }
    }
}

/// Law: a splice that deletes nothing inserts its text exactly at the
/// given character index, leaving every other character in place.
pub proof fn lemma_splice_inserts(t: Seq<char>, pos: int, s: Seq<char>)
    requires
        0 <= pos <= t.len(),
    ensures
        spliced(t, pos, 0, s).len() == t.len() + s.len(),
        forall|i: int| 0 <= i < pos ==> #[trigger] spliced(t, pos, 0, s)[i] == t[i],
        forall|i: int| 0 <= i < s.len() ==> #[trigger] spliced(t, pos, 0, s)[pos + i] == s[i],
        forall|i: int|
            pos <= i < t.len() ==> #[trigger] spliced(t, pos, 0, s)[i + s.len()] == t[i],
{
}

/// Law: a splice that inserts nothing removes exactly the `n` characters
/// starting at the given index, leaving every other character in place.
pub proof fn lemma_splice_deletes(t: Seq<char>, pos: int, n: int)
    requires
        0 <= pos,
        0 <= n,
        pos + n <= t.len(),
    ensures
        spliced(t, pos, n, Seq::empty()).len() == t.len() - n,
        forall|i: int| 0 <= i < pos ==> #[trigger] spliced(t, pos, n, Seq::empty())[i] == t[i],
        forall|i: int|
            pos <= i < t.len() - n ==> #[trigger] spliced(t, pos, n, Seq::empty())[i] == t[i + n],
{
}

/// Law: writes under two different keys do not interfere — after both,
/// each key holds the value written to it, whatever the order of the
/// interleaving that put them there.
pub proof fn lemma_distinct_writes_isolated(
    m: Map<Seq<char>, Seq<char>>,
    k1: Seq<char>,
    v1: Seq<char>,
    k2: Seq<char>,
    v2: Seq<char>,
)
    requires
        k1 != k2,
    ensures
        m.insert(k1, v1).insert(k2, v2).contains_key(k1),
        m.insert(k1, v1).insert(k2, v2).contains_key(k2),
        m.insert(k1, v1).insert(k2, v2)[k1] == v1,
        m.insert(k1, v1).insert(k2, v2)[k2] == v2,
{
}

} // verus!
