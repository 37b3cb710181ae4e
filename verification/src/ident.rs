//! Document identifiers and the document-URL string scheme.
//!
//! The engine owns the identifier grammar: an identifier prints as a
//! canonical string and parses back from it.  The only format this layer
//! defines itself is the document URL: the fixed lowercase scheme prefix
//! `automerge:` followed by the identifier's canonical string, with lookup
//! accepting either the bare identifier or the prefixed form.

use vstd::prelude::*;
use vstd::string::StrSliceExecFns;
use vstd::string::StringExecFns;

use crate::errors::RepoError;

verus! {

/// What the engine's identifier grammar makes of a string: the identifier
/// it denotes, or nothing when the string is not well-formed.
pub uninterp spec fn did_parse(s: Seq<char>) -> Option<samod_core::DocumentId>;

/// The canonical string form of an identifier.
pub uninterp spec fn did_str(d: samod_core::DocumentId) -> Seq<char>;

#[verifier::external_type_specification]
#[verifier::external_body]
pub struct ExDocumentId(samod_core::DocumentId);

/// The URL form of an identifier string.
pub open spec fn url_of(id: Seq<char>) -> Seq<char> {
    "automerge:"@ + id
}

/// A lookup string with a leading scheme prefix reduced to the bare
/// identifier string; any other string left as it is.
pub open spec fn strip_scheme(s: Seq<char>) -> Seq<char> {
    if s.len() >= 10 && s.subrange(0, 10) == "automerge:"@ {
        s.subrange(10, s.len() as int)
    } else {
        s
    }
}

/// Relies on the engine's identifier parser (`str::parse`), whose result
/// depends on the characters alone.
#[verifier::external_body]
fn parse_doc_id(s: &str) -> (r: Option<samod_core::DocumentId>)
    ensures
        r == did_parse(s@),
{
    s.parse::<samod_core::DocumentId>().ok()
}

/// Relies on the engine's identifier printer (`Display`), whose result
/// depends on the identifier alone, and on its parser reading back what
/// the printer wrote.
#[verifier::external_body]
pub(crate) fn doc_id_string(d: &samod_core::DocumentId) -> (r: String)
    ensures
        r@ == did_str(*d),
        did_parse(r@) == Some(*d),
{
    format!("{}", d)
}

/// Stripping the scheme prefix undoes prefixing: the identifier round
/// trip through the URL form loses nothing.
pub proof fn lemma_strip_scheme_of_url(id: Seq<char>)
    ensures
        strip_scheme(url_of(id)) == id,
{
    reveal_strlit("automerge:");
    let u = url_of(id);
    assert(u.subrange(0, 10) =~= "automerge:"@);
    assert(u.subrange(10, u.len() as int) =~= id);
}

/// The canonical string form of an identifier; parsing it back yields
/// the same identifier.
pub fn canonical_document_id(d: &samod_core::DocumentId) -> (r: String)
    ensures
        r@ == did_str(*d),
        did_parse(r@) == Some(*d),
{
    doc_id_string(d)
}

/// The URL form of an identifier: the scheme prefix followed by the
/// canonical identifier string.  Passing the URL back through the
/// lookup grammar resolves to the same identifier.
pub fn format_document_url(d: &samod_core::DocumentId) -> (r: String)
    ensures
        r@ == url_of(did_str(*d)),
        did_parse(strip_scheme(r@)) == Some(*d),
{
    let id_str = doc_id_string(d);
    let r = String::from_str("automerge:").concat(id_str.as_str());
    proof {
        lemma_strip_scheme_of_url(did_str(*d));
    }
    r
}

/// The bare identifier string of a lookup target: the string with a
/// leading `automerge:` scheme prefix removed, if one is there.
pub fn strip_scheme_prefix(s: &str) -> (r: &str)
    ensures
        r@ == strip_scheme(s@),
{
    let n = s.unicode_len();
    proof {
        reveal_strlit("automerge:");
    }
    if n < 10 {
        return s;
    }
    let p = "automerge:";
    let mut i: usize = 0;
    while i < 10
        invariant
            0 <= i <= 10,
            n == s@.len(),
            n >= 10,
            p@ == "automerge:"@,
            p@.len() == 10,
            forall|j: int| 0 <= j < i ==> s@[j] == p@[j],
        decreases 10 - i,
    {
        if s.get_char(i) != p.get_char(i) {
            proof {
                assert(s@.subrange(0, 10) != "automerge:"@) by {
                    assert(s@.subrange(0, 10)[i as int] != "automerge:"@[i as int]);
                }
            }
            return s;
        }
        i += 1;
    }
    proof {
        assert(s@.subrange(0, 10) =~= "automerge:"@);
    }
    let r = s.substring_char(10, n);
    proof {
        assert(r@ =~= strip_scheme(s@));
    }
    r
}

/// The identifier a lookup string denotes: the string, with the scheme
/// prefix stripped if one is there, read by the engine's identifier
/// grammar.  Returns `InvalidDocumentId` exactly when that grammar
/// rejects the stripped string.
pub fn parse_document_url(s: &str) -> (r: Result<samod_core::DocumentId, RepoError>)
    ensures
        (r is Ok <==> did_parse(strip_scheme(s@)) is Some),
        (r matches Ok(d) ==> Some(d) == did_parse(strip_scheme(s@))),
        (r matches Err(e) ==> e == RepoError::InvalidDocumentId),
{
    let bare = strip_scheme_prefix(s);
    match parse_doc_id(bare) {
        Some(d) => Ok(d),
        None => Err(RepoError::InvalidDocumentId),
    }
}

} // verus!
