//! The shapes a call exchanges with the transport: an outbound request
//! as plain data, and an inbound response as status and body text.

use vstd::prelude::*;
use crate::json::JsonValue;

verus! {

/// The HTTP methods the operations use.
#[derive(Debug, Clone, Copy, PartialEq, Eq, Structural)]
pub enum HttpMethod {
    Get,
    Post,
    Patch,
    Delete,
}

/// An outbound request, fully determined before anything is sent: the
/// transport adds nothing but the wire framing.
#[derive(Debug, PartialEq, Eq)]
pub struct HttpRequest {
    pub method: HttpMethod,
    /// The resolved absolute URL, without the query string.
    pub url: String,
    /// Header names and values, in attachment order.
    pub headers: Vec<(String, String)>,
    /// Query keys and values, in attachment order.
    pub query: Vec<(String, String)>,
    /// The JSON body, when the operation sends one.
    pub body: Option<JsonValue>,
}

/// An inbound response: the status code, and the body text where one
/// could be read.
#[derive(Debug, PartialEq, Eq)]
pub struct HttpResponse {
    pub status: u16,
    pub body: Option<String>,
}

/// The value of the first header with a name, or `None` when no header
/// has it.
pub open spec fn spec_header_lookup(hs: Seq<(String, String)>, name: Seq<char>) -> Option<
    Seq<char>,
>
    decreases hs.len(),
{
    if hs.len() == 0 {
        None
    } else if hs[0].0@ == name {
        Some(hs[0].1@)
    } else {
        spec_header_lookup(hs.drop_first(), name)
    }
}

/// Pairs of built strings against the pairs of views they must spell.
pub open spec fn spec_pairs_match(ps: Seq<(String, String)>, es: Seq<(Seq<char>, Seq<char>)>) -> bool {
    &&& ps.len() == es.len()
    &&& forall|i: int| 0 <= i < ps.len() ==> ps[i].0@ == es[i].0 && ps[i].1@ == es[i].1
}

pub proof fn lemma_header_lookup_skip(hs: Seq<(String, String)>, name: Seq<char>, i: int)
    requires
        0 <= i <= hs.len(),
        forall|j: int| 0 <= j < i ==> hs[j].0@ != name,
    ensures
        spec_header_lookup(hs, name) == spec_header_lookup(hs.subrange(i, hs.len() as int), name),
    decreases i,
{
    if i > 0 {
        assert(hs.drop_first() =~= hs.subrange(1, hs.len() as int));
        lemma_header_lookup_skip(hs.subrange(1, hs.len() as int), name, i - 1);
        assert(hs.subrange(1, hs.len() as int).subrange(i - 1, hs.len() - 1) =~= hs.subrange(
            i,
            hs.len() as int,
        ));
    } else {
        assert(hs.subrange(0, hs.len() as int) =~= hs);
    }
}

/// A key occurs among the entries.
pub open spec fn spec_entries_have_key(es: Seq<(Seq<char>, Seq<char>)>, key: Seq<char>) -> bool {
    exists|i: int| 0 <= i < es.len() && es[i].0 == key
}

/// What the outside URL parser yields on given text: `None` exactly
/// when the text is not an absolute URL, otherwise the URL's normalized
/// text.
pub uninterp spec fn spec_url_parse(s: Seq<char>) -> Option<Seq<char>>;

/// Relies on url::Url::parse and url::Url::as_str: validates URL text
/// and hands back its normalized form; the outcome depends on the text
/// alone.
#[verifier::external_body]
pub fn parse_url(s: &str) -> (r: Option<String>)
    ensures
        match r {
            Some(u) => spec_url_parse(s@) == Some(u@),
            None => spec_url_parse(s@) is None,
        },
{
    match url::Url::parse(s) {
        Ok(u) => Some(u.as_str().to_string()),
        Err(_) => None,
    }
}

pub proof fn lemma_pairs_match_push(
    ps: Seq<(String, String)>,
    es: Seq<(Seq<char>, Seq<char>)>,
    p: (String, String),
    e: (Seq<char>, Seq<char>),
)
    requires
        spec_pairs_match(ps, es),
        p.0@ == e.0,
        p.1@ == e.1,
    ensures
        spec_pairs_match(ps.push(p), es.push(e)),
{
    let ps2 = ps.push(p);
    let es2 = es.push(e);
    assert forall|i: int| 0 <= i < ps2.len() implies ps2[i].0@ == es2[i].0 && ps2[i].1@
        == es2[i].1 by {
        if i < ps.len() {
            assert(ps2[i] == ps[i]);
            assert(es2[i] == es[i]);
        } else {
            assert(ps2[i] == p);
            assert(es2[i] == e);
        }
    }
}

pub proof fn lemma_pairs_match_concat(
    ps1: Seq<(String, String)>,
    es1: Seq<(Seq<char>, Seq<char>)>,
    ps2: Seq<(String, String)>,
    es2: Seq<(Seq<char>, Seq<char>)>,
)
    requires
        spec_pairs_match(ps1, es1),
        spec_pairs_match(ps2, es2),
    ensures
        spec_pairs_match(ps1 + ps2, es1 + es2),
{
    let ps = ps1 + ps2;
    let es = es1 + es2;
    assert forall|i: int| 0 <= i < ps.len() implies ps[i].0@ == es[i].0 && ps[i].1@
        == es[i].1 by {
        if i < ps1.len() {
            assert(ps[i] == ps1[i]);
            assert(es[i] == es1[i]);
        } else {
            assert(ps[i] == ps2[i - ps1.len()]);
            assert(es[i] == es2[i - ps1.len()]);
        }
    }
}

pub proof fn lemma_no_entry_key(es: Seq<(Seq<char>, Seq<char>)>, key: Seq<char>)
    requires
        forall|i: int| 0 <= i < es.len() ==> (#[trigger] es[i]).0 != key,
    ensures
        !spec_entries_have_key(es, key),
{
}

pub proof fn lemma_no_entry_key_concat(
    a: Seq<(Seq<char>, Seq<char>)>,
    b: Seq<(Seq<char>, Seq<char>)>,
    key: Seq<char>,
)
    requires
        !spec_entries_have_key(a, key),
        !spec_entries_have_key(b, key),
    ensures
        !spec_entries_have_key(a + b, key),
{
    let c = a + b;
    assert forall|i: int| 0 <= i < c.len() implies (#[trigger] c[i]).0 != key by {
        if i < a.len() {
            assert(c[i] == a[i]);
        } else {
            assert(c[i] == b[i - a.len()]);
        }
    }
}

} // verus!
