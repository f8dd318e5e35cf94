//! The response-adapter shims: wrapper types whose runtime conversion to a
//! wire response and whose documentation inference are specified together,
//! so the two can be held consistent.

use vstd::prelude::*;
use crate::text::str_eq;

verus! {

/// An ordered list of HTTP headers, name/value pairs. Later entries take
/// precedence over earlier ones with the same name, as repeated insertions
/// into a header map would.
pub struct Headers(pub Vec<(String, String)>);

/// The effective value of a header name in a header list: the value of the
/// last entry carrying that name, or nothing.
pub open spec fn header_lookup(s: Seq<(String, String)>, name: Seq<char>) -> Option<Seq<char>>
    decreases s.len(),
{
    if s.len() == 0 {
        None
    } else if s.last().0@ == name {
        Some(s.last().1@)
    } else {
        header_lookup(s.drop_last(), name)
    }
}

proof fn lemma_lookup_prefix(s: Seq<(String, String)>, name: Seq<char>, j: int)
    requires
        0 <= j <= s.len(),
        forall|k: int| j <= k < s.len() ==> (#[trigger] s[k]).0@ != name,
    ensures
        header_lookup(s, name) == header_lookup(s.take(j), name),
    decreases s.len(),
{
    if j == s.len() {
        assert(s.take(j) =~= s);
    } else {
        assert(s.last().0@ != name);
        lemma_lookup_prefix(s.drop_last(), name, j);
        assert(s.drop_last().take(j) =~= s.take(j));
    }
}

impl Headers {
    /// The effective value of `name` in these headers, if any.
    pub open spec fn spec_lookup(&self, name: Seq<char>) -> Option<Seq<char>> {
        header_lookup(self.0@, name)
    }

    /// An empty header list.
    pub fn new() -> (r: Self)
        ensures
            r.0@ == Seq::<(String, String)>::empty(),
    {
        Headers(Vec::new())
    }

    /// Adds a header; its value becomes the effective one for its name, and
    /// every other name keeps its effective value.
    pub fn insert(&mut self, name: String, value: String)
        ensures
            final (self).spec_lookup(name@) == Some(value@),
            forall|n: Seq<char>|
                n != name@ ==> #[trigger] final (self).spec_lookup(n) == old(self).spec_lookup(n),
            final (self).0@ == old(self).0@.push((name, value)),
    {
        self.0.push((name, value));
        proof {
            assert(self.0@.drop_last() =~= old(self).0@);
        }
    }

    /// Looks a header up by name, returning its effective value.
    pub fn get(&self, name: &str) -> (r: Option<&String>)
        ensures
            match r {
                Some(v) => self.spec_lookup(name@) == Some(v@),
                None => self.spec_lookup(name@) is None,
            },
    {
        let mut i: usize = self.0.len();
        while i > 0
            invariant
                0 <= i <= self.0@.len(),
                forall|k: int| i <= k < self.0@.len() ==> (#[trigger] self.0@[k]).0@ != name@,
            decreases i,
        {
            i = i - 1;
            let entry = &self.0[i];
            if str_eq(entry.0.as_str(), name) {
                proof {
                    lemma_lookup_prefix(self.0@, name@, i + 1);
                    assert(self.0@.take(i + 1).last() == self.0@[i as int]);
                }
                return Some(&self.0[i].1);
            }
        }
        proof {
            lemma_lookup_prefix(self.0@, name@, 0);
            assert(self.0@.take(0) =~= Seq::<(String, String)>::empty());
        }
        None
    }
}

/// Inserts every header of `extra` into `base`, in order. Afterwards a
/// name present in `extra` has `extra`'s effective value — incoming
/// headers take precedence on conflicts — and every other name keeps
/// `base`'s value.
pub fn merge_headers(base: &mut Headers, extra: &Headers)
    ensures
        forall|n: Seq<char>|
            #[trigger] final (base).spec_lookup(n) == (match extra.spec_lookup(n) {
                Some(v) => Some(v),
                None => old(base).spec_lookup(n),
            }),
{
    let mut k: usize = 0;
    proof {
        assert(extra.0@.take(0) =~= Seq::<(String, String)>::empty());
    }
    while k < extra.0.len()
        invariant
            0 <= k <= extra.0@.len(),
            forall|n: Seq<char>|
                #[trigger] base.spec_lookup(n) == (match header_lookup(
                    extra.0@.take(k as int),
                    n,
                ) {
                    Some(v) => Some(v),
                    None => old(base).spec_lookup(n),
                }),
        decreases extra.0@.len() - k,
    {
        let entry = &extra.0[k];
        base.insert(entry.0.clone(), entry.1.clone());
        proof {
            assert(extra.0@.take(k + 1).last() == extra.0@[k as int]);
            assert(extra.0@.take(k + 1).drop_last() =~= extra.0@.take(k as int));
        }
        k = k + 1;
    }
    proof {
        assert(extra.0@.take(extra.0@.len() as int) =~= extra.0@);
    }
}

/// A wire response, as plain values: status code, headers and body bytes.
pub struct WireResponse {
    pub status: u16,
    pub headers: Headers,
    pub body: Vec<u8>,
}

/// The only body schema this system ever writes into documentation: the
/// schema of a plain string (the one subschema the documentation interface
/// is asked to generate).
pub enum BodySchema {
    PlainString,
}

/// One documented response shape: its description text and a mapping from
/// content type to body schema. An empty mapping documents an empty body.
pub struct ResponseDoc {
    pub description: String,
    pub content: Vec<(String, BodySchema)>,
}

/// Responds with `204 No Content`. Its runtime conversion and its
/// documentation inference agree on the status code by construction.
pub struct NoContent;

impl NoContent {
    /// The wire response: always status 204 with an empty body and no
    /// headers, however the value was obtained — the type has no fields.
    pub fn into_response(self) -> (r: WireResponse)
        ensures
            r.status == 204,
            r.headers.0@ == Seq::<(String, String)>::empty(),
            r.body@ == Seq::<u8>::empty(),
    {
        WireResponse { status: 204, headers: Headers::new(), body: Vec::new() }
    }

    /// The documented responses: always exactly one entry, status 204, with
    /// the empty-body shape described as "no content".
    pub fn inferred_responses() -> (r: Vec<(Option<u16>, ResponseDoc)>)
        ensures
            r@.len() == 1,
            r@[0].0 == Some(204u16),
            r@[0].1.description@ == "no content"@,
            r@[0].1.content@ == Seq::<(String, BodySchema)>::empty(),
    {
        let mut r: Vec<(Option<u16>, ResponseDoc)> = Vec::new();
        r.push(
            (
                Some(204),
                ResponseDoc { description: String::from_str("no content"), content: Vec::new() },
            ),
        );
        r
    }
}

/// Augments an inner value's wire response with extra headers. The inner
/// value is carried as the wire response it converts to.
pub struct WithHeaderMap(pub Headers, pub WireResponse);

impl WithHeaderMap {
    /// The wire response: the inner response with the extra headers merged
    /// in; on a name present in both, the extra header's value is the
    /// effective one.
    pub fn into_response(self) -> (r: WireResponse)
        ensures
            r.status == self.1.status,
            r.body@ == self.1.body@,
            forall|n: Seq<char>|
                #[trigger] r.headers.spec_lookup(n) == (match self.0.spec_lookup(n) {
                    Some(v) => Some(v),
                    None => self.1.headers.spec_lookup(n),
                }),
    {
        let WithHeaderMap(extra, mut resp) = self;
        merge_headers(&mut resp.headers, &extra);
        resp
    }

    /// The documented responses: exactly the inner value's own inference,
    /// unmodified — the extra headers are not separately documented.
    pub fn inferred_responses(inner: Vec<(Option<u16>, ResponseDoc)>) -> (r: Vec<
        (Option<u16>, ResponseDoc),
    >)
        ensures
            r == inner,
    {
        inner
    }
}

/// Overrides the status code of an inner value's wire response.
pub struct WithStatusCode(pub u16, pub WireResponse);

impl WithStatusCode {
    /// The wire response: the inner response with its status replaced by
    /// the given code; headers and body are unchanged.
    pub fn into_response(self) -> (r: WireResponse)
        ensures
            r.status == self.0,
            r.headers == self.1.headers,
            r.body == self.1.body,
    {
        let WithStatusCode(code, mut resp) = self;
        resp.status = code;
        resp
    }

    /// The documented responses: exactly the inner value's own inference,
    /// unmodified. The override is not reflected in the documentation, so
    /// the documented status can disagree with the wire status — a known
    /// fidelity gap kept for compatibility.
    pub fn inferred_responses(inner: Vec<(Option<u16>, ResponseDoc)>) -> (r: Vec<
        (Option<u16>, ResponseDoc),
    >)
        ensures
            r == inner,
    {
        inner
    }
}

/// Documents an inner value as plain text while passing its wire response
/// through unchanged.
pub struct TextPlain(pub WireResponse);

impl TextPlain {
    /// The wire response: the inner response, untouched.
    pub fn into_response(self) -> (r: WireResponse)
        ensures
            r == self.0,
    {
        self.0
    }

    /// The single documented response shape: description "plain text" with
    /// one content entry, "text/plain", carrying the plain-string schema.
    pub fn operation_response() -> (r: Option<ResponseDoc>)
        ensures
            r is Some,
            r->0.description@ == "plain text"@,
            r->0.content@.len() == 1,
            r->0.content@[0].0@ == "text/plain"@,
            r->0.content@[0].1 == BodySchema::PlainString,
    {
        let mut content: Vec<(String, BodySchema)> = Vec::new();
        content.push((String::from_str("text/plain"), BodySchema::PlainString));
        Some(ResponseDoc { description: String::from_str("plain text"), content })
    }

    /// The documented responses: always exactly one entry, status 200 with
    /// the plain-text shape, whatever the inner value would have reported.
    pub fn inferred_responses() -> (r: Vec<(Option<u16>, ResponseDoc)>)
        ensures
            r@.len() == 1,
            r@[0].0 == Some(200u16),
            r@[0].1.description@ == "plain text"@,
            r@[0].1.content@.len() == 1,
            r@[0].1.content@[0].0@ == "text/plain"@,
            r@[0].1.content@[0].1 == BodySchema::PlainString,
    {
        let mut r: Vec<(Option<u16>, ResponseDoc)> = Vec::new();
        let doc = TextPlain::operation_response().unwrap();
        r.push((Some(200), doc));
        r
    }
}

} // verus!
