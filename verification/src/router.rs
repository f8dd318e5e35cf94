//! The route-registration model: a router carrier that stamps one fixed
//! categorization tag onto every route registered through it, while nested
//! sub-routers keep their own documentation entries unchanged.

use vstd::prelude::*;
use crate::operation::{doc_eq, has_tag, spec_has_tag, OperationDoc};

verus! {

/// One registered route: its path and the documentation entry generated
/// for it.
pub struct Route {
    pub path: String,
    pub doc: OperationDoc,
}

/// The documentation side of a router: the routes registered so far, in
/// registration order, each with its documentation entry.
pub struct ApiRouter {
    pub routes: Vec<Route>,
}

impl ApiRouter {
    /// An empty router with no routes.
    pub fn new() -> (r: Self)
        ensures
            r.routes@ == Seq::<Route>::empty(),
    {
        ApiRouter { routes: Vec::new() }
    }
}

/// Tag stamping: `out` is `base` with `tag` appended to its tag list —
/// unless an equal tag is already there, in which case the list is left
/// alone — and every other field unchanged.
pub open spec fn tag_stamped(base: OperationDoc, tag: String, out: OperationDoc) -> bool {
    &&& out.summary == base.summary
    &&& out.description == base.description
    &&& out.tags@ == (if spec_has_tag(base.tags@, tag@) {
        base.tags@
    } else {
        base.tags@.push(tag)
    })
    &&& out.deprecated == base.deprecated
}

/// Wraps a router so that every route registered through it carries one
/// fixed categorization tag. The tag is set at construction and never
/// changes; converting back to [`ApiRouter`] consumes the carrier.
pub struct TagApiRouter {
    inner: ApiRouter,
    tag: String,
}

impl TagApiRouter {
    /// The fixed tag this carrier stamps.
    pub closed spec fn spec_tag(&self) -> String {
        self.tag
    }

    /// The routes registered so far, in order.
    pub closed spec fn spec_routes(&self) -> Seq<Route> {
        self.inner.routes@
    }

    /// An empty carrier bound to a fixed tag.
    pub fn new(tag: String) -> (r: Self)
        ensures
            r.spec_tag() == tag,
            r.spec_routes() == Seq::<Route>::empty(),
    {
        TagApiRouter { inner: ApiRouter::new(), tag }
    }

    /// Registers a route's documentation entry at a path, stamping the
    /// carrier's tag onto that entry; everything registered earlier stays
    /// as it was.
    pub fn api_route(self, path: &str, doc: OperationDoc) -> (r: Self)
        ensures
            r.spec_tag() == self.spec_tag(),
            r.spec_routes().len() == self.spec_routes().len() + 1,
            r.spec_routes().take(self.spec_routes().len() as int) == self.spec_routes(),
            r.spec_routes().last().path@ == path@,
            tag_stamped(doc, self.spec_tag(), r.spec_routes().last().doc),
    {
        let TagApiRouter { mut inner, tag } = self;
        let mut doc = doc;
        if !has_tag(&doc.tags, tag.as_str()) {
            doc.tags.push(tag.clone());
        }
        inner.routes.push(Route { path: path.to_owned(), doc });
        proof {
            assert(inner.routes@.take(inner.routes@.len() - 1) =~= inner.routes@.drop_last());
        }
        TagApiRouter { inner, tag }
    }

    /// Merges a fully formed sub-router at a path prefix. The sub-router's
    /// routes keep their own documentation entries, tags included; no tag
    /// stamping happens here.
    pub fn nest(self, path: &str, router: ApiRouter) -> (r: Self)
        ensures
            r.spec_tag() == self.spec_tag(),
            r.spec_routes().len() == self.spec_routes().len() + router.routes@.len(),
            r.spec_routes().take(self.spec_routes().len() as int) == self.spec_routes(),
            forall|k: int|
                0 <= k < router.routes@.len() ==> {
                    let nr = r.spec_routes()[self.spec_routes().len() + k];
                    nr.path@ == path@ + (#[trigger] router.routes@[k]).path@ && doc_eq(
                        nr.doc,
                        router.routes@[k].doc,
                    )
                },
    {
        let TagApiRouter { mut inner, tag } = self;
        let ghost base = inner.routes@;
        let mut k: usize = 0;
        while k < router.routes.len()
            invariant
                0 <= k <= router.routes.len(),
                inner.routes@.len() == base.len() + k,
                inner.routes@.take(base.len() as int) == base,
                forall|t: int|
                    0 <= t < k ==> {
                        let nr = inner.routes@[base.len() + t];
                        nr.path@ == path@ + (#[trigger] router.routes@[t]).path@ && doc_eq(
                            nr.doc,
                            router.routes@[t].doc,
                        )
                    },
            decreases router.routes.len() - k,
        {
            let rt = &router.routes[k];
            let mut p = path.to_owned();
            p.append(rt.path.as_str());
            inner.routes.push(Route { path: p, doc: rt.doc.clone() });
            proof {
                assert(inner.routes@.take(base.len() as int) =~= base);
            }
            k = k + 1;
        }
        TagApiRouter { inner, tag }
    }
}

impl From<TagApiRouter> for ApiRouter {
    /// Conversion back to the plain router: yields the accumulated routes
    /// with all stamped tags applied, consuming the carrier.
    fn from(value: TagApiRouter) -> (r: Self) {
        value.inner
    }
}

impl vstd::std_specs::convert::FromSpecImpl<TagApiRouter> for ApiRouter {
    open spec fn obeys_from_spec() -> bool {
        true
    }

    closed spec fn from_spec(value: TagApiRouter) -> Self {
        value.inner
    }
}

/// Converting the carrier back to the plain router yields exactly the
/// accumulated routes, with all stamped tags applied.
pub proof fn lemma_from_carrier(t: TagApiRouter)
    ensures
        (<ApiRouter as vstd::std_specs::convert::FromSpec<TagApiRouter>>::from_spec(t)).routes@
            == t.spec_routes(),
{
}

} // verus!
