//! The operation-description model: the fields of a route's documentation
//! entry that this system writes, and how extracted route documentation is
//! applied to them.

use vstd::prelude::*;
use crate::extract::RouteDocs;
use crate::text::str_eq;

verus! {

/// Whether some tag in the list holds the same characters as `tag`.
pub open spec fn spec_has_tag(tags: Seq<String>, tag: Seq<char>) -> bool {
    exists|i: int| 0 <= i < tags.len() && (#[trigger] tags[i]@) == tag
}

/// Decides [`spec_has_tag`].
pub fn has_tag(tags: &Vec<String>, tag: &str) -> (r: bool)
    ensures
        r == spec_has_tag(tags@, tag@),
{
    let mut i: usize = 0;
    while i < tags.len()
        invariant
            0 <= i <= tags.len(),
            forall|k: int| 0 <= k < i ==> (#[trigger] tags@[k]@) != tag@,
        decreases tags.len() - i,
    {
        if str_eq(tags[i].as_str(), tag) {
            return true;
        }
        i = i + 1;
    }
    false
}

/// A route's documentation entry, as plain values: the parts of an
/// operation description that this system reads or writes.
pub struct OperationDoc {
    pub summary: Option<String>,
    pub description: Option<String>,
    pub tags: Vec<String>,
    pub deprecated: bool,
}

/// Documentation equality of two operation descriptions, field by field.
pub open spec fn doc_eq(a: OperationDoc, b: OperationDoc) -> bool {
    &&& a.summary == b.summary
    &&& a.description == b.description
    &&& a.tags@ == b.tags@
    &&& a.deprecated == b.deprecated
}

impl OperationDoc {
    /// A fresh operation description with nothing set.
    pub fn new() -> (r: Self)
        ensures
            r.summary is None,
            r.description is None,
            r.tags@ == Seq::<String>::empty(),
            r.deprecated == false,
    {
        OperationDoc { summary: None, description: None, tags: Vec::new(), deprecated: false }
    }
}

impl Clone for OperationDoc {
    /// An operation description with the same documentation content.
    fn clone(&self) -> (r: Self)
        ensures
            doc_eq(r, *self),
    {
        let summary = match &self.summary {
            Some(s) => Some(s.clone()),
            None => None,
        };
        let description = match &self.description {
            Some(s) => Some(s.clone()),
            None => None,
        };
        let mut tags: Vec<String> = Vec::new();
        let mut i: usize = 0;
        while i < self.tags.len()
            invariant
                0 <= i <= self.tags.len(),
                tags@ == self.tags@.take(i as int),
            decreases self.tags.len() - i,
        {
            tags.push(self.tags[i].clone());
            proof {
                assert(tags@ =~= self.tags@.take(i + 1));
            }
            i = i + 1;
        }
        proof {
            assert(self.tags@.take(self.tags@.len() as int) =~= self.tags@);
        }
        OperationDoc { summary, description, tags, deprecated: self.deprecated }
    }
}

impl RouteDocs {
    /// Applies this route documentation to an operation description, in the
    /// fixed order summary, description, tag, deprecation: summary and
    /// description are set, the tag (when present) is appended to the tag
    /// list unless an equal tag is already there, and the deprecation flag
    /// (when set) marks the operation deprecated without ever clearing an
    /// earlier mark.
    pub fn apply(&self, op: &mut OperationDoc)
        ensures
            final (op).summary == Some(self.summary),
            final (op).description == Some(self.description),
            final (op).tags@ == (match self.tag {
                Some(t) => if spec_has_tag(old(op).tags@, t@) {
                    old(op).tags@
                } else {
                    old(op).tags@.push(t)
                },
                None => old(op).tags@,
            }),
            final (op).deprecated == (old(op).deprecated || self.deprecated),
    {
        op.summary = Some(self.summary.clone());
        op.description = Some(self.description.clone());
        match &self.tag {
            Some(t) => {
                if !has_tag(&op.tags, t.as_str()) {
                    op.tags.push(t.clone());
                }
            },
            None => {},
        }
        if self.deprecated {
            op.deprecated = true;
        }
    }
}

/// Route documentation for a route documented inline, without the
/// extractor: it sets only the given summary and description.
pub fn route_info(summary: &str, description: &str) -> (r: RouteDocs)
    ensures
        r.summary@ == summary@,
        r.description@ == description@,
        r.tag is None,
        r.deprecated == false,
{
    RouteDocs {
        summary: summary.to_owned(),
        description: description.to_owned(),
        tag: None,
        deprecated: false,
    }
}

} // verus!
