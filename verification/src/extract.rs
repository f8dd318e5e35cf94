//! The documentation extractor: turns the doc-comment lines attached to a
//! handler function into a one-line summary and a newline-joined description.

use vstd::prelude::*;
use crate::text::{trimmed, trim_line, str_eq};

verus! {

/// One attribute attached to a handler function, reduced to what the
/// extractor reads: either a documentation comment carrying its text, or
/// anything else.
pub enum HandlerAttr {
    DocComment(String),
    Other,
}

/// The documentation lines that a sequence of handler attributes yields:
/// the text of every documentation comment, in order, trimmed, with lines
/// that trim to nothing dropped entirely.
pub open spec fn doc_lines_of(attrs: Seq<HandlerAttr>) -> Seq<Seq<char>>
    decreases attrs.len(),
{
    if attrs.len() == 0 {
        Seq::empty()
    } else {
        let front = doc_lines_of(attrs.drop_last());
        match attrs.last() {
            HandlerAttr::DocComment(s) => if trimmed(s@).len() == 0 {
                front
            } else {
                front.push(trimmed(s@))
            },
            HandlerAttr::Other => front,
        }
    }
}

/// Collects the non-empty, trimmed documentation-comment lines attached to
/// a handler, in declaration order.
pub fn collect_doc_comments(attrs: &Vec<HandlerAttr>) -> (r: Vec<String>)
    ensures
        r.deep_view() == doc_lines_of(attrs@),
{
    let mut out: Vec<String> = Vec::new();
    let mut i: usize = 0;
    while i < attrs.len()
        invariant
            0 <= i <= attrs.len(),
            out.deep_view() == doc_lines_of(attrs@.take(i as int)),
        decreases attrs.len() - i,
    {
        let ghost pre = out.deep_view();
        match &attrs[i] {
            HandlerAttr::DocComment(s) => {
                let t = trim_line(s.as_str());
                if !t.as_str().is_empty() {
                    out.push(t);
                    proof {
                        assert(out.deep_view() =~= pre.push(t@));
                    }
                }
            },
            HandlerAttr::Other => {},
        }
        proof {
            assert(attrs@.take(i + 1).drop_last() =~= attrs@.take(i as int));
            assert(attrs@.take(i + 1).last() == attrs@[i as int]);
        }
        i = i + 1;
    }
    proof {
        assert(attrs@.take(attrs@.len() as int) =~= attrs@);
    }
    out
}

/// The newline-joined form of a sequence of text lines: the lines in order,
/// separated by single newline characters, with no trailing newline.
pub open spec fn join_lines(lines: Seq<Seq<char>>) -> Seq<char>
    decreases lines.len(),
{
    if lines.len() == 0 {
        Seq::empty()
    } else if lines.len() == 1 {
        lines[0]
    } else {
        lines[0] + seq!['\n'] + join_lines(lines.drop_first())
    }
}

/// The summary of a documentation-line set: its first line, or empty when
/// there are no lines.
pub open spec fn summary_of(lines: Seq<Seq<char>>) -> Seq<char> {
    if lines.len() == 0 {
        Seq::empty()
    } else {
        lines[0]
    }
}

/// The description of a documentation-line set: every line after the first,
/// newline-joined; empty when there are fewer than two lines.
pub open spec fn description_of(lines: Seq<Seq<char>>) -> Seq<char> {
    if lines.len() == 0 {
        Seq::empty()
    } else {
        join_lines(lines.drop_first())
    }
}

/// Splitting a line set into summary and description loses nothing: the
/// summary followed by the description, newline-joined, is exactly the
/// newline-joined original lines, in order.
pub proof fn lemma_split_round_trip(lines: Seq<Seq<char>>)
    ensures
        lines.len() == 0 ==> summary_of(lines) == Seq::<char>::empty() && description_of(lines)
            == Seq::<char>::empty(),
        lines.len() == 1 ==> summary_of(lines) == join_lines(lines) && description_of(lines)
            == Seq::<char>::empty(),
        lines.len() >= 2 ==> summary_of(lines) + seq!['\n'] + description_of(lines) == join_lines(
            lines,
        ),
{
}

/// The first line becomes the summary and the remaining lines, joined with
/// newlines, become the description; both are empty when no lines exist.
pub fn split_summary_description(lines: &Vec<String>) -> (r: (String, String))
    ensures
        r.0@ == summary_of(lines.deep_view()),
        r.1@ == description_of(lines.deep_view()),
{
    let ghost dv: Seq<Seq<char>> = lines.deep_view();
    if lines.len() == 0 {
        (String::new(), String::new())
    } else {
        let summary = lines[0].clone();
        let mut description = String::new();
        let mut i: usize = 1;
        while i < lines.len()
            invariant
                1 <= i <= lines.len(),
                dv == lines.deep_view(),
                dv.len() == lines.len(),
                i == 1 ==> description@ == Seq::<char>::empty(),
                1 < i < dv.len() ==> join_lines(dv.skip(1)) == description@ + seq!['\n']
                    + join_lines(dv.skip(i as int)),
                1 < i == dv.len() ==> description@ == join_lines(dv.skip(1)),
            decreases lines.len() - i,
        {
            proof {
                reveal_strlit("\n");
                assert(("\n")@ =~= seq!['\n']);
            }
            let ghost pre = description@;
            if i > 1 {
                description.append("\n");
            }
            let line: &String = &lines[i];
            description.append(line.as_str());
            proof {
                assert(dv[i as int] == lines@[i as int]@);
                let tail = dv.skip(i as int);
                assert(tail.len() == dv.len() - i);
                assert(tail[0] == dv[i as int]);
                if i + 1 < dv.len() {
                    assert(tail.drop_first() =~= dv.skip(i + 1));
                    assert(join_lines(tail) == tail[0] + seq!['\n'] + join_lines(
                        dv.skip(i + 1),
                    ));
                } else {
                    assert(join_lines(tail) == tail[0]);
                }
                if i == 1 {
                    assert(description@ =~= dv[1]);
                    if i + 1 < dv.len() {
                        assert(join_lines(dv.skip(1)) == description@ + seq!['\n'] + join_lines(
                            dv.skip(i + 1),
                        ));
                    } else {
                        assert(description@ == join_lines(dv.skip(1)));
                    }
                } else {
                    assert(description@ =~= pre + seq!['\n'] + dv[i as int]);
                    if i + 1 < dv.len() {
                        assert(description@ + seq!['\n'] + join_lines(dv.skip(i + 1)) =~= pre
                            + seq!['\n'] + join_lines(dv.skip(i as int)));
                    } else {
                        assert(description@ =~= pre + seq!['\n'] + join_lines(dv.skip(i as int)));
                    }
                }
            }
            i = i + 1;
        }
        proof {
            assert(summary@ == dv[0]);
            if dv.len() == 1 {
                assert(dv.drop_first() =~= dv.skip(1));
                assert(description@ == Seq::<char>::empty());
                assert(dv.skip(1).len() == 0);
            }
            assert(dv.drop_first() =~= dv.skip(1));
        }
        (summary, description)
    }
}

/// One named argument of the documentation attribute: a key with a string
/// value (`tag = "Users"`) or a bare flag (`deprecated`).
pub struct MacroArg {
    pub key: String,
    pub value: Option<String>,
}

/// A build-time failure of the documentation attribute, carrying what a
/// compile error would report.
#[derive(Debug)]
pub enum ArgError {
    /// An argument key that the attribute does not recognize, by name.
    UnsupportedProperty { key: String },
    /// `tag` appeared without a string value.
    MissingTagValue,
    /// `deprecated` appeared with a value, though it takes none.
    UnexpectedDeprecatedValue,
}

/// The recognized arguments of the documentation attribute, accumulated
/// while parsing.
#[derive(Debug)]
pub struct AideDocsAttributes {
    pub tag: Option<String>,
    pub deprecated: bool,
}

impl AideDocsAttributes {
    /// The state before any argument is parsed: no tag, not deprecated.
    pub fn new() -> (r: Self)
        ensures
            r == (AideDocsAttributes { tag: None, deprecated: false }),
    {
        AideDocsAttributes { tag: None, deprecated: false }
    }

    /// What parsing one argument does to the accumulated state: `tag` with a
    /// value records the tag, bare `deprecated` sets the flag, and every
    /// other key fails, named in the error.
    pub open spec fn parse_step(self, arg: MacroArg) -> Result<AideDocsAttributes, ArgError> {
        if arg.key@ == "tag"@ {
            match arg.value {
                Some(v) => Ok(AideDocsAttributes { tag: Some(v), deprecated: self.deprecated }),
                None => Err(ArgError::MissingTagValue),
            }
        } else if arg.key@ == "deprecated"@ {
            match arg.value {
                Some(_) => Err(ArgError::UnexpectedDeprecatedValue),
                None => Ok(AideDocsAttributes { tag: self.tag, deprecated: true }),
            }
        } else {
            Err(ArgError::UnsupportedProperty { key: arg.key })
        }
    }

    /// Parses one argument into the accumulated state; on an error the state
    /// is left unchanged.
    pub fn parse(&mut self, arg: &MacroArg) -> (r: Result<(), ArgError>)
        ensures
            old(self).parse_step(*arg) is Ok ==> r is Ok && *final (self) == old(self).parse_step(
                *arg,
            )->Ok_0,
            old(self).parse_step(*arg) is Err ==> r == Err::<(), ArgError>(
                old(self).parse_step(*arg)->Err_0,
            ) && *final (self) == *old(self),
    {
        if str_eq(arg.key.as_str(), "tag") {
            match &arg.value {
                Some(v) => {
                    self.tag = Some(v.clone());
                    Ok(())
                },
                None => Err(ArgError::MissingTagValue),
            }
        } else if str_eq(arg.key.as_str(), "deprecated") {
            match &arg.value {
                Some(_) => Err(ArgError::UnexpectedDeprecatedValue),
                None => {
                    self.deprecated = true;
                    Ok(())
                },
            }
        } else {
            Err(ArgError::UnsupportedProperty { key: arg.key.clone() })
        }
    }
}

/// The result of parsing a whole argument list, left to right, starting
/// from state `st`; the first failing argument decides the error.
pub open spec fn parse_all(st: AideDocsAttributes, args: Seq<MacroArg>) -> Result<
    AideDocsAttributes,
    ArgError,
>
    decreases args.len(),
{
    if args.len() == 0 {
        Ok(st)
    } else {
        match st.parse_step(args[0]) {
            Ok(st2) => parse_all(st2, args.drop_first()),
            Err(e) => Err(e),
        }
    }
}

/// Parses the full argument list of a documentation-attribute invocation.
pub fn parse_args(args: &Vec<MacroArg>) -> (r: Result<AideDocsAttributes, ArgError>)
    ensures
        r == parse_all((AideDocsAttributes { tag: None, deprecated: false }), args@),
{
    let mut st = AideDocsAttributes::new();
    let ghost st0 = st;
    let mut i: usize = 0;
    proof {
        assert(args@.skip(0) =~= args@);
    }
    while i < args.len()
        invariant
            0 <= i <= args.len(),
            st0 == (AideDocsAttributes { tag: None, deprecated: false }),
            parse_all(st0, args@) == parse_all(st, args@.skip(i as int)),
        decreases args.len() - i,
    {
        let ghost pre = st;
        proof {
            assert(args@.skip(i as int)[0] == args@[i as int]);
            assert(args@.skip(i as int).drop_first() =~= args@.skip(i + 1));
        }
        let res = st.parse(&args[i]);
        match res {
            Ok(_) => {},
            Err(e) => {
                proof {
                    assert(parse_all(pre, args@.skip(i as int)) == Err::<
                        AideDocsAttributes,
                        ArgError,
                    >(e));
                }
                return Err(e);
            },
        }
        i = i + 1;
    }
    proof {
        assert(args@.skip(args@.len() as int) =~= Seq::<MacroArg>::empty());
    }
    Ok(st)
}

/// Everything the generated companion function applies to a route's
/// operation description: summary, description, optional tag, deprecation.
#[derive(Debug)]
pub struct RouteDocs {
    pub summary: String,
    pub description: String,
    pub tag: Option<String>,
    pub deprecated: bool,
}

/// Derives a route's documentation from its handler attributes and the
/// attribute arguments: summary and description from the doc comments, tag
/// and deprecation from the arguments; any unrecognized or malformed
/// argument fails with that argument's error.
pub fn extract_route_docs(attrs: &Vec<HandlerAttr>, args: &Vec<MacroArg>) -> (r: Result<
    RouteDocs,
    ArgError,
>)
    ensures
        ({
            let lines = doc_lines_of(attrs@);
            let parsed = parse_all((AideDocsAttributes { tag: None, deprecated: false }), args@);
            match r {
                Ok(docs) => parsed is Ok && docs.summary@ == summary_of(lines)
                    && docs.description@ == description_of(lines) && docs.tag == parsed->Ok_0.tag
                    && docs.deprecated == parsed->Ok_0.deprecated,
                Err(e) => parsed is Err && e == parsed->Err_0,
            }
        }),
{
    let lines = collect_doc_comments(attrs);
    let (summary, description) = split_summary_description(&lines);
    match parse_args(args) {
        Ok(attrs_parsed) => Ok(
            RouteDocs {
                summary,
                description,
                tag: attrs_parsed.tag,
                deprecated: attrs_parsed.deprecated,
            },
        ),
        Err(e) => Err(e),
    }
}

/// The name of the generated companion function for a handler: a fixed
/// prefix, chosen to avoid colliding with user identifiers, followed by the
/// handler's own name.
pub fn companion_fn_name(handler: &str) -> (r: String)
    ensures
        r@ == "__aide_docs_"@ + handler@,
{
    let mut r = String::from_str("__aide_docs_");
    r.append(handler);
    r
}

} // verus!
