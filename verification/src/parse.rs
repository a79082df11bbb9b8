//! The metadata parser: turns one annotation — a key/value list attached to
//! the schema or to one property — into a structured configuration, or fails
//! with a diagnostic at the annotation's span.
//!
//! Recognized keys: `tag` (a string, choosing a static tag), `dynamic_tag`
//! (a list of qualified-pattern expressions, each reduced to the lowercase
//! image of its last path segment), and `no_children` (a boolean switching
//! children off). An annotation that is not a key/value list is malformed;
//! an unrecognized key and a value of the wrong literal kind are rejected.
//! Entries are applied in order, a later entry overriding an earlier one for
//! the same key; the first faulty entry aborts the annotation.

use vstd::prelude::*;
use crate::component::{cases_view, SpecTagCase, TagCase};
use crate::error::{CompileError, ErrorKind, SpecError, SpecErrorKind};
use crate::schema::{
    entries_view, patterns_view, segments_view, Annotation, AnnotationForm, MetaEntry, MetaValue,
    PatternExpr, SpecAnnotation, SpecAnnotationForm, SpecMetaEntry, SpecMetaValue, SpecPattern,
};
use crate::text::{lower_str, lower_text, str_eq};

verus! {

// ------------------------------------------------------------------
// Mathematical model
// ------------------------------------------------------------------
/// Model of a parsed configuration.
pub struct SpecAttrArgs {
    pub tag: Option<Seq<char>>,
    pub dynamic_tag: Option<Seq<SpecTagCase>>,
    pub no_children: Option<bool>,
}

/// The configuration before any entry is applied: nothing is set.
pub open spec fn spec_empty_args() -> SpecAttrArgs {
    SpecAttrArgs { tag: None, dynamic_tag: None, no_children: None }
}

/// The dynamic-tag case a pattern expression contributes: a qualified path
/// with at least one segment yields its segments together with the lowercase
/// image of the last segment; any other expression contributes nothing.
pub open spec fn spec_case_of(p: SpecPattern) -> Option<SpecTagCase> {
    match p {
        SpecPattern::Path(segments) => if segments.len() > 0 {
            Some(SpecTagCase { pattern: segments, tag: lower_text(segments.last()) })
        } else {
            None
        },
        SpecPattern::Other => None,
    }
}

/// The case table contributed by the pattern list from index `i` on.
pub open spec fn spec_cases_from(ps: Seq<SpecPattern>, i: int) -> Seq<SpecTagCase>
    decreases ps.len() - i,
{
    if i < 0 || i >= ps.len() {
        Seq::empty()
    } else {
        match spec_case_of(ps[i]) {
            Some(c) => seq![c] + spec_cases_from(ps, i + 1),
            None => spec_cases_from(ps, i + 1),
        }
    }
}

/// The whole case table of a pattern list, in declaration order.
pub open spec fn spec_cases(ps: Seq<SpecPattern>) -> Seq<SpecTagCase> {
    spec_cases_from(ps, 0)
}

/// The effect of one entry on the configuration: the recognized keys set
/// their field, everything else is a fault.
pub open spec fn spec_apply_entry(args: SpecAttrArgs, e: SpecMetaEntry) -> Result<
    SpecAttrArgs,
    SpecErrorKind,
> {
    if e.key == "tag"@ {
        match e.value {
            SpecMetaValue::Str(s) => Ok(
                SpecAttrArgs {
                    tag: Some(s),
                    dynamic_tag: args.dynamic_tag,
                    no_children: args.no_children,
                },
            ),
            _ => Err(SpecErrorKind::TypeMismatch),
        }
    } else if e.key == "dynamic_tag"@ {
        match e.value {
            SpecMetaValue::Patterns(ps) => Ok(
                SpecAttrArgs {
                    tag: args.tag,
                    dynamic_tag: Some(spec_cases(ps)),
                    no_children: args.no_children,
                },
            ),
            _ => Err(SpecErrorKind::TypeMismatch),
        }
    } else if e.key == "no_children"@ {
        match e.value {
            SpecMetaValue::Flag(b) => Ok(
                SpecAttrArgs {
                    tag: args.tag,
                    dynamic_tag: args.dynamic_tag,
                    no_children: Some(b),
                },
            ),
            _ => Err(SpecErrorKind::TypeMismatch),
        }
    } else {
        Err(SpecErrorKind::UnknownOption(e.key))
    }
}

/// The configuration after the entries from index `i` on are applied to
/// `args`, or the first fault among them.
pub open spec fn spec_parse_entries_from(
    entries: Seq<SpecMetaEntry>,
    i: int,
    args: SpecAttrArgs,
) -> Result<SpecAttrArgs, SpecErrorKind>
    decreases entries.len() - i,
{
    if i < 0 || i >= entries.len() {
        Ok(args)
    } else {
        match spec_apply_entry(args, entries[i]) {
            Ok(next) => spec_parse_entries_from(entries, i + 1, next),
            Err(k) => Err(k),
        }
    }
}

/// What parsing an annotation yields: a malformed annotation is rejected at
/// its span; otherwise the entries are applied in order to the empty
/// configuration, and the first fault is reported at the annotation's span.
pub open spec fn spec_parse_annotation(a: SpecAnnotation) -> Result<SpecAttrArgs, SpecError> {
    match a.form {
        SpecAnnotationForm::Malformed => Err(
            SpecError { kind: SpecErrorKind::MalformedAnnotation, span: a.span },
        ),
        SpecAnnotationForm::Entries(entries) => match spec_parse_entries_from(
            entries,
            0,
            spec_empty_args(),
        ) {
            Ok(args) => Ok(args),
            Err(k) => Err(SpecError { kind: k, span: a.span }),
        },
    }
}

// ------------------------------------------------------------------
// Executable representation
// ------------------------------------------------------------------
/// A parsed configuration: the static tag, the dynamic-tag case table and
/// the children switch, each present where some entry set it.
#[derive(Debug, Clone, PartialEq, Eq)]
pub struct StructComponentAttrArgs {
    pub tag: Option<String>,
    pub dynamic_tag: Option<Vec<TagCase>>,
    pub no_children: Option<bool>,
}

impl View for StructComponentAttrArgs {
    type V = SpecAttrArgs;

    open spec fn view(&self) -> SpecAttrArgs {
        SpecAttrArgs {
            tag: match &self.tag {
                Some(t) => Some(t@),
                None => None,
            },
            dynamic_tag: match &self.dynamic_tag {
                Some(cases) => Some(cases_view(cases@)),
                None => None,
            },
            no_children: match self.no_children {
                Some(b) => Some(b),
                None => None,
            },
        }
    }
}

impl Default for StructComponentAttrArgs {
    /// The empty configuration.
    fn default() -> (r: Self)
        ensures
            r@ == spec_empty_args(),
    {
        StructComponentAttrArgs { tag: None, dynamic_tag: None, no_children: None }
    }
}

/// Copies a path's segments.
fn clone_segments(v: &Vec<String>) -> (r: Vec<String>)
    ensures
        segments_view(r@) == segments_view(v@),
{
    let mut r: Vec<String> = Vec::new();
    let mut i: usize = 0;
    while i < v.len()
        invariant
            0 <= i <= v@.len(),
            segments_view(r@) =~= segments_view(v@.subrange(0, i as int)),
        decreases v@.len() - i,
    {
        let ghost old_rv = r@;
        r.push(v[i].clone());
        proof {
            assert(segments_view(r@) =~= segments_view(old_rv).push(v@[i as int]@));
            assert(segments_view(r@) =~= segments_view(v@.subrange(0, (i + 1) as int)));
        }
        i += 1;
    }
    proof {
        assert(v@.subrange(0, v@.len() as int) =~= v@);
    }
    r
}

/// Reduces a pattern list to its dynamic-tag case table, in order: every
/// qualified path contributes its segments and the lowercase image of its
/// last segment; other expressions are passed over.
fn cases_from_patterns(ps: &Vec<PatternExpr>) -> (r: Vec<TagCase>)
    ensures
        cases_view(r@) == spec_cases(patterns_view(ps@)),
{
    let ghost psv = patterns_view(ps@);
    let mut r: Vec<TagCase> = Vec::new();
    let mut i: usize = 0;
    while i < ps.len()
        invariant
            0 <= i <= ps@.len(),
            psv == patterns_view(ps@),
            cases_view(r@) + spec_cases_from(psv, i as int) == spec_cases(psv),
        decreases ps@.len() - i,
    {
        proof {
            assert(psv[i as int] == ps@[i as int]@);
        }
        let ghost old_rv = cases_view(r@);
        match &ps[i] {
            PatternExpr::Path(segments) => {
                if segments.len() > 0 {
                    let last = segments.len() - 1;
                    let tag = lower_str(segments[last].as_str());
                    let case = TagCase { pattern: clone_segments(segments), tag };
                    let ghost casev = case@;
                    proof {
                        let segv = segments_view(segments@);
                        assert(segv.last() == segments@[last as int]@);
                        assert(spec_case_of(psv[i as int]) == Some(casev));
                        assert(spec_cases_from(psv, i as int) == seq![casev] + spec_cases_from(
                            psv,
                            i as int + 1,
                        ));
                    }
                    r.push(case);
                    proof {
                        assert(cases_view(r@) =~= old_rv.push(casev));
                        assert(old_rv.push(casev) + spec_cases_from(psv, i as int + 1) =~= old_rv
                            + spec_cases_from(psv, i as int));
                    }
                } else {
                    proof {
                        assert(spec_case_of(psv[i as int]) is None);
                        assert(spec_cases_from(psv, i as int) == spec_cases_from(
                            psv,
                            i as int + 1,
                        ));
                    }
                }
            },
            PatternExpr::Other => {
                proof {
                    assert(spec_case_of(psv[i as int]) is None);
                    assert(spec_cases_from(psv, i as int) == spec_cases_from(psv, i as int + 1));
                }
            },
        }
        i += 1;
    }
    proof {
        assert(spec_cases_from(psv, ps@.len() as int) =~= Seq::<SpecTagCase>::empty());
        assert(cases_view(r@) + spec_cases_from(psv, ps@.len() as int) =~= cases_view(r@));
    }
    r
}

/// Applies one entry to the configuration.
fn apply_entry(args: StructComponentAttrArgs, entry: &MetaEntry) -> (r: Result<
    StructComponentAttrArgs,
    ErrorKind,
>)
    ensures
        (match r {
            Ok(next) => spec_apply_entry(args@, entry@) == Ok::<SpecAttrArgs, SpecErrorKind>(
                next@,
            ),
            Err(k) => spec_apply_entry(args@, entry@) == Err::<SpecAttrArgs, SpecErrorKind>(k@),
        }),
{
    if str_eq(entry.key.as_str(), "tag") {
        match &entry.value {
            MetaValue::Str(s) => Ok(
                StructComponentAttrArgs {
                    tag: Some(s.clone()),
                    dynamic_tag: args.dynamic_tag,
                    no_children: args.no_children,
                },
            ),
            _ => Err(ErrorKind::TypeMismatch),
        }
    } else if str_eq(entry.key.as_str(), "dynamic_tag") {
        match &entry.value {
            MetaValue::Patterns(ps) => Ok(
                StructComponentAttrArgs {
                    tag: args.tag,
                    dynamic_tag: Some(cases_from_patterns(ps)),
                    no_children: args.no_children,
                },
            ),
            _ => Err(ErrorKind::TypeMismatch),
        }
    } else if str_eq(entry.key.as_str(), "no_children") {
        match &entry.value {
            MetaValue::Flag(b) => Ok(
                StructComponentAttrArgs {
                    tag: args.tag,
                    dynamic_tag: args.dynamic_tag,
                    no_children: Some(*b),
                },
            ),
            _ => Err(ErrorKind::TypeMismatch),
        }
    } else {
        Err(ErrorKind::UnknownOption(entry.key.clone()))
    }
}

/// Parses one metadata annotation into a structured configuration, or fails
/// with a diagnostic at the annotation's span.
pub fn parse_struct_component_attr(annotation: &Annotation) -> (r: Result<
    StructComponentAttrArgs,
    CompileError,
>)
    ensures
        (match r {
            Ok(args) => spec_parse_annotation(annotation@) == Ok::<SpecAttrArgs, SpecError>(
                args@,
            ),
            Err(e) => spec_parse_annotation(annotation@) == Err::<SpecAttrArgs, SpecError>(e@),
        }),
{
    match &annotation.form {
        AnnotationForm::Malformed => Err(
            CompileError { kind: ErrorKind::MalformedAnnotation, span: annotation.span },
        ),
        AnnotationForm::Entries(entries) => {
            let ghost ev = entries_view(entries@);
            let mut args = StructComponentAttrArgs::default();
            let mut i: usize = 0;
            while i < entries.len()
                invariant
                    0 <= i <= entries@.len(),
                    ev == entries_view(entries@),
                    annotation@.form == SpecAnnotationForm::Entries(ev),
                    spec_parse_entries_from(ev, i as int, args@) == spec_parse_entries_from(
                        ev,
                        0,
                        spec_empty_args(),
                    ),
                decreases entries@.len() - i,
            {
                proof {
                    assert(ev[i as int] == entries@[i as int]@);
                }
                let ghost argsv = args@;
                match apply_entry(args, &entries[i]) {
                    Ok(next) => {
                        proof {
                            assert(spec_parse_entries_from(ev, i as int, argsv)
                                == spec_parse_entries_from(ev, i as int + 1, next@));
                        }
                        args = next;
                    },
                    Err(k) => {
                        proof {
                            assert(spec_parse_entries_from(ev, i as int, argsv) == Err::<
                                SpecAttrArgs,
                                SpecErrorKind,
                            >(k@));
                            assert(spec_parse_entries_from(ev, 0, spec_empty_args()) == Err::<
                                SpecAttrArgs,
                                SpecErrorKind,
                            >(k@));
                            assert(annotation@.form == SpecAnnotationForm::Entries(ev));
                            assert(spec_parse_annotation(annotation@) == Err::<
                                SpecAttrArgs,
                                SpecError,
                            >(SpecError { kind: k@, span: annotation.span }));
                        }
                        return Err(CompileError { kind: k, span: annotation.span });
                    },
                }
                i += 1;
            }
            Ok(args)
        },
    }
}

} // verus!
