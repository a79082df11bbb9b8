//! The tag resolver: reconciles the schema-level tag metadata with the
//! property classified as the dynamic-tag selector. Exactly one source of
//! truth must exist — a static tag, or a selector property carrying its case
//! table. To declare neither is a fault; to declare both is one too.

use vstd::prelude::*;
use crate::component::{cases_view, SpecTagCase, SpecTagConfig, TagCase, TagConfig};
use crate::error::{ErrorKind, SpecErrorKind};

verus! {

/// Model of the selector found among the classified properties: its name
/// and the case table its annotation supplied.
pub struct SpecSelector {
    pub name: Seq<char>,
    pub cases: Seq<SpecTagCase>,
}

/// The resolved tag configuration, or the fault when no source of truth or
/// more than one exists.
pub open spec fn spec_resolve_tags(
    static_tag: Option<Seq<char>>,
    selector: Option<SpecSelector>,
) -> Result<SpecTagConfig, SpecErrorKind> {
    match (static_tag, selector) {
        (Some(tag), None) => Ok(SpecTagConfig::StaticTag(tag)),
        (None, Some(sel)) => Ok(
            SpecTagConfig::DynamicTag { selector: sel.name, cases: sel.cases },
        ),
        (None, None) => Err(SpecErrorKind::MissingTagSpecification),
        (Some(_), Some(_)) => Err(SpecErrorKind::ConflictingTagSpecification),
    }
}

/// The selector found among the classified properties: its name and the
/// case table its annotation supplied.
#[derive(Debug, Clone, PartialEq, Eq)]
pub struct Selector {
    pub name: String,
    pub cases: Vec<TagCase>,
}

impl View for Selector {
    type V = SpecSelector;

    open spec fn view(&self) -> SpecSelector {
        SpecSelector { name: self.name@, cases: cases_view(self.cases@) }
    }
}

/// Model of an optional value's view, for the resolver's inputs.
pub open spec fn spec_tag_opt(tag: Option<String>) -> Option<Seq<char>> {
    match tag {
        Some(t) => Some(t@),
        None => None,
    }
}

/// Model of the optional selector's view.
pub open spec fn spec_selector_opt(sel: Option<Selector>) -> Option<SpecSelector> {
    match sel {
        Some(s) => Some(s@),
        None => None,
    }
}

/// Resolves the tag configuration from the schema-level static tag and the
/// selector property, if either exists.
pub fn resolve_tags(static_tag: Option<String>, selector: Option<Selector>) -> (r: Result<
    TagConfig,
    ErrorKind,
>)
    ensures
        (match r {
            Ok(cfg) => spec_resolve_tags(spec_tag_opt(static_tag), spec_selector_opt(selector))
                == Ok::<SpecTagConfig, SpecErrorKind>(cfg@),
            Err(k) => spec_resolve_tags(spec_tag_opt(static_tag), spec_selector_opt(selector))
                == Err::<SpecTagConfig, SpecErrorKind>(k@),
        }),
{
    match (static_tag, selector) {
        (Some(tag), None) => Ok(TagConfig::StaticTag(tag)),
        (None, Some(sel)) => Ok(TagConfig::DynamicTag { selector: sel.name, cases: sel.cases }),
        (None, None) => Err(ErrorKind::MissingTagSpecification),
        (Some(_), Some(_)) => Err(ErrorKind::ConflictingTagSpecification),
    }
}

} // verus!
