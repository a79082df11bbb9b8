//! The compiled form of a schema: every property carries its derived role,
//! the tag configuration is resolved to exactly one of a static tag or a
//! dynamic-tag case table, and the children policy is settled. A value of
//! [`ComponentSchema`] is constructed once per compiled schema and consumed
//! entirely by the emitter.

use vstd::prelude::*;
use crate::schema::{segments_view, TypeShape};

verus! {

// ------------------------------------------------------------------
// Mathematical model
// ------------------------------------------------------------------
/// Model of one case of a dynamic-tag table: the match pattern's path
/// segments and the lowercased tag name derived from the last segment.
pub struct SpecTagCase {
    pub pattern: Seq<Seq<char>>,
    pub tag: Seq<char>,
}

/// Model of a property's role.
pub enum SpecRole {
    PlainAttribute,
    ReactiveAttribute,
    NodeRefSink,
    EventListener { event: Seq<char>, optional: bool },
    ChildrenSlot,
    TagSelector,
    Excluded,
}

/// Model of the resolved tag configuration.
pub enum SpecTagConfig {
    StaticTag(Seq<char>),
    DynamicTag { selector: Seq<char>, cases: Seq<SpecTagCase> },
}

/// Model of one compiled property.
pub struct SpecPropertySpec {
    pub name: Seq<char>,
    pub shape: TypeShape,
    pub role: SpecRole,
    pub declaration_order: int,
}

/// Model of a compiled schema.
pub struct SpecComponentSchema {
    pub name: Seq<char>,
    pub props: Seq<SpecPropertySpec>,
    pub tag_config: SpecTagConfig,
    pub children_allowed: bool,
}

/// The views of a case table.
pub open spec fn cases_view(v: Seq<TagCase>) -> Seq<SpecTagCase> {
    v.map_values(|c: TagCase| c@)
}

/// The views of a compiled property list.
pub open spec fn props_view(v: Seq<PropertySpec>) -> Seq<SpecPropertySpec> {
    v.map_values(|p: PropertySpec| p@)
}

/// Well-formedness of a compiled schema, established by compilation and
/// assumed by the emitter: properties keep their declaration order; at most
/// one property receives the node reference; at most one property is a
/// children slot; and a dynamic tag configuration names a property that is
/// classified as its selector.
pub open spec fn schema_wf(s: SpecComponentSchema) -> bool {
    &&& forall|i: int| 0 <= i < s.props.len() ==> (#[trigger] s.props[i]).declaration_order == i
    &&& forall|i: int, j: int|
        0 <= i < j < s.props.len() && (#[trigger] s.props[i]).role is NodeRefSink ==> !((
        #[trigger] s.props[j]).role is NodeRefSink)
    &&& forall|i: int, j: int|
        0 <= i < j < s.props.len() && (#[trigger] s.props[i]).role is ChildrenSlot ==> !((
        #[trigger] s.props[j]).role is ChildrenSlot)
    &&& (s.tag_config matches SpecTagConfig::DynamicTag { selector, cases } ==> exists|i: int|
        0 <= i < s.props.len() && (#[trigger] s.props[i]).name == selector
            && s.props[i].role is TagSelector)
}

// ------------------------------------------------------------------
// Executable representation
// ------------------------------------------------------------------
/// One case of a dynamic-tag table: the match pattern's path segments and
/// the tag name derived from the pattern's last segment, lowercased.
#[derive(Debug, Clone, PartialEq, Eq)]
pub struct TagCase {
    pub pattern: Vec<String>,
    pub tag: String,
}

impl View for TagCase {
    type V = SpecTagCase;

    open spec fn view(&self) -> SpecTagCase {
        SpecTagCase { pattern: segments_view(self.pattern@), tag: self.tag@ }
    }
}

/// The role a property plays in the emitted procedure. Classification
/// assigns exactly one role to every property.
#[derive(Debug, Clone, PartialEq, Eq)]
pub enum Role {
    /// An attribute whose value is applied once at construction time.
    PlainAttribute,
    /// An attribute whose value is re-read through an accessor on rebuild.
    ReactiveAttribute,
    /// The property that receives the constructed element's reference.
    NodeRefSink,
    /// A listener for the named event; an optional listener checks for
    /// presence before invoking.
    EventListener { event: String, optional: bool },
    /// The slot that receives the component's children. No classification
    /// rule assigns this role today; children are attached from the
    /// schema-level children policy instead, and the variant is part of the
    /// closed role set for the schema model.
    ChildrenSlot,
    /// The property whose runtime value selects the dynamic tag.
    TagSelector,
    /// A property explicitly opted out of emission.
    Excluded,
}

impl View for Role {
    type V = SpecRole;

    open spec fn view(&self) -> SpecRole {
        match self {
            Role::PlainAttribute => SpecRole::PlainAttribute,
            Role::ReactiveAttribute => SpecRole::ReactiveAttribute,
            Role::NodeRefSink => SpecRole::NodeRefSink,
            Role::EventListener { event, optional } => SpecRole::EventListener {
                event: event@,
                optional: *optional,
            },
            Role::ChildrenSlot => SpecRole::ChildrenSlot,
            Role::TagSelector => SpecRole::TagSelector,
            Role::Excluded => SpecRole::Excluded,
        }
    }
}

/// The resolved tag configuration: exactly one of a static tag or a
/// dynamic-tag case table keyed by a selector property.
#[derive(Debug, Clone, PartialEq, Eq)]
pub enum TagConfig {
    StaticTag(String),
    DynamicTag { selector: String, cases: Vec<TagCase> },
}

impl View for TagConfig {
    type V = SpecTagConfig;

    open spec fn view(&self) -> SpecTagConfig {
        match self {
            TagConfig::StaticTag(tag) => SpecTagConfig::StaticTag(tag@),
            TagConfig::DynamicTag { selector, cases } => SpecTagConfig::DynamicTag {
                selector: selector@,
                cases: cases_view(cases@),
            },
        }
    }
}

/// One compiled property: its name, its declared type shape, its derived
/// role, and its index in declaration order, which fixes emission order
/// within each phase.
#[derive(Debug, Clone, PartialEq, Eq)]
pub struct PropertySpec {
    pub name: String,
    pub shape: TypeShape,
    pub role: Role,
    pub declaration_order: usize,
}

impl View for PropertySpec {
    type V = SpecPropertySpec;

    open spec fn view(&self) -> SpecPropertySpec {
        SpecPropertySpec {
            name: self.name@,
            shape: self.shape,
            role: self.role@,
            declaration_order: self.declaration_order as int,
        }
    }
}

/// A compiled schema, ready for emission.
#[derive(Debug, Clone, PartialEq, Eq)]
pub struct ComponentSchema {
    pub name: String,
    pub props: Vec<PropertySpec>,
    pub tag_config: TagConfig,
    pub children_allowed: bool,
}

impl View for ComponentSchema {
    type V = SpecComponentSchema;

    open spec fn view(&self) -> SpecComponentSchema {
        SpecComponentSchema {
            name: self.name@,
            props: props_view(self.props@),
            tag_config: self.tag_config@,
            children_allowed: self.children_allowed,
        }
    }
}

} // verus!
