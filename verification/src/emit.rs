//! The construction-procedure emitter: turns a compiled schema into the
//! ordered list of steps that builds one element. The phase order is fixed
//! and never reordered, whatever the declaration order across phases:
//!
//! 1. tag instantiation — a static call, or a match over the selector;
//! 2. node-reference attachment, where a property receives the element;
//! 3. attribute application, one step per attribute in declaration order;
//! 4. listener registration, one step per listener in declaration order;
//! 5. children attachment, exactly where children are allowed;
//! 6. finalization into the host's type-erased view, always last.
//!
//! Later phases may read element state established by earlier ones, so the
//! emitted order is part of the compiler's contract. In the dynamic-tag case
//! the tag step carries the whole case table; every match arm wraps the same
//! later phases around its own tag, so the steps after the first are shared
//! by all arms.

use vstd::prelude::*;
use crate::component::{
    cases_view, ComponentSchema, PropertySpec, Role, SpecComponentSchema, SpecPropertySpec,
    SpecRole, SpecTagCase, SpecTagConfig, TagConfig,
};

verus! {

// ------------------------------------------------------------------
// Mathematical model
// ------------------------------------------------------------------
/// Model of one construction step.
pub enum SpecStep {
    InstantiateTag(Seq<char>),
    InstantiateTagByMatch { selector: Seq<char>, cases: Seq<SpecTagCase> },
    AttachNodeRef,
    ApplyAttribute { name: Seq<char>, reactive: bool },
    RegisterListener { name: Seq<char>, event: Seq<char>, optional: bool },
    AttachChildren,
    Finalize,
}

/// The tag-instantiation step of a tag configuration.
pub open spec fn spec_tag_step(cfg: SpecTagConfig) -> SpecStep {
    match cfg {
        SpecTagConfig::StaticTag(tag) => SpecStep::InstantiateTag(tag),
        SpecTagConfig::DynamicTag { selector, cases } => SpecStep::InstantiateTagByMatch {
            selector,
            cases,
        },
    }
}

/// Whether some property receives the node reference.
pub open spec fn spec_has_node_ref(props: Seq<SpecPropertySpec>) -> bool {
    exists|i: int| 0 <= i < props.len() && (#[trigger] props[i]).role is NodeRefSink
}

/// The attribute steps of the properties from index `i` on, in declaration
/// order: one step per plain or reactive attribute.
pub open spec fn spec_attr_steps_from(props: Seq<SpecPropertySpec>, i: int) -> Seq<SpecStep>
    decreases props.len() - i,
{
    if i < 0 || i >= props.len() {
        Seq::empty()
    } else {
        let rest = spec_attr_steps_from(props, i + 1);
        match props[i].role {
            SpecRole::PlainAttribute => seq![
                SpecStep::ApplyAttribute { name: props[i].name, reactive: false },
            ] + rest,
            SpecRole::ReactiveAttribute => seq![
                SpecStep::ApplyAttribute { name: props[i].name, reactive: true },
            ] + rest,
            _ => rest,
        }
    }
}

/// The listener steps of the properties from index `i` on, in declaration
/// order: one step per event listener.
pub open spec fn spec_listener_steps_from(props: Seq<SpecPropertySpec>, i: int) -> Seq<SpecStep>
    decreases props.len() - i,
{
    if i < 0 || i >= props.len() {
        Seq::empty()
    } else {
        let rest = spec_listener_steps_from(props, i + 1);
        match props[i].role {
            SpecRole::EventListener { event, optional } => seq![
                SpecStep::RegisterListener { name: props[i].name, event, optional },
            ] + rest,
            _ => rest,
        }
    }
}

/// The whole emitted procedure of a compiled schema, phase by phase.
pub open spec fn spec_emit(s: SpecComponentSchema) -> Seq<SpecStep> {
    seq![spec_tag_step(s.tag_config)] + (if spec_has_node_ref(s.props) {
        seq![SpecStep::AttachNodeRef]
    } else {
        Seq::<SpecStep>::empty()
    }) + spec_attr_steps_from(s.props, 0) + spec_listener_steps_from(s.props, 0) + (
    if s.children_allowed {
        seq![SpecStep::AttachChildren]
    } else {
        Seq::<SpecStep>::empty()
    }) + seq![SpecStep::Finalize]
}

// ------------------------------------------------------------------
// Executable representation
// ------------------------------------------------------------------
/// One step of the emitted construction procedure.
#[derive(Debug, Clone, PartialEq, Eq)]
pub enum Step {
    /// Instantiate the fixed tag.
    InstantiateTag(String),
    /// Match on the selector property's runtime value and instantiate the
    /// matching case's tag; every arm continues with the same later steps.
    InstantiateTagByMatch { selector: String, cases: Vec<crate::component::TagCase> },
    /// Hand the freshly built element to the node-reference property.
    AttachNodeRef,
    /// Apply one property as an attribute; a reactive step passes an
    /// accessor that is re-read on every rebuild, a plain step passes the
    /// value once.
    ApplyAttribute { name: String, reactive: bool },
    /// Register one property as a listener for its event; an optional step
    /// checks for presence before invoking.
    RegisterListener { name: String, event: String, optional: bool },
    /// Attach the children, tolerating an absent children argument.
    AttachChildren,
    /// Convert the configured element into the host's type-erased view.
    Finalize,
}

impl View for Step {
    type V = SpecStep;

    open spec fn view(&self) -> SpecStep {
        match self {
            Step::InstantiateTag(tag) => SpecStep::InstantiateTag(tag@),
            Step::InstantiateTagByMatch { selector, cases } => SpecStep::InstantiateTagByMatch {
                selector: selector@,
                cases: cases_view(cases@),
            },
            Step::AttachNodeRef => SpecStep::AttachNodeRef,
            Step::ApplyAttribute { name, reactive } => SpecStep::ApplyAttribute {
                name: name@,
                reactive: *reactive,
            },
            Step::RegisterListener { name, event, optional } => SpecStep::RegisterListener {
                name: name@,
                event: event@,
                optional: *optional,
            },
            Step::AttachChildren => SpecStep::AttachChildren,
            Step::Finalize => SpecStep::Finalize,
        }
    }
}

/// The views of a step list.
pub open spec fn steps_view(v: Seq<Step>) -> Seq<SpecStep> {
    v.map_values(|s: Step| s@)
}

/// An emitted construction procedure: the ordered steps that build one
/// element. The procedure is pure description; it owns no runtime state.
#[derive(Debug, Clone, PartialEq, Eq)]
pub struct ConstructionProcedure {
    pub steps: Vec<Step>,
}

impl View for ConstructionProcedure {
    type V = Seq<SpecStep>;

    open spec fn view(&self) -> Seq<SpecStep> {
        steps_view(self.steps@)
    }
}

/// Decides whether some property receives the node reference.
fn has_node_ref(props: &Vec<PropertySpec>) -> (r: bool)
    ensures
        r == spec_has_node_ref(crate::component::props_view(props@)),
{
    let ghost pv = crate::component::props_view(props@);
    let mut i: usize = 0;
    while i < props.len()
        invariant
            0 <= i <= props@.len(),
            pv == crate::component::props_view(props@),
            forall|j: int| 0 <= j < i ==> !((#[trigger] pv[j]).role is NodeRefSink),
        decreases props@.len() - i,
    {
        proof {
            assert(pv[i as int] == props@[i as int]@);
        }
        if matches!(props[i].role, Role::NodeRefSink) {
            return true;
        }
        i += 1;
    }
    false
}

/// Emits the attribute phase: one step per plain or reactive attribute, in
/// declaration order.
fn push_attr_steps(steps: &mut Vec<Step>, props: &Vec<PropertySpec>)
    ensures
        steps_view(final(steps)@) == steps_view(old(steps)@) + spec_attr_steps_from(
            crate::component::props_view(props@),
            0,
        ),
{
    let ghost pv = crate::component::props_view(props@);
    let ghost base = steps_view(steps@);
    let mut i: usize = 0;
    while i < props.len()
        invariant
            0 <= i <= props@.len(),
            pv == crate::component::props_view(props@),
            steps_view(steps@) + spec_attr_steps_from(pv, i as int) == base
                + spec_attr_steps_from(pv, 0),
        decreases props@.len() - i,
    {
        proof {
            assert(pv[i as int] == props@[i as int]@);
        }
        let ghost old_sv = steps_view(steps@);
        match &props[i].role {
            Role::PlainAttribute => {
                let step = Step::ApplyAttribute { name: props[i].name.clone(), reactive: false };
                let ghost stepv = step@;
                steps.push(step);
                proof {
                    assert(steps_view(steps@) =~= old_sv.push(stepv));
                    assert(spec_attr_steps_from(pv, i as int) == seq![stepv]
                        + spec_attr_steps_from(pv, i as int + 1));
                    assert(old_sv.push(stepv) + spec_attr_steps_from(pv, i as int + 1) =~= old_sv
                        + spec_attr_steps_from(pv, i as int));
                }
            },
            Role::ReactiveAttribute => {
                let step = Step::ApplyAttribute { name: props[i].name.clone(), reactive: true };
                let ghost stepv = step@;
                steps.push(step);
                proof {
                    assert(steps_view(steps@) =~= old_sv.push(stepv));
                    assert(spec_attr_steps_from(pv, i as int) == seq![stepv]
                        + spec_attr_steps_from(pv, i as int + 1));
                    assert(old_sv.push(stepv) + spec_attr_steps_from(pv, i as int + 1) =~= old_sv
                        + spec_attr_steps_from(pv, i as int));
                }
            },
            _ => {
                proof {
                    assert(spec_attr_steps_from(pv, i as int) == spec_attr_steps_from(
                        pv,
                        i as int + 1,
                    ));
                }
            },
        }
        i += 1;
    }
    proof {
        assert(spec_attr_steps_from(pv, props@.len() as int) =~= Seq::<SpecStep>::empty());
        assert(steps_view(steps@) + Seq::<SpecStep>::empty() =~= steps_view(steps@));
    }
}

/// Emits the listener phase: one step per event listener, in declaration
/// order.
fn push_listener_steps(steps: &mut Vec<Step>, props: &Vec<PropertySpec>)
    ensures
        steps_view(final(steps)@) == steps_view(old(steps)@) + spec_listener_steps_from(
            crate::component::props_view(props@),
            0,
        ),
{
    let ghost pv = crate::component::props_view(props@);
    let ghost base = steps_view(steps@);
    let mut i: usize = 0;
    while i < props.len()
        invariant
            0 <= i <= props@.len(),
            pv == crate::component::props_view(props@),
            steps_view(steps@) + spec_listener_steps_from(pv, i as int) == base
                + spec_listener_steps_from(pv, 0),
        decreases props@.len() - i,
    {
        proof {
            assert(pv[i as int] == props@[i as int]@);
        }
        let ghost old_sv = steps_view(steps@);
        match &props[i].role {
            Role::EventListener { event, optional } => {
                let step = Step::RegisterListener {
                    name: props[i].name.clone(),
                    event: event.clone(),
                    optional: *optional,
                };
                let ghost stepv = step@;
                steps.push(step);
                proof {
                    assert(steps_view(steps@) =~= old_sv.push(stepv));
                    assert(spec_listener_steps_from(pv, i as int) == seq![stepv]
                        + spec_listener_steps_from(pv, i as int + 1));
                    assert(old_sv.push(stepv) + spec_listener_steps_from(pv, i as int + 1)
                        =~= old_sv + spec_listener_steps_from(pv, i as int));
                }
            },
            _ => {
                proof {
                    assert(spec_listener_steps_from(pv, i as int) == spec_listener_steps_from(
                        pv,
                        i as int + 1,
                    ));
                }
            },
        }
        i += 1;
    }
    proof {
        assert(spec_listener_steps_from(pv, props@.len() as int) =~= Seq::<SpecStep>::empty());
        assert(steps_view(steps@) + Seq::<SpecStep>::empty() =~= steps_view(steps@));
    }
}

/// Emits the construction procedure of a compiled schema, phase by phase in
/// the fixed order: tag, node reference, attributes, listeners, children,
/// finalization.
pub fn emit(schema: ComponentSchema) -> (r: ConstructionProcedure)
    ensures
        r@ == spec_emit(schema@),
{
    let ghost sv = schema@;
    let mut steps: Vec<Step> = Vec::new();
    let tag_step = match schema.tag_config {
        TagConfig::StaticTag(tag) => Step::InstantiateTag(tag),
        TagConfig::DynamicTag { selector, cases } => Step::InstantiateTagByMatch {
            selector,
            cases,
        },
    };
    proof {
        assert(tag_step@ == spec_tag_step(sv.tag_config));
    }
    steps.push(tag_step);
    proof {
        assert(steps_view(steps@) =~= seq![spec_tag_step(sv.tag_config)]);
    }
    let ghost phase1 = steps_view(steps@);
    if has_node_ref(&schema.props) {
        steps.push(Step::AttachNodeRef);
        proof {
            assert(steps_view(steps@) =~= phase1.push(SpecStep::AttachNodeRef));
            assert(steps_view(steps@) =~= phase1 + seq![SpecStep::AttachNodeRef]);
        }
    }
    proof {
        assert(steps_view(steps@) =~= phase1 + (if spec_has_node_ref(sv.props) {
            seq![SpecStep::AttachNodeRef]
        } else {
            Seq::<SpecStep>::empty()
        }));
    }
    let ghost phase2 = steps_view(steps@);
    push_attr_steps(&mut steps, &schema.props);
    let ghost phase3 = steps_view(steps@);
    push_listener_steps(&mut steps, &schema.props);
    let ghost phase4 = steps_view(steps@);
    if schema.children_allowed {
        steps.push(Step::AttachChildren);
        proof {
            assert(steps_view(steps@) =~= phase4.push(SpecStep::AttachChildren));
            assert(steps_view(steps@) =~= phase4 + seq![SpecStep::AttachChildren]);
        }
    }
    proof {
        assert(steps_view(steps@) =~= phase4 + (if sv.children_allowed {
            seq![SpecStep::AttachChildren]
        } else {
            Seq::<SpecStep>::empty()
        }));
    }
    let ghost phase5 = steps_view(steps@);
    steps.push(Step::Finalize);
    proof {
        assert(steps_view(steps@) =~= phase5.push(SpecStep::Finalize));
        assert(steps_view(steps@) =~= phase5 + seq![SpecStep::Finalize]);
        assert(steps_view(steps@) =~= spec_emit(sv));
    }
    ConstructionProcedure { steps }
}

} // verus!
