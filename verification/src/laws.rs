//! Laws of the compiler, stated over the mathematical model and proved once
//! for all inputs: what the first emitted step is for each tag plan, how the
//! dynamic case table mirrors the declared cases, which steps listener and
//! reactive properties contribute, and that compilation is a pure function
//! of the declaration.

use vstd::prelude::*;
use crate::classify::{spec_classify, spec_event_of, spec_on_prefix};
use crate::compile::spec_compile;
use crate::component::{SpecComponentSchema, SpecPropertySpec, SpecRole, SpecTagConfig};
use crate::emit::{spec_attr_steps_from, spec_emit, spec_listener_steps_from, SpecStep};
use crate::error::{SpecError, SpecErrorKind};
use crate::component::SpecTagCase;
use crate::parse::{spec_case_of, spec_cases, spec_cases_from};
use crate::schema::{SpecPattern, SpecSchemaDecl, TypeShape};

verus! {

/// For every compiled schema with a static tag, the emitted procedure opens
/// with exactly that tag's instantiation — whatever the properties declare
/// and in whatever order — and closes with finalization.
pub proof fn lemma_static_tag_first_step(s: SpecComponentSchema, tag: Seq<char>)
    requires
        s.tag_config == SpecTagConfig::StaticTag(tag),
    ensures
        spec_emit(s).len() >= 2,
        spec_emit(s)[0] == SpecStep::InstantiateTag(tag),
        spec_emit(s).last() == SpecStep::Finalize,
{
    assert(spec_emit(s)[0] == SpecStep::InstantiateTag(tag));
    assert(spec_emit(s).last() == SpecStep::Finalize);
}

/// For every compiled schema with a dynamic tag, the emitted procedure
/// opens with the match over the selector, carrying the case table exactly
/// as the schema resolved it: one arm per case, in the declared order.
pub proof fn lemma_dynamic_tag_first_step(
    s: SpecComponentSchema,
    selector: Seq<char>,
    cases: Seq<SpecTagCase>,
)
    requires
        s.tag_config == (SpecTagConfig::DynamicTag { selector, cases }),
    ensures
        spec_emit(s).len() >= 2,
        spec_emit(s)[0] == (SpecStep::InstantiateTagByMatch { selector, cases }),
        spec_emit(s).last() == SpecStep::Finalize,
{
    assert(spec_emit(s)[0] == SpecStep::InstantiateTagByMatch { selector, cases });
    assert(spec_emit(s).last() == SpecStep::Finalize);
}

/// For every pattern list made of qualified paths — the only kind a
/// declared case list holds — the parsed case table has exactly one case
/// per declared pattern, and the case at each position is the one its
/// pattern contributes: case order equals declaration order.
pub proof fn lemma_case_table_order(ps: Seq<SpecPattern>)
    requires
        forall|i: int|
            0 <= i < ps.len() ==> ((#[trigger] ps[i]) matches SpecPattern::Path(segments)
                && segments.len() > 0),
    ensures
        spec_cases(ps).len() == ps.len(),
        forall|i: int| 0 <= i < ps.len() ==> spec_case_of(ps[i]) == Some(spec_cases(ps)[i]),
{
    lemma_case_table_order_from(ps, 0);
    assert forall|i: int| 0 <= i < ps.len() implies spec_case_of(ps[i]) == Some(
        spec_cases(ps)[i],
    ) by {
        assert(spec_case_of(ps[i]) == Some(spec_cases_from(ps, 0)[i - 0]));
    }
}

proof fn lemma_case_table_order_from(ps: Seq<SpecPattern>, j: int)
    requires
        0 <= j <= ps.len(),
        forall|i: int|
            0 <= i < ps.len() ==> ((#[trigger] ps[i]) matches SpecPattern::Path(segments)
                && segments.len() > 0),
    ensures
        spec_cases_from(ps, j).len() == ps.len() - j,
        forall|i: int|
            j <= i < ps.len() ==> spec_case_of(ps[i]) == Some(
                #[trigger] spec_cases_from(ps, j)[i - j],
            ),
    decreases ps.len() - j,
{
    if j < ps.len() {
        lemma_case_table_order_from(ps, j + 1);
        let rest = spec_cases_from(ps, j + 1);
        let whole = spec_cases_from(ps, j);
        assert(ps[j] matches SpecPattern::Path(segments) && segments.len() > 0);
        match spec_case_of(ps[j]) {
            Some(c) => {
                assert(whole == seq![c] + rest);
                assert forall|i: int| j <= i < ps.len() implies spec_case_of(ps[i]) == Some(
                    #[trigger] spec_cases_from(ps, j)[i - j],
                ) by {
                    if i == j {
                        assert(whole[0] == c);
                    } else {
                        assert(spec_case_of(ps[i]) == Some(
                            spec_cases_from(ps, j + 1)[i - (j + 1)],
                        ));
                        assert(whole[i - j] == rest[i - (j + 1)]);
                    }
                }
            },
            None => {
                assert(false);
            },
        }
    }
}

/// For every property whose name is `on` followed by a non-empty suffix and
/// whose shape is a bare callback, classification yields an unconditional
/// listener for the lowercased suffix; with an optional callback shape it
/// yields a presence-checked listener for the same event.
pub proof fn lemma_on_prefix_listener(name: Seq<char>, shape: TypeShape)
    requires
        spec_on_prefix(name),
        shape is BareCallback || shape is OptionalCallback,
    ensures
        spec_classify(name, shape, false) == Ok::<SpecRole, SpecErrorKind>(
            SpecRole::EventListener {
                event: spec_event_of(name),
                optional: shape is OptionalCallback,
            },
        ),
{
    reveal_strlit("attributes");
    reveal_strlit("node_ref");
    assert(name != "attributes"@);
    assert(name != "node_ref"@);
}

/// For every property with a reactive-wrapped shape that no earlier rule
/// claims — it is not the tag selector and bears neither reserved name —
/// classification yields a reactive attribute, whose emitted step re-reads
/// its source on every rebuild rather than embedding a snapshot.
pub proof fn lemma_reactive_attribute(name: Seq<char>)
    requires
        name != "attributes"@,
        name != "node_ref"@,
    ensures
        spec_classify(name, TypeShape::Reactive, false) == Ok::<SpecRole, SpecErrorKind>(
            SpecRole::ReactiveAttribute,
        ),
{
}

/// Every property classified as a reactive attribute contributes an
/// attribute step that re-reads its source (`reactive` set); a plain
/// attribute contributes a snapshot step (`reactive` clear).
pub proof fn lemma_attr_step_of_property(props: Seq<SpecPropertySpec>, i: int)
    requires
        0 <= i < props.len(),
        props[i].role is ReactiveAttribute || props[i].role is PlainAttribute,
    ensures
        spec_attr_steps_from(props, 0).contains(
            SpecStep::ApplyAttribute {
                name: props[i].name,
                reactive: props[i].role is ReactiveAttribute,
            },
        ),
{
    lemma_attr_step_from(props, 0, i);
}

proof fn lemma_attr_step_from(props: Seq<SpecPropertySpec>, j: int, i: int)
    requires
        0 <= j <= i < props.len(),
        props[i].role is ReactiveAttribute || props[i].role is PlainAttribute,
    ensures
        spec_attr_steps_from(props, j).contains(
            SpecStep::ApplyAttribute {
                name: props[i].name,
                reactive: props[i].role is ReactiveAttribute,
            },
        ),
    decreases i - j,
{
    let step = SpecStep::ApplyAttribute {
        name: props[i].name,
        reactive: props[i].role is ReactiveAttribute,
    };
    let whole = spec_attr_steps_from(props, j);
    if j == i {
        assert(whole[0] == step);
        assert(whole.contains(step));
    } else {
        lemma_attr_step_from(props, j + 1, i);
        let rest = spec_attr_steps_from(props, j + 1);
        let k = choose|k: int| 0 <= k < rest.len() && rest[k] == step;
        if props[j].role is PlainAttribute || props[j].role is ReactiveAttribute {
            assert(whole[k + 1] == step);
            assert(whole.contains(step));
        } else {
            assert(whole[k] == step);
            assert(whole.contains(step));
        }
    }
}

/// Every property classified as an event listener contributes a listener
/// step for its event, presence-checked exactly where the callback is
/// optional.
pub proof fn lemma_listener_step_of_property(
    props: Seq<SpecPropertySpec>,
    i: int,
    event: Seq<char>,
    optional: bool,
)
    requires
        0 <= i < props.len(),
        props[i].role == (SpecRole::EventListener { event, optional }),
    ensures
        spec_listener_steps_from(props, 0).contains(
            SpecStep::RegisterListener { name: props[i].name, event, optional },
        ),
{
    lemma_listener_step_from(props, 0, i, event, optional);
}

proof fn lemma_listener_step_from(
    props: Seq<SpecPropertySpec>,
    j: int,
    i: int,
    event: Seq<char>,
    optional: bool,
)
    requires
        0 <= j <= i < props.len(),
        props[i].role == (SpecRole::EventListener { event, optional }),
    ensures
        spec_listener_steps_from(props, j).contains(
            SpecStep::RegisterListener { name: props[i].name, event, optional },
        ),
    decreases i - j,
{
    let step = SpecStep::RegisterListener { name: props[i].name, event, optional };
    let whole = spec_listener_steps_from(props, j);
    if j == i {
        assert(whole[0] == step);
        assert(whole.contains(step));
    } else {
        lemma_listener_step_from(props, j + 1, i, event, optional);
        let rest = spec_listener_steps_from(props, j + 1);
        let k = choose|k: int| 0 <= k < rest.len() && rest[k] == step;
        if props[j].role is EventListener {
            assert(whole[k + 1] == step);
            assert(whole.contains(step));
        } else {
            assert(whole[k] == step);
            assert(whole.contains(step));
        }
    }
}

/// The compiler is a pure function of the declaration: two compilations of
/// equal declarations yield equal outcomes — together with the compile
/// contract, compiling the same schema twice yields identical procedures.
pub proof fn lemma_compile_idempotent(
    d: SpecSchemaDecl,
    r1: Result<Seq<SpecStep>, SpecError>,
    r2: Result<Seq<SpecStep>, SpecError>,
)
    requires
        r1 == spec_compile(d),
        r2 == spec_compile(d),
    ensures
        r1 == r2,
{
}

} // verus!
