//! The compilation pipeline: schema-level metadata first, then per-property
//! metadata and classification, then tag resolution, then emission. The
//! first structural fault aborts compilation of the schema and carries the
//! span of the offending annotation or property; independent schemas are
//! compiled by independent calls and cannot suppress each other's
//! diagnostics.
//!
//! Schema-level annotations are applied in source order, each successfully
//! parsed annotation replacing the configuration wholesale, so the last one
//! wins. Of a property's annotations only the first is honored. A second
//! property asking for the node reference is a fault, as is a schema that
//! declares both a static tag and a dynamic-tag selector, or neither.

use vstd::prelude::*;
use crate::classify::{classify, spec_classify};
use crate::component::{
    props_view, schema_wf, ComponentSchema, PropertySpec, Role, SpecComponentSchema,
    SpecPropertySpec,
};
use crate::emit::{emit, spec_emit, spec_has_node_ref, ConstructionProcedure, SpecStep};
use crate::error::{CompileError, ErrorKind, SpecError, SpecErrorKind};
use crate::parse::{
    parse_struct_component_attr, spec_empty_args, spec_parse_annotation, SpecAttrArgs,
    StructComponentAttrArgs,
};
use crate::schema::{
    anns_view, prop_decls_view, SchemaDecl, SpecPropertyDecl, SpecSchemaDecl,
};
use crate::tags::{
    resolve_tags, spec_resolve_tags, spec_selector_opt, spec_tag_opt, Selector, SpecSelector,
};

verus! {

// ------------------------------------------------------------------
// Mathematical model
// ------------------------------------------------------------------
/// The schema-level configuration after the annotations from index `i` on
/// are applied to `args`: each parsed annotation replaces the configuration
/// wholesale, and the first fault aborts.
pub open spec fn spec_schema_args_from(
    anns: Seq<crate::schema::SpecAnnotation>,
    i: int,
    args: SpecAttrArgs,
) -> Result<SpecAttrArgs, SpecError>
    decreases anns.len() - i,
{
    if i < 0 || i >= anns.len() {
        Ok(args)
    } else {
        match spec_parse_annotation(anns[i]) {
            Ok(next) => spec_schema_args_from(anns, i + 1, next),
            Err(e) => Err(e),
        }
    }
}

/// The configuration a property's own annotations contribute: the first
/// annotation is honored, a property without annotations contributes the
/// empty configuration.
pub open spec fn spec_prop_args(p: SpecPropertyDecl) -> Result<SpecAttrArgs, SpecError> {
    if p.annotations.len() == 0 {
        Ok(spec_empty_args())
    } else {
        spec_parse_annotation(p.annotations[0])
    }
}

/// One property's compilation: its annotation parsed, its role classified,
/// and the selector it supplies where its annotation carries a case table.
pub open spec fn spec_classify_step(p: SpecPropertyDecl, order: int) -> Result<
    (SpecPropertySpec, Option<SpecSelector>),
    SpecError,
> {
    match spec_prop_args(p) {
        Err(e) => Err(e),
        Ok(args) => match spec_classify(p.name, p.shape, args.dynamic_tag is Some) {
            Err(k) => Err(SpecError { kind: k, span: p.span }),
            Ok(role) => Ok(
                (
                    SpecPropertySpec {
                        name: p.name,
                        shape: p.shape,
                        role,
                        declaration_order: order,
                    },
                    match args.dynamic_tag {
                        Some(cases) => Some(SpecSelector { name: p.name, cases }),
                        None => None,
                    },
                ),
            ),
        },
    }
}

/// The compiled properties and the selector of the declarations from index
/// `i` on, accumulated onto `acc` and `sel`: properties are compiled in
/// declaration order, a later selector replaces an earlier one, and a second
/// property asking for the node reference is a fault at its span.
pub open spec fn spec_classify_props_from(
    props: Seq<SpecPropertyDecl>,
    i: int,
    acc: Seq<SpecPropertySpec>,
    sel: Option<SpecSelector>,
) -> Result<(Seq<SpecPropertySpec>, Option<SpecSelector>), SpecError>
    decreases props.len() - i,
{
    if i < 0 || i >= props.len() {
        Ok((acc, sel))
    } else {
        match spec_classify_step(props[i], acc.len() as int) {
            Err(e) => Err(e),
            Ok((ps, new_sel)) => if ps.role is NodeRefSink && spec_has_node_ref(acc) {
                Err(SpecError { kind: SpecErrorKind::DuplicateNodeRef, span: props[i].span })
            } else {
                spec_classify_props_from(
                    props,
                    i + 1,
                    acc.push(ps),
                    match new_sel {
                        Some(s) => Some(s),
                        None => sel,
                    },
                )
            },
        }
    }
}

/// Whether the selector, where one exists, is witnessed among the compiled
/// properties: some property bears its name and is classified as the tag
/// selector.
pub open spec fn spec_selector_witnessed(
    props: Seq<SpecPropertySpec>,
    sel: Option<SpecSelector>,
) -> bool {
    match sel {
        Some(s) => exists|k: int|
            0 <= k < props.len() && (#[trigger] props[k]).name == s.name && props[k].role
                is TagSelector,
        None => true,
    }
}

/// A witnessed selector stays witnessed when one more property is compiled.
proof fn lemma_witness_push(
    props: Seq<SpecPropertySpec>,
    sel: Option<SpecSelector>,
    p: SpecPropertySpec,
)
    requires
        spec_selector_witnessed(props, sel),
    ensures
        spec_selector_witnessed(props.push(p), sel),
{
    match sel {
        Some(s) => {
            let k = choose|k: int|
                0 <= k < props.len() && (#[trigger] props[k]).name == s.name && props[k].role
                    is TagSelector;
            assert(props.push(p)[k] == props[k]);
        },
        None => {},
    }
}

/// What analysis of a declaration yields: the compiled schema, or the first
/// structural fault. Children are allowed unless `no_children` is set to
/// true; the tag-resolution faults carry the declaration's span.
pub open spec fn spec_analyze(d: SpecSchemaDecl) -> Result<SpecComponentSchema, SpecError> {
    match spec_schema_args_from(d.annotations, 0, spec_empty_args()) {
        Err(e) => Err(e),
        Ok(args) => match spec_classify_props_from(d.props, 0, Seq::empty(), None) {
            Err(e) => Err(e),
            Ok((props, sel)) => match spec_resolve_tags(args.tag, sel) {
                Err(k) => Err(SpecError { kind: k, span: d.span }),
                Ok(cfg) => Ok(
                    SpecComponentSchema {
                        name: d.name,
                        props,
                        tag_config: cfg,
                        children_allowed: !(args.no_children == Some(true)),
                    },
                ),
            },
        },
    }
}

/// What compiling a declaration yields: the emitted procedure of the
/// analyzed schema, or the first structural fault.
pub open spec fn spec_compile(d: SpecSchemaDecl) -> Result<Seq<SpecStep>, SpecError> {
    match spec_analyze(d) {
        Ok(s) => Ok(spec_emit(s)),
        Err(e) => Err(e),
    }
}

// ------------------------------------------------------------------
// Executable pipeline
// ------------------------------------------------------------------
/// Decides whether some already-compiled property receives the node
/// reference.
fn scan_node_ref(props: &Vec<PropertySpec>) -> (r: bool)
    ensures
        r == spec_has_node_ref(props_view(props@)),
{
    let ghost pv = props_view(props@);
    let mut i: usize = 0;
    while i < props.len()
        invariant
            0 <= i <= props@.len(),
            pv == props_view(props@),
            forall|j: int| 0 <= j < i ==> !((#[trigger] pv[j]).role is NodeRefSink),
        decreases props@.len() - i,
    {
        proof {
            assert(pv[i as int] == props@[i as int]@);
        }
        if matches!(props[i].role, Role::NodeRefSink) {
            return true;
        }
        i += 1;
    }
    false
}

/// Analyzes a schema declaration into its compiled form: parses the
/// schema-level and per-property metadata, classifies every property,
/// checks the node reference is unique, and resolves the tag plan. A
/// compiled schema is well-formed.
pub fn analyze(decl: &SchemaDecl) -> (r: Result<ComponentSchema, CompileError>)
    ensures
        (match r {
            Ok(s) => spec_analyze(decl@) == Ok::<SpecComponentSchema, SpecError>(s@)
                && schema_wf(s@),
            Err(e) => spec_analyze(decl@) == Err::<SpecComponentSchema, SpecError>(e@),
        }),
{
    let ghost dv = decl@;
    let ghost av = anns_view(decl.annotations@);

    // Schema-level metadata: apply every annotation in order, last wins.
    let mut args = StructComponentAttrArgs::default();
    let mut i: usize = 0;
    while i < decl.annotations.len()
        invariant
            0 <= i <= decl.annotations@.len(),
            dv == decl@,
            av == anns_view(decl.annotations@),
            av == dv.annotations,
            spec_schema_args_from(av, i as int, args@) == spec_schema_args_from(
                av,
                0,
                spec_empty_args(),
            ),
        decreases decl.annotations@.len() - i,
    {
        proof {
            assert(av[i as int] == decl.annotations@[i as int]@);
        }
        let ghost argsv = args@;
        match parse_struct_component_attr(&decl.annotations[i]) {
            Ok(next) => {
                proof {
                    assert(spec_schema_args_from(av, i as int, argsv) == spec_schema_args_from(
                        av,
                        i as int + 1,
                        next@,
                    ));
                }
                args = next;
            },
            Err(e) => {
                proof {
                    assert(spec_schema_args_from(av, i as int, argsv) == Err::<
                        SpecAttrArgs,
                        SpecError,
                    >(e@));
                    assert(spec_analyze(dv) == Err::<SpecComponentSchema, SpecError>(e@));
                }
                return Err(e);
            },
        }
        i += 1;
    }
    proof {
        assert(spec_schema_args_from(av, 0, spec_empty_args()) == Ok::<SpecAttrArgs, SpecError>(
            args@,
        ));
    }
    let ghost argsv = args@;

    // Per-property metadata and classification, in declaration order.
    let ghost pv = prop_decls_view(decl.props@);
    let mut props: Vec<PropertySpec> = Vec::new();
    let mut selector: Option<Selector> = None;
    proof {
        assert(props_view(props@) =~= Seq::<SpecPropertySpec>::empty());
    }
    let mut j: usize = 0;
    while j < decl.props.len()
        invariant
            0 <= j <= decl.props@.len(),
            dv == decl@,
            pv == prop_decls_view(decl.props@),
            pv == dv.props,
            av == dv.annotations,
            spec_schema_args_from(av, 0, spec_empty_args()) == Ok::<SpecAttrArgs, SpecError>(
                argsv,
            ),
            props@.len() == j,
            spec_classify_props_from(
                pv,
                j as int,
                props_view(props@),
                spec_selector_opt(selector),
            ) == spec_classify_props_from(pv, 0, Seq::empty(), None),
            forall|k: int|
                0 <= k < props@.len() ==> (#[trigger] props_view(props@)[k]).declaration_order
                    == k,
            forall|k: int, l: int|
                0 <= k < l < props@.len() && (#[trigger] props_view(props@)[k]).role
                    is NodeRefSink ==> !((#[trigger] props_view(props@)[l]).role is NodeRefSink),
            forall|k: int|
                0 <= k < props@.len() ==> !((#[trigger] props_view(props@)[k]).role
                    is ChildrenSlot),
            spec_selector_witnessed(props_view(props@), spec_selector_opt(selector)),
        decreases decl.props@.len() - j,
    {
        let p = &decl.props[j];
        proof {
            assert(pv[j as int] == decl.props@[j as int]@);
        }
        let ghost accv = props_view(props@);
        let ghost selv = spec_selector_opt(selector);

        // The property's own configuration: its first annotation.
        let prop_args: StructComponentAttrArgs;
        if p.annotations.len() == 0 {
            prop_args = StructComponentAttrArgs::default();
            proof {
                assert(spec_prop_args(pv[j as int]) == Ok::<SpecAttrArgs, SpecError>(
                    prop_args@,
                ));
            }
        } else {
            proof {
                assert(pv[j as int].annotations[0] == p.annotations@[0]@);
            }
            match parse_struct_component_attr(&p.annotations[0]) {
                Ok(a) => {
                    prop_args = a;
                    proof {
                        assert(spec_prop_args(pv[j as int]) == Ok::<SpecAttrArgs, SpecError>(
                            prop_args@,
                        ));
                    }
                },
                Err(e) => {
                    proof {
                        assert(spec_prop_args(pv[j as int]) == Err::<SpecAttrArgs, SpecError>(
                            e@,
                        ));
                        assert(spec_classify_step(pv[j as int], accv.len() as int) == Err::<
                            (SpecPropertySpec, Option<SpecSelector>),
                            SpecError,
                        >(e@));
                        assert(spec_classify_props_from(pv, j as int, accv, selv) == Err::<
                            (Seq<SpecPropertySpec>, Option<SpecSelector>),
                            SpecError,
                        >(e@));
                        assert(spec_analyze(dv) == Err::<SpecComponentSchema, SpecError>(e@));
                    }
                    return Err(e);
                },
            }
        }
        let ghost pargsv = prop_args@;
        let has_dyn = prop_args.dynamic_tag.is_some();
        proof {
            assert(has_dyn == (pargsv.dynamic_tag is Some));
        }

        // The property's role, by the precedence rules.
        let role: Role;
        match classify(p.name.as_str(), p.shape, has_dyn) {
            Ok(ro) => {
                role = ro;
                proof {
                    assert(spec_classify(pv[j as int].name, pv[j as int].shape, has_dyn)
                        == Ok::<crate::component::SpecRole, SpecErrorKind>(role@));
                    assert(!(role@ is ChildrenSlot));
                    assert(has_dyn ==> role@ is TagSelector);
                }
            },
            Err(k) => {
                proof {
                    assert(spec_classify_step(pv[j as int], accv.len() as int) == Err::<
                        (SpecPropertySpec, Option<SpecSelector>),
                        SpecError,
                    >(SpecError { kind: k@, span: pv[j as int].span }));
                    assert(spec_classify_props_from(pv, j as int, accv, selv) == Err::<
                        (Seq<SpecPropertySpec>, Option<SpecSelector>),
                        SpecError,
                    >(SpecError { kind: k@, span: pv[j as int].span }));
                    assert(spec_analyze(dv) == Err::<SpecComponentSchema, SpecError>(
                        SpecError { kind: k@, span: pv[j as int].span },
                    ));
                }
                return Err(CompileError { kind: k, span: p.span });
            },
        }

        // A second node-reference property is a fault.
        if matches!(role, Role::NodeRefSink) && scan_node_ref(&props) {
            proof {
                assert(spec_classify_props_from(pv, j as int, accv, selv) == Err::<
                    (Seq<SpecPropertySpec>, Option<SpecSelector>),
                    SpecError,
                >(SpecError { kind: SpecErrorKind::DuplicateNodeRef, span: pv[j as int].span }));
                assert(spec_analyze(dv) == Err::<SpecComponentSchema, SpecError>(
                    SpecError { kind: SpecErrorKind::DuplicateNodeRef, span: pv[j as int].span },
                ));
            }
            return Err(CompileError { kind: ErrorKind::DuplicateNodeRef, span: p.span });
        }

        let ps = PropertySpec {
            name: p.name.clone(),
            shape: p.shape,
            role,
            declaration_order: j,
        };
        let ghost psv = ps@;
        if let Some(cases) = prop_args.dynamic_tag {
            selector = Some(Selector { name: p.name.clone(), cases });
        }
        proof {
            assert(spec_classify_step(pv[j as int], accv.len() as int) == Ok::<
                (SpecPropertySpec, Option<SpecSelector>),
                SpecError,
            >((psv, match pargsv.dynamic_tag {
                Some(cases) => Some(SpecSelector { name: pv[j as int].name, cases }),
                None => None,
            })));
        }
        props.push(ps);
        proof {
            assert(props_view(props@) =~= accv.push(psv));
            assert(props_view(props@)[j as int] == psv);
            assert(forall|k: int|
                0 <= k < accv.len() ==> (#[trigger] props_view(props@)[k]) == accv[k]);
            assert(spec_classify_props_from(pv, j as int, accv, selv)
                == spec_classify_props_from(
                pv,
                j as int + 1,
                accv.push(psv),
                spec_selector_opt(selector),
            ));
            if pargsv.dynamic_tag is Some {
                assert(spec_selector_opt(selector) matches Some(s) && s.name == psv.name);
            } else {
                assert(spec_selector_opt(selector) == selv);
                lemma_witness_push(accv, selv, psv);
                assert(props_view(props@) == accv.push(psv));
            }
        }
        j += 1;
    }
    proof {
        assert(spec_classify_props_from(pv, decl.props@.len() as int, props_view(props@),
            spec_selector_opt(selector)) == Ok::<
            (Seq<SpecPropertySpec>, Option<SpecSelector>),
            SpecError,
        >((props_view(props@), spec_selector_opt(selector))));
    }
    let ghost propsv = props_view(props@);
    let ghost selv = spec_selector_opt(selector);

    // The children policy and the resolved tag plan.
    let children_allowed = match args.no_children {
        Some(b) => !b,
        None => true,
    };
    proof {
        assert(spec_tag_opt(args.tag) == argsv.tag);
        assert(children_allowed == !(argsv.no_children == Some(true)));
    }
    let tag_config = match resolve_tags(args.tag, selector) {
        Ok(cfg) => cfg,
        Err(k) => {
            proof {
                assert(spec_analyze(dv) == Err::<SpecComponentSchema, SpecError>(
                    SpecError { kind: k@, span: dv.span },
                ));
            }
            return Err(CompileError { kind: k, span: decl.span });
        },
    };
    let schema = ComponentSchema { name: decl.name.clone(), props, tag_config, children_allowed };
    proof {
        assert(schema@.props =~= propsv);
        assert(spec_analyze(dv) == Ok::<SpecComponentSchema, SpecError>(schema@));
        assert(schema_wf(schema@)) by {
            match schema@.tag_config {
                crate::component::SpecTagConfig::DynamicTag { selector: seln, cases: cs } => {
                    match selv {
                        Some(s) => {
                            let k = choose|k: int|
                                0 <= k < propsv.len() && (#[trigger] propsv[k]).name == s.name
                                    && propsv[k].role is TagSelector;
                            assert(schema@.props[k].name == seln);
                            assert(schema@.props[k].role is TagSelector);
                        },
                        None => {
                            assert(false);
                        },
                    }
                },
                _ => {},
            }
        };
    }
    Ok(schema)
}

/// Compiles a schema declaration into its construction procedure: analysis
/// followed by emission. The compiler is a pure function of the
/// declaration; no partial procedure is ever emitted.
pub fn derive_struct_component(decl: &SchemaDecl) -> (r: Result<
    ConstructionProcedure,
    CompileError,
>)
    ensures
        (match r {
            Ok(p) => spec_compile(decl@) == Ok::<Seq<SpecStep>, SpecError>(p@),
            Err(e) => spec_compile(decl@) == Err::<Seq<SpecStep>, SpecError>(e@),
        }),
{
    match analyze(decl) {
        Ok(schema) => Ok(emit(schema)),
        Err(e) => Err(e),
    }
}

} // verus!
