//! End-to-end tests of the schema compiler: scenarios from the design, the
//! classifier's precedence rules, the metadata parser's faults, and the
//! emitted procedure's phase order.

use struct_component::compile::{analyze, derive_struct_component};
use struct_component::component::{Role, TagCase, TagConfig};
use struct_component::emit::Step;
use struct_component::error::ErrorKind;
use struct_component::node_ref_attr::any_node_ref;
use struct_component::schema::{
    Annotation, AnnotationForm, MetaEntry, MetaValue, PatternExpr, PropertyDecl, SchemaDecl,
    TypeShape,
};
use struct_component::text::{lower_str, str_eq};

fn entry(key: &str, value: MetaValue) -> MetaEntry {
    MetaEntry { key: key.to_string(), value }
}

fn ann(entries: Vec<MetaEntry>, span: u64) -> Annotation {
    Annotation { form: AnnotationForm::Entries(entries), span }
}

fn tag_ann(tag: &str, span: u64) -> Annotation {
    ann(vec![entry("tag", MetaValue::Str(tag.to_string()))], span)
}

fn dynamic_tag_ann(patterns: &[&[&str]], span: u64) -> Annotation {
    let ps = patterns
        .iter()
        .map(|segs| PatternExpr::Path(segs.iter().map(|s| s.to_string()).collect()))
        .collect();
    ann(vec![entry("dynamic_tag", MetaValue::Patterns(ps))], span)
}

fn prop(name: &str, shape: TypeShape, annotations: Vec<Annotation>, span: u64) -> PropertyDecl {
    PropertyDecl { name: name.to_string(), shape, annotations, span }
}

fn schema(
    name: &str,
    annotations: Vec<Annotation>,
    props: Vec<PropertyDecl>,
    span: u64,
) -> SchemaDecl {
    SchemaDecl { name: name.to_string(), annotations, props, span }
}

fn case(pattern: &[&str], tag: &str) -> TagCase {
    TagCase {
        pattern: pattern.iter().map(|s| s.to_string()).collect(),
        tag: tag.to_string(),
    }
}

fn attr_step(name: &str, reactive: bool) -> Step {
    Step::ApplyAttribute { name: name.to_string(), reactive }
}

fn listener_step(name: &str, event: &str, optional: bool) -> Step {
    Step::RegisterListener { name: name.to_string(), event: event.to_string(), optional }
}

#[test]
fn test_button_scenario() {
    let decl = schema(
        "Button",
        vec![tag_ann("button", 1)],
        vec![prop("onclick", TypeShape::OptionalCallback, vec![], 2)],
        0,
    );
    let proc = derive_struct_component(&decl).unwrap();
    assert_eq!(
        proc.steps,
        vec![
            Step::InstantiateTag("button".to_string()),
            listener_step("onclick", "click", true),
            Step::AttachChildren,
            Step::Finalize,
        ]
    );
}

#[test]
fn test_missing_tag_specification() {
    let decl = schema(
        "Widget",
        vec![],
        vec![prop("node_ref", TypeShape::Plain, vec![], 3)],
        7,
    );
    let err = derive_struct_component(&decl).unwrap_err();
    assert_eq!(err.kind, ErrorKind::MissingTagSpecification);
    assert_eq!(err.span, 7);
}

#[test]
fn test_dynamic_tag_two_arms() {
    let decl = schema(
        "Switch",
        vec![],
        vec![prop(
            "kind",
            TypeShape::Plain,
            vec![dynamic_tag_ann(&[&["Div"], &["Span"]], 4)],
            5,
        )],
        0,
    );
    let proc = derive_struct_component(&decl).unwrap();
    assert_eq!(
        proc.steps,
        vec![
            Step::InstantiateTagByMatch {
                selector: "kind".to_string(),
                cases: vec![case(&["Div"], "div"), case(&["Span"], "span")],
            },
            Step::AttachChildren,
            Step::Finalize,
        ]
    );
    // Every arm carries the same later phases: in the emitted procedure they
    // are the shared steps after the match, identical whichever arm runs.
    assert_eq!(&proc.steps[1..], &[Step::AttachChildren, Step::Finalize]);
}

#[test]
fn test_compile_is_idempotent() {
    let build = || {
        schema(
            "Card",
            vec![tag_ann("div", 1)],
            vec![
                prop("title", TypeShape::Plain, vec![], 2),
                prop("open", TypeShape::Reactive, vec![], 3),
                prop("onclick", TypeShape::BareCallback, vec![], 4),
            ],
            0,
        )
    };
    let first = derive_struct_component(&build()).unwrap();
    let second = derive_struct_component(&build()).unwrap();
    assert_eq!(first, second);
    assert_eq!(format!("{:?}", first), format!("{:?}", second));
}

#[test]
fn test_static_tag_first_step_regardless_of_order() {
    let front = schema(
        "A",
        vec![tag_ann("span", 1)],
        vec![
            prop("x", TypeShape::Plain, vec![], 2),
            prop("node_ref", TypeShape::Plain, vec![], 3),
        ],
        0,
    );
    let back = schema(
        "B",
        vec![tag_ann("span", 1)],
        vec![
            prop("node_ref", TypeShape::Plain, vec![], 2),
            prop("x", TypeShape::Plain, vec![], 3),
        ],
        0,
    );
    let p1 = derive_struct_component(&front).unwrap();
    let p2 = derive_struct_component(&back).unwrap();
    assert_eq!(p1.steps[0], Step::InstantiateTag("span".to_string()));
    assert_eq!(p2.steps[0], Step::InstantiateTag("span".to_string()));
    assert_eq!(p1.steps.last(), Some(&Step::Finalize));
}

#[test]
fn test_dynamic_tag_arm_order_is_declaration_order() {
    let decl = schema(
        "Heading",
        vec![],
        vec![prop(
            "level",
            TypeShape::Plain,
            vec![dynamic_tag_ann(&[&["Level", "H3"], &["Level", "H1"], &["Level", "H2"]], 4)],
            5,
        )],
        0,
    );
    let proc = derive_struct_component(&decl).unwrap();
    match &proc.steps[0] {
        Step::InstantiateTagByMatch { selector, cases } => {
            assert_eq!(selector, "level");
            assert_eq!(
                cases,
                &vec![
                    case(&["Level", "H3"], "h3"),
                    case(&["Level", "H1"], "h1"),
                    case(&["Level", "H2"], "h2"),
                ]
            );
        }
        other => panic!("expected a match step, got {:?}", other),
    }
}

#[test]
fn test_non_path_pattern_is_passed_over() {
    let decl = schema(
        "Mixed",
        vec![],
        vec![prop(
            "kind",
            TypeShape::Plain,
            vec![ann(
                vec![entry(
                    "dynamic_tag",
                    MetaValue::Patterns(vec![
                        PatternExpr::Path(vec!["Div".to_string()]),
                        PatternExpr::Other,
                        PatternExpr::Path(vec!["Span".to_string()]),
                    ]),
                )],
                4,
            )],
            5,
        )],
        0,
    );
    let proc = derive_struct_component(&decl).unwrap();
    match &proc.steps[0] {
        Step::InstantiateTagByMatch { cases, .. } => {
            assert_eq!(cases, &vec![case(&["Div"], "div"), case(&["Span"], "span")]);
        }
        other => panic!("expected a match step, got {:?}", other),
    }
}

#[test]
fn test_on_click_listener_shapes() {
    let bare = schema(
        "Bare",
        vec![tag_ann("button", 1)],
        vec![prop("onClick", TypeShape::BareCallback, vec![], 2)],
        0,
    );
    let optional = schema(
        "Opt",
        vec![tag_ann("button", 1)],
        vec![prop("onClick", TypeShape::OptionalCallback, vec![], 2)],
        0,
    );
    let p_bare = derive_struct_component(&bare).unwrap();
    let p_opt = derive_struct_component(&optional).unwrap();
    assert_eq!(p_bare.steps[1], listener_step("onClick", "click", false));
    assert_eq!(p_opt.steps[1], listener_step("onClick", "click", true));
}

#[test]
fn test_reactive_and_plain_attributes() {
    let decl = schema(
        "Input",
        vec![tag_ann("input", 1)],
        vec![
            prop("value", TypeShape::Reactive, vec![], 2),
            prop("placeholder", TypeShape::Plain, vec![], 3),
        ],
        0,
    );
    let proc = derive_struct_component(&decl).unwrap();
    assert_eq!(proc.steps[1], attr_step("value", true));
    assert_eq!(proc.steps[2], attr_step("placeholder", false));
}

#[test]
fn test_phase_order_overrides_declaration_order() {
    // Listener declared before the attributes; phases stay tag, node ref,
    // attributes, listeners, children, finalize.
    let decl = schema(
        "Ordered",
        vec![tag_ann("div", 1)],
        vec![
            prop("onfocus", TypeShape::BareCallback, vec![], 2),
            prop("b", TypeShape::Plain, vec![], 3),
            prop("node_ref", TypeShape::Plain, vec![], 4),
            prop("a", TypeShape::Reactive, vec![], 5),
        ],
        0,
    );
    let proc = derive_struct_component(&decl).unwrap();
    assert_eq!(
        proc.steps,
        vec![
            Step::InstantiateTag("div".to_string()),
            Step::AttachNodeRef,
            attr_step("b", false),
            attr_step("a", true),
            listener_step("onfocus", "focus", false),
            Step::AttachChildren,
            Step::Finalize,
        ]
    );
}

#[test]
fn test_no_children_removes_attachment() {
    let decl = schema(
        "Leaf",
        vec![ann(
            vec![
                entry("tag", MetaValue::Str("img".to_string())),
                entry("no_children", MetaValue::Flag(true)),
            ],
            1,
        )],
        vec![],
        0,
    );
    let proc = derive_struct_component(&decl).unwrap();
    assert_eq!(
        proc.steps,
        vec![Step::InstantiateTag("img".to_string()), Step::Finalize]
    );
}

#[test]
fn test_no_children_false_keeps_attachment() {
    let decl = schema(
        "Shell",
        vec![ann(
            vec![
                entry("tag", MetaValue::Str("div".to_string())),
                entry("no_children", MetaValue::Flag(false)),
            ],
            1,
        )],
        vec![],
        0,
    );
    let proc = derive_struct_component(&decl).unwrap();
    assert_eq!(
        proc.steps,
        vec![Step::InstantiateTag("div".to_string()), Step::AttachChildren, Step::Finalize]
    );
}

#[test]
fn test_conflicting_tag_specification() {
    let decl = schema(
        "Both",
        vec![tag_ann("div", 1)],
        vec![prop(
            "kind",
            TypeShape::Plain,
            vec![dynamic_tag_ann(&[&["Div"]], 2)],
            3,
        )],
        9,
    );
    let err = derive_struct_component(&decl).unwrap_err();
    assert_eq!(err.kind, ErrorKind::ConflictingTagSpecification);
    assert_eq!(err.span, 9);
}

#[test]
fn test_duplicate_node_ref() {
    let decl = schema(
        "Twice",
        vec![tag_ann("div", 1)],
        vec![
            prop("node_ref", TypeShape::Plain, vec![], 2),
            prop("node_ref", TypeShape::Plain, vec![], 3),
        ],
        0,
    );
    let err = derive_struct_component(&decl).unwrap_err();
    assert_eq!(err.kind, ErrorKind::DuplicateNodeRef);
    assert_eq!(err.span, 3);
}

#[test]
fn test_excluded_attributes_property() {
    let decl = schema(
        "Bag",
        vec![tag_ann("div", 1)],
        vec![prop("attributes", TypeShape::Plain, vec![], 2)],
        0,
    );
    let proc = derive_struct_component(&decl).unwrap();
    assert_eq!(
        proc.steps,
        vec![Step::InstantiateTag("div".to_string()), Step::AttachChildren, Step::Finalize]
    );
}

#[test]
fn test_on_without_suffix_is_not_a_listener() {
    // The listener rule requires a non-empty suffix: a property named `on`
    // is an attribute even with a callback shape.
    let decl = schema(
        "Trap",
        vec![tag_ann("div", 1)],
        vec![prop("on", TypeShape::BareCallback, vec![], 2)],
        0,
    );
    let proc = derive_struct_component(&decl).unwrap();
    assert_eq!(proc.steps[1], attr_step("on", false));
}

#[test]
fn test_on_prefix_with_other_shape_falls_through() {
    // `online` matches the prefix pattern but its shape is no callback, so
    // it is treated as an attribute named literally.
    let decl = schema(
        "Fall",
        vec![tag_ann("div", 1)],
        vec![
            prop("online", TypeShape::Plain, vec![], 2),
            prop("onvalue", TypeShape::Reactive, vec![], 3),
        ],
        0,
    );
    let proc = derive_struct_component(&decl).unwrap();
    assert_eq!(proc.steps[1], attr_step("online", false));
    assert_eq!(proc.steps[2], attr_step("onvalue", true));
}

#[test]
fn test_non_path_type_is_rejected() {
    let decl = schema(
        "Odd",
        vec![tag_ann("div", 1)],
        vec![prop("weird", TypeShape::NonPath, vec![], 6)],
        0,
    );
    let err = derive_struct_component(&decl).unwrap_err();
    assert_eq!(err.kind, ErrorKind::NonPathType);
    assert_eq!(err.span, 6);
}

#[test]
fn test_node_ref_with_non_path_type_is_accepted() {
    // The reserved names are claimed before the type shape is inspected.
    let decl = schema(
        "Ref",
        vec![tag_ann("div", 1)],
        vec![prop("node_ref", TypeShape::NonPath, vec![], 2)],
        0,
    );
    let proc = derive_struct_component(&decl).unwrap();
    assert_eq!(proc.steps[1], Step::AttachNodeRef);
}

#[test]
fn test_malformed_annotation() {
    let decl = schema(
        "Bad",
        vec![Annotation { form: AnnotationForm::Malformed, span: 11 }],
        vec![],
        0,
    );
    let err = derive_struct_component(&decl).unwrap_err();
    assert_eq!(err.kind, ErrorKind::MalformedAnnotation);
    assert_eq!(err.span, 11);
}

#[test]
fn test_unknown_option() {
    let decl = schema(
        "Unknown",
        vec![ann(vec![entry("colour", MetaValue::Str("red".to_string()))], 12)],
        vec![],
        0,
    );
    let err = derive_struct_component(&decl).unwrap_err();
    assert_eq!(err.kind, ErrorKind::UnknownOption("colour".to_string()));
    assert_eq!(err.span, 12);
}

#[test]
fn test_type_mismatch_variants() {
    let wrong_tag = schema(
        "T1",
        vec![ann(vec![entry("tag", MetaValue::Flag(true))], 13)],
        vec![],
        0,
    );
    let err = derive_struct_component(&wrong_tag).unwrap_err();
    assert_eq!(err.kind, ErrorKind::TypeMismatch);
    assert_eq!(err.span, 13);

    let wrong_children = schema(
        "T2",
        vec![ann(
            vec![entry("no_children", MetaValue::Str("yes".to_string()))],
            14,
        )],
        vec![],
        0,
    );
    let err = derive_struct_component(&wrong_children).unwrap_err();
    assert_eq!(err.kind, ErrorKind::TypeMismatch);
    assert_eq!(err.span, 14);

    let key_only = schema(
        "T3",
        vec![ann(vec![entry("dynamic_tag", MetaValue::Other)], 15)],
        vec![],
        0,
    );
    let err = derive_struct_component(&key_only).unwrap_err();
    assert_eq!(err.kind, ErrorKind::TypeMismatch);
    assert_eq!(err.span, 15);
}

#[test]
fn test_last_schema_annotation_wins() {
    let decl = schema(
        "Last",
        vec![tag_ann("div", 1), tag_ann("span", 2)],
        vec![],
        0,
    );
    let proc = derive_struct_component(&decl).unwrap();
    assert_eq!(proc.steps[0], Step::InstantiateTag("span".to_string()));
}

#[test]
fn test_first_property_annotation_is_honored() {
    // Only a property's first annotation counts: a selector table in the
    // second one is ignored, so no tag source exists.
    let decl = schema(
        "First",
        vec![],
        vec![prop(
            "kind",
            TypeShape::Plain,
            vec![ann(vec![], 2), dynamic_tag_ann(&[&["Div"]], 3)],
            4,
        )],
        8,
    );
    let err = derive_struct_component(&decl).unwrap_err();
    assert_eq!(err.kind, ErrorKind::MissingTagSpecification);
    assert_eq!(err.span, 8);
}

#[test]
fn test_analyze_assigns_roles_in_order() {
    let decl = schema(
        "Roles",
        vec![tag_ann("div", 1)],
        vec![
            prop("title", TypeShape::Plain, vec![], 2),
            prop("onclick", TypeShape::BareCallback, vec![], 3),
        ],
        0,
    );
    let compiled = analyze(&decl).unwrap();
    assert_eq!(compiled.name, "Roles");
    assert_eq!(compiled.tag_config, TagConfig::StaticTag("div".to_string()));
    assert!(compiled.children_allowed);
    assert_eq!(compiled.props.len(), 2);
    assert_eq!(compiled.props[0].name, "title");
    assert_eq!(compiled.props[0].role, Role::PlainAttribute);
    assert_eq!(compiled.props[0].declaration_order, 0);
    assert_eq!(
        compiled.props[1].role,
        Role::EventListener { event: "click".to_string(), optional: false }
    );
    assert_eq!(compiled.props[1].declaration_order, 1);
}

#[test]
fn test_tag_name_is_lowercased() {
    let decl = schema(
        "Lower",
        vec![],
        vec![prop(
            "kind",
            TypeShape::Plain,
            vec![dynamic_tag_ann(&[&["Tags", "DIV"]], 2)],
            3,
        )],
        0,
    );
    let proc = derive_struct_component(&decl).unwrap();
    match &proc.steps[0] {
        Step::InstantiateTagByMatch { cases, .. } => {
            assert_eq!(cases[0].tag, "div");
            assert_eq!(cases[0].pattern, vec!["Tags".to_string(), "DIV".to_string()]);
        }
        other => panic!("expected a match step, got {:?}", other),
    }
}

#[test]
fn test_event_name_is_lowercased() {
    let decl = schema(
        "Loud",
        vec![tag_ann("div", 1)],
        vec![prop("onCLICK", TypeShape::BareCallback, vec![], 2)],
        0,
    );
    let proc = derive_struct_component(&decl).unwrap();
    assert_eq!(proc.steps[1], listener_step("onCLICK", "click", false));
}

#[test]
fn test_text_helpers() {
    assert_eq!(lower_str("AbC0-Z"), "abc0-z");
    assert_eq!(lower_str(""), "");
    assert!(str_eq("tag", "tag"));
    assert!(!str_eq("tag", "tags"));
    assert!(!str_eq("tag", "tab"));
}

#[test]
fn test_any_node_ref_carrier() {
    let attr = any_node_ref::<u8, i32>(41);
    assert_eq!(*attr.container(), 41);
    let copy = attr.clone();
    assert_eq!(*copy.container(), 41);
}

#[test]
fn test_empty_dynamic_tag_case_table() {
    // A selector whose annotation declares no cases still resolves the
    // dynamic mode: the match step simply carries an empty table.
    let decl = schema(
        "Empty",
        vec![],
        vec![prop("kind", TypeShape::Plain, vec![dynamic_tag_ann(&[], 2)], 3)],
        0,
    );
    let proc = derive_struct_component(&decl).unwrap();
    assert_eq!(
        proc.steps[0],
        Step::InstantiateTagByMatch { selector: "kind".to_string(), cases: vec![] }
    );
}
