use recordgen::ast::Annotation;
use recordgen::ast::AnnotationForm;
use recordgen::ast::DiagAnchor;
use recordgen::ast::FieldDescriptor;
use recordgen::ast::MetaItem;
use recordgen::ast::MetaValue;
use recordgen::ast::RecordBody;
use recordgen::ast::RecordDecl;
use recordgen::ast::TypeExpr;
use recordgen::shape::match_shape;
use recordgen::shape::unwrap_option;
use recordgen::shape::unwrap_vector;
use recordgen::shape::TypeShape;

fn path1(name: &str, args: Vec<TypeExpr>) -> TypeExpr {
    TypeExpr::Path { segments: vec![name.to_string()], args }
}

fn bare(name: &str) -> TypeExpr {
    path1(name, vec![])
}

fn field(name: &str, ty: TypeExpr) -> FieldDescriptor {
    FieldDescriptor { name: name.to_string(), ty, annotations: vec![] }
}

fn field_with(name: &str, ty: TypeExpr, annotations: Vec<Annotation>) -> FieldDescriptor {
    FieldDescriptor { name: name.to_string(), ty, annotations }
}

fn template_annotation(template: &str) -> Annotation {
    Annotation {
        namespace: "debug".to_string(),
        form: AnnotationForm::DirectValue {
            value: MetaValue::StrLit { value: template.to_string() },
        },
    }
}

fn record(name: &str, generics: Vec<&str>, fields: Vec<FieldDescriptor>) -> RecordDecl {
    RecordDecl {
        name: name.to_string(),
        generics: generics.iter().map(|g| g.to_string()).collect(),
        body: RecordBody::NamedFields { fields },
    }
}

#[test]
fn entries_follow_declaration_order_with_default_templates() {
    let decl = record(
        "Field",
        vec![],
        vec![field("name", bare("String")), field("bitmask", bare("u16"))],
    );
    let s = match recordgen::debug::derive(&decl) {
        Ok(s) => s,
        Err(_) => panic!("generation should succeed"),
    };
    assert_eq!(s.record_name, "Field");
    assert_eq!(s.entries.len(), 2);
    assert_eq!(s.entries[0].field_name, "name");
    assert_eq!(s.entries[0].template, None);
    assert_eq!(s.entries[1].field_name, "bitmask");
    assert_eq!(s.entries[1].template, None);
}

#[test]
fn format_override_round_trip() {
    let decl = record(
        "Measurement",
        vec![],
        vec![
            field_with("ratio", bare("f64"), vec![template_annotation("{:.2}")]),
            field("count", bare("i32")),
        ],
    );
    let s = match recordgen::debug::derive(&decl) {
        Ok(s) => s,
        Err(_) => panic!("generation should succeed"),
    };
    // The override template is carried verbatim; the unannotated field
    // keeps the default representation.
    assert_eq!(s.entries[0].template, Some("{:.2}".to_string()));
    assert_eq!(s.entries[1].template, None);
    // Rendered through the emitted formatting body, the template turns
    // the value into its two-decimal form, and the default stays full.
    assert_eq!(format!("{:.2}", 3.14159), "3.14");
    assert_eq!(format!("{:?}", 3.14159), "3.14159");
}

#[test]
fn last_template_annotation_wins() {
    let decl = record(
        "Measurement",
        vec![],
        vec![field_with(
            "ratio",
            bare("f64"),
            vec![template_annotation("{:.1}"), template_annotation("{:.2}")],
        )],
    );
    let s = match recordgen::debug::derive(&decl) {
        Ok(s) => s,
        Err(_) => panic!("generation should succeed"),
    };
    assert_eq!(s.entries[0].template, Some("{:.2}".to_string()));
}

#[test]
fn malformed_debug_annotation_is_a_fatal_diagnostic() {
    let bad = Annotation {
        namespace: "debug".to_string(),
        form: AnnotationForm::KeyList {
            items: vec![MetaItem {
                key: "fmt".to_string(),
                value: MetaValue::StrLit { value: "{:.2}".to_string() },
            }],
        },
    };
    let decl = record("Measurement", vec![], vec![field_with("ratio", bare("f64"), vec![bad])]);
    match recordgen::debug::derive(&decl) {
        Ok(_) => panic!("generation should fail"),
        Err(d) => {
            assert_eq!(d.message, "expected `debug = \"...\"`");
            assert!(d.anchor == DiagAnchor::FieldAnnotation { field: 0, annotation: 0 });
        },
    }
}

#[test]
fn marker_only_parameter_is_left_unbounded() {
    let decl = record(
        "Field",
        vec!["T"],
        vec![
            field("value", bare("String")),
            field("marker", path1("PhantomData", vec![bare("T")])),
        ],
    );
    let s = match recordgen::debug::derive(&decl) {
        Ok(s) => s,
        Err(_) => panic!("generation should succeed"),
    };
    assert_eq!(s.generic_params, vec!["T".to_string()]);
    assert_eq!(s.needs_bound, vec![false]);
}

#[test]
fn plain_use_of_the_parameter_forces_the_bound() {
    let decl = record(
        "Field",
        vec!["T"],
        vec![
            field("value", bare("T")),
            field("marker", path1("PhantomData", vec![bare("T")])),
        ],
    );
    let s = match recordgen::debug::derive(&decl) {
        Ok(s) => s,
        Err(_) => panic!("generation should succeed"),
    };
    assert_eq!(s.needs_bound, vec![true]);
}

#[test]
fn wrapped_use_of_the_parameter_forces_the_bound() {
    let decl = record("Holder", vec!["T"], vec![field("items", path1("Vec", vec![bare("T")]))]);
    let s = match recordgen::debug::derive(&decl) {
        Ok(s) => s,
        Err(_) => panic!("generation should succeed"),
    };
    assert_eq!(s.needs_bound, vec![true]);
}

#[test]
fn unused_parameter_is_conservatively_bounded() {
    let decl = record("Holder", vec!["T"], vec![field("value", bare("String"))]);
    let s = match recordgen::debug::derive(&decl) {
        Ok(s) => s,
        Err(_) => panic!("generation should succeed"),
    };
    assert_eq!(s.needs_bound, vec![true]);
}

#[test]
fn shape_matcher_recognizes_single_segment_wrappers_only() {
    let optional = path1("Option", vec![bare("String")]);
    match unwrap_option(&optional) {
        Some(inner) => match inner {
            TypeExpr::Path { segments, .. } => assert_eq!(segments, &vec!["String".to_string()]),
            TypeExpr::Other { .. } => panic!("expected a named path"),
        },
        None => panic!("the optional wrapper should be recognized"),
    }

    let listed = path1("Vec", vec![bare("u8")]);
    assert!(unwrap_vector(&listed).is_some());
    assert!(unwrap_option(&listed).is_none());

    // A fully qualified spelling is not recognized: classification is
    // purely syntactic.
    let qualified = TypeExpr::Path {
        segments: vec!["std".to_string(), "option".to_string(), "Option".to_string()],
        args: vec![bare("String")],
    };
    assert!(unwrap_option(&qualified).is_none());
    assert!(matches!(match_shape(&qualified), TypeShape::Plain { .. }));

    // A wrapper needs exactly one generic argument.
    let two_args = path1("Option", vec![bare("A"), bare("B")]);
    assert!(unwrap_option(&two_args).is_none());

    let no_args = bare("Option");
    assert!(unwrap_option(&no_args).is_none());

    let opaque = TypeExpr::Other { text: "&str".to_string() };
    assert!(matches!(match_shape(&opaque), TypeShape::Plain { .. }));
}
