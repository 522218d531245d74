use recordgen::ast::Annotation;
use recordgen::ast::AnnotationForm;
use recordgen::ast::DiagAnchor;
use recordgen::ast::FieldDescriptor;
use recordgen::ast::MetaItem;
use recordgen::ast::MetaValue;
use recordgen::ast::RecordBody;
use recordgen::ast::RecordDecl;
use recordgen::ast::TypeExpr;
use recordgen::builder::FinalizeFragment;
use recordgen::builder::SetterFragment;
use recordgen::builder::StoredType;

fn path1(name: &str, args: Vec<TypeExpr>) -> TypeExpr {
    TypeExpr::Path { segments: vec![name.to_string()], args }
}

fn bare(name: &str) -> TypeExpr {
    path1(name, vec![])
}

fn field(name: &str, ty: TypeExpr) -> FieldDescriptor {
    FieldDescriptor { name: name.to_string(), ty, annotations: vec![] }
}

fn field_with(name: &str, ty: TypeExpr, annotations: Vec<Annotation>) -> FieldDescriptor {
    FieldDescriptor { name: name.to_string(), ty, annotations }
}

fn each_annotation(method: &str) -> Annotation {
    Annotation {
        namespace: "builder".to_string(),
        form: AnnotationForm::KeyList {
            items: vec![MetaItem {
                key: "each".to_string(),
                value: MetaValue::StrLit { value: method.to_string() },
            }],
        },
    }
}

fn record(name: &str, fields: Vec<FieldDescriptor>) -> RecordDecl {
    RecordDecl {
        name: name.to_string(),
        generics: vec![],
        body: RecordBody::NamedFields { fields },
    }
}

#[test]
fn plain_fields_get_option_wrapped_storage() {
    let decl = record(
        "Command",
        vec![field("executable", bare("String")), field("current_dir", bare("String"))],
    );
    let s = match recordgen::builder::derive(&decl) {
        Ok(s) => s,
        Err(_) => panic!("generation should succeed"),
    };
    assert_eq!(s.record_name, "Command");
    assert_eq!(s.companion_name, "CommandBuilder");
    assert_eq!(s.fields.len(), 2);
    assert_eq!(s.setters.len(), 2);
    assert_eq!(s.finalizers.len(), 2);
    assert_eq!(s.fields[0].name, "executable");
    assert!(matches!(s.fields[0].stored, StoredType::OptionWrapped { .. }));
    assert!(matches!(s.fields[1].stored, StoredType::OptionWrapped { .. }));
    match &s.setters[0] {
        SetterFragment::WholeValue { field, param_ty } => {
            assert_eq!(field, "executable");
            match param_ty {
                TypeExpr::Path { segments, args } => {
                    assert_eq!(segments, &vec!["String".to_string()]);
                    assert!(args.is_empty());
                },
                TypeExpr::Other { .. } => panic!("expected a named path"),
            }
        },
        SetterFragment::Accumulate { .. } => panic!("expected a whole-value setter"),
    }
    assert!(matches!(&s.finalizers[0], FinalizeFragment::TakeRequired { .. }));
    assert!(matches!(&s.finalizers[1], FinalizeFragment::TakeRequired { .. }));
}

#[test]
fn optional_field_is_stored_as_declared_and_never_required() {
    let decl = record(
        "Command",
        vec![field("current_dir", path1("Option", vec![bare("String")]))],
    );
    let s = match recordgen::builder::derive(&decl) {
        Ok(s) => s,
        Err(_) => panic!("generation should succeed"),
    };
    assert!(matches!(&s.fields[0].stored, StoredType::AsDeclared { .. }));
    match &s.setters[0] {
        SetterFragment::WholeValue { field, param_ty } => {
            assert_eq!(field, "current_dir");
            // The setter takes the inner type, not the optional wrapper.
            match param_ty {
                TypeExpr::Path { segments, .. } => {
                    assert_eq!(segments, &vec!["String".to_string()]);
                },
                TypeExpr::Other { .. } => panic!("expected a named path"),
            }
        },
        SetterFragment::Accumulate { .. } => panic!("expected a whole-value setter"),
    }
    assert!(matches!(&s.finalizers[0], FinalizeFragment::CopyDirect { .. }));
}

#[test]
fn aliased_list_gets_accumulation_method_instead_of_setter() {
    let decl = record(
        "Command",
        vec![field_with(
            "args",
            path1("Vec", vec![bare("String")]),
            vec![each_annotation("arg")],
        )],
    );
    let s = match recordgen::builder::derive(&decl) {
        Ok(s) => s,
        Err(_) => panic!("generation should succeed"),
    };
    assert!(matches!(&s.fields[0].stored, StoredType::AsDeclared { .. }));
    match &s.setters[0] {
        SetterFragment::Accumulate { field, method, elem_ty } => {
            assert_eq!(field, "args");
            assert_eq!(method, "arg");
            match elem_ty {
                TypeExpr::Path { segments, .. } => {
                    assert_eq!(segments, &vec!["String".to_string()]);
                },
                TypeExpr::Other { .. } => panic!("expected a named path"),
            }
        },
        SetterFragment::WholeValue { .. } => panic!("expected an accumulation method"),
    }
    assert!(matches!(&s.finalizers[0], FinalizeFragment::CopyDirect { .. }));
}

#[test]
fn unaliased_list_keeps_whole_value_setter() {
    let decl = record("Command", vec![field("args", path1("Vec", vec![bare("String")]))]);
    let s = match recordgen::builder::derive(&decl) {
        Ok(s) => s,
        Err(_) => panic!("generation should succeed"),
    };
    assert!(matches!(&s.fields[0].stored, StoredType::OptionWrapped { .. }));
    assert!(matches!(&s.setters[0], SetterFragment::WholeValue { .. }));
    assert!(matches!(&s.finalizers[0], FinalizeFragment::TakeRequired { .. }));
}

#[test]
fn unknown_alias_key_is_a_fatal_diagnostic() {
    let bad = Annotation {
        namespace: "builder".to_string(),
        form: AnnotationForm::KeyList {
            items: vec![MetaItem {
                key: "eac".to_string(),
                value: MetaValue::StrLit { value: "arg".to_string() },
            }],
        },
    };
    let decl = record(
        "Command",
        vec![
            field("executable", bare("String")),
            field_with("args", path1("Vec", vec![bare("String")]), vec![bad]),
        ],
    );
    match recordgen::builder::derive(&decl) {
        Ok(_) => panic!("generation should fail"),
        Err(d) => {
            assert_eq!(d.message, "expected `builder(each = \"...\")`");
            assert!(d.anchor == DiagAnchor::FieldAnnotation { field: 1, annotation: 0 });
        },
    }
}

#[test]
fn non_string_alias_value_is_a_fatal_diagnostic() {
    let bad = Annotation {
        namespace: "builder".to_string(),
        form: AnnotationForm::KeyList {
            items: vec![MetaItem {
                key: "each".to_string(),
                value: MetaValue::OtherExpr { text: "42".to_string() },
            }],
        },
    };
    let decl = record(
        "Command",
        vec![field_with("args", path1("Vec", vec![bare("String")]), vec![bad])],
    );
    match recordgen::builder::derive(&decl) {
        Ok(_) => panic!("generation should fail"),
        Err(d) => {
            assert_eq!(d.message, "expected `builder(each = \"...\")`");
            assert!(d.anchor == DiagAnchor::FieldAnnotation { field: 0, annotation: 0 });
        },
    }
}

#[test]
fn bare_builder_annotation_is_a_fatal_diagnostic() {
    let bad = Annotation { namespace: "builder".to_string(), form: AnnotationForm::Bare };
    let decl = record("Command", vec![field_with("executable", bare("String"), vec![bad])]);
    match recordgen::builder::derive(&decl) {
        Ok(_) => panic!("generation should fail"),
        Err(d) => {
            assert_eq!(d.message, "expected `builder(each = \"...\")`");
            assert!(d.anchor == DiagAnchor::FieldAnnotation { field: 0, annotation: 0 });
        },
    }
}

#[test]
fn unrelated_annotations_are_ignored() {
    let other = Annotation {
        namespace: "serde".to_string(),
        form: AnnotationForm::Bare,
    };
    let decl = record("Command", vec![field_with("executable", bare("String"), vec![other])]);
    assert!(recordgen::builder::derive(&decl).is_ok());
}

#[test]
fn last_alias_annotation_wins() {
    let decl = record(
        "Command",
        vec![field_with(
            "args",
            path1("Vec", vec![bare("String")]),
            vec![each_annotation("first"), each_annotation("second")],
        )],
    );
    let s = match recordgen::builder::derive(&decl) {
        Ok(s) => s,
        Err(_) => panic!("generation should succeed"),
    };
    match &s.setters[0] {
        SetterFragment::Accumulate { method, .. } => assert_eq!(method, "second"),
        SetterFragment::WholeValue { .. } => panic!("expected an accumulation method"),
    }
}

#[test]
fn tuple_and_unit_records_are_rejected() {
    for body in [RecordBody::TupleFields, RecordBody::UnitFields, RecordBody::NotStruct] {
        let decl = RecordDecl { name: "Pair".to_string(), generics: vec![], body };
        match recordgen::builder::derive(&decl) {
            Ok(_) => panic!("generation should fail"),
            Err(d) => {
                assert_eq!(d.message, "expected a struct with named fields");
                assert!(d.anchor == DiagAnchor::Declaration);
            },
        }
    }
}

#[test]
fn alias_on_non_list_field_is_parsed_but_not_used() {
    let decl = record(
        "Command",
        vec![field_with("executable", bare("String"), vec![each_annotation("exe")])],
    );
    let s = match recordgen::builder::derive(&decl) {
        Ok(s) => s,
        Err(_) => panic!("generation should succeed"),
    };
    assert!(matches!(&s.setters[0], SetterFragment::WholeValue { .. }));
    assert!(matches!(&s.finalizers[0], FinalizeFragment::TakeRequired { .. }));
}
