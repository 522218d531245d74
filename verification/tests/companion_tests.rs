use recordgen::ast::RecordBody;
use recordgen::ast::RecordDecl;
use recordgen::ast::TypeExpr;
use recordgen::ast::FieldDescriptor;
use recordgen::companion::field_kinds;
use recordgen::companion::Companion;
use recordgen::companion::FieldKind;
use recordgen::companion::FieldValue;

fn fresh(names: &[&str], kinds: Vec<FieldKind>) -> Companion<i32> {
    let names: Vec<String> = names.iter().map(|n| n.to_string()).collect();
    Companion::new(names, kinds)
}

#[test]
fn all_required_finalize_succeeds_iff_every_field_set() {
    let mut c = fresh(
        &["executable", "current_dir"],
        vec![FieldKind::Required, FieldKind::Required],
    );
    assert!(c.finalize().is_err());
    c.set(0, 7);
    assert!(c.finalize().is_err());
    c.set(1, 9);
    match c.finalize() {
        Ok(outs) => {
            assert_eq!(outs.len(), 2);
            assert!(matches!(outs[0], FieldValue::One { value: 7 }));
            assert!(matches!(outs[1], FieldValue::One { value: 9 }));
        },
        Err(_) => panic!("finalize should succeed"),
    }
}

#[test]
fn missing_field_failure_names_the_unset_field() {
    let mut c = fresh(
        &["executable", "current_dir"],
        vec![FieldKind::Required, FieldKind::Required],
    );
    c.set(0, 1);
    match c.finalize() {
        Ok(_) => panic!("finalize should fail"),
        Err(msg) => assert_eq!(msg, "missing field: current_dir"),
    }
}

#[test]
fn failure_names_the_first_missing_field_in_declaration_order() {
    let mut c = fresh(
        &["a", "b", "c"],
        vec![FieldKind::Required, FieldKind::Required, FieldKind::Required],
    );
    c.set(1, 5);
    match c.finalize() {
        Ok(_) => panic!("finalize should fail"),
        Err(msg) => assert_eq!(msg, "missing field: a"),
    }
}

#[test]
fn companion_is_reusable_after_failed_finalize() {
    let mut c = fresh(&["a", "b"], vec![FieldKind::Required, FieldKind::Required]);
    c.set(0, 3);
    assert!(c.finalize().is_err());
    c.set(1, 4);
    match c.finalize() {
        Ok(outs) => {
            assert!(matches!(outs[0], FieldValue::One { value: 3 }));
            assert!(matches!(outs[1], FieldValue::One { value: 4 }));
        },
        Err(_) => panic!("finalize should succeed after setting the missing field"),
    }
}

#[test]
fn optional_field_defaults_to_absent() {
    let mut c = fresh(&["current_dir"], vec![FieldKind::Optional]);
    match c.finalize() {
        Ok(outs) => assert!(matches!(outs[0], FieldValue::Maybe { opt_value: None })),
        Err(_) => panic!("an optional field never blocks finalize"),
    }
}

#[test]
fn optional_field_keeps_its_value_when_set() {
    let mut c = fresh(&["current_dir"], vec![FieldKind::Optional]);
    c.set(0, 11);
    match c.finalize() {
        Ok(outs) => assert!(matches!(outs[0], FieldValue::Maybe { opt_value: Some(11) })),
        Err(_) => panic!("an optional field never blocks finalize"),
    }
}

#[test]
fn accumulation_appends_in_call_order() {
    let mut c = fresh(&["args"], vec![FieldKind::Accumulated]);
    c.accumulate(0, 10);
    c.accumulate(0, 20);
    c.accumulate(0, 30);
    match c.finalize() {
        Ok(outs) => match &outs[0] {
            FieldValue::Many { values } => assert_eq!(values, &vec![10, 20, 30]),
            _ => panic!("expected accumulated values"),
        },
        Err(_) => panic!("an accumulated field never blocks finalize"),
    }
}

#[test]
fn accumulated_field_defaults_to_empty() {
    let mut c = fresh(&["args"], vec![FieldKind::Accumulated]);
    match c.finalize() {
        Ok(outs) => match &outs[0] {
            FieldValue::Many { values } => assert!(values.is_empty()),
            _ => panic!("expected accumulated values"),
        },
        Err(_) => panic!("an accumulated field never blocks finalize"),
    }
}

#[test]
fn whole_value_setter_overwrites() {
    let mut c = fresh(&["executable"], vec![FieldKind::Required]);
    c.set(0, 1);
    c.set(0, 2);
    match c.finalize() {
        Ok(outs) => assert!(matches!(outs[0], FieldValue::One { value: 2 })),
        Err(_) => panic!("finalize should succeed"),
    }
}

#[test]
fn field_kinds_follow_the_synthesized_fragments() {
    let fields = vec![
        FieldDescriptor {
            name: "executable".to_string(),
            ty: TypeExpr::Path { segments: vec!["String".to_string()], args: vec![] },
            annotations: vec![],
        },
        FieldDescriptor {
            name: "current_dir".to_string(),
            ty: TypeExpr::Path {
                segments: vec!["Option".to_string()],
                args: vec![TypeExpr::Path { segments: vec!["String".to_string()], args: vec![] }],
            },
            annotations: vec![],
        },
    ];
    let decl = RecordDecl {
        name: "Command".to_string(),
        generics: vec![],
        body: RecordBody::NamedFields { fields },
    };
    let s = match recordgen::builder::derive(&decl) {
        Ok(s) => s,
        Err(_) => panic!("generation should succeed"),
    };
    let kinds = field_kinds(&s);
    assert_eq!(kinds, vec![FieldKind::Required, FieldKind::Optional]);
}
