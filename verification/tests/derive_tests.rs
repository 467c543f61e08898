use accessors::ast::{
    Annotation, AttrForm, AttrStyle, FieldDef, LitValue, MetaEntry, RecordDef, RecordShape,
};
use accessors::attr::{extract_attr, extract_bool, GetterConfig, SetterConfig};
use accessors::derive::{derive_getters, derive_setters, SetterMode};
use accessors::errors::DeriveError;

fn field(name: &str, ty: &str, attrs: Vec<Annotation>) -> FieldDef {
    FieldDef { name: name.to_string(), ty: ty.to_string(), attrs }
}

fn list_attr(name: &str, entries: Vec<MetaEntry>) -> Annotation {
    Annotation {
        style: AttrStyle::Outer,
        name: name.to_string(),
        form: AttrForm::List(entries),
    }
}

fn word(w: &str) -> MetaEntry {
    MetaEntry::Word(w.to_string())
}

fn key_value(k: &str, v: LitValue) -> MetaEntry {
    MetaEntry::KeyValue(k.to_string(), v)
}

fn record(name: &str, fields: Vec<FieldDef>) -> RecordDef {
    RecordDef {
        name: name.to_string(),
        impl_generics: String::new(),
        ty_generics: String::new(),
        where_clause: String::new(),
        shape: RecordShape::Braced(fields),
    }
}

fn shaped(name: &str, shape: RecordShape) -> RecordDef {
    RecordDef {
        name: name.to_string(),
        impl_generics: String::new(),
        ty_generics: String::new(),
        where_clause: String::new(),
        shape,
    }
}

#[test]
fn getters_one_per_field_without_markers() {
    let rec = record(
        "Point",
        vec![field("x", "u32", vec![]), field("y", "String", vec![])],
    );
    let block = derive_getters(&rec).unwrap();
    assert_eq!(block.record_name, "Point");
    assert_eq!(block.fns.len(), 2);
    assert_eq!(block.fns[0].fn_name, "x");
    assert_eq!(block.fns[0].field_name, "x");
    assert_eq!(block.fns[0].field_ty, "u32");
    assert_eq!(block.fns[1].fn_name, "y");
    assert_eq!(block.fns[1].field_name, "y");
    assert_eq!(block.fns[1].field_ty, "String");
}

#[test]
fn unmarked_setter_is_direct() {
    let rec = record("Point", vec![field("x", "u32", vec![])]);
    let block = derive_setters(&rec).unwrap();
    assert_eq!(block.fns.len(), 1);
    assert_eq!(block.fns[0].fn_name, "set_x");
    assert_eq!(block.fns[0].field_name, "x");
    assert_eq!(block.fns[0].field_ty, "u32");
    assert_eq!(block.fns[0].mode, SetterMode::Direct);
}

#[test]
fn bare_into_is_conversion() {
    let rec = record(
        "Simple",
        vec![field("field_a", "String", vec![list_attr("setter", vec![word("into")])])],
    );
    let block = derive_setters(&rec).unwrap();
    assert_eq!(block.fns[0].fn_name, "set_field_a");
    assert_eq!(block.fns[0].mode, SetterMode::Conversion);
}

#[test]
fn explicit_into_true_is_conversion() {
    let rec = record(
        "Simple",
        vec![field(
            "field_b",
            "String",
            vec![list_attr("setter", vec![key_value("into", LitValue::Bool(true))])],
        )],
    );
    let block = derive_setters(&rec).unwrap();
    assert_eq!(block.fns[0].fn_name, "set_field_b");
    assert_eq!(block.fns[0].mode, SetterMode::Conversion);
}

#[test]
fn explicit_into_false_is_direct() {
    let rec = record(
        "Simple",
        vec![field(
            "field_b",
            "String",
            vec![list_attr("setter", vec![key_value("into", LitValue::Bool(false))])],
        )],
    );
    let block = derive_setters(&rec).unwrap();
    assert_eq!(block.fns[0].mode, SetterMode::Direct);
}

#[test]
fn last_into_binding_wins() {
    let rec = record(
        "Simple",
        vec![field(
            "a",
            "String",
            vec![list_attr(
                "setter",
                vec![key_value("into", LitValue::Bool(false)), word("into")],
            )],
        )],
    );
    let block = derive_setters(&rec).unwrap();
    assert_eq!(block.fns[0].mode, SetterMode::Conversion);
}

#[test]
fn duplicate_setter_blocks_abort() {
    let rec = record(
        "Simple",
        vec![field(
            "a",
            "String",
            vec![
                list_attr("setter", vec![word("into")]),
                list_attr("setter", vec![word("into")]),
            ],
        )],
    );
    let err = derive_setters(&rec).unwrap_err();
    assert_eq!(err, DeriveError::DuplicateAttr("setter".to_string()));
    assert_eq!(err.message(), "Expected at most one setter attribute");
}

#[test]
fn duplicate_getter_blocks_abort() {
    let rec = record(
        "Simple",
        vec![field(
            "a",
            "String",
            vec![list_attr("getter", vec![]), list_attr("getter", vec![])],
        )],
    );
    let err = derive_getters(&rec).unwrap_err();
    assert_eq!(err, DeriveError::DuplicateAttr("getter".to_string()));
    assert_eq!(err.message(), "Expected at most one getter attribute");
}

#[test]
fn malformed_entry_aborts() {
    let rec = record(
        "Simple",
        vec![field("a", "String", vec![list_attr("setter", vec![MetaEntry::Other])])],
    );
    let err = derive_setters(&rec).unwrap_err();
    assert_eq!(err, DeriveError::MalformedAttr("setter".to_string()));
    assert_eq!(err.message(), "Malformed setter attribute");
}

#[test]
fn non_bool_into_aborts() {
    let rec = record(
        "Simple",
        vec![field(
            "a",
            "String",
            vec![list_attr(
                "setter",
                vec![key_value("into", LitValue::Str("yes".to_string()))],
            )],
        )],
    );
    let err = derive_setters(&rec).unwrap_err();
    assert_eq!(err, DeriveError::ExpectedBool);
    assert_eq!(err.message(), "Expected bool");
}

#[test]
fn integer_into_aborts() {
    let rec = record(
        "Simple",
        vec![field(
            "a",
            "String",
            vec![list_attr("setter", vec![key_value("into", LitValue::Int(1))])],
        )],
    );
    assert_eq!(derive_setters(&rec).unwrap_err(), DeriveError::ExpectedBool);
}

#[test]
fn non_braced_shapes_rejected() {
    for shape in [RecordShape::Tuple, RecordShape::Unit, RecordShape::Enum, RecordShape::Union] {
        let rec = shaped("Odd", shape);
        let gerr = derive_getters(&rec).unwrap_err();
        assert_eq!(gerr, DeriveError::NotBracedStruct("getters".to_string()));
        assert_eq!(
            gerr.message(),
            "#[derive(getters)] can only be used with braced structs"
        );
        let serr = derive_setters(&rec).unwrap_err();
        assert_eq!(serr, DeriveError::NotBracedStruct("setters".to_string()));
        assert_eq!(
            serr.message(),
            "#[derive(setters)] can only be used with braced structs"
        );
    }
}

#[test]
fn first_field_error_wins() {
    let rec = record(
        "Simple",
        vec![
            field("a", "String", vec![]),
            field(
                "b",
                "String",
                vec![
                    list_attr("setter", vec![word("into")]),
                    list_attr("setter", vec![word("into")]),
                ],
            ),
            field(
                "c",
                "String",
                vec![list_attr("setter", vec![MetaEntry::Other])],
            ),
        ],
    );
    assert_eq!(
        derive_setters(&rec).unwrap_err(),
        DeriveError::DuplicateAttr("setter".to_string())
    );
}

#[test]
fn non_list_and_inner_annotations_ignored() {
    let rec = record(
        "Simple",
        vec![field(
            "a",
            "String",
            vec![
                Annotation {
                    style: AttrStyle::Outer,
                    name: "setter".to_string(),
                    form: AttrForm::Word,
                },
                Annotation {
                    style: AttrStyle::Outer,
                    name: "setter".to_string(),
                    form: AttrForm::NameValue(LitValue::Bool(true)),
                },
                Annotation {
                    style: AttrStyle::Inner,
                    name: "setter".to_string(),
                    form: AttrForm::List(vec![MetaEntry::Word("into".to_string())]),
                },
                Annotation {
                    style: AttrStyle::Outer,
                    name: "setter".to_string(),
                    form: AttrForm::Unparsed,
                },
                Annotation {
                    style: AttrStyle::Outer,
                    name: "other".to_string(),
                    form: AttrForm::List(vec![MetaEntry::Word("into".to_string())]),
                },
            ],
        )],
    );
    let block = derive_setters(&rec).unwrap();
    assert_eq!(block.fns[0].mode, SetterMode::Direct);
}

#[test]
fn extract_attr_no_match_is_empty() {
    let f = field("a", "String", vec![]);
    let cfg = extract_attr(&f, "setter").unwrap();
    assert_eq!(cfg.entries.len(), 0);
    assert!(cfg.get("into").is_none());
}

#[test]
fn extract_attr_bare_word_binds_true() {
    let f = field("a", "String", vec![list_attr("setter", vec![word("into")])]);
    let cfg = extract_attr(&f, "setter").unwrap();
    assert_eq!(cfg.entries.len(), 1);
    assert_eq!(cfg.get("into"), Some(&LitValue::Bool(true)));
}

#[test]
fn extract_attr_key_value_binds_value() {
    let f = field(
        "a",
        "String",
        vec![list_attr(
            "setter",
            vec![key_value("into", LitValue::Bool(false)), key_value("other", LitValue::Int(3))],
        )],
    );
    let cfg = extract_attr(&f, "setter").unwrap();
    assert_eq!(cfg.entries.len(), 2);
    assert_eq!(cfg.get("into"), Some(&LitValue::Bool(false)));
    assert_eq!(cfg.get("other"), Some(&LitValue::Int(3)));
    assert!(cfg.get("missing").is_none());
}

#[test]
fn extract_bool_accepts_only_booleans() {
    assert_eq!(extract_bool(&LitValue::Bool(true)), Ok(true));
    assert_eq!(extract_bool(&LitValue::Bool(false)), Ok(false));
    assert_eq!(
        extract_bool(&LitValue::Str("true".to_string())),
        Err(DeriveError::ExpectedBool)
    );
    assert_eq!(extract_bool(&LitValue::Int(0)), Err(DeriveError::ExpectedBool));
    assert_eq!(extract_bool(&LitValue::Other), Err(DeriveError::ExpectedBool));
}

#[test]
fn setter_config_reads_into() {
    let marked = field("a", "String", vec![list_attr("setter", vec![word("into")])]);
    assert!(SetterConfig::new(&marked).unwrap().into);
    let plain = field("b", "String", vec![]);
    assert!(!SetterConfig::new(&plain).unwrap().into);
}

#[test]
fn getter_config_parses_and_discards() {
    let f = field("a", "String", vec![list_attr("getter", vec![word("anything")])]);
    assert!(GetterConfig::new(&f).is_ok());
    let bad = field(
        "b",
        "String",
        vec![list_attr("getter", vec![]), list_attr("getter", vec![])],
    );
    assert!(GetterConfig::new(&bad).is_err());
}

#[test]
fn malformed_getter_entry_aborts() {
    let rec = record(
        "Simple",
        vec![field("a", "String", vec![list_attr("getter", vec![MetaEntry::Other])])],
    );
    let err = derive_getters(&rec).unwrap_err();
    assert_eq!(err, DeriveError::MalformedAttr("getter".to_string()));
    assert_eq!(err.message(), "Malformed getter attribute");
}

#[test]
fn generics_carried_over_unchanged() {
    let rec = RecordDef {
        name: "Wrapper".to_string(),
        impl_generics: "<T>".to_string(),
        ty_generics: "<T>".to_string(),
        where_clause: "where T: Clone".to_string(),
        shape: RecordShape::Braced(vec![field("inner", "T", vec![])]),
    };
    let block = derive_getters(&rec).unwrap();
    assert_eq!(block.impl_generics, "<T>");
    assert_eq!(block.ty_generics, "<T>");
    assert_eq!(block.where_clause, "where T: Clone");
    let sblock = derive_setters(&rec).unwrap();
    assert_eq!(sblock.impl_generics, "<T>");
    assert_eq!(sblock.ty_generics, "<T>");
    assert_eq!(sblock.where_clause, "where T: Clone");
}

#[test]
fn end_to_end_two_string_fields() {
    let rec = record(
        "Simple",
        vec![
            field("field_a", "String", vec![list_attr("setter", vec![word("into")])]),
            field("field_b", "String", vec![]),
        ],
    );
    let getters = derive_getters(&rec).unwrap();
    assert_eq!(getters.fns.len(), 2);
    assert_eq!(getters.fns[0].fn_name, "field_a");
    assert_eq!(getters.fns[1].fn_name, "field_b");
    let setters = derive_setters(&rec).unwrap();
    assert_eq!(setters.fns.len(), 2);
    assert_eq!(setters.fns[0].fn_name, "set_field_a");
    assert_eq!(setters.fns[0].mode, SetterMode::Conversion);
    assert_eq!(setters.fns[1].fn_name, "set_field_b");
    assert_eq!(setters.fns[1].mode, SetterMode::Direct);
}
