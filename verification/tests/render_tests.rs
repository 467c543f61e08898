use accessors::ast::{Annotation, AttrForm, AttrStyle, FieldDef, MetaEntry, RecordDef, RecordShape};
use accessors::derive::{derive_getters, derive_setters};
use accessors::render::{
    derive_getters_source, derive_setters_source, render_getter_block, render_setter_block,
};

fn plain_field(name: &str, ty: &str) -> FieldDef {
    FieldDef { name: name.to_string(), ty: ty.to_string(), attrs: vec![] }
}

fn into_field(name: &str, ty: &str) -> FieldDef {
    FieldDef {
        name: name.to_string(),
        ty: ty.to_string(),
        attrs: vec![Annotation {
            style: AttrStyle::Outer,
            name: "setter".to_string(),
            form: AttrForm::List(vec![MetaEntry::Word("into".to_string())]),
        }],
    }
}

fn plain_record(name: &str, fields: Vec<FieldDef>) -> RecordDef {
    RecordDef {
        name: name.to_string(),
        impl_generics: String::new(),
        ty_generics: String::new(),
        where_clause: String::new(),
        shape: RecordShape::Braced(fields),
    }
}

#[test]
fn rendered_getter_block_text() {
    let rec = plain_record("Point", vec![plain_field("x", "u32"), plain_field("y", "String")]);
    let block = derive_getters(&rec).unwrap();
    let text = render_getter_block(&block);
    assert_eq!(
        text,
        "impl Point {\n\
         pub fn x(&self) -> &u32 { &self.x }\n\
         pub fn y(&self) -> &String { &self.y }\n\
         }\n"
    );
}

#[test]
fn rendered_setter_block_text() {
    let rec = plain_record(
        "Simple",
        vec![into_field("field_a", "String"), plain_field("field_b", "String")],
    );
    let block = derive_setters(&rec).unwrap();
    let text = render_setter_block(&block);
    assert_eq!(
        text,
        "impl Simple {\n\
         pub fn set_field_a<T>(&mut self, value: T) where T: Into<String> { self.field_a = value.into(); }\n\
         pub fn set_field_b(&mut self, value: String) { self.field_b = value; }\n\
         }\n"
    );
}

#[test]
fn rendered_block_carries_generics() {
    let rec = RecordDef {
        name: "Wrapper".to_string(),
        impl_generics: "<T>".to_string(),
        ty_generics: "<T>".to_string(),
        where_clause: "where T: Clone".to_string(),
        shape: RecordShape::Braced(vec![plain_field("inner", "T")]),
    };
    let block = derive_getters(&rec).unwrap();
    let text = render_getter_block(&block);
    assert_eq!(
        text,
        "impl<T> Wrapper<T> where T: Clone {\n\
         pub fn inner(&self) -> &T { &self.inner }\n\
         }\n"
    );
}

#[test]
fn one_step_source_matches_two_step() {
    let rec = plain_record(
        "Simple",
        vec![into_field("field_a", "String"), plain_field("field_b", "String")],
    );
    let getters = derive_getters_source(&rec).unwrap();
    assert_eq!(getters, render_getter_block(&derive_getters(&rec).unwrap()));
    let setters = derive_setters_source(&rec).unwrap();
    assert_eq!(setters, render_setter_block(&derive_setters(&rec).unwrap()));
}

#[test]
fn one_step_source_propagates_errors() {
    let rec = RecordDef {
        name: "Odd".to_string(),
        impl_generics: String::new(),
        ty_generics: String::new(),
        where_clause: String::new(),
        shape: RecordShape::Enum,
    };
    assert!(derive_getters_source(&rec).is_err());
    assert!(derive_setters_source(&rec).is_err());
}

#[test]
fn empty_record_renders_empty_block() {
    let rec = plain_record("Nothing", vec![]);
    let text = render_getter_block(&derive_getters(&rec).unwrap());
    assert_eq!(text, "impl Nothing {\n}\n");
}
