//! The syntactic model that the derivations work on.
//!
//! A record definition is a name, its generics carried over verbatim as
//! text, and a shape: either a braced list of fields or one of the
//! unsupported shapes.  Each field carries its name, its declared type as
//! text, and the annotations attached to it.  An annotation has a style, a
//! name, and a form; only outer, list-form annotations take part in
//! configuration extraction.

use vstd::prelude::*;

verus! {

/// A literal value carried by an annotation entry.
#[derive(Debug, PartialEq)]
pub enum LitValue {
    Bool(bool),
    Str(String),
    Int(u64),
    Other,
}

/// Mathematical model of a [`LitValue`].
pub enum LitView {
    Bool(bool),
    Str(Seq<char>),
    Int(u64),
    Other,
}

impl View for LitValue {
    type V = LitView;

    open spec fn view(&self) -> LitView {
        match self {
            LitValue::Bool(b) => LitView::Bool(*b),
            LitValue::Str(s) => LitView::Str(s@),
            LitValue::Int(i) => LitView::Int(*i),
            LitValue::Other => LitView::Other,
        }
    }
}

impl Clone for LitValue {
    fn clone(&self) -> (r: Self)
        ensures
            r@ == self@,
    {
        match self {
            LitValue::Bool(b) => LitValue::Bool(*b),
            LitValue::Str(s) => LitValue::Str(s.clone()),
            LitValue::Int(i) => LitValue::Int(*i),
            LitValue::Other => LitValue::Other,
        }
    }
}

/// One nested entry of a list-form annotation: a bare word, a key/value
/// pair, or anything else (which extraction rejects as malformed).
#[derive(Debug, PartialEq)]
pub enum MetaEntry {
    Word(String),
    KeyValue(String, LitValue),
    Other,
}

/// Mathematical model of a [`MetaEntry`].
pub enum MetaEntryView {
    Word(Seq<char>),
    KeyValue(Seq<char>, LitView),
    Other,
}

impl View for MetaEntry {
    type V = MetaEntryView;

    open spec fn view(&self) -> MetaEntryView {
        match self {
            MetaEntry::Word(w) => MetaEntryView::Word(w@),
            MetaEntry::KeyValue(k, v) => MetaEntryView::KeyValue(k@, v@),
            MetaEntry::Other => MetaEntryView::Other,
        }
    }
}

/// Where an annotation is attached: outer annotations face the item they
/// precede; inner ones face the enclosing item and are ignored here.
#[derive(Debug, PartialEq, Eq, Structural, Clone, Copy)]
pub enum AttrStyle {
    Outer,
    Inner,
}

/// The form of an annotation: a bare word, a `name = value` pair, a list of
/// nested entries, or one whose structure could not be interpreted.
#[derive(Debug, PartialEq)]
pub enum AttrForm {
    Word,
    NameValue(LitValue),
    List(Vec<MetaEntry>),
    Unparsed,
}

/// Mathematical model of an [`AttrForm`].
pub enum AttrFormView {
    Word,
    NameValue(LitView),
    List(Seq<MetaEntryView>),
    Unparsed,
}

/// The model of a sequence of nested entries.
pub open spec fn entries_view(es: Seq<MetaEntry>) -> Seq<MetaEntryView> {
    es.map_values(|e: MetaEntry| e@)
}

impl View for AttrForm {
    type V = AttrFormView;

    open spec fn view(&self) -> AttrFormView {
        match self {
            AttrForm::Word => AttrFormView::Word,
            AttrForm::NameValue(v) => AttrFormView::NameValue(v@),
            AttrForm::List(es) => AttrFormView::List(entries_view(es@)),
            AttrForm::Unparsed => AttrFormView::Unparsed,
        }
    }
}

/// One annotation attached to a field.
#[derive(Debug, PartialEq)]
pub struct Annotation {
    pub style: AttrStyle,
    pub name: String,
    pub form: AttrForm,
}

/// Mathematical model of an [`Annotation`].
pub struct AnnotationView {
    pub style: AttrStyle,
    pub name: Seq<char>,
    pub form: AttrFormView,
}

impl View for Annotation {
    type V = AnnotationView;

    open spec fn view(&self) -> AnnotationView {
        AnnotationView { style: self.style, name: self.name@, form: self.form@ }
    }
}

/// One named, typed member of a record, with its annotations.
#[derive(Debug, PartialEq)]
pub struct FieldDef {
    pub name: String,
    pub ty: String,
    pub attrs: Vec<Annotation>,
}

/// Mathematical model of a [`FieldDef`].
pub struct FieldView {
    pub name: Seq<char>,
    pub ty: Seq<char>,
    pub attrs: Seq<AnnotationView>,
}

/// The model of a sequence of annotations.
pub open spec fn attrs_view(s: Seq<Annotation>) -> Seq<AnnotationView> {
    s.map_values(|a: Annotation| a@)
}

impl View for FieldDef {
    type V = FieldView;

    open spec fn view(&self) -> FieldView {
        FieldView { name: self.name@, ty: self.ty@, attrs: attrs_view(self.attrs@) }
    }
}

/// The shape of a record definition: only braced field lists are derivable.
#[derive(Debug, PartialEq)]
pub enum RecordShape {
    Braced(Vec<FieldDef>),
    Tuple,
    Unit,
    Enum,
    Union,
}

/// Mathematical model of a [`RecordShape`].
pub enum RecordShapeView {
    Braced(Seq<FieldView>),
    Tuple,
    Unit,
    Enum,
    Union,
}

/// The model of a sequence of fields.
pub open spec fn fields_view(fs: Seq<FieldDef>) -> Seq<FieldView> {
    fs.map_values(|f: FieldDef| f@)
}

impl View for RecordShape {
    type V = RecordShapeView;

    open spec fn view(&self) -> RecordShapeView {
        match self {
            RecordShape::Braced(fs) => RecordShapeView::Braced(fields_view(fs@)),
            RecordShape::Tuple => RecordShapeView::Tuple,
            RecordShape::Unit => RecordShapeView::Unit,
            RecordShape::Enum => RecordShapeView::Enum,
            RecordShape::Union => RecordShapeView::Union,
        }
    }
}

/// The record definition handed to a derivation: its name, its generics
/// carried over verbatim as text, and its shape.
#[derive(Debug, PartialEq)]
pub struct RecordDef {
    pub name: String,
    pub impl_generics: String,
    pub ty_generics: String,
    pub where_clause: String,
    pub shape: RecordShape,
}

/// Mathematical model of a [`RecordDef`].
pub struct RecordView {
    pub name: Seq<char>,
    pub impl_generics: Seq<char>,
    pub ty_generics: Seq<char>,
    pub where_clause: Seq<char>,
    pub shape: RecordShapeView,
}

impl View for RecordDef {
    type V = RecordView;

    open spec fn view(&self) -> RecordView {
        RecordView {
            name: self.name@,
            impl_generics: self.impl_generics@,
            ty_generics: self.ty_generics@,
            where_clause: self.where_clause@,
            shape: self.shape@,
        }
    }
}

} // verus!
