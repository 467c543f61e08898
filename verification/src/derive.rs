//! The getter and setter synthesizers.
//!
//! Each derivation consumes a record definition and produces one
//! implementation block holding one generated function per field, in field
//! order, with the record's generics carried over verbatim.  Getters are
//! named like their field; setters are named `set_` + field and take one of
//! two shapes, decided by the field's `into` option.

use vstd::prelude::*;
use crate::ast::{fields_view, FieldView, RecordDef, RecordShape, RecordShapeView, RecordView};
use crate::attr::{spec_getter_check, spec_setter_into, GetterConfig, SetterConfig};
use crate::errors::{DeriveError, ErrorView};
use vstd::string::StringExecFns;

verus! {

/// The two shapes a generated mutator can take: direct assignment of the
/// declared type, or conversion from any type convertible into it.
#[derive(Debug, PartialEq, Eq, Structural, Clone, Copy)]
pub enum SetterMode {
    Direct,
    Conversion,
}

/// One generated read-only accessor: a public function named like its
/// field, taking `&self` and returning a reference to the field.
#[derive(Debug, PartialEq)]
pub struct GetterFn {
    pub fn_name: String,
    pub field_name: String,
    pub field_ty: String,
}

/// Mathematical model of a [`GetterFn`].
pub struct GetterFnView {
    pub fn_name: Seq<char>,
    pub field_name: Seq<char>,
    pub field_ty: Seq<char>,
}

impl View for GetterFn {
    type V = GetterFnView;

    open spec fn view(&self) -> GetterFnView {
        GetterFnView { fn_name: self.fn_name@, field_name: self.field_name@, field_ty: self.field_ty@ }
    }
}

/// One generated mutator: a public function named `set_` + field, either
/// direct-mode or conversion-mode.
#[derive(Debug, PartialEq)]
pub struct SetterFn {
    pub fn_name: String,
    pub field_name: String,
    pub field_ty: String,
    pub mode: SetterMode,
}

/// Mathematical model of a [`SetterFn`].
pub struct SetterFnView {
    pub fn_name: Seq<char>,
    pub field_name: Seq<char>,
    pub field_ty: Seq<char>,
    pub mode: SetterMode,
}

impl View for SetterFn {
    type V = SetterFnView;

    open spec fn view(&self) -> SetterFnView {
        SetterFnView {
            fn_name: self.fn_name@,
            field_name: self.field_name@,
            field_ty: self.field_ty@,
            mode: self.mode,
        }
    }
}

/// The implementation block a getter derivation emits: the record's name
/// and generics, and one accessor per field in field order.
#[derive(Debug, PartialEq)]
pub struct GetterBlock {
    pub record_name: String,
    pub impl_generics: String,
    pub ty_generics: String,
    pub where_clause: String,
    pub fns: Vec<GetterFn>,
}

/// Mathematical model of a [`GetterBlock`].
pub struct GetterBlockView {
    pub record_name: Seq<char>,
    pub impl_generics: Seq<char>,
    pub ty_generics: Seq<char>,
    pub where_clause: Seq<char>,
    pub fns: Seq<GetterFnView>,
}

/// The model of a sequence of generated accessors.
pub open spec fn getter_fns_view(s: Seq<GetterFn>) -> Seq<GetterFnView> {
    s.map_values(|f: GetterFn| f@)
}

impl View for GetterBlock {
    type V = GetterBlockView;

    open spec fn view(&self) -> GetterBlockView {
        GetterBlockView {
            record_name: self.record_name@,
            impl_generics: self.impl_generics@,
            ty_generics: self.ty_generics@,
            where_clause: self.where_clause@,
            fns: getter_fns_view(self.fns@),
        }
    }
}

/// The implementation block a setter derivation emits.
#[derive(Debug, PartialEq)]
pub struct SetterBlock {
    pub record_name: String,
    pub impl_generics: String,
    pub ty_generics: String,
    pub where_clause: String,
    pub fns: Vec<SetterFn>,
}

/// Mathematical model of a [`SetterBlock`].
pub struct SetterBlockView {
    pub record_name: Seq<char>,
    pub impl_generics: Seq<char>,
    pub ty_generics: Seq<char>,
    pub where_clause: Seq<char>,
    pub fns: Seq<SetterFnView>,
}

/// The model of a sequence of generated mutators.
pub open spec fn setter_fns_view(s: Seq<SetterFn>) -> Seq<SetterFnView> {
    s.map_values(|f: SetterFn| f@)
}

impl View for SetterBlock {
    type V = SetterBlockView;

    open spec fn view(&self) -> SetterBlockView {
        SetterBlockView {
            record_name: self.record_name@,
            impl_generics: self.impl_generics@,
            ty_generics: self.ty_generics@,
            where_clause: self.where_clause@,
            fns: setter_fns_view(self.fns@),
        }
    }
}

/// The accessor generated for one field: named identically to the field,
/// projecting that field.
pub open spec fn spec_getter_fn(f: FieldView) -> GetterFnView {
    GetterFnView { fn_name: f.name, field_name: f.name, field_ty: f.ty }
}

/// The mutator generated for one field: named `set_` + field, its shape
/// decided by the `into` option.
pub open spec fn spec_setter_fn(f: FieldView, into: bool) -> SetterFnView {
    SetterFnView {
        fn_name: "set_"@ + f.name,
        field_name: f.name,
        field_ty: f.ty,
        mode: if into {
            SetterMode::Conversion
        } else {
            SetterMode::Direct
        },
    }
}

/// The accessors for a field sequence, in order; the first field whose
/// `getter` configuration is in error aborts with that error.
pub open spec fn spec_getter_fns(fs: Seq<FieldView>) -> Result<Seq<GetterFnView>, ErrorView>
    decreases fs.len(),
{
    if fs.len() == 0 {
        Result::Ok(Seq::empty())
    } else {
        match spec_getter_fns(fs.drop_last()) {
            Result::Err(e) => Result::Err(e),
            Result::Ok(pre) => match spec_getter_check(fs.last()) {
                Result::Err(e) => Result::Err(e),
                Result::Ok(_) => Result::Ok(pre.push(spec_getter_fn(fs.last()))),
            },
        }
    }
}

/// The mutators for a field sequence, in order; the first field whose
/// `setter` configuration is in error aborts with that error.
pub open spec fn spec_setter_fns(fs: Seq<FieldView>) -> Result<Seq<SetterFnView>, ErrorView>
    decreases fs.len(),
{
    if fs.len() == 0 {
        Result::Ok(Seq::empty())
    } else {
        match spec_setter_fns(fs.drop_last()) {
            Result::Err(e) => Result::Err(e),
            Result::Ok(pre) => match spec_setter_into(fs.last()) {
                Result::Err(e) => Result::Err(e),
                Result::Ok(into) => Result::Ok(pre.push(spec_setter_fn(fs.last(), into))),
            },
        }
    }
}

/// What the getter derivation yields for a record: one implementation
/// block with one accessor per field, or the first fatal error; any
/// non-braced shape is rejected outright.
pub open spec fn spec_derive_getters(rec: RecordView) -> Result<GetterBlockView, ErrorView> {
    match rec.shape {
        RecordShapeView::Braced(fs) => match spec_getter_fns(fs) {
            Result::Err(e) => Result::Err(e),
            Result::Ok(fns) => Result::Ok(
                GetterBlockView {
                    record_name: rec.name,
                    impl_generics: rec.impl_generics,
                    ty_generics: rec.ty_generics,
                    where_clause: rec.where_clause,
                    fns,
                },
            ),
        },
        _ => Result::Err(ErrorView::NotBracedStruct("getters"@)),
    }
}

/// What the setter derivation yields for a record.
pub open spec fn spec_derive_setters(rec: RecordView) -> Result<SetterBlockView, ErrorView> {
    match rec.shape {
        RecordShapeView::Braced(fs) => match spec_setter_fns(fs) {
            Result::Err(e) => Result::Err(e),
            Result::Ok(fns) => Result::Ok(
                SetterBlockView {
                    record_name: rec.name,
                    impl_generics: rec.impl_generics,
                    ty_generics: rec.ty_generics,
                    where_clause: rec.where_clause,
                    fns,
                },
            ),
        },
        _ => Result::Err(ErrorView::NotBracedStruct("setters"@)),
    }
}

/// An error in a prefix of the fields decides the whole getter sequence.
pub proof fn lemma_getter_fns_err_extends(fs: Seq<FieldView>, i: int)
    requires
        0 <= i <= fs.len(),
        spec_getter_fns(fs.take(i)) is Err,
    ensures
        spec_getter_fns(fs) == spec_getter_fns(fs.take(i)),
    decreases fs.len() - i,
{
    if i < fs.len() {
        assert(fs.take(i + 1).drop_last() =~= fs.take(i));
        assert(spec_getter_fns(fs.take(i + 1)) == spec_getter_fns(fs.take(i)));
        lemma_getter_fns_err_extends(fs, i + 1);
    } else {
        assert(fs.take(i) =~= fs);
    }
}

/// An error in a prefix of the fields decides the whole setter sequence.
pub proof fn lemma_setter_fns_err_extends(fs: Seq<FieldView>, i: int)
    requires
        0 <= i <= fs.len(),
        spec_setter_fns(fs.take(i)) is Err,
    ensures
        spec_setter_fns(fs) == spec_setter_fns(fs.take(i)),
    decreases fs.len() - i,
{
    if i < fs.len() {
        assert(fs.take(i + 1).drop_last() =~= fs.take(i));
        assert(spec_setter_fns(fs.take(i + 1)) == spec_setter_fns(fs.take(i)));
        lemma_setter_fns_err_extends(fs, i + 1);
    } else {
        assert(fs.take(i) =~= fs);
    }
}

/// The model of an exec getter derivation result.
pub open spec fn getter_result_view(r: Result<GetterBlock, DeriveError>) -> Result<
    GetterBlockView,
    ErrorView,
> {
    match r {
        Result::Ok(b) => Result::Ok(b@),
        Result::Err(e) => Result::Err(e@),
    }
}

/// The model of an exec setter derivation result.
pub open spec fn setter_result_view(r: Result<SetterBlock, DeriveError>) -> Result<
    SetterBlockView,
    ErrorView,
> {
    match r {
        Result::Ok(b) => Result::Ok(b@),
        Result::Err(e) => Result::Err(e@),
    }
}

/// Derives the read-only accessors of a record: one public function per
/// field, named like the field, returning a reference to it, wrapped in
/// one implementation block that carries the record's generics over
/// unchanged.  Only field-braced records are accepted.
pub fn derive_getters(rec: &RecordDef) -> (r: Result<GetterBlock, DeriveError>)
    ensures
        getter_result_view(r) == spec_derive_getters(rec@),
{
    match &rec.shape {
        RecordShape::Braced(fields) => {
            let ghost fv = fields_view(fields@);
            let n: usize = fields.len();
            let mut fns: Vec<GetterFn> = Vec::new();
            let mut i: usize = 0;
            proof {
                assert(fv.take(0).len() == 0);
                assert(getter_fns_view(fns@) =~= Seq::<GetterFnView>::empty());
            }
            while i < n
                invariant
                    n == fields.len(),
                    fv == fields_view(fields@),
                    fv.len() == n,
                    i <= n,
                    rec@.shape == RecordShapeView::Braced(fv),
                    spec_getter_fns(fv.take(i as int)) == Result::<
                        Seq<GetterFnView>,
                        ErrorView,
                    >::Ok(getter_fns_view(fns@)),
                    fns@.len() == i as int,
                decreases n - i,
            {
                let field = &fields[i];
                proof {
                    assert(fv[i as int] == fields@[i as int]@);
                    assert(fv.take(i + 1).drop_last() =~= fv.take(i as int));
                    assert(fv.take(i + 1).last() == fv[i as int]);
                }
                match GetterConfig::new(field) {
                    Result::Err(e) => {
                        proof {
                            lemma_getter_fns_err_extends(fv, i + 1);
                        }
                        return Result::Err(e);
                    },
                    Result::Ok(_) => {},
                }
                let gf = GetterFn {
                    fn_name: field.name.clone(),
                    field_name: field.name.clone(),
                    field_ty: field.ty.clone(),
                };
                proof {
                    assert(gf@ == spec_getter_fn(fv[i as int]));
                }
                fns.push(gf);
                i = i + 1;
                proof {
                    assert(getter_fns_view(fns@) =~= spec_getter_fns(
                        fv.take(i as int),
                    )->Ok_0) by {
                        let pv = spec_getter_fns(fv.take(i - 1))->Ok_0;
                        assert forall|k: int| 0 <= k < i implies getter_fns_view(fns@)[k]
                            == pv.push(spec_getter_fn(fv[i - 1]))[k] by {
                            assert(getter_fns_view(fns@)[k] == fns@[k]@);
                            if k < i - 1 {
                                assert(getter_fns_view(fns@.drop_last())[k] == fns@.drop_last()[k]@);
                            }
                        }
                    }
                }
            }
            proof {
                assert(fv.take(n as int) =~= fv);
            }
            Result::Ok(
                GetterBlock {
                    record_name: rec.name.clone(),
                    impl_generics: rec.impl_generics.clone(),
                    ty_generics: rec.ty_generics.clone(),
                    where_clause: rec.where_clause.clone(),
                    fns,
                },
            )
        },
        _ => Result::Err(DeriveError::NotBracedStruct(String::from_str("getters"))),
    }
}

/// Derives the mutators of a record: one public function per field, named
/// `set_` + field, direct-mode unless the field's `into` option is true,
/// wrapped in one implementation block that carries the record's generics
/// over unchanged.  Only field-braced records are accepted.
pub fn derive_setters(rec: &RecordDef) -> (r: Result<SetterBlock, DeriveError>)
    ensures
        setter_result_view(r) == spec_derive_setters(rec@),
{
    match &rec.shape {
        RecordShape::Braced(fields) => {
            let ghost fv = fields_view(fields@);
            let n: usize = fields.len();
            let mut fns: Vec<SetterFn> = Vec::new();
            let mut i: usize = 0;
            proof {
                assert(fv.take(0).len() == 0);
                assert(setter_fns_view(fns@) =~= Seq::<SetterFnView>::empty());
            }
            while i < n
                invariant
                    n == fields.len(),
                    fv == fields_view(fields@),
                    fv.len() == n,
                    i <= n,
                    rec@.shape == RecordShapeView::Braced(fv),
                    spec_setter_fns(fv.take(i as int)) == Result::<
                        Seq<SetterFnView>,
                        ErrorView,
                    >::Ok(setter_fns_view(fns@)),
                    fns@.len() == i as int,
                decreases n - i,
            {
                let field = &fields[i];
                proof {
                    assert(fv[i as int] == fields@[i as int]@);
                    assert(fv.take(i + 1).drop_last() =~= fv.take(i as int));
                    assert(fv.take(i + 1).last() == fv[i as int]);
                }
                let config = match SetterConfig::new(field) {
                    Result::Err(e) => {
                        proof {
                            lemma_setter_fns_err_extends(fv, i + 1);
                        }
                        return Result::Err(e);
                    },
                    Result::Ok(c) => c,
                };
                let mut fn_name = String::from_str("set_");
                fn_name.append(field.name.as_str());
                let sf = SetterFn {
                    fn_name,
                    field_name: field.name.clone(),
                    field_ty: field.ty.clone(),
                    mode: if config.into {
                        SetterMode::Conversion
                    } else {
                        SetterMode::Direct
                    },
                };
                proof {
                    assert(sf@ == spec_setter_fn(fv[i as int], config.into));
                }
                fns.push(sf);
                i = i + 1;
                proof {
                    assert(setter_fns_view(fns@) =~= spec_setter_fns(
                        fv.take(i as int),
                    )->Ok_0) by {
                        let pv = spec_setter_fns(fv.take(i - 1))->Ok_0;
                        assert forall|k: int| 0 <= k < i implies setter_fns_view(fns@)[k]
                            == pv.push(spec_setter_fn(fv[i - 1], config.into))[k] by {
                            assert(setter_fns_view(fns@)[k] == fns@[k]@);
                            if k < i - 1 {
                                assert(setter_fns_view(fns@.drop_last())[k] == fns@.drop_last()[k]@);
                            }
                        }
                    }
                }
            }
            proof {
                assert(fv.take(n as int) =~= fv);
            }
            Result::Ok(
                SetterBlock {
                    record_name: rec.name.clone(),
                    impl_generics: rec.impl_generics.clone(),
                    ty_generics: rec.ty_generics.clone(),
                    where_clause: rec.where_clause.clone(),
                    fns,
                },
            )
        },
        _ => Result::Err(DeriveError::NotBracedStruct(String::from_str("setters"))),
    }
}

} // verus!
