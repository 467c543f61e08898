//! The guarantees of the two derivations, stated and proved once and for
//! all records.

use vstd::prelude::*;
use crate::ast::{AnnotationView, FieldView, LitView, MetaEntryView, RecordView};
use crate::attr::{
    entries_well_formed, spec_entry_pair, spec_entry_pairs, spec_extract_attr, spec_getter_check,
    spec_lookup, spec_matching, spec_setter_into,
};
use crate::derive::{
    spec_derive_getters, spec_derive_setters, spec_getter_fn, spec_getter_fns, spec_setter_fn,
    spec_setter_fns, SetterMode,
};
use crate::errors::ErrorView;

verus! {

/// When every field's `getter` configuration is in order, the derivation
/// succeeds and emits exactly one accessor per field, in field order, each
/// named like its field and projecting that field.
pub proof fn lemma_getter_fns_all_ok(fs: Seq<FieldView>)
    requires
        forall|i: int| 0 <= i < fs.len() ==> spec_getter_check(#[trigger] fs[i]) is Ok,
    ensures
        spec_getter_fns(fs) is Ok,
        spec_getter_fns(fs)->Ok_0.len() == fs.len(),
        forall|i: int|
            0 <= i < fs.len() ==> (#[trigger] spec_getter_fns(fs)->Ok_0[i]) == spec_getter_fn(
                fs[i],
            ),
    decreases fs.len(),
{
    if fs.len() > 0 {
        let pre = fs.drop_last();
        assert forall|i: int| 0 <= i < pre.len() implies spec_getter_check(
            #[trigger] pre[i],
        ) is Ok by {
            assert(pre[i] == fs[i]);
        }
        lemma_getter_fns_all_ok(pre);
        assert(spec_getter_check(fs.last()) is Ok);
        assert forall|i: int| 0 <= i < fs.len() implies (#[trigger] spec_getter_fns(
            fs,
        )->Ok_0[i]) == spec_getter_fn(fs[i]) by {
            if i < fs.len() - 1 {
                assert(spec_getter_fns(pre)->Ok_0[i] == spec_getter_fn(pre[i]));
                assert(pre[i] == fs[i]);
            }
        }
    }
}

/// Whatever succeeds was emitted field by field: a successful getter
/// derivation holds exactly one accessor per field, in field order, each
/// named like its field and projecting that field.
pub proof fn lemma_getter_fns_pointwise(fs: Seq<FieldView>)
    requires
        spec_getter_fns(fs) is Ok,
    ensures
        spec_getter_fns(fs)->Ok_0.len() == fs.len(),
        forall|i: int|
            0 <= i < fs.len() ==> (#[trigger] spec_getter_fns(fs)->Ok_0[i]) == spec_getter_fn(
                fs[i],
            ),
        forall|i: int| 0 <= i < fs.len() ==> spec_getter_check(#[trigger] fs[i]) is Ok,
    decreases fs.len(),
{
    if fs.len() > 0 {
        let pre = fs.drop_last();
        lemma_getter_fns_pointwise(pre);
        assert forall|i: int| 0 <= i < fs.len() implies (#[trigger] spec_getter_fns(
            fs,
        )->Ok_0[i]) == spec_getter_fn(fs[i]) by {
            if i < fs.len() - 1 {
                assert(spec_getter_fns(pre)->Ok_0[i] == spec_getter_fn(pre[i]));
                assert(pre[i] == fs[i]);
            } else {
                assert(fs[i] == fs.last());
            }
        }
        assert forall|i: int| 0 <= i < fs.len() implies spec_getter_check(
            #[trigger] fs[i],
        ) is Ok by {
            if i < fs.len() - 1 {
                assert(spec_getter_check(pre[i]) is Ok);
                assert(pre[i] == fs[i]);
            } else {
                assert(fs[i] == fs.last());
            }
        }
    }
}

/// Whatever succeeds was emitted field by field: a successful setter
/// derivation holds exactly one mutator per field, in field order, each
/// named `set_` + field, its shape decided by that field's own `into`
/// option.
pub proof fn lemma_setter_fns_pointwise(fs: Seq<FieldView>)
    requires
        spec_setter_fns(fs) is Ok,
    ensures
        spec_setter_fns(fs)->Ok_0.len() == fs.len(),
        forall|i: int|
            0 <= i < fs.len() ==> spec_setter_into(#[trigger] fs[i]) is Ok,
        forall|i: int|
            0 <= i < fs.len() ==> (#[trigger] spec_setter_fns(fs)->Ok_0[i]) == spec_setter_fn(
                fs[i],
                spec_setter_into(fs[i])->Ok_0,
            ),
    decreases fs.len(),
{
    if fs.len() > 0 {
        let pre = fs.drop_last();
        lemma_setter_fns_pointwise(pre);
        assert forall|i: int| 0 <= i < fs.len() implies spec_setter_into(
            #[trigger] fs[i],
        ) is Ok && spec_setter_fns(fs)->Ok_0[i] == spec_setter_fn(
            fs[i],
            spec_setter_into(fs[i])->Ok_0,
        ) by {
            if i < fs.len() - 1 {
                assert(spec_setter_into(pre[i]) is Ok);
                assert(spec_setter_fns(pre)->Ok_0[i] == spec_setter_fn(
                    pre[i],
                    spec_setter_into(pre[i])->Ok_0,
                ));
                assert(pre[i] == fs[i]);
            } else {
                assert(fs[i] == fs.last());
            }
        }
    }
}

/// Deriving getters on a braced record none of whose fields bears a
/// `getter` configuration block succeeds and emits exactly one accessor
/// per field, each named like its field and returning a reference to that
/// field and none other.
pub proof fn lemma_getters_without_markers(rec: RecordView)
    requires
        rec.shape is Braced,
        forall|i: int|
            0 <= i < rec.shape->Braced_0.len() ==> spec_matching(
                (#[trigger] rec.shape->Braced_0[i]).attrs,
                "getter"@,
            ).len() == 0,
    ensures
        spec_derive_getters(rec) is Ok,
        spec_derive_getters(rec)->Ok_0.fns.len() == rec.shape->Braced_0.len(),
        forall|i: int|
            0 <= i < rec.shape->Braced_0.len() ==> (#[trigger] spec_derive_getters(
                rec,
            )->Ok_0.fns[i]) == spec_getter_fn(rec.shape->Braced_0[i]),
{
    let fs = rec.shape->Braced_0;
    assert forall|i: int| 0 <= i < fs.len() implies spec_getter_check(#[trigger] fs[i]) is Ok by {
        assert(spec_matching(fs[i].attrs, "getter"@).len() == 0);
    }
    lemma_getter_fns_all_ok(fs);
}

/// A field bearing no `setter` configuration block gets the direct-mode
/// mutator: no conversion is applied.
pub proof fn lemma_unmarked_setter_is_direct(f: FieldView)
    requires
        spec_matching(f.attrs, "setter"@).len() == 0,
    ensures
        spec_setter_into(f) == Result::<bool, ErrorView>::Ok(false),
        spec_setter_fn(f, false).mode == SetterMode::Direct,
{
}

/// A bare word as the last entry of a configuration block binds that word
/// to `true`: the shorthand and the explicit `= true` form configure
/// alike.
pub proof fn lemma_trailing_bare_word(es: Seq<MetaEntryView>, key: Seq<char>)
    requires
        es.len() > 0,
        es.last() == MetaEntryView::Word(key),
    ensures
        spec_lookup(spec_entry_pairs(es), key) == Option::Some(LitView::Bool(true)),
{
    assert(spec_entry_pairs(es).last() == spec_entry_pair(es.last()));
}

/// A key/value pair as the last entry of a configuration block binds that
/// key to exactly that value.
pub proof fn lemma_trailing_key_value(es: Seq<MetaEntryView>, key: Seq<char>, v: LitView)
    requires
        es.len() > 0,
        es.last() == MetaEntryView::KeyValue(key, v),
    ensures
        spec_lookup(spec_entry_pairs(es), key) == Option::Some(v),
{
    assert(spec_entry_pairs(es).last() == spec_entry_pair(es.last()));
}

/// A field whose extracted `setter` configuration binds `into` to `true`
/// gets the conversion-mode mutator.
pub proof fn lemma_into_setter_is_conversion(f: FieldView)
    requires
        spec_extract_attr(f.attrs, "setter"@) is Ok,
        spec_lookup(spec_extract_attr(f.attrs, "setter"@)->Ok_0, "into"@) == Option::Some(
            LitView::Bool(true),
        ),
    ensures
        spec_setter_into(f) == Result::<bool, ErrorView>::Ok(true),
        spec_setter_fn(f, true).mode == SetterMode::Conversion,
{
}

/// Conversion never applies unless asked for: with `into` absent or bound
/// to `false`, the mutator is direct-mode.
pub proof fn lemma_no_conversion_unless_into(f: FieldView)
    requires
        spec_extract_attr(f.attrs, "setter"@) is Ok,
        spec_lookup(spec_extract_attr(f.attrs, "setter"@)->Ok_0, "into"@) is None
            || spec_lookup(spec_extract_attr(f.attrs, "setter"@)->Ok_0, "into"@) == Option::Some(
            LitView::Bool(false),
        ),
    ensures
        spec_setter_into(f) == Result::<bool, ErrorView>::Ok(false),
        spec_setter_fn(f, false).mode == SetterMode::Direct,
{
}

/// Two or more configuration blocks of one name on one field are a fatal
/// error, the `expected at most one` diagnostic.
pub proof fn lemma_duplicate_blocks_abort(attrs: Seq<AnnotationView>, name: Seq<char>)
    requires
        spec_matching(attrs, name).len() >= 2,
    ensures
        spec_extract_attr(attrs, name) == Result::<
            Seq<(Seq<char>, LitView)>,
            ErrorView,
        >::Err(ErrorView::DuplicateAttr(name)),
{
}

/// A malformed nested entry in the one matching block is a fatal error,
/// the `malformed` diagnostic.
pub proof fn lemma_malformed_entry_aborts(attrs: Seq<AnnotationView>, name: Seq<char>)
    requires
        spec_matching(attrs, name).len() == 1,
        !entries_well_formed(spec_matching(attrs, name)[0].form->List_0),
    ensures
        spec_extract_attr(attrs, name) == Result::<
            Seq<(Seq<char>, LitView)>,
            ErrorView,
        >::Err(ErrorView::MalformedAttr(name)),
{
}

/// A non-boolean literal bound to `into` is a fatal error, the `expected
/// bool` diagnostic.
pub proof fn lemma_non_bool_into_aborts(f: FieldView, l: LitView)
    requires
        spec_extract_attr(f.attrs, "setter"@) is Ok,
        spec_lookup(spec_extract_attr(f.attrs, "setter"@)->Ok_0, "into"@) == Option::Some(l),
        !(l is Bool),
    ensures
        spec_setter_into(f) == Result::<bool, ErrorView>::Err(ErrorView::ExpectedBool),
{
}

/// Any record shape other than a braced field list — tuple struct, unit
/// struct, enum or union — is rejected by both derivations with the
/// structural-restriction diagnostic naming the derivation.
pub proof fn lemma_non_braced_rejected(rec: RecordView)
    requires
        !(rec.shape is Braced),
    ensures
        spec_derive_getters(rec) == Result::<
            crate::derive::GetterBlockView,
            ErrorView,
        >::Err(ErrorView::NotBracedStruct("getters"@)),
        spec_derive_setters(rec) == Result::<
            crate::derive::SetterBlockView,
            ErrorView,
        >::Err(ErrorView::NotBracedStruct("setters"@)),
{
}

/// A successful setter derivation emits exactly one mutator per field, in
/// field order, each decided by its own field alone; and every field
/// bearing no `setter` configuration block gets the direct-mode mutator
/// named `set_` + field, with no conversion applied.
pub proof fn lemma_setters_one_per_field(rec: RecordView)
    requires
        rec.shape is Braced,
        spec_derive_setters(rec) is Ok,
    ensures
        spec_derive_setters(rec)->Ok_0.fns.len() == rec.shape->Braced_0.len(),
        forall|i: int|
            0 <= i < rec.shape->Braced_0.len() ==> (#[trigger] spec_derive_setters(
                rec,
            )->Ok_0.fns[i]) == spec_setter_fn(
                rec.shape->Braced_0[i],
                spec_setter_into(rec.shape->Braced_0[i])->Ok_0,
            ),
        forall|i: int|
            0 <= i < rec.shape->Braced_0.len() && spec_matching(
                (#[trigger] rec.shape->Braced_0[i]).attrs,
                "setter"@,
            ).len() == 0 ==> spec_derive_setters(rec)->Ok_0.fns[i].mode == SetterMode::Direct
                && spec_derive_setters(rec)->Ok_0.fns[i].fn_name == "set_"@
                + rec.shape->Braced_0[i].name,
{
    let fs = rec.shape->Braced_0;
    lemma_setter_fns_pointwise(fs);
    assert forall|i: int|
        0 <= i < fs.len() && spec_matching(
            (#[trigger] fs[i]).attrs,
            "setter"@,
        ).len() == 0 implies spec_derive_setters(rec)->Ok_0.fns[i].mode == SetterMode::Direct
        && spec_derive_setters(rec)->Ok_0.fns[i].fn_name == "set_"@ + fs[i].name by {
        lemma_unmarked_setter_is_direct(fs[i]);
        assert(spec_derive_setters(rec)->Ok_0.fns[i] == spec_setter_fn(fs[i], false));
    }
}

/// The first field whose `setter` configuration is in error decides the
/// whole derivation: everything before it in order, it aborts with its own
/// error.
pub proof fn lemma_first_setter_error_decides(fs: Seq<FieldView>, i: int)
    requires
        0 <= i < fs.len(),
        spec_setter_fns(fs.take(i)) is Ok,
        spec_setter_into(fs[i]) is Err,
    ensures
        spec_setter_fns(fs) == Result::<Seq<crate::derive::SetterFnView>, ErrorView>::Err(
            spec_setter_into(fs[i])->Err_0,
        ),
{
    assert(fs.take(i + 1).drop_last() =~= fs.take(i));
    assert(fs.take(i + 1).last() == fs[i]);
    assert(spec_setter_fns(fs.take(i + 1)) is Err);
    crate::derive::lemma_setter_fns_err_extends(fs, i + 1);
}

/// The first field whose `getter` configuration is in error decides the
/// whole derivation likewise.
pub proof fn lemma_first_getter_error_decides(fs: Seq<FieldView>, i: int)
    requires
        0 <= i < fs.len(),
        spec_getter_fns(fs.take(i)) is Ok,
        spec_getter_check(fs[i]) is Err,
    ensures
        spec_getter_fns(fs) == Result::<Seq<crate::derive::GetterFnView>, ErrorView>::Err(
            spec_getter_check(fs[i])->Err_0,
        ),
{
    assert(fs.take(i + 1).drop_last() =~= fs.take(i));
    assert(fs.take(i + 1).last() == fs[i]);
    assert(spec_getter_fns(fs.take(i + 1)) is Err);
    crate::derive::lemma_getter_fns_err_extends(fs, i + 1);
}

} // verus!
