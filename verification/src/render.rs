//! Rendering the generated fragments as source text.
//!
//! The output for one derivation target is the ordered concatenation of
//! the per-field fragments, wrapped in one implementation block whose
//! header carries the record's generics over unchanged.

use vstd::prelude::*;
use crate::derive::{
    getter_fns_view, setter_fns_view, spec_derive_getters, spec_derive_setters, GetterBlock,
    GetterBlockView, GetterFn, GetterFnView, SetterBlock, SetterBlockView, SetterFn, SetterFnView,
    SetterMode,
};
use crate::ast::RecordDef;
use crate::errors::DeriveError;
use vstd::string::StringExecFns;

verus! {

/// The source text of one generated accessor.
pub open spec fn spec_render_getter_fn(f: GetterFnView) -> Seq<char> {
    "pub fn "@ + f.fn_name + "(&self) -> &"@ + f.field_ty + " { &self."@ + f.field_name + " }\n"@
}

/// The source text of one generated mutator: direct assignment, or
/// conversion through `Into` when conversion-mode.
pub open spec fn spec_render_setter_fn(f: SetterFnView) -> Seq<char> {
    if f.mode == SetterMode::Conversion {
        "pub fn "@ + f.fn_name + "<T>(&mut self, value: T) where T: Into<"@ + f.field_ty
            + "> { self."@ + f.field_name + " = value.into(); }\n"@
    } else {
        "pub fn "@ + f.fn_name + "(&mut self, value: "@ + f.field_ty + ") { self."@ + f.field_name
            + " = value; }\n"@
    }
}

/// The ordered concatenation of the accessor fragments.
pub open spec fn spec_render_getter_fns(fs: Seq<GetterFnView>) -> Seq<char>
    decreases fs.len(),
{
    if fs.len() == 0 {
        Seq::empty()
    } else {
        spec_render_getter_fns(fs.drop_last()) + spec_render_getter_fn(fs.last())
    }
}

/// The ordered concatenation of the mutator fragments.
pub open spec fn spec_render_setter_fns(fs: Seq<SetterFnView>) -> Seq<char>
    decreases fs.len(),
{
    if fs.len() == 0 {
        Seq::empty()
    } else {
        spec_render_setter_fns(fs.drop_last()) + spec_render_setter_fn(fs.last())
    }
}

/// The header of an emitted implementation block, the record's generics
/// carried over unchanged.
pub open spec fn spec_render_header(
    impl_generics: Seq<char>,
    name: Seq<char>,
    ty_generics: Seq<char>,
    where_clause: Seq<char>,
) -> Seq<char> {
    "impl"@ + impl_generics + " "@ + name + ty_generics + (if where_clause.len() == 0 {
        Seq::<char>::empty()
    } else {
        " "@ + where_clause
    }) + " {\n"@
}

/// The source text of a whole getter block.
pub open spec fn spec_render_getter_block(b: GetterBlockView) -> Seq<char> {
    spec_render_header(b.impl_generics, b.record_name, b.ty_generics, b.where_clause)
        + spec_render_getter_fns(b.fns) + "}\n"@
}

/// The source text of a whole setter block.
pub open spec fn spec_render_setter_block(b: SetterBlockView) -> Seq<char> {
    spec_render_header(b.impl_generics, b.record_name, b.ty_generics, b.where_clause)
        + spec_render_setter_fns(b.fns) + "}\n"@
}

/// Renders one accessor.
pub fn render_getter_fn(f: &GetterFn) -> (r: String)
    ensures
        r@ == spec_render_getter_fn(f@),
{
    let mut s = String::from_str("pub fn ");
    s.append(f.fn_name.as_str());
    s.append("(&self) -> &");
    s.append(f.field_ty.as_str());
    s.append(" { &self.");
    s.append(f.field_name.as_str());
    s.append(" }\n");
    s
}

/// Renders one mutator.
pub fn render_setter_fn(f: &SetterFn) -> (r: String)
    ensures
        r@ == spec_render_setter_fn(f@),
{
    match f.mode {
        SetterMode::Conversion => {
            let mut s = String::from_str("pub fn ");
            s.append(f.fn_name.as_str());
            s.append("<T>(&mut self, value: T) where T: Into<");
            s.append(f.field_ty.as_str());
            s.append("> { self.");
            s.append(f.field_name.as_str());
            s.append(" = value.into(); }\n");
            s
        },
        SetterMode::Direct => {
            let mut s = String::from_str("pub fn ");
            s.append(f.fn_name.as_str());
            s.append("(&mut self, value: ");
            s.append(f.field_ty.as_str());
            s.append(") { self.");
            s.append(f.field_name.as_str());
            s.append(" = value; }\n");
            s
        },
    }
}

/// Renders the accessor fragments in order.
pub fn render_getter_fns(fs: &Vec<GetterFn>) -> (r: String)
    ensures
        r@ == spec_render_getter_fns(getter_fns_view(fs@)),
{
    let ghost fv = getter_fns_view(fs@);
    let mut s = String::new();
    let n: usize = fs.len();
    let mut i: usize = 0;
    proof {
        assert(fv.take(0).len() == 0);
    }
    while i < n
        invariant
            n == fs.len(),
            fv == getter_fns_view(fs@),
            fv.len() == n,
            i <= n,
            s@ == spec_render_getter_fns(fv.take(i as int)),
        decreases n - i,
    {
        let frag = render_getter_fn(&fs[i]);
        s.append(frag.as_str());
        proof {
            assert(fv.take(i + 1).drop_last() =~= fv.take(i as int));
            assert(fv.take(i + 1).last() == fv[i as int]);
            assert(fv[i as int] == fs@[i as int]@);
        }
        i = i + 1;
    }
    proof {
        assert(fv.take(n as int) =~= fv);
    }
    s
}

/// Renders the mutator fragments in order.
pub fn render_setter_fns(fs: &Vec<SetterFn>) -> (r: String)
    ensures
        r@ == spec_render_setter_fns(setter_fns_view(fs@)),
{
    let ghost fv = setter_fns_view(fs@);
    let mut s = String::new();
    let n: usize = fs.len();
    let mut i: usize = 0;
    proof {
        assert(fv.take(0).len() == 0);
    }
    while i < n
        invariant
            n == fs.len(),
            fv == setter_fns_view(fs@),
            fv.len() == n,
            i <= n,
            s@ == spec_render_setter_fns(fv.take(i as int)),
        decreases n - i,
    {
        let frag = render_setter_fn(&fs[i]);
        s.append(frag.as_str());
        proof {
            assert(fv.take(i + 1).drop_last() =~= fv.take(i as int));
            assert(fv.take(i + 1).last() == fv[i as int]);
            assert(fv[i as int] == fs@[i as int]@);
        }
        i = i + 1;
    }
    proof {
        assert(fv.take(n as int) =~= fv);
    }
    s
}

/// Renders a whole getter block.
pub fn render_getter_block(b: &GetterBlock) -> (r: String)
    ensures
        r@ == spec_render_getter_block(b@),
{
    let mut s = String::from_str("impl");
    s.append(b.impl_generics.as_str());
    s.append(" ");
    s.append(b.record_name.as_str());
    s.append(b.ty_generics.as_str());
    if !b.where_clause.as_str().is_empty() {
        s.append(" ");
        s.append(b.where_clause.as_str());
    }
    s.append(" {\n");
    let body = render_getter_fns(&b.fns);
    s.append(body.as_str());
    s.append("}\n");
    s
}

/// Renders a whole setter block.
pub fn render_setter_block(b: &SetterBlock) -> (r: String)
    ensures
        r@ == spec_render_setter_block(b@),
{
    let mut s = String::from_str("impl");
    s.append(b.impl_generics.as_str());
    s.append(" ");
    s.append(b.record_name.as_str());
    s.append(b.ty_generics.as_str());
    if !b.where_clause.as_str().is_empty() {
        s.append(" ");
        s.append(b.where_clause.as_str());
    }
    s.append(" {\n");
    let body = render_setter_fns(&b.fns);
    s.append(body.as_str());
    s.append("}\n");
    s
}

/// Derives and renders the getters of a record in one step.
pub fn derive_getters_source(rec: &RecordDef) -> (r: Result<String, DeriveError>)
    ensures
        match r {
            Result::Ok(s) => spec_derive_getters(rec@) is Ok && s@ == spec_render_getter_block(
                spec_derive_getters(rec@)->Ok_0,
            ),
            Result::Err(e) => spec_derive_getters(rec@) == Result::<
                GetterBlockView,
                crate::errors::ErrorView,
            >::Err(e@),
        },
{
    match crate::derive::derive_getters(rec) {
        Result::Ok(b) => Result::Ok(render_getter_block(&b)),
        Result::Err(e) => Result::Err(e),
    }
}

/// Derives and renders the setters of a record in one step.
pub fn derive_setters_source(rec: &RecordDef) -> (r: Result<String, DeriveError>)
    ensures
        match r {
            Result::Ok(s) => spec_derive_setters(rec@) is Ok && s@ == spec_render_setter_block(
                spec_derive_setters(rec@)->Ok_0,
            ),
            Result::Err(e) => spec_derive_setters(rec@) == Result::<
                SetterBlockView,
                crate::errors::ErrorView,
            >::Err(e@),
        },
{
    match crate::derive::derive_setters(rec) {
        Result::Ok(b) => Result::Ok(render_setter_block(&b)),
        Result::Err(e) => Result::Err(e),
    }
}

} // verus!
