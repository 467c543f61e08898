//! The attribute extractor: per-field configuration from annotations.
//!
//! For one annotation name, the matching annotations are the outer,
//! list-form ones bearing that name.  None of them yields the empty
//! configuration; exactly one yields its parsed entries, bare words
//! standing for `key = true`; two or more is a fatal error, as is any
//! nested entry that is neither a bare word nor a key/value pair.

use vstd::prelude::*;
use crate::ast::{
    AnnotationView, AttrForm, AttrFormView, AttrStyle, FieldDef, FieldView, LitValue,
    LitView, MetaEntry, MetaEntryView,
};
use crate::errors::{DeriveError, ErrorView};

verus! {

/// An annotation takes part in extraction for `name` when it is outer,
/// bears that name, and is list-form.
pub open spec fn is_matching(a: AnnotationView, name: Seq<char>) -> bool {
    &&& a.style == AttrStyle::Outer
    &&& a.name == name
    &&& a.form is List
}

/// The annotations matching `name`, in attachment order.
pub open spec fn spec_matching(attrs: Seq<AnnotationView>, name: Seq<char>) -> Seq<AnnotationView>
    decreases attrs.len(),
{
    if attrs.len() == 0 {
        Seq::empty()
    } else {
        let prefix = spec_matching(attrs.drop_last(), name);
        if is_matching(attrs.last(), name) {
            prefix.push(attrs.last())
        } else {
            prefix
        }
    }
}

/// The configuration pair one well-formed entry stands for: a bare word is
/// shorthand for `word = true`, a key/value pair carries its value.
pub open spec fn spec_entry_pair(e: MetaEntryView) -> (Seq<char>, LitView) {
    match e {
        MetaEntryView::Word(w) => (w, LitView::Bool(true)),
        MetaEntryView::KeyValue(k, v) => (k, v),
        MetaEntryView::Other => (Seq::empty(), LitView::Other),
    }
}

/// Whether every entry is a bare word or a key/value pair.
pub open spec fn entries_well_formed(es: Seq<MetaEntryView>) -> bool {
    forall|i: int| 0 <= i < es.len() ==> !((#[trigger] es[i]) is Other)
}

/// The configuration pairs of a well-formed entry sequence, in order.
pub open spec fn spec_entry_pairs(es: Seq<MetaEntryView>) -> Seq<(Seq<char>, LitView)> {
    es.map_values(|e: MetaEntryView| spec_entry_pair(e))
}

/// What configuration extraction yields for one annotation name on one
/// field's annotations.
pub open spec fn spec_extract_attr(attrs: Seq<AnnotationView>, name: Seq<char>) -> Result<
    Seq<(Seq<char>, LitView)>,
    ErrorView,
> {
    let ms = spec_matching(attrs, name);
    if ms.len() == 0 {
        Result::Ok(Seq::empty())
    } else if ms.len() == 1 {
        let es = ms[0].form->List_0;
        if entries_well_formed(es) {
            Result::Ok(spec_entry_pairs(es))
        } else {
            Result::Err(ErrorView::MalformedAttr(name))
        }
    } else {
        Result::Err(ErrorView::DuplicateAttr(name))
    }
}

/// The model of the exec configuration entries.
pub open spec fn config_view(entries: Seq<(String, LitValue)>) -> Seq<(Seq<char>, LitView)> {
    entries.map_values(|p: (String, LitValue)| (p.0@, p.1@))
}

/// The value bound to `key`, the last binding winning as in a map built by
/// repeated insertion.
pub open spec fn spec_lookup(cfg: Seq<(Seq<char>, LitView)>, key: Seq<char>) -> Option<LitView>
    decreases cfg.len(),
{
    if cfg.len() == 0 {
        Option::None
    } else if cfg.last().0 == key {
        Option::Some(cfg.last().1)
    } else {
        spec_lookup(cfg.drop_last(), key)
    }
}

/// The parsed configuration of one annotation: option name to literal
/// value, in entry order.
pub struct AttrConfig {
    pub entries: Vec<(String, LitValue)>,
}

impl View for AttrConfig {
    type V = Seq<(Seq<char>, LitView)>;

    open spec fn view(&self) -> Seq<(Seq<char>, LitView)> {
        config_view(self.entries@)
    }
}

impl AttrConfig {
    /// The value bound to `key`, if any; later bindings shadow earlier ones.
    pub fn get(&self, key: &str) -> (r: Option<&LitValue>)
        ensures
            match r {
                Option::Some(l) => spec_lookup(self@, key@) == Option::Some(l@),
                Option::None => spec_lookup(self@, key@) is None,
            },
    {
        let key_owned: String = key.to_owned();
        let mut i: usize = self.entries.len();
        proof {
            assert(self@.take(i as int) =~= self@);
        }
        while i > 0
            invariant
                i <= self.entries.len(),
                self@.len() == self.entries@.len(),
                key_owned@ == key@,
                spec_lookup(self@, key@) == spec_lookup(self@.take(i as int), key@),
            decreases i,
        {
            i = i - 1;
            let pair = &self.entries[i];
            proof {
                assert(self@.take(i + 1 as int).drop_last() =~= self@.take(i as int));
                assert(self@.take(i + 1 as int).last() == (pair.0@, pair.1@));
            }
            if pair.0 == key_owned {
                return Option::Some(&pair.1);
            }
        }
        proof {
            assert(self@.take(0).len() == 0);
        }
        Option::None
    }
}

/// Extracts the configuration for `name` from a field's annotations.
///
/// No matching annotation yields the empty configuration; exactly one
/// yields its parsed entries; two or more, or a malformed entry, is a fatal
/// error.
pub fn extract_attr(field: &FieldDef, name: &str) -> (r: Result<AttrConfig, DeriveError>)
    ensures
        match r {
            Result::Ok(cfg) => spec_extract_attr(field@.attrs, name@) == Result::<
                Seq<(Seq<char>, LitView)>,
                ErrorView,
            >::Ok(cfg@),
            Result::Err(e) => spec_extract_attr(field@.attrs, name@) == Result::<
                Seq<(Seq<char>, LitView)>,
                ErrorView,
            >::Err(e@),
        },
{
    let name_owned: String = name.to_owned();
    let ghost av = field@.attrs;
    let n: usize = field.attrs.len();
    let mut count: usize = 0;
    let mut first: usize = 0;
    let mut i: usize = 0;
    while i < n
        invariant
            n == field.attrs.len(),
            av == field@.attrs,
            av.len() == n,
            i <= n,
            count <= i,
            name_owned@ == name@,
            count == spec_matching(av.take(i as int), name@).len(),
            count > 0 ==> first < i && is_matching(av[first as int], name@) && spec_matching(
                av.take(i as int),
                name@,
            )[0] == av[first as int],
        decreases n - i,
    {
        let a = &field.attrs[i];
        let style_ok = match a.style {
            AttrStyle::Outer => true,
            AttrStyle::Inner => false,
        };
        let name_ok = a.name == name_owned;
        let form_ok = match &a.form {
            AttrForm::List(_) => true,
            _ => false,
        };
        let m = style_ok && name_ok && form_ok;
        proof {
            assert(av[i as int] == field.attrs@[i as int]@);
            assert(m == is_matching(av[i as int], name@));
            assert(av.take(i + 1 as int).drop_last() =~= av.take(i as int));
            assert(av.take(i + 1 as int).last() == av[i as int]);
        }
        if m {
            if count == 0 {
                first = i;
            }
            count = count + 1;
        }
        i = i + 1;
    }
    proof {
        assert(av.take(n as int) =~= av);
    }
    if count == 0 {
        let cfg = AttrConfig { entries: Vec::new() };
        proof {
            assert(cfg@ =~= Seq::<(Seq<char>, LitView)>::empty());
        }
        Result::Ok(cfg)
    } else if count >= 2 {
        Result::Err(DeriveError::DuplicateAttr(name_owned))
    } else {
        let a = &field.attrs[first];
        proof {
            assert(spec_matching(av, name@)[0] == av[first as int]);
        }
        match &a.form {
            AttrForm::List(entries) => {
                let ghost ev = crate::ast::entries_view(entries@);
                proof {
                    assert(av[first as int].form == AttrFormView::List(ev));
                }
                let m_entries: usize = entries.len();
                let mut out: Vec<(String, LitValue)> = Vec::new();
                let mut j: usize = 0;
                while j < m_entries
                    invariant
                        m_entries == entries.len(),
                        ev == crate::ast::entries_view(entries@),
                        ev.len() == m_entries,
                        j <= m_entries,
                        av == field@.attrs,
                        name_owned@ == name@,
                        first < av.len(),
                        spec_matching(av, name@).len() == 1,
                        spec_matching(av, name@)[0] == av[first as int],
                        av[first as int].form == AttrFormView::List(ev),
                        out@.len() == j as int,
                        forall|k: int| 0 <= k < j ==> !((#[trigger] ev[k]) is Other),
                        forall|k: int|
                            0 <= k < j ==> ((#[trigger] out@[k]).0@, out@[k].1@) == spec_entry_pair(
                                ev[k],
                            ),
                    decreases m_entries - j,
                {
                    proof {
                        assert(ev[j as int] == entries@[j as int]@);
                    }
                    match &entries[j] {
                        MetaEntry::Word(w) => {
                            out.push((w.clone(), LitValue::Bool(true)));
                        },
                        MetaEntry::KeyValue(k, v) => {
                            out.push((k.clone(), v.clone()));
                        },
                        MetaEntry::Other => {
                            proof {
                                assert(ev[j as int] is Other);
                                assert(!entries_well_formed(ev));
                            }
                            return Result::Err(DeriveError::MalformedAttr(name_owned));
                        },
                    }
                    j = j + 1;
                }
                proof {
                    assert(entries_well_formed(ev));
                    assert(config_view(out@) =~= spec_entry_pairs(ev)) by {
                        assert forall|k: int| 0 <= k < ev.len() implies config_view(out@)[k]
                            == spec_entry_pairs(ev)[k] by {
                            assert((out@[k].0@, out@[k].1@) == spec_entry_pair(ev[k]));
                        }
                    }
                }
                Result::Ok(AttrConfig { entries: out })
            },
            _ => {
                proof {
                    assert(av[first as int].form is List);
                    assert(false);
                }
                vstd::pervasive::unreached()
            },
        }
    }
}

/// Requires the literal to be a boolean and yields its value; any other
/// literal kind is the `expected bool` error.
pub fn extract_bool(lit: &LitValue) -> (r: Result<bool, DeriveError>)
    ensures
        match lit@ {
            LitView::Bool(b) => r == Result::<bool, DeriveError>::Ok(b),
            _ => r == Result::<bool, DeriveError>::Err(DeriveError::ExpectedBool),
        },
{
    match lit {
        LitValue::Bool(b) => Result::Ok(*b),
        _ => Result::Err(DeriveError::ExpectedBool),
    }
}

/// What the setter derivation decides for one field's `into` option:
/// absent means `false`; a boolean binding carries its value; anything else
/// is the `expected bool` error; extraction errors pass through.
pub open spec fn spec_setter_into(f: FieldView) -> Result<bool, ErrorView> {
    match spec_extract_attr(f.attrs, "setter"@) {
        Result::Err(e) => Result::Err(e),
        Result::Ok(cfg) => match spec_lookup(cfg, "into"@) {
            Option::None => Result::Ok(false),
            Option::Some(l) => match l {
                LitView::Bool(b) => Result::Ok(b),
                _ => Result::Err(ErrorView::ExpectedBool),
            },
        },
    }
}

/// The per-field setter configuration: the `into` option, default `false`.
pub struct SetterConfig {
    pub into: bool,
}

impl SetterConfig {
    /// Reads the `setter` configuration of one field.
    pub fn new(field: &FieldDef) -> (r: Result<SetterConfig, DeriveError>)
        ensures
            match r {
                Result::Ok(c) => spec_setter_into(field@) == Result::<bool, ErrorView>::Ok(c.into),
                Result::Err(e) => spec_setter_into(field@) == Result::<bool, ErrorView>::Err(e@),
            },
    {
        let cfg = match extract_attr(field, "setter") {
            Result::Ok(c) => c,
            Result::Err(e) => {
                return Result::Err(e);
            },
        };
        let into = match cfg.get("into") {
            Option::None => false,
            Option::Some(l) => match extract_bool(l) {
                Result::Ok(b) => b,
                Result::Err(e) => {
                    return Result::Err(e);
                },
            },
        };
        Result::Ok(SetterConfig { into })
    }
}

/// What the getter derivation checks for one field: the `getter`
/// configuration is parsed, its errors surface, and its contents are
/// intentionally unused.
pub open spec fn spec_getter_check(f: FieldView) -> Result<(), ErrorView> {
    match spec_extract_attr(f.attrs, "getter"@) {
        Result::Err(e) => Result::Err(e),
        Result::Ok(_) => Result::Ok(()),
    }
}

/// The per-field getter configuration: parsed for validity, currently
/// carrying no recognized options.
pub struct GetterConfig {}

impl GetterConfig {
    /// Parses and discards the `getter` configuration of one field.
    pub fn new(field: &FieldDef) -> (r: Result<GetterConfig, DeriveError>)
        ensures
            match r {
                Result::Ok(_) => spec_getter_check(field@) == Result::<(), ErrorView>::Ok(()),
                Result::Err(e) => spec_getter_check(field@) == Result::<(), ErrorView>::Err(e@),
            },
    {
        match extract_attr(field, "getter") {
            Result::Ok(_) => Result::Ok(GetterConfig {  }),
            Result::Err(e) => Result::Err(e),
        }
    }
}

} // verus!
