//! Annotation parsing and override resolution: turning the raw annotations of
//! a site into at most one normalized [`Directive`] per mode, with the
//! precedence rules between `skip`, duplicate occurrences, and unknown
//! keywords; and the validation of visibility texts.

use vstd::prelude::*;

use crate::ast::{Directive, DirectiveView, ErrorKind, GenError, MetaItem, MetaKind, MetaValue};
use crate::expand::Mode;

verus! {

/// The five keywords an item of a `getset(...)` group may use.
pub open spec fn known_keyword(name: Seq<char>) -> bool {
    ||| name == "get"@
    ||| name == "set"@
    ||| name == "get_mut"@
    ||| name == "get_clone"@
    ||| name == "skip"@
}

/// Whether the text parses as a visibility qualifier of the target language.
/// Named, not defined: only [`check_visibility`] speaks for it.
pub uninterp spec fn is_valid_visibility(s: Seq<char>) -> bool;

/// Relies on `syn::parse_str::<syn::Visibility>`: it lexes and parses the
/// text, demands that all of it is consumed, returns `Err` otherwise, and
/// never panics; the outcome depends on the text alone.
#[verifier::external_body]
fn check_visibility(s: &str) -> (r: bool)
    ensures
        r == is_valid_visibility(s@),
{
    syn::parse_str::<syn::Visibility>(s).is_ok()
}

/// Exact string comparison against a keyword.
fn name_is(name: &String, keyword: &str) -> (r: bool)
    ensures
        r == (name@ == keyword@),
{
    let kw: String = keyword.to_owned();
    *name == kw
}

fn is_known(name: &String) -> (r: bool)
    ensures
        r == known_keyword(name@),
{
    name_is(name, "get") || name_is(name, "set") || name_is(name, "get_mut")
        || name_is(name, "get_clone") || name_is(name, "skip")
}

/// What one annotation contributes to a site's resolution under one mode:
/// at most one directive, and the site of the last group item aimed at some
/// other mode, remembered for the skip-conflict check.
pub struct AttrParse {
    pub directive: Option<Directive>,
    pub other_loc: Option<u64>,
}

/// The mathematical shadow of an [`AttrParse`].
pub struct AttrParseView {
    pub directive: Option<DirectiveView>,
    pub other_loc: Option<u64>,
}

impl View for AttrParse {
    type V = AttrParseView;

    open spec fn view(&self) -> AttrParseView {
        AttrParseView {
            directive: match self.directive {
                Some(d) => Some(d@),
                None => None,
            },
            other_loc: self.other_loc,
        }
    }
}

/// Everything a field's whole annotation list contributes under one mode:
/// the last enabling directive if any, whether `skip` occurred, and the
/// site of the last leftover other-mode item.
pub struct FieldState {
    pub enable: Option<Directive>,
    pub skip: bool,
    pub other_loc: Option<u64>,
}

/// The mathematical shadow of a [`FieldState`].
pub struct FieldStateView {
    pub enable: Option<DirectiveView>,
    pub skip: bool,
    pub other_loc: Option<u64>,
}

impl View for FieldState {
    type V = FieldStateView;

    open spec fn view(&self) -> FieldStateView {
        FieldStateView {
            enable: match self.enable {
                Some(d) => Some(d@),
                None => None,
            },
            skip: self.skip,
            other_loc: self.other_loc,
        }
    }
}

/// The index of the first group item whose keyword is unknown, if any.
pub open spec fn first_unknown(items: Seq<MetaItem>) -> Option<int>
    decreases items.len(),
{
    if items.len() == 0 {
        None
    } else {
        match first_unknown(items.drop_last()) {
            Some(i) => Some(i),
            None => if !known_keyword(items.last().name@) {
                Some(items.len() - 1)
            } else {
                None
            },
        }
    }
}

/// The index of the last group item bearing the given name, if any.
pub open spec fn last_named(items: Seq<MetaItem>, name: Seq<char>) -> Option<int>
    decreases items.len(),
{
    if items.len() == 0 {
        None
    } else if items.last().name@ == name {
        Some(items.len() - 1)
    } else {
        last_named(items.drop_last(), name)
    }
}

/// The index of the last group item that names neither the current mode nor
/// `skip`: under the current mode, a leftover directive for some other mode.
pub open spec fn last_other(items: Seq<MetaItem>, mode: Mode) -> Option<int>
    decreases items.len(),
{
    if items.len() == 0 {
        None
    } else if items.last().name@ != mode.spec_name() && items.last().name@ != "skip"@ {
        Some(items.len() - 1)
    } else {
        last_other(items.drop_last(), mode)
    }
}

/// The text carried by a `name = value` item, if the value is a literal text.
pub open spec fn spec_value_text(value: MetaValue) -> Option<Seq<char>> {
    match value {
        MetaValue::Text(s) => Some(s@),
        MetaValue::Other => None,
    }
}

/// The visibility override an enabling item carries, if any.
pub open spec fn spec_vis_text(kind: MetaKind) -> Option<Seq<char>> {
    match kind {
        MetaKind::Assign(value) => spec_value_text(value),
        _ => None,
    }
}

/// The `Enable` directive produced by a mode-naming item.
pub open spec fn spec_enable(item: MetaItem) -> DirectiveView {
    DirectiveView::Enable { vis: spec_vis_text(item.kind), loc: item.loc }
}

/// The site reported when `skip` conflicts with another directive inside
/// one group: the last item enabling the current mode if one exists, else
/// the last leftover other-mode item.
pub open spec fn conflict_loc(items: Seq<MetaItem>, mode: Mode) -> u64 {
    match last_named(items, mode.spec_name()) {
        Some(i) => items[i].loc,
        None => match last_other(items, mode) {
            Some(j) => items[j].loc,
            None => 0,
        },
    }
}

/// Resolution of one `getset(...)` group under one mode: reject unknown
/// keywords; a lone `skip` (possibly repeated) suppresses; `skip` next to
/// any other item is a conflict; otherwise the last item naming the current
/// mode enables it, and the last item naming another mode is remembered.
pub open spec fn spec_parse_group(items: Seq<MetaItem>, mode: Mode) -> Result<
    AttrParseView,
    GenError,
> {
    match first_unknown(items) {
        Some(i) => Err(GenError { kind: ErrorKind::UnknownDirective, loc: items[i].loc }),
        None => if last_named(items, "skip"@) is Some {
            if last_named(items, mode.spec_name()) is None && last_other(items, mode) is None {
                Ok(
                    AttrParseView {
                        directive: Some(DirectiveView::Skip),
                        other_loc: None,
                    },
                )
            } else {
                Err(GenError { kind: ErrorKind::SkipConflict, loc: conflict_loc(items, mode) })
            }
        } else {
            Ok(
                AttrParseView {
                    directive: match last_named(items, mode.spec_name()) {
                        Some(i) => Some(spec_enable(items[i])),
                        None => None,
                    },
                    other_loc: match last_other(items, mode) {
                        Some(j) => Some(items[j].loc),
                        None => None,
                    },
                },
            )
        },
    }
}

/// What one attribute contributes under one mode: a `getset` attribute must
/// hold a group, which is resolved; an attribute naming the mode itself
/// enables it; anything else contributes nothing.
pub open spec fn spec_parse_attr(attr: MetaItem, mode: Mode) -> Result<AttrParseView, GenError> {
    if attr.name@ == "getset"@ {
        match attr.kind {
            MetaKind::Group(items) => spec_parse_group(items@, mode),
            _ => Err(GenError { kind: ErrorKind::MalformedGroup, loc: attr.loc }),
        }
    } else if attr.name@ == mode.spec_name() {
        Ok(AttrParseView { directive: Some(spec_enable(attr)), other_loc: None })
    } else {
        Ok(AttrParseView { directive: None, other_loc: None })
    }
}

/// The directive a whole attribute list yields under one mode when layers
/// simply override each other, as they do at type level: attributes are
/// parsed in source order, the first error aborts, and among the directives
/// found the last one wins.
pub open spec fn spec_attrs_directive(attrs: Seq<MetaItem>, mode: Mode) -> Result<
    Option<DirectiveView>,
    GenError,
>
    decreases attrs.len(),
{
    if attrs.len() == 0 {
        Ok(None)
    } else {
        match spec_attrs_directive(attrs.drop_last(), mode) {
            Err(e) => Err(e),
            Ok(prev) => match spec_parse_attr(attrs.last(), mode) {
                Err(e) => Err(e),
                Ok(p) => match p.directive {
                    Some(d) => Ok(Some(d)),
                    None => Ok(prev),
                },
            },
        }
    }
}

/// The field-wide collection under one mode: every annotation parsed in
/// source order, the last enabling directive kept, `skip` remembered
/// wherever it stood, and the last leftover other-mode item kept.
pub open spec fn spec_field_state(attrs: Seq<MetaItem>, mode: Mode) -> Result<
    FieldStateView,
    GenError,
>
    decreases attrs.len(),
{
    if attrs.len() == 0 {
        Ok(FieldStateView { enable: None, skip: false, other_loc: None })
    } else {
        match spec_field_state(attrs.drop_last(), mode) {
            Err(e) => Err(e),
            Ok(st) => match spec_parse_attr(attrs.last(), mode) {
                Err(e) => Err(e),
                Ok(p) => Ok(
                    FieldStateView {
                        enable: match p.directive {
                            Some(DirectiveView::Enable { vis, loc }) => Some(
                                DirectiveView::Enable { vis, loc },
                            ),
                            _ => st.enable,
                        },
                        skip: st.skip || p.directive == Some(DirectiveView::Skip),
                        other_loc: match p.other_loc {
                            Some(l) => Some(l),
                            None => st.other_loc,
                        },
                    },
                ),
            },
        }
    }
}

/// The site reported when a field combines `skip` with another directive
/// across its annotations: the enabling directive's site if one exists,
/// else the last leftover other-mode item's site.
pub open spec fn field_conflict_loc(st: FieldStateView) -> u64 {
    match st.enable {
        Some(DirectiveView::Enable { loc, .. }) => loc,
        _ => match st.other_loc {
            Some(l) => l,
            None => 0,
        },
    }
}

/// A field's effective directive under one mode: `skip` must stand alone
/// and then suppresses; otherwise the field's own enabling directive masks
/// the type-level default entirely; with neither, the default decides.
pub open spec fn spec_resolve_field(
    attrs: Seq<MetaItem>,
    global: Option<DirectiveView>,
    mode: Mode,
) -> Result<Option<DirectiveView>, GenError> {
    match spec_field_state(attrs, mode) {
        Err(e) => Err(e),
        Ok(st) => if st.skip {
            if st.enable is None && st.other_loc is None {
                Ok(Some(DirectiveView::Skip))
            } else {
                Err(GenError { kind: ErrorKind::SkipConflict, loc: field_conflict_loc(st) })
            }
        } else {
            match st.enable {
                Some(d) => Ok(Some(d)),
                None => Ok(global),
            }
        },
    }
}

pub open spec fn opt_dir_view(d: Option<Directive>) -> Option<DirectiveView> {
    match d {
        Some(dir) => Some(dir@),
        None => None,
    }
}

pub open spec fn dir_res_view(r: Result<Option<Directive>, GenError>) -> Result<
    Option<DirectiveView>,
    GenError,
> {
    match r {
        Ok(d) => Ok(opt_dir_view(d)),
        Err(e) => Err(e),
    }
}

pub open spec fn attr_res_view(r: Result<AttrParse, GenError>) -> Result<AttrParseView, GenError> {
    match r {
        Ok(p) => Ok(p@),
        Err(e) => Err(e),
    }
}

pub open spec fn state_res_view(r: Result<FieldState, GenError>) -> Result<
    FieldStateView,
    GenError,
> {
    match r {
        Ok(st) => Ok(st@),
        Err(e) => Err(e),
    }
}

/// The keyword of every mode is known, and is neither `skip` nor `getset`.
pub proof fn lemma_mode_name_keyword(mode: Mode)
    ensures
        known_keyword(mode.spec_name()),
        mode.spec_name() != "skip"@,
        mode.spec_name() != "getset"@,
{
    reveal_strlit("get");
    reveal_strlit("set");
    reveal_strlit("get_mut");
    reveal_strlit("get_clone");
    reveal_strlit("skip");
    reveal_strlit("getset");
    match mode {
        Mode::Getter => {
            assert(mode.spec_name() == "get"@);
        },
        Mode::MutGetter => {
            assert(mode.spec_name() == "get_mut"@);
        },
        Mode::CloneGetter => {
            assert(mode.spec_name() == "get_clone"@);
        },
        Mode::Setter => {
            assert(mode.spec_name() == "set"@);
        },
    }
}

proof fn lemma_first_unknown_found(items: Seq<MetaItem>, i: int)
    requires
        0 <= i < items.len(),
        first_unknown(items.take(i)) is None,
        !known_keyword(items[i].name@),
    ensures
        first_unknown(items) == Some(i),
    decreases items.len(),
{
    if i == items.len() - 1 {
        assert(items.drop_last() =~= items.take(i));
    } else {
        assert(items.drop_last().take(i) =~= items.take(i));
        lemma_first_unknown_found(items.drop_last(), i);
    }
}

proof fn lemma_attrs_directive_prefix_err(attrs: Seq<MetaItem>, mode: Mode, k: int)
    requires
        0 <= k <= attrs.len(),
        spec_attrs_directive(attrs.take(k), mode) is Err,
    ensures
        spec_attrs_directive(attrs, mode) == spec_attrs_directive(attrs.take(k), mode),
    decreases attrs.len(),
{
    if k == attrs.len() {
        assert(attrs.take(k) =~= attrs);
    } else {
        assert(attrs.drop_last().take(k) =~= attrs.take(k));
        lemma_attrs_directive_prefix_err(attrs.drop_last(), mode, k);
    }
}

proof fn lemma_field_state_prefix_err(attrs: Seq<MetaItem>, mode: Mode, k: int)
    requires
        0 <= k <= attrs.len(),
        spec_field_state(attrs.take(k), mode) is Err,
    ensures
        spec_field_state(attrs, mode) == spec_field_state(attrs.take(k), mode),
    decreases attrs.len(),
{
    if k == attrs.len() {
        assert(attrs.take(k) =~= attrs);
    } else {
        assert(attrs.drop_last().take(k) =~= attrs.take(k));
        lemma_field_state_prefix_err(attrs.drop_last(), mode, k);
    }
}

/// An exact copy of a directive.
pub fn clone_directive(d: &Directive) -> (r: Directive)
    ensures
        r@ == d@,
{
    match d {
        Directive::Skip => Directive::Skip,
        Directive::Enable { vis, loc } => Directive::Enable {
            vis: match vis {
                Some(s) => Some(s.clone()),
                None => None,
            },
            loc: *loc,
        },
    }
}

/// Builds the `Enable` directive of a mode-naming item.
fn enable_directive(item: &MetaItem) -> (d: Directive)
    ensures
        d@ == spec_enable(*item),
{
    let vis: Option<String> = match &item.kind {
        MetaKind::Assign(MetaValue::Text(s)) => Some(s.clone()),
        _ => None,
    };
    Directive::Enable { vis, loc: item.loc }
}

/// Resolves one `getset(...)` group under one mode.
fn parse_group(items: &Vec<MetaItem>, mode: Mode) -> (r: Result<AttrParse, GenError>)
    ensures
        attr_res_view(r) == spec_parse_group(items@, mode),
{
    let mut last_enable: Option<usize> = None;
    let mut skip_found = false;
    let mut last_oth: Option<usize> = None;
    let mut i: usize = 0;
    proof {
        assert(items@.take(0) =~= Seq::<MetaItem>::empty());
    }
    while i < items.len()
        invariant
            i <= items@.len(),
            first_unknown(items@.take(i as int)) is None,
            last_named(items@.take(i as int), mode.spec_name()) == (match last_enable {
                Some(j) => Some(j as int),
                None => None::<int>,
            }),
            (last_named(items@.take(i as int), "skip"@) is Some) == skip_found,
            last_other(items@.take(i as int), mode) == (match last_oth {
                Some(j) => Some(j as int),
                None => None::<int>,
            }),
            last_enable matches Some(j) ==> j < i,
            last_oth matches Some(j) ==> j < i,
        decreases items@.len() - i,
    {
        let item = &items[i];
        if !is_known(&item.name) {
            proof {
                lemma_first_unknown_found(items@, i as int);
            }
            return Err(GenError { kind: ErrorKind::UnknownDirective, loc: item.loc });
        }
        proof {
            lemma_mode_name_keyword(mode);
            assert(items@.take(i as int + 1).drop_last() =~= items@.take(i as int));
            assert(items@.take(i as int + 1).last() == items@[i as int]);
        }
        if name_is(&item.name, mode.name()) {
            last_enable = Some(i);
        } else if name_is(&item.name, "skip") {
            skip_found = true;
        } else {
            last_oth = Some(i);
        }
        i += 1;
    }
    proof {
        assert(items@.take(items@.len() as int) =~= items@);
    }
    if skip_found {
        if last_enable.is_none() && last_oth.is_none() {
            Ok(AttrParse { directive: Some(Directive::Skip), other_loc: None })
        } else {
            let loc: u64 = match last_enable {
                Some(j) => items[j].loc,
                None => match last_oth {
                    Some(j) => items[j].loc,
                    None => unreached(),
                },
            };
            Err(GenError { kind: ErrorKind::SkipConflict, loc })
        }
    } else {
        let directive = match last_enable {
            Some(j) => Some(enable_directive(&items[j])),
            None => None,
        };
        let other_loc = match last_oth {
            Some(j) => Some(items[j].loc),
            None => None,
        };
        Ok(AttrParse { directive, other_loc })
    }
}

/// Parses one attribute under one mode into its contribution.
pub fn parse_attr(attr: &MetaItem, mode: Mode) -> (r: Result<AttrParse, GenError>)
    ensures
        attr_res_view(r) == spec_parse_attr(*attr, mode),
{
    if name_is(&attr.name, "getset") {
        match &attr.kind {
            MetaKind::Group(items) => parse_group(items, mode),
            _ => Err(GenError { kind: ErrorKind::MalformedGroup, loc: attr.loc }),
        }
    } else if name_is(&attr.name, mode.name()) {
        Ok(AttrParse { directive: Some(enable_directive(attr)), other_loc: None })
    } else {
        Ok(AttrParse { directive: None, other_loc: None })
    }
}

/// Parses a whole attribute list under one mode; the last directive found
/// wins. Used for the type-level default.
pub fn parse_global_attr(attrs: &Vec<MetaItem>, mode: Mode) -> (r: Result<
    Option<Directive>,
    GenError,
>)
    ensures
        dir_res_view(r) == spec_attrs_directive(attrs@, mode),
{
    let mut found: Option<Directive> = None;
    let mut i: usize = 0;
    proof {
        assert(attrs@.take(0) =~= Seq::<MetaItem>::empty());
    }
    while i < attrs.len()
        invariant
            i <= attrs@.len(),
            spec_attrs_directive(attrs@.take(i as int), mode) == Ok::<
                Option<DirectiveView>,
                GenError,
            >(opt_dir_view(found)),
        decreases attrs@.len() - i,
    {
        proof {
            assert(attrs@.take(i as int + 1).drop_last() =~= attrs@.take(i as int));
            assert(attrs@.take(i as int + 1).last() == attrs@[i as int]);
        }
        match parse_attr(&attrs[i], mode) {
            Err(e) => {
                proof {
                    lemma_attrs_directive_prefix_err(attrs@, mode, i as int + 1);
                }
                return Err(e);
            },
            Ok(p) => {
                if let Some(d) = p.directive {
                    found = Some(d);
                }
            },
        }
        i += 1;
    }
    proof {
        assert(attrs@.take(attrs@.len() as int) =~= attrs@);
    }
    Ok(found)
}

/// Collects a field's whole annotation list under one mode: the last
/// enabling directive, whether `skip` occurred anywhere, and the last
/// leftover other-mode item.
pub fn parse_field_attrs(attrs: &Vec<MetaItem>, mode: Mode) -> (r: Result<FieldState, GenError>)
    ensures
        state_res_view(r) == spec_field_state(attrs@, mode),
{
    let mut st = FieldState { enable: None, skip: false, other_loc: None };
    let mut i: usize = 0;
    proof {
        assert(attrs@.take(0) =~= Seq::<MetaItem>::empty());
    }
    while i < attrs.len()
        invariant
            i <= attrs@.len(),
            spec_field_state(attrs@.take(i as int), mode) == Ok::<FieldStateView, GenError>(st@),
        decreases attrs@.len() - i,
    {
        proof {
            assert(attrs@.take(i as int + 1).drop_last() =~= attrs@.take(i as int));
            assert(attrs@.take(i as int + 1).last() == attrs@[i as int]);
        }
        match parse_attr(&attrs[i], mode) {
            Err(e) => {
                proof {
                    lemma_field_state_prefix_err(attrs@, mode, i as int + 1);
                }
                return Err(e);
            },
            Ok(p) => {
                match p.directive {
                    Some(Directive::Skip) => {
                        st.skip = true;
                    },
                    Some(d) => {
                        st.enable = Some(d);
                    },
                    None => {},
                }
                if let Some(l) = p.other_loc {
                    st.other_loc = Some(l);
                }
            },
        }
        i += 1;
    }
    proof {
        assert(attrs@.take(attrs@.len() as int) =~= attrs@);
    }
    Ok(st)
}

/// The text a literal value carries, if it is one.
pub fn expr_str(value: &MetaValue) -> (r: Option<&String>)
    ensures
        (match r {
            Some(s) => Some(s@),
            None => None,
        }) == spec_value_text(*value),
{
    match value {
        MetaValue::Text(s) => Some(s),
        MetaValue::Other => None,
    }
}

/// The visibility text a resolved directive carries, if any.
pub open spec fn spec_visibility_of(d: Option<DirectiveView>) -> Option<Seq<char>> {
    match d {
        Some(DirectiveView::Enable { vis, .. }) => vis,
        _ => None,
    }
}

/// The visibility text of a resolved directive: only an enabling directive
/// in key/value form carries one.
pub fn parse_visibility(attr: Option<&Directive>) -> (r: Option<&String>)
    ensures
        (match r {
            Some(s) => Some(s@),
            None => None,
        }) == spec_visibility_of(match attr {
            Some(d) => Some(d@),
            None => None,
        }),
{
    match attr {
        Some(Directive::Enable { vis: Some(v), .. }) => Some(v),
        _ => None,
    }
}

/// Validates a visibility text, failing at the given site as the original
/// visibility parser would.
pub fn parse_vis(vis: &str, loc: u64) -> (r: Result<(), GenError>)
    ensures
        r == (if is_valid_visibility(vis@) {
            Ok::<(), GenError>(())
        } else {
            Err::<(), GenError>(GenError { kind: ErrorKind::InvalidVisibility, loc })
        }),
{
    if check_visibility(vis) {
        Ok(())
    } else {
        Err(GenError { kind: ErrorKind::InvalidVisibility, loc })
    }
}

} // verus!
