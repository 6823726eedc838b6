//! The resolution laws, stated and proved once over the spec model: what is
//! suppressed by default, what `skip` does and with what it conflicts, how a
//! field-level directive masks the type-level default, and what every
//! generated method carries.

use vstd::prelude::*;

use crate::ast::{DirectiveView, ErrorKind, FieldRepr, GenError, MetaItem};
use crate::expand::{spec_field_method, spec_method_name, MethodView, Mode};
use crate::utils::{
    first_unknown, known_keyword, last_named, last_other, lemma_mode_name_keyword,
    spec_field_state, spec_parse_attr, spec_parse_group, spec_resolve_field, AttrParseView,
    FieldStateView,
};

verus! {

/// The state a field starts from: nothing enabled, no `skip`, no leftover.
pub open spec fn empty_state() -> FieldStateView {
    FieldStateView { enable: None, skip: false, other_loc: None }
}

/// An attribute list in which nothing names `getset` or the mode
/// contributes nothing to that mode's resolution.
pub proof fn lemma_no_directive_yields_none(attrs: Seq<MetaItem>, mode: Mode)
    requires
        forall|j: int|
            0 <= j < attrs.len() ==> attrs[j].name@ != "getset"@ && attrs[j].name@
                != mode.spec_name(),
    ensures
        spec_field_state(attrs, mode) == Ok::<FieldStateView, GenError>(empty_state()),
    decreases attrs.len(),
{
    if attrs.len() > 0 {
        assert forall|j: int| 0 <= j < attrs.drop_last().len() implies attrs.drop_last()[j].name@
            != "getset"@ && attrs.drop_last()[j].name@ != mode.spec_name() by {
            assert(attrs.drop_last()[j] == attrs[j]);
        }
        lemma_no_directive_yields_none(attrs.drop_last(), mode);
    }
}

/// For a field bearing no directive, under a run with no type-level
/// default, no method is generated: suppression is the default.
pub proof fn lemma_default_suppress(field: FieldRepr, mode: Mode)
    requires
        field.name is Some,
        forall|j: int|
            0 <= j < field.attrs@.len() ==> field.attrs@[j].name@ != "getset"@
                && field.attrs@[j].name@ != mode.spec_name(),
    ensures
        spec_field_method(field, None, mode) == Ok::<Option<MethodView>, GenError>(None),
{
    lemma_no_directive_yields_none(field.attrs@, mode);
}

/// A group whose items all say `skip` contributes the `skip` directive and
/// nothing else, under every mode.
proof fn lemma_all_skip(items: Seq<MetaItem>, mode: Mode)
    requires
        forall|j: int| 0 <= j < items.len() ==> items[j].name@ == "skip"@,
    ensures
        first_unknown(items) is None,
        last_named(items, mode.spec_name()) is None,
        last_other(items, mode) is None,
        items.len() > 0 ==> last_named(items, "skip"@) is Some,
    decreases items.len(),
{
    lemma_mode_name_keyword(mode);
    if items.len() > 0 {
        assert forall|j: int| 0 <= j < items.drop_last().len() implies items.drop_last()[j].name@
            == "skip"@ by {
            assert(items.drop_last()[j] == items[j]);
        }
        lemma_all_skip(items.drop_last(), mode);
    }
}

/// A `getset` annotation holding only `skip` yields the `skip` directive,
/// whatever mode is running.
pub proof fn lemma_sole_skip_every_mode(attr: MetaItem, mode: Mode)
    requires
        attr.name@ == "getset"@,
        attr.kind is Group,
        attr.kind->Group_0@.len() > 0,
        forall|j: int|
            0 <= j < attr.kind->Group_0@.len() ==> attr.kind->Group_0@[j].name@ == "skip"@,
    ensures
        spec_parse_attr(attr, mode) == Ok::<AttrParseView, GenError>(
            AttrParseView { directive: Some(DirectiveView::Skip), other_loc: None },
        ),
{
    lemma_all_skip(attr.kind->Group_0@, mode);
}

/// A field whose collection ended in `skip` alone gets no method, whatever
/// the type-level default says.
pub proof fn lemma_skip_suppresses(field: FieldRepr, global: Option<DirectiveView>, mode: Mode)
    requires
        field.name is Some,
        spec_field_state(field.attrs@, mode) == Ok::<FieldStateView, GenError>(
            FieldStateView { enable: None, skip: true, other_loc: None },
        ),
    ensures
        spec_field_method(field, global, mode) == Ok::<Option<MethodView>, GenError>(None),
{
}

/// A field whose sole annotation is `#[getset(skip)]` gets no method under
/// any mode, even where a type-level default would otherwise enable one.
pub proof fn lemma_skip_sole_suppresses_all(
    field: FieldRepr,
    global: Option<DirectiveView>,
    mode: Mode,
)
    requires
        field.name is Some,
        field.attrs@.len() == 1,
        field.attrs@[0].name@ == "getset"@,
        field.attrs@[0].kind is Group,
        field.attrs@[0].kind->Group_0@.len() > 0,
        forall|j: int|
            0 <= j < field.attrs@[0].kind->Group_0@.len() ==> field.attrs@[0].kind->Group_0@[
                j
            ].name@ == "skip"@,
    ensures
        spec_field_method(field, global, mode) == Ok::<Option<MethodView>, GenError>(None),
{
    lemma_sole_skip_every_mode(field.attrs@[0], mode);
    assert(field.attrs@.drop_last() =~= Seq::<MetaItem>::empty());
    assert(field.attrs@.last() == field.attrs@[0]);
    assert(spec_field_state(field.attrs@.drop_last(), mode) == Ok::<FieldStateView, GenError>(
        empty_state(),
    ));
    assert(spec_field_state(field.attrs@, mode) == Ok::<FieldStateView, GenError>(
        FieldStateView { enable: None, skip: true, other_loc: None },
    ));
    lemma_skip_suppresses(field, global, mode);
}

proof fn lemma_all_known(items: Seq<MetaItem>)
    requires
        forall|j: int| 0 <= j < items.len() ==> known_keyword(items[j].name@),
    ensures
        first_unknown(items) is None,
    decreases items.len(),
{
    if items.len() > 0 {
        assert forall|j: int| 0 <= j < items.drop_last().len() implies known_keyword(
            items.drop_last()[j].name@,
        ) by {
            assert(items.drop_last()[j] == items[j]);
        }
        lemma_all_known(items.drop_last());
    }
}

proof fn lemma_exists_named(items: Seq<MetaItem>, name: Seq<char>)
    requires
        exists|j: int| 0 <= j < items.len() && items[j].name@ == name,
    ensures
        last_named(items, name) is Some,
    decreases items.len(),
{
    let j = choose|j: int| 0 <= j < items.len() && items[j].name@ == name;
    if items.last().name@ != name {
        assert(items.drop_last()[j] == items[j]);
        lemma_exists_named(items.drop_last(), name);
    }
}

proof fn lemma_exists_other(items: Seq<MetaItem>, mode: Mode)
    requires
        exists|j: int|
            0 <= j < items.len() && items[j].name@ != mode.spec_name() && items[j].name@
                != "skip"@,
    ensures
        last_other(items, mode) is Some,
    decreases items.len(),
{
    let j = choose|j: int|
        0 <= j < items.len() && items[j].name@ != mode.spec_name() && items[j].name@ != "skip"@;
    if !(items.last().name@ != mode.spec_name() && items.last().name@ != "skip"@) {
        assert(items.drop_last()[j] == items[j]);
        lemma_exists_other(items.drop_last(), mode);
    }
}

/// Within one group of known keywords, `skip` next to any directive -- for
/// the running mode or for another one -- is a fatal conflict, never
/// silently dropped.
pub proof fn lemma_skip_conflict(items: Seq<MetaItem>, mode: Mode)
    requires
        forall|j: int| 0 <= j < items.len() ==> known_keyword(items[j].name@),
        exists|j: int| 0 <= j < items.len() && items[j].name@ == "skip"@,
        exists|j: int| 0 <= j < items.len() && items[j].name@ != "skip"@,
    ensures
        spec_parse_group(items, mode) matches Err(e) && e.kind == ErrorKind::SkipConflict,
{
    lemma_all_known(items);
    lemma_exists_named(items, "skip"@);
    let j = choose|j: int| 0 <= j < items.len() && items[j].name@ != "skip"@;
    if items[j].name@ == mode.spec_name() {
        lemma_exists_named(items, mode.spec_name());
    } else {
        lemma_exists_other(items, mode);
    }
}

/// A field whose one `getset` group combines `skip` with any other known
/// directive makes the whole run fail with the conflict error.
pub proof fn lemma_skip_conflict_field(
    field: FieldRepr,
    global: Option<DirectiveView>,
    mode: Mode,
)
    requires
        field.name is Some,
        field.attrs@.len() == 1,
        field.attrs@[0].name@ == "getset"@,
        field.attrs@[0].kind is Group,
        forall|j: int|
            0 <= j < field.attrs@[0].kind->Group_0@.len() ==> known_keyword(
                field.attrs@[0].kind->Group_0@[j].name@,
            ),
        exists|j: int|
            0 <= j < field.attrs@[0].kind->Group_0@.len() && field.attrs@[0].kind->Group_0@[
                j
            ].name@ == "skip"@,
        exists|j: int|
            0 <= j < field.attrs@[0].kind->Group_0@.len() && field.attrs@[0].kind->Group_0@[
                j
            ].name@ != "skip"@,
    ensures
        spec_field_method(field, global, mode) matches Err(e) && e.kind
            == ErrorKind::SkipConflict,
{
    lemma_skip_conflict(field.attrs@[0].kind->Group_0@, mode);
    assert(field.attrs@.drop_last() =~= Seq::<MetaItem>::empty());
    assert(field.attrs@.last() == field.attrs@[0]);
    assert(spec_field_state(field.attrs@.drop_last(), mode) == Ok::<FieldStateView, GenError>(
        empty_state(),
    ));
    assert(spec_field_state(field.attrs@, mode) is Err);
}

/// `skip` never coexists with any other directive collected on the same
/// field, within one annotation or across several: once both stand, the
/// run fails with the conflict error.
pub proof fn lemma_skip_coexist_fatal(
    field: FieldRepr,
    global: Option<DirectiveView>,
    mode: Mode,
)
    requires
        field.name is Some,
        spec_field_state(field.attrs@, mode) matches Ok(st) && st.skip && (st.enable is Some
            || st.other_loc is Some),
    ensures
        spec_field_method(field, global, mode) matches Err(e) && e.kind
            == ErrorKind::SkipConflict,
{
}

/// A field-level enabling directive masks the type-level default entirely:
/// the outcome no longer depends on the default in any way -- visibility
/// included.
pub proof fn lemma_field_masks_default(
    field: FieldRepr,
    g1: Option<DirectiveView>,
    g2: Option<DirectiveView>,
    mode: Mode,
)
    requires
        spec_field_state(field.attrs@, mode) matches Ok(st) && st.enable is Some,
    ensures
        spec_field_method(field, g1, mode) == spec_field_method(field, g2, mode),
{
}

/// Where a field has no directive of its own for the mode and no `skip`,
/// the type-level default decides.
pub proof fn lemma_default_applies(
    field: FieldRepr,
    global: Option<DirectiveView>,
    mode: Mode,
)
    requires
        spec_field_state(field.attrs@, mode) matches Ok(st) && st.enable is None && !st.skip,
    ensures
        spec_resolve_field(field.attrs@, global, mode) == Ok::<Option<DirectiveView>, GenError>(
            global,
        ),
{
}

/// Every method generated for a field carries the field's documentation
/// lines, verbatim and in their original order, and bears the name built
/// from the mode's prefix, the field's stripped name, and the mode's
/// suffix.
pub proof fn lemma_generated_method_shape(
    field: FieldRepr,
    global: Option<DirectiveView>,
    mode: Mode,
)
    ensures
        spec_field_method(field, global, mode) matches Ok(Some(m)) ==> {
            &&& m.docs == field.docs.deep_view()
            &&& m.mode == mode
            &&& m.ident == field.name.unwrap().ident@
            &&& spec_method_name(m.mode, m.ident) == mode.spec_prefix()
                + field.name.unwrap().ident@ + mode.spec_suffix()
        },
{
}

} // verus!
