//! Accessor-method generation for record types with named fields.
//!
//! Given a model of one type declaration -- its fields, their documentation
//! lines, and the annotations attached to the type or to single fields -- the
//! library decides, per field and per generation mode, whether an accessor
//! method is emitted, under what name and visibility, and renders the
//! resulting `impl` block as source text.
//!
//! Annotations use five keywords: `get`, `get_mut`, `get_clone` and `set`
//! enable one mode each, either bare or as `keyword = "<visibility>"`, and
//! `skip` suppresses every accessor of its field. A directive on the type is
//! the default for every field; a field's own directive masks it entirely.

use vstd::prelude::*;

pub mod ast;
pub mod expand;
pub mod laws;
pub mod utils;

pub use ast::{
    Directive, DirectiveView, ErrorKind, FieldName, FieldRepr, GenError, MetaItem, MetaKind,
    MetaValue, Policy, TypeRepr,
};
pub use expand::{MethodDef, MethodView, Mode, Params};

use expand::{produce, spec_produce, text_res_view};
use utils::{parse_global_attr, spec_attrs_directive};

verus! {

/// The rendered augmentation block of one whole run -- type-level default
/// resolution included -- or its fatal error.
pub open spec fn spec_generate(t: TypeRepr, mode: Mode) -> Result<Seq<char>, GenError> {
    match spec_attrs_directive(t.attrs@, mode) {
        Err(e) => Err(e),
        Ok(g) => spec_produce(t, g, mode),
    }
}

/// One run: resolve the type-level default for the mode, then visit the
/// fields and render.
fn run(ast: &TypeRepr, mode: Mode) -> (r: Result<String, GenError>)
    ensures
        text_res_view(r) == spec_generate(*ast, mode),
{
    let global = match parse_global_attr(&ast.attrs, mode) {
        Err(e) => {
            return Err(e);
        },
        Ok(g) => g,
    };
    let params = Params::new(mode, global);
    produce(ast, &params)
}

/// Generates the borrowing getters of one declaration.
pub fn getter(ast: &TypeRepr) -> (r: Result<String, GenError>)
    ensures
        text_res_view(r) == spec_generate(*ast, Mode::Getter),
{
    run(ast, Mode::Getter)
}

/// Generates the cloning getters of one declaration.
pub fn getter_clone(ast: &TypeRepr) -> (r: Result<String, GenError>)
    ensures
        text_res_view(r) == spec_generate(*ast, Mode::CloneGetter),
{
    run(ast, Mode::CloneGetter)
}

/// Generates the mutably borrowing getters of one declaration.
pub fn getter_mut(ast: &TypeRepr) -> (r: Result<String, GenError>)
    ensures
        text_res_view(r) == spec_generate(*ast, Mode::MutGetter),
{
    run(ast, Mode::MutGetter)
}

/// Generates the setters of one declaration.
pub fn setter(ast: &TypeRepr) -> (r: Result<String, GenError>)
    ensures
        text_res_view(r) == spec_generate(*ast, Mode::Setter),
{
    run(ast, Mode::Setter)
}

} // verus!
