//! The declaration tree that the generator works on, modeled as plain values:
//! one record type with named fields, each carrying its documentation lines
//! and its annotations, plus the normalized directives parsed from them and
//! the errors a run can end in.
//!
//! Every node carries a `loc`: an opaque source-location handle that the
//! caller assigns when it builds the tree and that fatal errors carry back,
//! so a diagnostic can point at the offending site.

use vstd::prelude::*;

verus! {

/// The value of a `name = value` annotation item.
#[derive(Debug)]
pub enum MetaValue {
    /// A literal text value, as in `get = "pub"`.
    Text(String),
    /// Any other value shape; it enables the mode but carries no
    /// visibility override.
    Other,
}

/// The shape of one annotation item.
#[derive(Debug)]
pub enum MetaKind {
    /// A bare name, as in `#[get]` or the `skip` of `#[getset(skip)]`.
    Word,
    /// A `name = value` pair, as in `get = "pub"`.
    Assign(MetaValue),
    /// A `name(...)` group. A `getset(...)` group carries its parsed items;
    /// the contents of any other group are never read.
    Group(Vec<MetaItem>),
}

/// One annotation item: an attribute on the type or on a field, or one item
/// inside a `getset(...)` group.
#[derive(Debug)]
pub struct MetaItem {
    pub name: String,
    pub kind: MetaKind,
    pub loc: u64,
}

/// A field's identifier, in the two forms the generator needs.
#[derive(Debug)]
pub struct FieldName {
    /// The identifier with any raw-identifier quoting stripped; it is what
    /// generated method names are built from.
    pub ident: String,
    /// The identifier exactly as written in the source; it is copied
    /// verbatim into generated method bodies.
    pub surface: String,
}

/// One field of the record type under generation.
#[derive(Debug)]
pub struct FieldRepr {
    /// `None` for a tuple-style field, which is rejected.
    pub name: Option<FieldName>,
    /// Leading documentation lines, verbatim and in source order.
    pub docs: Vec<String>,
    /// The annotations attached to the field, in source order.
    pub attrs: Vec<MetaItem>,
    /// The declared type, copied verbatim into generated signatures.
    pub ty: String,
    pub loc: u64,
}

/// The declaration the generator runs on: one type, its generics split for
/// an `impl` block, its fields, and its type-level annotations.
#[derive(Debug)]
pub struct TypeRepr {
    pub name: String,
    /// The generics as they stand after `impl`, e.g. `<T: Clone>`; empty if
    /// the type has none.
    pub generics_impl: String,
    /// The generics as they stand after the type name, e.g. `<T>`.
    pub generics_ty: String,
    /// The `where` clause, without surrounding spaces; empty if none.
    pub where_clause: String,
    /// Whether the declaration is a struct; anything else is rejected.
    pub is_struct: bool,
    pub fields: Vec<FieldRepr>,
    pub attrs: Vec<MetaItem>,
    pub loc: u64,
}

/// What went wrong. Every error is fatal: generation produces no output for
/// the type.
#[derive(Debug, Clone, Copy, PartialEq, Eq, Structural)]
pub enum ErrorKind {
    /// The declaration is not a struct.
    NotAStruct,
    /// A field has no name.
    UnnamedField,
    /// A `getset` annotation does not hold a group of items.
    MalformedGroup,
    /// A `getset` group item whose keyword is none of the five known ones.
    UnknownDirective,
    /// `skip` combined with any other directive on the same field.
    SkipConflict,
    /// A visibility value that does not parse as visibility syntax.
    InvalidVisibility,
}

impl ErrorKind {
    pub open spec fn spec_message(self) -> Seq<char> {
        match self {
            ErrorKind::NotAStruct => "this derive is only supported on structs"@,
            ErrorKind::UnnamedField => "field must have a name"@,
            ErrorKind::MalformedGroup => "failed to parse getset attribute"@,
            ErrorKind::UnknownDirective => "unknown getter / setter attribute"@,
            ErrorKind::SkipConflict => "use of getters / setters with skip is invalid"@,
            ErrorKind::InvalidVisibility => "invalid visibility found"@,
        }
    }

    /// A short description of the error, for diagnostics.
    pub fn message(&self) -> (r: &'static str)
        ensures
            r@ == self.spec_message(),
    {
        match self {
            ErrorKind::NotAStruct => "this derive is only supported on structs",
            ErrorKind::UnnamedField => "field must have a name",
            ErrorKind::MalformedGroup => "failed to parse getset attribute",
            ErrorKind::UnknownDirective => "unknown getter / setter attribute",
            ErrorKind::SkipConflict => "use of getters / setters with skip is invalid",
            ErrorKind::InvalidVisibility => "invalid visibility found",
        }
    }
}

/// A fatal generation error: what went wrong, and at which site.
#[derive(Debug, Clone, Copy, PartialEq, Eq, Structural)]
pub struct GenError {
    pub kind: ErrorKind,
    pub loc: u64,
}

/// A normalized instruction parsed from one annotation occurrence.
#[derive(Debug)]
pub enum Directive {
    /// Enable the current mode; `vis` holds the visibility text if the
    /// key/value form gave one, `loc` the site of the occurrence.
    Enable { vis: Option<String>, loc: u64 },
    /// Suppress every accessor of the field.
    Skip,
}

/// The mathematical shadow of a [`Directive`], with text as `Seq<char>`.
pub enum DirectiveView {
    Enable { vis: Option<Seq<char>>, loc: u64 },
    Skip,
}

impl View for Directive {
    type V = DirectiveView;

    open spec fn view(&self) -> DirectiveView {
        match self {
            Directive::Enable { vis, loc } => DirectiveView::Enable {
                vis: vis.deep_view(),
                loc: *loc,
            },
            Directive::Skip => DirectiveView::Skip,
        }
    }
}

/// The resolved decision for one field under one mode.
pub enum Policy {
    /// Generate the method, with the given visibility text if any; `loc` is
    /// the site of the directive that enabled it.
    Emit { vis: Option<Seq<char>>, loc: u64 },
    /// Generate nothing.
    Suppress,
}

} // verus!
