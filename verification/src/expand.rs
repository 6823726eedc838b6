//! The four generation modes, the per-field emit decision, and the method
//! synthesizer: from a resolved policy and a field descriptor to the
//! generated method, and from there to the rendered `impl` block text.

use vstd::prelude::*;
use vstd::string::StringExecFns;

use crate::ast::{Directive, DirectiveView, ErrorKind, FieldRepr, GenError, Policy, TypeRepr};
use crate::utils::{
    clone_directive, is_valid_visibility, opt_dir_view, parse_field_attrs, parse_vis,
    spec_resolve_field,
};

verus! {

/// One of the four kinds of accessor method that can be generated for a
/// field: a borrowing getter, a mutably borrowing getter, a cloning getter,
/// and a setter.
#[derive(Debug, Clone, Copy, PartialEq, Eq, Structural)]
pub enum Mode {
    Getter,
    MutGetter,
    CloneGetter,
    Setter,
}

impl Mode {
    /// The keyword that enables this mode in an annotation.
    pub open spec fn spec_name(self) -> Seq<char> {
        match self {
            Mode::Getter => "get"@,
            Mode::MutGetter => "get_mut"@,
            Mode::CloneGetter => "get_clone"@,
            Mode::Setter => "set"@,
        }
    }

    /// The name of the derive under which this mode runs.
    pub open spec fn spec_ident(self) -> Seq<char> {
        match self {
            Mode::Getter => "Getter"@,
            Mode::MutGetter => "MutGetter"@,
            Mode::CloneGetter => "CloneGetter"@,
            Mode::Setter => "Setter"@,
        }
    }

    /// The prefix of every method name generated under this mode.
    pub open spec fn spec_prefix(self) -> Seq<char> {
        match self {
            Mode::Setter => "set_"@,
            _ => "get_"@,
        }
    }

    /// The suffix of every method name generated under this mode.
    pub open spec fn spec_suffix(self) -> Seq<char> {
        match self {
            Mode::MutGetter => "_mut"@,
            Mode::CloneGetter => "_clone"@,
            _ => ""@,
        }
    }

    /// Whether this mode reads the field (every mode but the setter).
    pub open spec fn spec_is_get(self) -> bool {
        !(self is Setter)
    }

    pub fn name(&self) -> (r: &'static str)
        ensures
            r@ == self.spec_name(),
    {
        match self {
            Mode::Getter => "get",
            Mode::MutGetter => "get_mut",
            Mode::CloneGetter => "get_clone",
            Mode::Setter => "set",
        }
    }

    pub fn ident(&self) -> (r: &'static str)
        ensures
            r@ == self.spec_ident(),
    {
        match self {
            Mode::Getter => "Getter",
            Mode::MutGetter => "MutGetter",
            Mode::CloneGetter => "CloneGetter",
            Mode::Setter => "Setter",
        }
    }

    pub fn prefix(&self) -> (r: &'static str)
        ensures
            r@ == self.spec_prefix(),
    {
        match self {
            Mode::Setter => "set_",
            _ => "get_",
        }
    }

    pub fn suffix(&self) -> (r: &'static str)
        ensures
            r@ == self.spec_suffix(),
    {
        match self {
            Mode::MutGetter => "_mut",
            Mode::CloneGetter => "_clone",
            _ => "",
        }
    }

    pub fn is_get(&self) -> (r: bool)
        ensures
            r == self.spec_is_get(),
    {
        !matches!(self, Mode::Setter)
    }
}

/// One run's parameters: the mode under generation and the type-level
/// default directive for that mode, if any.
pub struct Params {
    pub mode: Mode,
    pub attr: Option<Directive>,
}

impl Params {
    pub fn new(mode: Mode, attr: Option<Directive>) -> (r: Params)
        ensures
            r.mode == mode,
            r.attr == attr,
    {
        Params { mode, attr }
    }
}

/// One generated accessor method, still structured: everything the renderer
/// needs to write it out.
#[derive(Debug)]
pub struct MethodDef {
    /// The field's documentation lines, copied verbatim and in order.
    pub docs: Vec<String>,
    /// The visibility text, if the enabling directive carried one.
    pub vis: Option<String>,
    pub mode: Mode,
    /// The field's identifier with raw-identifier quoting stripped.
    pub ident: String,
    /// The field's identifier as written, used in the method body.
    pub surface: String,
    /// The field's declared type, verbatim.
    pub ty: String,
}

/// The mathematical shadow of a [`MethodDef`], with text as `Seq<char>`.
pub struct MethodView {
    pub docs: Seq<Seq<char>>,
    pub vis: Option<Seq<char>>,
    pub mode: Mode,
    pub ident: Seq<char>,
    pub surface: Seq<char>,
    pub ty: Seq<char>,
}

impl View for MethodDef {
    type V = MethodView;

    open spec fn view(&self) -> MethodView {
        MethodView {
            docs: self.docs.deep_view(),
            vis: self.vis.deep_view(),
            mode: self.mode,
            ident: self.ident@,
            surface: self.surface@,
            ty: self.ty@,
        }
    }
}

/// The name of the generated method: mode prefix, stripped field name,
/// mode suffix.
pub open spec fn spec_method_name(mode: Mode, ident: Seq<char>) -> Seq<char> {
    mode.spec_prefix() + ident + mode.spec_suffix()
}

impl MethodDef {
    /// The generated method's name.
    pub fn name(&self) -> (r: String)
        ensures
            r@ == spec_method_name(self.mode, self.ident@),
    {
        let mut out = String::new();
        out.append(self.mode.prefix());
        out.append(self.ident.as_str());
        out.append(self.mode.suffix());
        proof {
            assert(out@ =~= spec_method_name(self.mode, self.ident@));
        }
        out
    }
}

/// The emit decision a resolved directive stands for: only an enabling
/// directive emits; `skip` or no directive at all suppresses.
pub open spec fn spec_effective(d: Option<DirectiveView>) -> Policy {
    match d {
        Some(DirectiveView::Enable { vis, loc }) => Policy::Emit { vis, loc },
        _ => Policy::Suppress,
    }
}

/// The method generated for a field once its policy says to emit.
pub open spec fn spec_method(field: FieldRepr, vis: Option<Seq<char>>, mode: Mode) -> MethodView {
    MethodView {
        docs: field.docs.deep_view(),
        vis: vis,
        mode: mode,
        ident: field.name.unwrap().ident@,
        surface: field.name.unwrap().surface@,
        ty: field.ty@,
    }
}

/// The outcome of one (field, mode) pair: the generated method if the
/// effective policy emits, nothing if it suppresses, or the fatal error.
pub open spec fn spec_field_method(
    field: FieldRepr,
    global: Option<DirectiveView>,
    mode: Mode,
) -> Result<Option<MethodView>, GenError> {
    if field.name is None {
        Err(GenError { kind: ErrorKind::UnnamedField, loc: field.loc })
    } else {
        match spec_resolve_field(field.attrs@, global, mode) {
            Err(e) => Err(e),
            Ok(r) => match spec_effective(r) {
                Policy::Suppress => Ok(None),
                Policy::Emit { vis, loc } => match vis {
                    Some(v) => if is_valid_visibility(v) {
                        Ok(Some(spec_method(field, Some(v), mode)))
                    } else {
                        Err(GenError { kind: ErrorKind::InvalidVisibility, loc })
                    },
                    None => Ok(Some(spec_method(field, None, mode))),
                },
            },
        }
    }
}

pub open spec fn opt_method_view(m: Option<MethodDef>) -> Option<MethodView> {
    match m {
        Some(x) => Some(x@),
        None => None,
    }
}

pub open spec fn method_res_view(r: Result<Option<MethodDef>, GenError>) -> Result<
    Option<MethodView>,
    GenError,
> {
    match r {
        Ok(m) => Ok(opt_method_view(m)),
        Err(e) => Err(e),
    }
}

/// Copies a list of text lines.
fn clone_docs(docs: &Vec<String>) -> (r: Vec<String>)
    ensures
        r@ == docs@,
{
    let mut out: Vec<String> = Vec::new();
    let mut i: usize = 0;
    while i < docs.len()
        invariant
            i <= docs@.len(),
            out@ == docs@.take(i as int),
        decreases docs@.len() - i,
    {
        out.push(docs[i].clone());
        proof {
            assert(out@ =~= docs@.take(i as int + 1));
        }
        i += 1;
    }
    proof {
        assert(docs@.take(docs@.len() as int) =~= docs@);
    }
    out
}

/// Decides one (field, mode) pair and synthesizes the method if one is due:
/// the field's own last enabling directive masks the type-level default;
/// a lone `skip` suppresses, while `skip` beside any other directive of the
/// field is a fatal conflict; an enabling directive emits, after its
/// visibility text, if any, has been validated.
pub fn expand_field(field: &FieldRepr, params: &Params) -> (r: Result<Option<MethodDef>, GenError>)
    ensures
        method_res_view(r) == spec_field_method(*field, opt_dir_view(params.attr), params.mode),
{
    let name = match &field.name {
        Some(n) => n,
        None => {
            return Err(GenError { kind: ErrorKind::UnnamedField, loc: field.loc });
        },
    };
    let st = match parse_field_attrs(&field.attrs, params.mode) {
        Err(e) => {
            return Err(e);
        },
        Ok(st) => st,
    };
    let dir: Option<Directive> = if st.skip {
        if st.enable.is_none() && st.other_loc.is_none() {
            Some(Directive::Skip)
        } else {
            let loc: u64 = match &st.enable {
                Some(Directive::Enable { loc, .. }) => *loc,
                _ => match st.other_loc {
                    Some(l) => l,
                    None => 0,
                },
            };
            return Err(GenError { kind: ErrorKind::SkipConflict, loc });
        }
    } else {
        match st.enable {
            Some(d) => Some(d),
            None => match &params.attr {
                Some(g) => Some(clone_directive(g)),
                None => None,
            },
        }
    };
    match dir {
        None => Ok(None),
        Some(Directive::Skip) => Ok(None),
        Some(Directive::Enable { vis, loc }) => {
            if let Some(v) = &vis {
                match parse_vis(v.as_str(), loc) {
                    Err(e) => {
                        return Err(e);
                    },
                    Ok(_) => {},
                }
            }
            Ok(
                Some(
                    MethodDef {
                        docs: clone_docs(&field.docs),
                        vis,
                        mode: params.mode,
                        ident: name.ident.clone(),
                        surface: name.surface.clone(),
                        ty: field.ty.clone(),
                    },
                ),
            )
        },
    }
}

/// The methods generated for a whole field list, in field order; the first
/// fatal error aborts the run.
pub open spec fn spec_methods(
    fields: Seq<FieldRepr>,
    global: Option<DirectiveView>,
    mode: Mode,
) -> Result<Seq<MethodView>, GenError>
    decreases fields.len(),
{
    if fields.len() == 0 {
        Ok(Seq::empty())
    } else {
        match spec_methods(fields.drop_last(), global, mode) {
            Err(e) => Err(e),
            Ok(ms) => match spec_field_method(fields.last(), global, mode) {
                Err(e) => Err(e),
                Ok(Some(m)) => Ok(ms.push(m)),
                Ok(None) => Ok(ms),
            },
        }
    }
}

/// The methods of a whole run: a declaration that is not a struct is
/// rejected before any field is looked at.
pub open spec fn spec_produce_methods(
    t: TypeRepr,
    global: Option<DirectiveView>,
    mode: Mode,
) -> Result<Seq<MethodView>, GenError> {
    if !t.is_struct {
        Err(GenError { kind: ErrorKind::NotAStruct, loc: t.loc })
    } else {
        spec_methods(t.fields@, global, mode)
    }
}

pub open spec fn methods_view(ms: Seq<MethodDef>) -> Seq<MethodView> {
    ms.map_values(|m: MethodDef| m@)
}

pub open spec fn methods_res_view(r: Result<Vec<MethodDef>, GenError>) -> Result<
    Seq<MethodView>,
    GenError,
> {
    match r {
        Ok(ms) => Ok(methods_view(ms@)),
        Err(e) => Err(e),
    }
}

proof fn lemma_methods_prefix_err(
    fields: Seq<FieldRepr>,
    global: Option<DirectiveView>,
    mode: Mode,
    k: int,
)
    requires
        0 <= k <= fields.len(),
        spec_methods(fields.take(k), global, mode) is Err,
    ensures
        spec_methods(fields, global, mode) == spec_methods(fields.take(k), global, mode),
    decreases fields.len(),
{
    if k == fields.len() {
        assert(fields.take(k) =~= fields);
    } else {
        assert(fields.drop_last().take(k) =~= fields.take(k));
        lemma_methods_prefix_err(fields.drop_last(), global, mode, k);
    }
}

/// Visits every field in declaration order and collects the methods that
/// are due under the run's mode.
pub fn expand_methods(ast: &TypeRepr, params: &Params) -> (r: Result<Vec<MethodDef>, GenError>)
    ensures
        methods_res_view(r) == spec_produce_methods(
            *ast,
            opt_dir_view(params.attr),
            params.mode,
        ),
{
    if !ast.is_struct {
        return Err(GenError { kind: ErrorKind::NotAStruct, loc: ast.loc });
    }
    let mut out: Vec<MethodDef> = Vec::new();
    let mut i: usize = 0;
    proof {
        assert(ast.fields@.take(0) =~= Seq::<FieldRepr>::empty());
        assert(methods_view(out@) =~= Seq::<MethodView>::empty());
    }
    while i < ast.fields.len()
        invariant
            i <= ast.fields@.len(),
            ast.is_struct,
            spec_methods(ast.fields@.take(i as int), opt_dir_view(params.attr), params.mode)
                == Ok::<Seq<MethodView>, GenError>(methods_view(out@)),
        decreases ast.fields@.len() - i,
    {
        proof {
            assert(ast.fields@.take(i as int + 1).drop_last() =~= ast.fields@.take(i as int));
            assert(ast.fields@.take(i as int + 1).last() == ast.fields@[i as int]);
        }
        match expand_field(&ast.fields[i], params) {
            Err(e) => {
                proof {
                    assert(spec_methods(
                        ast.fields@.take(i as int + 1),
                        opt_dir_view(params.attr),
                        params.mode,
                    ) == Err::<Seq<MethodView>, GenError>(e));
                    lemma_methods_prefix_err(
                        ast.fields@,
                        opt_dir_view(params.attr),
                        params.mode,
                        i as int + 1,
                    );
                }
                return Err(e);
            },
            Ok(Some(m)) => {
                let ghost prev = out@;
                out.push(m);
                proof {
                    assert(methods_view(out@) =~= methods_view(prev).push(out@.last()@));
                }
            },
            Ok(None) => {},
        }
        i += 1;
    }
    proof {
        assert(ast.fields@.take(ast.fields@.len() as int) =~= ast.fields@);
    }
    Ok(out)
}

/// The documentation lines of a method, one per line.
pub open spec fn spec_docs_text(docs: Seq<Seq<char>>) -> Seq<char>
    decreases docs.len(),
{
    if docs.len() == 0 {
        Seq::empty()
    } else {
        spec_docs_text(docs.drop_last()) + docs.last() + "\n"@
    }
}

/// The visibility qualifier and its trailing space, or nothing.
pub open spec fn spec_vis_part(vis: Option<Seq<char>>) -> Seq<char> {
    match vis {
        Some(v) => v + " "@,
        None => Seq::empty(),
    }
}

/// Everything after the method's name: parameter list, return type and
/// body, fixed per mode.
pub open spec fn spec_signature(m: MethodView) -> Seq<char> {
    match m.mode {
        Mode::Getter => "(&self) -> &"@ + m.ty + " { &self."@ + m.surface + " }\n"@,
        Mode::MutGetter => "(&mut self) -> &mut "@ + m.ty + " { &mut self."@ + m.surface
            + " }\n"@,
        Mode::CloneGetter => "(&self) -> "@ + m.ty + " { self."@ + m.surface + ".clone() }\n"@,
        Mode::Setter => "(&mut self, val: "@ + m.ty + ") -> &mut Self { self."@ + m.surface
            + " = val; self }\n"@,
    }
}

/// One rendered method: documentation, inlining hint, visibility, name,
/// signature and body.
pub open spec fn spec_render_method(m: MethodView) -> Seq<char> {
    spec_docs_text(m.docs) + "#[inline(always)]\n"@ + spec_vis_part(m.vis) + "fn "@
        + spec_method_name(m.mode, m.ident) + spec_signature(m)
}

/// The rendered methods of a run, in order.
pub open spec fn spec_methods_text(ms: Seq<MethodView>) -> Seq<char>
    decreases ms.len(),
{
    if ms.len() == 0 {
        Seq::empty()
    } else {
        spec_methods_text(ms.drop_last()) + spec_render_method(ms.last())
    }
}

/// A leading space before a non-empty part, nothing before an empty one.
pub open spec fn spec_opt_space(s: Seq<char>) -> Seq<char> {
    if s.len() == 0 {
        s
    } else {
        " "@ + s
    }
}

/// The whole augmentation block: one `impl` block in the declaration's
/// generic context, holding the rendered methods.
pub open spec fn spec_render_impl(t: TypeRepr, ms: Seq<MethodView>) -> Seq<char> {
    "impl"@ + t.generics_impl@ + " "@ + t.name@ + t.generics_ty@ + spec_opt_space(t.where_clause@)
        + " {\n"@ + spec_methods_text(ms) + "}\n"@
}

/// Renders one generated method as source text.
pub fn render_method(m: &MethodDef) -> (r: String)
    ensures
        r@ == spec_render_method(m@),
{
    let mut out = String::new();
    let mut i: usize = 0;
    proof {
        assert(m.docs.deep_view().take(0) =~= Seq::<Seq<char>>::empty());
    }
    while i < m.docs.len()
        invariant
            i <= m.docs@.len(),
            m.docs.deep_view().len() == m.docs@.len(),
            out@ == spec_docs_text(m.docs.deep_view().take(i as int)),
        decreases m.docs@.len() - i,
    {
        out.append(m.docs[i].as_str());
        out.append("\n");
        proof {
            assert(m.docs.deep_view().take(i as int + 1).drop_last() =~= m.docs.deep_view().take(
                i as int,
            ));
            assert(m.docs.deep_view().take(i as int + 1).last() == m.docs@[i as int]@);
        }
        i += 1;
    }
    proof {
        assert(m.docs.deep_view().take(m.docs@.len() as int) =~= m.docs.deep_view());
    }
    out.append("#[inline(always)]\n");
    if let Some(v) = &m.vis {
        out.append(v.as_str());
        out.append(" ");
    }
    out.append("fn ");
    out.append(m.mode.prefix());
    out.append(m.ident.as_str());
    out.append(m.mode.suffix());
    match m.mode {
        Mode::Getter => {
            out.append("(&self) -> &");
            out.append(m.ty.as_str());
            out.append(" { &self.");
            out.append(m.surface.as_str());
            out.append(" }\n");
        },
        Mode::MutGetter => {
            out.append("(&mut self) -> &mut ");
            out.append(m.ty.as_str());
            out.append(" { &mut self.");
            out.append(m.surface.as_str());
            out.append(" }\n");
        },
        Mode::CloneGetter => {
            out.append("(&self) -> ");
            out.append(m.ty.as_str());
            out.append(" { self.");
            out.append(m.surface.as_str());
            out.append(".clone() }\n");
        },
        Mode::Setter => {
            out.append("(&mut self, val: ");
            out.append(m.ty.as_str());
            out.append(") -> &mut Self { self.");
            out.append(m.surface.as_str());
            out.append(" = val; self }\n");
        },
    }
    proof {
        assert(out@ =~= spec_render_method(m@));
    }
    out
}

/// Renders the whole augmentation block for a run.
pub fn render_impl(ast: &TypeRepr, ms: &Vec<MethodDef>) -> (r: String)
    ensures
        r@ == spec_render_impl(*ast, methods_view(ms@)),
{
    let mut out = String::new();
    out.append("impl");
    out.append(ast.generics_impl.as_str());
    out.append(" ");
    out.append(ast.name.as_str());
    out.append(ast.generics_ty.as_str());
    if !ast.where_clause.as_str().is_empty() {
        out.append(" ");
        out.append(ast.where_clause.as_str());
    }
    out.append(" {\n");
    let ghost header = out@;
    proof {
        assert(methods_view(ms@).take(0) =~= Seq::<MethodView>::empty());
    }
    let mut i: usize = 0;
    while i < ms.len()
        invariant
            i <= ms@.len(),
            methods_view(ms@).len() == ms@.len(),
            out@ =~= header + spec_methods_text(methods_view(ms@).take(i as int)),
        decreases ms@.len() - i,
    {
        let text = render_method(&ms[i]);
        out.append(text.as_str());
        proof {
            assert(methods_view(ms@).take(i as int + 1).drop_last() =~= methods_view(ms@).take(
                i as int,
            ));
            assert(methods_view(ms@).take(i as int + 1).last() == ms@[i as int]@);
        }
        i += 1;
    }
    proof {
        assert(methods_view(ms@).take(ms@.len() as int) =~= methods_view(ms@));
    }
    out.append("}\n");
    proof {
        assert(out@ =~= spec_render_impl(*ast, methods_view(ms@)));
    }
    out
}

pub open spec fn text_res_view(r: Result<String, GenError>) -> Result<Seq<char>, GenError> {
    match r {
        Ok(s) => Ok(s@),
        Err(e) => Err(e),
    }
}

/// The rendered augmentation block of a run, or its fatal error.
pub open spec fn spec_produce(
    t: TypeRepr,
    global: Option<DirectiveView>,
    mode: Mode,
) -> Result<Seq<char>, GenError> {
    match spec_produce_methods(t, global, mode) {
        Err(e) => Err(e),
        Ok(ms) => Ok(spec_render_impl(t, ms)),
    }
}

/// Generates and renders the augmentation block for one run.
pub fn produce(ast: &TypeRepr, params: &Params) -> (r: Result<String, GenError>)
    ensures
        text_res_view(r) == spec_produce(*ast, opt_dir_view(params.attr), params.mode),
{
    match expand_methods(ast, params) {
        Err(e) => Err(e),
        Ok(ms) => Ok(render_impl(ast, &ms)),
    }
}

} // verus!
