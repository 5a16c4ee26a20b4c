//! The declarations that dispatch is synthesized from, held as plain values.
//!
//! Types are kept as a tree only as deep as the synthesis reads them: paths
//! with their angle-bracketed arguments and `impl Trait` bounds. Every other
//! form is carried through verbatim as source text.
use vstd::prelude::*;

verus! {

/// A source location, as an index into a table kept by whoever parsed the input.
pub type SpanId = usize;

/// A path such as `core::future::Future<Output = T>`.
pub struct TypePath {
    pub leading_colon: bool,
    pub segments: Vec<PathSegment>,
}

pub struct PathSegment {
    pub ident: String,
    pub args: PathArgs,
}

pub enum PathArgs {
    Bare,
    Angle { args: Vec<GenericArg> },
    /// Parenthesized arguments, as in `Fn(A) -> B`.
    Paren { text: String },
}

pub enum GenericArg {
    Type { ty: TypeExpr },
    AssocType { ident: String, ty: TypeExpr },
    Verbatim { text: String },
}

pub enum TypeBound {
    Trait { path: TypePath },
    Verbatim { text: String },
}

pub enum TypeExpr {
    Path { path: TypePath },
    ImplTrait { bounds: Vec<TypeBound> },
    Verbatim { text: String },
}

pub ghost struct TypePathV {
    pub leading_colon: bool,
    pub segments: Seq<PathSegmentV>,
}

pub ghost struct PathSegmentV {
    pub ident: Seq<char>,
    pub args: PathArgsV,
}

pub ghost enum PathArgsV {
    Bare,
    Angle { args: Seq<GenericArgV> },
    Paren { text: Seq<char> },
}

pub ghost enum GenericArgV {
    Type { ty: TypeExprV },
    AssocType { ident: Seq<char>, ty: TypeExprV },
    Verbatim { text: Seq<char> },
}

pub ghost enum TypeBoundV {
    Trait { path: TypePathV },
    Verbatim { text: Seq<char> },
}

pub ghost enum TypeExprV {
    Path { path: TypePathV },
    ImplTrait { bounds: Seq<TypeBoundV> },
    Verbatim { text: Seq<char> },
}

pub open spec fn path_view(p: &TypePath) -> TypePathV
    decreases p,
{
    TypePathV { leading_colon: p.leading_colon, segments: segments_view(&p.segments) }
}

pub open spec fn segments_view(v: &Vec<PathSegment>) -> Seq<PathSegmentV>
    decreases v,
{
    Seq::new(
        v.len() as nat,
        |i: int|
            if 0 <= i < v.len() {
                segment_view(&v[i])
            } else {
                PathSegmentV { ident: Seq::empty(), args: PathArgsV::Bare }
            },
    )
}

pub open spec fn segment_view(s: &PathSegment) -> PathSegmentV
    decreases s,
{
    PathSegmentV { ident: s.ident@, args: path_args_view(&s.args) }
}

pub open spec fn path_args_view(a: &PathArgs) -> PathArgsV
    decreases a,
{
    match a {
        PathArgs::Bare => PathArgsV::Bare,
        PathArgs::Angle { args } => PathArgsV::Angle { args: generic_args_view(args) },
        PathArgs::Paren { text } => PathArgsV::Paren { text: text@ },
    }
}

pub open spec fn generic_args_view(v: &Vec<GenericArg>) -> Seq<GenericArgV>
    decreases v,
{
    Seq::new(
        v.len() as nat,
        |i: int|
            if 0 <= i < v.len() {
                generic_arg_view(&v[i])
            } else {
                GenericArgV::Verbatim { text: Seq::empty() }
            },
    )
}

pub open spec fn generic_arg_view(a: &GenericArg) -> GenericArgV
    decreases a,
{
    match a {
        GenericArg::Type { ty } => GenericArgV::Type { ty: type_view(ty) },
        GenericArg::AssocType { ident, ty } => GenericArgV::AssocType {
            ident: ident@,
            ty: type_view(ty),
        },
        GenericArg::Verbatim { text } => GenericArgV::Verbatim { text: text@ },
    }
}

pub open spec fn bounds_view(v: &Vec<TypeBound>) -> Seq<TypeBoundV>
    decreases v,
{
    Seq::new(
        v.len() as nat,
        |i: int|
            if 0 <= i < v.len() {
                bound_view(&v[i])
            } else {
                TypeBoundV::Verbatim { text: Seq::empty() }
            },
    )
}

pub open spec fn bound_view(b: &TypeBound) -> TypeBoundV
    decreases b,
{
    match b {
        TypeBound::Trait { path } => TypeBoundV::Trait { path: path_view(path) },
        TypeBound::Verbatim { text } => TypeBoundV::Verbatim { text: text@ },
    }
}

pub open spec fn type_view(t: &TypeExpr) -> TypeExprV
    decreases t,
{
    match t {
        TypeExpr::Path { path } => TypeExprV::Path { path: path_view(path) },
        TypeExpr::ImplTrait { bounds } => TypeExprV::ImplTrait { bounds: bounds_view(bounds) },
        TypeExpr::Verbatim { text } => TypeExprV::Verbatim { text: text@ },
    }
}

pub open spec fn opt_type_view(t: &Option<TypeExpr>) -> Option<TypeExprV> {
    match t {
        Some(t) => Some(type_view(t)),
        None => None,
    }
}

impl TypePath {
    pub fn duplicate(&self) -> (r: TypePath)
        ensures
            path_view(&r) == path_view(self),
        decreases self,
    {
        TypePath { leading_colon: self.leading_colon, segments: duplicate_segments(&self.segments) }
    }
}

pub fn duplicate_segments(v: &Vec<PathSegment>) -> (r: Vec<PathSegment>)
    ensures
        segments_view(&r) == segments_view(v),
    decreases v,
{
    let mut out: Vec<PathSegment> = Vec::new();
    let mut i: usize = 0;
    while i < v.len()
        invariant
            i <= v.len(),
            out.len() == i,
            forall|j: int| 0 <= j < i ==> segment_view(&out[j]) == segment_view(&v[j]),
        decreases v.len() - i,
    {
        out.push(v[i].duplicate());
        i += 1;
    }
    assert(segments_view(&out) =~= segments_view(v));
    out
}

impl PathSegment {
    pub fn duplicate(&self) -> (r: PathSegment)
        ensures
            segment_view(&r) == segment_view(self),
        decreases self,
    {
        PathSegment { ident: self.ident.clone(), args: self.args.duplicate() }
    }
}

impl PathArgs {
    pub fn duplicate(&self) -> (r: PathArgs)
        ensures
            path_args_view(&r) == path_args_view(self),
        decreases self,
    {
        match self {
            PathArgs::Bare => PathArgs::Bare,
            PathArgs::Angle { args } => PathArgs::Angle { args: duplicate_generic_args(args) },
            PathArgs::Paren { text } => PathArgs::Paren { text: text.clone() },
        }
    }
}

pub fn duplicate_generic_args(v: &Vec<GenericArg>) -> (r: Vec<GenericArg>)
    ensures
        generic_args_view(&r) == generic_args_view(v),
    decreases v,
{
    let mut out: Vec<GenericArg> = Vec::new();
    let mut i: usize = 0;
    while i < v.len()
        invariant
            i <= v.len(),
            out.len() == i,
            forall|j: int| 0 <= j < i ==> generic_arg_view(&out[j]) == generic_arg_view(&v[j]),
        decreases v.len() - i,
    {
        out.push(v[i].duplicate());
        i += 1;
    }
    assert(generic_args_view(&out) =~= generic_args_view(v));
    out
}

impl GenericArg {
    pub fn duplicate(&self) -> (r: GenericArg)
        ensures
            generic_arg_view(&r) == generic_arg_view(self),
        decreases self,
    {
        match self {
            GenericArg::Type { ty } => GenericArg::Type { ty: ty.duplicate() },
            GenericArg::AssocType { ident, ty } => GenericArg::AssocType {
                ident: ident.clone(),
                ty: ty.duplicate(),
            },
            GenericArg::Verbatim { text } => GenericArg::Verbatim { text: text.clone() },
        }
    }
}

pub fn duplicate_bounds(v: &Vec<TypeBound>) -> (r: Vec<TypeBound>)
    ensures
        bounds_view(&r) == bounds_view(v),
    decreases v,
{
    let mut out: Vec<TypeBound> = Vec::new();
    let mut i: usize = 0;
    while i < v.len()
        invariant
            i <= v.len(),
            out.len() == i,
            forall|j: int| 0 <= j < i ==> bound_view(&out[j]) == bound_view(&v[j]),
        decreases v.len() - i,
    {
        out.push(v[i].duplicate());
        i += 1;
    }
    assert(bounds_view(&out) =~= bounds_view(v));
    out
}

impl TypeBound {
    pub fn duplicate(&self) -> (r: TypeBound)
        ensures
            bound_view(&r) == bound_view(self),
        decreases self,
    {
        match self {
            TypeBound::Trait { path } => TypeBound::Trait { path: path.duplicate() },
            TypeBound::Verbatim { text } => TypeBound::Verbatim { text: text.clone() },
        }
    }
}

impl TypeExpr {
    pub fn duplicate(&self) -> (r: TypeExpr)
        ensures
            type_view(&r) == type_view(self),
        decreases self,
    {
        match self {
            TypeExpr::Path { path } => TypeExpr::Path { path: path.duplicate() },
            TypeExpr::ImplTrait { bounds } => TypeExpr::ImplTrait { bounds: duplicate_bounds(bounds) },
            TypeExpr::Verbatim { text } => TypeExpr::Verbatim { text: text.clone() },
        }
    }
}

/// An attribute such as `#[cfg(test)]`.
pub struct Attr {
    /// The last segment of the attribute's path: `cfg` for `#[cfg(test)]`.
    pub name: String,
    /// The whole attribute as written.
    pub text: String,
    /// The tokens between the parentheses, for a list attribute `#[name(...)]`.
    pub args: Option<Vec<ArgToken>>,
    /// What stands between the parentheses, where it is a single path.
    pub path_arg: Option<TypePath>,
    pub span: SpanId,
}

/// One token of an attribute's arguments.
pub enum ArgToken {
    Ident { name: String, span: SpanId },
    Comma { span: SpanId },
    Other { span: SpanId },
}

#[derive(Clone, Copy, PartialEq, Eq, Structural)]
pub enum GenericKind {
    Type,
    Lifetime,
    Const,
}

pub struct GenericParam {
    pub kind: GenericKind,
    /// The parameter's identifier; for a lifetime, without its apostrophe.
    pub name: String,
    /// The parameter with its bounds, as written.
    pub text: String,
    pub span: SpanId,
}

pub enum WherePred {
    Verbatim { text: String },
    /// `ty` implements the trait that dispatch targets, with that trait's generics.
    Implements { ty: TypeExpr },
}

pub struct Generics {
    pub params: Vec<GenericParam>,
    /// `None` where no `where` clause is written.
    pub where_clause: Option<Vec<WherePred>>,
}

pub struct Pat {
    /// The bound identifier where the pattern is a plain binding.
    pub ident: Option<String>,
    pub text: String,
    pub span: SpanId,
}

#[derive(Clone, Copy, PartialEq, Eq, Structural)]
pub enum ReceiverKind {
    Value,
    Ref,
    RefMut,
}

pub struct Receiver {
    pub kind: ReceiverKind,
    /// The receiver as written: `&mut self`, `self: Box<Self>`.
    pub text: String,
    /// The type of `self`: `Self`, `&Self`, `Box<Self>`.
    pub ty: TypeExpr,
    pub span: SpanId,
}

pub enum FnArg {
    Receiver { receiver: Receiver },
    Typed { pat: Pat, ty: TypeExpr, span: SpanId },
}

pub struct MethodSig {
    pub is_async: bool,
    pub name: String,
    pub generics: Generics,
    pub inputs: Vec<FnArg>,
    /// `None` for a method that returns `()` implicitly.
    pub output: Option<TypeExpr>,
}

pub enum TraitItem {
    Method { attrs: Vec<Attr>, sig: MethodSig, has_default: bool, span: SpanId },
    AssocType { span: SpanId },
    AssocConst { span: SpanId },
    Other,
}

pub struct TraitDecl {
    pub name: String,
    pub attrs: Vec<Attr>,
    pub generics: Generics,
    pub items: Vec<TraitItem>,
    pub span: SpanId,
}

pub enum VariantFields {
    Unit,
    Named,
    Unnamed { types: Vec<TypeExpr> },
}

pub struct Variant {
    pub name: String,
    pub attrs: Vec<Attr>,
    pub fields: VariantFields,
}

pub struct EnumDecl {
    pub name: String,
    pub attrs: Vec<Attr>,
    pub generics: Generics,
    pub generics_span: SpanId,
    pub variants: Vec<Variant>,
    pub span: SpanId,
}

pub enum Item {
    Enum { decl: EnumDecl },
    Trait { decl: TraitDecl },
    Other,
}

pub ghost struct GenericParamV {
    pub kind: GenericKind,
    pub name: Seq<char>,
    pub text: Seq<char>,
    pub span: SpanId,
}

pub ghost enum WherePredV {
    Verbatim { text: Seq<char> },
    Implements { ty: TypeExprV },
}

pub ghost struct GenericsV {
    pub params: Seq<GenericParamV>,
    pub where_clause: Option<Seq<WherePredV>>,
}

pub ghost struct PatV {
    pub ident: Option<Seq<char>>,
    pub text: Seq<char>,
    pub span: SpanId,
}

pub ghost struct ReceiverV {
    pub kind: ReceiverKind,
    pub text: Seq<char>,
    pub ty: TypeExprV,
    pub span: SpanId,
}

pub ghost enum FnArgV {
    Receiver { receiver: ReceiverV },
    Typed { pat: PatV, ty: TypeExprV, span: SpanId },
}

pub ghost struct MethodSigV {
    pub is_async: bool,
    pub name: Seq<char>,
    pub generics: GenericsV,
    pub inputs: Seq<FnArgV>,
    pub output: Option<TypeExprV>,
}

impl View for GenericParam {
    type V = GenericParamV;

    open spec fn view(&self) -> GenericParamV {
        GenericParamV { kind: self.kind, name: self.name@, text: self.text@, span: self.span }
    }
}

impl View for WherePred {
    type V = WherePredV;

    open spec fn view(&self) -> WherePredV {
        match self {
            WherePred::Verbatim { text } => WherePredV::Verbatim { text: text@ },
            WherePred::Implements { ty } => WherePredV::Implements { ty: type_view(ty) },
        }
    }
}

pub open spec fn params_view(v: &Vec<GenericParam>) -> Seq<GenericParamV> {
    v@.map_values(|p: GenericParam| p@)
}

pub open spec fn preds_view(v: &Vec<WherePred>) -> Seq<WherePredV> {
    v@.map_values(|p: WherePred| p@)
}

pub open spec fn where_view(w: &Option<Vec<WherePred>>) -> Option<Seq<WherePredV>> {
    match w {
        Some(v) => Some(preds_view(v)),
        None => None,
    }
}

impl View for Generics {
    type V = GenericsV;

    open spec fn view(&self) -> GenericsV {
        GenericsV { params: params_view(&self.params), where_clause: where_view(&self.where_clause) }
    }
}

impl View for Pat {
    type V = PatV;

    open spec fn view(&self) -> PatV {
        PatV {
            ident: match self.ident {
                Some(i) => Some(i@),
                None => None,
            },
            text: self.text@,
            span: self.span,
        }
    }
}

impl View for Receiver {
    type V = ReceiverV;

    open spec fn view(&self) -> ReceiverV {
        ReceiverV { kind: self.kind, text: self.text@, ty: type_view(&self.ty), span: self.span }
    }
}

impl View for FnArg {
    type V = FnArgV;

    open spec fn view(&self) -> FnArgV {
        match self {
            FnArg::Receiver { receiver } => FnArgV::Receiver { receiver: receiver@ },
            FnArg::Typed { pat, ty, span } => FnArgV::Typed { pat: pat@, ty: type_view(ty), span: *span },
        }
    }
}

pub open spec fn inputs_view(v: &Vec<FnArg>) -> Seq<FnArgV> {
    v@.map_values(|a: FnArg| a@)
}

impl View for MethodSig {
    type V = MethodSigV;

    open spec fn view(&self) -> MethodSigV {
        MethodSigV {
            is_async: self.is_async,
            name: self.name@,
            generics: self.generics@,
            inputs: inputs_view(&self.inputs),
            output: opt_type_view(&self.output),
        }
    }
}

impl GenericParam {
    pub fn duplicate(&self) -> (r: GenericParam)
        ensures
            r@ == self@,
    {
        GenericParam { kind: self.kind, name: self.name.clone(), text: self.text.clone(), span: self.span }
    }
}

impl WherePred {
    pub fn duplicate(&self) -> (r: WherePred)
        ensures
            r@ == self@,
    {
        match self {
            WherePred::Verbatim { text } => WherePred::Verbatim { text: text.clone() },
            WherePred::Implements { ty } => WherePred::Implements { ty: ty.duplicate() },
        }
    }
}

impl Pat {
    pub fn duplicate(&self) -> (r: Pat)
        ensures
            r@ == self@,
    {
        let ident = match &self.ident {
            Some(i) => Some(i.clone()),
            None => None,
        };
        Pat { ident, text: self.text.clone(), span: self.span }
    }
}

impl Receiver {
    pub fn duplicate(&self) -> (r: Receiver)
        ensures
            r@ == self@,
    {
        Receiver { kind: self.kind, text: self.text.clone(), ty: self.ty.duplicate(), span: self.span }
    }
}

impl FnArg {
    pub fn duplicate(&self) -> (r: FnArg)
        ensures
            r@ == self@,
    {
        match self {
            FnArg::Receiver { receiver } => FnArg::Receiver { receiver: receiver.duplicate() },
            FnArg::Typed { pat, ty, span } => FnArg::Typed {
                pat: pat.duplicate(),
                ty: ty.duplicate(),
                span: *span,
            },
        }
    }
}

pub fn duplicate_params(v: &Vec<GenericParam>) -> (r: Vec<GenericParam>)
    ensures
        params_view(&r) == params_view(v),
{
    let mut out: Vec<GenericParam> = Vec::new();
    let mut i: usize = 0;
    while i < v.len()
        invariant
            i <= v.len(),
            params_view(&out) == params_view(v).subrange(0, i as int),
        decreases v.len() - i,
    {
        let ghost prev = out@;
        let p = v[i].duplicate();
        out.push(p);
        assert(out@ == prev.push(p));
        assert(params_view(&out) =~= prev.map_values(|q: GenericParam| q@).push(p@));
        i += 1;
        assert(params_view(&out) =~= params_view(v).subrange(0, i as int));
    }
    assert(params_view(v).subrange(0, i as int) =~= params_view(v));
    out
}

pub fn duplicate_preds(v: &Vec<WherePred>) -> (r: Vec<WherePred>)
    ensures
        preds_view(&r) == preds_view(v),
{
    let mut out: Vec<WherePred> = Vec::new();
    let mut i: usize = 0;
    while i < v.len()
        invariant
            i <= v.len(),
            preds_view(&out) == preds_view(v).subrange(0, i as int),
        decreases v.len() - i,
    {
        let ghost prev = out@;
        let p = v[i].duplicate();
        out.push(p);
        assert(out@ == prev.push(p));
        assert(preds_view(&out) =~= prev.map_values(|q: WherePred| q@).push(p@));
        i += 1;
        assert(preds_view(&out) =~= preds_view(v).subrange(0, i as int));
    }
    assert(preds_view(v).subrange(0, i as int) =~= preds_view(v));
    out
}

impl Generics {
    pub fn duplicate(&self) -> (r: Generics)
        ensures
            r@ == self@,
    {
        let where_clause = match &self.where_clause {
            Some(w) => Some(duplicate_preds(w)),
            None => None,
        };
        Generics { params: duplicate_params(&self.params), where_clause }
    }
}

} // verus!
