//! Rewrites applied to a trait method's signature before a dispatcher is built
//! from it: `impl Future` returns become `async`, `Self` becomes the enum, and
//! only the attributes that make sense on the dispatcher are kept.
use vstd::prelude::*;
use vstd::string::*;
use crate::syntax::{
    Attr, GenericArg, GenericArgV, PathArgs, PathArgsV, PathSegment, PathSegmentV, TypeBound,
    TypeBoundV, TypeExpr, TypeExprV, TypePath, TypePathV, WherePred, WherePredV, bound_view, bounds_view,
    generic_arg_view, generic_args_view, opt_type_view, path_view, preds_view, segment_view,
    segments_view, type_view, where_view,
};

verus! {

/// Whether `s` holds exactly the characters of `lit`.
pub fn text_is(s: &String, lit: &str) -> (r: bool)
    ensures
        r == (s@ == lit@),
{
    let l = String::from_str(lit);
    *s == l
}

/// A path that is the bare word `Self`.
pub open spec fn is_self_path(p: TypePathV) -> bool {
    p.segments.len() == 1 && p.segments[0].ident == "Self"@
}

/// A type of the form `W<Self>`, such as `Box<Self>` or `Arc<Self>`.
pub open spec fn wraps_self(t: TypeExprV) -> bool {
    &&& t matches TypeExprV::Path { path }
    &&& path.segments.len() == 1
    &&& path.segments[0].args matches PathArgsV::Angle { args }
    &&& args.len() == 1
    &&& args[0] matches GenericArgV::Type { ty }
    &&& ty matches TypeExprV::Path { path: inner }
    &&& is_self_path(inner)
}

fn path_is_self(p: &TypePath) -> (r: bool)
    ensures
        r == is_self_path(path_view(p)),
{
    p.segments.len() == 1 && text_is(&p.segments[0].ident, "Self")
}

pub fn is_wrapped_self(ty: &TypeExpr) -> (r: bool)
    ensures
        r == wraps_self(type_view(ty)),
{
    match ty {
        TypeExpr::Path { path } => {
            if path.segments.len() != 1 {
                return false;
            }
            assert(path_view(path).segments[0] == segment_view(&path.segments[0]));
            match &path.segments[0].args {
                PathArgs::Angle { args } => {
                    if args.len() != 1 {
                        return false;
                    }
                    assert(generic_args_view(args)[0] == generic_arg_view(&args[0]));
                    match &args[0] {
                        GenericArg::Type { ty: TypeExpr::Path { path: inner } } => path_is_self(inner),
                        _ => false,
                    }
                },
                _ => false,
            }
        },
        _ => false,
    }
}

/// The path naming the enum, written in place of `Self`.
pub open spec fn named_path(name: Seq<char>) -> TypePathV {
    TypePathV {
        leading_colon: false,
        segments: seq![PathSegmentV { ident: name, args: PathArgsV::Bare }],
    }
}

/// `t` with every `Self` in a path or in the type arguments of a path's
/// segments, at any depth, replaced by the path `name`.
pub open spec fn self_replaced(t: TypeExprV, name: Seq<char>) -> TypeExprV
    decreases t,
{
    match t {
        TypeExprV::Path { path } => if is_self_path(path) {
            TypeExprV::Path { path: named_path(name) }
        } else {
            TypeExprV::Path {
                path: TypePathV {
                    leading_colon: path.leading_colon,
                    segments: segments_replaced(path.segments, name),
                },
            }
        },
        _ => t,
    }
}

pub open spec fn segments_replaced(s: Seq<PathSegmentV>, name: Seq<char>) -> Seq<PathSegmentV>
    decreases s,
{
    Seq::new(
        s.len(),
        |i: int|
            if 0 <= i < s.len() {
                segment_replaced(s[i], name)
            } else {
                PathSegmentV { ident: Seq::empty(), args: PathArgsV::Bare }
            },
    )
}

pub open spec fn segment_replaced(s: PathSegmentV, name: Seq<char>) -> PathSegmentV
    decreases s,
{
    PathSegmentV {
        ident: s.ident,
        args: match s.args {
            PathArgsV::Angle { args } => PathArgsV::Angle { args: args_replaced(args, name) },
            other => other,
        },
    }
}

pub open spec fn args_replaced(s: Seq<GenericArgV>, name: Seq<char>) -> Seq<GenericArgV>
    decreases s,
{
    Seq::new(
        s.len(),
        |i: int|
            if 0 <= i < s.len() {
                arg_replaced(s[i], name)
            } else {
                GenericArgV::Verbatim { text: Seq::empty() }
            },
    )
}

pub open spec fn arg_replaced(a: GenericArgV, name: Seq<char>) -> GenericArgV
    decreases a,
{
    match a {
        GenericArgV::Type { ty } => GenericArgV::Type { ty: self_replaced(ty, name) },
        GenericArgV::AssocType { ident, ty } => GenericArgV::AssocType {
            ident,
            ty: self_replaced(ty, name),
        },
        other => other,
    }
}

pub fn replace_self(ty: &TypeExpr, name: &String) -> (r: TypeExpr)
    ensures
        type_view(&r) == self_replaced(type_view(ty), name@),
    decreases ty,
{
    match ty {
        TypeExpr::Path { path } => {
            if path_is_self(path) {
                let seg = PathSegment { ident: name.clone(), args: PathArgs::Bare };
                let segments = vec![seg];
                let r = TypeExpr::Path { path: TypePath { leading_colon: false, segments } };
                assert(segments_view(&segments) =~= named_path(name@).segments);
                r
            } else {
                let segments = replace_self_in_segments(&path.segments, name);
                TypeExpr::Path { path: TypePath { leading_colon: path.leading_colon, segments } }
            }
        },
        _ => ty.duplicate(),
    }
}

fn replace_self_in_segments(v: &Vec<PathSegment>, name: &String) -> (r: Vec<PathSegment>)
    ensures
        segments_view(&r) == segments_replaced(segments_view(v), name@),
    decreases v,
{
    let mut out: Vec<PathSegment> = Vec::new();
    let mut i: usize = 0;
    while i < v.len()
        invariant
            i <= v.len(),
            out.len() == i,
            forall|j: int|
                0 <= j < i ==> segment_view(&out[j]) == segment_replaced(
                    segment_view(&v[j]),
                    name@,
                ),
        decreases v.len() - i,
    {
        out.push(replace_self_in_segment(&v[i], name));
        i += 1;
    }
    assert(segments_view(&out) =~= segments_replaced(segments_view(v), name@));
    out
}

fn replace_self_in_segment(s: &PathSegment, name: &String) -> (r: PathSegment)
    ensures
        segment_view(&r) == segment_replaced(segment_view(s), name@),
    decreases s,
{
    let args = match &s.args {
        PathArgs::Angle { args } => PathArgs::Angle { args: replace_self_in_args(args, name) },
        other => other.duplicate(),
    };
    PathSegment { ident: s.ident.clone(), args }
}

fn replace_self_in_args(v: &Vec<GenericArg>, name: &String) -> (r: Vec<GenericArg>)
    ensures
        generic_args_view(&r) == args_replaced(generic_args_view(v), name@),
    decreases v,
{
    let mut out: Vec<GenericArg> = Vec::new();
    let mut i: usize = 0;
    while i < v.len()
        invariant
            i <= v.len(),
            out.len() == i,
            forall|j: int|
                0 <= j < i ==> generic_arg_view(&out[j]) == arg_replaced(
                    generic_arg_view(&v[j]),
                    name@,
                ),
        decreases v.len() - i,
    {
        let a = match &v[i] {
            GenericArg::Type { ty } => GenericArg::Type { ty: replace_self(ty, name) },
            GenericArg::AssocType { ident, ty } => GenericArg::AssocType {
                ident: ident.clone(),
                ty: replace_self(ty, name),
            },
            other => other.duplicate(),
        };
        out.push(a);
        i += 1;
    }
    assert(generic_args_view(&out) =~= args_replaced(generic_args_view(v), name@));
    out
}

/// A trait bound whose path ends in `Future`.
pub open spec fn is_future_bound(b: TypeBoundV) -> bool {
    &&& b matches TypeBoundV::Trait { path }
    &&& path.segments.len() > 0
    &&& path.segments.last().ident == "Future"@
}

/// The index of the first `Future` bound at or after `i`.
pub open spec fn first_future_from(b: Seq<TypeBoundV>, i: int) -> Option<int>
    decreases b.len() - i,
{
    if i < 0 || i >= b.len() {
        None
    } else if is_future_bound(b[i]) {
        Some(i)
    } else {
        first_future_from(b, i + 1)
    }
}

/// The type bound to `Output` first among `args`.
pub open spec fn output_binding_from(args: Seq<GenericArgV>, i: int) -> Option<TypeExprV>
    decreases args.len() - i,
{
    if i < 0 || i >= args.len() {
        None
    } else {
        match args[i] {
            GenericArgV::AssocType { ident, ty } => if ident == "Output"@ {
                Some(ty)
            } else {
                output_binding_from(args, i + 1)
            },
            _ => output_binding_from(args, i + 1),
        }
    }
}

/// `T` where `out` is `impl Future<Output = T> + ...`, judged by the first
/// `Future` bound alone.
pub open spec fn future_output(out: Option<TypeExprV>) -> Option<TypeExprV> {
    match out {
        Some(TypeExprV::ImplTrait { bounds }) => match first_future_from(bounds, 0) {
            Some(k) => match bounds[k] {
                TypeBoundV::Trait { path } => match path.segments.last().args {
                    PathArgsV::Angle { args } => output_binding_from(args, 0),
                    _ => None,
                },
                _ => None,
            },
            None => None,
        },
        _ => None,
    }
}

fn find_future_bound(bounds: &Vec<TypeBound>) -> (r: Option<usize>)
    ensures
        r matches Some(k) ==> k < bounds.len() && is_future_bound(bound_view(&bounds[k as int])),
        (match r {
            Some(k) => Some(k as int),
            None => None,
        }) == first_future_from(bounds_view(bounds), 0),
{
    let ghost bv = bounds_view(bounds);
    let mut i: usize = 0;
    while i < bounds.len()
        invariant
            i <= bounds.len(),
            bv == bounds_view(bounds),
            first_future_from(bv, 0) == first_future_from(bv, i as int),
        decreases bounds.len() - i,
    {
        assert(bv[i as int] == bound_view(&bounds[i as int]));
        if let TypeBound::Trait { path } = &bounds[i] {
            let n = path.segments.len();
            if n > 0 && text_is(&path.segments[n - 1].ident, "Future") {
                return Some(i);
            }
        }
        i += 1;
    }
    None
}

fn find_output_binding(args: &Vec<GenericArg>) -> (r: Option<TypeExpr>)
    ensures
        opt_type_view(&r) == output_binding_from(generic_args_view(args), 0),
{
    let ghost av = generic_args_view(args);
    let mut i: usize = 0;
    while i < args.len()
        invariant
            i <= args.len(),
            av == generic_args_view(args),
            output_binding_from(av, 0) == output_binding_from(av, i as int),
        decreases args.len() - i,
    {
        assert(av[i as int] == generic_arg_view(&args[i as int]));
        if let GenericArg::AssocType { ident, ty } = &args[i] {
            if text_is(ident, "Output") {
                return Some(ty.duplicate());
            }
        }
        i += 1;
    }
    None
}

/// Splits `impl Future<Output = T>` into `T`, reporting whether it did.
pub fn extract_future_output(output: &Option<TypeExpr>) -> (r: (bool, Option<TypeExpr>))
    ensures
        r.0 == future_output(opt_type_view(output)) is Some,
        opt_type_view(&r.1) == (match future_output(opt_type_view(output)) {
            Some(t) => Some(t),
            None => opt_type_view(output),
        }),
{
    let found = match output {
        Some(TypeExpr::ImplTrait { bounds }) => match find_future_bound(bounds) {
            Some(k) => match &bounds[k] {
                TypeBound::Trait { path } => {
                    let n = path.segments.len();
                    assert(bounds_view(bounds)[k as int] == bound_view(&bounds[k as int]));
                    assert(path_view(path).segments[n - 1] == segment_view(&path.segments[n - 1]));
                    match &path.segments[n - 1].args {
                        PathArgs::Angle { args } => find_output_binding(args),
                        _ => None,
                    }
                },
                _ => None,
            },
            None => None,
        },
        _ => None,
    };
    match found {
        Some(t) => (true, Some(t)),
        None => {
            let same = match output {
                Some(t) => Some(t.duplicate()),
                None => None,
            };
            (false, same)
        },
    }
}

/// The attributes carried onto generated code: conditional compilation
/// always, documentation only where `include_doc` holds.
pub open spec fn attr_allowed(name: Seq<char>, include_doc: bool) -> bool {
    name == "cfg"@ || name == "cfg_attr"@ || (include_doc && name == "doc"@)
}

pub fn is_attr_allowed(attr: &Attr, include_doc: bool) -> (r: bool)
    ensures
        r == attr_allowed(attr.name@, include_doc),
{
    text_is(&attr.name, "cfg") || text_is(&attr.name, "cfg_attr") || (include_doc && text_is(
        &attr.name,
        "doc",
    ))
}

/// The texts of the attributes of `attrs` that `attr_allowed` keeps, in order.
pub open spec fn kept_attrs(attrs: Seq<Attr>, include_doc: bool) -> Seq<Seq<char>>
    decreases attrs.len(),
{
    if attrs.len() == 0 {
        Seq::empty()
    } else {
        let rest = kept_attrs(attrs.drop_last(), include_doc);
        if attr_allowed(attrs.last().name@, include_doc) {
            rest.push(attrs.last().text@)
        } else {
            rest
        }
    }
}

pub fn filter_attrs(attrs: &Vec<Attr>, include_doc: bool) -> (r: Vec<String>)
    ensures
        r@.map_values(|s: String| s@) == kept_attrs(attrs@, include_doc),
{
    let mut out: Vec<String> = Vec::new();
    let mut i: usize = 0;
    while i < attrs.len()
        invariant
            i <= attrs.len(),
            out@.map_values(|s: String| s@) == kept_attrs(attrs@.subrange(0, i as int), include_doc),
        decreases attrs.len() - i,
    {
        assert(attrs@.subrange(0, i + 1).drop_last() =~= attrs@.subrange(0, i as int));
        if is_attr_allowed(&attrs[i], include_doc) {
            out.push(attrs[i].text.clone());
        }
        i += 1;
        assert(out@.map_values(|s: String| s@) =~= kept_attrs(attrs@.subrange(0, i as int), include_doc));
    }
    assert(attrs@.subrange(0, i as int) =~= attrs@);
    out
}

pub open spec fn where_preds(w: Option<Seq<WherePredV>>) -> Seq<WherePredV> {
    match w {
        Some(p) => p,
        None => Seq::empty(),
    }
}

/// The enum's predicates, then the trait's, then the bounds on each variant;
/// no clause at all where all three are absent.
pub open spec fn combined_where(
    enum_where: Option<Seq<WherePredV>>,
    trait_where: Option<Seq<WherePredV>>,
    variant_bounds: Seq<WherePredV>,
) -> Option<Seq<WherePredV>> {
    if enum_where is None && trait_where is None && variant_bounds.len() == 0 {
        None
    } else {
        Some(where_preds(enum_where) + where_preds(trait_where) + variant_bounds)
    }
}

fn append_preds(out: &mut Vec<WherePred>, src: &Vec<WherePred>)
    ensures
        preds_view(final(out)) == preds_view(old(out)) + preds_view(src),
{
    let ghost start = preds_view(out);
    let mut i: usize = 0;
    while i < src.len()
        invariant
            i <= src.len(),
            preds_view(out) == start + preds_view(src).subrange(0, i as int),
        decreases src.len() - i,
    {
        let ghost prev = out@;
        let p = src[i].duplicate();
        out.push(p);
        assert(out@ == prev.push(p));
        assert(preds_view(out) =~= prev.map_values(|q: WherePred| q@).push(p@));
        i += 1;
        assert(preds_view(out) =~= start + preds_view(src).subrange(0, i as int));
    }
    assert(preds_view(src).subrange(0, i as int) =~= preds_view(src));
}

pub fn build_where_clause(
    enum_where: &Option<Vec<WherePred>>,
    trait_where: &Option<Vec<WherePred>>,
    variant_bounds: &Vec<WherePred>,
) -> (r: Option<Vec<WherePred>>)
    ensures
        where_view(&r) == combined_where(
            where_view(enum_where),
            where_view(trait_where),
            preds_view(variant_bounds),
        ),
{
    if enum_where.is_none() && trait_where.is_none() && variant_bounds.len() == 0 {
        return None;
    }
    let mut combined: Vec<WherePred> = Vec::new();
    if let Some(e) = enum_where {
        append_preds(&mut combined, e);
    }
    if let Some(t) = trait_where {
        append_preds(&mut combined, t);
    }
    append_preds(&mut combined, variant_bounds);
    assert(preds_view(&combined) =~= where_preds(where_view(enum_where)) + where_preds(
        where_view(trait_where),
    ) + preds_view(variant_bounds));
    Some(combined)
}

} // verus!
