//! The dispatchers: for each trait method, one method on the enum that
//! matches on the variant and forwards the call to the payload.
use vstd::prelude::*;
use crate::diagnostic::{Diagnostic, DiagnosticKind, DiagnosticV, diag};
use crate::normalize::{
    combined_where, extract_future_output, filter_attrs, future_output, kept_attrs,
    build_where_clause, is_wrapped_self, replace_self, self_replaced, text_is, wraps_self,
};
use crate::syntax::{
    Attr, FnArg, FnArgV, GenericParam, GenericParamV, Generics, GenericsV, MethodSig, MethodSigV,
    Pat, PatV, TraitDecl, TraitItem, TypeExprV, TypePath, Variant,
    VariantFields, WherePred, WherePredV, EnumDecl, inputs_view, params_view,
    preds_view, type_view, where_view,
};

verus! {

/// The trait that the dispatchers call into.
pub enum TraitTarget {
    /// The trait declared beside the enum, by its name.
    Local { name: String },
    /// A trait declared elsewhere, by its path.
    Remote { path: TypePath },
}

/// One arm of a dispatcher's match: the variant it matches, under the
/// variant's own conditional-compilation attributes.
pub struct Arm {
    pub attrs: Vec<String>,
    pub variant: String,
}

/// A dispatcher: `sig` with a body that matches on `self`, binds the payload
/// of each variant as the reserved binding, and calls the trait method on it
/// with `args`, awaiting the call where `awaits` holds.
pub struct Dispatch {
    pub attrs: Vec<String>,
    pub inline: bool,
    pub public: bool,
    pub sig: MethodSig,
    pub args: Vec<Pat>,
    pub awaits: bool,
    pub arms: Vec<Arm>,
}

/// The generated block: inherent methods on the enum, or an impl of the
/// target trait for it.
pub struct ForwardImpl {
    pub inherent: bool,
    pub target: TraitTarget,
    pub where_clause: Option<Vec<WherePred>>,
    pub methods: Vec<Dispatch>,
}

pub open spec fn strings_view(v: &Vec<String>) -> Seq<Seq<char>> {
    v@.map_values(|s: String| s@)
}

pub open spec fn pats_view(v: &Vec<Pat>) -> Seq<PatV> {
    v@.map_values(|p: Pat| p@)
}

/// The identifier that each arm binds its payload to.
pub open spec fn reserved_binding() -> Seq<char> {
    "__disponent_inner"@
}

/// A first input whose type wraps `Self`, such as `self: Box<Self>`.
pub open spec fn self_type_error(inputs: Seq<FnArgV>) -> Option<DiagnosticV> {
    if inputs.len() == 0 {
        None
    } else {
        match inputs[0] {
            FnArgV::Receiver { receiver } => if wraps_self(receiver.ty) {
                Some(diag(DiagnosticKind::WrappedSelf, receiver.span))
            } else {
                None
            },
            FnArgV::Typed { ty, span, .. } => if wraps_self(ty) {
                Some(diag(DiagnosticKind::WrappedSelf, span))
            } else {
                None
            },
        }
    }
}

pub open spec fn declares_name(params: Seq<GenericParamV>, name: Seq<char>) -> bool {
    exists|j: int| 0 <= j < params.len() && params[j].name == name
}

/// The first of the method's own generic parameters, at or after `i`, whose
/// name the trait's parameters also use.
pub open spec fn first_clash_from(
    own: Seq<GenericParamV>,
    of_trait: Seq<GenericParamV>,
    i: int,
) -> Option<int>
    decreases own.len() - i,
{
    if i < 0 || i >= own.len() {
        None
    } else if declares_name(of_trait, own[i].name) {
        Some(i)
    } else {
        first_clash_from(own, of_trait, i + 1)
    }
}

pub open spec fn uses_reserved(a: FnArgV) -> bool {
    a matches FnArgV::Typed { pat, .. } && pat.ident == Some(reserved_binding())
}

/// The first input at or after `i` that binds the reserved identifier.
pub open spec fn first_reserved_from(inputs: Seq<FnArgV>, i: int) -> Option<int>
    decreases inputs.len() - i,
{
    if i < 0 || i >= inputs.len() {
        None
    } else if uses_reserved(inputs[i]) {
        Some(i)
    } else {
        first_reserved_from(inputs, i + 1)
    }
}

/// The trait's generics and the per-variant bounds, where the trait's
/// parameters are folded into each method.
pub type MergeV = Option<(GenericsV, Seq<WherePredV>)>;

/// The first problem with one method, in the order in which they are looked for.
pub open spec fn method_error(sig: MethodSigV, merge: MergeV) -> Option<DiagnosticV> {
    if self_type_error(sig.inputs) is Some {
        self_type_error(sig.inputs)
    } else if merge is Some && first_clash_from(
        sig.generics.params,
        merge.unwrap().0.params,
        0,
    ) is Some {
        let p = sig.generics.params[first_clash_from(
            sig.generics.params,
            merge.unwrap().0.params,
            0,
        ).unwrap()];
        Some(DiagnosticV { kind: DiagnosticKind::GenericClash, span: p.span, name: p.name })
    } else if first_reserved_from(sig.inputs, 1) is Some {
        match sig.inputs[first_reserved_from(sig.inputs, 1).unwrap()] {
            FnArgV::Typed { pat, .. } => Some(diag(DiagnosticKind::ReservedName, pat.span)),
            _ => None,
        }
    } else {
        None
    }
}

/// The trait's parameters first, then the method's own; the where clauses
/// combined with the per-variant bounds.
pub open spec fn merged_generics(
    own: GenericsV,
    of_trait: GenericsV,
    bounds: Seq<WherePredV>,
) -> GenericsV {
    GenericsV {
        params: of_trait.params + own.params,
        where_clause: combined_where(own.where_clause, of_trait.where_clause, bounds),
    }
}

pub open spec fn input_replaced(a: FnArgV, name: Seq<char>) -> FnArgV {
    match a {
        FnArgV::Typed { pat, ty, span } => FnArgV::Typed { pat, ty: self_replaced(ty, name), span },
        other => other,
    }
}

/// The inputs after the first, with `Self` replaced in their types.
pub open spec fn inputs_replaced(inputs: Seq<FnArgV>, name: Seq<char>) -> Seq<FnArgV> {
    Seq::new(
        inputs.len(),
        |i: int|
            if i == 0 {
                inputs[i]
            } else {
                input_replaced(inputs[i], name)
            },
    )
}

/// The return type once `impl Future<Output = T>` is read as `T`, with `Self` replaced.
pub open spec fn canonical_output(out: Option<TypeExprV>, name: Seq<char>) -> Option<TypeExprV> {
    let flat = match future_output(out) {
        Some(t) => Some(t),
        None => out,
    };
    match flat {
        Some(t) => Some(self_replaced(t, name)),
        None => None,
    }
}

/// The signature of the dispatcher built from `sig` for the enum `name`.
pub open spec fn canonical_sig(sig: MethodSigV, name: Seq<char>, merge: MergeV) -> MethodSigV {
    MethodSigV {
        is_async: sig.is_async || future_output(sig.output) is Some,
        name: sig.name,
        generics: match merge {
            Some(m) => merged_generics(sig.generics, m.0, m.1),
            None => sig.generics,
        },
        inputs: inputs_replaced(sig.inputs, name),
        output: canonical_output(sig.output, name),
    }
}

/// The patterns of the typed inputs, in order.
pub open spec fn typed_pats(inputs: Seq<FnArgV>) -> Seq<PatV>
    decreases inputs.len(),
{
    if inputs.len() == 0 {
        Seq::empty()
    } else {
        let rest = typed_pats(inputs.drop_last());
        match inputs.last() {
            FnArgV::Typed { pat, .. } => rest.push(pat),
            _ => rest,
        }
    }
}

/// What a dispatcher passes on: every input after the first.
pub open spec fn forwarded_args(inputs: Seq<FnArgV>) -> Seq<PatV> {
    if inputs.len() == 0 {
        Seq::empty()
    } else {
        typed_pats(inputs.subrange(1, inputs.len() as int))
    }
}

pub open spec fn arm_for(a: Arm, v: Variant) -> bool {
    &&& a.variant@ == v.name@
    &&& strings_view(&a.attrs) == kept_attrs(v.attrs@, false)
}

/// One arm for each variant, in the variants' order.
pub open spec fn arms_for(arms: Seq<Arm>, variants: Seq<Variant>) -> bool {
    &&& arms.len() == variants.len()
    &&& forall|i: int| 0 <= i < arms.len() ==> arm_for(#[trigger] arms[i], variants[i])
}

/// `d` is the dispatcher for the method with `attrs` and `sig`.
pub open spec fn dispatches(
    d: Dispatch,
    attrs: Seq<Attr>,
    sig: MethodSigV,
    inherent: bool,
    inline: bool,
    enum_name: Seq<char>,
    variants: Seq<Variant>,
    merge: MergeV,
) -> bool {
    &&& strings_view(&d.attrs) == kept_attrs(attrs, true)
    &&& d.inline == inline
    &&& d.public == inherent
    &&& d.sig@ == canonical_sig(sig, enum_name, merge)
    &&& pats_view(&d.args) == forwarded_args(sig.inputs)
    &&& d.awaits == d.sig.is_async
    &&& arms_for(d.arms@, variants)
}

pub open spec fn merge_of(merge: bool, of_trait: &Generics, bounds: &Vec<WherePred>) -> MergeV {
    if merge {
        Some((of_trait@, preds_view(bounds)))
    } else {
        None
    }
}

fn self_type_check(inputs: &Vec<FnArg>) -> (r: Option<Diagnostic>)
    ensures
        match r {
            Some(d) => self_type_error(inputs_view(inputs)) == Some(d@),
            None => self_type_error(inputs_view(inputs)) is None,
        },
{
    if inputs.len() == 0 {
        return None;
    }
    match &inputs[0] {
        FnArg::Receiver { receiver } => if is_wrapped_self(&receiver.ty) {
            Some(Diagnostic::new(DiagnosticKind::WrappedSelf, receiver.span))
        } else {
            None
        },
        FnArg::Typed { ty, span, .. } => if is_wrapped_self(ty) {
            Some(Diagnostic::new(DiagnosticKind::WrappedSelf, *span))
        } else {
            None
        },
    }
}

fn find_clash(own: &Vec<GenericParam>, of_trait: &Vec<GenericParam>) -> (r: Option<usize>)
    ensures
        (match r {
            Some(k) => Some(k as int),
            None => None,
        }) == first_clash_from(params_view(own), params_view(of_trait), 0),
        r matches Some(k) ==> k < own.len(),
{
    let ghost ov = params_view(own);
    let ghost tv = params_view(of_trait);
    let mut i: usize = 0;
    while i < own.len()
        invariant
            i <= own.len(),
            ov == params_view(own),
            tv == params_view(of_trait),
            first_clash_from(ov, tv, 0) == first_clash_from(ov, tv, i as int),
        decreases own.len() - i,
    {
        let mut j: usize = 0;
        while j < of_trait.len()
            invariant
                i < own.len(),
                j <= of_trait.len(),
                ov == params_view(own),
                tv == params_view(of_trait),
                forall|q: int| 0 <= q < j ==> tv[q].name != ov[i as int].name,
                first_clash_from(ov, tv, 0) == first_clash_from(ov, tv, i as int),
            decreases of_trait.len() - j,
        {
            if of_trait[j].name == own[i].name {
                assert(tv[j as int] == of_trait@[j as int]@);
                assert(ov[i as int] == own@[i as int]@);
                assert(declares_name(tv, ov[i as int].name));
                return Some(i);
            }
            assert(tv[j as int] == of_trait@[j as int]@);
            assert(ov[i as int] == own@[i as int]@);
            j += 1;
        }
        assert(!declares_name(tv, ov[i as int].name));
        i += 1;
    }
    None
}

fn find_reserved(inputs: &Vec<FnArg>) -> (r: Option<usize>)
    ensures
        (match r {
            Some(k) => Some(k as int),
            None => None,
        }) == first_reserved_from(inputs_view(inputs), 1),
        r matches Some(k) ==> 1 <= k < inputs.len(),
{
    let ghost iv = inputs_view(inputs);
    if inputs.len() == 0 {
        return None;
    }
    let mut i: usize = 1;
    while i < inputs.len()
        invariant
            1 <= i <= inputs.len(),
            iv == inputs_view(inputs),
            first_reserved_from(iv, 1) == first_reserved_from(iv, i as int),
        decreases inputs.len() - i,
    {
        if let FnArg::Typed { pat, .. } = &inputs[i] {
            if let Some(id) = &pat.ident {
                if text_is(id, "__disponent_inner") {
                    return Some(i);
                }
            }
        }
        i += 1;
    }
    None
}

fn concat_params(first: &Vec<GenericParam>, second: &Vec<GenericParam>) -> (r: Vec<GenericParam>)
    ensures
        params_view(&r) == params_view(first) + params_view(second),
{
    let mut out: Vec<GenericParam> = Vec::new();
    let mut i: usize = 0;
    while i < first.len()
        invariant
            i <= first.len(),
            params_view(&out) == params_view(first).subrange(0, i as int),
        decreases first.len() - i,
    {
        let ghost prev = out@;
        let p = first[i].duplicate();
        out.push(p);
        assert(params_view(&out) =~= prev.map_values(|q: GenericParam| q@).push(p@));
        i += 1;
        assert(params_view(&out) =~= params_view(first).subrange(0, i as int));
    }
    let mut k: usize = 0;
    while k < second.len()
        invariant
            k <= second.len(),
            params_view(&out) == params_view(first) + params_view(second).subrange(0, k as int),
        decreases second.len() - k,
    {
        let ghost prev = out@;
        let p = second[k].duplicate();
        out.push(p);
        assert(params_view(&out) =~= prev.map_values(|q: GenericParam| q@).push(p@));
        k += 1;
        assert(params_view(&out) =~= params_view(first) + params_view(second).subrange(
            0,
            k as int,
        ));
    }
    assert(params_view(second).subrange(0, k as int) =~= params_view(second));
    assert(params_view(first).subrange(0, i as int) =~= params_view(first));
    out
}

fn substitute_inputs(inputs: &Vec<FnArg>, name: &String) -> (r: Vec<FnArg>)
    ensures
        inputs_view(&r) == inputs_replaced(inputs_view(inputs), name@),
{
    let ghost iv = inputs_view(inputs);
    let mut out: Vec<FnArg> = Vec::new();
    let mut i: usize = 0;
    while i < inputs.len()
        invariant
            i <= inputs.len(),
            iv == inputs_view(inputs),
            inputs_view(&out) == inputs_replaced(iv, name@).subrange(0, i as int),
        decreases inputs.len() - i,
    {
        let a = if i == 0 {
            inputs[i].duplicate()
        } else {
            match &inputs[i] {
                FnArg::Typed { pat, ty, span } => FnArg::Typed {
                    pat: pat.duplicate(),
                    ty: replace_self(ty, name),
                    span: *span,
                },
                other => other.duplicate(),
            }
        };
        let ghost prev = out@;
        out.push(a);
        assert(inputs_view(&out) =~= prev.map_values(|q: FnArg| q@).push(a@));
        i += 1;
        assert(inputs_view(&out) =~= inputs_replaced(iv, name@).subrange(0, i as int));
    }
    assert(inputs_replaced(iv, name@).subrange(0, i as int) =~= inputs_replaced(iv, name@));
    out
}

fn collect_args(inputs: &Vec<FnArg>) -> (r: Vec<Pat>)
    ensures
        pats_view(&r) == forwarded_args(inputs_view(inputs)),
{
    let ghost iv = inputs_view(inputs);
    let mut out: Vec<Pat> = Vec::new();
    if inputs.len() == 0 {
        assert(pats_view(&out) =~= Seq::<PatV>::empty());
        return out;
    }
    let mut i: usize = 1;
    assert(iv.subrange(1, 1) =~= Seq::<FnArgV>::empty());
    assert(pats_view(&out) =~= Seq::<PatV>::empty());
    while i < inputs.len()
        invariant
            1 <= i <= inputs.len(),
            iv == inputs_view(inputs),
            pats_view(&out) == typed_pats(iv.subrange(1, i as int)),
        decreases inputs.len() - i,
    {
        assert(iv.subrange(1, i + 1).drop_last() =~= iv.subrange(1, i as int));
        assert(iv.subrange(1, i + 1).last() == inputs[i as int]@);
        if let FnArg::Typed { pat, .. } = &inputs[i] {
            let ghost prev = out@;
            let p = pat.duplicate();
            out.push(p);
            assert(pats_view(&out) =~= prev.map_values(|q: Pat| q@).push(p@));
        }
        i += 1;
    }
    out
}

fn build_arms(variants: &Vec<Variant>) -> (r: Vec<Arm>)
    ensures
        arms_for(r@, variants@),
{
    let mut out: Vec<Arm> = Vec::new();
    let mut i: usize = 0;
    while i < variants.len()
        invariant
            i <= variants.len(),
            out.len() == i,
            forall|j: int| 0 <= j < i ==> arm_for(#[trigger] out@[j], variants@[j]),
        decreases variants.len() - i,
    {
        let attrs = filter_attrs(&variants[i].attrs, false);
        out.push(Arm { attrs, variant: variants[i].name.clone() });
        i += 1;
    }
    out
}

/// Builds the dispatcher for one trait method, or reports the first problem
/// with it: a wrapped `Self` receiver, then (where the trait's generics are
/// folded in) a generic parameter that the trait also declares, then an
/// input that binds the reserved identifier.
pub fn generate_method(
    inherent: bool,
    inline: bool,
    attrs: &Vec<Attr>,
    sig: &MethodSig,
    enum_name: &String,
    variants: &Vec<Variant>,
    merge: bool,
    of_trait: &Generics,
    variant_bounds: &Vec<WherePred>,
) -> (r: Result<Dispatch, Diagnostic>)
    ensures
        match r {
            Err(d) => method_error(sig@, merge_of(merge, of_trait, variant_bounds)) == Some(d@),
            Ok(d) => method_error(sig@, merge_of(merge, of_trait, variant_bounds)) is None
                && dispatches(
                d,
                attrs@,
                sig@,
                inherent,
                inline,
                enum_name@,
                variants@,
                merge_of(merge, of_trait, variant_bounds),
            ),
        },
{
    let ghost mv = merge_of(merge, of_trait, variant_bounds);
    if let Some(d) = self_type_check(&sig.inputs) {
        return Err(d);
    }
    let (is_impl_future, ret) = extract_future_output(&sig.output);
    let is_async = is_impl_future || sig.is_async;

    let generics = if merge {
        if let Some(k) = find_clash(&sig.generics.params, &of_trait.params) {
            let p = &sig.generics.params[k];
            return Err(
                Diagnostic { kind: DiagnosticKind::GenericClash, span: p.span, name: p.name.clone() },
            );
        }
        let params = concat_params(&of_trait.params, &sig.generics.params);
        let where_clause = build_where_clause(
            &sig.generics.where_clause,
            &of_trait.where_clause,
            variant_bounds,
        );
        Generics { params, where_clause }
    } else {
        sig.generics.duplicate()
    };

    let inputs = substitute_inputs(&sig.inputs, enum_name);
    let output = match &ret {
        Some(t) => Some(replace_self(t, enum_name)),
        None => None,
    };

    if let Some(k) = find_reserved(&sig.inputs) {
        match &sig.inputs[k] {
            FnArg::Typed { pat, .. } => {
                return Err(Diagnostic::new(DiagnosticKind::ReservedName, pat.span));
            },
            _ => {},
        }
    }
    let new_sig = MethodSig {
        is_async,
        name: sig.name.clone(),
        generics,
        inputs,
        output,
    };
    assert(new_sig@ == canonical_sig(sig@, enum_name@, mv));
    Ok(
        Dispatch {
            attrs: filter_attrs(attrs, true),
            inline,
            public: inherent,
            sig: new_sig,
            args: collect_args(&sig.inputs),
            awaits: is_async,
            arms: build_arms(variants),
        },
    )
}

pub open spec fn is_newtype(v: Variant) -> bool {
    v.fields matches VariantFields::Unnamed { types } && types.len() == 1
}

/// The type that a newtype variant wraps.
pub open spec fn payload_type(v: Variant) -> TypeExprV {
    match v.fields {
        VariantFields::Unnamed { types } => type_view(&types[0]),
        _ => TypeExprV::Verbatim { text: Seq::empty() },
    }
}

/// The first associated type or constant among the trait's items, at or after `i`.
pub open spec fn assoc_error_from(items: Seq<TraitItem>, i: int) -> Option<DiagnosticV>
    decreases items.len() - i,
{
    if i < 0 || i >= items.len() {
        None
    } else {
        match items[i] {
            TraitItem::AssocType { span } => Some(diag(DiagnosticKind::AssociatedType, span)),
            TraitItem::AssocConst { span } => Some(diag(DiagnosticKind::AssociatedConst, span)),
            _ => assoc_error_from(items, i + 1),
        }
    }
}

/// The first problem with the shape of the two declarations.
pub open spec fn shape_error(e: EnumDecl, t: TraitDecl) -> Option<DiagnosticV> {
    if e.generics.params.len() > 0 && t.generics.params.len() > 0 {
        Some(diag(DiagnosticKind::CombinedGenerics, e.generics_span))
    } else if assoc_error_from(t.items@, 0) is Some {
        assoc_error_from(t.items@, 0)
    } else if exists|i: int| 0 <= i < e.variants.len() && !is_newtype(#[trigger] e.variants@[i]) {
        Some(diag(DiagnosticKind::NotNewtype, e.span))
    } else {
        None
    }
}

/// For a generic trait, that each variant's payload implements it.
pub open spec fn variant_bounds(e: EnumDecl, t: TraitDecl) -> Seq<WherePredV> {
    if t.generics.params.len() > 0 {
        Seq::new(
            e.variants.len() as nat,
            |i: int| WherePredV::Implements { ty: payload_type(e.variants@[i]) },
        )
    } else {
        Seq::empty()
    }
}

/// Inherent methods of a generic trait take the trait's parameters as their own.
pub open spec fn merge_for(inherent: bool, e: EnumDecl, t: TraitDecl) -> MergeV {
    if inherent && t.generics.params.len() > 0 {
        Some((t.generics@, variant_bounds(e, t)))
    } else {
        None
    }
}

/// The first problem with a method among the items at or after `i`.
pub open spec fn method_error_from(items: Seq<TraitItem>, i: int, merge: MergeV) -> Option<
    DiagnosticV,
>
    decreases items.len() - i,
{
    if i < 0 || i >= items.len() {
        None
    } else {
        match items[i] {
            TraitItem::Method { sig, .. } => if method_error(sig@, merge) is Some {
                method_error(sig@, merge)
            } else {
                method_error_from(items, i + 1, merge)
            },
            _ => method_error_from(items, i + 1, merge),
        }
    }
}

/// The first problem, if any, that stops dispatch code being generated.
pub open spec fn forward_error(inherent: bool, e: EnumDecl, t: TraitDecl) -> Option<DiagnosticV> {
    if shape_error(e, t) is Some {
        shape_error(e, t)
    } else {
        method_error_from(t.items@, 0, merge_for(inherent, e, t))
    }
}

/// The methods among the trait's items, in order.
pub open spec fn method_items(items: Seq<TraitItem>) -> Seq<TraitItem>
    decreases items.len(),
{
    if items.len() == 0 {
        Seq::empty()
    } else {
        let rest = method_items(items.drop_last());
        if items.last() is Method {
            rest.push(items.last())
        } else {
            rest
        }
    }
}

/// `d` is the dispatcher for the trait item `item`.
pub open spec fn dispatches_item(
    d: Dispatch,
    item: TraitItem,
    inherent: bool,
    inline: bool,
    e: EnumDecl,
    merge: MergeV,
) -> bool {
    match item {
        TraitItem::Method { attrs, sig, .. } => dispatches(
            d,
            attrs@,
            sig@,
            inherent,
            inline,
            e.name@,
            e.variants@,
            merge,
        ),
        _ => false,
    }
}

/// The where clause of the generated block.
pub open spec fn impl_where(inherent: bool, e: EnumDecl, t: TraitDecl) -> Option<Seq<WherePredV>> {
    if inherent {
        combined_where(where_view(&e.generics.where_clause), None, Seq::empty())
    } else {
        combined_where(
            where_view(&e.generics.where_clause),
            where_view(&t.generics.where_clause),
            variant_bounds(e, t),
        )
    }
}

/// `f` holds, for the enum `e` and the trait `t`, one dispatcher per trait
/// method in the trait's order, under the where clause that the mode calls for.
pub open spec fn forwards(f: ForwardImpl, inherent: bool, inline: bool, e: EnumDecl, t: TraitDecl) -> bool {
    &&& f.inherent == inherent
    &&& where_view(&f.where_clause) == impl_where(inherent, e, t)
    &&& f.methods.len() == method_items(t.items@).len()
    &&& forall|k: int|
        0 <= k < f.methods.len() ==> dispatches_item(
            #[trigger] f.methods@[k],
            method_items(t.items@)[k],
            inherent,
            inline,
            e,
            merge_for(inherent, e, t),
        )
}

fn find_assoc_item(items: &Vec<TraitItem>) -> (r: Option<Diagnostic>)
    ensures
        match r {
            Some(d) => assoc_error_from(items@, 0) == Some(d@),
            None => assoc_error_from(items@, 0) is None,
        },
{
    let mut i: usize = 0;
    while i < items.len()
        invariant
            i <= items.len(),
            assoc_error_from(items@, 0) == assoc_error_from(items@, i as int),
        decreases items.len() - i,
    {
        match &items[i] {
            TraitItem::AssocType { span } => {
                return Some(Diagnostic::new(DiagnosticKind::AssociatedType, *span));
            },
            TraitItem::AssocConst { span } => {
                return Some(Diagnostic::new(DiagnosticKind::AssociatedConst, *span));
            },
            _ => {},
        }
        i += 1;
    }
    None
}

pub fn all_newtype(variants: &Vec<Variant>) -> (r: bool)
    ensures
        r == forall|i: int| 0 <= i < variants.len() ==> is_newtype(#[trigger] variants@[i]),
{
    let mut i: usize = 0;
    while i < variants.len()
        invariant
            i <= variants.len(),
            forall|j: int| 0 <= j < i ==> is_newtype(#[trigger] variants@[j]),
        decreases variants.len() - i,
    {
        match &variants[i].fields {
            VariantFields::Unnamed { types } => {
                if types.len() != 1 {
                    return false;
                }
            },
            _ => {
                return false;
            },
        }
        i += 1;
    }
    true
}

fn payload_bounds(variants: &Vec<Variant>) -> (r: Vec<WherePred>)
    requires
        forall|i: int| 0 <= i < variants.len() ==> is_newtype(#[trigger] variants@[i]),
    ensures
        preds_view(&r) == Seq::new(
            variants.len() as nat,
            |i: int| WherePredV::Implements { ty: payload_type(variants@[i]) },
        ),
{
    let ghost want = Seq::new(
        variants.len() as nat,
        |i: int| WherePredV::Implements { ty: payload_type(variants@[i]) },
    );
    let mut out: Vec<WherePred> = Vec::new();
    let mut i: usize = 0;
    while i < variants.len()
        invariant
            i <= variants.len(),
            forall|i: int| 0 <= i < variants.len() ==> is_newtype(#[trigger] variants@[i]),
            want == Seq::new(
                variants.len() as nat,
                |i: int| WherePredV::Implements { ty: payload_type(variants@[i]) },
            ),
            preds_view(&out) == want.subrange(0, i as int),
        decreases variants.len() - i,
    {
        assert(is_newtype(variants@[i as int]));
        match &variants[i].fields {
            VariantFields::Unnamed { types } => {
                let p = WherePred::Implements { ty: types[0].duplicate() };
                let ghost prev = out@;
                out.push(p);
                assert(preds_view(&out) =~= prev.map_values(|q: WherePred| q@).push(p@));
            },
            _ => {},
        }
        i += 1;
        assert(preds_view(&out) =~= want.subrange(0, i as int));
    }
    assert(want.subrange(0, i as int) =~= want);
    out
}

/// Checks the two declarations and builds one dispatcher per trait method,
/// or reports the first problem found.
pub fn forward_to_variant(
    inherent: bool,
    inline: bool,
    enum_def: &EnumDecl,
    trait_def: &TraitDecl,
    target: TraitTarget,
) -> (r: Result<ForwardImpl, Diagnostic>)
    ensures
        match r {
            Err(d) => forward_error(inherent, *enum_def, *trait_def) == Some(d@),
            Ok(f) => {
                &&& forward_error(inherent, *enum_def, *trait_def) is None
                &&& f.target == target
                &&& forwards(f, inherent, inline, *enum_def, *trait_def)
            },
        },
{
    if enum_def.generics.params.len() > 0 && trait_def.generics.params.len() > 0 {
        return Err(Diagnostic::new(DiagnosticKind::CombinedGenerics, enum_def.generics_span));
    }
    if let Some(d) = find_assoc_item(&trait_def.items) {
        return Err(d);
    }
    if !all_newtype(&enum_def.variants) {
        return Err(Diagnostic::new(DiagnosticKind::NotNewtype, enum_def.span));
    }
    let generic_trait = trait_def.generics.params.len() > 0;
    let bounds = if generic_trait {
        payload_bounds(&enum_def.variants)
    } else {
        Vec::new()
    };
    assert(preds_view(&bounds) =~= variant_bounds(*enum_def, *trait_def));
    let merge = inherent && generic_trait;
    let ghost mv = merge_for(inherent, *enum_def, *trait_def);
    assert(merge_of(merge, &trait_def.generics, &bounds) == mv);

    let ghost items = trait_def.items@;
    let mut methods: Vec<Dispatch> = Vec::new();
    let mut i: usize = 0;
    while i < trait_def.items.len()
        invariant
            i <= trait_def.items.len(),
            items == trait_def.items@,
            shape_error(*enum_def, *trait_def) is None,
            mv == merge_for(inherent, *enum_def, *trait_def),
            merge_of(merge, &trait_def.generics, &bounds) == mv,
            method_error_from(items, 0, mv) == method_error_from(items, i as int, mv),
            methods.len() == method_items(items.subrange(0, i as int)).len(),
            forall|k: int|
                0 <= k < methods.len() ==> dispatches_item(
                    #[trigger] methods@[k],
                    method_items(items.subrange(0, i as int))[k],
                    inherent,
                    inline,
                    *enum_def,
                    mv,
                ),
        decreases trait_def.items.len() - i,
    {
        assert(items.subrange(0, i + 1).drop_last() =~= items.subrange(0, i as int));
        assert(items.subrange(0, i + 1).last() == items[i as int]);
        match &trait_def.items[i] {
            TraitItem::Method { attrs, sig, .. } => {
                let d = generate_method(
                    inherent,
                    inline,
                    attrs,
                    sig,
                    &enum_def.name,
                    &enum_def.variants,
                    merge,
                    &trait_def.generics,
                    &bounds,
                );
                match d {
                    Ok(d) => {
                        methods.push(d);
                    },
                    Err(d) => {
                        return Err(d);
                    },
                }
            },
            _ => {},
        }
        i += 1;
    }
    assert(items.subrange(0, i as int) =~= items);
    let where_clause = if inherent {
        build_where_clause(&enum_def.generics.where_clause, &None, &Vec::new())
    } else {
        build_where_clause(
            &enum_def.generics.where_clause,
            &trait_def.generics.where_clause,
            &bounds,
        )
    };
    Ok(ForwardImpl { inherent, target, where_clause, methods })
}

impl Dispatch {
    /// The arm that a value of variant `variant` takes: the first whose
    /// variant it is.
    pub fn select(&self, variant: &String) -> (r: Option<usize>)
        ensures
            match r {
                Some(k) => k < self.arms.len() && self.arms@[k as int].variant@ == variant@
                    && forall|j: int| 0 <= j < k ==> self.arms@[j].variant@ != variant@,
                None => forall|j: int| 0 <= j < self.arms.len() ==> self.arms@[j].variant@ != variant@,
            },
    {
        let mut i: usize = 0;
        while i < self.arms.len()
            invariant
                i <= self.arms.len(),
                forall|j: int| 0 <= j < i ==> self.arms@[j].variant@ != variant@,
            decreases self.arms.len() - i,
        {
            if self.arms[i].variant == *variant {
                return Some(i);
            }
            i += 1;
        }
        None
    }
}

/// Every dispatcher has one arm per variant, in the variants' order, under
/// that variant's conditional-compilation attributes; where the variants'
/// names differ, each variant is matched by exactly one arm.
pub proof fn lemma_dispatch_is_exhaustive(
    f: ForwardImpl,
    inherent: bool,
    inline: bool,
    e: EnumDecl,
    t: TraitDecl,
    k: int,
    i: int,
)
    requires
        forwards(f, inherent, inline, e, t),
        0 <= k < f.methods.len(),
        0 <= i < e.variants.len(),
    ensures
        f.methods@[k].arms.len() == e.variants.len(),
        f.methods@[k].arms@[i].variant@ == e.variants@[i].name@,
        strings_view(&f.methods@[k].arms@[i].attrs) == kept_attrs(e.variants@[i].attrs@, false),
        (forall|a: int, b: int|
            0 <= a < b < e.variants.len() ==> e.variants@[a].name@ != e.variants@[b].name@)
            ==> forall|j: int|
            0 <= j < f.methods@[k].arms.len() ==> (f.methods@[k].arms@[j].variant@
                == e.variants@[i].name@ <==> j == i),
{
    let d = f.methods@[k];
    assert(dispatches_item(d, method_items(t.items@)[k], inherent, inline, e, merge_for(inherent, e, t)));
    assert(arm_for(d.arms@[i], e.variants@[i]));
    if forall|a: int, b: int|
        0 <= a < b < e.variants.len() ==> e.variants@[a].name@ != e.variants@[b].name@ {
        assert forall|j: int| 0 <= j < d.arms.len() implies (d.arms@[j].variant@
            == e.variants@[i].name@ <==> j == i) by {
            assert(arm_for(d.arms@[j], e.variants@[j]));
            if j < i {
                assert(e.variants@[j].name@ != e.variants@[i].name@);
            } else if i < j {
                assert(e.variants@[i].name@ != e.variants@[j].name@);
            }
        }
    }
}

/// Each dispatcher takes `self` exactly as the trait method does (by value,
/// by reference or by mutable reference), has as many inputs, and passes on
/// every input after the receiver, in order.
pub proof fn lemma_receiver_kept(
    f: ForwardImpl,
    inherent: bool,
    inline: bool,
    e: EnumDecl,
    t: TraitDecl,
    k: int,
)
    requires
        forwards(f, inherent, inline, e, t),
        0 <= k < f.methods.len(),
    ensures
        method_items(t.items@)[k] matches TraitItem::Method { sig, .. } && {
            &&& f.methods@[k].sig@.inputs.len() == sig@.inputs.len()
            &&& sig@.inputs.len() > 0 ==> f.methods@[k].sig@.inputs[0] == sig@.inputs[0]
            &&& pats_view(&f.methods@[k].args) == forwarded_args(sig@.inputs)
        },
{
    assert(dispatches_item(
        f.methods@[k],
        method_items(t.items@)[k],
        inherent,
        inline,
        e,
        merge_for(inherent, e, t),
    ));
}

/// A method written `async fn m(..) -> T` and one written
/// `fn m(..) -> impl Future<Output = T>` get the same dispatcher signature,
/// which is `async` and returns `T` (with `Self` replaced). `T` must not
/// itself be an `impl Future`, which the `async` form would flatten too.
pub proof fn lemma_async_styles_agree(
    a: MethodSigV,
    b: MethodSigV,
    out: TypeExprV,
    enum_name: Seq<char>,
    merge: MergeV,
)
    requires
        a.is_async,
        a.output == Some(out),
        future_output(Some(out)) is None,
        future_output(b.output) == Some(out),
        a.name == b.name,
        a.generics == b.generics,
        a.inputs == b.inputs,
    ensures
        canonical_sig(a, enum_name, merge) == canonical_sig(b, enum_name, merge),
        canonical_sig(a, enum_name, merge).is_async,
        canonical_sig(a, enum_name, merge).output == Some(self_replaced(out, enum_name)),
{
}

/// The method breaks the rule of `kind`.
pub open spec fn method_violates(kind: DiagnosticKind, sig: MethodSigV, merge: MergeV) -> bool {
    match kind {
        DiagnosticKind::WrappedSelf => self_type_error(sig.inputs) is Some,
        DiagnosticKind::GenericClash => merge is Some && first_clash_from(
            sig.generics.params,
            merge.unwrap().0.params,
            0,
        ) is Some,
        DiagnosticKind::ReservedName => first_reserved_from(sig.inputs, 1) is Some,
        _ => false,
    }
}

/// The enum and the trait, dispatched over as `inherent` says, break the
/// rule of `kind`, whatever else they break.
pub open spec fn violates(kind: DiagnosticKind, inherent: bool, e: EnumDecl, t: TraitDecl) -> bool {
    match kind {
        DiagnosticKind::CombinedGenerics => e.generics.params.len() > 0 && t.generics.params.len()
            > 0,
        DiagnosticKind::AssociatedType => exists|j: int|
            0 <= j < t.items.len() && #[trigger] t.items@[j] is AssocType,
        DiagnosticKind::AssociatedConst => exists|j: int|
            0 <= j < t.items.len() && #[trigger] t.items@[j] is AssocConst,
        DiagnosticKind::NotNewtype => exists|j: int|
            0 <= j < e.variants.len() && !is_newtype(#[trigger] e.variants@[j]),
        DiagnosticKind::WrappedSelf | DiagnosticKind::GenericClash | DiagnosticKind::ReservedName =>
            exists|j: int|
            0 <= j < t.items.len() && (#[trigger] t.items@[j] matches TraitItem::Method { sig, .. }
                && method_violates(kind, sig@, merge_for(inherent, e, t))),
        _ => false,
    }
}

proof fn lemma_assoc_error(items: Seq<TraitItem>, i: int)
    requires
        0 <= i,
    ensures
        assoc_error_from(items, i) is None <==> forall|j: int|
            i <= j < items.len() ==> !(#[trigger] items[j] is AssocType) && !(items[j] is AssocConst),
        assoc_error_from(items, i) matches Some(d) ==> (d.kind == DiagnosticKind::AssociatedType
            && exists|j: int| i <= j < items.len() && #[trigger] items[j] is AssocType) || (d.kind
            == DiagnosticKind::AssociatedConst && exists|j: int|
            i <= j < items.len() && #[trigger] items[j] is AssocConst),
    decreases items.len() - i,
{
    if i < items.len() {
        lemma_assoc_error(items, i + 1);
    }
}

proof fn lemma_reserved_found(inputs: Seq<FnArgV>, i: int)
    ensures
        first_reserved_from(inputs, i) matches Some(k) ==> 0 <= k < inputs.len() && uses_reserved(
            inputs[k],
        ),
    decreases inputs.len() - i,
{
    if 0 <= i < inputs.len() {
        lemma_reserved_found(inputs, i + 1);
    }
}

proof fn lemma_method_error_kind(sig: MethodSigV, merge: MergeV)
    ensures
        method_error(sig, merge) is None <==> !method_violates(DiagnosticKind::WrappedSelf, sig, merge)
            && !method_violates(DiagnosticKind::GenericClash, sig, merge) && !method_violates(
            DiagnosticKind::ReservedName,
            sig,
            merge,
        ),
        method_error(sig, merge) matches Some(d) ==> method_violates(d.kind, sig, merge),
{
    lemma_reserved_found(sig.inputs, 1);
    if self_type_error(sig.inputs) is Some {
        let d = self_type_error(sig.inputs).unwrap();
        assert(d.kind == DiagnosticKind::WrappedSelf);
    }
}

proof fn lemma_method_error_from(items: Seq<TraitItem>, i: int, merge: MergeV)
    requires
        0 <= i,
    ensures
        method_error_from(items, i, merge) is None <==> forall|j: int|
            i <= j < items.len() ==> !(#[trigger] items[j] matches TraitItem::Method { sig, .. }
                && method_error(sig@, merge) is Some),
        method_error_from(items, i, merge) matches Some(d) ==> exists|j: int|
            i <= j < items.len() && (#[trigger] items[j] matches TraitItem::Method { sig, .. }
                && method_error(sig@, merge) == Some(d)),
    decreases items.len() - i,
{
    if i < items.len() {
        lemma_method_error_from(items, i + 1, merge);
    }
}

/// Where the declarations break exactly one of the rules that the dispatch
/// synthesis checks, it stops with a diagnostic of that rule.
pub proof fn lemma_single_violation_is_named(
    inherent: bool,
    e: EnumDecl,
    t: TraitDecl,
    kind: DiagnosticKind,
)
    requires
        violates(kind, inherent, e, t),
        forall|other: DiagnosticKind| other != kind ==> !violates(other, inherent, e, t),
    ensures
        forward_error(inherent, e, t) matches Some(d) && d.kind == kind,
{
    let merge = merge_for(inherent, e, t);
    lemma_assoc_error(t.items@, 0);
    lemma_method_error_from(t.items@, 0, merge);
    assert(!violates(DiagnosticKind::MissingTrait, inherent, e, t));
    if kind == DiagnosticKind::CombinedGenerics {
        return;
    }
    assert(!violates(DiagnosticKind::CombinedGenerics, inherent, e, t));
    if kind == DiagnosticKind::AssociatedType || kind == DiagnosticKind::AssociatedConst {
        let d = assoc_error_from(t.items@, 0).unwrap();
        assert(violates(d.kind, inherent, e, t));
        return;
    }
    assert(!violates(DiagnosticKind::AssociatedType, inherent, e, t));
    assert(!violates(DiagnosticKind::AssociatedConst, inherent, e, t));
    assert(assoc_error_from(t.items@, 0) is None);
    if kind == DiagnosticKind::NotNewtype {
        return;
    }
    assert(!violates(DiagnosticKind::NotNewtype, inherent, e, t));
    assert(shape_error(e, t) is None);
    let j = choose|j: int|
        0 <= j < t.items.len() && (#[trigger] t.items@[j] matches TraitItem::Method { sig, .. }
            && method_violates(kind, sig@, merge));
    if let TraitItem::Method { sig, .. } = t.items@[j] {
        lemma_method_error_kind(sig@, merge);
    }
    let d = method_error_from(t.items@, 0, merge).unwrap();
    let k = choose|k: int|
        0 <= k < t.items.len() && (#[trigger] t.items@[k] matches TraitItem::Method { sig, .. }
            && method_error(sig@, merge) == Some(d));
    if let TraitItem::Method { sig, .. } = t.items@[k] {
        lemma_method_error_kind(sig@, merge);
        assert(method_violates(d.kind, sig@, merge));
        assert(violates(d.kind, inherent, e, t));
    }
}

} // verus!
