//! Conversions between each variant's payload and the enum: a total one into
//! the enum, and a fallible one out of it that hands the value back on a
//! variant mismatch.
use vstd::prelude::*;
use vstd::string::*;
use crate::diagnostic::{Diagnostic, DiagnosticKind, DiagnosticV, diag};
use crate::forward::{is_newtype, payload_type, strings_view, all_newtype};
use crate::normalize::{filter_attrs, kept_attrs};
use crate::syntax::{EnumDecl, TypeExpr, Variant, VariantFields, type_view};

verus! {

/// One variant's conversions, under the variant's conditional-compilation attributes.
pub struct Conversion {
    pub attrs: Vec<String>,
    pub variant: String,
    pub payload: TypeExpr,
}

/// The fallible conversions out of the enum, and the name of their error type.
pub struct TryIntoImpls {
    pub error_name: String,
    pub conversions: Vec<Conversion>,
}

/// `c` converts between the enum and the payload of `v`.
pub open spec fn converts(c: Conversion, v: Variant) -> bool {
    &&& c.variant@ == v.name@
    &&& type_view(&c.payload) == payload_type(v)
    &&& strings_view(&c.attrs) == kept_attrs(v.attrs@, false)
}

/// One conversion per variant, in order.
pub open spec fn conversions_for(cs: Seq<Conversion>, vs: Seq<Variant>) -> bool {
    &&& cs.len() == vs.len()
    &&& forall|i: int| 0 <= i < cs.len() ==> converts(#[trigger] cs[i], vs[i])
}

pub open spec fn variants_error(e: EnumDecl) -> Option<DiagnosticV> {
    if exists|i: int| 0 <= i < e.variants.len() && !is_newtype(#[trigger] e.variants@[i]) {
        Some(diag(DiagnosticKind::NotNewtypeForConversion, e.span))
    } else {
        None
    }
}

/// The variants as conversions, or an error where one of them is not a newtype.
pub fn extract_variants(enum_def: &EnumDecl) -> (r: Result<Vec<Conversion>, Diagnostic>)
    ensures
        match r {
            Ok(cs) => variants_error(*enum_def) is None && conversions_for(cs@, enum_def.variants@),
            Err(d) => variants_error(*enum_def) == Some(d@),
        },
{
    if !all_newtype(&enum_def.variants) {
        return Err(Diagnostic::new(DiagnosticKind::NotNewtypeForConversion, enum_def.span));
    }
    let variants = &enum_def.variants;
    let mut out: Vec<Conversion> = Vec::new();
    let mut i: usize = 0;
    while i < variants.len()
        invariant
            i <= variants.len(),
            forall|j: int| 0 <= j < variants.len() ==> is_newtype(#[trigger] variants@[j]),
            out.len() == i,
            forall|j: int| 0 <= j < i ==> converts(#[trigger] out@[j], variants@[j]),
        decreases variants.len() - i,
    {
        let v = &variants[i];
        assert(is_newtype(variants@[i as int]));
        match &v.fields {
            VariantFields::Unnamed { types } => {
                let c = Conversion {
                    attrs: filter_attrs(&v.attrs, false),
                    variant: v.name.clone(),
                    payload: types[0].duplicate(),
                };
                out.push(c);
            },
            _ => {},
        }
        i += 1;
    }
    Ok(out)
}

/// The conversions into the enum, one per variant.
pub fn impl_from(enum_def: &EnumDecl) -> (r: Result<Vec<Conversion>, Diagnostic>)
    ensures
        match r {
            Ok(cs) => variants_error(*enum_def) is None && conversions_for(cs@, enum_def.variants@),
            Err(d) => variants_error(*enum_def) == Some(d@),
        },
{
    extract_variants(enum_def)
}

/// The name of the error type of the enum `name`'s fallible conversions.
pub open spec fn error_name_of(name: Seq<char>) -> Seq<char> {
    name + "TryIntoError"@
}

/// The conversions out of the enum, one per variant, with their error type.
pub fn impl_try_into(enum_def: &EnumDecl) -> (r: Result<TryIntoImpls, Diagnostic>)
    ensures
        match r {
            Ok(t) => {
                &&& variants_error(*enum_def) is None
                &&& t.error_name@ == error_name_of(enum_def.name@)
                &&& conversions_for(t.conversions@, enum_def.variants@)
            },
            Err(d) => variants_error(*enum_def) == Some(d@),
        },
{
    let conversions = extract_variants(enum_def)?;
    let error_name = enum_def.name.clone().concat("TryIntoError");
    Ok(TryIntoImpls { error_name, conversions })
}

/// A value of the enum: the name of its variant and that variant's payload.
pub struct Tagged<P> {
    pub variant: String,
    pub payload: P,
}

pub ghost struct TaggedV<P> {
    pub variant: Seq<char>,
    pub payload: P,
}

impl<P> View for Tagged<P> {
    type V = TaggedV<P>;

    open spec fn view(&self) -> TaggedV<P> {
        TaggedV { variant: self.variant@, payload: self.payload }
    }
}

/// The error of a failed conversion out of the enum: the value it was asked
/// to convert, unchanged.
pub struct TryIntoError<P> {
    value: Tagged<P>,
}

impl<P> TryIntoError<P> {
    pub closed spec fn value(&self) -> TaggedV<P> {
        self.value@
    }

    /// Gives back the value that could not be converted.
    pub fn into_inner(self) -> (r: Tagged<P>)
        ensures
            r@ == self.value(),
    {
        self.value
    }

    pub fn message(&self) -> (r: String)
        ensures
            r@ == "try_into failed"@,
    {
        String::from_str("try_into failed")
    }
}

/// The value of variant `variant` holding `payload`.
pub open spec fn wrapped<P>(variant: Seq<char>, payload: P) -> TaggedV<P> {
    TaggedV { variant, payload }
}

/// The payload of `value` where it is of variant `variant`; else `value` itself.
pub open spec fn unwrapped<P>(variant: Seq<char>, value: TaggedV<P>) -> Result<P, TaggedV<P>> {
    if value.variant == variant {
        Ok(value.payload)
    } else {
        Err(value)
    }
}

impl Conversion {
    /// What the generated conversion into the enum does with `payload`.
    pub fn wrap<P>(&self, payload: P) -> (r: Tagged<P>)
        ensures
            r@ == wrapped(self.variant@, payload),
    {
        Tagged { variant: self.variant.clone(), payload }
    }

    /// What the generated conversion out of the enum does with `value`.
    pub fn unwrap<P>(&self, value: Tagged<P>) -> (r: Result<P, TryIntoError<P>>)
        ensures
            match r {
                Ok(p) => unwrapped(self.variant@, value@) == Ok::<P, TaggedV<P>>(p),
                Err(e) => unwrapped(self.variant@, value@) == Err::<P, TaggedV<P>>(e.value()),
            },
    {
        if value.variant == self.variant {
            Ok(value.payload)
        } else {
            Err(TryIntoError { value })
        }
    }
}

/// For the conversions generated for an enum: wrapping a payload as variant
/// `i` and unwrapping the result as `i` gives the payload back; unwrapping it
/// as a variant `j` of another name fails with the wrapped value itself.
pub proof fn lemma_round_trip<P>(e: EnumDecl, cs: Seq<Conversion>, i: int, j: int, payload: P)
    requires
        conversions_for(cs, e.variants@),
        0 <= i < cs.len(),
        0 <= j < cs.len(),
    ensures
        unwrapped(cs[i].variant@, wrapped(cs[i].variant@, payload)) == Ok::<P, TaggedV<P>>(
            payload,
        ),
        e.variants@[j].name@ != e.variants@[i].name@ ==> unwrapped(
            cs[j].variant@,
            wrapped(cs[i].variant@, payload),
        ) == Err::<P, TaggedV<P>>(wrapped(cs[i].variant@, payload)),
{
    assert(converts(cs[i], e.variants@[i]));
    assert(converts(cs[j], e.variants@[j]));
}

} // verus!
