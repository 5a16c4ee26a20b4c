//! One synthesis request: find the enum and the trait among the declared
//! items, read the options, resolve a remote trait, and build everything that
//! the options ask for, or report the first problem.
use vstd::prelude::*;
use vstd::string::*;
use crate::config::{Config, attr_options, config_of, no_options};
use crate::convert::{
    Conversion, TryIntoImpls, conversions_for, error_name_of, impl_from, impl_try_into,
    variants_error,
};
use crate::diagnostic::{Diagnostic, DiagnosticKind, DiagnosticV, diag};
use crate::forward::{
    ForwardImpl, TraitTarget, forward_error, forward_to_variant, forwards, strings_view,
};
use crate::normalize::text_is;
use crate::syntax::{Attr, EnumDecl, Item, SpanId, TraitDecl, path_view};

verus! {

/// The first trait among the items at or after `i`.
pub open spec fn first_trait_from(items: Seq<Item>, i: int) -> Option<int>
    decreases items.len() - i,
{
    if i < 0 || i >= items.len() {
        None
    } else if items[i] is Trait {
        Some(i)
    } else {
        first_trait_from(items, i + 1)
    }
}

/// The first enum among the items at or after `i`.
pub open spec fn first_enum_from(items: Seq<Item>, i: int) -> Option<int>
    decreases items.len() - i,
{
    if i < 0 || i >= items.len() {
        None
    } else if items[i] is Enum {
        Some(i)
    } else {
        first_enum_from(items, i + 1)
    }
}

/// The first attribute named `name` at or after `i`.
pub open spec fn first_attr_from(attrs: Seq<Attr>, name: Seq<char>, i: int) -> Option<int>
    decreases attrs.len() - i,
{
    if i < 0 || i >= attrs.len() {
        None
    } else if attrs[i].name@ == name {
        Some(i)
    } else {
        first_attr_from(attrs, name, i + 1)
    }
}

pub open spec fn trait_of(item: Item) -> TraitDecl {
    match item {
        Item::Trait { decl } => decl,
        _ => arbitrary(),
    }
}

pub open spec fn enum_of(item: Item) -> EnumDecl {
    match item {
        Item::Enum { decl } => decl,
        _ => arbitrary(),
    }
}

/// The options on the enum: those of its first `configure` attribute, or none.
pub open spec fn enum_config(e: EnumDecl) -> Result<Config, DiagnosticV> {
    match first_attr_from(e.attrs@, "configure"@, 0) {
        Some(k) => attr_options(e.attrs@[k]),
        None => Ok(no_options()),
    }
}

/// The trait's first `remote` attribute, which names the trait to implement.
pub open spec fn remote_attr(t: TraitDecl) -> Option<int> {
    first_attr_from(t.attrs@, "remote"@, 0)
}

pub open spec fn remote_error(t: TraitDecl) -> Option<DiagnosticV> {
    match remote_attr(t) {
        Some(k) => {
            let a = t.attrs@[k];
            if a.args is None {
                Some(diag(DiagnosticKind::NotAttributeList, a.span))
            } else if a.path_arg is None {
                Some(diag(DiagnosticKind::RemoteNotPath, a.span))
            } else {
                None
            }
        },
        None => None,
    }
}

/// The trait that the dispatchers call: the remote one where the trait names
/// one, else the trait itself.
pub open spec fn targets(target: TraitTarget, t: TraitDecl) -> bool {
    match remote_attr(t) {
        Some(k) => target matches TraitTarget::Remote { path } && t.attrs@[k].path_arg matches Some(
            p,
        ) && path_view(&path) == path_view(&p),
        None => target matches TraitTarget::Local { name } && name@ == t.name@,
    }
}

/// The first problem with a request, in the order in which they are looked for.
pub open spec fn declare_error(items: Seq<Item>, input_span: SpanId) -> Option<DiagnosticV> {
    match first_trait_from(items, 0) {
        None => Some(diag(DiagnosticKind::MissingTrait, input_span)),
        Some(ti) => match first_enum_from(items, 0) {
            None => Some(diag(DiagnosticKind::MissingEnum, input_span)),
            Some(ei) => {
                let t = trait_of(items[ti]);
                let e = enum_of(items[ei]);
                match enum_config(e) {
                    Err(d) => Some(d),
                    Ok(c) => if remote_error(t) is Some {
                        remote_error(t)
                    } else if forward_error(c.inherent, e, t) is Some {
                        forward_error(c.inherent, e, t)
                    } else if (c.from || c.try_into) && variants_error(e) is Some {
                        variants_error(e)
                    } else {
                        None
                    },
                }
            },
        },
    }
}

/// How the declared trait is renamed and hidden when a remote trait is implemented instead.
pub struct RemoteRename {
    /// The `remote` attribute, which is removed from the trait.
    pub attr_index: usize,
    pub hidden_name: String,
    /// Attributes added to the hidden trait.
    pub added_attrs: Vec<String>,
}

/// What the hidden trait is marked with: no warning for never being
/// implemented, and no place in the documentation.
pub open spec fn hiding_attrs() -> Seq<Seq<char>> {
    seq!["#[allow(dead_code)]"@, "#[doc(hidden)]"@]
}

/// Everything a request produces, beside the declared items themselves.
pub struct Expansion {
    pub trait_index: usize,
    pub enum_index: usize,
    pub config: Config,
    pub remote: Option<RemoteRename>,
    pub forward: ForwardImpl,
    pub from_impls: Option<Vec<Conversion>>,
    pub try_into: Option<TryIntoImpls>,
}

/// `x` is what the request `items` produces.
pub open spec fn expands(x: Expansion, items: Seq<Item>) -> bool {
    &&& first_trait_from(items, 0) == Some(x.trait_index as int)
    &&& first_enum_from(items, 0) == Some(x.enum_index as int)
    &&& {
        let t = trait_of(items[x.trait_index as int]);
        let e = enum_of(items[x.enum_index as int]);
        &&& enum_config(e) == Ok::<Config, DiagnosticV>(x.config)
        &&& match remote_attr(t) {
            Some(k) => x.remote matches Some(r) && r.attr_index == k && r.hidden_name@ == t.name@
                + "Remote"@ && strings_view(&r.added_attrs) == hiding_attrs(),
            None => x.remote is None,
        }
        &&& targets(x.forward.target, t)
        &&& forwards(x.forward, x.config.inherent, x.config.inline, e, t)
        &&& match x.from_impls {
            Some(cs) => x.config.from && conversions_for(cs@, e.variants@),
            None => !x.config.from,
        }
        &&& match x.try_into {
            Some(ti) => x.config.try_into && ti.error_name@ == error_name_of(e.name@)
                && conversions_for(ti.conversions@, e.variants@),
            None => !x.config.try_into,
        }
    }
}

fn find_trait(items: &Vec<Item>) -> (r: Option<usize>)
    ensures
        (match r {
            Some(k) => Some(k as int),
            None => None,
        }) == first_trait_from(items@, 0),
        r matches Some(k) ==> k < items.len() && items@[k as int] is Trait,
{
    let mut i: usize = 0;
    while i < items.len()
        invariant
            i <= items.len(),
            first_trait_from(items@, 0) == first_trait_from(items@, i as int),
        decreases items.len() - i,
    {
        if let Item::Trait { .. } = &items[i] {
            return Some(i);
        }
        i += 1;
    }
    None
}

fn find_enum(items: &Vec<Item>) -> (r: Option<usize>)
    ensures
        (match r {
            Some(k) => Some(k as int),
            None => None,
        }) == first_enum_from(items@, 0),
        r matches Some(k) ==> k < items.len() && items@[k as int] is Enum,
{
    let mut i: usize = 0;
    while i < items.len()
        invariant
            i <= items.len(),
            first_enum_from(items@, 0) == first_enum_from(items@, i as int),
        decreases items.len() - i,
    {
        if let Item::Enum { .. } = &items[i] {
            return Some(i);
        }
        i += 1;
    }
    None
}

fn find_attr(attrs: &Vec<Attr>, name: &str) -> (r: Option<usize>)
    ensures
        (match r {
            Some(k) => Some(k as int),
            None => None,
        }) == first_attr_from(attrs@, name@, 0),
        r matches Some(k) ==> k < attrs.len(),
{
    let mut i: usize = 0;
    while i < attrs.len()
        invariant
            i <= attrs.len(),
            first_attr_from(attrs@, name@, 0) == first_attr_from(attrs@, name@, i as int),
        decreases attrs.len() - i,
    {
        if text_is(&attrs[i].name, name) {
            return Some(i);
        }
        i += 1;
    }
    None
}

/// Handles one request: the items declared together, and the location of the
/// whole request for the diagnostics that have no better one.
pub fn declare(items: &Vec<Item>, input_span: SpanId) -> (r: Result<Expansion, Diagnostic>)
    ensures
        match r {
            Ok(x) => declare_error(items@, input_span) is None && expands(x, items@),
            Err(d) => declare_error(items@, input_span) == Some(d@),
        },
{
    let trait_index = match find_trait(items) {
        Some(k) => k,
        None => {
            return Err(Diagnostic::new(DiagnosticKind::MissingTrait, input_span));
        },
    };
    let enum_index = match find_enum(items) {
        Some(k) => k,
        None => {
            return Err(Diagnostic::new(DiagnosticKind::MissingEnum, input_span));
        },
    };
    let trait_def = match &items[trait_index] {
        Item::Trait { decl } => decl,
        _ => {
            return Err(Diagnostic::new(DiagnosticKind::MissingTrait, input_span));
        },
    };
    let enum_def = match &items[enum_index] {
        Item::Enum { decl } => decl,
        _ => {
            return Err(Diagnostic::new(DiagnosticKind::MissingEnum, input_span));
        },
    };
    assert(trait_of(items@[trait_index as int]) == *trait_def);
    assert(enum_of(items@[enum_index as int]) == *enum_def);

    let config = match find_attr(&enum_def.attrs, "configure") {
        Some(k) => config_of(&enum_def.attrs[k])?,
        None => Config::new(),
    };

    let (remote, target) = match find_attr(&trait_def.attrs, "remote") {
        Some(k) => {
            let a = &trait_def.attrs[k];
            if a.args.is_none() {
                return Err(Diagnostic::new(DiagnosticKind::NotAttributeList, a.span));
            }
            match &a.path_arg {
                Some(p) => {
                    let hidden_name = trait_def.name.clone().concat("Remote");
                    let added_attrs = vec![
                        String::from_str("#[allow(dead_code)]"),
                        String::from_str("#[doc(hidden)]"),
                    ];
                    assert(strings_view(&added_attrs) =~= hiding_attrs());
                    (
                        Some(RemoteRename { attr_index: k, hidden_name, added_attrs }),
                        TraitTarget::Remote { path: p.duplicate() },
                    )
                },
                None => {
                    return Err(Diagnostic::new(DiagnosticKind::RemoteNotPath, a.span));
                },
            }
        },
        None => (None, TraitTarget::Local { name: trait_def.name.clone() }),
    };

    let forward = forward_to_variant(config.inherent, config.inline, enum_def, trait_def, target)?;
    let from_impls = if config.from {
        Some(impl_from(enum_def)?)
    } else {
        None
    };
    let try_into = if config.try_into {
        Some(impl_try_into(enum_def)?)
    } else {
        None
    };
    Ok(Expansion { trait_index, enum_index, config, remote, forward, from_impls, try_into })
}

} // verus!
