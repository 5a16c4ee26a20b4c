use disponent::config::{config_of, parse_config, Config};
use disponent::convert::{impl_from, impl_try_into, Tagged};
use disponent::declare::declare;
use disponent::diagnostic::{Diagnostic, DiagnosticKind};
use disponent::forward::{forward_to_variant, generate_method, TraitTarget};
use disponent::normalize::{
    build_where_clause, extract_future_output, filter_attrs, is_attr_allowed, is_wrapped_self,
    replace_self,
};
use disponent::syntax::{
    ArgToken, Attr, EnumDecl, FnArg, GenericArg, GenericKind, GenericParam, Generics, Item,
    MethodSig, Pat, PathArgs, PathSegment, Receiver, ReceiverKind, TraitDecl, TraitItem,
    TypeBound, TypeExpr, TypePath, Variant, VariantFields, WherePred,
};

fn seg(name: &str, args: PathArgs) -> PathSegment {
    PathSegment { ident: name.to_string(), args }
}

fn path_type(name: &str) -> TypeExpr {
    TypeExpr::Path { path: TypePath { leading_colon: false, segments: vec![seg(name, PathArgs::Bare)] } }
}

/// `outer<inner>`
fn applied(outer: &str, inner: TypeExpr) -> TypeExpr {
    TypeExpr::Path {
        path: TypePath {
            leading_colon: false,
            segments: vec![seg(outer, PathArgs::Angle { args: vec![GenericArg::Type { ty: inner }] })],
        },
    }
}

fn verbatim(text: &str) -> TypeExpr {
    TypeExpr::Verbatim { text: text.to_string() }
}

fn future_of(output: TypeExpr) -> TypeExpr {
    TypeExpr::ImplTrait {
        bounds: vec![TypeBound::Trait {
            path: TypePath {
                leading_colon: false,
                segments: vec![seg(
                    "Future",
                    PathArgs::Angle {
                        args: vec![GenericArg::AssocType { ident: "Output".to_string(), ty: output }],
                    },
                )],
            },
        }],
    }
}

/// Renders a type the way it would be written, for comparisons.
fn show(t: &TypeExpr) -> String {
    match t {
        TypeExpr::Path { path } => {
            let segs: Vec<String> = path
                .segments
                .iter()
                .map(|s| match &s.args {
                    PathArgs::Bare => s.ident.clone(),
                    PathArgs::Angle { args } => {
                        let args: Vec<String> = args
                            .iter()
                            .map(|a| match a {
                                GenericArg::Type { ty } => show(ty),
                                GenericArg::AssocType { ident, ty } => format!("{} = {}", ident, show(ty)),
                                GenericArg::Verbatim { text } => text.clone(),
                            })
                            .collect();
                        format!("{}<{}>", s.ident, args.join(", "))
                    }
                    PathArgs::Paren { text } => format!("{}{}", s.ident, text),
                })
                .collect();
            let lead = if path.leading_colon { "::" } else { "" };
            format!("{}{}", lead, segs.join("::"))
        }
        TypeExpr::ImplTrait { bounds } => {
            let b: Vec<String> = bounds
                .iter()
                .map(|b| match b {
                    TypeBound::Trait { path } => show(&TypeExpr::Path {
                        path: TypePath {
                            leading_colon: path.leading_colon,
                            segments: path.segments.iter().map(|s| s.duplicate()).collect(),
                        },
                    }),
                    TypeBound::Verbatim { text } => text.clone(),
                })
                .collect();
            format!("impl {}", b.join(" + "))
        }
        TypeExpr::Verbatim { text } => text.clone(),
    }
}

fn receiver(kind: ReceiverKind, span: usize) -> FnArg {
    let text = match kind {
        ReceiverKind::Value => "self",
        ReceiverKind::Ref => "&self",
        ReceiverKind::RefMut => "&mut self",
    };
    FnArg::Receiver {
        receiver: Receiver { kind, text: text.to_string(), ty: verbatim("Self"), span },
    }
}

fn typed(name: &str, ty: TypeExpr, span: usize) -> FnArg {
    FnArg::Typed {
        pat: Pat { ident: Some(name.to_string()), text: name.to_string(), span },
        ty,
        span: span + 1,
    }
}

fn param(kind: GenericKind, name: &str, span: usize) -> GenericParam {
    GenericParam { kind, name: name.to_string(), text: name.to_string(), span }
}

fn generics(params: Vec<GenericParam>) -> Generics {
    Generics { params, where_clause: None }
}

fn sig(name: &str, is_async: bool, params: Vec<GenericParam>, inputs: Vec<FnArg>, output: Option<TypeExpr>) -> MethodSig {
    MethodSig { is_async, name: name.to_string(), generics: generics(params), inputs, output }
}

fn method_item(s: MethodSig) -> TraitItem {
    TraitItem::Method { attrs: vec![], sig: s, has_default: false, span: 0 }
}

fn attr(name: &str, args: Option<Vec<ArgToken>>, span: usize) -> Attr {
    Attr { name: name.to_string(), text: format!("#[{}]", name), args, path_arg: None, span }
}

fn idents(names: &[&str]) -> Vec<ArgToken> {
    let mut out = vec![];
    for (i, n) in names.iter().enumerate() {
        if i > 0 {
            out.push(ArgToken::Comma { span: 100 + i });
        }
        out.push(ArgToken::Ident { name: n.to_string(), span: 200 + i });
    }
    out
}

fn newtype(name: &str, payload: TypeExpr) -> Variant {
    Variant { name: name.to_string(), attrs: vec![], fields: VariantFields::Unnamed { types: vec![payload] } }
}

fn enum_decl(name: &str, params: Vec<GenericParam>, variants: Vec<Variant>) -> EnumDecl {
    EnumDecl {
        name: name.to_string(),
        attrs: vec![],
        generics: generics(params),
        generics_span: 7,
        variants,
        span: 8,
    }
}

fn trait_decl(name: &str, params: Vec<GenericParam>, items: Vec<TraitItem>) -> TraitDecl {
    TraitDecl { name: name.to_string(), attrs: vec![], generics: generics(params), items, span: 9 }
}

fn a_or_b() -> EnumDecl {
    enum_decl("AOrB", vec![], vec![newtype("A", path_type("i64")), newtype("B", path_type("String"))])
}

fn simple_trait() -> TraitDecl {
    trait_decl(
        "Speak",
        vec![],
        vec![method_item(sig("speak", false, vec![], vec![receiver(ReceiverKind::Ref, 1)], None))],
    )
}

fn local(name: &str) -> TraitTarget {
    TraitTarget::Local { name: name.to_string() }
}

fn expect_err<T>(r: Result<T, Diagnostic>) -> Diagnostic {
    match r {
        Ok(_) => panic!("a diagnostic"),
        Err(d) => d,
    }
}

#[derive(Debug, PartialEq)]
enum Value {
    Int(i64),
    Text(String),
}

#[test]
fn wrap_then_unwrap_round_trips() {
    let e = a_or_b();
    let from = impl_from(&e).ok().unwrap();
    let back = impl_try_into(&e).ok().unwrap();
    assert_eq!(from.len(), 2);
    assert_eq!(back.error_name, "AOrBTryIntoError");

    let wrapped: Tagged<Value> = from[0].wrap(Value::Int(7));
    assert_eq!(wrapped.variant, "A");
    assert_eq!(wrapped.payload, Value::Int(7));

    let as_a = back.conversions[0].unwrap(wrapped);
    assert_eq!(as_a.ok().unwrap(), Value::Int(7));

    let wrapped = from[0].wrap(Value::Int(7));
    let as_b = back.conversions[1].unwrap(wrapped);
    let err = match as_b {
        Ok(_) => panic!("the conversion error"),
        Err(err) => err,
    };
    assert_eq!(err.message(), "try_into failed");
    let given_back = err.into_inner();
    assert_eq!(given_back.variant, "A");
    assert_eq!(given_back.payload, Value::Int(7));
}

#[test]
fn unwrap_of_another_variant_gives_the_value_back() {
    let back = impl_try_into(&a_or_b()).ok().unwrap();
    let text = Tagged { variant: "B".to_string(), payload: Value::Text("hi".to_string()) };
    let err = match back.conversions[0].unwrap(text) {
        Ok(_) => panic!("the conversion error"),
        Err(err) => err,
    };
    let v = err.into_inner();
    assert_eq!(v.variant, "B");
    assert_eq!(v.payload, Value::Text("hi".to_string()));
}

#[test]
fn conversions_keep_only_cfg_attributes() {
    let mut e = a_or_b();
    e.variants[0].attrs = vec![attr("cfg", None, 0), attr("doc", None, 0), attr("cfg_attr", None, 0)];
    let from = impl_from(&e).ok().unwrap();
    assert_eq!(from[0].attrs, vec!["#[cfg]".to_string(), "#[cfg_attr]".to_string()]);
    assert_eq!(show(&from[1].payload), "String");
}

#[test]
fn conversions_reject_non_newtype_variants() {
    let mut e = a_or_b();
    e.variants.push(Variant { name: "C".to_string(), attrs: vec![], fields: VariantFields::Unit });
    let d = expect_err(impl_from(&e));
    assert_eq!(d.kind, DiagnosticKind::NotNewtypeForConversion);
    assert_eq!(d.span, 8);
    let d = expect_err(impl_try_into(&e));
    assert_eq!(d.kind, DiagnosticKind::NotNewtypeForConversion);
}

#[test]
fn generic_method_clash_is_rejected_when_merged() {
    let t = trait_decl(
        "Convert",
        vec![param(GenericKind::Type, "T", 30)],
        vec![method_item(sig(
            "convert",
            false,
            vec![param(GenericKind::Type, "T", 31)],
            vec![receiver(ReceiverKind::Ref, 1)],
            None,
        ))],
    );
    let d = expect_err(forward_to_variant(true, false, &a_or_b(), &t, local("Convert")));
    assert_eq!(d.kind, DiagnosticKind::GenericClash);
    assert_eq!(d.span, 31);
    assert_eq!(d.name, "T");
    assert_eq!(
        d.message(),
        "Generic parameter `T` conflicts with trait generic parameter. Use a different name."
    );
    // as a trait impl the parameters are not merged, so nothing clashes
    assert!(forward_to_variant(false, false, &a_or_b(), &t, local("Convert")).is_ok());
}

#[test]
fn merged_generics_put_the_trait_first_and_bound_each_payload() {
    let t = trait_decl(
        "Convert",
        vec![param(GenericKind::Type, "T", 30)],
        vec![method_item(sig(
            "convert",
            false,
            vec![param(GenericKind::Type, "U", 31)],
            vec![receiver(ReceiverKind::Ref, 1)],
            None,
        ))],
    );
    let f = forward_to_variant(true, false, &a_or_b(), &t, local("Convert")).ok().unwrap();
    let g = &f.methods[0].sig.generics;
    let names: Vec<&str> = g.params.iter().map(|p| p.name.as_str()).collect();
    assert_eq!(names, vec!["T", "U"]);
    let preds = g.where_clause.as_ref().unwrap();
    assert_eq!(preds.len(), 2);
    match &preds[1] {
        WherePred::Implements { ty } => assert_eq!(show(ty), "String"),
        WherePred::Verbatim { .. } => panic!("a payload bound"),
    }
    assert!(f.where_clause.is_none());

    let f = forward_to_variant(false, false, &a_or_b(), &t, local("Convert")).ok().unwrap();
    assert_eq!(f.methods[0].sig.generics.params.len(), 1);
    assert_eq!(f.where_clause.as_ref().unwrap().len(), 2);
}

#[test]
fn each_violation_gives_its_own_diagnostic() {
    let e = a_or_b();
    let good = simple_trait();

    let generic_enum = enum_decl("G", vec![param(GenericKind::Type, "X", 0)], vec![newtype("A", path_type("X"))]);
    let generic_trait = trait_decl("Speak", vec![param(GenericKind::Type, "Y", 0)], vec![]);
    let d = expect_err(forward_to_variant(false, false, &generic_enum, &generic_trait, local("Speak")));
    assert_eq!((d.kind, d.span), (DiagnosticKind::CombinedGenerics, 7));
    assert_eq!(d.message(), "Cannot combine enum and trait generics");

    let with_type = trait_decl("Speak", vec![], vec![TraitItem::AssocType { span: 40 }]);
    let d = expect_err(forward_to_variant(false, false, &e, &with_type, local("Speak")));
    assert_eq!((d.kind, d.span), (DiagnosticKind::AssociatedType, 40));

    let with_const = trait_decl("Speak", vec![], vec![TraitItem::Other, TraitItem::AssocConst { span: 41 }]);
    let d = expect_err(forward_to_variant(false, false, &e, &with_const, local("Speak")));
    assert_eq!((d.kind, d.span), (DiagnosticKind::AssociatedConst, 41));
    assert_eq!(d.message(), "Associated constants not supported");

    let mut named = a_or_b();
    named.variants[1].fields = VariantFields::Named;
    let d = expect_err(forward_to_variant(false, false, &named, &good, local("Speak")));
    assert_eq!((d.kind, d.span), (DiagnosticKind::NotNewtype, 8));

    let mut pair = a_or_b();
    pair.variants[0].fields = VariantFields::Unnamed { types: vec![path_type("i64"), path_type("i64")] };
    let d = expect_err(forward_to_variant(false, false, &pair, &good, local("Speak")));
    assert_eq!(d.kind, DiagnosticKind::NotNewtype);

    let boxed = FnArg::Receiver {
        receiver: Receiver {
            kind: ReceiverKind::Value,
            text: "self: Box<Self>".to_string(),
            ty: applied("Box", path_type("Self")),
            span: 50,
        },
    };
    let t = trait_decl("Speak", vec![], vec![method_item(sig("speak", false, vec![], vec![boxed], None))]);
    let d = expect_err(forward_to_variant(false, false, &e, &t, local("Speak")));
    assert_eq!((d.kind, d.span), (DiagnosticKind::WrappedSelf, 50));

    let inputs = vec![receiver(ReceiverKind::Ref, 1), typed("x", path_type("u8"), 60), typed("__disponent_inner", path_type("u8"), 62)];
    let t = trait_decl("Speak", vec![], vec![method_item(sig("speak", false, vec![], inputs, None))]);
    let d = expect_err(forward_to_variant(false, false, &e, &t, local("Speak")));
    assert_eq!((d.kind, d.span), (DiagnosticKind::ReservedName, 62));
    assert_eq!(d.message(), "Parameter name `__disponent_inner` is reserved. Use a different name.");
}

#[test]
fn the_first_violation_wins() {
    // an associated type comes before the non-newtype variant
    let mut e = a_or_b();
    e.variants[0].fields = VariantFields::Unit;
    let t = trait_decl("Speak", vec![], vec![TraitItem::AssocType { span: 40 }]);
    let d = expect_err(forward_to_variant(false, false, &e, &t, local("Speak")));
    assert_eq!(d.kind, DiagnosticKind::AssociatedType);
}

#[test]
fn missing_declarations_are_reported() {
    let d = expect_err(declare(&vec![Item::Enum { decl: a_or_b() }], 3));
    assert_eq!((d.kind, d.span), (DiagnosticKind::MissingTrait, 3));
    assert_eq!(d.message(), "Missing trait definition");
    let d = expect_err(declare(&vec![Item::Other, Item::Trait { decl: simple_trait() }], 3));
    assert_eq!((d.kind, d.span), (DiagnosticKind::MissingEnum, 3));
    assert_eq!(d.message(), "Missing enum definition");
}

#[test]
fn options_are_read_from_the_list() {
    let c = parse_config(&idents(&["inherent", "inline", "from", "try_into"])).ok().unwrap();
    assert_eq!(c, Config { inherent: true, from: true, try_into: true, inline: true });
    let c = parse_config(&vec![]).ok().unwrap();
    assert_eq!(c, Config { inherent: false, from: false, try_into: false, inline: false });
    // commas are optional between names, and one may trail
    let tokens = vec![
        ArgToken::Ident { name: "from".to_string(), span: 0 },
        ArgToken::Ident { name: "inline".to_string(), span: 0 },
        ArgToken::Comma { span: 0 },
    ];
    let c = parse_config(&tokens).ok().unwrap();
    assert_eq!(c, Config { inherent: false, from: true, try_into: false, inline: true });
}

#[test]
fn bad_options_are_rejected() {
    let d = expect_err(parse_config(&idents(&["inherent", "fast"])));
    assert_eq!((d.kind, d.span), (DiagnosticKind::UnknownOption, 201));
    assert_eq!(d.message(), "Unknown configuration option");
    let tokens = vec![ArgToken::Comma { span: 5 }];
    let d = expect_err(parse_config(&tokens));
    assert_eq!((d.kind, d.span), (DiagnosticKind::ExpectedIdentifier, 5));
    let d = expect_err(config_of(&attr("configure", None, 6)));
    assert_eq!((d.kind, d.span), (DiagnosticKind::NotAttributeList, 6));
}

#[test]
fn unknown_option_on_the_enum_stops_the_request() {
    let mut e = a_or_b();
    e.attrs.push(attr("configure", Some(idents(&["inherent", "bogus"])), 0));
    let items = vec![Item::Enum { decl: e }, Item::Trait { decl: simple_trait() }];
    let d = expect_err(declare(&items, 0));
    assert_eq!(d.kind, DiagnosticKind::UnknownOption);
}

#[test]
fn declare_builds_what_the_options_ask_for() {
    let mut e = a_or_b();
    e.attrs.push(attr("configure", Some(idents(&["from", "try_into"])), 0));
    let items = vec![Item::Trait { decl: simple_trait() }, Item::Enum { decl: e }];
    let x = declare(&items, 0).ok().unwrap();
    assert_eq!((x.trait_index, x.enum_index), (0, 1));
    assert!(!x.forward.inherent);
    assert!(!x.forward.methods[0].public);
    match &x.forward.target {
        TraitTarget::Local { name } => assert_eq!(name, "Speak"),
        TraitTarget::Remote { .. } => panic!("the local trait"),
    }
    assert!(x.remote.is_none());
    assert_eq!(x.from_impls.as_ref().unwrap().len(), 2);
    assert_eq!(x.try_into.as_ref().unwrap().error_name, "AOrBTryIntoError");
}

#[test]
fn remote_trait_is_targeted_and_the_local_one_hidden() {
    let mut t = simple_trait();
    t.attrs.push(attr("doc", None, 0));
    let mut remote = attr("remote", Some(idents(&["external"])), 0);
    remote.path_arg = Some(TypePath {
        leading_colon: false,
        segments: vec![seg("external", PathArgs::Bare), seg("Speak", PathArgs::Bare)],
    });
    t.attrs.push(remote);
    let items = vec![Item::Enum { decl: a_or_b() }, Item::Trait { decl: t }];
    let x = declare(&items, 0).ok().unwrap();
    let r = x.remote.as_ref().unwrap();
    assert_eq!(r.attr_index, 1);
    assert_eq!(r.hidden_name, "SpeakRemote");
    assert_eq!(r.added_attrs, vec!["#[allow(dead_code)]".to_string(), "#[doc(hidden)]".to_string()]);
    match &x.forward.target {
        TraitTarget::Remote { path } => {
            assert_eq!(path.segments.len(), 2);
            assert_eq!(path.segments[1].ident, "Speak");
        }
        TraitTarget::Local { .. } => panic!("the remote trait"),
    }
}

#[test]
fn remote_without_a_path_is_rejected() {
    let mut t = simple_trait();
    t.attrs.push(attr("remote", Some(vec![ArgToken::Other { span: 0 }]), 12));
    let items = vec![Item::Enum { decl: a_or_b() }, Item::Trait { decl: t }];
    let d = expect_err(declare(&items, 0));
    assert_eq!((d.kind, d.span), (DiagnosticKind::RemoteNotPath, 12));
}

#[test]
fn self_is_replaced_at_any_depth() {
    let name = "FooOrBar".to_string();
    assert_eq!(show(&replace_self(&path_type("Self"), &name)), "FooOrBar");
    let nested = applied("Option", applied("Vec", path_type("Self")));
    assert_eq!(show(&replace_self(&nested, &name)), "Option<Vec<FooOrBar>>");
    let assoc = TypeExpr::Path {
        path: TypePath {
            leading_colon: false,
            segments: vec![seg(
                "Box",
                PathArgs::Angle {
                    args: vec![GenericArg::AssocType { ident: "Item".to_string(), ty: path_type("Self") }],
                },
            )],
        },
    };
    assert_eq!(show(&replace_self(&assoc, &name)), "Box<Item = FooOrBar>");
    // only paths are rewritten
    assert_eq!(show(&replace_self(&verbatim("&Self"), &name)), "&Self");
    assert_eq!(show(&replace_self(&path_type("String"), &name)), "String");
}

#[test]
fn dispatcher_signature_refers_to_the_enum() {
    let s = sig(
        "merge",
        false,
        vec![],
        vec![receiver(ReceiverKind::Ref, 1), typed("other", path_type("Self"), 2)],
        Some(applied("Option", path_type("Self"))),
    );
    let d = generate_method(
        false,
        true,
        &vec![attr("doc", None, 0), attr("must_use", None, 0)],
        &s,
        &"Pet".to_string(),
        &vec![newtype("Cat", path_type("Cat")), newtype("Dog", path_type("Dog"))],
        false,
        &generics(vec![]),
        &vec![],
    )
    .ok()
    .unwrap();
    match &d.sig.inputs[1] {
        FnArg::Typed { ty, .. } => assert_eq!(show(ty), "Pet"),
        FnArg::Receiver { .. } => panic!("a typed input"),
    }
    assert_eq!(show(d.sig.output.as_ref().unwrap()), "Option<Pet>");
    assert_eq!(d.attrs, vec!["#[doc]".to_string()]);
    assert!(d.inline && !d.public && !d.awaits);
    assert_eq!(d.args.len(), 1);
    assert_eq!(d.args[0].text, "other");
    match &d.sig.inputs[0] {
        FnArg::Receiver { receiver } => assert!(receiver.kind == ReceiverKind::Ref),
        FnArg::Typed { .. } => panic!("the receiver"),
    }
}

#[test]
fn mutable_receiver_is_kept() {
    let s = sig("bump", false, vec![], vec![receiver(ReceiverKind::RefMut, 1)], None);
    let d = generate_method(true, false, &vec![], &s, &"E".to_string(), &vec![newtype("A", path_type("A"))], false, &generics(vec![]), &vec![])
        .ok()
        .unwrap();
    match &d.sig.inputs[0] {
        FnArg::Receiver { receiver } => {
            assert!(receiver.kind == ReceiverKind::RefMut);
            assert_eq!(receiver.text, "&mut self");
        }
        FnArg::Typed { .. } => panic!("the receiver"),
    }
    assert!(d.sig.output.is_none());
    assert!(d.public);
}

#[test]
fn async_fn_and_impl_future_agree() {
    let variants = vec![newtype("A", path_type("A"))];
    let explicit = sig("run", true, vec![], vec![receiver(ReceiverKind::Ref, 1)], Some(path_type("u32")));
    let deferred = sig("run", false, vec![], vec![receiver(ReceiverKind::Ref, 1)], Some(future_of(path_type("u32"))));
    let a = generate_method(false, false, &vec![], &explicit, &"E".to_string(), &variants, false, &generics(vec![]), &vec![]).ok().unwrap();
    let b = generate_method(false, false, &vec![], &deferred, &"E".to_string(), &variants, false, &generics(vec![]), &vec![]).ok().unwrap();
    assert!(a.sig.is_async && b.sig.is_async);
    assert!(a.awaits && b.awaits);
    assert_eq!(show(a.sig.output.as_ref().unwrap()), "u32");
    assert_eq!(show(b.sig.output.as_ref().unwrap()), "u32");
}

#[test]
fn future_output_is_extracted() {
    let (found, out) = extract_future_output(&Some(future_of(path_type("Self"))));
    assert!(found);
    assert_eq!(show(out.as_ref().unwrap()), "Self");

    let (found, out) = extract_future_output(&Some(path_type("u8")));
    assert!(!found);
    assert_eq!(show(out.as_ref().unwrap()), "u8");

    let (found, out) = extract_future_output(&None);
    assert!(!found && out.is_none());

    // a Future bound without an Output binding is no deferred return
    let bare = TypeExpr::ImplTrait {
        bounds: vec![
            TypeBound::Verbatim { text: "Send".to_string() },
            TypeBound::Trait { path: TypePath { leading_colon: false, segments: vec![seg("Future", PathArgs::Bare)] } },
        ],
    };
    let (found, _) = extract_future_output(&Some(bare));
    assert!(!found);

    // the first Future bound decides, after other bounds
    let mixed = TypeExpr::ImplTrait {
        bounds: vec![
            TypeBound::Verbatim { text: "Send".to_string() },
            match future_of(path_type("i32")) {
                TypeExpr::ImplTrait { mut bounds } => bounds.remove(0),
                _ => unreachable!(),
            },
        ],
    };
    let (found, out) = extract_future_output(&Some(mixed));
    assert!(found);
    assert_eq!(show(out.as_ref().unwrap()), "i32");
}

#[test]
fn wrapped_self_is_recognised() {
    assert!(is_wrapped_self(&applied("Box", path_type("Self"))));
    assert!(is_wrapped_self(&applied("Arc", path_type("Self"))));
    assert!(!is_wrapped_self(&path_type("Self")));
    assert!(!is_wrapped_self(&applied("Box", path_type("Other"))));
    assert!(!is_wrapped_self(&verbatim("&Self")));
}

#[test]
fn attributes_are_filtered() {
    assert!(is_attr_allowed(&attr("cfg", None, 0), false));
    assert!(is_attr_allowed(&attr("cfg_attr", None, 0), false));
    assert!(!is_attr_allowed(&attr("doc", None, 0), false));
    assert!(is_attr_allowed(&attr("doc", None, 0), true));
    assert!(!is_attr_allowed(&attr("inline", None, 0), true));
    let kept = filter_attrs(&vec![attr("inline", None, 0), attr("doc", None, 0), attr("cfg", None, 0)], true);
    assert_eq!(kept, vec!["#[doc]".to_string(), "#[cfg]".to_string()]);
}

#[test]
fn where_clauses_combine_in_order() {
    let p = |t: &str| WherePred::Verbatim { text: t.to_string() };
    assert!(build_where_clause(&None, &None, &vec![]).is_none());
    let w = build_where_clause(&Some(vec![p("A: Clone")]), &Some(vec![p("B: Copy")]), &vec![p("C: Send")]).unwrap();
    let texts: Vec<String> = w
        .iter()
        .map(|x| match x {
            WherePred::Verbatim { text } => text.clone(),
            WherePred::Implements { .. } => String::new(),
        })
        .collect();
    assert_eq!(texts, vec!["A: Clone", "B: Copy", "C: Send"]);
    assert_eq!(build_where_clause(&Some(vec![]), &None, &vec![]).unwrap().len(), 0);
}

#[test]
fn every_dispatcher_covers_every_variant_under_its_cfg() {
    let mut e = a_or_b();
    e.variants[1].attrs = vec![attr("cfg", None, 0), attr("doc", None, 0)];
    let t = trait_decl(
        "Speak",
        vec![],
        vec![
            method_item(sig("one", false, vec![], vec![receiver(ReceiverKind::Ref, 1)], None)),
            TraitItem::Other,
            method_item(sig("two", false, vec![], vec![receiver(ReceiverKind::Value, 1)], None)),
        ],
    );
    let f = forward_to_variant(false, false, &e, &t, local("Speak")).ok().unwrap();
    assert_eq!(f.methods.len(), 2);
    for d in &f.methods {
        assert_eq!(d.arms.len(), 2);
        assert_eq!(d.arms[0].variant, "A");
        assert!(d.arms[0].attrs.is_empty());
        assert_eq!(d.arms[1].variant, "B");
        assert_eq!(d.arms[1].attrs, vec!["#[cfg]".to_string()]);
        assert_eq!(d.select(&"B".to_string()), Some(1));
        assert_eq!(d.select(&"C".to_string()), None);
    }
}
