use entrait::config::{
    AsyncMode, DelegateBy, EntraitAttr, Extension, MockLibrary, OptionToken, TraitName,
};
use entrait::delegation::{forward_interface, select_delegation, Callee, DependencyExpr, WrapperBound};
use entrait::error::{EngineError, ValueShape};
use entrait::expand::{expand_fn, expand_interface, expand_module};
use entrait::interface::{
    synthesize_fn_interface, synthesize_module_interface, InterfaceDef, MethodReceiver, TraitMethod,
};
use entrait::mock::{request_mock, EntraitGenerateMockInput};
use entrait::signature::{
    extract_call_param_list, extract_trait_fn_inputs, CallArg, EntraitFn, FnSignature, GenericKind,
    GenericParam, Param, ParamPattern, Visibility,
};
use entrait::split::{split_impl_block, DispatchMode, ImplBlock, ImplMethod};

fn ident_param(name: &str, ty: &str) -> Param {
    Param { pattern: ParamPattern::Ident(name.to_string()), ty: ty.to_string() }
}

fn sig(name: &str, inputs: Vec<Param>, output: &str) -> FnSignature {
    FnSignature {
        ident: name.to_string(),
        generics: vec![],
        is_async: false,
        inputs,
        output: output.to_string(),
    }
}

fn opt(key: &str, value: Option<&str>) -> OptionToken {
    OptionToken { key: key.to_string(), value: value.map(|v| v.to_string()) }
}

fn named(ident: &str) -> Option<TraitName> {
    Some(TraitName { vis: Visibility::Public, ident: ident.to_string() })
}

fn parse_fn(vis: Visibility, s: FnSignature, no_deps: bool) -> Result<EntraitFn, EngineError> {
    EntraitFn::parse(Vec::new(), vis, s, "{ n * 2 }".to_string(), no_deps)
}

/// `fn double(dep: &D, n: i32) -> i32`
fn double_sig() -> FnSignature {
    sig("double", vec![ident_param("dep", "&D"), ident_param("n", "i32")], "i32")
}

fn attr_with(name: &str, options: Vec<OptionToken>) -> EntraitAttr {
    EntraitAttr::parse(named(name), &options, MockLibrary::Absent).unwrap()
}

#[test]
fn arity_drops_the_dependency_slot() {
    let s = sig(
        "f",
        vec![ident_param("deps", "&D"), ident_param("a", "u32"), ident_param("b", "&str")],
        "bool",
    );
    let inputs = extract_trait_fn_inputs(&s, false).unwrap();
    assert_eq!(inputs.len(), 2);
    assert_eq!(inputs[0], ident_param("a", "u32"));
    assert_eq!(inputs[1], ident_param("b", "&str"));
}

#[test]
fn arity_keeps_every_parameter_without_deps() {
    let s = sig("f", vec![ident_param("a", "u32"), ident_param("b", "&str")], "bool");
    let inputs = extract_trait_fn_inputs(&s, true).unwrap();
    assert_eq!(inputs.len(), 2);
    assert_eq!(inputs[0], ident_param("a", "u32"));
}

#[test]
fn missing_dependency_parameter() {
    let s = sig("f", vec![], "()");
    assert_eq!(
        extract_trait_fn_inputs(&s, false),
        Err(EngineError::MissingDependencyParameter { fn_ident: "f".to_string() })
    );
    assert_eq!(
        parse_fn(Visibility::Public, sig("f", vec![], "()"), false),
        Err(EngineError::MissingDependencyParameter { fn_ident: "f".to_string() })
    );
    assert_eq!(extract_trait_fn_inputs(&s, true), Ok(vec![]));
}

#[test]
fn call_arguments_keep_positions() {
    let s = sig(
        "f",
        vec![
            Param { pattern: ParamPattern::Destructure, ty: "&D".to_string() },
            ident_param("a", "u32"),
            ident_param("b", "&str"),
        ],
        "bool",
    );
    let args = extract_call_param_list(&s, false).unwrap();
    assert_eq!(
        args,
        vec![CallArg::Dependency, CallArg::Ident("a".to_string()), CallArg::Ident("b".to_string())]
    );
}

#[test]
fn call_arguments_without_deps() {
    let s = sig("f", vec![ident_param("a", "u32"), ident_param("b", "&str")], "bool");
    let args = extract_call_param_list(&s, true).unwrap();
    assert_eq!(args, vec![CallArg::Ident("a".to_string()), CallArg::Ident("b".to_string())]);
}

#[test]
fn receiver_outside_the_slot_is_refused() {
    let s = sig(
        "f",
        vec![ident_param("deps", "&D"), Param { pattern: ParamPattern::Receiver, ty: "&Self".to_string() }],
        "()",
    );
    assert_eq!(
        extract_call_param_list(&s, false),
        Err(EngineError::UnexpectedReceiverParameter { position: 1 })
    );
}

#[test]
fn destructuring_parameter_is_refused() {
    let s = sig(
        "f",
        vec![
            ident_param("deps", "&D"),
            ident_param("a", "u32"),
            Param { pattern: ParamPattern::Destructure, ty: "(u32, u32)".to_string() },
            Param { pattern: ParamPattern::Receiver, ty: "&Self".to_string() },
        ],
        "()",
    );
    assert_eq!(
        parse_fn(Visibility::Public, s, false),
        Err(EngineError::NonIdentifierParameterPattern { position: 2 })
    );
}

#[test]
fn parse_keeps_the_declaration() {
    let f = parse_fn(Visibility::Restricted, double_sig(), false).unwrap();
    assert_eq!(f.fn_sig, double_sig());
    assert_eq!(f.fn_vis, Visibility::Restricted);
    assert_eq!(f.fn_body, "{ n * 2 }");
    assert_eq!(f.trait_fn_inputs, vec![ident_param("n", "i32")]);
    assert_eq!(f.call_param_list, vec![CallArg::Dependency, CallArg::Ident("n".to_string())]);
}

#[test]
fn unknown_option_is_rejected() {
    let r = EntraitAttr::parse(named("Foo"), &vec![opt("foo", Some("true"))], MockLibrary::Absent);
    assert_eq!(r, Err(EngineError::UnknownOption { name: "foo".to_string() }));
}

#[test]
fn unknown_option_anywhere_aborts() {
    let r = EntraitAttr::parse(
        named("Foo"),
        &vec![opt("debug", None), opt("foo", Some("true")), opt("debug", Some("maybe"))],
        MockLibrary::Absent,
    );
    assert_eq!(r, Err(EngineError::UnknownOption { name: "foo".to_string() }));
}

#[test]
fn resolution_is_deterministic() {
    let options = vec![opt("debug", None), opt("delegate_by", Some("ref")), opt("mockable", Some("true"))];
    let a = EntraitAttr::parse(named("Foo"), &options, MockLibrary::Mockall);
    let b = EntraitAttr::parse(named("Foo"), &options, MockLibrary::Mockall);
    assert_eq!(a, b);
}

#[test]
fn defaults_and_bare_keys() {
    let a = EntraitAttr::parse(named("Foo"), &vec![], MockLibrary::Absent).unwrap();
    assert_eq!(a.trait_ident, Some("Foo".to_string()));
    assert_eq!(a.trait_visibility, Visibility::Public);
    assert!(!a.debug && !a.mockable && !a.no_deps && !a.export && !a.send_opt_out);
    assert_eq!(a.async_mode, AsyncMode::Plain);
    assert_eq!(a.delegate_by, DelegateBy::SelfBound);
    assert_eq!(a.mock_surface_name, None);

    let b = EntraitAttr::parse(
        None,
        &vec![opt("no_deps", None), opt("export", Some("true")), opt("debug", Some("false"))],
        MockLibrary::Unimock,
    )
    .unwrap();
    assert_eq!(b.trait_ident, None);
    assert!(b.no_deps && b.export && !b.debug);
    assert_eq!(b.mock_library, MockLibrary::Unimock);
}

#[test]
fn options_in_any_order() {
    let a = EntraitAttr::parse(
        named("Foo"),
        &vec![opt("async_mode", Some("async_trait")), opt("send_opt_out", None)],
        MockLibrary::Absent,
    );
    let b = EntraitAttr::parse(
        named("Foo"),
        &vec![opt("send_opt_out", None), opt("async_mode", Some("async_trait"))],
        MockLibrary::Absent,
    );
    assert_eq!(a, b);
    assert_eq!(a.unwrap().async_mode, AsyncMode::AsyncTrait);
}

#[test]
fn duplicate_option_is_rejected() {
    let r = EntraitAttr::parse(
        named("Foo"),
        &vec![opt("debug", None), opt("mockable", None), opt("debug", Some("false"))],
        MockLibrary::Absent,
    );
    assert_eq!(r, Err(EngineError::DuplicateOption { name: "debug".to_string() }));
}

#[test]
fn invalid_option_values() {
    let cases = vec![
        (opt("debug", Some("yes")), "debug", ValueShape::Bool),
        (opt("mock_surface_name", None), "mock_surface_name", ValueShape::Identifier),
        (opt("mock_surface_name", Some("fn")), "mock_surface_name", ValueShape::Identifier),
        (opt("mock_surface_name", Some("two words")), "mock_surface_name", ValueShape::Identifier),
        (opt("delegate_by", Some("_")), "delegate_by", ValueShape::DelegationTarget),
        (opt("delegate_by", None), "delegate_by", ValueShape::DelegationTarget),
        (opt("async_mode", Some("sometimes")), "async_mode", ValueShape::AsyncMode),
    ];
    for (tok, name, expected) in cases {
        assert_eq!(
            Extension::parse(&tok),
            Err(EngineError::InvalidOptionValue { name: name.to_string(), expected })
        );
    }
}

#[test]
fn option_values_that_resolve() {
    assert_eq!(
        Extension::parse(&opt("delegate_by", Some("Self"))),
        Ok(Extension::DelegateBy(DelegateBy::SelfBound))
    );
    assert_eq!(
        Extension::parse(&opt("delegate_by", Some("ref"))),
        Ok(Extension::DelegateBy(DelegateBy::RefUpcast))
    );
    assert_eq!(
        Extension::parse(&opt("delegate_by", Some("DelegateFoo"))),
        Ok(Extension::DelegateBy(DelegateBy::Named("DelegateFoo".to_string())))
    );
    assert_eq!(
        Extension::parse(&opt("async_mode", Some("associated_future"))),
        Ok(Extension::AsyncMode(AsyncMode::AssociatedFuture))
    );
    assert_eq!(
        Extension::parse(&opt("async_mode", Some("none"))),
        Ok(Extension::AsyncMode(AsyncMode::Plain))
    );
    assert_eq!(
        Extension::parse(&opt("mock_surface_name", Some("FooMock"))),
        Ok(Extension::MockSurfaceName("FooMock".to_string()))
    );
    assert_eq!(Extension::parse(&opt("mockable", None)), Ok(Extension::Mockable(true)));
}

#[test]
fn option_from_given_identifier_check() {
    let tok = opt("mock_surface_name", Some("FooMock"));
    assert_eq!(
        Extension::from_token(&tok, false),
        Err(EngineError::InvalidOptionValue {
            name: "mock_surface_name".to_string(),
            expected: ValueShape::Identifier
        })
    );
    assert_eq!(Extension::from_token(&tok, true), Ok(Extension::MockSurfaceName("FooMock".to_string())));
}

#[test]
fn single_function_interface() {
    let attr = attr_with("Double", vec![]);
    let f = parse_fn(Visibility::Private, double_sig(), false).unwrap();
    let d = synthesize_fn_interface(&attr, &f).unwrap();
    assert_eq!(d.ident, "Double");
    assert_eq!(d.vis, Visibility::Public);
    assert_eq!(
        d.methods,
        vec![TraitMethod {
            ident: "double".to_string(),
            receiver: MethodReceiver::SelfRef,
            inputs: vec![ident_param("n", "i32")],
            output: "i32".to_string(),
            is_async: false,
        }]
    );
}

#[test]
fn function_interface_needs_a_name() {
    let attr = EntraitAttr::parse(None, &vec![], MockLibrary::Absent).unwrap();
    let f = parse_fn(Visibility::Public, double_sig(), false).unwrap();
    assert_eq!(synthesize_fn_interface(&attr, &f), Err(EngineError::MissingInterfaceName));
}

#[test]
fn module_interface_skips_private_functions() {
    let attr = attr_with("Group", vec![]);
    let fns = vec![
        parse_fn(Visibility::Public, sig("foo", vec![ident_param("d", "&D")], "u8"), false).unwrap(),
        parse_fn(Visibility::Private, sig("helper", vec![ident_param("d", "&D")], "u8"), false).unwrap(),
        parse_fn(Visibility::Restricted, sig("bar", vec![ident_param("d", "&D"), ident_param("x", "u8")], "()"), false)
            .unwrap(),
    ];
    let d = synthesize_module_interface(&attr, &fns).unwrap();
    let names: Vec<&str> = d.methods.iter().map(|m| m.ident.as_str()).collect();
    assert_eq!(names, vec!["foo", "bar"]);
    assert_eq!(d.methods[1].inputs, vec![ident_param("x", "u8")]);
}

#[test]
fn module_interface_refuses_duplicate_names() {
    let attr = attr_with("Group", vec![]);
    let fns = vec![
        parse_fn(Visibility::Public, sig("foo", vec![ident_param("d", "&D")], "u8"), false).unwrap(),
        parse_fn(Visibility::Public, sig("bar", vec![ident_param("d", "&D")], "u8"), false).unwrap(),
        parse_fn(Visibility::Private, sig("foo", vec![ident_param("d", "&D")], "u8"), false).unwrap(),
        parse_fn(Visibility::Public, sig("bar", vec![ident_param("d", "&D")], "()"), false).unwrap(),
    ];
    assert_eq!(
        synthesize_module_interface(&attr, &fns),
        Err(EngineError::DuplicateMethodName { name: "bar".to_string() })
    );
}

#[test]
fn forwarding_is_the_same_call_for_every_strategy() {
    let f = parse_fn(Visibility::Public, double_sig(), false).unwrap();
    let strategies = vec![
        (DelegateBy::SelfBound, Callee::OriginalFn("double".to_string()), DependencyExpr::InnerRef),
        (DelegateBy::RefUpcast, Callee::DynMethod("double".to_string()), DependencyExpr::DynUpcast),
        (
            DelegateBy::Named("DelegateDouble".to_string()),
            Callee::TargetFn("double".to_string()),
            DependencyExpr::WrapperRef,
        ),
    ];
    for (by, callee, dependency) in strategies {
        let attr = attr_with("Double", vec![]);
        let d = synthesize_fn_interface(&attr, &f).unwrap();
        let fwd = select_delegation(&d, &vec![f.clone()], false, &by);
        assert_eq!(fwd.interface, "Double");
        assert_eq!(fwd.methods.len(), 1);
        assert_eq!(fwd.methods[0].ident, "double");
        assert_eq!(fwd.methods[0].callee, callee);
        assert_eq!(fwd.methods[0].dependency, dependency);
        assert_eq!(fwd.methods[0].args, vec![CallArg::Dependency, CallArg::Ident("n".to_string())]);
    }
}

#[test]
fn strategy_bounds() {
    let f = parse_fn(Visibility::Public, double_sig(), false).unwrap();
    let d = synthesize_fn_interface(&attr_with("Double", vec![]), &f).unwrap();
    let fns = vec![f];
    let s = select_delegation(&d, &fns, false, &DelegateBy::SelfBound);
    assert_eq!(s.bound, WrapperBound::InnerImplements("Double".to_string()));
    assert_eq!(s.delegation_target, None);
    let r = select_delegation(&d, &fns, false, &DelegateBy::RefUpcast);
    assert_eq!(r.bound, WrapperBound::InnerUpcastsTo("Double".to_string()));
    assert_eq!(r.delegation_target, None);
}

#[test]
fn named_delegation_declares_a_target_interface() {
    let f = parse_fn(Visibility::Public, double_sig(), false).unwrap();
    let d = synthesize_fn_interface(&attr_with("Double", vec![]), &f).unwrap();
    let fwd = select_delegation(&d, &vec![f], false, &DelegateBy::Named("DelegateDouble".to_string()));
    assert_eq!(
        fwd.bound,
        WrapperBound::SelectorTarget {
            selector: "DelegateDouble".to_string(),
            target_trait: "DoubleImpl".to_string()
        }
    );
    let t = fwd.delegation_target.unwrap();
    assert_eq!(t.ident, "DoubleImpl");
    assert_eq!(t.methods.len(), 1);
    assert_eq!(t.methods[0].receiver, MethodReceiver::WrapperParam);
    assert_eq!(t.methods[0].inputs, vec![ident_param("n", "i32")]);
    assert_eq!(t.methods[0].output, "i32");
}

fn impl_method(name: &str, extra: Vec<Param>, output: &str, body: &str) -> ImplMethod {
    let mut inputs = vec![ident_param("deps", "&Impl<T>")];
    inputs.extend(extra);
    ImplMethod { sig: sig(name, inputs, output), body: body.to_string() }
}

fn target_interface() -> InterfaceDef {
    InterfaceDef {
        ident: "FooImpl".to_string(),
        vis: Visibility::Public,
        methods: vec![
            TraitMethod {
                ident: "foo".to_string(),
                receiver: MethodReceiver::WrapperParam,
                inputs: vec![ident_param("x", "u32")],
                output: "u32".to_string(),
                is_async: false,
            },
            TraitMethod {
                ident: "bar".to_string(),
                receiver: MethodReceiver::WrapperParam,
                inputs: vec![],
                output: "String".to_string(),
                is_async: false,
            },
        ],
    }
}

#[test]
fn split_keeps_bodies_and_forwards() {
    let block = ImplBlock {
        trait_ident: "FooImpl".to_string(),
        target_type: "MyImpl".to_string(),
        methods: vec![
            impl_method("foo", vec![ident_param("y", "u32")], "u32", "{ y + 1 }"),
            impl_method("bar", vec![], "String", "{ String::new() }"),
        ],
    };
    let s = split_impl_block(block.clone(), &target_interface(), DispatchMode::Static).unwrap();
    assert_eq!(s.inherent, block);
    assert_eq!(s.inherent.methods[0].body, "{ y + 1 }");
    assert_eq!(s.inherent.methods[1].body, "{ String::new() }");
    assert_eq!(s.mode, DispatchMode::Static);
    assert_eq!(s.forwarding.len(), 2);
    assert_eq!(s.forwarding[0].callee, Callee::InherentMethod("foo".to_string()));
    assert_eq!(s.forwarding[0].dependency, DependencyExpr::WrapperRef);
    assert_eq!(s.forwarding[0].args, vec![CallArg::Dependency, CallArg::Ident("y".to_string())]);
    assert_eq!(s.forwarding[1].callee, Callee::InherentMethod("bar".to_string()));
    assert_eq!(s.forwarding[1].args, vec![CallArg::Dependency]);
}

#[test]
fn split_detects_unknown_method() {
    let block = ImplBlock {
        trait_ident: "FooImpl".to_string(),
        target_type: "MyImpl".to_string(),
        methods: vec![
            impl_method("foo", vec![ident_param("y", "u32")], "u32", "{ y }"),
            impl_method("baz", vec![], "String", "{ String::new() }"),
        ],
    };
    assert_eq!(
        split_impl_block(block, &target_interface(), DispatchMode::Dynamic),
        Err(EngineError::SignatureMismatch { method: "baz".to_string() })
    );
}

#[test]
fn split_detects_changed_types() {
    let block = ImplBlock {
        trait_ident: "FooImpl".to_string(),
        target_type: "MyImpl".to_string(),
        methods: vec![impl_method("foo", vec![ident_param("y", "u64")], "u32", "{ 0 }")],
    };
    assert_eq!(
        split_impl_block(block, &target_interface(), DispatchMode::Static),
        Err(EngineError::SignatureMismatch { method: "foo".to_string() })
    );
}

#[test]
fn mock_request_rules() {
    let d = InterfaceDef { ident: "Foo".to_string(), vis: Visibility::Public, methods: vec![] };

    let plain = EntraitAttr::parse(named("Foo"), &vec![], MockLibrary::Mockall).unwrap();
    let q = request_mock(&plain, &d).unwrap();
    assert!(!q.requested);
    assert_eq!(q.surface_name, None);

    let mockall = EntraitAttr::parse(named("Foo"), &vec![opt("mockable", None)], MockLibrary::Mockall).unwrap();
    let q = request_mock(&mockall, &d).unwrap();
    assert!(q.requested);
    assert_eq!(q.surface_name, Some("MockFoo".to_string()));

    let unimock = EntraitAttr::parse(named("Foo"), &vec![opt("mockable", None)], MockLibrary::Unimock).unwrap();
    assert_eq!(request_mock(&unimock, &d), Err(EngineError::MissingSurfaceName));

    let unimock_named = EntraitAttr::parse(
        named("Foo"),
        &vec![opt("mockable", None), opt("mock_surface_name", Some("FooMock"))],
        MockLibrary::Unimock,
    )
    .unwrap();
    let q = request_mock(&unimock_named, &d).unwrap();
    assert!(q.requested);
    assert_eq!(q.surface_name, Some("FooMock".to_string()));
    assert_eq!(q.library, MockLibrary::Unimock);

    let input = EntraitGenerateMockInput::from_request(&q, vec![d.clone()]).unwrap();
    assert_eq!(input.mock_ident, "FooMock");
    assert_eq!(input.trait_items, vec![d.clone()]);

    let none = request_mock(&plain, &d).unwrap();
    assert_eq!(EntraitGenerateMockInput::from_request(&none, vec![d]), None);
}

#[test]
fn expand_single_function() {
    let attr = attr_with("Double", vec![opt("delegate_by", Some("ref"))]);
    let f = parse_fn(Visibility::Public, double_sig(), false).unwrap();
    let x = expand_fn(&attr, f).unwrap();
    assert_eq!(x.interface.ident, "Double");
    assert_eq!(x.forwarding.methods[0].callee, Callee::DynMethod("double".to_string()));
    assert!(!x.mock.requested);

    let refused = EntraitAttr::parse(named("Double"), &vec![opt("mockable", None)], MockLibrary::Unimock).unwrap();
    let f = parse_fn(Visibility::Public, double_sig(), false).unwrap();
    assert_eq!(expand_fn(&refused, f), Err(EngineError::MissingSurfaceName));
}

#[test]
fn expand_grouped_functions() {
    let attr = attr_with("Group", vec![]);
    let fns = vec![
        parse_fn(Visibility::Public, sig("foo", vec![ident_param("d", "&D")], "u8"), false).unwrap(),
        parse_fn(Visibility::Private, sig("helper", vec![ident_param("d", "&D")], "u8"), false).unwrap(),
        parse_fn(Visibility::Public, sig("bar", vec![ident_param("d", "&D"), ident_param("x", "u8")], "()"), false)
            .unwrap(),
    ];
    let x = expand_module(&attr, &fns).unwrap();
    assert_eq!(x.interface.methods.len(), 2);
    assert_eq!(x.forwarding.methods.len(), 2);
    assert_eq!(x.forwarding.methods[0].callee, Callee::OriginalFn("foo".to_string()));
    assert_eq!(x.forwarding.methods[1].callee, Callee::OriginalFn("bar".to_string()));
    assert_eq!(
        x.forwarding.methods[1].args,
        vec![CallArg::Dependency, CallArg::Ident("x".to_string())]
    );
}

fn generic(kind: GenericKind, name: &str) -> GenericParam {
    GenericParam { kind, name: name.to_string() }
}

fn dyn_block(m: ImplMethod) -> ImplBlock {
    ImplBlock { trait_ident: "FooImpl".to_string(), target_type: "MyImpl".to_string(), methods: vec![m] }
}

#[test]
fn dynamic_split_refuses_generic_methods() {
    let mut m = impl_method("foo", vec![ident_param("y", "u32")], "u32", "{ y }");
    m.sig.generics = vec![generic(GenericKind::Type, "U")];
    let block = dyn_block(m);
    assert_eq!(
        split_impl_block(block.clone(), &target_interface(), DispatchMode::Dynamic),
        Err(EngineError::SignatureMismatch { method: "foo".to_string() })
    );
    let s = split_impl_block(block, &target_interface(), DispatchMode::Static).unwrap();
    assert_eq!(s.forwarding.len(), 1);
}

#[test]
fn dynamic_split_allows_the_wrappers_generic() {
    // `fn foo<D>(deps: &D, y: u32) -> u32`
    let mut m = impl_method("foo", vec![ident_param("y", "u32")], "u32", "{ y }");
    m.sig.inputs[0] = ident_param("deps", "& D");
    m.sig.generics = vec![generic(GenericKind::Type, "D"), generic(GenericKind::Lifetime, "'a")];
    let s = split_impl_block(dyn_block(m), &target_interface(), DispatchMode::Dynamic).unwrap();
    assert_eq!(s.forwarding[0].args, vec![CallArg::Dependency, CallArg::Ident("y".to_string())]);

    // A generic whose name only starts like the wrapper's is another generic.
    let mut n = impl_method("foo", vec![ident_param("y", "u32")], "u32", "{ y }");
    n.sig.inputs[0] = ident_param("deps", "& Deps");
    n.sig.generics = vec![generic(GenericKind::Type, "D")];
    assert_eq!(
        split_impl_block(dyn_block(n), &target_interface(), DispatchMode::Dynamic),
        Err(EngineError::SignatureMismatch { method: "foo".to_string() })
    );
}

#[test]
fn dynamic_split_refuses_impl_parameters() {
    let m = impl_method("foo", vec![ident_param("y", "impl Into < u32 >")], "u32", "{ 0 }");
    let mut iface = target_interface();
    iface.methods[0].inputs[0].ty = "impl Into < u32 >".to_string();
    assert_eq!(
        split_impl_block(dyn_block(m.clone()), &iface, DispatchMode::Dynamic),
        Err(EngineError::SignatureMismatch { method: "foo".to_string() })
    );
    assert!(split_impl_block(dyn_block(m), &iface, DispatchMode::Static).is_ok());
}

#[test]
fn split_refuses_pattern_parameters() {
    let m = impl_method(
        "foo",
        vec![Param { pattern: ParamPattern::Destructure, ty: "u32".to_string() }],
        "u32",
        "{ 0 }",
    );
    let block = ImplBlock {
        trait_ident: "FooImpl".to_string(),
        target_type: "MyImpl".to_string(),
        methods: vec![m],
    };
    assert_eq!(
        split_impl_block(block, &target_interface(), DispatchMode::Static),
        Err(EngineError::NonIdentifierParameterPattern { position: 1 })
    );
}

fn existing_interface() -> InterfaceDef {
    InterfaceDef {
        ident: "Repo".to_string(),
        vis: Visibility::Public,
        methods: vec![
            TraitMethod {
                ident: "load".to_string(),
                receiver: MethodReceiver::SelfRef,
                inputs: vec![ident_param("id", "u32")],
                output: "Option<String>".to_string(),
                is_async: false,
            },
            TraitMethod {
                ident: "version".to_string(),
                receiver: MethodReceiver::Static,
                inputs: vec![ident_param("major", "bool")],
                output: "u8".to_string(),
                is_async: false,
            },
        ],
    }
}

#[test]
fn existing_interface_forwards_each_method() {
    let d = existing_interface();
    let f = forward_interface(&d, &DelegateBy::SelfBound, &None).unwrap();
    assert_eq!(f.interface, "Repo");
    assert_eq!(f.bound, WrapperBound::InnerImplements("Repo".to_string()));
    assert_eq!(f.methods.len(), 2);
    assert_eq!(f.methods[0].callee, Callee::InnerMethod("load".to_string()));
    assert_eq!(f.methods[0].dependency, DependencyExpr::InnerRef);
    assert_eq!(f.methods[0].args, vec![CallArg::Dependency, CallArg::Ident("id".to_string())]);
    assert_eq!(f.methods[1].args, vec![CallArg::Ident("major".to_string())]);

    let g = forward_interface(&d, &DelegateBy::RefUpcast, &None).unwrap();
    assert_eq!(g.methods[0].callee, Callee::DynMethod("load".to_string()));
    assert_eq!(g.methods[0].dependency, DependencyExpr::DynUpcast);
    assert_eq!(g.methods[0].args, f.methods[0].args);

    let h = forward_interface(&d, &DelegateBy::Named("RepoSelector".to_string()), &None).unwrap();
    assert_eq!(h.methods[0].callee, Callee::TargetFn("load".to_string()));
    assert_eq!(h.delegation_target.unwrap().ident, "RepoImpl");
}

#[test]
fn existing_interface_refuses_patterns() {
    let mut d = existing_interface();
    d.methods[0].inputs.push(Param { pattern: ParamPattern::Destructure, ty: "(u8, u8)".to_string() });
    assert_eq!(
        forward_interface(&d, &DelegateBy::SelfBound, &None),
        Err(EngineError::NonIdentifierParameterPattern { position: 2 })
    );
}

#[test]
fn expand_existing_interface() {
    let attr = EntraitAttr::parse(
        None,
        &vec![opt("delegate_by", Some("ref")), opt("mockable", None), opt("mock_surface_name", Some("RepoMock"))],
        MockLibrary::Unimock,
    )
    .unwrap();
    let x = expand_interface(&attr, &existing_interface()).unwrap();
    assert_eq!(x.forwarding.strategy, DelegateBy::RefUpcast);
    assert_eq!(x.mock.surface_name, Some("RepoMock".to_string()));

    let refused = EntraitAttr::parse(None, &vec![opt("mockable", None)], MockLibrary::Unimock).unwrap();
    assert_eq!(expand_interface(&refused, &existing_interface()), Err(EngineError::MissingSurfaceName));
}

#[test]
fn resolve_takes_the_identifier_answers() {
    let options = vec![opt("debug", None), opt("mock_surface_name", Some("FooMock"))];
    let yes = EntraitAttr::resolve(named("Foo"), &options, &vec![false, true], MockLibrary::Absent).unwrap();
    assert!(yes.debug);
    assert_eq!(yes.mock_surface_name, Some("FooMock".to_string()));
    assert_eq!(
        EntraitAttr::resolve(named("Foo"), &options, &vec![false, false], MockLibrary::Absent),
        Err(EngineError::InvalidOptionValue {
            name: "mock_surface_name".to_string(),
            expected: ValueShape::Identifier
        })
    );
    assert_eq!(
        EntraitAttr::resolve(named("Foo"), &options, &vec![], MockLibrary::Absent),
        EntraitAttr::resolve(named("Foo"), &options, &vec![false, false], MockLibrary::Absent)
    );
    let named_target = vec![opt("delegate_by", Some("Selector"))];
    assert_eq!(
        EntraitAttr::resolve(named("Foo"), &named_target, &vec![true], MockLibrary::Absent).unwrap().delegate_by,
        DelegateBy::Named("Selector".to_string())
    );
}

#[test]
fn split_refuses_a_block_for_another_interface() {
    let block = ImplBlock {
        trait_ident: "BarImpl".to_string(),
        target_type: "MyImpl".to_string(),
        methods: vec![impl_method("foo", vec![ident_param("y", "u32")], "u32", "{ y }")],
    };
    assert_eq!(
        split_impl_block(block, &target_interface(), DispatchMode::Static),
        Err(EngineError::InterfaceMismatch { claimed: "BarImpl".to_string() })
    );
}

#[test]
fn interface_name_names_the_delegation_target() {
    let attr = EntraitAttr::parse(
        named("RepoTarget"),
        &vec![opt("delegate_by", Some("Sel"))],
        MockLibrary::Absent,
    )
    .unwrap();
    let x = expand_interface(&attr, &existing_interface()).unwrap();
    assert_eq!(x.forwarding.interface, "Repo");
    assert_eq!(
        x.forwarding.bound,
        WrapperBound::SelectorTarget { selector: "Sel".to_string(), target_trait: "RepoTarget".to_string() }
    );
    assert_eq!(x.forwarding.delegation_target.unwrap().ident, "RepoTarget");

    let given = forward_interface(
        &existing_interface(),
        &DelegateBy::Named("Sel".to_string()),
        &Some("Other".to_string()),
    )
    .unwrap();
    assert_eq!(given.delegation_target.unwrap().ident, "Other");
}
