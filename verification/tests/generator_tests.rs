use gobject_ffi::{
    build_ffi_params, check_fallibility, extract_mut_ref_inner, extract_option_inner,
    extract_result_ok_type_as_type, ffi_impl, generate_get_type_fn, generate_type_alias,
    is_mutable_reference, is_result_type, is_unit_type, rust_type_to_c_type, AsyncFunctionNames,
    CRepr, CTypeOverride, FfiBuilder, FfiImplArgs, FfiMethodContext, FfiType,
    MethodDescriptor, ParamDescriptor, SemType, TransferMode,
};

fn method(name: &str, has_self: bool, params: Vec<ParamDescriptor>, ret: SemType, is_async: bool) -> MethodDescriptor {
    MethodDescriptor {
        name: String::from(name),
        has_self,
        params,
        ret,
        is_async,
        return_override: None,
    }
}

fn param(name: &str, ty: SemType) -> ParamDescriptor {
    ParamDescriptor { name: String::from(name), ty, transfer_override: None }
}

#[test]
fn transfer_mode_conversion_statements() {
    assert_eq!(
        TransferMode::Primitive.convert_from("x", "i32"),
        "let x: i32 = unsafe { ::glib::translate::FromGlib::from_glib(x) };"
    );
    assert_eq!(
        TransferMode::Borrowed.convert_from("s", "String"),
        "let s: String = unsafe { ::glib::translate::FromGlibPtrNone::from_glib_none(s) };"
    );
    assert_eq!(
        TransferMode::Owned.convert_from("s", "String"),
        "let s: String = unsafe { ::glib::translate::FromGlibPtrFull::from_glib_full(s) };"
    );
}

#[test]
fn transfer_mode_conversion_expressions() {
    assert_eq!(
        TransferMode::Primitive.convert_to("val"),
        "::glib::translate::IntoGlib::into_glib(val)"
    );
    assert_eq!(
        TransferMode::Borrowed.convert_to("val"),
        "::glib::translate::ToGlibPtr::to_glib_none(&val).0"
    );
    assert_eq!(
        TransferMode::Owned.convert_to("val"),
        "::glib::translate::ToGlibPtr::to_glib_full(&val)"
    );
}

#[test]
fn transfer_mode_sentinels() {
    assert_eq!(TransferMode::Primitive.error_value(), "0");
    assert_eq!(TransferMode::Borrowed.error_value(), "::std::ptr::null_mut()");
    assert_eq!(TransferMode::Owned.error_value(), "::std::ptr::null_mut()");
}

#[test]
fn receiver_categories() {
    assert!(FfiType::Object.is_gobject());
    assert!(!FfiType::Boxed.is_gobject());
    assert!(!FfiType::Shared.is_gobject());
    assert!(!FfiType::Enum.is_gobject());
    assert!(!FfiType::Flags.is_gobject());

    assert_eq!(FfiType::Enum.self_c_type(), Some(String::from("i32")));
    assert_eq!(FfiType::Flags.self_c_type(), Some(String::from("u32")));
    assert_eq!(FfiType::Object.self_c_type(), None);
    assert_eq!(FfiType::Boxed.self_c_type(), None);
    assert_eq!(FfiType::Shared.self_c_type(), None);

    assert_eq!(FfiType::Enum.self_transfer_mode(), TransferMode::Primitive);
    assert_eq!(FfiType::Flags.self_transfer_mode(), TransferMode::Primitive);
    assert_eq!(FfiType::Object.self_transfer_mode(), TransferMode::Borrowed);
    assert_eq!(FfiType::Boxed.self_transfer_mode(), TransferMode::Borrowed);
    assert_eq!(FfiType::Shared.self_transfer_mode(), TransferMode::Borrowed);
}

#[test]
fn semantic_type_predicates() {
    assert!(is_unit_type(&SemType::Unit));
    assert!(!is_unit_type(&SemType::Bool));
    assert!(is_result_type(&SemType::ResultOf(Box::new(SemType::I32))));
    assert!(!is_result_type(&SemType::I32));
    assert!(check_fallibility(&SemType::ResultOf(Box::new(SemType::Unit))));
    assert!(!check_fallibility(&SemType::Str));
    assert!(is_mutable_reference(&SemType::MutRef(Box::new(SemType::I32))));
    assert!(!is_mutable_reference(&SemType::I32));

    let opt = SemType::Opt(Box::new(SemType::I32));
    assert!(matches!(extract_option_inner(&opt), Some(SemType::I32)));
    assert!(extract_option_inner(&SemType::I32).is_none());

    let mr = SemType::MutRef(Box::new(SemType::U64));
    assert!(matches!(extract_mut_ref_inner(&mr), Some(SemType::U64)));
    assert!(extract_mut_ref_inner(&SemType::U64).is_none());

    let res = SemType::ResultOf(Box::new(SemType::Str));
    assert!(matches!(extract_result_ok_type_as_type(&res), SemType::Str));
    assert!(matches!(extract_result_ok_type_as_type(&SemType::Str), SemType::Unit));
}

#[test]
fn c_type_mapping() {
    assert_eq!(
        rust_type_to_c_type(&SemType::Bool),
        "<bool as ::gobject_ffi::FfiConvert>::CType"
    );
    assert_eq!(
        rust_type_to_c_type(&SemType::Opt(Box::new(SemType::I32))),
        "<i32 as ::gobject_ffi::FfiConvert>::CType"
    );
    assert_eq!(
        rust_type_to_c_type(&SemType::MutRef(Box::new(SemType::I32))),
        "*mut <i32 as ::gobject_ffi::FfiConvert>::CType"
    );
    assert_eq!(
        rust_type_to_c_type(&SemType::StrList),
        "<Vec<String> as ::gobject_ffi::FfiConvert>::CType"
    );
}

#[test]
fn override_parsing() {
    let ok = CTypeOverride::parse(
        &String::from("i32"),
        &String::from("transfer"),
        &String::from("none"),
    )
    .unwrap();
    assert_eq!(ok.c_type, "i32");
    assert_eq!(ok.transfer, TransferMode::Borrowed);

    let ok = CTypeOverride::parse(
        &String::from("u32"),
        &String::from("transfer"),
        &String::from("primitive"),
    )
    .unwrap();
    assert_eq!(ok.transfer, TransferMode::Primitive);

    let ok = CTypeOverride::parse(
        &String::from("*mut X"),
        &String::from("transfer"),
        &String::from("full"),
    )
    .unwrap();
    assert_eq!(ok.transfer, TransferMode::Owned);

    let err = CTypeOverride::parse(
        &String::from("i32"),
        &String::from("owner"),
        &String::from("none"),
    )
    .unwrap_err();
    assert_eq!(err.message(), "expected `transfer`, found `owner`");

    let err = CTypeOverride::parse(
        &String::from("i32"),
        &String::from("transfer"),
        &String::from("borrowed"),
    )
    .unwrap_err();
    assert_eq!(
        err.message(),
        "expected `primitive`, `none`, or `full`, found `borrowed`"
    );
}

#[test]
fn impl_args_parsing() {
    let args = FfiImplArgs::parse(&vec![]).unwrap();
    assert_eq!(args.c_type_name, None);
    assert_eq!(args.prefix, "");
    assert_eq!(args.ty, FfiType::Object);

    let args = FfiImplArgs::parse(&vec![
        (String::from("prefix"), String::from("my")),
        (String::from("ty"), String::from("enum")),
        (String::from("c_type_name"), String::from("MyColor")),
    ])
    .unwrap();
    assert_eq!(args.c_type_name, Some(String::from("MyColor")));
    assert_eq!(args.prefix, "my");
    assert_eq!(args.ty, FfiType::Enum);

    for (value, ty) in [
        ("object", FfiType::Object),
        ("boxed", FfiType::Boxed),
        ("shared", FfiType::Shared),
        ("enum", FfiType::Enum),
        ("flags", FfiType::Flags),
    ] {
        let args =
            FfiImplArgs::parse(&vec![(String::from("ty"), String::from(value))]).unwrap();
        assert_eq!(args.ty, ty);
    }

    let err = FfiImplArgs::parse(&vec![(String::from("tier"), String::from("x"))]).unwrap_err();
    assert_eq!(err.message(), "expected `c_type_name`, `prefix`, or `ty`, found `tier`");

    let err = FfiImplArgs::parse(&vec![(String::from("ty"), String::from("class"))]).unwrap_err();
    assert_eq!(
        err.message(),
        "expected one of: `object`, `boxed`, `shared`, `enum`, `flags`, found `class`"
    );
}

#[test]
fn c_type_name_derivation() {
    let args = FfiImplArgs {
        c_type_name: Some(String::from("Explicit")),
        prefix: String::new(),
        ty: FfiType::Object,
    };
    assert_eq!(args.get_c_type_name(&String::from("Ignored")).unwrap(), "Explicit");

    let args = FfiImplArgs { c_type_name: None, prefix: String::new(), ty: FfiType::Object };
    assert_eq!(args.get_c_type_name(&String::from("Widget")).unwrap(), "Widget");
    let err = args.get_c_type_name(&String::new()).unwrap_err();
    assert_eq!(err.message(), "cannot derive a C type name; specify `c_type_name` explicitly");
}

#[test]
fn resolver_builtin_rules() {
    let r = gobject_ffi::resolve(&SemType::Bool, None).unwrap();
    match r {
        CRepr::Value { c_type, mode } => {
            assert_eq!(c_type, "gboolean");
            assert_eq!(mode, TransferMode::Primitive);
        }
        _ => panic!("expected a value representation"),
    }

    let r = gobject_ffi::resolve(&SemType::Str, None).unwrap();
    match r {
        CRepr::Value { c_type, mode } => {
            assert_eq!(c_type, "*mut c_char");
            assert_eq!(mode, TransferMode::Owned);
        }
        _ => panic!("expected a value representation"),
    }

    assert!(matches!(gobject_ffi::resolve(&SemType::Unit, None).unwrap(), CRepr::Nothing));

    let r = gobject_ffi::resolve(&SemType::Opt(Box::new(SemType::ByteVec)), None).unwrap();
    match r {
        CRepr::Value { c_type, mode } => {
            assert_eq!(c_type, "*mut GBytes");
            assert_eq!(mode, TransferMode::Owned);
        }
        _ => panic!("expected a value representation"),
    }

    let r = gobject_ffi::resolve(&SemType::MutRef(Box::new(SemType::I32)), None).unwrap();
    match r {
        CRepr::Location { c_type } => assert_eq!(c_type, "*mut i32"),
        _ => panic!("expected a location representation"),
    }

    let err = gobject_ffi::resolve(&SemType::Named(String::from("Weird")), None).unwrap_err();
    assert_eq!(err.message(), "no marshaling rule for `Weird`; supply an explicit transfer override");

    let over = CTypeOverride { c_type: String::from("i32"), transfer: TransferMode::Primitive };
    let r = gobject_ffi::resolve(&SemType::Named(String::from("Weird")), Some(&over)).unwrap();
    match r {
        CRepr::Value { c_type, mode } => {
            assert_eq!(c_type, "i32");
            assert_eq!(mode, TransferMode::Primitive);
        }
        _ => panic!("expected a value representation"),
    }
}

#[test]
fn triad_names_from_prefix() {
    let names = AsyncFunctionNames::from_prefix("calculator_compute");
    assert_eq!(names.async_name, "calculator_compute");
    assert_eq!(names.finish_name, "calculator_compute_finish");
    assert_eq!(names.sync_name, "calculator_compute_sync");
}

#[test]
fn method_context() {
    let m = method("divide", true, vec![], SemType::ResultOf(Box::new(SemType::I32)), true);
    let ctx = FfiMethodContext::new(&m, "calculator");
    assert_eq!(ctx.fn_name, "divide");
    assert_eq!(ctx.ffi_prefix, "calculator_divide");
    assert!(ctx.is_async);
    assert!(ctx.is_fallible);
    let names = ctx.async_names.unwrap();
    assert_eq!(names.finish_name, "calculator_divide_finish");

    let m = method("add", true, vec![], SemType::I32, false);
    let ctx = FfiMethodContext::new(&m, "calculator");
    assert!(!ctx.is_async);
    assert!(!ctx.is_fallible);
    assert!(ctx.async_names.is_none());
}

#[test]
fn components_for_two_parameters() {
    let params = vec![param("a", SemType::I32), param("b", SemType::I32)];
    let c = build_ffi_params(&params, &SemType::I32, &String::from("Calculator"), None, false);
    assert_eq!(
        c.params,
        "a: <i32 as ::gobject_ffi::FfiConvert>::CType, b: <i32 as ::gobject_ffi::FfiConvert>::CType, "
    );
    assert_eq!(c.conversions.len(), 2);
    assert_eq!(
        c.conversions[0],
        "let a: i32 = unsafe { <i32 as ::gobject_ffi::FfiConvert>::from_c_borrowed(a) };"
    );
    assert_eq!(c.sync_call_args, "a, b, ");
    assert_eq!(c.param_call_args, "a, b");
    assert_eq!(c.return_type, "<i32 as ::gobject_ffi::FfiConvert>::CType");
    assert_eq!(c.ok_handler, "<i32 as ::gobject_ffi::FfiConvert>::to_c_owned(val)");
    assert_eq!(c.err_handler, "<i32 as ::gobject_ffi::FfiConvert>::c_error_value()");
}

#[test]
fn components_for_pointer_category_constructor() {
    let c = build_ffi_params(&vec![], &SemType::Named(String::from("super::Calculator")), &String::from("Calculator"), None, true);
    assert_eq!(c.params, "");
    assert_eq!(c.return_type, "*mut Calculator");
    assert_eq!(c.ok_handler, "::glib::translate::ToGlibPtr::to_glib_full(&val)");
    assert_eq!(c.err_handler, "::std::ptr::null_mut()");
}

#[test]
fn type_alias_per_category() {
    let tn = String::from("Calculator");
    let cn = String::from("Calculator");
    assert_eq!(
        generate_type_alias(FfiType::Object, &tn, &cn),
        "pub type Calculator = <imp::Calculator as ::glib::subclass::prelude::ObjectSubclass>::Instance;"
    );
    assert_eq!(
        generate_type_alias(FfiType::Boxed, &tn, &cn),
        "pub type Calculator = <super::Calculator as ::glib::translate::GlibPtrDefault>::GlibType;"
    );
    assert_eq!(
        generate_type_alias(FfiType::Enum, &tn, &cn),
        "pub type Calculator = super::Calculator;"
    );
    assert_eq!(
        generate_type_alias(FfiType::Flags, &tn, &cn),
        "pub type Calculator = super::Calculator;"
    );
    assert!(generate_type_alias(FfiType::Shared, &tn, &cn).contains("RefCounted"));
}

#[test]
fn get_type_accessor() {
    assert_eq!(
        generate_get_type_fn(&String::from("calculator"), &String::from("Calculator")),
        "#[unsafe(no_mangle)]\npub unsafe extern \"C\" fn calculator_get_type() -> ::glib::ffi::GType {\n    ::glib::translate::IntoGlib::into_glib(<super::Calculator as ::glib::prelude::StaticType>::static_type())\n}\n"
    );
}

#[test]
fn whole_module_for_simple_object() {
    let args = FfiImplArgs { c_type_name: None, prefix: String::new(), ty: FfiType::Object };
    let methods = vec![
        method("new", false, vec![], SemType::Unit, false),
        method(
            "add",
            true,
            vec![param("a", SemType::I32), param("b", SemType::I32)],
            SemType::I32,
            false,
        ),
        method(
            "divide",
            true,
            vec![param("a", SemType::I32), param("b", SemType::I32)],
            SemType::ResultOf(Box::new(SemType::I32)),
            false,
        ),
    ];
    let g = ffi_impl(&args, &String::from("Calculator"), &methods).unwrap();
    // The prefix is the snake_case form of the type name, the C type name
    // its UpperCamelCase form.
    assert_eq!(g.prefix, "calculator");
    assert_eq!(g.c_type_name, "Calculator");
    assert_eq!(g.functions.len(), 3);

    let expected_add = String::from("#[unsafe(no_mangle)]\npub unsafe extern \"C\" fn calculator_add(")
        + "self_param: *mut Calculator, "
        + "a: <i32 as ::gobject_ffi::FfiConvert>::CType, "
        + "b: <i32 as ::gobject_ffi::FfiConvert>::CType, "
        + ") -> <i32 as ::gobject_ffi::FfiConvert>::CType {\n"
        + "    let self_param: super::Calculator = unsafe { ::glib::translate::FromGlibPtrNone::from_glib_none(self_param) };\n"
        + "    let a: i32 = unsafe { <i32 as ::gobject_ffi::FfiConvert>::from_c_borrowed(a) };\n"
        + "    let b: i32 = unsafe { <i32 as ::gobject_ffi::FfiConvert>::from_c_borrowed(b) };\n"
        + "    let val = self_param.add(a, b);\n"
        + "    <i32 as ::gobject_ffi::FfiConvert>::to_c_owned(val)\n"
        + "}\n";
    assert_eq!(g.functions[1], expected_add);

    // A constructor takes no self parameter and returns an owned pointer.
    assert!(g.functions[0].contains("pub unsafe extern \"C\" fn calculator_new(") );
    assert!(g.functions[0].contains(") -> *mut Calculator {"));
    assert!(g.functions[0].contains("let val = super::Calculator::new();"));
    assert!(g.functions[0].contains("::glib::translate::ToGlibPtr::to_glib_full(&val)"));

    // A fallible method takes the error out-parameter and relays failure.
    assert!(g.functions[2].contains("error: *mut *mut ::glib::ffi::GError, "));
    assert!(g.functions[2].contains("match self_param.divide(a, b) {"));
    assert!(g.functions[2].contains("if !error.is_null() {"));
    assert!(g.functions[2].contains("<i32 as ::gobject_ffi::FfiConvert>::c_error_value()"));

    let text = g.module_text();
    assert!(text.starts_with("pub mod ffi {\n    use super::*;\n\n"));
    assert!(text.contains("pub type Calculator = <imp::Calculator"));
    assert!(text.contains("calculator_get_type"));
    assert!(text.ends_with("}\n"));
}

#[test]
fn async_triad_generation() {
    let args = FfiImplArgs { c_type_name: None, prefix: String::new(), ty: FfiType::Object };
    let methods = vec![method(
        "compute_factorial",
        true,
        vec![param("n", SemType::U32)],
        SemType::U64,
        true,
    )];
    let g = ffi_impl(&args, &String::from("Calculator"), &methods).unwrap();
    let f = &g.functions[0];
    // All three call forms exist, derived from one base name.
    assert!(f.contains("pub unsafe extern \"C\" fn calculator_compute_factorial("));
    assert!(f.contains("pub unsafe extern \"C\" fn calculator_compute_factorial_finish("));
    assert!(f.contains("pub unsafe extern \"C\" fn calculator_compute_factorial_sync("));
    // The start form schedules an abortable unit on the ambient loop.
    assert!(f.contains("::glib::MainContext::default().spawn_local(async move {"));
    assert!(f.contains("::futures_util::future::abortable(self_param.compute_factorial(n))"));
    assert!(f.contains("Operation was cancelled"));
    // A reference-counted receiver retains a cloned handle as the source.
    assert!(f.contains("let source_for_task = self_param.clone();"));
    assert!(f.contains("Some(&source_for_task)"));
    // The blocking form drives a private, single-use loop.
    assert!(f.contains("let loop_ = ::glib::MainLoop::new(Some(&context), false);"));
    assert!(f.contains("loop_.run();"));
    assert!(f.contains("calculator_compute_factorial(self_param, n, cancellable, Some(callback)"));
    // Finish unwraps the completion-result produced by start.
    assert!(f.contains("::gio::Task<u64>"));
    assert!(f.contains("task.propagate()"));
}

#[test]
fn async_triad_on_value_category_has_no_retained_source() {
    let args = FfiImplArgs { c_type_name: None, prefix: String::new(), ty: FfiType::Enum };
    let methods = vec![method("refresh", true, vec![], SemType::Unit, true)];
    let g = ffi_impl(&args, &String::from("Color"), &methods).unwrap();
    let f = &g.functions[0];
    assert!(!f.contains("source_for_task"));
    assert!(f.contains("let callback_source = ::std::ptr::null_mut();"));
    // A fallible-void placeholder: an infallible void body is packaged as
    // a placeholder boolean task.
    assert!(f.contains("::gio::Task<bool>"));
    // The enum self parameter is passed by value as a fixed-width integer.
    assert!(f.contains("self_param: i32, "));
}

#[test]
fn synthesis_aborts_on_unresolvable_type() {
    let args = FfiImplArgs { c_type_name: None, prefix: String::new(), ty: FfiType::Object };
    let methods = vec![method(
        "feed",
        true,
        vec![param("x", SemType::Named(String::from("ExoticDate")))],
        SemType::Unit,
        false,
    )];
    let err = ffi_impl(&args, &String::from("Calculator"), &methods).unwrap_err();
    assert_eq!(
        err.message(),
        "no marshaling rule for `ExoticDate`; supply an explicit transfer override"
    );
}

#[test]
fn prefix_respects_configured_namespace() {
    let args = FfiImplArgs {
        c_type_name: None,
        prefix: String::from("myapp"),
        ty: FfiType::Object,
    };
    let g = ffi_impl(&args, &String::from("AudioPlayer"), &vec![]).unwrap();
    assert_eq!(g.prefix, "myapp_audio_player");
    assert_eq!(g.c_type_name, "MyappAudioPlayer");
}

#[test]
fn builder_direct_use() {
    let m = method("reset", true, vec![], SemType::Unit, false);
    let ctx = FfiMethodContext::new(&m, "counter");
    let components = build_ffi_params(&m.params, &SemType::Unit, &String::from("Counter"), None, false);
    let text = FfiBuilder::from_context(ctx, components)
        .with_body(String::from("self_param.reset()"))
        .with_params(String::from("self_param: *mut Counter, "))
        .with_args(vec![String::from(
            "let self_param: super::Counter = unsafe { ::glib::translate::FromGlibPtrNone::from_glib_none(self_param) };",
        )])
        .build_sync();
    let expected = String::from("#[unsafe(no_mangle)]\npub unsafe extern \"C\" fn counter_reset(")
        + "self_param: *mut Counter, "
        + ") -> () {\n"
        + "    let self_param: super::Counter = unsafe { ::glib::translate::FromGlibPtrNone::from_glib_none(self_param) };\n"
        + "    self_param.reset();\n"
        + "}\n";
    assert_eq!(text, expected);
}

#[test]
fn parameter_override_uses_declared_mode() {
    let args = FfiImplArgs { c_type_name: None, prefix: String::new(), ty: FfiType::Object };
    let over = CTypeOverride { c_type: String::from("i32"), transfer: TransferMode::Primitive };
    let methods = vec![MethodDescriptor {
        name: String::from("set_mode"),
        has_self: true,
        params: vec![ParamDescriptor {
            name: String::from("mode"),
            ty: SemType::Named(String::from("ExternalMode")),
            transfer_override: Some(over),
        }],
        ret: SemType::Unit,
        is_async: false,
        return_override: None,
    }];
    let g = ffi_impl(&args, &String::from("Device"), &methods).unwrap();
    let f = &g.functions[0];
    // The declared C type stands in the parameter list, and the declared
    // mode drives the conversion.
    assert!(f.contains("mode: i32, "));
    assert!(f.contains(
        "let mode: ExternalMode = unsafe { ::glib::translate::FromGlib::from_glib(mode) };"
    ));
}

#[test]
fn mutable_reference_parameter_is_dereferenced() {
    let args = FfiImplArgs { c_type_name: None, prefix: String::new(), ty: FfiType::Object };
    let methods = vec![method(
        "compute_sum_and_product",
        true,
        vec![
            param("a", SemType::I32),
            param("b", SemType::I32),
            param("product", SemType::MutRef(Box::new(SemType::I32))),
        ],
        SemType::I32,
        false,
    )];
    let g = ffi_impl(&args, &String::from("Calculator"), &methods).unwrap();
    let f = &g.functions[0];
    // A mutable reference crosses as a pointer and is converted by
    // dereferencing, never through a transfer mode.
    assert!(f.contains("product: *mut <i32 as ::gobject_ffi::FfiConvert>::CType, "));
    assert!(f.contains("let product: &mut i32 = unsafe { &mut *product };"));
    assert!(f.contains("self_param.compute_sum_and_product(a, b, product)"));
}

#[test]
fn boxed_receiver_is_a_borrowed_pointer() {
    let args = FfiImplArgs { c_type_name: None, prefix: String::new(), ty: FfiType::Boxed };
    let methods = vec![method("area", true, vec![], SemType::U64, false)];
    let g = ffi_impl(&args, &String::from("Rectangle"), &methods).unwrap();
    let f = &g.functions[0];
    assert!(f.contains("self_param: *mut Rectangle, "));
    assert!(f.contains(
        "let self_param: super::Rectangle = unsafe { ::glib::translate::FromGlibPtrNone::from_glib_none(self_param) };"
    ));
}

#[test]
fn return_override_drives_return_handling() {
    let args = FfiImplArgs { c_type_name: None, prefix: String::new(), ty: FfiType::Object };
    let methods = vec![MethodDescriptor {
        name: String::from("mode"),
        has_self: true,
        params: vec![],
        ret: SemType::Named(String::from("ExternalMode")),
        is_async: false,
        return_override: Some(CTypeOverride {
            c_type: String::from("i32"),
            transfer: TransferMode::Primitive,
        }),
    }];
    let g = ffi_impl(&args, &String::from("Device"), &methods).unwrap();
    let f = &g.functions[0];
    assert!(f.contains(") -> i32 {"));
    assert!(f.contains("::glib::translate::IntoGlib::into_glib(val)"));
}

#[test]
fn value_category_constructors_return_through_conversion_trait() {
    // A constructor of a value category (enum, flags) does not hand out
    // an owned pointer; it converts its result like any other value.
    for ty in [FfiType::Enum, FfiType::Flags] {
        let args = FfiImplArgs { c_type_name: None, prefix: String::new(), ty };
        let methods = vec![method("new", false, vec![], SemType::Unit, false)];
        let g = ffi_impl(&args, &String::from("Color"), &methods).unwrap();
        let f = &g.functions[0];
        assert!(f.contains(") -> <super::Color as ::gobject_ffi::FfiConvert>::CType {"));
        assert!(f.contains("<super::Color as ::gobject_ffi::FfiConvert>::to_c_owned(val)"));
        assert!(!f.contains("*mut Color"));
    }
}

#[test]
fn pointer_category_constructors_return_an_owned_pointer() {
    for ty in [FfiType::Object, FfiType::Boxed, FfiType::Shared] {
        let args = FfiImplArgs { c_type_name: None, prefix: String::new(), ty };
        let methods = vec![method("new", false, vec![], SemType::Unit, false)];
        let g = ffi_impl(&args, &String::from("Widget"), &methods).unwrap();
        let f = &g.functions[0];
        assert!(f.contains(") -> *mut Widget {"));
        assert!(f.contains("::glib::translate::ToGlibPtr::to_glib_full(&val)"));
    }
}
