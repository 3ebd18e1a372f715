//! End-to-end tests of the marshalling compiler on concrete declarations.

use ipc_marshal::errors::Error;
use ipc_marshal::input_node::{
    get_input_param, get_input_type, match_type, type_text, ArgDesc, InputTypes, MarshalStep,
    OptionType, TypeDesc,
};
use ipc_marshal::method_node::{parse_method, parse_trait, BodyKind, MethodNode, MethodSig};

fn path(name: &str) -> TypeDesc {
    TypeDesc::Path(name.to_string())
}

fn generic(name: &str, inner: TypeDesc) -> TypeDesc {
    TypeDesc::Generic(name.to_string(), Box::new(inner))
}

fn reference(inner: TypeDesc) -> TypeDesc {
    TypeDesc::Reference(Box::new(inner))
}

fn handle(kind: &str) -> TypeDesc {
    reference(generic("LocalHandle", path(kind)))
}

fn typed(name: &str, ty: TypeDesc) -> ArgDesc {
    ArgDesc::Typed { name: name.to_string(), ty }
}

fn variant(ty: TypeDesc) -> Result<InputTypes, Error> {
    match_type(&ty)
}

#[test]
fn classify_number_shapes() {
    assert_eq!(variant(path("usize")).unwrap(), InputTypes::NumberType);
    assert_eq!(variant(path("u8")).unwrap(), InputTypes::NumberType);
    assert_eq!(variant(path("u64")).unwrap(), InputTypes::NumberType);
    assert_eq!(
        variant(TypeDesc::ConstPtr(Box::new(path("u8")))).unwrap(),
        InputTypes::NumberType
    );
    assert_eq!(
        variant(TypeDesc::MutPtr(Box::new(path("u8")))).unwrap(),
        InputTypes::NumberType
    );
}

#[test]
fn classify_bool_cptr_string() {
    assert_eq!(variant(path("bool")).unwrap(), InputTypes::BoolType);
    assert_eq!(
        variant(reference(path("AbsoluteCPtr"))).unwrap(),
        InputTypes::AbsoluteCptrType
    );
    assert_eq!(variant(reference(path("str"))).unwrap(), InputTypes::StringType);
}

#[test]
fn classify_handle_kinds() {
    let kinds = [
        "WindowHandle",
        "ViewHandle",
        "ObjectHandle",
        "ConnectionHandle",
        "PublishHandle",
        "ReplyHandle",
        "HandleCapHandle",
        "ProcessHandle",
        "ConnRegistrationHandle",
        "WindowRegistrationHandle",
        "IRQRegistrationHandle",
        "ChannelAuthorityHandle",
        "ChannelHandle",
    ];
    for kind in kinds {
        assert_eq!(variant(handle(kind)).unwrap(), InputTypes::LocalHandleType);
    }
}

#[test]
fn classify_is_repeatable() {
    for _ in 0..3 {
        assert_eq!(variant(path("u64")).unwrap(), InputTypes::NumberType);
        assert!(variant(path("foo")).is_err());
    }
}

#[test]
fn classify_rejects_unknown_shapes() {
    let err = variant(path("foo")).unwrap_err();
    assert_eq!(err.text().as_str(), "foo");

    assert!(variant(path("i64")).is_err());
    assert!(variant(reference(path("String"))).is_err());
    assert!(variant(handle("UnknownHandle")).is_err());
    assert!(variant(TypeDesc::Other("(u8, u8)".to_string())).is_err());
}

#[test]
fn optional_classifies_iff_inner_base_classifies() {
    assert_eq!(
        variant(generic("Option", path("bool"))).unwrap(),
        InputTypes::OptionType
    );
    assert_eq!(
        variant(generic("Option", reference(path("AbsoluteCPtr")))).unwrap(),
        InputTypes::OptionType
    );
    assert_eq!(
        variant(generic("Option", handle("WindowHandle"))).unwrap(),
        InputTypes::OptionType
    );
    assert!(variant(generic("Option", path("foo"))).is_err());
}

#[test]
fn optional_nesting_depth_two_is_rejected() {
    let nested = generic("Option", generic("Option", path("bool")));
    let err = variant(nested).unwrap_err();
    let Error::InvalidArg(text) = err;
    assert_eq!(text, "Option<Option<bool>>");
}

#[test]
fn option_type_helpers() {
    assert!(OptionType::is_type(&generic("Option", path("u64"))));
    assert!(!OptionType::is_type(&generic("Option", path("foo"))));
    assert!(!OptionType::is_type(&path("Option")));
    let opt_u64 = generic("Option", path("u64"));
    let inner = OptionType::get_inner_type(&opt_u64).unwrap();
    assert_eq!(type_text(inner), "u64");
    assert!(OptionType::get_inner_type(&path("u64")).is_err());
}

#[test]
fn type_text_renders_shapes() {
    assert_eq!(type_text(&path("usize")), "usize");
    assert_eq!(type_text(&reference(path("str"))), "&str");
    assert_eq!(type_text(&TypeDesc::ConstPtr(Box::new(path("u8")))), "*const u8");
    assert_eq!(type_text(&TypeDesc::MutPtr(Box::new(path("u8")))), "*mut u8");
    assert_eq!(type_text(&generic("Option", path("u64"))), "Option<u64>");
    assert_eq!(type_text(&handle("ViewHandle")), "&LocalHandle<ViewHandle>");
    assert_eq!(type_text(&TypeDesc::Other("fn()".to_string())), "fn()");
}

#[test]
fn get_input_type_and_param() {
    let arg = typed("count", path("u64"));
    assert_eq!(get_input_type(&arg).unwrap(), InputTypes::NumberType);
    let param = get_input_param(arg).unwrap();
    assert_eq!(param.ident, "count");
    assert_eq!(param.input_type, InputTypes::NumberType);
    assert_eq!(type_text(&param.ty), "u64");

    let receiver = ArgDesc::Other("&self".to_string());
    let err = get_input_type(&receiver).unwrap_err();
    let Error::InvalidArg(text) = err;
    assert_eq!(text, "&self");
}

#[test]
fn register_accounting_counts_only_register_types() {
    let sig = MethodSig {
        ident: "add".to_string(),
        args: vec![
            typed("a", path("usize")),
            typed("b", path("bool")),
            typed("c", reference(path("AbsoluteCPtr"))),
            typed("d", handle("WindowHandle")),
        ],
        ret: Some("usize".to_string()),
    };
    let node = MethodNode::new(sig).unwrap();
    let (steps, count) = node.marshal_all_inputs();
    assert_eq!(count, 3);
    assert_eq!(steps.len(), 4);

    let sig2 = MethodSig {
        ident: "add".to_string(),
        args: vec![
            typed("c", reference(path("AbsoluteCPtr"))),
            typed("d", handle("WindowHandle")),
            typed("a", path("usize")),
            typed("b", path("bool")),
        ],
        ret: None,
    };
    let node2 = MethodNode::new(sig2).unwrap();
    let (_, count2) = node2.marshal_all_inputs();
    assert_eq!(count2, 3);
}

#[test]
fn optional_parameters_are_reordered_last_stably() {
    let sig = MethodSig {
        ident: "mixed".to_string(),
        args: vec![
            typed("a", generic("Option", path("usize"))),
            typed("b", path("bool")),
            typed("c", generic("Option", handle("WindowHandle"))),
        ],
        ret: None,
    };
    let node = MethodNode::new(sig).unwrap();
    let order: Vec<&str> = node.input_params.iter().map(|p| p.ident.as_str()).collect();
    assert_eq!(order, ["b", "a", "c"]);
}

#[test]
fn fallback_is_isolated_per_method() {
    let good = MethodSig {
        ident: "good".to_string(),
        args: vec![typed("a", path("u64"))],
        ret: None,
    };
    let bad = MethodSig {
        ident: "bad".to_string(),
        args: vec![typed("a", path("foo"))],
        ret: None,
    };
    let bodies = parse_trait(vec![bad, good], "ipc_buf", "msg");
    assert_eq!(bodies.len(), 2);
    assert_eq!(bodies[0].ident, "bad");
    assert!(matches!(bodies[0].kind, BodyKind::Unimplemented));
    assert_eq!(bodies[1].ident, "good");
    match &bodies[1].kind {
        BodyKind::Compilable { block, .. } => {
            assert_eq!(block.label, 1);
            assert_eq!(block.msg_len, 1);
        }
        BodyKind::Unimplemented => panic!("classifiable method fell back"),
    }
}

#[test]
fn string_preamble_is_emitted_once() {
    let sig = MethodSig {
        ident: "send_two".to_string(),
        args: vec![
            typed("first", reference(path("str"))),
            typed("second", reference(path("str"))),
        ],
        ret: None,
    };
    let body = parse_method(sig, "ipc_buf".to_string(), "msg".to_string(), 0);
    match &body.kind {
        BodyKind::Compilable { needs_shared_buffer, block } => {
            assert!(*needs_shared_buffer);
            assert_eq!(block.msg_len, 0);
            assert_eq!(block.steps.len(), 2);
            for step in &block.steps {
                assert!(matches!(step, MarshalStep::CopyString { .. }));
            }
        }
        BodyKind::Unimplemented => panic!("string method fell back"),
    }
}

#[test]
fn methods_without_strings_have_no_preamble() {
    let sig = MethodSig {
        ident: "plain".to_string(),
        args: vec![typed("a", path("u64"))],
        ret: None,
    };
    let body = parse_method(sig, "ipc_buf".to_string(), "msg".to_string(), 0);
    match &body.kind {
        BodyKind::Compilable { needs_shared_buffer, .. } => assert!(!*needs_shared_buffer),
        BodyKind::Unimplemented => panic!("classifiable method fell back"),
    }
}

#[test]
fn end_to_end_scenario() {
    let sig = MethodSig {
        ident: "op".to_string(),
        args: vec![
            typed("slot", reference(path("AbsoluteCPtr"))),
            typed("count", path("usize")),
            typed("flag", generic("Option", path("bool"))),
        ],
        ret: None,
    };
    let body = parse_method(sig, "ipc_buf".to_string(), "msg".to_string(), 7);
    assert_eq!(body.ident, "op");
    assert_eq!(body.args.len(), 3);
    match &body.kind {
        BodyKind::Compilable { needs_shared_buffer, block } => {
            assert!(!*needs_shared_buffer);
            assert_eq!(block.ipc_buffer_name, "ipc_buf");
            assert_eq!(block.msg_name, "msg");
            assert_eq!(block.label, 7);
            assert_eq!(block.msg_len, 2);
            assert_eq!(block.steps.len(), 3);
            match &block.steps[0] {
                MarshalStep::SetRecvSlot { name } => assert_eq!(name, "slot"),
                _ => panic!("expected the capability slot install first"),
            }
            match &block.steps[1] {
                MarshalStep::WriteNumber { name, index } => {
                    assert_eq!(name, "count");
                    assert_eq!(*index, 0);
                }
                _ => panic!("expected the number write second"),
            }
            match &block.steps[2] {
                MarshalStep::IfPresent { name, inner } => {
                    assert_eq!(name, "flag");
                    match inner.as_ref() {
                        MarshalStep::WriteBool { name, index } => {
                            assert_eq!(name, "flag");
                            assert_eq!(*index, 1);
                        }
                        _ => panic!("expected the conditional boolean write"),
                    }
                }
                _ => panic!("expected the optional write last"),
            }
        }
        BodyKind::Unimplemented => panic!("classifiable method fell back"),
    }
}

#[test]
fn sanitise_params_reports_first_bad_argument() {
    let args = vec![
        typed("a", path("u64")),
        typed("b", path("foo")),
        typed("c", path("bar")),
    ];
    let err = MethodNode::sanitise_params(args).unwrap_err();
    let Error::InvalidArg(text) = err;
    assert_eq!(text, "foo");
}

#[test]
fn capability_slot_and_handle_fragments() {
    let sig = MethodSig {
        ident: "handles".to_string(),
        args: vec![
            typed("w", handle("WindowHandle")),
            typed("slot", reference(path("AbsoluteCPtr"))),
            typed("ch", handle("ChannelHandle")),
        ],
        ret: None,
    };
    let node = MethodNode::new(sig).unwrap();
    let (steps, count) = node.marshal_all_inputs();
    assert_eq!(count, 2);
    match &steps[0] {
        MarshalStep::WriteHandle { name, index } => {
            assert_eq!(name, "w");
            assert_eq!(*index, 0);
        }
        _ => panic!("expected a handle write"),
    }
    assert!(matches!(&steps[1], MarshalStep::SetRecvSlot { .. }));
    match &steps[2] {
        MarshalStep::WriteHandle { name, index } => {
            assert_eq!(name, "ch");
            assert_eq!(*index, 1);
        }
        _ => panic!("expected a handle write"),
    }
}

#[test]
fn optional_reserves_its_register_slot() {
    let sig = MethodSig {
        ident: "reserve".to_string(),
        args: vec![
            typed("first", generic("Option", path("u64"))),
            typed("second", path("u64")),
        ],
        ret: None,
    };
    let node = MethodNode::new(sig).unwrap();
    let (steps, count) = node.marshal_all_inputs();
    // `second` is mandatory and marshals first; the absent-or-present
    // optional still reserves the following slot.
    assert_eq!(count, 2);
    match &steps[0] {
        MarshalStep::WriteNumber { name, index } => {
            assert_eq!(name, "second");
            assert_eq!(*index, 0);
        }
        _ => panic!("expected the mandatory write first"),
    }
    match &steps[1] {
        MarshalStep::IfPresent { inner, .. } => match inner.as_ref() {
            MarshalStep::WriteNumber { name, index } => {
                assert_eq!(name, "first");
                assert_eq!(*index, 1);
            }
            _ => panic!("expected the conditional number write"),
        },
        _ => panic!("expected the optional write last"),
    }
}

#[test]
fn unimplemented_stub_echoes_signature() {
    let sig = MethodSig {
        ident: "unimplement".to_string(),
        args: vec![typed("a", path("foo"))],
        ret: Some("usize".to_string()),
    };
    let body = parse_method(sig, "ipc_buf".to_string(), "msg".to_string(), 0);
    assert_eq!(body.ident, "unimplement");
    assert_eq!(body.ret.as_deref(), Some("usize"));
    assert_eq!(body.args.len(), 1);
    match &body.args[0] {
        ArgDesc::Typed { name, ty } => {
            assert_eq!(name, "a");
            assert_eq!(type_text(ty), "foo");
        }
        ArgDesc::Other(_) => panic!("expected the typed argument back"),
    }
    assert!(matches!(body.kind, BodyKind::Unimplemented));
}

#[test]
fn whole_interface_declaration() {
    // The five methods of a representative server interface: mixed
    // mandatory and optional parameters, a string, a handle, an optional
    // capability slot, and one unclassifiable parameter.
    let add = MethodSig {
        ident: "add".to_string(),
        args: vec![
            typed("a", path("usize")),
            typed("b", generic("Option", path("bool"))),
            typed("c", path("usize")),
            typed("d", reference(path("AbsoluteCPtr"))),
        ],
        ret: Some("usize".to_string()),
    };
    let set_slot = MethodSig {
        ident: "set_slot".to_string(),
        args: vec![typed("a", reference(path("str")))],
        ret: None,
    };
    let handle_m = MethodSig {
        ident: "handle".to_string(),
        args: vec![typed("a", handle("ConnectionHandle"))],
        ret: None,
    };
    let option_m = MethodSig {
        ident: "option".to_string(),
        args: vec![typed("a", generic("Option", reference(path("AbsoluteCPtr"))))],
        ret: None,
    };
    let unimplement = MethodSig {
        ident: "unimplement".to_string(),
        args: vec![typed("a", path("foo"))],
        ret: None,
    };
    let bodies = parse_trait(
        vec![add, set_slot, handle_m, option_m, unimplement],
        "ipc_buf",
        "msg",
    );
    assert_eq!(bodies.len(), 5);

    // `add`: optional `b` moves last; a, c, d keep their order; the
    // capability slot costs nothing, the reserved optional slot does.
    match &bodies[0].kind {
        BodyKind::Compilable { needs_shared_buffer, block } => {
            assert!(!*needs_shared_buffer);
            assert_eq!(block.label, 0);
            assert_eq!(block.msg_len, 3);
            let names: Vec<String> = block
                .steps
                .iter()
                .map(|s| match s {
                    MarshalStep::WriteNumber { name, .. } => name.clone(),
                    MarshalStep::SetRecvSlot { name } => name.clone(),
                    MarshalStep::IfPresent { name, .. } => name.clone(),
                    _ => panic!("unexpected fragment"),
                })
                .collect();
            assert_eq!(names, ["a", "c", "d", "b"]);
        }
        BodyKind::Unimplemented => panic!("add should compile"),
    }

    // `set_slot`: one string, so the preamble is owed and nothing lands in
    // a register.
    match &bodies[1].kind {
        BodyKind::Compilable { needs_shared_buffer, block } => {
            assert!(*needs_shared_buffer);
            assert_eq!(block.label, 1);
            assert_eq!(block.msg_len, 0);
        }
        BodyKind::Unimplemented => panic!("set_slot should compile"),
    }

    // `handle`: one register for the handle's index.
    match &bodies[2].kind {
        BodyKind::Compilable { block, .. } => {
            assert_eq!(block.label, 2);
            assert_eq!(block.msg_len, 1);
            assert!(matches!(&block.steps[0], MarshalStep::WriteHandle { .. }));
        }
        BodyKind::Unimplemented => panic!("handle should compile"),
    }

    // `option`: an optional capability slot reserves no register.
    match &bodies[3].kind {
        BodyKind::Compilable { block, .. } => {
            assert_eq!(block.label, 3);
            assert_eq!(block.msg_len, 0);
            match &block.steps[0] {
                MarshalStep::IfPresent { inner, .. } => {
                    assert!(matches!(inner.as_ref(), MarshalStep::SetRecvSlot { .. }));
                }
                _ => panic!("expected the conditional slot install"),
            }
        }
        BodyKind::Unimplemented => panic!("option should compile"),
    }

    // `unimplement`: its parameter never classifies, so it alone falls
    // back.
    assert!(matches!(bodies[4].kind, BodyKind::Unimplemented));
}
