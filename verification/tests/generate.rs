use auto_fuzz_test::adapter::fuzz_function;
use auto_fuzz_test::aggregate::fuzz_struct;
use auto_fuzz_test::harness::fuzz_harness;
use auto_fuzz_test::model::AggregateTypeDescriptor;
use auto_fuzz_test::model::ArgExpr;
use auto_fuzz_test::model::BindingShape;
use auto_fuzz_test::model::CallAdapterDescriptor;
use auto_fuzz_test::model::CallKind;
use auto_fuzz_test::model::Error;
use auto_fuzz_test::model::FieldDescriptor;
use auto_fuzz_test::model::FieldType;
use auto_fuzz_test::model::FnInput;
use auto_fuzz_test::model::ParameterOwnership;
use auto_fuzz_test::model::ParameterDescriptor;
use auto_fuzz_test::model::RawParameter;
use auto_fuzz_test::model::ReceiverDescriptor;
use auto_fuzz_test::model::SignatureDescriptor;
use auto_fuzz_test::model::TypeShape;
use auto_fuzz_test::model::ValidatedSignature;
use auto_fuzz_test::validate::validate;

fn by_value(name: &str, ty: &str) -> FnInput {
    FnInput::Typed(RawParameter {
        binding: BindingShape::Simple(name.to_string()),
        ty: TypeShape::SimpleNamed(ty.to_string()),
    })
}

fn shared_ref(name: &str, ty: &str) -> FnInput {
    FnInput::Typed(RawParameter {
        binding: BindingShape::Simple(name.to_string()),
        ty: TypeShape::SharedRefOf(ty.to_string()),
    })
}

fn exclusive_ref(name: &str, ty: &str) -> FnInput {
    FnInput::Typed(RawParameter {
        binding: BindingShape::Simple(name.to_string()),
        ty: TypeShape::ExclusiveRefOf(ty.to_string()),
    })
}

fn plain_fn(name: &str, inputs: Vec<FnInput>) -> SignatureDescriptor {
    SignatureDescriptor {
        function_name: name.to_string(),
        inputs,
        is_async: false,
        is_unsafe: false,
    }
}

fn field(name: &str, ty: FieldType) -> FieldDescriptor {
    FieldDescriptor { name: name.to_string(), ty }
}

fn plain(ty: &str) -> FieldType {
    FieldType::Plain(ty.to_string())
}

fn boxed(ty: &str) -> FieldType {
    FieldType::Boxed(ty.to_string())
}

fn test_struct() -> TypeShape {
    TypeShape::SimpleNamed("TestStruct".to_string())
}

#[test]
fn struct_no_borrows() {
    let sig = plain_fn(
        "maybe_checked_mul",
        vec![
            by_value("a", "u64"),
            by_value("b", "u64"),
            by_value("crash_on_overflow", "bool"),
        ],
    );
    let expected = AggregateTypeDescriptor {
        name: "__fuzz_struct_maybe_checked_mul".to_string(),
        fields: vec![
            field("a", plain("u64")),
            field("b", plain("u64")),
            field("crash_on_overflow", plain("bool")),
        ],
    };
    assert_eq!(fuzz_struct(&sig, None), Ok(expected));
}

#[test]
fn struct_borrowed() {
    let sig = plain_fn(
        "maybe_checked_mul_borrowed",
        vec![
            exclusive_ref("a", "u64"),
            by_value("b", "u64"),
            by_value("crash_on_overflow", "bool"),
        ],
    );
    let expected = AggregateTypeDescriptor {
        name: "__fuzz_struct_maybe_checked_mul_borrowed".to_string(),
        fields: vec![
            field("a", boxed("u64")),
            field("b", plain("u64")),
            field("crash_on_overflow", plain("bool")),
        ],
    };
    assert_eq!(fuzz_struct(&sig, None), Ok(expected));
}

#[test]
fn struct_method_borrowed() {
    let sig = plain_fn(
        "set_b",
        vec![
            FnInput::Receiver(ParameterOwnership::ExclusiveRef),
            by_value("b", "u64"),
        ],
    );
    let expected = AggregateTypeDescriptor {
        name: "__fuzz_struct_TestStruct_set_b".to_string(),
        fields: vec![field("slf", boxed("TestStruct")), field("b", plain("u64"))],
    };
    assert_eq!(fuzz_struct(&sig, Some(&test_struct())), Ok(expected));
}

#[test]
fn struct_method_unborrowed() {
    let sig = plain_fn(
        "set_b",
        vec![
            FnInput::Receiver(ParameterOwnership::ByValue),
            by_value("b", "u64"),
        ],
    );
    let expected = AggregateTypeDescriptor {
        name: "__fuzz_struct_TestStruct_set_b".to_string(),
        fields: vec![field("slf", plain("TestStruct")), field("b", plain("u64"))],
    };
    assert_eq!(fuzz_struct(&sig, Some(&test_struct())), Ok(expected));
}

#[test]
fn struct_sliced_arg() {
    let sig = plain_fn(
        "maybe_checked_mul",
        vec![
            by_value("a", "u64"),
            by_value("b", "u64"),
            by_value("crash_on_overflow", "bool"),
            FnInput::Typed(RawParameter {
                binding: BindingShape::Simple("sl".to_string()),
                ty: TypeShape::Other,
            }),
        ],
    );
    assert_eq!(fuzz_struct(&sig, None), Err(Error::UnsupportedArgumentShape));
}

#[test]
fn struct_complex_variable() {
    let sig = plain_fn(
        "maybe_checked_mul",
        vec![
            by_value("a", "u64"),
            by_value("b", "u64"),
            FnInput::Typed(RawParameter {
                binding: BindingShape::Other,
                ty: TypeShape::Other,
            }),
        ],
    );
    assert_eq!(fuzz_struct(&sig, None), Err(Error::ComplexBindingPattern));
}

#[test]
fn function_unborrowed() {
    let sig = plain_fn(
        "maybe_checked_mul",
        vec![
            by_value("a", "u64"),
            by_value("b", "u64"),
            by_value("crash_on_overflow", "bool"),
        ],
    );
    let expected = CallAdapterDescriptor {
        name: "__fuzz_maybe_checked_mul".to_string(),
        input_type_name: "__fuzz_struct_maybe_checked_mul".to_string(),
        callee: "maybe_checked_mul".to_string(),
        call_kind: CallKind::FreeFunction,
        args: vec![
            ArgExpr::Direct("a".to_string()),
            ArgExpr::Direct("b".to_string()),
            ArgExpr::Direct("crash_on_overflow".to_string()),
        ],
    };
    let got = fuzz_function(&sig, None);
    assert_eq!(got, Ok(expected));
    assert_eq!(
        got.unwrap().render_body(),
        "maybe_checked_mul(input.a, input.b, input.crash_on_overflow);"
    );
}

#[test]
fn function_borrowed() {
    let sig = plain_fn(
        "maybe_checked_mul_borrowed",
        vec![
            exclusive_ref("a", "u64"),
            by_value("b", "u64"),
            by_value("crash_on_overflow", "bool"),
        ],
    );
    let expected = CallAdapterDescriptor {
        name: "__fuzz_maybe_checked_mul_borrowed".to_string(),
        input_type_name: "__fuzz_struct_maybe_checked_mul_borrowed".to_string(),
        callee: "maybe_checked_mul_borrowed".to_string(),
        call_kind: CallKind::FreeFunction,
        args: vec![
            ArgExpr::ExclusiveReborrow("a".to_string()),
            ArgExpr::Direct("b".to_string()),
            ArgExpr::Direct("crash_on_overflow".to_string()),
        ],
    };
    let got = fuzz_function(&sig, None);
    assert_eq!(got, Ok(expected));
    assert_eq!(
        got.unwrap().render_body(),
        "maybe_checked_mul_borrowed(&mut *input.a, input.b, input.crash_on_overflow);"
    );
}

#[test]
fn function_sliced_arg() {
    let sig = plain_fn(
        "maybe_checked_mul",
        vec![
            by_value("a", "u64"),
            by_value("b", "u64"),
            by_value("crash_on_overflow", "bool"),
            FnInput::Typed(RawParameter {
                binding: BindingShape::Simple("sl".to_string()),
                ty: TypeShape::Other,
            }),
        ],
    );
    assert_eq!(fuzz_function(&sig, None), Err(Error::UnsupportedArgumentShape));
}

#[test]
fn function_complex_variable() {
    let sig = plain_fn(
        "maybe_checked_mul",
        vec![
            by_value("a", "u64"),
            by_value("b", "u64"),
            FnInput::Typed(RawParameter {
                binding: BindingShape::Other,
                ty: TypeShape::Other,
            }),
        ],
    );
    assert_eq!(fuzz_function(&sig, None), Err(Error::ComplexBindingPattern));
}

#[test]
fn function_empty() {
    let sig = plain_fn("maybe_checked_mul_borrowed", vec![]);
    assert_eq!(fuzz_function(&sig, None), Err(Error::EmptySignature));
}

#[test]
fn method_unborrowed() {
    let sig = plain_fn(
        "set_b",
        vec![
            FnInput::Receiver(ParameterOwnership::ByValue),
            by_value("b", "u64"),
        ],
    );
    let expected = CallAdapterDescriptor {
        name: "__fuzz_TestStruct_set_b".to_string(),
        input_type_name: "__fuzz_struct_TestStruct_set_b".to_string(),
        callee: "set_b".to_string(),
        call_kind: CallKind::InstanceMethod(ParameterOwnership::ByValue),
        args: vec![ArgExpr::Direct("b".to_string())],
    };
    let got = fuzz_function(&sig, Some(&test_struct()));
    assert_eq!(got, Ok(expected));
    assert_eq!(got.unwrap().render_body(), "(input.slf).set_b(input.b);");
}

#[test]
fn method_borrowed() {
    let sig = plain_fn(
        "set_b",
        vec![
            FnInput::Receiver(ParameterOwnership::ExclusiveRef),
            by_value("b", "u64"),
        ],
    );
    let expected = CallAdapterDescriptor {
        name: "__fuzz_TestStruct_set_b".to_string(),
        input_type_name: "__fuzz_struct_TestStruct_set_b".to_string(),
        callee: "set_b".to_string(),
        call_kind: CallKind::InstanceMethod(ParameterOwnership::ExclusiveRef),
        args: vec![ArgExpr::Direct("b".to_string())],
    };
    let got = fuzz_function(&sig, Some(&test_struct()));
    assert_eq!(got, Ok(expected));
    assert_eq!(got.unwrap().render_body(), "(input.slf).set_b(input.b);");
}

#[test]
fn method_generator() {
    let sig = plain_fn("new", vec![by_value("a", "u64"), by_value("b", "u64")]);
    let expected = CallAdapterDescriptor {
        name: "__fuzz_TestStruct_new".to_string(),
        input_type_name: "__fuzz_struct_TestStruct_new".to_string(),
        callee: "new".to_string(),
        call_kind: CallKind::AssociatedFunction("TestStruct".to_string()),
        args: vec![
            ArgExpr::Direct("a".to_string()),
            ArgExpr::Direct("b".to_string()),
        ],
    };
    let got = fuzz_function(&sig, Some(&test_struct()));
    assert_eq!(got, Ok(expected));
    assert_eq!(got.unwrap().render_body(), "TestStruct::new(input.a, input.b);");
}

#[test]
fn harness() {
    let sig = plain_fn(
        "maybe_checked_mul",
        vec![
            by_value("a", "u64"),
            by_value("b", "u64"),
            by_value("crash_on_overflow", "bool"),
        ],
    );
    let aggregate = fuzz_struct(&sig, None).unwrap();
    let adapter = fuzz_function(&sig, None).unwrap();
    let prefix = vec!["foo".to_string(), "bar".to_string()];
    let crate_ident = "lib".to_string();
    let h = fuzz_harness(&adapter, &aggregate, &prefix, &crate_ident);
    assert_eq!(h.aggregate_path, "lib::foo::bar::__fuzz_struct_maybe_checked_mul");
    assert_eq!(h.adapter_path, "lib::foo::bar::__fuzz_maybe_checked_mul");
}

#[test]
fn harness_empty_prefix() {
    let sig = plain_fn("maybe_checked_mul", vec![by_value("a", "u64")]);
    let aggregate = fuzz_struct(&sig, None).unwrap();
    let adapter = fuzz_function(&sig, None).unwrap();
    let prefix: Vec<String> = vec![];
    let crate_ident = "lib".to_string();
    let h = fuzz_harness(&adapter, &aggregate, &prefix, &crate_ident);
    assert_eq!(h.aggregate_path, "lib::__fuzz_struct_maybe_checked_mul");
    assert_eq!(h.adapter_path, "lib::__fuzz_maybe_checked_mul");
}

#[test]
fn shared_borrow_argument() {
    let sig = plain_fn("show", vec![shared_ref("text", "String")]);
    let aggregate = fuzz_struct(&sig, None).unwrap();
    assert_eq!(aggregate.fields, vec![field("text", boxed("String"))]);
    let adapter = fuzz_function(&sig, None).unwrap();
    assert_eq!(adapter.args, vec![ArgExpr::SharedReborrow("text".to_string())]);
    assert_eq!(adapter.render_body(), "show(&*input.text);");
}

#[test]
fn async_function_rejected() {
    let mut sig = plain_fn("fetch", vec![by_value("a", "u64")]);
    sig.is_async = true;
    assert_eq!(fuzz_function(&sig, None), Err(Error::AsyncUnsupported));
    assert_eq!(fuzz_struct(&sig, None), Err(Error::AsyncUnsupported));
}

#[test]
fn async_wins_over_unsafe() {
    let mut sig = plain_fn("fetch", vec![by_value("a", "u64")]);
    sig.is_async = true;
    sig.is_unsafe = true;
    assert_eq!(fuzz_function(&sig, None), Err(Error::AsyncUnsupported));
}

#[test]
fn unsafe_function_rejected() {
    let mut sig = plain_fn("poke", vec![by_value("a", "u64")]);
    sig.is_unsafe = true;
    assert_eq!(fuzz_function(&sig, None), Err(Error::UnsafeUnsupported));
    assert_eq!(fuzz_struct(&sig, None), Err(Error::UnsafeUnsupported));
}

#[test]
fn binding_check_precedes_shape_check() {
    let sig = plain_fn(
        "mixed",
        vec![
            FnInput::Typed(RawParameter {
                binding: BindingShape::Simple("a".to_string()),
                ty: TypeShape::Other,
            }),
            FnInput::Typed(RawParameter {
                binding: BindingShape::Other,
                ty: TypeShape::SimpleNamed("u64".to_string()),
            }),
        ],
    );
    assert_eq!(fuzz_struct(&sig, None), Err(Error::ComplexBindingPattern));
}

#[test]
fn receiver_not_first_rejected() {
    let sig = plain_fn(
        "set_b",
        vec![
            by_value("b", "u64"),
            FnInput::Receiver(ParameterOwnership::ExclusiveRef),
        ],
    );
    assert_eq!(
        fuzz_function(&sig, Some(&test_struct())),
        Err(Error::MultipleReceivers)
    );
}

#[test]
fn second_receiver_rejected() {
    let sig = plain_fn(
        "set_b",
        vec![
            FnInput::Receiver(ParameterOwnership::ExclusiveRef),
            FnInput::Receiver(ParameterOwnership::SharedRef),
        ],
    );
    assert_eq!(
        fuzz_function(&sig, Some(&test_struct())),
        Err(Error::MultipleReceivers)
    );
}

#[test]
fn receiver_without_enclosing_type_rejected() {
    let sig = plain_fn(
        "set_b",
        vec![
            FnInput::Receiver(ParameterOwnership::ExclusiveRef),
            by_value("b", "u64"),
        ],
    );
    assert_eq!(fuzz_struct(&sig, None), Err(Error::MissingOrComplexSelfType));
}

#[test]
fn complex_enclosing_type_rejected() {
    let sig = plain_fn(
        "set_b",
        vec![
            FnInput::Receiver(ParameterOwnership::ExclusiveRef),
            by_value("b", "u64"),
        ],
    );
    let complex = TypeShape::Other;
    assert_eq!(
        fuzz_struct(&sig, Some(&complex)),
        Err(Error::MissingOrComplexSelfType)
    );
}

#[test]
fn names_key_on_enclosing_type() {
    let sig = plain_fn(
        "reset",
        vec![
            FnInput::Receiver(ParameterOwnership::ExclusiveRef),
            by_value("hard", "bool"),
        ],
    );
    let first = TypeShape::SimpleNamed("Motor".to_string());
    let second = TypeShape::SimpleNamed("Sensor".to_string());
    let on_first = fuzz_struct(&sig, Some(&first)).unwrap();
    let on_second = fuzz_struct(&sig, Some(&second)).unwrap();
    assert_eq!(on_first.name, "__fuzz_struct_Motor_reset");
    assert_eq!(on_second.name, "__fuzz_struct_Sensor_reset");
    assert_ne!(on_first.name, on_second.name);

    let free = plain_fn("reset", vec![by_value("hard", "bool")]);
    let free_adapter = fuzz_function(&free, None).unwrap();
    let method_adapter = fuzz_function(&sig, Some(&first)).unwrap();
    assert_eq!(free_adapter.name, "__fuzz_reset");
    assert_eq!(method_adapter.name, "__fuzz_Motor_reset");
    assert_ne!(free_adapter.name, method_adapter.name);
}

#[test]
fn validate_normalizes_method_signature() {
    let sig = plain_fn(
        "set_b",
        vec![
            FnInput::Receiver(ParameterOwnership::ExclusiveRef),
            exclusive_ref("b", "u64"),
        ],
    );
    let expected = ValidatedSignature {
        function_name: "set_b".to_string(),
        enclosing: Some("TestStruct".to_string()),
        receiver: Some(ReceiverDescriptor {
            ownership: ParameterOwnership::ExclusiveRef,
        }),
        parameters: vec![ParameterDescriptor {
            name: "b".to_string(),
            referent_type: "u64".to_string(),
            ownership: ParameterOwnership::ExclusiveRef,
        }],
    };
    assert_eq!(validate(&sig, Some(&test_struct())), Ok(expected));
}

#[test]
fn error_messages_are_distinct() {
    let all = [
        Error::AsyncUnsupported,
        Error::UnsafeUnsupported,
        Error::EmptySignature,
        Error::ComplexBindingPattern,
        Error::UnsupportedArgumentShape,
        Error::MultipleReceivers,
        Error::MissingOrComplexSelfType,
    ];
    for (i, a) in all.iter().enumerate() {
        assert!(!a.message().is_empty());
        for b in all.iter().skip(i + 1) {
            assert_ne!(a.message(), b.message());
        }
    }
    assert_eq!(
        Error::EmptySignature.message(),
        "a function without inputs gives the fuzzer nothing to vary"
    );
}
