use algorithmia::entry_item::{entry_method_for, entry_refusal, entrypoint_of, EntryArg, EntryItem, EntryMethod};

fn typed(t: &str) -> EntryArg {
    EntryArg::Typed(t.to_string())
}

fn free_fn(is_unsafe: bool, has_generics: bool, inputs: Vec<EntryArg>) -> EntryItem {
    EntryItem::Fn { name: "apply".to_string(), is_unsafe, has_generics, inputs }
}

fn impl_block(methods: Vec<(String, Vec<EntryArg>)>) -> EntryItem {
    EntryItem::Impl {
        is_unsafe: false,
        has_generics: false,
        self_type: "Algo".to_string(),
        methods,
    }
}

fn refusal(item: &EntryItem) -> String {
    match entry_refusal(item) {
        Some(m) => m,
        None => panic!("accepted: {:?}", item),
    }
}

#[test]
fn entry_fn_with_one_arg_is_accepted() {
    let item = EntryItem::Fn {
        name: "run".to_string(),
        is_unsafe: false,
        has_generics: false,
        inputs: vec![typed("& str")],
    };
    assert_eq!(entry_refusal(&item), None);
    let d = entrypoint_of(&item);
    assert_eq!(d.fn_name, "run");
    assert_eq!(d.self_type, None);
    assert_eq!(d.input_type, "& str");
}

#[test]
fn entry_fn_refusals() {
    assert_eq!(
        refusal(&free_fn(true, false, vec![typed("String")])),
        "Unsafe #[entrypoint] functions are not supported"
    );
    assert_eq!(
        refusal(&free_fn(false, true, vec![typed("String")])),
        "Generics are not supported on the #[algo_entrypoint] function"
    );
    assert_eq!(
        refusal(&free_fn(false, false, vec![typed("String"), typed("String")])),
        "#[entrypoint] function may only take one arg"
    );
    assert_eq!(
        refusal(&free_fn(false, false, vec![])),
        "#[entrypoint] function may only take one arg"
    );
    assert_eq!(
        refusal(&free_fn(false, false, vec![EntryArg::SelfArg])),
        "Attach #[entrypoint] to impl block to support &self arg"
    );
}

#[test]
fn entry_impl_with_apply_is_accepted() {
    let item = impl_block(vec![
        ("new".to_string(), vec![]),
        ("apply".to_string(), vec![EntryArg::SelfArg, typed("Vec < u8 >")]),
    ]);
    assert_eq!(entry_refusal(&item), None);
    let d = entrypoint_of(&item);
    assert_eq!(d.fn_name, "apply");
    assert_eq!(d.self_type, Some("Algo".to_string()));
    assert_eq!(d.input_type, "Vec < u8 >");
}

#[test]
fn entry_impl_refusals() {
    let unsafe_impl = EntryItem::Impl {
        is_unsafe: true,
        has_generics: false,
        self_type: "Algo".to_string(),
        methods: vec![],
    };
    assert_eq!(refusal(&unsafe_impl), "Unsafe #[entrypoint] impls are not supported");
    let generic_impl = EntryItem::Impl {
        is_unsafe: false,
        has_generics: true,
        self_type: "Algo".to_string(),
        methods: vec![],
    };
    assert_eq!(
        refusal(&generic_impl),
        "Generics are not supported on the #[algo_entrypoint] function"
    );
    assert_eq!(
        refusal(&impl_block(vec![("run".to_string(), vec![EntryArg::SelfArg, typed("String")])])),
        "#[entrypoint] impl must include 'apply' method"
    );
    assert_eq!(
        refusal(&impl_block(vec![("apply".to_string(), vec![typed("String")])])),
        "#[entrypoint] within an impl must take &self and an input arg"
    );
    assert_eq!(
        refusal(&impl_block(vec![(
            "apply".to_string(),
            vec![EntryArg::SelfArg, EntryArg::SelfArg]
        )])),
        "Are you using self as a second argument?"
    );
    assert_eq!(
        refusal(&EntryItem::Other),
        "#[entrypoint]` attribute must be attached to a function or impl"
    );
}

#[test]
fn entry_impl_uses_first_apply() {
    let item = impl_block(vec![
        ("apply".to_string(), vec![EntryArg::SelfArg, typed("& Value")]),
        ("apply".to_string(), vec![typed("String")]),
    ]);
    assert_eq!(entry_refusal(&item), None);
    let d = entrypoint_of(&item);
    assert_eq!(d.input_type, "& Value");
}

#[test]
fn entry_method_by_input_type() {
    assert_eq!(entry_method_for("& str"), EntryMethod::ApplyStr);
    assert_eq!(entry_method_for("String"), EntryMethod::ApplyStr);
    assert_eq!(entry_method_for("& [ u8 ]"), EntryMethod::ApplyBytes);
    assert_eq!(entry_method_for("Vec < u8 >"), EntryMethod::ApplyBytes);
    assert_eq!(entry_method_for("& Value"), EntryMethod::ApplyJson);
    assert_eq!(entry_method_for("AlgoInput"), EntryMethod::Apply);
    assert_eq!(entry_method_for("MyInput"), EntryMethod::Decoded);
    assert_eq!(entry_method_for("&str"), EntryMethod::Decoded);
}
