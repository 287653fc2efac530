use sylvia_input::input::{ImplInput, TraitInput};
use sylvia_input::item::{ItemImpl, ItemTrait};
use sylvia_input::message::{DiagTarget, Diagnostic, Fragment, Method, MsgType};
use sylvia_input::parser::{
    apply_error_override, contains_c_string, Attribute, ContractArgs, Custom, InterfaceArgs,
};

fn s(v: &str) -> String {
    v.to_string()
}

fn method(name: &str, kind: Option<MsgType>) -> Method {
    Method { name: s(name), kind }
}

fn counter_trait(assoc_types: Vec<String>) -> ItemTrait {
    ItemTrait {
        name: s("Counter"),
        generics: vec![s("T")],
        assoc_types,
        methods: vec![
            method("increment", Some(MsgType::Exec)),
            method("helper", None),
            method("reset", Some(MsgType::Exec)),
            method("count", Some(MsgType::Query)),
        ],
    }
}

fn no_custom() -> Custom {
    Custom { msg: None, query: None }
}

fn error_attr(tokens: &str) -> Attribute {
    Attribute { path: s("error"), tokens: s(tokens) }
}

fn contract(trait_: Option<String>, attrs: Vec<Attribute>, methods: Vec<Method>) -> ItemImpl {
    ItemImpl { trait_, attrs, generics: vec![s("T"), s("U")], methods }
}

fn full_methods() -> Vec<Method> {
    vec![
        method("instantiate", Some(MsgType::Instantiate)),
        method("increment", Some(MsgType::Exec)),
        method("count", Some(MsgType::Query)),
        method("migrate", Some(MsgType::Migrate)),
    ]
}

const DEFAULT_ERROR: &str = "sylvia :: cw_std :: StdError";

#[test]
fn interface_with_two_exec_and_one_query() {
    let args = InterfaceArgs { module: None, custom: no_custom() };
    let item = counter_trait(vec![s("Error")]);
    let mut diags: Vec<Diagnostic> = Vec::new();
    let input = TraitInput::new(&args, &item, &mut diags);
    let out = input.process(false);
    assert!(diags.is_empty());
    assert_eq!(out.module, None);
    assert_eq!(out.generics, vec![s("T")]);
    assert_eq!(
        out.fragments,
        vec![
            Fragment::InterfaceEnum {
                kind: MsgType::Exec,
                methods: vec![s("increment"), s("reset")],
                custom: no_custom()
            },
            Fragment::InterfaceEnum {
                kind: MsgType::Query,
                methods: vec![s("count")],
                custom: no_custom()
            },
        ]
    );
}

#[test]
fn interface_without_error_type_reports_once() {
    let args = InterfaceArgs { module: None, custom: no_custom() };
    let item = counter_trait(vec![s("Other")]);
    let mut diags: Vec<Diagnostic> = Vec::new();
    let input = TraitInput::new(&args, &item, &mut diags);
    assert_eq!(diags.len(), 1);
    assert_eq!(diags[0].target, DiagTarget::TraitName);
    assert_eq!(diags[0].message, "Missing `Error` type defined for trait.");
    assert_eq!(diags[0].notes.len(), 2);
    let out = input.process(false);
    assert_eq!(out.fragments.len(), 2);
}

#[test]
fn interface_helpers_follow_messages() {
    let args = InterfaceArgs { module: None, custom: no_custom() };
    let item = counter_trait(vec![s("Error")]);
    let mut diags: Vec<Diagnostic> = Vec::new();
    let out = TraitInput::new(&args, &item, &mut diags).process(true);
    assert_eq!(out.fragments.len(), 3);
    assert_eq!(out.fragments[2], Fragment::TraitHelpers);
}

#[test]
fn interface_namespace_only_wraps() {
    let item = counter_trait(vec![s("Error")]);
    let mut diags: Vec<Diagnostic> = Vec::new();
    let plain_args = InterfaceArgs { module: None, custom: no_custom() };
    let named_args = InterfaceArgs { module: Some(s("counter")), custom: no_custom() };
    let plain = TraitInput::new(&plain_args, &item, &mut diags).process(true);
    let named = TraitInput::new(&named_args, &item, &mut diags).process(true);
    assert_eq!(named.module, Some(s("counter")));
    assert_eq!(named.generics, plain.generics);
    assert_eq!(named.fragments, plain.fragments);
}

#[test]
fn error_override_is_used() {
    let args = ContractArgs { module: None };
    let item = contract(None, vec![error_attr("(ContractError)")], full_methods());
    let mut diags: Vec<Diagnostic> = Vec::new();
    let input = ImplInput::new(&args, &item, &s(DEFAULT_ERROR), &mut diags);
    assert_eq!(input.error, "ContractError");
    assert!(diags.is_empty());
}

#[test]
fn error_override_path_is_printed_as_tokens() {
    let args = ContractArgs { module: None };
    let attrs = vec![
        Attribute { path: s("doc"), tokens: s("= \"x\"") },
        error_attr("(crate::error::ContractError)"),
        error_attr("(Ignored)"),
    ];
    let item = contract(None, attrs, full_methods());
    let mut diags: Vec<Diagnostic> = Vec::new();
    let input = ImplInput::new(&args, &item, &s(DEFAULT_ERROR), &mut diags);
    assert_eq!(input.error, "crate :: error :: ContractError");
    assert!(diags.is_empty());
}

#[test]
fn error_defaults_without_override() {
    let args = ContractArgs { module: None };
    let item = contract(None, vec![], full_methods());
    let mut diags: Vec<Diagnostic> = Vec::new();
    let input = ImplInput::new(&args, &item, &s(DEFAULT_ERROR), &mut diags);
    assert_eq!(input.error, DEFAULT_ERROR);
    assert!(diags.is_empty());
}

#[test]
fn malformed_override_reports_and_defaults() {
    let args = ContractArgs { module: None };
    let attrs = vec![Attribute { path: s("doc"), tokens: s("= \"x\"") }, error_attr("= ContractError")];
    let item = contract(None, attrs, full_methods());
    let mut diags: Vec<Diagnostic> = Vec::new();
    let input = ImplInput::new(&args, &item, &s(DEFAULT_ERROR), &mut diags);
    assert_eq!(input.error, DEFAULT_ERROR);
    assert_eq!(diags.len(), 1);
    assert_eq!(diags[0].target, DiagTarget::Attr(1));
    assert!(diags[0].notes.is_empty());
}

#[test]
fn trait_impl_gives_only_helpers() {
    let args = ContractArgs { module: Some(s("ns")) };
    let item = contract(Some(s("Counter")), vec![error_attr("(ContractError)")], full_methods());
    let mut diags: Vec<Diagnostic> = Vec::new();
    let input = ImplInput::new(&args, &item, &s(DEFAULT_ERROR), &mut diags);
    let without = input.process(false);
    assert_eq!(without.module, None);
    assert!(without.fragments.is_empty());
    let with = input.process(true);
    assert_eq!(with.module, None);
    assert_eq!(
        with.fragments,
        vec![Fragment::ImplHelpers { is_trait: true, error: s("ContractError") }]
    );
}

#[test]
fn contract_fragments_in_fixed_order() {
    let args = ContractArgs { module: None };
    let item = contract(None, vec![error_attr("(ContractError)")], full_methods());
    let mut diags: Vec<Diagnostic> = Vec::new();
    let out = ImplInput::new(&args, &item, &s(DEFAULT_ERROR), &mut diags).process(true);
    let e = s("ContractError");
    assert_eq!(out.generics, vec![s("T"), s("U")]);
    assert_eq!(
        out.fragments,
        vec![
            Fragment::Struct { kind: MsgType::Instantiate, methods: vec![s("instantiate")] },
            Fragment::ContractEnum {
                kind: MsgType::Exec,
                methods: vec![s("increment")],
                error: e.clone()
            },
            Fragment::ContractEnum {
                kind: MsgType::Query,
                methods: vec![s("count")],
                error: e.clone()
            },
            Fragment::Struct { kind: MsgType::Migrate, methods: vec![s("migrate")] },
            Fragment::Glue { kind: MsgType::Exec, error: e.clone() },
            Fragment::Glue { kind: MsgType::Query, error: e.clone() },
            Fragment::ImplHelpers { is_trait: false, error: e },
        ]
    );
}

#[test]
fn contract_without_instantiate_has_no_instantiate_type() {
    let args = ContractArgs { module: None };
    let methods = vec![method("increment", Some(MsgType::Exec)), method("count", Some(MsgType::Query))];
    let item = contract(None, vec![], methods);
    let mut diags: Vec<Diagnostic> = Vec::new();
    let out = ImplInput::new(&args, &item, &s(DEFAULT_ERROR), &mut diags).process(false);
    let e = s(DEFAULT_ERROR);
    assert_eq!(
        out.fragments,
        vec![
            Fragment::ContractEnum {
                kind: MsgType::Exec,
                methods: vec![s("increment")],
                error: e.clone()
            },
            Fragment::ContractEnum {
                kind: MsgType::Query,
                methods: vec![s("count")],
                error: e.clone()
            },
            Fragment::Glue { kind: MsgType::Exec, error: e.clone() },
            Fragment::Glue { kind: MsgType::Query, error: e },
        ]
    );
}

#[test]
fn contract_generation_is_repeatable() {
    let args = ContractArgs { module: Some(s("ns")) };
    let item = contract(None, vec![error_attr("(ContractError)")], full_methods());
    let mut diags: Vec<Diagnostic> = Vec::new();
    let input = ImplInput::new(&args, &item, &s(DEFAULT_ERROR), &mut diags);
    assert_eq!(input.process(true), input.process(true));
}

#[test]
fn contract_namespace_only_wraps() {
    let plain_args = ContractArgs { module: None };
    let named_args = ContractArgs { module: Some(s("ns")) };
    let item = contract(None, vec![], full_methods());
    let mut diags: Vec<Diagnostic> = Vec::new();
    let plain = ImplInput::new(&plain_args, &item, &s(DEFAULT_ERROR), &mut diags).process(true);
    let named = ImplInput::new(&named_args, &item, &s(DEFAULT_ERROR), &mut diags).process(true);
    assert_eq!(named.module, Some(s("ns")));
    assert_eq!(named.generics, plain.generics);
    assert_eq!(named.fragments, plain.fragments);
}

#[test]
fn c_string_override_is_refused() {
    let args = ContractArgs { module: None };
    let attrs = vec![error_attr("([u8; c\"x\"])")];
    let item = contract(None, attrs, full_methods());
    let mut diags: Vec<Diagnostic> = Vec::new();
    let input = ImplInput::new(&args, &item, &s(DEFAULT_ERROR), &mut diags);
    assert_eq!(input.error, DEFAULT_ERROR);
    assert_eq!(diags.len(), 1);
    assert_eq!(diags[0].target, DiagTarget::Attr(0));
    assert_eq!(diags[0].message, "C string literals are not supported in a contract's error type");
    assert!(diags[0].notes.is_empty());
}

#[test]
fn interface_configuration_reaches_each_enum() {
    let custom = Custom { msg: Some(s("MyMsg")), query: Some(s("MyQuery")) };
    let args = InterfaceArgs { module: Some(s("counter")), custom };
    let item = counter_trait(vec![s("Error")]);
    let mut diags: Vec<Diagnostic> = Vec::new();
    let out = TraitInput::new(&args, &item, &mut diags).process(false);
    for f in &out.fragments {
        match f {
            Fragment::InterfaceEnum { custom, .. } => assert_eq!(custom, &args.custom),
            other => panic!("unexpected fragment {:?}", other),
        }
    }
    assert_eq!(out.fragments.len(), 2);
}

#[test]
fn string_ending_in_c_is_no_c_string() {
    let args = ContractArgs { module: None };
    let attrs = vec![error_attr("([u8; \"abc\".len()])")];
    let item = contract(None, attrs, full_methods());
    let mut diags: Vec<Diagnostic> = Vec::new();
    let input = ImplInput::new(&args, &item, &s(DEFAULT_ERROR), &mut diags);
    assert!(diags.is_empty());
    assert_ne!(input.error, DEFAULT_ERROR);
}

#[test]
fn c_string_starts_are_found() {
    assert!(contains_c_string(&s("([u8; c\"x\"])")));
    assert!(contains_c_string(&s("(T<cr\"x\">)")));
    assert!(contains_c_string(&s("(T<cr#\"x\"#>)")));
    assert!(!contains_c_string(&s("(crate::error::ContractError)")));
    assert!(!contains_c_string(&s("(c)")));
    assert!(!contains_c_string(&s("")));
    assert!(!contains_c_string(&s("cr")));
    assert!(!contains_c_string(&s("([u8; \"abc\".len()])")));
    assert!(!contains_c_string(&s("(Abc<bcr#x>)")));
    assert!(contains_c_string(&s("c\"x\"")));
}

#[test]
fn parsed_override_becomes_error_type() {
    let mut diags: Vec<Diagnostic> = Vec::new();
    let r = apply_error_override(2, Ok(s("ContractError")), &s(DEFAULT_ERROR), &mut diags);
    assert_eq!(r, "ContractError");
    assert!(diags.is_empty());
}

#[test]
fn parse_error_is_reported_with_its_message() {
    let mut diags: Vec<Diagnostic> = Vec::new();
    let r = apply_error_override(2, Err(s("expected parentheses")), &s(DEFAULT_ERROR), &mut diags);
    assert_eq!(r, DEFAULT_ERROR);
    assert_eq!(
        diags,
        vec![Diagnostic {
            target: DiagTarget::Attr(2),
            message: s("expected parentheses"),
            notes: vec![]
        }]
    );
}
