use near_abi_interface::document::{AbiDocument, FormatIssue, FunctionSignature, NamedType};
use near_abi_interface::error::{AbiError, TypePosition};
use near_abi_interface::generate::{load_document, near_abi, GeneratedCode};
use near_abi_interface::interface::{Argument, GeneratedInterface, MethodDecl};
use near_abi_interface::invocation::Def;
use near_abi_interface::project::resolve_input_path;
use near_abi_interface::translation::DeclaredItem;
use near_abi_interface::render::{render_interface, render_method};

fn def(contract_name: Option<&str>) -> Def {
    Def { contract_name: contract_name.map(str::to_string), input_file: "abi.json".to_string() }
}

fn document(name: Option<&str>, functions: Vec<FunctionSignature>) -> AbiDocument {
    AbiDocument {
        name: name.map(str::to_string),
        root_schema: "{}".to_string(),
        types: vec![
            NamedType { id: 0, schema: r#"{"type":"string"}"#.to_string() },
            NamedType { id: 1, schema: r#"{"type":"integer"}"#.to_string() },
        ],
        functions,
    }
}

fn function(name: &str, params: &[u32], result: Option<u32>) -> FunctionSignature {
    FunctionSignature { name: name.to_string(), params: params.to_vec(), result }
}

type Expansion = Result<Vec<DeclaredItem>, String>;

fn declared(type_ref: &str, declarations: &[&str]) -> Expansion {
    let mut items: Vec<DeclaredItem> = declarations
        .iter()
        .map(|d| DeclaredItem { text: d.to_string(), element: None })
        .collect();
    items.push(DeclaredItem {
        text: format!("pub type List = Vec < {} > ;", type_ref),
        element: Some(type_ref.to_string()),
    });
    Ok(items)
}

fn scalars() -> Vec<Expansion> {
    vec![declared("String", &[]), declared("i64", &[])]
}

fn method(name: &str, args: &[(&str, &str)], result: Option<&str>) -> MethodDecl {
    MethodDecl {
        name: name.to_string(),
        args: args
            .iter()
            .map(|(n, t)| Argument { name: n.to_string(), type_ref: t.to_string() })
            .collect(),
        result: result.map(str::to_string),
    }
}

#[test]
fn generates_one_method_per_function() {
    let document = document(
        Some("my_token"),
        vec![
            function("transfer", &[0, 1], None),
            function("balance_of", &[0], Some(1)),
            function("name", &[], Some(0)),
        ],
    );
    let code = near_abi(&def(None), &document, vec![], &scalars()).unwrap();
    assert_eq!(
        code,
        GeneratedCode {
            declarations: vec![],
            interface: GeneratedInterface {
                name: "ExtMyToken".to_string(),
                methods: vec![
                    method("transfer", &[("arg0", "String"), ("arg1", "i64")], None),
                    method("balance_of", &[("arg0", "String")], Some("i64")),
                    method("name", &[], Some("String")),
                ],
            },
        }
    );
}

#[test]
fn invocation_names_the_interface() {
    let document = document(Some("my_token"), vec![]);
    let code = near_abi(&def(Some("Token")), &document, vec![], &scalars()).unwrap();
    assert_eq!(code.interface.name, "Token");
}

#[test]
fn interface_without_any_name_is_ext_contract() {
    let code = near_abi(&def(None), &document(None, vec![]), vec![], &scalars()).unwrap();
    assert_eq!(code.interface.name, "ExtContract");
    assert!(code.interface.methods.is_empty());
}

#[test]
fn document_that_refers_to_type_999_is_refused() {
    let document = document(None, vec![function("f", &[0], Some(999))]);
    assert_eq!(
        near_abi(&def(None), &document, vec![], &scalars()),
        Err(AbiError::UnresolvedType {
            function: "f".to_string(),
            position: TypePosition::Result,
            type_id: 999,
        })
    );
}

#[test]
fn untranslated_type_is_reported_before_unresolved_types() {
    let document = document(None, vec![function("f", &[999], None)]);
    let expansions = vec![declared("String", &[]), Err("not a schema".to_string())];
    assert_eq!(
        near_abi(&def(None), &document, vec![], &expansions),
        Err(AbiError::Schema { type_id: 1, reason: "not a schema".to_string() })
    );
}

#[test]
fn declarations_go_with_the_interface() {
    let document = document(None, vec![function("get", &[], Some(1))]);
    let expansions =
        vec![declared("String", &[]), declared("Pair", &["pub struct Pair { pub a : i64 }"])];
    let code =
        near_abi(&def(None), &document, vec!["pub type Root = String ;".to_string()], &expansions)
            .unwrap();
    assert_eq!(
        code.declarations,
        vec!["pub type Root = String ;", "pub struct Pair { pub a : i64 }"]
    );
    assert_eq!(code.interface.methods, vec![method("get", &[], Some("Pair"))]);
}

#[test]
fn method_text_lists_the_arguments_after_the_receiver() {
    assert_eq!(
        render_method(&method("f", &[("arg0", "String"), ("arg1", "Vec<i64>")], Some("bool"))),
        "fn f(&self, arg0: String, arg1: Vec<i64>) -> bool;"
    );
    assert_eq!(render_method(&method("g", &[], None)), "fn g(&self);");
    assert_eq!(render_method(&method("h", &[], Some("i64"))), "fn h(&self) -> i64;");
    assert_eq!(render_method(&method("k", &[("arg0", "u8")], None)), "fn k(&self, arg0: u8);");
}

#[test]
fn interface_text_is_a_trait_with_one_method_per_line() {
    let interface = GeneratedInterface {
        name: "ExtMyToken".to_string(),
        methods: vec![
            method("transfer", &[("arg0", "String"), ("arg1", "i64")], None),
            method("name", &[], Some("String")),
        ],
    };
    assert_eq!(
        render_interface(&interface),
        "#[near_sdk::ext_contract]\npub trait ExtMyToken {\n    fn transfer(&self, arg0: String, arg1: i64);\n    fn name(&self) -> String;\n}\n"
    );
}

#[test]
fn empty_interface_text_has_no_methods() {
    let interface = GeneratedInterface { name: "ExtContract".to_string(), methods: vec![] };
    assert_eq!(
        render_interface(&interface),
        "#[near_sdk::ext_contract]\npub trait ExtContract {\n}\n"
    );
}

#[test]
fn code_text_puts_the_declarations_first() {
    let code = GeneratedCode {
        declarations: vec!["pub struct A ;".to_string(), "pub struct B ;".to_string()],
        interface: GeneratedInterface {
            name: "Ext".to_string(),
            methods: vec![method("a", &[], Some("A"))],
        },
    };
    assert_eq!(
        code.render(),
        "pub struct A ;\npub struct B ;\n#[near_sdk::ext_contract]\npub trait Ext {\n    fn a(&self) -> A;\n}\n"
    );
}

#[test]
fn unreadable_file_is_an_io_error_with_the_resolved_path() {
    let path = resolve_input_path("res/abi.json", "/work/project");
    let read = Err("No such file or directory (os error 2)".to_string());
    assert_eq!(
        load_document(&path, read),
        Err(AbiError::Io {
            path: "/work/project/res/abi.json".to_string(),
            cause: "No such file or directory (os error 2)".to_string(),
        })
    );
}

#[test]
fn truncated_file_is_a_format_error() {
    let whole = r#"{ "abi": { "root_schema": {}, "types": [], "functions": [ { "name": "f" } ] } }"#;
    assert!(load_document("/p/abi.json", Ok(whole.to_string())).is_ok());
    for cut in [1, whole.len() / 3, whole.len() / 2, whole.len() - 1] {
        assert_eq!(
            load_document("/p/abi.json", Ok(whole[..cut].to_string())),
            Err(AbiError::Format {
                path: "/p/abi.json".to_string(),
                issue: FormatIssue::InvalidJson,
            }),
            "cut at {}",
            cut
        );
    }
}

#[test]
fn json_of_another_shape_is_a_format_error() {
    assert_eq!(
        load_document("/p/abi.json", Ok(r#"{ "functions": [] }"#.to_string())),
        Err(AbiError::Format {
            path: "/p/abi.json".to_string(),
            issue: FormatIssue::UnexpectedShape,
        })
    );
}

#[test]
fn loaded_document_is_the_parsed_text() {
    let text = r#"{ "metadata": { "name": "n" },
                    "abi": { "root_schema": {}, "types": [ { "id": 2, "schema": [] } ],
                             "functions": [ { "name": "f", "params": [ { "type_id": 2 } ] } ] } }"#;
    assert_eq!(
        load_document("abi.json", Ok(text.to_string())),
        Ok(AbiDocument {
            name: Some("n".to_string()),
            root_schema: "{}".to_string(),
            types: vec![NamedType { id: 2, schema: "[]".to_string() }],
            functions: vec![function("f", &[2], None)],
        })
    );
}

#[test]
fn messages_name_the_file_or_the_type() {
    assert_eq!(
        AbiError::Io { path: "/w/abi.json".to_string(), cause: "denied".to_string() }.message(),
        "Unable to read `/w/abi.json`: denied"
    );
    assert_eq!(
        AbiError::Format { path: "/w/abi.json".to_string(), issue: FormatIssue::InvalidJson }
            .message(),
        "Cannot parse `/w/abi.json` as JSON"
    );
    assert_eq!(
        AbiError::Format { path: "/w/abi.json".to_string(), issue: FormatIssue::UnexpectedShape }
            .message(),
        "Invalid ABI document in `/w/abi.json`"
    );
    assert_eq!(
        AbiError::Schema { type_id: 42, reason: "no such definition".to_string() }.message(),
        "Cannot translate type 42: no such definition"
    );
    assert_eq!(
        AbiError::UnresolvedType {
            function: "f".to_string(),
            position: TypePosition::Result,
            type_id: 999,
        }
        .message(),
        "Unexpected result type 999 in function `f`"
    );
    assert_eq!(
        AbiError::UnresolvedType {
            function: "send".to_string(),
            position: TypePosition::Parameter(12),
            type_id: 4294967295,
        }
        .message(),
        "Unexpected argument 12 type 4294967295 in function `send`"
    );
}

#[test]
fn type_without_an_expansion_is_refused() {
    let document = document(None, vec![]);
    assert_eq!(
        near_abi(&def(None), &document, vec![], &vec![declared("String", &[])]),
        Err(AbiError::Schema { type_id: 1, reason: "the type was not translated".to_string() })
    );
    assert_eq!(
        near_abi(&def(None), &document, vec![], &vec![]),
        Err(AbiError::Schema { type_id: 0, reason: "the type was not translated".to_string() })
    );
}

#[test]
fn expansions_beyond_the_types_are_ignored() {
    let document = document(None, vec![function("f", &[1], None)]);
    let expansions = vec![declared("String", &[]), declared("i64", &[]), Err("extra".to_string())];
    let code = near_abi(&def(None), &document, vec![], &expansions).unwrap();
    assert_eq!(code.interface.methods, vec![method("f", &[("arg0", "i64")], None)]);
}

#[test]
fn type_with_a_dangling_reference_is_refused() {
    let mut document = document(None, vec![function("f", &[0], None)]);
    document.root_schema = r#"{"definitions":{"Known":{"type":"string"}}}"#.to_string();
    document.types = vec![
        NamedType { id: 3, schema: r##"{"$ref":"#/definitions/Known"}"##.to_string() },
        NamedType { id: 8, schema: r##"{"type":"array","items":{"$ref":"#/definitions/Missing"}}"##.to_string() },
    ];
    let expansions = vec![declared("Known", &[]), declared("Vec < Missing >", &[])];
    assert_eq!(
        near_abi(&def(None), &document, vec![], &expansions),
        Err(AbiError::Schema {
            type_id: 8,
            reason: "cannot resolve the reference `#/definitions/Missing`".to_string(),
        })
    );
    document.root_schema =
        r#"{"definitions":{"Known":{"type":"string"},"Missing":{"type":"integer"}}}"#.to_string();
    document.functions = vec![function("f", &[3], Some(8))];
    let code = near_abi(&def(None), &document, vec![], &expansions).unwrap();
    assert_eq!(
        code.interface.methods,
        vec![method("f", &[("arg0", "Known")], Some("Vec < Missing >"))]
    );
}
