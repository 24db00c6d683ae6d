use near_abi_interface::document::{parse_abi_document, AbiDocument, NamedType};
use near_abi_interface::error::AbiError;
use near_abi_interface::generate::near_abi;
use near_abi_interface::invocation::Def;
use near_abi_interface::registry::Translation;
use near_abi_interface::translation::{
    declared_name, list_schema, plan_translation, translation_of, DeclaredItem, TranslationStep,
};
use quote::ToTokens;
use schemafy_lib::{Expander, Schema};

fn element(item: &syn::Item) -> Option<String> {
    let syn::Item::Type(alias) = item else {
        return None;
    };
    let syn::Type::Path(aliased) = alias.ty.as_ref() else {
        return None;
    };
    match &aliased.path.segments.last()?.arguments {
        syn::PathArguments::AngleBracketed(list) if list.args.len() == 1 => {
            Some(list.args[0].to_token_stream().to_string())
        }
        _ => None,
    }
}

fn items(declared: proc_macro2::TokenStream) -> Vec<DeclaredItem> {
    syn::parse2::<syn::File>(declared)
        .unwrap()
        .items
        .iter()
        .map(|item| DeclaredItem {
            text: item.to_token_stream().to_string(),
            element: element(item),
        })
        .collect()
}

fn perform(root: &Schema, step: TranslationStep) -> Result<Vec<DeclaredItem>, String> {
    match step {
        TranslationStep::Refuse { reason } => Err(reason),
        TranslationStep::Expand { name, list_schema } => serde_json::from_str::<Schema>(&list_schema)
            .map_err(|error| error.to_string())
            .map(|list| items(Expander::new(Some(&name), "::schemafy_core::", root).expand(&list))),
    }
}

fn expansions(document: &AbiDocument) -> Vec<Result<Vec<DeclaredItem>, String>> {
    let root: Schema = serde_json::from_str(&document.root_schema).unwrap();
    plan_translation(document).into_iter().map(|step| perform(&root, step)).collect()
}

fn translation(id: u32, schema: &str) -> Result<Translation, String> {
    let document = AbiDocument {
        name: None,
        root_schema: r#"{"definitions":{"AccountId":{"type":"string"}}}"#.to_string(),
        types: vec![NamedType { id, schema: schema.to_string() }],
        functions: vec![],
    };
    expansions(&document).remove(0).and_then(|items| translation_of(&items))
}

fn scalar(type_ref: &str) -> Result<Translation, String> {
    Ok(Translation { type_ref: type_ref.to_string(), declarations: vec![] })
}

#[test]
fn list_schema_wraps_the_schema_as_items() {
    assert_eq!(list_schema(r#"{"type":"string"}"#), r#"{"type":"array","items":{"type":"string"}}"#);
    assert_eq!(list_schema("true"), r#"{"type":"array","items":true}"#);
    assert_eq!(list_schema(""), r#"{"type":"array","items":}"#);
}

#[test]
fn declared_name_carries_the_identifier() {
    assert_eq!(declared_name(0), "AbiType0");
    assert_eq!(declared_name(42), "AbiType42");
    assert_eq!(declared_name(u32::MAX), "AbiType4294967295");
}

#[test]
fn last_alias_names_the_type() {
    let item = |text: &str, element: Option<&str>| DeclaredItem {
        text: text.to_string(),
        element: element.map(str::to_string),
    };
    assert_eq!(
        translation_of(&vec![item("pub type L = Vec < String > ;", Some("String"))]),
        scalar("String")
    );
    assert_eq!(
        translation_of(&vec![
            item("pub struct A { }", None),
            item("pub type B = Option < A > ;", Some("A")),
            item("pub type L = Vec < B > ;", Some("B")),
        ]),
        Ok(Translation {
            type_ref: "B".to_string(),
            declarations: vec!["pub struct A { }".to_string(), "pub type B = Option < A > ;".to_string()],
        })
    );
}

#[test]
fn expansion_without_a_list_alias_has_no_translation() {
    let reason = Err("no list type was declared for the schema".to_string());
    assert_eq!(translation_of(&vec![]), reason);
    let item = DeclaredItem { text: "pub struct A { }".to_string(), element: None };
    assert_eq!(translation_of(&vec![item.clone()]), reason);
    let alias = DeclaredItem { text: "pub type L = Vec < A > ;".to_string(), element: Some("A".to_string()) };
    assert_eq!(translation_of(&vec![alias, item]), reason);
}

#[test]
fn primitive_schemas_give_the_scalar_types() {
    assert_eq!(translation(0, r#"{"type":"string"}"#), scalar("String"));
    assert_eq!(translation(1, r#"{"type":"integer"}"#), scalar("i64"));
    assert_eq!(translation(2, r#"{"type":"boolean"}"#), scalar("bool"));
    assert_eq!(translation(3, r#"{"type":"number"}"#), scalar("f64"));
}

#[test]
fn translating_twice_gives_the_same_type() {
    for schema in [r#"{"type":"string"}"#, r#"{"type":"array","items":{"type":"integer"}}"#] {
        assert_eq!(translation(5, schema), translation(5, schema));
        assert_eq!(translation(5, schema), translation(6, schema));
    }
}

#[test]
fn array_schema_gives_a_vector_of_the_element() {
    assert_eq!(
        translation(0, r#"{"type":"array","items":{"type":"string"}}"#),
        scalar("Vec < String >")
    );
}

#[test]
fn nullable_schema_gives_an_option() {
    assert_eq!(translation(0, r#"{"type":["string","null"]}"#), scalar("Option < String >"));
}

#[test]
fn reference_gives_the_name_of_the_definition() {
    assert_eq!(translation(0, r##"{"$ref":"#/definitions/AccountId"}"##), scalar("AccountId"));
}

#[test]
fn object_schema_brings_its_declaration() {
    let object = r#"{"type":"object","properties":{"amount":{"type":"integer"}},"required":["amount"]}"#;
    let translation = translation(3, object).unwrap();
    assert_eq!(translation.type_ref, "AbiType3Item");
    assert_eq!(translation.declarations.len(), 1);
    assert!(translation.declarations[0].contains("pub struct AbiType3Item"));
    assert!(translation.declarations[0].contains("pub amount : i64"));
}

#[test]
fn text_that_is_no_schema_has_no_translation() {
    assert!(translation(0, r#"{"type":5}"#).is_err());
    assert!(translation(0, r#""string""#).is_err());
    assert!(translation(0, "").is_err());
}

#[test]
fn document_is_generated_end_to_end() {
    let text = r##"{
      "metadata": { "name": "status_message" },
      "abi": {
        "root_schema": { "definitions": { "AccountId": { "type": "string" } } },
        "types": [
          { "id": 0, "schema": { "$ref": "#/definitions/AccountId" } },
          { "id": 1, "schema": { "type": "string" } },
          { "id": 2, "schema": { "type": ["string", "null"] } }
        ],
        "functions": [
          { "name": "set_status", "params": [ { "type_id": 1 } ] },
          { "name": "get_status", "params": [ { "type_id": 0 } ], "result": { "type_id": 2 } }
        ]
      }
    }"##;
    let document = parse_abi_document(text).unwrap();
    let root: Schema = serde_json::from_str(&document.root_schema).unwrap();
    let root_declarations =
        vec![Expander::new(None, "::schemafy_core::", &root).expand(&root).to_string()];
    let def = Def { contract_name: None, input_file: "abi.json".to_string() };
    let code = near_abi(&def, &document, root_declarations, &expansions(&document)).unwrap();
    assert_eq!(code.declarations, vec!["pub type AccountId = String ;"]);
    assert_eq!(
        code.render(),
        "pub type AccountId = String ;\n#[near_sdk::ext_contract]\npub trait ExtStatusMessage {\n    fn set_status(&self, arg0: String);\n    fn get_status(&self, arg0: AccountId) -> Option < String >;\n}\n"
    );
    let tokens = code.render().parse::<proc_macro2::TokenStream>().unwrap();
    let file = syn::parse2::<syn::File>(tokens).unwrap();
    assert_eq!(file.items.len(), 2);
}

#[test]
fn untranslatable_type_fails_the_generation() {
    let text = r#"{ "abi": { "root_schema": {},
                             "types": [ { "id": 4, "schema": { "type": 5 } } ],
                             "functions": [ { "name": "f", "params": [ { "type_id": 4 } ] } ] } }"#;
    let document = parse_abi_document(text).unwrap();
    let def = Def { contract_name: None, input_file: "abi.json".to_string() };
    let result = near_abi(&def, &document, vec![], &expansions(&document));
    assert!(matches!(result, Err(AbiError::Schema { type_id: 4, .. })));
}

#[test]
fn type_with_a_dangling_reference_is_not_expanded() {
    let document = AbiDocument {
        name: None,
        root_schema: r#"{"definitions":{"AccountId":{"type":"string"}}}"#.to_string(),
        types: vec![
            NamedType { id: 1, schema: r##"{"$ref":"#/definitions/AccountId"}"##.to_string() },
            NamedType { id: 2, schema: r##"{"$ref":"#/definitions/Balance"}"##.to_string() },
        ],
        functions: vec![],
    };
    assert_eq!(
        plan_translation(&document),
        vec![
            TranslationStep::Expand {
                name: "AbiType1".to_string(),
                list_schema: r##"{"type":"array","items":{"$ref":"#/definitions/AccountId"}}"##
                    .to_string(),
            },
            TranslationStep::Refuse {
                reason: "cannot resolve the reference `#/definitions/Balance`".to_string(),
            },
        ]
    );
    let def = Def { contract_name: None, input_file: "abi.json".to_string() };
    assert_eq!(
        near_abi(&def, &document, vec![], &expansions(&document)),
        Err(AbiError::Schema {
            type_id: 2,
            reason: "cannot resolve the reference `#/definitions/Balance`".to_string(),
        })
    );
}
