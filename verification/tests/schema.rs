use near_abi_interface::schema::{
    dangling_reference, defined_names, reference_resolves, references,
};

fn names(list: &[&str]) -> Vec<String> {
    list.iter().map(|n| n.to_string()).collect()
}

#[test]
fn schema_without_references_has_none() {
    assert_eq!(references(r#"{"type":"string"}"#), names(&[]));
    assert_eq!(references("true"), names(&[]));
    assert_eq!(references("[]"), names(&[]));
    assert_eq!(references(r#""$ref""#), names(&[]));
}

#[test]
fn text_that_is_not_json_has_no_references() {
    assert_eq!(references(""), names(&[]));
    assert_eq!(references(r##"{"$ref":"#/definitions/A""##), names(&[]));
}

#[test]
fn reference_of_the_schema_itself_is_found() {
    assert_eq!(references(r##"{"$ref":"#/definitions/A"}"##), names(&["#/definitions/A"]));
}

#[test]
fn references_are_found_at_any_depth() {
    let schema = r##"{
        "type": "object",
        "properties": {
            "owner": { "$ref": "#/definitions/AccountId" },
            "tags": { "type": "array", "items": { "$ref": "#/definitions/Tag" } }
        },
        "anyOf": [ { "$ref": "#/definitions/First" }, { "type": "null" } ]
    }"##;
    assert_eq!(
        references(schema),
        names(&["#/definitions/First", "#/definitions/AccountId", "#/definitions/Tag"])
    );
}

#[test]
fn array_elements_are_searched_in_order() {
    let schema = r##"[ {"$ref":"b"}, [ {"$ref":"a"} ], "x", {"$ref":"c"} ]"##;
    assert_eq!(references(schema), names(&["b", "a", "c"]));
}

#[test]
fn reference_that_is_no_string_is_searched_like_any_member() {
    assert_eq!(references(r##"{"$ref": 7}"##), names(&[]));
    assert_eq!(references(r##"{"$ref": {"$ref": "inner"}}"##), names(&["inner"]));
    assert_eq!(references(r##"{"$ref": [ {"$ref": "x"} ]}"##), names(&["x"]));
}

#[test]
fn same_reference_is_found_each_time() {
    let schema = r##"[ {"$ref":"#/definitions/A"}, {"$ref":"#/definitions/A"} ]"##;
    assert_eq!(references(schema), names(&["#/definitions/A", "#/definitions/A"]));
}

#[test]
fn references_are_found_far_down() {
    let mut schema = r##"{"$ref":"deep"}"##.to_string();
    for _ in 0..60 {
        schema = format!(r#"{{"items":[{}]}}"#, schema);
    }
    assert_eq!(references(&schema), names(&["deep"]));
}

#[test]
fn defined_names_are_the_keys_of_definitions() {
    assert_eq!(
        defined_names(r#"{"definitions":{"B":{"type":"string"},"A":true,"C":{}}}"#),
        names(&["A", "B", "C"])
    );
    assert_eq!(defined_names(r#"{"definitions":{}}"#), names(&[]));
}

#[test]
fn schema_without_definitions_defines_nothing() {
    assert_eq!(defined_names("{}"), names(&[]));
    assert_eq!(defined_names(r#"{"definitions":["A"]}"#), names(&[]));
    assert_eq!(defined_names(r#"{"definitions":"A"}"#), names(&[]));
    assert_eq!(defined_names(r#"["definitions"]"#), names(&[]));
    assert_eq!(defined_names("not json"), names(&[]));
}

#[test]
fn reference_to_a_defined_name_resolves() {
    let definitions = names(&["AccountId", "Balance"]);
    assert!(reference_resolves("#/definitions/AccountId", &definitions));
    assert!(reference_resolves("#/definitions/Balance", &definitions));
    assert!(reference_resolves("#/definitions/ä", &names(&["ä"])));
}

#[test]
fn reference_to_an_unknown_name_does_not_resolve() {
    let definitions = names(&["AccountId"]);
    assert!(!reference_resolves("#/definitions/Account", &definitions));
    assert!(!reference_resolves("#/definitions/AccountIdx", &definitions));
    assert!(!reference_resolves("#/definitions/accountid", &definitions));
    assert!(!reference_resolves("#/definitions/AccountId", &names(&[])));
}

#[test]
fn reference_of_another_form_does_not_resolve() {
    let definitions = names(&["AccountId", "", "a/b", "#/definitions/AccountId"]);
    assert!(!reference_resolves("", &definitions));
    assert!(!reference_resolves("#", &definitions));
    assert!(!reference_resolves("AccountId", &definitions));
    assert!(!reference_resolves("#/definitions/", &definitions));
    assert!(!reference_resolves("#/definitions", &definitions));
    assert!(!reference_resolves("#/definitions/a/b", &definitions));
    assert!(!reference_resolves("#/defs/AccountId", &definitions));
    assert!(!reference_resolves("/definitions/AccountId", &definitions));
    assert!(!reference_resolves("http://example.com/schema#/definitions/AccountId", &definitions));
}

#[test]
fn first_dangling_reference_is_reported() {
    let definitions = names(&["A", "B"]);
    let schema = r##"[ {"$ref":"#/definitions/A"}, {"$ref":"#/definitions/X"},
                       {"$ref":"#/definitions/B"}, {"$ref":"#/definitions/Y"} ]"##;
    assert_eq!(dangling_reference(schema, &definitions), Some("#/definitions/X".to_string()));
    assert_eq!(dangling_reference(schema, &names(&["A", "B", "X"])), Some("#/definitions/Y".to_string()));
    assert_eq!(dangling_reference(schema, &names(&["A", "B", "X", "Y"])), None);
    assert_eq!(dangling_reference(r#"{"type":"string"}"#, &names(&[])), None);
}
