use near_abi_interface::naming::{choose_interface_name, resolve_interface_name};

fn some(text: &str) -> Option<String> {
    Some(text.to_string())
}

#[test]
fn explicit_name_wins_over_metadata() {
    assert_eq!(resolve_interface_name(&some("MyApi"), &some("my_token")), "MyApi");
    assert_eq!(resolve_interface_name(&some("MyApi"), &None), "MyApi");
}

#[test]
fn explicit_name_is_taken_as_written() {
    assert_eq!(resolve_interface_name(&some("lower_case"), &some("x")), "lower_case");
}

#[test]
fn metadata_name_is_camel_cased_and_prefixed() {
    assert_eq!(resolve_interface_name(&None, &some("my_token")), "ExtMyToken");
    assert_eq!(resolve_interface_name(&None, &some("status-message")), "ExtStatusMessage");
    assert_eq!(resolve_interface_name(&None, &some("greeter")), "ExtGreeter");
    assert_eq!(resolve_interface_name(&None, &some("fungible token v2")), "ExtFungibleTokenV2");
}

#[test]
fn without_any_name_the_fallback_is_used() {
    assert_eq!(resolve_interface_name(&None, &None), "ExtContract");
}

#[test]
fn empty_metadata_name_gives_the_bare_prefix() {
    assert_eq!(resolve_interface_name(&None, &some("")), "Ext");
}

#[test]
fn chosen_name_prefixes_the_given_camel_name() {
    assert_eq!(choose_interface_name(&None, &some("MyToken")), "ExtMyToken");
    assert_eq!(choose_interface_name(&None, &some("as_given")), "Extas_given");
    assert_eq!(choose_interface_name(&some("Api"), &some("MyToken")), "Api");
    assert_eq!(choose_interface_name(&None, &None), "ExtContract");
}

#[test]
fn metadata_names_of_any_script_are_accepted() {
    assert_eq!(resolve_interface_name(&None, &some("___")), "Ext");
    assert_eq!(resolve_interface_name(&None, &some("v2")), "ExtV2");
    assert_eq!(resolve_interface_name(&None, &some("größe_maß")), "ExtGrößeMaß");
    assert_eq!(resolve_interface_name(&None, &some("already_CamelCase")), "ExtAlreadyCamelCase");
    let emoji = resolve_interface_name(&None, &some("a 🦀 b"));
    assert!(emoji.starts_with("ExtA"));
    assert!(emoji.ends_with("B"));
}
