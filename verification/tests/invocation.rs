use near_abi_interface::invocation::{Def, DefError, MacroToken};

fn ident(name: &str) -> MacroToken {
    MacroToken::Ident(name.to_string())
}

fn text(value: &str) -> MacroToken {
    MacroToken::Text(value.to_string())
}

#[test]
fn input_file_alone_is_an_invocation() {
    assert_eq!(
        Def::parse(&vec![text("res/abi.json")]),
        Ok(Def { contract_name: None, input_file: "res/abi.json".to_string() })
    );
}

#[test]
fn contract_name_comes_before_the_input_file() {
    assert_eq!(
        Def::parse(&vec![ident("contract_name"), MacroToken::Colon, ident("ExtToken"), text("abi.json")]),
        Ok(Def { contract_name: Some("ExtToken".to_string()), input_file: "abi.json".to_string() })
    );
}

#[test]
fn other_leading_identifier_is_refused() {
    let tokens = vec![ident("name"), MacroToken::Colon, ident("ExtToken"), text("abi.json")];
    assert_eq!(Def::parse(&tokens), Err(DefError::ExpectedContractName { at: 0 }));
    assert_eq!(Def::parse(&vec![ident("abi")]), Err(DefError::ExpectedContractName { at: 0 }));
}

#[test]
fn colon_must_follow_contract_name() {
    let tokens = vec![ident("contract_name"), ident("ExtToken"), text("abi.json")];
    assert_eq!(Def::parse(&tokens), Err(DefError::ExpectedColon { at: 1 }));
    assert_eq!(Def::parse(&vec![ident("contract_name")]), Err(DefError::ExpectedColon { at: 1 }));
}

#[test]
fn name_must_follow_the_colon() {
    let tokens = vec![ident("contract_name"), MacroToken::Colon, text("abi.json")];
    assert_eq!(Def::parse(&tokens), Err(DefError::ExpectedIdent { at: 2 }));
    let tokens = vec![ident("contract_name"), MacroToken::Colon];
    assert_eq!(Def::parse(&tokens), Err(DefError::ExpectedIdent { at: 2 }));
}

#[test]
fn input_file_is_required() {
    assert_eq!(Def::parse(&vec![]), Err(DefError::ExpectedInputFile { at: 0 }));
    assert_eq!(Def::parse(&vec![MacroToken::Other]), Err(DefError::ExpectedInputFile { at: 0 }));
    assert_eq!(Def::parse(&vec![MacroToken::Colon]), Err(DefError::ExpectedInputFile { at: 0 }));
    let tokens = vec![ident("contract_name"), MacroToken::Colon, ident("ExtToken")];
    assert_eq!(Def::parse(&tokens), Err(DefError::ExpectedInputFile { at: 3 }));
    let tokens = vec![ident("contract_name"), MacroToken::Colon, ident("ExtToken"), MacroToken::Other];
    assert_eq!(Def::parse(&tokens), Err(DefError::ExpectedInputFile { at: 3 }));
}

#[test]
fn nothing_may_follow_the_input_file() {
    assert_eq!(
        Def::parse(&vec![text("abi.json"), text("other.json")]),
        Err(DefError::UnexpectedToken { at: 1 })
    );
    let tokens = vec![
        ident("contract_name"),
        MacroToken::Colon,
        ident("ExtToken"),
        text("abi.json"),
        MacroToken::Other,
    ];
    assert_eq!(Def::parse(&tokens), Err(DefError::UnexpectedToken { at: 4 }));
}

#[test]
fn errors_say_what_was_expected() {
    assert_eq!(DefError::ExpectedContractName { at: 0 }.message(), "Expected `contract_name`");
    assert_eq!(DefError::ExpectedColon { at: 1 }.message(), "expected `:`");
    assert_eq!(DefError::ExpectedIdent { at: 2 }.message(), "expected identifier");
    assert_eq!(DefError::ExpectedInputFile { at: 3 }.message(), "expected string literal");
    assert_eq!(DefError::UnexpectedToken { at: 4 }.message(), "unexpected token");
    assert_eq!(DefError::UnexpectedToken { at: 4 }.position(), 4);
    assert_eq!(DefError::ExpectedInputFile { at: 0 }.position(), 0);
}
