//! The invocation: which file to read and, optionally, what to call the
//! interface.
//!
//! An invocation is a token sequence of one of two forms:
//!
//! ```text
//! "path/to/abi.json"
//! contract_name: Name "path/to/abi.json"
//! ```
//!
//! The tokens arrive already classified; this module only knows the four
//! classes of `MacroToken`.

use crate::document::optional_text;
use vstd::prelude::*;
use vstd::string::StringExecFns;

verus! {

/// A token of the invocation.
#[derive(Clone, Debug, PartialEq, Eq)]
pub enum MacroToken {
    /// An identifier.
    Ident(String),
    /// The punctuation `:`.
    Colon,
    /// A string literal, by its value.
    Text(String),
    /// Any other token.
    Other,
}

pub enum MacroTokenView {
    Ident(Seq<char>),
    Colon,
    Text(Seq<char>),
    Other,
}

impl View for MacroToken {
    type V = MacroTokenView;

    open spec fn view(&self) -> MacroTokenView {
        match *self {
            MacroToken::Ident(name) => MacroTokenView::Ident(name@),
            MacroToken::Colon => MacroTokenView::Colon,
            MacroToken::Text(value) => MacroTokenView::Text(value@),
            MacroToken::Other => MacroTokenView::Other,
        }
    }
}

/// The views of a sequence of tokens, in order.
pub open spec fn tokens_view(tokens: Seq<MacroToken>) -> Seq<MacroTokenView> {
    Seq::new(tokens.len(), |i: int| tokens[i]@)
}

/// A parsed invocation.
#[derive(Clone, Debug, PartialEq, Eq)]
pub struct Def {
    /// The name to give the interface, where the invocation sets one.
    pub contract_name: Option<String>,
    /// The path of the ABI document, as written.
    pub input_file: String,
}

pub struct DefView {
    pub contract_name: Option<Seq<char>>,
    pub input_file: Seq<char>,
}

impl View for Def {
    type V = DefView;

    open spec fn view(&self) -> DefView {
        DefView { contract_name: optional_text(self.contract_name), input_file: self.input_file@ }
    }
}

/// Why a token sequence is no invocation. `at` is the position of the
/// token that is wrong, or the number of tokens where one is missing.
#[derive(Clone, Copy, Debug, PartialEq, Eq, Structural)]
pub enum DefError {
    /// The leading identifier is not `contract_name`.
    ExpectedContractName { at: usize },
    /// `contract_name` is not followed by `:`.
    ExpectedColon { at: usize },
    /// `contract_name:` is not followed by an identifier.
    ExpectedIdent { at: usize },
    /// The string literal with the input file is missing.
    ExpectedInputFile { at: usize },
    /// Something follows the input file.
    UnexpectedToken { at: usize },
}

/// What the message of an error says.
pub open spec fn def_message_of(error: DefError) -> Seq<char> {
    match error {
        DefError::ExpectedContractName { .. } => "Expected `contract_name`"@,
        DefError::ExpectedColon { .. } => "expected `:`"@,
        DefError::ExpectedIdent { .. } => "expected identifier"@,
        DefError::ExpectedInputFile { .. } => "expected string literal"@,
        DefError::UnexpectedToken { .. } => "unexpected token"@,
    }
}

impl DefError {
    /// The position of the token that is wrong, or the number of tokens
    /// where one is missing.
    pub fn position(&self) -> (at: usize)
        ensures
            at == match *self {
                DefError::ExpectedContractName { at } => at,
                DefError::ExpectedColon { at } => at,
                DefError::ExpectedIdent { at } => at,
                DefError::ExpectedInputFile { at } => at,
                DefError::UnexpectedToken { at } => at,
            },
    {
        match self {
            DefError::ExpectedContractName { at } => *at,
            DefError::ExpectedColon { at } => *at,
            DefError::ExpectedIdent { at } => *at,
            DefError::ExpectedInputFile { at } => *at,
            DefError::UnexpectedToken { at } => *at,
        }
    }

    /// The message to show for this error.
    pub fn message(&self) -> (text: String)
        ensures
            text@ == def_message_of(*self),
    {
        match self {
            DefError::ExpectedContractName { .. } => String::from_str("Expected `contract_name`"),
            DefError::ExpectedColon { .. } => String::from_str("expected `:`"),
            DefError::ExpectedIdent { .. } => String::from_str("expected identifier"),
            DefError::ExpectedInputFile { .. } => String::from_str("expected string literal"),
            DefError::UnexpectedToken { .. } => String::from_str("unexpected token"),
        }
    }
}

/// The invocation whose input file is expected at position `at`, which
/// must be the last token.
pub open spec fn input_file_at(
    tokens: Seq<MacroTokenView>,
    at: int,
    contract_name: Option<Seq<char>>,
) -> Result<DefView, DefError> {
    if at < tokens.len() && tokens[at] is Text {
        if at + 1 == tokens.len() {
            Ok(DefView { contract_name, input_file: tokens[at]->Text_0 })
        } else {
            Err(DefError::UnexpectedToken { at: (at + 1) as usize })
        }
    } else {
        Err(DefError::ExpectedInputFile { at: at as usize })
    }
}

/// The invocation that `tokens` spell, or the first error in them.
pub open spec fn parsed_def(tokens: Seq<MacroTokenView>) -> Result<DefView, DefError> {
    if tokens.len() > 0 && tokens[0] is Ident {
        if tokens[0]->Ident_0 != "contract_name"@ {
            Err(DefError::ExpectedContractName { at: 0 })
        } else if !(tokens.len() > 1 && tokens[1] is Colon) {
            Err(DefError::ExpectedColon { at: 1 })
        } else if !(tokens.len() > 2 && tokens[2] is Ident) {
            Err(DefError::ExpectedIdent { at: 2 })
        } else {
            input_file_at(tokens, 3, Some(tokens[2]->Ident_0))
        }
    } else {
        input_file_at(tokens, 0, None)
    }
}

fn parse_input_file(tokens: &Vec<MacroToken>, at: usize, contract_name: Option<String>) -> (def:
    Result<Def, DefError>)
    requires
        at <= 3,
    ensures
        match def {
            Ok(d) => input_file_at(tokens_view(tokens@), at as int, optional_text(contract_name))
                == Ok::<DefView, DefError>(d@),
            Err(e) => input_file_at(tokens_view(tokens@), at as int, optional_text(contract_name))
                == Err::<DefView, DefError>(e),
        },
{
    if at < tokens.len() {
        assert(tokens_view(tokens@)[at as int] == tokens@[at as int]@);
        match &tokens[at] {
            MacroToken::Text(value) => {
                if at + 1 == tokens.len() {
                    Ok(Def { contract_name, input_file: value.clone() })
                } else {
                    Err(DefError::UnexpectedToken { at: at + 1 })
                }
            },
            _ => Err(DefError::ExpectedInputFile { at }),
        }
    } else {
        Err(DefError::ExpectedInputFile { at })
    }
}

impl Def {
    /// Parses an invocation. A leading identifier must be `contract_name`
    /// and be followed by `:` and the interface's name; then comes the
    /// input file as a string literal, and nothing after it.
    pub fn parse(tokens: &Vec<MacroToken>) -> (def: Result<Def, DefError>)
        ensures
            match def {
                Ok(d) => parsed_def(tokens_view(tokens@)) == Ok::<DefView, DefError>(d@),
                Err(e) => parsed_def(tokens_view(tokens@)) == Err::<DefView, DefError>(e),
            },
    {
        let ghost all = tokens_view(tokens@);
        if tokens.len() == 0 {
            return parse_input_file(tokens, 0, None);
        }
        assert(all[0] == tokens@[0]@);
        let keyword = match &tokens[0] {
            MacroToken::Ident(keyword) => keyword,
            _ => {
                return parse_input_file(tokens, 0, None);
            },
        };
        if !(*keyword == String::from_str("contract_name")) {
            return Err(DefError::ExpectedContractName { at: 0 });
        }
        if tokens.len() < 2 {
            return Err(DefError::ExpectedColon { at: 1 });
        }
        assert(all[1] == tokens@[1]@);
        match &tokens[1] {
            MacroToken::Colon => {},
            _ => {
                return Err(DefError::ExpectedColon { at: 1 });
            },
        }
        if tokens.len() < 3 {
            return Err(DefError::ExpectedIdent { at: 2 });
        }
        assert(all[2] == tokens@[2]@);
        match &tokens[2] {
            MacroToken::Ident(name) => parse_input_file(tokens, 3, Some(name.clone())),
            _ => Err(DefError::ExpectedIdent { at: 2 }),
        }
    }
}

} // verus!
