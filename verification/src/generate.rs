//! The pipeline: from a loaded document and its translated types to the
//! generated code.

use crate::document::{parse_abi_document, parsed_document, AbiDocument, AbiDocumentView};
use crate::error::{AbiError, AbiErrorView};
use crate::interface::{emit_interface, interface_of, GeneratedInterface, GeneratedInterfaceView};
use crate::invocation::Def;
use crate::naming::{interface_name, resolve_interface_name};
use crate::project::text_result_view;
use crate::registry::{build_registry, texts_view, type_table_of};
use crate::render::{declarations_text, interface_text, push_declarations, push_interface};
use crate::translation::{
    expansions_view, translated_for, translated_types, DeclaredItem, DeclaredItemView,
};
use vstd::prelude::*;
use vstd::string::StringExecFns;

verus! {

/// What the file at `path` holds as an ABI document. `contents` is the
/// file's text, or the system's message where the file could not be read.
pub open spec fn loaded_document(path: Seq<char>, contents: Result<Seq<char>, Seq<char>>)
    -> Result<AbiDocumentView, AbiErrorView> {
    match contents {
        Err(cause) => Err(AbiErrorView::Io { path, cause }),
        Ok(text) => match parsed_document(text) {
            Ok(document) => Ok(document),
            Err(issue) => Err(AbiErrorView::Format { path, issue }),
        },
    }
}

/// Turns what reading the file at `path` gave into a document. `path` is
/// the resolved path, the one that was opened. A file that could not be
/// read gives an `Io` error and a text that is no ABI document gives a
/// `Format` error; both carry `path`.
pub fn load_document(path: &str, contents: Result<String, String>) -> (document: Result<
    AbiDocument,
    AbiError,
>)
    ensures
        match document {
            Ok(d) => loaded_document(path@, text_result_view(contents)) == Ok::<
                AbiDocumentView,
                AbiErrorView,
            >(d@),
            Err(e) => loaded_document(path@, text_result_view(contents)) == Err::<
                AbiDocumentView,
                AbiErrorView,
            >(e@),
        },
{
    match contents {
        Err(cause) => Err(AbiError::Io { path: String::from_str(path), cause }),
        Ok(text) => match parse_abi_document(text.as_str()) {
            Ok(document) => Ok(document),
            Err(issue) => Err(AbiError::Format { path: String::from_str(path), issue }),
        },
    }
}

/// The generated code: the declarations that the types need, then the
/// interface.
#[derive(Clone, Debug, PartialEq, Eq)]
pub struct GeneratedCode {
    pub declarations: Vec<String>,
    pub interface: GeneratedInterface,
}

pub struct GeneratedCodeView {
    pub declarations: Seq<Seq<char>>,
    pub interface: GeneratedInterfaceView,
}

impl View for GeneratedCode {
    type V = GeneratedCodeView;

    open spec fn view(&self) -> GeneratedCodeView {
        GeneratedCodeView {
            declarations: texts_view(self.declarations@),
            interface: self.interface@,
        }
    }
}

/// The source text of generated code: every declaration on lines of its
/// own, then the interface.
pub open spec fn code_text(code: GeneratedCodeView) -> Seq<char> {
    declarations_text(code.declarations) + interface_text(code.interface)
}

impl GeneratedCode {
    /// The generated code as source text.
    pub fn render(&self) -> (text: String)
        ensures
            text@ == code_text(self@),
    {
        let mut text = String::new();
        push_declarations(&mut text, &self.declarations);
        push_interface(&mut text, &self.interface);
        assert(text@ =~= code_text(self@));
        text
    }
}

/// The code to generate for `document`. `explicit_name` is the interface
/// name that the invocation sets; `root_declarations` are the declarations
/// for the root schema and `expansions` what the translator declared for
/// the type definitions, in document order. A type without a translation
/// fails before any function is looked at.
pub open spec fn generated_code(
    explicit_name: Option<Seq<char>>,
    document: AbiDocumentView,
    root_declarations: Seq<Seq<char>>,
    expansions: Seq<Result<Seq<DeclaredItemView>, Seq<char>>>,
) -> Result<GeneratedCodeView, AbiErrorView> {
    match type_table_of(root_declarations, translated_for(document, expansions)) {
        Err(error) => Err(error),
        Ok(table) => match interface_of(
            interface_name(explicit_name, document.name),
            document.functions,
            table.registry,
        ) {
            Err(error) => Err(error),
            Ok(interface) => Ok(GeneratedCodeView { declarations: table.declarations, interface }),
        },
    }
}

/// Generates the interface of a contract from its ABI document.
///
/// The interface is named as the invocation says, else after the
/// document's contract name, else `ExtContract`. Each type definition is
/// paired with what the translator declared for it; a type whose schema
/// holds a reference that does not resolve, or for which the translator
/// declared nothing usable, fails with a `Schema` error. The type table is
/// built from `root_declarations` and the translated types; then one
/// method is emitted per function of the document, in document order. Any
/// failure is final and leaves no output.
pub fn near_abi(
    def: &Def,
    document: &AbiDocument,
    root_declarations: Vec<String>,
    expansions: &Vec<Result<Vec<DeclaredItem>, String>>,
) -> (code: Result<GeneratedCode, AbiError>)
    ensures
        match code {
            Ok(c) => generated_code(
                def@.contract_name,
                document@,
                texts_view(root_declarations@),
                expansions_view(expansions@),
            ) == Ok::<GeneratedCodeView, AbiErrorView>(c@),
            Err(e) => generated_code(
                def@.contract_name,
                document@,
                texts_view(root_declarations@),
                expansions_view(expansions@),
            ) == Err::<GeneratedCodeView, AbiErrorView>(e@),
        },
{
    let translated = translated_types(document, expansions);
    let table = match build_registry(root_declarations, &translated) {
        Ok(table) => table,
        Err(error) => {
            return Err(error);
        },
    };
    let name = resolve_interface_name(&def.contract_name, &document.name);
    match emit_interface(name, &document.functions, &table.registry) {
        Ok(interface) => Ok(GeneratedCode { declarations: table.declarations, interface }),
        Err(error) => Err(error),
    }
}

} // verus!
