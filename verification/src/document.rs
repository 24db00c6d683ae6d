//! The ABI document: its data model and its decoding from JSON.
//!
//! A document is a JSON object with two members that matter here:
//!
//! ```text
//! { "metadata": { "name": <string, optional> },
//!   "abi": { "root_schema": <schema>,
//!            "types":     [ { "id": <u32>, "schema": <schema> }, ... ],
//!            "functions": [ { "name": <string>,
//!                             "params": [ { "type_id": <u32> }, ... ],
//!                             "result": { "type_id": <u32> } }, ... ] } }
//! ```
//!
//! `params` may be left out (no parameters) and `result` may be left out or
//! `null` (no result). Members that are not listed are ignored. A schema is
//! any JSON value; it is kept as compact JSON text and never looked into.

use crate::json::{
    elements, is_null, json_elements, json_is_null, json_member, json_parsed, json_string,
    json_text, json_unsigned, member, parse_json, string_of, text_of, unsigned_of,
};
use vstd::prelude::*;

verus! {

/// A type definition: the identifier that functions refer to, and the JSON
/// Schema of the type as compact JSON text.
#[derive(Clone, Debug, PartialEq, Eq)]
pub struct NamedType {
    pub id: u32,
    pub schema: String,
}

pub struct NamedTypeView {
    pub id: u32,
    pub schema: Seq<char>,
}

impl View for NamedType {
    type V = NamedTypeView;

    open spec fn view(&self) -> NamedTypeView {
        NamedTypeView { id: self.id, schema: self.schema@ }
    }
}

/// A function of the contract. Parameters have no names in the document;
/// their order is the order of the arguments.
#[derive(Clone, Debug, PartialEq, Eq)]
pub struct FunctionSignature {
    pub name: String,
    pub params: Vec<u32>,
    pub result: Option<u32>,
}

pub struct FunctionSignatureView {
    pub name: Seq<char>,
    pub params: Seq<u32>,
    pub result: Option<u32>,
}

impl View for FunctionSignature {
    type V = FunctionSignatureView;

    open spec fn view(&self) -> FunctionSignatureView {
        FunctionSignatureView { name: self.name@, params: self.params@, result: self.result }
    }
}

/// A parsed ABI document.
#[derive(Clone, Debug, PartialEq, Eq)]
pub struct AbiDocument {
    /// The contract's name from the document's metadata.
    pub name: Option<String>,
    /// The schema that holds the definitions shared by all types.
    pub root_schema: String,
    pub types: Vec<NamedType>,
    pub functions: Vec<FunctionSignature>,
}

pub struct AbiDocumentView {
    pub name: Option<Seq<char>>,
    pub root_schema: Seq<char>,
    pub types: Seq<NamedTypeView>,
    pub functions: Seq<FunctionSignatureView>,
}

/// The views of a sequence of type definitions, in order.
pub open spec fn named_types_view(types: Seq<NamedType>) -> Seq<NamedTypeView> {
    Seq::new(types.len(), |i: int| types[i]@)
}

/// The views of a sequence of functions, in order.
pub open spec fn functions_view(functions: Seq<FunctionSignature>) -> Seq<FunctionSignatureView> {
    Seq::new(functions.len(), |i: int| functions[i]@)
}

/// The characters of an optional text.
pub open spec fn optional_text(text: Option<String>) -> Option<Seq<char>> {
    match text {
        Some(t) => Some(t@),
        None => None,
    }
}

impl View for AbiDocument {
    type V = AbiDocumentView;

    open spec fn view(&self) -> AbiDocumentView {
        AbiDocumentView {
            name: optional_text(self.name),
            root_schema: self.root_schema@,
            types: named_types_view(self.types@),
            functions: functions_view(self.functions@),
        }
    }
}

/// Why a text is not an ABI document.
#[derive(Clone, Copy, Debug, PartialEq, Eq, Structural)]
pub enum FormatIssue {
    /// The text is not JSON.
    InvalidJson,
    /// The text is JSON of another shape than an ABI document's.
    UnexpectedShape,
}

/// The identifier in `{ "type_id": n }`: `n` must be an integer of 32
/// unsigned bits.
pub open spec fn type_reference_of(value: serde_json::Value) -> Option<u32> {
    match json_member(value, "type_id"@) {
        Some(id) => match json_unsigned(id) {
            Some(n) => if n <= u32::MAX {
                Some(n as u32)
            } else {
                None
            },
            None => None,
        },
        None => None,
    }
}

/// The identifiers that the elements of `items` hold, in order, where
/// every element holds one.
pub open spec fn type_references_of(items: Seq<serde_json::Value>) -> Option<Seq<u32>> {
    if forall|i: int| 0 <= i < items.len() ==> (#[trigger] type_reference_of(items[i])) is Some {
        Some(Seq::new(items.len(), |i: int| type_reference_of(items[i])->0))
    } else {
        None
    }
}

/// The parameter list of a function entry: empty where `params` is left
/// out, else `params` must be an array whose elements all hold a `type_id`.
pub open spec fn params_of(function: serde_json::Value) -> Option<Seq<u32>> {
    match json_member(function, "params"@) {
        Some(params) => match json_elements(params) {
            Some(items) => type_references_of(items),
            None => None,
        },
        None => Some(Seq::empty()),
    }
}

/// The result of a function entry: none where `result` is left out or
/// `null`, else it must hold a `type_id`.
pub open spec fn result_of(function: serde_json::Value) -> Option<Option<u32>> {
    match json_member(function, "result"@) {
        Some(result) => if json_is_null(result) {
            Some(None)
        } else {
            match type_reference_of(result) {
                Some(id) => Some(Some(id)),
                None => None,
            }
        },
        None => Some(None),
    }
}

/// The function that a function entry describes: `name` must be a string.
pub open spec fn function_of(value: serde_json::Value) -> Option<FunctionSignatureView> {
    match json_member(value, "name"@) {
        Some(name) => match (json_string(name), params_of(value), result_of(value)) {
            (Some(name), Some(params), Some(result)) => Some(
                FunctionSignatureView { name, params, result },
            ),
            _ => None,
        },
        None => None,
    }
}

/// The functions that the elements of `items` describe, in order, where
/// every element describes one.
pub open spec fn functions_of(items: Seq<serde_json::Value>) -> Option<
    Seq<FunctionSignatureView>,
> {
    if forall|i: int| 0 <= i < items.len() ==> (#[trigger] function_of(items[i])) is Some {
        Some(Seq::new(items.len(), |i: int| function_of(items[i])->0))
    } else {
        None
    }
}

/// The type that a type entry defines: `id` must be an integer of 32
/// unsigned bits and `schema` must be there.
pub open spec fn named_type_of(value: serde_json::Value) -> Option<NamedTypeView> {
    match (json_member(value, "id"@), json_member(value, "schema"@)) {
        (Some(id), Some(schema)) => match json_unsigned(id) {
            Some(n) => if n <= u32::MAX {
                Some(NamedTypeView { id: n as u32, schema: json_text(schema) })
            } else {
                None
            },
            None => None,
        },
        _ => None,
    }
}

/// The types that the elements of `items` define, in order, where every
/// element defines one.
pub open spec fn named_types_of(items: Seq<serde_json::Value>) -> Option<Seq<NamedTypeView>> {
    if forall|i: int| 0 <= i < items.len() ==> (#[trigger] named_type_of(items[i])) is Some {
        Some(Seq::new(items.len(), |i: int| named_type_of(items[i])->0))
    } else {
        None
    }
}

/// The contract name in a document: none where `metadata` or its `name` is
/// left out or `name` is `null`, else `name` must be a string.
pub open spec fn contract_name_of(document: serde_json::Value) -> Option<Option<Seq<char>>> {
    match json_member(document, "metadata"@) {
        Some(metadata) => match json_member(metadata, "name"@) {
            Some(name) => if json_is_null(name) {
                Some(None)
            } else {
                match json_string(name) {
                    Some(text) => Some(Some(text)),
                    None => None,
                }
            },
            None => Some(None),
        },
        None => Some(None),
    }
}

/// The type definitions of a document body: `types` must be an array
/// whose elements all define a type.
pub open spec fn types_of(abi: serde_json::Value) -> Option<Seq<NamedTypeView>> {
    match json_member(abi, "types"@) {
        Some(list) => match json_elements(list) {
            Some(items) => named_types_of(items),
            None => None,
        },
        None => None,
    }
}

/// The functions of a document body: `functions` must be an array whose
/// elements all describe a function.
pub open spec fn signatures_of(abi: serde_json::Value) -> Option<Seq<FunctionSignatureView>> {
    match json_member(abi, "functions"@) {
        Some(list) => match json_elements(list) {
            Some(items) => functions_of(items),
            None => None,
        },
        None => None,
    }
}

/// The document that a JSON value describes, or `None` where the value has
/// another shape.
pub open spec fn document_of(value: serde_json::Value) -> Option<AbiDocumentView> {
    match (contract_name_of(value), json_member(value, "abi"@)) {
        (Some(name), Some(abi)) => match (
            json_member(abi, "root_schema"@),
            types_of(abi),
            signatures_of(abi),
        ) {
            (Some(root_schema), Some(types), Some(functions)) => Some(
                AbiDocumentView { name, root_schema: json_text(root_schema), types, functions },
            ),
            _ => None,
        },
        _ => None,
    }
}

/// What parsing `text` as an ABI document gives.
pub open spec fn parsed_document(text: Seq<char>) -> Result<AbiDocumentView, FormatIssue> {
    match json_parsed(text) {
        Some(value) => match document_of(value) {
            Some(document) => Ok(document),
            None => Err(FormatIssue::UnexpectedShape),
        },
        None => Err(FormatIssue::InvalidJson),
    }
}

fn decode_type_reference(value: &serde_json::Value) -> (id: Option<u32>)
    ensures
        id == type_reference_of(*value),
{
    match member(value, "type_id") {
        Some(id) => match unsigned_of(id) {
            Some(n) => if n <= 0xffff_ffff {
                Some(n as u32)
            } else {
                None
            },
            None => None,
        },
        None => None,
    }
}

#[verifier::loop_isolation(false)]
fn decode_params(function: &serde_json::Value) -> (params: Option<Vec<u32>>)
    ensures
        match params {
            Some(p) => params_of(*function) == Some(p@),
            None => params_of(*function) is None,
        },
{
    let list = match member(function, "params") {
        Some(list) => list,
        None => {
            return Some(Vec::new());
        },
    };
    let items = match elements(list) {
        Some(items) => items,
        None => {
            return None;
        },
    };
    let mut params: Vec<u32> = Vec::new();
    let mut i: usize = 0;
    while i < items.len()
        invariant
            i <= items.len(),
            params@.len() == i,
            forall|j: int|
                0 <= j < i ==> type_reference_of(#[trigger] items@[j]) == Some(params@[j]),
        decreases items.len() - i,
    {
        match decode_type_reference(&items[i]) {
            Some(id) => {
                params.push(id);
            },
            None => {
                assert(type_reference_of(items@[i as int]) is None);
                return None;
            },
        }
        i += 1;
    }
    assert(params@ =~= type_references_of(items@)->0);
    Some(params)
}

fn decode_result(function: &serde_json::Value) -> (result: Option<Option<u32>>)
    ensures
        result == result_of(*function),
{
    match member(function, "result") {
        Some(result) => {
            if is_null(result) {
                Some(None)
            } else {
                match decode_type_reference(result) {
                    Some(id) => Some(Some(id)),
                    None => None,
                }
            }
        },
        None => Some(None),
    }
}

fn decode_function(value: &serde_json::Value) -> (function: Option<FunctionSignature>)
    ensures
        match function {
            Some(f) => function_of(*value) == Some(f@),
            None => function_of(*value) is None,
        },
{
    let name = match member(value, "name") {
        Some(name) => match string_of(name) {
            Some(name) => name,
            None => {
                return None;
            },
        },
        None => {
            return None;
        },
    };
    let params = match decode_params(value) {
        Some(params) => params,
        None => {
            return None;
        },
    };
    match decode_result(value) {
        Some(result) => Some(FunctionSignature { name, params, result }),
        None => None,
    }
}

fn decode_named_type(value: &serde_json::Value) -> (named: Option<NamedType>)
    ensures
        match named {
            Some(t) => named_type_of(*value) == Some(t@),
            None => named_type_of(*value) is None,
        },
{
    let id = match member(value, "id") {
        Some(id) => id,
        None => {
            return None;
        },
    };
    let schema = match member(value, "schema") {
        Some(schema) => schema,
        None => {
            return None;
        },
    };
    match unsigned_of(id) {
        Some(n) => if n <= 0xffff_ffff {
            Some(NamedType { id: n as u32, schema: text_of(schema) })
        } else {
            None
        },
        None => None,
    }
}

fn decode_contract_name(document: &serde_json::Value) -> (name: Option<Option<String>>)
    ensures
        match name {
            Some(n) => contract_name_of(*document) == Some(optional_text(n)),
            None => contract_name_of(*document) is None,
        },
{
    let metadata = match member(document, "metadata") {
        Some(metadata) => metadata,
        None => {
            return Some(None);
        },
    };
    match member(metadata, "name") {
        Some(name) => {
            if is_null(name) {
                Some(None)
            } else {
                match string_of(name) {
                    Some(text) => Some(Some(text)),
                    None => None,
                }
            }
        },
        None => Some(None),
    }
}

#[verifier::loop_isolation(false)]
fn decode_types(abi: &serde_json::Value) -> (types: Option<Vec<NamedType>>)
    ensures
        match types {
            Some(t) => types_of(*abi) == Some(named_types_view(t@)),
            None => types_of(*abi) is None,
        },
{
    let list = match member(abi, "types") {
        Some(list) => list,
        None => {
            return None;
        },
    };
    let items = match elements(list) {
        Some(items) => items,
        None => {
            return None;
        },
    };
    let mut types: Vec<NamedType> = Vec::new();
    let mut i: usize = 0;
    while i < items.len()
        invariant
            i <= items.len(),
            types@.len() == i,
            forall|j: int|
                0 <= j < i ==> named_type_of(#[trigger] items@[j]) == Some(types@[j]@),
        decreases items.len() - i,
    {
        match decode_named_type(&items[i]) {
            Some(named) => {
                types.push(named);
            },
            None => {
                assert(named_type_of(items@[i as int]) is None);
                return None;
            },
        }
        i += 1;
    }
    assert(named_types_view(types@) =~= named_types_of(items@)->0);
    Some(types)
}

#[verifier::loop_isolation(false)]
fn decode_functions(abi: &serde_json::Value) -> (functions: Option<Vec<FunctionSignature>>)
    ensures
        match functions {
            Some(f) => signatures_of(*abi) == Some(functions_view(f@)),
            None => signatures_of(*abi) is None,
        },
{
    let list = match member(abi, "functions") {
        Some(list) => list,
        None => {
            return None;
        },
    };
    let items = match elements(list) {
        Some(items) => items,
        None => {
            return None;
        },
    };
    let mut functions: Vec<FunctionSignature> = Vec::new();
    let mut i: usize = 0;
    while i < items.len()
        invariant
            i <= items.len(),
            functions@.len() == i,
            forall|j: int|
                0 <= j < i ==> function_of(#[trigger] items@[j]) == Some(functions@[j]@),
        decreases items.len() - i,
    {
        match decode_function(&items[i]) {
            Some(function) => {
                functions.push(function);
            },
            None => {
                assert(function_of(items@[i as int]) is None);
                return None;
            },
        }
        i += 1;
    }
    assert(functions_view(functions@) =~= functions_of(items@)->0);
    Some(functions)
}

/// Decodes a parsed JSON value as an ABI document. The result is `None`
/// exactly where the value has another shape than the one this module
/// describes.
pub fn decode_document(value: &serde_json::Value) -> (document: Option<AbiDocument>)
    ensures
        match document {
            Some(d) => document_of(*value) == Some(d@),
            None => document_of(*value) is None,
        },
{
    let name = match decode_contract_name(value) {
        Some(name) => name,
        None => {
            return None;
        },
    };
    let abi = match member(value, "abi") {
        Some(abi) => abi,
        None => {
            return None;
        },
    };
    let root_schema = match member(abi, "root_schema") {
        Some(root_schema) => text_of(root_schema),
        None => {
            return None;
        },
    };
    let types = match decode_types(abi) {
        Some(types) => types,
        None => {
            return None;
        },
    };
    match decode_functions(abi) {
        Some(functions) => Some(AbiDocument { name, root_schema, types, functions }),
        None => None,
    }
}

/// Parses the text of an ABI document. Text that is not JSON gives
/// `InvalidJson`, JSON of another shape gives `UnexpectedShape`; in both
/// cases no part of a document is returned.
pub fn parse_abi_document(text: &str) -> (parsed: Result<AbiDocument, FormatIssue>)
    ensures
        match parsed {
            Ok(document) => parsed_document(text@) == Ok::<AbiDocumentView, FormatIssue>(
                document@,
            ),
            Err(issue) => parsed_document(text@) == Err::<AbiDocumentView, FormatIssue>(issue),
        },
{
    match parse_json(text) {
        Some(value) => match decode_document(&value) {
            Some(document) => Ok(document),
            None => Err(FormatIssue::UnexpectedShape),
        },
        None => Err(FormatIssue::InvalidJson),
    }
}

} // verus!
