//! Typed remote-call interfaces from contract ABI documents.
//!
//! An ABI document lists a contract's functions; each parameter and result
//! names a type by an integer identifier. This crate decodes such a
//! document, records what every identifier stands for, and emits one method
//! declaration per function, collected in a single trait.
//!
//! The work runs in one pass:
//!
//! - `invocation` parses what was asked for, `project` finds the file;
//! - `document` decodes the file's JSON, which `json` reads;
//! - `schema` finds the references in the schemas, `translation` says
//!   what to ask of the schema translator and reads its answer;
//! - `registry` records the translated types, `naming` picks the
//!   interface's name, `interface` emits the methods;
//! - `generate` ties these together and `render` writes the source text.
//!
//! Failures are values of `error::AbiError`. `laws` states what holds
//! across these modules.

pub mod document;
pub mod error;
pub mod generate;
pub mod interface;
pub mod invocation;
pub mod json;
pub mod laws;
pub mod naming;
pub mod project;
pub mod registry;
pub mod render;
pub mod schema;
pub mod text;
pub mod translation;

pub use document::{parse_abi_document, AbiDocument, FunctionSignature, NamedType};
pub use error::AbiError;
pub use generate::{near_abi, GeneratedCode};
pub use interface::{GeneratedInterface, MethodDecl};
pub use invocation::Def;
pub use project::get_crate_root;
pub use registry::TypeRegistry;
