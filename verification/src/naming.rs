//! The name of the generated interface.
//!
//! A name that the caller gives wins. Without one, the contract name from
//! the document's metadata is turned into upper camel case and prefixed
//! with `Ext`. Without either, the name is `ExtContract`.

use crate::document::optional_text;
use vstd::prelude::*;
use vstd::string::StringExecFns;

verus! {

/// What `convert_case` makes of `name` for `Case::UpperCamel`.
pub uninterp spec fn upper_camel(name: Seq<char>) -> Seq<char>;

/// Calls `Casing::to_case` of `convert_case` with `Case::UpperCamel`: the
/// text is split into words at the crate's default boundaries, each word is
/// capitalised, and the words are joined without a delimiter. Nothing is
/// proved of the result; it is only given its name.
#[verifier::external_body]
fn to_upper_camel(name: &str) -> (camel: String)
    ensures
        camel@ == upper_camel(name@),
{
    convert_case::Casing::to_case(&name, convert_case::Case::UpperCamel)
}

/// The interface name for an explicit name and a contract name that is
/// already in upper camel case.
pub open spec fn chosen_name(explicit: Option<Seq<char>>, camel: Option<Seq<char>>) -> Seq<char> {
    match explicit {
        Some(name) => name,
        None => match camel {
            Some(camel) => "Ext"@ + camel,
            None => "ExtContract"@,
        },
    }
}

/// The interface name for an explicit name and the contract name as the
/// document's metadata gives it.
pub open spec fn interface_name(explicit: Option<Seq<char>>, metadata: Option<Seq<char>>) -> Seq<
    char,
> {
    chosen_name(
        explicit,
        match metadata {
            Some(name) => Some(upper_camel(name)),
            None => None,
        },
    )
}

/// Picks the interface name from an explicit name and a contract name that
/// is already in upper camel case: the explicit name where there is one,
/// else `Ext` followed by the contract name, else `ExtContract`.
pub fn choose_interface_name(explicit: &Option<String>, camel: &Option<String>) -> (name: String)
    ensures
        name@ == chosen_name(optional_text(*explicit), optional_text(*camel)),
{
    match explicit {
        Some(name) => name.clone(),
        None => match camel {
            Some(camel) => String::from_str("Ext").concat(camel.as_str()),
            None => String::from_str("ExtContract"),
        },
    }
}

/// Picks the interface name from an explicit name and the contract name in
/// the document's metadata.
pub fn resolve_interface_name(explicit: &Option<String>, metadata: &Option<String>) -> (name:
    String)
    ensures
        name@ == interface_name(optional_text(*explicit), optional_text(*metadata)),
{
    let camel = match (explicit, metadata) {
        (None, Some(name)) => Some(to_upper_camel(name.as_str())),
        _ => None,
    };
    choose_interface_name(explicit, &camel)
}

} // verus!
