//! What holds of the functions of this crate taken together.

use crate::document::{parsed_document, AbiDocumentView, FormatIssue, FunctionSignatureView};
use crate::error::AbiErrorView;
use crate::generate::{generated_code, loaded_document};
use crate::interface::{
    arg_name, first_missing, first_unresolved, interface_of, is_first_missing,
    is_first_unresolved, method_of, resolves,
};
use crate::json::json_parsed;
use crate::naming::{interface_name, upper_camel};
use crate::project::{is_absolute, joined, resolved_path};
use crate::registry::{
    first_failure, is_first_failure, registry_of, type_table_of, TranslatedTypeView,
};
use crate::schema::{first_dangling, schema_definitions, schema_references};
use crate::translation::{outcome_for, step_for, translated_for, DeclaredItemView};
use vstd::prelude::*;

verus! {

proof fn lemma_none_missing_before(ids: Seq<u32>, registry: Map<u32, Seq<char>>, n: int)
    requires
        first_missing(ids, registry) is None,
        0 <= n <= ids.len(),
    ensures
        forall|j: int| 0 <= j < n ==> registry.contains_key(#[trigger] ids[j]),
    decreases n,
{
    if n > 0 {
        lemma_none_missing_before(ids, registry, n - 1);
        if !registry.contains_key(ids[n - 1]) {
            assert(is_first_missing(ids, registry, n - 1));
        }
    }
}

proof fn lemma_none_unresolved_before(
    functions: Seq<FunctionSignatureView>,
    registry: Map<u32, Seq<char>>,
    n: int,
)
    requires
        first_unresolved(functions, registry) is None,
        0 <= n <= functions.len(),
    ensures
        forall|j: int| 0 <= j < n ==> method_of(#[trigger] functions[j], registry) is Ok,
    decreases n,
{
    if n > 0 {
        lemma_none_unresolved_before(functions, registry, n - 1);
        if method_of(functions[n - 1], registry) is Err {
            assert(is_first_unresolved(functions, registry, n - 1));
        }
    }
}

/// A method is emitted for a function exactly where every type identifier
/// of the function has an entry in the registry.
pub proof fn lemma_method_needs_every_type(
    function: FunctionSignatureView,
    registry: Map<u32, Seq<char>>,
)
    ensures
        method_of(function, registry) is Ok <==> resolves(function, registry),
{
    if method_of(function, registry) is Ok {
        lemma_none_missing_before(function.params, registry, function.params.len() as int);
    }
    if resolves(function, registry) {
        assert(forall|i: int| !is_first_missing(function.params, registry, i));
    }
}

/// An interface is emitted exactly where every function resolves, and it
/// then holds one method per function, in the order of the functions: the
/// method at each position is the one emitted for the function at that
/// position and has its name.
pub proof fn lemma_one_method_per_function(
    name: Seq<char>,
    functions: Seq<FunctionSignatureView>,
    registry: Map<u32, Seq<char>>,
)
    ensures
        interface_of(name, functions, registry) is Ok <==> forall|i: int|
            0 <= i < functions.len() ==> resolves(#[trigger] functions[i], registry),
        interface_of(name, functions, registry) matches Ok(interface) ==> {
            &&& interface.name == name
            &&& interface.methods.len() == functions.len()
            &&& forall|i: int|
                0 <= i < functions.len() ==> {
                    &&& method_of(functions[i], registry) == Ok::<_, AbiErrorView>(
                        #[trigger] interface.methods[i],
                    )
                    &&& interface.methods[i].name == functions[i].name
                }
        },
{
    assert forall|i: int| 0 <= i < functions.len() implies (method_of(
        #[trigger] functions[i],
        registry,
    ) is Ok <==> resolves(functions[i], registry)) by {
        lemma_method_needs_every_type(functions[i], registry);
    }
    if interface_of(name, functions, registry) is Ok {
        lemma_none_unresolved_before(functions, registry, functions.len() as int);
    } else {
        let i = first_unresolved(functions, registry)->0;
        assert(is_first_unresolved(functions, registry, i));
        assert(!resolves(functions[i], registry));
    }
    if forall|i: int| 0 <= i < functions.len() ==> resolves(#[trigger] functions[i], registry) {
        assert(forall|i: int| !is_first_unresolved(functions, registry, i));
    }
}

/// The method emitted for a function with `k` parameters has `k`
/// arguments. The argument at position `i` is called `arg<i>`, and its
/// type is the registry's entry for the type identifier of the parameter
/// at position `i`.
pub proof fn lemma_arguments_follow_parameters(
    function: FunctionSignatureView,
    registry: Map<u32, Seq<char>>,
)
    requires
        method_of(function, registry) is Ok,
    ensures
        method_of(function, registry)->Ok_0.args.len() == function.params.len(),
        forall|i: int|
            0 <= i < function.params.len() ==> {
                let arg = #[trigger] method_of(function, registry)->Ok_0.args[i];
                &&& arg.name == arg_name(i as nat)
                &&& registry.contains_key(function.params[i])
                &&& arg.type_ref == registry[function.params[i]]
            },
{
    lemma_method_needs_every_type(function, registry);
}

/// The method emitted for a function without a result has no return type.
/// The method emitted for a function with a result returns the registry's
/// entry for the result's type identifier.
pub proof fn lemma_return_type_follows_result(
    function: FunctionSignatureView,
    registry: Map<u32, Seq<char>>,
)
    requires
        method_of(function, registry) is Ok,
    ensures
        function.result is None ==> method_of(function, registry)->Ok_0.result is None,
        function.result matches Some(id) ==> registry.contains_key(id) && method_of(
            function,
            registry,
        )->Ok_0.result == Some(registry[id]),
{
}

/// A function that refers to a type identifier without an entry in the
/// registry makes the emission fail, and the failure is an unresolved
/// type: no default stands in for the missing type.
pub proof fn lemma_missing_type_is_reported(
    name: Seq<char>,
    functions: Seq<FunctionSignatureView>,
    registry: Map<u32, Seq<char>>,
    at: int,
)
    requires
        0 <= at < functions.len(),
        !resolves(functions[at], registry),
    ensures
        interface_of(name, functions, registry) matches Err(
            AbiErrorView::UnresolvedType { type_id, .. },
        ) && !registry.contains_key(type_id),
{
    lemma_one_method_per_function(name, functions, registry);
    let i = first_unresolved(functions, registry)->0;
    assert(is_first_unresolved(functions, registry, i));
    let function = functions[i];
    if !(function.result is Some && !registry.contains_key(function.result->0)) {
        let p = first_missing(function.params, registry)->0;
        assert(is_first_missing(function.params, registry, p));
    }
}

/// The registry built from translated types holds exactly the identifiers
/// that were translated, and for each the type of the last translation
/// with that identifier.
pub proof fn lemma_registry_holds_last_translation(translated: Seq<TranslatedTypeView>, id: u32)
    ensures
        registry_of(translated).contains_key(id) <==> exists|i: int|
            0 <= i < translated.len() && (#[trigger] translated[i]).id == id && translated[i].outcome
                is Ok,
        forall|i: int|
            0 <= i < translated.len() && (#[trigger] translated[i]).id == id && translated[i].outcome
                is Ok && (forall|j: int|
                i < j < translated.len() ==> !((#[trigger] translated[j]).id == id
                    && translated[j].outcome is Ok)) ==> registry_of(translated)[id]
                == translated[i].outcome->Ok_0.type_ref,
    decreases translated.len(),
{
    if translated.len() > 0 {
        let before = translated.drop_last();
        let last = translated.last();
        lemma_registry_holds_last_translation(before, id);
        assert(forall|i: int| 0 <= i < before.len() ==> before[i] == translated[i]);
        if last.id == id && last.outcome is Ok {
            assert(translated[translated.len() - 1] == last);
        } else {
            if registry_of(translated).contains_key(id) {
                let i = choose|i: int|
                    0 <= i < before.len() && (#[trigger] before[i]).id == id && before[i].outcome
                        is Ok;
                assert(translated[i].id == id && translated[i].outcome is Ok);
            }
            assert forall|i: int|
                0 <= i < translated.len() && (#[trigger] translated[i]).id == id
                    && translated[i].outcome is Ok && (forall|j: int|
                    i < j < translated.len() ==> !((#[trigger] translated[j]).id == id
                        && translated[j].outcome is Ok)) implies registry_of(translated)[id]
                == translated[i].outcome->Ok_0.type_ref by {
                assert(i < before.len());
                assert(before[i] == translated[i]);
                assert forall|j: int| i < j < before.len() implies !((#[trigger] before[j]).id
                    == id && before[j].outcome is Ok) by {
                    assert(before[j] == translated[j]);
                }
            }
        }
    }
}

/// The first type without a translation fails the building of the type
/// table with a `Schema` error that names it.
pub proof fn lemma_untranslated_type_fails(
    root_declarations: Seq<Seq<char>>,
    translated: Seq<TranslatedTypeView>,
    at: int,
)
    requires
        0 <= at < translated.len(),
        translated[at].outcome is Err,
    ensures
        type_table_of(root_declarations, translated) matches Err(
            AbiErrorView::Schema { type_id, .. },
        ) && exists|i: int|
            0 <= i <= at && (#[trigger] translated[i]).id == type_id && translated[i].outcome
                is Err,
{
    lemma_some_failure_is_first(translated, at);
    let i = choose|i: int| is_first_failure(translated, i);
    assert(is_first_failure(translated, i));
    assert(i <= at);
}

/// A type whose schema holds a reference that does not resolve in the root
/// schema's definitions fails the generation with a `Schema` error,
/// whatever the translator declared and whatever the functions are.
pub proof fn lemma_dangling_reference_fails_generation(
    explicit_name: Option<Seq<char>>,
    document: AbiDocumentView,
    root_declarations: Seq<Seq<char>>,
    expansions: Seq<Result<Seq<DeclaredItemView>, Seq<char>>>,
    at: int,
)
    requires
        0 <= at < document.types.len(),
        first_dangling(
            schema_references(document.types[at].schema),
            schema_definitions(document.root_schema),
        ) is Some,
    ensures
        step_for(document.types[at], schema_definitions(document.root_schema)) is Refuse,
        generated_code(explicit_name, document, root_declarations, expansions) matches Err(error)
            && error is Schema,
{
    let translated = translated_for(document, expansions);
    assert(translated[at].outcome == outcome_for(
        document.types[at],
        schema_definitions(document.root_schema),
        if at < expansions.len() {
            Some(expansions[at])
        } else {
            None
        },
    ));
    lemma_untranslated_type_fails(root_declarations, translated, at);
}

/// A type for which the translator failed, or was not asked, fails the
/// generation with a `Schema` error.
pub proof fn lemma_untranslated_type_fails_generation(
    explicit_name: Option<Seq<char>>,
    document: AbiDocumentView,
    root_declarations: Seq<Seq<char>>,
    expansions: Seq<Result<Seq<DeclaredItemView>, Seq<char>>>,
    at: int,
)
    requires
        0 <= at < document.types.len(),
        at < expansions.len() ==> expansions[at] is Err,
    ensures
        generated_code(explicit_name, document, root_declarations, expansions) matches Err(error)
            && error is Schema,
{
    let translated = translated_for(document, expansions);
    assert(translated[at].outcome == outcome_for(
        document.types[at],
        schema_definitions(document.root_schema),
        if at < expansions.len() {
            Some(expansions[at])
        } else {
            None
        },
    ));
    lemma_untranslated_type_fails(root_declarations, translated, at);
}

proof fn lemma_some_failure_is_first(translated: Seq<TranslatedTypeView>, at: int)
    requires
        0 <= at < translated.len(),
        translated[at].outcome is Err,
    ensures
        first_failure(translated) is Some,
    decreases at,
{
    if exists|j: int| 0 <= j < at && (#[trigger] translated[j]).outcome is Err {
        let j = choose|j: int| 0 <= j < at && (#[trigger] translated[j]).outcome is Err;
        lemma_some_failure_is_first(translated, j);
    } else {
        assert(is_first_failure(translated, at));
    }
}

/// Generated code holds one method per function of the document, in the
/// document's order.
pub proof fn lemma_generated_methods_follow_document(
    explicit_name: Option<Seq<char>>,
    document: AbiDocumentView,
    root_declarations: Seq<Seq<char>>,
    expansions: Seq<Result<Seq<DeclaredItemView>, Seq<char>>>,
)
    requires
        generated_code(explicit_name, document, root_declarations, expansions) is Ok,
    ensures
        ({
            let code = generated_code(explicit_name, document, root_declarations, expansions)->Ok_0;
            &&& code.interface.name == interface_name(explicit_name, document.name)
            &&& code.interface.methods.len() == document.functions.len()
            &&& forall|i: int|
                0 <= i < document.functions.len() ==> (#[trigger] code.interface.methods[i]).name
                    == document.functions[i].name
        }),
{
    let translated = translated_for(document, expansions);
    let registry = type_table_of(root_declarations, translated)->Ok_0.registry;
    lemma_one_method_per_function(
        interface_name(explicit_name, document.name),
        document.functions,
        registry,
    );
}

/// An explicit name is the interface's name, whatever the document's
/// metadata says. Without one, a contract name from the metadata gives
/// `Ext` followed by that name in upper camel case. Without either, the
/// name is `ExtContract`.
pub proof fn lemma_name_precedence(explicit: Seq<char>, metadata: Seq<char>)
    ensures
        interface_name(Some(explicit), Some(metadata)) == explicit,
        interface_name(Some(explicit), None) == explicit,
        interface_name(None, Some(metadata)) == seq!['E', 'x', 't'] + upper_camel(metadata),
        interface_name(None, None) == seq![
            'E',
            'x',
            't',
            'C',
            'o',
            'n',
            't',
            'r',
            'a',
            'c',
            't',
        ],
{
    reveal_strlit("Ext");
    reveal_strlit("ExtContract");
    assert("Ext"@ =~= seq!['E', 'x', 't']);
    assert("ExtContract"@ =~= seq!['E', 'x', 't', 'C', 'o', 'n', 't', 'r', 'a', 'c', 't']);
}

/// Text that is not JSON is no document: loading it fails with a `Format`
/// error that names the file, and nothing of a document is returned.
pub proof fn lemma_malformed_text_is_refused(path: Seq<char>, text: Seq<char>)
    requires
        json_parsed(text) is None,
    ensures
        parsed_document(text) == Err::<AbiDocumentView, _>(FormatIssue::InvalidJson),
        loaded_document(path, Ok(text)) == Err::<AbiDocumentView, _>(
            AbiErrorView::Format { path, issue: FormatIssue::InvalidJson },
        ),
{
}

/// A file that cannot be read fails with an `Io` error, and the path in
/// it is the resolved one: for a relative input, the path below the
/// project root and not the input as written.
pub proof fn lemma_unreadable_file_names_resolved_path(
    input: Seq<char>,
    root: Seq<char>,
    cause: Seq<char>,
)
    ensures
        loaded_document(resolved_path(input, root), Err(cause)) == Err::<AbiDocumentView, _>(
            AbiErrorView::Io { path: resolved_path(input, root), cause },
        ),
        is_absolute(input) ==> resolved_path(input, root) == input,
        !is_absolute(input) ==> resolved_path(input, root) == joined(root, input),
        !is_absolute(input) && root.len() > 0 && input.len() > 0 ==> resolved_path(input, root)
            != input,
{
    if !is_absolute(input) && root.len() > 0 && input.len() > 0 {
        assert(joined(root, input).len() > input.len());
    }
}

} // verus!
