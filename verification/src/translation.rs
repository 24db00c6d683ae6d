//! The exchange with the schema translator.
//!
//! Translating a schema into declarations is the work of a schema
//! translator that runs outside this crate. For each type definition this
//! module says what to ask of it: to declare, under a name that this module
//! picks, the list of the type. What the translator declares comes back
//! item by item, and this module decides what stands for the type. A type
//! whose schema holds a reference that does not resolve is never handed to
//! the translator: it has no translation.

use crate::document::{optional_text, AbiDocument, AbiDocumentView, NamedType, NamedTypeView};
use crate::registry::{texts_view, TranslatedType, TranslatedTypeView, Translation, TranslationView};
use crate::schema::{
    dangling_reference, defined_names, first_dangling, schema_definitions, schema_references,
};
use crate::text::{decimal, push_decimal};
use vstd::prelude::*;
use vstd::string::StringExecFns;

verus! {

/// The name under which the type with identifier `id` is declared: `AbiType`
/// followed by the identifier in decimal.
pub open spec fn declared_name_of(id: u32) -> Seq<char> {
    "AbiType"@ + decimal(id as nat)
}

/// The name under which the translator is to declare the type with
/// identifier `id`.
pub fn declared_name(id: u32) -> (name: String)
    ensures
        name@ == declared_name_of(id),
{
    let mut name = String::from_str("AbiType");
    push_decimal(&mut name, id as u64);
    name
}

/// The schema of a list whose elements have the schema `schema`.
pub open spec fn list_schema_of(schema: Seq<char>) -> Seq<char> {
    "{\"type\":\"array\",\"items\":"@ + schema + "}"@
}

/// The schema to hand to the translator for `schema`, which is JSON text:
/// the schema of a list of it. In what the translator then declares, the
/// element type of the list is what stands for `schema`.
pub fn list_schema(schema: &str) -> (wrapped: String)
    ensures
        wrapped@ == list_schema_of(schema@),
{
    let mut wrapped = String::from_str("{\"type\":\"array\",\"items\":");
    wrapped.append(schema);
    wrapped.append("}");
    wrapped
}

/// One item that the translator declared: its source text and, where the
/// item is an alias of a generic type with one parameter, that parameter.
#[derive(Clone, Debug, PartialEq, Eq)]
pub struct DeclaredItem {
    pub text: String,
    pub element: Option<String>,
}

pub struct DeclaredItemView {
    pub text: Seq<char>,
    pub element: Option<Seq<char>>,
}

impl View for DeclaredItem {
    type V = DeclaredItemView;

    open spec fn view(&self) -> DeclaredItemView {
        DeclaredItemView {
            text: self.text@,
            element: optional_text(self.element),
        }
    }
}

/// The views of a sequence of declared items, in order.
pub open spec fn items_view(items: Seq<DeclaredItem>) -> Seq<DeclaredItemView> {
    Seq::new(items.len(), |i: int| items[i]@)
}

/// What stands for a schema, given the items that the translator declared
/// for the list of it. The last item is the list's alias: its parameter is
/// the type of the schema. The items before it are the declarations that
/// this type needs. Where the last item is no such alias, the schema has
/// no translation.
pub open spec fn translation_for(items: Seq<DeclaredItemView>) -> Result<
    TranslationView,
    Seq<char>,
> {
    if items.len() > 0 && items.last().element is Some {
        Ok(
            TranslationView {
                type_ref: items.last().element->0,
                declarations: Seq::new((items.len() - 1) as nat, |i: int| items[i].text),
            },
        )
    } else {
        Err("no list type was declared for the schema"@)
    }
}

/// Decides what stands for a schema from the items that the translator
/// declared for the list of it.
pub fn translation_of(items: &Vec<DeclaredItem>) -> (translation: Result<Translation, String>)
    ensures
        match translation {
            Ok(t) => translation_for(items_view(items@)) == Ok::<TranslationView, Seq<char>>(t@),
            Err(reason) => translation_for(items_view(items@)) == Err::<
                TranslationView,
                Seq<char>,
            >(reason@),
        },
{
    let ghost all = items_view(items@);
    if items.len() == 0 {
        return Err(String::from_str("no list type was declared for the schema"));
    }
    let last = items.len() - 1;
    assert(all.last() == items@[last as int]@);
    let type_ref = match &items[last].element {
        Some(element) => element.clone(),
        None => {
            return Err(String::from_str("no list type was declared for the schema"));
        },
    };
    let mut declarations: Vec<String> = Vec::new();
    let mut i: usize = 0;
    while i < last
        invariant
            i <= last,
            last == items.len() - 1,
            declarations@.len() == i,
            forall|j: int| 0 <= j < i ==> (#[trigger] declarations@[j])@ == items@[j].text@,
        decreases last - i,
    {
        declarations.push(items[i].text.clone());
        i += 1;
    }
    let translation = Translation { type_ref, declarations };
    assert(translation@.declarations =~= translation_for(all)->Ok_0.declarations);
    Ok(translation)
}

/// What to do for a type definition.
#[derive(Clone, Debug, PartialEq, Eq)]
pub enum TranslationStep {
    /// Ask the translator to declare `list_schema` under `name`.
    Expand { name: String, list_schema: String },
    /// Do not ask: the type has no translation, for this reason.
    Refuse { reason: String },
}

pub enum TranslationStepView {
    Expand { name: Seq<char>, list_schema: Seq<char> },
    Refuse { reason: Seq<char> },
}

impl View for TranslationStep {
    type V = TranslationStepView;

    open spec fn view(&self) -> TranslationStepView {
        match *self {
            TranslationStep::Expand { name, list_schema } => TranslationStepView::Expand {
                name: name@,
                list_schema: list_schema@,
            },
            TranslationStep::Refuse { reason } => TranslationStepView::Refuse { reason: reason@ },
        }
    }
}

/// The views of a sequence of steps, in order.
pub open spec fn steps_view(steps: Seq<TranslationStep>) -> Seq<TranslationStepView> {
    Seq::new(steps.len(), |i: int| steps[i]@)
}

/// Why a type with the unresolved reference `reference` has no
/// translation.
pub open spec fn dangling_reason(reference: Seq<char>) -> Seq<char> {
    "cannot resolve the reference `"@ + reference + "`"@
}

/// The step for one type definition, given the names that the root schema
/// defines: the type is refused for the first reference in its schema that
/// does not resolve, and is else to be expanded.
pub open spec fn step_for(named: NamedTypeView, definitions: Seq<Seq<char>>)
    -> TranslationStepView {
    match first_dangling(schema_references(named.schema), definitions) {
        Some(reference) => TranslationStepView::Refuse { reason: dangling_reason(reference) },
        None => TranslationStepView::Expand {
            name: declared_name_of(named.id),
            list_schema: list_schema_of(named.schema),
        },
    }
}

/// The steps for the type definitions of a document, one for each, in
/// document order.
pub open spec fn steps_for(document: AbiDocumentView) -> Seq<TranslationStepView> {
    Seq::new(
        document.types.len(),
        |i: int| step_for(document.types[i], schema_definitions(document.root_schema)),
    )
}

fn plan_step(named: &NamedType, definitions: &Vec<String>) -> (step: TranslationStep)
    ensures
        step@ == step_for(named@, texts_view(definitions@)),
{
    match dangling_reference(named.schema.as_str(), definitions) {
        Some(reference) => {
            let mut reason = String::from_str("cannot resolve the reference `");
            reason.append(reference.as_str());
            reason.append("`");
            TranslationStep::Refuse { reason }
        },
        None => TranslationStep::Expand {
            name: declared_name(named.id),
            list_schema: list_schema(named.schema.as_str()),
        },
    }
}

/// Says, for each type definition of `document`, what to ask of the
/// translator.
pub fn plan_translation(document: &AbiDocument) -> (steps: Vec<TranslationStep>)
    ensures
        steps_view(steps@) == steps_for(document@),
{
    let definitions = defined_names(document.root_schema.as_str());
    let mut steps: Vec<TranslationStep> = Vec::new();
    let mut i: usize = 0;
    while i < document.types.len()
        invariant
            i <= document.types.len(),
            steps@.len() == i,
            texts_view(definitions@) == schema_definitions(document@.root_schema),
            forall|j: int|
                0 <= j < i ==> (#[trigger] steps@[j])@ == step_for(
                    document.types@[j]@,
                    schema_definitions(document@.root_schema),
                ),
        decreases document.types.len() - i,
    {
        steps.push(plan_step(&document.types[i], &definitions));
        i += 1;
    }
    assert(steps_view(steps@) =~= steps_for(document@));
    steps
}

/// The characters of what the translator declared, or of the reason why it
/// declared nothing.
pub open spec fn expansion_view(expansion: Result<Vec<DeclaredItem>, String>) -> Result<
    Seq<DeclaredItemView>,
    Seq<char>,
> {
    match expansion {
        Ok(items) => Ok(items_view(items@)),
        Err(reason) => Err(reason@),
    }
}

/// The views of a sequence of expansions, in order.
pub open spec fn expansions_view(expansions: Seq<Result<Vec<DeclaredItem>, String>>) -> Seq<
    Result<Seq<DeclaredItemView>, Seq<char>>,
> {
    Seq::new(expansions.len(), |i: int| expansion_view(expansions[i]))
}

/// What became of one type definition. `expansion` is what the translator
/// declared for it, if it was asked. A reference that does not resolve
/// decides first; then the translator's failure; then what it declared.
pub open spec fn outcome_for(
    named: NamedTypeView,
    definitions: Seq<Seq<char>>,
    expansion: Option<Result<Seq<DeclaredItemView>, Seq<char>>>,
) -> Result<TranslationView, Seq<char>> {
    match step_for(named, definitions) {
        TranslationStepView::Refuse { reason } => Err(reason),
        TranslationStepView::Expand { .. } => match expansion {
            Some(Ok(items)) => translation_for(items),
            Some(Err(reason)) => Err(reason),
            None => Err("the type was not translated"@),
        },
    }
}

/// The type definitions of a document after translation. The expansion at
/// position `i` belongs to the type at position `i`; a type without one
/// has no translation.
pub open spec fn translated_for(
    document: AbiDocumentView,
    expansions: Seq<Result<Seq<DeclaredItemView>, Seq<char>>>,
) -> Seq<TranslatedTypeView> {
    Seq::new(
        document.types.len(),
        |i: int|
            TranslatedTypeView {
                id: document.types[i].id,
                outcome: outcome_for(
                    document.types[i],
                    schema_definitions(document.root_schema),
                    if i < expansions.len() {
                        Some(expansions[i])
                    } else {
                        None
                    },
                ),
            },
    )
}

fn translated_type(
    named: &NamedType,
    definitions: &Vec<String>,
    expansion: Option<&Result<Vec<DeclaredItem>, String>>,
) -> (translated: TranslatedType)
    ensures
        translated@ == (TranslatedTypeView {
            id: named.id,
            outcome: outcome_for(
                named@,
                texts_view(definitions@),
                match expansion {
                    Some(e) => Some(expansion_view(*e)),
                    None => None,
                },
            ),
        }),
{
    let outcome = match plan_step(named, definitions) {
        TranslationStep::Refuse { reason } => Err(reason),
        TranslationStep::Expand { .. } => match expansion {
            Some(Ok(items)) => translation_of(items),
            Some(Err(reason)) => Err(reason.clone()),
            None => Err(String::from_str("the type was not translated")),
        },
    };
    TranslatedType { id: named.id, outcome }
}

/// Pairs the type definitions of `document` with what the translator
/// declared for them and decides what became of each.
pub fn translated_types(
    document: &AbiDocument,
    expansions: &Vec<Result<Vec<DeclaredItem>, String>>,
) -> (translated: Vec<TranslatedType>)
    ensures
        crate::registry::translated_view(translated@) == translated_for(
            document@,
            expansions_view(expansions@),
        ),
{
    let definitions = defined_names(document.root_schema.as_str());
    let mut translated: Vec<TranslatedType> = Vec::new();
    let mut i: usize = 0;
    while i < document.types.len()
        invariant
            i <= document.types.len(),
            translated@.len() == i,
            texts_view(definitions@) == schema_definitions(document@.root_schema),
            forall|j: int|
                0 <= j < i ==> (#[trigger] translated@[j])@ == translated_for(
                    document@,
                    expansions_view(expansions@),
                )[j],
        decreases document.types.len() - i,
    {
        let expansion = if i < expansions.len() {
            Some(&expansions[i])
        } else {
            None
        };
        let next = translated_type(&document.types[i], &definitions, expansion);
        assert(document@.types[i as int] == document.types@[i as int]@);
        translated.push(next);
        i += 1;
    }
    assert(crate::registry::translated_view(translated@) =~= translated_for(
        document@,
        expansions_view(expansions@),
    ));
    translated
}

} // verus!
