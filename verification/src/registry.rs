//! The type registry: what each type identifier stands for in generated
//! code, together with the declarations that the translated types need.
//!
//! The translated type definitions are recorded in document order, and the
//! first definition without a translation ends the work.

use crate::error::{AbiError, AbiErrorView};
use std::collections::HashMap;
use vstd::prelude::*;

verus! {

broadcast use vstd::std_specs::hash::group_hash_axioms;

/// The characters of each text of a sequence, in order.
pub open spec fn texts_view(texts: Seq<String>) -> Seq<Seq<char>> {
    Seq::new(texts.len(), |i: int| texts[i]@)
}

/// A translated schema: the type to write where the schema is referred to,
/// and the declarations that this type needs, in the order of their
/// emission.
#[derive(Clone, Debug, PartialEq, Eq)]
pub struct Translation {
    pub type_ref: String,
    pub declarations: Vec<String>,
}

pub struct TranslationView {
    pub type_ref: Seq<char>,
    pub declarations: Seq<Seq<char>>,
}

impl View for Translation {
    type V = TranslationView;

    open spec fn view(&self) -> TranslationView {
        TranslationView {
            type_ref: self.type_ref@,
            declarations: texts_view(self.declarations@),
        }
    }
}

/// A type definition after translation: its identifier, and the translation
/// or the reason why there is none.
#[derive(Debug, PartialEq, Eq)]
pub struct TranslatedType {
    pub id: u32,
    pub outcome: Result<Translation, String>,
}

pub struct TranslatedTypeView {
    pub id: u32,
    pub outcome: Result<TranslationView, Seq<char>>,
}

impl View for TranslatedType {
    type V = TranslatedTypeView;

    open spec fn view(&self) -> TranslatedTypeView {
        TranslatedTypeView {
            id: self.id,
            outcome: match self.outcome {
                Ok(translation) => Ok(translation@),
                Err(reason) => Err(reason@),
            },
        }
    }
}

/// The views of a sequence of translated types, in order.
pub open spec fn translated_view(translated: Seq<TranslatedType>) -> Seq<TranslatedTypeView> {
    Seq::new(translated.len(), |i: int| translated[i]@)
}

/// A map from type identifier to the type that stands for it.
pub struct TypeRegistry {
    entries: HashMap<u32, String>,
}

impl View for TypeRegistry {
    type V = Map<u32, Seq<char>>;

    closed spec fn view(&self) -> Map<u32, Seq<char>> {
        Map::new(|id: u32| self.entries@.contains_key(id), |id: u32| self.entries@[id]@)
    }
}

impl TypeRegistry {
    /// A registry without entries.
    pub fn new() -> (registry: TypeRegistry)
        ensures
            registry@ == Map::<u32, Seq<char>>::empty(),
    {
        let registry = TypeRegistry { entries: HashMap::new() };
        assert(registry@ =~= Map::<u32, Seq<char>>::empty());
        registry
    }

    /// Records that `id` stands for `type_ref`. An earlier entry for `id`
    /// is replaced.
    pub fn insert(&mut self, id: u32, type_ref: String)
        ensures
            final(self)@ == old(self)@.insert(id, type_ref@),
    {
        self.entries.insert(id, type_ref);
        assert(self@ =~= old(self)@.insert(id, type_ref@));
    }

    /// The type that `id` stands for, if the registry has an entry for it.
    pub fn get(&self, id: u32) -> (found: Option<&String>)
        ensures
            match found {
                Some(type_ref) => self@.contains_key(id) && self@[id] == type_ref@,
                None => !self@.contains_key(id),
            },
    {
        self.entries.get(&id)
    }

    /// Whether the registry has an entry for `id`.
    pub fn contains(&self, id: u32) -> (found: bool)
        ensures
            found == self@.contains_key(id),
    {
        self.entries.contains_key(&id)
    }

    /// The number of identifiers that have an entry.
    pub fn len(&self) -> (count: usize)
        ensures
            count == self@.dom().len(),
            self@.dom().finite(),
    {
        assert(self@.dom() =~= self.entries@.dom());
        self.entries.len()
    }
}

/// Whether `i` is the first translated type without a translation.
pub open spec fn is_first_failure(translated: Seq<TranslatedTypeView>, i: int) -> bool {
    &&& 0 <= i < translated.len()
    &&& translated[i].outcome is Err
    &&& forall|j: int| 0 <= j < i ==> (#[trigger] translated[j]).outcome is Ok
}

/// The position of the first translated type without a translation.
pub open spec fn first_failure(translated: Seq<TranslatedTypeView>) -> Option<int> {
    if exists|i: int| is_first_failure(translated, i) {
        Some(choose|i: int| is_first_failure(translated, i))
    } else {
        None
    }
}

/// The registry after recording `translated` in order: a later translation
/// replaces an earlier one for the same identifier, and a type without a
/// translation leaves no entry.
pub open spec fn registry_of(translated: Seq<TranslatedTypeView>) -> Map<u32, Seq<char>>
    decreases translated.len(),
{
    if translated.len() == 0 {
        Map::empty()
    } else {
        let before = registry_of(translated.drop_last());
        match translated.last().outcome {
            Ok(translation) => before.insert(translated.last().id, translation.type_ref),
            Err(_) => before,
        }
    }
}

/// The declarations of `translated`, in order.
pub open spec fn declarations_of(translated: Seq<TranslatedTypeView>) -> Seq<Seq<char>>
    decreases translated.len(),
{
    if translated.len() == 0 {
        Seq::empty()
    } else {
        let before = declarations_of(translated.drop_last());
        match translated.last().outcome {
            Ok(translation) => before + translation.declarations,
            Err(_) => before,
        }
    }
}

/// The registry of a document together with every declaration that the
/// generated code needs besides the interface.
pub struct TypeTable {
    pub registry: TypeRegistry,
    pub declarations: Vec<String>,
}

pub struct TypeTableView {
    pub registry: Map<u32, Seq<char>>,
    pub declarations: Seq<Seq<char>>,
}

impl View for TypeTable {
    type V = TypeTableView;

    open spec fn view(&self) -> TypeTableView {
        TypeTableView { registry: self.registry@, declarations: texts_view(self.declarations@) }
    }
}

/// The table for the declarations of the root schema and the translated
/// type definitions, or the failure of the first definition that has no
/// translation.
pub open spec fn type_table_of(
    root_declarations: Seq<Seq<char>>,
    translated: Seq<TranslatedTypeView>,
) -> Result<TypeTableView, AbiErrorView> {
    match first_failure(translated) {
        Some(i) => Err(
            AbiErrorView::Schema {
                type_id: translated[i].id,
                reason: translated[i].outcome->Err_0,
            },
        ),
        None => Ok(
            TypeTableView {
                registry: registry_of(translated),
                declarations: root_declarations + declarations_of(translated),
            },
        ),
    }
}

/// Appends a copy of every text of `from` to `to`.
fn append_texts(to: &mut Vec<String>, from: &Vec<String>)
    ensures
        texts_view(final(to)@) == texts_view(old(to)@) + texts_view(from@),
{
    let mut i: usize = 0;
    while i < from.len()
        invariant
            i <= from.len(),
            texts_view(to@) == texts_view(old(to)@) + texts_view(from@.take(i as int)),
        decreases from.len() - i,
    {
        let ghost before = to@;
        to.push(from[i].clone());
        assert(texts_view(to@) =~= texts_view(before).push(from@[i as int]@));
        assert(texts_view(from@.take(i + 1)) =~= texts_view(from@.take(i as int)).push(
            from@[i as int]@,
        ));
        i += 1;
    }
    assert(from@.take(from.len() as int) =~= from@);
}

/// Builds the type table of a document. The declarations of the root schema
/// come first. Then each translated type is recorded in document order: its
/// identifier stands for its type from then on, and its declarations follow
/// those that are already there. The first type without a translation ends
/// the work with a `Schema` error that names it.
pub fn build_registry(root_declarations: Vec<String>, translated: &Vec<TranslatedType>) -> (table:
    Result<TypeTable, AbiError>)
    ensures
        match table {
            Ok(t) => type_table_of(texts_view(root_declarations@), translated_view(translated@))
                == Ok::<TypeTableView, AbiErrorView>(t@),
            Err(e) => type_table_of(texts_view(root_declarations@), translated_view(translated@))
                == Err::<TypeTableView, AbiErrorView>(e@),
        },
{
    let ghost all = translated_view(translated@);
    let mut registry = TypeRegistry::new();
    let mut declarations = root_declarations;
    let mut i: usize = 0;
    while i < translated.len()
        invariant
            i <= translated.len(),
            all == translated_view(translated@),
            forall|j: int| 0 <= j < i ==> (#[trigger] all[j]).outcome is Ok,
            registry@ == registry_of(all.take(i as int)),
            texts_view(declarations@) == texts_view(root_declarations@) + declarations_of(
                all.take(i as int),
            ),
        decreases translated.len() - i,
    {
        let ghost seen = all.take(i as int);
        let ghost next = all.take(i + 1);
        assert(next.drop_last() =~= seen);
        assert(next.last() == all[i as int]);
        match &translated[i].outcome {
            Ok(translation) => {
                registry.insert(translated[i].id, translation.type_ref.clone());
                append_texts(&mut declarations, &translation.declarations);
            },
            Err(reason) => {
                assert(is_first_failure(all, i as int));
                return Err(AbiError::Schema { type_id: translated[i].id, reason: reason.clone() });
            },
        }
        i += 1;
    }
    assert(all.take(translated.len() as int) =~= all);
    assert(first_failure(all) is None);
    Ok(TypeTable { registry, declarations })
}

} // verus!
