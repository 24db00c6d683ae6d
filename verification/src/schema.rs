//! References in schemas.
//!
//! A schema refers to a definition of the root schema by a member `$ref`
//! whose value is `#/definitions/` followed by the definition's name. Such
//! a reference may stand anywhere inside a schema. A reference of another
//! form, or to a name that the root schema does not define, does not
//! resolve, and a type whose schema holds one has no translation.

use crate::json::{
    elements, json_elements, json_member, json_members, json_parsed, json_string, member,
    members, parse_json, string_of,
};
use crate::registry::texts_view;
use vstd::prelude::*;
use vstd::string::{StrSliceExecFns, StringExecFns};

verus! {

/// How many levels of arrays and objects a schema is searched through. The
/// JSON parser takes no text that nests deeper.
pub const SEARCH_DEPTH: u32 = 128;

/// The references in `value`, in the order of the search: every string
/// that is stored under the key `$ref`, in `value` itself or in an array or
/// object inside it, down to `depth` levels.
pub open spec fn references_in(value: serde_json::Value, depth: nat) -> Seq<Seq<char>>
    decreases depth, 0nat,
{
    if depth == 0 {
        Seq::empty()
    } else {
        match (json_elements(value), json_members(value)) {
            (Some(items), _) => references_in_items(items, (depth - 1) as nat),
            (None, Some(members)) => references_in_members(members, (depth - 1) as nat),
            (None, None) => Seq::empty(),
        }
    }
}

/// The references in the elements of an array, element by element.
pub open spec fn references_in_items(items: Seq<serde_json::Value>, depth: nat) -> Seq<Seq<char>>
    decreases depth, items.len() + 1,
{
    if items.len() == 0 {
        Seq::empty()
    } else {
        references_in_items(items.drop_last(), depth) + references_in(items.last(), depth)
    }
}

/// The references that one member holds: its own string where its key is
/// `$ref`, else those inside its value.
pub open spec fn references_in_member(key: Seq<char>, value: serde_json::Value, depth: nat) -> Seq<
    Seq<char>,
>
    decreases depth, 1nat,
{
    if key == "$ref"@ && json_string(value) is Some {
        seq![json_string(value)->0]
    } else {
        references_in(value, depth)
    }
}

/// The references in the members of an object, member by member.
pub open spec fn references_in_members(
    members: Seq<(Seq<char>, serde_json::Value)>,
    depth: nat,
) -> Seq<Seq<char>>
    decreases depth, members.len() + 2,
{
    if members.len() == 0 {
        Seq::empty()
    } else {
        references_in_members(members.drop_last(), depth) + references_in_member(
            members.last().0,
            members.last().1,
            depth,
        )
    }
}

/// The references in a schema that is given as JSON text; none where the
/// text is not JSON.
pub open spec fn schema_references(schema: Seq<char>) -> Seq<Seq<char>> {
    match json_parsed(schema) {
        Some(value) => references_in(value, SEARCH_DEPTH as nat),
        None => Seq::empty(),
    }
}

/// The keys of the members of an object, in order.
pub open spec fn keys_of(members: Seq<(Seq<char>, serde_json::Value)>) -> Seq<Seq<char>> {
    Seq::new(members.len(), |i: int| members[i].0)
}

/// The names that a root schema defines: the keys of its member
/// `definitions`; none where the text is not JSON or has no such object.
pub open spec fn schema_definitions(root_schema: Seq<char>) -> Seq<Seq<char>> {
    match json_parsed(root_schema) {
        Some(root) => match json_member(root, "definitions"@) {
            Some(definitions) => match json_members(definitions) {
                Some(members) => keys_of(members),
                None => Seq::empty(),
            },
            None => Seq::empty(),
        },
        None => Seq::empty(),
    }
}

/// What a reference to a definition starts with.
pub open spec fn definitions_prefix() -> Seq<char> {
    "#/definitions/"@
}

/// The name of the definition that `reference` points to: what follows
/// `#/definitions/`, where that is not empty and holds no further `/`.
pub open spec fn referenced_name(reference: Seq<char>) -> Option<Seq<char>> {
    let prefix = definitions_prefix();
    let name = reference.subrange(prefix.len() as int, reference.len() as int);
    if reference.len() > prefix.len() && reference.subrange(0, prefix.len() as int) == prefix
        && !name.contains('/') {
        Some(name)
    } else {
        None
    }
}

/// Whether `reference` points to one of `definitions`.
pub open spec fn resolves_in(reference: Seq<char>, definitions: Seq<Seq<char>>) -> bool {
    referenced_name(reference) matches Some(name) && definitions.contains(name)
}

/// Whether `i` is the first of `references` that does not resolve.
pub open spec fn is_first_dangling(
    references: Seq<Seq<char>>,
    definitions: Seq<Seq<char>>,
    i: int,
) -> bool {
    &&& 0 <= i < references.len()
    &&& !resolves_in(references[i], definitions)
    &&& forall|j: int| 0 <= j < i ==> resolves_in(#[trigger] references[j], definitions)
}

/// The first of `references` that does not resolve in `definitions`.
pub open spec fn first_dangling(references: Seq<Seq<char>>, definitions: Seq<Seq<char>>)
    -> Option<Seq<char>> {
    if exists|i: int| is_first_dangling(references, definitions, i) {
        Some(references[choose|i: int| is_first_dangling(references, definitions, i)])
    } else {
        None
    }
}

fn collect(value: &serde_json::Value, depth: u32, out: &mut Vec<String>)
    ensures
        texts_view(final(out)@) == texts_view(old(out)@) + references_in(*value, depth as nat),
    decreases depth, 0nat,
{
    if depth == 0 {
        assert(texts_view(out@) + Seq::<Seq<char>>::empty() =~= texts_view(out@));
        return ;
    }
    match elements(value) {
        Some(items) => {
            collect_from_items(items, depth - 1, out);
        },
        None => match members(value) {
            Some(found) => {
                collect_from_members(&found, depth - 1, out);
            },
            None => {
                assert(texts_view(out@) + Seq::<Seq<char>>::empty() =~= texts_view(out@));
            },
        },
    }
}

fn collect_from_items(items: &Vec<serde_json::Value>, depth: u32, out: &mut Vec<String>)
    ensures
        texts_view(final(out)@) == texts_view(old(out)@) + references_in_items(
            items@,
            depth as nat,
        ),
    decreases depth, items.len() + 1,
{
    let mut i: usize = 0;
    assert(items@.take(0).len() == 0);
    assert(texts_view(out@) + references_in_items(items@.take(0), depth as nat) =~= texts_view(
        out@,
    ));
    while i < items.len()
        invariant
            i <= items.len(),
            texts_view(out@) == texts_view(old(out)@) + references_in_items(
                items@.take(i as int),
                depth as nat,
            ),
        decreases items.len() - i,
    {
        let ghost before = texts_view(out@);
        collect(&items[i], depth, out);
        proof {
            let next = items@.take(i + 1);
            assert(next.drop_last() =~= items@.take(i as int));
            assert(next.last() == items@[i as int]);
            assert(texts_view(out@) =~= texts_view(old(out)@) + references_in_items(
                next,
                depth as nat,
            ));
        }
        i += 1;
    }
    assert(items@.take(items.len() as int) =~= items@);
}

fn collect_from_members(
    found: &Vec<(String, &serde_json::Value)>,
    depth: u32,
    out: &mut Vec<String>,
)
    ensures
        texts_view(final(out)@) == texts_view(old(out)@) + references_in_members(
            crate::json::members_view(found@),
            depth as nat,
        ),
    decreases depth, found.len() + 2,
{
    let ghost all = crate::json::members_view(found@);
    let marker = String::from_str("$ref");
    let mut i: usize = 0;
    assert(all.take(0).len() == 0);
    assert(texts_view(out@) + references_in_members(all.take(0), depth as nat) =~= texts_view(
        out@,
    ));
    while i < found.len()
        invariant
            i <= found.len(),
            marker@ == "$ref"@,
            all == crate::json::members_view(found@),
            texts_view(out@) == texts_view(old(out)@) + references_in_members(
                all.take(i as int),
                depth as nat,
            ),
        decreases found.len() - i,
    {
        let ghost before = out@;
        let ghost step = references_in_member(all[i as int].0, all[i as int].1, depth as nat);
        let reference = if found[i].0 == marker {
            string_of(found[i].1)
        } else {
            None
        };
        match reference {
            Some(reference) => {
                out.push(reference);
                assert(texts_view(out@) =~= texts_view(before) + step);
            },
            None => {
                collect(found[i].1, depth, out);
            },
        }
        proof {
            let next = all.take(i + 1);
            assert(next.drop_last() =~= all.take(i as int));
            assert(next.last() == all[i as int]);
            assert(texts_view(out@) =~= texts_view(old(out)@) + references_in_members(
                next,
                depth as nat,
            ));
        }
        i += 1;
    }
    assert(all.take(found.len() as int) =~= all);
}

/// The references in a schema, in the order of the search.
pub fn references(schema: &str) -> (found: Vec<String>)
    ensures
        texts_view(found@) == schema_references(schema@),
{
    let mut found: Vec<String> = Vec::new();
    match parse_json(schema) {
        Some(value) => {
            collect(&value, SEARCH_DEPTH, &mut found);
            assert(texts_view(Seq::<String>::empty()) + references_in(
                value,
                SEARCH_DEPTH as nat,
            ) =~= references_in(value, SEARCH_DEPTH as nat));
        },
        None => {
            assert(texts_view(found@) =~= Seq::<Seq<char>>::empty());
        },
    }
    found
}

/// The names that a root schema defines.
pub fn defined_names(root_schema: &str) -> (names: Vec<String>)
    ensures
        texts_view(names@) == schema_definitions(root_schema@),
{
    let mut names: Vec<String> = Vec::new();
    assert(texts_view(names@) =~= Seq::<Seq<char>>::empty());
    let root = match parse_json(root_schema) {
        Some(root) => root,
        None => {
            return names;
        },
    };
    let definitions = match member(&root, "definitions") {
        Some(definitions) => definitions,
        None => {
            return names;
        },
    };
    let found = match members(definitions) {
        Some(found) => found,
        None => {
            return names;
        },
    };
    let ghost all = crate::json::members_view(found@);
    let mut i: usize = 0;
    while i < found.len()
        invariant
            i <= found.len(),
            names@.len() == i,
            all == crate::json::members_view(found@),
            forall|j: int| 0 <= j < i ==> (#[trigger] names@[j])@ == all[j].0,
        decreases found.len() - i,
    {
        names.push(found[i].0.clone());
        i += 1;
    }
    assert(texts_view(names@) =~= keys_of(all));
    names
}

/// Whether `text` has `c` among its characters from position `from` on.
fn holds_from(text: &str, from: usize, c: char) -> (found: bool)
    requires
        from <= text@.len(),
    ensures
        found == text@.subrange(from as int, text@.len() as int).contains(c),
{
    let length = text.unicode_len();
    let ghost rest = text@.subrange(from as int, text@.len() as int);
    let mut i: usize = from;
    while i < length
        invariant
            from <= i <= length,
            length == text@.len(),
            rest == text@.subrange(from as int, text@.len() as int),
            forall|j: int| 0 <= j < i - from ==> rest[j] != c,
        decreases length - i,
    {
        if text.get_char(i) == c {
            assert(rest[i - from] == c);
            return true;
        }
        i += 1;
    }
    false
}

/// Whether `text` begins with `prefix`.
fn begins_with(text: &str, prefix: &str) -> (begins: bool)
    ensures
        begins == (prefix@.len() <= text@.len() && text@.subrange(0, prefix@.len() as int)
            == prefix@),
{
    let length = prefix.unicode_len();
    if text.unicode_len() < length {
        return false;
    }
    let mut i: usize = 0;
    while i < length
        invariant
            i <= length,
            length == prefix@.len(),
            length <= text@.len(),
            forall|j: int| 0 <= j < i ==> text@[j] == prefix@[j],
        decreases length - i,
    {
        if text.get_char(i) != prefix.get_char(i) {
            assert(text@.subrange(0, prefix@.len() as int)[i as int] != prefix@[i as int]);
            return false;
        }
        i += 1;
    }
    assert(text@.subrange(0, prefix@.len() as int) =~= prefix@);
    true
}

/// Whether one of `texts` is `wanted`.
fn is_among(wanted: &str, texts: &Vec<String>) -> (found: bool)
    ensures
        found == texts_view(texts@).contains(wanted@),
{
    let sought = String::from_str(wanted);
    let mut i: usize = 0;
    while i < texts.len()
        invariant
            i <= texts.len(),
            sought@ == wanted@,
            forall|j: int| 0 <= j < i ==> #[trigger] texts_view(texts@)[j] != wanted@,
        decreases texts.len() - i,
    {
        assert(texts_view(texts@)[i as int] == texts@[i as int]@);
        if texts[i] == sought {
            return true;
        }
        i += 1;
    }
    false
}

/// Whether `reference` points to one of `definitions`.
pub fn reference_resolves(reference: &str, definitions: &Vec<String>) -> (resolves: bool)
    ensures
        resolves == resolves_in(reference@, texts_view(definitions@)),
{
    let prefix = "#/definitions/";
    let start = prefix.unicode_len();
    let length = reference.unicode_len();
    if !(length > start && begins_with(reference, prefix)) {
        return false;
    }
    if holds_from(reference, start, '/') {
        return false;
    }
    is_among(reference.substring_char(start, length), definitions)
}

/// The first reference in `schema` that points to none of `definitions`.
pub fn dangling_reference(schema: &str, definitions: &Vec<String>) -> (dangling: Option<String>)
    ensures
        crate::document::optional_text(dangling) == first_dangling(
            schema_references(schema@),
            texts_view(definitions@),
        ),
{
    let found = references(schema);
    let ghost all = texts_view(found@);
    let mut i: usize = 0;
    while i < found.len()
        invariant
            i <= found.len(),
            all == texts_view(found@),
            all == schema_references(schema@),
            forall|j: int| 0 <= j < i ==> resolves_in(#[trigger] all[j], texts_view(definitions@)),
        decreases found.len() - i,
    {
        assert(all[i as int] == found@[i as int]@);
        if !reference_resolves(found[i].as_str(), definitions) {
            assert(is_first_dangling(all, texts_view(definitions@), i as int));
            return Some(found[i].clone());
        }
        i += 1;
    }
    None
}

} // verus!
