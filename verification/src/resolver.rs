//! Resolution of a name to the number by which the grammar identifies it.
//!
//! A lookup yields a number. A resolution accepts that number only if it is not the zero that
//! stands for "nothing found" and the grammar, asked in turn what it records under that
//! number, gives the request back: the name, and for a node kind the namespace. So whatever
//! resolves is an entry of the grammar under the very name that was asked for, in the namespace
//! that was asked for, and two requests never resolve to one number.

use crate::grammar::{
    grammar_field_id, grammar_field_name, grammar_node_kind_id, grammar_node_kind_is_named,
    grammar_node_kind_is_visible, grammar_node_kind_name, lookup_field_id, lookup_field_name,
    lookup_node_kind_id, lookup_node_kind_is_named, lookup_node_kind_is_visible,
    lookup_node_kind_name, text_of,
};
use crate::symbol::{Category, FieldId, UnknownSymbol};
use crate::text::{contains_nul, has_nul, same_text};
use vstd::prelude::*;

verus! {

/// The namespace that a node-kind lookup searches: the named productions, or the anonymous
/// tokens.
pub open spec fn node_kind_category(named: bool) -> Category {
    if named {
        Category::NodeKind
    } else {
        Category::Keyword
    }
}

/// The namespace of a number of the node-kind table, from what the grammar records of it:
/// an anonymous token is one that syntax trees show and that is not named.
pub open spec fn entry_category(visible: bool, named: bool) -> Category {
    if visible && !named {
        Category::Keyword
    } else {
        Category::NodeKind
    }
}

/// Whether the number `id`, found for `name`, stands for `name`: it is not zero, and
/// `id_name`, the name that the grammar gives to `id`, is `name`.
pub open spec fn confirms(name: Seq<char>, id: u16, id_name: Option<Seq<char>>) -> bool {
    id != 0 && id_name == Some(name)
}

/// What the number `id`, found for the node kind `name`, resolves to, given what the grammar
/// records of `id`: its name and whether it is visible and named.
pub open spec fn node_kind_outcome(
    name: Seq<char>,
    named: bool,
    id: u16,
    id_name: Option<Seq<char>>,
    id_visible: bool,
    id_named: bool,
) -> Result<u16, UnknownSymbol> {
    if confirms(name, id, id_name) && entry_category(id_visible, id_named) == node_kind_category(
        named,
    ) {
        Ok(id)
    } else {
        Err(UnknownSymbol { category: node_kind_category(named) })
    }
}

/// What the number `id`, found for the field `name`, resolves to, given the name that the
/// grammar gives to `id`.
pub open spec fn field_outcome(name: Seq<char>, id: u16, id_name: Option<Seq<char>>) -> Result<
    u16,
    UnknownSymbol,
> {
    if confirms(name, id, id_name) {
        Ok(id)
    } else {
        Err(UnknownSymbol { category: Category::Field })
    }
}

/// What resolving the node kind `name` yields.
pub open spec fn node_kind_resolution(name: Seq<char>, named: bool) -> Result<u16, UnknownSymbol> {
    let id = grammar_node_kind_id(name, named);
    if has_nul(name) {
        Err(UnknownSymbol { category: node_kind_category(named) })
    } else {
        node_kind_outcome(
            name,
            named,
            id,
            grammar_node_kind_name(id),
            grammar_node_kind_is_visible(id),
            grammar_node_kind_is_named(id),
        )
    }
}

/// What resolving the field `name` yields, as a number.
pub open spec fn field_resolution(name: Seq<char>) -> Result<u16, UnknownSymbol> {
    if has_nul(name) {
        Err(UnknownSymbol { category: Category::Field })
    } else {
        match grammar_field_id(name) {
            Some(id) => field_outcome(name, id, grammar_field_name(id)),
            None => Err(UnknownSymbol { category: Category::Field }),
        }
    }
}

/// What resolving `name` in the namespace `category` yields.
pub open spec fn resolution(category: Category, name: Seq<char>) -> Result<u16, UnknownSymbol> {
    match category {
        Category::NodeKind => node_kind_resolution(name, true),
        Category::Keyword => node_kind_resolution(name, false),
        Category::Field => field_resolution(name),
    }
}

/// Whether the grammar has the node kind `name` among its named productions (`named`) or
/// among its anonymous tokens (`!named`): tree-sitter finds a number for the name there, and
/// the grammar records the name, and that namespace, under the number.
pub open spec fn has_node_kind(name: Seq<char>, named: bool) -> bool {
    let id = grammar_node_kind_id(name, named);
    &&& !has_nul(name)
    &&& confirms(name, id, grammar_node_kind_name(id))
    &&& entry_category(grammar_node_kind_is_visible(id), grammar_node_kind_is_named(id))
        == node_kind_category(named)
}

/// Whether the grammar has the field `name`: tree-sitter finds a number for the name, and the
/// grammar records the name under the number.
pub open spec fn has_field(name: Seq<char>) -> bool {
    &&& !has_nul(name)
    &&& grammar_field_id(name) matches Some(id) && confirms(name, id, grammar_field_name(id))
}

/// Whether the grammar has `name` in the namespace `category`.
pub open spec fn in_grammar(category: Category, name: Seq<char>) -> bool {
    match category {
        Category::NodeKind => has_node_kind(name, true),
        Category::Keyword => has_node_kind(name, false),
        Category::Field => has_field(name),
    }
}

/// The number behind a resolved field, for comparison with `resolution`.
pub open spec fn field_number(resolved: Result<FieldId, UnknownSymbol>) -> Result<
    u16,
    UnknownSymbol,
> {
    match resolved {
        Ok(field) => Ok(field@),
        Err(unknown) => Err(unknown),
    }
}

/// The namespace that a node-kind lookup searches.
pub fn category_of_node_kind(named: bool) -> (category: Category)
    ensures
        category == node_kind_category(named),
{
    if named {
        Category::NodeKind
    } else {
        Category::Keyword
    }
}

/// The namespace of a number of the node-kind table, from what the grammar records of it.
pub fn category_of_entry(visible: bool, named: bool) -> (category: Category)
    ensures
        category == entry_category(visible, named),
{
    if visible && !named {
        Category::Keyword
    } else {
        Category::NodeKind
    }
}

/// Decides whether the number `id`, found for `name`, stands for `name`, given the name
/// `id_name` that the grammar gives to `id`.
pub fn is_confirmed(name: &str, id: u16, id_name: Option<&str>) -> (confirmed: bool)
    ensures
        confirmed == confirms(name@, id, text_of(id_name)),
{
    if id == 0 {
        return false;
    }
    match id_name {
        Some(text) => same_text(text, name),
        None => false,
    }
}

/// Decides what a number found among the node kinds means, given what the grammar records of
/// that number.
pub fn accept_node_kind_id(
    name: &str,
    named: bool,
    id: u16,
    id_name: Option<&str>,
    id_visible: bool,
    id_named: bool,
) -> (resolved: Result<u16, UnknownSymbol>)
    ensures
        resolved == node_kind_outcome(name@, named, id, text_of(id_name), id_visible, id_named),
{
    let asked = category_of_node_kind(named);
    if is_confirmed(name, id, id_name) && category_of_entry(id_visible, id_named) == asked {
        Ok(id)
    } else {
        Err(UnknownSymbol { category: asked })
    }
}

/// Decides what a number found among the fields means, given the name that the grammar gives
/// to that number.
pub fn accept_field_id(name: &str, id: u16, id_name: Option<&str>) -> (resolved: Result<
    FieldId,
    UnknownSymbol,
>)
    ensures
        field_number(resolved) == field_outcome(name@, id, text_of(id_name)),
{
    if is_confirmed(name, id, id_name) {
        match FieldId::new(id) {
            Some(field) => Ok(field),
            None => Err(UnknownSymbol { category: Category::Field }),
        }
    } else {
        Err(UnknownSymbol { category: Category::Field })
    }
}

/// Resolves the node kind `name` among the named productions of the grammar (`named`) or among
/// its anonymous tokens (`!named`).
///
/// Succeeds exactly on the names that the grammar has there (`has_node_kind`), with the
/// number that the grammar records the name under. Any other name is unknown in the namespace
/// that was searched.
pub fn resolve_node_kind(name: &str, named: bool) -> (resolved: Result<u16, UnknownSymbol>)
    ensures
        resolved == node_kind_resolution(name@, named),
{
    if contains_nul(name) {
        return Err(UnknownSymbol { category: category_of_node_kind(named) });
    }
    let id = lookup_node_kind_id(name, named);
    let id_name = lookup_node_kind_name(id);
    if id_name.is_none() {
        return Err(UnknownSymbol { category: category_of_node_kind(named) });
    }
    let id_visible = lookup_node_kind_is_visible(id);
    let id_named = lookup_node_kind_is_named(id);
    accept_node_kind_id(name, named, id, id_name, id_visible, id_named)
}

/// Resolves the named node kind `name`, such as `function_definition`.
///
/// Succeeds exactly on the names that the grammar has as node kinds (`in_grammar`); any other
/// name is unknown as a node kind.
pub fn kind(name: &str) -> (resolved: Result<u16, UnknownSymbol>)
    ensures
        resolved == resolution(Category::NodeKind, name@),
{
    resolve_node_kind(name, true)
}

/// Resolves the keyword `name`: a reserved word or a piece of punctuation, such as `if`.
///
/// Succeeds exactly on the names that the grammar has as keywords (`in_grammar`); any other
/// name is unknown as a keyword.
pub fn kw(name: &str) -> (resolved: Result<u16, UnknownSymbol>)
    ensures
        resolved == resolution(Category::Keyword, name@),
{
    resolve_node_kind(name, false)
}

/// Resolves the field `name`, such as `declarator`.
///
/// Succeeds exactly on the names that the grammar has as fields (`in_grammar`); any other
/// name is unknown as a field.
pub fn field(name: &str) -> (resolved: Result<FieldId, UnknownSymbol>)
    ensures
        field_number(resolved) == resolution(Category::Field, name@),
{
    if contains_nul(name) {
        return Err(UnknownSymbol { category: Category::Field });
    }
    match lookup_field_id(name) {
        Some(id) => accept_field_id(name, id, lookup_field_name(id)),
        None => Err(UnknownSymbol { category: Category::Field }),
    }
}

/// Resolves `name` in the namespace `category`, to the bare number.
pub fn resolve(category: Category, name: &str) -> (resolved: Result<u16, UnknownSymbol>)
    ensures
        resolved == resolution(category, name@),
{
    match category {
        Category::NodeKind => kind(name),
        Category::Keyword => kw(name),
        Category::Field => match field(name) {
            Ok(found) => Ok(found.get()),
            Err(unknown) => Err(unknown),
        },
    }
}

} // verus!
