//! What holds of every resolution, whatever the grammar's tables hold.

use crate::grammar::{
    grammar_field_name, grammar_node_kind_is_named, grammar_node_kind_is_visible,
    grammar_node_kind_name,
};
use crate::resolver::{
    entry_category, field_number, in_grammar, node_kind_category, node_kind_resolution,
    resolution,
};
use crate::symbol::{Category, FieldId, UnknownSymbol};
use vstd::prelude::*;

verus! {

/// The name that the grammar gives to the number `id` of the namespace `category`. Node kinds
/// and keywords are numbered in one table, fields in another.
pub open spec fn grammar_name(category: Category, id: u16) -> Option<Seq<char>> {
    match category {
        Category::NodeKind => grammar_node_kind_name(id),
        Category::Keyword => grammar_node_kind_name(id),
        Category::Field => grammar_field_name(id),
    }
}

/// Whether the numbers of `first` and `second` come from one table.
pub open spec fn share_a_table(first: Category, second: Category) -> bool {
    (first == Category::Field) == (second == Category::Field)
}

/// A name resolves if and only if the grammar has it in the namespace that was asked for.
pub proof fn lemma_resolves_what_the_grammar_has(category: Category, name: Seq<char>)
    ensures
        resolution(category, name) is Ok <==> in_grammar(category, name),
{
}

/// A name that the grammar has resolves to a strictly positive number, in each of the three
/// namespaces.
pub proof fn lemma_resolved_id_is_positive(category: Category, name: Seq<char>)
    requires
        in_grammar(category, name),
    ensures
        resolution(category, name) matches Ok(id) && id > 0,
{
}

/// Zero is never the outcome of a successful resolution.
pub proof fn lemma_zero_is_never_resolved(category: Category, name: Seq<char>)
    ensures
        resolution(category, name) != Ok::<u16, UnknownSymbol>(0),
{
}

/// What resolves is an entry of the grammar: the grammar gives the requested name to the
/// number that the name resolved to.
pub proof fn lemma_resolved_id_bears_the_name(category: Category, name: Seq<char>)
    ensures
        resolution(category, name) matches Ok(id) ==> grammar_name(category, id) == Some(name),
{
}

/// A failure names the namespace that was asked for.
pub proof fn lemma_failure_names_the_category(category: Category, name: Seq<char>)
    ensures
        resolution(category, name) matches Err(unknown) ==> unknown.category == category,
{
}

/// What resolves among the node kinds or the keywords is recorded by the grammar in the
/// namespace that was asked for.
pub proof fn lemma_resolved_id_is_of_the_category(named: bool, name: Seq<char>)
    ensures
        node_kind_resolution(name, named) matches Ok(id) ==> entry_category(
            grammar_node_kind_is_visible(id),
            grammar_node_kind_is_named(id),
        ) == node_kind_category(named),
{
}

/// Two different names that both resolve in one table resolve to different numbers. For node
/// kinds this holds whichever of the two namespaces of that table each name was looked up in.
pub proof fn lemma_distinct_names_resolve_apart(
    first_category: Category,
    first: Seq<char>,
    second_category: Category,
    second: Seq<char>,
)
    requires
        first != second,
        share_a_table(first_category, second_category),
        resolution(first_category, first) is Ok,
        resolution(second_category, second) is Ok,
    ensures
        resolution(first_category, first) != resolution(second_category, second),
{
    lemma_resolved_id_bears_the_name(first_category, first);
    lemma_resolved_id_bears_the_name(second_category, second);
}

/// No number is both a node kind's and a keyword's: what resolves in one of the two
/// namespaces differs from whatever resolves in the other.
pub proof fn lemma_node_kinds_and_keywords_resolve_apart(node_kind: Seq<char>, keyword: Seq<char>)
    requires
        resolution(Category::NodeKind, node_kind) is Ok,
        resolution(Category::Keyword, keyword) is Ok,
    ensures
        resolution(Category::NodeKind, node_kind) != resolution(Category::Keyword, keyword),
{
    lemma_resolved_id_is_of_the_category(true, node_kind);
    lemma_resolved_id_is_of_the_category(false, keyword);
}

/// Resolution is a function of the request: the same name in the same namespace has the same
/// outcome, however often it is asked for.
pub proof fn lemma_resolution_is_deterministic(
    category: Category,
    name: Seq<char>,
    again_category: Category,
    again_name: Seq<char>,
)
    requires
        category == again_category,
        name =~= again_name,
    ensures
        resolution(category, name) == resolution(again_category, again_name),
{
}

/// Two resolutions of one field name are equal as values, not only in their numbers.
pub proof fn lemma_field_is_deterministic(
    name: Seq<char>,
    first: Result<FieldId, UnknownSymbol>,
    second: Result<FieldId, UnknownSymbol>,
)
    requires
        field_number(first) == resolution(Category::Field, name),
        field_number(second) == resolution(Category::Field, name),
    ensures
        first == second,
{
    if let (Ok(a), Ok(b)) = (first, second) {
        FieldId::lemma_view_injective(a, b);
    }
}

} // verus!
