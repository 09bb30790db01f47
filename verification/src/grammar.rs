//! The symbol tables of the C grammar, as the tree-sitter library reads them.
//!
//! Nothing here is proved about the tables themselves. The library asks tree-sitter, and these
//! are the only places where it does. Each answer depends on the question alone, because the
//! grammar is compiled into the program.

use crate::text::has_nul;
use vstd::prelude::*;

verus! {

/// The number that tree-sitter finds for the node kind `name`, among the named productions of
/// the grammar (`named`) or among its anonymous tokens (`!named`). Zero says that it found
/// none.
pub uninterp spec fn grammar_node_kind_id(name: Seq<char>, named: bool) -> u16;

/// The name that the grammar gives to the node kind with the number `id`, if there is one.
pub uninterp spec fn grammar_node_kind_name(id: u16) -> Option<Seq<char>>;

/// Whether the grammar shows the node kind with the number `id` in syntax trees. Hidden are
/// the auxiliary symbols of the parser and the supertypes, which stand for a group of node
/// kinds.
pub uninterp spec fn grammar_node_kind_is_visible(id: u16) -> bool;

/// Whether the node kind with the number `id` is one that syntax trees show as a named
/// production, rather than as an anonymous token.
pub uninterp spec fn grammar_node_kind_is_named(id: u16) -> bool;

/// The number that tree-sitter finds for the field `name`, if it finds one.
pub uninterp spec fn grammar_field_id(name: Seq<char>) -> Option<u16>;

/// The name that the grammar gives to the field with the number `id`, if there is one.
pub uninterp spec fn grammar_field_name(id: u16) -> Option<Seq<char>>;

/// The text of a name that may be absent.
pub open spec fn text_of(name: Option<&str>) -> Option<Seq<char>> {
    match name {
        Some(text) => Some(text@),
        None => None,
    }
}

/// Calls `tree_sitter::Language::id_for_node_kind` on the language that
/// `tree_sitter_c::language` returns.
///
/// Trusted: the result depends on `name` and `named` alone. The C function behind the call
/// compares the bytes of `name` with NUL-terminated strings and reads past the end of one when
/// `name` goes on after a zero byte, so such names are not let in (in UTF-8 only the NUL
/// character has a zero byte).
#[verifier::external_body]
pub(crate) fn lookup_node_kind_id(name: &str, named: bool) -> (id: u16)
    requires
        !has_nul(name@),
    ensures
        id == grammar_node_kind_id(name@, named),
{
    tree_sitter_c::language().id_for_node_kind(name, named)
}

/// Calls `tree_sitter::Language::node_kind_for_id` on the language that
/// `tree_sitter_c::language` returns.
///
/// Trusted: the result depends on `id` alone. The call panics on a name that is not UTF-8; the
/// names of this grammar are ASCII.
#[verifier::external_body]
pub(crate) fn lookup_node_kind_name(id: u16) -> (name: Option<&'static str>)
    ensures
        text_of(name) == grammar_node_kind_name(id),
{
    tree_sitter_c::language().node_kind_for_id(id)
}

/// Calls `tree_sitter::Language::node_kind_is_visible` on the language that
/// `tree_sitter_c::language` returns.
///
/// Trusted: the result depends on `id` alone. The C function behind the call reads the
/// grammar's table at `id` without asking how long the table is, so only a number that the
/// grammar has a name for is let in: the function that finds the name does ask.
#[verifier::external_body]
pub(crate) fn lookup_node_kind_is_visible(id: u16) -> (visible: bool)
    requires
        grammar_node_kind_name(id) is Some,
    ensures
        visible == grammar_node_kind_is_visible(id),
{
    tree_sitter_c::language().node_kind_is_visible(id)
}

/// Calls `tree_sitter::Language::node_kind_is_named` on the language that
/// `tree_sitter_c::language` returns.
///
/// Trusted: the result depends on `id` alone. Only a number that the grammar has a name for is
/// let in, for the reason given at `lookup_node_kind_is_visible`.
#[verifier::external_body]
pub(crate) fn lookup_node_kind_is_named(id: u16) -> (named: bool)
    requires
        grammar_node_kind_name(id) is Some,
    ensures
        named == grammar_node_kind_is_named(id),
{
    tree_sitter_c::language().node_kind_is_named(id)
}

/// Calls `tree_sitter::Language::field_id_for_name` on the language that
/// `tree_sitter_c::language` returns.
///
/// Trusted: the result depends on `name` alone. Names that hold a NUL are not let in, for the
/// reason given at `lookup_node_kind_id`.
#[verifier::external_body]
pub(crate) fn lookup_field_id(name: &str) -> (id: Option<u16>)
    requires
        !has_nul(name@),
    ensures
        id == grammar_field_id(name@),
{
    tree_sitter_c::language().field_id_for_name(name)
}

/// Calls `tree_sitter::Language::field_name_for_id` on the language that
/// `tree_sitter_c::language` returns.
///
/// Trusted: the result depends on `id` alone. The call panics on a name that is not UTF-8; the
/// names of this grammar are ASCII.
#[verifier::external_body]
pub(crate) fn lookup_field_name(id: u16) -> (name: Option<&'static str>)
    ensures
        text_of(name) == grammar_field_name(id),
{
    tree_sitter_c::language().field_name_for_id(id)
}

} // verus!
