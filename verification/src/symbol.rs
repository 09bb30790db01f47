//! The vocabulary of a resolution: which namespace a name is looked up in, what a field is
//! identified by, and what a failed lookup reports.

use vstd::prelude::*;

verus! {

/// The namespace of the grammar in which a name is looked up.
#[derive(Clone, Copy, Debug, PartialEq, Eq, Hash, Structural)]
pub enum Category {
    /// A named production of the grammar, such as `function_definition`.
    NodeKind,
    /// An anonymous token: a reserved word or a piece of punctuation, such as `if` or `;`.
    Keyword,
    /// The role that a child plays in its parent, such as `declarator`.
    Field,
}

/// The name does not exist in the namespace in which it was looked up.
#[derive(Clone, Copy, Debug, PartialEq, Eq, Hash, Structural)]
pub struct UnknownSymbol {
    /// The namespace that was searched.
    pub category: Category,
}

impl UnknownSymbol {
    /// The diagnostic that a failed lookup in `category` shows to the user.
    pub open spec fn diagnostic(category: Category) -> Seq<char> {
        match category {
            Category::NodeKind => "This is not a valid node kind in the tree-sitter-c grammar"@,
            Category::Keyword => "This is not a valid keyword in the tree-sitter-c grammar"@,
            Category::Field => "This is not a valid field in the tree-sitter-c grammar"@,
        }
    }

    /// The diagnostic for this failure.
    pub fn message(&self) -> (text: &'static str)
        ensures
            text@ == Self::diagnostic(self.category),
    {
        match self.category {
            Category::NodeKind => "This is not a valid node kind in the tree-sitter-c grammar",
            Category::Keyword => "This is not a valid keyword in the tree-sitter-c grammar",
            Category::Field => "This is not a valid field in the tree-sitter-c grammar",
        }
    }
}

/// The identifier of a field. It is never zero: tree navigation reserves zero for "no field".
#[derive(Clone, Copy, Debug, PartialEq, Eq, Hash, Structural)]
pub struct FieldId {
    id: u16,
}

impl View for FieldId {
    type V = u16;

    closed spec fn view(&self) -> u16 {
        self.id
    }
}

impl FieldId {
    #[verifier::type_invariant]
    spec fn nonzero(self) -> bool {
        self.id != 0
    }

    /// The field identifier with the number `id`, if `id` is not zero.
    pub fn new(id: u16) -> (made: Option<FieldId>)
        ensures
            id == 0 <==> made is None,
            made matches Some(field) ==> field@ == id,
    {
        if id == 0 {
            None
        } else {
            Some(FieldId { id })
        }
    }

    /// The number of this field.
    pub fn get(&self) -> (id: u16)
        ensures
            id == self@,
            id > 0,
    {
        proof {
            use_type_invariant(self);
        }
        self.id
    }

    /// Two field identifiers with the same number are the same identifier.
    pub proof fn lemma_view_injective(a: FieldId, b: FieldId)
        requires
            a@ == b@,
        ensures
            a == b,
    {
    }
}

} // verus!
