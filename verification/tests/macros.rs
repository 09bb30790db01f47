// Tests for the three resolvers on names that the grammar has
use tree_sitter_c_proc::{field, kind, kw};

#[test]
fn test_kind_macro() {
    // Test with valid node kinds
    let function_def_id = kind("function_definition").unwrap();
    assert!(
        function_def_id > 0,
        "Expected non-zero ID for function_definition"
    );

    let translation_unit_id = kind("translation_unit").unwrap();
    assert!(
        translation_unit_id > 0,
        "Expected non-zero ID for translation_unit"
    );

    let binary_expression_id = kind("binary_expression").unwrap();
    assert!(
        binary_expression_id > 0,
        "Expected non-zero ID for binary_expression"
    );

    // Verify that different node kinds have different IDs
    assert_ne!(
        function_def_id, translation_unit_id,
        "Different node kinds should have different IDs"
    );
    assert_ne!(
        function_def_id, binary_expression_id,
        "Different node kinds should have different IDs"
    );
    assert_ne!(
        translation_unit_id, binary_expression_id,
        "Different node kinds should have different IDs"
    );
}

#[test]
fn test_kw_macro() {
    // Test with valid keywords
    let if_id = kw("if").unwrap();
    assert!(if_id > 0, "Expected non-zero ID for 'if' keyword");

    let for_id = kw("for").unwrap();
    assert!(for_id > 0, "Expected non-zero ID for 'for' keyword");

    let while_id = kw("while").unwrap();
    assert!(while_id > 0, "Expected non-zero ID for 'while' keyword");

    // Verify that different keywords have different IDs
    assert_ne!(
        if_id, for_id,
        "Different keywords should have different IDs"
    );
    assert_ne!(
        if_id, while_id,
        "Different keywords should have different IDs"
    );
    assert_ne!(
        for_id, while_id,
        "Different keywords should have different IDs"
    );
}

#[test]
fn test_field_macro() {
    // Test with valid fields
    let declarator_id = field("declarator").unwrap();
    assert!(
        declarator_id.get() > 0,
        "Expected non-zero ID for 'declarator' field"
    );

    let name_id = field("name").unwrap();
    assert!(name_id.get() > 0, "Expected non-zero ID for 'name' field");

    let type_id = field("type").unwrap();
    assert!(type_id.get() > 0, "Expected non-zero ID for 'type' field");

    // Verify that different fields have different IDs
    assert_ne!(
        declarator_id, name_id,
        "Different fields should have different IDs"
    );
    assert_ne!(
        declarator_id, type_id,
        "Different fields should have different IDs"
    );
    assert_ne!(
        name_id, type_id,
        "Different fields should have different IDs"
    );
}

#[test]
fn test_macro_integration() {
    // Test using the resolvers together in a realistic scenario
    let function_def_id = kind("function_definition").unwrap();
    let declarator_id = field("declarator").unwrap().get();
    let name_id = field("name").unwrap().get();

    // Verify that the IDs are valid
    assert!(
        function_def_id > 0,
        "Expected non-zero ID for function_definition"
    );
    assert!(
        declarator_id > 0,
        "Expected non-zero ID for declarator field"
    );
    assert!(name_id > 0, "Expected non-zero ID for name field");
}
