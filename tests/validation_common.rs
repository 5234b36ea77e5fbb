use rust_kickstart::rules::{field_error, general_error, validation_error};
use rust_kickstart::validation::ValidationContext;

#[test]
fn test_validation_context_new() {
    let context = ValidationContext::new();
    assert!(!context.strict);
    assert!(context.metadata.is_empty());
}

#[test]
fn test_validation_context_strict() {
    let context = ValidationContext::strict();
    assert!(context.strict);
    assert!(context.metadata.is_empty());
}

#[test]
fn test_validation_context_with_metadata() {
    let context = ValidationContext::new()
        .with_metadata("key1", "value1")
        .with_metadata("key2", "value2");
    
    assert_eq!(context.metadata.get("key1"), Some(&"value1".to_string()));
    assert_eq!(context.metadata.get("key2"), Some(&"value2".to_string()));
}

#[test]
fn test_validation_error_creation() {
    let error = validation_error("Test message", Some("test_field"));
    assert_eq!(error.message, "Test message");
    assert_eq!(error.field, Some("test_field".to_string()));
}

#[test]
fn test_field_error_creation() {
    let error = field_error("username", "Username is required");
    assert_eq!(error.message, "Username is required");
    assert_eq!(error.field, Some("username".to_string()));
}

#[test]
fn test_general_error_creation() {
    let error = general_error("General validation failed");
    assert_eq!(error.message, "General validation failed");
    assert!(error.field.is_none());
}
