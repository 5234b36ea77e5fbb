use rust_kickstart::rules::{
    validate_age, validate_allowed_characters, validate_max_length, validate_min_length,
    validate_name, validate_range,
};
use rust_kickstart::user::{CreateUser, UpdateUser};
use rust_kickstart::validation::{
    validate_create_user_batch, validate_create_user_with_context, validate_update_user,
    ValidationContext,
};

fn messages(r: Result<(), Vec<rust_kickstart::user::ValidationError>>) -> Vec<String> {
    r.unwrap_err().into_iter().map(|e| e.message).collect()
}

#[test]
fn name_errors_come_in_rule_order() {
    let long_digits = "1".repeat(101);
    assert_eq!(
        messages(validate_name(&long_digits, "name")),
        vec!["Name cannot exceed 100 characters", "Name cannot contain numbers"]
    );
    let long_blank = " ".repeat(101);
    assert_eq!(
        messages(validate_name(&long_blank, "name")),
        vec!["Name cannot be empty", "Name cannot exceed 100 characters"]
    );
}

#[test]
fn name_length_counts_bytes() {
    assert!(validate_name(&"a".repeat(100), "name").is_ok());
    // fifty two-byte characters are exactly one hundred bytes
    assert!(validate_name(&"é".repeat(50), "name").is_ok());
    assert!(validate_name(&"é".repeat(51), "name").is_err());
}

#[test]
fn name_with_non_ascii_digits_or_tabs() {
    assert_eq!(messages(validate_name("Ⅻ", "n")), vec!["Name cannot contain numbers"]);
    assert_eq!(messages(validate_name("\t\n", "n")), vec!["Name cannot be empty"]);
    let errs = validate_name("", "who").unwrap_err();
    assert_eq!(errs[0].field.as_deref(), Some("who"));
}

#[test]
fn age_errors_exact() {
    assert_eq!(messages(validate_age(-1, "age")), vec!["Age cannot be negative"]);
    assert_eq!(messages(validate_age(151, "age")), vec!["Age cannot exceed 150 years"]);
    assert_eq!(messages(validate_age(0, "age")), vec!["Age must be greater than 0"]);
    assert!(validate_age(i32::MAX, "age").is_err());
    assert!(validate_age(i32::MIN, "age").is_err());
}

#[test]
fn allowed_characters_message_names_them() {
    assert_eq!(
        messages(validate_allowed_characters("a-b", "f", "_.")),
        vec!["Field contains invalid characters. Allowed: _."]
    );
    assert!(validate_allowed_characters("a-b", "f", "-").is_ok());
    assert!(validate_allowed_characters("", "f", "").is_ok());
}

#[test]
fn length_messages_exact() {
    assert_eq!(
        messages(validate_min_length("", "f", 12)),
        vec!["Field must be at least 12 characters long"]
    );
    assert_eq!(
        messages(validate_max_length("abc", "f", 0)),
        vec!["Field cannot exceed 0 characters"]
    );
}

#[test]
fn range_messages_exact() {
    assert_eq!(
        messages(validate_range(&-20, "f", &-10, &-5)),
        vec!["Value must be at least -10"]
    );
    assert_eq!(
        messages(validate_range(&i64::MAX, "f", &i64::MIN, &1234567890)),
        vec!["Value cannot exceed 1234567890"]
    );
    assert_eq!(
        messages(validate_range(&i64::MIN, "f", &-9223372036854775807, &0)),
        vec!["Value must be at least -9223372036854775807"]
    );
    assert_eq!(
        messages(validate_range(&3, "f", &5, &1)),
        vec!["Value must be at least 5", "Value cannot exceed 1"]
    );
}

#[test]
fn create_collects_name_then_age_errors() {
    let user = CreateUser { name: "R2D2".to_string(), age: 0 };
    let errs = validate_create_user_with_context(&user, &ValidationContext::strict()).unwrap_err();
    let got: Vec<(String, Option<String>)> =
        errs.into_iter().map(|e| (e.message, e.field)).collect();
    assert_eq!(
        got,
        vec![
            ("Name cannot contain numbers".to_string(), Some("name".to_string())),
            ("Age must be greater than 0".to_string(), Some("age".to_string())),
        ]
    );
}

#[test]
fn batch_reports_failing_indices() {
    let users = vec![
        CreateUser { name: "Ann".to_string(), age: 20 },
        CreateUser { name: "".to_string(), age: 20 },
        CreateUser { name: "Bob".to_string(), age: 30 },
        CreateUser { name: "Cy".to_string(), age: 200 },
    ];
    let failures = validate_create_user_batch(&users).unwrap_err();
    let idx: Vec<usize> = failures.iter().map(|f| f.0).collect();
    assert_eq!(idx, vec![1, 3]);
    assert_eq!(failures[1].1[0].message, "Age cannot exceed 150 years");
    assert!(validate_create_user_batch(&users[..1]).is_ok());
    assert!(validate_create_user_batch(&[]).is_ok());
}

#[test]
fn update_without_fields_has_one_general_error() {
    let errs = validate_update_user(&UpdateUser { name: None, age: None }).unwrap_err();
    assert_eq!(errs.len(), 1);
    assert_eq!(
        errs[0].message,
        "At least one field (name or age) must be provided for update"
    );
    let errs = validate_update_user(&UpdateUser { name: None, age: Some(-3) }).unwrap_err();
    assert_eq!(errs[0].message, "Age cannot be negative");
}

#[test]
fn metadata_later_value_wins() {
    let c = ValidationContext::new().with_metadata("k", "a").with_metadata("k", "b");
    assert_eq!(c.metadata.get("k"), Some(&"b".to_string()));
    assert_eq!(c.metadata.get("missing"), None);
    assert!(!c.metadata.is_empty());
}
