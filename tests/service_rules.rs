use rust_kickstart::bank::{require_user, BankError};
use rust_kickstart::config::{parse_unsigned, AppConfig, DatabaseConfig, ServerConfig};
use rust_kickstart::health::{duration_to_millis, ComponentHealth, HealthCheckResponse, HealthError};
use rust_kickstart::services::{
    CreateUserService, DeleteUserService, UpdateUserService, UserOperation, UserUtilsService,
};
use rust_kickstart::timestamp::Timestamp;
use rust_kickstart::user::{CreateUser, UpdateUser, User, UserError};

#[test]
fn millis_are_capped() {
    assert_eq!(duration_to_millis(1234), 1234);
    assert_eq!(duration_to_millis(u64::MAX as u128), u64::MAX);
    assert_eq!(duration_to_millis(u128::MAX), u64::MAX);
}

#[test]
fn health_is_healthy_only_when_every_component_is() {
    let app = ComponentHealth::application(3);
    assert_eq!(app.name, "application");
    assert!(app.is_healthy());
    let db_ok = ComponentHealth::database(&Ok(()), 7);
    assert_eq!(db_ok.status, "healthy");
    assert_eq!(db_ok.response_time_ms, 7);
    let db_down = ComponentHealth::database(&Err(HealthError::DatabaseError("refused".into())), 9);
    assert_eq!(db_down.status, "unhealthy");
    assert_eq!(db_down.message.as_deref(), Some("Database error: refused"));

    let good = HealthCheckResponse::from_components(
        vec![app.clone(), db_ok],
        "0.1.0".into(),
        "now".into(),
        10,
    );
    assert_eq!(good.status, "healthy");
    assert!(good.is_healthy());
    assert_eq!(good.total_response_time_ms, 10);
    let bad = HealthCheckResponse::from_components(vec![app, db_down], "0.1.0".into(), "now".into(), 1);
    assert_eq!(bad.status, "unhealthy");
    assert!(!bad.is_healthy());
    let live = HealthCheckResponse::from_components(vec![], "v".into(), "t".into(), 0);
    assert!(live.is_healthy());
}

#[test]
fn unsigned_parse_follows_std() {
    for s in ["0", "7", "+42", "65535", "00012", "4294967295", "", "+", "-1", " 1", "1 ", "12a", "4294967296", "++1"] {
        assert_eq!(parse_unsigned(s, u32::MAX), s.parse::<u32>().ok(), "{s:?}");
        assert_eq!(parse_unsigned(s, u16::MAX as u32), s.parse::<u16>().ok().map(u32::from), "{s:?}");
    }
}

#[test]
fn config_defaults_and_address() {
    let server = ServerConfig::from_settings(None, None);
    assert_eq!(server.host, "0.0.0.0");
    assert_eq!(server.port, 3000);
    assert_eq!(server.address(), "0.0.0.0:3000");
    let server = ServerConfig::from_settings(Some("localhost".into()), Some("70000".into()));
    assert_eq!(server.port, 3000);
    let server = ServerConfig::from_settings(Some("127.0.0.1".into()), Some("8080".into()));
    assert_eq!(server.address(), "127.0.0.1:8080");

    let db = DatabaseConfig::from_settings("postgres://x".into(), None);
    assert_eq!(db.max_connections, 5);
    let db = DatabaseConfig::from_settings("postgres://x".into(), Some("12".into()));
    assert_eq!(db.max_connections, 12);
    let db = DatabaseConfig::from_settings("postgres://x".into(), Some("many".into()));
    assert_eq!(db.max_connections, 5);

    let app = AppConfig::from_settings(db.clone(), server.clone(), None);
    assert!(app.is_development());
    assert!(!app.is_production());
    let app = AppConfig::from_settings(db, server, Some("production".into()));
    assert!(app.is_production());
    assert!(!app.is_development());
}

#[test]
fn create_and_update_checks() {
    assert!(CreateUserService::check(&CreateUser { name: "Ann".into(), age: 3 }).is_ok());
    match CreateUserService::check(&CreateUser { name: " ".into(), age: 3 }) {
        Err(UserError::ValidationError(es)) => assert_eq!(es[0].message, "Name cannot be empty"),
        other => panic!("unexpected {other:?}"),
    }
    assert_eq!(CreateUserService::stored_name(&CreateUser { name: "  Ann Lee \t".into(), age: 3 }), "Ann Lee");
    assert!(matches!(
        UpdateUserService::check(&UpdateUser { name: None, age: None }),
        Err(UserError::ValidationError(_))
    ));
    let existing = User::new(5, "Old".into(), 40, Timestamp::new(1, 0));
    let (name, age) = UpdateUserService::merged_fields(&UpdateUser { name: Some(" New ".into()), age: None }, &existing);
    assert_eq!((name.as_str(), age), ("New", 40));
    let (name, age) = UpdateUserService::merged_fields(&UpdateUser { name: None, age: Some(41) }, &existing);
    assert_eq!((name.as_str(), age), ("Old", 41));
}

#[test]
fn delete_and_lookup_outcomes() {
    assert_eq!(DeleteUserService::outcome(12, true).unwrap().message, "User with id 12 deleted successfully");
    assert_eq!(DeleteUserService::outcome(-3, true).unwrap().message, "User with id -3 deleted successfully");
    assert!(matches!(DeleteUserService::outcome(12, false), Err(UserError::NotFound)));
    let u = User::new(1, "Zoe".into(), 20, Timestamp::new(0, 0));
    assert_eq!(UserUtilsService::name_of(Some(u)).unwrap(), "Zoe");
    assert!(matches!(UserUtilsService::name_of(None), Err(UserError::NotFound)));
}

#[test]
fn error_statuses() {
    let v = UserError::ValidationError(vec![]);
    assert_eq!(v.status_in(UserOperation::Create), 400);
    assert_eq!(v.status_in(UserOperation::Update), 400);
    assert_eq!(UserError::InvalidToken.status_in(UserOperation::List), 400);
    assert_eq!(UserError::InvalidToken.status_in(UserOperation::Update), 500);
    assert_eq!(UserError::NotFound.status_in(UserOperation::Get), 404);
    assert_eq!(UserError::NotFound.status_in(UserOperation::Create), 500);
    assert_eq!(UserError::DatabaseError("x".into()).status_in(UserOperation::Delete), 500);
    assert_eq!(UserError::DatabaseError("x".into()).message(), "Database error: x");
}

#[test]
fn bank_requires_an_existing_user() {
    assert!(require_user(Ok(true)).is_ok());
    assert!(matches!(require_user(Ok(false)), Err(BankError::UserNotFound)));
    let e = require_user(Err(UserError::NotFound)).unwrap_err();
    assert_eq!(e.message(), "User service error: User not found");
    assert_eq!(BankError::InsufficientFunds.message(), "Insufficient funds");
}

#[test]
fn bank_reads_user_errors() {
    assert!(matches!(BankError::from_user_error(UserError::NotFound), BankError::UserNotFound));
    assert!(matches!(
        BankError::from_user_error(UserError::InvalidToken),
        BankError::UserServiceError(UserError::InvalidToken)
    ));
}
