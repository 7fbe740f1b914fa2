use portfolio_core::auth::{auth_allows, get_valid_token, is_public_endpoint, write_guard_allows};
use portfolio_core::config::{parse_db_type, parse_port, Config, DatabaseConfig, DatabaseType};
use portfolio_core::errors::{DomainError, NameRule, RuleViolation};
use portfolio_core::project::Project;
use portfolio_core::responses::{MessageResponse, ProjectResponse, SkillResponse};
use portfolio_core::service_errors::{ApiError, BackendError, DbError};
use portfolio_core::skill::Skill;
use portfolio_core::timestamps::CreateUp;
use portfolio_core::types::{ProjectStatus, SkillCategory, SkillLevel};
use portfolio_core::validators::{check_name, CommonValidator};
use portfolio_core::values::UniqueTechnologies;

#[test]
fn common_validators() {
    assert_eq!(CommonValidator::validate_id(""), Err(DomainError::BusinessRule(RuleViolation::EmptyId)));
    assert_eq!(CommonValidator::validate_id("abc"), Err(DomainError::BusinessRule(RuleViolation::IdNotUuid)));
    assert_eq!(CommonValidator::validate_id("550e8400-e29b-41d4-a716-446655440000"), Ok(()));
    assert_eq!(
        CommonValidator::validate_name("a  b", "Project"),
        Err(DomainError::BusinessRule(RuleViolation::InvalidName { field: "Project".to_string(), rule: NameRule::RepeatedSpaces }))
    );
    assert_eq!(CommonValidator::validate_description("  abc  ", 3), Ok(()));
    assert_eq!(
        CommonValidator::validate_description("abcd", 3),
        Err(DomainError::BusinessRule(RuleViolation::DescriptionTooLong { max_length: 3 }))
    );
}

#[test]
fn name_length_counts_bytes() {
    assert_eq!(check_name(&"a".repeat(50)), None);
    assert_eq!(check_name(&"a".repeat(51)), Some(NameRule::TooLong));
    assert_eq!(check_name(&"é".repeat(25)), None);
    assert_eq!(check_name(&"é".repeat(26)), Some(NameRule::TooLong));
    assert_eq!(check_name("a&b"), Some(NameRule::InvalidCharacters));
    assert_eq!(check_name("it's"), Some(NameRule::InvalidCharacters));
    assert_eq!(check_name("\u{3000}x\u{3000}"), None);
}

#[test]
fn ports_and_store_kinds() {
    assert_eq!(parse_port("8080"), Some(8080));
    assert_eq!(parse_port("+80"), Some(80));
    assert_eq!(parse_port("65535"), Some(65535));
    assert_eq!(parse_port("65536"), None);
    assert_eq!(parse_port("-1"), None);
    assert_eq!(parse_port("+"), None);
    assert_eq!(parse_port(""), None);
    assert_eq!(parse_port("80a"), None);
    assert_eq!(parse_db_type("postgres"), DatabaseType::Postgres);
    assert_eq!(parse_db_type("spacetime"), DatabaseType::Spacetime);
    assert_eq!(parse_db_type("inmemory"), DatabaseType::InMemory);
    assert_eq!(parse_db_type("mysql"), DatabaseType::InMemory);
}

#[test]
fn config_defaults_and_address() {
    let c = Config::from_values(None, None, None, None).unwrap();
    assert_eq!(c.port, 3000);
    assert_eq!(c.database.db_type, DatabaseType::InMemory);
    assert_eq!(c.database.url, "memory");
    assert_eq!(c.server_address(), "0.0.0.0:3000");
    let c2 = Config::from_values(Some("t".to_string()), Some("8"), Some("postgres"), Some("pg://x".to_string())).unwrap();
    assert_eq!(c2.server_address(), "0.0.0.0:8");
    assert_eq!(c2.access_token, Some("t".to_string()));
    assert_eq!(c2.database.db_type, DatabaseType::Postgres);
    assert!(Config::from_values(None, Some("port"), None, None).is_none());
    let d = DatabaseConfig::default();
    assert_eq!(d.url, "memory");
}

#[test]
fn public_endpoints() {
    assert!(is_public_endpoint("/health"));
    assert!(is_public_endpoint("/api/projects/featured"));
    assert!(is_public_endpoint("/api/skills/category/Backend"));
    assert!(is_public_endpoint("/swagger-ui/index.html"));
    assert!(!is_public_endpoint("/api/skills/123"));
    assert!(!is_public_endpoint("/healthz"));
}

#[test]
fn bearer_tokens() {
    assert_eq!(get_valid_token(None), "default_token");
    assert_eq!(get_valid_token(Some("s3".to_string())), "s3");
    assert!(auth_allows("/api/skills/1", Some("Bearer s3"), "s3"));
    assert!(!auth_allows("/api/skills/1", Some("Bearer s4"), "s3"));
    assert!(!auth_allows("/api/skills/1", Some("Basic s3"), "s3"));
    assert!(!auth_allows("/api/skills/1", None, "s3"));
    assert!(auth_allows("/health", None, "s3"));
    assert!(write_guard_allows("GET", "/api/skills/1", None, "s3"));
    assert!(!write_guard_allows("POST", "/api/skills/1", None, "s3"));
    assert!(write_guard_allows("DELETE", "/api/skills/1", Some("Bearer s3"), "s3"));
}

#[test]
fn response_records() {
    let mut t = UniqueTechnologies::new();
    t.add("Rust".to_string()).unwrap();
    let p = Project::new("Site".to_string(), "d".to_string(), "".to_string(), ProjectStatus::Planning, t);
    let r = ProjectResponse::from_project(&p);
    assert_eq!(r.id, p.id());
    assert_eq!(r.technologies, vec!["Rust".to_string()]);
    assert!(!r.featured);
    let s = Skill::new("Rust".to_string(), SkillCategory::Languages, "Systems programming".to_string(), 8);
    let sr = SkillResponse::from_skill(&s);
    assert_eq!(sr.level, SkillLevel::Expert);
    assert_eq!(sr.name, "Rust");
    assert_eq!(MessageResponse::new("ok".to_string()).message, "ok");
}

#[test]
fn timestamps_track_changes() {
    let mut c = CreateUp::with_created_at(5);
    assert_eq!((c.created_at(), c.updated_at()), (5, 5));
    c.touch(9);
    assert_eq!((c.created_at(), c.updated_at()), (5, 9));
    c.set_dates(1, 2);
    assert_eq!((c.created_at(), c.updated_at()), (1, 2));
    let n = CreateUp::new();
    assert_eq!(n.created_at(), n.updated_at());
    assert!(n.created_at() > 1_600_000_000_000_000);
    assert_eq!(CreateUp::starting_at(3), CreateUp::with_dates(3, 3));
}

#[test]
fn server_errors_wrap() {
    assert_eq!(BackendError::from_db(DbError::Query("q".to_string())), BackendError::Database(DbError::Query("q".to_string())));
    assert_eq!(BackendError::from_api(ApiError::NotFound), BackendError::Api(ApiError::NotFound));
    assert!(matches!(
        BackendError::from_domain(DomainError::BusinessRule(RuleViolation::EmptyId)),
        BackendError::Domain(DomainError::BusinessRule(RuleViolation::EmptyId))
    ));
}

#[test]
fn identifier_forms() {
    let ok = |s: &str| CommonValidator::validate_id(s).is_ok();
    assert!(ok("550e8400e29b41d4a716446655440000"));
    assert!(ok("550E8400-E29B-41D4-A716-446655440000"));
    assert!(ok("{550e8400-e29b-41d4-a716-446655440000}"));
    assert!(ok("URN:uuid:550e8400-e29b-41d4-a716-446655440000"));
    assert!(!ok("550e8400-e29b-41d4-a716-44665544000g"));
    assert!(!ok("550e8400e29b-41d4-a716-4466554400000"));
    assert!(!ok("urx:uuid:550e8400-e29b-41d4-a716-446655440000"));
}
