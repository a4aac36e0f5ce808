use rust_server::config::{AuthConfig, EncryptionConfig, ServerConfig};
use rust_server::db::models::{
    AlertSeverity, AuthProvider, Server, ServerCategory, ServerType, User, UserRole,
};
use rust_server::error::AppError;
use rust_server::models::logs::{
    CreateLogRequest, LogCondition, LogEntry, LogFilter, LogLevel, LogMetadata,
    ParseLogLevelError,
};

#[test]
fn server_type_names() {
    assert_eq!(ServerType::Linux.as_ref(), "linux");
    assert_eq!(ServerType::MacOS.as_ref(), "macos");
    assert_eq!(ServerType::Windows.as_ref(), "windows");
    assert_eq!(ServerType::MacOS.to_string(), "macos");
    assert_eq!(ServerType::default(), ServerType::Linux);
}

#[test]
fn server_type_is_read_in_any_case() {
    assert_eq!(ServerType::from_str("linux"), Ok(ServerType::Linux));
    assert_eq!(ServerType::from_str("LINUX"), Ok(ServerType::Linux));
    assert_eq!(ServerType::from_str("MacOS"), Ok(ServerType::MacOS));
    assert_eq!(ServerType::from_str("wINDOWS"), Ok(ServerType::Windows));
    assert_eq!("Linux".parse::<ServerType>(), Ok(ServerType::Linux));
    assert_eq!(ServerType::from_name("linux"), Some(ServerType::Linux));
    assert_eq!(ServerType::from_name("Linux"), None);
}

#[test]
fn unknown_names_are_refused_with_the_input() {
    assert_eq!(ServerType::from_str("BeOS"), Err("Invalid ServerType value: BeOS".to_string()));
    assert_eq!(ServerType::from_str(""), Err("Invalid ServerType value: ".to_string()));
    assert_eq!(
        ServerCategory::from_str("cloud"),
        Err("Invalid ServerCategory value: cloud".to_string())
    );
    assert_eq!(
        AlertSeverity::from_str("FATAL"),
        Err("Invalid AlertSeverity value: FATAL".to_string())
    );
    assert_eq!(UserRole::from_str("root"), Err("Invalid UserRole value: root".to_string()));
    assert_eq!(
        AuthProvider::from_str("github"),
        Err("Invalid AuthProvider value: github".to_string())
    );
    assert_eq!("x".parse::<UserRole>(), Err("Invalid UserRole value: x".to_string()));
}

#[test]
fn names_round_trip() {
    for v in [ServerCategory::Physical, ServerCategory::Virtual, ServerCategory::Container] {
        assert_eq!(ServerCategory::from_str(v.as_ref()), Ok(v));
        assert_eq!(ServerCategory::from_str(&v.to_string().to_uppercase()), Ok(v));
    }
    for v in [AlertSeverity::Info, AlertSeverity::Warning, AlertSeverity::Critical] {
        assert_eq!(AlertSeverity::from_str(v.as_ref()), Ok(v));
    }
    for v in [UserRole::Admin, UserRole::User, UserRole::Viewer] {
        assert_eq!(UserRole::from_str(v.as_ref()), Ok(v));
    }
    for v in [
        AuthProvider::Email,
        AuthProvider::Google,
        AuthProvider::Apple,
        AuthProvider::Kakao,
        AuthProvider::Facebook,
    ] {
        assert_eq!(AuthProvider::from_str(v.as_ref()), Ok(v));
        assert_eq!(v.as_ref().parse::<AuthProvider>(), Ok(v));
    }
    assert_eq!(ServerCategory::default(), ServerCategory::Physical);
    assert_eq!(ServerCategory::Container.as_ref(), "container");
    assert_eq!(AlertSeverity::Critical.as_ref(), "critical");
    assert_eq!(UserRole::Viewer.as_ref(), "viewer");
    assert_eq!(AuthProvider::Kakao.as_ref(), "kakao");
}

#[test]
fn default_server_is_an_offline_linux_machine() {
    let server = Server::default();
    assert_eq!(server.id.len(), 36);
    assert_ne!(server.id, Server::default().id);
    assert_eq!(server.name, "");
    assert_eq!(server.hostname, "");
    assert_eq!(server.ip_address, None);
    assert_eq!(server.port, 0);
    assert_eq!(server.location, Some("Unknown".to_string()));
    assert_eq!(server.description, None);
    assert_eq!(server.server_type, ServerType::Linux);
    assert_eq!(server.category, ServerCategory::Physical);
    assert!(!server.is_online);
    assert_eq!(server.last_seen_at, None);
    assert_eq!(server.metadata, Some("{}".to_string()));
    assert_eq!(server.created_by, None);
    assert_eq!(server.created_at, server.updated_at);
    assert!(server.created_at > 1_577_836_800_000);
}

#[test]
fn default_user_signs_in_by_email() {
    let user = User::default();
    assert_eq!(user.id, "");
    assert_eq!(user.email, "");
    assert_eq!(user.password_hash, None);
    assert_eq!(user.role, UserRole::User);
    assert_eq!(user.provider, AuthProvider::Email);
    assert_eq!(user.profile_image_url, None);
    assert_eq!(user.last_login_at, None);
    assert_eq!(user.created_at, user.updated_at);
}

#[test]
fn log_levels_have_lowercase_names() {
    assert_eq!(LogLevel::Debug.to_string(), "debug");
    assert_eq!(LogLevel::Info.to_string(), "info");
    assert_eq!(LogLevel::Warning.to_string(), "warning");
    assert_eq!(LogLevel::Alert.to_string(), "alert");
    assert_eq!(LogLevel::Critical.to_string(), "critical");
}

#[test]
fn log_levels_are_read_in_any_case() {
    assert_eq!(LogLevel::from_str("debug").unwrap(), LogLevel::Debug);
    assert_eq!(LogLevel::from_str("INFO").unwrap(), LogLevel::Info);
    assert_eq!(LogLevel::from_str("Warning").unwrap(), LogLevel::Warning);
    assert_eq!("aLeRt".parse::<LogLevel>().unwrap(), LogLevel::Alert);
    assert_eq!(LogLevel::from_str("critical").unwrap(), LogLevel::Critical);
    assert_eq!(LogLevel::from_name("critical"), Some(LogLevel::Critical));
    assert_eq!(LogLevel::from_name("CRITICAL"), None);
}

#[test]
fn unknown_log_level_is_refused() {
    let error = LogLevel::from_str("Verbose").unwrap_err();
    assert_eq!(error.input, "Verbose");
    assert_eq!(error.message, "Expected one of: debug, info, warning, alert, critical");
    assert_eq!(
        error.to_string(),
        "Invalid log level 'Verbose': Expected one of: debug, info, warning, alert, critical"
    );
    let made = ParseLogLevelError { input: "x".to_string(), message: "y".to_string() };
    assert_eq!(made.to_string(), "Invalid log level 'x': y");
    assert!(LogLevel::from_str("").is_err());
    assert!(LogLevel::from_str(" info").is_err());
}

#[test]
fn metadata_of_a_stored_document() {
    let blank = LogMetadata { context: None, details: None };
    assert_eq!(LogMetadata::default(), blank);
    assert_eq!(LogMetadata::from_json(None), blank);
    assert_eq!(LogMetadata::from_json(Some("null".to_string())), blank);
    assert_eq!(LogMetadata::from_json(Some(" null ".to_string())), blank);
    let object = "{\"context\":\"startup\",\"pid\":7}";
    assert_eq!(
        LogMetadata::from_json(Some(object.to_string())),
        LogMetadata { context: Some("startup".to_string()), details: Some(object.to_string()) }
    );
    assert_eq!(
        LogMetadata::from_json(Some("{\"context\":7}".to_string())),
        LogMetadata { context: None, details: Some("{\"context\":7}".to_string()) }
    );
    assert_eq!(
        LogMetadata::from_json(Some("{\"pid\":7}".to_string())),
        LogMetadata { context: None, details: Some("{\"pid\":7}".to_string()) }
    );
    assert_eq!(
        LogMetadata::from_json(Some("[1,2]".to_string())),
        LogMetadata { context: None, details: Some("[1,2]".to_string()) }
    );
    assert_eq!(
        LogMetadata::from_json(Some("\"null\"".to_string())),
        LogMetadata { context: None, details: Some("\"null\"".to_string()) }
    );
}

#[test]
fn metadata_is_assembled_from_what_was_read() {
    let blank = LogMetadata { context: None, details: None };
    let text = |s: &str| Some(s.to_string());
    assert_eq!(LogMetadata::assemble(None, false, text("c")), blank);
    assert_eq!(LogMetadata::assemble(text("null"), true, text("c")), blank);
    assert_eq!(
        LogMetadata::assemble(text("{}"), false, text("c")),
        LogMetadata { context: text("c"), details: text("{}") }
    );
    assert_eq!(
        LogMetadata::assemble(text("{}"), false, None),
        LogMetadata { context: None, details: text("{}") }
    );
}

#[test]
fn new_log_entry_is_bare() {
    let entry = LogEntry::new(
        LogLevel::Warning,
        "disk almost full".to_string(),
        "collector".to_string(),
        Some("srv-1".to_string()),
    );
    assert_eq!(entry.id.len(), 36);
    assert_eq!(entry.level, LogLevel::Warning);
    assert_eq!(entry.message, "disk almost full");
    assert_eq!(entry.component, "collector");
    assert_eq!(entry.server_id, Some("srv-1".to_string()));
    assert!(entry.timestamp > 1_577_836_800_000);
    assert_eq!(entry.metadata, LogMetadata::default());
    assert_eq!(entry.stack_trace, None);
    assert_eq!(entry.source_location, None);
    assert_eq!(entry.correlation_id, None);
}

#[test]
fn log_entry_builders_set_one_field_each() {
    let entry = LogEntry::new(LogLevel::Info, "m".to_string(), "c".to_string(), None)
        .with_metadata("{\"k\":1}".to_string())
        .with_stack_trace("trace".to_string())
        .with_source_location("main.rs:1".to_string())
        .with_correlation_id("corr".to_string());
    assert_eq!(
        entry.metadata,
        LogMetadata { context: None, details: Some("{\"k\":1}".to_string()) }
    );
    assert_eq!(entry.stack_trace, Some("trace".to_string()));
    assert_eq!(entry.source_location, Some("main.rs:1".to_string()));
    assert_eq!(entry.correlation_id, Some("corr".to_string()));
    assert_eq!(entry.level, LogLevel::Info);
    assert_eq!(entry.message, "m");
    assert_eq!(entry.component, "c");
    assert_eq!(entry.server_id, None);
}

#[test]
fn log_entry_of_a_request() {
    let request = CreateLogRequest {
        level: LogLevel::Critical,
        message: "boom".to_string(),
        component: "api".to_string(),
        server_id: Some("srv-1".to_string()),
        metadata: Some("{\"context\":\"ignored\"}".to_string()),
        stack_trace: Some("trace".to_string()),
        source_location: None,
    };
    let entry = LogEntry::from_request(&request);
    assert_eq!(entry.id.len(), 36);
    assert_eq!(entry.level, LogLevel::Critical);
    assert_eq!(entry.message, "boom");
    assert_eq!(entry.component, "api");
    assert_eq!(entry.server_id, Some("srv-1".to_string()));
    assert_eq!(
        entry.metadata,
        LogMetadata { context: None, details: Some("{\"context\":\"ignored\"}".to_string()) }
    );
    assert_eq!(entry.stack_trace, Some("trace".to_string()));
    assert_eq!(entry.source_location, None);
    assert_eq!(entry.correlation_id, None);
}

#[test]
fn log_filter_builders() {
    let filter = LogFilter::new();
    assert!(filter.levels.is_none());
    assert!(filter.from.is_none() && filter.to.is_none());
    assert!(filter.server_id.is_none() && filter.component.is_none());
    assert!(filter.search.is_none());
    assert!(filter.limit.is_none() && filter.offset.is_none());
    let filter = LogFilter::new()
        .with_levels(vec![LogLevel::Alert, LogLevel::Critical])
        .with_timerange(10, 20)
        .with_server_id("srv-1".to_string())
        .with_component("api".to_string())
        .with_search("timeout".to_string())
        .with_pagination(50, 100);
    assert_eq!(filter.levels, Some(vec![LogLevel::Alert, LogLevel::Critical]));
    assert_eq!(filter.from, Some(10));
    assert_eq!(filter.to, Some(20));
    assert_eq!(filter.server_id, Some("srv-1".to_string()));
    assert_eq!(filter.component, Some("api".to_string()));
    assert_eq!(filter.search, Some("timeout".to_string()));
    assert_eq!(filter.limit, Some(50));
    assert_eq!(filter.offset, Some(100));
}

#[test]
fn default_configuration() {
    let config = ServerConfig::with_defaults("s3cret".to_string(), None, Some("bm9uY2U=".to_string()));
    assert_eq!(config.server.host, "127.0.0.1");
    assert_eq!(config.server.port, 8080);
    assert_eq!(config.server.cors_origins, vec!["http://localhost:3000".to_string()]);
    assert_eq!(config.database.url, "postgres://localhost/myapp");
    assert_eq!(config.database.max_connections, 5);
    assert_eq!(config.database.timeout_seconds, 30);
    assert_eq!(config.auth.jwt_secret, "s3cret");
    assert_eq!(config.auth.access_token_expire, 900);
    assert_eq!(config.auth.refresh_token_expire, 604_800);
    assert_eq!(config.auth.token_expiration_hours, 24);
    assert_eq!(config.monitoring.metrics_interval_seconds, 60);
    assert_eq!(config.monitoring.retention_days, 30);
    assert_eq!(config.monitoring.alert_thresholds.cpu_warning, 8_000);
    assert_eq!(config.monitoring.alert_thresholds.disk_critical, 9_000);
    assert_eq!(config.encryption.key, "your-32-byte-secret-key-here");
    assert_eq!(config.encryption.nonce, "bm9uY2U=");
}

#[test]
fn configuration_parts() {
    let auth = AuthConfig::with_secret("k".to_string());
    assert_eq!(auth.jwt_secret, "k");
    assert_eq!(auth.access_token_expire, 900);
    let encryption = EncryptionConfig::from_settings(Some("a".to_string()), None);
    assert_eq!(encryption.key, "a");
    assert_eq!(encryption.nonce, "unique-nonce12");
    let encryption = EncryptionConfig::from_settings(None, Some("n".to_string()));
    assert_eq!(encryption.key, "your-32-byte-secret-key-here");
    assert_eq!(encryption.nonce, "n");
}

#[test]
fn application_errors_have_texts_and_answers() {
    let cases = vec![
        (AppError::AuthError("a".to_string()), "Authentication error: a", 401, "unauthorized", "a"),
        (
            AppError::DatabaseError("pool closed".to_string()),
            "Database error: pool closed",
            500,
            "database_error",
            "Database error: pool closed",
        ),
        (
            AppError::ValidationError("v".to_string()),
            "Validation error: v",
            400,
            "validation_error",
            "v",
        ),
        (AppError::NotFound("n".to_string()), "Not found: n", 404, "not_found", "n"),
        (
            AppError::InternalError("i".to_string()),
            "Internal server error: i",
            500,
            "internal_server_error",
            "i",
        ),
        (AppError::BadRequest("b".to_string()), "Bad request: b", 400, "bad_request", "b"),
        (
            AppError::ExternalService("e".to_string()),
            "External service error: e",
            500,
            "external_service_error",
            "e",
        ),
    ];
    for (error, text, status, code, message) in cases {
        assert_eq!(error.to_string(), text);
        assert_eq!(error.status_code(), status);
        let response = error.error_response();
        assert_eq!(response.status, status);
        assert_eq!(response.error, code);
        assert_eq!(response.message, message);
    }
}

#[test]
fn monitoring_defaults() {
    let config = rust_server::config::MonitoringConfig::default();
    assert_eq!(config.sampling_interval_seconds, 1);
    assert_eq!(config.metrics_interval_seconds, 60);
    assert_eq!(config.retention_days, 30);
    assert_eq!(config.alert_thresholds, rust_server::config::AlertThresholds::default());
}

#[test]
fn conditions_of_an_empty_filter() {
    assert!(LogFilter::new().conditions().is_empty());
    assert!(LogFilter::new().deletion_conditions().is_empty());
}

#[test]
fn conditions_come_in_the_order_of_the_query() {
    let filter = LogFilter::new()
        .with_pagination(50, 100)
        .with_search("timeout".to_string())
        .with_component("api".to_string())
        .with_server_id("srv-1".to_string())
        .with_timerange(10, 20)
        .with_levels(vec![LogLevel::Alert, LogLevel::Critical]);
    assert_eq!(
        filter.conditions(),
        vec![
            LogCondition::Levels(vec!["alert".to_string(), "critical".to_string()]),
            LogCondition::From(10),
            LogCondition::To(20),
            LogCondition::Server("srv-1".to_string()),
            LogCondition::Component("api".to_string()),
            LogCondition::Search("timeout".to_string()),
            LogCondition::Limit(50),
            LogCondition::Offset(100),
        ]
    );
    assert_eq!(
        filter.deletion_conditions(),
        vec![
            LogCondition::From(10),
            LogCondition::To(20),
            LogCondition::Server("srv-1".to_string()),
            LogCondition::Component("api".to_string()),
        ]
    );
}

#[test]
fn unset_conditions_are_left_out() {
    let filter = LogFilter::new().with_server_id("srv-1".to_string());
    assert_eq!(filter.conditions(), vec![LogCondition::Server("srv-1".to_string())]);
    let mut filter = LogFilter::new().with_levels(Vec::new());
    filter.to = Some(9);
    filter.offset = Some(3);
    assert_eq!(
        filter.conditions(),
        vec![LogCondition::Levels(Vec::new()), LogCondition::To(9), LogCondition::Offset(3)]
    );
    assert_eq!(filter.deletion_conditions(), vec![LogCondition::To(9)]);
}

#[test]
fn names_at_the_crate_root() {
    let error: rust_server::AppError = AppError::NotFound("x".to_string());
    assert_eq!(error.status_code(), 404);
    let config: rust_server::config::Config =
        ServerConfig::with_defaults("k".to_string(), None, None);
    assert_eq!(config.server.port, 8080);
    let session = rust_server::websocket::WebSocketConnection::new(3);
    assert_eq!(session.last_heartbeat(), 3);
}
