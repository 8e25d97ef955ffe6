use mongodb_redis::bot_error::SolarSystemInfoBotError;
use mongodb_redis::errors::CustomError;
use mongodb_redis::text::decimal_text;

#[test]
fn error_names_per_kind() {
    let cases = vec![
        (CustomError::MongoDbError { message: "m".to_string() }, "MongoDB error", 500u16),
        (CustomError::RedisError { message: "r".to_string() }, "Redis error", 500),
        (CustomError::NotFound { message: "n".to_string() }, "Resource not found", 404),
        (CustomError::InternalError, "Internal error", 500),
        (CustomError::TooManyRequests { actual_count: 11, permitted_count: 10 }, "Too many requests", 429),
    ];
    for (e, name, status) in cases {
        assert_eq!(e.name(), name);
        assert_eq!(e.status_code(), status);
    }
}

#[test]
fn error_messages() {
    assert_eq!(CustomError::NotFound { message: "gone".to_string() }.message(), "gone");
    assert_eq!(CustomError::MongoDbError { message: "db down".to_string() }.message(), "db down");
    assert_eq!(CustomError::RedisError { message: "cache down".to_string() }.message(), "cache down");
    assert_eq!(CustomError::InternalError.message(), "InternalError");
    assert_eq!(
        CustomError::TooManyRequests { actual_count: 11, permitted_count: 10 }.message(),
        "Actual requests count: 11. Permitted requests count: 10"
    );
}

#[test]
fn decimal_text_values() {
    assert_eq!(decimal_text(0), "0");
    assert_eq!(decimal_text(7), "7");
    assert_eq!(decimal_text(59), "59");
    assert_eq!(decimal_text(100200), "100200");
    assert_eq!(decimal_text(u64::MAX), u64::MAX.to_string());
}

#[test]
fn bot_error_keeps_its_text() {
    let e = SolarSystemInfoBotError::new("Planet with name pluto not found");
    assert_eq!(e.message(), "Planet with name pluto not found");
    assert_eq!(SolarSystemInfoBotError::new("").message(), "");
}
