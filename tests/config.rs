use farms::config::{
    default_idempotency_settings_redis_key_prefix, default_idempotency_settings_ttl_seconds,
    Environment, IdempotencyEngine, IdempotencySettings,
};

#[test]
fn defaults_are_ten_minutes_and_idem() {
    assert_eq!(default_idempotency_settings_ttl_seconds(), 600);
    assert_eq!(default_idempotency_settings_redis_key_prefix(), "idem");
}

#[test]
fn environment_names_round_trip() {
    assert_eq!(Environment::Local.as_str(), "local");
    assert_eq!(Environment::Production.as_str(), "production");
    assert_eq!(Environment::try_from("LOCAL".to_string()), Ok(Environment::Local));
    assert_eq!(Environment::try_from("Production".to_string()), Ok(Environment::Production));
}

#[test]
fn unknown_environment_is_explained() {
    assert_eq!(
        Environment::try_from("Staging".to_string()),
        Err("staging is not supported environment.Use either `local` or `production`.".to_string())
    );
}

#[test]
fn engine_names_round_trip() {
    assert_eq!(IdempotencyEngine::Disabled.as_str(), "none");
    assert_eq!(IdempotencyEngine::Redis.as_str(), "redis");
    assert_eq!(IdempotencyEngine::Postgres.as_str(), "postgres");
    assert_eq!(IdempotencyEngine::try_from("NONE".to_string()), Ok(IdempotencyEngine::Disabled));
    assert_eq!(IdempotencyEngine::try_from("Redis".to_string()), Ok(IdempotencyEngine::Redis));
    assert_eq!(
        IdempotencyEngine::try_from("postgres".to_string()),
        Ok(IdempotencyEngine::Postgres)
    );
}

#[test]
fn unknown_engine_is_explained() {
    assert_eq!(
        IdempotencyEngine::try_from("Memcached".to_string()),
        Err("'memcached' is not a supported Idempotency engine.Use 'redis', 'postgres' or 'none' to disable IdempotencyWarning: postgres engine is currently untested".to_string())
    );
}

#[test]
fn settings_need_a_positive_time_to_live() {
    assert!(IdempotencySettings::new(IdempotencyEngine::Redis, 0, "idem".to_string()).is_none());
    let s = IdempotencySettings::new(IdempotencyEngine::Redis, 1, "p".to_string()).unwrap();
    assert_eq!(s.ttl_seconds, 1);
    assert_eq!(s.engine, IdempotencyEngine::Redis);
    assert_eq!(s.redis_key_prefix, "p");
}
