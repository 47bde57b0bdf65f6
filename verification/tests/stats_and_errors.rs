use config_cache_proxy::config::redis_connection_url;
use config_cache_proxy::config::RedisConfig;
use config_cache_proxy::digits::u64_to_dec_string;
use config_cache_proxy::errors::AppError;
use config_cache_proxy::runtime::RuntimeStats;

#[test]
fn stats_start_at_zero_with_the_given_start_time() {
    let stats = RuntimeStats::new(1_700_000_000_000);
    let info = stats.to_info();
    assert_eq!(info.request_count, 0);
    assert_eq!(info.cache_hit_count, 0);
    assert_eq!(info.start_unix_time, 1_700_000_000_000);
}

#[test]
fn increments_touch_exactly_one_counter() {
    let mut stats = RuntimeStats::new(5);
    stats.increment_request_count();
    stats.increment_request_count();
    stats.increment_cache_hit_count();
    let info = stats.to_info();
    assert_eq!(info.request_count, 2);
    assert_eq!(info.cache_hit_count, 1);
    assert_eq!(info.start_unix_time, 5);
}

#[test]
fn decimal_rendering_is_exact() {
    assert_eq!(u64_to_dec_string(0), "0");
    assert_eq!(u64_to_dec_string(7), "7");
    assert_eq!(u64_to_dec_string(10), "10");
    assert_eq!(u64_to_dec_string(8080), "8080");
    assert_eq!(u64_to_dec_string(u64::MAX), "18446744073709551615");
}

#[test]
fn connection_url_is_composed_exactly() {
    let cfg = RedisConfig {
        address: "redis.internal".to_string(),
        port: 6379,
        password: "SECRET-REDACTED".to_string(),
        cache_expire_time: 600,
    };
    assert_eq!(
        redis_connection_url(&cfg),
        "redis://:SECRET-REDACTED@redis.internal:6379/0"
    );
}

#[test]
fn every_error_maps_to_its_stable_code() {
    let cases: Vec<(AppError, &str, u16)> = vec![
        (AppError::Redis("pool".to_string()), "REDIS_ERROR", 500),
        (AppError::RedisCommand("cmd".to_string()), "REDIS_ERROR", 500),
        (AppError::Config("bad".to_string()), "CONFIG_ERROR", 400),
        (AppError::HttpClient("io".to_string()), "HTTP_CLIENT_ERROR", 500),
        (AppError::Io("file".to_string()), "IO_ERROR", 500),
        (AppError::Serialization("yaml".to_string()), "SERIALIZATION_ERROR", 500),
        (AppError::Cache("miss".to_string()), "CACHE_ERROR", 500),
        (
            AppError::Proxy { status: 404, url: "http://cfgserver/a.yml".to_string() },
            "PROXY_ERROR",
            502,
        ),
        (AppError::Internal("bug".to_string()), "INTERNAL_ERROR", 500),
        (AppError::NotFound("home".to_string()), "NOT_FOUND", 404),
    ];
    for (error, code, status) in cases {
        assert_eq!(error.error_code(), code);
        assert_eq!(error.status_code(), status);
    }
}
