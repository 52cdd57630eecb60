//! Admission-control scenarios: body-size ceiling, missing-id rejection,
//! token-bucket quotas, CORS selection, and decimal rendering.

use json_rpc::envelope::{Id, Request};
use json_rpc::limiter::{ConfigLimit, TokenBucket};
use json_rpc::network::Network;
use json_rpc::numfmt::{i64_to_dec_string, u64_to_dec_string};
use json_rpc::registry::RequestHandlersBuilder;
use json_rpc::rejections::{check_body_size, check_id_present, HttpRejection};
use json_rpc::server::{
    build_method_limiters, limit_for, new_speculative_server, new_standard_server,
    select_cors_origin, AdmissionOutcome, CorsOrigin,
};

fn request(method: &str, id: Option<Id>) -> Request {
    Request {
        method: method.to_string(),
        id,
        params: None,
    }
}

#[test]
fn oversized_body_is_rejected_with_the_ceiling() {
    match check_body_size(2_000_000, 1_000_000) {
        Err(HttpRejection::BodyTooLarge(limit)) => {
            assert_eq!(limit, 1_000_000);
            assert_eq!(
                HttpRejection::BodyTooLarge(limit).message().as_str(),
                "The request payload exceeds the maximum allowed of 1000000 bytes"
            );
        }
        _ => panic!("a 2,000,000-byte body must be rejected under a 1,000,000-byte ceiling"),
    }
    assert!(check_body_size(1_000_000, 1_000_000).is_ok());
}

#[test]
fn missing_id_is_rejected_at_the_http_level() {
    match check_id_present(&None) {
        Err(HttpRejection::MissingId) => {
            assert_eq!(
                HttpRejection::MissingId.message().as_str(),
                "The request is missing the 'id' field"
            );
        }
        _ => panic!("a message without an id must be rejected"),
    }
    assert!(check_id_present(&Some(Id::Num(1))).is_ok());
}

#[test]
fn token_bucket_grants_exactly_the_burst() {
    // ConfigLimit { rate: 2, burst: 3 }: three instantaneous grants, the
    // fourth refused, one more after half a second.
    let t: u64 = 1_000;
    let mut bucket = TokenBucket::new(2, 3, t);
    assert!(bucket.try_acquire(t));
    assert!(bucket.try_acquire(t));
    assert!(bucket.try_acquire(t));
    assert!(!bucket.try_acquire(t));

    // 1/rate seconds minus one nanosecond is not yet a whole token.
    let mut early = bucket;
    assert!(!early.try_acquire(t + 499_999_999));
    assert!(bucket.try_acquire(t + 500_000_000));
}

#[test]
fn fractional_replenishment_is_not_discarded() {
    // rate 2/s, burst 2, drained at t: 750ms earns one whole token and the
    // leftover 250ms stays banked, so 250ms more completes the next one.
    let t: u64 = 0;
    let mut bucket = TokenBucket::new(2, 2, t);
    assert!(bucket.try_acquire(t));
    assert!(bucket.try_acquire(t));
    assert!(!bucket.try_acquire(t));
    assert!(bucket.try_acquire(t + 750_000_000));
    assert!(bucket.try_acquire(t + 1_000_000_000));
    assert!(!bucket.try_acquire(t + 1_000_000_000));
}

#[test]
fn methods_without_a_limit_are_unrestricted() {
    let limits = vec![(
        "speculative_exec".to_string(),
        ConfigLimit::Limited { rate: 1, burst: 1 },
    )];
    assert!(matches!(
        limit_for(&limits, &"speculative_exec".to_string()),
        ConfigLimit::Limited { rate: 1, burst: 1 }
    ));
    assert!(matches!(
        limit_for(&limits, &"get_status".to_string()),
        ConfigLimit::Unlimited
    ));

    let methods = vec!["speculative_exec".to_string(), "get_status".to_string()];
    let mut limiters = build_method_limiters(&methods, &limits, 0);
    assert!(limiters.try_admit(&"speculative_exec".to_string(), 0));
    assert!(!limiters.try_admit(&"speculative_exec".to_string(), 0));
    // The unrestricted method is untouched by the drained bucket.
    assert!(limiters.try_admit(&"get_status".to_string(), 0));
    assert!(limiters.try_admit(&"get_status".to_string(), 0));
}

#[test]
fn standard_server_enforces_the_global_quota() {
    let mut builder = RequestHandlersBuilder::new();
    builder.register_handler("get_status".to_string(), 0);
    let handlers = builder.build();
    let methods = vec!["get_status".to_string()];
    let limits: Vec<(String, ConfigLimit)> = Vec::new();

    let mut server =
        new_standard_server(handlers, &methods, &limits, 1, 1_000_000, String::new(), 0);
    let req = request("get_status", Some(Id::Num(1)));
    assert!(matches!(
        server.try_admit(&req, 100, 0),
        AdmissionOutcome::Admitted
    ));
    assert!(matches!(
        server.try_admit(&req, 100, 0),
        AdmissionOutcome::OverQuota
    ));
}

#[test]
fn speculative_server_rejects_transport_failures_before_quota() {
    let mut builder = RequestHandlersBuilder::new();
    builder.register_handler("speculative_exec_txn".to_string(), 0);
    let handlers = builder.build();
    let methods = vec!["speculative_exec_txn".to_string()];
    let limits = vec![(
        "speculative_exec_txn".to_string(),
        ConfigLimit::Limited { rate: 1, burst: 2 },
    )];

    let mut server = new_speculative_server(
        handlers,
        &methods,
        &limits,
        1_000_000,
        "*".to_string(),
        0,
    );
    assert!(matches!(server.cors, Some(CorsOrigin::Any)));

    // Oversized body: HTTP-level rejection, no quota spent, no envelope.
    let req = request("speculative_exec_txn", Some(Id::Num(1)));
    assert!(matches!(
        server.try_admit(&req, 2_000_000, 0),
        AdmissionOutcome::Rejected(HttpRejection::BodyTooLarge(1_000_000))
    ));
    // Missing id: HTTP-level rejection, no quota spent.
    let notification = request("speculative_exec_txn", None);
    assert!(matches!(
        server.try_admit(&notification, 100, 0),
        AdmissionOutcome::Rejected(HttpRejection::MissingId)
    ));
    // The per-method burst of 2 is still intact.
    assert!(matches!(
        server.try_admit(&req, 100, 0),
        AdmissionOutcome::Admitted
    ));
    assert!(matches!(
        server.try_admit(&req, 100, 0),
        AdmissionOutcome::Admitted
    ));
    assert!(matches!(
        server.try_admit(&req, 100, 0),
        AdmissionOutcome::OverQuota
    ));
}

#[test]
fn cors_policy_follows_the_configured_origin() {
    assert!(select_cors_origin(String::new()).is_none());
    assert!(matches!(
        select_cors_origin("*".to_string()),
        Some(CorsOrigin::Any)
    ));
    match select_cors_origin("https://example.com".to_string()) {
        Some(CorsOrigin::Specified(origin)) => assert_eq!(origin.as_str(), "https://example.com"),
        _ => panic!("a non-empty, non-wildcard origin must be kept as given"),
    }
}

#[test]
fn decimal_rendering_is_exact() {
    assert_eq!(u64_to_dec_string(0).as_str(), "0");
    assert_eq!(u64_to_dec_string(1_000_000).as_str(), "1000000");
    assert_eq!(u64_to_dec_string(18446744073709551615).as_str(), "18446744073709551615");
    assert_eq!(i64_to_dec_string(-32601).as_str(), "-32601");
    assert_eq!(i64_to_dec_string(0).as_str(), "0");
    assert_eq!(i64_to_dec_string(i64::MIN).as_str(), "-9223372036854775808");
}

#[test]
fn network_names_are_stable() {
    assert_eq!(Network::Mainnet.as_str(), "Mainnet");
    assert_eq!(Network::Testnet.as_str(), "Testnet");
    assert_eq!(Network::Local.as_str(), "Local");
}

#[test]
fn extreme_sizes_and_times_are_handled() {
    // The largest representable body passes the largest ceiling.
    assert!(check_body_size(u64::MAX, u64::MAX).is_ok());
    match check_body_size(u64::MAX, u64::MAX - 1) {
        Err(HttpRejection::BodyTooLarge(limit)) => assert_eq!(limit, u64::MAX - 1),
        _ => panic!("a body one byte over the ceiling must be rejected"),
    }

    // A bucket asked for a token after an enormous wait simply refills.
    let mut bucket = TokenBucket::new(u64::MAX, u64::MAX, 0);
    assert!(bucket.try_acquire(u64::MAX));
    let mut slow = TokenBucket::new(1, 1, 0);
    assert!(slow.try_acquire(0));
    assert!(!slow.try_acquire(999_999_999));
    assert!(slow.try_acquire(u64::MAX));
}

#[test]
fn a_clock_running_backwards_grants_nothing_extra() {
    let mut bucket = TokenBucket::new(1, 1, 1_000_000_000);
    assert!(bucket.try_acquire(1_000_000_000));
    // An earlier reading replenishes nothing.
    assert!(!bucket.try_acquire(500));
}
