use health_service::DatabaseConfig;
use health_service::HealthStatus;
use health_service::connect_database_with;
use health_service::health_check;
use health_service::health_check_db;

#[test]
fn test_health_check() {
    let status = health_check();
    assert_eq!(status, HealthStatus::Healthy);
}

#[test]
fn health_check_db_works() {
    // A reachable, responsive database answers the trivial query.
    let status = health_check_db(true);
    assert_eq!(status, HealthStatus::Healthy);
}

#[test]
fn liveness_maps_to_200() {
    assert_eq!(health_check().code(), 200);
}

#[test]
fn readiness_maps_to_200_when_database_answers() {
    assert_eq!(health_check_db(true).code(), 200);
}

#[test]
fn readiness_maps_to_500_when_database_is_unreachable() {
    // Connection refused, auth failure, timeout and query error all arrive
    // here the same way: the query did not succeed.
    let status = health_check_db(false);
    assert_eq!(status, HealthStatus::InternalError);
    assert_eq!(status.code(), 500);
}

#[test]
fn repeated_checks_give_identical_results() {
    assert_eq!(health_check(), health_check());
    assert_eq!(health_check_db(true), health_check_db(true));
    assert_eq!(health_check_db(false), health_check_db(false));
}

#[test]
fn config_keeps_parameters_verbatim() {
    let cfg = DatabaseConfig::new(
        String::from("localhost"),
        5432,
        String::from("app"),
        String::from("passwd"),
        String::from("app"),
    );
    assert_eq!(cfg.host, "localhost");
    assert_eq!(cfg.port, 5432);
    assert_eq!(cfg.username, "app");
    assert_eq!(cfg.password, "passwd");
    assert_eq!(cfg.database, "app");
}

#[test]
fn lazy_pool_construction_does_not_error() {
    // Port 1 on loopback: nothing is listening there, so any connection
    // attempt would be refused. Construction must still succeed, because the
    // pool connects only on first use — and it needs no async runtime either.
    let cfg = DatabaseConfig::new(
        String::from("127.0.0.1"),
        1,
        String::from("app"),
        String::from("passwd"),
        String::from("app"),
    );
    let db = connect_database_with(cfg);
    drop(db);
}
