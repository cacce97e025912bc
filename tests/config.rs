use health_monitor::checker::CheckerPhase;
use health_monitor::config::{ConfigError, GlobalSettings, ServiceConfiguration, ServiceSettings};
use health_monitor::status::ServiceType;

fn service(name: &str, url: &str) -> ServiceSettings {
    ServiceSettings {
        name: name.to_string(),
        url: url.to_string(),
        check_interval_seconds: None,
        timeout_seconds: None,
        response_code: None,
        service_type: ServiceType::Http,
        headers: vec![],
    }
}

#[test]
fn global_defaults() {
    let g = GlobalSettings::default();
    assert_eq!(g.check_interval_seconds, 60);
    assert_eq!(g.timeout_seconds, 5);
}

#[test]
fn one_checker_per_service_with_defaults_applied() {
    let mut db = service("db", "postgres://db");
    db.service_type = ServiceType::Db;
    db.check_interval_seconds = Some(15);
    db.timeout_seconds = Some(2);
    db.response_code = Some(204);
    db.headers = vec!["X-A: 1".to_string(), "X-B: 2".to_string()];
    let config = ServiceConfiguration {
        global: GlobalSettings { check_interval_seconds: 45, timeout_seconds: 3 },
        services: vec![service("web", "http://web"), db],
    };
    let cs = config.build_checkers().unwrap();
    assert_eq!(cs.len(), 2);
    assert_eq!(cs[0].name, "web");
    assert_eq!(cs[0].url, "http://web");
    assert_eq!(cs[0].interval_seconds, 45);
    assert_eq!(cs[0].timeout, 3);
    assert_eq!(cs[0].response_code, None);
    assert_eq!(cs[0].service_type, ServiceType::Http);
    assert_eq!(cs[1].name, "db");
    assert_eq!(cs[1].interval_seconds, 15);
    assert_eq!(cs[1].timeout, 2);
    assert_eq!(cs[1].response_code, Some(204));
    assert_eq!(cs[1].headers, vec!["X-A: 1".to_string(), "X-B: 2".to_string()]);
    assert_eq!(cs[1].service_type, ServiceType::Db);
    assert_eq!(cs[1].phase, CheckerPhase::Idle);
    assert_eq!(cs[1].next_due_ms, 0);
}

#[test]
fn empty_configuration_gives_no_checkers() {
    let config = ServiceConfiguration { global: GlobalSettings::default(), services: vec![] };
    assert_eq!(config.build_checkers().unwrap().len(), 0);
}

#[test]
fn defective_services_are_refused() {
    let g = GlobalSettings::default();
    let c = ServiceConfiguration { global: g.clone(), services: vec![service("a", "http://a"), service("", "http://b")] };
    assert_eq!(c.build_checkers().unwrap_err(), ConfigError::EmptyName { index: 1 });
    let c = ServiceConfiguration { global: g.clone(), services: vec![service("a", "")] };
    assert_eq!(c.build_checkers().unwrap_err(), ConfigError::EmptyUrl { index: 0 });
    let mut s = service("a", "http://a");
    s.check_interval_seconds = Some(0);
    let c = ServiceConfiguration { global: g.clone(), services: vec![s] };
    assert_eq!(c.build_checkers().unwrap_err(), ConfigError::ZeroInterval { index: 0 });
    let c = ServiceConfiguration {
        global: GlobalSettings { check_interval_seconds: 10, timeout_seconds: 0 },
        services: vec![service("a", "http://a")],
    };
    assert_eq!(c.build_checkers().unwrap_err(), ConfigError::ZeroTimeout { index: 0 });
}

#[test]
fn first_defect_is_reported() {
    let mut s = service("", "");
    s.timeout_seconds = Some(0);
    let c = ServiceConfiguration { global: GlobalSettings::default(), services: vec![s, service("", "x")] };
    assert_eq!(c.build_checkers().unwrap_err(), ConfigError::EmptyName { index: 0 });
}
