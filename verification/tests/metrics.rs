use prometheus::Registry;
use turn_authenticator::metrics::{
    custom_metrics, register_custom_metrics, register_metric, registration_outcome, Metric,
};

fn names(registry: &Registry) -> Vec<String> {
    let mut names = Vec::new();
    for family in registry.gather() {
        names.push(family.name().to_string());
    }
    names
}

#[test]
fn custom_metrics_in_order_of_registration() {
    assert_eq!(
        custom_metrics(),
        vec![Metric::Connections, Metric::InBytes, Metric::OutBytes, Metric::ResponseTime]
    );
}

#[test]
fn names_and_help_texts() {
    assert_eq!(Metric::Connections.name(), "turn_connections");
    assert_eq!(Metric::InBytes.name(), "turn_traffic_in_bytes");
    assert_eq!(Metric::OutBytes.name(), "turn_traffic_out_bytes_total");
    assert_eq!(Metric::ResponseTime.name(), "response_time");
    assert_eq!(
        Metric::Connections.help(),
        "Number of connections established through the TURN server"
    );
    assert_eq!(
        Metric::InBytes.help(),
        "Amount of data (in bytes) received through the TURN server each second"
    );
    assert_eq!(
        Metric::OutBytes.help(),
        "Amount of data (in bytes) transmitted through the TURN server each second"
    );
    assert_eq!(Metric::ResponseTime.help(), "Response Times");
    assert!(Metric::ResponseTime.is_histogram());
    assert!(!Metric::Connections.is_histogram());
    assert!(!Metric::InBytes.is_histogram());
    assert!(!Metric::OutBytes.is_histogram());
}

#[test]
fn register_custom_metrics_on_a_new_registry() {
    let registry = Registry::new();
    assert!(register_custom_metrics(&registry).is_ok());
    let names = names(&registry);
    assert!(names.contains(&"turn_connections".to_string()));
    assert!(names.contains(&"turn_traffic_in_bytes".to_string()));
    assert!(names.contains(&"turn_traffic_out_bytes_total".to_string()));
}

#[test]
fn register_custom_metrics_twice_fails_at_the_first_collector() {
    let registry = Registry::new();
    assert!(register_custom_metrics(&registry).is_ok());
    let error = register_custom_metrics(&registry).expect_err("registered already");
    assert_eq!(error.metric, Metric::Connections);
    assert!(matches!(error.source, prometheus::Error::AlreadyReg));
}

#[test]
fn registration_stops_at_the_collector_that_fails() {
    let registry = Registry::new();
    assert!(register_metric(&registry, Metric::OutBytes).is_ok());
    let error = register_custom_metrics(&registry).expect_err("one is registered already");
    assert_eq!(error.metric, Metric::OutBytes);
    let names = names(&registry);
    assert!(names.contains(&"turn_connections".to_string()));
    assert!(names.contains(&"turn_traffic_in_bytes".to_string()));
    assert!(register_metric(&registry, Metric::ResponseTime).is_ok());
    assert!(register_metric(&registry, Metric::ResponseTime).is_err());
}

#[test]
fn registration_outcome_keeps_the_error() {
    assert!(registration_outcome(Metric::InBytes, Ok(())).is_ok());
    let error = registration_outcome(Metric::InBytes, Err(prometheus::Error::AlreadyReg))
        .expect_err("the error is kept");
    assert_eq!(error.metric, Metric::InBytes);
    assert!(matches!(error.source, prometheus::Error::AlreadyReg));
}
