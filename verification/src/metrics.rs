//! The collectors that the server exports, and their registration.

use prometheus::Registry;
use vstd::prelude::*;

verus! {

/// `prometheus::Registry`, of which nothing is known here.
#[verifier::external_type_specification]
#[verifier::external_body]
pub struct ExRegistry(prometheus::Registry);

/// `prometheus::Error`, of which nothing is known here.
#[verifier::external_type_specification]
#[verifier::external_body]
pub struct ExError(prometheus::Error);

/// A collector of the server.
#[derive(Clone, Copy, Debug, PartialEq, Eq, Structural)]
pub enum Metric {
    /// A gauge: the connections established through the server.
    Connections,
    /// A gauge: the bytes received each second.
    InBytes,
    /// A gauge: the bytes transmitted each second.
    OutBytes,
    /// A histogram without labels: the response times.
    ResponseTime,
}

/// The name under which a collector is exported.
pub open spec fn spec_name(metric: Metric) -> Seq<char> {
    match metric {
        Metric::Connections => "turn_connections"@,
        Metric::InBytes => "turn_traffic_in_bytes"@,
        Metric::OutBytes => "turn_traffic_out_bytes_total"@,
        Metric::ResponseTime => "response_time"@,
    }
}

/// The help text of a collector.
pub open spec fn spec_help(metric: Metric) -> Seq<char> {
    match metric {
        Metric::Connections => "Number of connections established through the TURN server"@,
        Metric::InBytes =>
            "Amount of data (in bytes) received through the TURN server each second"@,
        Metric::OutBytes =>
            "Amount of data (in bytes) transmitted through the TURN server each second"@,
        Metric::ResponseTime => "Response Times"@,
    }
}

/// The collectors in the order in which they are registered.
pub open spec fn spec_custom_metrics() -> Seq<Metric> {
    seq![Metric::Connections, Metric::InBytes, Metric::OutBytes, Metric::ResponseTime]
}

impl Metric {
    /// The name under which the collector is exported.
    pub fn name(&self) -> (name: &'static str)
        ensures
            name@ == spec_name(*self),
    {
        match self {
            Metric::Connections => "turn_connections",
            Metric::InBytes => "turn_traffic_in_bytes",
            Metric::OutBytes => "turn_traffic_out_bytes_total",
            Metric::ResponseTime => "response_time",
        }
    }

    /// The help text of the collector.
    pub fn help(&self) -> (help: &'static str)
        ensures
            help@ == spec_help(*self),
    {
        match self {
            Metric::Connections => "Number of connections established through the TURN server",
            Metric::InBytes =>
                "Amount of data (in bytes) received through the TURN server each second",
            Metric::OutBytes =>
                "Amount of data (in bytes) transmitted through the TURN server each second",
            Metric::ResponseTime => "Response Times",
        }
    }

    /// Whether the collector is a histogram; the others are gauges.
    pub fn is_histogram(&self) -> (histogram: bool)
        ensures
            histogram == (*self == Metric::ResponseTime),
    {
        match self {
            Metric::ResponseTime => true,
            _ => false,
        }
    }
}

/// The collectors in the order in which they are registered.
pub fn custom_metrics() -> (metrics: Vec<Metric>)
    ensures
        metrics@ == spec_custom_metrics(),
{
    let mut metrics: Vec<Metric> = Vec::new();
    metrics.push(Metric::Connections);
    metrics.push(Metric::InBytes);
    metrics.push(Metric::OutBytes);
    metrics.push(Metric::ResponseTime);
    assert(metrics@ =~= spec_custom_metrics());
    metrics
}

/// A collector that could not be made or that the registry refused.
#[derive(Debug)]
pub struct MetricsError {
    /// The collector that failed. Those before it are registered, those
    /// after it were not tried.
    pub metric: Metric,
    /// What the registry reported.
    pub source: prometheus::Error,
}

/// Calls `prometheus::Gauge::new` with the name and the help text, then
/// `Registry::register` with the gauge. Either call may fail: nothing is
/// claimed of the result.
#[verifier::external_body]
fn register_gauge(registry: &Registry, name: &str, help: &str) -> (registered: Result<
    (),
    prometheus::Error,
>) {
    let gauge = prometheus::Gauge::new(name, help)?;
    registry.register(Box::new(gauge))
}

/// Calls `prometheus::HistogramVec::new` with options made by
/// `HistogramOpts::new` of the name and the help text and without labels,
/// then `Registry::register` with the histogram. Either call may fail:
/// nothing is claimed of the result.
#[verifier::external_body]
fn register_histogram(registry: &Registry, name: &str, help: &str) -> (registered: Result<
    (),
    prometheus::Error,
>) {
    let options = prometheus::HistogramOpts::new(name, help);
    let histogram = prometheus::HistogramVec::new(options, &[])?;
    registry.register(Box::new(histogram))
}

/// What the registration of `metric` comes to, given what the registry
/// reported: its error is kept, with the collector that it is about.
pub fn registration_outcome(metric: Metric, registered: Result<(), prometheus::Error>) -> (outcome:
    Result<(), MetricsError>)
    ensures
        outcome is Ok <==> registered is Ok,
        registered matches Err(source) ==> outcome matches Err(error) && error.metric == metric
            && error.source == source,
{
    match registered {
        Ok(()) => Ok(()),
        Err(source) => Err(MetricsError { metric, source }),
    }
}

/// Makes the collector of `metric` under its name and with its help text,
/// and registers it on `registry`.
pub fn register_metric(registry: &Registry, metric: Metric) -> (outcome: Result<(), MetricsError>)
    ensures
        outcome matches Err(error) ==> error.metric == metric,
{
    let registered = if metric.is_histogram() {
        register_histogram(registry, metric.name(), metric.help())
    } else {
        register_gauge(registry, metric.name(), metric.help())
    };
    registration_outcome(metric, registered)
}

/// Registers the custom collectors on `registry`, in the order of
/// `custom_metrics`, and stops at the first that fails.
pub fn register_custom_metrics(registry: &Registry) -> (outcome: Result<(), MetricsError>)
    ensures
        outcome matches Err(error) ==> spec_custom_metrics().contains(error.metric),
{
    let metrics = custom_metrics();
    let mut i: usize = 0;
    while i < metrics.len()
        invariant
            i <= metrics.len(),
            metrics@ == spec_custom_metrics(),
        decreases metrics.len() - i,
    {
        match register_metric(registry, metrics[i]) {
            Ok(()) => {},
            Err(error) => {
                return Err(error);
            },
        }
        i += 1;
    }
    Ok(())
}

} // verus!
