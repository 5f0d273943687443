//! Configuration of the two request series, and the build that creates and
//! registers them.

use crate::buckets::acceptable;
use crate::buckets::check_buckets;
use crate::buckets::default_bounds;
use crate::buckets::default_buckets;
use crate::buckets::first_disorder;
use crate::error::CollectorFault;
use crate::error::MetricsError;
use crate::metrics::MiddlewareInstance;
use crate::metrics::PrometheusMetrics;
use crate::metrics::PrometheusMetricsRegistry;
use crate::prom::counters_description;
use crate::prom::describable;
use crate::prom::durations_description;
use crate::prom::fault_of;
use crate::prom::observable;
use crate::prom::take_samples;
use crate::prom::HistogramDescription;
use crate::prom::RequestCounters;
use crate::prom::RequestDurations;
use crate::prom::SeriesDescription;
use std::collections::HashMap;
use vstd::prelude::*;
use vstd::slice::slice_to_vec;

verus! {

/// The path that the scrape is served on unless another is configured.
pub const DEFAULT_ENDPOINT: &'static str = "/metrics";

/// Name of the request counter, before the namespace is put in front.
pub const COUNTER_NAME: &'static str = "http_requests_total";

/// Help text of the request counter.
pub const COUNTER_HELP: &'static str = "Total number of HTTP requests";

/// Name of the duration histogram, before the namespace is put in front.
pub const HISTOGRAM_NAME: &'static str = "http_requests_duration_seconds";

/// Help text of the duration histogram.
pub const HISTOGRAM_HELP: &'static str = "HTTP request duration in seconds for all requests";

/// Name of the label that holds the route.
pub const ENDPOINT_LABEL: &'static str = "endpoint";

/// Name of the label that holds the request method.
pub const METHOD_LABEL: &'static str = "method";

/// Name of the label that holds the response status.
pub const STATUS_LABEL: &'static str = "status";

/// What a builder holds, as a mathematical value.
pub struct MetricsConfiguration {
    /// Put in front of both series names.
    pub namespace: Seq<char>,
    /// The scrape path; `None` switches self-exclusion off.
    pub endpoint: Option<Seq<char>>,
    /// Labels that every sample carries.
    pub const_labels: Map<String, String>,
    /// The registry that the series go to.
    pub registry: prometheus::Registry,
    /// Bucket bounds of the histogram, in nanoseconds.
    pub buckets: Seq<u64>,
}

/// Collects the configuration of the request series.
pub struct PrometheusMetricsBuilder {
    namespace: String,
    endpoint: Option<String>,
    const_labels: HashMap<String, String>,
    registry: prometheus::Registry,
    buckets: Vec<u64>,
}

impl View for PrometheusMetricsBuilder {
    type V = MetricsConfiguration;

    closed spec fn view(&self) -> MetricsConfiguration {
        MetricsConfiguration {
            namespace: self.namespace@,
            endpoint: self.endpoint.deep_view(),
            const_labels: self.const_labels@,
            registry: self.registry,
            buckets: self.buckets@,
        }
    }
}

/// The request counter that a configuration asks for.
pub open spec fn counter_of(configuration: MetricsConfiguration) -> SeriesDescription {
    SeriesDescription {
        namespace: configuration.namespace,
        name: COUNTER_NAME@,
        help: COUNTER_HELP@,
        const_labels: configuration.const_labels,
        label_names: seq![ENDPOINT_LABEL@, METHOD_LABEL@, STATUS_LABEL@],
    }
}

/// The duration histogram that a configuration asks for.
pub open spec fn histogram_of(configuration: MetricsConfiguration) -> HistogramDescription {
    HistogramDescription {
        series: SeriesDescription {
            namespace: configuration.namespace,
            name: HISTOGRAM_NAME@,
            help: HISTOGRAM_HELP@,
            const_labels: configuration.const_labels,
            label_names: seq![ENDPOINT_LABEL@, METHOD_LABEL@, STATUS_LABEL@],
        },
        buckets: configuration.buckets,
    }
}

/// Whether the collector library makes both series of a configuration.
pub open spec fn buildable(configuration: MetricsConfiguration) -> bool {
    &&& describable(counter_of(configuration))
    &&& describable(histogram_of(configuration).series)
    &&& observable(histogram_of(configuration))
}

/// Registers the counter, then the histogram, and stops at the first refusal.
fn register_both(
    registry: &prometheus::Registry,
    counters: &RequestCounters,
    durations: &RequestDurations,
) -> (registered: Result<(), CollectorFault>) {
    match counters.clone().register(registry) {
        Err(error) => Err(fault_of(error)),
        Ok(()) => match durations.clone().register(registry) {
            Err(error) => Err(fault_of(error)),
            Ok(()) => Ok(()),
        },
    }
}

impl PrometheusMetricsBuilder {
    /// A configuration with the given namespace, the default scrape path, no
    /// constant labels, the default bucket bounds and a registry of its own.
    #[must_use]
    pub fn new(namespace: &str) -> (builder: Self)
        ensures
            builder@.namespace == namespace@,
            builder@.endpoint == Some(DEFAULT_ENDPOINT@),
            builder@.const_labels == Map::<String, String>::empty(),
            builder@.buckets == default_bounds(),
    {
        PrometheusMetricsBuilder {
            namespace: namespace.to_owned(),
            endpoint: Some(DEFAULT_ENDPOINT.to_owned()),
            const_labels: HashMap::new(),
            registry: prometheus::Registry::new(),
            buckets: default_buckets(),
        }
    }

    /// Sets the scrape path. With `None`, no request is left out.
    #[must_use]
    pub fn endpoint(self, value: Option<&str>) -> (builder: Self)
        ensures
            builder@ == (MetricsConfiguration {
                endpoint: match value {
                    Some(path) => Some(path@),
                    None => None,
                },
                ..self@
            }),
    {
        let endpoint = match value {
            Some(path) => Some(path.to_owned()),
            None => None,
        };
        PrometheusMetricsBuilder { endpoint, ..self }
    }

    /// Sets the bucket bounds of the histogram, in nanoseconds. They are
    /// checked when the series are built.
    #[must_use]
    pub fn buckets(self, value: &[u64]) -> (builder: Self)
        ensures
            builder@ == (MetricsConfiguration { buckets: value@, ..self@ }),
    {
        PrometheusMetricsBuilder { buckets: slice_to_vec(value), ..self }
    }

    /// Sets the labels that every sample carries.
    #[must_use]
    pub fn const_labels(self, value: HashMap<String, String>) -> (builder: Self)
        ensures
            builder@ == (MetricsConfiguration { const_labels: value@, ..self@ }),
    {
        PrometheusMetricsBuilder { const_labels: value, ..self }
    }

    /// Sets the registry that the series go to.
    #[must_use]
    pub fn registry(self, value: prometheus::Registry) -> (builder: Self)
        ensures
            builder@ == (MetricsConfiguration { registry: value, ..self@ }),
    {
        PrometheusMetricsBuilder { registry: value, ..self }
    }

    /// What a build returns once both series exist and the registry has
    /// answered: the registry's refusal, or the series with this
    /// configuration and the registry.
    pub fn conclude(
        self,
        counters: RequestCounters,
        durations: RequestDurations,
        registered: Result<(), CollectorFault>,
    ) -> (built: Result<(PrometheusMetrics, PrometheusMetricsRegistry), MetricsError>)
        requires
            take_samples(counters, durations),
        ensures
            match registered {
                Err(fault) => built == Err::<(PrometheusMetrics, PrometheusMetricsRegistry), MetricsError>(
                    MetricsError::Registration(fault),
                ),
                Ok(()) => {
                    &&& built matches Ok((metrics, registry))
                    &&& metrics@ == (MiddlewareInstance {
                        counters,
                        durations,
                        namespace: self@.namespace,
                        endpoint: self@.endpoint,
                        const_labels: self@.const_labels,
                    })
                    &&& registry.registry == self@.registry
                },
            },
    {
        match registered {
            Err(fault) => Err(MetricsError::Registration(fault)),
            Ok(()) => Ok(
                (
                    PrometheusMetrics::assemble(
                        counters,
                        durations,
                        self.namespace,
                        self.endpoint,
                        self.const_labels,
                    ),
                    PrometheusMetricsRegistry { registry: self.registry },
                ),
            ),
        }
    }

    /// Builds the two series and registers them.
    ///
    /// The bucket bounds are checked first: an empty or unordered sequence
    /// ends the build before anything is created. Then the counter and the
    /// histogram are created, each under the namespace and with the constant
    /// labels and the label names `endpoint`, `method` and `status`, and the
    /// histogram is probed: a configuration from which the collector library
    /// makes no series, or no histogram, ends the build too. Last the two are
    /// registered, the counter first; what the registry refuses comes back
    /// as an error, and a counter that was registered before the histogram
    /// was refused stays registered.
    pub fn pair(self) -> (built: Result<(PrometheusMetrics, PrometheusMetricsRegistry), MetricsError>)
        ensures
            built == Err::<(PrometheusMetrics, PrometheusMetricsRegistry), MetricsError>(
                MetricsError::EmptyBuckets,
            ) <==> self@.buckets.len() == 0,
            self@.buckets.len() > 0 && !acceptable(self@.buckets) ==> (built matches Err(
                MetricsError::UnorderedBuckets { index },
            ) && first_disorder(self@.buckets, index as int)),
            acceptable(self@.buckets) && !buildable(self@) ==> built matches Err(MetricsError::Series(_)),
            acceptable(self@.buckets) && buildable(self@) ==> built is Ok || built matches Err(
                MetricsError::Registration(_),
            ),
            built matches Ok((metrics, registry)) ==> {
                &&& counters_description(metrics@.counters) == counter_of(self@)
                &&& durations_description(metrics@.durations) == histogram_of(self@)
                &&& metrics@.namespace == self@.namespace
                &&& metrics@.endpoint == self@.endpoint
                &&& metrics@.const_labels == self@.const_labels
                &&& registry.registry == self@.registry
            },
    {
        match check_buckets(self.buckets.as_slice()) {
            Err(e) => {
                return Err(e);
            },
            Ok(()) => {},
        }
        let counters = match RequestCounters::create(
            COUNTER_NAME,
            COUNTER_HELP,
            self.namespace.as_str(),
            self.const_labels.clone(),
            ENDPOINT_LABEL,
            METHOD_LABEL,
            STATUS_LABEL,
        ) {
            Ok(counters) => counters,
            Err(error) => {
                return Err(MetricsError::Series(fault_of(error)));
            },
        };
        let durations = match RequestDurations::create(
            HISTOGRAM_NAME,
            HISTOGRAM_HELP,
            self.namespace.as_str(),
            &self.buckets,
            self.const_labels.clone(),
            ENDPOINT_LABEL,
            METHOD_LABEL,
            STATUS_LABEL,
        ) {
            Ok(durations) => durations,
            Err(error) => {
                return Err(MetricsError::Series(fault_of(error)));
            },
        };
        match durations.probe("", "", "") {
            Ok(()) => {},
            Err(error) => {
                return Err(MetricsError::Series(fault_of(error)));
            },
        }
        let registered = register_both(&self.registry, &counters, &durations);
        self.conclude(counters, durations, registered)
    }
}

} // verus!
