//! The two request series, and the registry that exposes them.

use crate::error::CollectorFault;
use crate::error::EncodingFault;
use crate::error::MetricsError;
use crate::labels::is_scrape;
use crate::labels::labels_of;
use crate::labels::sample_labels;
use crate::labels::LabelValues;
use crate::labels::SCRAPE_METHOD;
use crate::middleware::AxumMetrics;
use crate::prom::encode_text;
use crate::prom::family_type;
use crate::prom::fault_of;
use crate::prom::take_samples;
use crate::prom::text_encoding;
use crate::prom::RequestCounters;
use crate::prom::RequestDurations;
use std::collections::HashMap;
use std::time::Duration;
use std::time::Instant;
use vstd::prelude::*;
use vstd::utf8::decode_utf8;
use vstd::utf8::valid_utf8;

verus! {

/// What a `PrometheusMetrics` holds, as a mathematical value.
pub struct MiddlewareInstance {
    /// The request counter.
    pub counters: RequestCounters,
    /// The duration histogram.
    pub durations: RequestDurations,
    /// Put in front of both series names.
    pub namespace: Seq<char>,
    /// The scrape path; `None` switches self-exclusion off.
    pub endpoint: Option<Seq<char>>,
    /// Labels that every sample carries.
    pub const_labels: Map<String, String>,
}

/// The request counter and the duration histogram of one service, with the
/// configuration they were built from. Both series take samples with three
/// label values: no value of this type holds series that do not.
#[derive(Debug)]
pub struct PrometheusMetrics {
    http_requests_total: RequestCounters,
    http_requests_duration_seconds: RequestDurations,
    namespace: String,
    endpoint: Option<String>,
    const_labels: HashMap<String, String>,
}

impl View for PrometheusMetrics {
    type V = MiddlewareInstance;

    closed spec fn view(&self) -> MiddlewareInstance {
        MiddlewareInstance {
            counters: self.http_requests_total,
            durations: self.http_requests_duration_seconds,
            namespace: self.namespace@,
            endpoint: self.endpoint.deep_view(),
            const_labels: self.const_labels@,
        }
    }
}

impl Clone for PrometheusMetrics {
    /// Another handle to the same two series, with the same configuration.
    fn clone(&self) -> (handle: Self)
        ensures
            handle@ == self@,
    {
        proof {
            use_type_invariant(self);
        }
        PrometheusMetrics {
            http_requests_total: self.http_requests_total.clone(),
            http_requests_duration_seconds: self.http_requests_duration_seconds.clone(),
            namespace: self.namespace.clone(),
            endpoint: self.endpoint.clone(),
            const_labels: self.const_labels.clone(),
        }
    }
}

impl PrometheusMetrics {
    #[verifier::type_invariant]
    spec fn takes_samples(self) -> bool {
        take_samples(self.http_requests_total, self.http_requests_duration_seconds)
    }

    /// The path whose `GET` requests are left out, if any.
    pub open spec fn scrape_path(&self) -> Option<Seq<char>> {
        self@.endpoint
    }

    /// Puts two series that take samples together with the configuration that
    /// they were built from.
    pub(crate) fn assemble(
        http_requests_total: RequestCounters,
        http_requests_duration_seconds: RequestDurations,
        namespace: String,
        endpoint: Option<String>,
        const_labels: HashMap<String, String>,
    ) -> (metrics: Self)
        requires
            take_samples(http_requests_total, http_requests_duration_seconds),
        ensures
            metrics@ == (MiddlewareInstance {
                counters: http_requests_total,
                durations: http_requests_duration_seconds,
                namespace: namespace@,
                endpoint: endpoint.deep_view(),
                const_labels: const_labels@,
            }),
    {
        PrometheusMetrics {
            http_requests_total,
            http_requests_duration_seconds,
            namespace,
            endpoint,
            const_labels,
        }
    }

    /// The request counter.
    pub fn http_requests_total(&self) -> (counters: &RequestCounters)
        ensures
            *counters == self@.counters,
            take_samples(self@.counters, self@.durations),
    {
        proof {
            use_type_invariant(self);
        }
        &self.http_requests_total
    }

    /// The duration histogram.
    pub fn http_requests_duration_seconds(&self) -> (durations: &RequestDurations)
        ensures
            *durations == self@.durations,
            take_samples(self@.counters, self@.durations),
    {
        proof {
            use_type_invariant(self);
        }
        &self.http_requests_duration_seconds
    }

    /// The namespace that is put in front of both series names.
    pub fn namespace(&self) -> (namespace: &str)
        ensures
            namespace@ == self@.namespace,
    {
        self.namespace.as_str()
    }

    /// The scrape path; `None` where self-exclusion is switched off.
    pub fn endpoint(&self) -> (endpoint: Option<&str>)
        ensures
            match endpoint {
                Some(path) => self@.endpoint == Some(path@),
                None => self@.endpoint is None,
            },
    {
        match &self.endpoint {
            Some(path) => Some(path.as_str()),
            None => None,
        }
    }

    /// The labels that every sample carries.
    pub fn const_labels(&self) -> (const_labels: &HashMap<String, String>)
        ensures
            const_labels@ == self@.const_labels,
    {
        &self.const_labels
    }

    /// Whether a request for `path` with `method` is the scrape itself, which
    /// is not recorded.
    pub fn matches(&self, path: &str, method: &str) -> (excluded: bool)
        ensures
            excluded == is_scrape(self.scrape_path(), path@, method@),
    {
        match &self.endpoint {
            Some(endpoint) => endpoint.as_str().eq(path) && method.eq(SCRAPE_METHOD),
            None => false,
        }
    }

    /// Hands one sample to both series: `elapsed` to the histogram, then one
    /// more request to the counter.
    pub fn record(&self, labels: &LabelValues, elapsed: Duration) {
        proof {
            use_type_invariant(self);
        }
        self.http_requests_duration_seconds.observe(
            labels.endpoint.as_str(),
            labels.method.as_str(),
            labels.status.as_str(),
            elapsed,
        );
        self.http_requests_total.inc(
            labels.endpoint.as_str(),
            labels.method.as_str(),
            labels.status.as_str(),
        );
    }

    /// Records a response with `status` to a request for `path` with
    /// `method`, which entered at `clock`: the time since then goes to the
    /// histogram and one more request to the counter, both under the labels
    /// that are returned.
    pub fn update_metrics(&self, path: &str, method: &str, status: u16, clock: Instant) -> (labels:
        LabelValues)
        ensures
            labels@ == labels_of(path@, method@, status),
    {
        let labels = sample_labels(path, method, status);
        let elapsed = clock.elapsed();
        self.record(&labels, elapsed);
        labels
    }

    /// Wraps a handler chain so that its requests are recorded in these
    /// series.
    pub fn layer<S>(&self, inner: S) -> (service: AxumMetrics<S>)
        ensures
            service.inner == inner,
            service.prometheus_metrics@ == self@,
    {
        AxumMetrics::new(inner, self.clone())
    }
}

/// The registry in which the two series are registered.
#[derive(Debug)]
pub struct PrometheusMetricsRegistry {
    /// The registry itself, for series of the application's own.
    pub registry: prometheus::Registry,
}

impl Clone for PrometheusMetricsRegistry {
    /// Another handle to the same registry.
    fn clone(&self) -> (handle: Self)
        ensures
            handle.registry == self.registry,
    {
        PrometheusMetricsRegistry { registry: self.registry.clone() }
    }
}

/// What a scrape returns, given what the encoder answered and what it wrote:
/// the text that the bytes encode, or why there is none.
pub fn exposition(encoded: Result<(), CollectorFault>, buffer: Vec<u8>) -> (text: Result<
    String,
    MetricsError,
>)
    ensures
        match encoded {
            Err(fault) => text == Err::<String, MetricsError>(
                MetricsError::Encoding(EncodingFault::Collector(fault)),
            ),
            Ok(()) => if valid_utf8(buffer@) {
                text matches Ok(s) && s@ == decode_utf8(buffer@)
            } else {
                text == Err::<String, MetricsError>(MetricsError::Encoding(EncodingFault::InvalidUtf8))
            },
        },
{
    match encoded {
        Err(fault) => Err(MetricsError::Encoding(EncodingFault::Collector(fault))),
        Ok(()) => match String::from_utf8(buffer) {
            Ok(s) => Ok(s),
            Err(_) => Err(MetricsError::Encoding(EncodingFault::InvalidUtf8)),
        },
    }
}

/// Every family has a type that the text format can name.
pub open spec fn all_typed(families: Seq<prometheus::proto::MetricFamily>) -> bool {
    forall|i: int|
        0 <= i < families.len() ==> family_type(#[trigger] families[i])
            != prometheus::proto::MetricType::UNTYPED
}

/// Whether every family has a type that the text format can name.
fn check_typed(families: &Vec<prometheus::proto::MetricFamily>) -> (typed: bool)
    ensures
        typed == all_typed(families@),
{
    let mut k: usize = 0;
    while k < families.len()
        invariant
            k <= families@.len(),
            all_typed(families@.take(k as int)),
        decreases families@.len() - k,
    {
        match families[k].get_field_type() {
            prometheus::proto::MetricType::UNTYPED => {
                return false;
            },
            _ => {},
        }
        proof {
            let before = families@.take(k as int);
            let after = families@.take(k + 1);
            assert forall|i: int| 0 <= i < after.len() implies family_type(#[trigger] after[i])
                != prometheus::proto::MetricType::UNTYPED by {
                if i < k {
                    assert(after[i] == before[i]);
                }
            }
        }
        k = k + 1;
    }
    proof {
        assert(families@.take(k as int) =~= families@);
    }
    true
}

/// What writing `families` in the text exposition format gives: an error
/// where a family has no type, else the text that the encoder's bytes
/// encode, or an error where the encoder refuses or its bytes are no text.
pub open spec fn rendering(
    families: Seq<prometheus::proto::MetricFamily>,
    text: Result<String, MetricsError>,
) -> bool {
    if !all_typed(families) {
        text == Err::<String, MetricsError>(MetricsError::Encoding(EncodingFault::Untyped))
    } else {
        match text_encoding(families) {
            None => text matches Err(MetricsError::Encoding(EncodingFault::Collector(_))),
            Some(bytes) => if valid_utf8(bytes) {
                text matches Ok(s) && s@ == decode_utf8(bytes)
            } else {
                text == Err::<String, MetricsError>(MetricsError::Encoding(EncodingFault::InvalidUtf8))
            },
        }
    }
}

/// Writes gathered families in the text exposition format. A family
/// without a type ends the scrape with an error before the encoder sees it.
/// Otherwise the result is the text that the encoder's bytes encode, or an
/// error where the encoder refuses or its bytes are no text.
pub fn render(families: &Vec<prometheus::proto::MetricFamily>) -> (text: Result<String, MetricsError>)
    ensures
        rendering(families@, text),
{
    if !check_typed(families) {
        return Err(MetricsError::Encoding(EncodingFault::Untyped));
    }
    let mut buffer: Vec<u8> = Vec::new();
    let encoder = prometheus::TextEncoder::new();
    let encoded = match encode_text(&encoder, families, &mut buffer) {
        Ok(()) => Ok(()),
        Err(error) => Err(fault_of(error)),
    };
    exposition(encoded, buffer)
}

impl PrometheusMetricsRegistry {
    /// Gathers what is registered and writes it in the text exposition
    /// format: the result is what writing the gathered families gives. It
    /// is an error only where they cannot be written.
    pub fn metrics(&self) -> (text: Result<String, MetricsError>)
        ensures
            exists|families: Seq<prometheus::proto::MetricFamily>| #[trigger] rendering(families, text),
            text matches Err(e) ==> e is Encoding,
    {
        let families = self.registry.gather();
        let text = render(&families);
        assert(rendering(families@, text));
        text
    }
}

} // verus!
