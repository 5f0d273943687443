//! The collector library and the clock, as this library uses them.
//!
//! Nothing in this module is proved. Each item names a function or a type
//! of the `prometheus` crate or of `std` and says what is taken for granted
//! of it; where no clause follows, nothing is.

use crate::error::CollectorFault;
use std::collections::HashMap;
use std::string::FromUtf8Error;
use std::time::Duration;
use std::time::Instant;
use vstd::prelude::*;
use vstd::utf8::decode_utf8;
use vstd::utf8::valid_utf8;

verus! {

/// `prometheus::Registry`: a shared handle to a set of registered collectors.
#[verifier::external_type_specification]
#[verifier::external_body]
pub struct ExRegistry(prometheus::Registry);

/// `prometheus::Error`.
#[verifier::external_type_specification]
#[verifier::external_body]
pub struct ExError(prometheus::Error);

/// `prometheus::proto::MetricFamily`: a snapshot of one series family.
#[verifier::external_type_specification]
#[verifier::external_body]
pub struct ExMetricFamily(prometheus::proto::MetricFamily);

/// `prometheus::proto::MetricType`: the type of a series family.
#[verifier::external_type_specification]
pub struct ExMetricType(prometheus::proto::MetricType);

/// `prometheus::TextEncoder`.
#[verifier::external_type_specification]
#[verifier::external_body]
pub struct ExTextEncoder(prometheus::TextEncoder);

/// `std::time::Instant`.
#[verifier::external_type_specification]
#[verifier::external_body]
pub struct ExInstant(Instant);

/// `std::string::FromUtf8Error`.
#[verifier::external_type_specification]
#[verifier::external_body]
pub struct ExFromUtf8Error(FromUtf8Error);

/// `Registry::new`: a registry of its own, with nothing said of it.
pub assume_specification[ prometheus::Registry::new ]() -> (registry: prometheus::Registry);

/// `Registry::clone`: another handle to the same registry.
pub assume_specification[ <prometheus::Registry as Clone>::clone ](
    registry: &prometheus::Registry,
) -> (handle: prometheus::Registry)
    ensures
        handle == *registry,
;

/// `Registry::gather`: snapshots of what is registered at the time of the
/// call, with nothing said of them.
pub assume_specification[ prometheus::Registry::gather ](registry: &prometheus::Registry) -> (families:
    Vec<prometheus::proto::MetricFamily>);

/// The type that a family snapshot was taken with.
pub uninterp spec fn family_type(family: prometheus::proto::MetricFamily) -> prometheus::proto::MetricType;

/// `MetricFamily::get_field_type`: the type that the snapshot was taken with.
pub assume_specification[ prometheus::proto::MetricFamily::get_field_type ](
    family: &prometheus::proto::MetricFamily,
) -> (field_type: prometheus::proto::MetricType)
    ensures
        field_type == family_type(*family),
;

/// `TextEncoder::new`.
pub assume_specification[ prometheus::TextEncoder::new ]() -> (encoder: prometheus::TextEncoder);

/// `Instant::now`: the time of the call, with nothing said of it.
pub assume_specification[ Instant::now ]() -> (now: Instant);

/// `Instant::elapsed`: the time since `clock`, with nothing said of it.
pub assume_specification[ Instant::elapsed ](clock: &Instant) -> (elapsed: Duration);

/// `str == str`: two string slices are equal when they hold the same
/// characters.
pub assume_specification[ <str as PartialEq>::eq ](a: &str, b: &str) -> (same: bool)
    ensures
        same == (a@ == b@),
;

/// `String::from_utf8`: succeeds on exactly the byte sequences that are
/// UTF-8, and then returns the text they encode.
pub assume_specification[ String::from_utf8 ](bytes: Vec<u8>) -> (text: Result<String, FromUtf8Error>)
    ensures
        text is Ok <==> valid_utf8(bytes@),
        text matches Ok(s) ==> s@ == decode_utf8(bytes@),
;

/// What a series was created from.
pub struct SeriesDescription {
    /// Put in front of the name, with an underscore, unless it is empty.
    pub namespace: Seq<char>,
    /// The name of the series.
    pub name: Seq<char>,
    /// The help text of the series.
    pub help: Seq<char>,
    /// Labels that every sample carries.
    pub const_labels: Map<String, String>,
    /// Names of the labels whose values vary from sample to sample.
    pub label_names: Seq<Seq<char>>,
}

/// What a histogram series was created from.
pub struct HistogramDescription {
    /// Names, help and labels.
    pub series: SeriesDescription,
    /// Bucket bounds, in nanoseconds.
    pub buckets: Seq<u64>,
}

/// The request counter: a `prometheus::IntCounterVec`, one counter for each
/// combination of label values. Its counters are shared with every clone and
/// change under concurrent use, so nothing is stated of what they hold.
#[verifier::external_body]
#[derive(Debug)]
pub struct RequestCounters {
    inner: prometheus::IntCounterVec,
}

/// The duration histogram: a `prometheus::HistogramVec`, one histogram for
/// each combination of label values. Shared and concurrent like the counter.
#[verifier::external_body]
#[derive(Debug)]
pub struct RequestDurations {
    inner: prometheus::HistogramVec,
}

/// Whether the collector library builds a series from a description: whether
/// `Desc::new` accepts the names, the help text and the labels.
pub uninterp spec fn describable(description: SeriesDescription) -> bool;

/// The bytes that the text encoder writes for a sequence of families, or
/// `None` where it refuses them.
pub uninterp spec fn text_encoding(families: Seq<prometheus::proto::MetricFamily>) -> Option<Seq<u8>>;

/// Whether the collector library makes a histogram from a description, for
/// as many label values as the description has label names: whether it
/// accepts the bounds, taken as seconds, and the label names.
pub uninterp spec fn observable(description: HistogramDescription) -> bool;

/// Whether the two series take samples with three label values.
pub open spec fn take_samples(counters: RequestCounters, durations: RequestDurations) -> bool {
    &&& counters_description(counters).label_names.len() == 3
    &&& durations_description(durations).series.label_names.len() == 3
    &&& observable(durations_description(durations))
}

/// The options and label names that a request counter was created with.
pub uninterp spec fn counters_description(counters: RequestCounters) -> SeriesDescription;

/// The options, label names and bounds that a duration histogram was
/// created with.
pub uninterp spec fn durations_description(durations: RequestDurations) -> HistogramDescription;

impl Clone for RequestCounters {
    /// `IntCounterVec::clone`: another handle to the same counters.
    #[verifier::external_body]
    fn clone(&self) -> (handle: Self)
        ensures
            handle == *self,
    {
        RequestCounters { inner: self.inner.clone() }
    }
}

impl Clone for RequestDurations {
    /// `HistogramVec::clone`: another handle to the same histograms.
    #[verifier::external_body]
    fn clone(&self) -> (handle: Self)
        ensures
            handle == *self,
    {
        RequestDurations { inner: self.inner.clone() }
    }
}

impl RequestCounters {
    /// `IntCounterVec::new`, on options made with `Opts::new`,
    /// `Opts::namespace` and `Opts::const_labels`, and with three label
    /// names. It succeeds exactly when the crate can describe the series, and
    /// a counter that it returns was created with what was handed in.
    #[verifier::external_body]
    pub(crate) fn create(
        name: &str,
        help: &str,
        namespace: &str,
        const_labels: HashMap<String, String>,
        first: &str,
        second: &str,
        third: &str,
    ) -> (created: Result<RequestCounters, prometheus::Error>)
        ensures
            created is Ok <==> describable(
                SeriesDescription {
                    namespace: namespace@,
                    name: name@,
                    help: help@,
                    const_labels: const_labels@,
                    label_names: seq![first@, second@, third@],
                },
            ),
            created matches Ok(counters) ==> counters_description(counters) == (SeriesDescription {
                namespace: namespace@,
                name: name@,
                help: help@,
                const_labels: const_labels@,
                label_names: seq![first@, second@, third@],
            }),
    {
        let opts = prometheus::Opts::new(name, help).namespace(namespace).const_labels(const_labels);
        Ok(RequestCounters { inner: prometheus::IntCounterVec::new(opts, &[first, second, third])? })
    }

    /// `Registry::register` with a handle to these counters.
    #[verifier::external_body]
    pub(crate) fn register(self, registry: &prometheus::Registry) -> (registered: Result<
        (),
        prometheus::Error,
    >) {
        registry.register(Box::new(self.inner))
    }

    /// `with_label_values`, then `IntCounter::inc`: adds one to the counter
    /// that the crate finds or makes for these label values. The crate makes
    /// one for as many values as the counters were created with label names,
    /// and does not return for any other number.
    #[verifier::external_body]
    pub(crate) fn inc(&self, endpoint: &str, method: &str, status: &str)
        requires
            counters_description(*self).label_names.len() == 3,
    {
        self.inner.with_label_values(&[endpoint, method, status]).inc()
    }
}

impl RequestDurations {
    /// `HistogramVec::new`, on options made with `HistogramOpts::new`,
    /// `HistogramOpts::namespace`, `HistogramOpts::buckets` and
    /// `HistogramOpts::const_labels`, and with three label names. A bound of
    /// `n` nanoseconds is handed over as the seconds that
    /// `Duration::from_nanos(n).as_secs_f64()` gives. It succeeds exactly when
    /// the crate can describe the series, whatever the bounds are, and a
    /// histogram that it returns was created with what was handed in.
    #[verifier::external_body]
    pub(crate) fn create(
        name: &str,
        help: &str,
        namespace: &str,
        bounds: &Vec<u64>,
        const_labels: HashMap<String, String>,
        first: &str,
        second: &str,
        third: &str,
    ) -> (created: Result<RequestDurations, prometheus::Error>)
        ensures
            created is Ok <==> describable(
                SeriesDescription {
                    namespace: namespace@,
                    name: name@,
                    help: help@,
                    const_labels: const_labels@,
                    label_names: seq![first@, second@, third@],
                },
            ),
            created matches Ok(durations) ==> durations_description(durations) == (HistogramDescription {
                series: SeriesDescription {
                    namespace: namespace@,
                    name: name@,
                    help: help@,
                    const_labels: const_labels@,
                    label_names: seq![first@, second@, third@],
                },
                buckets: bounds@,
            }),
    {
        let seconds = bounds.iter().map(|nanos| Duration::from_nanos(*nanos).as_secs_f64()).collect();
        let opts = prometheus::HistogramOpts::new(name, help).namespace(namespace).buckets(
            seconds,
        ).const_labels(const_labels);
        Ok(RequestDurations { inner: prometheus::HistogramVec::new(opts, &[first, second, third])? })
    }

    /// `Registry::register` with a handle to these histograms.
    #[verifier::external_body]
    pub(crate) fn register(self, registry: &prometheus::Registry) -> (registered: Result<
        (),
        prometheus::Error,
    >) {
        registry.register(Box::new(self.inner))
    }

    /// `get_metric_with_label_values`, then `remove_label_values` with the
    /// same values: has the crate make a histogram for three label values
    /// and drop it again. Whether it makes one depends on what the
    /// histograms were created with, not on the values.
    #[verifier::external_body]
    pub(crate) fn probe(&self, endpoint: &str, method: &str, status: &str) -> (probed: Result<
        (),
        prometheus::Error,
    >)
        ensures
            probed is Ok <==> (durations_description(*self).series.label_names.len() == 3
                && observable(durations_description(*self))),
    {
        self.inner.get_metric_with_label_values(&[endpoint, method, status])?;
        self.inner.remove_label_values(&[endpoint, method, status])
    }

    /// `with_label_values`, then `Histogram::observe`: records `elapsed`, in
    /// seconds, in the histogram that the crate finds or makes for these
    /// label values. Where it can make none it does not return.
    #[verifier::external_body]
    pub(crate) fn observe(&self, endpoint: &str, method: &str, status: &str, elapsed: Duration)
        requires
            durations_description(*self).series.label_names.len() == 3,
            observable(durations_description(*self)),
    {
        self.inner.with_label_values(&[endpoint, method, status]).observe(elapsed.as_secs_f64())
    }
}

/// `Encoder::encode` of the text encoder, into a byte buffer: where the
/// encoder accepts the families, their text is appended to the buffer. The
/// encoder has no text for a family without a type and does not return on
/// one, so such families are kept from it.
#[verifier::external_body]
pub(crate) fn encode_text(
    encoder: &prometheus::TextEncoder,
    families: &Vec<prometheus::proto::MetricFamily>,
    buffer: &mut Vec<u8>,
) -> (encoded: Result<(), prometheus::Error>)
    requires
        forall|i: int|
            0 <= i < families@.len() ==> family_type(#[trigger] families@[i])
                != prometheus::proto::MetricType::UNTYPED,
    ensures
        encoded is Ok <==> text_encoding(families@) is Some,
        text_encoding(families@) matches Some(bytes) ==> final(buffer)@ == old(buffer)@ + bytes,
{
    prometheus::Encoder::encode(encoder, families, buffer)
}

/// Tells the variants of `prometheus::Error` apart.
#[verifier::external_body]
pub(crate) fn fault_of(error: prometheus::Error) -> (fault: CollectorFault) {
    match error {
        prometheus::Error::AlreadyReg => CollectorFault::AlreadyRegistered,
        prometheus::Error::InconsistentCardinality { expect, got } => {
            CollectorFault::InconsistentCardinality { expect, got }
        },
        prometheus::Error::Msg(message) => CollectorFault::Message(message),
        prometheus::Error::Io(_) => CollectorFault::Io,
    }
}

} // verus!
