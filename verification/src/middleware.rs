//! The wrapper round a handler chain.

use crate::labels::route_label;
use crate::labels::template_of;
use crate::metrics::PrometheusMetrics;
use crate::observation::PendingObservation;
use std::sync::Arc;
use vstd::prelude::*;

verus! {

/// A handler chain together with the series its requests are recorded in.
#[derive(Debug)]
pub struct AxumMetrics<S> {
    /// The wrapped handler chain.
    pub inner: S,
    /// The series that its requests are recorded in.
    pub prometheus_metrics: PrometheusMetrics,
}

/// The response that a handler chain is still to produce, together with the
/// observation that its arrival resolves.
#[derive(Debug)]
pub struct ObservedResponseFuture<F> {
    /// What the wrapped handler chain returned for the request.
    pub inner: F,
    /// The request in flight.
    pub observation: PendingObservation,
}

impl<S: Clone> Clone for AxumMetrics<S> {
    /// A clone of the chain with another handle to the same series.
    fn clone(&self) -> (handle: Self)
        ensures
            handle.prometheus_metrics@ == self.prometheus_metrics@,
    {
        AxumMetrics { inner: self.inner.clone(), prometheus_metrics: self.prometheus_metrics.clone() }
    }
}

impl<S> AxumMetrics<S> {
    /// Wraps `inner`.
    pub fn new(inner: S, prometheus_metrics: PrometheusMetrics) -> (service: Self)
        ensures
            service.inner == inner,
            service.prometheus_metrics == prometheus_metrics,
    {
        AxumMetrics { inner, prometheus_metrics }
    }

    /// Notes the entry of a request that the wrapped chain has been handed,
    /// and pairs the note with what the chain returned.
    pub fn observe<F>(&self, inner: F, method: &str, matched_path: Option<&str>, raw_path: &str) -> (observed:
        ObservedResponseFuture<F>)
        ensures
            observed.inner == inner,
            !observed.observation.resolved(),
            observed.observation.method() == method@,
            observed.observation.path() == route_label(template_of(matched_path), raw_path@),
            observed.observation.series()@ == self.prometheus_metrics@,
    {
        let shared = Arc::new(self.prometheus_metrics.clone());
        ObservedResponseFuture {
            inner,
            observation: PendingObservation::start(shared, method, matched_path, raw_path),
        }
    }
}

} // verus!
