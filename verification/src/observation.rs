//! One request in flight, and what its completion adds to the series.

use crate::labels::is_scrape;
use crate::labels::label_path;
use crate::labels::labels_of;
use crate::labels::route_label;
use crate::labels::template_of;
use crate::labels::LabelTuple;
use crate::labels::LabelValues;
use crate::metrics::PrometheusMetrics;
use std::sync::Arc;
use std::time::Instant;
use vstd::prelude::*;

verus! {

/// How the handling of a request ended.
#[derive(Clone, Copy, Debug, PartialEq, Eq, Structural)]
pub enum Completion {
    /// The handler chain produced a response with this status code.
    Responded(u16),
    /// The handler chain failed before there was a response.
    Failed,
}

/// The label tuple that a completed request adds one sample to, if any: none
/// where the handler failed, none where the request is the scrape itself.
pub open spec fn outcome_labels(
    scrape: Option<Seq<char>>,
    path: Seq<char>,
    method: Seq<char>,
    completion: Completion,
) -> Option<LabelTuple> {
    match completion {
        Completion::Failed => None,
        Completion::Responded(status) => if is_scrape(scrape, path, method) {
            None
        } else {
            Some(labels_of(path, method, status))
        },
    }
}

/// The label tuple of recorded label values, if any were recorded.
pub open spec fn tuple_of(recorded: Option<LabelValues>) -> Option<LabelTuple> {
    match recorded {
        Some(labels) => Some(labels@),
        None => None,
    }
}

/// A request that has entered and whose response is still awaited: when it
/// entered, its method, its endpoint label, and the series it belongs to.
/// It is resolved once; resolving it again adds nothing.
#[derive(Debug)]
pub struct PendingObservation {
    time: Instant,
    method: String,
    path: String,
    prometheus_metrics: Arc<PrometheusMetrics>,
    resolved: bool,
}

impl PendingObservation {
    /// The endpoint label of the request.
    pub closed spec fn path(&self) -> Seq<char> {
        self.path@
    }

    /// The method of the request.
    pub closed spec fn method(&self) -> Seq<char> {
        self.method@
    }

    /// The series that the request belongs to.
    pub closed spec fn series(&self) -> PrometheusMetrics {
        *self.prometheus_metrics
    }

    /// The scrape path of the series that the request belongs to.
    pub open spec fn scrape_path(&self) -> Option<Seq<char>> {
        self.series()@.endpoint
    }

    /// Whether the request has been resolved.
    pub closed spec fn resolved(&self) -> bool {
        self.resolved
    }

    /// The label tuple that resolving with `completion` adds one sample to.
    pub open spec fn plan(&self, completion: Completion) -> Option<LabelTuple> {
        if self.resolved() {
            None
        } else {
            outcome_labels(self.scrape_path(), self.path(), self.method(), completion)
        }
    }

    /// Notes the entry of a request, at the time of the call. The endpoint
    /// label is the matched route where there is one, else the literal path.
    pub fn start(
        prometheus_metrics: Arc<PrometheusMetrics>,
        method: &str,
        matched_path: Option<&str>,
        raw_path: &str,
    ) -> (pending: PendingObservation)
        ensures
            !pending.resolved(),
            pending.method() == method@,
            pending.path() == route_label(template_of(matched_path), raw_path@),
            pending.series() == *prometheus_metrics,
    {
        PendingObservation {
            time: Instant::now(),
            method: method.to_owned(),
            path: label_path(matched_path, raw_path),
            prometheus_metrics,
            resolved: false,
        }
    }

    /// Whether the request has been resolved.
    pub fn is_resolved(&self) -> (resolved: bool)
        ensures
            resolved == self.resolved(),
    {
        self.resolved
    }

    /// Resolves the request: records the response in both series, unless the
    /// handler failed, the request is the scrape itself or the request was
    /// resolved before. Returns the labels under which it was recorded.
    pub fn resolve(&mut self, completion: Completion) -> (recorded: Option<LabelValues>)
        ensures
            final(self).resolved(),
            final(self).path() == old(self).path(),
            final(self).method() == old(self).method(),
            final(self).series() == old(self).series(),
            tuple_of(recorded) == old(self).plan(completion),
    {
        if self.resolved {
            return None;
        }
        self.resolved = true;
        match completion {
            Completion::Failed => None,
            Completion::Responded(status) => {
                if self.prometheus_metrics.matches(self.path.as_str(), self.method.as_str()) {
                    None
                } else {
                    Some(
                        self.prometheus_metrics.update_metrics(
                            self.path.as_str(),
                            self.method.as_str(),
                            status,
                            self.time,
                        ),
                    )
                }
            },
        }
    }
}

} // verus!
