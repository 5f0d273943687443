//! Request metrics for an HTTP service: a counter and a latency histogram
//! per route, method and status, and the text that a scraper reads.
//!
//! [`PrometheusMetricsBuilder`] collects the configuration and builds the two
//! series. [`PrometheusMetrics`] holds them; [`AxumMetrics`] wraps a handler
//! chain with them, and a [`PendingObservation`] follows one request from
//! entry to response. [`PrometheusMetricsRegistry`] writes what was recorded.

pub mod buckets;
pub mod builder;
pub mod error;
pub mod labels;
pub mod laws;
pub mod metrics;
pub mod middleware;
pub mod observation;
pub mod prom;

pub use builder::PrometheusMetricsBuilder;
pub use builder::DEFAULT_ENDPOINT;
pub use error::CollectorFault;
pub use error::EncodingFault;
pub use error::ErrorKind;
pub use error::MetricsError;
pub use labels::LabelValues;
pub use metrics::PrometheusMetrics;
pub use metrics::PrometheusMetricsRegistry;
pub use middleware::AxumMetrics;
pub use middleware::ObservedResponseFuture;
pub use observation::Completion;
pub use observation::PendingObservation;
