use axum_prom::CollectorFault;
use axum_prom::ErrorKind;
use axum_prom::MetricsError;
use axum_prom::PrometheusMetricsBuilder;
use axum_prom::DEFAULT_ENDPOINT;
use std::collections::HashMap;
use std::time::Instant;

#[test]
fn default_endpoint_is_metrics() {
    assert_eq!(DEFAULT_ENDPOINT, "/metrics");
}

#[test]
fn new_builder_has_the_defaults() {
    let (metrics, _registry) = PrometheusMetricsBuilder::new("myapp").pair().unwrap();
    assert_eq!(metrics.namespace(), "myapp");
    assert_eq!(metrics.endpoint(), Some("/metrics"));
    assert!(metrics.const_labels().is_empty());
}

#[test]
fn nothing_is_exposed_before_the_first_request() {
    let (_metrics, registry) = PrometheusMetricsBuilder::new("myapp").pair().unwrap();
    assert_eq!(registry.metrics().unwrap(), "");
}

#[test]
fn endpoint_can_be_changed_and_switched_off() {
    let (metrics, _registry) = PrometheusMetricsBuilder::new("a")
        .endpoint(Some("/internal/scrape"))
        .pair()
        .unwrap();
    assert_eq!(metrics.endpoint(), Some("/internal/scrape"));
    assert!(metrics.matches("/internal/scrape", "GET"));
    assert!(!metrics.matches("/metrics", "GET"));

    let (metrics, _registry) = PrometheusMetricsBuilder::new("a").endpoint(None).pair().unwrap();
    assert_eq!(metrics.endpoint(), None);
    assert!(!metrics.matches("/metrics", "GET"));
}

#[test]
fn series_are_named_after_the_namespace() {
    let (metrics, registry) = PrometheusMetricsBuilder::new("shop").pair().unwrap();
    metrics.update_metrics("/", "GET", 200, Instant::now());
    let text = registry.metrics().unwrap();
    assert!(text.contains("# HELP shop_http_requests_total Total number of HTTP requests\n"));
    assert!(text.contains("# TYPE shop_http_requests_total counter\n"));
    assert!(text.contains(
        "# HELP shop_http_requests_duration_seconds HTTP request duration in seconds for all requests\n"
    ));
    assert!(text.contains("# TYPE shop_http_requests_duration_seconds histogram\n"));
    assert!(text.contains("shop_http_requests_total{endpoint=\"/\",method=\"GET\",status=\"200\"} 1\n"));
    assert!(text.contains(
        "shop_http_requests_duration_seconds_count{endpoint=\"/\",method=\"GET\",status=\"200\"} 1\n"
    ));
    assert!(text.contains("shop_http_requests_duration_seconds_sum{endpoint=\"/\",method=\"GET\",status=\"200\"} "));
}

#[test]
fn default_buckets_are_the_standard_set() {
    let (metrics, registry) = PrometheusMetricsBuilder::new("d").pair().unwrap();
    metrics.update_metrics("/", "GET", 200, Instant::now());
    let text = registry.metrics().unwrap();
    for bound in ["0.005", "0.01", "0.025", "0.05", "0.1", "0.25", "0.5", "1", "2.5", "5", "10", "+Inf"] {
        let line = format!(
            "d_http_requests_duration_seconds_bucket{{endpoint=\"/\",method=\"GET\",status=\"200\",le=\"{}\"}} ",
            bound
        );
        assert!(text.contains(&line), "missing bucket {}", bound);
    }
    assert_eq!(text.matches("_bucket{").count(), 12);
}

#[test]
fn configured_buckets_appear_verbatim() {
    let (metrics, registry) = PrometheusMetricsBuilder::new("b")
        .buckets(&[5_000_000, 50_000_000, 500_000_000])
        .pair()
        .unwrap();
    metrics.update_metrics("/", "GET", 200, Instant::now());
    let text = registry.metrics().unwrap();
    assert!(text.contains("b_http_requests_duration_seconds_bucket{endpoint=\"/\",method=\"GET\",status=\"200\",le=\"0.005\"} "));
    assert!(text.contains("b_http_requests_duration_seconds_bucket{endpoint=\"/\",method=\"GET\",status=\"200\",le=\"0.05\"} "));
    assert!(text.contains("b_http_requests_duration_seconds_bucket{endpoint=\"/\",method=\"GET\",status=\"200\",le=\"0.5\"} "));
    assert!(text.contains("b_http_requests_duration_seconds_bucket{endpoint=\"/\",method=\"GET\",status=\"200\",le=\"+Inf\"} 1\n"));
    assert_eq!(text.matches("_bucket{").count(), 4);
}

#[test]
fn const_labels_are_on_every_sample() {
    let mut labels = HashMap::new();
    labels.insert("region".to_string(), "eu".to_string());
    let (metrics, registry) = PrometheusMetricsBuilder::new("c").const_labels(labels).pair().unwrap();
    assert_eq!(metrics.const_labels().get("region"), Some(&"eu".to_string()));
    metrics.update_metrics("/", "GET", 200, Instant::now());
    let text = registry.metrics().unwrap();
    assert!(text.contains(
        "c_http_requests_total{endpoint=\"/\",method=\"GET\",region=\"eu\",status=\"200\"} 1\n"
    ));
    assert!(text.contains(
        "c_http_requests_duration_seconds_count{endpoint=\"/\",method=\"GET\",region=\"eu\",status=\"200\"} 1\n"
    ));
}

#[test]
fn empty_buckets_fail_the_build() {
    let built = PrometheusMetricsBuilder::new("e").buckets(&[]).pair();
    assert!(matches!(built, Err(MetricsError::EmptyBuckets)));
}

#[test]
fn unordered_buckets_fail_the_build() {
    let built = PrometheusMetricsBuilder::new("u").buckets(&[1_000, 500]).pair();
    assert!(matches!(built, Err(MetricsError::UnorderedBuckets { index: 1 })));
    let built = PrometheusMetricsBuilder::new("u").buckets(&[1, 2, 2]).pair();
    assert!(matches!(built, Err(MetricsError::UnorderedBuckets { index: 2 })));
}

#[test]
fn refused_buckets_leave_the_registry_untouched() {
    let registry = prometheus::Registry::new();
    let built = PrometheusMetricsBuilder::new("same")
        .registry(registry.clone())
        .buckets(&[])
        .pair();
    assert_eq!(built.unwrap_err().kind(), ErrorKind::Configuration);
    assert!(PrometheusMetricsBuilder::new("same").registry(registry).pair().is_ok());
}

#[test]
fn invalid_namespace_fails_the_build() {
    let built = PrometheusMetricsBuilder::new("not-a-name").pair();
    match built {
        Err(MetricsError::Series(CollectorFault::Message(message))) => {
            assert!(message.contains("not-a-name_http_requests_total"));
        }
        other => panic!("unexpected: {:?}", other.map(|_| ())),
    }
}

#[test]
fn invalid_const_label_fails_the_build() {
    let mut labels = HashMap::new();
    labels.insert("9lives".to_string(), "x".to_string());
    let built = PrometheusMetricsBuilder::new("l").const_labels(labels).pair();
    let error = built.unwrap_err();
    assert!(matches!(error, MetricsError::Series(CollectorFault::Message(_))));
    assert_eq!(error.kind(), ErrorKind::Configuration);
}

#[test]
fn const_label_that_histograms_reserve_fails_the_build() {
    let mut labels = HashMap::new();
    labels.insert("le".to_string(), "x".to_string());
    let registry = prometheus::Registry::new();
    let built = PrometheusMetricsBuilder::new("h")
        .registry(registry.clone())
        .const_labels(labels)
        .pair();
    match built {
        Err(MetricsError::Series(CollectorFault::Message(message))) => {
            assert!(message.contains("le"));
        }
        other => panic!("unexpected: {:?}", other.map(|_| ())),
    }
    assert!(registry.gather().is_empty());
    assert!(PrometheusMetricsBuilder::new("h").registry(registry).pair().is_ok());
}

#[test]
fn bounds_that_fall_together_in_seconds_fail_the_build() {
    let high: u64 = 1 << 60;
    let built = PrometheusMetricsBuilder::new("f").buckets(&[high, high + 1]).pair();
    let error = built.unwrap_err();
    assert!(matches!(error, MetricsError::Series(CollectorFault::Message(_))));
    assert_eq!(error.kind(), ErrorKind::Configuration);
}

#[test]
fn probing_leaves_no_series_behind() {
    let (metrics, registry) = PrometheusMetricsBuilder::new("p").pair().unwrap();
    assert_eq!(registry.metrics().unwrap(), "");
    assert!(registry.registry.gather().is_empty());
    metrics.update_metrics("", "", 0, Instant::now());
    let text = registry.metrics().unwrap();
    assert!(text.contains("p_http_requests_total{endpoint=\"\",method=\"\",status=\"0\"} 1\n"));
    assert!(text.contains("p_http_requests_duration_seconds_count{endpoint=\"\",method=\"\",status=\"0\"} 1\n"));
}

#[test]
fn same_namespace_in_one_registry_is_refused() {
    let registry = prometheus::Registry::new();
    let first = PrometheusMetricsBuilder::new("twice").registry(registry.clone()).pair();
    assert!(first.is_ok());
    let second = PrometheusMetricsBuilder::new("twice").registry(registry.clone()).pair();
    let error = second.unwrap_err();
    assert!(matches!(error, MetricsError::Registration(CollectorFault::AlreadyRegistered)));
    assert_eq!(error.kind(), ErrorKind::Registration);
}

#[test]
fn distinct_namespaces_share_a_registry() {
    let registry = prometheus::Registry::new();
    let (alpha, exposed) = PrometheusMetricsBuilder::new("alpha")
        .registry(registry.clone())
        .pair()
        .unwrap();
    let (beta, _) = PrometheusMetricsBuilder::new("beta").registry(registry.clone()).pair().unwrap();
    alpha.update_metrics("/a", "GET", 200, Instant::now());
    alpha.update_metrics("/a", "GET", 200, Instant::now());
    beta.update_metrics("/b", "PUT", 204, Instant::now());
    let text = exposed.metrics().unwrap();
    assert!(text.contains("alpha_http_requests_total{endpoint=\"/a\",method=\"GET\",status=\"200\"} 2\n"));
    assert!(text.contains("beta_http_requests_total{endpoint=\"/b\",method=\"PUT\",status=\"204\"} 1\n"));
    assert!(!text.contains("alpha_http_requests_total{endpoint=\"/b\""));
    assert!(!text.contains("beta_http_requests_total{endpoint=\"/a\""));
}

#[test]
fn given_registry_is_the_one_returned() {
    let registry = prometheus::Registry::new();
    let own = prometheus::IntCounter::new("jobs_total", "Jobs run").unwrap();
    registry.register(Box::new(own.clone())).unwrap();
    own.inc();
    let (_metrics, exposed) = PrometheusMetricsBuilder::new("g").registry(registry).pair().unwrap();
    let text = exposed.metrics().unwrap();
    assert!(text.contains("jobs_total 1\n"));
    let later = prometheus::IntCounter::new("late_total", "Registered after the build").unwrap();
    exposed.registry.register(Box::new(later.clone())).unwrap();
    later.inc();
    assert!(exposed.metrics().unwrap().contains("late_total 1\n"));
}

#[test]
fn conclusion_follows_the_registry() {
    let (metrics, _registry) = PrometheusMetricsBuilder::new("first").pair().unwrap();
    let refused = PrometheusMetricsBuilder::new("second").conclude(
        metrics.http_requests_total().clone(),
        metrics.http_requests_duration_seconds().clone(),
        Err(CollectorFault::AlreadyRegistered),
    );
    assert!(matches!(refused, Err(MetricsError::Registration(CollectorFault::AlreadyRegistered))));

    let refused = PrometheusMetricsBuilder::new("second").conclude(
        metrics.http_requests_total().clone(),
        metrics.http_requests_duration_seconds().clone(),
        Err(CollectorFault::Message("inconsistent".to_string())),
    );
    match refused {
        Err(MetricsError::Registration(CollectorFault::Message(message))) => {
            assert_eq!(message, "inconsistent");
        }
        other => panic!("unexpected: {:?}", other.map(|_| ())),
    }

    let registry = prometheus::Registry::new();
    let (built, exposed) = PrometheusMetricsBuilder::new("second")
        .endpoint(Some("/scrape"))
        .registry(registry.clone())
        .conclude(
            metrics.http_requests_total().clone(),
            metrics.http_requests_duration_seconds().clone(),
            Ok(()),
        )
        .unwrap();
    assert_eq!(built.namespace(), "second");
    assert_eq!(built.endpoint(), Some("/scrape"));
    assert!(built.const_labels().is_empty());
    built.update_metrics("/shared", "GET", 200, Instant::now());
    assert_eq!(exposed.metrics().unwrap(), "");
    let own = prometheus::IntCounter::new("seen_total", "Seen").unwrap();
    registry.register(Box::new(own)).unwrap();
    assert!(exposed.metrics().unwrap().contains("seen_total 0\n"));
}
