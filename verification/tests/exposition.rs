use axum_prom::metrics::exposition;
use axum_prom::CollectorFault;
use axum_prom::EncodingFault;
use axum_prom::ErrorKind;
use axum_prom::MetricsError;

#[test]
fn encoded_bytes_become_text() {
    let text = exposition(Ok(()), b"# TYPE x counter\nx 1\n".to_vec()).unwrap();
    assert_eq!(text, "# TYPE x counter\nx 1\n");
    assert_eq!(exposition(Ok(()), Vec::new()).unwrap(), "");
    assert_eq!(exposition(Ok(()), vec![0xc3, 0xa9]).unwrap(), "\u{e9}");
}

#[test]
fn encoder_refusal_is_an_encoding_error() {
    let refused = exposition(Err(CollectorFault::Message("no metrics".to_string())), Vec::new());
    match refused {
        Err(MetricsError::Encoding(EncodingFault::Collector(CollectorFault::Message(message)))) => {
            assert_eq!(message, "no metrics");
        }
        other => panic!("unexpected: {:?}", other),
    }
    let refused = exposition(Err(CollectorFault::Io), b"partial".to_vec());
    let error = refused.unwrap_err();
    assert!(matches!(error, MetricsError::Encoding(EncodingFault::Collector(CollectorFault::Io))));
    assert_eq!(error.kind(), ErrorKind::Encoding);
}

#[test]
fn bytes_that_are_not_utf8_are_an_encoding_error() {
    let refused = exposition(Ok(()), vec![b'a', 0xff, b'b']);
    assert!(matches!(refused, Err(MetricsError::Encoding(EncodingFault::InvalidUtf8))));
    let refused = exposition(Ok(()), vec![0xc3]);
    assert!(matches!(refused, Err(MetricsError::Encoding(EncodingFault::InvalidUtf8))));
}

fn family(name: &str, field_type: prometheus::proto::MetricType) -> prometheus::proto::MetricFamily {
    let mut family = prometheus::proto::MetricFamily::default();
    family.set_name(name.to_string());
    family.set_field_type(field_type);
    family.set_metric(vec![prometheus::proto::Metric::default()]);
    family
}

#[test]
fn typed_families_are_rendered() {
    let families = vec![
        family("jobs", prometheus::proto::MetricType::COUNTER),
        family("load", prometheus::proto::MetricType::GAUGE),
    ];
    let text = axum_prom::metrics::render(&families).unwrap();
    assert_eq!(text, "# TYPE jobs counter\njobs 0\n# TYPE load gauge\nload 0\n");
    assert_eq!(axum_prom::metrics::render(&Vec::new()).unwrap(), "");
}

#[test]
fn untyped_family_ends_the_scrape() {
    let families = vec![
        family("jobs", prometheus::proto::MetricType::COUNTER),
        family("odd", prometheus::proto::MetricType::UNTYPED),
    ];
    let refused = axum_prom::metrics::render(&families);
    assert!(matches!(refused, Err(MetricsError::Encoding(EncodingFault::Untyped))));
    let refused = axum_prom::metrics::render(&vec![family("odd", prometheus::proto::MetricType::UNTYPED)]);
    assert_eq!(refused.unwrap_err().kind(), ErrorKind::Encoding);
}

#[test]
fn encoder_refuses_a_family_without_name() {
    let refused = axum_prom::metrics::render(&vec![family("", prometheus::proto::MetricType::COUNTER)]);
    assert!(matches!(
        refused,
        Err(MetricsError::Encoding(EncodingFault::Collector(CollectorFault::Message(_))))
    ));
}

struct Odd;

impl prometheus::core::Collector for Odd {
    fn desc(&self) -> Vec<&prometheus::core::Desc> {
        Vec::new()
    }

    fn collect(&self) -> Vec<prometheus::proto::MetricFamily> {
        vec![family("odd", prometheus::proto::MetricType::UNTYPED)]
    }
}

#[test]
fn untyped_family_of_another_collector_ends_the_scrape() {
    let registry = prometheus::Registry::new();
    registry.register(Box::new(Odd)).unwrap();
    let (_metrics, exposed) = axum_prom::PrometheusMetricsBuilder::new("z").registry(registry).pair().unwrap();
    assert!(matches!(exposed.metrics(), Err(MetricsError::Encoding(EncodingFault::Untyped))));
}
