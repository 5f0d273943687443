use axum_prom::labels::label_path;
use axum_prom::labels::sample_labels;
use axum_prom::labels::status_label;

#[test]
fn status_is_written_in_decimal() {
    assert_eq!(status_label(200), "200");
    assert_eq!(status_label(404), "404");
    assert_eq!(status_label(500), "500");
    assert_eq!(status_label(101), "101");
    assert_eq!(status_label(999), "999");
}

#[test]
fn status_has_no_leading_zeros() {
    assert_eq!(status_label(0), "0");
    assert_eq!(status_label(7), "7");
    assert_eq!(status_label(10), "10");
    assert_eq!(status_label(99), "99");
    assert_eq!(status_label(100), "100");
    assert_eq!(status_label(1000), "1000");
    assert_eq!(status_label(65535), "65535");
}

#[test]
fn status_agrees_with_the_standard_rendering() {
    let mut code: u16 = 0;
    loop {
        assert_eq!(status_label(code), code.to_string());
        if code == u16::MAX {
            break;
        }
        code += 1;
    }
}

#[test]
fn matched_route_wins_over_literal_path() {
    assert_eq!(label_path(Some("/users/:id"), "/users/42"), "/users/:id");
    assert_eq!(label_path(Some("/"), "/anything"), "/");
}

#[test]
fn literal_path_is_the_fallback() {
    assert_eq!(label_path(None, "/users/42"), "/users/42");
    assert_eq!(label_path(None, ""), "");
}

#[test]
fn sample_labels_hold_path_method_and_status() {
    let labels = sample_labels("/hello/:name", "POST", 201);
    assert_eq!(labels.endpoint, "/hello/:name");
    assert_eq!(labels.method, "POST");
    assert_eq!(labels.status, "201");
}
