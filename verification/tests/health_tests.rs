use lazymc_docker_proxy::health::healthy;
use lazymc_docker_proxy::health::unhealthy;
use lazymc_docker_proxy::health::Status;

#[test]
fn status_text_round_trips() {
    assert_eq!(Status::from_text(Status::Starting.text().as_str()), Status::Starting);
    assert_eq!(Status::from_text(Status::Healthy.text().as_str()), Status::Healthy);
    assert_eq!(Status::from_text(Status::Unhealthy.text().as_str()), Status::Unhealthy);
}

#[test]
fn status_texts_are_the_health_file_tokens() {
    assert_eq!(Status::Starting.text(), "STARTING".to_string());
    assert_eq!(Status::Healthy.text(), "HEALTHY".to_string());
    assert_eq!(Status::Unhealthy.text(), "UNHEALTHY".to_string());
}

#[test]
fn unknown_text_counts_as_unhealthy() {
    assert_eq!(Status::from_text("healthy"), Status::Unhealthy);
    assert_eq!(Status::from_text(""), Status::Unhealthy);
    assert_eq!(Status::from_text("OK"), Status::Unhealthy);
}

#[test]
fn file_content_is_trimmed_before_parsing() {
    assert_eq!(
        Status::from_file_content(&Some("HEALTHY\n".to_string())),
        Status::Healthy
    );
    assert_eq!(
        Status::from_file_content(&Some("  STARTING \t".to_string())),
        Status::Starting
    );
    assert_eq!(
        Status::from_file_content(&Some("UNHEALTHY".to_string())),
        Status::Unhealthy
    );
}

#[test]
fn unreadable_file_counts_as_unhealthy() {
    assert_eq!(Status::from_file_content(&None), Status::Unhealthy);
}

#[test]
fn exit_codes_reflect_health() {
    assert_eq!(Status::Healthy.exit_code(), 0);
    assert_eq!(Status::Starting.exit_code(), 1);
    assert_eq!(Status::Unhealthy.exit_code(), 1);
}

#[test]
fn healthy_and_unhealthy_render_file_content() {
    assert_eq!(healthy(), "HEALTHY".to_string());
    assert_eq!(unhealthy(), "UNHEALTHY".to_string());
}
