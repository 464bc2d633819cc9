use base64::Engine;
use screenshot_rust::config::Config;
use screenshot_rust::config::ImageFormat;
use screenshot_rust::config::format_name;
use screenshot_rust::config::parse_format;
use screenshot_rust::config::str_eq;
use screenshot_rust::report::StepKind;
use screenshot_rust::report::base64_success_result;
use screenshot_rust::report::error_message;
use screenshot_rust::report::failure_result;
use screenshot_rust::report::file_success_result;
use screenshot_rust::session::capture_request;

fn sample_config() -> Config {
    Config {
        url: "https://example.com".to_string(),
        output: "shot.png".to_string(),
        width: 800,
        height: 600,
        full_page: true,
        quality: 77,
        format: ImageFormat::Png,
        base64: false,
    }
}

#[test]
fn parse_format_selects_jpeg_and_png() {
    assert_eq!(parse_format("png"), ImageFormat::Png);
    assert_eq!(parse_format("jpeg"), ImageFormat::Jpeg);
    assert_eq!(parse_format("jpg"), ImageFormat::Jpeg);
    assert_eq!(parse_format("webp"), ImageFormat::Png);
    assert_eq!(parse_format(""), ImageFormat::Png);
    assert_eq!(parse_format("JPEG"), ImageFormat::Png);
}

#[test]
fn format_name_round_trips() {
    assert_eq!(format_name(ImageFormat::Png), "png");
    assert_eq!(format_name(ImageFormat::Jpeg), "jpeg");
    assert_eq!(parse_format(format_name(ImageFormat::Png)), ImageFormat::Png);
    assert_eq!(parse_format(format_name(ImageFormat::Jpeg)), ImageFormat::Jpeg);
}

#[test]
fn str_eq_compares_exactly() {
    assert!(str_eq("", ""));
    assert!(str_eq("jpeg", "jpeg"));
    assert!(!str_eq("jpeg", "jpg"));
    assert!(!str_eq("jpg", "jpeg"));
    assert!(!str_eq("a", "b"));
}

#[test]
fn jpeg_quality_is_forwarded_verbatim() {
    let mut config = sample_config();
    config.format = ImageFormat::Jpeg;
    config.quality = 1;
    assert_eq!(capture_request(&config).quality, 1);
    config.quality = 100;
    assert_eq!(capture_request(&config).quality, 100);
    config.quality = 42;
    let request = capture_request(&config);
    assert_eq!(request.quality, 42);
    assert_eq!(request.format, ImageFormat::Jpeg);
    assert!(request.beyond_viewport);
}

#[test]
fn png_quality_uses_fixed_default() {
    let mut config = sample_config();
    config.quality = 42;
    let request = capture_request(&config);
    assert_eq!(request.format, ImageFormat::Png);
    assert_eq!(request.quality, 90);
    // the requested value is still echoed in the result record
    let result = file_success_result(&config, 10);
    assert_eq!(result.quality, 42);
}

#[test]
fn error_messages_name_each_step() {
    assert_eq!(
        error_message(StepKind::Launch, "boom"),
        "Failed to launch browser: boom"
    );
    assert_eq!(
        error_message(StepKind::NewPage, "boom"),
        "Failed to create new page: boom"
    );
    assert_eq!(
        error_message(StepKind::Navigate, "boom"),
        "Failed to navigate to URL: boom"
    );
    assert_eq!(
        error_message(StepKind::WaitNavigation, "boom"),
        "Failed to wait for navigation: boom"
    );
    assert_eq!(
        error_message(StepKind::Screenshot, "boom"),
        "Failed to capture screenshot: boom"
    );
    assert_eq!(
        error_message(StepKind::FileWrite, "boom"),
        "Failed to save screenshot to file: boom"
    );
}

#[test]
fn failure_record_shape() {
    let config = sample_config();
    let result = failure_result(&config, StepKind::Screenshot, "target crashed", 0);
    assert!(!result.success);
    assert_eq!(result.url, "https://example.com");
    assert_eq!(result.width, 800);
    assert_eq!(result.height, 600);
    assert!(result.full_page);
    assert_eq!(result.quality, 77);
    assert_eq!(result.size, 0);
    assert!(result.base64_data.is_none());
    assert!(result.file_path.is_none());
    assert_eq!(
        result.error,
        Some("Failed to capture screenshot: target crashed".to_string())
    );
}

#[test]
fn success_records_carry_exactly_one_export() {
    let config = sample_config();
    let by_file = file_success_result(&config, 123);
    assert!(by_file.success);
    assert_eq!(by_file.size, 123);
    assert_eq!(by_file.file_path, Some("shot.png".to_string()));
    assert!(by_file.base64_data.is_none());
    assert!(by_file.error.is_none());

    let by_payload = base64_success_result(&config, &vec![97, 98, 99]);
    assert!(by_payload.success);
    assert_eq!(by_payload.size, 3);
    assert!(by_payload.file_path.is_none());
    assert!(by_payload.base64_data.is_some());
    assert!(by_payload.error.is_none());
}

#[test]
fn base64_payload_is_standard_padded_encoding() {
    let config = sample_config();
    let result = base64_success_result(&config, &vec![97, 98, 99]);
    assert_eq!(result.base64_data, Some("YWJj".to_string()));

    let result = base64_success_result(&config, &vec![97]);
    assert_eq!(result.base64_data, Some("YQ==".to_string()));

    let data: Vec<u8> = vec![0xbe, 0xef];
    let result = base64_success_result(&config, &data);
    assert_eq!(result.size, 2);
    let payload = result.base64_data.unwrap();
    assert_eq!(payload.len(), 4);
    let decoded = base64::engine::general_purpose::STANDARD
        .decode(&payload)
        .unwrap();
    assert_eq!(decoded, data);
}
