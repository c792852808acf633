use backgroundassets::download::{
    is_https_url, ContentRequest, DownloadPriority, DownloadStatus, UrlDownloadOptions,
    UrlDownloadRequest,
};

const URL: &str = "https://example.com/assets/pack.bin";
const GROUP: &str = "group.fish.doom.backgroundassets.tests";
const MIN: DownloadPriority = DownloadPriority(-100);
const MAX: DownloadPriority = DownloadPriority(100);

fn options(priority: i64) -> UrlDownloadOptions {
    UrlDownloadOptions::defaults(DownloadPriority::new(priority))
}

#[test]
fn content_requests_round_trip_through_raw_values() {
    assert_eq!(ContentRequest::Install.as_raw(), 1);
    assert_eq!(ContentRequest::Update.as_raw(), 2);
    assert_eq!(ContentRequest::Periodic.as_raw(), 3);
    assert_eq!(ContentRequest::from_raw(1), ContentRequest::Install);
    assert_eq!(ContentRequest::from_raw(2), ContentRequest::Update);
    assert_eq!(ContentRequest::from_raw(3), ContentRequest::Periodic);
    assert_eq!(ContentRequest::from_raw(9), ContentRequest::Unknown(9));
    for raw in [-1_isize, 0, 1, 2, 3, 4, isize::MAX] {
        assert_eq!(ContentRequest::from_raw(raw).as_raw(), raw);
    }
}

#[test]
fn only_install_and_update_allow_essential_downloads() {
    assert!(ContentRequest::Install.allows_essential_downloads());
    assert!(ContentRequest::Update.allows_essential_downloads());
    assert!(!ContentRequest::Periodic.allows_essential_downloads());
    assert!(!ContentRequest::Unknown(9).allows_essential_downloads());
}

#[test]
fn download_states_come_from_raw_values() {
    assert_eq!(DownloadStatus::from_raw(-1), DownloadStatus::Failed);
    assert_eq!(DownloadStatus::from_raw(0), DownloadStatus::Created);
    assert_eq!(DownloadStatus::from_raw(1), DownloadStatus::Waiting);
    assert_eq!(DownloadStatus::from_raw(2), DownloadStatus::Downloading);
    assert_eq!(DownloadStatus::from_raw(3), DownloadStatus::Finished);
    assert_eq!(DownloadStatus::from_raw(4), DownloadStatus::Unknown(4));
}

#[test]
fn priorities_keep_their_raw_value() {
    assert_eq!(DownloadPriority::new(7).raw_value(), 7);
    assert_eq!(DownloadPriority::new(i64::MIN).raw_value(), i64::MIN);
}

#[test]
fn default_options_are_a_plain_get() {
    let o = UrlDownloadOptions::defaults(DownloadPriority::new(3));
    assert_eq!(o.method, "GET");
    assert!(o.headers.is_empty());
    assert!(!o.essential);
    assert_eq!(o.priority, DownloadPriority::new(3));
}

#[test]
fn url_download_checks_pass_a_valid_request() {
    let mut o = options(5);
    o.headers.insert("Authorization".into(), "token".into());
    o.headers.insert("Accept".into(), "*/*".into());
    o.essential = true;
    let request = UrlDownloadRequest::validate("pack", URL, 1024, GROUP, o, MIN, MAX).unwrap();
    assert_eq!(request.identifier, "pack");
    assert_eq!(request.url, URL);
    assert_eq!(request.method, "GET");
    assert_eq!(request.headers_json, r#"{"Accept":"*/*","Authorization":"token"}"#);
    assert_eq!(request.file_size, 1024);
    assert_eq!(request.app_group_id, GROUP);
    assert!(request.essential);
    assert_eq!(request.priority, 5);
}

#[test]
fn url_download_headers_are_written_as_escaped_json() {
    let mut o = options(0);
    o.headers.insert("X-Quote".into(), "a\"b\0".into());
    let request = UrlDownloadRequest::validate("pack", URL, 1, GROUP, o, MIN, MAX).unwrap();
    assert_eq!(request.headers_json, r#"{"X-Quote":"a\"b\u0000"}"#);
    let empty = UrlDownloadRequest::validate("pack", URL, 1, GROUP, options(0), MIN, MAX).unwrap();
    assert_eq!(empty.headers_json, "{}");
}

#[test]
fn url_download_rejects_invalid_arguments_before_calling_the_framework() {
    let zero = UrlDownloadRequest::validate("pack", URL, 0, GROUP, options(0), MIN, MAX).unwrap_err();
    assert!(zero.message_text().contains("file_size"), "{}", zero.message_text());

    let huge = UrlDownloadRequest::validate("pack", URL, u64::MAX, GROUP, options(0), MIN, MAX).unwrap_err();
    assert!(huge.message_text().contains("file_size"), "{}", huge.message_text());

    for raw in [MAX.raw_value() + 1, MIN.raw_value() - 1, i64::MAX] {
        let error = UrlDownloadRequest::validate("pack", URL, 1024, GROUP, options(raw), MIN, MAX).unwrap_err();
        assert!(error.message_text().contains("priority"), "{}", error.message_text());
    }

    let nul = UrlDownloadRequest::validate("pa\0ck", URL, 1024, GROUP, options(0), MIN, MAX).unwrap_err();
    assert!(nul.message_text().contains("NUL"), "{}", nul.message_text());

    let insecure =
        UrlDownloadRequest::validate("pack", "http://example.com/pack.bin", 1024, GROUP, options(0), MIN, MAX)
            .unwrap_err();
    assert!(insecure.message_text().contains("https"), "{}", insecure.message_text());
}

#[test]
fn https_urls_are_recognised_in_any_case() {
    assert!(is_https_url("https://example.com"));
    assert!(is_https_url("HTTPS://example.com"));
    assert!(is_https_url("HtTpS:x"));
    assert!(!is_https_url("http://example.com"));
    assert!(!is_https_url("https"));
    assert!(!is_https_url("httpsx://example.com"));
    assert!(!is_https_url(" https://example.com"));
}

#[test]
fn url_download_checks_run_in_order() {
    let mut o = options(i64::MAX);
    o.method = "G\0ET".into();
    let error = UrlDownloadRequest::validate("pack", "u\0rl", 0, "g\0", o, MIN, MAX).unwrap_err();
    assert_eq!(
        error.message_text(),
        "url contains an interior NUL byte: nul byte found in provided data at position: 1"
    );
    let mut o = options(i64::MAX);
    o.method = "G\0ET".into();
    let error = UrlDownloadRequest::validate("pack", URL, 0, "g\0", o, MIN, MAX).unwrap_err();
    assert!(error.message_text().starts_with("method contains"));
    let error = UrlDownloadRequest::validate("pack", URL, 0, "g\0", options(i64::MAX), MIN, MAX).unwrap_err();
    assert!(error.message_text().starts_with("app_group_id contains"));
    let error = UrlDownloadRequest::validate("pack", URL, 0, GROUP, options(200), MIN, MAX).unwrap_err();
    assert_eq!(error.message_text(), "file_size must be between 1 and isize::MAX");
}

#[test]
fn url_download_from_parts_reports_a_failed_header_encoding() {
    let error = UrlDownloadRequest::from_parts(
        "pack",
        URL,
        1,
        GROUP,
        options(0),
        Err("key must be a string".into()),
        MIN,
        MAX,
    )
    .unwrap_err();
    assert_eq!(error.message_text(), "key must be a string");
    assert_eq!(error.domain(), "BackgroundAssetsBridge");
    let ok = UrlDownloadRequest::from_parts("pack", URL, 1, GROUP, options(0), Ok("{}".into()), MIN, MAX).unwrap();
    assert_eq!(ok.headers_json, "{}");
}
