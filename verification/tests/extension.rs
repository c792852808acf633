use backgroundassets::asset_pack::AssetPackSnapshot;
use backgroundassets::download::{ContentRequest, DownloadPriority, DownloadSnapshot, DownloadStatus};
use backgroundassets::error::BackgroundAssetsError;
use backgroundassets::extension::{
    challenge_outcome, check_download_plan, download_plan_outcome, should_download_outcome,
    AppExtensionInfoSnapshot, AuthenticationChallenge, ChallengeDisposition, ExtensionEvent,
};

fn snapshot(id: &str, essential: bool) -> DownloadSnapshot {
    DownloadSnapshot {
        identifier: id.into(),
        unique_identifier: format!("unique.{id}"),
        status: DownloadStatus::Created,
        priority: DownloadPriority::new(0),
        is_essential: essential,
        is_url_download: true,
    }
}

fn pack(id: &str) -> AssetPackSnapshot {
    AssetPackSnapshot { id: id.into(), download_size: 1, version: 1, description: "Skip".into() }
}

#[test]
fn plans_without_essential_downloads_pass_for_every_request() {
    for request in [
        ContentRequest::Install,
        ContentRequest::Update,
        ContentRequest::Periodic,
        ContentRequest::Unknown(9),
    ] {
        assert!(check_download_plan(request, &[]).is_ok());
        assert!(check_download_plan(request, &[snapshot("a", false)]).is_ok());
    }
}

#[test]
fn essential_downloads_need_an_install_or_update_request() {
    let plan = [snapshot("a", false), snapshot("b", true)];
    assert!(check_download_plan(ContentRequest::Install, &plan).is_ok());
    assert!(check_download_plan(ContentRequest::Update, &plan).is_ok());
    let error = check_download_plan(ContentRequest::Periodic, &plan).unwrap_err();
    assert_eq!(
        error.message_text(),
        "essential downloads are only allowed for install and update content requests"
    );
    assert!(check_download_plan(ContentRequest::Unknown(0), &plan).is_err());
}

#[test]
fn challenge_dispositions_have_the_framework_values() {
    assert_eq!(ChallengeDisposition::UseCredential.as_raw(), 0);
    assert_eq!(ChallengeDisposition::PerformDefaultHandling.as_raw(), 1);
    assert_eq!(ChallengeDisposition::CancelAuthenticationChallenge.as_raw(), 2);
    assert_eq!(ChallengeDisposition::RejectProtectionSpace.as_raw(), 3);
    assert_eq!(ChallengeDisposition::default(), ChallengeDisposition::PerformDefaultHandling);
}

#[test]
fn defaults_of_extension_payloads_are_empty() {
    let info = AppExtensionInfoSnapshot::default();
    assert_eq!(info.restricted_download_size_remaining, None);
    assert_eq!(info.restricted_essential_download_size_remaining, None);
    let challenge = AuthenticationChallenge::default();
    assert_eq!(challenge.host, "");
    assert_eq!(challenge.previous_failure_count, 0);
    assert_eq!(challenge.proposed_credential_user, None);
    assert!(!challenge.proposed_credential_has_password);
}

#[test]
fn should_download_takes_the_handler_answer_or_yes() {
    let (event, answer) = should_download_outcome(pack("pack.skip"), Some(false));
    assert!(!answer);
    assert_eq!(event, ExtensionEvent::ShouldDownloadAssetPack { asset_pack: pack("pack.skip"), should_download: false });
    let (event, answer) = should_download_outcome(pack("pack.keep"), None);
    assert!(answer);
    assert!(matches!(event, ExtensionEvent::ShouldDownloadAssetPack { should_download: true, .. }));
}

#[test]
fn challenge_takes_the_handler_answer_or_the_default() {
    let (event, raw) = challenge_outcome(snapshot("d", false), AuthenticationChallenge::default(), Some(ChallengeDisposition::RejectProtectionSpace));
    assert_eq!(raw, 3);
    assert!(matches!(event, ExtensionEvent::ChallengeRequested { disposition: ChallengeDisposition::RejectProtectionSpace, .. }));
    let (event, raw) = challenge_outcome(snapshot("d", false), AuthenticationChallenge::default(), None);
    assert_eq!(raw, 1);
    assert!(matches!(event, ExtensionEvent::ChallengeRequested { disposition: ChallengeDisposition::PerformDefaultHandling, .. }));
}

#[test]
fn download_plans_are_reported_or_refused() {
    let info = AppExtensionInfoSnapshot { restricted_download_size_remaining: Some(4096), restricted_essential_download_size_remaining: Some(1024) };
    let plan = vec![snapshot("a", true)];
    let (event, accepted) = download_plan_outcome(ContentRequest::Install, "https://m".into(), info.clone(), Some(Ok(plan.clone())));
    assert!(accepted);
    assert_eq!(
        event,
        ExtensionEvent::DownloadsRequested {
            request: ContentRequest::Install,
            manifest_url: "https://m".into(),
            extension_info: info.clone(),
            planned_downloads: plan.clone(),
        }
    );

    let (event, accepted) = download_plan_outcome(ContentRequest::Periodic, "https://m".into(), info.clone(), Some(Ok(plan)));
    assert!(!accepted);
    match event {
        ExtensionEvent::DownloadPlanFailed { request, error, .. } => {
            assert_eq!(request, ContentRequest::Periodic);
            assert!(error.message_text().contains("essential downloads"));
        }
        other => panic!("unexpected {other:?}"),
    }

    let (event, accepted) = download_plan_outcome(ContentRequest::Update, "u".into(), info.clone(), None);
    assert!(!accepted);
    match event {
        ExtensionEvent::DownloadPlanFailed { error, .. } => {
            assert_eq!(error.message_text(), "download plan handler panicked across the FFI boundary");
        }
        other => panic!("unexpected {other:?}"),
    }

    let failure = BackgroundAssetsError::invalid_argument("nope".into());
    let (event, accepted) = download_plan_outcome(ContentRequest::Update, "u".into(), info, Some(Err(failure.clone())));
    assert!(!accepted);
    assert_eq!(event, ExtensionEvent::DownloadPlanFailed { request: ContentRequest::Update, manifest_url: "u".into(), error: failure });
}
