use backgroundassets::error::{
    default_bridge_code, default_bridge_domain, is_managed_error_domain, required_cstring,
    BackgroundAssetsError, BridgeErrorPayload, ManagedBackgroundAssetsError,
    ManagedBackgroundAssetsErrorCode,
};

fn payload(domain: &str, code: i64, message: &str, asset_pack_id: Option<&str>, file_path: Option<&str>) -> BridgeErrorPayload {
    BridgeErrorPayload {
        domain: domain.into(),
        code,
        message: message.into(),
        asset_pack_id: asset_pack_id.map(Into::into),
        file_path: file_path.map(Into::into),
    }
}

#[test]
fn managed_error_conversion_preserves_asset_pack_id() {
    // {"domain":"BackgroundAssets.ManagedBackgroundAssetsError","code":0,"message":"missing","assetPackID":"pack.one"}
    let error = BackgroundAssetsError::from_json_outcome(
        r#"{"domain":"BackgroundAssets.ManagedBackgroundAssetsError","code":0,"message":"missing","assetPackID":"pack.one"}"#,
        Some(payload("BackgroundAssets.ManagedBackgroundAssetsError", 0, "missing", Some("pack.one"), None)),
    );

    assert_eq!(
        error.managed_error_code(),
        Some(ManagedBackgroundAssetsErrorCode::AssetPackNotFound)
    );
    let managed = error.into_managed_background_assets_error().unwrap();
    assert_eq!(managed.asset_pack_id(), Some("pack.one"));
    assert_eq!(managed.file_path(), None);
}

#[test]
fn managed_error_conversion_preserves_file_path() {
    let error = BackgroundAssetsError::from_json_outcome(
        r#"{"domain":"BAManagedErrorDomain","code":1,"message":"missing","filePath":"Assets/file.bin"}"#,
        Some(payload("BAManagedErrorDomain", 1, "missing", None, Some("Assets/file.bin"))),
    );

    assert_eq!(
        error.managed_error_code(),
        Some(ManagedBackgroundAssetsErrorCode::FileNotFound)
    );
    let managed = error.into_managed_background_assets_error().unwrap();
    assert_eq!(managed.asset_pack_id(), None);
    assert_eq!(managed.file_path(), Some("Assets/file.bin"));
}

#[test]
fn non_managed_error_rejects_conversion() {
    let error = BackgroundAssetsError::from_json_outcome(
        r#"{"domain":"BackgroundAssetsBridge","code":-1,"message":"nope"}"#,
        Some(payload("BackgroundAssetsBridge", -1, "nope", None, None)),
    );

    assert_eq!(error.managed_error_code(), None);
    assert!(error.into_managed_background_assets_error().is_err());
}

#[test]
fn undecodable_json_becomes_the_message_of_a_bridge_error() {
    let error = BackgroundAssetsError::from_json_outcome("not json", None);
    assert_eq!(error.domain(), "BackgroundAssetsBridge");
    assert_eq!(error.code(), -1);
    assert_eq!(error.message_text(), "not json");
    assert_eq!(error.asset_pack_id(), None);
    assert_eq!(error.file_path(), None);
}

#[test]
fn empty_payload_message_gets_the_generic_one() {
    let error = BackgroundAssetsError::from_bridge_payload(payload("D", 7, "", None, None));
    assert_eq!(error.message_text(), "BackgroundAssets operation failed");
    assert_eq!(error.domain(), "D");
    assert_eq!(error.code(), 7);
}

#[test]
fn bridge_defaults_are_the_bridge_domain_and_minus_one() {
    assert_eq!(default_bridge_code(), -1);
    assert_eq!(default_bridge_domain(), "BackgroundAssetsBridge");
    let error = BackgroundAssetsError::invalid_argument("bad".into());
    assert_eq!(error.domain(), "BackgroundAssetsBridge");
    assert_eq!(error.code(), -1);
    assert_eq!(error.message_text(), "bad");
    assert_eq!(BackgroundAssetsError::message("m".into()), BackgroundAssetsError::invalid_argument("m".into()));
}

#[test]
fn managed_domains_are_recognised() {
    assert!(is_managed_error_domain("BAManagedErrorDomain"));
    assert!(is_managed_error_domain("BackgroundAssets.ManagedBackgroundAssetsError"));
    assert!(is_managed_error_domain("MyModule.ManagedBackgroundAssetsError"));
    assert!(!is_managed_error_domain("ManagedBackgroundAssetsError"));
    assert!(!is_managed_error_domain("BAErrorDomain"));
    assert!(!is_managed_error_domain(""));
}

#[test]
fn managed_codes_round_trip_through_raw_values() {
    for raw in [-5_i64, 0, 1, 2, i64::MIN, i64::MAX] {
        assert_eq!(ManagedBackgroundAssetsErrorCode::from_raw(raw).raw_value(), raw);
    }
    assert_eq!(ManagedBackgroundAssetsErrorCode::from_raw(0), ManagedBackgroundAssetsErrorCode::AssetPackNotFound);
    assert_eq!(ManagedBackgroundAssetsErrorCode::from_raw(1), ManagedBackgroundAssetsErrorCode::FileNotFound);
    assert_eq!(ManagedBackgroundAssetsErrorCode::from_raw(9), ManagedBackgroundAssetsErrorCode::Unknown(9));
}

#[test]
fn managed_error_keeps_everything_of_the_error() {
    let error = BackgroundAssetsError::from_bridge_payload(payload(
        "Mod.ManagedBackgroundAssetsError",
        42,
        "odd",
        Some("p"),
        Some("f"),
    ));
    let managed = ManagedBackgroundAssetsError::from_background_assets_error(error.clone()).unwrap();
    assert_eq!(managed.managed_code(), ManagedBackgroundAssetsErrorCode::Unknown(42));
    assert_eq!(managed.domain(), "Mod.ManagedBackgroundAssetsError");
    assert_eq!(managed.code(), 42);
    assert_eq!(managed.message_text(), "odd");
    assert_eq!(managed.as_background_assets_error(), &error);
    let back: BackgroundAssetsError = managed.clone().into();
    assert_eq!(back, error);
    assert_eq!(managed.into_background_assets_error(), error);
    let tried = ManagedBackgroundAssetsError::try_from(error.clone()).unwrap();
    assert_eq!(tried.code(), 42);
}

#[test]
fn non_managed_error_is_handed_back() {
    let error = BackgroundAssetsError::invalid_argument("x".into());
    assert!(ManagedBackgroundAssetsError::from_background_assets_error(error.clone()).is_none());
    assert_eq!(ManagedBackgroundAssetsError::try_from(error.clone()).unwrap_err(), error);
}

#[test]
fn errors_read_as_message_domain_and_code() {
    let error = BackgroundAssetsError::from_bridge_payload(payload("D", -12, "went wrong", None, None));
    assert_eq!(error.to_display_string(), "went wrong (D:-12)");
    let zero = BackgroundAssetsError::from_bridge_payload(payload("E", 0, "z", None, None));
    assert_eq!(zero.to_display_string(), "z (E:0)");
    let min = BackgroundAssetsError::from_bridge_payload(payload("E", i64::MIN, "m", None, None));
    assert_eq!(min.to_display_string(), format!("m (E:{})", i64::MIN));
    let managed = ManagedBackgroundAssetsError::from_background_assets_error(
        BackgroundAssetsError::from_bridge_payload(payload("BAManagedErrorDomain", 1, "gone", None, None)),
    )
    .unwrap();
    assert_eq!(managed.to_display_string(), "gone (BAManagedErrorDomain:1)");
}

#[test]
fn required_cstring_refuses_interior_nul_bytes() {
    assert_eq!(required_cstring("pack", "identifier").unwrap(), "pack");
    let error = required_cstring("pa\0ck", "identifier").unwrap_err();
    assert_eq!(
        error.message_text(),
        "identifier contains an interior NUL byte: nul byte found in provided data at position: 2"
    );
    let error = required_cstring("é\0", "path").unwrap_err();
    assert!(error.message_text().ends_with("position: 2"));
    assert!(error.message_text().contains("NUL"));
}
