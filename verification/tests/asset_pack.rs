use backgroundassets::asset_pack::{AssetPackSnapshot, AssetPackStatus};

fn flags() -> [AssetPackStatus; 7] {
    [
        AssetPackStatus::download_available(),
        AssetPackStatus::update_available(),
        AssetPackStatus::up_to_date(),
        AssetPackStatus::out_of_date(),
        AssetPackStatus::obsolete(),
        AssetPackStatus::downloading(),
        AssetPackStatus::downloaded(),
    ]
}

#[test]
fn status_flags_have_the_framework_bits() {
    let bits: Vec<u64> = flags().iter().map(|f| f.bits()).collect();
    assert_eq!(bits, vec![1, 2, 4, 8, 16, 32, 64]);
}

#[test]
fn status_flags_are_distinct() {
    for (i, a) in flags().iter().enumerate() {
        assert!(!a.is_empty());
        for (j, b) in flags().iter().enumerate() {
            assert_eq!(a.contains(*b), i == j);
        }
    }
}

#[test]
fn status_union_and_intersection() {
    let a = AssetPackStatus::downloading() | AssetPackStatus::update_available();
    assert_eq!(a.bits(), 34);
    assert!(a.contains(AssetPackStatus::downloading()));
    assert!(a.contains(AssetPackStatus::update_available()));
    assert!(!a.contains(AssetPackStatus::downloaded()));
    let b = a & AssetPackStatus::downloading();
    assert_eq!(b, AssetPackStatus::downloading());
    let mut c = AssetPackStatus::new(0);
    assert!(c.is_empty());
    assert!(a.contains(c));
    c |= AssetPackStatus::obsolete();
    assert_eq!(c.bits(), 16);
    c &= AssetPackStatus::up_to_date();
    assert!(c.is_empty());
}

#[test]
fn asset_pack_snapshot_holds_its_fields() {
    let s = AssetPackSnapshot { id: "pack.one".into(), download_size: 1024, version: 3, description: "Pack One".into() };
    assert_eq!(s.clone(), s);
    assert_eq!(s.id, "pack.one");
}
