use storelib_rs::enums::DisplayCatalogResult;
use storelib_rs::error::StoreError;
use storelib_rs::fe3_model::{PackageInstance, ResolvedFileLocation};
use storelib_rs::resolve::{
    catalog_sizes, check_batch_ids, json_context_window, resolve_package, resolve_packages,
    wu_category_for_packages, CatalogPackageSize, QueryOutcome, QueryState,
};

fn loc(url: &str, digest: Option<&str>) -> ResolvedFileLocation {
    ResolvedFileLocation { url: url.into(), digest: digest.map(str::to_owned) }
}

fn inst(moniker: &str, digest: Option<&str>, size: Option<i64>) -> PackageInstance {
    PackageInstance {
        package_moniker: moniker.into(),
        digest: digest.map(str::to_owned),
        file_size: size,
        ..Default::default()
    }
}

#[test]
fn query_dcat_batch_rejects_empty_ids() {
    match check_batch_ids(&[]) {
        Err(StoreError::Other(m)) => assert_eq!(m, "query_dcat_batch: ids must be non-empty"),
        other => panic!("expected an error, got {other:?}"),
    }
    assert!(check_batch_ids(&["9WZDNCRFJ3TJ"]).is_ok());
}

#[test]
fn primary_url_prefers_matching_digest() {
    let r = resolve_package(
        inst("P_1", Some("BIN"), Some(10)),
        "uid".into(),
        vec![loc("http://blockmap", Some("BMAP")), loc("http://binary", Some("BIN"))],
        &[],
    );
    assert_eq!(r.package_uri.as_deref(), Some("http://binary"));
    assert_eq!(r.update_id, "uid");
    assert_eq!(r.all_file_locations.len(), 2);
    assert_eq!(r.file_size, Some(10));
}

#[test]
fn primary_url_falls_back_to_first_location() {
    let r = resolve_package(
        inst("P_1", Some("NOPE"), None),
        "u".into(),
        vec![loc("http://first", Some("X")), loc("http://second", None)],
        &[],
    );
    assert_eq!(r.package_uri.as_deref(), Some("http://first"));
    let r = resolve_package(inst("P_1", None, None), "u".into(), vec![], &[]);
    assert_eq!(r.package_uri, None);
}

#[test]
fn catalog_size_fills_only_missing_sizes_last_entry_wins() {
    let sizes = vec![
        CatalogPackageSize { package_full_name: "P_1".into(), max_download_size: 100 },
        CatalogPackageSize { package_full_name: "Q_1".into(), max_download_size: 7 },
        CatalogPackageSize { package_full_name: "P_1".into(), max_download_size: 200 },
    ];
    let r = resolve_package(inst("P_1", None, None), "u".into(), vec![], &sizes);
    assert_eq!(r.file_size, Some(200));
    let r = resolve_package(inst("P_1", None, Some(5)), "u".into(), vec![], &sizes);
    assert_eq!(r.file_size, Some(5));
    let r = resolve_package(inst("Z_1", None, None), "u".into(), vec![], &sizes);
    assert_eq!(r.file_size, None);
}

#[test]
fn resolve_packages_pairs_by_position() {
    let insts = vec![inst("A_1", None, None), inst("B_1", None, None), inst("C_1", None, None)];
    let ids = vec!["ua".to_string(), "ub".to_string()];
    let locs = vec![vec![loc("http://a", None)]];
    let out = resolve_packages(insts, &ids, locs, &[]);
    assert_eq!(out.len(), 3);
    assert_eq!(out[0].update_id, "ua");
    assert_eq!(out[0].package_uri.as_deref(), Some("http://a"));
    assert_eq!(out[1].update_id, "ub");
    assert_eq!(out[1].package_uri, None);
    assert_eq!(out[2].update_id, "");
    assert_eq!(out[2].package_moniker, "C_1");
}

#[test]
fn query_state_follows_status() {
    let mut st = QueryState::new();
    st.begin_single("9WZ");
    assert_eq!(st.id.as_deref(), Some("9WZ"));
    assert_eq!(st.finish_single(200), QueryOutcome::Found);
    assert!(st.is_found);
    assert_eq!(st.result, Some(DisplayCatalogResult::Found));

    st.begin_single("missing");
    assert!(!st.is_found);
    assert_eq!(st.finish_single(404), QueryOutcome::NotFound);
    assert_eq!(st.result, Some(DisplayCatalogResult::NotFound));
    assert!(!st.is_found);

    st.begin_single("broken");
    assert_eq!(st.finish_single(500), QueryOutcome::Failed);
    assert_eq!(st.result, None);

    st.begin_batch();
    assert_eq!(st.id, None);
    st.finish_batch(0);
    assert_eq!(st.result, Some(DisplayCatalogResult::Found));
    assert!(!st.is_found);
    st.finish_batch(2);
    assert!(st.is_found);

    assert!(st.finish_search(204));
    assert!(!st.finish_search(503));
}

#[test]
fn json_window_is_clamped() {
    assert_eq!(json_context_window(100, 50, 40), (9, 89, 40));
    assert_eq!(json_context_window(100, 1, 40), (0, 40, 0));
    assert_eq!(json_context_window(10, 0, 40), (0, 10, 0));
    assert_eq!(json_context_window(10, 500, 4), (6, 10, 4));
}

#[test]
fn packages_need_a_product_and_a_category() {
    match wu_category_for_packages(false, Some("cat")) {
        Err(StoreError::Other(m)) => assert_eq!(m, "Cannot get packages: product data is null."),
        other => panic!("expected an error, got {other:?}"),
    }
    match wu_category_for_packages(true, None) {
        Err(StoreError::Other(m)) => {
            assert_eq!(m, "Cannot get packages: FulfillmentData (WuCategoryId) is missing.")
        }
        other => panic!("expected an error, got {other:?}"),
    }
    assert_eq!(wu_category_for_packages(true, Some("cat-abc")).unwrap(), "cat-abc");
}

#[test]
fn catalog_sizes_keep_complete_entries_in_order() {
    let listing = vec![
        (Some("A_1".to_string()), Some(10)),
        (None, Some(20)),
        (Some("B_1".to_string()), None),
        (Some("A_1".to_string()), Some(30)),
    ];
    let sizes = catalog_sizes(&listing);
    assert_eq!(sizes.len(), 2);
    assert_eq!(sizes[0].package_full_name, "A_1");
    assert_eq!(sizes[0].max_download_size, 10);
    assert_eq!(sizes[1].package_full_name, "A_1");
    assert_eq!(sizes[1].max_download_size, 30);
    // The later entry wins when resolution reads the table.
    let r = resolve_package(inst("A_1", None, None), "u".into(), vec![loc("http://x", None)], &sizes);
    assert_eq!(r.file_size, Some(30));
}
