use sfproc::handler::{check_user_pattern, copy_outcome, copy_request, remove_first, CopyError, Handler, RunError};
use sfproc::listing::add_page;
use sfproc::types::{Cli, Metadata};

fn cli(regex: Option<&str>, kms_key: Option<&str>, pretend: bool) -> Cli {
    Cli {
        endpoint: "cib-1".to_string(),
        bucket: "settlements".to_string(),
        prefix: "".to_string(),
        suffix: None,
        regex: regex.map(|s| s.to_string()),
        kms_key: kms_key.map(|s| s.to_string()),
        verbose: false,
        pretend,
    }
}

fn keys(list: &[&str]) -> Vec<String> {
    list.iter().map(|s| s.to_string()).collect()
}

#[test]
fn example_key_classification_and_backup_name() {
    let handler = Handler::new("-bak");
    let key = "prod/TN-ABC/report.t112";
    assert!(handler.streamable(key));
    assert_eq!(remove_first(key, ".t112"), "prod/TN-ABC/report");
    assert!(!handler.filter(key, &None));
    let sf = handler.to_settlement_file("cib-1", "settlements", "TN-ABC/report_t112.dat");
    assert_eq!(sf.tenant.value(), "TN-ABC");
    assert_eq!(sf.backup_file.value(), "TN-ABC/report_t112-bak.dat");
    assert_eq!(sf.streamable.value(), "true");
    assert_eq!(sf.source_file.value(), "TN-ABC/report_t112.dat");
}

#[test]
fn example_key_backup_name_keeps_prefix_path() {
    let handler = Handler::new("-bak");
    let sf = handler.to_settlement_file("cib-1", "b", "tn-abc/prod/report.t12");
    assert_eq!(sf.backup_file.value(), "tn-abc/prod/report-bak.t12");
    assert_eq!(sf.tenant.value(), "tn-abc");
}

#[test]
fn example_excluded_key_is_not_eligible() {
    let handler = Handler::new("");
    let key = "prod/TN-ABC/archive/report.csv";
    assert!(!handler.filter(key, &None));
    let plan = handler.plan(&keys(&[key]), &cli(None, Some("k"), false));
    assert_eq!(plan.discovered, 1);
    assert!(plan.files.is_empty());
    assert!(plan.outcomes.is_empty());
}

#[test]
fn excluded_directory_blocks_matching_key() {
    let handler = Handler::new("");
    assert!(handler.filter("TN-ABC/report.csv", &None));
    assert!(!handler.filter("TN-ABC/&old/report.csv", &None));
}

#[test]
fn example_listing_failure_on_second_page_aborts() {
    let handler = Handler::new("");
    let first = add_page(Ok(Vec::new()), Ok(keys(&["TN-A/one.t12", "TN-A/two.csv"])));
    assert_eq!(first.as_ref().unwrap().len(), 2);
    let second = add_page(first, Err("throttled".to_string()));
    assert!(second.is_err());
    let third = add_page(second, Ok(keys(&["TN-A/three.csv"])));
    assert_eq!(third.clone().unwrap_err(), "throttled");
    let run = handler.run(third, &cli(None, Some("k"), false));
    assert!(matches!(run, Err(RunError::ListingFailed(ref m)) if m == "throttled"));
}

#[test]
fn listing_pages_accumulate_in_order() {
    let a = add_page(Ok(keys(&["x", "y"])), Ok(keys(&["z"]))).unwrap();
    assert_eq!(a, keys(&["x", "y", "z"]));
}

#[test]
fn key_without_extension_is_not_eligible() {
    let handler = Handler::new("");
    assert!(!handler.filter("TN-ABC/report", &None));
    assert!(!handler.filter("TN-ABC/report.t1", &None));
    assert!(!handler.filter("TN-ABC/report.t112", &None));
    assert!(!handler.filter("TN-ABC/report.ab\n", &None));
    assert!(handler.filter("TN-ABC/report.112", &None));
}

#[test]
fn tenant_prefix_is_case_insensitive_and_anchored() {
    let handler = Handler::new("");
    assert!(handler.filter("tn-x/a.csv", &None));
    assert!(handler.filter("Tn-x/a.csv", &None));
    assert!(!handler.filter("xtn-x/a.csv", &None));
    assert!(!handler.filter("tn-/a.csv", &None));
}

#[test]
fn user_pattern_narrows_structural_gates() {
    let handler = Handler::new("");
    let pat = Some("report".to_string());
    assert!(handler.filter("TN-A/report.csv", &pat));
    assert!(!handler.filter("TN-A/other.csv", &pat));
    assert!(!handler.filter("report.csv", &pat));
}

#[test]
fn invalid_user_pattern_matches_nothing() {
    let handler = Handler::new("");
    let pat = Some("(".to_string());
    assert!(!handler.filter("TN-A/report.csv", &pat));
    let plan = handler.plan(&keys(&["TN-A/a.csv", "TN-B/b.csv"]), &cli(Some("("), None, false));
    assert!(plan.files.is_empty());
}

#[test]
fn streamable_tokens_any_case() {
    let handler = Handler::new("");
    assert!(handler.streamable("TN-A/BASEII.dat"));
    assert!(handler.streamable("TN-A/x_T470_y.dat"));
    assert!(handler.streamable("TN-A/t120.dat"));
    assert!(handler.streamable("TN-A/t464"));
    assert!(!handler.streamable("TN-A/t113.csv"));
    assert!(!handler.streamable("TN-A/base.csv"));
}

#[test]
fn streamable_without_key_is_refused() {
    let handler = Handler::new("");
    let sf = handler.to_settlement_file("cib-1", "b", "TN-A/r_t112.bin");
    let r = copy_request(&sf, &None);
    assert!(matches!(r, Err(CopyError::MissingEncryptionKey)));
}

#[test]
fn streamable_with_key_is_encrypted() {
    let handler = Handler::new("");
    let sf = handler.to_settlement_file("cib-1", "b", "TN-A/r_t112.bin");
    let req = copy_request(&sf, &Some("arn:key".to_string())).ok().unwrap();
    assert_eq!(req.kms_key, Some("arn:key".to_string()));
    assert_eq!(req.copy_source, "b/TN-A/r_t112.bin");
    assert_eq!(req.bucket, "b");
    assert_eq!(req.key, "TN-A/r_t112.bin");
    assert!(req.replace_metadata);
}

#[test]
fn plain_file_copy_has_six_tags_and_no_encryption() {
    let handler = Handler::new("-old");
    let sf = handler.to_settlement_file("cib-9", "b", "TN-A/r.csv");
    let req = copy_request(&sf, &Some("arn:key".to_string())).ok().unwrap();
    assert_eq!(req.kms_key, None);
    assert_eq!(req.key, "TN-A/r-old.csv");
    let names: Vec<&str> = req.metadata.iter().map(|p| p.0.as_str()).collect();
    assert_eq!(names, vec!["OrgId", "Endpoint", "SourceFile", "BackupFile", "Streamable", "ParentCid"]);
    assert_eq!(req.metadata[0].1, "TN-A");
    assert_eq!(req.metadata[1].1, "cib-9");
    assert_eq!(req.metadata[2].1, "TN-A/r.csv");
    assert_eq!(req.metadata[3].1, "TN-A/r-old.csv");
    assert_eq!(req.metadata[4].1, "false");
    assert_eq!(req.metadata[5].1.len(), 36);
}

#[test]
fn pretend_mode_prepares_no_copy() {
    let handler = Handler::new("");
    let list = keys(&["TN-A/a_t112.bin", "TN-A/b.csv", "other"]);
    for kms in [None, Some("k")] {
        let plan = handler.plan(&list, &cli(None, kms, true));
        assert_eq!(plan.discovered, 3);
        assert_eq!(plan.files.len(), 2);
        assert!(plan.outcomes.is_empty());
    }
}

#[test]
fn one_failing_object_does_not_stop_the_others() {
    let handler = Handler::new("");
    let list = keys(&["TN-A/a_t112.bin", "TN-A/b.csv"]);
    let plan = handler.plan(&list, &cli(None, None, false));
    assert_eq!(plan.outcomes.len(), 2);
    assert!(matches!(plan.outcomes[0], Err(CopyError::MissingEncryptionKey)));
    assert!(plan.outcomes[1].is_ok());
}

#[test]
fn correlation_ids_are_fresh() {
    let handler = Handler::new("");
    let a = handler.to_settlement_file("e", "b", "TN-A/a.csv");
    let b = handler.to_settlement_file("e", "b", "TN-A/a.csv");
    assert_eq!(a.parent_cid.value().len(), 36);
    assert_ne!(a.parent_cid.value(), b.parent_cid.value());
}

#[test]
fn copy_outcome_requires_acknowledgment() {
    assert!(copy_outcome(Ok(true)).is_ok());
    assert!(matches!(copy_outcome(Ok(false)), Err(CopyError::CopyFailed(_))));
    assert!(matches!(copy_outcome(Err("denied".to_string())), Err(CopyError::CopyFailed(ref m)) if m == "denied"));
}

#[test]
fn remove_first_takes_only_first_occurrence() {
    assert_eq!(remove_first("a.csv/b.csv", ".csv"), "a/b.csv");
    assert_eq!(remove_first("abc", "x"), "abc");
    assert_eq!(remove_first("abc", ""), "abc");
}

#[test]
fn empty_suffix_keeps_key() {
    let handler = Handler::new("");
    let sf = handler.to_settlement_file("e", "b", "TN-A/a.csv");
    assert_eq!(sf.backup_file.value(), "TN-A/a.csv");
}

#[test]
fn metadata_names_and_values() {
    assert_eq!(Metadata::Tenant("TN-A".to_string()).name(), "OrgId");
    assert_eq!(Metadata::SourceFile("k".to_string()).name(), "SourceFile");
    assert_eq!(Metadata::BackupFile("k".to_string()).name(), "BackupFile");
    assert_eq!(Metadata::Endpoint("k".to_string()).name(), "Endpoint");
    assert_eq!(Metadata::Streamable("true".to_string()).name(), "Streamable");
    assert_eq!(Metadata::ParentCid("k".to_string()).name(), "ParentCid");
    assert_eq!(Metadata::Endpoint("cib".to_string()).value(), "cib");
    assert_eq!(Metadata::Tenant("TN-A".to_string()).describe(), "OrgId: (TN-A)");
}

#[test]
fn page_size_is_ten() {
    assert_eq!(Handler::new("").page_size(), 10);
}

#[test]
fn user_pattern_check_reports_invalid_pattern() {
    assert!(check_user_pattern(&None).is_ok());
    assert!(check_user_pattern(&Some("^TN-.*csv$".to_string())).is_ok());
    let err = check_user_pattern(&Some("(".to_string())).unwrap_err();
    assert!(!err.is_empty());
    assert_ne!(err, "(");
}
