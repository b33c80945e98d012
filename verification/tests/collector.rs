use kubernetes_version_exporter::collector::{PACKAGE_NAME, PACKAGE_VERSION};
use kubernetes_version_exporter::{ClusterVersionInfo, ExportMetrics, FetchError};
use prometheus::proto::{MetricFamily, MetricType};

const NAMESPACE: &str = "kubernetes_version_exporter";

fn info(git: &str, major: &str, minor: &str, platform: &str, go: &str) -> ClusterVersionInfo {
    ClusterVersionInfo {
        git_version: git.to_string(),
        major: major.to_string(),
        minor: minor.to_string(),
        platform: platform.to_string(),
        go_version: go.to_string(),
    }
}

fn v1_28() -> ClusterVersionInfo {
    info("v1.28.3", "1", "28", "linux/amd64", "go1.21.1")
}

fn v1_29() -> ClusterVersionInfo {
    info("v1.29.0", "1", "29", "linux/arm64", "go1.21.5")
}

/// The labels of the only sample of a family, ordered by name.
fn labels(family: &MetricFamily) -> Vec<(String, String)> {
    assert_eq!(family.get_metric().len(), 1);
    let mut pairs: Vec<(String, String)> = family.get_metric()[0]
        .get_label()
        .iter()
        .map(|p| (p.name().to_string(), p.value().to_string()))
        .collect();
    pairs.sort();
    pairs
}

fn value(family: &MetricFamily) -> f64 {
    assert_eq!(family.get_metric().len(), 1);
    family.get_metric()[0].get_gauge().get_value()
}

fn version_labels(of: &ClusterVersionInfo) -> Vec<(String, String)> {
    vec![
        ("go_version".to_string(), of.go_version.clone()),
        ("major".to_string(), of.major.clone()),
        ("minor".to_string(), of.minor.clone()),
        ("platform".to_string(), of.platform.clone()),
        ("version".to_string(), of.git_version.clone()),
    ]
}

fn assert_build_info(family: &MetricFamily) {
    assert_eq!(family.name(), "kubernetes_version_exporter_build_info");
    assert_eq!(
        family.help(),
        "Metric with constant value of '1', labeled with build info, such as version"
    );
    assert_eq!(family.get_field_type(), MetricType::GAUGE);
    assert_eq!(labels(family), vec![("version".to_string(), "0.1.0".to_string())]);
    assert_eq!(value(family), 1.0);
}

fn assert_version(family: &MetricFamily, of: &ClusterVersionInfo) {
    assert_eq!(family.name(), "kubernetes_version_exporter_kubernetes_version");
    assert_eq!(
        family.help(),
        "Metric with constant value of '1', labeled with kubernetes version"
    );
    assert_eq!(family.get_field_type(), MetricType::GAUGE);
    assert_eq!(labels(family), version_labels(of));
    assert_eq!(value(family), 1.0);
}

fn exposition(families: &[MetricFamily]) -> String {
    prometheus::TextEncoder::new().encode_to_string(families).unwrap()
}

#[test]
fn package_constants() {
    assert_eq!(PACKAGE_NAME, "kubernetes-version-exporter");
    assert_eq!(PACKAGE_VERSION, "0.1.0");
    assert_eq!(ExportMetrics::namespace(), NAMESPACE);
}

#[test]
fn desc_describes_build_info_then_kubernetes_version() {
    let metrics = ExportMetrics::new();
    let descs = metrics.desc();
    assert_eq!(descs.len(), 2);

    assert_eq!(descs[0].fq_name, "kubernetes_version_exporter_build_info");
    assert_eq!(
        descs[0].help,
        "Metric with constant value of '1', labeled with build info, such as version"
    );
    assert!(descs[0].variable_labels.is_empty());
    assert_eq!(descs[0].const_label_pairs.len(), 1);
    assert_eq!(descs[0].const_label_pairs[0].name(), "version");
    assert_eq!(descs[0].const_label_pairs[0].value(), "0.1.0");

    assert_eq!(descs[1].fq_name, "kubernetes_version_exporter_kubernetes_version");
    assert_eq!(
        descs[1].help,
        "Metric with constant value of '1', labeled with kubernetes version"
    );
    assert_eq!(
        descs[1].variable_labels,
        vec!["version", "major", "minor", "platform", "go_version"]
    );
    assert!(descs[1].const_label_pairs.is_empty());
}

#[test]
fn desc_is_the_same_before_and_after_scrapes() {
    let mut metrics = ExportMetrics::new();
    let before: Vec<(String, String, Vec<String>)> = metrics
        .desc()
        .iter()
        .map(|d| (d.fq_name.clone(), d.help.clone(), d.variable_labels.clone()))
        .collect();
    metrics.collect(Ok(v1_28()));
    metrics.collect(Err(FetchError::Request));
    metrics.collect(Ok(v1_29()));
    let after: Vec<(String, String, Vec<String>)> = metrics
        .desc()
        .iter()
        .map(|d| (d.fq_name.clone(), d.help.clone(), d.variable_labels.clone()))
        .collect();
    assert_eq!(before, after);
}

#[test]
fn metric_names_start_with_the_namespace() {
    let mut metrics = ExportMetrics::new();
    let prefix = format!("{}_", ExportMetrics::namespace());
    for family in metrics.collect(Ok(v1_28())) {
        assert!(family.name().starts_with(&prefix));
    }
    for desc in metrics.desc() {
        assert!(desc.fq_name.starts_with(&prefix));
    }
}

#[test]
fn collect_reports_build_info_and_the_fetched_version() {
    let mut metrics = ExportMetrics::new();
    let families = metrics.collect(Ok(v1_28()));
    assert_eq!(families.len(), 2);
    assert_build_info(&families[0]);
    assert_version(&families[1], &v1_28());
}

#[test]
fn scrape_yields_the_series_of_the_fetched_version() {
    let mut metrics = ExportMetrics::new();
    let families =
        metrics.collect(Ok(info("v1.28.3", "1", "28", "linux/amd64", "go1.21.1")));
    assert_eq!(families.len(), 2);
    let family = &families[1];
    assert_eq!(family.name(), "kubernetes_version_exporter_kubernetes_version");
    let mut expected = vec![
        ("version".to_string(), "v1.28.3".to_string()),
        ("major".to_string(), "1".to_string()),
        ("minor".to_string(), "28".to_string()),
        ("platform".to_string(), "linux/amd64".to_string()),
        ("go_version".to_string(), "go1.21.1".to_string()),
    ];
    expected.sort();
    assert_eq!(labels(family), expected);
    assert_eq!(value(family), 1.0);

    // The text format lists the labels of a series by name.
    let text = exposition(&families);
    assert!(text.contains(
        "kubernetes_version_exporter_kubernetes_version{go_version=\"go1.21.1\",major=\"1\",minor=\"28\",platform=\"linux/amd64\",version=\"v1.28.3\"} 1\n"
    ));
    assert!(text.contains("kubernetes_version_exporter_build_info{version=\"0.1.0\"} 1\n"));
    assert!(text.contains("# TYPE kubernetes_version_exporter_kubernetes_version gauge\n"));
    assert!(text.contains("# TYPE kubernetes_version_exporter_build_info gauge\n"));
}

#[test]
fn collect_reports_only_build_info_when_no_client_could_be_made() {
    let mut metrics = ExportMetrics::new();
    let families = metrics.collect(Err(FetchError::Connect));
    assert_eq!(families.len(), 1);
    assert_build_info(&families[0]);
}

#[test]
fn collect_reports_only_build_info_when_the_request_failed() {
    let mut metrics = ExportMetrics::new();
    let families = metrics.collect(Err(FetchError::Request));
    assert_eq!(families.len(), 1);
    assert_build_info(&families[0]);
    let text = exposition(&families);
    assert!(text.contains("kubernetes_version_exporter_build_info{version=\"0.1.0\"} 1\n"));
    assert!(!text.contains("kubernetes_version_exporter_kubernetes_version"));
}

#[test]
fn build_info_is_the_same_in_every_scrape() {
    let mut metrics = ExportMetrics::new();
    let outcomes = vec![
        Ok(v1_28()),
        Err(FetchError::Request),
        Ok(v1_29()),
        Err(FetchError::Connect),
        Ok(v1_28()),
    ];
    for outcome in outcomes {
        let families = metrics.collect(outcome);
        assert!(!families.is_empty());
        assert_build_info(&families[0]);
    }
}

#[test]
fn a_failed_fetch_after_a_good_one_leaves_the_version_out() {
    let mut metrics = ExportMetrics::new();
    assert_eq!(metrics.collect(Ok(v1_28())).len(), 2);
    let families = metrics.collect(Err(FetchError::Request));
    assert_eq!(families.len(), 1);
    assert_build_info(&families[0]);
    let families = metrics.collect(Ok(v1_28()));
    assert_eq!(families.len(), 2);
    assert_version(&families[1], &v1_28());
}

#[test]
fn the_same_version_twice_is_reported_the_same_way() {
    let mut metrics = ExportMetrics::new();
    let first = metrics.collect(Ok(v1_28()));
    let second = metrics.collect(Ok(v1_28()));
    assert_eq!(first, second);
    assert_version(&second[1], &v1_28());
}

#[test]
fn a_changed_version_is_reported_after_the_change() {
    let mut metrics = ExportMetrics::new();
    let first = metrics.collect(Ok(v1_28()));
    assert_version(&first[1], &v1_28());

    let second = metrics.collect(Ok(v1_29()));
    assert_eq!(second.len(), 2);
    assert_build_info(&second[0]);
    assert_version(&second[1], &v1_29());

    // The series of the earlier version stays in the collector, but a scrape
    // reports only the series of the version it was given.
    assert_eq!(second[1].get_metric().len(), 1);
    assert!(!exposition(&second).contains("v1.28.3"));

    // It is found again, at 1, when the cluster goes back.
    let third = metrics.collect(Ok(v1_28()));
    assert_version(&third[1], &v1_28());
}

#[test]
fn versions_that_share_a_key_are_told_apart() {
    // The values of the two versions, written one after the other, read the
    // same, so the family files both under one key.
    let older = info("v1", "28", "0", "linux/amd64", "go1.21.1");
    let newer = info("v12", "8", "0", "linux/amd64", "go1.21.1");
    let mut metrics = ExportMetrics::new();

    let first = metrics.collect(Ok(older.clone()));
    assert_version(&first[1], &older);

    let second = metrics.collect(Ok(newer.clone()));
    assert_eq!(second.len(), 2);
    assert_version(&second[1], &newer);

    let third = metrics.collect(Ok(older.clone()));
    assert_version(&third[1], &older);
}

#[test]
fn a_version_seen_again_is_reported_at_one_every_time() {
    let mut metrics = ExportMetrics::new();
    for _ in 0..3 {
        let families = metrics.collect(Ok(v1_28()));
        assert_version(&families[1], &v1_28());
        let families = metrics.collect(Ok(v1_29()));
        assert_version(&families[1], &v1_29());
        let families = metrics.collect(Err(FetchError::Connect));
        assert_eq!(families.len(), 1);
    }
}

#[test]
fn label_values_are_taken_as_they_are() {
    let odd = info("", "1+", "28 \"beta\"", "linux/amd64\\x", "d\u{e9}vel");
    let mut metrics = ExportMetrics::new();
    let families = metrics.collect(Ok(odd.clone()));
    assert_eq!(families.len(), 2);
    assert_version(&families[1], &odd);
}

#[test]
fn value_list_follows_the_label_names() {
    assert_eq!(
        v1_28().value_list(),
        vec!["v1.28.3", "1", "28", "linux/amd64", "go1.21.1"]
    );
}

#[test]
fn default_is_a_fresh_collector() {
    let mut metrics = ExportMetrics::default();
    assert_eq!(metrics.desc().len(), 2);
    let families = metrics.collect(Err(FetchError::Connect));
    assert_eq!(families.len(), 1);
    assert_build_info(&families[0]);
}

#[test]
fn collectors_do_not_share_their_series() {
    let mut one = ExportMetrics::new();
    let mut other = ExportMetrics::new();
    let from_one = one.collect(Ok(v1_28()));
    let from_other = other.collect(Ok(v1_29()));
    assert_version(&from_one[1], &v1_28());
    assert_version(&from_other[1], &v1_29());
    assert_build_info(&from_one[0]);
    assert_build_info(&from_other[0]);
}
