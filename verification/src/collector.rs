//! The collector: two gauges, `build_info` and `kubernetes_version`, and what
//! a scrape makes of the outcome of one fetch of the cluster's version.

use crate::gauges::{
    collect_member, collect_series, describe_family, describe_series, descriptors, expositions,
    family_descriptor, family_members, family_values, label_key, labelled, make_family,
    make_series, member_labels, remove_member, series_state, set_member, set_series, Descriptor,
    Exposition, Labels, Sample, Series, SeriesFamily, SeriesState,
};
use crate::labels::{pair_up, paired, same_labels};
use crate::naming::{
    is_label_name, is_metric_name, is_namespace_char, lemma_qualified_name_is_metric_name,
    qualified_name, sanitize, sanitized,
};
use vstd::pervasive::unreached;
use vstd::prelude::*;

verus! {

/// The identifier of this package, from which the namespace is derived.
pub const PACKAGE_NAME: &'static str = "kubernetes-version-exporter";

/// The version of this package, reported by `build_info`.
pub const PACKAGE_VERSION: &'static str = "0.1.0";

/// The name of the gauge that reports the build, without the namespace.
pub const BUILD_INFO_NAME: &'static str = "build_info";

/// The help text of the gauge that reports the build.
pub const BUILD_INFO_HELP: &'static str =
    "Metric with constant value of '1', labeled with build info, such as version";

/// The name of the gauge that reports the cluster's version, without the
/// namespace.
pub const KUBERNETES_VERSION_NAME: &'static str = "kubernetes_version";

/// The help text of the gauge that reports the cluster's version.
pub const KUBERNETES_VERSION_HELP: &'static str =
    "Metric with constant value of '1', labeled with kubernetes version";

/// The label that carries the package version on `build_info` and the git
/// version of the cluster on `kubernetes_version`.
pub const VERSION_LABEL: &'static str = "version";

/// The label that carries the major version of the cluster.
pub const MAJOR_LABEL: &'static str = "major";

/// The label that carries the minor version of the cluster.
pub const MINOR_LABEL: &'static str = "minor";

/// The label that carries the platform the API server was built for.
pub const PLATFORM_LABEL: &'static str = "platform";

/// The label that carries the version of Go the API server was built with.
pub const GO_VERSION_LABEL: &'static str = "go_version";

/// The version that the API server of a cluster reports of itself.
#[derive(Clone, Debug, PartialEq, Eq)]
pub struct ClusterVersionInfo {
    pub git_version: String,
    pub major: String,
    pub minor: String,
    pub platform: String,
    pub go_version: String,
}

/// Why a fetch of the cluster's version gave none.
#[derive(Clone, Copy, Debug, PartialEq, Eq)]
pub enum FetchError {
    /// No client for the cluster could be made.
    Connect,
    /// The request for the version failed.
    Request,
}

impl ClusterVersionInfo {
    /// The five values as label values, in the order of `label_names`.
    pub open spec fn label_values(self) -> Seq<Seq<char>> {
        seq![self.git_version@, self.major@, self.minor@, self.platform@, self.go_version@]
    }

    /// The five values, in the order of `label_names`.
    pub fn value_list(&self) -> (values: Vec<String>)
        ensures
            values.deep_view() == self.label_values(),
    {
        let mut values: Vec<String> = Vec::new();
        values.push(self.git_version.clone());
        values.push(self.major.clone());
        values.push(self.minor.clone());
        values.push(self.platform.clone());
        values.push(self.go_version.clone());
        assert(values.deep_view() =~= self.label_values());
        values
    }
}

/// The names of the labels of `kubernetes_version`.
pub open spec fn label_names() -> Seq<Seq<char>> {
    seq![VERSION_LABEL@, MAJOR_LABEL@, MINOR_LABEL@, PLATFORM_LABEL@, GO_VERSION_LABEL@]
}

/// The namespace that prefixes the names of both metrics.
pub open spec fn namespace_spec() -> Seq<char> {
    sanitized(PACKAGE_NAME@)
}

/// The description of `build_info`.
pub open spec fn build_info_descriptor() -> Descriptor {
    Descriptor {
        name: qualified_name(namespace_spec(), BUILD_INFO_NAME@),
        help: BUILD_INFO_HELP@,
        const_labels: set![(VERSION_LABEL@, PACKAGE_VERSION@)],
        variable_labels: seq![],
    }
}

/// The description of `kubernetes_version`.
pub open spec fn kubernetes_version_descriptor() -> Descriptor {
    Descriptor {
        name: qualified_name(namespace_spec(), KUBERNETES_VERSION_NAME@),
        help: KUBERNETES_VERSION_HELP@,
        const_labels: Set::empty(),
        variable_labels: label_names(),
    }
}

/// What every scrape reports of the build: one sample, labelled with the
/// package version, of value 1.
pub open spec fn build_info_exposition() -> Exposition {
    Exposition {
        name: build_info_descriptor().name,
        help: build_info_descriptor().help,
        gauge: true,
        samples: seq![Sample { labels: set![(VERSION_LABEL@, PACKAGE_VERSION@)], value: 1 }],
    }
}

/// The labels of the series that stands for `info`.
pub open spec fn version_labels(info: ClusterVersionInfo) -> Labels {
    set![
        (VERSION_LABEL@, info.git_version@),
        (MAJOR_LABEL@, info.major@),
        (MINOR_LABEL@, info.minor@),
        (PLATFORM_LABEL@, info.platform@),
        (GO_VERSION_LABEL@, info.go_version@),
    ]
}

/// The series that stands for `info`: its labels, at 1.
pub open spec fn version_sample(info: ClusterVersionInfo) -> Sample {
    Sample { labels: version_labels(info), value: 1 }
}

/// What a scrape reports of a cluster whose version is `info`: one sample,
/// labelled with the five values, of value 1.
pub open spec fn kubernetes_version_exposition(info: ClusterVersionInfo) -> Exposition {
    Exposition {
        name: kubernetes_version_descriptor().name,
        help: kubernetes_version_descriptor().help,
        gauge: true,
        samples: seq![version_sample(info)],
    }
}

/// What a scrape reports, given the outcome of the fetch: the build always,
/// and the cluster's version where the fetch gave one.
pub open spec fn scraped(fetched: Result<ClusterVersionInfo, FetchError>) -> Seq<Exposition> {
    match fetched {
        Ok(info) => seq![build_info_exposition(), kubernetes_version_exposition(info)],
        Err(_) => seq![build_info_exposition()],
    }
}

/// The series held after a scrape, given those held before it: a fetched
/// version is filed under the key of its values, at 1, in place of whatever
/// was filed there; a failed fetch changes nothing.
pub open spec fn held_after(
    held: Map<u64, Sample>,
    fetched: Result<ClusterVersionInfo, FetchError>,
) -> Map<u64, Sample> {
    match fetched {
        Ok(info) => held.insert(label_key(info.label_values()), version_sample(info)),
        Err(_) => held,
    }
}

/// The series held after a run of scrapes by a collector that held none
/// before, given the outcomes of the fetches, first to last.
pub open spec fn held_after_all(outcomes: Seq<Result<ClusterVersionInfo, FetchError>>) -> Map<
    u64,
    Sample,
>
    decreases outcomes.len(),
{
    if outcomes.len() == 0 {
        Map::empty()
    } else {
        held_after(held_after_all(outcomes.drop_last()), outcomes.last())
    }
}

/// Whether `series`, filed under `key`, is the series of some version, at 1
/// and filed where the values of that version belong.
pub open spec fn stands_for_a_version(key: u64, series: Sample) -> bool {
    exists|info: ClusterVersionInfo| #[trigger]
        version_sample(info) == series && label_key(info.label_values()) == key
}

/// What a collector is at some moment: the gauge `build_info`, the
/// description of the family `kubernetes_version`, and the series that the
/// family holds, each with its labels and value under the key of the label
/// values it was made for.
pub struct CollectorView {
    pub build_info: SeriesState,
    pub kubernetes_version: Descriptor,
    pub series: Map<u64, Sample>,
}

/// The collector. It owns the gauge `build_info`, fixed at 1, and the family
/// `kubernetes_version`, which holds one series for each version seen so far.
pub struct ExportMetrics {
    build_info: Series,
    kubernetes_version: SeriesFamily,
}

impl View for ExportMetrics {
    type V = CollectorView;

    closed spec fn view(&self) -> CollectorView {
        CollectorView {
            build_info: series_state(self.build_info),
            kubernetes_version: family_descriptor(self.kubernetes_version),
            series: Map::new(
                |key: u64| family_members(self.kubernetes_version).contains_key(key),
                |key: u64|
                    Sample {
                        labels: family_members(self.kubernetes_version)[key],
                        value: family_values(self.kubernetes_version)[key],
                    },
            ),
        }
    }
}

impl ExportMetrics {
    /// The collector is as `new` made it, but for the series it holds:
    /// `build_info` is described as at the start and stands at 1,
    /// `kubernetes_version` is described as at the start, and every series it
    /// holds is the series of some version, at 1 and filed where the values
    /// of that version belong.
    pub open spec fn wf(&self) -> bool {
        &&& self@.build_info == (SeriesState {
            descriptor: build_info_descriptor(),
            labels: set![(VERSION_LABEL@, PACKAGE_VERSION@)],
            value: 1,
        })
        &&& self@.kubernetes_version == kubernetes_version_descriptor()
        &&& forall|key: u64| #[trigger]
            self@.series.contains_key(key) ==> stands_for_a_version(key, self@.series[key])
    }

    /// The namespace of the exporter's metrics: the package identifier with
    /// its letters lowercased and every other character but digits replaced
    /// by an underscore.
    pub fn namespace() -> (ns: String)
        ensures
            ns@ == namespace_spec(),
            ns@ == "kubernetes_version_exporter"@,
            forall|i: int| 0 <= i < ns@.len() ==> is_namespace_char(#[trigger] ns@[i]),
    {
        proof {
            lemma_namespace_is_known();
        }
        sanitize(PACKAGE_NAME)
    }

    /// The names of the labels of `kubernetes_version`.
    fn label_name_list() -> (names: Vec<String>)
        ensures
            names.deep_view() == label_names(),
    {
        let mut names: Vec<String> = Vec::new();
        names.push(String::from_str(VERSION_LABEL));
        names.push(String::from_str(MAJOR_LABEL));
        names.push(String::from_str(MINOR_LABEL));
        names.push(String::from_str(PLATFORM_LABEL));
        names.push(String::from_str(GO_VERSION_LABEL));
        assert(names.deep_view() =~= label_names());
        names
    }

    /// A collector with `build_info` at 1 and no series of
    /// `kubernetes_version` yet.
    pub fn new() -> (metrics: Self)
        ensures
            metrics.wf(),
            metrics@.series == Map::<u64, Sample>::empty(),
    {
        let namespace = Self::namespace();
        let names = Self::label_name_list();
        proof {
            lemma_names_are_well_formed();
        }
        let made = make_series(
            namespace.as_str(),
            BUILD_INFO_NAME,
            BUILD_INFO_HELP,
            VERSION_LABEL,
            PACKAGE_VERSION,
        );
        let mut build_info = match made {
            Ok(series) => series,
            Err(_) => unreached(),
        };
        set_series(&mut build_info, 1);
        let made = make_family(
            namespace.as_str(),
            KUBERNETES_VERSION_NAME,
            KUBERNETES_VERSION_HELP,
            &names,
        );
        let kubernetes_version = match made {
            Ok(family) => family,
            Err(_) => unreached(),
        };
        let metrics = ExportMetrics { build_info, kubernetes_version };
        assert(metrics@.series =~= Map::empty());
        metrics
    }

    /// The descriptions of the two metrics, `build_info` first. They are
    /// those the collector was made with.
    pub fn desc(&self) -> (descs: Vec<&prometheus::core::Desc>)
        requires
            self.wf(),
        ensures
            descs@.len() == 2,
            descriptors(descs@) == seq![build_info_descriptor(), kubernetes_version_descriptor()],
    {
        let mut descs = describe_series(&self.build_info);
        let mut more = describe_family(&self.kubernetes_version);
        descs.append(&mut more);
        assert(descriptors(descs@) =~= seq![
            build_info_descriptor(),
            kubernetes_version_descriptor(),
        ]);
        descs
    }

    /// One scrape, given the outcome of the fetch of the cluster's version.
    ///
    /// `build_info` is reported whatever the outcome. Where the fetch gave a
    /// version, the series labelled with its five values is set to 1 and
    /// reported after it, and stands at 1 in the collector afterwards; where
    /// the fetch failed, `kubernetes_version` is left out and the collector is
    /// as before. Series of earlier versions stay in the collector as they
    /// are and are not reported again; only one that is filed under the key of
    /// the new values gives way to the new series.
    pub fn collect(&mut self, fetched: Result<ClusterVersionInfo, FetchError>) -> (families: Vec<
        prometheus::proto::MetricFamily,
    >)
        requires
            old(self).wf(),
        ensures
            final(self).wf(),
            families@.len() == scraped(fetched).len(),
            expositions(families@) == scraped(fetched),
            final(self)@ == (CollectorView {
                series: held_after(old(self)@.series, fetched),
                ..old(self)@
            }),
    {
        let mut families = collect_series(&self.build_info);
        match fetched {
            Ok(info) => {
                let values = info.value_list();
                self.file_version(&info, &values);
                assert(values.len() == values.deep_view().len() == label_names().len());
                let mut more = collect_member(&self.kubernetes_version, &values);
                families.append(&mut more);
            },
            Err(_) => {
                assert(self@.series =~= old(self)@.series);
            },
        }
        assert(expositions(families@) =~= scraped(fetched));
        families
    }

    /// Files the series labelled with the values of `info` under their key
    /// and sets it to 1. A series of other labels that is filed under that
    /// key is dropped first.
    fn file_version(&mut self, info: &ClusterVersionInfo, values: &Vec<String>)
        requires
            old(self).wf(),
            values.deep_view() == info.label_values(),
        ensures
            final(self).wf(),
            final(self)@ == (CollectorView {
                series: old(self)@.series.insert(
                    label_key(info.label_values()),
                    version_sample(*info),
                ),
                ..old(self)@
            }),
            family_members(final(self).kubernetes_version).contains_key(
                label_key(info.label_values()),
            ),
            family_members(final(self).kubernetes_version)[label_key(info.label_values())]
                == version_labels(*info),
            family_values(final(self).kubernetes_version)[label_key(info.label_values())] == 1,
    {
        let names = Self::label_name_list();
        let wanted = pair_up(&names, values);
        proof {
            lemma_labelled_values(*info);
        }
        let _ = set_member(&mut self.kubernetes_version, values, 1);
        let found = member_labels(&self.kubernetes_version, values);
        if !same_labels(&found, &wanted) {
            let _ = remove_member(&mut self.kubernetes_version, values);
            let _ = set_member(&mut self.kubernetes_version, values, 1);
        }
        proof {
            let key = label_key(info.label_values());
            assert(self@.series =~= old(self)@.series.insert(key, version_sample(*info)));
            assert(stands_for_a_version(key, version_sample(*info)));
            assert forall|k: u64| #[trigger]
                self@.series.contains_key(k) implies stands_for_a_version(k, self@.series[k]) by {
                if k != key {
                    assert(old(self)@.series.contains_key(k));
                }
            }
        }
    }
}

/// Pairing the label names with the values of `info` gives its labels.
proof fn lemma_labelled_values(info: ClusterVersionInfo)
    ensures
        labelled(label_names(), info.label_values()) == version_labels(info),
        paired(label_names(), info.label_values()).to_set() == version_labels(info),
{
    let pairs = label_names().zip_with(info.label_values());
    assert(pairs =~= paired(label_names(), info.label_values()));
    assert(pairs.len() == 5);
    assert(pairs[0] == (VERSION_LABEL@, info.git_version@));
    assert(pairs[1] == (MAJOR_LABEL@, info.major@));
    assert(pairs[2] == (MINOR_LABEL@, info.minor@));
    assert(pairs[3] == (PLATFORM_LABEL@, info.platform@));
    assert(pairs[4] == (GO_VERSION_LABEL@, info.go_version@));
    assert(pairs.to_set() =~= version_labels(info));
}

/// The names and help texts that the collector is made with are in order:
/// the help texts are not empty, the names are well-formed and the label
/// names differ.
proof fn lemma_names_are_well_formed()
    ensures
        BUILD_INFO_HELP@.len() > 0,
        KUBERNETES_VERSION_HELP@.len() > 0,
        is_metric_name(qualified_name(namespace_spec(), BUILD_INFO_NAME@)),
        is_metric_name(qualified_name(namespace_spec(), KUBERNETES_VERSION_NAME@)),
        label_names().no_duplicates(),
        forall|i: int| 0 <= i < label_names().len() ==> is_label_name(#[trigger] label_names()[i]),
{
    reveal_strlit("kubernetes-version-exporter");
    reveal_strlit("build_info");
    reveal_strlit("kubernetes_version");
    reveal_strlit("Metric with constant value of '1', labeled with build info, such as version");
    reveal_strlit("Metric with constant value of '1', labeled with kubernetes version");
    reveal_strlit("version");
    reveal_strlit("major");
    reveal_strlit("minor");
    reveal_strlit("platform");
    reveal_strlit("go_version");
    assert(is_label_name(VERSION_LABEL@));
    assert(is_label_name(MAJOR_LABEL@));
    assert(is_label_name(MINOR_LABEL@));
    assert(is_label_name(PLATFORM_LABEL@));
    assert(is_label_name(GO_VERSION_LABEL@));
    assert(is_label_name(BUILD_INFO_NAME@));
    assert(is_label_name(KUBERNETES_VERSION_NAME@));
    lemma_qualified_name_is_metric_name(namespace_spec(), BUILD_INFO_NAME@);
    lemma_qualified_name_is_metric_name(namespace_spec(), KUBERNETES_VERSION_NAME@);
    assert(label_names().no_duplicates()) by {
        let names = label_names();
        assert(names[0].len() == 7 && names[1].len() == 5 && names[2].len() == 5);
        assert(names[3].len() == 8 && names[4].len() == 10);
        assert(names[1][1] != names[2][1]);
    }
}

impl Default for ExportMetrics {
    /// The collector that `new` makes.
    fn default() -> (metrics: Self)
        ensures
            metrics.wf(),
            metrics@.series == Map::<u64, Sample>::empty(),
    {
        Self::new()
    }
}

/// Every scrape reports the build first, whatever the fetch gave: one sample
/// of value 1 whose only label is the package version. Any two scrapes agree
/// on it.
pub proof fn build_info_never_changes(
    one: Result<ClusterVersionInfo, FetchError>,
    other: Result<ClusterVersionInfo, FetchError>,
)
    ensures
        scraped(one).len() >= 1,
        scraped(one)[0] == scraped(other)[0],
        scraped(one)[0].samples.len() == 1,
        scraped(one)[0].samples[0].value == 1,
        scraped(one)[0].samples[0].labels == set![(VERSION_LABEL@, PACKAGE_VERSION@)],
{
}

/// A collector holds series only for versions that a fetch has given it:
/// whatever it holds after a run of scrapes is the series of one of the
/// versions fetched in that run, filed where the values of that version
/// belong.
pub proof fn only_fetched_versions_are_held(
    outcomes: Seq<Result<ClusterVersionInfo, FetchError>>,
    key: u64,
)
    requires
        held_after_all(outcomes).contains_key(key),
    ensures
        exists|i: int|
            0 <= i < outcomes.len() && (#[trigger] outcomes[i] matches Ok(info)
                && version_sample(info) == held_after_all(outcomes)[key] && label_key(
                info.label_values(),
            ) == key),
    decreases outcomes.len(),
{
    let earlier = outcomes.drop_last();
    let last = outcomes.last();
    let at_last = outcomes.len() - 1;
    if last matches Ok(info) && label_key(info.label_values()) == key {
        assert(outcomes[at_last] == last);
    } else {
        assert(held_after_all(earlier).contains_key(key));
        assert(held_after_all(earlier)[key] == held_after_all(outcomes)[key]);
        only_fetched_versions_are_held(earlier, key);
        let i = choose|i: int|
            0 <= i < earlier.len() && (#[trigger] earlier[i] matches Ok(info) && version_sample(
                info,
            ) == held_after_all(earlier)[key] && label_key(info.label_values()) == key);
        assert(outcomes[i] == earlier[i]);
    }
}

/// A scrape of the version that the scrape before it was given reports the
/// same and leaves the collector as it is; a collector that has seen one
/// version only holds one series.
pub proof fn steady_state_holds_one_series(held: Map<u64, Sample>, info: ClusterVersionInfo)
    ensures
        held_after(held_after(held, Ok(info)), Ok(info)) == held_after(held, Ok(info)),
        held_after(Map::empty(), Ok(info)).dom() == set![label_key(info.label_values())],
{
    let key = label_key(info.label_values());
    let once = held_after(held, Ok(info));
    assert(held_after(once, Ok(info)) =~= once);
    assert(held_after(Map::empty(), Ok(info)).dom() =~= set![key]);
}

/// Where one version is scraped and then another, the second scrape reports
/// the series labelled with the second version at 1, whatever the first was
/// and whatever the collector held before. The collector then holds that
/// series under its key, and still holds the series of the first version
/// unless the two versions share a key.
pub proof fn latest_version_is_reported(
    held: Map<u64, Sample>,
    first: ClusterVersionInfo,
    second: ClusterVersionInfo,
)
    ensures
        ({
            let after = held_after(held_after(held, Ok(first)), Ok(second));
            let first_key = label_key(first.label_values());
            let second_key = label_key(second.label_values());
            &&& scraped(Ok(second)).len() == 2
            &&& scraped(Ok(second))[1].samples == seq![
                Sample { labels: version_labels(second), value: 1 },
            ]
            &&& after.contains_key(second_key) && after[second_key] == version_sample(second)
            &&& first_key != second_key ==> after.contains_key(first_key) && after[first_key]
                == version_sample(first)
        }),
{
}

/// The namespace is the package identifier with its hyphens turned into
/// underscores.
proof fn lemma_namespace_is_known()
    ensures
        namespace_spec() == "kubernetes_version_exporter"@,
{
    reveal_strlit("kubernetes-version-exporter");
    reveal_strlit("kubernetes_version_exporter");
    assert(namespace_spec() =~= "kubernetes_version_exporter"@);
}

/// A scrape that is given a version reports it under the full name of the
/// metric, with the five values under their label names, at 1.
pub proof fn fetched_version_is_exposed(info: ClusterVersionInfo)
    ensures
        scraped(Ok(info)).len() == 2,
        scraped(Ok(info))[0].name == "kubernetes_version_exporter_build_info"@,
        scraped(Ok(info))[1].name == "kubernetes_version_exporter_kubernetes_version"@,
        scraped(Ok(info))[1].gauge,
        scraped(Ok(info))[1].samples == seq![
            Sample {
                labels: set![
                    ("version"@, info.git_version@),
                    ("major"@, info.major@),
                    ("minor"@, info.minor@),
                    ("platform"@, info.platform@),
                    ("go_version"@, info.go_version@),
                ],
                value: 1,
            },
        ],
{
    lemma_namespace_is_known();
    reveal_strlit("kubernetes_version_exporter");
    reveal_strlit("build_info");
    reveal_strlit("kubernetes_version");
    reveal_strlit("kubernetes_version_exporter_build_info");
    reveal_strlit("kubernetes_version_exporter_kubernetes_version");
    assert(scraped(Ok(info))[0].name =~= "kubernetes_version_exporter_build_info"@);
    assert(scraped(Ok(info))[1].name =~= "kubernetes_version_exporter_kubernetes_version"@);
}

} // verus!
