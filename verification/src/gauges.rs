//! The gauges of the `prometheus` crate through which the exporter publishes,
//! and what this library relies on them to do.
//!
//! Nothing in this module is proved. Each item states, over plain
//! mathematical values, what the corresponding item of `prometheus` does; the
//! rest of the library is verified against these statements.

use crate::naming::{is_label_name, is_metric_name, qualified_name};
use vstd::prelude::*;

verus! {

/// A set of labels: pairs of a label name and its value.
pub type Labels = Set<(Seq<char>, Seq<char>)>;

/// The fixed description of a metric: its full name, its help text, the
/// labels whose values never change, and the names of the labels whose values
/// tell its series apart.
pub struct Descriptor {
    pub name: Seq<char>,
    pub help: Seq<char>,
    pub const_labels: Labels,
    pub variable_labels: Seq<Seq<char>>,
}

/// One sample of a metric: a label set and the value reported for it.
pub struct Sample {
    pub labels: Labels,
    pub value: int,
}

/// One metric as it is handed to a registry: name, help text, whether it is
/// of gauge type, and its samples.
pub struct Exposition {
    pub name: Seq<char>,
    pub help: Seq<char>,
    pub gauge: bool,
    pub samples: Seq<Sample>,
}

/// What a single gauge is at some moment: its description, all of its labels
/// and its current value.
pub struct SeriesState {
    pub descriptor: Descriptor,
    pub labels: Labels,
    pub value: int,
}

/// The labels that a family with label names `names` attaches to the series
/// for `values`: each name paired with the value at the same position.
pub open spec fn labelled(names: Seq<Seq<char>>, values: Seq<Seq<char>>) -> Labels {
    names.zip_with(values).to_set()
}

/// A single gauge of its own, `prometheus::Gauge`. Verus cannot take the type
/// itself, whose parameter is bound by a trait of `prometheus`, so the handle
/// is kept behind this struct and read only through `series_state`.
///
/// A `prometheus::Gauge` is a shared pointer. `make_series` is the only maker
/// of a `Series` and a `Series` is never cloned, so each stands for a gauge
/// that nothing else can reach. The series of a family are shared with the
/// family; no handle on one of them is ever made into a `Series`.
#[verifier::external_body]
pub struct Series {
    inner: prometheus::Gauge,
}

/// A family of gauges that differ in their label values,
/// `prometheus::GaugeVec`. Verus cannot take the type itself, which is built
/// on a type that `prometheus` does not export, so the handle is kept behind
/// this struct and read only through `family_descriptor`, `family_members`
/// and `family_values`. It is never cloned, and its series are reached
/// through it alone, by their label values.
#[verifier::external_body]
pub struct SeriesFamily {
    inner: prometheus::GaugeVec,
}

/// `prometheus::proto::MetricFamily`, opaque here; read through
/// `exposition_of`.
#[verifier::external_type_specification]
#[verifier::external_body]
pub struct ExMetricFamily(prometheus::proto::MetricFamily);

/// `prometheus::core::Desc`, opaque here; read through `descriptor_of`.
#[verifier::external_type_specification]
#[verifier::external_body]
pub struct ExDesc(prometheus::core::Desc);

/// `prometheus::Error`, opaque here.
#[verifier::external_type_specification]
#[verifier::external_body]
pub struct ExError(prometheus::Error);

/// The description, labels and value of a gauge.
pub uninterp spec fn series_state(s: Series) -> SeriesState;

/// The description that a family was made with.
pub uninterp spec fn family_descriptor(f: SeriesFamily) -> Descriptor;

/// The series that a family holds: for each key in use, the labels of the
/// series filed under it.
pub uninterp spec fn family_members(f: SeriesFamily) -> Map<u64, Labels>;

/// The values of the series that a family holds: for each key in use, the
/// value at which the series filed under it stands.
pub uninterp spec fn family_values(f: SeriesFamily) -> Map<u64, int>;

/// The key under which a family files the series for a list of label values.
/// `prometheus` hashes the values one after the other, so two different lists
/// can share a key.
pub uninterp spec fn label_key(values: Seq<Seq<char>>) -> u64;

/// What a `MetricFamily` says: name, help, type and samples.
pub uninterp spec fn exposition_of(m: prometheus::proto::MetricFamily) -> Exposition;

/// What a `Desc` says: name, help, constant labels and variable label names.
pub uninterp spec fn descriptor_of(d: prometheus::core::Desc) -> Descriptor;

/// The labels of the series that a family hands out for `values`: those of
/// the series already filed under the key of `values`, or else those made of
/// `values`.
pub open spec fn filed_labels(f: SeriesFamily, values: Seq<Seq<char>>) -> Labels {
    if family_members(f).contains_key(label_key(values)) {
        family_members(f)[label_key(values)]
    } else {
        labelled(family_descriptor(f).variable_labels, values)
    }
}

/// What each of a list of `MetricFamily` says.
pub open spec fn expositions(families: Seq<prometheus::proto::MetricFamily>) -> Seq<Exposition> {
    families.map_values(|m: prometheus::proto::MetricFamily| exposition_of(m))
}

/// What each of a list of `Desc` says.
pub open spec fn descriptors(descs: Seq<&prometheus::core::Desc>) -> Seq<Descriptor> {
    descs.map_values(|d: &prometheus::core::Desc| descriptor_of(*d))
}

/// `prometheus::Gauge::with_opts`, on options made of `name`, `help`,
/// `namespace` and one constant label. It succeeds exactly when the help text
/// is not empty and the qualified name and the label name are well-formed;
/// the new gauge has the one label and the value 0.
#[verifier::external_body]
pub(crate) fn make_series(
    namespace: &str,
    name: &str,
    help: &str,
    label: &str,
    value: &str,
) -> (made: Result<Series, prometheus::Error>)
    ensures
        made is Ok <==> (help@.len() > 0 && is_metric_name(qualified_name(namespace@, name@))
            && is_label_name(label@)),
        made matches Ok(s) ==> series_state(s) == (SeriesState {
            descriptor: Descriptor {
                name: qualified_name(namespace@, name@),
                help: help@,
                const_labels: set![(label@, value@)],
                variable_labels: seq![],
            },
            labels: set![(label@, value@)],
            value: 0,
        }),
{
    let opts = prometheus::Opts::new(name, help).namespace(namespace).const_label(label, value);
    match prometheus::Gauge::with_opts(opts) {
        Ok(inner) => Ok(Series { inner }),
        Err(e) => Err(e),
    }
}

/// `prometheus::GaugeVec::new`, on options made of `name`, `help` and
/// `namespace`. It succeeds exactly when the help text is not empty, the
/// qualified name and every label name are well-formed, and no label name
/// occurs twice; the new family holds no series.
#[verifier::external_body]
pub(crate) fn make_family(
    namespace: &str,
    name: &str,
    help: &str,
    label_names: &Vec<String>,
) -> (made: Result<SeriesFamily, prometheus::Error>)
    ensures
        made is Ok <==> (help@.len() > 0 && is_metric_name(qualified_name(namespace@, name@))
            && label_names.deep_view().no_duplicates() && (forall|i: int|
            0 <= i < label_names.len() ==> is_label_name(#[trigger] label_names.deep_view()[i]))),
        made matches Ok(f) ==> family_members(f) =~= Map::empty(),
        made matches Ok(f) ==> family_values(f) =~= Map::empty(),
        made matches Ok(f) ==> family_descriptor(f) == (Descriptor {
            name: qualified_name(namespace@, name@),
            help: help@,
            const_labels: Set::empty(),
            variable_labels: label_names.deep_view(),
        }),
{
    let opts = prometheus::Opts::new(name, help).namespace(namespace);
    let names: Vec<&str> = label_names.iter().map(|n| n.as_str()).collect();
    match prometheus::GaugeVec::new(opts, &names) {
        Ok(inner) => Ok(SeriesFamily { inner }),
        Err(e) => Err(e),
    }
}

/// `prometheus::Gauge::set`: the gauge takes the given value and is otherwise
/// as before.
#[verifier::external_body]
pub(crate) fn set_series(s: &mut Series, value: u32)
    ensures
        series_state(*final(s)) == (SeriesState { value: value as int, ..series_state(*old(s)) }),
{
    s.inner.set(value.into());
}

/// `prometheus::GaugeVec::get_metric_with_label_values`, and
/// `prometheus::Gauge::set` on the series it gives. The call fails exactly
/// when the number of values is not the number of the family's label names,
/// and then changes nothing. Otherwise the series filed under the key of
/// `values` takes the given value: the one that is there already, whatever
/// values it was made for, or else a new one, made for `values` and filed
/// under that key.
#[verifier::external_body]
pub(crate) fn set_member(f: &mut SeriesFamily, values: &Vec<String>, value: u32) -> (set: Result<
    (),
    prometheus::Error,
>)
    requires
        family_descriptor(*old(f)).const_labels.is_empty(),
    ensures
        family_descriptor(*final(f)) == family_descriptor(*old(f)),
        set is Ok <==> values.len() == family_descriptor(*old(f)).variable_labels.len(),
        set is Err ==> family_members(*final(f)) == family_members(*old(f)),
        set is Err ==> family_values(*final(f)) == family_values(*old(f)),
        set is Ok ==> family_members(*final(f)) == family_members(*old(f)).insert(
            label_key(values.deep_view()),
            filed_labels(*old(f), values.deep_view()),
        ),
        set is Ok ==> family_values(*final(f)) == family_values(*old(f)).insert(
            label_key(values.deep_view()),
            value as int,
        ),
{
    match f.inner.get_metric_with_label_values(values.as_slice()) {
        Ok(member) => {
            member.set(value.into());
            Ok(())
        },
        Err(e) => Err(e),
    }
}

/// `prometheus::GaugeVec::remove_label_values`. It succeeds exactly when the
/// number of values is the number of the family's label names and a series is
/// filed under the key of `values`; that series is then no longer held.
/// Otherwise nothing changes.
#[verifier::external_body]
pub(crate) fn remove_member(f: &mut SeriesFamily, values: &Vec<String>) -> (removed: Result<
    (),
    prometheus::Error,
>)
    ensures
        family_descriptor(*final(f)) == family_descriptor(*old(f)),
        removed is Ok <==> (values.len() == family_descriptor(*old(f)).variable_labels.len()
            && family_members(*old(f)).contains_key(label_key(values.deep_view()))),
        removed is Ok ==> family_members(*final(f)) == family_members(*old(f)).remove(
            label_key(values.deep_view()),
        ),
        removed is Ok ==> family_values(*final(f)) == family_values(*old(f)).remove(
            label_key(values.deep_view()),
        ),
        removed is Err ==> family_members(*final(f)) == family_members(*old(f)),
        removed is Err ==> family_values(*final(f)) == family_values(*old(f)),
{
    f.inner.remove_label_values(values.as_slice())
}

/// `prometheus::GaugeVec::with_label_values`, and
/// `prometheus::core::Metric::metric` of the series it gives, of which the
/// label pairs are handed out. Asked for a key that is in use, the family
/// gives the series filed there and stays as it is; the pairs are the labels
/// of that series, in some order.
#[verifier::external_body]
pub(crate) fn member_labels(f: &SeriesFamily, values: &Vec<String>) -> (pairs: Vec<
    (String, String),
>)
    requires
        values.len() == family_descriptor(*f).variable_labels.len(),
        family_members(*f).contains_key(label_key(values.deep_view())),
    ensures
        pairs.deep_view().to_set() == family_members(*f)[label_key(values.deep_view())],
{
    let metric = prometheus::core::Metric::metric(&f.inner.with_label_values(values.as_slice()));
    metric.get_label().iter().map(|p| (p.name().to_string(), p.value().to_string())).collect()
}

/// `prometheus::GaugeVec::with_label_values`, and
/// `prometheus::core::Collector::collect` of the series it gives. Asked for a
/// key that is in use, the family gives the series filed there and stays as
/// it is; collected, that series is one metric of gauge type with the
/// family's name and help text and one sample, which carries the labels and
/// the value of the series.
#[verifier::external_body]
pub(crate) fn collect_member(f: &SeriesFamily, values: &Vec<String>) -> (families: Vec<
    prometheus::proto::MetricFamily,
>)
    requires
        values.len() == family_descriptor(*f).variable_labels.len(),
        family_members(*f).contains_key(label_key(values.deep_view())),
    ensures
        families@.len() == 1,
        exposition_of(families@[0]) == (Exposition {
            name: family_descriptor(*f).name,
            help: family_descriptor(*f).help,
            gauge: true,
            samples: seq![
                Sample {
                    labels: family_members(*f)[label_key(values.deep_view())],
                    value: family_values(*f)[label_key(values.deep_view())],
                },
            ],
        }),
{
    prometheus::core::Collector::collect(&f.inner.with_label_values(values.as_slice()))
}

/// `prometheus::core::Collector::collect` of a gauge: one metric of gauge
/// type with the gauge's name and help text and one sample, which carries the
/// gauge's labels and value.
#[verifier::external_body]
pub(crate) fn collect_series(s: &Series) -> (families: Vec<prometheus::proto::MetricFamily>)
    ensures
        families@.len() == 1,
        exposition_of(families@[0]) == (Exposition {
            name: series_state(*s).descriptor.name,
            help: series_state(*s).descriptor.help,
            gauge: true,
            samples: seq![Sample { labels: series_state(*s).labels, value: series_state(*s).value }],
        }),
{
    prometheus::core::Collector::collect(&s.inner)
}

/// `prometheus::core::Collector::desc` of a gauge: its one description.
#[verifier::external_body]
pub(crate) fn describe_series<'a>(s: &'a Series) -> (descs: Vec<&'a prometheus::core::Desc>)
    ensures
        descs@.len() == 1,
        descriptor_of(*descs@[0]) == series_state(*s).descriptor,
{
    prometheus::core::Collector::desc(&s.inner)
}

/// `prometheus::core::Collector::desc` of a family of gauges: its one
/// description.
#[verifier::external_body]
pub(crate) fn describe_family<'a>(f: &'a SeriesFamily) -> (descs: Vec<&'a prometheus::core::Desc>)
    ensures
        descs@.len() == 1,
        descriptor_of(*descs@[0]) == family_descriptor(*f),
{
    prometheus::core::Collector::desc(&f.inner)
}

} // verus!
