//! Exports the version of a Kubernetes API server as Prometheus gauges.
//!
//! The library is the collector of the exporter, verified with Verus. A
//! scrape hands it the outcome of one fetch of the cluster's version; it
//! answers with the metrics to expose: `build_info`, always at 1, and, where
//! the fetch gave a version, the series of `kubernetes_version` that is
//! labelled with it, at 1. The request to the cluster and the HTTP server
//! belong to the program around the library.
//!
//! - `collector`: the collector, `ExportMetrics`, and what a scrape reports.
//! - `naming`: well-formed metric and label names, and the namespace.
//! - `labels`: label pairs as plain values.
//! - `gauges`: the gauges of the `prometheus` crate and what is relied on of
//!   them.

pub mod collector;
pub mod gauges;
pub mod labels;
pub mod naming;

pub use crate::collector::{ClusterVersionInfo, ExportMetrics, FetchError};
