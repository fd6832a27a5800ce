use crate::codec::{
    begin, field, group_codec, is_object, object, read_field, with, write_field, Model,
};
use crate::json::{Json, JsonV};
use vstd::prelude::*;

verus! {

/// Describes the configuration option for the metrics capability.
#[derive(Clone, Debug, Default, PartialEq)]
pub struct Metrics {
    /// Path to the named pipe or file where the JSON-formatted metrics are
    /// flushed.
    pub metrics_path: String,
}

/// The mathematical value of a [`Metrics`].
pub struct MetricsView {
    pub metrics_path: Seq<char>,
}

impl DeepView for Metrics {
    type V = MetricsView;

    open spec fn deep_view(&self) -> MetricsView {
        MetricsView {
            metrics_path: self.metrics_path.deep_view(),
        }
    }
}

impl Metrics {
    pub fn new(metrics_path: String) -> (r: Self)
        ensures
            r == (Metrics { metrics_path }),
    {
        Self { metrics_path }
    }
}

impl Model for Metrics {
    open spec fn encoded(v: MetricsView) -> JsonV {
        let m = Seq::empty();
        let m = with::<String>(m, "metrics_path"@, v.metrics_path);
        JsonV::Object(m)
    }

    open spec fn decoded(j: JsonV) -> Option<MetricsView> {
        let metrics_path = field::<String>(j, "metrics_path"@);
        if j is Object && metrics_path is Some {
            Some(
                MetricsView {
                    metrics_path: metrics_path.unwrap(),
                },
            )
        } else {
            None
        }
    }

    open spec fn faithful(v: MetricsView) -> bool {
        true
    }

    fn to_json(&self) -> (j: Json) {
        let mut m = begin();
        write_field(&mut m, "metrics_path", &self.metrics_path);
        object(m)
    }

    fn from_json(j: &Json) -> (r: Option<Self>) {
        if !is_object(j) {
            return None;
        }
        let metrics_path = read_field::<String>(j, "metrics_path")?;
        Some(Metrics { metrics_path })
    }

    proof fn round_trip(v: MetricsView) {
        broadcast use group_codec;

        reveal_strlit("metrics_path");
        assert("metrics_path"@.len() == 12);
    }
}

} // verus!
