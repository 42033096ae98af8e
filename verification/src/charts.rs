//! The chart renderer. A `variant` payload field picks the sub-variant
//! (`TimeSeries` by default). A time series plots the well-formed pairs of
//! its `points` array; when that array is absent or not an array at all, a
//! deterministic demonstration curve stands in — bad data never aborts the
//! render path. Every other variant renders a labeled placeholder.

use vstd::prelude::*;

use crate::schema::SchemaNode;
use crate::tables::{spec_str_or, spec_title_blocks};
use crate::value::Value;
use crate::visual::{BlockV, VisualBlock};

verus! {

/// One plot point: a two-or-more element array whose first two elements
/// are numbers, taken as thousandths.
pub open spec fn spec_point(v: Value) -> Option<(i64, i64)> {
    match v {
        Value::Arr(p) => if p@.len() >= 2 {
            match (p@[0], p@[1]) {
                (Value::Num(x), Value::Num(y)) => Some((x, y)),
                _ => None,
            }
        } else {
            None
        },
        _ => None,
    }
}

/// The well-formed points of a series, in order; malformed entries are
/// skipped.
pub open spec fn spec_points(vs: Seq<Value>) -> Seq<(i64, i64)>
    decreases vs.len(),
{
    if vs.len() == 0 {
        Seq::empty()
    } else {
        match spec_point(vs[0]) {
            Some(p) => seq![p] + spec_points(vs.drop_first()),
            None => spec_points(vs.drop_first()),
        }
    }
}

/// The chart renderer's full output: the title when present, then either
/// the plotted points, the demonstration curve, or a placeholder labeled
/// with the unrecognized variant.
pub open spec fn spec_chart_output(node: SchemaNode) -> Seq<BlockV> {
    let variant = spec_str_or(node.data, "variant"@, "TimeSeries"@);
    spec_title_blocks(node.title) + if variant == "TimeSeries"@ {
        match node.data.spec_get("points"@) {
            Some(Value::Arr(arr)) => seq![BlockV::PlotLine(spec_points(arr@))],
            _ => seq![BlockV::PlotDemo],
        }
    } else {
        seq![BlockV::ChartPlaceholder(variant)]
    }
}

fn extract_point(v: &Value) -> (r: Option<(i64, i64)>)
    ensures
        r == spec_point(*v),
{
    match v.as_arr() {
        Some(p) => {
            if p.len() >= 2 {
                let x = match p[0].as_milli() {
                    Some(x) => x,
                    None => {
                        return None;
                    },
                };
                let y = match p[1].as_milli() {
                    Some(y) => y,
                    None => {
                        return None;
                    },
                };
                Some((x, y))
            } else {
                None
            }
        },
        None => None,
    }
}

fn extract_points(items: &Vec<Value>) -> (r: Vec<(i64, i64)>)
    ensures
        r@ == spec_points(items@),
{
    let mut r: Vec<(i64, i64)> = Vec::new();
    let n = items.len();
    proof {
        assert(items@.subrange(0, n as int) =~= items@);
    }
    let mut i: usize = 0;
    while i < n
        invariant
            n == items@.len(),
            0 <= i <= n,
            r@ + spec_points(items@.subrange(i as int, n as int)) == spec_points(items@),
        decreases n - i,
    {
        proof {
            assert(items@.subrange(i as int, n as int).drop_first() =~= items@.subrange(
                i + 1,
                n as int,
            ));
            assert(items@.subrange(i as int, n as int)[0] == items@[i as int]);
        }
        match extract_point(&items[i]) {
            Some(p) => {
                r.push(p);
            },
            None => {},
        }
        i += 1;
    }
    proof {
        assert(spec_points(items@.subrange(n as int, n as int)) =~= Seq::<(i64, i64)>::empty());
        assert(r@ =~= spec_points(items@));
    }
    r
}

/// Renders a chart node. Never panics, whatever the payload holds.
pub fn render(node: &SchemaNode) -> (out: Vec<VisualBlock>)
    ensures
        out.deep_view() == spec_chart_output(*node),
{
    let mut out: Vec<VisualBlock> = Vec::new();
    match &node.title {
        Some(t) => {
            out.push(VisualBlock::Title(t.clone()));
        },
        None => {},
    }
    proof {
        assert(out.deep_view() =~~= spec_title_blocks(node.title));
    }
    let variant: String = match node.data.get("variant") {
        Some(v) => match v.as_str() {
            Some(s) => s.clone(),
            None => "TimeSeries".to_owned(),
        },
        None => "TimeSeries".to_owned(),
    };
    let is_time_series = crate::textops::str_eq(variant.as_str(), "TimeSeries");
    if is_time_series {
        match node.data.get("points") {
            Some(v) => match v.as_arr() {
                Some(arr) => {
                    let points = extract_points(arr);
                    out.push(VisualBlock::PlotLine(points));
                },
                None => {
                    out.push(VisualBlock::PlotDemo);
                },
            },
            None => {
                out.push(VisualBlock::PlotDemo);
            },
        }
    } else {
        out.push(VisualBlock::ChartPlaceholder(variant));
    }
    proof {
        assert(out.deep_view() =~~= spec_chart_output(*node));
    }
    out
}

} // verus!
