use brics::charts;
use brics::dispatch::{dispatch, UiInput};
use brics::markdown;
use brics::tables;
use brics::terminal;
use brics::text;
use brics::EventChannel;
use brics::FormStore;
use brics::SchemaNode;
use brics::Severity;
use brics::Value;
use brics::VisualBlock;
use brics::WidgetKind;

fn s(t: &str) -> String {
    t.to_string()
}

fn node(kind: WidgetKind, title: Option<&str>, data: Value) -> SchemaNode {
    SchemaNode {
        id: s("node-1"),
        kind,
        title: title.map(s),
        data,
    }
}

fn obj(entries: Vec<(&str, Value)>) -> Value {
    Value::Obj(entries.into_iter().map(|(k, v)| (s(k), v)).collect())
}

#[test]
fn markdown_classifies_in_priority_order() {
    let n = node(
        WidgetKind::Markdown,
        None,
        obj(vec![("content", Value::Str(s("# Title\n- item\n```\ncode\n```\nplain")))]),
    );
    let out = markdown::render(&n);
    assert_eq!(
        out,
        vec![
            VisualBlock::Heading { level: 1, text: s("Title") },
            VisualBlock::Bullet(s("item")),
            VisualBlock::CodeLine(s("code")),
            VisualBlock::Label(s("plain")),
        ]
    );
}

#[test]
fn markdown_heading_levels_blank_and_numbered() {
    let n = node(
        WidgetKind::Markdown,
        Some("Doc"),
        obj(vec![("content", Value::Str(s("## Sub\n### Deep\n\n1. first\nx. nope\n* star")))]),
    );
    let out = markdown::render(&n);
    assert_eq!(
        out,
        vec![
            VisualBlock::Title(s("Doc")),
            VisualBlock::Heading { level: 2, text: s("Sub") },
            VisualBlock::Heading { level: 3, text: s("Deep") },
            VisualBlock::Blank,
            VisualBlock::Numbered(s("1. first")),
            VisualBlock::Label(s("x. nope")),
            VisualBlock::Bullet(s("star")),
        ]
    );
}

#[test]
fn markdown_missing_content_renders_only_title() {
    let n = node(WidgetKind::Markdown, Some("T"), obj(vec![]));
    assert_eq!(markdown::render(&n), vec![VisualBlock::Title(s("T"))]);
    let n2 = node(WidgetKind::Markdown, None, Value::Null);
    assert_eq!(markdown::render(&n2), vec![]);
}

#[test]
fn markdown_multibyte_lines_are_kept_whole() {
    let n = node(
        WidgetKind::Markdown,
        None,
        obj(vec![("content", Value::Str(s("# héllo\nnaïve café")))]),
    );
    let out = markdown::render(&n);
    assert_eq!(
        out,
        vec![
            VisualBlock::Heading { level: 1, text: s("héllo") },
            VisualBlock::Label(s("naïve café")),
        ]
    );
}

#[test]
fn markdown_unclosed_fence_keeps_code_mode_to_the_end() {
    let n = node(
        WidgetKind::Markdown,
        None,
        obj(vec![("content", Value::Str(s("```\n# not a heading\nstill code")))]),
    );
    let out = markdown::render(&n);
    assert_eq!(
        out,
        vec![
            VisualBlock::CodeLine(s("# not a heading")),
            VisualBlock::CodeLine(s("still code")),
        ]
    );
}

#[test]
fn markdown_indented_fence_still_toggles() {
    let n = node(
        WidgetKind::Markdown,
        None,
        obj(vec![("content", Value::Str(s("  ```rust\ncode\n  ```\nafter")))]),
    );
    let out = markdown::render(&n);
    assert_eq!(out, vec![VisualBlock::CodeLine(s("code")), VisualBlock::Label(s("after"))]);
}

#[test]
fn table_renders_headers_and_rows() {
    let n = node(
        WidgetKind::Table,
        None,
        obj(vec![
            ("headers", Value::Arr(vec![Value::Str(s("A")), Value::Str(s("B"))])),
            (
                "rows",
                Value::Arr(vec![
                    Value::Arr(vec![Value::Str(s("1")), Value::Str(s("2"))]),
                    Value::Str(s("not a row")),
                ]),
            ),
        ]),
    );
    let out = tables::render(&n);
    assert_eq!(
        out,
        vec![VisualBlock::Grid {
            headers: vec![s("A"), s("B")],
            rows: vec![vec![s("1"), s("2")], vec![]],
        }]
    );
}

#[test]
fn table_with_empty_payload_still_renders_a_grid() {
    let n = node(WidgetKind::Table, Some("T"), obj(vec![]));
    let out = tables::render(&n);
    assert_eq!(
        out,
        vec![
            VisualBlock::Title(s("T")),
            VisualBlock::Grid { headers: vec![], rows: vec![] },
        ]
    );
}

#[test]
fn process_list_formats_and_defaults_each_cell() {
    let n = node(
        WidgetKind::ProcessList,
        None,
        obj(vec![(
            "processes",
            Value::Arr(vec![
                obj(vec![
                    ("pid", Value::Num(42_000)),
                    ("name", Value::Str(s("init"))),
                    ("cpu", Value::Num(12_340)),
                    ("mem", Value::Num(2_500)),
                ]),
                obj(vec![("pid", Value::Num(-1_000)), ("cpu", Value::Num(-1_250))]),
                Value::Null,
            ]),
        )]),
    );
    let out = tables::render(&n);
    assert_eq!(
        out,
        vec![VisualBlock::Grid {
            headers: vec![s("PID"), s("Name"), s("CPU%"), s("MEM%")],
            rows: vec![
                vec![s("42"), s("init"), s("12.3"), s("2.5")],
                vec![s(""), s("?"), s("-1.3"), s("")],
                vec![s(""), s("?"), s(""), s("")],
            ],
        }]
    );
}

#[test]
fn status_grid_maps_statuses_to_severities() {
    let n = node(
        WidgetKind::StatusGrid,
        Some("Systems"),
        obj(vec![(
            "items",
            Value::Arr(vec![
                obj(vec![("label", Value::Str(s("db"))), ("status", Value::Str(s("error")))]),
                obj(vec![("label", Value::Str(s("net"))), ("status", Value::Str(s("warn")))]),
                obj(vec![("label", Value::Str(s("cpu"))), ("status", Value::Str(s("strange")))]),
                obj(vec![]),
            ]),
        )]),
    );
    let out = tables::render(&n);
    assert_eq!(
        out,
        vec![
            VisualBlock::Title(s("Systems")),
            VisualBlock::Chip { label: s("db"), severity: Severity::Error },
            VisualBlock::Chip { label: s("net"), severity: Severity::Warning },
            VisualBlock::Chip { label: s("cpu"), severity: Severity::Normal },
            VisualBlock::Chip { label: s("?"), severity: Severity::Normal },
        ]
    );
}

#[test]
fn chart_plots_well_formed_points_and_skips_the_rest() {
    let n = node(
        WidgetKind::Chart,
        Some("Load"),
        obj(vec![(
            "points",
            Value::Arr(vec![
                Value::Arr(vec![Value::Num(1_000), Value::Num(2_000)]),
                Value::Arr(vec![Value::Num(3_000)]),
                Value::Str(s("junk")),
                Value::Arr(vec![Value::Num(5_000), Value::Num(-500), Value::Num(9)]),
            ]),
        )]),
    );
    let out = charts::render(&n);
    assert_eq!(
        out,
        vec![
            VisualBlock::Title(s("Load")),
            VisualBlock::PlotLine(vec![(1_000, 2_000), (5_000, -500)]),
        ]
    );
}

#[test]
fn chart_without_points_falls_back_to_the_demo_curve() {
    let n = node(WidgetKind::Chart, None, obj(vec![]));
    assert_eq!(charts::render(&n), vec![VisualBlock::PlotDemo]);
    let n2 = node(WidgetKind::Chart, None, obj(vec![("points", Value::Num(7_000))]));
    assert_eq!(charts::render(&n2), vec![VisualBlock::PlotDemo]);
}

#[test]
fn chart_unknown_variant_renders_a_placeholder() {
    let n = node(WidgetKind::Chart, None, obj(vec![("variant", Value::Str(s("Bar")))]));
    assert_eq!(charts::render(&n), vec![VisualBlock::ChartPlaceholder(s("Bar"))]);
}

#[test]
fn terminal_shows_the_banner() {
    let n = node(WidgetKind::Terminal, Some("TTY"), obj(vec![]));
    let out = terminal::render(&n);
    assert_eq!(out.len(), 2);
    assert_eq!(out[0], VisualBlock::Title(s("TTY")));
    match &out[1] {
        VisualBlock::TerminalText(t) => assert!(t.starts_with("User@Demon:~$")),
        other => panic!("expected terminal text, got {:?}", other),
    }
}

#[test]
fn log_stream_maps_levels_case_insensitively() {
    let n = node(
        WidgetKind::LogStream,
        None,
        obj(vec![(
            "events",
            Value::Arr(vec![
                obj(vec![
                    ("ts", Value::Str(s("09:01"))),
                    ("level", Value::Str(s("ERROR"))),
                    ("msg", Value::Str(s("boom"))),
                ]),
                obj(vec![("level", Value::Str(s("Warn"))), ("msg", Value::Str(s("hot")))]),
                obj(vec![("msg", Value::Str(s("fine")))]),
            ]),
        )]),
    );
    let out = terminal::render(&n);
    assert_eq!(
        out,
        vec![
            VisualBlock::LogLine {
                ts: s("09:01"),
                level: s("ERROR"),
                severity: Severity::Error,
                msg: s("boom"),
            },
            VisualBlock::LogLine {
                ts: s(""),
                level: s("WARN"),
                severity: Severity::Warning,
                msg: s("hot"),
            },
            VisualBlock::LogLine {
                ts: s(""),
                level: s("INFO"),
                severity: Severity::Normal,
                msg: s("fine"),
            },
        ]
    );
}

#[test]
fn plain_text_renders_title_and_content() {
    let n = node(
        WidgetKind::PlainText,
        Some("Note"),
        obj(vec![("content", Value::Str(s("hello")))]),
    );
    assert_eq!(
        text::render(&n),
        vec![VisualBlock::Title(s("Note")), VisualBlock::Label(s("hello"))]
    );
    let n2 = node(WidgetKind::PlainText, None, obj(vec![("content", Value::Num(3_000))]));
    assert_eq!(text::render(&n2), vec![]);
}

#[test]
fn dispatcher_ignores_unknown_tags() {
    let mut store = FormStore::new();
    let mut ch = EventChannel::new();
    let n = node(WidgetKind::Unknown, Some("??"), obj(vec![("label", Value::Str(s("x")))]));
    let out = dispatch(
        &n,
        UiInput { clicked: true, edited: Some(s("zz")), submit_clicked: true },
        &mut store,
        &mut ch,
    );
    assert!(out.is_empty());
    assert_eq!(ch.len(), 0);
    assert!(store.get("node-1").is_none());
}

#[test]
fn dispatcher_routes_every_known_tag() {
    let mut store = FormStore::new();
    let mut ch = EventChannel::new();
    let quiet = UiInput { clicked: false, edited: None, submit_clicked: false };
    let chart = dispatch(&node(WidgetKind::Chart, None, obj(vec![])), quiet, &mut store, &mut ch);
    assert_eq!(chart, vec![VisualBlock::PlotDemo]);
    let term = dispatch(
        &node(WidgetKind::Terminal, None, obj(vec![])),
        UiInput { clicked: false, edited: None, submit_clicked: false },
        &mut store,
        &mut ch,
    );
    assert!(matches!(term[0], VisualBlock::TerminalText(_)));
    assert_eq!(ch.len(), 0);
}
