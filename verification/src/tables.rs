//! The table family: process list, status grid, and generic table. All
//! three share one grid shape — a header row plus extracted data rows —
//! and a strict no-panic policy: malformed items become empty cells, never
//! errors.

use vstd::prelude::*;

use crate::schema::{SchemaNode, WidgetKind};
use crate::textops::{milli_1dp_string, spec_digits, spec_milli_1dp, str_eq, u64_string};
use crate::value::Value;
use crate::visual::{BlockV, Severity, VisualBlock};

verus! {

/// The elements of the array stored under `key`, or nothing when the field
/// is absent or not an array.
pub open spec fn spec_items_of(data: Value, key: Seq<char>) -> Seq<Value> {
    match data.spec_get(key) {
        Some(Value::Arr(items)) => items@,
        _ => Seq::empty(),
    }
}

/// The title blocks a widget contributes: one `Title` when a title is set.
pub open spec fn spec_title_blocks(title: Option<String>) -> Seq<BlockV> {
    match title {
        Some(t) => seq![BlockV::Title(t@)],
        None => Seq::empty(),
    }
}

/// Maps a status string to a severity: `err` and `error` are errors,
/// `warn` is a warning, and anything unrecognized counts as nominal.
pub open spec fn spec_status_severity(s: Seq<char>) -> Severity {
    if s == "err"@ || s == "error"@ {
        Severity::Error
    } else if s == "warn"@ {
        Severity::Warning
    } else {
        Severity::Normal
    }
}

/// Executable form of [`spec_status_severity`].
pub fn status_severity(s: &str) -> (r: Severity)
    ensures
        r == spec_status_severity(s@),
{
    if str_eq(s, "err") || str_eq(s, "error") {
        Severity::Error
    } else if str_eq(s, "warn") {
        Severity::Warning
    } else {
        Severity::Normal
    }
}

/// The text of a string field, or the given fallback when the field is
/// absent or not a string.
pub open spec fn spec_str_or(item: Value, key: Seq<char>, fallback: Seq<char>) -> Seq<char> {
    match item.spec_get(key) {
        Some(Value::Str(s)) => s@,
        _ => fallback,
    }
}

pub(crate) fn str_or(item: &Value, key: &str, fallback: &str) -> (r: String)
    ensures
        r@ == spec_str_or(*item, key@, fallback@),
{
    match item.get(key) {
        Some(v) => match v.as_str() {
            Some(s) => s.clone(),
            None => fallback.to_owned(),
        },
        None => fallback.to_owned(),
    }
}

/// A process item's PID cell: the decimal digits of a whole non-negative
/// `pid` field, or empty text.
pub open spec fn spec_pid_text(item: Value) -> Seq<char> {
    match item.spec_get("pid"@) {
        Some(v) => match v.spec_as_u64() {
            Some(n) => spec_digits(n as nat),
            None => Seq::empty(),
        },
        None => Seq::empty(),
    }
}

/// A numeric field formatted with one decimal digit, or empty text when
/// the field is absent or not a number.
pub open spec fn spec_milli_text(item: Value, key: Seq<char>) -> Seq<char> {
    match item.spec_get(key) {
        Some(Value::Num(m)) => spec_milli_1dp(m as int),
        _ => Seq::empty(),
    }
}

/// The four cells of one process row: PID, name, CPU%, MEM%.
pub open spec fn spec_process_row(item: Value) -> Seq<Seq<char>> {
    seq![
        spec_pid_text(item),
        spec_str_or(item, "name"@, "?"@),
        spec_milli_text(item, "cpu"@),
        spec_milli_text(item, "mem"@),
    ]
}

/// Extracts the four process-list cells from one item; every missing or
/// wrong-typed field yields its documented default.
pub fn process_row(item: &Value) -> (r: Vec<String>)
    ensures
        r.deep_view() == spec_process_row(*item),
{
    let pid: String = match item.get("pid") {
        Some(v) => match v.as_u64() {
            Some(n) => u64_string(n),
            None => String::new(),
        },
        None => String::new(),
    };
    let name = str_or(item, "name", "?");
    let cpu: String = match item.get("cpu") {
        Some(v) => match v.as_milli() {
            Some(m) => milli_1dp_string(m),
            None => String::new(),
        },
        None => String::new(),
    };
    let mem: String = match item.get("mem") {
        Some(v) => match v.as_milli() {
            Some(m) => milli_1dp_string(m),
            None => String::new(),
        },
        None => String::new(),
    };
    let mut r: Vec<String> = Vec::new();
    r.push(pid);
    r.push(name);
    r.push(cpu);
    r.push(mem);
    proof {
        assert(r.deep_view() =~= spec_process_row(*item));
    }
    r
}

/// One generic-table cell: string values verbatim, everything else empty.
pub open spec fn spec_cell_text(v: Value) -> Seq<char> {
    match v {
        Value::Str(s) => s@,
        _ => Seq::empty(),
    }
}

/// One generic-table row: its string cells when the item is an array, and
/// zero cells otherwise — a malformed row never disturbs its neighbours.
pub open spec fn spec_table_row(item: Value) -> Seq<Seq<char>> {
    match item {
        Value::Arr(cells) => cells@.map_values(|c: Value| spec_cell_text(c)),
        _ => Seq::empty(),
    }
}

/// Extracts one generic-table row.
pub fn table_row(item: &Value) -> (r: Vec<String>)
    ensures
        r.deep_view() == spec_table_row(*item),
{
    let mut r: Vec<String> = Vec::new();
    match item {
        Value::Arr(cells) => {
            let n = cells.len();
            let mut i: usize = 0;
            while i < n
                invariant
                    n == cells@.len(),
                    0 <= i <= n,
                    r@.len() == i,
                    forall|j: int| 0 <= j < i ==> r.deep_view()[j] == spec_cell_text(cells@[j]),
                decreases n - i,
            {
                let cell: String = match cells[i].as_str() {
                    Some(s) => s.clone(),
                    None => String::new(),
                };
                let ghost before = r.deep_view();
                let ghost cell_chars = cell@;
                r.push(cell);
                proof {
                    assert(r.deep_view() =~~= before.push(cell_chars));
                }
                i += 1;
            }
            proof {
                assert(r.deep_view() =~~= spec_table_row(*item));
            }
        },
        _ => {
            proof {
                assert(r.deep_view() =~~= spec_table_row(*item));
            }
        },
    }
    r
}

/// The string elements of a header array, kept in order; non-string
/// elements are skipped.
pub open spec fn spec_str_filter(vs: Seq<Value>) -> Seq<Seq<char>>
    decreases vs.len(),
{
    if vs.len() == 0 {
        Seq::empty()
    } else {
        match vs[0] {
            Value::Str(s) => seq![s@] + spec_str_filter(vs.drop_first()),
            _ => spec_str_filter(vs.drop_first()),
        }
    }
}

/// The generic table's header texts: the string elements of the `headers`
/// array, or no headers at all.
pub open spec fn spec_headers(data: Value) -> Seq<Seq<char>> {
    spec_str_filter(spec_items_of(data, "headers"@))
}

fn header_texts(data: &Value) -> (r: Vec<String>)
    ensures
        r.deep_view() == spec_headers(*data),
{
    let mut r: Vec<String> = Vec::new();
    let items: &Vec<Value> = match data.get("headers") {
        Some(v) => match v.as_arr() {
            Some(a) => a,
            None => {
                proof {
                    assert(r.deep_view() =~~= spec_headers(*data));
                }
                return r;
            },
        },
        None => {
            proof {
                assert(r.deep_view() =~~= spec_headers(*data));
            }
            return r;
        },
    };
    let n = items.len();
    proof {
        assert(items@.subrange(0, n as int) =~= items@);
    }
    let mut i: usize = 0;
    while i < n
        invariant
            n == items@.len(),
            0 <= i <= n,
            r.deep_view() + spec_str_filter(items@.subrange(i as int, n as int))
                == spec_str_filter(items@),
        decreases n - i,
    {
        proof {
            assert(items@.subrange(i as int, n as int).drop_first() =~= items@.subrange(
                i + 1,
                n as int,
            ));
            assert(items@.subrange(i as int, n as int)[0] == items@[i as int]);
        }
        match items[i].as_str() {
            Some(s) => {
                let ghost before = r.deep_view();
                r.push(s.clone());
                proof {
                    assert(r.deep_view() =~~= before.push(s@));
                    assert(r.deep_view() + spec_str_filter(items@.subrange(i + 1, n as int))
                        =~~= before + spec_str_filter(items@.subrange(i as int, n as int)));
                }
            },
            None => {},
        }
        i += 1;
    }
    proof {
        assert(items@.subrange(n as int, n as int).len() == 0);
        assert(r.deep_view() + spec_str_filter(items@.subrange(n as int, n as int))
            =~~= r.deep_view());
        assert(r.deep_view() =~~= spec_headers(*data));
    }
    r
}

/// One status chip: the item's label with the severity its status string
/// maps to; label defaults to `?`, status defaults to `ok`.
pub open spec fn spec_chip(item: Value) -> BlockV {
    BlockV::Chip {
        label: spec_str_or(item, "label"@, "?"@),
        severity: spec_status_severity(spec_str_or(item, "status"@, "ok"@)),
    }
}

/// The full output of the table-family renderer for each of its variants;
/// other variants render nothing.
pub open spec fn spec_tables_output(node: SchemaNode) -> Seq<BlockV> {
    match node.kind {
        WidgetKind::ProcessList => spec_title_blocks(node.title) + seq![
            BlockV::Grid {
                headers: seq!["PID"@, "Name"@, "CPU%"@, "MEM%"@],
                rows: spec_items_of(node.data, "processes"@).map_values(
                    |item: Value| spec_process_row(item),
                ),
            },
        ],
        WidgetKind::StatusGrid => spec_title_blocks(node.title) + spec_items_of(
            node.data,
            "items"@,
        ).map_values(|item: Value| spec_chip(item)),
        WidgetKind::Table => spec_title_blocks(node.title) + seq![
            BlockV::Grid {
                headers: spec_headers(node.data),
                rows: spec_items_of(node.data, "rows"@).map_values(
                    |item: Value| spec_table_row(item),
                ),
            },
        ],
        _ => Seq::empty(),
    }
}

fn push_title(out: &mut Vec<VisualBlock>, title: &Option<String>)
    ensures
        final(out).deep_view() == old(out).deep_view() + spec_title_blocks(*title),
{
    match title {
        Some(t) => {
            let ghost before = out.deep_view();
            out.push(VisualBlock::Title(t.clone()));
            proof {
                assert(out.deep_view() =~~= before + spec_title_blocks(*title));
            }
        },
        None => {
            proof {
                assert(out.deep_view() =~~= out.deep_view() + spec_title_blocks(*title));
            }
        },
    }
}

/// Renders a process list, status grid, or generic table; any other node
/// renders nothing. Never panics, whatever the payload holds.
pub fn render(node: &SchemaNode) -> (out: Vec<VisualBlock>)
    ensures
        out.deep_view() == spec_tables_output(*node),
{
    let mut out: Vec<VisualBlock> = Vec::new();
    match node.kind {
        WidgetKind::ProcessList => {
            push_title(&mut out, &node.title);
            let mut headers: Vec<String> = Vec::new();
            headers.push("PID".to_owned());
            headers.push("Name".to_owned());
            headers.push("CPU%".to_owned());
            headers.push("MEM%".to_owned());
            proof {
                assert(headers.deep_view() =~~= seq!["PID"@, "Name"@, "CPU%"@, "MEM%"@]);
            }
            let mut rows: Vec<Vec<String>> = Vec::new();
            match node.data.get("processes") {
                Some(v) => match v.as_arr() {
                    Some(items) => {
                        let n = items.len();
                        let mut i: usize = 0;
                        while i < n
                            invariant
                                n == items@.len(),
                                0 <= i <= n,
                                rows@.len() == i,
                                forall|j: int|
                                    0 <= j < i ==> rows.deep_view()[j] == spec_process_row(
                                        items@[j],
                                    ),
                            decreases n - i,
                        {
                            let row = process_row(&items[i]);
                            let ghost before = rows.deep_view();
                            let ghost row_cells = row.deep_view();
                            rows.push(row);
                            proof {
                                assert(rows.deep_view() =~~= before.push(row_cells));
                            }
                            i += 1;
                        }
                    },
                    None => {},
                },
                None => {},
            }
            proof {
                assert(rows.deep_view() =~~= spec_items_of(node.data, "processes"@).map_values(
                    |item: Value| spec_process_row(item),
                ));
            }
            let ghost before = out.deep_view();
            out.push(VisualBlock::Grid { headers, rows });
            proof {
                assert(out.deep_view() =~~= spec_tables_output(*node));
            }
        },
        WidgetKind::StatusGrid => {
            push_title(&mut out, &node.title);
            let ghost with_title = out.deep_view();
            match node.data.get("items") {
                Some(v) => match v.as_arr() {
                    Some(items) => {
                        let n = items.len();
                        let mut i: usize = 0;
                        while i < n
                            invariant
                                n == items@.len(),
                                0 <= i <= n,
                                out@.len() == with_title.len() + i,
                                out.deep_view().subrange(0, with_title.len() as int)
                                    == with_title,
                                forall|j: int|
                                    0 <= j < i ==> out.deep_view()[with_title.len() + j]
                                        == spec_chip(items@[j]),
                            decreases n - i,
                        {
                            let item = &items[i];
                            let label = str_or(item, "label", "?");
                            let status = str_or(item, "status", "ok");
                            let severity = status_severity(status.as_str());
                            out.push(VisualBlock::Chip { label, severity });
                            proof {
                                assert(out.deep_view().subrange(0, with_title.len() as int)
                                    =~~= with_title);
                            }
                            i += 1;
                        }
                    },
                    None => {},
                },
                None => {},
            }
            proof {
                assert(out.deep_view() =~~= spec_tables_output(*node));
            }
        },
        WidgetKind::Table => {
            push_title(&mut out, &node.title);
            let headers = header_texts(&node.data);
            let mut rows: Vec<Vec<String>> = Vec::new();
            match node.data.get("rows") {
                Some(v) => match v.as_arr() {
                    Some(items) => {
                        let n = items.len();
                        let mut i: usize = 0;
                        while i < n
                            invariant
                                n == items@.len(),
                                0 <= i <= n,
                                rows@.len() == i,
                                forall|j: int|
                                    0 <= j < i ==> rows.deep_view()[j] == spec_table_row(
                                        items@[j],
                                    ),
                            decreases n - i,
                        {
                            let row = table_row(&items[i]);
                            let ghost before = rows.deep_view();
                            let ghost row_cells = row.deep_view();
                            rows.push(row);
                            proof {
                                assert(rows.deep_view() =~~= before.push(row_cells));
                            }
                            i += 1;
                        }
                    },
                    None => {},
                },
                None => {},
            }
            proof {
                assert(rows.deep_view() =~~= spec_items_of(node.data, "rows"@).map_values(
                    |item: Value| spec_table_row(item),
                ));
            }
            out.push(VisualBlock::Grid { headers, rows });
            proof {
                assert(out.deep_view() =~~= spec_tables_output(*node));
            }
        },
        _ => {
            proof {
                assert(out.deep_view() =~~= spec_tables_output(*node));
            }
        },
    }
    out
}

} // verus!
