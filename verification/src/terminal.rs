//! The terminal and log-stream renderers: bottom-pinned monospace views.
//! Log records carry a timestamp, a level, and a message; the level maps
//! case-insensitively to a severity, with plain info as the default for
//! anything unrecognized.

use vstd::prelude::*;

use crate::schema::{SchemaNode, WidgetKind};
use crate::tables::{spec_items_of, spec_str_or, spec_title_blocks, str_or};
use crate::textops::{lower_ascii, spec_lower_char, spec_upper_char, upper_ascii};
use crate::value::Value;
use crate::visual::{BlockV, Severity, VisualBlock};

verus! {

/// The severity of a lower-cased log level: `err` and `error` are errors,
/// `warn` is a warning, anything else reads as plain info.
pub open spec fn spec_level_severity(lower: Seq<char>) -> Severity {
    if lower == "err"@ || lower == "error"@ {
        Severity::Error
    } else if lower == "warn"@ {
        Severity::Warning
    } else {
        Severity::Normal
    }
}

/// One rendered log record: raw timestamp, upper-cased level tag, the
/// severity of the lower-cased level, and the raw message.
pub open spec fn spec_log_line(ev: Value) -> BlockV {
    let level = spec_str_or(ev, "level"@, "info"@);
    BlockV::LogLine {
        ts: spec_str_or(ev, "ts"@, ""@),
        level: level.map_values(|c: char| spec_upper_char(c)),
        severity: spec_level_severity(level.map_values(|c: char| spec_lower_char(c))),
        msg: spec_str_or(ev, "msg"@, ""@),
    }
}

/// The terminal and log-stream output; other variants render nothing.
pub open spec fn spec_terminal_output(node: SchemaNode) -> Seq<BlockV> {
    match node.kind {
        WidgetKind::Terminal => spec_title_blocks(node.title) + seq![
            BlockV::TerminalText(
                "User@Demon:~$ System ready.\n> Waiting for stream...\n> [LOG] Connected to deployment stream."@,
            ),
        ],
        WidgetKind::LogStream => spec_title_blocks(node.title) + spec_items_of(
            node.data,
            "events"@,
        ).map_values(|ev: Value| spec_log_line(ev)),
        _ => Seq::empty(),
    }
}

fn log_line(ev: &Value) -> (b: VisualBlock)
    ensures
        b@ == spec_log_line(*ev),
{
    let ts = str_or(ev, "ts", "");
    let level = str_or(ev, "level", "info");
    let msg = str_or(ev, "msg", "");
    let lowered = lower_ascii(level.as_str());
    let severity = if crate::textops::str_eq(lowered.as_str(), "err") || crate::textops::str_eq(
        lowered.as_str(),
        "error",
    ) {
        Severity::Error
    } else if crate::textops::str_eq(lowered.as_str(), "warn") {
        Severity::Warning
    } else {
        Severity::Normal
    };
    let level_tag = upper_ascii(level.as_str());
    VisualBlock::LogLine { ts, level: level_tag, severity, msg }
}

/// Renders a terminal or log-stream node; any other node renders nothing.
/// Never panics, whatever the payload holds.
pub fn render(node: &SchemaNode) -> (out: Vec<VisualBlock>)
    ensures
        out.deep_view() == spec_terminal_output(*node),
{
    let mut out: Vec<VisualBlock> = Vec::new();
    match node.kind {
        WidgetKind::Terminal => {
            match &node.title {
                Some(t) => {
                    out.push(VisualBlock::Title(t.clone()));
                },
                None => {},
            }
            out.push(
                VisualBlock::TerminalText(
                    "User@Demon:~$ System ready.\n> Waiting for stream...\n> [LOG] Connected to deployment stream.".to_owned(),
                ),
            );
            proof {
                assert(out.deep_view() =~~= spec_terminal_output(*node));
            }
        },
        WidgetKind::LogStream => {
            match &node.title {
                Some(t) => {
                    out.push(VisualBlock::Title(t.clone()));
                },
                None => {},
            }
            let ghost with_title = out.deep_view();
            proof {
                assert(with_title =~~= spec_title_blocks(node.title));
            }
            match node.data.get("events") {
                Some(v) => match v.as_arr() {
                    Some(items) => {
                        let n = items.len();
                        let mut i: usize = 0;
                        while i < n
                            invariant
                                n == items@.len(),
                                0 <= i <= n,
                                out@.len() == with_title.len() + i,
                                out.deep_view().subrange(0, with_title.len() as int)
                                    == with_title,
                                forall|j: int|
                                    0 <= j < i ==> out.deep_view()[with_title.len() + j]
                                        == spec_log_line(items@[j]),
                            decreases n - i,
                        {
                            out.push(log_line(&items[i]));
                            proof {
                                assert(out.deep_view().subrange(0, with_title.len() as int)
                                    =~~= with_title);
                            }
                            i += 1;
                        }
                    },
                    None => {},
                },
                None => {},
            }
            proof {
                assert(out.deep_view() =~~= spec_terminal_output(*node));
            }
        },
        _ => {
            proof {
                assert(out.deep_view() =~~= spec_terminal_output(*node));
            }
        },
    }
    out
}

} // verus!
