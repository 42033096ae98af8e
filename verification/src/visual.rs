//! The visual output model: what a renderer asks the host surface to draw.
//!
//! Renderers are pure; they return a sequence of [`VisualBlock`]s rather
//! than drawing anything themselves. The host turns blocks into concrete
//! widgets.

use vstd::prelude::*;

verus! {

/// A three-step severity scale used for status chips and log lines.
#[derive(Clone, Copy, Debug, PartialEq, Eq, Structural)]
pub enum Severity {
    Error,
    Warning,
    Normal,
}

/// One drawable unit emitted by a renderer, in display order.
#[derive(Clone, Debug, PartialEq, Eq)]
pub enum VisualBlock {
    /// A widget's title line.
    Title(String),
    /// A markdown heading of level 1 to 3.
    Heading { level: u8, text: String },
    /// A bulleted list item.
    Bullet(String),
    /// A numbered list line, kept verbatim.
    Numbered(String),
    /// One verbatim line inside a fenced code block.
    CodeLine(String),
    /// Vertical spacing from a blank line.
    Blank,
    /// A plain paragraph or label.
    Label(String),
    /// A table: one header row and any number of data rows.
    Grid { headers: Vec<String>, rows: Vec<Vec<String>> },
    /// A status chip with a colored severity.
    Chip { label: String, severity: Severity },
    /// A polyline chart; coordinates are in thousandths of a unit.
    PlotLine(Vec<(i64, i64)>),
    /// The deterministic demonstration curve drawn when point data is
    /// absent or malformed.
    PlotDemo,
    /// A labeled placeholder for chart variants with no real renderer.
    ChartPlaceholder(String),
    /// A monospace text view pinned to its bottom.
    TerminalText(String),
    /// One structured log record.
    LogLine { ts: String, level: String, severity: Severity, msg: String },
    /// A clickable button with a label.
    ButtonUi(String),
    /// A single-line text input with its label and retained value.
    TextInput { label: String, value: String },
    /// A form's submit control.
    SubmitButton(String),
}

/// The mathematical shape of a [`VisualBlock`]: every string replaced by
/// its character sequence.
#[verifier::ext_equal]
pub ghost enum BlockV {
    Title(Seq<char>),
    Heading { level: int, text: Seq<char> },
    Bullet(Seq<char>),
    Numbered(Seq<char>),
    CodeLine(Seq<char>),
    Blank,
    Label(Seq<char>),
    Grid { headers: Seq<Seq<char>>, rows: Seq<Seq<Seq<char>>> },
    Chip { label: Seq<char>, severity: Severity },
    PlotLine(Seq<(i64, i64)>),
    PlotDemo,
    ChartPlaceholder(Seq<char>),
    TerminalText(Seq<char>),
    LogLine { ts: Seq<char>, level: Seq<char>, severity: Severity, msg: Seq<char> },
    ButtonUi(Seq<char>),
    TextInput { label: Seq<char>, value: Seq<char> },
    SubmitButton(Seq<char>),
}

impl View for VisualBlock {
    type V = BlockV;

    open spec fn view(&self) -> BlockV {
        match self {
            VisualBlock::Title(s) => BlockV::Title(s@),
            VisualBlock::Heading { level, text } => BlockV::Heading {
                level: *level as int,
                text: text@,
            },
            VisualBlock::Bullet(s) => BlockV::Bullet(s@),
            VisualBlock::Numbered(s) => BlockV::Numbered(s@),
            VisualBlock::CodeLine(s) => BlockV::CodeLine(s@),
            VisualBlock::Blank => BlockV::Blank,
            VisualBlock::Label(s) => BlockV::Label(s@),
            VisualBlock::Grid { headers, rows } => BlockV::Grid {
                headers: headers@.map_values(|h: String| h@),
                rows: rows@.map_values(|row: Vec<String>| row@.map_values(|c: String| c@)),
            },
            VisualBlock::Chip { label, severity } => BlockV::Chip {
                label: label@,
                severity: *severity,
            },
            VisualBlock::PlotLine(ps) => BlockV::PlotLine(ps@),
            VisualBlock::PlotDemo => BlockV::PlotDemo,
            VisualBlock::ChartPlaceholder(s) => BlockV::ChartPlaceholder(s@),
            VisualBlock::TerminalText(s) => BlockV::TerminalText(s@),
            VisualBlock::LogLine { ts, level, severity, msg } => BlockV::LogLine {
                ts: ts@,
                level: level@,
                severity: *severity,
                msg: msg@,
            },
            VisualBlock::ButtonUi(s) => BlockV::ButtonUi(s@),
            VisualBlock::TextInput { label, value } => BlockV::TextInput {
                label: label@,
                value: value@,
            },
            VisualBlock::SubmitButton(s) => BlockV::SubmitButton(s@),
        }
    }
}

impl DeepView for VisualBlock {
    type V = BlockV;

    open spec fn deep_view(&self) -> BlockV {
        self.view()
    }
}

} // verus!
