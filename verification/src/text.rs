//! The plain-text renderer: an optional title and the `content` field as
//! one paragraph.

use vstd::prelude::*;

use crate::schema::SchemaNode;
use crate::tables::spec_title_blocks;
use crate::value::Value;
use crate::visual::{BlockV, VisualBlock};

verus! {

/// The plain-text output: the title when present, then the string
/// `content` field as a paragraph; a missing or non-string content field
/// renders only the title.
pub open spec fn spec_text_output(node: SchemaNode) -> Seq<BlockV> {
    spec_title_blocks(node.title) + match node.data.spec_get("content"@) {
        Some(Value::Str(c)) => seq![BlockV::Label(c@)],
        _ => Seq::empty(),
    }
}

/// Renders a plain-text node. Never panics, whatever the payload holds.
pub fn render(node: &SchemaNode) -> (out: Vec<VisualBlock>)
    ensures
        out.deep_view() == spec_text_output(*node),
{
    let mut out: Vec<VisualBlock> = Vec::new();
    match &node.title {
        Some(t) => {
            out.push(VisualBlock::Title(t.clone()));
        },
        None => {},
    }
    match node.data.get("content") {
        Some(v) => match v.as_str() {
            Some(c) => {
                out.push(VisualBlock::Label(c.clone()));
            },
            None => {},
        },
        None => {},
    }
    proof {
        assert(out.deep_view() =~~= spec_text_output(*node));
    }
    out
}

} // verus!
