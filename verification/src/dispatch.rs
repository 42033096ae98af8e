//! The schema dispatcher: a total function from variant tag to renderer.
//! An unrecognized tag renders nothing and emits nothing — an explicit
//! ignore policy, not a failure.

use vstd::prelude::*;

use crate::charts;
use crate::events::EventChannel;
use crate::form::{self, spec_form_output, spec_retained, submit_payload, FormStore};
use crate::interact::{self, pushed_event, spec_interact_output};
use crate::markdown;
use crate::schema::{SchemaNode, WidgetKind};
use crate::tables;
use crate::terminal;
use crate::text;
use crate::visual::{BlockV, VisualBlock};

verus! {

/// The per-tick user input relevant to one node: whether its button was
/// clicked, a changed text-input value if any, and whether its submit
/// control was clicked.
pub struct UiInput {
    pub clicked: bool,
    pub edited: Option<String>,
    pub submit_clicked: bool,
}

/// The retained store after a form edit is applied; edits touch only form
/// nodes.
pub open spec fn spec_store_after_edit(
    m: Map<Seq<char>, Seq<char>>,
    node: SchemaNode,
    input: UiInput,
) -> Map<Seq<char>, Seq<char>> {
    if node.kind == WidgetKind::Form && input.edited is Some {
        m.insert(node.id@, input.edited->Some_0@)
    } else {
        m
    }
}

/// The retained store once the whole tick is handled: a submit clears the
/// node's retained value.
pub open spec fn spec_store_after(
    m: Map<Seq<char>, Seq<char>>,
    node: SchemaNode,
    input: UiInput,
) -> Map<Seq<char>, Seq<char>> {
    if node.kind == WidgetKind::Form && input.submit_clicked {
        spec_store_after_edit(m, node, input).remove(node.id@)
    } else {
        spec_store_after_edit(m, node, input)
    }
}

/// What the dispatcher draws for each variant tag; `retained` is the form
/// value the node shows this tick. The match is total: unknown tags render
/// nothing.
pub open spec fn spec_dispatch_output(node: SchemaNode, retained: Seq<char>) -> Seq<BlockV> {
    match node.kind {
        WidgetKind::Chart => charts::spec_chart_output(node),
        WidgetKind::ProcessList => tables::spec_tables_output(node),
        WidgetKind::StatusGrid => tables::spec_tables_output(node),
        WidgetKind::Table => tables::spec_tables_output(node),
        WidgetKind::Terminal => terminal::spec_terminal_output(node),
        WidgetKind::LogStream => terminal::spec_terminal_output(node),
        WidgetKind::Markdown => markdown::spec_markdown_output(node),
        WidgetKind::PlainText => text::spec_text_output(node),
        WidgetKind::Button => spec_interact_output(node),
        WidgetKind::ActionPanel => spec_interact_output(node),
        WidgetKind::Form => spec_form_output(node, retained),
        WidgetKind::Unknown => Seq::empty(),
    }
}

/// Resolves one schema node to its renderer and runs it. A form edit is
/// retained first, the widget is drawn with the value the user sees, and a
/// submit then emits its event and clears the retained value. A clicked
/// button echoes its payload. Everything else leaves the store and the
/// channel untouched. Never panics, whatever the payload holds.
pub fn dispatch(
    node: &SchemaNode,
    input: UiInput,
    store: &mut FormStore,
    ch: &mut EventChannel,
) -> (out: Vec<VisualBlock>)
    ensures
        out.deep_view() == spec_dispatch_output(
            *node,
            spec_retained(spec_store_after_edit(old(store)@, *node, input), node.id@),
        ),
        final(store)@ == spec_store_after(old(store)@, *node, input),
        node.kind == WidgetKind::Button && input.clicked ==> pushed_event(
            old(ch)@,
            final(ch)@,
            node.id@,
            node.data,
        ),
        node.kind == WidgetKind::Form && input.submit_clicked ==> {
            &&& final(ch)@.len() == old(ch)@.len() + 1
            &&& final(ch)@.subrange(0, old(ch)@.len() as int) == old(ch)@
            &&& final(ch)@.last().id@ == node.id@
            &&& submit_payload(
                final(ch)@.last().payload,
                spec_retained(spec_store_after_edit(old(store)@, *node, input), node.id@),
            )
        },
        !(node.kind == WidgetKind::Button && input.clicked) && !(node.kind == WidgetKind::Form
            && input.submit_clicked) ==> final(ch)@ == old(ch)@,
{
    match node.kind {
        WidgetKind::Chart => charts::render(node),
        WidgetKind::ProcessList => tables::render(node),
        WidgetKind::StatusGrid => tables::render(node),
        WidgetKind::Table => tables::render(node),
        WidgetKind::Terminal => terminal::render(node),
        WidgetKind::LogStream => terminal::render(node),
        WidgetKind::Markdown => markdown::render(node),
        WidgetKind::PlainText => text::render(node),
        WidgetKind::Button => interact::render(node, input.clicked, ch),
        WidgetKind::ActionPanel => interact::render(node, input.clicked, ch),
        WidgetKind::Form => {
            match input.edited {
                Some(v) => {
                    store.insert(node.id.as_str(), v);
                },
                None => {},
            }
            let out = form::render(node, store);
            if input.submit_clicked {
                form::submit(node, store, ch);
            }
            out
        },
        WidgetKind::Unknown => {
            let out: Vec<VisualBlock> = Vec::new();
            proof {
                assert(out.deep_view() =~~= Seq::<BlockV>::empty());
            }
            out
        },
    }
}

} // verus!
