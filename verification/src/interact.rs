//! The interactive widgets: a single button that echoes its whole payload
//! into the event channel when clicked, and an action panel whose buttons
//! currently have no outbound event path — a known gap in the action
//! panel, preserved as such rather than guessed at.

use vstd::prelude::*;

use crate::events::{EventChannel, InteractionEvent};
use crate::schema::{SchemaNode, WidgetKind};
use crate::tables::{spec_str_or, spec_title_blocks, str_or};
use crate::value::{clone_value, value_eq, Value};
use crate::visual::{BlockV, VisualBlock};

verus! {

/// The labels of the action buttons: one per `actions` element that
/// carries a string `label` field; entries without one are skipped.
pub open spec fn spec_action_labels(items: Seq<Value>) -> Seq<BlockV>
    decreases items.len(),
{
    if items.len() == 0 {
        Seq::empty()
    } else {
        let rest = spec_action_labels(items.drop_first());
        match items[0].spec_get("label"@) {
            Some(Value::Str(s)) => seq![BlockV::ButtonUi(s@)] + rest,
            _ => rest,
        }
    }
}

/// The visual output of the interactive renderers; other variants render
/// nothing.
pub open spec fn spec_interact_output(node: SchemaNode) -> Seq<BlockV> {
    match node.kind {
        WidgetKind::Button => seq![
            BlockV::ButtonUi(spec_str_or(node.data, "label"@, "Button"@)),
        ],
        WidgetKind::ActionPanel => spec_title_blocks(node.title) + spec_action_labels(
            spec_items_of_actions(node.data),
        ),
        _ => Seq::empty(),
    }
}

/// The elements of the `actions` array, or nothing.
pub open spec fn spec_items_of_actions(data: Value) -> Seq<Value> {
    crate::tables::spec_items_of(data, "actions"@)
}

/// Whether the channel gained exactly one event carrying the given source
/// id and a payload structurally equal to the given tree.
pub open spec fn pushed_event(
    pre: Seq<InteractionEvent>,
    post: Seq<InteractionEvent>,
    id: Seq<char>,
    payload: Value,
) -> bool {
    &&& post.len() == pre.len() + 1
    &&& post.subrange(0, pre.len() as int) == pre
    &&& post.last().id@ == id
    &&& value_eq(post.last().payload, payload)
}

/// Renders a button or an action panel. A clicked button emits one event
/// that echoes the node's id and its entire payload verbatim; action-panel
/// clicks and every other variant leave the channel untouched. Never
/// panics, whatever the payload holds.
pub fn render(node: &SchemaNode, clicked: bool, ch: &mut EventChannel) -> (out: Vec<VisualBlock>)
    ensures
        out.deep_view() == spec_interact_output(*node),
        node.kind == WidgetKind::Button && clicked ==> pushed_event(
            old(ch)@,
            final(ch)@,
            node.id@,
            node.data,
        ),
        !(node.kind == WidgetKind::Button && clicked) ==> final(ch)@ == old(ch)@,
{
    let mut out: Vec<VisualBlock> = Vec::new();
    match node.kind {
        WidgetKind::Button => {
            let label = str_or(&node.data, "label", "Button");
            out.push(VisualBlock::ButtonUi(label));
            if clicked {
                let ev = InteractionEvent { id: node.id.clone(), payload: clone_value(&node.data) };
                ch.send(ev);
                proof {
                    assert(final(ch)@.subrange(0, old(ch)@.len() as int) =~= old(ch)@);
                }
            }
            proof {
                assert(out.deep_view() =~~= spec_interact_output(*node));
            }
        },
        WidgetKind::ActionPanel => {
            match &node.title {
                Some(t) => {
                    out.push(VisualBlock::Title(t.clone()));
                },
                None => {},
            }
            let ghost with_title = out.deep_view();
            proof {
                assert(with_title =~~= spec_title_blocks(node.title));
            }
            match node.data.get("actions") {
                Some(v) => match v.as_arr() {
                    Some(items) => {
                        let n = items.len();
                        proof {
                            assert(items@.subrange(0, n as int) =~= items@);
                        }
                        let mut i: usize = 0;
                        while i < n
                            invariant
                                n == items@.len(),
                                0 <= i <= n,
                                out.deep_view().subrange(0, with_title.len() as int)
                                    == with_title,
                                out.deep_view().subrange(
                                    with_title.len() as int,
                                    out@.len() as int,
                                ) + spec_action_labels(items@.subrange(i as int, n as int))
                                    == spec_action_labels(items@),
                                out@.len() >= with_title.len(),
                            decreases n - i,
                        {
                            proof {
                                assert(items@.subrange(i as int, n as int).drop_first()
                                    =~= items@.subrange(i + 1, n as int));
                                assert(items@.subrange(i as int, n as int)[0]
                                    == items@[i as int]);
                            }
                            let ghost tail_before = out.deep_view().subrange(
                                with_title.len() as int,
                                out@.len() as int,
                            );
                            match items[i].get("label") {
                                Some(lv) => match lv.as_str() {
                                    Some(s) => {
                                        out.push(VisualBlock::ButtonUi(s.clone()));
                                        proof {
                                            assert(out.deep_view().subrange(
                                                0,
                                                with_title.len() as int,
                                            ) =~~= with_title);
                                            assert(out.deep_view().subrange(
                                                with_title.len() as int,
                                                out@.len() as int,
                                            ) =~~= tail_before.push(BlockV::ButtonUi(s@)));
                                        }
                                    },
                                    None => {},
                                },
                                None => {},
                            }
                            i += 1;
                        }
                    },
                    None => {},
                },
                None => {},
            }
            proof {
                assert(spec_action_labels(Seq::<Value>::empty()) =~~= Seq::<BlockV>::empty());
                assert(out.deep_view() =~~= spec_interact_output(*node));
            }
        },
        _ => {
            proof {
                assert(out.deep_view() =~~= spec_interact_output(*node));
            }
        },
    }
    out
}

} // verus!
