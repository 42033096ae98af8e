//! The form renderer and its retained-value store. A form's text input
//! lives in a keyed store under the node's identity, so edits survive
//! redraws; one shared value serves all declared fields of a form — a
//! documented limitation of the current behavior, not one value per
//! field. Submitting emits a `{action: "submit", value}` event and clears
//! the retained value.

use vstd::prelude::*;

use crate::events::{EventChannel, InteractionEvent};
use crate::schema::SchemaNode;
use crate::tables::{spec_items_of, spec_str_or, spec_title_blocks, str_or};
use crate::textops::str_eq;
use crate::value::Value;
use crate::visual::{BlockV, VisualBlock};

verus! {

/// The value bound to `key` by the first matching entry, if any.
pub open spec fn spec_sget(es: Seq<(String, String)>, key: Seq<char>) -> Option<Seq<char>>
    decreases es.len(),
{
    if es.len() == 0 {
        None
    } else if es[0].0@ == key {
        Some(es[0].1@)
    } else {
        spec_sget(es.drop_first(), key)
    }
}

/// Looking a key up in concatenated entry lists tries the front list
/// first.
proof fn lemma_sget_concat(a: Seq<(String, String)>, b: Seq<(String, String)>, key: Seq<char>)
    ensures
        spec_sget(a + b, key) == match spec_sget(a, key) {
            Some(v) => Some(v),
            None => spec_sget(b, key),
        },
    decreases a.len(),
{
    if a.len() == 0 {
        assert(a + b =~= b);
    } else {
        assert((a + b).drop_first() =~= a.drop_first() + b);
        lemma_sget_concat(a.drop_first(), b, key);
    }
}

/// A keyed store of retained per-node form input, keyed by node identity.
/// Entries live from the first edit until submit removes them.
pub struct FormStore {
    entries: Vec<(String, String)>,
}

impl View for FormStore {
    type V = Map<Seq<char>, Seq<char>>;

    closed spec fn view(&self) -> Map<Seq<char>, Seq<char>> {
        Map::new(
            |k: Seq<char>| spec_sget(self.entries@, k) is Some,
            |k: Seq<char>| spec_sget(self.entries@, k)->Some_0,
        )
    }
}

impl FormStore {
    /// An empty store.
    pub fn new() -> (r: FormStore)
        ensures
            r@ == Map::<Seq<char>, Seq<char>>::empty(),
    {
        let r = FormStore { entries: Vec::new() };
        proof {
            assert(r@ =~= Map::<Seq<char>, Seq<char>>::empty());
        }
        r
    }

    /// The value retained under `key`, if any.
    pub fn get<'a>(&'a self, key: &str) -> (r: Option<&'a String>)
        ensures
            match r {
                Some(v) => self@.contains_key(key@) && v@ == self@[key@],
                None => !self@.contains_key(key@),
            },
    {
        let n = self.entries.len();
        proof {
            assert(self.entries@.subrange(0, n as int) =~= self.entries@);
        }
        let mut i: usize = 0;
        while i < n
            invariant
                n == self.entries@.len(),
                0 <= i <= n,
                spec_sget(self.entries@, key@) == spec_sget(
                    self.entries@.subrange(i as int, n as int),
                    key@,
                ),
            decreases n - i,
        {
            proof {
                assert(self.entries@.subrange(i as int, n as int).drop_first()
                    =~= self.entries@.subrange(i + 1, n as int));
                assert(self.entries@.subrange(i as int, n as int)[0]
                    == self.entries@[i as int]);
            }
            if str_eq(self.entries[i].0.as_str(), key) {
                return Some(&self.entries[i].1);
            }
            i += 1;
        }
        proof {
            assert(self.entries@.subrange(n as int, n as int).len() == 0);
        }
        None
    }

    /// Removes every entry under `key`.
    pub fn remove(&mut self, key: &str)
        ensures
            final(self)@ == old(self)@.remove(key@),
    {
        let ghost before = self.entries@;
        let n = self.entries.len();
        let mut kept: Vec<(String, String)> = Vec::new();
        proof {
            assert(before.subrange(0, n as int) =~= before);
            assert(kept@ + before.subrange(0, n as int) =~= before);
        }
        let mut i: usize = 0;
        while i < n
            invariant
                n == self.entries@.len(),
                self.entries@ == before,
                0 <= i <= n,
                spec_sget(kept@, key@) is None,
                forall|k2: Seq<char>|
                    k2 != key@ ==> #[trigger] spec_sget(
                        kept@ + before.subrange(i as int, n as int),
                        k2,
                    ) == spec_sget(before, k2),
            decreases n - i,
        {
            let ghost suffix = before.subrange(i as int, n as int);
            let ghost entry = before[i as int];
            proof {
                assert(suffix.drop_first() =~= before.subrange(i + 1, n as int));
                assert(suffix[0] == entry);
            }
            if !str_eq(self.entries[i].0.as_str(), key) {
                let k = self.entries[i].0.clone();
                let v = self.entries[i].1.clone();
                let ghost kept_before = kept@;
                kept.push((k, v));
                proof {
                    assert(kept@.last().0@ == entry.0@ && kept@.last().1@ == entry.1@);
                    assert(kept@ =~= kept_before + seq![kept@.last()]);
                    // the new entry misses the key, so the kept list still does
                    lemma_sget_concat(kept_before, seq![kept@.last()], key@);
                    assert(seq![kept@.last()].drop_first() =~= Seq::<(String, String)>::empty());
                    assert(spec_sget(seq![kept@.last()], key@) is None);
                    // moving the head entry from the suffix onto the kept list
                    // is associativity of concatenation
                    assert(kept@ + before.subrange(i + 1, n as int) =~= kept_before + suffix);
                    assert forall|k2: Seq<char>| k2 != key@ implies #[trigger] spec_sget(
                        kept@ + before.subrange(i + 1, n as int),
                        k2,
                    ) == spec_sget(before, k2) by {
                        assert(spec_sget(kept_before + before.subrange(i as int, n as int), k2)
                            == spec_sget(before, k2));
                    }
                }
            } else {
                proof {
                    assert forall|k2: Seq<char>| k2 != key@ implies #[trigger] spec_sget(
                        kept@ + before.subrange(i + 1, n as int),
                        k2,
                    ) == spec_sget(before, k2) by {
                        assert(spec_sget(kept@ + before.subrange(i as int, n as int), k2)
                            == spec_sget(before, k2));
                        lemma_sget_concat(kept@, suffix, k2);
                        lemma_sget_concat(kept@, suffix.drop_first(), k2);
                        assert(spec_sget(suffix, k2) == spec_sget(suffix.drop_first(), k2));
                    }
                }
            }
            i += 1;
        }
        self.entries = kept;
        proof {
            assert(kept@ + before.subrange(n as int, n as int) =~= kept@);
            assert(final(self)@ =~= old(self)@.remove(key@));
        }
    }

    /// Binds `key` to `value`, replacing any earlier binding.
    pub fn insert(&mut self, key: &str, value: String)
        ensures
            final(self)@ == old(self)@.insert(key@, value@),
    {
        self.remove(key);
        let ghost mid = self.entries@;
        let ghost mid_map = self@;
        proof {
            assert(!self@.contains_key(key@));
            assert(spec_sget(mid, key@) is None);
        }
        self.entries.push((key.to_owned(), value));
        proof {
            assert forall|k2: Seq<char>| true implies #[trigger] spec_sget(self.entries@, k2)
                == if k2 == key@ {
                Some(self.entries@.last().1@)
            } else {
                spec_sget(mid, k2)
            } by {
                let last = self.entries@.last();
                assert(self.entries@ =~= mid + seq![last]);
                lemma_sget_concat(mid, seq![last], k2);
                assert(seq![last].drop_first() =~= Seq::<(String, String)>::empty());
                assert(spec_sget(Seq::<(String, String)>::empty(), k2) is None);
                assert(seq![last][0] == last);
                assert(spec_sget(seq![last], k2) == if last.0@ == k2 {
                    Some(last.1@)
                } else {
                    None::<Seq<char>>
                });
            }
            assert(self.entries@.last().0@ == key@);
            assert(self.entries@.last().1@ == value@);
            assert(final(self)@ =~= mid_map.insert(key@, value@));
            assert(mid_map.insert(key@, value@) =~= old(self)@.insert(key@, value@));
            assert(final(self)@ == old(self)@.insert(key@, value@));
        }
    }
}

/// The value a form with this identity currently shows: the retained
/// entry, or empty text before any edit.
pub open spec fn spec_retained(m: Map<Seq<char>, Seq<char>>, id: Seq<char>) -> Seq<char> {
    if m.contains_key(id) {
        m[id]
    } else {
        Seq::empty()
    }
}

/// The form's visual output: the title when present, one text input per
/// `fields` entry — all showing the one retained value — and the submit
/// control, labeled from `submit_label` or `Submit`.
pub open spec fn spec_form_output(node: SchemaNode, retained: Seq<char>) -> Seq<BlockV> {
    spec_title_blocks(node.title) + spec_items_of(node.data, "fields"@).map_values(
        |f: Value| BlockV::TextInput { label: spec_str_or(f, "label"@, "Field"@), value: retained },
    ) + seq![BlockV::SubmitButton(spec_str_or(node.data, "submit_label"@, "Submit"@))]
}

/// Whether `payload` is exactly the two-entry object
/// `{action: "submit", value}`.
pub open spec fn submit_payload(payload: Value, value: Seq<char>) -> bool {
    match payload {
        Value::Obj(es) => {
            &&& es@.len() == 2
            &&& es@[0].0@ == "action"@
            &&& match es@[0].1 {
                Value::Str(a) => a@ == "submit"@,
                _ => false,
            }
            &&& es@[1].0@ == "value"@
            &&& match es@[1].1 {
                Value::Str(v) => v@ == value,
                _ => false,
            }
        },
        _ => false,
    }
}

/// Renders a form node against the retained store. Never panics, whatever
/// the payload holds.
pub fn render(node: &SchemaNode, store: &FormStore) -> (out: Vec<VisualBlock>)
    ensures
        out.deep_view() == spec_form_output(*node, spec_retained(store@, node.id@)),
{
    let retained: String = match store.get(node.id.as_str()) {
        Some(v) => v.clone(),
        None => String::new(),
    };
    let ghost retained_v = retained@;
    let mut out: Vec<VisualBlock> = Vec::new();
    match &node.title {
        Some(t) => {
            out.push(VisualBlock::Title(t.clone()));
        },
        None => {},
    }
    let ghost with_title = out.deep_view();
    proof {
        assert(with_title =~~= spec_title_blocks(node.title));
    }
    match node.data.get("fields") {
        Some(v) => match v.as_arr() {
            Some(items) => {
                let n = items.len();
                let mut i: usize = 0;
                while i < n
                    invariant
                        n == items@.len(),
                        0 <= i <= n,
                        retained_v == retained@,
                        out@.len() == with_title.len() + i,
                        out.deep_view().subrange(0, with_title.len() as int) == with_title,
                        forall|j: int|
                            0 <= j < i ==> out.deep_view()[with_title.len() + j]
                                == (BlockV::TextInput {
                                label: spec_str_or(items@[j], "label"@, "Field"@),
                                value: retained_v,
                            }),
                    decreases n - i,
                {
                    let label = str_or(&items[i], "label", "Field");
                    out.push(VisualBlock::TextInput { label, value: retained.clone() });
                    proof {
                        assert(out.deep_view().subrange(0, with_title.len() as int)
                            =~~= with_title);
                    }
                    i += 1;
                }
            },
            None => {},
        },
        None => {},
    }
    let submit = str_or(&node.data, "submit_label", "Submit");
    out.push(VisualBlock::SubmitButton(submit));
    proof {
        assert(out.deep_view() =~~= spec_form_output(*node, spec_retained(store@, node.id@)));
    }
    out
}

/// Handles a submit click: emits one `{action: "submit", value}` event
/// carrying the retained value (empty before any edit) and clears the
/// retained entry for this node.
pub fn submit(node: &SchemaNode, store: &mut FormStore, ch: &mut EventChannel)
    ensures
        final(store)@ == old(store)@.remove(node.id@),
        final(ch)@.len() == old(ch)@.len() + 1,
        final(ch)@.subrange(0, old(ch)@.len() as int) == old(ch)@,
        final(ch)@.last().id@ == node.id@,
        submit_payload(final(ch)@.last().payload, spec_retained(old(store)@, node.id@)),
{
    let value: String = match store.get(node.id.as_str()) {
        Some(v) => v.clone(),
        None => String::new(),
    };
    let mut entries: Vec<(String, Value)> = Vec::new();
    entries.push(("action".to_owned(), Value::Str("submit".to_owned())));
    entries.push(("value".to_owned(), Value::Str(value)));
    let ev = InteractionEvent { id: node.id.clone(), payload: Value::Obj(entries) };
    ch.send(ev);
    store.remove(node.id.as_str());
    proof {
        assert(final(ch)@.subrange(0, old(ch)@.len() as int) =~= old(ch)@);
    }
}

} // verus!
