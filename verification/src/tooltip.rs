//! The tooltip lifecycle state machine. At most one overlay exists across
//! the whole system at any instant: a hover-enter first destroys every
//! live overlay — from this or any other source — then spawns exactly one
//! near the hovered source; a hover-exit destroys every live overlay and
//! spawns none. Hover changes take effect on the very next tick, with no
//! debouncing.

use vstd::prelude::*;

verus! {

/// A tactical tooltip: the text a hoverable source shows.
#[derive(Clone, Debug)]
pub struct Tooltip(pub String);

/// One live overlay instance: its text and its absolute position.
pub struct TooltipOverlay {
    pub text: String,
    pub x: i64,
    pub y: i64,
}

/// How a source's interaction state changed this tick.
#[derive(Clone, Copy, Debug, PartialEq, Eq, Structural)]
pub enum HoverState {
    /// The pointer came to rest over the source.
    Hovered,
    /// The source was pressed; tooltips ignore presses.
    Pressed,
    /// The pointer left the source.
    Idle,
}

/// One hover change: the new state, the source's tooltip, and the source's
/// position.
pub struct HoverEvent {
    pub state: HoverState,
    pub tooltip: Tooltip,
    pub x: i64,
    pub y: i64,
}

/// The overlay a hover-enter spawns: the source's tooltip text at a fixed
/// offset from the source.
pub open spec fn spec_spawned(ev: HoverEvent) -> TooltipOverlay {
    TooltipOverlay { text: ev.tooltip.0, x: (ev.x + 20) as i64, y: (ev.y - 40) as i64 }
}

/// The live overlays after one hover change is applied.
pub open spec fn spec_apply(live: Seq<TooltipOverlay>, ev: HoverEvent) -> Seq<TooltipOverlay> {
    match ev.state {
        HoverState::Hovered => seq![spec_spawned(ev)],
        HoverState::Idle => Seq::empty(),
        HoverState::Pressed => live,
    }
}

/// The live overlays after a whole tick's hover changes, applied in order.
pub open spec fn spec_reconcile(live: Seq<TooltipOverlay>, evs: Seq<HoverEvent>) -> Seq<
    TooltipOverlay,
>
    decreases evs.len(),
{
    if evs.len() == 0 {
        live
    } else {
        spec_reconcile(spec_apply(live, evs[0]), evs.drop_first())
    }
}

/// The set of live overlay instances. Every reconciliation pass keeps it
/// to at most one.
pub struct TooltipRegistry {
    overlays: Vec<TooltipOverlay>,
}

impl View for TooltipRegistry {
    type V = Seq<TooltipOverlay>;

    closed spec fn view(&self) -> Seq<TooltipOverlay> {
        self.overlays@
    }
}

impl TooltipRegistry {
    /// A registry with no live overlay.
    pub fn new() -> (r: TooltipRegistry)
        ensures
            r@ == Seq::<TooltipOverlay>::empty(),
    {
        TooltipRegistry { overlays: Vec::new() }
    }

    /// How many overlays are live.
    pub fn live_count(&self) -> (n: usize)
        ensures
            n == self@.len(),
    {
        self.overlays.len()
    }

    /// Every live overlay, in creation order.
    pub fn live(&self) -> (r: &Vec<TooltipOverlay>)
        ensures
            r@ == self@,
    {
        &self.overlays
    }

    /// The live overlay's text, if exactly one overlay is live.
    pub fn live_text(&self) -> (r: Option<&String>)
        ensures
            match r {
                Some(t) => self@.len() >= 1 && t == &self@[0].text,
                None => self@.len() == 0,
            },
    {
        if self.overlays.len() > 0 {
            Some(&self.overlays[0].text)
        } else {
            None
        }
    }

    /// Applies a tick's hover changes in order: every hover-enter replaces
    /// all live overlays with one fresh overlay, every hover-exit destroys
    /// them all, and presses change nothing.
    pub fn reconcile(&mut self, events: &Vec<HoverEvent>)
        requires
            forall|i: int|
                0 <= i < events@.len() ==> -1_000_000_000_000 <= (#[trigger] events@[i]).x
                    <= 1_000_000_000_000 && -1_000_000_000_000 <= events@[i].y
                    <= 1_000_000_000_000,
        ensures
            final(self)@ == spec_reconcile(old(self)@, events@),
    {
        let n = events.len();
        proof {
            assert(events@.subrange(0, n as int) =~= events@);
        }
        let mut i: usize = 0;
        while i < n
            invariant
                n == events@.len(),
                0 <= i <= n,
                forall|k: int|
                    0 <= k < events@.len() ==> -1_000_000_000_000 <= (#[trigger] events@[k]).x
                        <= 1_000_000_000_000 && -1_000_000_000_000 <= events@[k].y
                        <= 1_000_000_000_000,
                spec_reconcile(self@, events@.subrange(i as int, n as int)) == spec_reconcile(
                    old(self)@,
                    events@,
                ),
            decreases n - i,
        {
            proof {
                assert(events@.subrange(i as int, n as int).drop_first() =~= events@.subrange(
                    i + 1,
                    n as int,
                ));
                assert(events@.subrange(i as int, n as int)[0] == events@[i as int]);
            }
            let ev = &events[i];
            match ev.state {
                HoverState::Hovered => {
                    self.overlays.clear();
                    self.overlays.push(
                        TooltipOverlay { text: ev.tooltip.0.clone(), x: ev.x + 20, y: ev.y - 40 },
                    );
                    proof {
                        assert(self@ =~= seq![spec_spawned(events@[i as int])]);
                    }
                },
                HoverState::Idle => {
                    self.overlays.clear();
                    proof {
                        assert(self@ =~= Seq::<TooltipOverlay>::empty());
                    }
                },
                HoverState::Pressed => {},
            }
            i += 1;
        }
        proof {
            assert(events@.subrange(n as int, n as int).len() == 0);
        }
    }
}

/// The at-most-one-overlay law: whatever overlays were live before, a tick
/// whose hover changes include at least one enter or exit leaves at most
/// one overlay; and a registry that already satisfies the bound keeps it
/// under any sequence of changes.
pub proof fn lemma_at_most_one_overlay(live: Seq<TooltipOverlay>, evs: Seq<HoverEvent>)
    ensures
        (exists|i: int|
            0 <= i < evs.len() && (#[trigger] evs[i]).state != HoverState::Pressed)
            ==> spec_reconcile(live, evs).len() <= 1,
        live.len() <= 1 ==> spec_reconcile(live, evs).len() <= 1,
    decreases evs.len(),
{
    if evs.len() > 0 {
        lemma_at_most_one_overlay(spec_apply(live, evs[0]), evs.drop_first());
        if exists|i: int| 0 <= i < evs.len() && (#[trigger] evs[i]).state != HoverState::Pressed {
            let i = choose|i: int|
                0 <= i < evs.len() && (#[trigger] evs[i]).state != HoverState::Pressed;
            if i == 0 {
                assert(spec_apply(live, evs[0]).len() <= 1);
            } else {
                assert(evs.drop_first()[i - 1].state != HoverState::Pressed);
            }
        }
    }
}

} // verus!
