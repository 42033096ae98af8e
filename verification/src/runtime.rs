//! The per-frame scheduler. Each tick runs the animated state machines in
//! one fixed, deterministic order — scroll input handling, scroll
//! integration, tooltip reconciliation, digital-text ticking — so
//! same-tick interactions resolve the same way every time.

use vstd::prelude::*;
use vstd::pervasive::VecAdditionalExecFns;

use crate::digital::DigitalLabel;
use crate::scroll::FluentScroll;
use crate::tooltip::{spec_reconcile, HoverEvent, TooltipRegistry};

verus! {

/// One tick's worth of host input: the elapsed real time and the queued
/// raw input events.
pub struct TickInput {
    pub dt_ms: u64,
    pub wheel: Vec<i32>,
    pub hover: Vec<HoverEvent>,
}

impl TickInput {
    /// Machine-limit bounds on one tick's input: at most a million seconds
    /// elapse, and positions fit comfortably in fixed-width arithmetic.
    pub open spec fn wf(self) -> bool {
        &&& self.dt_ms <= 1_000_000_000
        &&& forall|i: int|
            0 <= i < self.hover@.len() ==> -1_000_000_000_000 <= (#[trigger] self.hover@[i]).x
                <= 1_000_000_000_000 && -1_000_000_000_000 <= self.hover@[i].y
                <= 1_000_000_000_000
    }
}

/// The animated state the scheduler owns: every scroll container, the
/// overlay registry, and every digital label.
pub struct Runtime {
    pub scrolls: Vec<FluentScroll>,
    pub tooltips: TooltipRegistry,
    pub labels: Vec<DigitalLabel>,
}

impl Runtime {
    pub open spec fn wf(self) -> bool {
        &&& forall|i: int| 0 <= i < self.scrolls@.len() ==> (#[trigger] self.scrolls@[i]).wf()
        &&& forall|i: int| 0 <= i < self.labels@.len() ==> (#[trigger] self.labels@[i]).wf()
    }

    /// A runtime with nothing attached.
    pub fn new() -> (r: Runtime)
        ensures
            r.wf(),
            r.scrolls@.len() == 0,
            r.tooltips@.len() == 0,
            r.labels@.len() == 0,
    {
        Runtime { scrolls: Vec::new(), tooltips: TooltipRegistry::new(), labels: Vec::new() }
    }

    /// Attaches a scroll container.
    pub fn add_scroll(&mut self, s: FluentScroll)
        requires
            s.wf(),
        ensures
            final(self).scrolls@ == old(self).scrolls@.push(s),
            final(self).tooltips == old(self).tooltips,
            final(self).labels == old(self).labels,
            old(self).wf() ==> final(self).wf(),
    {
        self.scrolls.push(s);
    }

    /// Attaches a digital label.
    pub fn add_label(&mut self, l: DigitalLabel)
        requires
            l.wf(),
        ensures
            final(self).labels@ == old(self).labels@.push(l),
            final(self).tooltips == old(self).tooltips,
            final(self).scrolls == old(self).scrolls,
            old(self).wf() ==> final(self).wf(),
    {
        self.labels.push(l);
    }

    /// One scheduler pass. Wheel events reach every scroll container, each
    /// clamping in turn; then every scroll integrates; then the tooltip
    /// registry reconciles the tick's hover changes; then every digital
    /// label advances, yielding its display update. The returned vector
    /// holds one entry per label, in order.
    pub fn tick(&mut self, input: &TickInput) -> (updates: Vec<Option<String>>)
        requires
            old(self).wf(),
            input.wf(),
        ensures
            final(self).wf(),
            final(self).scrolls@.len() == old(self).scrolls@.len(),
            forall|i: int|
                0 <= i < old(self).scrolls@.len() ==> final(self).scrolls@[i] == (
                #[trigger] old(self).scrolls@[i]).spec_wheeled_all(
                    input.wheel@,
                ).spec_integrated(input.dt_ms as int),
            final(self).tooltips@ == spec_reconcile(old(self).tooltips@, input.hover@),
            final(self).labels@.len() == old(self).labels@.len(),
            forall|i: int|
                0 <= i < old(self).labels@.len() ==> final(self).labels@[i]
                    == DigitalLabel::spec_next(#[trigger] old(self).labels@[i], input.dt_ms),
            updates@.len() == old(self).labels@.len(),
            forall|i: int|
                0 <= i < old(self).labels@.len() ==> DigitalLabel::tick_update_ok(
                    #[trigger] old(self).labels@[i],
                    input.dt_ms,
                    updates@[i],
                ),
    {
        // 1) wheel input, 2) integration
        let sn = self.scrolls.len();
        let mut i: usize = 0;
        while i < sn
            invariant
                sn == self.scrolls@.len(),
                0 <= i <= sn,
                input.wf(),
                self.tooltips == old(self).tooltips,
                self.labels == old(self).labels,
                self.scrolls@.len() == old(self).scrolls@.len(),
                forall|j: int|
                    i <= j < sn ==> self.scrolls@[j] == #[trigger] old(self).scrolls@[j],
                forall|j: int|
                    0 <= j < i ==> self.scrolls@[j] == (#[trigger] old(
                        self,
                    ).scrolls@[j]).spec_wheeled_all(input.wheel@).spec_integrated(
                        input.dt_ms as int,
                    ),
                forall|j: int| 0 <= j < sn ==> (#[trigger] self.scrolls@[j]).wf(),
            decreases sn - i,
        {
            let mut s = self.scrolls[i];
            s.apply_wheel_events(&input.wheel);
            s.integrate(input.dt_ms);
            self.scrolls.set(i, s);
            i += 1;
        }
        // 3) tooltip reconciliation
        self.tooltips.reconcile(&input.hover);
        // 4) digital-text ticking
        let ghost scrolls_done = self.scrolls@;
        let ghost tooltips_done = self.tooltips@;
        let ln = self.labels.len();
        let mut updates: Vec<Option<String>> = Vec::new();
        let mut k: usize = 0;
        while k < ln
            invariant
                ln == self.labels@.len(),
                0 <= k <= ln,
                input.wf(),
                self.scrolls@ == scrolls_done,
                self.tooltips@ == tooltips_done,
                updates@.len() == k,
                self.labels@.len() == old(self).labels@.len(),
                forall|j: int|
                    k <= j < ln ==> self.labels@[j] == #[trigger] old(self).labels@[j],
                forall|j: int|
                    0 <= j < k ==> self.labels@[j] == DigitalLabel::spec_next(
                        #[trigger] old(self).labels@[j],
                        input.dt_ms,
                    ),
                forall|j: int|
                    0 <= j < k ==> DigitalLabel::tick_update_ok(
                        #[trigger] old(self).labels@[j],
                        input.dt_ms,
                        updates@[j],
                    ),
                forall|j: int| 0 <= j < ln ==> (#[trigger] self.labels@[j]).wf(),
            decreases ln - k,
        {
            let mut lbl = DigitalLabel::typewriter(String::new(), 1);
            self.labels.set_and_swap(k, &mut lbl);
            let u = lbl.tick(input.dt_ms);
            self.labels.set_and_swap(k, &mut lbl);
            updates.push(u);
            k += 1;
        }
        updates
    }
}

} // verus!
