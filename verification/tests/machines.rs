use brics::dispatch::{dispatch, UiInput};
use brics::DigitalLabel;
use brics::EventChannel;
use brics::FluentScroll;
use brics::FormStore;
use brics::HoverEvent;
use brics::HoverState;
use brics::Runtime;
use brics::SchemaNode;
use brics::TechGizmos;
use brics::TickInput;
use brics::TooltipRegistry;
use brics::Value;
use brics::VisualBlock;
use brics::WidgetKind;

fn s(t: &str) -> String {
    t.to_string()
}

fn obj(entries: Vec<(&str, Value)>) -> Value {
    Value::Obj(entries.into_iter().map(|(k, v)| (s(k), v)).collect())
}

fn hover(state: HoverState, text: &str, x: i64, y: i64) -> HoverEvent {
    HoverEvent { state, tooltip: brics::Tooltip(s(text)), x, y }
}

#[test]
fn typewriter_reveals_multibyte_text_one_char_per_interval() {
    // 10 characters per second: one character every 100 ms
    let mut label = DigitalLabel::typewriter(s("héllo"), 10);
    assert_eq!(label.timer.duration_ms, 100);
    let expected = ["h", "hé", "hél", "héll", "héllo"];
    for e in expected {
        let update = label.tick(100);
        assert_eq!(update, Some(e.to_string()));
        assert!(!label.finished);
    }
    // the next interval moves the cursor past the end and finishes
    assert_eq!(label.tick(100), None);
    assert!(label.finished);
    // finished is terminal: nothing changes any more
    let cursor = label.char_index;
    assert_eq!(label.tick(100), None);
    assert_eq!(label.char_index, cursor);
    assert!(label.finished);
}

#[test]
fn typewriter_visible_count_is_non_decreasing() {
    let mut label = DigitalLabel::typewriter(s("héllo"), 10);
    let mut seen: usize = 0;
    for dt in [30, 30, 30, 250, 10, 500, 100, 100, 100, 100] {
        label.tick(dt);
        let visible = label.char_index.min(5);
        assert!(visible >= seen);
        seen = visible;
    }
}

#[test]
fn typewriter_short_ticks_do_not_fire() {
    let mut label = DigitalLabel::typewriter(s("ab"), 10);
    assert_eq!(label.tick(40), None);
    assert_eq!(label.tick(40), None);
    // 40 + 40 + 40 = 120 crosses the 100 ms interval once
    assert_eq!(label.tick(40), Some(s("a")));
}

#[test]
fn typewriter_empty_text_finishes_on_first_interval() {
    let mut label = DigitalLabel::typewriter(s(""), 10);
    assert_eq!(label.tick(100), None);
    assert!(label.finished);
}

#[test]
fn glitch_at_zero_intensity_is_all_spaces_then_snaps() {
    let mut label = DigitalLabel::glitch_with_intensity(s("héllo"), 1000, 0);
    let update = label.tick(100).expect("glitch updates every tick");
    assert_eq!(update, s("     "));
    assert!(!label.finished);
    let update = label.tick(500).expect("still running");
    assert_eq!(update, s("     "));
    // the timer elapses: snap to the exact target text
    let update = label.tick(400).expect("snap");
    assert_eq!(update, s("héllo"));
    assert!(label.finished);
    assert_eq!(label.tick(100), None);
}

#[test]
fn glitch_at_full_intensity_randomizes_every_position() {
    let mut label = DigitalLabel::glitch_with_intensity(s("héllo"), 1000, 1000);
    for _ in 0..3 {
        let update = label.tick(10).expect("glitch updates every tick");
        let chars: Vec<char> = update.chars().collect();
        assert_eq!(chars.len(), 5);
        for c in chars {
            let u = c as u32;
            assert!((33..=126).contains(&u), "not a printable scramble: {:?}", c);
        }
    }
}

#[test]
fn glitch_default_intensity_emits_spaces_or_printables() {
    let mut label = DigitalLabel::glitch(s("0123456789"), 1000);
    let update = label.tick(10).expect("glitch updates every tick");
    assert_eq!(update.chars().count(), 10);
    for c in update.chars() {
        assert!(c == ' ' || (33..=126).contains(&(c as u32)));
    }
}

#[test]
fn wheel_delta_clamps_target_into_bounds() {
    let mut scroll = FluentScroll::new(0, 100);
    scroll.wheel(2);
    assert_eq!(scroll.target, 100); // min(100, 0 + 2*50)
    scroll.wheel(5);
    assert_eq!(scroll.target, 100); // never outside [min, max]
    scroll.wheel(-100);
    assert_eq!(scroll.target, 0);
    scroll.wheel(1);
    assert_eq!(scroll.target, 50);
}

#[test]
fn wheel_events_accumulate_and_clamp_one_by_one() {
    let mut scroll = FluentScroll::new(0, 100);
    // +150, clamped to 100; then -50 leaves 50: the second delta clamps
    // from the already-clamped target, not from an unclamped 150
    scroll.apply_wheel_events(&vec![3, -1]);
    assert_eq!(scroll.target, 50);
}

#[test]
fn current_approaches_target_without_overshoot() {
    let mut scroll = FluentScroll::new(0, 100);
    scroll.wheel(2);
    assert_eq!(scroll.current, 0);
    scroll.integrate(50); // closes half the gap
    assert_eq!(scroll.current, 50);
    scroll.integrate(50);
    assert_eq!(scroll.current, 75);
    let mut last = scroll.current;
    for _ in 0..100 {
        scroll.integrate(7);
        assert!(scroll.current >= last && scroll.current <= 100);
        last = scroll.current;
    }
    // a long tick lands exactly on the target
    scroll.integrate(100);
    assert_eq!(scroll.current, 100);
    // and from above, it comes back down without overshooting
    scroll.wheel(-1);
    assert_eq!(scroll.target, 50);
    scroll.integrate(50);
    assert_eq!(scroll.current, 75);
}

#[test]
fn at_most_one_overlay_after_any_hover_churn() {
    let mut reg = TooltipRegistry::new();
    reg.reconcile(&vec![
        hover(HoverState::Hovered, "first", 0, 0),
        hover(HoverState::Hovered, "second", 10, 10),
        hover(HoverState::Idle, "", 0, 0),
        hover(HoverState::Hovered, "third", 100, 200),
    ]);
    assert_eq!(reg.live_count(), 1);
    assert_eq!(reg.live_text(), Some(&s("third")));
    // the overlay sits at a fixed offset from the source
    assert_eq!(reg.live()[0].x, 120);
    assert_eq!(reg.live()[0].y, 160);
}

#[test]
fn hover_exit_destroys_the_overlay() {
    let mut reg = TooltipRegistry::new();
    reg.reconcile(&vec![hover(HoverState::Hovered, "tip", 0, 0)]);
    assert_eq!(reg.live_count(), 1);
    reg.reconcile(&vec![hover(HoverState::Idle, "", 0, 0)]);
    assert_eq!(reg.live_count(), 0);
}

#[test]
fn presses_leave_overlays_alone() {
    let mut reg = TooltipRegistry::new();
    reg.reconcile(&vec![hover(HoverState::Hovered, "tip", 0, 0)]);
    reg.reconcile(&vec![hover(HoverState::Pressed, "tip", 0, 0)]);
    assert_eq!(reg.live_count(), 1);
    assert_eq!(reg.live_text(), Some(&s("tip")));
}

#[test]
fn runtime_tick_runs_all_machines_in_order() {
    let mut rt = Runtime::new();
    rt.add_scroll(FluentScroll::new(0, 100));
    rt.add_label(DigitalLabel::typewriter(s("hi"), 10));
    let updates = rt.tick(&TickInput {
        dt_ms: 100,
        wheel: vec![2],
        hover: vec![hover(HoverState::Hovered, "tip", 0, 0)],
    });
    // wheel handling ran before integration: the target moved this tick
    // and integration already chased it the full step
    assert_eq!(rt.scrolls[0].target, 100);
    assert_eq!(rt.scrolls[0].current, 100);
    assert_eq!(rt.tooltips.live_count(), 1);
    assert_eq!(updates, vec![Some(s("h"))]);
}

#[test]
fn events_drain_in_emission_order() {
    let mut store = FormStore::new();
    let mut ch = EventChannel::new();
    for id in ["a", "b", "c"] {
        let n = SchemaNode {
            id: s(id),
            kind: WidgetKind::Button,
            title: None,
            data: obj(vec![("label", Value::Str(s(id)))]),
        };
        dispatch(
            &n,
            UiInput { clicked: true, edited: None, submit_clicked: false },
            &mut store,
            &mut ch,
        );
    }
    assert_eq!(ch.len(), 3);
    let events = ch.drain();
    assert_eq!(ch.len(), 0);
    let ids: Vec<String> = events.iter().map(|e| e.id.clone()).collect();
    assert_eq!(ids, vec![s("a"), s("b"), s("c")]);
}

#[test]
fn clicked_button_echoes_its_whole_payload() {
    let mut store = FormStore::new();
    let mut ch = EventChannel::new();
    let data = obj(vec![
        ("label", Value::Str(s("Fire"))),
        ("ammo", Value::Num(3_000)),
        ("tags", Value::Arr(vec![Value::Str(s("x")), Value::Bool(true), Value::Null])),
    ]);
    let n = SchemaNode { id: s("btn"), kind: WidgetKind::Button, title: None, data };
    let out = dispatch(
        &n,
        UiInput { clicked: true, edited: None, submit_clicked: false },
        &mut store,
        &mut ch,
    );
    assert_eq!(out, vec![VisualBlock::ButtonUi(s("Fire"))]);
    let events = ch.drain();
    assert_eq!(events.len(), 1);
    assert_eq!(events[0].id, s("btn"));
    assert_eq!(
        events[0].payload,
        obj(vec![
            ("label", Value::Str(s("Fire"))),
            ("ammo", Value::Num(3_000)),
            ("tags", Value::Arr(vec![Value::Str(s("x")), Value::Bool(true), Value::Null])),
        ])
    );
}

#[test]
fn unclicked_button_defaults_its_label_and_stays_silent() {
    let mut store = FormStore::new();
    let mut ch = EventChannel::new();
    let n = SchemaNode { id: s("b"), kind: WidgetKind::Button, title: None, data: obj(vec![]) };
    let out = dispatch(
        &n,
        UiInput { clicked: false, edited: None, submit_clicked: false },
        &mut store,
        &mut ch,
    );
    assert_eq!(out, vec![VisualBlock::ButtonUi(s("Button"))]);
    assert_eq!(ch.len(), 0);
}

#[test]
fn action_panel_renders_buttons_but_emits_nothing() {
    let mut store = FormStore::new();
    let mut ch = EventChannel::new();
    let n = SchemaNode {
        id: s("panel"),
        kind: WidgetKind::ActionPanel,
        title: Some(s("Ops")),
        data: obj(vec![(
            "actions",
            Value::Arr(vec![
                obj(vec![("label", Value::Str(s("Go")))]),
                obj(vec![("cmd", Value::Str(s("hidden")))]),
            ]),
        )]),
    };
    let out = dispatch(
        &n,
        UiInput { clicked: true, edited: None, submit_clicked: false },
        &mut store,
        &mut ch,
    );
    assert_eq!(out, vec![VisualBlock::Title(s("Ops")), VisualBlock::ButtonUi(s("Go"))]);
    assert_eq!(ch.len(), 0);
}

#[test]
fn form_retains_edits_and_clears_on_submit() {
    let mut store = FormStore::new();
    let mut ch = EventChannel::new();
    let data = obj(vec![
        ("fields", Value::Arr(vec![obj(vec![("label", Value::Str(s("URL")))])])),
        ("submit_label", Value::Str(s("Send"))),
    ]);
    let n = SchemaNode { id: s("form-1"), kind: WidgetKind::Form, title: None, data };

    // an edit is retained and shown immediately
    let out = dispatch(
        &n,
        UiInput { clicked: false, edited: Some(s("https://x")), submit_clicked: false },
        &mut store,
        &mut ch,
    );
    assert_eq!(
        out,
        vec![
            VisualBlock::TextInput { label: s("URL"), value: s("https://x") },
            VisualBlock::SubmitButton(s("Send")),
        ]
    );
    assert_eq!(store.get("form-1"), Some(&s("https://x")));

    // a redraw without input keeps the retained value
    let out = dispatch(
        &n,
        UiInput { clicked: false, edited: None, submit_clicked: false },
        &mut store,
        &mut ch,
    );
    assert_eq!(
        out[0],
        VisualBlock::TextInput { label: s("URL"), value: s("https://x") }
    );
    assert_eq!(ch.len(), 0);

    // submit emits the retained value and clears it
    dispatch(
        &n,
        UiInput { clicked: false, edited: None, submit_clicked: true },
        &mut store,
        &mut ch,
    );
    let events = ch.drain();
    assert_eq!(events.len(), 1);
    assert_eq!(events[0].id, s("form-1"));
    assert_eq!(
        events[0].payload,
        obj(vec![("action", Value::Str(s("submit"))), ("value", Value::Str(s("https://x")))])
    );
    assert!(store.get("form-1").is_none());

    // after the submit, the input shows empty text again
    let out = dispatch(
        &n,
        UiInput { clicked: false, edited: None, submit_clicked: false },
        &mut store,
        &mut ch,
    );
    assert_eq!(out[0], VisualBlock::TextInput { label: s("URL"), value: s("") });
}

#[test]
fn form_fields_share_one_retained_value() {
    let mut store = FormStore::new();
    let mut ch = EventChannel::new();
    let data = obj(vec![(
        "fields",
        Value::Arr(vec![
            obj(vec![("label", Value::Str(s("A")))]),
            obj(vec![("label", Value::Str(s("B")))]),
        ]),
    )]);
    let n = SchemaNode { id: s("f"), kind: WidgetKind::Form, title: None, data };
    let out = dispatch(
        &n,
        UiInput { clicked: false, edited: Some(s("shared")), submit_clicked: false },
        &mut store,
        &mut ch,
    );
    assert_eq!(
        out,
        vec![
            VisualBlock::TextInput { label: s("A"), value: s("shared") },
            VisualBlock::TextInput { label: s("B"), value: s("shared") },
            VisualBlock::SubmitButton(s("Submit")),
        ]
    );
}

#[test]
fn form_with_no_fields_still_offers_submit() {
    let mut store = FormStore::new();
    let mut ch = EventChannel::new();
    let n = SchemaNode { id: s("f"), kind: WidgetKind::Form, title: None, data: obj(vec![]) };
    let out = dispatch(
        &n,
        UiInput { clicked: false, edited: None, submit_clicked: false },
        &mut store,
        &mut ch,
    );
    assert_eq!(out, vec![VisualBlock::SubmitButton(s("Submit"))]);
    // submitting with nothing retained sends empty text
    dispatch(
        &n,
        UiInput { clicked: false, edited: None, submit_clicked: true },
        &mut store,
        &mut ch,
    );
    let events = ch.drain();
    assert_eq!(
        events[0].payload,
        obj(vec![("action", Value::Str(s("submit"))), ("value", Value::Str(s("")))])
    );
}

#[test]
fn scroll_with_positive_min_pulls_target_up_on_first_event() {
    let mut scroll = FluentScroll::new(10, 20);
    assert_eq!(scroll.target, 0); // at rest until the first event
    scroll.wheel(-1);
    assert_eq!(scroll.target, 10); // clamped up into [min, max]
    scroll.integrate(50);
    assert_eq!(scroll.current, 5); // halfway from 0 toward 10
}

#[test]
fn hex_axial_mapping_is_fixed_point() {
    // one step along q: x = size * sqrt(3), y = 0
    assert_eq!(TechGizmos::axial_to_world(1, 0, 1_000), (1_732, 0));
    // one step along r: x = size * sqrt(3) / 2, y = size * 3 / 2
    assert_eq!(TechGizmos::axial_to_world(0, 1, 1_000), (866, 1_500));
    assert_eq!(TechGizmos::axial_to_world(-1, 0, 1_000), (-1_732, 0));
    assert_eq!(TechGizmos::axial_to_world(0, 0, 1_000), (0, 0));
}
