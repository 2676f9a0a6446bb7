use opendeck::encoder::{
    can_press, can_rotate, can_tap, dial_press, presses_down, dial_rotate, encoder_context, key_event_for_dial, stack_next, touch_tap, wheel_index,
    PressAction, PressPlan, RotatePlan,
};
use opendeck::message::{Coordinates, OutboundPayload, PluginMessage, will_appear_with_controller, will_disappear_with_controller};
use opendeck::model::{selects_a_child, Action, ActionContext, ActionInstance};

fn context(position: u8, index: u16) -> ActionContext {
    ActionContext {
        device: "sd-plus".to_string(),
        profile: "Default".to_string(),
        controller: "Encoder".to_string(),
        position,
        index,
    }
}

fn leaf(uuid: &str, plugin: &str, position: u8, index: u16, setting: &str) -> ActionInstance {
    ActionInstance {
        action: Action {
            uuid: uuid.to_string(),
            plugin: plugin.to_string(),
            states: vec![],
            encoder: None,
        },
        context: context(position, index),
        states: vec![],
        current_state: 0,
        settings: serde_json::Value::String(setting.to_string()),
        children: None,
    }
}

fn container(uuid: &str, children: usize, selected: u16) -> ActionInstance {
    let mut c = leaf(uuid, "opendeck", 1, 0, "container");
    c.children = Some(
        (0..children)
            .map(|k| leaf("com.example.volume", "com.example", 1, (k + 1) as u16, &format!("child{}", k)))
            .collect(),
    );
    c.current_state = selected;
    c
}

fn message(target: &ActionInstance, event: &str, payload: OutboundPayload) -> PluginMessage {
    PluginMessage {
        plugin: target.action.plugin.clone(),
        event: event.to_string(),
        action: target.action.uuid.clone(),
        context: target.context.clone(),
        device: target.context.device.clone(),
        payload,
    }
}

fn child(c: &ActionInstance, k: usize) -> ActionInstance {
    c.children.as_ref().unwrap()[k].clone()
}

#[test]
fn encoder_context_fields() {
    let c = encoder_context("sd-plus", "Gaming", 3);
    assert_eq!(
        c,
        ActionContext {
            device: "sd-plus".to_string(),
            profile: "Gaming".to_string(),
            controller: "Encoder".to_string(),
            position: 3,
            index: 0,
        }
    );
}

#[test]
fn wheel_index_values() {
    assert_eq!(wheel_index(0, 1, 3), 1);
    assert_eq!(wheel_index(0, -1, 3), 2);
    assert_eq!(wheel_index(2, 7, 3), 0);
    assert_eq!(wheel_index(65535, 32767, 10), 2);
    assert_eq!(wheel_index(0, -32768, 7), 6);
    assert_eq!(wheel_index(5, 0, 1), 0);
}

#[test]
fn stack_next_values() {
    assert_eq!(stack_next(0, 3), 1);
    assert_eq!(stack_next(2, 3), 0);
    assert_eq!(stack_next(0, 1), 0);
}

#[test]
fn key_events_for_dial_events() {
    assert_eq!(key_event_for_dial("dialDown"), "keyDown");
    assert_eq!(key_event_for_dial("dialUp"), "keyUp");
    assert_eq!(key_event_for_dial("dialRotate"), "dialRotate");
}

#[test]
fn rotate_plain_action_tells_it() {
    let mut i = leaf("com.example.volume", "com.example", 2, 0, "s");
    let before = i.clone();
    let plan = dial_rotate(&mut i, 2, -3);
    let expected = message(
        &before,
        "dialRotate",
        OutboundPayload::DialRotate {
            controller: "Encoder".to_string(),
            settings: serde_json::Value::String("s".to_string()),
            coordinates: Coordinates { row: 0, column: 2 },
            ticks: -3,
            pressed: false,
        },
    );
    assert_eq!(plan, RotatePlan::Forward(expected));
    assert_eq!(i, before);
}

#[test]
fn rotate_dial_stack_tells_selected_child() {
    let mut s = container("opendeck.dialstack", 3, 1);
    let before = s.clone();
    let plan = dial_rotate(&mut s, 1, 2);
    let target = child(&before, 1);
    let expected = message(
        &target,
        "dialRotate",
        OutboundPayload::DialRotate {
            controller: "Encoder".to_string(),
            settings: serde_json::Value::String("child1".to_string()),
            coordinates: Coordinates { row: 0, column: 1 },
            ticks: 2,
            pressed: false,
        },
    );
    assert_eq!(plan, RotatePlan::Forward(expected));
    assert_eq!(s, before);
}

#[test]
fn rotate_empty_containers_does_nothing() {
    let mut s = container("opendeck.dialstack", 0, 0);
    assert_eq!(dial_rotate(&mut s, 1, 2), RotatePlan::Ignore);
    let mut w = container("opendeck.actionwheel", 0, 0);
    assert_eq!(dial_rotate(&mut w, 1, 2), RotatePlan::Ignore);
    let mut n = container("opendeck.actionwheel", 0, 0);
    n.children = None;
    assert_eq!(dial_rotate(&mut n, 1, 2), RotatePlan::Ignore);
}

#[test]
fn rotate_action_wheel_moves_selection() {
    let mut w = container("opendeck.actionwheel", 3, 0);
    let before = w.clone();
    let plan = dial_rotate(&mut w, 1, -1);
    assert_eq!(w.current_state, 2);
    let leaving = will_disappear_with_controller(&child(&before, 0), false, Some("Keypad"));
    let entering = will_appear_with_controller(&child(&before, 2), Some("Keypad"));
    assert_eq!(plan, RotatePlan::WheelTurned { from: 0, to: 2, leaving, entering });
    assert_eq!(
        leaving_check(&child(&before, 0)),
        OutboundPayload::Instance { controller_override: Some("Keypad".to_string()) }
    );
}

fn leaving_check(c: &ActionInstance) -> OutboundPayload {
    will_disappear_with_controller(c, false, Some("Keypad")).message.payload
}

#[test]
fn wheel_turned_back_returns_to_start() {
    let mut w = container("opendeck.actionwheel", 5, 3);
    let before = w.clone();
    dial_rotate(&mut w, 0, 12);
    assert_eq!(w.current_state, 0);
    dial_rotate(&mut w, 0, -12);
    assert_eq!(w, before);
}

#[test]
fn wheel_full_rounds_stay() {
    let mut w = container("opendeck.actionwheel", 4, 1);
    dial_rotate(&mut w, 0, 8);
    assert_eq!(w.current_state, 1);
    dial_rotate(&mut w, 0, -4);
    assert_eq!(w.current_state, 1);
}

#[test]
fn wheel_turns_add_up() {
    let mut a = container("opendeck.actionwheel", 7, 2);
    let mut b = a.clone();
    dial_rotate(&mut a, 0, 5);
    dial_rotate(&mut a, 0, -9);
    dial_rotate(&mut b, 0, -4);
    assert_eq!(a, b);
}

#[test]
fn press_plain_action_tells_it() {
    let mut i = leaf("com.example.volume", "com.example", 2, 0, "s");
    let before = i.clone();
    let plan = dial_press(&mut i, "dialUp", 2);
    let expected = message(
        &before,
        "dialUp",
        OutboundPayload::DialPress {
            controller: "Encoder".to_string(),
            settings: serde_json::Value::String("s".to_string()),
            coordinates: Coordinates { row: 0, column: 2 },
        },
    );
    assert_eq!(plan, PressPlan { key_down: false, action: PressAction::Forward(expected) });
    assert_eq!(i, before);
}

#[test]
fn press_dial_stack_moves_to_next_child() {
    let mut s = container("opendeck.dialstack", 3, 2);
    let before = s.clone();
    let plan = dial_press(&mut s, "dialDown", 1);
    assert_eq!(s.current_state, 0);
    match plan {
        PressPlan { key_down: true, action: PressAction::StackAdvanced { from, to, leaving, entering } } => {
            assert_eq!((from, to), (2, 0));
            assert_eq!(leaving.message.event, "willDisappear");
            assert_eq!(leaving.message.context, child(&before, 2).context);
            assert_eq!(leaving.clear_image, None);
            assert_eq!(leaving.message.payload, OutboundPayload::Instance { controller_override: None });
            assert_eq!(entering.message.event, "willAppear");
            assert_eq!(entering.message.context, child(&before, 0).context);
            assert_eq!(entering.title_state, 0);
        },
        other => panic!("unexpected plan {:?}", other),
    }
}

#[test]
fn release_on_dial_stack_does_nothing() {
    let mut s = container("opendeck.dialstack", 3, 2);
    let before = s.clone();
    assert_eq!(dial_press(&mut s, "dialUp", 1), PressPlan { key_down: false, action: PressAction::Ignore });
    assert_eq!(s, before);
    let mut e = container("opendeck.dialstack", 0, 0);
    assert_eq!(dial_press(&mut e, "dialDown", 1), PressPlan { key_down: true, action: PressAction::Ignore });
}

#[test]
fn dial_stack_presses_cycle() {
    let mut s = container("opendeck.dialstack", 3, 1);
    let start = s.current_state;
    for _ in 0..3 {
        dial_press(&mut s, "dialDown", 1);
    }
    assert_eq!(s.current_state, start);
}

#[test]
fn press_action_wheel_sends_key_event_to_selected_child() {
    let mut w = container("opendeck.actionwheel", 3, 1);
    let before = w.clone();
    let plan = dial_press(&mut w, "dialDown", 1);
    let expected = message(
        &child(&before, 1),
        "keyDown",
        OutboundPayload::Instance { controller_override: Some("Keypad".to_string()) },
    );
    assert_eq!(
        plan,
        PressPlan { key_down: true, action: PressAction::ForwardToChild { child: 1, message: expected } }
    );
    assert_eq!(w, before);
    let up = dial_press(&mut w, "dialUp", 1);
    match up.action {
        PressAction::ForwardToChild { child: 1, message: m } => assert_eq!(m.event, "keyUp"),
        other => panic!("unexpected plan {:?}", other),
    }
}

#[test]
fn touch_tap_cases() {
    let plain = leaf("com.example.volume", "com.example", 2, 0, "s");
    let expected = message(
        &plain,
        "touchTap",
        OutboundPayload::TouchTap {
            controller: "Encoder".to_string(),
            settings: serde_json::Value::String("s".to_string()),
            coordinates: Coordinates { row: 0, column: 2 },
            tap_pos: (10, 20),
            hold: true,
        },
    );
    assert_eq!(touch_tap(&plain, 2, 10, 20, true), Some(expected));
    let stack = container("opendeck.dialstack", 2, 1);
    let m = touch_tap(&stack, 1, 1, 2, false).unwrap();
    assert_eq!(m.context, child(&stack, 1).context);
    assert_eq!(m.event, "touchTap");
    assert_eq!(touch_tap(&container("opendeck.dialstack", 0, 0), 1, 1, 2, false), None);
    assert_eq!(touch_tap(&container("opendeck.actionwheel", 2, 0), 1, 1, 2, false), None);
}

#[test]
fn selection_checks() {
    assert!(selects_a_child(&container("opendeck.dialstack", 3, 2)));
    assert!(!selects_a_child(&container("opendeck.dialstack", 3, 3)));
    assert!(selects_a_child(&container("opendeck.actionwheel", 0, 5)));
    assert!(can_rotate(&container("opendeck.dialstack", 3, 2)));
    assert!(!can_rotate(&container("opendeck.dialstack", 3, 3)));
    assert!(!can_rotate(&container("opendeck.actionwheel", 1, 5)));
    assert!(can_rotate(&container("com.example.folder", 1, 5)));
    assert!(can_press(&container("opendeck.dialstack", 1, 5), "dialUp"));
    assert!(!can_press(&container("opendeck.dialstack", 1, 5), "dialDown"));
    assert!(!can_press(&container("opendeck.actionwheel", 1, 5), "dialUp"));
    assert!(can_tap(&container("opendeck.actionwheel", 1, 5)));
    assert!(!can_tap(&container("opendeck.dialstack", 1, 5)));
}

#[test]
fn release_on_dial_stack_with_stale_selection_does_nothing() {
    let mut s = container("opendeck.dialstack", 2, 9);
    let before = s.clone();
    assert_eq!(dial_press(&mut s, "dialUp", 1), PressPlan { key_down: false, action: PressAction::Ignore });
    assert_eq!(s, before);
    assert_eq!(touch_tap(&container("opendeck.actionwheel", 2, 9), 1, 0, 0, false), None);
}

#[test]
fn dial_presses_and_releases() {
    assert!(presses_down("dialDown"));
    assert!(!presses_down("dialUp"));
    assert!(!presses_down("dialdown"));
}
