use opendeck::message::{will_appear, will_disappear, will_disappear_with_controller, OutboundPayload};
use opendeck::model::{
    is_action_wheel_uuid, is_container_uuid, is_dial_stack_uuid, settings_of, Action, ActionContext,
    ActionInstance, ActionState,
};

fn sample() -> ActionInstance {
    let child = ActionInstance {
        action: Action {
            uuid: "com.example.mute".to_string(),
            plugin: "com.example".to_string(),
            states: vec![ActionState { text: "m".to_string(), image: "m.png".to_string() }],
            encoder: None,
        },
        context: ActionContext {
            device: "d".to_string(),
            profile: "p".to_string(),
            controller: "Encoder".to_string(),
            position: 0,
            index: 1,
        },
        states: vec![ActionState { text: "t".to_string(), image: "i".to_string() }],
        current_state: 0,
        settings: serde_json::Value::Bool(true),
        children: None,
    };
    ActionInstance {
        action: Action {
            uuid: "opendeck.dialstack".to_string(),
            plugin: "opendeck".to_string(),
            states: vec![],
            encoder: None,
        },
        context: ActionContext {
            device: "d".to_string(),
            profile: "p".to_string(),
            controller: "Encoder".to_string(),
            position: 0,
            index: 0,
        },
        states: vec![],
        current_state: 3,
        settings: serde_json::Value::Null,
        children: Some(vec![child]),
    }
}

#[test]
fn will_appear_notice() {
    let i = sample();
    let p = will_appear(&i);
    assert_eq!(p.message.plugin, "opendeck");
    assert_eq!(p.message.event, "willAppear");
    assert_eq!(p.message.action, "opendeck.dialstack");
    assert_eq!(p.message.context, i.context);
    assert_eq!(p.message.device, "d");
    assert_eq!(p.message.payload, OutboundPayload::Instance { controller_override: None });
    assert_eq!(p.title_state, 3);
}

#[test]
fn will_disappear_notice_clears_on_request() {
    let i = sample();
    let p = will_disappear(&i, true);
    assert_eq!(p.message.event, "willDisappear");
    assert_eq!(p.clear_image, Some(i.context.clone()));
    let q = will_disappear_with_controller(&i, false, Some("Keypad"));
    assert_eq!(q.clear_image, None);
    assert_eq!(q.message.payload, OutboundPayload::Instance { controller_override: Some("Keypad".to_string()) });
}

#[test]
fn container_uuids() {
    assert!(is_dial_stack_uuid("opendeck.dialstack"));
    assert!(!is_dial_stack_uuid("opendeck.actionwheel"));
    assert!(is_action_wheel_uuid("opendeck.actionwheel"));
    assert!(is_container_uuid("opendeck.actionwheel"));
    assert!(is_container_uuid("opendeck.dialstack"));
    assert!(!is_container_uuid("opendeck.multiaction"));
}

#[test]
fn settings_and_clone_are_copies() {
    let i = sample();
    assert_eq!(settings_of(&i), serde_json::Value::Null);
    let c = i.clone();
    assert_eq!(c, i);
    assert_eq!(c.children.as_ref().unwrap()[0].settings, serde_json::Value::Bool(true));
}
