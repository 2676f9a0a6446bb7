use opendeck::model::{Action, ActionContext, ActionInstance, ActionState, Encoder};
use opendeck::states::{
    classify_image, covers_defaults, dial_stack_root, maybe_update_dial_stack_parent, set_feedback,
    set_feedback_layout, set_image, set_state, set_title, Effect, ImageSource, InboundError,
    SetFeedbackLayoutPayload, SetImagePayload, SetStatePayload, SetTitlePayload,
};

fn context(device: &str, position: u8, index: u16) -> ActionContext {
    ActionContext {
        device: device.to_string(),
        profile: "Default".to_string(),
        controller: "Keypad".to_string(),
        position,
        index,
    }
}

fn state(text: &str, image: &str) -> ActionState {
    ActionState { text: text.to_string(), image: image.to_string() }
}

fn instance(uuid: &str, states: Vec<ActionState>, defaults: Vec<ActionState>) -> ActionInstance {
    ActionInstance {
        action: Action {
            uuid: uuid.to_string(),
            plugin: "com.example.plugin".to_string(),
            states: defaults,
            encoder: None,
        },
        context: context("dev1", 4, 0),
        states,
        current_state: 0,
        settings: serde_json::Value::Null,
        children: None,
    }
}

fn two_state_instance() -> ActionInstance {
    instance(
        "com.example.toggle",
        vec![state("on", "on.png"), state("off", "off.png")],
        vec![state("On", "default-on.png"), state("Off", "default-off.png")],
    )
}

fn after_update(instance_context: &ActionContext, event_context: &ActionContext) -> Vec<Effect> {
    vec![
        Effect::UpdateState(instance_context.clone()),
        Effect::RefreshParent(event_context.clone()),
        Effect::MarkProfileStale(event_context.device.clone()),
    ]
}

fn texts(i: &ActionInstance) -> Vec<String> {
    i.states.iter().map(|s| s.text.clone()).collect()
}

fn images(i: &ActionInstance) -> Vec<String> {
    i.states.iter().map(|s| s.image.clone()).collect()
}

#[test]
fn set_title_for_one_state_changes_only_that_state() {
    let mut i = two_state_instance();
    let ctx = context("dev1", 4, 0);
    let payload = SetTitlePayload { title: Some("Muted".to_string()), state: Some(1) };
    let r = set_title(Some(&mut i), &ctx, &payload);
    assert_eq!(r, Ok(after_update(&i.context, &ctx)));
    assert_eq!(texts(&i), vec!["on".to_string(), "Muted".to_string()]);
    assert_eq!(images(&i), vec!["on.png".to_string(), "off.png".to_string()]);
}

#[test]
fn set_title_without_title_restores_every_default() {
    let mut i = two_state_instance();
    let ctx = context("dev1", 4, 0);
    let payload = SetTitlePayload { title: None, state: None };
    let r = set_title(Some(&mut i), &ctx, &payload);
    assert_eq!(r, Ok(after_update(&i.context, &ctx)));
    assert_eq!(texts(&i), vec!["On".to_string(), "Off".to_string()]);
    assert_eq!(images(&i), vec!["on.png".to_string(), "off.png".to_string()]);
}

#[test]
fn set_title_for_every_state() {
    let mut i = two_state_instance();
    let ctx = context("dev1", 4, 0);
    let payload = SetTitlePayload { title: Some("X".to_string()), state: None };
    let r = set_title(Some(&mut i), &ctx, &payload);
    assert!(r.is_ok());
    assert_eq!(texts(&i), vec!["X".to_string(), "X".to_string()]);
}

#[test]
fn set_title_already_shown_leads_to_nothing() {
    let mut i = two_state_instance();
    let before = i.clone();
    let ctx = context("dev1", 4, 0);
    let payload = SetTitlePayload { title: Some("on".to_string()), state: Some(0) };
    assert_eq!(set_title(Some(&mut i), &ctx, &payload), Ok(vec![]));
    assert_eq!(i, before);
}

#[test]
fn set_title_repeated_changes_nothing_more() {
    let mut i = two_state_instance();
    let ctx = context("dev1", 4, 0);
    let payload = SetTitlePayload { title: None, state: None };
    assert!(set_title(Some(&mut i), &ctx, &payload).unwrap().len() == 3);
    let middle = i.clone();
    assert_eq!(set_title(Some(&mut i), &ctx, &payload), Ok(vec![]));
    assert_eq!(i, middle);
}

#[test]
fn set_title_for_missing_state_is_refused() {
    let mut i = two_state_instance();
    let before = i.clone();
    let ctx = context("dev1", 4, 0);
    let payload = SetTitlePayload { title: Some("x".to_string()), state: Some(2) };
    let r = set_title(Some(&mut i), &ctx, &payload);
    assert_eq!(r, Err(InboundError::StateOutOfBounds { state: 2, len: 2 }));
    assert_eq!(i, before);
}

#[test]
fn set_title_without_instance_refreshes_parent_and_profile() {
    let ctx = context("dev2", 1, 3);
    let payload = SetTitlePayload { title: Some("x".to_string()), state: None };
    let r = set_title(None, &ctx, &payload);
    assert_eq!(
        r,
        Ok(vec![Effect::RefreshParent(ctx.clone()), Effect::MarkProfileStale("dev2".to_string())])
    );
}

#[test]
fn set_image_for_one_state() {
    let mut i = two_state_instance();
    let ctx = context("dev1", 4, 0);
    let payload = SetImagePayload { image: Some("data:image/png;base64,AAAA".to_string()), state: Some(0) };
    let r = set_image(Some(&mut i), &ctx, &payload);
    assert_eq!(r, Ok(after_update(&i.context, &ctx)));
    assert_eq!(images(&i), vec!["data:image/png;base64,AAAA".to_string(), "off.png".to_string()]);
    assert_eq!(texts(&i), vec!["on".to_string(), "off".to_string()]);
}

#[test]
fn set_image_without_image_restores_defaults() {
    let mut i = two_state_instance();
    let ctx = context("dev1", 4, 0);
    let payload = SetImagePayload { image: None, state: None };
    let r = set_image(Some(&mut i), &ctx, &payload);
    assert_eq!(r, Ok(after_update(&i.context, &ctx)));
    assert_eq!(images(&i), vec!["default-on.png".to_string(), "default-off.png".to_string()]);
}

#[test]
fn set_image_repeated_leaves_same_images() {
    let mut i = two_state_instance();
    let ctx = context("dev1", 4, 0);
    let payload = SetImagePayload { image: Some("x.png".to_string()), state: None };
    assert!(set_image(Some(&mut i), &ctx, &payload).is_ok());
    let middle = i.clone();
    assert_eq!(set_image(Some(&mut i), &ctx, &payload), Ok(after_update(&i.context, &ctx)));
    assert_eq!(i, middle);
}

#[test]
fn set_image_for_missing_state_is_refused() {
    let mut i = two_state_instance();
    let before = i.clone();
    let ctx = context("dev1", 4, 0);
    let payload = SetImagePayload { image: None, state: Some(7) };
    assert_eq!(
        set_image(Some(&mut i), &ctx, &payload),
        Err(InboundError::StateOutOfBounds { state: 7, len: 2 })
    );
    assert_eq!(i, before);
}

#[test]
fn set_image_without_instance() {
    let ctx = context("dev1", 0, 0);
    let payload = SetImagePayload { image: None, state: None };
    assert_eq!(
        set_image(None, &ctx, &payload),
        Ok(vec![Effect::RefreshParent(ctx.clone()), Effect::MarkProfileStale("dev1".to_string())])
    );
}

#[test]
fn image_sources() {
    assert_eq!(classify_image(&None), ImageSource::Default);
    assert_eq!(classify_image(&Some(String::new())), ImageSource::Default);
    assert_eq!(classify_image(&Some(" \t\n ".to_string())), ImageSource::Default);
    assert_eq!(
        classify_image(&Some("  data:image/svg+xml,<svg/> ".to_string())),
        ImageSource::Inline("  data:image/svg+xml,<svg/> ".to_string())
    );
    assert_eq!(
        classify_image(&Some(" icons/mute.png\n".to_string())),
        ImageSource::PluginFile("icons/mute.png".to_string())
    );
    assert_eq!(
        classify_image(&Some("\u{3000}a b\u{2028}".to_string())),
        ImageSource::PluginFile("a b".to_string())
    );
    assert_eq!(classify_image(&Some("data".to_string())), ImageSource::PluginFile("data".to_string()));
    assert_eq!(classify_image(&Some("Data:x".to_string())), ImageSource::PluginFile("Data:x".to_string()));
}

#[test]
fn set_state_selects_an_existing_state() {
    let mut i = two_state_instance();
    let ctx = context("dev1", 4, 0);
    let r = set_state(Some(&mut i), &ctx, &SetStatePayload { state: 1 });
    assert_eq!(r, after_update(&i.context, &ctx));
    assert_eq!(i.current_state, 1);
}

#[test]
fn set_state_ignores_a_missing_state() {
    let mut i = two_state_instance();
    let before = i.clone();
    let ctx = context("dev1", 4, 0);
    assert_eq!(set_state(Some(&mut i), &ctx, &SetStatePayload { state: 2 }), vec![]);
    assert_eq!(i, before);
}

#[test]
fn set_state_without_instance() {
    let ctx = context("dev1", 4, 1);
    assert_eq!(
        set_state(None, &ctx, &SetStatePayload { state: 0 }),
        vec![Effect::RefreshParent(ctx.clone()), Effect::MarkProfileStale("dev1".to_string())]
    );
}

#[test]
fn set_feedback_cases() {
    let ctx = context("dev1", 2, 0);
    let mut i = two_state_instance();
    assert_eq!(set_feedback(Some(&i), &ctx), Ok(vec![Effect::RefreshParent(ctx.clone())]));
    i.action.encoder = Some(Encoder { layout_loaded: false });
    assert_eq!(set_feedback(Some(&i), &ctx), Err(InboundError::LayoutNotLoaded));
    i.action.encoder = Some(Encoder { layout_loaded: true });
    assert_eq!(
        set_feedback(Some(&i), &ctx),
        Ok(vec![
            Effect::ApplyFeedback,
            Effect::UpdateState(i.context.clone()),
            Effect::RefreshParent(ctx.clone()),
        ])
    );
    assert_eq!(set_feedback(None, &ctx), Ok(vec![Effect::RefreshParent(ctx.clone())]));
}

#[test]
fn set_feedback_layout_cases() {
    let ctx = context("dev1", 2, 0);
    let i = two_state_instance();
    let payload = SetFeedbackLayoutPayload { layout: "$B1".to_string() };
    assert_eq!(
        set_feedback_layout(Some(&i), &ctx, &payload),
        vec![
            Effect::InitialiseLayout("$B1".to_string()),
            Effect::UpdateState(i.context.clone()),
            Effect::RefreshParent(ctx.clone()),
        ]
    );
    assert_eq!(set_feedback_layout(None, &ctx, &payload), vec![Effect::RefreshParent(ctx.clone())]);
}

#[test]
fn parent_of_a_child_context() {
    let child = context("dev1", 3, 2);
    assert_eq!(dial_stack_root(&child), Some(context("dev1", 3, 0)));
    assert_eq!(dial_stack_root(&context("dev1", 3, 0)), None);
    let stack = instance("opendeck.dialstack", vec![], vec![]);
    let wheel = instance("opendeck.actionwheel", vec![], vec![]);
    let other = instance("com.example.toggle", vec![], vec![]);
    assert_eq!(maybe_update_dial_stack_parent(&child, Some(&stack)), Some(context("dev1", 3, 0)));
    assert_eq!(maybe_update_dial_stack_parent(&child, Some(&wheel)), Some(context("dev1", 3, 0)));
    assert_eq!(maybe_update_dial_stack_parent(&child, Some(&other)), None);
    assert_eq!(maybe_update_dial_stack_parent(&child, None), None);
    assert_eq!(maybe_update_dial_stack_parent(&context("dev1", 3, 0), Some(&stack)), None);
}

#[test]
fn defaults_cover_the_update() {
    let i = instance("x", vec![state("a", ""), state("b", "")], vec![state("A", "")]);
    assert!(!covers_defaults(&i, None));
    assert!(covers_defaults(&i, Some(0)));
    assert!(!covers_defaults(&i, Some(1)));
    assert!(covers_defaults(&i, Some(2)));
}

#[test]
fn set_title_then_reset_restores_defaults() {
    let mut i = instance(
        "com.example.toggle",
        vec![state("On", "a.png"), state("custom", "b.png")],
        vec![state("On", "x.png"), state("Off", "y.png")],
    );
    let before = i.clone();
    let ctx = context("dev1", 4, 0);
    let set = SetTitlePayload { title: Some("Live".to_string()), state: Some(0) };
    assert!(set_title(Some(&mut i), &ctx, &set).is_ok());
    assert_eq!(texts(&i), vec!["Live".to_string(), "custom".to_string()]);
    let reset = SetTitlePayload { title: None, state: Some(0) };
    assert!(set_title(Some(&mut i), &ctx, &reset).is_ok());
    assert_eq!(i, before);
}

#[test]
fn set_state_last_one_counts() {
    let ctx = context("dev1", 4, 0);
    let mut three = instance("x", vec![state("a", ""), state("b", ""), state("c", "")], vec![]);
    let mut alone = three.clone();
    set_state(Some(&mut three), &ctx, &SetStatePayload { state: 2 });
    let last = set_state(Some(&mut three), &ctx, &SetStatePayload { state: 1 });
    let only = set_state(Some(&mut alone), &ctx, &SetStatePayload { state: 1 });
    assert_eq!(three, alone);
    assert_eq!(last, only);
}
