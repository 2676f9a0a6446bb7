//! Events from the dials of a device (turns, presses, taps on the touch
//! strip). A plain action hears of them itself; a dial stack passes them to
//! its selected child and moves to its next child on a press; an action
//! wheel moves its selection by the turn and passes presses to the
//! selected child as key presses.
use vstd::prelude::*;

use crate::message::{
    AppearPlan, Coordinates, DisappearPlan, OutboundPayload, PluginMessage, addressed,
    appear_plan_for, disappear_plan_for, instance_payload, instance_payload_with, message_to, will_appear,
    will_appear_with_controller, will_disappear, will_disappear_with_controller,
};
use crate::model::{
    ActionContext, ActionInstance, children_of, is_action_wheel_uuid, is_dial_stack_uuid,
    selects_a_child, settings_of,
};
use crate::text::str_eq;

verus! {

/// The context of the encoder at position `index` in `profile` of `device`.
pub fn encoder_context(device: &str, profile: &str, index: u8) -> (r: ActionContext)
    ensures
        r.device@ == device@,
        r.profile@ == profile@,
        r.controller@ == "Encoder"@,
        r.position == index,
        r.index == 0,
{
    ActionContext {
        device: String::from_str(device),
        profile: String::from_str(profile),
        controller: String::from_str("Encoder"),
        position: index,
        index: 0,
    }
}

/// The child an action wheel of `len` children selects after a turn of
/// `ticks` from child `current`: the turn taken around the wheel.
pub open spec fn wheel_target(current: int, ticks: int, len: int) -> int {
    (current + ticks) % len
}

/// The child a dial stack of `len` children selects after a press on child
/// `current`: the next one, the first after the last.
pub open spec fn stack_successor(current: int, len: int) -> int {
    (current + 1) % len
}

/// Where an action wheel of `len` children lands after a turn of `ticks`
/// from child `current` (see [`wheel_target`]).
pub fn wheel_index(current: u16, ticks: i16, len: usize) -> (r: usize)
    requires
        0 < len <= isize::MAX,
    ensures
        r == wheel_target(current as int, ticks as int, len as int),
        r < len,
{
    let sum: isize = current as isize + ticks as isize;
    let turned = sum.checked_rem_euclid(len as isize);
    match turned {
        Some(t) => t as usize,
        None => 0,
    }
}

/// The child a dial stack of `len` children selects after a press on child
/// `current` (see [`stack_successor`]).
pub fn stack_next(current: u16, len: usize) -> (r: usize)
    requires
        0 < len,
    ensures
        r == stack_successor(current as int, len as int),
        r < len,
{
    (current as usize + 1) % len
}

/// Whether a dial event is a press (`dialDown`) rather than a release.
pub fn presses_down(event: &str) -> (r: bool)
    ensures
        r == (event@ == "dialDown"@),
{
    str_eq(event, "dialDown")
}

/// The key event that a dial event becomes for the key action an action
/// wheel has selected.
pub open spec fn key_event_name(event: Seq<char>) -> Seq<char> {
    if event == "dialDown"@ {
        "keyDown"@
    } else if event == "dialUp"@ {
        "keyUp"@
    } else {
        event
    }
}

/// `dialDown` becomes `keyDown`, `dialUp` becomes `keyUp`, any other event
/// stays as it is.
pub fn key_event_for_dial(event: &str) -> (r: String)
    ensures
        r@ == key_event_name(event@),
{
    if str_eq(event, "dialDown") {
        String::from_str("keyDown")
    } else if str_eq(event, "dialUp") {
        String::from_str("keyUp")
    } else {
        String::from_str(event)
    }
}

/// Whether `m` tells `target` that the dial at `index` turned by `ticks`.
pub open spec fn is_dial_rotate_message(m: PluginMessage, target: ActionInstance, index: u8, ticks: i16) -> bool {
    &&& addressed(m, target, "dialRotate"@)
    &&& m.payload matches OutboundPayload::DialRotate { controller, settings, coordinates, ticks: t, pressed }
    &&& controller@ == "Encoder"@
    &&& settings == target.settings
    &&& coordinates == (Coordinates { row: 0, column: index })
    &&& t == ticks
    &&& !pressed
}

/// Whether `m` tells `target` of the dial event `event` at `index`.
pub open spec fn is_dial_press_message(m: PluginMessage, target: ActionInstance, event: Seq<char>, index: u8) -> bool {
    &&& addressed(m, target, event)
    &&& m.payload matches OutboundPayload::DialPress { controller, settings, coordinates }
    &&& controller@ == "Encoder"@
    &&& settings == target.settings
    &&& coordinates == (Coordinates { row: 0, column: index })
}

/// Whether `m` tells `target` that the touch strip of the dial at `index`
/// was tapped at `(x, y)`, held or not.
pub open spec fn is_touch_tap_message(
    m: PluginMessage,
    target: ActionInstance,
    index: u8,
    x: u16,
    y: u16,
    hold: bool,
) -> bool {
    &&& addressed(m, target, "touchTap"@)
    &&& m.payload matches OutboundPayload::TouchTap { controller, settings, coordinates, tap_pos, hold: h }
    &&& controller@ == "Encoder"@
    &&& settings == target.settings
    &&& coordinates == (Coordinates { row: 0, column: index })
    &&& tap_pos == (x, y)
    &&& h == hold
}

/// What a turn of the dial needs of an instance: a container selects one of
/// its children, which the turn goes to or starts from, and an action wheel
/// has no more children than a signed machine word counts.
pub open spec fn ready_to_rotate(instance: ActionInstance) -> bool {
    &&& instance.is_container() ==> instance.selects_a_child()
    &&& instance.is_action_wheel() ==> instance.child_list().len() <= isize::MAX
}

/// What a press or release of the dial (`event`) needs of an instance: an
/// action wheel, or a dial stack pressed down, selects one of its children.
pub open spec fn ready_to_press(instance: ActionInstance, event: Seq<char>) -> bool {
    instance.is_action_wheel() || (instance.is_dial_stack() && event == "dialDown"@)
        ==> instance.selects_a_child()
}

/// What a tap on the touch strip needs of an instance: a dial stack selects
/// one of its children.
pub open spec fn ready_to_tap(instance: ActionInstance) -> bool {
    instance.is_dial_stack() ==> instance.selects_a_child()
}

/// Whether [`dial_rotate`] can take this instance (see [`ready_to_rotate`]).
pub fn can_rotate(instance: &ActionInstance) -> (r: bool)
    ensures
        r == ready_to_rotate(*instance),
{
    let uuid = instance.action.uuid.as_str();
    let wheel = is_action_wheel_uuid(uuid);
    if (wheel || is_dial_stack_uuid(uuid)) && !selects_a_child(instance) {
        return false;
    }
    !wheel || children_of(instance).len() <= isize::MAX as usize
}

/// Whether [`dial_press`] can take this instance and event (see
/// [`ready_to_press`]).
pub fn can_press(instance: &ActionInstance, event: &str) -> (r: bool)
    ensures
        r == ready_to_press(*instance, event@),
{
    let uuid = instance.action.uuid.as_str();
    if is_action_wheel_uuid(uuid) || (is_dial_stack_uuid(uuid) && str_eq(event, "dialDown")) {
        selects_a_child(instance)
    } else {
        true
    }
}

/// Whether [`touch_tap`] can take this instance (see [`ready_to_tap`]).
pub fn can_tap(instance: &ActionInstance) -> (r: bool)
    ensures
        r == ready_to_tap(*instance),
{
    !is_dial_stack_uuid(instance.action.uuid.as_str()) || selects_a_child(instance)
}

/// What a turn of the dial leads to.
#[derive(Debug, PartialEq)]
pub enum RotatePlan {
    /// Nothing: an empty dial stack or action wheel.
    Ignore,
    /// Send this message; its failure is the event's.
    Forward(PluginMessage),
    /// The wheel moved from child `from` to child `to`: the host redraws
    /// the wheel and saves the profile, then sends `leaving` and `entering`,
    /// ignoring their failures.
    WheelTurned { from: usize, to: usize, leaving: DisappearPlan, entering: AppearPlan },
}

/// What a press or release of the dial leads to, after the host has shown
/// the press (`key_down`) or release on the dial's place.
#[derive(Debug, PartialEq)]
pub struct PressPlan {
    pub key_down: bool,
    pub action: PressAction,
}

/// What a press or release of the dial leads to.
#[derive(Debug, PartialEq)]
pub enum PressAction {
    /// Nothing more.
    Ignore,
    /// Send this message; its failure is the event's.
    Forward(PluginMessage),
    /// Send this message, about the container's child `child`, whose generic
    /// description it carries; its failure is the event's.
    ForwardToChild { child: usize, message: PluginMessage },
    /// The stack moved from child `from` to child `to`: the host redraws the
    /// stack and saves the profile, then sends `leaving` and `entering`,
    /// ignoring their failures.
    StackAdvanced { from: usize, to: usize, leaving: DisappearPlan, entering: AppearPlan },
}

/// What `dialRotate` does to an instance and what it leads to.
pub open spec fn dial_rotate_outcome(
    before: ActionInstance,
    after: ActionInstance,
    index: u8,
    ticks: i16,
    r: RotatePlan,
) -> bool {
    let len = before.child_list().len();
    if before.is_dial_stack() {
        &&& after == before
        &&& len == 0 ==> r is Ignore
        &&& len > 0 ==> (r matches RotatePlan::Forward(m) && is_dial_rotate_message(
            m,
            before.selected_child(),
            index,
            ticks,
        ))
    } else if before.is_action_wheel() {
        if len == 0 {
            &&& r is Ignore
            &&& after == before
        } else {
            let to = wheel_target(before.current_state as int, ticks as int, len as int);
            &&& r matches RotatePlan::WheelTurned { from, to: t, leaving, entering }
            &&& from == before.current_state
            &&& t == to
            &&& disappear_plan_for(leaving, before.child_list()[from as int], false, Some("Keypad"@))
            &&& appear_plan_for(entering, before.child_list()[to], Some("Keypad"@))
            &&& after == (ActionInstance { current_state: to as u16, ..before })
        }
    } else {
        &&& after == before
        &&& r matches RotatePlan::Forward(m) && is_dial_rotate_message(m, before, index, ticks)
    }
}

/// What `dialDown` / `dialUp` does to an instance and what it leads to.
pub open spec fn dial_press_outcome(
    before: ActionInstance,
    after: ActionInstance,
    event: Seq<char>,
    index: u8,
    r: PressPlan,
) -> bool {
    let len = before.child_list().len();
    &&& r.key_down == (event == "dialDown"@)
    &&& if before.is_dial_stack() {
        if !r.key_down || len == 0 {
            &&& r.action is Ignore
            &&& after == before
        } else {
            let to = stack_successor(before.current_state as int, len as int);
            &&& r.action matches PressAction::StackAdvanced { from, to: t, leaving, entering }
            &&& from == before.current_state
            &&& t == to
            &&& disappear_plan_for(leaving, before.child_list()[from as int], false, None)
            &&& appear_plan_for(entering, before.child_list()[to], None)
            &&& after == (ActionInstance { current_state: to as u16, ..before })
        }
    } else if before.is_action_wheel() {
        &&& after == before
        &&& len == 0 ==> r.action is Ignore
        &&& len > 0 ==> (r.action matches PressAction::ForwardToChild { child, message: m }
            && child == before.current_state && addressed(
            m,
            before.selected_child(),
            key_event_name(event),
        ) && instance_payload(m.payload, Some("Keypad"@)))
    } else {
        &&& after == before
        &&& r.action matches PressAction::Forward(m) && is_dial_press_message(m, before, event, index)
    }
}

/// What a tap on the touch strip leads to: a message, or nothing.
pub open spec fn touch_tap_outcome(
    instance: ActionInstance,
    index: u8,
    x: u16,
    y: u16,
    hold: bool,
    r: Option<PluginMessage>,
) -> bool {
    if instance.is_dial_stack() {
        &&& instance.child_list().len() == 0 ==> r is None
        &&& instance.child_list().len() > 0 ==> (r matches Some(m) && is_touch_tap_message(
            m,
            instance.selected_child(),
            index,
            x,
            y,
            hold,
        ))
    } else if instance.is_action_wheel() {
        r is None
    } else {
        r matches Some(m) && is_touch_tap_message(m, instance, index, x, y, hold)
    }
}

/// The `dialRotate` message to `target`.
fn dial_rotate_message(target: &ActionInstance, index: u8, ticks: i16) -> (r: PluginMessage)
    ensures
        is_dial_rotate_message(r, *target, index, ticks),
{
    let payload = OutboundPayload::DialRotate {
        controller: String::from_str("Encoder"),
        settings: settings_of(target),
        coordinates: Coordinates { row: 0, column: index },
        ticks,
        pressed: false,
    };
    message_to(target, "dialRotate", payload)
}

/// The `touchTap` message to `target`.
fn touch_tap_message(target: &ActionInstance, index: u8, x: u16, y: u16, hold: bool) -> (r:
    PluginMessage)
    ensures
        is_touch_tap_message(r, *target, index, x, y, hold),
{
    let payload = OutboundPayload::TouchTap {
        controller: String::from_str("Encoder"),
        settings: settings_of(target),
        coordinates: Coordinates { row: 0, column: index },
        tap_pos: (x, y),
        hold,
    };
    message_to(target, "touchTap", payload)
}

/// `dialRotate` on the instance at the dial `index`: a dial stack passes the
/// turn to its selected child; an action wheel moves its selection by
/// `ticks` around its children; any other action hears of the turn itself.
pub fn dial_rotate(instance: &mut ActionInstance, index: u8, ticks: i16) -> (r: RotatePlan)
    requires
        ready_to_rotate(*old(instance)),
    ensures
        dial_rotate_outcome(*old(instance), *final(instance), index, ticks, r),
{
    if is_dial_stack_uuid(instance.action.uuid.as_str()) {
        let children = children_of(instance);
        if children.len() == 0 {
            return RotatePlan::Ignore;
        }
        let child = &children[instance.current_state as usize];
        RotatePlan::Forward(dial_rotate_message(child, index, ticks))
    } else if is_action_wheel_uuid(instance.action.uuid.as_str()) {
        let children = children_of(instance);
        let len = children.len();
        if len == 0 {
            return RotatePlan::Ignore;
        }
        let from = instance.current_state as usize;
        let to = wheel_index(instance.current_state, ticks, len);
        let leaving = will_disappear_with_controller(&children[from], false, Some("Keypad"));
        let entering = will_appear_with_controller(&children[to], Some("Keypad"));
        proof {
            reveal_strlit("Keypad");
        }
        instance.current_state = to as u16;
        RotatePlan::WheelTurned { from, to, leaving, entering }
    } else {
        RotatePlan::Forward(dial_rotate_message(instance, index, ticks))
    }
}

/// `dialDown` or `dialUp` (`event`) on the instance at the dial `index`: a
/// dial stack moves to its next child on `dialDown`; an action wheel passes
/// the event to its selected child as a key event; any other action hears
/// of the event itself.
pub fn dial_press(instance: &mut ActionInstance, event: &str, index: u8) -> (r: PressPlan)
    requires
        ready_to_press(*old(instance), event@),
    ensures
        dial_press_outcome(*old(instance), *final(instance), event@, index, r),
{
    let key_down = presses_down(event);
    if is_dial_stack_uuid(instance.action.uuid.as_str()) {
        if !key_down {
            return PressPlan { key_down, action: PressAction::Ignore };
        }
        let children = children_of(instance);
        let len = children.len();
        if len == 0 {
            return PressPlan { key_down, action: PressAction::Ignore };
        }
        let from = instance.current_state as usize;
        let to = stack_next(instance.current_state, len);
        let leaving = will_disappear(&children[from], false);
        let entering = will_appear(&children[to]);
        instance.current_state = to as u16;
        PressPlan { key_down, action: PressAction::StackAdvanced { from, to, leaving, entering } }
    } else if is_action_wheel_uuid(instance.action.uuid.as_str()) {
        let children = children_of(instance);
        if children.len() == 0 {
            return PressPlan { key_down, action: PressAction::Ignore };
        }
        let child = &children[instance.current_state as usize];
        let key_event = key_event_for_dial(event);
        let payload = instance_payload_with(Some("Keypad"));
        proof {
            reveal_strlit("Keypad");
        }
        let message = message_to(child, key_event.as_str(), payload);
        PressPlan {
            key_down,
            action: PressAction::ForwardToChild { child: instance.current_state as usize, message },
        }
    } else {
        let payload = OutboundPayload::DialPress {
            controller: String::from_str("Encoder"),
            settings: settings_of(instance),
            coordinates: Coordinates { row: 0, column: index },
        };
        PressPlan { key_down, action: PressAction::Forward(message_to(instance, event, payload)) }
    }
}

/// `touchTap` on the instance at the dial `index`: a dial stack passes the
/// tap to its selected child; an action wheel, whose children are key
/// actions, takes it without effect; any other action hears of it itself.
pub fn touch_tap(instance: &ActionInstance, index: u8, x: u16, y: u16, hold: bool) -> (r: Option<
    PluginMessage,
>)
    requires
        ready_to_tap(*instance),
    ensures
        touch_tap_outcome(*instance, index, x, y, hold, r),
{
    if is_dial_stack_uuid(instance.action.uuid.as_str()) {
        let children = children_of(instance);
        if children.len() == 0 {
            return None;
        }
        let child = &children[instance.current_state as usize];
        Some(touch_tap_message(child, index, x, y, hold))
    } else if is_action_wheel_uuid(instance.action.uuid.as_str()) {
        None
    } else {
        Some(touch_tap_message(instance, index, x, y, hold))
    }
}

} // verus!
