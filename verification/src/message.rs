//! Messages to plugins, and the `willAppear` / `willDisappear` notices that
//! tell a plugin an instance of its action came into or left view.
use vstd::prelude::*;

use crate::model::{ActionContext, ActionInstance};

verus! {

/// A position on a device, by row and column.
#[derive(Debug, PartialEq, Eq, Clone, Copy)]
pub struct Coordinates {
    pub row: u8,
    pub column: u8,
}

/// The payload of a message to a plugin.
#[derive(Debug, PartialEq)]
pub enum OutboundPayload {
    /// A dial turned by `ticks`.
    DialRotate {
        controller: String,
        settings: serde_json::Value,
        coordinates: Coordinates,
        ticks: i16,
        pressed: bool,
    },
    /// A dial pressed or released.
    DialPress { controller: String, settings: serde_json::Value, coordinates: Coordinates },
    /// The touch strip tapped at `tap_pos`, held or not.
    TouchTap {
        controller: String,
        settings: serde_json::Value,
        coordinates: Coordinates,
        tap_pos: (u16, u16),
        hold: bool,
    },
    /// The generic description of the addressed instance (its settings,
    /// place and state), which the host draws up, with the controller it
    /// names replaced by `controller_override` where one is given.
    Instance { controller_override: Option<String> },
}

/// A message to the plugin `plugin` about the instance at `context`.
#[derive(Debug, PartialEq)]
pub struct PluginMessage {
    pub plugin: String,
    pub event: String,
    pub action: String,
    pub context: ActionContext,
    pub device: String,
    pub payload: OutboundPayload,
}

/// The notice that an instance came into view, and the state whose title
/// parameters the host then reports.
#[derive(Debug, PartialEq)]
pub struct AppearPlan {
    pub message: PluginMessage,
    pub title_state: u16,
}

/// The notice that an instance left view, and the place whose image the
/// host then clears, if any.
#[derive(Debug, PartialEq)]
pub struct DisappearPlan {
    pub message: PluginMessage,
    pub clear_image: Option<ActionContext>,
}

/// Whether `m` is the message `event` about `target`, sent to its plugin.
pub open spec fn addressed(m: PluginMessage, target: ActionInstance, event: Seq<char>) -> bool {
    &&& m.plugin == target.action.plugin
    &&& m.event@ == event
    &&& m.action == target.action.uuid
    &&& m.context == target.context
    &&& m.device == target.context.device
}

/// The characters of an optional string.
pub open spec fn opt_chars(s: Option<&str>) -> Option<Seq<char>> {
    match s {
        Some(c) => Some(c@),
        None => None,
    }
}

/// Whether `p` is the generic description of the addressed instance with
/// the controller `controller` put in, if any.
pub open spec fn instance_payload(p: OutboundPayload, controller: Option<Seq<char>>) -> bool {
    p matches OutboundPayload::Instance { controller_override } && controller_override.deep_view()
        == controller
}

/// Whether `p` announces that `instance` came into view, as a member of
/// `controller` where one is given.
pub open spec fn appear_plan_for(p: AppearPlan, instance: ActionInstance, controller: Option<Seq<char>>) -> bool {
    &&& addressed(p.message, instance, "willAppear"@)
    &&& instance_payload(p.message.payload, controller)
    &&& p.title_state == instance.current_state
}

/// Whether `p` announces that `instance` left view, clearing its image on
/// the device where `clear` holds.
pub open spec fn disappear_plan_for(
    p: DisappearPlan,
    instance: ActionInstance,
    clear: bool,
    controller: Option<Seq<char>>,
) -> bool {
    &&& addressed(p.message, instance, "willDisappear"@)
    &&& instance_payload(p.message.payload, controller)
    &&& p.clear_image == (if clear {
        Some(instance.context)
    } else {
        None
    })
}

/// The message `event` about `target`, with `payload`.
pub(crate) fn message_to(target: &ActionInstance, event: &str, payload: OutboundPayload) -> (r:
    PluginMessage)
    ensures
        addressed(r, *target, event@),
        r.payload == payload,
{
    PluginMessage {
        plugin: target.action.plugin.clone(),
        event: String::from_str(event),
        action: target.action.uuid.clone(),
        context: target.context.clone(),
        device: target.context.device.clone(),
        payload,
    }
}

/// The generic description of an instance, with a controller put in.
pub(crate) fn instance_payload_with(controller_override: Option<&str>) -> (r: OutboundPayload)
    ensures
        instance_payload(r, opt_chars(controller_override)),
{
    let controller_override = match controller_override {
        Some(c) => Some(String::from_str(c)),
        None => None,
    };
    OutboundPayload::Instance { controller_override }
}

/// `willAppear` for an instance, as a member of the given controller where
/// one is given.
pub fn will_appear_with_controller(instance: &ActionInstance, controller_override: Option<&str>) -> (r:
    AppearPlan)
    ensures
        appear_plan_for(r, *instance, opt_chars(controller_override)),
{
    AppearPlan {
        message: message_to(instance, "willAppear", instance_payload_with(controller_override)),
        title_state: instance.current_state,
    }
}

/// `willAppear` for an instance.
pub fn will_appear(instance: &ActionInstance) -> (r: AppearPlan)
    ensures
        appear_plan_for(r, *instance, None),
{
    will_appear_with_controller(instance, None)
}

/// `willDisappear` for an instance, as a member of the given controller
/// where one is given; with `clear_on_device`, its image on the device is
/// cleared after.
pub fn will_disappear_with_controller(
    instance: &ActionInstance,
    clear_on_device: bool,
    controller_override: Option<&str>,
) -> (r: DisappearPlan)
    ensures
        disappear_plan_for(r, *instance, clear_on_device, opt_chars(controller_override)),
{
    let clear_image = if clear_on_device {
        Some(instance.context.clone())
    } else {
        None
    };
    DisappearPlan {
        message: message_to(instance, "willDisappear", instance_payload_with(controller_override)),
        clear_image,
    }
}

/// `willDisappear` for an instance; with `clear_on_device`, its image on the
/// device is cleared after.
pub fn will_disappear(instance: &ActionInstance, clear_on_device: bool) -> (r: DisappearPlan)
    ensures
        disappear_plan_for(r, *instance, clear_on_device, None),
{
    will_disappear_with_controller(instance, clear_on_device, None)
}

} // verus!
