//! What each handler does, said field by field of its inputs and results:
//! which titles and images a state update writes, which steps follow, whom
//! an encoder event reaches and with what payload, and what the
//! `willAppear` / `willDisappear` notices carry.
use vstd::prelude::*;

use crate::encoder::{
    PressAction, PressPlan, RotatePlan, dial_press_outcome, dial_rotate_outcome, touch_tap_outcome,
};
use crate::laws::wheel_lands_on_a_child;
use crate::message::{
    AppearPlan, Coordinates, DisappearPlan, OutboundPayload, PluginMessage, appear_plan_for,
    disappear_plan_for, opt_chars,
};
use crate::model::{ActionContext, ActionInstance};
use crate::encoder::{
    ready_to_press, ready_to_rotate, ready_to_tap, stack_successor, wheel_target,
};
use crate::model::is_copy_of;
use crate::states::{
    Effect, ImageSource, InboundError, SetImagePayload, SetStatePayload, SetTitlePayload,
    after_missing_instance, defaults_cover, image_source_of, set_image_outcome, set_state_outcome,
    set_title_outcome,
};
use crate::text::{
    is_white_space, trim_end_is_a_prefix, trim_start_is_a_suffix, trim_start_of_blank, trimmed,
};

verus! {

/// No action is both a dial stack and an action wheel.
pub proof fn containers_are_of_one_kind(instance: ActionInstance)
    ensures
        !(instance.is_dial_stack() && instance.is_action_wheel()),
{
    reveal_strlit("opendeck.dialstack");
    reveal_strlit("opendeck.actionwheel");
    assert("opendeck.dialstack"@[9] != "opendeck.actionwheel"@[9]);
}

/// Whether `m` goes to the plugin of `target` about `target`, as the event
/// `event`.
pub open spec fn sent_about(m: PluginMessage, target: ActionInstance, event: Seq<char>) -> bool {
    &&& m.plugin == target.action.plugin
    &&& m.action == target.action.uuid
    &&& m.context == target.context
    &&& m.device == target.context.device
    &&& m.event@ == event
}

/// Whether `payload` is the generic description of the addressed instance
/// with `controller` put in, or with none where `controller` is `None`.
pub open spec fn describes_instance_with(payload: OutboundPayload, controller: Option<&str>) -> bool {
    payload matches OutboundPayload::Instance { controller_override: o } && match controller {
        Some(c) => o matches Some(x) && x@ == c@,
        None => o is None,
    }
}

/// The three steps after a redraw of the instance at `instance_context`
/// for an event sent to `context`.
pub open spec fn redraw_steps(steps: Seq<Effect>, instance_context: ActionContext, context: ActionContext) -> bool {
    &&& steps.len() == 3
    &&& steps[0] == Effect::UpdateState(instance_context)
    &&& steps[1] == Effect::RefreshParent(context)
    &&& steps[2] == Effect::MarkProfileStale(context.device)
}

/// `setImage` on a found instance: a state the instance lacks is refused
/// with the state and the number of states; otherwise the named state (or
/// every state, where none is named) shows the given image, or its default
/// image where none is given, the other states and every title stay, the
/// rest of the instance stays, and the instance is redrawn.
pub proof fn set_image_writes_the_image(
    before: ActionInstance,
    after: ActionInstance,
    context: ActionContext,
    payload: SetImagePayload,
    r: Result<Vec<Effect>, InboundError>,
)
    requires
        defaults_cover(before, payload.state),
        set_image_outcome(before, after, context, payload, r),
    ensures
        payload.state is Some && payload.state->0 >= before.states@.len() ==> r == Err::<
            Vec<Effect>,
            InboundError,
        >(InboundError::StateOutOfBounds { state: payload.state->0, len: before.states@.len() as usize }),
        payload.state is Some && payload.state->0 >= before.states@.len() ==> after == before,
        !(payload.state is Some && payload.state->0 >= before.states@.len()) ==> (r matches Ok(steps)
            && redraw_steps(steps@, before.context, context)),
        !(payload.state is Some && payload.state->0 >= before.states@.len()) ==> {
            &&& after.action == before.action
            &&& after.context == before.context
            &&& after.current_state == before.current_state
            &&& after.settings == before.settings
            &&& after.children == before.children
            &&& after.states@.len() == before.states@.len()
        },
        !(payload.state is Some && payload.state->0 >= before.states@.len()) ==> forall|j: int|
            0 <= j < before.states@.len() ==> #[trigger] after.states@[j].text@
                == before.states@[j].text@,
        !(payload.state is Some && payload.state->0 >= before.states@.len()) ==> forall|j: int|
            0 <= j < before.states@.len() && (payload.state is None || payload.state->0 == j)
                ==> #[trigger] after.states@[j].image@ == match payload.image {
                Some(v) => v@,
                None => before.action.states@[j].image@,
            },
        !(payload.state is Some && payload.state->0 >= before.states@.len()) ==> forall|j: int|
            0 <= j < before.states@.len() && !(payload.state is None || payload.state->0 == j)
                ==> #[trigger] after.states@[j].image@ == before.states@[j].image@,
{
    if !(payload.state is Some && payload.state->0 >= before.states@.len()) {
        let wanted = crate::states::updated_fields(
            crate::model::images_of(before.states@),
            crate::model::images_of(before.action.states@),
            payload.image.deep_view(),
            payload.state,
        );
        assert(crate::model::images_of(after.states@) == wanted);
        assert(crate::model::images_of(after.states@).len() == crate::model::images_of(
            before.states@,
        ).len());
        assert forall|j: int| 0 <= j < before.states@.len() implies #[trigger] after.states@[j].text@
            == before.states@[j].text@ by {
            assert(crate::model::texts_of(after.states@)[j] == crate::model::texts_of(
                before.states@,
            )[j]);
        }
        assert forall|j: int|
            0 <= j < before.states@.len() && (payload.state is None || payload.state->0 == j)
                implies #[trigger] after.states@[j].image@ == match payload.image {
                Some(v) => v@,
                None => before.action.states@[j].image@,
            } by {
            assert(crate::model::images_of(after.states@)[j] == after.states@[j].image@);
            assert(wanted[j] == after.states@[j].image@);
            assert(j < before.action.states@.len());
            assert(crate::model::images_of(before.action.states@)[j]
                == before.action.states@[j].image@);
            match payload.image {
                Some(v) => {
                    assert(payload.image.deep_view() == Some(v@));
                },
                None => {},
            }
        }
        assert forall|j: int|
            0 <= j < before.states@.len() && !(payload.state is None || payload.state->0 == j)
                implies #[trigger] after.states@[j].image@ == before.states@[j].image@ by {
            assert(crate::model::images_of(after.states@)[j] == after.states@[j].image@);
            assert(wanted[j] == after.states@[j].image@);
            assert(crate::model::images_of(before.states@)[j] == before.states@[j].image@);
        }
        assert(r matches Ok(e) && e@ == crate::states::after_update(before.context, context));
        assert(r matches Ok(steps) && redraw_steps(steps@, before.context, context));
        assert(after.action == before.action);
        assert(after.children == before.children);
        assert(after.states@.len() == before.states@.len());
    }
}

/// `setImage` with an image and no state shows that image in every state.
pub proof fn set_image_without_state_shows_it_everywhere(
    before: ActionInstance,
    after: ActionInstance,
    context: ActionContext,
    payload: SetImagePayload,
    r: Result<Vec<Effect>, InboundError>,
)
    requires
        defaults_cover(before, payload.state),
        set_image_outcome(before, after, context, payload, r),
        payload.state is None,
        payload.image is Some,
    ensures
        r is Ok,
        forall|j: int| 0 <= j < after.states@.len() ==> #[trigger] after.states@[j].image@
            == payload.image->0@,
{
    set_image_writes_the_image(before, after, context, payload, r);
}

/// `setTitle` on a found instance: a state the instance lacks is refused
/// with the state and the number of states; otherwise the named state (or
/// every state, where none is named) shows the given title, or its default
/// title where none is given, the other states and every image stay, and
/// the rest of the instance stays. The instance is redrawn exactly when a
/// title changed; where none did, no step follows.
pub proof fn set_title_writes_the_title(
    before: ActionInstance,
    after: ActionInstance,
    context: ActionContext,
    payload: SetTitlePayload,
    r: Result<Vec<Effect>, InboundError>,
)
    requires
        defaults_cover(before, payload.state),
        set_title_outcome(before, after, context, payload, r),
    ensures
        payload.state is Some && payload.state->0 >= before.states@.len() ==> r == Err::<
            Vec<Effect>,
            InboundError,
        >(InboundError::StateOutOfBounds { state: payload.state->0, len: before.states@.len() as usize }),
        payload.state is Some && payload.state->0 >= before.states@.len() ==> after == before,
        !(payload.state is Some && payload.state->0 >= before.states@.len()) ==> {
            &&& r is Ok
            &&& after.action == before.action
            &&& after.context == before.context
            &&& after.current_state == before.current_state
            &&& after.settings == before.settings
            &&& after.children == before.children
            &&& after.states@.len() == before.states@.len()
        },
        !(payload.state is Some && payload.state->0 >= before.states@.len()) ==> forall|j: int|
            0 <= j < before.states@.len() ==> #[trigger] after.states@[j].image@
                == before.states@[j].image@,
        !(payload.state is Some && payload.state->0 >= before.states@.len()) ==> forall|j: int|
            0 <= j < before.states@.len() && (payload.state is None || payload.state->0 == j)
                ==> #[trigger] after.states@[j].text@ == match payload.title {
                Some(v) => v@,
                None => before.action.states@[j].text@,
            },
        !(payload.state is Some && payload.state->0 >= before.states@.len()) ==> forall|j: int|
            0 <= j < before.states@.len() && !(payload.state is None || payload.state->0 == j)
                ==> #[trigger] after.states@[j].text@ == before.states@[j].text@,
        !(payload.state is Some && payload.state->0 >= before.states@.len()) && (forall|j: int|
            0 <= j < before.states@.len() ==> #[trigger] after.states@[j].text@
                == before.states@[j].text@) ==> (r matches Ok(steps) && steps@.len() == 0
            && after == before),
        !(payload.state is Some && payload.state->0 >= before.states@.len()) && !(forall|j: int|
            0 <= j < before.states@.len() ==> #[trigger] after.states@[j].text@
                == before.states@[j].text@) ==> (r matches Ok(steps) && redraw_steps(
            steps@,
            before.context,
            context,
        )),
{
    if !(payload.state is Some && payload.state->0 >= before.states@.len()) {
        let t = crate::model::texts_of(before.states@);
        let wanted = crate::states::updated_fields(
            t,
            crate::model::texts_of(before.action.states@),
            payload.title.deep_view(),
            payload.state,
        );
        assert(crate::model::texts_of(after.states@) == wanted);
        assert(crate::model::texts_of(after.states@).len() == t.len());
        assert forall|j: int| 0 <= j < before.states@.len() implies #[trigger] after.states@[j].image@
            == before.states@[j].image@ by {
            assert(crate::model::images_of(after.states@)[j] == crate::model::images_of(
                before.states@,
            )[j]);
        }
        assert forall|j: int|
            0 <= j < before.states@.len() && (payload.state is None || payload.state->0 == j)
                implies #[trigger] after.states@[j].text@ == match payload.title {
                Some(v) => v@,
                None => before.action.states@[j].text@,
            } by {
            assert(crate::model::texts_of(after.states@)[j] == after.states@[j].text@);
            assert(wanted[j] == after.states@[j].text@);
            assert(j < before.action.states@.len());
            assert(crate::model::texts_of(before.action.states@)[j]
                == before.action.states@[j].text@);
            match payload.title {
                Some(v) => {
                    assert(payload.title.deep_view() == Some(v@));
                },
                None => {},
            }
        }
        assert forall|j: int|
            0 <= j < before.states@.len() && !(payload.state is None || payload.state->0 == j)
                implies #[trigger] after.states@[j].text@ == before.states@[j].text@ by {
            assert(crate::model::texts_of(after.states@)[j] == after.states@[j].text@);
            assert(wanted[j] == after.states@[j].text@);
            assert(t[j] == before.states@[j].text@);
        }
        if forall|j: int| 0 <= j < before.states@.len() ==> #[trigger] after.states@[j].text@
            == before.states@[j].text@ {
            assert(wanted =~= t) by {
                assert forall|j: int| 0 <= j < t.len() implies wanted[j] == t[j] by {
                    assert(crate::model::texts_of(after.states@)[j] == wanted[j]);
                    assert(after.states@[j].text@ == before.states@[j].text@);
                }
            }
        } else {
            let k = choose|k: int| 0 <= k < before.states@.len() && !(after.states@[k].text@
                == before.states@[k].text@);
            assert(crate::model::texts_of(after.states@)[k] != t[k]);
        }
    }
}

/// `setState` on a found instance with fewer than 2^16 states: a state it
/// has becomes the selected one and the instance is redrawn, whatever the
/// state; a state it lacks changes nothing and leads to no step.
pub proof fn set_state_selects_and_redraws(
    before: ActionInstance,
    after: ActionInstance,
    context: ActionContext,
    payload: SetStatePayload,
    steps: Seq<Effect>,
)
    requires
        before.states.len() < 0x1_0000,
        set_state_outcome(before, after, context, payload, steps),
    ensures
        payload.state < before.states.len() ==> {
            &&& redraw_steps(steps, before.context, context)
            &&& after.current_state == payload.state
            &&& after.states == before.states
            &&& after.action == before.action
            &&& after.context == before.context
            &&& after.settings == before.settings
            &&& after.children == before.children
        },
        payload.state >= before.states.len() ==> steps.len() == 0 && after == before,
{
}

/// A tap on the touch strip of a plain action, or of a dial stack with
/// children, reaches that action or the stack's selected child, as
/// `touchTap` with the encoder as controller, the target's settings, the
/// dial's place, the tap's position and its hold flag; an action wheel or
/// an empty dial stack takes the tap without any message.
pub proof fn touch_tap_passes_the_tap_on(
    instance: ActionInstance,
    index: u8,
    x: u16,
    y: u16,
    hold: bool,
    r: Option<PluginMessage>,
)
    requires
        touch_tap_outcome(instance, index, x, y, hold, r),
    ensures
        instance.is_action_wheel() ==> r is None,
        instance.is_dial_stack() && instance.child_list().len() == 0 ==> r is None,
        !instance.is_container() || (instance.is_dial_stack() && instance.child_list().len() > 0)
            ==> {
            let target = if instance.is_dial_stack() {
                instance.selected_child()
            } else {
                instance
            };
            r matches Some(m) && {
                &&& sent_about(m, target, "touchTap"@)
                &&& m.payload matches OutboundPayload::TouchTap {
                    controller,
                    settings,
                    coordinates,
                    tap_pos,
                    hold: h,
                }
                &&& controller@ == "Encoder"@
                &&& settings == target.settings
                &&& coordinates == (Coordinates { row: 0, column: index })
                &&& tap_pos == (x, y)
                &&& h == hold
            }
        },
{
    containers_are_of_one_kind(instance);
}

/// A press or release of the dial: the press is shown exactly for
/// `dialDown`. A plain action hears of the dial event itself, with the
/// encoder as controller, its settings and the dial's place, and stays as
/// it was. An action wheel with children passes the event to its selected
/// child as the key event (`keyDown` for `dialDown`, `keyUp` for `dialUp`)
/// with the child described as a `Keypad` action, and stays as it was. A
/// dial stack with children moves on `dialDown` to the next child, the
/// first after the last, telling the child it leaves `willDisappear` and
/// the child it reaches `willAppear`, both described with their own
/// controller and no image cleared; on a release it stays as it was.
pub proof fn dial_press_reaches_the_right_instance(
    before: ActionInstance,
    after: ActionInstance,
    event: Seq<char>,
    index: u8,
    r: PressPlan,
)
    requires
        before.selects_a_child(),
        before.child_list().len() <= 0x1_0000,
        dial_press_outcome(before, after, event, index, r),
    ensures
        r.key_down == (event == "dialDown"@),
        !before.is_container() ==> {
            &&& after == before
            &&& r.action matches PressAction::Forward(m) && {
                &&& sent_about(m, before, event)
                &&& m.payload matches OutboundPayload::DialPress { controller, settings, coordinates }
                &&& controller@ == "Encoder"@
                &&& settings == before.settings
                &&& coordinates == (Coordinates { row: 0, column: index })
            }
        },
        before.is_action_wheel() && before.child_list().len() > 0 ==> {
            &&& after == before
            &&& r.action matches PressAction::ForwardToChild { child, message: m } && {
                &&& child == before.current_state
                &&& sent_about(
                    m,
                    before.child_list()[child as int],
                    if event == "dialDown"@ {
                        "keyDown"@
                    } else if event == "dialUp"@ {
                        "keyUp"@
                    } else {
                        event
                    },
                )
                &&& describes_instance_with(m.payload, Some("Keypad"))
            }
        },
        before.is_dial_stack() && before.child_list().len() > 0 && event != "dialDown"@ ==> {
            &&& after == before
            &&& r.action is Ignore
        },
        before.is_dial_stack() && before.child_list().len() > 0 && event == "dialDown"@ ==> {
            let len = before.child_list().len() as int;
            let from = before.current_state as int;
            let to = if from + 1 == len {
                0
            } else {
                from + 1
            };
            &&& after == (ActionInstance { current_state: to as u16, ..before })
            &&& r.action matches PressAction::StackAdvanced { from: f, to: t, leaving, entering } && {
                &&& f == from
                &&& t == to
                &&& sent_about(leaving.message, before.child_list()[from], "willDisappear"@)
                &&& describes_instance_with(leaving.message.payload, None)
                &&& leaving.clear_image is None
                &&& sent_about(entering.message, before.child_list()[to], "willAppear"@)
                &&& describes_instance_with(entering.message.payload, None)
                &&& entering.title_state == before.child_list()[to].current_state
            }
        },
{
    containers_are_of_one_kind(before);
    reveal_strlit("Keypad");
    if before.is_dial_stack() && before.child_list().len() > 0 && event == "dialDown"@ {
        let len = before.child_list().len() as int;
        let from = before.current_state as int;
        if from + 1 == len {
            assert((from + 1) % len == 0) by {
                vstd::arithmetic::div_mod::lemma_mod_self_0(len);
            }
        } else {
            assert((from + 1) % len == from + 1) by {
                vstd::arithmetic::div_mod::lemma_small_mod((from + 1) as nat, len as nat);
            }
        }
    }
}

/// A turn of the dial. A plain action, or the selected child of a dial
/// stack with children, hears of it as `dialRotate` with the encoder as
/// controller, its settings, the dial's place, the ticks and no press, and
/// nothing changes. An action wheel with children (at most 2^16) selects
/// the child `ticks` further on, counted around the wheel, and tells the
/// child it leaves `willDisappear` and the child it reaches `willAppear`,
/// both described as `Keypad` actions and no image cleared.
pub proof fn dial_rotate_reaches_the_right_instance(
    before: ActionInstance,
    after: ActionInstance,
    index: u8,
    ticks: i16,
    r: RotatePlan,
)
    requires
        before.selects_a_child(),
        before.child_list().len() <= 0x1_0000,
        dial_rotate_outcome(before, after, index, ticks, r),
    ensures
        !before.is_container() || (before.is_dial_stack() && before.child_list().len() > 0) ==> {
            let target = if before.is_dial_stack() {
                before.selected_child()
            } else {
                before
            };
            &&& after == before
            &&& r matches RotatePlan::Forward(m) && {
                &&& sent_about(m, target, "dialRotate"@)
                &&& m.payload matches OutboundPayload::DialRotate {
                    controller,
                    settings,
                    coordinates,
                    ticks: t,
                    pressed,
                }
                &&& controller@ == "Encoder"@
                &&& settings == target.settings
                &&& coordinates == (Coordinates { row: 0, column: index })
                &&& t == ticks
                &&& !pressed
            }
        },
        before.is_action_wheel() && before.child_list().len() > 0 ==> {
            let len = before.child_list().len() as int;
            let from = before.current_state as int;
            &&& r matches RotatePlan::WheelTurned { from: f, to, leaving, entering } && {
                &&& f == from
                &&& 0 <= to < len
                &&& (to - (from + ticks)) % len == 0
                &&& after == (ActionInstance { current_state: to as u16, ..before })
                &&& sent_about(leaving.message, before.child_list()[from], "willDisappear"@)
                &&& describes_instance_with(leaving.message.payload, Some("Keypad"))
                &&& leaving.clear_image is None
                &&& sent_about(entering.message, before.child_list()[to as int], "willAppear"@)
                &&& describes_instance_with(entering.message.payload, Some("Keypad"))
                &&& entering.title_state == before.child_list()[to as int].current_state
            }
        },
        before.is_container() && before.child_list().len() == 0 ==> (r is Ignore && after == before),
{
    containers_are_of_one_kind(before);
    reveal_strlit("Keypad");
    if before.is_action_wheel() && before.child_list().len() > 0 {
        let len = before.child_list().len() as int;
        let from = before.current_state as int;
        wheel_lands_on_a_child(from, ticks as int, len);
        vstd::arithmetic::div_mod::lemma_fundamental_div_mod(from + ticks, len);
        let q = (from + ticks) / len;
        let to = (from + ticks) % len;
        assert(to - (from + ticks) == len * (-q)) by (nonlinear_arith)
            requires
                from + ticks == len * q + to,
        ;
        vstd::arithmetic::div_mod::lemma_mod_multiples_basic(-q, len);
        assert((len * (-q)) % len == 0) by (nonlinear_arith)
            requires
                ((-q) * len) % len == 0,
        ;
    }
}

/// `willAppear`: the notice goes to the instance's plugin about the
/// instance, describes it with the given controller (or its own where none
/// is given), and the title parameters reported after are those of its
/// selected state.
pub proof fn will_appear_carries_the_controller(
    plan: AppearPlan,
    instance: ActionInstance,
    controller: Option<&str>,
)
    requires
        appear_plan_for(plan, instance, opt_chars(controller)),
    ensures
        sent_about(plan.message, instance, "willAppear"@),
        describes_instance_with(plan.message.payload, controller),
        plan.title_state == instance.current_state,
{
}

/// `willDisappear`: the notice goes to the instance's plugin about the
/// instance, describes it with the given controller (or its own where none
/// is given), and the instance's image is cleared after exactly where that
/// was asked for.
pub proof fn will_disappear_carries_the_controller(
    plan: DisappearPlan,
    instance: ActionInstance,
    clear_on_device: bool,
    controller: Option<&str>,
)
    requires
        disappear_plan_for(plan, instance, clear_on_device, opt_chars(controller)),
    ensures
        sent_about(plan.message, instance, "willDisappear"@),
        describes_instance_with(plan.message.payload, controller),
        clear_on_device ==> plan.clear_image == Some(instance.context),
        !clear_on_device ==> plan.clear_image is None,
{
}

/// Where no instance is found, a `setTitle`, `setImage` or `setState` only
/// refreshes the container above the context and marks the device's
/// profile as changed, in that order.
pub proof fn missing_instance_refreshes_parent_and_profile(context: ActionContext)
    ensures
        after_missing_instance(context).len() == 2,
        after_missing_instance(context)[0] == Effect::RefreshParent(context),
        after_missing_instance(context)[1] == Effect::MarkProfileStale(context.device),
{
}

/// The image a `setImage` event sends: none, or one of nothing but white
/// space, gives the default images; one that begins with `data:` is kept
/// exactly as sent; one that names a file gives a path with no white space
/// at either end, which does not begin with `data:`.
pub proof fn image_sources_as_sent(image: Option<String>, r: ImageSource)
    requires
        image_source_of(image.deep_view(), r),
    ensures
        image is None ==> r is Default,
        image is Some && (forall|i: int|
            0 <= i < image->0@.len() ==> #[trigger] is_white_space(image->0@[i])) ==> r is Default,
        image is Some && image->0@.len() >= 5 && image->0@.subrange(0, 5) == "data:"@ ==> (
        r matches ImageSource::Inline(x) && x@ == image->0@),
        r matches ImageSource::PluginFile(p) ==> {
            &&& p@.len() > 0
            &&& !is_white_space(p@[0])
            &&& !is_white_space(p@.last())
            &&& !(p@.len() >= 5 && p@.subrange(0, 5) == "data:"@)
        },
{
    reveal_strlit("data:");
    if let Some(s) = image {
        let v = s@;
        trim_start_is_a_suffix(v);
        let a = crate::text::trim_start_chars(v);
        trim_end_is_a_prefix(a);
        if forall|i: int| 0 <= i < v.len() ==> #[trigger] is_white_space(v[i]) {
            trim_start_of_blank(v);
            assert(trimmed(v).len() == 0);
        }
        if v.len() >= 5 && v.subrange(0, 5) == "data:"@ {
            assert(v.subrange(0, 5)[0] == v[0]);
            assert(v.subrange(0, 5)[4] == v[4]);
            assert("data:"@[0] == 'd');
            assert("data:"@[4] == ':');
            assert(v[0] == 'd');
            assert(!is_white_space(v[0]));
            assert(a == v);
            assert(v[4] == ':');
            assert(!is_white_space(a[4]));
            let t = trimmed(v);
            assert(t.len() > 4);
            assert(t.subrange(0, 5) =~= v.subrange(0, 5));
        }
        let t = trimmed(v);
        if t.len() > 0 {
            assert(t[0] == a[0]);
        }
    }
}

/// A plain action is always ready for dial turns, presses and taps; a
/// container is ready for them where it selects one of its children (and an
/// action wheel has no more children than a signed machine word counts).
pub proof fn encoder_events_need_only_a_selected_child(instance: ActionInstance, event: Seq<char>)
    ensures
        !instance.is_container() ==> ready_to_rotate(instance) && ready_to_press(instance, event)
            && ready_to_tap(instance),
        instance.selects_a_child() && instance.child_list().len() <= isize::MAX ==> ready_to_rotate(
            instance,
        ) && ready_to_press(instance, event) && ready_to_tap(instance),
        instance.is_dial_stack() && event != "dialDown"@ ==> ready_to_press(instance, event),
        instance.is_action_wheel() ==> ready_to_tap(instance),
{
    containers_are_of_one_kind(instance);
}

/// An update reads a default title or image only from the action's default
/// states, so an action with at least as many default states as the
/// instance has states covers every update.
pub proof fn enough_defaults_cover_every_update(instance: ActionInstance, target: Option<u16>)
    requires
        instance.states.len() <= instance.action.states.len(),
    ensures
        defaults_cover(instance, target),
{
}

/// A turn of an action wheel lands on the child as many places on as the
/// turn has ticks, counted around the wheel.
pub proof fn wheel_turn_counts_ticks(current: int, ticks: int, len: int)
    requires
        0 < len,
    ensures
        0 <= wheel_target(current, ticks, len) < len,
        (wheel_target(current, ticks, len) - (current + ticks)) % len == 0,
{
    vstd::arithmetic::div_mod::lemma_fundamental_div_mod(current + ticks, len);
    let q = (current + ticks) / len;
    let to = (current + ticks) % len;
    assert(to - (current + ticks) == len * (-q)) by (nonlinear_arith)
        requires
            current + ticks == len * q + to,
    ;
    vstd::arithmetic::div_mod::lemma_mod_multiples_basic(-q, len);
    assert((len * (-q)) % len == 0) by (nonlinear_arith)
        requires
            ((-q) * len) % len == 0,
    ;
}

/// A press on a dial stack moves to the next child, and from the last one
/// to the first.
pub proof fn stack_moves_to_the_next_child(current: int, len: int)
    requires
        0 <= current < len,
    ensures
        current + 1 < len ==> stack_successor(current, len) == current + 1,
        current + 1 == len ==> stack_successor(current, len) == 0,
{
    if current + 1 < len {
        vstd::arithmetic::div_mod::lemma_small_mod((current + 1) as nat, len as nat);
    } else {
        vstd::arithmetic::div_mod::lemma_mod_self_0(len);
    }
}

/// A copy of an instance has its action's strings and states, its context,
/// states, selection and settings, and as many children.
pub proof fn a_copy_keeps_every_field(a: ActionInstance, b: ActionInstance)
    requires
        is_copy_of(a, b),
    ensures
        a.action.uuid == b.action.uuid,
        a.action.plugin == b.action.plugin,
        a.action.states@ == b.action.states@,
        a.action.encoder == b.action.encoder,
        a.context == b.context,
        a.states@ == b.states@,
        a.current_state == b.current_state,
        a.settings == b.settings,
        a.children is Some <==> b.children is Some,
        b.children is Some ==> a.children->0@.len() == b.children->0@.len(),
{
}

} // verus!
