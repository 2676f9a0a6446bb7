//! What holds across calls of the handlers: turns of an action wheel add up
//! and undo each other, presses on a dial stack cycle through its children,
//! and repeating a title, image or state update changes nothing more.
use vstd::prelude::*;

use vstd::arithmetic::div_mod::{
    lemma_add_mod_noop_right, lemma_mod_multiples_vanish, lemma_small_mod,
};

use crate::encoder::{RotatePlan, dial_rotate_outcome, stack_successor, touch_tap_outcome, wheel_target};
use crate::message::{PluginMessage, addressed};
use crate::model::{ActionContext, ActionInstance, images_of, texts_of};
use crate::states::{
    Effect, InboundError, SetImagePayload, SetStatePayload, SetTitlePayload, defaults_cover,
    set_image_outcome, set_state_outcome, set_title_outcome, target_out_of_bounds, updated_fields,
};

verus! {

/// A turn of an action wheel always lands on one of its children.
pub proof fn wheel_lands_on_a_child(current: int, ticks: int, len: int)
    requires
        0 < len,
    ensures
        0 <= wheel_target(current, ticks, len) < len,
{
}

/// Two turns of an action wheel, by `a` and then by `b`, land where one turn
/// by `a + b` does.
pub proof fn wheel_turns_add_up(current: int, a: int, b: int, len: int)
    requires
        0 < len,
    ensures
        wheel_target(wheel_target(current, a, len), b, len) == wheel_target(current, a + b, len),
{
    lemma_add_mod_noop_right(b, current + a, len);
}

/// A turn of an action wheel by whole rounds (`rounds` times its number of
/// children) leaves it on the child it was on.
pub proof fn wheel_full_rounds_return(current: int, rounds: int, len: int)
    requires
        0 < len,
        0 <= current < len,
    ensures
        wheel_target(current, rounds * len, len) == current,
{
    lemma_mod_multiples_vanish(rounds, current, len);
    lemma_small_mod(current as nat, len as nat);
    assert(current + rounds * len == len * rounds + current) by (nonlinear_arith);
}

/// Turning an action wheel by `ticks` and then back by `-ticks` brings it
/// back to the child it was on, and leaves the instance as it was, where
/// the wheel has no more children than a selection counts (2^16).
pub proof fn wheel_turn_undone(
    before: ActionInstance,
    middle: ActionInstance,
    after: ActionInstance,
    index: u8,
    ticks: i16,
    back: i16,
    first: RotatePlan,
    second: RotatePlan,
)
    requires
        before.is_action_wheel(),
        before.selects_a_child(),
        before.child_list().len() <= 0x1_0000,
        back == -ticks,
        dial_rotate_outcome(before, middle, index, ticks, first),
        dial_rotate_outcome(middle, after, index, back, second),
    ensures
        after == before,
{
    reveal_strlit("opendeck.dialstack");
    reveal_strlit("opendeck.actionwheel");
    assert("opendeck.dialstack"@[9] != "opendeck.actionwheel"@[9]);
    assert(!before.is_dial_stack());
    let len = before.child_list().len() as int;
    if len > 0 {
        let c = before.current_state as int;
        wheel_lands_on_a_child(c, ticks as int, len);
        wheel_turns_add_up(c, ticks as int, back as int, len);
        lemma_small_mod(c as nat, len as nat);
        assert(middle.current_state == wheel_target(c, ticks as int, len));
        assert(after.current_state == before.current_state);
    }
}

/// The child a dial stack of `len` children selects after `presses`
/// presses from child `current`.
pub open spec fn stack_after(current: int, presses: nat, len: int) -> int
    decreases presses,
{
    if presses == 0 {
        current
    } else {
        stack_successor(stack_after(current, (presses - 1) as nat, len), len)
    }
}

/// After `presses` presses, a dial stack is `presses` children further on,
/// counted around the stack.
pub proof fn stack_presses_count_around(current: int, presses: nat, len: int)
    requires
        0 < len,
        0 <= current < len,
    ensures
        stack_after(current, presses, len) == (current + presses) % len,
    decreases presses,
{
    if presses == 0 {
        lemma_small_mod(current as nat, len as nat);
    } else {
        stack_presses_count_around(current, (presses - 1) as nat, len);
        lemma_add_mod_noop_right(1, current + presses - 1, len);
    }
}

/// As many presses as a dial stack has children bring it back to the child
/// it started on.
pub proof fn stack_cycles_through_all_children(current: int, len: int)
    requires
        0 < len,
        0 <= current < len,
    ensures
        stack_after(current, len as nat, len) == current,
{
    stack_presses_count_around(current, len as nat, len);
    lemma_mod_multiples_vanish(1, current, len);
    lemma_small_mod(current as nat, len as nat);
}

/// Writing the same titles (or images) a second time leaves them as the
/// first write did.
pub proof fn field_update_idempotent(
    current: Seq<Seq<char>>,
    defaults: Seq<Seq<char>>,
    value: Option<Seq<char>>,
    target: Option<u16>,
)
    ensures
        updated_fields(updated_fields(current, defaults, value, target), defaults, value, target)
            == updated_fields(current, defaults, value, target),
{
    assert(updated_fields(updated_fields(current, defaults, value, target), defaults, value, target)
        =~= updated_fields(current, defaults, value, target));
}

/// A `setTitle` that repeats the one before it changes nothing and leads to
/// no redraw.
pub proof fn set_title_twice_changes_nothing(
    before: ActionInstance,
    middle: ActionInstance,
    after: ActionInstance,
    context: ActionContext,
    payload: SetTitlePayload,
    first: Result<Vec<Effect>, InboundError>,
    second: Result<Vec<Effect>, InboundError>,
)
    requires
        defaults_cover(before, payload.state),
        first is Ok,
        set_title_outcome(before, middle, context, payload, first),
        set_title_outcome(middle, after, context, payload, second),
    ensures
        second matches Ok(steps) && steps@ == Seq::<Effect>::empty(),
        after == middle,
{
    let defaults = texts_of(before.action.states@);
    let value = payload.title.deep_view();
    field_update_idempotent(texts_of(before.states@), defaults, value, payload.state);
    assert(!target_out_of_bounds(before.states@.len(), payload.state));
    assert(middle.action == before.action);
    assert(middle.states@.len() == before.states@.len()) by {
        assert(texts_of(middle.states@).len() == texts_of(before.states@).len());
    }
}

/// A `setImage` that repeats the one before it leaves the titles and images
/// as the first one did, and the rest of the instance as it was.
pub proof fn set_image_twice_changes_nothing(
    before: ActionInstance,
    middle: ActionInstance,
    after: ActionInstance,
    context: ActionContext,
    payload: SetImagePayload,
    first: Result<Vec<Effect>, InboundError>,
    second: Result<Vec<Effect>, InboundError>,
)
    requires
        defaults_cover(before, payload.state),
        first is Ok,
        set_image_outcome(before, middle, context, payload, first),
        set_image_outcome(middle, after, context, payload, second),
    ensures
        second is Ok,
        images_of(after.states@) == images_of(middle.states@),
        texts_of(after.states@) == texts_of(middle.states@),
        after == (ActionInstance { states: after.states, ..middle }),
{
    let defaults = images_of(before.action.states@);
    let value = payload.image.deep_view();
    field_update_idempotent(images_of(before.states@), defaults, value, payload.state);
    assert(!target_out_of_bounds(before.states@.len(), payload.state));
    assert(middle.states@.len() == before.states@.len()) by {
        assert(images_of(middle.states@).len() == images_of(before.states@).len());
    }
}

/// `setState` selects exactly the states an instance has, where it has
/// fewer than 2^16 of them: a state it has becomes the selected one, any
/// other leaves the instance as it was.
pub proof fn set_state_selects_only_existing_states(
    before: ActionInstance,
    after: ActionInstance,
    context: ActionContext,
    payload: SetStatePayload,
    steps: Seq<Effect>,
)
    requires
        before.states.len() < 0x1_0000,
        set_state_outcome(before, after, context, payload, steps),
    ensures
        payload.state < before.states.len() ==> after.current_state == payload.state,
        payload.state >= before.states.len() ==> after == before,
{
}

/// What an accepted `setTitle` leaves: the titles it asks for, the images
/// and the rest of the instance as they were.
proof fn accepted_set_title(
    before: ActionInstance,
    after: ActionInstance,
    context: ActionContext,
    payload: SetTitlePayload,
    r: Result<Vec<Effect>, InboundError>,
)
    requires
        r is Ok,
        set_title_outcome(before, after, context, payload, r),
    ensures
        texts_of(after.states@) == updated_fields(
            texts_of(before.states@),
            texts_of(before.action.states@),
            payload.title.deep_view(),
            payload.state,
        ),
        images_of(after.states@) == images_of(before.states@),
        after == (ActionInstance { states: after.states, ..before }),
        after.states@.len() == before.states@.len(),
{
    assert(texts_of(after.states@).len() == texts_of(before.states@).len());
}

/// A `setTitle` with a title, then one without a title for the same states,
/// gives back the titles the instance showed, where those were the action's
/// defaults; the images and the rest of the instance stay as they were.
pub proof fn set_title_reset_restores_defaults(
    before: ActionInstance,
    middle: ActionInstance,
    after: ActionInstance,
    context: ActionContext,
    set: SetTitlePayload,
    reset: SetTitlePayload,
    first: Result<Vec<Effect>, InboundError>,
    second: Result<Vec<Effect>, InboundError>,
)
    requires
        reset.title is None,
        reset.state == set.state,
        first is Ok,
        second is Ok,
        set_title_outcome(before, middle, context, set, first),
        set_title_outcome(middle, after, context, reset, second),
        forall|j: int|
            0 <= j < before.states@.len() && (set.state is None || set.state->0 == j)
                ==> #[trigger] texts_of(before.states@)[j] == texts_of(before.action.states@)[j],
    ensures
        texts_of(after.states@) == texts_of(before.states@),
        images_of(after.states@) == images_of(before.states@),
        after == (ActionInstance { states: after.states, ..before }),
{
    accepted_set_title(before, middle, context, set, first);
    accepted_set_title(middle, after, context, reset, second);
    let t = texts_of(before.states@);
    let d = texts_of(before.action.states@);
    assert(texts_of(after.states@) =~= t) by {
        assert forall|j: int| 0 <= j < t.len() implies texts_of(after.states@)[j] == t[j] by {
            if set.state is None || set.state->0 == j {
                assert(texts_of(before.states@)[j] == d[j]);
            }
        }
    }
}

/// Of two `setState` events, the later one decides: where it names a state
/// the instance has (of fewer than 2^16), the instance ends as that event
/// alone leaves it, with the same steps.
pub proof fn set_state_last_one_counts(
    before: ActionInstance,
    middle: ActionInstance,
    after: ActionInstance,
    alone: ActionInstance,
    context: ActionContext,
    first: SetStatePayload,
    last: SetStatePayload,
    first_steps: Seq<Effect>,
    last_steps: Seq<Effect>,
    alone_steps: Seq<Effect>,
)
    requires
        before.states.len() < 0x1_0000,
        last.state < before.states.len(),
        set_state_outcome(before, middle, context, first, first_steps),
        set_state_outcome(middle, after, context, last, last_steps),
        set_state_outcome(before, alone, context, last, alone_steps),
    ensures
        after == alone,
        last_steps == alone_steps,
{
}

/// A tap on the touch strip sends at most one message, to the instance or,
/// for a dial stack, to its selected child.
pub proof fn touch_tap_reaches_instance_or_selected_child(
    instance: ActionInstance,
    index: u8,
    x: u16,
    y: u16,
    hold: bool,
    r: Option<PluginMessage>,
)
    requires
        touch_tap_outcome(instance, index, x, y, hold, r),
    ensures
        r matches Some(m) ==> addressed(m, instance, "touchTap"@) || (instance.is_dial_stack()
            && addressed(m, instance.selected_child(), "touchTap"@)),
{
}

} // verus!
