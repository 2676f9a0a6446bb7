//! The action instances that the event handlers read and update.
use vstd::prelude::*;

use crate::text::str_eq;

verus! {

/// The identifier of the action that groups encoder actions into a stack.
pub open spec fn dial_stack_uuid() -> Seq<char> {
    "opendeck.dialstack"@
}

/// The identifier of the action that turns a dial into a wheel of key actions.
pub open spec fn action_wheel_uuid() -> Seq<char> {
    "opendeck.actionwheel"@
}

/// Where an action instance lives: a device, a profile on it, a controller
/// (`Keypad` or `Encoder`), a position on that controller, and an index
/// that is 0 for the instance itself and `n` for the `n`-th child of a
/// container placed there.
#[derive(Debug, PartialEq, Eq)]
pub struct ActionContext {
    pub device: String,
    pub profile: String,
    pub controller: String,
    pub position: u8,
    pub index: u16,
}

impl Clone for ActionContext {
    fn clone(&self) -> (r: Self)
        ensures
            r == *self,
    {
        ActionContext {
            device: self.device.clone(),
            profile: self.profile.clone(),
            controller: self.controller.clone(),
            position: self.position,
            index: self.index,
        }
    }
}

/// What one state of an action shows: its title and its image.
#[derive(Debug, PartialEq, Eq)]
pub struct ActionState {
    pub text: String,
    pub image: String,
}

impl Clone for ActionState {
    fn clone(&self) -> (r: Self)
        ensures
            r == *self,
    {
        ActionState { text: self.text.clone(), image: self.image.clone() }
    }
}

/// The encoder part of an action's manifest: whether its touch-strip layout
/// has been loaded.
#[derive(Debug, PartialEq, Eq, Clone, Copy)]
pub struct Encoder {
    pub layout_loaded: bool,
}

/// An action as its plugin declares it; `states` are the default states.
#[derive(Debug, PartialEq, Eq)]
pub struct Action {
    pub uuid: String,
    pub plugin: String,
    pub states: Vec<ActionState>,
    pub encoder: Option<Encoder>,
}

/// An action placed on a device, with the states it currently shows, the
/// state selected among them, its settings, and, for a container (a dial
/// stack or an action wheel), its children.
#[derive(Debug, PartialEq)]
pub struct ActionInstance {
    pub action: Action,
    pub context: ActionContext,
    pub states: Vec<ActionState>,
    pub current_state: u16,
    pub settings: serde_json::Value,
    pub children: Option<Vec<ActionInstance>>,
}

/// Whether `a` holds what `b` holds: the same strings and settings, states
/// with the same titles and images.
pub open spec fn same_action(a: Action, b: Action) -> bool {
    &&& a.uuid == b.uuid
    &&& a.plugin == b.plugin
    &&& a.states@ == b.states@
    &&& a.encoder == b.encoder
}

/// Whether `a` is a copy of `b`, its children copies of `b`'s children.
pub open spec fn is_copy_of(a: ActionInstance, b: ActionInstance) -> bool
    decreases b, 1int,
{
    &&& same_action(a.action, b.action)
    &&& a.context == b.context
    &&& a.states@ == b.states@
    &&& a.current_state == b.current_state
    &&& a.settings == b.settings
    &&& match b.children {
        None => a.children is None,
        Some(y) => a.children matches Some(x) && are_copies_of(x@, y@),
    }
}

/// Whether each of `xs` is a copy of the one of `ys` at its place.
pub open spec fn are_copies_of(xs: Seq<ActionInstance>, ys: Seq<ActionInstance>) -> bool
    decreases ys, 0int,
{
    if ys.len() == 0 {
        xs.len() == 0
    } else {
        &&& xs.len() == ys.len()
        &&& is_copy_of(xs[0], ys[0])
        &&& are_copies_of(xs.drop_first(), ys.drop_first())
    }
}

/// Copies taken one by one, at each place, make a list of copies.
pub proof fn copies_at_each_place(xs: Seq<ActionInstance>, ys: Seq<ActionInstance>)
    requires
        xs.len() == ys.len(),
        forall|i: int| 0 <= i < ys.len() ==> #[trigger] is_copy_of(xs[i], ys[i]),
    ensures
        are_copies_of(xs, ys),
    decreases ys.len(),
{
    if ys.len() > 0 {
        assert(is_copy_of(xs[0], ys[0]));
        assert forall|i: int| 0 <= i < ys.drop_first().len() implies #[trigger] is_copy_of(
            xs.drop_first()[i],
            ys.drop_first()[i],
        ) by {
            assert(is_copy_of(xs[i + 1], ys[i + 1]));
        }
        copies_at_each_place(xs.drop_first(), ys.drop_first());
    }
}

impl Clone for Action {
    fn clone(&self) -> (r: Self)
        ensures
            same_action(r, *self),
    {
        let states = self.states.clone();
        assert(states@ =~= self.states@);
        Action { uuid: self.uuid.clone(), plugin: self.plugin.clone(), states, encoder: self.encoder }
    }
}

impl Clone for ActionInstance {
    fn clone(&self) -> (r: Self)
        ensures
            is_copy_of(r, *self),
        decreases self,
    {
        let children = match &self.children {
            None => None,
            Some(c) => {
                let mut copies: Vec<ActionInstance> = Vec::new();
                let mut i: usize = 0;
                while i < c.len()
                    invariant
                        self.children == Some(*c),
                        i <= c@.len(),
                        copies@.len() == i,
                        forall|k: int| 0 <= k < i ==> #[trigger] is_copy_of(copies@[k], c@[k]),
                    decreases c@.len() - i,
                {
                    proof {
                        assert(decreases_to!(self.children => self.children->0));
                        assert(decreases_to!(*c => c@));
                    }
                    copies.push(c[i].clone());
                    i = i + 1;
                }
                Some(copies)
            },
        };
        let states = self.states.clone();
        assert(states@ =~= self.states@);
        let r = ActionInstance {
            action: self.action.clone(),
            context: self.context.clone(),
            states,
            current_state: self.current_state,
            settings: self.settings.clone(),
            children,
        };
        proof {
            if self.children is Some {
                copies_at_each_place(r.children->0@, self.children->0@);
            }
        }
        r
    }
}

impl ActionInstance {
    /// Whether this instance is a dial stack.
    pub open spec fn is_dial_stack(self) -> bool {
        self.action.uuid@ == dial_stack_uuid()
    }

    /// Whether this instance is an action wheel.
    pub open spec fn is_action_wheel(self) -> bool {
        self.action.uuid@ == action_wheel_uuid()
    }

    /// Whether this instance groups other instances.
    pub open spec fn is_container(self) -> bool {
        self.is_dial_stack() || self.is_action_wheel()
    }

    /// The children of the instance; none where it has no list of them.
    pub open spec fn child_list(self) -> Seq<ActionInstance> {
        match self.children {
            Some(c) => c@,
            None => Seq::empty(),
        }
    }

    /// The child that a container has selected.
    pub open spec fn selected_child(self) -> ActionInstance {
        self.child_list()[self.current_state as int]
    }

    /// Where the instance has children, it selects one of them.
    pub open spec fn selects_a_child(self) -> bool {
        self.child_list().len() > 0 ==> self.current_state < self.child_list().len()
    }
}

/// The titles of a list of states.
pub open spec fn texts_of(states: Seq<ActionState>) -> Seq<Seq<char>> {
    states.map_values(|s: ActionState| s.text@)
}

/// The images of a list of states.
pub open spec fn images_of(states: Seq<ActionState>) -> Seq<Seq<char>> {
    states.map_values(|s: ActionState| s.image@)
}

/// Whether `uuid` names a dial stack.
pub fn is_dial_stack_uuid(uuid: &str) -> (r: bool)
    ensures
        r == (uuid@ == dial_stack_uuid()),
{
    str_eq(uuid, "opendeck.dialstack")
}

/// Whether `uuid` names an action wheel.
pub fn is_action_wheel_uuid(uuid: &str) -> (r: bool)
    ensures
        r == (uuid@ == action_wheel_uuid()),
{
    str_eq(uuid, "opendeck.actionwheel")
}

/// Whether `uuid` names a container action (a dial stack or an action wheel).
pub fn is_container_uuid(uuid: &str) -> (r: bool)
    ensures
        r == (uuid@ == dial_stack_uuid() || uuid@ == action_wheel_uuid()),
{
    is_dial_stack_uuid(uuid) || is_action_wheel_uuid(uuid)
}

/// The children of an instance, borrowed; an empty list where it has none.
pub fn children_of(instance: &ActionInstance) -> (r: &[ActionInstance])
    ensures
        r@ == instance.child_list(),
{
    match &instance.children {
        Some(c) => c.as_slice(),
        None => &[],
    }
}

/// Whether the instance, where it has children, selects one of them.
pub fn selects_a_child(instance: &ActionInstance) -> (r: bool)
    ensures
        r == instance.selects_a_child(),
{
    let children = children_of(instance);
    children.len() == 0 || (instance.current_state as usize) < children.len()
}

/// A copy of an instance's settings.
pub fn settings_of(instance: &ActionInstance) -> (r: serde_json::Value)
    ensures
        r == instance.settings,
{
    instance.settings.clone()
}

} // verus!
