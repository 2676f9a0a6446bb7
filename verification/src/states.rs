//! Events in which a plugin changes what one of its instances shows: its
//! title, its image, its selected state, its touch-strip feedback and
//! layout. Each handler updates the instance it is given and returns the
//! steps that the host takes after it, in order.
use vstd::prelude::*;

use crate::model::{ActionContext, ActionInstance, images_of, is_container_uuid, texts_of};
use crate::text::{starts_with, trim, has_prefix, trimmed};

verus! {

/// Payload of `setTitle`: a title for one state, or for every state where
/// `state` is absent; without a title, the states go back to their defaults.
pub struct SetTitlePayload {
    pub title: Option<String>,
    pub state: Option<u16>,
}

/// Payload of `setImage`, with the same addressing as [`SetTitlePayload`].
pub struct SetImagePayload {
    pub image: Option<String>,
    pub state: Option<u16>,
}

/// Payload of `setState`: the state to select.
pub struct SetStatePayload {
    pub state: u16,
}

/// Payload of `setFeedbackLayout`: the layout to load on the touch strip.
#[derive(Debug)]
pub struct SetFeedbackLayoutPayload {
    pub layout: String,
}

/// A step that the host takes after a handler returns.
#[derive(Debug, PartialEq, Eq)]
pub enum Effect {
    /// Redraw the instance at this context; a failure ends the event with it.
    UpdateState(ActionContext),
    /// Redraw the container above this context, if it has one (see
    /// [`maybe_update_dial_stack_parent`]); a failure is ignored.
    RefreshParent(ActionContext),
    /// Mark the profile of this device as changed; a failure ends the event
    /// with it.
    MarkProfileStale(String),
    /// Hand the event's payload to the instance's parsed layout; a failure
    /// ends the event with it.
    ApplyFeedback,
    /// Load the named layout for the instance's action; a failure ends the
    /// event with it.
    InitialiseLayout(String),
}

/// Why a handler refused an event.
#[derive(Debug, PartialEq, Eq, Clone, Copy)]
pub enum InboundError {
    /// The event named state `state` of an instance with `len` states.
    StateOutOfBounds { state: u16, len: usize },
    /// The instance's action has an encoder whose layout is not loaded.
    LayoutNotLoaded,
}

/// Where a `setImage` image comes from, once white space around it is set
/// aside.
#[derive(Debug, PartialEq, Eq)]
pub enum ImageSource {
    /// No image, or a blank one: the states go back to their default images.
    Default,
    /// An inline image (a `data:` URL), kept as it was sent.
    Inline(String),
    /// A file of the plugin, by this path relative to the plugin's folder;
    /// the host reads it and passes the image it makes of it to
    /// [`set_image`].
    PluginFile(String),
}

/// The titles (or images) that an update leaves: `value`, or each state's
/// default where there is none, in the state `target` names, or in every
/// state where it names none; the other states keep theirs.
pub open spec fn updated_fields(
    current: Seq<Seq<char>>,
    defaults: Seq<Seq<char>>,
    value: Option<Seq<char>>,
    target: Option<u16>,
) -> Seq<Seq<char>> {
    Seq::new(
        current.len(),
        |i: int|
            if target is None || target->0 == i {
                match value {
                    Some(v) => v,
                    None => defaults[i],
                }
            } else {
                current[i]
            },
    )
}

/// Whether `target` names a state that an instance with `len` states lacks.
pub open spec fn target_out_of_bounds(len: nat, target: Option<u16>) -> bool {
    target matches Some(s) && s >= len
}

/// Whether the action's default states cover every state the update reads
/// a default from.
pub open spec fn defaults_cover(instance: ActionInstance, target: Option<u16>) -> bool {
    match target {
        Some(s) => s < instance.states.len() ==> s < instance.action.states.len(),
        None => instance.states.len() <= instance.action.states.len(),
    }
}

/// Whether the action's default states cover every state an update for
/// `target` reads a default from (see [`defaults_cover`]).
pub fn covers_defaults(instance: &ActionInstance, target: Option<u16>) -> (r: bool)
    ensures
        r == defaults_cover(*instance, target),
{
    match target {
        Some(s) => (s as usize) >= instance.states.len() || (s as usize) < instance.action.states.len(),
        None => instance.states.len() <= instance.action.states.len(),
    }
}

/// The steps after an update of the instance at `instance_context`, for an
/// event sent to `context`.
pub open spec fn after_update(instance_context: ActionContext, context: ActionContext) -> Seq<Effect> {
    seq![
        Effect::UpdateState(instance_context),
        Effect::RefreshParent(context),
        Effect::MarkProfileStale(context.device),
    ]
}

/// The steps for an event sent to `context` where no instance is found.
pub open spec fn after_missing_instance(context: ActionContext) -> Seq<Effect> {
    seq![Effect::RefreshParent(context), Effect::MarkProfileStale(context.device)]
}

/// `before` with the texts (or images) of its states replaced by `values`.
pub open spec fn with_texts(before: ActionInstance, after: ActionInstance, values: Seq<Seq<char>>) -> bool {
    &&& after == (ActionInstance { states: after.states, ..before })
    &&& texts_of(after.states@) == values
    &&& images_of(after.states@) == images_of(before.states@)
}

/// `before` with the images of its states replaced by `values`.
pub open spec fn with_images(before: ActionInstance, after: ActionInstance, values: Seq<Seq<char>>) -> bool {
    &&& after == (ActionInstance { states: after.states, ..before })
    &&& images_of(after.states@) == values
    &&& texts_of(after.states@) == texts_of(before.states@)
}

/// What `setTitle` does to a found instance and what it answers.
pub open spec fn set_title_outcome(
    before: ActionInstance,
    after: ActionInstance,
    context: ActionContext,
    payload: SetTitlePayload,
    r: Result<Vec<Effect>, InboundError>,
) -> bool {
    let texts = texts_of(before.states@);
    let wanted = updated_fields(
        texts,
        texts_of(before.action.states@),
        payload.title.deep_view(),
        payload.state,
    );
    if target_out_of_bounds(before.states@.len(), payload.state) {
        &&& r == Err::<Vec<Effect>, InboundError>(
            InboundError::StateOutOfBounds { state: payload.state->0, len: before.states@.len() as usize },
        )
        &&& after == before
    } else if wanted == texts {
        &&& r matches Ok(e) && e@ == Seq::<Effect>::empty()
        &&& after == before
    } else {
        &&& r matches Ok(e) && e@ == after_update(before.context, context)
        &&& with_texts(before, after, wanted)
    }
}

/// What `setImage` does to a found instance and what it answers.
pub open spec fn set_image_outcome(
    before: ActionInstance,
    after: ActionInstance,
    context: ActionContext,
    payload: SetImagePayload,
    r: Result<Vec<Effect>, InboundError>,
) -> bool {
    if target_out_of_bounds(before.states@.len(), payload.state) {
        &&& r == Err::<Vec<Effect>, InboundError>(
            InboundError::StateOutOfBounds { state: payload.state->0, len: before.states@.len() as usize },
        )
        &&& after == before
    } else {
        &&& r matches Ok(e) && e@ == after_update(before.context, context)
        &&& with_images(
            before,
            after,
            updated_fields(
                images_of(before.states@),
                images_of(before.action.states@),
                payload.image.deep_view(),
                payload.state,
            ),
        )
    }
}

/// The steps after an update of the instance at `instance_context`.
fn after_update_effects(instance_context: &ActionContext, context: &ActionContext) -> (r: Vec<Effect>)
    ensures
        r@ == after_update(*instance_context, *context),
{
    let mut r = Vec::new();
    r.push(Effect::UpdateState(instance_context.clone()));
    r.push(Effect::RefreshParent(context.clone()));
    r.push(Effect::MarkProfileStale(context.device.clone()));
    r
}

/// The steps for an event whose instance was not found.
fn missing_instance_effects(context: &ActionContext) -> (r: Vec<Effect>)
    ensures
        r@ == after_missing_instance(*context),
{
    let mut r = Vec::new();
    r.push(Effect::RefreshParent(context.clone()));
    r.push(Effect::MarkProfileStale(context.device.clone()));
    r
}

/// The value an update writes into state `i`: the given one, else the
/// state's default.
fn chosen_value(value: &Option<String>, default: &String) -> (r: String)
    ensures
        r@ == (match value.deep_view() {
            Some(v) => v,
            None => default@,
        }),
{
    match value {
        Some(v) => v.clone(),
        None => default.clone(),
    }
}

/// `setTitle`: sets the title of the named state, or of every state, to the
/// given title, or back to the action's default titles. Where every title
/// already is what the event asks for, nothing changes and no step follows.
pub fn set_title(
    instance: Option<&mut ActionInstance>,
    context: &ActionContext,
    payload: &SetTitlePayload,
) -> (r: Result<Vec<Effect>, InboundError>)
    requires
        instance matches Some(i) ==> defaults_cover(*i, payload.state),
    ensures
        instance is None ==> (r matches Ok(e) && e@ == after_missing_instance(*context)),
        instance matches Some(i) ==> set_title_outcome(*i, *final(i), *context, *payload, r),
{
    let instance = match instance {
        None => return Ok(missing_instance_effects(context)),
        Some(i) => i,
    };
    let ghost before = *instance;
    let ghost wanted = updated_fields(
        texts_of(before.states@),
        texts_of(before.action.states@),
        payload.title.deep_view(),
        payload.state,
    );
    let n = instance.states.len();
    match payload.state {
        Some(state) => {
            if state as usize >= n {
                return Err(InboundError::StateOutOfBounds { state, len: n });
            }
            let s = state as usize;
            let text = chosen_value(&payload.title, &instance.action.states[s].text);
            if instance.states[s].text == text {
                assert(texts_of(before.states@) =~= wanted);
                return Ok(Vec::new());
            }
            assert(wanted[s as int] != texts_of(before.states@)[s as int]);
            instance.states[s].text = text;
            assert(texts_of(instance.states@) =~= wanted);
            assert(images_of(instance.states@) =~= images_of(before.states@));
        },
        None => {
            let mut same = true;
            let mut i: usize = 0;
            while i < n
                invariant
                    n == instance.states@.len(),
                    *instance == before,
                    n <= instance.action.states@.len(),
                    i <= n,
                    wanted == updated_fields(
                        texts_of(before.states@),
                        texts_of(before.action.states@),
                        payload.title.deep_view(),
                        payload.state,
                    ),
                    same == (forall|k: int| 0 <= k < i ==> texts_of(before.states@)[k] == wanted[k]),
                    payload.state is None,
                decreases n - i,
            {
                let text = chosen_value(&payload.title, &instance.action.states[i].text);
                assert(wanted[i as int] == text@);
                assert(texts_of(before.states@)[i as int] == instance.states@[i as int].text@);
                if !(instance.states[i].text == text) {
                    same = false;
                }
                i = i + 1;
            }
            if same {
                assert(texts_of(before.states@) =~= wanted);
                return Ok(Vec::new());
            }
            let mut j: usize = 0;
            while j < n
                invariant
                    n == instance.states@.len(),
                    n == before.states@.len(),
                    *instance == (ActionInstance { states: instance.states, ..before }),
                    n <= instance.action.states@.len(),
                    j <= n,
                    wanted == updated_fields(
                        texts_of(before.states@),
                        texts_of(before.action.states@),
                        payload.title.deep_view(),
                        payload.state,
                    ),
                    payload.state is None,
                    forall|k: int| 0 <= k < j ==> #[trigger] instance.states@[k].text@ == wanted[k],
                    forall|k: int| j <= k < n ==> #[trigger] instance.states@[k] == before.states@[k],
                    forall|k: int| 0 <= k < n ==> #[trigger] instance.states@[k].image == before.states@[k].image,
                decreases n - j,
            {
                let text = chosen_value(&payload.title, &instance.action.states[j].text);
                assert(instance.action == before.action);
                assert(wanted[j as int] == text@);
                instance.states[j].text = text;
                j = j + 1;
            }
            assert(texts_of(instance.states@) =~= wanted);
            assert(images_of(instance.states@) =~= images_of(before.states@));
            assert(wanted != texts_of(before.states@)) by {
                if wanted == texts_of(before.states@) {
                    assert(forall|k: int| 0 <= k < n ==> texts_of(before.states@)[k] == wanted[k]);
                }
            }
        },
    }
    assert(*instance == (ActionInstance { states: instance.states, ..before }));
    assert(wanted != texts_of(before.states@));
    assert(with_texts(before, *instance, wanted));
    Ok(after_update_effects(&instance.context, context))
}

/// What `setImage` does with the image it was sent, before any file is
/// read: nothing, or a blank image, leaves the default images; an image
/// that begins with `data:` (white space aside) is kept as sent; anything
/// else names a file of the plugin, by its text without white space around
/// it.
pub open spec fn image_source_of(image: Option<Seq<char>>, r: ImageSource) -> bool {
    match image {
        None => r is Default,
        Some(s) => {
            let t = trimmed(s);
            if t.len() == 0 {
                r is Default
            } else if has_prefix(t, "data:"@) {
                r matches ImageSource::Inline(x) && x@ == s
            } else {
                r matches ImageSource::PluginFile(p) && p@ == t
            }
        },
    }
}

/// Sorts the image of a `setImage` event (see [`image_source_of`]).
pub fn classify_image(image: &Option<String>) -> (r: ImageSource)
    ensures
        image_source_of(image.deep_view(), r),
{
    match image {
        None => ImageSource::Default,
        Some(s) => {
            let t = trim(s.as_str());
            if t.is_empty() {
                ImageSource::Default
            } else if starts_with(t, "data:") {
                ImageSource::Inline(s.clone())
            } else {
                ImageSource::PluginFile(String::from_str(t))
            }
        },
    }
}

/// `setImage`: sets the image of the named state, or of every state, to the
/// given image, or back to the action's default images. The image is the
/// one the event's image resolved to (see [`classify_image`]).
pub fn set_image(
    instance: Option<&mut ActionInstance>,
    context: &ActionContext,
    payload: &SetImagePayload,
) -> (r: Result<Vec<Effect>, InboundError>)
    requires
        instance matches Some(i) ==> defaults_cover(*i, payload.state),
    ensures
        instance is None ==> (r matches Ok(e) && e@ == after_missing_instance(*context)),
        instance matches Some(i) ==> set_image_outcome(*i, *final(i), *context, *payload, r),
{
    let instance = match instance {
        None => return Ok(missing_instance_effects(context)),
        Some(i) => i,
    };
    let ghost before = *instance;
    let ghost wanted = updated_fields(
        images_of(before.states@),
        images_of(before.action.states@),
        payload.image.deep_view(),
        payload.state,
    );
    let n = instance.states.len();
    match payload.state {
        Some(state) => {
            if state as usize >= n {
                return Err(InboundError::StateOutOfBounds { state, len: n });
            }
            let s = state as usize;
            let image = chosen_value(&payload.image, &instance.action.states[s].image);
            instance.states[s].image = image;
            assert(images_of(instance.states@) =~= wanted);
            assert(texts_of(instance.states@) =~= texts_of(before.states@));
        },
        None => {
            let mut j: usize = 0;
            while j < n
                invariant
                    n == instance.states@.len(),
                    n == before.states@.len(),
                    *instance == (ActionInstance { states: instance.states, ..before }),
                    n <= instance.action.states@.len(),
                    j <= n,
                    wanted == updated_fields(
                        images_of(before.states@),
                        images_of(before.action.states@),
                        payload.image.deep_view(),
                        payload.state,
                    ),
                    payload.state is None,
                    forall|k: int| 0 <= k < j ==> #[trigger] instance.states@[k].image@ == wanted[k],
                    forall|k: int| j <= k < n ==> #[trigger] instance.states@[k] == before.states@[k],
                    forall|k: int| 0 <= k < n ==> #[trigger] instance.states@[k].text == before.states@[k].text,
                decreases n - j,
            {
                let image = chosen_value(&payload.image, &instance.action.states[j].image);
                assert(instance.action == before.action);
                assert(wanted[j as int] == image@);
                instance.states[j].image = image;
                j = j + 1;
            }
            assert(images_of(instance.states@) =~= wanted);
            assert(texts_of(instance.states@) =~= texts_of(before.states@));
        },
    }
    assert(*instance == (ActionInstance { states: instance.states, ..before }));
    Ok(after_update_effects(&instance.context, context))
}

/// What `setState` does to a found instance and which steps follow.
pub open spec fn set_state_outcome(
    before: ActionInstance,
    after: ActionInstance,
    context: ActionContext,
    payload: SetStatePayload,
    steps: Seq<Effect>,
) -> bool {
    if payload.state >= (before.states.len() as u16) {
        &&& steps == Seq::<Effect>::empty()
        &&& after == before
    } else {
        &&& steps == after_update(before.context, context)
        &&& after == (ActionInstance { current_state: payload.state, ..before })
    }
}

/// `setState`: selects the given state of a found instance. A state at or
/// past the instance's number of states, taken modulo 2^16, is ignored, and
/// then no step follows.
pub fn set_state(
    instance: Option<&mut ActionInstance>,
    context: &ActionContext,
    payload: &SetStatePayload,
) -> (r: Vec<Effect>)
    ensures
        instance is None ==> r@ == after_missing_instance(*context),
        instance matches Some(i) ==> set_state_outcome(*i, *final(i), *context, *payload, r@),
{
    match instance {
        None => missing_instance_effects(context),
        Some(instance) => {
            if payload.state >= instance.states.len() as u16 {
                return Vec::new();
            }
            instance.current_state = payload.state;
            after_update_effects(&instance.context, context)
        },
    }
}

/// `setFeedback`: an instance whose action has an encoder takes the
/// feedback into its parsed layout and is redrawn; where that layout is not
/// loaded, the event is refused. Any container above the context is
/// refreshed after.
pub fn set_feedback(instance: Option<&ActionInstance>, context: &ActionContext) -> (r: Result<
    Vec<Effect>,
    InboundError,
>)
    ensures
        match instance {
            Some(i) if i.action.encoder is Some => if i.action.encoder->0.layout_loaded {
                r matches Ok(e) && e@ == seq![
                    Effect::ApplyFeedback,
                    Effect::UpdateState(i.context),
                    Effect::RefreshParent(*context),
                ]
            } else {
                r == Err::<Vec<Effect>, InboundError>(InboundError::LayoutNotLoaded)
            },
            _ => r matches Ok(e) && e@ == seq![Effect::RefreshParent(*context)],
        },
{
    let mut steps = Vec::new();
    if let Some(i) = instance {
        if let Some(encoder) = &i.action.encoder {
            if !encoder.layout_loaded {
                return Err(InboundError::LayoutNotLoaded);
            }
            steps.push(Effect::ApplyFeedback);
            steps.push(Effect::UpdateState(i.context.clone()));
        }
    }
    steps.push(Effect::RefreshParent(context.clone()));
    Ok(steps)
}

/// `setFeedbackLayout`: a found instance loads the named layout and is
/// redrawn; any container above the context is refreshed after.
pub fn set_feedback_layout(
    instance: Option<&ActionInstance>,
    context: &ActionContext,
    payload: &SetFeedbackLayoutPayload,
) -> (r: Vec<Effect>)
    ensures
        r@ == match instance {
            Some(i) => seq![
                Effect::InitialiseLayout(payload.layout),
                Effect::UpdateState(i.context),
                Effect::RefreshParent(*context),
            ],
            None => seq![Effect::RefreshParent(*context)],
        },
{
    let mut steps = Vec::new();
    if let Some(i) = instance {
        steps.push(Effect::InitialiseLayout(payload.layout.clone()));
        steps.push(Effect::UpdateState(i.context.clone()));
    }
    steps.push(Effect::RefreshParent(context.clone()));
    steps
}

/// The context of the container at the same place as `context`, for a
/// context that addresses a child of one (index other than 0).
pub fn dial_stack_root(context: &ActionContext) -> (r: Option<ActionContext>)
    ensures
        context.index == 0 ==> r is None,
        context.index != 0 ==> r == Some(ActionContext { index: 0, ..*context }),
{
    if context.index == 0 {
        None
    } else {
        Some(ActionContext {
            device: context.device.clone(),
            profile: context.profile.clone(),
            controller: context.controller.clone(),
            position: context.position,
            index: 0,
        })
    }
}

/// Which container to redraw after a change to the instance at `context`:
/// the instance found at its root context (`root`), where `context` names a
/// child and that instance is a dial stack or an action wheel; else none.
pub fn maybe_update_dial_stack_parent(
    context: &ActionContext,
    root: Option<&ActionInstance>,
) -> (r: Option<ActionContext>)
    ensures
        r == (if context.index != 0 && (root matches Some(x) && x.is_container()) {
            Some(ActionContext { index: 0, ..*context })
        } else {
            None
        }),
{
    if context.index == 0 {
        return None;
    }
    match root {
        Some(x) => {
            if is_container_uuid(x.action.uuid.as_str()) {
                dial_stack_root(context)
            } else {
                None
            }
        },
        None => None,
    }
}

} // verus!
