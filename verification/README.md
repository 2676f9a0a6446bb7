# opendeck

The decisions a stream-deck host makes when plugins and encoder dials send it
events, written in Verus and proved against their contracts.

- `src/model.rs`: action instances, their contexts, states and children.
- `src/states.rs`: `setTitle`, `setImage`, `setState`, `setFeedback`,
  `setFeedbackLayout`, and which container to redraw after a change; each
  handler updates the instance and returns the steps the host takes next.
- `src/encoder.rs`: dial turns, presses and touch-strip taps, routed to a plain
  action, through a dial stack, or around an action wheel.
- `src/message.rs`: messages to plugins, `willAppear` and `willDisappear`.
- `src/laws.rs`: properties across calls (wheel turns add up and undo each
  other, dial stacks cycle, repeated updates change nothing more).
- `src/text.rs`, `src/settings.rs`: the std and `serde_json` operations the
  library relies on, with the contracts it assumes of them.
- `app/`: the host side: serde forms of payloads and messages, the `Host`
  trait of the running application, and handlers that carry out the steps.
