use vstd::prelude::*;
use vstd::string::StringExecFns;

use crate::chain::Chain;
use crate::math::FP_ONE;
use crate::text::string_eq;

verus! {

/// Keyboard keys the runtime maps to actions.
#[derive(Clone, Copy, Debug, PartialEq, Eq, Structural)]
pub enum KeyCode {
    KeyW,
    KeyA,
    KeyS,
    KeyD,
    KeyQ,
    KeyE,
}

/// Gamepad buttons the runtime maps to actions.
#[derive(Clone, Copy, Debug, PartialEq, Eq, Structural)]
pub enum Button {
    DPadUp,
    DPadDown,
}

/// Gamepad axes the runtime maps to actions.
#[derive(Clone, Copy, Debug, PartialEq, Eq, Structural)]
pub enum Axis {
    LeftStickX,
    LeftStickY,
}

/// The recorded state of one action: a digital press or an analog
/// fixed-point axis value.
#[derive(Clone, Copy, Debug, PartialEq, Eq, Structural)]
pub enum ActionState {
    Digital(bool),
    Analog(i64),
}

/// One abstracted input event, as delivered by the host's raw device polling.
#[derive(Clone, Copy, Debug, PartialEq, Eq, Structural)]
pub enum InputEvent {
    Key(KeyCode, bool),
    PadButton(Button, bool),
    PadAxis(Axis, i64),
}

/// The input-query capability: raw keys, buttons and axes are mapped to named
/// actions, and entities query boolean or axis state by action name.
///
/// Recorded states are prepended, and queries read the most recent entry for
/// a name, so handling an event never rewrites history.
pub struct InputHandler {
    pub keyboard_mappings: Vec<(KeyCode, String)>,
    pub button_mappings: Vec<(Button, String)>,
    pub axis_mappings: Vec<(Axis, String)>,
    pub states: Chain<(String, ActionState)>,
}

/// The action a key is mapped to: the first mapping that names it.
pub open spec fn spec_key_action(mappings: Seq<(KeyCode, String)>, key: KeyCode) -> Option<String>
    decreases mappings.len(),
{
    if mappings.len() == 0 {
        Option::None
    } else if mappings[0].0 == key {
        Option::Some(mappings[0].1)
    } else {
        spec_key_action(mappings.subrange(1, mappings.len() as int), key)
    }
}

/// The action a gamepad button is mapped to.
pub open spec fn spec_button_action(mappings: Seq<(Button, String)>, button: Button) -> Option<
    String,
>
    decreases mappings.len(),
{
    if mappings.len() == 0 {
        Option::None
    } else if mappings[0].0 == button {
        Option::Some(mappings[0].1)
    } else {
        spec_button_action(mappings.subrange(1, mappings.len() as int), button)
    }
}

/// The action a gamepad axis is mapped to.
pub open spec fn spec_axis_action(mappings: Seq<(Axis, String)>, axis: Axis) -> Option<String>
    decreases mappings.len(),
{
    if mappings.len() == 0 {
        Option::None
    } else if mappings[0].0 == axis {
        Option::Some(mappings[0].1)
    } else {
        spec_axis_action(mappings.subrange(1, mappings.len() as int), axis)
    }
}

/// The most recently recorded state of the named action.
pub open spec fn spec_action_state(states: Chain<(String, ActionState)>, name: Seq<char>) -> Option<
    ActionState,
>
    decreases states,
{
    match states {
        Chain::End => Option::None,
        Chain::Link(entry, rest) => if entry.0@ == name {
            Option::Some(entry.1)
        } else {
            spec_action_state(*rest, name)
        },
    }
}

/// The input handler after recording one event: the state of the mapped
/// action is prepended; an unmapped event changes nothing.
pub open spec fn spec_handle_event(handler: InputHandler, event: InputEvent) -> InputHandler {
    match event {
        InputEvent::Key(key, pressed) => match spec_key_action(handler.keyboard_mappings@, key) {
            Option::Some(name) => InputHandler {
                states: Chain::Link((name, ActionState::Digital(pressed)), Box::new(handler.states)),
                ..handler
            },
            Option::None => handler,
        },
        InputEvent::PadButton(button, pressed) => match spec_button_action(
            handler.button_mappings@,
            button,
        ) {
            Option::Some(name) => InputHandler {
                states: Chain::Link((name, ActionState::Digital(pressed)), Box::new(handler.states)),
                ..handler
            },
            Option::None => handler,
        },
        InputEvent::PadAxis(axis, value) => match spec_axis_action(handler.axis_mappings@, axis) {
            Option::Some(name) => InputHandler {
                states: Chain::Link((name, ActionState::Analog(value)), Box::new(handler.states)),
                ..handler
            },
            Option::None => handler,
        },
    }
}

/// Whether the named action is digitally pressed.
pub open spec fn spec_action_pressed(handler: InputHandler, name: Seq<char>) -> bool {
    spec_action_state(handler.states, name) == Option::Some(ActionState::Digital(true))
}

/// The dynamic axis value of an action triple: the analog axis state when one
/// is recorded; otherwise a full positive or negative unit from the digital
/// pair when exactly one of the two is pressed; otherwise nothing.
pub open spec fn spec_dynamic_axis(
    handler: InputHandler,
    axis_name: Seq<char>,
    positive_name: Seq<char>,
    negative_name: Seq<char>,
) -> Option<i64> {
    match spec_action_state(handler.states, axis_name) {
        Option::Some(ActionState::Analog(value)) => Option::Some(value),
        _ => {
            let positive = spec_action_pressed(handler, positive_name);
            let negative = spec_action_pressed(handler, negative_name);
            if positive && !negative {
                Option::Some(FP_ONE)
            } else if negative && !positive {
                Option::Some((-FP_ONE) as i64)
            } else {
                Option::None
            }
        },
    }
}

impl InputHandler {
    /// A handler with no mappings and no recorded state.
    pub fn new() -> (h: InputHandler)
        ensures
            h.keyboard_mappings@ == Seq::<(KeyCode, String)>::empty(),
            h.button_mappings@ == Seq::<(Button, String)>::empty(),
            h.axis_mappings@ == Seq::<(Axis, String)>::empty(),
            h.states == Chain::<(String, ActionState)>::End,
    {
        InputHandler {
            keyboard_mappings: Vec::new(),
            button_mappings: Vec::new(),
            axis_mappings: Vec::new(),
            states: Chain::End,
        }
    }

    /// Maps a keyboard key to an action name.
    pub fn register_keyboard_mapping(&mut self, key: KeyCode, action: &str)
        ensures
            final(self).keyboard_mappings@.len() == old(self).keyboard_mappings@.len() + 1,
            final(self).keyboard_mappings@.last().0 == key,
            final(self).keyboard_mappings@.last().1@ == action@,
            final(self).keyboard_mappings@.drop_last() == old(self).keyboard_mappings@,
            final(self).button_mappings == old(self).button_mappings,
            final(self).axis_mappings == old(self).axis_mappings,
            final(self).states == old(self).states,
    {
        self.keyboard_mappings.push((key, String::from_str(action)));
        proof {
            assert(self.keyboard_mappings@.drop_last() =~= old(self).keyboard_mappings@);
        }
    }

    /// Maps a gamepad button to an action name.
    pub fn register_gamepad_button_mapping(&mut self, button: Button, action: &str)
        ensures
            final(self).button_mappings@.len() == old(self).button_mappings@.len() + 1,
            final(self).button_mappings@.last().0 == button,
            final(self).button_mappings@.last().1@ == action@,
            final(self).button_mappings@.drop_last() == old(self).button_mappings@,
            final(self).keyboard_mappings == old(self).keyboard_mappings,
            final(self).axis_mappings == old(self).axis_mappings,
            final(self).states == old(self).states,
    {
        self.button_mappings.push((button, String::from_str(action)));
        proof {
            assert(self.button_mappings@.drop_last() =~= old(self).button_mappings@);
        }
    }

    /// Maps a gamepad axis to an action name.
    pub fn register_gamepad_axis_mapping(&mut self, axis: Axis, action: &str)
        ensures
            final(self).axis_mappings@.len() == old(self).axis_mappings@.len() + 1,
            final(self).axis_mappings@.last().0 == axis,
            final(self).axis_mappings@.last().1@ == action@,
            final(self).axis_mappings@.drop_last() == old(self).axis_mappings@,
            final(self).keyboard_mappings == old(self).keyboard_mappings,
            final(self).button_mappings == old(self).button_mappings,
            final(self).states == old(self).states,
    {
        self.axis_mappings.push((axis, String::from_str(action)));
        proof {
            assert(self.axis_mappings@.drop_last() =~= old(self).axis_mappings@);
        }
    }

    /// Records one abstracted input event.
    pub fn handle_event(&mut self, event: &InputEvent)
        ensures
            *final(self) == spec_handle_event(*old(self), *event),
    {
        match event {
            InputEvent::Key(key, pressed) => {
                let action = Self::find_key_action(&self.keyboard_mappings, *key);
                match action {
                    Option::Some(name) => self.record(name, ActionState::Digital(*pressed)),
                    Option::None => {},
                }
            },
            InputEvent::PadButton(button, pressed) => {
                let action = Self::find_button_action(&self.button_mappings, *button);
                match action {
                    Option::Some(name) => self.record(name, ActionState::Digital(*pressed)),
                    Option::None => {},
                }
            },
            InputEvent::PadAxis(axis, value) => {
                let action = Self::find_axis_action(&self.axis_mappings, *axis);
                match action {
                    Option::Some(name) => self.record(name, ActionState::Analog(*value)),
                    Option::None => {},
                }
            },
        }
    }

    /// The most recently recorded state of the named action.
    pub fn lookup_state(&self, name: &str) -> (r: Option<ActionState>)
        ensures
            r == spec_action_state(self.states, name@),
    {
        let mut current: &Chain<(String, ActionState)> = &self.states;
        loop
            invariant
                spec_action_state(self.states, name@) == spec_action_state(*current, name@),
            decreases *current,
        {
            match current {
                Chain::End => {
                    return Option::None;
                },
                Chain::Link(entry, rest) => {
                    if string_eq(name, &entry.0) {
                        return Option::Some(entry.1);
                    }
                    current = rest;
                },
            }
        }
    }

    /// Queries the dynamic axis of an action triple: an analog axis state
    /// when recorded, else the digital pair mapped to a positive or negative
    /// unit, else nothing.
    pub fn get_dynamic_axis(
        &self,
        axis_action: &str,
        positive_action: &str,
        negative_action: &str,
    ) -> (r: Option<i64>)
        ensures
            r == spec_dynamic_axis(*self, axis_action@, positive_action@, negative_action@),
    {
        match self.lookup_state(axis_action) {
            Option::Some(ActionState::Analog(value)) => Option::Some(value),
            _ => {
                let positive = match self.lookup_state(positive_action) {
                    Option::Some(ActionState::Digital(true)) => true,
                    _ => false,
                };
                let negative = match self.lookup_state(negative_action) {
                    Option::Some(ActionState::Digital(true)) => true,
                    _ => false,
                };
                if positive && !negative {
                    Option::Some(FP_ONE)
                } else if negative && !positive {
                    Option::Some(-FP_ONE)
                } else {
                    Option::None
                }
            },
        }
    }

    /// Prepends one recorded state.
    fn record(&mut self, name: String, state: ActionState)
        ensures
            *final(self) == (InputHandler {
                states: Chain::Link((name, state), Box::new(old(self).states)),
                ..*old(self)
            }),
    {
        let mut states = Chain::End;
        core::mem::swap(&mut self.states, &mut states);
        self.states = states.prepend((name, state));
    }

    /// The first keyboard mapping for `key`, its action name cloned out.
    fn find_key_action(mappings: &Vec<(KeyCode, String)>, key: KeyCode) -> (r: Option<String>)
        ensures
            r == spec_key_action(mappings@, key),
    {
        let mut i: usize = 0;
        proof {
            assert(mappings@.subrange(0, mappings@.len() as int) =~= mappings@);
        }
        while i < mappings.len()
            invariant
                0 <= i <= mappings@.len(),
                spec_key_action(mappings@, key) == spec_key_action(
                    mappings@.subrange(i as int, mappings@.len() as int),
                    key,
                ),
            decreases mappings@.len() - i,
        {
            proof {
                assert(mappings@.subrange(i as int, mappings@.len() as int).subrange(
                    1,
                    mappings@.len() - i,
                ) =~= mappings@.subrange(i + 1, mappings@.len() as int));
            }
            if mappings[i].0 == key {
                return Option::Some(mappings[i].1.clone());
            }
            i = i + 1;
        }
        Option::None
    }

    /// The first gamepad button mapping for `button`.
    fn find_button_action(mappings: &Vec<(Button, String)>, button: Button) -> (r: Option<String>)
        ensures
            r == spec_button_action(mappings@, button),
    {
        let mut i: usize = 0;
        proof {
            assert(mappings@.subrange(0, mappings@.len() as int) =~= mappings@);
        }
        while i < mappings.len()
            invariant
                0 <= i <= mappings@.len(),
                spec_button_action(mappings@, button) == spec_button_action(
                    mappings@.subrange(i as int, mappings@.len() as int),
                    button,
                ),
            decreases mappings@.len() - i,
        {
            proof {
                assert(mappings@.subrange(i as int, mappings@.len() as int).subrange(
                    1,
                    mappings@.len() - i,
                ) =~= mappings@.subrange(i + 1, mappings@.len() as int));
            }
            if mappings[i].0 == button {
                return Option::Some(mappings[i].1.clone());
            }
            i = i + 1;
        }
        Option::None
    }

    /// The first gamepad axis mapping for `axis`.
    fn find_axis_action(mappings: &Vec<(Axis, String)>, axis: Axis) -> (r: Option<String>)
        ensures
            r == spec_axis_action(mappings@, axis),
    {
        let mut i: usize = 0;
        proof {
            assert(mappings@.subrange(0, mappings@.len() as int) =~= mappings@);
        }
        while i < mappings.len()
            invariant
                0 <= i <= mappings@.len(),
                spec_axis_action(mappings@, axis) == spec_axis_action(
                    mappings@.subrange(i as int, mappings@.len() as int),
                    axis,
                ),
            decreases mappings@.len() - i,
        {
            proof {
                assert(mappings@.subrange(i as int, mappings@.len() as int).subrange(
                    1,
                    mappings@.len() - i,
                ) =~= mappings@.subrange(i + 1, mappings@.len() as int));
            }
            if mappings[i].0 == axis {
                return Option::Some(mappings[i].1.clone());
            }
            i = i + 1;
        }
        Option::None
    }
}

} // verus!
